use crate::waker::Handle;
use vstd::prelude::*;

verus! {

/// Result of one non-blocking attempt to make progress: either the final
/// value of the computation, or "still pending, try again later".
pub enum Poll<O> {
    Ready(O),
    Pending,
}

/// The uniform poll contract that an external scheduler drives.
///
/// `poll(handle)` attempts progress now, using `handle` as the scheduling
/// handle for this resumption attempt. The contract is single-shot: once a
/// call has returned `Ready`, the future is `done` and no further `poll`
/// call is permitted (the `requires` clause excludes it), so the final value
/// is never handed out twice.
///
/// Each implementor pins its exact behaviour down in `step`, the transition
/// relation of one poll call: it relates the state before the call, the
/// handle supplied to the call, the state after, the handle as it stands
/// after the call (its wake count may have grown by the notifications the
/// computation delivered), and the reported result.
pub trait CoFuture<O>: Sized {
    /// Well-formedness of the current state; established by constructors
    /// and preserved by `poll`.
    spec fn wf(&self) -> bool;

    /// Whether this future has already reported `Ready`.
    spec fn done(&self) -> bool;

    /// The transition relation of one `poll` call.
    spec fn step(pre: Self, h: Handle, post: Self, h2: Handle, r: Poll<O>) -> bool;

    /// Attempt progress now; report a final value or "still pending".
    ///
    /// One resumption passes at most one suspension point, and a suspension
    /// notifies the handle at most once, so the wake count grows by at most
    /// one per call.
    fn poll(&mut self, h: &mut Handle) -> (r: Poll<O>)
        requires
            old(self).wf(),
            !old(self).done(),
            old(h).wakes < u64::MAX,
        ensures
            final(self).wf(),
            final(h).id == old(h).id,
            old(h).wakes <= final(h).wakes <= old(h).wakes + 1,
            Self::step(*old(self), *old(h), *final(self), *final(h), r),
            r is Ready <==> final(self).done(),
    ;
}

} // verus!
