use crate::future::{CoFuture, Poll};
use crate::waker::{Handle, WakerContext, WakerSlot};
use vstd::prelude::*;

verus! {

/// What a resumable procedure reports each time it is resumed: either "more
/// pausing needed" or the final result.
pub enum Step<O> {
    Yielded,
    Complete(O),
}

/// A resumable procedure: a sequential computation with an internal
/// resumption point and captured local state. Each resumption runs
/// synchronously until the next suspension point or until completion; all
/// access to "the current handle" goes through the lent `WakerContext`.
/// After it has reported `Complete` it may not be resumed again.
pub trait Resumable<O>: Sized {
    /// Well-formedness of the captured local state.
    spec fn wf(&self) -> bool;

    /// Whether the procedure has reported its final result.
    spec fn completed(&self) -> bool;

    /// The transition relation of one resumption: state before, the current
    /// handle as the slot holds it on entry, state after, the handle after
    /// (its wake count grows by the notifications delivered), and what the
    /// resumption reported.
    spec fn tr(pre: Self, h: Handle, post: Self, h2: Handle, r: Step<O>) -> bool;

    /// Resume from the last suspension point and run to the next one, or to
    /// completion. A single resumption passes at most one suspension point
    /// and notifies the current handle at most once.
    fn resume(&mut self, ctx: &mut WakerContext) -> (r: Step<O>)
        requires
            old(self).wf(),
            !old(self).completed(),
            old(ctx).has_handle(),
            old(ctx).cur().wakes < u64::MAX,
        ensures
            final(self).wf(),
            final(ctx).has_handle(),
            final(ctx).cur().id == old(ctx).cur().id,
            old(ctx).cur().wakes <= final(ctx).cur().wakes <= old(ctx).cur().wakes + 1,
            Self::tr(*old(self), old(ctx).cur(), *final(self), final(ctx).cur(), r),
            r is Complete <==> final(self).completed(),
    ;
}

/// A deferred recipe for a resumable procedure. The adapter stores it until
/// the first poll call and only then builds the procedure, so that
/// construction happens after the adapter has been committed to its final
/// place by its owner.
pub trait Factory<O, T: Resumable<O>>: Sized {
    /// Well-formedness of the recipe.
    spec fn wf(&self) -> bool;

    /// Which procedures this recipe can produce.
    spec fn builds(&self, t: T) -> bool;

    /// Produce the procedure, consuming the recipe.
    fn build(self) -> (t: T)
        requires
            self.wf(),
        ensures
            self.builds(t),
            t.wf(),
            !t.completed(),
    ;
}

/// The two-state lifecycle of the adapter's payload: not yet started (a
/// deferred factory) or started (the resumable procedure itself).
pub enum CoState<T, B> {
    Init(B),
    Running(T),
}

/// The coroutine adapter: wraps a lazily-built resumable procedure so that
/// it satisfies the poll contract.
///
/// The adapter owns the waker slot (inside its `WakerContext`) and is its
/// only writer: every poll call overwrites the slot with the handle of that
/// call, so the slot always reflects the most recent one. The procedure
/// reads the slot only through the context the adapter lends it for the
/// span of each resumption, so it always observes the latest handle.
///
/// The payload is held in an `Option` and taken out before each resumption
/// begins: if resuming ever terminated abruptly, the adapter would be left
/// recognizably empty rather than silently able to resume the same step
/// again. On completion the payload is consumed the same way, which makes a
/// poll call after `Ready` a contract violation rather than a state to
/// handle.
pub struct CoAsync<T, B> {
    pub state: Option<CoState<T, B>>,
    pub ctx: WakerContext,
}

/// The procedure a poll call starts from: the one the stored factory
/// builds, if the adapter has not started yet, or the stored procedure.
pub open spec fn co_starts<O, T: Resumable<O>, B: Factory<O, T>>(
    pre: CoAsync<T, B>,
    t0: T,
) -> bool {
    match pre.state {
        Some(CoState::Init(b)) => b.builds(t0) && t0.wf() && !t0.completed(),
        Some(CoState::Running(t)) => t0 == t,
        None => false,
    }
}

impl<T, B> CoAsync<T, B> {
    /// The most recently supplied scheduling handle, or none before the
    /// first poll call.
    pub open spec fn latest(&self) -> Option<Handle> {
        self.ctx.slot.cur
    }

    /// Wrap a deferred factory; the procedure itself is only built on the
    /// first poll call.
    pub fn new(init: B) -> (r: Self)
        ensures
            r.state == Some(CoState::<T, B>::Init(init)),
            r.latest() is None,
    {
        CoAsync { state: Some(CoState::Init(init)), ctx: WakerContext { slot: WakerSlot { cur: None } } }
    }
}

impl<O, T: Resumable<O>, B: Factory<O, T>> CoFuture<O> for CoAsync<T, B> {
    open spec fn wf(&self) -> bool {
        match self.state {
            Some(CoState::Init(b)) => b.wf(),
            Some(CoState::Running(t)) => t.wf() && !t.completed(),
            None => true,
        }
    }

    open spec fn done(&self) -> bool {
        self.state is None
    }

    /// One poll call overwrites the slot with the supplied handle, obtains
    /// the procedure (building it first if the adapter had not started),
    /// resumes it exactly once, and maps its report onto the poll contract:
    /// `Complete` becomes `Ready` and consumes the payload, `Yielded`
    /// becomes `Pending` and stores the procedure back.
    open spec fn step(pre: Self, h: Handle, post: Self, h2: Handle, r: Poll<O>) -> bool {
        &&& post.latest() == Some(h2)
        &&& exists|t0: T, t1: T|
            {
                &&& #[trigger] co_starts(pre, t0)
                &&& #[trigger] T::tr(t0, h, t1, h2, as_step(r))
                &&& (r is Ready ==> post.state is None)
                &&& (r is Pending ==> post.state == Some(CoState::<T, B>::Running(t1)))
            }
    }

    fn poll(&mut self, h: &mut Handle) -> (r: Poll<O>) {
        // The slot is overwritten unconditionally, on every call, so that it
        // always holds the handle of the most recent poll call.
        self.ctx.slot.cur = Some(*h);
        // Take the payload out before resuming: an abrupt end of the
        // resumption would leave the adapter recognizably empty.
        let st = self.state.take();
        let mut proc: T = match st {
            Some(CoState::Init(b)) => b.build(),
            Some(CoState::Running(t)) => t,
            None => vstd::pervasive::unreached(),
        };
        let ghost t0: T = proc;
        let step = proc.resume(&mut self.ctx);
        let ghost t1: T = proc;
        // Hand the wake notifications delivered during the resumption back
        // to the caller's handle.
        match &self.ctx.slot.cur {
            Some(hc) => {
                *h = *hc;
            },
            None => {
                proof {
                    assert(false);
                }
            },
        }
        let r = match step {
            Step::Complete(v) => Poll::Ready(v),
            Step::Yielded => {
                self.state = Some(CoState::Running(proc));
                Poll::Pending
            },
        };
        proof {
            assert(co_starts(*old(self), t0));
            assert(T::tr(t0, *old(h), t1, *h, as_step(r)));
        }
        r
    }
}

/// The report of a resumption, seen through the poll contract: completion
/// is readiness, a suspension is "pending".
pub open spec fn as_step<O>(r: Poll<O>) -> Step<O> {
    match r {
        Poll::Ready(v) => Step::Complete(v),
        Poll::Pending => Step::Yielded,
    }
}

} // verus!
