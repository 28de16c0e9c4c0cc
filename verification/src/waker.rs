use crate::future::{CoFuture, Poll};
use vstd::prelude::*;

verus! {

/// The scheduling handle: names a task to the external scheduler and counts
/// the wake notifications delivered to it. It is cheap to copy, and a copy
/// names the same task.
#[derive(Clone, Copy, PartialEq, Eq, Structural, Debug)]
pub struct Handle {
    /// Which task the scheduler should revisit when this handle is woken.
    pub id: u64,
    /// How many "please re-run me soon" notifications this handle has
    /// received.
    pub wakes: u64,
}

impl Handle {
    /// Notify the scheduler that the task named by this handle should be
    /// revisited soon.
    pub fn wake(&mut self)
        requires
            old(self).wakes < u64::MAX,
        ensures
            final(self).id == old(self).id,
            final(self).wakes == old(self).wakes + 1,
    {
        self.wakes = self.wakes + 1;
    }
}

/// One storage cell holding the most recently supplied scheduling handle, or
/// none before the first poll. The adapter overwrites it on every poll call;
/// the resumable procedure reads it, through a `WakerContext`, at every
/// suspension point.
#[derive(Clone, Copy)]
pub struct WakerSlot {
    pub cur: Option<Handle>,
}

/// The capability given to a resumable procedure: all access to "the current
/// handle" funnels through it, and always reads the waker slot at call time,
/// never a copy frozen earlier. The adapter owns the context (and with it
/// the slot) and lends it to the procedure for the span of each resumption,
/// so what the procedure observes is exactly the handle of the most recent
/// poll call.
pub struct WakerContext {
    pub slot: WakerSlot,
}

impl WakerContext {
    /// The slot holds a handle (true from the first poll call on).
    pub open spec fn has_handle(&self) -> bool {
        self.slot.cur is Some
    }

    /// The most recently supplied scheduling handle.
    pub open spec fn cur(&self) -> Handle {
        self.slot.cur->0
    }

    /// Invoke `f` with the current handle. The handle is handed over as a
    /// copy, so nothing can retain a stale borrow of the slot across a
    /// suspension.
    pub fn with<R, F: FnOnce(Handle) -> R>(&self, f: F) -> (r: R)
        requires
            self.has_handle(),
            forall|h: Handle| #[trigger] f.requires((h,)),
        ensures
            f.ensures((self.cur(),), r),
    {
        match &self.slot.cur {
            Some(h) => f(*h),
            None => vstd::pervasive::unreached(),
        }
    }

    /// Poll a nested future-like value using the current handle; wake
    /// notifications the nested computation delivers land on that handle,
    /// in the slot, and are so handed back to the external caller.
    pub fn poll<O, F: CoFuture<O>>(&mut self, f: &mut F) -> (r: Poll<O>)
        requires
            old(self).has_handle(),
            old(self).cur().wakes < u64::MAX,
            old(f).wf(),
            !old(f).done(),
        ensures
            final(self).has_handle(),
            final(self).cur().id == old(self).cur().id,
            old(self).cur().wakes <= final(self).cur().wakes <= old(self).cur().wakes + 1,
            final(f).wf(),
            F::step(*old(f), old(self).cur(), *final(f), final(self).cur(), r),
            r is Ready <==> final(f).done(),
    {
        match &mut self.slot.cur {
            Some(h) => f.poll(h),
            None => vstd::pervasive::unreached(),
        }
    }

    /// Invoke the current handle's "please re-run me soon" notification.
    pub fn wake(&mut self)
        requires
            old(self).has_handle(),
            old(self).cur().wakes < u64::MAX,
        ensures
            final(self).has_handle(),
            final(self).cur().id == old(self).cur().id,
            final(self).cur().wakes == old(self).cur().wakes + 1,
    {
        match &mut self.slot.cur {
            Some(h) => h.wake(),
            None => {
                proof {
                    assert(false);
                }
            }
        }
    }
}

} // verus!
