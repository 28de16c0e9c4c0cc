use crate::future::{CoFuture, Poll};
use crate::waker::Handle;
use vstd::prelude::*;

verus! {

/// A future completed by an external event source rather than by its own
/// computation: it registers the current handle on every poll and reports
/// `Pending` until the event has fired.
///
/// The event itself (in the original demonstration, a timer expiring on a
/// background thread) lives outside this library: the surrounding program
/// observes the first `Pending`, starts the timer, and when it expires
/// calls [`Sleep::fire`] and wakes the handle that call returns.
pub struct Sleep {
    /// Whether the external event has happened.
    pub fired: bool,
    /// Whether `poll` has reported `Ready`.
    pub finished: bool,
    /// The handle of the most recent poll call, or none before the first.
    pub registered: Option<Handle>,
}

impl Sleep {
    pub fn new() -> (r: Sleep)
        ensures
            !r.fired,
            !r.finished,
            r.registered is None,
    {
        Sleep { fired: false, finished: false, registered: None }
    }

    /// The external event: record that it has happened and hand back the
    /// most recently registered handle, so the caller can wake it. Whatever
    /// handle earlier poll calls supplied, only the latest one is returned.
    pub fn fire(&mut self) -> (r: Option<Handle>)
        ensures
            final(self).fired,
            final(self).finished == old(self).finished,
            final(self).registered == old(self).registered,
            r == old(self).registered,
    {
        self.fired = true;
        self.registered
    }
}

impl CoFuture<()> for Sleep {
    open spec fn wf(&self) -> bool {
        self.finished ==> self.fired
    }

    open spec fn done(&self) -> bool {
        self.finished
    }

    /// Every poll overwrites the registered handle with the one supplied,
    /// so a later wake can only notify the latest handle. No wake is
    /// delivered during the poll itself (the first call leaves the start of
    /// the timer to the surrounding program), so the handle comes back
    /// unchanged.
    open spec fn step(pre: Self, h: Handle, post: Self, h2: Handle, r: Poll<()>) -> bool {
        &&& h2 == h
        &&& post.registered == Some(h)
        &&& post.fired == pre.fired
        &&& if pre.registered is None {
            r is Pending && !post.finished
        } else if pre.fired {
            r == Poll::<()>::Ready(()) && post.finished
        } else {
            r is Pending && !post.finished
        }
    }

    fn poll(&mut self, h: &mut Handle) -> (r: Poll<()>) {
        let first = self.registered.is_none();
        self.registered = Some(*h);
        if first {
            // the surrounding program now starts the external event source
            Poll::Pending
        } else if self.fired {
            self.finished = true;
            Poll::Ready(())
        } else {
            Poll::Pending
        }
    }
}

} // verus!
