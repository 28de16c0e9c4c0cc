use crate::adapter::{CoAsync, CoState, Factory, Resumable, Step};
use crate::future::{CoFuture, Poll};
use crate::waker::{Handle, WakerContext};
use vstd::prelude::*;

verus! {

/// The resumable procedure of a body that suspends once and then returns a
/// value: what the syntax rewriter produces for "suspend; value".
pub struct OnceProc {
    pub value: i32,
    pub suspended: bool,
    pub finished: bool,
}

impl Resumable<i32> for OnceProc {
    open spec fn wf(&self) -> bool {
        self.finished ==> self.suspended
    }

    open spec fn completed(&self) -> bool {
        self.finished
    }

    /// First resumption: notify the current handle (the bare suspend always
    /// self-wakes), then pause. Second resumption: complete with the value.
    open spec fn tr(pre: Self, h: Handle, post: Self, h2: Handle, r: Step<i32>) -> bool {
        if !pre.suspended {
            &&& post.value == pre.value
            &&& post.suspended
            &&& !post.finished
            &&& h2.id == h.id
            &&& h2.wakes == h.wakes + 1
            &&& r is Yielded
        } else {
            &&& post.value == pre.value
            &&& post.suspended
            &&& post.finished
            &&& h2 == h
            &&& r == Step::Complete(pre.value)
        }
    }

    fn resume(&mut self, ctx: &mut WakerContext) -> (r: Step<i32>) {
        if !self.suspended {
            // the expansion of a bare suspend: wake the current handle so
            // the scheduler retries soon, then pause
            ctx.wake();
            self.suspended = true;
            Step::Yielded
        } else {
            self.finished = true;
            Step::Complete(self.value)
        }
    }
}

/// Deferred recipe for `OnceProc`.
pub struct OnceFactory {
    pub value: i32,
}

impl Factory<i32, OnceProc> for OnceFactory {
    open spec fn wf(&self) -> bool {
        true
    }

    open spec fn builds(&self, t: OnceProc) -> bool {
        t.value == self.value && !t.suspended && !t.finished
    }

    fn build(self) -> (t: OnceProc) {
        OnceProc { value: self.value, suspended: false, finished: false }
    }
}

/// The future returned by [`test`].
pub type OnceFut = CoAsync<OnceProc, OnceFactory>;

/// A freshly constructed [`OnceFut`] for the value `v`: not yet started,
/// never polled.
pub open spec fn once_fresh(f: OnceFut, v: i32) -> bool {
    &&& f.state == Some(CoState::<OnceProc, OnceFactory>::Init((OnceFactory { value: v })))
    &&& f.latest() is None
}

/// "Suspend once, then return 42", as a pausable computation. Calling it
/// never blocks: it only wraps the deferred procedure in an adapter.
pub fn test() -> (r: OnceFut)
    ensures
        once_fresh(r, 42),
        r.wf(),
        !r.done(),
{
    CoAsync::new(OnceFactory { value: 42 })
}

/// The resumable procedure of a body that is one `await(E)` expression:
/// each resumption asks the waker context to poll the nested computation
/// with the current handle; a final value completes the whole procedure,
/// and anything else pauses it to retry on the next resumption.
pub struct AwaitProc<F> {
    pub fut: F,
}

impl<O, F: CoFuture<O>> Resumable<O> for AwaitProc<F> {
    open spec fn wf(&self) -> bool {
        self.fut.wf()
    }

    open spec fn completed(&self) -> bool {
        self.fut.done()
    }

    /// One resumption is exactly one poll of the nested computation, with
    /// the same handle and the same outcome: awaiting adds nothing and
    /// loses nothing.
    open spec fn tr(pre: Self, h: Handle, post: Self, h2: Handle, r: Step<O>) -> bool {
        F::step(pre.fut, h, post.fut, h2, as_poll(r))
    }

    fn resume(&mut self, ctx: &mut WakerContext) -> (r: Step<O>) {
        match ctx.poll(&mut self.fut) {
            Poll::Ready(v) => Step::Complete(v),
            Poll::Pending => Step::Yielded,
        }
    }
}

/// The outcome of a poll, seen as a resumption report.
pub open spec fn as_poll<O>(r: Step<O>) -> Poll<O> {
    match r {
        Step::Complete(v) => Poll::Ready(v),
        Step::Yielded => Poll::Pending,
    }
}

/// Deferred recipe for `AwaitProc`: holds the nested computation until the
/// first poll.
pub struct AwaitFactory<F> {
    pub fut: F,
}

impl<O, F: CoFuture<O>> Factory<O, AwaitProc<F>> for AwaitFactory<F> {
    open spec fn wf(&self) -> bool {
        self.fut.wf() && !self.fut.done()
    }

    open spec fn builds(&self, t: AwaitProc<F>) -> bool {
        t.fut == self.fut
    }

    fn build(self) -> (t: AwaitProc<F>) {
        AwaitProc { fut: self.fut }
    }
}

/// The future returned by [`foo`].
pub type FooFut = CoAsync<AwaitProc<OnceFut>, AwaitFactory<OnceFut>>;

/// A freshly constructed [`FooFut`]: not yet started, wrapping a fresh
/// [`test`] future.
pub open spec fn foo_fresh(r: FooFut) -> bool {
    &&& match r.state {
        Some(CoState::Init(b)) => once_fresh(b.fut, 42),
        _ => false,
    }
    &&& r.latest() is None
}

/// "await(test())", as a pausable computation.
pub fn foo() -> (r: FooFut)
    ensures
        foo_fresh(r),
        r.wf(),
        !r.done(),
{
    CoAsync::new(AwaitFactory { fut: test() })
}

/// Where a body with two sequential `await` expressions currently stands.
#[derive(Clone, Copy, PartialEq, Eq, Structural)]
pub enum PairPhase {
    First,
    Second,
    Finished,
}

/// The resumable procedure of a body that awaits two inner computations in
/// sequence and returns the second one's value. When the first await
/// completes, execution continues synchronously into the second await
/// within the same resumption, exactly as the rewritten sequential code
/// would.
pub struct PairProc {
    pub first: OnceFut,
    pub second: OnceFut,
    pub phase: PairPhase,
}

impl Resumable<i32> for PairProc {
    open spec fn wf(&self) -> bool {
        match self.phase {
            PairPhase::First => {
                &&& self.first.wf()
                &&& !self.first.done()
                &&& self.second.wf()
                &&& !self.second.done()
            },
            PairPhase::Second => self.second.wf() && !self.second.done(),
            PairPhase::Finished => true,
        }
    }

    open spec fn completed(&self) -> bool {
        self.phase is Finished
    }

    open spec fn tr(pre: Self, h: Handle, post: Self, h2: Handle, r: Step<i32>) -> bool {
        match pre.phase {
            PairPhase::First => {
                ||| {
                    &&& <OnceFut as CoFuture<i32>>::step(pre.first, h, post.first, h2, Poll::Pending)
                    &&& post.second == pre.second
                    &&& post.phase is First
                    &&& r is Yielded
                }
                ||| exists|hm: Handle, a: i32|
                    {
                        &&& #[trigger] <OnceFut as CoFuture<i32>>::step(
                            pre.first,
                            h,
                            post.first,
                            hm,
                            Poll::Ready(a),
                        )
                        &&& {
                            ||| {
                                &&& <OnceFut as CoFuture<i32>>::step(
                                    pre.second,
                                    hm,
                                    post.second,
                                    h2,
                                    Poll::Pending,
                                )
                                &&& post.phase is Second
                                &&& r is Yielded
                            }
                            ||| exists|v: i32|
                                {
                                    &&& #[trigger] <OnceFut as CoFuture<i32>>::step(
                                        pre.second,
                                        hm,
                                        post.second,
                                        h2,
                                        Poll::Ready(v),
                                    )
                                    &&& post.phase is Finished
                                    &&& r == Step::Complete(v)
                                }
                        }
                    }
            },
            PairPhase::Second => {
                &&& post.first == pre.first
                &&& {
                    ||| {
                        &&& <OnceFut as CoFuture<i32>>::step(
                            pre.second,
                            h,
                            post.second,
                            h2,
                            Poll::Pending,
                        )
                        &&& post.phase is Second
                        &&& r is Yielded
                    }
                    ||| exists|v: i32|
                        {
                            &&& #[trigger] <OnceFut as CoFuture<i32>>::step(
                                pre.second,
                                h,
                                post.second,
                                h2,
                                Poll::Ready(v),
                            )
                            &&& post.phase is Finished
                            &&& r == Step::Complete(v)
                        }
                }
            },
            PairPhase::Finished => false,
        }
    }

    fn resume(&mut self, ctx: &mut WakerContext) -> (r: Step<i32>) {
        match self.phase {
            PairPhase::First => {
                match ctx.poll(&mut self.first) {
                    Poll::Pending => Step::Yielded,
                    Poll::Ready(a) => {
                        let ghost hm: Handle = ctx.cur();
                        let ghost ga: i32 = a;
                        self.phase = PairPhase::Second;
                        // the first await is over; the rewritten sequential
                        // body runs on into the second await at once
                        let r2 = match ctx.poll(&mut self.second) {
                            Poll::Pending => Step::Yielded,
                            Poll::Ready(v) => {
                                self.phase = PairPhase::Finished;
                                Step::Complete(v)
                            },
                        };
                        proof {
                            assert(<OnceFut as CoFuture<i32>>::step(
                                old(self).first,
                                old(ctx).cur(),
                                self.first,
                                hm,
                                Poll::Ready(ga),
                            ));
                        }
                        r2
                    },
                }
            },
            PairPhase::Second => {
                match ctx.poll(&mut self.second) {
                    Poll::Pending => Step::Yielded,
                    Poll::Ready(v) => {
                        self.phase = PairPhase::Finished;
                        Step::Complete(v)
                    },
                }
            },
            PairPhase::Finished => vstd::pervasive::unreached(),
        }
    }
}

/// Deferred recipe for `PairProc`: the two inner computations suspend once
/// each and then return `a` and `b` respectively.
pub struct PairFactory {
    pub a: i32,
    pub b: i32,
}

impl Factory<i32, PairProc> for PairFactory {
    open spec fn wf(&self) -> bool {
        true
    }

    open spec fn builds(&self, t: PairProc) -> bool {
        &&& once_fresh(t.first, self.a)
        &&& once_fresh(t.second, self.b)
        &&& t.phase is First
    }

    fn build(self) -> (t: PairProc) {
        PairProc {
            first: CoAsync::new(OnceFactory { value: self.a }),
            second: CoAsync::new(OnceFactory { value: self.b }),
            phase: PairPhase::First,
        }
    }
}

/// The future returned by [`pair`].
pub type PairFut = CoAsync<PairProc, PairFactory>;

/// "await an inner computation that suspends once and returns `a`, then
/// await another that suspends once and returns `b`; the second value is
/// the result", as a pausable computation.
pub fn pair(a: i32, b: i32) -> (r: PairFut)
    ensures
        r.state == Some(CoState::<PairProc, PairFactory>::Init((PairFactory { a, b }))),
        r.latest() is None,
        r.wf(),
        !r.done(),
{
    CoAsync::new(PairFactory { a, b })
}

} // verus!
