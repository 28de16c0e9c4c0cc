use crate::adapter::{as_step, co_starts, CoAsync, CoState, Factory, Resumable};
use crate::adapter::Step;
use crate::demo::{as_poll, AwaitFactory, AwaitProc, OnceProc};
use crate::future::{CoFuture, Poll};
use crate::timer::Sleep;
use crate::waker::Handle;
use vstd::prelude::*;

verus! {

/// Single-shot law: once a poll call on an adapter has returned `Ready`,
/// the adapter is done — its payload is consumed — and the poll contract
/// excludes every further call, so the final value can never be handed out
/// twice.
pub proof fn lemma_single_shot<O, T: Resumable<O>, B: Factory<O, T>>(
    pre: CoAsync<T, B>,
    h: Handle,
    post: CoAsync<T, B>,
    h2: Handle,
    v: O,
)
    requires
        <CoAsync<T, B> as CoFuture<O>>::step(pre, h, post, h2, Poll::Ready(v)),
    ensures
        post.done(),
{
}

/// The nested computation an `await(F)` adapter currently wraps: the one
/// its factory holds before the first poll, or the one its running
/// procedure holds.
pub open spec fn awaited<O, F: CoFuture<O>>(
    a: CoAsync<AwaitProc<F>, AwaitFactory<F>>,
) -> F {
    match a.state {
        Some(CoState::Init(b)) => b.fut,
        Some(CoState::Running(t)) => t.fut,
        None => vstd::pervasive::arbitrary(),
    }
}

/// Await-equivalence law, which is also the inductive step of nested
/// composition: one poll of the adapter around `await(F)` is observably one
/// poll of `F` itself — same handle supplied, same handle handed back, and
/// the same pending or ready outcome with the same value. Driving the
/// awaiting adapter with a sequence of handles therefore produces exactly
/// what driving `F` directly with that sequence produces; and since the
/// awaiting adapter again satisfies the poll contract, instantiating this
/// law at every level carries a pending or ready status through a chain of
/// nested awaits of any depth.
pub proof fn lemma_await_equivalence<O, F: CoFuture<O>>(
    pre: CoAsync<AwaitProc<F>, AwaitFactory<F>>,
    h: Handle,
    post: CoAsync<AwaitProc<F>, AwaitFactory<F>>,
    h2: Handle,
    r: Poll<O>,
)
    requires
        <CoAsync<AwaitProc<F>, AwaitFactory<F>> as CoFuture<O>>::step(pre, h, post, h2, r),
    ensures
        r is Pending ==> F::step(awaited(pre), h, awaited(post), h2, Poll::Pending),
        r matches Poll::Ready(v) ==> exists|f1: F|
            #[trigger] F::step(awaited(pre), h, f1, h2, Poll::Ready(v)),
{
    let (t0, t1) = choose|t0: AwaitProc<F>, t1: AwaitProc<F>|
        {
            &&& #[trigger] co_starts(pre, t0)
            &&& #[trigger] <AwaitProc<F> as Resumable<O>>::tr(t0, h, t1, h2, as_step(r))
            &&& (r is Ready ==> post.state is None)
            &&& (r is Pending ==> post.state == Some(
                CoState::<AwaitProc<F>, AwaitFactory<F>>::Running(t1),
            ))
        };
    assert(t0.fut == awaited(pre));
    assert(as_poll(as_step(r)) == r);
    assert(F::step(awaited(pre), h, t1.fut, h2, r));
    if r is Pending {
        assert(awaited(post) == t1.fut);
    }
}

/// Latest-handle law for the adapter: after any two consecutive poll calls,
/// the waker slot holds exactly the handle the second call handed back —
/// which by the poll contract names the same task as the handle the second
/// call supplied — so any wake the computation triggers from now on
/// notifies that task, never the one named first.
pub proof fn lemma_latest_handle<O, T: Resumable<O>, B: Factory<O, T>>(
    s0: CoAsync<T, B>,
    ha: Handle,
    s1: CoAsync<T, B>,
    ha2: Handle,
    r1: Poll<O>,
    hb: Handle,
    s2: CoAsync<T, B>,
    hb2: Handle,
    r2: Poll<O>,
)
    requires
        <CoAsync<T, B> as CoFuture<O>>::step(s0, ha, s1, ha2, r1),
        <CoAsync<T, B> as CoFuture<O>>::step(s1, hb, s2, hb2, r2),
    ensures
        s2.latest() == Some(hb2),
{
}

/// Latest-handle law for the externally completed timer: after a poll with
/// handle A and a later poll with handle B, the handle that `fire` will
/// hand out for waking is B, never A.
pub proof fn lemma_latest_handle_sleep(
    s0: Sleep,
    ha: Handle,
    s1: Sleep,
    ha2: Handle,
    r1: Poll<()>,
    hb: Handle,
    s2: Sleep,
    hb2: Handle,
    r2: Poll<()>,
)
    requires
        <Sleep as CoFuture<()>>::step(s0, ha, s1, ha2, r1),
        <Sleep as CoFuture<()>>::step(s1, hb, s2, hb2, r2),
    ensures
        s2.registered == Some(hb),
{
}

/// Self-wake law: a resumption that passes a bare suspend always delivers
/// exactly one wake notification to the current handle — same task id, wake
/// count one higher — before reporting "paused", so a scheduler that waits
/// for wakes revisits the computation promptly.
pub proof fn lemma_self_wake(pre: OnceProc, h: Handle, post: OnceProc, h2: Handle, r: Step<i32>)
    requires
        !pre.suspended,
        <OnceProc as Resumable<i32>>::tr(pre, h, post, h2, r),
    ensures
        r is Yielded,
        h2.id == h.id,
        h2.wakes == h.wakes + 1,
{
}

} // verus!
