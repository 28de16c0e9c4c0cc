use cofutures::adapter::CoAsync;
use cofutures::demo::{foo, pair, AwaitFactory};
use cofutures::future::{CoFuture, Poll};
use cofutures::timer::Sleep;
use cofutures::waker::{Handle, WakerContext, WakerSlot};

#[test]
fn suspend_once_then_42() {
    // first poll: pending, and the supplied handle receives a wake
    let mut f = cofutures::demo::test();
    let mut h = Handle { id: 1, wakes: 0 };
    assert!(matches!(f.poll(&mut h), Poll::Pending));
    assert_eq!(h.id, 1);
    assert_eq!(h.wakes, 1);
    // second poll: ready with 42
    match f.poll(&mut h) {
        Poll::Ready(v) => assert_eq!(v, 42),
        Poll::Pending => panic!("second poll must be ready"),
    }
    assert_eq!(h.wakes, 1);
}

#[test]
fn await_of_test_completes_like_test() {
    // foo = await(test()): first poll pending because the inner computation
    // is pending; after the self-wake fires, the next poll is ready with 42
    let mut f = foo();
    let mut h = Handle { id: 3, wakes: 0 };
    assert!(matches!(f.poll(&mut h), Poll::Pending));
    assert_eq!(h.wakes, 1);
    match f.poll(&mut h) {
        Poll::Ready(v) => assert_eq!(v, 42),
        Poll::Pending => panic!("second poll must be ready"),
    }
}

#[test]
fn await_equivalence_observed() {
    // driving test() directly and driving await(test()) through foo() with
    // the same sequence of handles gives the same observations
    let mut direct = cofutures::demo::test();
    let mut wrapped = foo();
    let mut hd = Handle { id: 7, wakes: 0 };
    let mut hw = Handle { id: 7, wakes: 0 };
    assert!(matches!(direct.poll(&mut hd), Poll::Pending));
    assert!(matches!(wrapped.poll(&mut hw), Poll::Pending));
    assert_eq!(hd, hw);
    let vd = match direct.poll(&mut hd) {
        Poll::Ready(v) => v,
        Poll::Pending => panic!("direct must be ready"),
    };
    let vw = match wrapped.poll(&mut hw) {
        Poll::Ready(v) => v,
        Poll::Pending => panic!("wrapped must be ready"),
    };
    assert_eq!(vd, vw);
    assert_eq!(hd, hw);
}

#[test]
fn two_sequential_awaits_suspend_twice_and_return_second() {
    let mut f = pair(5, 7);
    let mut h = Handle { id: 2, wakes: 0 };
    let mut pendings = 0;
    let v = loop {
        match f.poll(&mut h) {
            Poll::Pending => pendings += 1,
            Poll::Ready(v) => break v,
        }
        assert!(pendings < 10, "must complete");
    };
    assert!(pendings >= 2, "must suspend at least twice");
    assert_eq!(v, 7);
}

#[test]
fn three_levels_of_nesting_propagate() {
    // await(await(test())): pending propagates down and ready comes back up
    // through every level
    let mut f = CoAsync::new(AwaitFactory { fut: foo() });
    let mut h = Handle { id: 9, wakes: 0 };
    assert!(matches!(f.poll(&mut h), Poll::Pending));
    assert_eq!(h.wakes, 1);
    match f.poll(&mut h) {
        Poll::Ready(v) => assert_eq!(v, 42),
        Poll::Pending => panic!("second poll must be ready"),
    }
}

#[test]
fn sleep_wakes_latest_handle() {
    // polled first with handle A, then with handle B: the wake the external
    // event hands out must target B, never A
    let mut s = Sleep::new();
    let mut a = Handle { id: 1, wakes: 0 };
    let mut b = Handle { id: 2, wakes: 0 };
    assert!(matches!(s.poll(&mut a), Poll::Pending));
    assert!(matches!(s.poll(&mut b), Poll::Pending));
    let woken = s.fire().expect("a handle was registered");
    assert_eq!(woken.id, 2);
    // after the event, the next poll is ready
    assert!(matches!(s.poll(&mut b), Poll::Ready(())));
}

#[test]
fn sleep_first_poll_registers_and_pends() {
    let mut s = Sleep::new();
    let mut h = Handle { id: 4, wakes: 0 };
    assert!(matches!(s.poll(&mut h), Poll::Pending));
    // not fired yet: stays pending, no self-wake
    assert!(matches!(s.poll(&mut h), Poll::Pending));
    assert_eq!(h.wakes, 0);
}

#[test]
fn context_reads_slot_at_call_time() {
    let ctx = WakerContext { slot: WakerSlot { cur: Some(Handle { id: 11, wakes: 3 }) } };
    let seen = ctx.with(|h: Handle| h.id);
    assert_eq!(seen, 11);
    let mut ctx = WakerContext { slot: WakerSlot { cur: Some(Handle { id: 11, wakes: 3 }) } };
    ctx.wake();
    assert_eq!(ctx.slot.cur.unwrap().wakes, 4);
    assert_eq!(ctx.slot.cur.unwrap().id, 11);
}
