use watchy_rs::sticky_signal::{StickySignal, WaitPoll};

fn ready(p: WaitPoll<u32>) -> Option<u32> {
    match p {
        WaitPoll::Ready(v) => Some(v),
        _ => None,
    }
}

#[test]
fn peek_retains_value_across_waits() {
    let mut s: StickySignal<u32, u8, 4> = StickySignal::new_with_name("retain");
    assert_eq!(s.prefix(), "retain");
    s.signal(7);
    for _ in 0..3 {
        assert_eq!(s.peek(), Some(7));
    }
    let w = s.wait("reader");
    assert_eq!(ready(s.poll(&w, 1)), Some(7));
    assert_eq!(s.peek(), Some(7));
    s.reset();
    assert_eq!(s.peek(), None);
}

#[test]
fn unnamed_signal_prefix() {
    let s: StickySignal<u32, u8, 4> = StickySignal::new();
    assert_eq!(s.prefix(), "signal");
}

#[test]
fn one_shot_take_then_none_until_next_signal() {
    let mut s: StickySignal<u32, u8, 4> = StickySignal::new();
    s.signal(3);
    assert_eq!(s.try_take(), Some(3));
    assert_eq!(s.try_take(), None);
    assert_eq!(s.try_take(), None);
    s.signal(4);
    assert_eq!(s.try_take(), Some(4));
}

#[test]
fn signal_wakes_every_registered_waiter() {
    let mut s: StickySignal<u32, u8, 4> = StickySignal::new();
    let w1 = s.wait("a");
    let w2 = s.wait("b");
    let w3 = s.wait("c");
    assert!(matches!(s.poll(&w1, 10), WaitPoll::Pending));
    assert!(matches!(s.poll(&w2, 20), WaitPoll::Pending));
    assert!(matches!(s.poll(&w3, 30), WaitPoll::Pending));
    let woken = s.signal(9);
    assert_eq!(woken, vec![10, 20, 30]);
    assert_eq!(ready(s.poll(&w2, 0)), Some(9));
    assert_eq!(ready(s.poll(&w1, 0)), Some(9));
    assert_eq!(ready(s.poll(&w3, 0)), Some(9));
}

#[test]
fn waiter_keeps_value_it_was_woken_with_after_reset() {
    let mut s: StickySignal<u32, u8, 4> = StickySignal::new();
    let w = s.wait("a");
    assert!(matches!(s.poll(&w, 1), WaitPoll::Pending));
    s.signal(5);
    s.reset();
    assert_eq!(ready(s.poll(&w, 1)), Some(5));
}

#[test]
fn repoll_replaces_waker() {
    let mut s: StickySignal<u32, u8, 4> = StickySignal::new();
    let w = s.wait("a");
    assert!(matches!(s.poll(&w, 1), WaitPoll::Pending));
    assert!(matches!(s.poll(&w, 2), WaitPoll::Pending));
    assert_eq!(s.signal(1), vec![2]);
}

#[test]
fn full_waiter_set_is_refused() {
    let mut s: StickySignal<u32, u8, 2> = StickySignal::new();
    let w1 = s.wait("a");
    let w2 = s.wait("b");
    let w3 = s.wait("c");
    assert!(matches!(s.poll(&w1, 1), WaitPoll::Pending));
    assert!(matches!(s.poll(&w2, 2), WaitPoll::Pending));
    assert!(!s.can_poll(&w3));
    assert!(s.can_poll(&w1));
    s.drop_waiter(&w1);
    assert!(s.can_poll(&w3));
    assert!(matches!(s.poll(&w3, 3), WaitPoll::Pending));
    assert_eq!(s.signal(8), vec![2, 3]);
}

#[test]
fn dropped_waiter_is_not_woken() {
    let mut s: StickySignal<u32, u8, 4> = StickySignal::new();
    let w1 = s.wait("a");
    let w2 = s.wait("b");
    assert!(matches!(s.poll(&w1, 1), WaitPoll::Pending));
    assert!(matches!(s.poll(&w2, 2), WaitPoll::Pending));
    s.drop_waiter(&w1);
    assert_eq!(s.signal(4), vec![2]);
}

#[test]
fn wait_next_ignores_held_value() {
    let mut s: StickySignal<u32, u8, 4> = StickySignal::new();
    s.signal(1);
    let w = s.wait_next("next");
    assert!(matches!(s.poll(&w, 1), WaitPoll::Pending));
    s.signal(2);
    assert_eq!(ready(s.poll(&w, 1)), Some(2));
}

#[test]
fn waiter_ids_increase() {
    let mut s: StickySignal<u32, u8, 4> = StickySignal::new();
    let a = s.wait("a");
    let b = s.wait_next("b");
    assert_eq!(a.id(), 0);
    assert_eq!(b.id(), 1);
    assert_eq!(b.name(), "b");
}

#[test]
fn wait_for_returns_at_once_when_held_value_matches() {
    let mut s: StickySignal<u32, u8, 4> = StickySignal::new();
    s.signal(10);
    let mut pending = None;
    let r = s.wait_for(&mut pending, "even", 1, &|v: u32| if v % 2 == 0 { Some(v / 2) } else { None });
    assert!(matches!(r, WaitPoll::Ready(5)));
    assert!(pending.is_none());
    assert_eq!(s.signal(0), Vec::<u8>::new());
}

#[test]
fn wait_for_skips_values_until_predicate_holds() {
    let mut s: StickySignal<u32, u8, 4> = StickySignal::new();
    s.signal(1);
    let f = |v: u32| if v >= 5 { Some(v * 10) } else { None };
    let mut pending = None;
    assert!(matches!(s.wait_for(&mut pending, "big", 7, &f), WaitPoll::Pending));
    assert_eq!(s.signal(3), vec![7]);
    assert!(matches!(s.wait_for(&mut pending, "big", 7, &f), WaitPoll::Pending));
    assert_eq!(s.signal(6), vec![7]);
    assert!(matches!(s.wait_for(&mut pending, "big", 7, &f), WaitPoll::Ready(60)));
    assert!(pending.is_none());
}

#[test]
fn wait_for_ignores_other_waiters_values() {
    let mut s: StickySignal<u32, u8, 4> = StickySignal::new();
    let other = s.wait_next("other");
    assert!(matches!(s.poll(&other, 9), WaitPoll::Pending));
    s.signal(100);
    s.reset();
    // `other` holds an undelivered 100; a new predicate wait must not take it
    let f = |v: u32| if v >= 50 { Some(v) } else { None };
    let mut pending = None;
    assert!(matches!(s.wait_for(&mut pending, "big", 7, &f), WaitPoll::Pending));
    assert!(matches!(s.wait_for(&mut pending, "big", 7, &f), WaitPoll::Pending));
    assert_eq!(s.signal(60), vec![7]);
    assert!(matches!(s.wait_for(&mut pending, "big", 7, &f), WaitPoll::Ready(60)));
    // the completed wait leaves no registration; `other` is still there
    assert_eq!(ready(s.poll(&other, 9)), Some(60));
    assert_eq!(s.signal(1), Vec::<u8>::new());
}

#[test]
fn room_for_predicate_wait() {
    let mut s: StickySignal<u32, u8, 1> = StickySignal::new();
    let pending = None;
    assert!(s.has_room(&pending));
    let w = s.wait("a");
    assert!(matches!(s.poll(&w, 1), WaitPoll::Pending));
    assert!(!s.has_room(&pending));
    assert!(s.ids_left());
}
