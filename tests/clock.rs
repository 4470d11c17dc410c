use watchy_rs::sticky_signal::WaitPoll;
use watchy_rs::time::{GlobalTime, MinuteEvent};

#[test]
fn time_before_sync_is_counter() {
    let t: GlobalTime<u8> = GlobalTime::new();
    assert_eq!(t.get_time(1234), 1234);
}

#[test]
fn offset_is_added_and_overwritten() {
    let mut t: GlobalTime<u8> = GlobalTime::new();
    t.init_offset(1_000);
    assert_eq!(t.get_time(5), 1_005);
    t.init_offset(2_000);
    assert_eq!(t.get_time(5), 2_005);
    t.init_offset(u64::MAX);
    assert_eq!(t.get_time(5), 4);
}

#[test]
fn sync_sets_clock_to_reported_time() {
    let mut t: GlobalTime<u8> = GlobalTime::new();
    // half a second in NTP fraction units
    t.init_time(1_700_000_000, 0x8000_0000, 3_000_000);
    assert_eq!(t.get_time(3_000_000), 1_700_000_000_500_000);
    assert_eq!(t.get_time(4_000_000), 1_700_000_001_500_000);
}

#[test]
fn sync_offset_wraps_when_counter_is_ahead() {
    let o = GlobalTime::<u8>::offset_for_sync(0, 0, 10);
    assert_eq!(o, u64::MAX - 9);
    assert_eq!(GlobalTime::<u8>::offset_for_sync(2, u32::MAX, 0), 3_000_000);
}

#[test]
fn minute_sequence_ends_on_offset_change() {
    let mut t: GlobalTime<u8> = GlobalTime::new();
    t.init_offset(100);
    assert_eq!(t.minutes(MinuteEvent::Tick(60_000_000)), Some(60_000_100));
    assert_eq!(t.minutes(MinuteEvent::OffsetChanged), None);
}

#[test]
fn setting_offset_wakes_waiting_tasks() {
    let mut t: GlobalTime<u8> = GlobalTime::new();
    let w1 = t.offset_signal().wait_next("a");
    let w2 = t.offset_signal().wait_next("b");
    assert!(matches!(t.offset_signal().poll(&w1, 1), WaitPoll::Pending));
    assert!(matches!(t.offset_signal().poll(&w2, 2), WaitPoll::Pending));
    assert_eq!(t.init_offset(5), vec![1, 2]);
    assert_eq!(t.init_time(1, 0, 0), Vec::<u8>::new());
}
