use watchy_rs::battery::BatteryStatus;
use watchy_rs::display::{
    battery_text, clock_digits, clock_face, pad2, push_decimal, ClockFace, DisplayCadence,
    RefreshMode,
};

#[test]
fn ten_ticks_follow_refresh_cycle() {
    let mut c = DisplayCadence::new();
    let modes: Vec<Option<RefreshMode>> = (0..10u64).map(|t| c.frame(t).mode).collect();
    assert_eq!(
        modes,
        vec![
            Some(RefreshMode::Full),
            Some(RefreshMode::Partial),
            None,
            None,
            None,
            Some(RefreshMode::Full),
            Some(RefreshMode::Partial),
            None,
            None,
            None,
        ]
    );
}

#[test]
fn restart_begins_with_full_refresh() {
    let mut c = DisplayCadence::new();
    c.frame(1);
    c.frame(2);
    c.restart();
    let f = c.frame(42);
    assert_eq!(f.timestamp, 42);
    assert_eq!(f.mode, Some(RefreshMode::Full));
}

#[test]
fn clock_face_in_local_time() {
    // 2024-05-15 12:34:56 UTC is 13:34 on the watch
    let micros = 1_715_776_496u64 * 1_000_000 + 999_999;
    assert_eq!(clock_face(micros), Some(ClockFace { hour: 13, minute: 34 }));
    // 23:30 UTC wraps to 00:30
    assert_eq!(clock_face(84_600 * 1_000_000), Some(ClockFace { hour: 0, minute: 30 }));
}

#[test]
fn clock_face_beyond_calendar_range_is_none() {
    assert_eq!(clock_face(u64::MAX), None);
}

#[test]
fn digits_are_zero_padded() {
    assert_eq!(pad2(7), b"07".to_vec());
    assert_eq!(pad2(42), b"42".to_vec());
    let (h, m) = clock_digits(ClockFace { hour: 9, minute: 5 });
    assert_eq!(h, b"09".to_vec());
    assert_eq!(m, b"05".to_vec());
}

#[test]
fn decimal_digits() {
    let mut out = b"x".to_vec();
    push_decimal(&mut out, 0);
    push_decimal(&mut out, 4_294_967_295);
    assert_eq!(out, b"x04294967295".to_vec());
}

#[test]
fn battery_line_text() {
    let status = BatteryStatus::from_reading(2973);
    assert_eq!(battery_text(&status, true), b"3798mV (49%) +".to_vec());
    assert_eq!(battery_text(&status, false), b"3798mV (49%) ".to_vec());
}
