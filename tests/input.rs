use watchy_rs::input::{
    Debouncer, Edge, Haptic, InputEvent, InputHub, InputOutcome, DEBOUNCE_MS, PRESS_BUZZ_MS,
};
use watchy_rs::Button;

#[test]
fn toggle_faster_than_window_reports_nothing() {
    let mut d = Debouncer::new(true, 5);
    assert_eq!(d.update(false, 100), None);
    assert_eq!(d.deadline(), Some(105));
    assert_eq!(d.update(true, 102), None);
    assert_eq!(d.deadline(), None);
    assert_eq!(d.update(true, 110), None);
    assert!(d.level());
}

#[test]
fn change_held_for_window_reports_one_edge() {
    let mut d = Debouncer::new(true, 5);
    assert_eq!(d.update(false, 100), None);
    assert_eq!(d.update(false, 104), None);
    assert_eq!(d.update(false, 105), Some(Edge::Falling));
    assert_eq!(d.update(false, 106), None);
    assert_eq!(d.update(false, 200), None);
    assert!(!d.level());
    assert_eq!(d.update(true, 300), None);
    assert_eq!(d.update(true, 305), Some(Edge::Rising));
}

#[test]
fn haptic_request_restarts_countdown() {
    let mut h = Haptic::new();
    assert!(!h.is_running());
    h.request(60, 1000);
    assert_eq!(h.deadline(), Some(1060));
    h.request(60, 1030);
    assert_eq!(h.deadline(), Some(1090));
    assert!(!h.expire(1060));
    assert!(h.is_running());
    assert!(h.expire(1090));
    assert!(!h.is_running());
    assert!(!h.expire(2000));
}

#[test]
fn button_press_buzzes_motor() {
    let mut hub = InputHub::new();
    let quiet = InputOutcome { pressed: None, tapped: false, motor: None };
    assert_eq!(hub.handle(InputEvent::ButtonSample(Button::TopRight, false), 10), quiet);
    let out = hub.handle(InputEvent::ButtonSample(Button::TopRight, false), 10 + DEBOUNCE_MS);
    assert_eq!(
        out,
        InputOutcome { pressed: Some(Button::TopRight), tapped: false, motor: Some(true) }
    );
    assert_eq!(hub.haptic.deadline(), Some(15 + PRESS_BUZZ_MS));
    // releasing is a rising edge: no buzz
    assert_eq!(hub.handle(InputEvent::ButtonSample(Button::TopRight, true), 100), quiet);
    assert_eq!(hub.handle(InputEvent::ButtonSample(Button::TopRight, true), 105), quiet);
    let stop = hub.handle(InputEvent::HapticDeadline, 75);
    assert_eq!(stop, InputOutcome { pressed: None, tapped: false, motor: Some(false) });
}

#[test]
fn tap_line_reports_any_edge() {
    let mut hub = InputHub::new();
    assert!(!hub.handle(InputEvent::TapSample(true), 0).tapped);
    assert!(hub.handle(InputEvent::TapSample(true), 5).tapped);
    assert!(!hub.handle(InputEvent::TapSample(false), 6).tapped);
    assert!(hub.handle(InputEvent::TapSample(false), 11).tapped);
}

#[test]
fn buzz_request_drives_motor() {
    let mut hub = InputHub::new();
    let out = hub.handle(InputEvent::Buzz(200), 50);
    assert_eq!(out.motor, Some(true));
    assert_eq!(hub.haptic.deadline(), Some(250));
    assert_eq!(hub.handle(InputEvent::HapticDeadline, 100).motor, None);
}
