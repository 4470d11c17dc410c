use watchy_rs::wakeup::{get_ext1_wakeup_button, SleepSource};
use watchy_rs::{get_wakeup_cause, Button, WakeupCause};

#[test]
fn ext1_bits_map_to_buttons() {
    assert_eq!(get_ext1_wakeup_button(1 << 7), Ok(Button::BottomLeft));
    assert_eq!(get_ext1_wakeup_button(1 << 6), Ok(Button::TopLeft));
    assert_eq!(get_ext1_wakeup_button(1 << 5), Ok(Button::TopRight));
    assert_eq!(get_ext1_wakeup_button(1 << 10), Ok(Button::BottomRight));
    assert_eq!(get_ext1_wakeup_button((1 << 5) | (1 << 6)), Err(0x60));
    assert_eq!(get_ext1_wakeup_button(0), Err(0));
}

#[test]
fn wake_sources_are_classified() {
    assert_eq!(get_wakeup_cause(SleepSource::Undefined, 0), WakeupCause::Reset);
    assert_eq!(get_wakeup_cause(SleepSource::Ext0, 0), WakeupCause::ExternalRtcAlarm);
    assert_eq!(
        get_wakeup_cause(SleepSource::Ext1, 1 << 7),
        WakeupCause::ButtonPress(Button::BottomLeft)
    );
    assert_eq!(get_wakeup_cause(SleepSource::Ext1, 3), WakeupCause::UnknownExt1(3));
    assert_eq!(
        get_wakeup_cause(SleepSource::Timer, 0),
        WakeupCause::Unknown(SleepSource::Timer)
    );
}

#[test]
fn causes_have_log_labels() {
    assert_eq!(WakeupCause::Reset.format(), "reset");
    assert_eq!(WakeupCause::ExternalRtcAlarm.format(), "external rtc");
    assert_eq!(WakeupCause::ButtonPress(Button::TopLeft).format(), "button press");
    assert_eq!(WakeupCause::UnknownExt1(9).format(), "unknown ext");
    assert_eq!(WakeupCause::Unknown(SleepSource::Gpio).format(), "unknown");
}
