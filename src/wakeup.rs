//! Why the watch woke up.
//!
//! The wake source and the external-wake status bits are read from the
//! low-power controller's registers by the caller; this module classifies
//! them.

use vstd::prelude::*;

verus! {

/// The watch's four buttons.
#[derive(Clone, Copy, Debug, PartialEq, Eq, Structural)]
pub enum Button {
    BottomLeft,
    TopLeft,
    TopRight,
    BottomRight,
}

/// The low-power controller's wake sources.
#[derive(Clone, Copy, Debug, PartialEq, Eq, Structural)]
pub enum SleepSource {
    /// Not a wake from deep sleep: a power-on or a reset.
    Undefined,
    All,
    /// The first external wake line, wired to the RTC's alarm output.
    Ext0,
    /// The second external wake line, wired to the buttons.
    Ext1,
    Timer,
    TouchPad,
    Ulp,
    Gpio,
    Uart,
    Wifi,
    Cocpu,
    CocpuTrapTrig,
    BT,
}

/// Wake-status bit of the bottom-right button's pin (GPIO 4).
pub const RTCIO_GPIO4_CHANNEL: u32 = 0x400;

/// Wake-status bit of the top-left button's pin (GPIO 25).
pub const RTCIO_GPIO25_CHANNEL: u32 = 0x40;

/// Wake-status bit of the bottom-left button's pin (GPIO 26).
pub const RTCIO_GPIO26_CHANNEL: u32 = 0x80;

/// Wake-status bit of the top-right button's pin (GPIO 35).
pub const RTCIO_GPIO35_CHANNEL: u32 = 0x20;

/// The reason for this boot.
#[derive(Clone, Copy, Debug, PartialEq, Eq, Structural)]
pub enum WakeupCause {
    /// First boot or a manual reset.
    Reset,
    /// The external RTC's alarm.
    ExternalRtcAlarm,
    /// A button press.
    ButtonPress(Button),
    /// The button line woke us with a status mask that names no single
    /// button.
    UnknownExt1(u32),
    /// A wake source that the watch does not arm.
    Unknown(SleepSource),
}

impl WakeupCause {
    /// A short description of the cause, for the log.
    pub fn format(&self) -> (r: &'static str)
        ensures
            r == (match self {
                WakeupCause::Reset => "reset",
                WakeupCause::ExternalRtcAlarm => "external rtc",
                WakeupCause::ButtonPress(_) => "button press",
                WakeupCause::UnknownExt1(_) => "unknown ext",
                WakeupCause::Unknown(_) => "unknown",
            }),
    {
        match self {
            WakeupCause::Reset => "reset",
            WakeupCause::ExternalRtcAlarm => "external rtc",
            WakeupCause::ButtonPress(_) => "button press",
            WakeupCause::UnknownExt1(_) => "unknown ext",
            WakeupCause::Unknown(_) => "unknown",
        }
    }
}

/// The button whose pin alone is set in `bits`, if any.
pub open spec fn ext1_button(bits: u32) -> Option<Button> {
    if bits == RTCIO_GPIO26_CHANNEL {
        Some(Button::BottomLeft)
    } else if bits == RTCIO_GPIO25_CHANNEL {
        Some(Button::TopLeft)
    } else if bits == RTCIO_GPIO35_CHANNEL {
        Some(Button::TopRight)
    } else if bits == RTCIO_GPIO4_CHANNEL {
        Some(Button::BottomRight)
    } else {
        None
    }
}

/// Maps the second external wake line's status bits to the button that
/// woke the watch, or hands the bits back when they name no single button.
pub fn get_ext1_wakeup_button(bits: u32) -> (r: Result<Button, u32>)
    ensures
        match ext1_button(bits) {
            Some(b) => r == Ok::<Button, u32>(b),
            None => r == Err::<Button, u32>(bits),
        },
{
    if bits == RTCIO_GPIO26_CHANNEL {
        Ok(Button::BottomLeft)
    } else if bits == RTCIO_GPIO25_CHANNEL {
        Ok(Button::TopLeft)
    } else if bits == RTCIO_GPIO35_CHANNEL {
        Ok(Button::TopRight)
    } else if bits == RTCIO_GPIO4_CHANNEL {
        Ok(Button::BottomRight)
    } else {
        Err(bits)
    }
}

/// Classifies the wake source; `ext1_bits` is the second external wake
/// line's status, read only when that line woke the watch.
pub fn get_wakeup_cause(source: SleepSource, ext1_bits: u32) -> (r: WakeupCause)
    ensures
        r == (match source {
            SleepSource::Ext0 => WakeupCause::ExternalRtcAlarm,
            SleepSource::Ext1 => match ext1_button(ext1_bits) {
                Some(b) => WakeupCause::ButtonPress(b),
                None => WakeupCause::UnknownExt1(ext1_bits),
            },
            SleepSource::Undefined => WakeupCause::Reset,
            _ => WakeupCause::Unknown(source),
        }),
{
    match source {
        SleepSource::Ext0 => WakeupCause::ExternalRtcAlarm,
        SleepSource::Ext1 => match get_ext1_wakeup_button(ext1_bits) {
            Ok(button) => WakeupCause::ButtonPress(button),
            Err(mask) => WakeupCause::UnknownExt1(mask),
        },
        SleepSource::Undefined => WakeupCause::Reset,
        _ => WakeupCause::Unknown(source),
    }
}

} // verus!
