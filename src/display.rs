//! What the display shows, and when it refreshes how.
//!
//! The display redraws once at once and then on every minute tick. Each
//! redraw takes the next refresh mode from a fixed cycle: a full refresh,
//! a partial one, then three redraws that keep the panel's mode. The panel
//! itself is driven by the caller.

use crate::battery::{charge_percent, BatteryStatus};
use chrono::Timelike;
use vstd::prelude::*;

verus! {

/// The panel's time zone, in seconds east of UTC.
pub const UTC_OFFSET_SECS: u64 = 3600;

/// The refresh mode to switch the panel to before a redraw.
#[derive(Clone, Copy, Debug, PartialEq, Eq, Structural)]
pub enum RefreshMode {
    Full,
    Partial,
}

/// Redraws in one turn of the refresh cycle.
pub const CYCLE_LEN: u64 = 5;

/// The mode for the redraw at position `i` of the cycle; `None` keeps the
/// panel's current mode.
pub open spec fn mode_at(i: int) -> Option<RefreshMode> {
    if i % 5 == 0 {
        Some(RefreshMode::Full)
    } else if i % 5 == 1 {
        Some(RefreshMode::Partial)
    } else {
        None
    }
}

/// One redraw: the time to show and how to refresh.
#[derive(Clone, Copy, Debug, PartialEq, Eq, Structural)]
pub struct Frame {
    pub timestamp: u64,
    pub mode: Option<RefreshMode>,
}

/// The position in the refresh cycle.
pub struct DisplayCadence {
    index: u64,
}

impl View for DisplayCadence {
    type V = nat;

    closed spec fn view(&self) -> nat {
        self.index as nat
    }
}

impl DisplayCadence {
    /// A cadence at the start of its cycle.
    pub fn new() -> (r: Self)
        ensures
            r@ == 0,
    {
        DisplayCadence { index: 0 }
    }

    /// Starts the cycle over, as the display does when the clock's offset
    /// changes and its tick sequence restarts.
    pub fn restart(&mut self)
        ensures
            final(self)@ == 0,
    {
        self.index = 0;
    }

    /// The redraw for `timestamp`, with the next mode of the cycle.
    pub fn frame(&mut self, timestamp: u64) -> (r: Frame)
        ensures
            r == (Frame { timestamp, mode: mode_at(old(self)@ as int) }),
            final(self)@ == (old(self)@ + 1) % (CYCLE_LEN as nat),
    {
        let i = self.index % CYCLE_LEN;
        let mode = if i == 0 {
            Some(RefreshMode::Full)
        } else if i == 1 {
            Some(RefreshMode::Partial)
        } else {
            None
        };
        self.index = if i + 1 == CYCLE_LEN {
            0
        } else {
            i + 1
        };
        Frame { timestamp, mode }
    }
}

/// The modes of `n` redraws from the start of the cycle.
pub open spec fn modes_from_start(n: nat) -> Seq<Option<RefreshMode>> {
    Seq::new(n, |i: int| mode_at(i))
}

/// A cadence advanced `k` times from the start is at `k % 5`, so its next
/// redraw takes the mode of position `k` of the cycle.
pub proof fn law_cadence_position(k: nat)
    ensures
        mode_at((k % 5) as int) == mode_at(k as int),
{
}

/// Ten redraws from the start of the cycle refresh full, partial, then keep
/// the mode three times, and again.
pub proof fn law_cadence_cycle()
    ensures
        modes_from_start(10) == seq![
            Some(RefreshMode::Full),
            Some(RefreshMode::Partial),
            None,
            None,
            None,
            Some(RefreshMode::Full),
            Some(RefreshMode::Partial),
            None,
            None,
            None,
        ],
{
    assert(modes_from_start(10) =~= seq![
        Some(RefreshMode::Full),
        Some(RefreshMode::Partial),
        None,
        None,
        None,
        Some(RefreshMode::Full),
        Some(RefreshMode::Partial),
        None,
        None,
        None,
    ]);
}

/// Largest count of seconds for which the calendar conversion is known to
/// succeed (a date some 250,000 years out).
pub const CALENDAR_SECS_MAX: i64 = 8_000_000_000_000;

/// Relies on chrono's DateTime::from_timestamp with the Timelike accessors:
/// for seconds since the Unix epoch it builds a UTC date-time from the
/// Euclidean quotient (days) and remainder (seconds of the day) of the
/// count by 86,400, and returns `None` only when the day falls outside the
/// supported years, which lie beyond `CALENDAR_SECS_MAX`.
#[verifier::external_body]
fn hms_of(secs: i64) -> (r: Option<(u32, u32, u32)>)
    requires
        secs >= 0,
    ensures
        r is Some ==> r == Some(clock_of(secs as int)),
        secs <= CALENDAR_SECS_MAX ==> r is Some,
{
    match chrono::DateTime::from_timestamp(secs, 0) {
        Some(t) => Some((t.hour(), t.minute(), t.second())),
        None => None,
    }
}

/// Hour, minute and second of the day for `secs` seconds since the epoch.
pub open spec fn clock_of(secs: int) -> (u32, u32, u32) {
    let day = secs % 86400;
    ((day / 3600) as u32, ((day % 3600) / 60) as u32, (day % 60) as u32)
}

/// The local time of day on the watch face.
#[derive(Clone, Copy, Debug, PartialEq, Eq, Structural)]
pub struct ClockFace {
    pub hour: u32,
    pub minute: u32,
}

/// Seconds since the epoch, in the panel's time zone, for a time in
/// microseconds.
pub open spec fn local_secs(timestamp_micros: u64) -> int {
    timestamp_micros as int / 1_000_000 + UTC_OFFSET_SECS
}

/// The hour and minute to show for a time in microseconds since the epoch.
pub fn clock_face(timestamp_micros: u64) -> (r: Option<ClockFace>)
    ensures
        r is Some ==> r == Some(
            ClockFace {
                hour: clock_of(local_secs(timestamp_micros)).0,
                minute: clock_of(local_secs(timestamp_micros)).1,
            },
        ),
        local_secs(timestamp_micros) <= CALENDAR_SECS_MAX ==> r is Some,
{
    let secs = timestamp_micros / 1_000_000 + UTC_OFFSET_SECS;
    match hms_of(secs as i64) {
        Some((hour, minute, _)) => Some(ClockFace { hour, minute }),
        None => None,
    }
}

/// The decimal digits of `n`, most significant first, in ASCII.
pub open spec fn decimal(n: nat) -> Seq<u8>
    decreases n,
{
    if n < 10 {
        seq![(48 + n) as u8]
    } else {
        decimal(n / 10).push((48 + n % 10) as u8)
    }
}

/// `n` in two ASCII digits, with a leading zero below ten.
pub open spec fn two_digits(n: nat) -> Seq<u8> {
    seq![(48 + n / 10) as u8, (48 + n % 10) as u8]
}

/// Writes `n` in two digits, with a leading zero below ten.
pub fn pad2(n: u32) -> (r: Vec<u8>)
    requires
        n < 100,
    ensures
        r@ == two_digits(n as nat),
{
    let hi = (48 + n / 10) as u8;
    let lo = (48 + n % 10) as u8;
    let r = vec![hi, lo];
    assert(r@ =~= two_digits(n as nat));
    r
}

/// Appends the decimal digits of `n` to `out`.
pub fn push_decimal(out: &mut Vec<u8>, n: u32)
    ensures
        final(out)@ == old(out)@ + decimal(n as nat),
    decreases n,
{
    if n < 10 {
        out.push((48 + n) as u8);
        assert(decimal(n as nat) =~= seq![(48 + n) as u8]);
    } else {
        push_decimal(out, n / 10);
        out.push((48 + n % 10) as u8);
    }
}

/// The two-digit hour and minute of a clock face, `"HH"` and `"MM"`.
pub fn clock_digits(face: ClockFace) -> (r: (Vec<u8>, Vec<u8>))
    requires
        face.hour < 24,
        face.minute < 60,
    ensures
        r.0@ == two_digits(face.hour as nat),
        r.1@ == two_digits(face.minute as nat),
{
    (pad2(face.hour), pad2(face.minute))
}

/// The battery line: `"<mV>mV (<percent>%) "`, followed by `+` while
/// charging.
pub open spec fn battery_line(mv: u32, percent: int, charging: bool) -> Seq<u8> {
    decimal(mv as nat) + seq![109u8, 86u8, 32u8, 40u8] + decimal(percent as nat) + seq![
        37u8,
        41u8,
        32u8,
    ] + if charging {
        seq![43u8]
    } else {
        Seq::empty()
    }
}

/// Writes the battery line for `status`.
pub fn battery_text(status: &BatteryStatus, charging: bool) -> (r: Vec<u8>)
    ensures
        r@ == battery_line(
            status.spec_voltage(),
            charge_percent(status.spec_voltage()),
            charging,
        ),
{
    let mut out: Vec<u8> = Vec::new();
    push_decimal(&mut out, status.voltage());
    out.push(109u8);
    out.push(86u8);
    out.push(32u8);
    out.push(40u8);
    push_decimal(&mut out, status.percentage() as u32);
    out.push(37u8);
    out.push(41u8);
    out.push(32u8);
    if charging {
        out.push(43u8);
    }
    assert(out@ =~= battery_line(
        status.spec_voltage(),
        charge_percent(status.spec_voltage()),
        charging,
    ));
    out
}

} // verus!
