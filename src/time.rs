//! Wall-clock time: the free-running hardware counter plus a correction
//! offset that time synchronisation sets.
//!
//! Times are microseconds. The counter is read by the caller and handed in;
//! the offset lives in a `StickySignal`, so that the tasks that tick on the
//! minute can learn when it changes.

use crate::sticky_signal::{pending_wakers, signal_step, StickySignal};
use vstd::prelude::*;

verus! {

/// Waiters the offset signal has room for.
pub const OFFSET_WAITERS: usize = 4;

/// Microseconds per second.
pub const MICROS_PER_SEC: u64 = 1_000_000;

/// `x` reduced into the range of `u64`.
pub open spec fn wrap64(x: int) -> u64 {
    (x % 0x1_0000_0000_0000_0000) as u64
}

/// Logical time: the counter moved by the offset, wrapping at the end of the
/// counter's range.
pub open spec fn logical_time(counter: u64, offset: u64) -> u64 {
    wrap64(counter + offset)
}

/// Microseconds in an NTP fraction of a second (units of 2^-32 s, scaled
/// by `u32::MAX`), rounded down.
pub open spec fn fraction_micros(fraction: u32) -> int {
    (fraction as int * 1_000_000) / (u32::MAX as int)
}

/// The time a synchronisation reported, in microseconds.
pub open spec fn synced_micros(seconds: u32, fraction: u32) -> int {
    seconds as int * 1_000_000 + fraction_micros(fraction)
}

/// The offset that makes the counter reading `counter` show the synced time.
pub open spec fn sync_offset(seconds: u32, fraction: u32, counter: u64) -> u64 {
    wrap64(synced_micros(seconds, fraction) - counter)
}

/// Relies on sntpc::fraction_to_microseconds, which computes
/// `fraction * 1_000_000 / u32::MAX` in 64 bits; the quotient is at most
/// one million, so the final cast keeps it.
pub assume_specification[ sntpc::fraction_to_microseconds ](sec_fraction: u32) -> (r: u32)
    ensures
        r as int == fraction_micros(sec_fraction),
;

fn add_wrapping(a: u64, b: u64) -> (r: u64)
    ensures
        r == wrap64(a + b),
{
    if b <= u64::MAX - a {
        a + b
    } else {
        b - (u64::MAX - a) - 1
    }
}

fn sub_wrapping(a: u64, b: u64) -> (r: u64)
    ensures
        r == wrap64(a - b),
{
    if a >= b {
        a - b
    } else {
        u64::MAX - (b - a) + 1
    }
}

/// What ends a wait between two minute ticks.
#[derive(Clone, Copy, Debug, PartialEq, Eq, Structural)]
pub enum MinuteEvent {
    /// The minute timer fired; the counter reads this.
    Tick(u64),
    /// The offset was set again.
    OffsetChanged,
}

/// The clock. `W` is the wake handle of the tasks that wait on the offset.
pub struct GlobalTime<W> {
    offset: StickySignal<u64, W, OFFSET_WAITERS>,
}

impl<W> GlobalTime<W> {
    /// The offset signal.
    pub closed spec fn spec_offset(&self) -> StickySignal<u64, W, OFFSET_WAITERS> {
        self.offset
    }

    /// The offset in force: zero until the first correction.
    pub open spec fn offset_value(&self) -> u64 {
        match self.spec_offset().current() {
            Some(o) => o,
            None => 0,
        }
    }

    pub open spec fn wf(&self) -> bool {
        self.spec_offset().wf()
    }

    /// A clock with no correction yet.
    pub fn new() -> (r: Self)
        ensures
            r.wf(),
            r.spec_offset().current() == None::<u64>,
            r.spec_offset().waiters().len() == 0,
    {
        GlobalTime { offset: StickySignal::new_with_name("time_offset") }
    }

    /// Sets the correction offset, replacing the previous one. Returns the
    /// wake handles of the tasks that waited for it.
    pub fn init_offset(&mut self, offset_micros: u64) -> (woken: Vec<W>)
        requires
            old(self).wf(),
        ensures
            final(self).wf(),
            signal_step(old(self).spec_offset(), final(self).spec_offset(), offset_micros),
            final(self).offset_value() == offset_micros,
            woken@ == pending_wakers(old(self).spec_offset().waiters()),
    {
        self.offset.signal(offset_micros)
    }

    /// The offset that makes the counter reading `counter_micros` show the
    /// time a synchronisation reported.
    pub fn offset_for_sync(seconds: u32, seconds_fraction: u32, counter_micros: u64) -> (r: u64)
        ensures
            r == sync_offset(seconds, seconds_fraction, counter_micros),
    {
        let micros = sntpc::fraction_to_microseconds(seconds_fraction);
        assert(seconds as int * 1_000_000 <= 4_294_967_295_000_000) by (nonlinear_arith)
            requires
                seconds <= u32::MAX,
        ;
        assert(fraction_micros(seconds_fraction) <= 1_000_000) by (nonlinear_arith)
            requires
                seconds_fraction <= u32::MAX,
                fraction_micros(seconds_fraction) == (seconds_fraction as int * 1_000_000) / (
                u32::MAX as int),
        ;
        let synced = seconds as u64 * MICROS_PER_SEC + micros as u64;
        sub_wrapping(synced, counter_micros)
    }

    /// Takes a synchronisation result (`seconds` and an NTP fraction of a
    /// second) read when the counter showed `counter_micros`, and sets the
    /// offset so that the clock shows that time at that reading.
    pub fn init_time(&mut self, seconds: u32, seconds_fraction: u32, counter_micros: u64) -> (woken: Vec<W>)
        requires
            old(self).wf(),
        ensures
            final(self).wf(),
            signal_step(
                old(self).spec_offset(),
                final(self).spec_offset(),
                sync_offset(seconds, seconds_fraction, counter_micros),
            ),
            final(self).offset_value() == sync_offset(seconds, seconds_fraction, counter_micros),
            woken@ == pending_wakers(old(self).spec_offset().waiters()),
    {
        let offset = Self::offset_for_sync(seconds, seconds_fraction, counter_micros);
        self.init_offset(offset)
    }

    /// The time when the counter reads `counter_micros`.
    pub fn get_time(&self, counter_micros: u64) -> (r: u64)
        ensures
            r == logical_time(counter_micros, self.offset_value()),
    {
        let offset = match self.offset.peek() {
            Some(o) => o,
            None => 0,
        };
        add_wrapping(counter_micros, offset)
    }

    /// One step of the minute sequence: a tick yields the time, a change of
    /// the offset ends the sequence (the consumer starts a new one).
    pub fn minutes(&self, event: MinuteEvent) -> (r: Option<u64>)
        ensures
            r == (match event {
                MinuteEvent::Tick(c) => Some(logical_time(c, self.offset_value())),
                MinuteEvent::OffsetChanged => None,
            }),
    {
        match event {
            MinuteEvent::Tick(counter) => Some(self.get_time(counter)),
            MinuteEvent::OffsetChanged => None,
        }
    }

    /// The offset signal, for polling and cancelling waits on it.
    pub fn offset_signal(&mut self) -> (r: &mut StickySignal<u64, W, OFFSET_WAITERS>)
        ensures
            *r == old(self).spec_offset(),
            final(self).spec_offset() == *final(r),
    {
        &mut self.offset
    }
}

/// Right after a synchronisation sets the offset, the clock shows the time
/// that the synchronisation reported.
pub proof fn law_sync_then_read(seconds: u32, fraction: u32, counter: u64)
    ensures
        logical_time(counter, sync_offset(seconds, fraction, counter)) as int == synced_micros(
            seconds,
            fraction,
        ),
{
    let m: int = 0x1_0000_0000_0000_0000;
    let s = synced_micros(seconds, fraction);
    assert(0 <= seconds as int * 1_000_000 <= 4_294_967_295_000_000) by (nonlinear_arith)
        requires
            seconds <= u32::MAX,
    ;
    assert(0 <= fraction_micros(fraction) <= 1_000_000) by (nonlinear_arith)
        requires
            fraction <= u32::MAX,
            fraction_micros(fraction) == (fraction as int * 1_000_000) / (u32::MAX as int),
    ;
    assert(0 <= s < m);
    let o = (s - counter) % m;
    assert(((counter + o) % m) == s) by (nonlinear_arith)
        requires
            o == (s - counter) % m,
            0 <= s < m,
            0 <= counter < m,
            m > 0,
    ;
}

} // verus!
