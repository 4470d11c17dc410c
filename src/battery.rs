//! Battery status from the ADC readings.
//!
//! The ADC is sampled by the caller; this module turns the calibrated
//! readings, in millivolts, into the battery voltage, its charge percentage
//! and whether it is charging.

use vstd::prelude::*;

verus! {

/// Voltage of an empty battery, in millivolts.
pub const EMPTY_MV: u32 = 3400;

/// Voltage of a full battery, in millivolts.
pub const FULL_MV: u32 = 4200;

/// Above this reading, in millivolts, the charge pin says the battery is
/// charging.
pub const CHARGING_MV: u16 = 3000;

/// The charge percentage of a battery at `mv` millivolts: linear from
/// `EMPTY_MV` to `FULL_MV`, rounded down, and clamped to 0..=100.
pub open spec fn charge_percent(mv: u32) -> int {
    if mv <= EMPTY_MV {
        0
    } else if (mv - EMPTY_MV) * 100 / ((FULL_MV - EMPTY_MV) as int) >= 100 {
        100
    } else {
        (mv - EMPTY_MV) * 100 / ((FULL_MV - EMPTY_MV) as int)
    }
}

/// The battery voltage behind the divider on the sense pin: the reading
/// scaled by 460/360, rounded down.
pub open spec fn divided_mv(reading: u16) -> int {
    reading as int * 460 / 360
}

/// A battery status.
pub struct BatteryStatus(u32);

impl BatteryStatus {
    pub closed spec fn spec_voltage(&self) -> u32 {
        self.0
    }

    /// The status for a calibrated reading of the sense pin, in millivolts.
    pub fn from_reading(reading: u16) -> (r: BatteryStatus)
        ensures
            r.spec_voltage() == divided_mv(reading),
    {
        let mv: u32 = reading as u32 * 460 / 360;
        BatteryStatus(mv)
    }

    /// Returns the battery voltage in mV.
    pub fn voltage(&self) -> (r: u32)
        ensures
            r == self.spec_voltage(),
    {
        self.0
    }

    /// Returns the charge percentage of the battery.
    pub fn percentage(&self) -> (r: u8)
        ensures
            r == charge_percent(self.spec_voltage()),
    {
        if self.0 <= EMPTY_MV {
            return 0;
        }
        let above = self.0 - EMPTY_MV;
        if above >= 800 {
            assert(above as int * 100 / 800 >= 100) by (nonlinear_arith)
                requires
                    above >= 800,
            ;
            return 100;
        }
        assert(above as int * 100 / 800 < 100) by (nonlinear_arith)
            requires
                above < 800,
        ;
        let p = above * 100 / (FULL_MV - EMPTY_MV);
        p as u8
    }
}

/// Whether the charge pin's calibrated reading, in millivolts, says the
/// battery is charging.
pub fn charging(reading: u16) -> (r: bool)
    ensures
        r == (reading > CHARGING_MV),
{
    reading > CHARGING_MV
}

} // verus!
