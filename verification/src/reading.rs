//! The sensor's reading, in fixed point.
//!
//! One physical sensor unit is 0.1 degree Celsius or 0.1 percent relative
//! humidity, so a reading is held as a pair of signed tenths.  A value of
//! 384 tenths stands for 38.4 units; callers that need a decimal rendering
//! split a raw value with `split_tenths`.

use vstd::prelude::*;

verus! {

/// One validated sensor reading: temperature in tenths of a degree
/// Celsius, humidity in tenths of a percent relative humidity.  Immutable
/// value, produced fresh each acquisition.
#[derive(Clone, Copy, Debug, PartialEq, Eq, Structural)]
pub struct SensorData {
    pub temp_tenths: i32,
    pub hum_tenths: i32,
}

/// Splits a raw sensor value into its whole and fractional decimal parts:
/// raw 384 is 38 whole units and 4 tenths.  The division by 10 is exact:
/// the parts recombine to the raw value.
pub fn split_tenths(raw: u16) -> (r: (u16, u16))
    ensures
        r.0 == raw / 10,
        r.1 == raw % 10,
        r.0 * 10 + r.1 == raw,
{
    (raw / 10, raw % 10)
}

} // verus!
