//! Temperature/humidity readings, the errors a read can produce, and the
//! consumer-side validity rules.
//!
//! A reading carries its values as integer tenths (tenths of a degree
//! Celsius, tenths of a percent relative humidity), which is exactly the
//! resolution the wire protocol transmits.

use vstd::prelude::*;

verus! {

/// A decoded temperature and humidity measurement.
///
/// `temperature_tenths` is tenths of a degree Celsius (228 means 22.8 °C);
/// `humidity_tenths` is tenths of a percent (653 means 65.3 %).
#[derive(Debug, Clone, Copy, PartialEq, Eq, Structural)]
pub struct Reading {
    pub temperature_tenths: i32,
    pub humidity_tenths: u16,
}

/// Errors that may occur while obtaining a reading.
#[derive(Debug, Clone, Copy, PartialEq, Eq, Structural)]
pub enum ReadingError {
    /// A line level persisted past the polling-iteration ceiling.
    Timeout,
    /// The transmitted checksum byte does not match the data bytes.
    Checksum,
    /// The GPIO peripheral itself could not be accessed.
    Gpio,
}

#[verifier::external_type_specification]
#[verifier::external_body]
pub struct ExGpioError(rppal::gpio::Error);

impl From<rppal::gpio::Error> for ReadingError {
    /// Any pin-access failure collapses to `Gpio`: the caller treats every
    /// hardware fault alike.
    fn from(_err: rppal::gpio::Error) -> (r: ReadingError) {
        ReadingError::Gpio
    }
}

impl vstd::std_specs::convert::FromSpecImpl<rppal::gpio::Error> for ReadingError {
    open spec fn obeys_from_spec() -> bool {
        true
    }

    open spec fn from_spec(_err: rppal::gpio::Error) -> ReadingError {
        ReadingError::Gpio
    }
}

/// Physical plausibility of a reading: the sensor element is specified for
/// -40 °C to 125 °C and 0 % to 100 % relative humidity.
pub open spec fn spec_reading_plausible(r: Reading) -> bool {
    &&& -400 <= r.temperature_tenths <= 1250
    &&& r.humidity_tenths <= 1000
}

/// The all-zero decode result (0.0 °C, 0.0 %) that a misread transmission
/// tends to produce; it is treated as invalid rather than as data.
pub open spec fn spec_reading_sentinel(r: Reading) -> bool {
    r.temperature_tenths == 0 && r.humidity_tenths == 0
}

/// A reading may reach the notification boundary only if it is physically
/// plausible and is not the all-zero sentinel.
pub open spec fn spec_reading_forwardable(r: Reading) -> bool {
    spec_reading_plausible(r) && !spec_reading_sentinel(r)
}

/// Whether a reading lies in the sensor's physical range.
pub fn reading_plausible(r: &Reading) -> (ok: bool)
    ensures
        ok == spec_reading_plausible(*r),
{
    -400 <= r.temperature_tenths && r.temperature_tenths <= 1250 && r.humidity_tenths <= 1000
}

/// Whether a reading is the all-zero sentinel.
pub fn reading_sentinel(r: &Reading) -> (hit: bool)
    ensures
        hit == spec_reading_sentinel(*r),
{
    r.temperature_tenths == 0 && r.humidity_tenths == 0
}

/// Whether a reading may be forwarded to the notification boundary.
pub fn reading_forwardable(r: &Reading) -> (ok: bool)
    ensures
        ok == spec_reading_forwardable(*r),
{
    reading_plausible(r) && !reading_sentinel(r)
}

/// A low-temperature warning fires when the reading, converted to
/// Fahrenheit, lies strictly below the configured warning threshold
/// (given in tenths of a degree Fahrenheit) and the temperature is not the
/// suspicious exact zero. The comparison `t °C · 9/5 + 32 < w °F` is done on
/// integers, cross-multiplied so that nothing is rounded away.
pub open spec fn spec_low_temp_alert(r: Reading, warning_f_tenths: i32) -> bool {
    &&& 9 * r.temperature_tenths < 5 * (warning_f_tenths - 320)
    &&& r.temperature_tenths != 0
}

/// Whether a reading calls for a low-temperature warning.
pub fn low_temp_alert(r: &Reading, warning_f_tenths: i32) -> (alert: bool)
    ensures
        alert == spec_low_temp_alert(*r, warning_f_tenths),
{
    let scaled_temp: i64 = 9 * (r.temperature_tenths as i64);
    let scaled_limit: i64 = 5 * ((warning_f_tenths as i64) - 320);
    scaled_temp < scaled_limit && r.temperature_tenths != 0
}

} // verus!
