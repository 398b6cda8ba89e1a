//! What a validated frame reports, with temperatures held as exact
//! fixed-point numbers.

use vstd::prelude::*;

verus! {

/// Temperatures are counted in units of one ten-thousandth of a degree: the
/// sensor reports sixteenths of a kelvin, and the Celsius offset has two
/// decimal places, so every reading is a whole number of these units.
pub const UNITS_PER_DEGREE: i32 = 10_000;

/// One reading taken from a validated frame.
#[derive(Debug, Clone, Copy, PartialEq, Eq)]
pub enum Measurement {
    /// Measured temperature, in ten-thousandths of a degree Celsius.
    Temperature(i32),
    /// Measured CO2 concentration in PPM.
    CO2(u32),
}

/// A raw sensor value in ten-thousandths of a degree Celsius: the value
/// times 0.0625, less 273.15.
pub open spec fn celsius_of_raw(value: u16) -> int {
    value * 625 - 2_731_500
}

/// Sixteen raw units make one degree, and the scale starts 273.15 degrees
/// below zero; every raw value gives a temperature that fits 32 bits.
pub proof fn lemma_celsius_of_raw(value: u16)
    ensures
        16 * celsius_of_raw(value) == UNITS_PER_DEGREE * value - 16 * 2_731_500,
        -2_731_500 <= celsius_of_raw(value) <= 38_227_875,
{
}

/// A Celsius temperature in Fahrenheit, both in ten-thousandths of a degree:
/// nine fifths of the input plus 32 degrees, rounded to the nearest unit.
/// Nine fifths of a whole number never lies halfway between two whole
/// numbers, so the rounding has no ties.
pub open spec fn fahrenheit_of_celsius(temp: int) -> int {
    (9 * temp + 2) / 5 + 320_000
}

impl Measurement {
    /// The temperature that a raw 16-bit sensor value stands for.
    pub fn from_raw_temperature(value: u16) -> (m: Measurement)
        ensures
            m matches Measurement::Temperature(temp) && temp == celsius_of_raw(value),
    {
        Measurement::Temperature(value as i32 * 625 - 2_731_500)
    }
}

/// Converts a Celsius temperature to Fahrenheit, both in ten-thousandths of
/// a degree. The result is the nearest unit to the exact value, and it can
/// need more than 32 bits.
pub fn c_to_f(temp: i32) -> (f: i64)
    ensures
        f == fahrenheit_of_celsius(temp as int),
        -2 <= 5 * (f - 320_000) - 9 * temp <= 2,
{
    let scaled: i64 = 9 * (temp as i64) + 2;
    let quotient: i64 = if scaled >= 0 {
        scaled / 5
    } else {
        -((4 - scaled) / 5)
    };
    quotient + 320_000
}

/// The conversion is exact wherever nine fifths of the input is a whole
/// number of units, and no other result is within two fifths of a unit of
/// the exact value.
pub proof fn lemma_fahrenheit_nearest(temp: int, f: int)
    ensures
        temp % 5 == 0 ==> 5 * (fahrenheit_of_celsius(temp) - 320_000) == 9 * temp,
        -2 <= 5 * (f - 320_000) - 9 * temp <= 2 <==> f == fahrenheit_of_celsius(temp),
{
}

/// Every temperature that the sensor can report converts to Fahrenheit
/// without rounding: the raw value times 0.1125, less 459.67.
pub proof fn lemma_fahrenheit_of_raw(value: u16)
    ensures
        fahrenheit_of_celsius(celsius_of_raw(value)) == value * 1125 - 4_596_700,
{
}

} // verus!
