//! The frame decoder: from a raw frame to a measurement or a rejection.

use vstd::prelude::*;
use crate::frame::{
    decrypt, descramble, frame_valid, verify_checksum, CODE_CO2, CODE_END, CODE_TEMPERATURE,
};
use crate::measurement::{celsius_of_raw, Measurement};

verus! {

/// The 16-bit value field of a decoded frame: bytes 1 and 2, big-endian.
pub open spec fn value_field(decoded: Seq<u8>) -> int
    recommends
        decoded.len() == 8,
{
    decoded[1] * 256 + decoded[2]
}

/// What a decoded frame reports. A frame of the wrong shape reports
/// nothing, and neither does a well-formed frame with an operation code
/// other than the two known ones.
pub open spec fn measurement_of(decoded: Seq<u8>) -> Option<Measurement>
    recommends
        decoded.len() == 8,
{
    if !frame_valid(decoded) {
        None
    } else if decoded[0] == CODE_CO2 {
        Some(Measurement::CO2(value_field(decoded) as u32))
    } else if decoded[0] == CODE_TEMPERATURE {
        Some(Measurement::Temperature(celsius_of_raw(value_field(decoded) as u16) as i32))
    } else {
        None
    }
}

/// Validates a decoded frame and takes the measurement out of it.
pub fn extract(decoded: &[u8; 8]) -> (m: Option<Measurement>)
    ensures
        m == measurement_of(decoded@),
{
    if !verify_checksum(decoded) {
        return None;
    }
    let op = decoded[0];
    let value: u16 = decoded[1] as u16 * 256 + decoded[2] as u16;
    if op == CODE_CO2 {
        Some(Measurement::CO2(value as u32))
    } else if op == CODE_TEMPERATURE {
        Some(Measurement::from_raw_temperature(value))
    } else {
        None
    }
}

/// Decodes one raw frame as read from the sensor.
pub fn decode(raw: &[u8; 8]) -> (m: Option<Measurement>)
    ensures
        m == measurement_of(descramble(raw@)),
{
    let decrypted = decrypt(raw);
    extract(&decrypted)
}

/// A well-formed frame with an operation code other than the two known
/// ones reports nothing.
pub proof fn lemma_unknown_code_reports_nothing(decoded: Seq<u8>)
    requires
        decoded.len() == 8,
        frame_valid(decoded),
        decoded[0] != CODE_CO2,
        decoded[0] != CODE_TEMPERATURE,
    ensures
        measurement_of(decoded) is None,
{
}

/// A well-formed frame with one of the two known operation codes reports
/// its value field: verbatim as a CO2 concentration, converted as a
/// temperature.
pub proof fn lemma_known_code_reports_value(decoded: Seq<u8>)
    requires
        decoded.len() == 8,
        frame_valid(decoded),
    ensures
        0 <= value_field(decoded) <= 0xFFFF,
        decoded[0] == CODE_CO2 ==> (measurement_of(decoded) matches Some(Measurement::CO2(ppm))
            && ppm == value_field(decoded)),
        decoded[0] == CODE_TEMPERATURE ==> (measurement_of(decoded) matches Some(
            Measurement::Temperature(temp),
        ) && temp == value_field(decoded) * 625 - 2_731_500),
{
}

/// A frame of the wrong shape reports nothing, whatever its operation code.
pub proof fn lemma_rejected_frame_reports_nothing(decoded: Seq<u8>)
    requires
        decoded.len() == 8,
        decoded[4] != CODE_END || decoded[5] != 0 || decoded[6] != 0 || decoded[7] != 0
            || decoded[3] != (decoded[0] + decoded[1] + decoded[2]) % 256,
    ensures
        !frame_valid(decoded),
        measurement_of(decoded) is None,
{
}

} // verus!
