//! The device session's side of one acquisition cycle: what a read of the
//! transport amounts to, and how the device is described.

use vstd::prelude::*;
use crate::decoder::{decode, measurement_of};
use crate::frame::{descramble, frame_valid, CODE_CO2, CODE_TEMPERATURE};
use crate::measurement::Measurement;

verus! {

/// The report that is written to the device once, before the first read.
pub const INIT_REPORT: [u8; 8] = [0, 0, 0, 0, 0, 0, 0, 0];

/// Stands for an identity string that the device does not provide.
pub const PLACEHOLDER: &'static str = "n/a";

/// The result of one acquisition cycle.
#[derive(Debug, PartialEq, Eq)]
pub enum ReadingOutcome {
    /// A frame was read and it carried a measurement.
    Measurement(Measurement),
    /// The transport failed; the text says how.
    TransportError(String),
    /// Nothing was read yet, or the frame read carried no measurement.
    NoData,
}

impl Clone for ReadingOutcome {
    fn clone(&self) -> (res: Self)
        ensures
            res == *self,
    {
        match self {
            ReadingOutcome::Measurement(m) => ReadingOutcome::Measurement(*m),
            ReadingOutcome::TransportError(description) => ReadingOutcome::TransportError(
                description.clone(),
            ),
            ReadingOutcome::NoData => ReadingOutcome::NoData,
        }
    }
}

/// The outcome that a read of the transport amounts to: a failure of the
/// transport is reported with its description, a frame that decodes to a
/// measurement gives that measurement, and any other frame gives no data.
pub open spec fn outcome_of(read: Result<[u8; 8], String>) -> ReadingOutcome {
    match read {
        Err(description) => ReadingOutcome::TransportError(description),
        Ok(raw) => match measurement_of(descramble(raw@)) {
            Some(m) => ReadingOutcome::Measurement(m),
            None => ReadingOutcome::NoData,
        },
    }
}

/// Turns what one blocking read of the transport returned into the outcome
/// of the cycle.
pub fn read_once(read: Result<[u8; 8], String>) -> (outcome: ReadingOutcome)
    ensures
        outcome == outcome_of(read),
{
    match read {
        Err(description) => ReadingOutcome::TransportError(description),
        Ok(raw) => match decode(&raw) {
            Some(m) => ReadingOutcome::Measurement(m),
            None => ReadingOutcome::NoData,
        },
    }
}

/// A raw frame that decodes to a well-formed frame with an unknown
/// operation code gives no data: neither an error nor a measurement.
pub proof fn lemma_unknown_code_gives_no_data(raw: [u8; 8])
    requires
        frame_valid(descramble(raw@)),
        descramble(raw@)[0] != CODE_CO2,
        descramble(raw@)[0] != CODE_TEMPERATURE,
    ensures
        outcome_of(Ok(raw)) == ReadingOutcome::NoData,
{
}

/// A failed read gives a transport error with the transport's description,
/// and a read that succeeded never does.
pub proof fn lemma_transport_error_iff_read_failed(read: Result<[u8; 8], String>)
    ensures
        outcome_of(read) is TransportError <==> read is Err,
        read matches Err(description) ==> outcome_of(read) == ReadingOutcome::TransportError(
            description,
        ),
{
}

/// The strings by which a device describes itself.
#[derive(Debug, PartialEq, Eq)]
pub struct DeviceIdentity {
    pub manufacturer: String,
    pub product: String,
    pub serial: String,
}

/// An identity string as given, or the placeholder where the device gave
/// none.
pub open spec fn text_or_placeholder(text: Option<String>) -> Seq<char> {
    match text {
        Some(s) => s@,
        None => PLACEHOLDER@,
    }
}

/// Substitutes the placeholder for a missing identity string.
pub fn or_placeholder(text: Option<String>) -> (s: String)
    ensures
        s@ == text_or_placeholder(text),
{
    match text {
        Some(s) => s,
        None => PLACEHOLDER.to_owned(),
    }
}

impl DeviceIdentity {
    /// Describes a device by the strings that it provides; a missing string
    /// is never an error.
    pub fn new(
        manufacturer: Option<String>,
        product: Option<String>,
        serial: Option<String>,
    ) -> (id: DeviceIdentity)
        ensures
            id.manufacturer@ == text_or_placeholder(manufacturer),
            id.product@ == text_or_placeholder(product),
            id.serial@ == text_or_placeholder(serial),
    {
        DeviceIdentity {
            manufacturer: or_placeholder(manufacturer),
            product: or_placeholder(product),
            serial: or_placeholder(serial),
        }
    }
}

} // verus!
