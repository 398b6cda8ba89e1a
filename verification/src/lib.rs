//! Decoder for the obfuscated 8-byte frames of a USB CO2 and temperature
//! sensor, together with the state that an acquisition loop publishes and
//! the views that a JSON and a metrics endpoint render from it.

pub mod acquisition;
pub mod decoder;
pub mod exposition;
pub mod frame;
pub mod measurement;
pub mod session;
pub mod store;
