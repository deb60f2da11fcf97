//! A verified implementation of the SPIKE Prime BLE GATT message protocol:
//! message layouts, the byte-stuffed framing used on the wire, and the
//! decisions a connection takes on what the hub sends back.
pub mod connection;
pub mod error;
mod foreign;

pub use error::{Error, ParseFault, Result};
