//! Error taxonomy of the protocol layer.

use vstd::prelude::*;
use std::io;

verus! {

/// `std::io::Error` carried through opaquely: the `Io` kind propagates a
/// transport-open failure unchanged.
#[verifier::external_type_specification]
#[verifier::external_body]
pub struct ExIoError(io::Error);

/// What can go wrong in an exchange with the sensor.
///
/// `Io` propagates an error of the underlying transport unchanged (reserved
/// for failures opening it). `ChecksumError` means a response word group's
/// checksum byte did not match the computed CRC-8. `ComunicationError` means
/// a write or read to the device failed during an operation.
#[derive(Debug)]
pub enum Scd30Error {
    /// Input/output error
    Io(io::Error),
    /// A response checksum byte did not match the calculated CRC-8
    ChecksumError,
    /// A write or read to the device failed during an operation
    ComunicationError,
}

impl From<io::Error> for Scd30Error {
    fn from(e: io::Error) -> (r: Self)
        ensures
            r matches Scd30Error::Io(inner) && inner == e,
    {
        Scd30Error::Io(e)
    }
}

impl vstd::std_specs::convert::FromSpecImpl<io::Error> for Scd30Error {
    open spec fn obeys_from_spec() -> bool {
        true
    }

    open spec fn from_spec(e: io::Error) -> Self {
        Scd30Error::Io(e)
    }
}

} // verus!
