//! The error type shared by every part of the library.

use vstd::prelude::*;

use crate::codec::PackageType;

verus! {

/// An I/O failure of the socket under a connection, carried through as it came.
#[verifier::external_type_specification]
#[verifier::external_body]
pub struct ExIoError(std::io::Error);

/// What can go wrong while talking to the controller.
#[derive(Debug)]
pub enum Error {
    /// A fixed description of a refused operation.
    Static(&'static str),
    /// A reply that did not have the expected shape or kind.
    UnexpectedResponse(String),
    /// The peer closed the connection before a frame was complete.
    ConnectionLost,
    /// No frame of the expected kind came within the allowed number of reads.
    MaxReads(PackageType),
    /// A polling wait ran out: what was awaited, and the seconds spent.
    Timeout(String, u64),
    /// A value could not be put in wire form.
    Serialization(String),
    /// Bytes from the wire could not be read as the expected value.
    Deserialization(String),
    /// The socket failed.
    Io(std::io::Error),
}

impl From<std::io::Error> for Error {
    fn from(e: std::io::Error) -> Error {
        Error::Io(e)
    }
}

impl vstd::std_specs::convert::FromSpecImpl<std::io::Error> for Error {
    open spec fn obeys_from_spec() -> bool {
        true
    }

    open spec fn from_spec(v: std::io::Error) -> Error {
        Error::Io(v)
    }
}

} // verus!
