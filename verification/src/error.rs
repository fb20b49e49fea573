//! Why a connection ends.
use vstd::prelude::*;

verus! {

/// Declares `std::io::Error` as an opaque type. It is carried along, never looked into.
#[verifier::external_type_specification]
#[verifier::external_body]
pub struct ExIoError(std::io::Error);

/// Why a connection ends.
#[derive(Debug)]
pub enum Error {
    /// The peer closed the connection.
    ConnectionClose,
    /// An operation on a stream failed.
    IoError(std::io::Error),
    /// The message names another protocol version than 5.
    UnsupportedVersion(u8),
    /// The request names a command that the protocol does not have.
    UnsupportedCommand(u8),
    /// The address has a type that the protocol does not have.
    UnsupportedAddrType(u8),
    /// The greeting offers no authentication method.
    NoMethods,
    /// The message ends early.
    Incomplete,
}

impl vstd::std_specs::convert::FromSpecImpl<std::io::Error> for Error {
    open spec fn obeys_from_spec() -> bool {
        true
    }

    open spec fn from_spec(err: std::io::Error) -> Self {
        Error::IoError(err)
    }
}

impl From<std::io::Error> for Error {
    fn from(err: std::io::Error) -> (error: Self)
        ensures
            error == Error::IoError(err),
    {
        Error::IoError(err)
    }
}

} // verus!
