//! The one error of this layer: a failed call to the transport.

use embedded_hal::spi::ErrorKind;
use vstd::prelude::*;
use vstd::std_specs::convert::FromSpecImpl;

verus! {

/// `std::io::Error`, the failure that the transport reports. Nothing is
/// known of its content; it is only carried to the caller.
#[verifier::external_type_specification]
#[verifier::external_body]
pub struct ExIoError(std::io::Error);

/// `embedded_hal::spi::ErrorKind`, the classification that generic callers
/// branch on.
#[verifier::external_type_specification]
pub struct ExErrorKind(ErrorKind);

/// Error type wrapping the transport's [`std::io::Error`].
#[derive(Debug)]
pub struct SPIError {
    err: std::io::Error,
}

impl SPIError {
    /// The transport failure that this error wraps.
    pub closed spec fn cause(&self) -> std::io::Error {
        self.err
    }

    /// Fetch the inner (concrete) transport error.
    pub fn inner(&self) -> (err: &std::io::Error)
        ensures
            *err == self.cause(),
    {
        &self.err
    }

    /// The classification reported to generic callers. Transport failures
    /// are not interpreted: every error is `Other`.
    pub fn kind(&self) -> (kind: ErrorKind)
        ensures
            kind == ErrorKind::Other,
    {
        ErrorKind::Other
    }
}

impl From<std::io::Error> for SPIError {
    fn from(err: std::io::Error) -> (out: Self)
        ensures
            out.cause() == err,
    {
        Self { err }
    }
}

impl FromSpecImpl<std::io::Error> for SPIError {
    open spec fn obeys_from_spec() -> bool {
        true
    }

    closed spec fn from_spec(err: std::io::Error) -> Self {
        SPIError { err }
    }
}

} // verus!
