//! Error taxonomy of the service core.
//!
//! Three kinds of failure are kept apart: wire input that cannot be decoded
//! into the expected domain type (`TranslationError`), a failure reported by
//! the device itself (`DomainError`), and a command name missing from the
//! catalog. `DispatchError` is the union surfaced to the transport layer.

use vstd::prelude::*;

verus! {

/// Device-level outcome of the most recent call.
///
/// `NoError` is the sentinel meaning "the last call succeeded" (or no call
/// has been made yet); it is the initial value of the subsystem's `last_err`
/// diagnostic field and is never returned inside an `Err`.
#[derive(Clone, Copy, Debug, PartialEq, Eq, Structural)]
pub enum DomainError {
    /// Sentinel: no failure recorded.
    NoError,
    /// The device did not answer in time.
    Timeout,
    /// The device refused the command.
    Nack,
    /// The device reported an internal fault flag.
    Fault,
    /// The device answered, but not with the reply shape the command expects.
    MalformedResponse,
}

/// Failure to decode wire input into the expected domain type.
///
/// Recovered entirely within the translator; a request that fails to decode
/// never reaches the device.
#[derive(Clone, Copy, Debug, PartialEq, Eq, Structural)]
pub enum TranslationError {
    /// An enumeration ordinal outside the defined range.
    InvalidEnum,
    /// The number of arguments does not match the catalog entry.
    WrongArity,
    /// An argument carries the wrong wire primitive.
    WrongType,
    /// An integer argument does not fit the declared width.
    OutOfRange,
}

/// Union of the failures a dispatched call can surface to the transport.
#[derive(Clone, Copy, Debug, PartialEq, Eq, Structural)]
pub enum DispatchError {
    /// The requested command name is absent from the catalog.
    NotFound,
    /// The arguments could not be decoded; the device was not touched.
    Decode(TranslationError),
    /// The device call failed.
    Domain(DomainError),
}

impl DomainError {
    /// True exactly for the `NoError` sentinel.
    pub fn is_no_error(&self) -> (r: bool)
        ensures
            r == (*self is NoError),
    {
        match self {
            DomainError::NoError => true,
            _ => false,
        }
    }
}

} // verus!
