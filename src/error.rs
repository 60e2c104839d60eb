//! The errors of the library.
use vstd::prelude::*;

use crate::status::Status;

verus! {

/// The fields whose wire value must lie in a fixed set.
#[derive(Debug, Clone, Copy, PartialEq, Eq, Structural)]
pub enum Field {
    Status,
    ValueType,
    Unit,
    NumericConstraint,
    StringConstraint,
    /// The constraint of a boolean, button or group option, which must be none.
    NoConstraint,
}

/// Ways in which the bytes received break the framing of the protocol.
#[derive(Debug, Clone, Copy, PartialEq, Eq, Structural)]
pub enum DataFault {
    /// A string to send is too long for its length word.
    StringTooLong,
    /// The last slot of an array was not empty.
    MissingTerminator,
    /// The size of a value differs from the size its descriptor gives.
    SizeMismatch,
    /// A control reply carried an authentication resource, which is not handled.
    UnhandledResource,
}

#[derive(Debug, Clone, Copy, PartialEq, Eq, Structural)]
pub enum Error {
    /// The server answered with a status other than success.
    SanedError(Status),
    /// A word held a value outside the domain of its field.
    InvalidSaneFieldValue(Field, i32),
    BadNetworkDataError(DataFault),
    /// Text on the wire was not valid UTF-8.
    FromUtf8Error,
    /// The stream ended before the reply was complete.
    IOError,
    /// A field that must be present was sent as absent.
    NoneError,
}

} // verus!
