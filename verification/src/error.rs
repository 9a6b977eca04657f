use vstd::prelude::*;

use crate::value::Val;

verus! {

/// Why an inbound frame could not be decoded into a message.
#[derive(Debug, Clone, PartialEq, Eq)]
pub enum DecodeFault {
    /// The top-level value is not an array.
    NotArray,
    /// Element 0 of the array is missing or is not an integer.
    BadTag,
    /// The tag is an integer, but names no known message kind.
    UnknownTag,
    /// A required field is missing or has the wrong kind.
    BadField,
}

/// The error taxonomy of the client core.
#[derive(Debug, PartialEq)]
pub enum Error {
    /// A malformed inbound frame; decoding it failed for the given reason.
    Decode(DecodeFault),
    /// The peer answered a call with a non-nil error value, carried here.
    Response(Val),
    /// The reply slot of a pending call was abandoned: the reader shut down
    /// before a response arrived.
    Delivery,
    /// The byte stream failed on read or write; the text describes the
    /// stream's own error.
    Io(String),
    /// A value conversion was asked for a different variant than the held one.
    TypeMismatch,
}

} // verus!
