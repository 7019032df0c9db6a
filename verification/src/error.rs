//! Error values of the library.

use vstd::prelude::*;

verus! {

/// Why a string is no identifier.
#[derive(Clone, Copy, Debug, PartialEq, Eq, Structural)]
pub enum ValidationError {
    /// The string holds the path separator `/`.
    ContainSeparator,
    /// The byte length is outside the allowed range.
    InvalidLength,
    /// Some character is outside the identifier character class.
    InvalidCharacter,
    /// The string is empty.
    Empty,
    /// A chain identifier is not in epoch format. No check of an identifier
    /// of a path, client, connection, port or channel ends so.
    ChainIdInvalidFormat,
    /// A counterparty names no valid channel. No check of an identifier of a
    /// path, client, connection, port or channel ends so.
    InvalidCounterpartyChannelId,
}

/// Failure to build a path from text or bytes, or of the store to read.
#[derive(Clone, Copy, Debug, PartialEq, Eq, Structural)]
pub enum ServerError {
    /// A segment is no valid identifier.
    ValidateIdentifier(ValidationError),
    /// The bytes are not UTF-8.
    FromUtf8,
}

} // verus!
