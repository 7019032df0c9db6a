//! How a query fails.

use vstd::prelude::*;
use crate::error::{ServerError, ValidationError};

verus! {

/// The field of a request that is malformed.
#[derive(Clone, Copy, Debug, PartialEq, Eq, Structural)]
pub enum BadArgument {
    /// The path built from the request is no valid path.
    Path(ServerError),
    /// The client identifier is rejected for the given reason.
    ClientId(ValidationError),
    /// The connection identifier is rejected.
    ConnectionId,
    /// The port identifier is rejected.
    PortId,
    /// The channel identifier is rejected.
    ChannelId,
}

/// A contradiction between the keys that the store lists and what it holds.
#[derive(Clone, Copy, Debug, PartialEq, Eq, Structural)]
pub enum Fault {
    /// A listed key has not the shape of the records asked for.
    UnexpectedPath,
    /// A listed key has no record.
    MissingRecord,
}

/// Why a query has no answer.
#[derive(Clone, Copy, Debug, PartialEq, Eq, Structural)]
pub enum Status {
    /// The request is malformed.
    InvalidArgument(BadArgument),
    /// The store failed to list its keys.
    Internal(ServerError),
    /// The store failed to read a record.
    DataLoss(ServerError),
    /// The store contradicts itself.
    Inconsistent(Fault),
    /// The query is not supported yet.
    Unimplemented,
}

} // verus!
