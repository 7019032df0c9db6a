//! The records of the store and the read-only interface to it.

use vstd::prelude::*;
use crate::error::ServerError;
use crate::grammar::TypedPath;
use crate::host::{ChannelId, ClientId, ConnectionId, PortId};
use crate::path::{
    AcksPath, ChannelEndsPath, ClientConnectionsPath, ClientConsensusStatePath, ClientStatePath,
    CommitmentsPath, ConnectionsPath, ReceiptsPath,
};
use crate::types::{Path, StoreHeight};

verus! {

/// The state of a light client, as an encoded message with its type.
#[derive(Clone, Debug, PartialEq, Eq)]
pub struct AnyClientState {
    pub type_url: String,
    pub value: Vec<u8>,
}

/// A consensus state of a light client, as an encoded message with its type.
#[derive(Clone, Debug, PartialEq, Eq)]
pub struct AnyConsensusState {
    pub type_url: String,
    pub value: Vec<u8>,
}

/// How far the handshake of a connection has come.
#[derive(Clone, Copy, Debug, PartialEq, Eq, Structural)]
pub enum ConnectionState {
    Uninitialized,
    Init,
    TryOpen,
    Open,
}

/// A version of the connection protocol with the features it offers.
#[derive(Clone, Debug, PartialEq, Eq)]
pub struct Version {
    pub identifier: String,
    pub features: Vec<String>,
}

/// The other end of a connection.
#[derive(Clone, Debug, PartialEq, Eq)]
pub struct ConnectionCounterparty {
    pub client_id: ClientId,
    pub connection_id: Option<ConnectionId>,
    pub prefix: Vec<u8>,
}

/// One end of a connection.
#[derive(Clone, Debug, PartialEq, Eq)]
pub struct ConnectionEnd {
    pub state: ConnectionState,
    pub client_id: ClientId,
    pub counterparty: ConnectionCounterparty,
    pub versions: Vec<Version>,
    pub delay_period_nanos: u64,
}

/// How far the handshake of a channel has come.
#[derive(Clone, Copy, Debug, PartialEq, Eq, Structural)]
pub enum ChannelState {
    Uninitialized,
    Init,
    TryOpen,
    Open,
    Closed,
}

/// Whether a channel delivers packets in the order sent.
#[derive(Clone, Copy, Debug, PartialEq, Eq, Structural)]
pub enum Order {
    Unspecified,
    Unordered,
    Ordered,
}

/// The other end of a channel.
#[derive(Clone, Debug, PartialEq, Eq)]
pub struct ChannelCounterparty {
    pub port_id: PortId,
    pub channel_id: Option<ChannelId>,
}

/// One end of a channel.
#[derive(Clone, Debug, PartialEq, Eq)]
pub struct ChannelEnd {
    pub state: ChannelState,
    pub ordering: Order,
    pub remote: ChannelCounterparty,
    pub connection_hops: Vec<ConnectionId>,
    pub version: String,
}

impl ChannelEnd {
    /// The connection that the channel runs over first, if it names any.
    pub open spec fn first_hop(&self) -> Option<Seq<char>> {
        if self.connection_hops@.len() > 0 {
            Some(self.connection_hops@[0]@)
        } else {
            None
        }
    }

    /// Whether the first connection of the channel is `connection_id`.
    pub fn runs_over(&self, connection_id: &ConnectionId) -> (r: bool)
        ensures
            r == (self.first_hop() == Some(connection_id@)),
    {
        if self.connection_hops.len() > 0 {
            self.connection_hops[0].same(connection_id)
        } else {
            false
        }
    }
}

/// The commitment to a sent packet.
#[derive(Clone, Debug, PartialEq, Eq)]
pub struct PacketCommitment(pub Vec<u8>);

impl PacketCommitment {
    /// The bytes of the commitment.
    pub fn into_vec(self) -> (v: Vec<u8>)
        ensures
            v == self.0,
    {
        self.0
    }
}

/// The commitment to an acknowledgement.
#[derive(Clone, Debug, PartialEq, Eq)]
pub struct AcknowledgementCommitment(pub Vec<u8>);

impl AcknowledgementCommitment {
    /// The bytes of the commitment.
    pub fn into_vec(self) -> (v: Vec<u8>)
        ensures
            v == self.0,
    {
        self.0
    }
}

/// The answer of the store on the state of a client.
pub type ClientStateReply = Result<Option<AnyClientState>, ServerError>;

/// The answer of the store on a consensus state of a client.
pub type ConsensusStateReply = Result<Option<AnyConsensusState>, ServerError>;

/// The answer of the store on a connection end.
pub type ConnectionReply = Result<Option<ConnectionEnd>, ServerError>;

/// The answer of the store on the connections of a client.
pub type ConnectionIdsReply = Result<Vec<ConnectionId>, ServerError>;

/// The answer of the store on the commitment to an acknowledgement.
pub type AckReply = Result<Option<AcknowledgementCommitment>, ServerError>;

/// The answer of the store on a channel end.
pub type ChannelReply = Result<Option<ChannelEnd>, ServerError>;

/// The answer of the store on the receipt of a packet.
pub type ReceiptReply = Result<Option<()>, ServerError>;

/// The answer of the store on the commitment to a sent packet.
pub type CommitmentReply = Result<Option<PacketCommitment>, ServerError>;

/// The answer of the store on the keys under a prefix.
pub type ScanReply = Result<Vec<Path>, ServerError>;

/// Read access to the state of the chain.
///
/// Each method comes with a relation between what is asked and what is
/// answered. A store may hold the relation as loose as it likes, and by
/// default every answer is admitted: nothing is promised of what a store
/// answers. The relations are there for the query handlers, which state
/// through them what they ask of the store.
pub trait IbcStore: Sync + Send {
    /// Whether the store may give `reply` when asked at `height` for the
    /// client state under `key`.
    open spec fn client_state_answer(
        &self,
        height: StoreHeight,
        key: TypedPath,
        reply: ClientStateReply,
    ) -> bool {
        true
    }

    /// The state of a light client.
    fn get_client_state(&self, height: StoreHeight, path: &ClientStatePath) -> (reply:
        ClientStateReply)
        ensures
            self.client_state_answer(height, path@, reply),
    ;

    /// Whether the store may give `reply` when asked at `height` for the
    /// consensus state under `key`.
    open spec fn consensus_state_answer(
        &self,
        height: StoreHeight,
        key: TypedPath,
        reply: ConsensusStateReply,
    ) -> bool {
        true
    }

    /// A consensus state of a light client.
    fn get_consensus_state(&self, height: StoreHeight, path: &ClientConsensusStatePath) -> (reply:
        ConsensusStateReply)
        ensures
            self.consensus_state_answer(height, path@, reply),
    ;

    /// Whether the store may give `reply` when asked at `height` for the
    /// connection end under `key`.
    open spec fn connection_end_answer(
        &self,
        height: StoreHeight,
        key: TypedPath,
        reply: ConnectionReply,
    ) -> bool {
        true
    }

    /// A connection end.
    fn get_connection_end(&self, height: StoreHeight, path: &ConnectionsPath) -> (reply:
        ConnectionReply)
        ensures
            self.connection_end_answer(height, path@, reply),
    ;

    /// Whether the store may give `reply` when asked at `height` for the
    /// connections under `key`.
    open spec fn connection_ids_answer(
        &self,
        height: StoreHeight,
        key: TypedPath,
        reply: ConnectionIdsReply,
    ) -> bool {
        true
    }

    /// The connections of a client.
    fn get_connection_ids(&self, height: StoreHeight, path: &ClientConnectionsPath) -> (reply:
        ConnectionIdsReply)
        ensures
            self.connection_ids_answer(height, path@, reply),
    ;

    /// Whether the store may give `reply` when asked at `height` for the
    /// acknowledgement under `key`.
    open spec fn acknowledgement_answer(
        &self,
        height: StoreHeight,
        key: TypedPath,
        reply: AckReply,
    ) -> bool {
        true
    }

    /// The commitment to the acknowledgement of a packet.
    fn get_acknowledgement_commitment(&self, height: StoreHeight, path: &AcksPath) -> (reply:
        AckReply)
        ensures
            self.acknowledgement_answer(height, path@, reply),
    ;

    /// Whether the store may give `reply` when asked at `height` for the
    /// channel end under `key`.
    open spec fn channel_end_answer(
        &self,
        height: StoreHeight,
        key: TypedPath,
        reply: ChannelReply,
    ) -> bool {
        true
    }

    /// A channel end.
    fn get_channel_end(&self, height: StoreHeight, path: &ChannelEndsPath) -> (reply: ChannelReply)
        ensures
            self.channel_end_answer(height, path@, reply),
    ;

    /// Whether the store may give `reply` when asked at `height` for the
    /// receipt under `key`.
    open spec fn receipt_answer(
        &self,
        height: StoreHeight,
        key: TypedPath,
        reply: ReceiptReply,
    ) -> bool {
        true
    }

    /// Whether a packet has a receipt.
    fn get_opt(&self, height: StoreHeight, path: &ReceiptsPath) -> (reply: ReceiptReply)
        ensures
            self.receipt_answer(height, path@, reply),
    ;

    /// Whether the store may give `reply` when asked at `height` for the
    /// packet commitment under `key`.
    open spec fn commitment_answer(
        &self,
        height: StoreHeight,
        key: TypedPath,
        reply: CommitmentReply,
    ) -> bool {
        true
    }

    /// The commitment to a sent packet.
    fn get_packet_commitment(&self, height: StoreHeight, path: &CommitmentsPath) -> (reply:
        CommitmentReply)
        ensures
            self.commitment_answer(height, path@, reply),
    ;

    /// Whether the store may give `reply` when asked for the keys that
    /// begin with the path of segments `prefix`.
    open spec fn listing_answer(&self, prefix: Seq<Seq<char>>, reply: ScanReply) -> bool {
        true
    }

    /// All stored paths that begin with `key_prefix`.
    fn get_paths_by_prefix(&self, key_prefix: &Path) -> (reply: ScanReply)
        ensures
            self.listing_answer(key_prefix@, reply),
    ;

    /// Whether the store may report `height` as the current height.
    open spec fn height_answer(&self, height: u64) -> bool {
        true
    }

    /// The current height of the chain.
    fn current_height(&self) -> (height: u64)
        ensures
            self.height_answer(height),
    ;
}

} // verus!
