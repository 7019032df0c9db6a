//! The queries on channels and packets.

use std::sync::Arc;
use vstd::prelude::*;
use crate::error::ServerError;
use crate::host::{is_channel_id, is_connection_id, is_port_id, ChannelId, ConnectionId, PortId};
use crate::grammar::{typed_of, TypedPath};
use crate::path::{AcksPath, ChannelEndsPath, CommitmentsPath, IbcPath, ReceiptsPath};
use crate::service::{is_stamp, key_space, key_space_under, stamp, Height, PageResponse};
use crate::status::{BadArgument, Fault, Status};
use crate::store::{
    AckReply, ChannelEnd, ChannelReply, CommitmentReply, IbcStore, ReceiptReply, ScanReply,
};
use crate::trace::{all_asked, gather, steps, views, walk, walked, Step, Visit};
use crate::types::{Path, StoreHeight};

verus! {

/// Asks for one channel end.
#[derive(Clone, Debug, PartialEq, Eq)]
pub struct QueryChannelRequest {
    pub port_id: String,
    pub channel_id: String,
}

/// The channel end asked for, if the store holds it.
#[derive(Clone, Debug, PartialEq, Eq)]
pub struct QueryChannelResponse {
    pub channel: Option<ChannelEnd>,
    pub proof: Vec<u8>,
    pub proof_height: Option<Height>,
}

/// A channel end with its port and channel identifiers.
#[derive(Clone, Debug, PartialEq, Eq)]
pub struct IdentifiedChannel {
    pub port_id: PortId,
    pub channel_id: ChannelId,
    pub channel: ChannelEnd,
}

impl View for IdentifiedChannel {
    type V = (Seq<char>, Seq<char>, ChannelEnd);

    open spec fn view(&self) -> (Seq<char>, Seq<char>, ChannelEnd) {
        (self.port_id@, self.channel_id@, self.channel)
    }
}

/// Channel ends of the chain, at a height.
#[derive(Clone, Debug, PartialEq, Eq)]
pub struct QueryChannelsResponse {
    pub channels: Vec<IdentifiedChannel>,
    pub pagination: Option<PageResponse>,
    pub height: Option<Height>,
}

/// Asks for the channels that run over a connection.
#[derive(Clone, Debug, PartialEq, Eq)]
pub struct QueryConnectionChannelsRequest {
    pub connection: String,
}

/// The channels that run over a connection, at a height.
#[derive(Clone, Debug, PartialEq, Eq)]
pub struct QueryConnectionChannelsResponse {
    pub channels: Vec<IdentifiedChannel>,
    pub pagination: Option<PageResponse>,
    pub height: Option<Height>,
}

/// Asks for the packet commitments or acknowledgements of a channel.
#[derive(Clone, Debug, PartialEq, Eq)]
pub struct QueryPacketStatesRequest {
    pub port_id: String,
    pub channel_id: String,
}

/// The commitment bytes stored for one packet of a channel.
#[derive(Clone, Debug, PartialEq, Eq)]
pub struct PacketState {
    pub port_id: String,
    pub channel_id: String,
    pub sequence: u64,
    pub data: Vec<u8>,
}

impl View for PacketState {
    type V = (Seq<char>, Seq<char>, u64, Seq<u8>);

    open spec fn view(&self) -> (Seq<char>, Seq<char>, u64, Seq<u8>) {
        (self.port_id@, self.channel_id@, self.sequence, self.data@)
    }
}

/// The packet commitments of a channel, at a height.
#[derive(Clone, Debug, PartialEq, Eq)]
pub struct QueryPacketCommitmentsResponse {
    pub commitments: Vec<PacketState>,
    pub pagination: Option<PageResponse>,
    pub height: Option<Height>,
}

/// The packet acknowledgements of a channel, at a height.
#[derive(Clone, Debug, PartialEq, Eq)]
pub struct QueryPacketAcknowledgementsResponse {
    pub acknowledgements: Vec<PacketState>,
    pub pagination: Option<PageResponse>,
    pub height: Option<Height>,
}

/// Asks which of the given packets have not been acknowledged yet.
#[derive(Clone, Debug, PartialEq, Eq)]
pub struct QueryUnreceivedAcksRequest {
    pub port_id: String,
    pub channel_id: String,
    pub packet_ack_sequences: Vec<u64>,
}

/// The sequence numbers without an acknowledgement, at a height.
#[derive(Clone, Debug, PartialEq, Eq)]
pub struct QueryUnreceivedAcksResponse {
    pub sequences: Vec<u64>,
    pub height: Option<Height>,
}

/// The invalid-argument status of a request that names a port and a channel,
/// if one of the two is malformed: the port is judged first.
pub open spec fn channel_argument_fault(port_id: Seq<char>, channel_id: Seq<char>) -> Option<
    Status,
> {
    if !is_port_id(port_id) {
        Some(Status::InvalidArgument(BadArgument::PortId))
    } else if !is_channel_id(channel_id) {
        Some(Status::InvalidArgument(BadArgument::ChannelId))
    } else {
        None
    }
}

/// Validates the port and the channel that a request names.
pub fn channel_arguments(port_id: &str, channel_id: &str) -> (r: Result<
    (PortId, ChannelId),
    Status,
>)
    ensures
        r is Err <==> channel_argument_fault(port_id@, channel_id@) is Some,
        r matches Err(s) ==> channel_argument_fault(port_id@, channel_id@) == Some(s),
        r matches Ok((p, c)) ==> p@ == port_id@ && c@ == channel_id@,
{
    let port = match PortId::from_str(port_id) {
        Ok(id) => id,
        Err(_) => {
            return Err(Status::InvalidArgument(BadArgument::PortId));
        },
    };
    let channel = match ChannelId::from_str(channel_id) {
        Ok(id) => id,
        Err(_) => {
            return Err(Status::InvalidArgument(BadArgument::ChannelId));
        },
    };
    Ok((port, channel))
}

/// Whether `reply` is an answer that `store` may give when asked for the
/// newest channel end of the port and the channel.
pub open spec fn channel_asked<Store: IbcStore>(
    store: &Store,
    port_id: Seq<char>,
    channel_id: Seq<char>,
    reply: ChannelReply,
) -> bool {
    store.channel_end_answer(
        StoreHeight::Latest,
        TypedPath::ChannelEnds(port_id, channel_id),
        reply,
    )
}

/// Whether `reply` is an answer that `store` may give to the lookup that a
/// listed key needs in a list of channels: the newest channel end under
/// the key, where the key names a channel.
pub open spec fn channel_lookup<Store: IbcStore>(
    store: &Store,
    key: Seq<Seq<char>>,
    reply: ChannelReply,
) -> bool {
    match typed_of(key) {
        Some(TypedPath::ChannelEnds(p, c)) => channel_asked(store, p, c, reply),
        _ => true,
    }
}

/// Whether `r` is the answer to a query for one channel end, given what the
/// store replied: a failed read is a loss of data, and absence is an answer
/// like any other.
pub open spec fn answers_channel(
    r: Result<QueryChannelResponse, Status>,
    reply: ChannelReply,
) -> bool {
    match reply {
        Err(e) => r is Err && r->Err_0 == Status::DataLoss(e),
        Ok(found) => r matches Ok(resp) && resp.channel == found && resp.proof@.len() == 0
            && resp.proof_height is None,
    }
}

/// The answer to a query for one channel end, given what the store replied.
pub fn channel_response(reply: ChannelReply) -> (r: Result<QueryChannelResponse, Status>)
    ensures
        answers_channel(r, reply),
{
    match reply {
        Err(e) => Err(Status::DataLoss(e)),
        Ok(found) => Ok(
            QueryChannelResponse { channel: found, proof: Vec::new(), proof_height: None },
        ),
    }
}

/// What a channel key with the reply to its lookup contributes to the list
/// of all channels: the identified channel end. A key without a record
/// contradicts the listing.
pub open spec fn channel_found(
    port_id: Seq<char>,
    channel_id: Seq<char>,
    reply: ChannelReply,
) -> Step<(Seq<char>, Seq<char>, ChannelEnd)> {
    match reply {
        Err(e) => Step::Fail(Status::DataLoss(e)),
        Ok(None) => Step::Fail(Status::Inconsistent(Fault::MissingRecord)),
        Ok(Some(end)) => Step::Keep((port_id, channel_id, end)),
    }
}

/// What a listed key contributes to the list of all channels. A key that
/// names no channel contradicts the listing.
pub open spec fn channel_step(key: Seq<Seq<char>>, reply: ChannelReply) -> Step<
    (Seq<char>, Seq<char>, ChannelEnd),
> {
    match typed_of(key) {
        Some(TypedPath::ChannelEnds(p, c)) => channel_found(p, c, reply),
        _ => Step::Fail(Status::Inconsistent(Fault::UnexpectedPath)),
    }
}

/// The steps of listing all channels over `keys` with `replies`.
pub open spec fn channel_steps(keys: Seq<Path>, replies: Seq<ChannelReply>) -> Seq<
    Step<(Seq<char>, Seq<char>, ChannelEnd)>,
> {
    Seq::new(keys.len(), |i: int| channel_step(keys[i]@, replies[i]))
}

/// Whether `r` is the answer to the query for all channels, given what
/// `store` replied to the listing of the channel keys and to the lookup of
/// each key visited.
pub open spec fn answers_channels<Store: IbcStore>(
    r: Result<QueryChannelsResponse, Status>,
    store: &Store,
    scan: ScanReply,
    replies: Seq<ChannelReply>,
) -> bool {
    &&& store.listing_answer(seq!["channelEnds"@, "ports"@], scan)
    &&& match scan {
        Err(e) => r is Err && r->Err_0 == Status::Internal(e),
        Ok(keys) => {
            &&& replies.len() <= keys@.len()
            &&& forall|i: int|
                0 <= i < replies.len() ==> channel_lookup(store, keys@[i]@, #[trigger] replies[i])
            &&& match gather(channel_steps(keys@.take(replies.len() as int), replies)) {
                Err(s) => r is Err && r->Err_0 == s,
                Ok(items) => r matches Ok(resp) && views(resp.channels@) == items
                    && resp.pagination is None && is_stamp(store, resp.height) && replies.len()
                    == keys@.len(),
            }
        },
    }
}

/// The identified channel end of a key, given the reply to its lookup.
pub fn identify_channel(path: ChannelEndsPath, reply: ChannelReply) -> (r: Step<IdentifiedChannel>)
    ensures
        r@ == channel_found(path.0@, path.1@, reply),
{
    match reply {
        Err(e) => Step::Fail(Status::DataLoss(e)),
        Ok(None) => Step::Fail(Status::Inconsistent(Fault::MissingRecord)),
        Ok(Some(end)) => Step::Keep(
            IdentifiedChannel { port_id: path.0, channel_id: path.1, channel: end },
        ),
    }
}

/// What a channel key with the reply to its lookup contributes to the
/// channels of `connection`: the identified channel end where its first
/// connection is that one. A key without a record contradicts the listing.
pub open spec fn hop_found(
    connection: Seq<char>,
    port_id: Seq<char>,
    channel_id: Seq<char>,
    reply: ChannelReply,
) -> Step<(Seq<char>, Seq<char>, ChannelEnd)> {
    match reply {
        Err(e) => Step::Fail(Status::DataLoss(e)),
        Ok(None) => Step::Fail(Status::Inconsistent(Fault::MissingRecord)),
        Ok(Some(end)) => if end.first_hop() == Some(connection) {
            Step::Keep((port_id, channel_id, end))
        } else {
            Step::Skip
        },
    }
}

/// What a listed key contributes to the channels of `connection`. A key that
/// names no channel is passed over.
pub open spec fn hop_step(connection: Seq<char>, key: Seq<Seq<char>>, reply: ChannelReply) -> Step<
    (Seq<char>, Seq<char>, ChannelEnd),
> {
    match typed_of(key) {
        Some(TypedPath::ChannelEnds(p, c)) => hop_found(connection, p, c, reply),
        _ => Step::Skip,
    }
}

/// The steps of listing the channels of `connection` over `keys` with
/// `replies`.
pub open spec fn hop_steps(
    connection: Seq<char>,
    keys: Seq<Path>,
    replies: Seq<ChannelReply>,
) -> Seq<Step<(Seq<char>, Seq<char>, ChannelEnd)>> {
    Seq::new(keys.len(), |i: int| hop_step(connection, keys[i]@, replies[i]))
}

/// Whether `r` is the answer to the query for the channels of `connection`,
/// given what `store` replied to the listing of the channel keys and to the
/// lookup of each key visited.
pub open spec fn answers_connection_channels<Store: IbcStore>(
    r: Result<QueryConnectionChannelsResponse, Status>,
    store: &Store,
    connection: Seq<char>,
    scan: ScanReply,
    replies: Seq<ChannelReply>,
) -> bool {
    &&& store.listing_answer(seq!["channelEnds"@], scan)
    &&& match scan {
        Err(e) => r is Err && r->Err_0 == Status::Internal(e),
        Ok(keys) => {
            &&& replies.len() <= keys@.len()
            &&& forall|i: int|
                0 <= i < replies.len() ==> channel_lookup(store, keys@[i]@, #[trigger] replies[i])
            &&& match gather(hop_steps(connection, keys@.take(replies.len() as int), replies)) {
                Err(s) => r is Err && r->Err_0 == s,
                Ok(items) => r matches Ok(resp) && views(resp.channels@) == items
                    && resp.pagination is None && is_stamp(store, resp.height) && replies.len()
                    == keys@.len(),
            }
        },
    }
}

/// The identified channel end of a key where it runs over `connection`,
/// given the reply to its lookup.
pub fn select_channel(connection: &ConnectionId, path: ChannelEndsPath, reply: ChannelReply) -> (r:
    Step<IdentifiedChannel>)
    ensures
        r@ == hop_found(connection@, path.0@, path.1@, reply),
{
    match reply {
        Err(e) => Step::Fail(Status::DataLoss(e)),
        Ok(None) => Step::Fail(Status::Inconsistent(Fault::MissingRecord)),
        Ok(Some(end)) => {
            if end.runs_over(connection) {
                Step::Keep(IdentifiedChannel { port_id: path.0, channel_id: path.1, channel: end })
            } else {
                Step::Skip
            }
        },
    }
}

/// The key space of the channel ends of all ports.
pub fn channels_prefix() -> (p: Path)
    ensures
        p@ == seq!["channelEnds"@, "ports"@],
{
    key_space_under("channelEnds", "ports")
}

/// The key space of all channel ends.
pub fn channel_ends_prefix() -> (p: Path)
    ensures
        p@ == seq!["channelEnds"@],
{
    key_space("channelEnds")
}

/// What a commitment key with the reply to its lookup contributes to the
/// commitments of a channel: the packet state, unless the commitment is
/// empty. A key without a record contradicts the listing.
pub open spec fn commitment_found(
    port_id: Seq<char>,
    channel_id: Seq<char>,
    sequence: u64,
    reply: CommitmentReply,
) -> Step<(Seq<char>, Seq<char>, u64, Seq<u8>)> {
    match reply {
        Err(e) => Step::Fail(Status::DataLoss(e)),
        Ok(None) => Step::Fail(Status::Inconsistent(Fault::MissingRecord)),
        Ok(Some(commitment)) => if commitment.0@.len() > 0 {
            Step::Keep((port_id, channel_id, sequence, commitment.0@))
        } else {
            Step::Skip
        },
    }
}

/// What a listed key contributes to the commitments of a channel. A key
/// that names no commitment of that channel is passed over.
pub open spec fn commitment_step(
    port_id: Seq<char>,
    channel_id: Seq<char>,
    key: Seq<Seq<char>>,
    reply: CommitmentReply,
) -> Step<(Seq<char>, Seq<char>, u64, Seq<u8>)> {
    match typed_of(key) {
        Some(TypedPath::Commitments(p, c, s)) => if p == port_id && c == channel_id {
            commitment_found(p, c, s, reply)
        } else {
            Step::Skip
        },
        _ => Step::Skip,
    }
}

/// The steps of listing the commitments of a channel over `keys` with
/// `replies`.
pub open spec fn commitment_steps(
    port_id: Seq<char>,
    channel_id: Seq<char>,
    keys: Seq<Path>,
    replies: Seq<CommitmentReply>,
) -> Seq<Step<(Seq<char>, Seq<char>, u64, Seq<u8>)>> {
    Seq::new(keys.len(), |i: int| commitment_step(port_id, channel_id, keys[i]@, replies[i]))
}

/// Whether `reply` is an answer that `store` may give when asked for the
/// newest commitment to the packet `sequence` of the port and the channel.
pub open spec fn commitment_asked<Store: IbcStore>(
    store: &Store,
    port_id: Seq<char>,
    channel_id: Seq<char>,
    sequence: u64,
    reply: CommitmentReply,
) -> bool {
    store.commitment_answer(
        StoreHeight::Latest,
        TypedPath::Commitments(port_id, channel_id, sequence),
        reply,
    )
}

/// Whether `reply` is an answer that `store` may give to the lookup that a
/// listed key needs in the list of the commitments of a channel: the newest
/// commitment under the key, where the key names a packet of that channel.
pub open spec fn commitment_lookup<Store: IbcStore>(
    store: &Store,
    port_id: Seq<char>,
    channel_id: Seq<char>,
    key: Seq<Seq<char>>,
    reply: CommitmentReply,
) -> bool {
    match typed_of(key) {
        Some(TypedPath::Commitments(p, c, s)) => p == port_id && c == channel_id
            ==> commitment_asked(store, p, c, s, reply),
        _ => true,
    }
}

/// Whether `r` is the answer to the query for the commitments of a channel,
/// given what `store` replied to the listing of the commitment keys and to
/// the lookup of each key visited.
pub open spec fn answers_packet_commitments<Store: IbcStore>(
    r: Result<QueryPacketCommitmentsResponse, Status>,
    store: &Store,
    port_id: Seq<char>,
    channel_id: Seq<char>,
    scan: ScanReply,
    replies: Seq<CommitmentReply>,
) -> bool {
    &&& store.listing_answer(seq!["commitments"@, "ports"@], scan)
    &&& match scan {
        Err(e) => r is Err && r->Err_0 == Status::Internal(e),
        Ok(keys) => {
            &&& replies.len() <= keys@.len()
            &&& forall|i: int|
                0 <= i < replies.len() ==> commitment_lookup(
                    store,
                    port_id,
                    channel_id,
                    keys@[i]@,
                    #[trigger] replies[i],
                )
            &&& match gather(
                commitment_steps(port_id, channel_id, keys@.take(replies.len() as int), replies),
            ) {
                Err(s) => r is Err && r->Err_0 == s,
                Ok(items) => r matches Ok(resp) && views(resp.commitments@) == items
                    && resp.pagination is None && is_stamp(store, resp.height) && replies.len()
                    == keys@.len(),
            }
        },
    }
}

/// The packet state of a commitment key, given the reply to its lookup.
pub fn commitment_state(path: &CommitmentsPath, reply: CommitmentReply) -> (r: Step<PacketState>)
    ensures
        r@ == commitment_found(path.port_id@, path.channel_id@, path.sequence, reply),
{
    match reply {
        Err(e) => Step::Fail(Status::DataLoss(e)),
        Ok(None) => Step::Fail(Status::Inconsistent(Fault::MissingRecord)),
        Ok(Some(commitment)) => {
            let data = commitment.into_vec();
            if data.len() > 0 {
                Step::Keep(
                    PacketState {
                        port_id: path.port_id.as_str().to_owned(),
                        channel_id: path.channel_id.as_str().to_owned(),
                        sequence: path.sequence,
                        data,
                    },
                )
            } else {
                Step::Skip
            }
        },
    }
}

/// What an acknowledgement key with the reply to its lookup contributes to
/// the acknowledgements of a channel: the packet state, unless the
/// commitment is empty. A key without a record contradicts the listing.
pub open spec fn ack_found(
    port_id: Seq<char>,
    channel_id: Seq<char>,
    sequence: u64,
    reply: AckReply,
) -> Step<(Seq<char>, Seq<char>, u64, Seq<u8>)> {
    match reply {
        Err(e) => Step::Fail(Status::DataLoss(e)),
        Ok(None) => Step::Fail(Status::Inconsistent(Fault::MissingRecord)),
        Ok(Some(commitment)) => if commitment.0@.len() > 0 {
            Step::Keep((port_id, channel_id, sequence, commitment.0@))
        } else {
            Step::Skip
        },
    }
}

/// What a listed key contributes to the acknowledgements of a channel. A
/// key that names no acknowledgement of that channel is passed over.
pub open spec fn ack_step(
    port_id: Seq<char>,
    channel_id: Seq<char>,
    key: Seq<Seq<char>>,
    reply: AckReply,
) -> Step<(Seq<char>, Seq<char>, u64, Seq<u8>)> {
    match typed_of(key) {
        Some(TypedPath::Acks(p, c, s)) => if p == port_id && c == channel_id {
            ack_found(p, c, s, reply)
        } else {
            Step::Skip
        },
        _ => Step::Skip,
    }
}

/// The steps of listing the acknowledgements of a channel over `keys` with
/// `replies`.
pub open spec fn ack_steps(
    port_id: Seq<char>,
    channel_id: Seq<char>,
    keys: Seq<Path>,
    replies: Seq<AckReply>,
) -> Seq<Step<(Seq<char>, Seq<char>, u64, Seq<u8>)>> {
    Seq::new(keys.len(), |i: int| ack_step(port_id, channel_id, keys[i]@, replies[i]))
}

/// Whether `reply` is an answer that `store` may give to the lookup that a
/// listed key needs in the list of the acknowledgements of a channel: the
/// newest acknowledgement under the key, where the key names a packet of
/// that channel.
pub open spec fn ack_lookup<Store: IbcStore>(
    store: &Store,
    port_id: Seq<char>,
    channel_id: Seq<char>,
    key: Seq<Seq<char>>,
    reply: AckReply,
) -> bool {
    match typed_of(key) {
        Some(TypedPath::Acks(p, c, s)) => p == port_id && c == channel_id
            ==> store.acknowledgement_answer(
            StoreHeight::Latest,
            TypedPath::Acks(p, c, s),
            reply,
        ),
        _ => true,
    }
}

/// Whether `r` is the answer to the query for the acknowledgements of a
/// channel, given what `store` replied to the listing of the
/// acknowledgement keys and to the lookup of each key visited.
pub open spec fn answers_packet_acknowledgements<Store: IbcStore>(
    r: Result<QueryPacketAcknowledgementsResponse, Status>,
    store: &Store,
    port_id: Seq<char>,
    channel_id: Seq<char>,
    scan: ScanReply,
    replies: Seq<AckReply>,
) -> bool {
    &&& store.listing_answer(seq!["acks"@, "ports"@], scan)
    &&& match scan {
        Err(e) => r is Err && r->Err_0 == Status::Internal(e),
        Ok(keys) => {
            &&& replies.len() <= keys@.len()
            &&& forall|i: int|
                0 <= i < replies.len() ==> ack_lookup(
                    store,
                    port_id,
                    channel_id,
                    keys@[i]@,
                    #[trigger] replies[i],
                )
            &&& match gather(
                ack_steps(port_id, channel_id, keys@.take(replies.len() as int), replies),
            ) {
                Err(s) => r is Err && r->Err_0 == s,
                Ok(items) => r matches Ok(resp) && views(resp.acknowledgements@) == items
                    && resp.pagination is None && is_stamp(store, resp.height) && replies.len()
                    == keys@.len(),
            }
        },
    }
}

/// The packet state of an acknowledgement key, given the reply to its
/// lookup.
pub fn ack_state(path: &AcksPath, reply: AckReply) -> (r: Step<PacketState>)
    ensures
        r@ == ack_found(path.port_id@, path.channel_id@, path.sequence, reply),
{
    match reply {
        Err(e) => Step::Fail(Status::DataLoss(e)),
        Ok(None) => Step::Fail(Status::Inconsistent(Fault::MissingRecord)),
        Ok(Some(commitment)) => {
            let data = commitment.into_vec();
            if data.len() > 0 {
                Step::Keep(
                    PacketState {
                        port_id: path.port_id.as_str().to_owned(),
                        channel_id: path.channel_id.as_str().to_owned(),
                        sequence: path.sequence,
                        data,
                    },
                )
            } else {
                Step::Skip
            }
        },
    }
}

/// The key space of the packet commitments of all ports.
pub fn commitments_prefix() -> (p: Path)
    ensures
        p@ == seq!["commitments"@, "ports"@],
{
    key_space_under("commitments", "ports")
}

/// The key space of the acknowledgements of all ports.
pub fn acks_prefix() -> (p: Path)
    ensures
        p@ == seq!["acks"@, "ports"@],
{
    key_space_under("acks", "ports")
}

/// Whether the store answered that the commitment to the packet is still
/// there. A failed read counts as no such answer.
pub open spec fn commitment_present(reply: CommitmentReply) -> bool {
    reply matches Ok(Some(_))
}

/// The sequence numbers, in the order given, whose reply says that the
/// commitment to the packet is still there: the store deletes it when the
/// acknowledgement arrives.
pub open spec fn unreceived_acks_of(seqs: Seq<u64>, replies: Seq<CommitmentReply>) -> Seq<u64>
    decreases seqs.len(),
{
    if seqs.len() == 0 {
        Seq::empty()
    } else {
        let before = unreceived_acks_of(seqs.drop_last(), replies.drop_last());
        if commitment_present(replies.last()) {
            before.push(seqs.last())
        } else {
            before
        }
    }
}

/// Whether each reply is an answer that `store` may give when asked for
/// the newest commitment to the packet at its position.
pub open spec fn commitments_asked<Store: IbcStore>(
    store: &Store,
    port_id: Seq<char>,
    channel_id: Seq<char>,
    seqs: Seq<u64>,
    replies: Seq<CommitmentReply>,
) -> bool {
    &&& replies.len() == seqs.len()
    &&& forall|i: int|
        0 <= i < replies.len() ==> commitment_asked(
            store,
            port_id,
            channel_id,
            seqs[i],
            #[trigger] replies[i],
        )
}

/// Whether `reply` says that the commitment to the packet is still there.
pub fn is_commitment_present(reply: &CommitmentReply) -> (r: bool)
    ensures
        r == commitment_present(*reply),
{
    match reply {
        Ok(Some(_)) => true,
        _ => false,
    }
}

/// Asks which of the given packets have no receipt yet.
#[derive(Clone, Debug, PartialEq, Eq)]
pub struct QueryUnreceivedPacketsRequest {
    pub port_id: String,
    pub channel_id: String,
    pub packet_commitment_sequences: Vec<u64>,
}

/// The sequence numbers without a receipt, at a height.
#[derive(Clone, Debug, PartialEq, Eq)]
pub struct QueryUnreceivedPacketsResponse {
    pub sequences: Vec<u64>,
    pub height: Option<Height>,
}

/// Whether the store answered that there is no receipt. A failed read counts
/// as no such answer.
pub open spec fn receipt_absent(reply: ReceiptReply) -> bool {
    reply == Ok::<Option<()>, ServerError>(None)
}

/// The sequence numbers, in the order given, whose reply says that the packet
/// has no receipt.
pub open spec fn unreceived_packets_of(seqs: Seq<u64>, replies: Seq<ReceiptReply>) -> Seq<u64>
    decreases seqs.len(),
{
    if seqs.len() == 0 {
        Seq::empty()
    } else {
        let before = unreceived_packets_of(seqs.drop_last(), replies.drop_last());
        if receipt_absent(replies.last()) {
            before.push(seqs.last())
        } else {
            before
        }
    }
}

/// Whether each reply is an answer that `store` may give when asked for
/// the newest receipt of the packet at its position.
pub open spec fn receipts_asked<Store: IbcStore>(
    store: &Store,
    port_id: Seq<char>,
    channel_id: Seq<char>,
    seqs: Seq<u64>,
    replies: Seq<ReceiptReply>,
) -> bool {
    &&& replies.len() == seqs.len()
    &&& forall|i: int|
        0 <= i < replies.len() ==> store.receipt_answer(
            StoreHeight::Latest,
            TypedPath::Receipts(port_id, channel_id, seqs[i]),
            #[trigger] replies[i],
        )
}

/// Whether `reply` says that the packet has no receipt.
pub fn is_receipt_absent(reply: &ReceiptReply) -> (r: bool)
    ensures
        r == receipt_absent(*reply),
{
    match reply {
        Ok(None) => true,
        _ => false,
    }
}

/// The walk that lists all channels.
struct AllChannels<Store: IbcStore> {
    store: Arc<Store>,
}

impl<Store: IbcStore> Visit for AllChannels<Store> {
    type Reply = ChannelReply;

    type Item = IdentifiedChannel;

    closed spec fn asked(&self, key: Seq<Seq<char>>, reply: ChannelReply) -> bool {
        channel_lookup(&*self.store, key, reply)
    }

    open spec fn step(&self, key: Seq<Seq<char>>, reply: ChannelReply) -> Step<
        (Seq<char>, Seq<char>, ChannelEnd),
    > {
        channel_step(key, reply)
    }

    fn visit(&self, key: &Path) -> (r: (Step<IdentifiedChannel>, Ghost<ChannelReply>)) {
        match key.to_typed() {
            Some(IbcPath::ChannelEnds(path)) => {
                let found = self.store.get_channel_end(StoreHeight::Latest, &path);
                (identify_channel(path, found), Ghost(found))
            },
            _ => (Step::Fail(Status::Inconsistent(Fault::UnexpectedPath)), Ghost(Ok(None))),
        }
    }
}

/// The walk that lists the channels of one connection.
struct ChannelsOver<Store: IbcStore> {
    store: Arc<Store>,
    connection: ConnectionId,
}

impl<Store: IbcStore> Visit for ChannelsOver<Store> {
    type Reply = ChannelReply;

    type Item = IdentifiedChannel;

    closed spec fn asked(&self, key: Seq<Seq<char>>, reply: ChannelReply) -> bool {
        channel_lookup(&*self.store, key, reply)
    }

    closed spec fn step(&self, key: Seq<Seq<char>>, reply: ChannelReply) -> Step<
        (Seq<char>, Seq<char>, ChannelEnd),
    > {
        hop_step(self.connection@, key, reply)
    }

    fn visit(&self, key: &Path) -> (r: (Step<IdentifiedChannel>, Ghost<ChannelReply>)) {
        match key.to_typed() {
            Some(IbcPath::ChannelEnds(path)) => {
                let found = self.store.get_channel_end(StoreHeight::Latest, &path);
                (select_channel(&self.connection, path, found), Ghost(found))
            },
            _ => (Step::Skip, Ghost(Ok(None))),
        }
    }
}

/// The walk that lists the packet commitments of one channel.
struct CommitmentsOf<Store: IbcStore> {
    store: Arc<Store>,
    port_id: PortId,
    channel_id: ChannelId,
}

impl<Store: IbcStore> Visit for CommitmentsOf<Store> {
    type Reply = CommitmentReply;

    type Item = PacketState;

    closed spec fn asked(&self, key: Seq<Seq<char>>, reply: CommitmentReply) -> bool {
        commitment_lookup(&*self.store, self.port_id@, self.channel_id@, key, reply)
    }

    closed spec fn step(&self, key: Seq<Seq<char>>, reply: CommitmentReply) -> Step<
        (Seq<char>, Seq<char>, u64, Seq<u8>),
    > {
        commitment_step(self.port_id@, self.channel_id@, key, reply)
    }

    fn visit(&self, key: &Path) -> (r: (Step<PacketState>, Ghost<CommitmentReply>)) {
        match key.to_typed() {
            Some(IbcPath::Commitments(path)) => {
                if path.port_id.same(&self.port_id) && path.channel_id.same(&self.channel_id) {
                    let found = self.store.get_packet_commitment(StoreHeight::Latest, &path);
                    (commitment_state(&path, found), Ghost(found))
                } else {
                    (Step::Skip, Ghost(Ok(None)))
                }
            },
            _ => (Step::Skip, Ghost(Ok(None))),
        }
    }
}

/// The walk that lists the acknowledgements of one channel.
struct AcknowledgementsOf<Store: IbcStore> {
    store: Arc<Store>,
    port_id: PortId,
    channel_id: ChannelId,
}

impl<Store: IbcStore> Visit for AcknowledgementsOf<Store> {
    type Reply = AckReply;

    type Item = PacketState;

    closed spec fn asked(&self, key: Seq<Seq<char>>, reply: AckReply) -> bool {
        ack_lookup(&*self.store, self.port_id@, self.channel_id@, key, reply)
    }

    closed spec fn step(&self, key: Seq<Seq<char>>, reply: AckReply) -> Step<
        (Seq<char>, Seq<char>, u64, Seq<u8>),
    > {
        ack_step(self.port_id@, self.channel_id@, key, reply)
    }

    fn visit(&self, key: &Path) -> (r: (Step<PacketState>, Ghost<AckReply>)) {
        match key.to_typed() {
            Some(IbcPath::Acks(path)) => {
                if path.port_id.same(&self.port_id) && path.channel_id.same(&self.channel_id) {
                    let found = self.store.get_acknowledgement_commitment(
                        StoreHeight::Latest,
                        &path,
                    );
                    (ack_state(&path, found), Ghost(found))
                } else {
                    (Step::Skip, Ghost(Ok(None)))
                }
            },
            _ => (Step::Skip, Ghost(Ok(None))),
        }
    }
}

/// The queries on channels and packets.
pub struct IbcChannelService<Store: IbcStore> {
    store: Arc<Store>,
}

impl<Store: IbcStore> IbcChannelService<Store> {
    /// The store that the service reads.
    pub closed spec fn store(&self) -> &Store {
        &*self.store
    }

    /// The service over `store`.
    pub fn new(store: Arc<Store>) -> (r: Self)
        ensures
            r.store() == &*store,
    {
        Self { store }
    }

    /// One channel end by its port and channel. A malformed identifier is an
    /// invalid argument; otherwise the answer follows the reply of the store.
    pub fn channel(&self, request: &QueryChannelRequest) -> (r: Result<
        QueryChannelResponse,
        Status,
    >)
        ensures
            match channel_argument_fault(request.port_id@, request.channel_id@) {
                Some(s) => r is Err && r->Err_0 == s,
                None => exists|reply: ChannelReply|
                    #[trigger] channel_asked(
                        self.store(),
                        request.port_id@,
                        request.channel_id@,
                        reply,
                    ) && answers_channel(r, reply),
            },
    {
        let (port_id, channel_id) = match channel_arguments(
            request.port_id.as_str(),
            request.channel_id.as_str(),
        ) {
            Ok(ids) => ids,
            Err(s) => {
                return Err(s);
            },
        };
        let reply = self.store.get_channel_end(
            StoreHeight::Latest,
            &ChannelEndsPath(port_id, channel_id),
        );
        let r = channel_response(reply);
        assert(channel_asked(self.store(), request.port_id@, request.channel_id@, reply));
        r
    }

    /// All channel ends of the chain, in the order in which the store lists
    /// their keys, stamped with the height of the chain. The listing must
    /// hold channel keys only, and each must have a record.
    pub fn channels(&self) -> (r: Result<QueryChannelsResponse, Status>)
        ensures
            exists|scan: ScanReply, replies: Seq<ChannelReply>| #[trigger]
                answers_channels(r, self.store(), scan, replies),
    {
        let prefix = channels_prefix();
        let scan = self.store.get_paths_by_prefix(&prefix);
        let keys = match scan {
            Ok(keys) => keys,
            Err(e) => {
                let r = Err(Status::Internal(e));
                assert(answers_channels(r, self.store(), scan, Seq::empty()));
                return r;
            },
        };
        let visitor = AllChannels { store: Arc::clone(&self.store) };
        let listed = walk(&visitor, &keys);
        let ghost replies = choose|replies: Seq<ChannelReply>|
            walked(listed, &visitor, keys@, replies);
        assert(steps(&visitor, keys@.take(replies.len() as int), replies) =~= channel_steps(
            keys@.take(replies.len() as int),
            replies,
        ));
        assert(all_asked(&visitor, keys@, replies));
        let r = match listed {
            Ok(channels) => Ok(
                QueryChannelsResponse {
                    channels,
                    pagination: None,
                    height: stamp(self.store.current_height()),
                },
            ),
            Err(e) => Err(e),
        };
        assert(answers_channels(r, self.store(), scan, replies));
        r
    }

    /// The channels whose first connection is the one asked for, in the
    /// order in which the store lists the channel keys, stamped with the
    /// height of the chain. Keys of another shape are passed over; a listed
    /// channel key must have a record.
    pub fn connection_channels(&self, request: &QueryConnectionChannelsRequest) -> (r: Result<
        QueryConnectionChannelsResponse,
        Status,
    >)
        ensures
            !is_connection_id(request.connection@) ==> r is Err && r->Err_0
                == Status::InvalidArgument(BadArgument::ConnectionId),
            is_connection_id(request.connection@) ==> exists|
                scan: ScanReply,
                replies: Seq<ChannelReply>,
            | #[trigger]
                answers_connection_channels(r, self.store(), request.connection@, scan, replies),
    {
        let conn_id = match ConnectionId::from_str(request.connection.as_str()) {
            Ok(id) => id,
            Err(_) => {
                return Err(Status::InvalidArgument(BadArgument::ConnectionId));
            },
        };
        let ghost connection = request.connection@;
        let prefix = channel_ends_prefix();
        let scan = self.store.get_paths_by_prefix(&prefix);
        let keys = match scan {
            Ok(keys) => keys,
            Err(e) => {
                let r = Err(Status::Internal(e));
                assert(answers_connection_channels(
                    r,
                    self.store(),
                    connection,
                    scan,
                    Seq::empty(),
                ));
                return r;
            },
        };
        let visitor = ChannelsOver { store: Arc::clone(&self.store), connection: conn_id };
        let listed = walk(&visitor, &keys);
        let ghost replies = choose|replies: Seq<ChannelReply>|
            walked(listed, &visitor, keys@, replies);
        assert(steps(&visitor, keys@.take(replies.len() as int), replies) =~= hop_steps(
            connection,
            keys@.take(replies.len() as int),
            replies,
        ));
        assert(all_asked(&visitor, keys@, replies));
        let r = match listed {
            Ok(channels) => Ok(
                QueryConnectionChannelsResponse {
                    channels,
                    pagination: None,
                    height: stamp(self.store.current_height()),
                },
            ),
            Err(e) => Err(e),
        };
        assert(answers_connection_channels(r, self.store(), connection, scan, replies));
        r
    }

    /// The packets among those asked for that the chain has not received:
    /// those for which the store reports no receipt.
    pub fn unreceived_packets(&self, request: QueryUnreceivedPacketsRequest) -> (r: Result<
        QueryUnreceivedPacketsResponse,
        Status,
    >)
        ensures
            match channel_argument_fault(request.port_id@, request.channel_id@) {
                Some(s) => r is Err && r->Err_0 == s,
                None => r matches Ok(resp) && is_stamp(self.store(), resp.height) && exists|
                    replies: Seq<ReceiptReply>,
                |
                    #[trigger] receipts_asked(
                        self.store(),
                        request.port_id@,
                        request.channel_id@,
                        request.packet_commitment_sequences@,
                        replies,
                    ) && resp.sequences@ == unreceived_packets_of(
                        request.packet_commitment_sequences@,
                        replies,
                    ),
            },
    {
        let (port_id, channel_id) = match channel_arguments(
            request.port_id.as_str(),
            request.channel_id.as_str(),
        ) {
            Ok(ids) => ids,
            Err(s) => {
                return Err(s);
            },
        };
        let seqs = request.packet_commitment_sequences;
        let n: usize = seqs.len();
        let mut unreceived: Vec<u64> = Vec::new();
        let ghost mut replies: Seq<ReceiptReply> = Seq::empty();
        let mut i: usize = 0;
        assert(seqs@.take(0) =~= Seq::<u64>::empty());
        while i < n
            invariant
                n == seqs@.len(),
                i <= n,
                receipts_asked(self.store(), port_id@, channel_id@, seqs@.take(i as int), replies),
                unreceived@ == unreceived_packets_of(seqs@.take(i as int), replies),
            decreases n - i,
        {
            let path = ReceiptsPath {
                port_id: port_id.clone(),
                channel_id: channel_id.clone(),
                sequence: seqs[i],
            };
            let reply = self.store.get_opt(StoreHeight::Latest, &path);
            proof {
                assert(seqs@.take(i + 1).drop_last() =~= seqs@.take(i as int));
                assert(replies.push(reply).drop_last() =~= replies);
                replies = replies.push(reply);
                assert(receipts_asked(
                    self.store(),
                    port_id@,
                    channel_id@,
                    seqs@.take(i + 1),
                    replies,
                ));
            }
            if is_receipt_absent(&reply) {
                unreceived.push(seqs[i]);
            }
            i = i + 1;
        }
        assert(seqs@.take(n as int) =~= seqs@);
        Ok(
            QueryUnreceivedPacketsResponse {
                sequences: unreceived,
                height: stamp(self.store.current_height()),
            },
        )
    }

    /// The commitments to the packets sent on a channel, in the order in which
    /// the store lists their keys, stamped with the height of the chain.
    /// Keys of other channels or shapes and empty commitments are passed
    /// over; a listed key of the channel must have a record.
    pub fn packet_commitments(&self, request: &QueryPacketStatesRequest) -> (r: Result<
        QueryPacketCommitmentsResponse,
        Status,
    >)
        ensures
            match channel_argument_fault(request.port_id@, request.channel_id@) {
                Some(s) => r is Err && r->Err_0 == s,
                None => exists|scan: ScanReply, replies: Seq<CommitmentReply>| #[trigger]
                    answers_packet_commitments(
                    r,
                    self.store(),
                    request.port_id@,
                    request.channel_id@,
                    scan,
                    replies,
                ),
            },
    {
        let (port_id, channel_id) = match channel_arguments(
            request.port_id.as_str(),
            request.channel_id.as_str(),
        ) {
            Ok(ids) => ids,
            Err(s) => {
                return Err(s);
            },
        };
        let ghost port = request.port_id@;
        let ghost channel = request.channel_id@;
        let prefix = commitments_prefix();
        let scan = self.store.get_paths_by_prefix(&prefix);
        let keys = match scan {
            Ok(keys) => keys,
            Err(e) => {
                let r = Err(Status::Internal(e));
                assert(answers_packet_commitments(
                    r,
                    self.store(),
                    port,
                    channel,
                    scan,
                    Seq::empty(),
                ));
                return r;
            },
        };
        let visitor = CommitmentsOf { store: Arc::clone(&self.store), port_id, channel_id };
        let listed = walk(&visitor, &keys);
        let ghost replies = choose|replies: Seq<CommitmentReply>|
            walked(listed, &visitor, keys@, replies);
        assert(steps(&visitor, keys@.take(replies.len() as int), replies) =~= commitment_steps(
            port,
            channel,
            keys@.take(replies.len() as int),
            replies,
        ));
        assert(all_asked(&visitor, keys@, replies));
        let r = match listed {
            Ok(states) => Ok(
                QueryPacketCommitmentsResponse {
                    commitments: states,
                    pagination: None,
                    height: stamp(self.store.current_height()),
                },
            ),
            Err(e) => Err(e),
        };
        assert(answers_packet_commitments(r, self.store(), port, channel, scan, replies));
        r
    }

    /// The commitments to the acknowledgements written on a channel, in the
    /// order in which the store lists their keys, stamped with the height of
    /// the chain. Keys of other channels or shapes and empty commitments are
    /// passed over; a listed key of the channel must have a record.
    pub fn packet_acknowledgements(&self, request: &QueryPacketStatesRequest) -> (r: Result<
        QueryPacketAcknowledgementsResponse,
        Status,
    >)
        ensures
            match channel_argument_fault(request.port_id@, request.channel_id@) {
                Some(s) => r is Err && r->Err_0 == s,
                None => exists|scan: ScanReply, replies: Seq<AckReply>| #[trigger]
                    answers_packet_acknowledgements(
                    r,
                    self.store(),
                    request.port_id@,
                    request.channel_id@,
                    scan,
                    replies,
                ),
            },
    {
        let (port_id, channel_id) = match channel_arguments(
            request.port_id.as_str(),
            request.channel_id.as_str(),
        ) {
            Ok(ids) => ids,
            Err(s) => {
                return Err(s);
            },
        };
        let ghost port = request.port_id@;
        let ghost channel = request.channel_id@;
        let prefix = acks_prefix();
        let scan = self.store.get_paths_by_prefix(&prefix);
        let keys = match scan {
            Ok(keys) => keys,
            Err(e) => {
                let r = Err(Status::Internal(e));
                assert(answers_packet_acknowledgements(
                    r,
                    self.store(),
                    port,
                    channel,
                    scan,
                    Seq::empty(),
                ));
                return r;
            },
        };
        let visitor = AcknowledgementsOf { store: Arc::clone(&self.store), port_id, channel_id };
        let listed = walk(&visitor, &keys);
        let ghost replies = choose|replies: Seq<AckReply>|
            walked(listed, &visitor, keys@, replies);
        assert(steps(&visitor, keys@.take(replies.len() as int), replies) =~= ack_steps(
            port,
            channel,
            keys@.take(replies.len() as int),
            replies,
        ));
        assert(all_asked(&visitor, keys@, replies));
        let r = match listed {
            Ok(states) => Ok(
                QueryPacketAcknowledgementsResponse {
                    acknowledgements: states,
                    pagination: None,
                    height: stamp(self.store.current_height()),
                },
            ),
            Err(e) => Err(e),
        };
        assert(answers_packet_acknowledgements(r, self.store(), port, channel, scan, replies));
        r
    }

    /// The packets among those asked for whose acknowledgement the chain has
    /// not received: those whose commitment the store still holds.
    pub fn unreceived_acks(&self, request: QueryUnreceivedAcksRequest) -> (r: Result<
        QueryUnreceivedAcksResponse,
        Status,
    >)
        ensures
            match channel_argument_fault(request.port_id@, request.channel_id@) {
                Some(s) => r is Err && r->Err_0 == s,
                None => r matches Ok(resp) && is_stamp(self.store(), resp.height) && exists|
                    replies: Seq<CommitmentReply>,
                |
                    #[trigger] commitments_asked(
                        self.store(),
                        request.port_id@,
                        request.channel_id@,
                        request.packet_ack_sequences@,
                        replies,
                    ) && resp.sequences@ == unreceived_acks_of(
                        request.packet_ack_sequences@,
                        replies,
                    ),
            },
    {
        let (port_id, channel_id) = match channel_arguments(
            request.port_id.as_str(),
            request.channel_id.as_str(),
        ) {
            Ok(ids) => ids,
            Err(s) => {
                return Err(s);
            },
        };
        let seqs = request.packet_ack_sequences;
        let n: usize = seqs.len();
        let mut unreceived: Vec<u64> = Vec::new();
        let ghost mut replies: Seq<CommitmentReply> = Seq::empty();
        let mut i: usize = 0;
        assert(seqs@.take(0) =~= Seq::<u64>::empty());
        while i < n
            invariant
                n == seqs@.len(),
                i <= n,
                commitments_asked(
                    self.store(),
                    port_id@,
                    channel_id@,
                    seqs@.take(i as int),
                    replies,
                ),
                unreceived@ == unreceived_acks_of(seqs@.take(i as int), replies),
            decreases n - i,
        {
            let path = CommitmentsPath {
                port_id: port_id.clone(),
                channel_id: channel_id.clone(),
                sequence: seqs[i],
            };
            let reply = self.store.get_packet_commitment(
                StoreHeight::Latest,
                &path,
            );
            proof {
                assert(seqs@.take(i + 1).drop_last() =~= seqs@.take(i as int));
                assert(replies.push(reply).drop_last() =~= replies);
                replies = replies.push(reply);
                assert(commitments_asked(
                    self.store(),
                    port_id@,
                    channel_id@,
                    seqs@.take(i + 1),
                    replies,
                ));
            }
            if is_commitment_present(&reply) {
                unreceived.push(seqs[i]);
            }
            i = i + 1;
        }
        assert(seqs@.take(n as int) =~= seqs@);
        Ok(
            QueryUnreceivedAcksResponse {
                sequences: unreceived,
                height: stamp(self.store.current_height()),
            },
        )
    }

    /// The client state of a channel. Not supported yet.
    pub fn channel_client_state(&self) -> (r: Result<(), Status>)
        ensures
            r is Err,
            r->Err_0 == Status::Unimplemented,
    {
        Err(Status::Unimplemented)
    }

    /// The consensus state of a channel. Not supported yet.
    pub fn channel_consensus_state(&self) -> (r: Result<(), Status>)
        ensures
            r is Err,
            r->Err_0 == Status::Unimplemented,
    {
        Err(Status::Unimplemented)
    }

    /// The commitment to one packet. Not supported yet.
    pub fn packet_commitment(&self) -> (r: Result<(), Status>)
        ensures
            r is Err,
            r->Err_0 == Status::Unimplemented,
    {
        Err(Status::Unimplemented)
    }

    /// Whether one packet has been received. Not supported yet.
    pub fn packet_receipt(&self) -> (r: Result<(), Status>)
        ensures
            r is Err,
            r->Err_0 == Status::Unimplemented,
    {
        Err(Status::Unimplemented)
    }

    /// The commitment to the acknowledgement of one packet. Not supported yet.
    pub fn packet_acknowledgement(&self) -> (r: Result<(), Status>)
        ensures
            r is Err,
            r->Err_0 == Status::Unimplemented,
    {
        Err(Status::Unimplemented)
    }

    /// The next sequence number to receive on a channel. Not supported yet.
    pub fn next_sequence_receive(&self) -> (r: Result<(), Status>)
        ensures
            r is Err,
            r->Err_0 == Status::Unimplemented,
    {
        Err(Status::Unimplemented)
    }
}

} // verus!
