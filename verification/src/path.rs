//! Typed paths: the key shapes of the store as values, written to and read
//! from paths.

use vstd::prelude::*;
use vstd::string::StringExecFns;
use crate::decimal::{decimal, parse_u64, parse_u64_spec, render_u64};
use crate::grammar::{
    client_path_of, law_segments_are_valid, law_typed_round_trip, names_channel, names_packet,
    revision_of, revision_text, typed_of, upgrade_path_of, TypedPath,
};
use crate::host::{
    is_channel_id, is_client_id, is_port_id, ChannelId, ClientId, ConnectionId, PortId,
};
use crate::text::{join_text, same_text, split_text, texts};
use crate::types::{law_write_then_parse, path_text, Path};

verus! {

/// The key of a client's type.
#[derive(Clone, Debug, PartialEq, Eq)]
pub struct ClientTypePath(pub ClientId);

impl View for ClientTypePath {
    type V = TypedPath;

    open spec fn view(&self) -> TypedPath {
        TypedPath::ClientType(self.0@)
    }
}

/// The key of a client's state.
#[derive(Clone, Debug, PartialEq, Eq)]
pub struct ClientStatePath(pub ClientId);

impl View for ClientStatePath {
    type V = TypedPath;

    open spec fn view(&self) -> TypedPath {
        TypedPath::ClientState(self.0@)
    }
}

/// The key of a client's consensus state at a revision number and height.
#[derive(Clone, Debug, PartialEq, Eq)]
pub struct ClientConsensusStatePath {
    pub client_id: ClientId,
    pub epoch: u64,
    pub height: u64,
}

impl View for ClientConsensusStatePath {
    type V = TypedPath;

    open spec fn view(&self) -> TypedPath {
        TypedPath::ClientConsensusState(self.client_id@, self.epoch, self.height)
    }
}

/// The key of the connections of a client.
#[derive(Clone, Debug, PartialEq, Eq)]
pub struct ClientConnectionsPath(pub ClientId);

impl View for ClientConnectionsPath {
    type V = TypedPath;

    open spec fn view(&self) -> TypedPath {
        TypedPath::ClientConnections(self.0@)
    }
}

/// The key of a connection end.
#[derive(Clone, Debug, PartialEq, Eq)]
pub struct ConnectionsPath(pub ConnectionId);

impl View for ConnectionsPath {
    type V = TypedPath;

    open spec fn view(&self) -> TypedPath {
        TypedPath::Connections(self.0@)
    }
}

/// The key of a port.
#[derive(Clone, Debug, PartialEq, Eq)]
pub struct PortsPath(pub PortId);

impl View for PortsPath {
    type V = TypedPath;

    open spec fn view(&self) -> TypedPath {
        TypedPath::Ports(self.0@)
    }
}

/// The key of a channel end.
#[derive(Clone, Debug, PartialEq, Eq)]
pub struct ChannelEndsPath(pub PortId, pub ChannelId);

impl View for ChannelEndsPath {
    type V = TypedPath;

    open spec fn view(&self) -> TypedPath {
        TypedPath::ChannelEnds(self.0@, self.1@)
    }
}

/// The key of the next sequence number to send on a channel.
#[derive(Clone, Debug, PartialEq, Eq)]
pub struct SeqSendsPath(pub PortId, pub ChannelId);

impl View for SeqSendsPath {
    type V = TypedPath;

    open spec fn view(&self) -> TypedPath {
        TypedPath::SeqSends(self.0@, self.1@)
    }
}

/// The key of the next sequence number to receive on a channel.
#[derive(Clone, Debug, PartialEq, Eq)]
pub struct SeqRecvsPath(pub PortId, pub ChannelId);

impl View for SeqRecvsPath {
    type V = TypedPath;

    open spec fn view(&self) -> TypedPath {
        TypedPath::SeqRecvs(self.0@, self.1@)
    }
}

/// The key of the next sequence number to acknowledge on a channel.
#[derive(Clone, Debug, PartialEq, Eq)]
pub struct SeqAcksPath(pub PortId, pub ChannelId);

impl View for SeqAcksPath {
    type V = TypedPath;

    open spec fn view(&self) -> TypedPath {
        TypedPath::SeqAcks(self.0@, self.1@)
    }
}

/// The key of the commitment to a sent packet.
#[derive(Clone, Debug, PartialEq, Eq)]
pub struct CommitmentsPath {
    pub port_id: PortId,
    pub channel_id: ChannelId,
    pub sequence: u64,
}

impl View for CommitmentsPath {
    type V = TypedPath;

    open spec fn view(&self) -> TypedPath {
        TypedPath::Commitments(self.port_id@, self.channel_id@, self.sequence)
    }
}

/// The key of the commitment to an acknowledgement.
#[derive(Clone, Debug, PartialEq, Eq)]
pub struct AcksPath {
    pub port_id: PortId,
    pub channel_id: ChannelId,
    pub sequence: u64,
}

impl View for AcksPath {
    type V = TypedPath;

    open spec fn view(&self) -> TypedPath {
        TypedPath::Acks(self.port_id@, self.channel_id@, self.sequence)
    }
}

/// The key of the receipt of a packet.
#[derive(Clone, Debug, PartialEq, Eq)]
pub struct ReceiptsPath {
    pub port_id: PortId,
    pub channel_id: ChannelId,
    pub sequence: u64,
}

impl View for ReceiptsPath {
    type V = TypedPath;

    open spec fn view(&self) -> TypedPath {
        TypedPath::Receipts(self.port_id@, self.channel_id@, self.sequence)
    }
}

/// The keys of a client upgrade planned for a height.
#[derive(Clone, Debug, PartialEq, Eq)]
pub enum ClientUpgradePath {
    UpgradedClientState(u64),
    UpgradedClientConsensusState(u64),
}

/// A typed path: one of the key shapes of the store.
#[derive(Clone, Debug, PartialEq, Eq)]
pub enum IbcPath {
    ClientType(ClientTypePath),
    ClientState(ClientStatePath),
    ClientConsensusState(ClientConsensusStatePath),
    ClientConnections(ClientConnectionsPath),
    Connections(ConnectionsPath),
    Ports(PortsPath),
    ChannelEnds(ChannelEndsPath),
    SeqSends(SeqSendsPath),
    SeqRecvs(SeqRecvsPath),
    SeqAcks(SeqAcksPath),
    Commitments(CommitmentsPath),
    Acks(AcksPath),
    Receipts(ReceiptsPath),
    Upgrade(ClientUpgradePath),
}

impl View for ClientUpgradePath {
    type V = TypedPath;

    open spec fn view(&self) -> TypedPath {
        match *self {
            ClientUpgradePath::UpgradedClientState(h) => TypedPath::UpgradedClientState(h),
            ClientUpgradePath::UpgradedClientConsensusState(h) => {
                TypedPath::UpgradedClientConsensusState(h)
            },
        }
    }
}

impl View for IbcPath {
    type V = TypedPath;

    open spec fn view(&self) -> TypedPath {
        match *self {
            IbcPath::ClientType(p) => p@,
            IbcPath::ClientState(p) => p@,
            IbcPath::ClientConsensusState(p) => p@,
            IbcPath::ClientConnections(p) => p@,
            IbcPath::Connections(p) => p@,
            IbcPath::Ports(p) => p@,
            IbcPath::ChannelEnds(p) => p@,
            IbcPath::SeqSends(p) => p@,
            IbcPath::SeqRecvs(p) => p@,
            IbcPath::SeqAcks(p) => p@,
            IbcPath::Commitments(p) => p@,
            IbcPath::Acks(p) => p@,
            IbcPath::Receipts(p) => p@,
            IbcPath::Upgrade(p) => p@,
        }
    }
}

/// The segments that name a port and a channel under the key space `root`.
fn channel_segments(root: &str, port_id: &PortId, channel_id: &ChannelId) -> (parts: Vec<String>)
    ensures
        texts(parts@) == seq![root@, "ports"@, port_id@, "channels"@, channel_id@],
        is_port_id(port_id@),
        is_channel_id(channel_id@),
{
    let mut parts: Vec<String> = Vec::new();
    parts.push(root.to_owned());
    parts.push("ports".to_owned());
    parts.push(port_id.as_str().to_owned());
    parts.push("channels".to_owned());
    parts.push(channel_id.as_str().to_owned());
    assert(texts(parts@) =~= seq![root@, "ports"@, port_id@, "channels"@, channel_id@]);
    parts
}

/// The segments that name a packet under the key space `root`.
fn packet_segments(root: &str, port_id: &PortId, channel_id: &ChannelId, sequence: u64) -> (parts:
    Vec<String>)
    ensures
        texts(parts@) == seq![
            root@,
            "ports"@,
            port_id@,
            "channels"@,
            channel_id@,
            "sequences"@,
            decimal(sequence as nat),
        ],
        is_port_id(port_id@),
        is_channel_id(channel_id@),
{
    let mut parts = channel_segments(root, port_id, channel_id);
    let ghost head = parts@;
    assert(seq![root@, "ports"@, port_id@, "channels"@, channel_id@].len() == 5);
    assert(texts(head).len() == head.len());
    parts.push("sequences".to_owned());
    parts.push(render_u64(sequence));
    assert(forall|i: int| 0 <= i < 5 ==> parts@[i] == head[i] && texts(head)[i] == head[i]@);
    assert(texts(parts@) =~= seq![
        root@,
        "ports"@,
        port_id@,
        "channels"@,
        channel_id@,
        "sequences"@,
        decimal(sequence as nat),
    ]);
    parts
}

/// The segments that name something of a client.
fn client_segments(client_id: &ClientId, what: &str) -> (parts: Vec<String>)
    ensures
        texts(parts@) == seq!["clients"@, client_id@, what@],
        is_client_id(client_id@),
{
    let mut parts: Vec<String> = Vec::new();
    parts.push("clients".to_owned());
    parts.push(client_id.as_str().to_owned());
    parts.push(what.to_owned());
    assert(texts(parts@) =~= seq!["clients"@, client_id@, what@]);
    parts
}

/// The segments of a key that holds one identifier under `root`.
fn pair_segments(root: &str, id: &str) -> (parts: Vec<String>)
    ensures
        texts(parts@) == seq![root@, id@],
{
    let mut parts: Vec<String> = Vec::new();
    parts.push(root.to_owned());
    parts.push(id.to_owned());
    assert(texts(parts@) =~= seq![root@, id@]);
    parts
}

/// The segments of an upgrade key.
fn upgrade_segments(height: u64, what: &str) -> (parts: Vec<String>)
    ensures
        texts(parts@) == seq!["upgradedIBCState"@, decimal(height as nat), what@],
{
    let mut parts: Vec<String> = Vec::new();
    parts.push("upgradedIBCState".to_owned());
    parts.push(render_u64(height));
    parts.push(what.to_owned());
    assert(texts(parts@) =~= seq!["upgradedIBCState"@, decimal(height as nat), what@]);
    parts
}

impl IbcPath {
    /// The canonical segments, as owned texts.
    fn segment_texts(&self) -> (parts: Vec<String>)
        ensures
            texts(parts@) == self@.segments(),
            self@.wf(),
    {
        match self {
            IbcPath::ClientType(p) => client_segments(&p.0, "clientType"),
            IbcPath::ClientState(p) => client_segments(&p.0, "clientState"),
            IbcPath::ClientConsensusState(p) => {
                let mut parts = client_segments(&p.client_id, "consensusStates");
                let ghost head = parts@;
                assert(seq!["clients"@, p.client_id@, "consensusStates"@].len() == 3);
                assert(texts(head).len() == head.len());
                let mut revision = render_u64(p.epoch);
                revision.append("-");
                revision.append(render_u64(p.height).as_str());
                proof {
                    reveal_strlit("-");
                    assert(revision@ =~= revision_text(p.epoch, p.height));
                }
                parts.push(revision);
                assert(forall|i: int|
                    0 <= i < 3 ==> parts@[i] == head[i] && texts(head)[i] == head[i]@);
                assert(texts(parts@) =~= self@.segments());
                parts
            },
            IbcPath::ClientConnections(p) => client_segments(&p.0, "connections"),
            IbcPath::Connections(p) => pair_segments("connections", p.0.as_str()),
            IbcPath::Ports(p) => pair_segments("ports", p.0.as_str()),
            IbcPath::ChannelEnds(p) => channel_segments("channelEnds", &p.0, &p.1),
            IbcPath::SeqSends(p) => channel_segments("nextSequenceSend", &p.0, &p.1),
            IbcPath::SeqRecvs(p) => channel_segments("nextSequenceRecv", &p.0, &p.1),
            IbcPath::SeqAcks(p) => channel_segments("nextSequenceAck", &p.0, &p.1),
            IbcPath::Commitments(p) => packet_segments(
                "commitments",
                &p.port_id,
                &p.channel_id,
                p.sequence,
            ),
            IbcPath::Acks(p) => packet_segments("acks", &p.port_id, &p.channel_id, p.sequence),
            IbcPath::Receipts(p) => packet_segments(
                "receipts",
                &p.port_id,
                &p.channel_id,
                p.sequence,
            ),
            IbcPath::Upgrade(ClientUpgradePath::UpgradedClientState(h)) => upgrade_segments(
                *h,
                "upgradedClient",
            ),
            IbcPath::Upgrade(ClientUpgradePath::UpgradedClientConsensusState(h)) => {
                upgrade_segments(*h, "upgradedConsState")
            },
        }
    }

    /// The canonical text of the path: its segments joined with `/`.
    pub fn to_string(&self) -> (s: String)
        ensures
            s@ == path_text(self@.segments()),
            self@.wf(),
    {
        let parts = self.segment_texts();
        proof {
            reveal_strlit("/");
        }
        join_text(&parts, "/")
    }
}

impl Path {
    /// The path of a typed path: its canonical segments.
    pub fn from_typed(path: &IbcPath) -> (p: Path)
        ensures
            p@ == path@.segments(),
            path@.wf(),
            typed_of(p@) == Some(path@),
    {
        let s = path.to_string();
        proof {
            law_segments_are_valid(path@);
            law_write_then_parse(path@.segments());
            law_typed_round_trip(path@);
        }
        Path::parse(s.as_str()).unwrap()
    }
}

/// Whether `r` is the executable form of `t`.
pub open spec fn stands_for(r: Option<IbcPath>, t: Option<TypedPath>) -> bool {
    match r {
        Some(p) => t == Some(p@),
        None => t is None,
    }
}

/// Reads the segment of a consensus state: revision number, `-`, height.
fn read_revision(s: &str) -> (r: Option<(u64, u64)>)
    ensures
        r == revision_of(s@),
{
    let parts = split_text(s, '-');
    assert(texts(parts@).len() == parts@.len());
    if parts.len() != 2 {
        return None;
    }
    assert(texts(parts@)[0] == parts@[0]@ && texts(parts@)[1] == parts@[1]@);
    match parse_u64(parts[0].as_str()) {
        Some(epoch) => match parse_u64(parts[1].as_str()) {
            Some(height) => Some((epoch, height)),
            None => None,
        },
        None => None,
    }
}

/// Reads a path whose first segment is `clients`.
fn read_client_path(path: &Path) -> (r: Option<IbcPath>)
    ensures
        stands_for(r, client_path_of(path@)),
{
    let n: usize = path.len();
    if n < 2 {
        return None;
    }
    let client_id = match ClientId::from_str(path.segment(1).as_str()) {
        Ok(id) => id,
        Err(_) => {
            return None;
        },
    };
    if n == 3 {
        let what = path.segment(2).as_str();
        if same_text(what, "clientType") {
            Some(IbcPath::ClientType(ClientTypePath(client_id)))
        } else if same_text(what, "clientState") {
            Some(IbcPath::ClientState(ClientStatePath(client_id)))
        } else if same_text(what, "connections") {
            Some(IbcPath::ClientConnections(ClientConnectionsPath(client_id)))
        } else {
            None
        }
    } else if n == 4 && same_text(path.segment(2).as_str(), "consensusStates") {
        match read_revision(path.segment(3).as_str()) {
            Some((epoch, height)) => Some(
                IbcPath::ClientConsensusState(
                    ClientConsensusStatePath { client_id, epoch, height },
                ),
            ),
            None => None,
        }
    } else {
        None
    }
}

/// Reads the port and the channel that segments 1 to 4 name.
fn read_channel(path: &Path) -> (r: Option<(PortId, ChannelId)>)
    ensures
        r is Some <==> names_channel(path@),
        r matches Some((p, c)) ==> p@ == path@[2] && c@ == path@[4],
{
    let n: usize = path.len();
    if n < 5 || !same_text(path.segment(1).as_str(), "ports") || !same_text(
        path.segment(3).as_str(),
        "channels",
    ) {
        return None;
    }
    match PortId::from_str(path.segment(2).as_str()) {
        Ok(port_id) => match ChannelId::from_str(path.segment(4).as_str()) {
            Ok(channel_id) => Some((port_id, channel_id)),
            Err(_) => None,
        },
        Err(_) => None,
    }
}

/// Reads the port, the channel and the sequence number that segments 1 to 6
/// name.
fn read_packet(path: &Path) -> (r: Option<(PortId, ChannelId, u64)>)
    ensures
        r is Some <==> names_packet(path@),
        r matches Some((p, c, s)) ==> p@ == path@[2] && c@ == path@[4] && s == parse_u64_spec(
            path@[6],
        )->0,
{
    let n: usize = path.len();
    if n != 7 || !same_text(path.segment(5).as_str(), "sequences") {
        return None;
    }
    match read_channel(path) {
        Some((port_id, channel_id)) => match parse_u64(path.segment(6).as_str()) {
            Some(sequence) => Some((port_id, channel_id, sequence)),
            None => None,
        },
        None => None,
    }
}

/// Reads a path whose first segment is `upgradedIBCState`.
fn read_upgrade_path(path: &Path) -> (r: Option<IbcPath>)
    ensures
        stands_for(r, upgrade_path_of(path@)),
{
    let n: usize = path.len();
    if n != 3 {
        return None;
    }
    match parse_u64(path.segment(1).as_str()) {
        Some(height) => {
            let what = path.segment(2).as_str();
            if same_text(what, "upgradedClient") {
                Some(IbcPath::Upgrade(ClientUpgradePath::UpgradedClientState(height)))
            } else if same_text(what, "upgradedConsState") {
                Some(IbcPath::Upgrade(ClientUpgradePath::UpgradedClientConsensusState(height)))
            } else {
                None
            }
        },
        None => None,
    }
}

impl Path {
    /// The typed path that this path names, or `None` where it has the shape
    /// of none.
    pub fn to_typed(&self) -> (r: Option<IbcPath>)
        ensures
            stands_for(r, typed_of(self@)),
    {
        let n: usize = self.len();
        let first = self.segment(0).as_str();
        if same_text(first, "clients") {
            read_client_path(self)
        } else if same_text(first, "connections") {
            if n != 2 {
                return None;
            }
            match ConnectionId::from_str(self.segment(1).as_str()) {
                Ok(id) => Some(IbcPath::Connections(ConnectionsPath(id))),
                Err(_) => None,
            }
        } else if same_text(first, "ports") {
            if n != 2 {
                return None;
            }
            match PortId::from_str(self.segment(1).as_str()) {
                Ok(id) => Some(IbcPath::Ports(PortsPath(id))),
                Err(_) => None,
            }
        } else if same_text(first, "channelEnds") {
            if n != 5 {
                return None;
            }
            match read_channel(self) {
                Some((p, c)) => Some(IbcPath::ChannelEnds(ChannelEndsPath(p, c))),
                None => None,
            }
        } else if same_text(first, "nextSequenceSend") {
            if n != 5 {
                return None;
            }
            match read_channel(self) {
                Some((p, c)) => Some(IbcPath::SeqSends(SeqSendsPath(p, c))),
                None => None,
            }
        } else if same_text(first, "nextSequenceRecv") {
            if n != 5 {
                return None;
            }
            match read_channel(self) {
                Some((p, c)) => Some(IbcPath::SeqRecvs(SeqRecvsPath(p, c))),
                None => None,
            }
        } else if same_text(first, "nextSequenceAck") {
            if n != 5 {
                return None;
            }
            match read_channel(self) {
                Some((p, c)) => Some(IbcPath::SeqAcks(SeqAcksPath(p, c))),
                None => None,
            }
        } else if same_text(first, "commitments") {
            match read_packet(self) {
                Some((port_id, channel_id, sequence)) => Some(
                    IbcPath::Commitments(CommitmentsPath { port_id, channel_id, sequence }),
                ),
                None => None,
            }
        } else if same_text(first, "acks") {
            match read_packet(self) {
                Some((port_id, channel_id, sequence)) => Some(
                    IbcPath::Acks(AcksPath { port_id, channel_id, sequence }),
                ),
                None => None,
            }
        } else if same_text(first, "receipts") {
            match read_packet(self) {
                Some((port_id, channel_id, sequence)) => Some(
                    IbcPath::Receipts(ReceiptsPath { port_id, channel_id, sequence }),
                ),
                None => None,
            }
        } else if same_text(first, "upgradedIBCState") {
            read_upgrade_path(self)
        } else {
            None
        }
    }
}

} // verus!
