//! The grammar of store keys: which segments name which typed path.

use vstd::prelude::*;
use crate::charset::is_identifier_char;
use crate::decimal::{decimal, is_digit, law_parse_decimal, lemma_decimal, parse_u64_spec};
use crate::host::{
    is_channel_id, is_client_id, is_connection_id, is_port_id, is_valid_identifier,
    lemma_verdict_ok, CHANNEL_ID_MAX, CHANNEL_ID_MIN, CLIENT_ID_MAX, CLIENT_ID_MIN,
    CONNECTION_ID_MAX, CONNECTION_ID_MIN, PORT_ID_MAX, PORT_ID_MIN,
};
use crate::text::{lemma_split_single, lemma_split_tail, split};
use crate::types::are_path_segments;

verus! {


/// The mathematical value of a typed path: which key of the store it is, with
/// the identifiers and numbers that it carries.
pub enum TypedPath {
    ClientType(Seq<char>),
    ClientState(Seq<char>),
    ClientConsensusState(Seq<char>, u64, u64),
    ClientConnections(Seq<char>),
    Connections(Seq<char>),
    Ports(Seq<char>),
    ChannelEnds(Seq<char>, Seq<char>),
    SeqSends(Seq<char>, Seq<char>),
    SeqRecvs(Seq<char>, Seq<char>),
    SeqAcks(Seq<char>, Seq<char>),
    Commitments(Seq<char>, Seq<char>, u64),
    Acks(Seq<char>, Seq<char>, u64),
    Receipts(Seq<char>, Seq<char>, u64),
    UpgradedClientState(u64),
    UpgradedClientConsensusState(u64),
}

impl TypedPath {
    /// Whether the identifiers are valid for their kinds.
    pub open spec fn wf(self) -> bool {
        match self {
            TypedPath::ClientType(c) => is_client_id(c),
            TypedPath::ClientState(c) => is_client_id(c),
            TypedPath::ClientConsensusState(c, _, _) => is_client_id(c),
            TypedPath::ClientConnections(c) => is_client_id(c),
            TypedPath::Connections(c) => is_connection_id(c),
            TypedPath::Ports(p) => is_port_id(p),
            TypedPath::ChannelEnds(p, c) => is_port_id(p) && is_channel_id(c),
            TypedPath::SeqSends(p, c) => is_port_id(p) && is_channel_id(c),
            TypedPath::SeqRecvs(p, c) => is_port_id(p) && is_channel_id(c),
            TypedPath::SeqAcks(p, c) => is_port_id(p) && is_channel_id(c),
            TypedPath::Commitments(p, c, _) => is_port_id(p) && is_channel_id(c),
            TypedPath::Acks(p, c, _) => is_port_id(p) && is_channel_id(c),
            TypedPath::Receipts(p, c, _) => is_port_id(p) && is_channel_id(c),
            TypedPath::UpgradedClientState(_) => true,
            TypedPath::UpgradedClientConsensusState(_) => true,
        }
    }

    /// The canonical segments of the path.
    pub open spec fn segments(self) -> Seq<Seq<char>> {
        match self {
            TypedPath::ClientType(c) => seq!["clients"@, c, "clientType"@],
            TypedPath::ClientState(c) => seq!["clients"@, c, "clientState"@],
            TypedPath::ClientConsensusState(c, e, h) => seq![
                "clients"@,
                c,
                "consensusStates"@,
                revision_text(e, h),
            ],
            TypedPath::ClientConnections(c) => seq!["clients"@, c, "connections"@],
            TypedPath::Connections(c) => seq!["connections"@, c],
            TypedPath::Ports(p) => seq!["ports"@, p],
            TypedPath::ChannelEnds(p, c) => seq!["channelEnds"@, "ports"@, p, "channels"@, c],
            TypedPath::SeqSends(p, c) => seq!["nextSequenceSend"@, "ports"@, p, "channels"@, c],
            TypedPath::SeqRecvs(p, c) => seq!["nextSequenceRecv"@, "ports"@, p, "channels"@, c],
            TypedPath::SeqAcks(p, c) => seq!["nextSequenceAck"@, "ports"@, p, "channels"@, c],
            TypedPath::Commitments(p, c, s) => seq![
                "commitments"@,
                "ports"@,
                p,
                "channels"@,
                c,
                "sequences"@,
                decimal(s as nat),
            ],
            TypedPath::Acks(p, c, s) => seq![
                "acks"@,
                "ports"@,
                p,
                "channels"@,
                c,
                "sequences"@,
                decimal(s as nat),
            ],
            TypedPath::Receipts(p, c, s) => seq![
                "receipts"@,
                "ports"@,
                p,
                "channels"@,
                c,
                "sequences"@,
                decimal(s as nat),
            ],
            TypedPath::UpgradedClientState(h) => seq![
                "upgradedIBCState"@,
                decimal(h as nat),
                "upgradedClient"@,
            ],
            TypedPath::UpgradedClientConsensusState(h) => seq![
                "upgradedIBCState"@,
                decimal(h as nat),
                "upgradedConsState"@,
            ],
        }
    }
}

/// The segment that names a consensus state: revision number, `-`, height.
pub open spec fn revision_text(epoch: u64, height: u64) -> Seq<char> {
    decimal(epoch as nat) + seq!['-'] + decimal(height as nat)
}

/// The revision number and height that a segment names, if it is two numbers
/// with one `-` between them.
pub open spec fn revision_of(s: Seq<char>) -> Option<(u64, u64)> {
    let parts = split(s, '-');
    if parts.len() == 2 && parse_u64_spec(parts[0]) is Some && parse_u64_spec(parts[1]) is Some {
        Some((parse_u64_spec(parts[0])->0, parse_u64_spec(parts[1])->0))
    } else {
        None
    }
}

/// The path under `clients` that the segments name.
pub open spec fn client_path_of(parts: Seq<Seq<char>>) -> Option<TypedPath> {
    if parts.len() < 2 || !is_client_id(parts[1]) {
        None
    } else if parts.len() == 3 {
        if parts[2] == "clientType"@ {
            Some(TypedPath::ClientType(parts[1]))
        } else if parts[2] == "clientState"@ {
            Some(TypedPath::ClientState(parts[1]))
        } else if parts[2] == "connections"@ {
            Some(TypedPath::ClientConnections(parts[1]))
        } else {
            None
        }
    } else if parts.len() == 4 && parts[2] == "consensusStates"@ {
        match revision_of(parts[3]) {
            Some((epoch, height)) => Some(TypedPath::ClientConsensusState(parts[1], epoch, height)),
            None => None,
        }
    } else {
        None
    }
}

/// Whether segments 1 to 4 name a port and a channel.
pub open spec fn names_channel(parts: Seq<Seq<char>>) -> bool {
    &&& parts.len() >= 5
    &&& parts[1] == "ports"@
    &&& is_port_id(parts[2])
    &&& parts[3] == "channels"@
    &&& is_channel_id(parts[4])
}

/// Whether segments 1 to 6 name a port, a channel and a sequence number.
pub open spec fn names_packet(parts: Seq<Seq<char>>) -> bool {
    &&& parts.len() == 7
    &&& names_channel(parts)
    &&& parts[5] == "sequences"@
    &&& parse_u64_spec(parts[6]) is Some
}

/// The typed path that the segments name, if they have the shape of one.
pub open spec fn typed_of(parts: Seq<Seq<char>>) -> Option<TypedPath> {
    if parts.len() == 0 {
        None
    } else if parts[0] == "clients"@ {
        client_path_of(parts)
    } else if parts[0] == "connections"@ {
        if parts.len() == 2 && is_connection_id(parts[1]) {
            Some(TypedPath::Connections(parts[1]))
        } else {
            None
        }
    } else if parts[0] == "ports"@ {
        if parts.len() == 2 && is_port_id(parts[1]) {
            Some(TypedPath::Ports(parts[1]))
        } else {
            None
        }
    } else if parts[0] == "channelEnds"@ {
        if parts.len() == 5 && names_channel(parts) {
            Some(TypedPath::ChannelEnds(parts[2], parts[4]))
        } else {
            None
        }
    } else if parts[0] == "nextSequenceSend"@ {
        if parts.len() == 5 && names_channel(parts) {
            Some(TypedPath::SeqSends(parts[2], parts[4]))
        } else {
            None
        }
    } else if parts[0] == "nextSequenceRecv"@ {
        if parts.len() == 5 && names_channel(parts) {
            Some(TypedPath::SeqRecvs(parts[2], parts[4]))
        } else {
            None
        }
    } else if parts[0] == "nextSequenceAck"@ {
        if parts.len() == 5 && names_channel(parts) {
            Some(TypedPath::SeqAcks(parts[2], parts[4]))
        } else {
            None
        }
    } else if parts[0] == "commitments"@ {
        if names_packet(parts) {
            Some(TypedPath::Commitments(parts[2], parts[4], parse_u64_spec(parts[6])->0))
        } else {
            None
        }
    } else if parts[0] == "acks"@ {
        if names_packet(parts) {
            Some(TypedPath::Acks(parts[2], parts[4], parse_u64_spec(parts[6])->0))
        } else {
            None
        }
    } else if parts[0] == "receipts"@ {
        if names_packet(parts) {
            Some(TypedPath::Receipts(parts[2], parts[4], parse_u64_spec(parts[6])->0))
        } else {
            None
        }
    } else if parts[0] == "upgradedIBCState"@ {
        upgrade_path_of(parts)
    } else {
        None
    }
}

/// The upgrade path that the segments name.
pub open spec fn upgrade_path_of(parts: Seq<Seq<char>>) -> Option<TypedPath> {
    if parts.len() == 3 && parse_u64_spec(parts[1]) is Some {
        if parts[2] == "upgradedClient"@ {
            Some(TypedPath::UpgradedClientState(parse_u64_spec(parts[1])->0))
        } else if parts[2] == "upgradedConsState"@ {
            Some(TypedPath::UpgradedClientConsensusState(parse_u64_spec(parts[1])->0))
        } else {
            None
        }
    } else {
        None
    }
}

/// What tells the fixed words of the grammar apart: their lengths, and a
/// character where two of one length differ.
pub proof fn lemma_words_differ()
    ensures
        "clients"@.len() == 7,
        "connections"@.len() == 11,
        "ports"@.len() == 5,
        "channelEnds"@.len() == 11,
        "nextSequenceSend"@.len() == 16,
        "nextSequenceRecv"@.len() == 16,
        "nextSequenceAck"@.len() == 15,
        "commitments"@.len() == 11,
        "acks"@.len() == 4,
        "receipts"@.len() == 8,
        "upgradedIBCState"@.len() == 16,
        "clientType"@.len() == 10,
        "clientState"@.len() == 11,
        "upgradedClient"@.len() == 14,
        "upgradedConsState"@.len() == 17,
        "connections"@[1] == 'o' && "connections"@[2] == 'n',
        "channelEnds"@[1] == 'h',
        "commitments"@[1] == 'o' && "commitments"@[2] == 'm',
        "clientState"@[1] == 'l',
        "nextSequenceSend"@[0] == 'n' && "nextSequenceSend"@[12] == 'S',
        "nextSequenceRecv"@[0] == 'n' && "nextSequenceRecv"@[12] == 'R',
        "upgradedIBCState"@[0] == 'u',
{
    reveal_strlit("clients");
    reveal_strlit("clientType");
    reveal_strlit("clientState");
    reveal_strlit("connections");
    reveal_strlit("ports");
    reveal_strlit("channelEnds");
    reveal_strlit("nextSequenceSend");
    reveal_strlit("nextSequenceRecv");
    reveal_strlit("nextSequenceAck");
    reveal_strlit("commitments");
    reveal_strlit("acks");
    reveal_strlit("receipts");
    reveal_strlit("upgradedIBCState");
    reveal_strlit("upgradedClient");
    reveal_strlit("upgradedConsState");
}

/// What is known of the fixed words of the grammar: their characters.
pub proof fn lemma_words()
    ensures
        "clients"@ == seq!['c', 'l', 'i', 'e', 'n', 't', 's'],
        "clientType"@ == seq!['c', 'l', 'i', 'e', 'n', 't', 'T', 'y', 'p', 'e'],
        "clientState"@ == seq!['c', 'l', 'i', 'e', 'n', 't', 'S', 't', 'a', 't', 'e'],
        "consensusStates"@ == seq![
            'c', 'o', 'n', 's', 'e', 'n', 's', 'u', 's', 'S', 't', 'a', 't', 'e', 's',
        ],
        "connections"@ == seq!['c', 'o', 'n', 'n', 'e', 'c', 't', 'i', 'o', 'n', 's'],
        "ports"@ == seq!['p', 'o', 'r', 't', 's'],
        "channelEnds"@ == seq!['c', 'h', 'a', 'n', 'n', 'e', 'l', 'E', 'n', 'd', 's'],
        "channels"@ == seq!['c', 'h', 'a', 'n', 'n', 'e', 'l', 's'],
        "nextSequenceSend"@ == seq![
            'n', 'e', 'x', 't', 'S', 'e', 'q', 'u', 'e', 'n', 'c', 'e', 'S', 'e', 'n', 'd',
        ],
        "nextSequenceRecv"@ == seq![
            'n', 'e', 'x', 't', 'S', 'e', 'q', 'u', 'e', 'n', 'c', 'e', 'R', 'e', 'c', 'v',
        ],
        "nextSequenceAck"@ == seq![
            'n', 'e', 'x', 't', 'S', 'e', 'q', 'u', 'e', 'n', 'c', 'e', 'A', 'c', 'k',
        ],
        "commitments"@ == seq!['c', 'o', 'm', 'm', 'i', 't', 'm', 'e', 'n', 't', 's'],
        "acks"@ == seq!['a', 'c', 'k', 's'],
        "receipts"@ == seq!['r', 'e', 'c', 'e', 'i', 'p', 't', 's'],
        "sequences"@ == seq!['s', 'e', 'q', 'u', 'e', 'n', 'c', 'e', 's'],
        "upgradedIBCState"@ == seq![
            'u', 'p', 'g', 'r', 'a', 'd', 'e', 'd', 'I', 'B', 'C', 'S', 't', 'a', 't', 'e',
        ],
        "upgradedClient"@ == seq![
            'u', 'p', 'g', 'r', 'a', 'd', 'e', 'd', 'C', 'l', 'i', 'e', 'n', 't',
        ],
        "upgradedConsState"@ == seq![
            'u', 'p', 'g', 'r', 'a', 'd', 'e', 'd', 'C', 'o', 'n', 's', 'S', 't', 'a', 't', 'e',
        ],
{
    reveal_strlit("clients");
    reveal_strlit("clientType");
    reveal_strlit("clientState");
    reveal_strlit("consensusStates");
    reveal_strlit("connections");
    reveal_strlit("ports");
    reveal_strlit("channelEnds");
    reveal_strlit("channels");
    reveal_strlit("nextSequenceSend");
    reveal_strlit("nextSequenceRecv");
    reveal_strlit("nextSequenceAck");
    reveal_strlit("commitments");
    reveal_strlit("acks");
    reveal_strlit("receipts");
    reveal_strlit("sequences");
    reveal_strlit("upgradedIBCState");
    reveal_strlit("upgradedClient");
    reveal_strlit("upgradedConsState");
}

/// Whether `s` is one of the fixed words of the grammar.
pub open spec fn is_word(s: Seq<char>) -> bool {
    s == "clients"@ || s == "clientType"@ || s == "clientState"@ || s == "consensusStates"@ || s
        == "connections"@ || s == "ports"@ || s == "channelEnds"@ || s == "channels"@ || s
        == "nextSequenceSend"@ || s == "nextSequenceRecv"@ || s == "nextSequenceAck"@ || s
        == "commitments"@ || s == "acks"@ || s == "receipts"@ || s == "sequences"@ || s
        == "upgradedIBCState"@ || s == "upgradedClient"@ || s == "upgradedConsState"@
}

/// A non-empty text of ASCII letters is a valid identifier.
proof fn lemma_letters(s: Seq<char>)
    requires
        s.len() > 0,
        forall|i: int|
            0 <= i < s.len() ==> ('a' <= #[trigger] s[i] <= 'z' || 'A' <= s[i] <= 'Z'),
    ensures
        is_valid_identifier(s),
{
    assert forall|i: int| 0 <= i < s.len() implies is_identifier_char(
        #[trigger] s[i],
    ) by {
        assert('a' <= s[i] <= 'z' || 'A' <= s[i] <= 'Z');
    }
}

/// Every fixed word of the grammar is a valid identifier.
pub proof fn lemma_words_are_identifiers()
    ensures
        forall|s: Seq<char>| #[trigger] is_word(s) ==> is_valid_identifier(s),
{
    lemma_words();
    lemma_letters("clients"@);
    lemma_letters("clientType"@);
    lemma_letters("clientState"@);
    lemma_letters("consensusStates"@);
    lemma_letters("connections"@);
    lemma_letters("ports"@);
    lemma_letters("channelEnds"@);
    lemma_letters("channels"@);
    lemma_letters("nextSequenceSend"@);
    lemma_letters("nextSequenceRecv"@);
    lemma_letters("nextSequenceAck"@);
    lemma_letters("commitments"@);
    lemma_letters("acks"@);
    lemma_letters("receipts"@);
    lemma_letters("sequences"@);
    lemma_letters("upgradedIBCState"@);
    lemma_letters("upgradedClient"@);
    lemma_letters("upgradedConsState"@);
}

/// The decimal text of a number is a valid identifier that holds no `-`.
pub proof fn lemma_decimal_is_identifier(n: nat)
    ensures
        is_valid_identifier(decimal(n)),
        !decimal(n).contains('-'),
{
    lemma_decimal(n);
    let s = decimal(n);
    assert forall|i: int| 0 <= i < s.len() implies is_identifier_char(
        #[trigger] s[i],
    ) by {
        assert(is_digit(s[i]));
    }
    if s.contains('-') {
        let i = choose|i: int| 0 <= i < s.len() && s[i] == '-';
        assert(is_digit(s[i]));
    }
}

/// The segment of a consensus state is a valid identifier, and it names its
/// own revision number and height.
pub proof fn lemma_revision_text(epoch: u64, height: u64)
    ensures
        is_valid_identifier(revision_text(epoch, height)),
        revision_of(revision_text(epoch, height)) == Some((epoch, height)),
{
    let e = decimal(epoch as nat);
    let h = decimal(height as nat);
    let s = revision_text(epoch, height);
    lemma_decimal_is_identifier(epoch as nat);
    lemma_decimal_is_identifier(height as nat);
    assert forall|i: int| 0 <= i < s.len() implies is_identifier_char(
        #[trigger] s[i],
    ) by {
        if i < e.len() {
            assert(s[i] == e[i]);
        } else if i == e.len() {
            assert(s[i] == '-');
        } else {
            assert(s[i] == h[i - e.len() - 1]);
        }
    }
    lemma_split_single(e, '-');
    lemma_split_tail(e, h, '-');
    law_parse_decimal(epoch);
    law_parse_decimal(height);
    assert(split(s, '-') =~= seq![e, h]);
}

/// The canonical segments of a well-formed typed path are valid segments of a
/// path.
pub proof fn law_segments_are_valid(t: TypedPath)
    requires
        t.wf(),
    ensures
        are_path_segments(t.segments()),
{
    lemma_words_are_identifiers();
    let parts = t.segments();
    assert(is_word("clients"@) && is_word("clientType"@) && is_word("clientState"@) && is_word(
        "consensusStates"@,
    ) && is_word("connections"@) && is_word("ports"@) && is_word("channelEnds"@) && is_word(
        "channels"@,
    ) && is_word("nextSequenceSend"@) && is_word("nextSequenceRecv"@) && is_word(
        "nextSequenceAck"@,
    ) && is_word("commitments"@) && is_word("acks"@) && is_word("receipts"@) && is_word(
        "sequences"@,
    ) && is_word("upgradedIBCState"@) && is_word("upgradedClient"@) && is_word(
        "upgradedConsState"@,
    ));
    match t {
        TypedPath::ClientType(c) | TypedPath::ClientState(c) | TypedPath::ClientConnections(c) => {
            lemma_verdict_ok(c, CLIENT_ID_MIN as int, CLIENT_ID_MAX as int);
        },
        TypedPath::ClientConsensusState(c, e, h) => {
            lemma_verdict_ok(c, CLIENT_ID_MIN as int, CLIENT_ID_MAX as int);
            lemma_revision_text(e, h);
        },
        TypedPath::Connections(c) => {
            lemma_verdict_ok(c, CONNECTION_ID_MIN as int, CONNECTION_ID_MAX as int);
        },
        TypedPath::Ports(p) => {
            lemma_verdict_ok(p, PORT_ID_MIN as int, PORT_ID_MAX as int);
        },
        TypedPath::ChannelEnds(p, c) | TypedPath::SeqSends(p, c) | TypedPath::SeqRecvs(p, c)
        | TypedPath::SeqAcks(p, c) => {
            lemma_verdict_ok(p, PORT_ID_MIN as int, PORT_ID_MAX as int);
            lemma_verdict_ok(c, CHANNEL_ID_MIN as int, CHANNEL_ID_MAX as int);
        },
        TypedPath::Commitments(p, c, n) | TypedPath::Acks(p, c, n) | TypedPath::Receipts(
            p,
            c,
            n,
        ) => {
            lemma_verdict_ok(p, PORT_ID_MIN as int, PORT_ID_MAX as int);
            lemma_verdict_ok(c, CHANNEL_ID_MIN as int, CHANNEL_ID_MAX as int);
            lemma_decimal_is_identifier(n as nat);
        },
        TypedPath::UpgradedClientState(h) | TypedPath::UpgradedClientConsensusState(h) => {
            lemma_decimal_is_identifier(h as nat);
        },
    }
    assert forall|i: int| 0 <= i < parts.len() implies is_valid_identifier(#[trigger] parts[i]) by {
    }
}

/// No two fixed words that stand at one place of the grammar are the same.
pub proof fn lemma_words_are_distinct()
    ensures
        "clients"@ != "connections"@,
        "clients"@ != "ports"@,
        "clients"@ != "channelEnds"@,
        "clients"@ != "nextSequenceSend"@,
        "clients"@ != "nextSequenceRecv"@,
        "clients"@ != "nextSequenceAck"@,
        "clients"@ != "commitments"@,
        "clients"@ != "acks"@,
        "clients"@ != "receipts"@,
        "clients"@ != "upgradedIBCState"@,
        "connections"@ != "ports"@,
        "connections"@ != "channelEnds"@,
        "connections"@ != "nextSequenceSend"@,
        "connections"@ != "nextSequenceRecv"@,
        "connections"@ != "nextSequenceAck"@,
        "connections"@ != "commitments"@,
        "connections"@ != "acks"@,
        "connections"@ != "receipts"@,
        "connections"@ != "upgradedIBCState"@,
        "ports"@ != "channelEnds"@,
        "ports"@ != "nextSequenceSend"@,
        "ports"@ != "nextSequenceRecv"@,
        "ports"@ != "nextSequenceAck"@,
        "ports"@ != "commitments"@,
        "ports"@ != "acks"@,
        "ports"@ != "receipts"@,
        "ports"@ != "upgradedIBCState"@,
        "channelEnds"@ != "nextSequenceSend"@,
        "channelEnds"@ != "nextSequenceRecv"@,
        "channelEnds"@ != "nextSequenceAck"@,
        "channelEnds"@ != "commitments"@,
        "channelEnds"@ != "acks"@,
        "channelEnds"@ != "receipts"@,
        "channelEnds"@ != "upgradedIBCState"@,
        "nextSequenceSend"@ != "nextSequenceRecv"@,
        "nextSequenceSend"@ != "nextSequenceAck"@,
        "nextSequenceSend"@ != "commitments"@,
        "nextSequenceSend"@ != "acks"@,
        "nextSequenceSend"@ != "receipts"@,
        "nextSequenceSend"@ != "upgradedIBCState"@,
        "nextSequenceRecv"@ != "nextSequenceAck"@,
        "nextSequenceRecv"@ != "commitments"@,
        "nextSequenceRecv"@ != "acks"@,
        "nextSequenceRecv"@ != "receipts"@,
        "nextSequenceRecv"@ != "upgradedIBCState"@,
        "nextSequenceAck"@ != "commitments"@,
        "nextSequenceAck"@ != "acks"@,
        "nextSequenceAck"@ != "receipts"@,
        "nextSequenceAck"@ != "upgradedIBCState"@,
        "commitments"@ != "acks"@,
        "commitments"@ != "receipts"@,
        "commitments"@ != "upgradedIBCState"@,
        "acks"@ != "receipts"@,
        "acks"@ != "upgradedIBCState"@,
        "receipts"@ != "upgradedIBCState"@,
        "clientType"@ != "clientState"@,
        "clientType"@ != "connections"@,
        "clientState"@ != "connections"@,
        "upgradedClient"@ != "upgradedConsState"@,
{
    lemma_words_differ();
}

/// Reading the canonical segments of a path under `clients` gives the path
/// back.
proof fn lemma_client_round_trip(t: TypedPath)
    requires
        t.wf(),
        t is ClientType || t is ClientState || t is ClientConnections || t is ClientConsensusState,
    ensures
        typed_of(t.segments()) == Some(t),
{
    lemma_words_are_distinct();
    let parts = t.segments();
    assert(parts[0] == "clients"@);
    match t {
        TypedPath::ClientConsensusState(c, e, h) => {
            lemma_revision_text(e, h);
            assert(parts.len() == 4 && parts[1] == c && parts[2] == "consensusStates"@);
            assert(parts[3] == revision_text(e, h));
        },
        TypedPath::ClientType(c) => {
            assert(parts.len() == 3 && parts[1] == c && parts[2] == "clientType"@);
        },
        TypedPath::ClientState(c) => {
            assert(parts.len() == 3 && parts[1] == c && parts[2] == "clientState"@);
        },
        TypedPath::ClientConnections(c) => {
            assert(parts.len() == 3 && parts[1] == c && parts[2] == "connections"@);
        },
        _ => {},
    }
    assert(typed_of(parts) == client_path_of(parts));
}

/// Reading the canonical segments of a path that names a channel gives the
/// path back.
proof fn lemma_channel_round_trip(t: TypedPath)
    requires
        t.wf(),
        t is ChannelEnds || t is SeqSends || t is SeqRecvs || t is SeqAcks,
    ensures
        typed_of(t.segments()) == Some(t),
{
    lemma_words_are_distinct();
    let parts = t.segments();
    assert(parts.len() == 5);
    assert(parts[1] == "ports"@ && parts[3] == "channels"@);
    assert(names_channel(parts));
}

/// Reading the canonical segments of a path that names a packet gives the
/// path back.
proof fn lemma_packet_round_trip(t: TypedPath)
    requires
        t.wf(),
        t is Commitments || t is Acks || t is Receipts,
    ensures
        typed_of(t.segments()) == Some(t),
{
    lemma_words_are_distinct();
    let parts = t.segments();
    assert(parts.len() == 7);
    assert(parts[1] == "ports"@ && parts[3] == "channels"@ && parts[5] == "sequences"@);
    match t {
        TypedPath::Commitments(p, c, n) | TypedPath::Acks(p, c, n) | TypedPath::Receipts(
            p,
            c,
            n,
        ) => {
            law_parse_decimal(n);
            assert(parts[2] == p && parts[4] == c && parts[6] == decimal(n as nat));
        },
        _ => {},
    }
    assert(names_channel(parts));
    assert(names_packet(parts));
}

/// Reading the canonical segments of a connection, port or upgrade path
/// gives the path back.
proof fn lemma_short_round_trip(t: TypedPath)
    requires
        t.wf(),
        t is Connections || t is Ports || t is UpgradedClientState
            || t is UpgradedClientConsensusState,
    ensures
        typed_of(t.segments()) == Some(t),
{
    lemma_words_are_distinct();
    let parts = t.segments();
    match t {
        TypedPath::UpgradedClientState(h) | TypedPath::UpgradedClientConsensusState(h) => {
            law_parse_decimal(h);
            assert(parts.len() == 3 && parts[0] == "upgradedIBCState"@ && parts[1] == decimal(
                h as nat,
            ));
            assert(typed_of(parts) == upgrade_path_of(parts));
        },
        TypedPath::Connections(c) => {
            assert(parts.len() == 2 && parts[0] == "connections"@ && parts[1] == c);
        },
        TypedPath::Ports(c) => {
            assert(parts.len() == 2 && parts[0] == "ports"@ && parts[1] == c);
        },
        _ => {},
    }
}

/// Reading the canonical segments of a well-formed typed path gives the path
/// back.
pub proof fn law_typed_round_trip(t: TypedPath)
    requires
        t.wf(),
    ensures
        typed_of(t.segments()) == Some(t),
{
    if t is ClientType || t is ClientState || t is ClientConnections || t is ClientConsensusState {
        lemma_client_round_trip(t);
    } else if t is ChannelEnds || t is SeqSends || t is SeqRecvs || t is SeqAcks {
        lemma_channel_round_trip(t);
    } else if t is Commitments || t is Acks || t is Receipts {
        lemma_packet_round_trip(t);
    } else {
        lemma_short_round_trip(t);
    }
}

} // verus!
