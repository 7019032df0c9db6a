use ibc_grpc_server::decimal::{parse_u64, render_u64};
use ibc_grpc_server::error::ValidationError;
use ibc_grpc_server::host::{validate, ChannelId, ClientId, ConnectionId, PortId};
use ibc_grpc_server::path::{
    AcksPath, ChannelEndsPath, ClientConnectionsPath, ClientConsensusStatePath, ClientStatePath,
    ClientTypePath, ClientUpgradePath, CommitmentsPath, ConnectionsPath, IbcPath, PortsPath,
    ReceiptsPath, SeqAcksPath, SeqRecvsPath, SeqSendsPath,
};
use ibc_grpc_server::text::{chars_of, same_text, split_text};
use ibc_grpc_server::types::Path;

fn client() -> ClientId {
    ClientId::from_str("07-tendermint-7").unwrap()
}

fn connection() -> ConnectionId {
    ConnectionId::from_str("connection-3").unwrap()
}

fn port() -> PortId {
    PortId::from_str("transfer").unwrap()
}

fn channel() -> ChannelId {
    ChannelId::from_str("channel-12").unwrap()
}

fn every_typed_path() -> Vec<(IbcPath, &'static str)> {
    vec![
        (IbcPath::ClientType(ClientTypePath(client())), "clients/07-tendermint-7/clientType"),
        (IbcPath::ClientState(ClientStatePath(client())), "clients/07-tendermint-7/clientState"),
        (
            IbcPath::ClientConsensusState(ClientConsensusStatePath {
                client_id: client(),
                epoch: 15,
                height: 31,
            }),
            "clients/07-tendermint-7/consensusStates/15-31",
        ),
        (
            IbcPath::ClientConnections(ClientConnectionsPath(client())),
            "clients/07-tendermint-7/connections",
        ),
        (IbcPath::Connections(ConnectionsPath(connection())), "connections/connection-3"),
        (IbcPath::Ports(PortsPath(port())), "ports/transfer"),
        (
            IbcPath::ChannelEnds(ChannelEndsPath(port(), channel())),
            "channelEnds/ports/transfer/channels/channel-12",
        ),
        (
            IbcPath::SeqSends(SeqSendsPath(port(), channel())),
            "nextSequenceSend/ports/transfer/channels/channel-12",
        ),
        (
            IbcPath::SeqRecvs(SeqRecvsPath(port(), channel())),
            "nextSequenceRecv/ports/transfer/channels/channel-12",
        ),
        (
            IbcPath::SeqAcks(SeqAcksPath(port(), channel())),
            "nextSequenceAck/ports/transfer/channels/channel-12",
        ),
        (
            IbcPath::Commitments(CommitmentsPath {
                port_id: port(),
                channel_id: channel(),
                sequence: 0,
            }),
            "commitments/ports/transfer/channels/channel-12/sequences/0",
        ),
        (
            IbcPath::Acks(AcksPath { port_id: port(), channel_id: channel(), sequence: 9 }),
            "acks/ports/transfer/channels/channel-12/sequences/9",
        ),
        (
            IbcPath::Receipts(ReceiptsPath {
                port_id: port(),
                channel_id: channel(),
                sequence: u64::MAX,
            }),
            "receipts/ports/transfer/channels/channel-12/sequences/18446744073709551615",
        ),
        (
            IbcPath::Upgrade(ClientUpgradePath::UpgradedClientState(42)),
            "upgradedIBCState/42/upgradedClient",
        ),
        (
            IbcPath::Upgrade(ClientUpgradePath::UpgradedClientConsensusState(42)),
            "upgradedIBCState/42/upgradedConsState",
        ),
    ]
}

#[test]
fn typed_paths_have_their_canonical_text() {
    for (typed, text) in every_typed_path() {
        assert_eq!(typed.to_string(), text);
        assert_eq!(Path::from_typed(&typed).to_string(), text);
    }
}

#[test]
fn typed_paths_round_trip() {
    for (typed, _) in every_typed_path() {
        assert_eq!(Path::from_typed(&typed).to_typed(), Some(typed));
    }
}

#[test]
fn canonical_texts_read_as_their_typed_path() {
    for (typed, text) in every_typed_path() {
        assert_eq!(Path::parse(text).unwrap().to_typed(), Some(typed));
    }
}

#[test]
fn typed_paths_agree_with_the_host_library() {
    for (typed, text) in every_typed_path() {
        let theirs: ibc::core::ics24_host::Path = text.parse().unwrap();
        assert_eq!(theirs.to_string(), typed.to_string());
    }
}

#[test]
fn other_shapes_are_no_typed_path() {
    for text in [
        "clients",
        "clients/07-tendermint-7",
        "clients/short/clientState",
        "clients/07-tendermint-7/clientstate",
        "clients/07-tendermint-7/consensusStates",
        "clients/07-tendermint-7/consensusStates/15",
        "clients/07-tendermint-7/consensusStates/15-31-2",
        "clients/07-tendermint-7/consensusStates/a-31",
        "clients/07-tendermint-7/clientState/extra",
        "connections",
        "connections/conn-0",
        "connections/connection-3/extra",
        "ports/p",
        "channelEnds/ports",
        "channelEnds/ports/transfer/channels/chan-1",
        "channelEnds/port/transfer/channels/channel-12",
        "channelEnds/ports/transfer/channel/channel-12",
        "commitments/ports/transfer/channels/channel-12",
        "commitments/ports/transfer/channels/channel-12/sequences/x",
        "commitments/ports/transfer/channels/channel-12/sequence/1",
        "acks/ports/transfer/channels/channel-12/sequences/18446744073709551616",
        "receipts/ports/transfer/channels/channel-12/sequences/1/2",
        "upgradedIBCState/x/upgradedClient",
        "upgradedIBCState/1/upgraded",
        "nextSequenceSent/ports/transfer/channels/channel-12",
        "unknown/07-tendermint-7",
    ] {
        assert_eq!(Path::parse(text).unwrap().to_typed(), None, "{}", text);
        if text != "clients" {
            assert!(text.parse::<ibc::core::ics24_host::Path>().is_err(), "{}", text);
        }
    }
}

#[test]
fn numbers_are_read_with_sign_and_leading_zeros() {
    let typed = Path::parse("commitments/ports/transfer/channels/channel-12/sequences/+007")
        .unwrap()
        .to_typed();
    assert_eq!(
        typed,
        Some(IbcPath::Commitments(CommitmentsPath {
            port_id: port(),
            channel_id: channel(),
            sequence: 7
        }))
    );
    let typed = Path::parse("clients/07-tendermint-7/consensusStates/+1-002").unwrap().to_typed();
    assert_eq!(
        typed,
        Some(IbcPath::ClientConsensusState(ClientConsensusStatePath {
            client_id: client(),
            epoch: 1,
            height: 2
        }))
    );
}

#[test]
fn render_writes_plain_decimal() {
    assert_eq!(render_u64(0), "0");
    assert_eq!(render_u64(7), "7");
    assert_eq!(render_u64(10), "10");
    assert_eq!(render_u64(103344), "103344");
    assert_eq!(render_u64(u64::MAX), "18446744073709551615");
}

#[test]
fn parse_reads_what_the_standard_parser_reads() {
    for text in [
        "0",
        "7",
        "007",
        "+7",
        "+",
        "",
        "-7",
        "7 ",
        " 7",
        "7a",
        "++7",
        "7+",
        "18446744073709551615",
        "18446744073709551616",
        "99999999999999999999999",
        "000000000000000000000000000001",
        "\u{663}",
    ] {
        assert_eq!(parse_u64(text), text.parse::<u64>().ok(), "{:?}", text);
    }
    assert_eq!(parse_u64("18446744073709551615"), Some(u64::MAX));
    assert_eq!(parse_u64("18446744073709551616"), None);
}

#[test]
fn parse_reads_back_what_render_writes() {
    for n in [0, 1, 9, 10, 11, 99, 100, 12345, u64::MAX - 1, u64::MAX] {
        assert_eq!(parse_u64(&render_u64(n)), Some(n));
    }
}

#[test]
fn free_identifiers_have_no_length_bounds() {
    assert_eq!(validate("a"), Ok(()));
    assert_eq!(validate(&"z".repeat(1000)), Ok(()));
    assert_eq!(validate(""), Err(ValidationError::Empty));
    assert_eq!(validate("a/b c"), Err(ValidationError::ContainSeparator));
    assert_eq!(validate("b c"), Err(ValidationError::InvalidCharacter));
}

#[test]
fn client_identifiers_have_nine_to_sixty_four_bytes() {
    assert_eq!(ClientId::from_str("12345678").err(), Some(ValidationError::InvalidLength));
    assert_eq!(ClientId::from_str("123456789").unwrap().as_str(), "123456789");
    assert!(ClientId::from_str(&"c".repeat(64)).is_ok());
    assert_eq!(ClientId::from_str(&"c".repeat(65)).err(), Some(ValidationError::InvalidLength));
    assert_eq!(ClientId::from_str("").err(), Some(ValidationError::Empty));
    assert_eq!(ClientId::from_str("07/tendermint").err(), Some(ValidationError::ContainSeparator));
    assert_eq!(ClientId::from_str("07 tendermint").err(), Some(ValidationError::InvalidCharacter));
}

#[test]
fn connection_identifiers_have_ten_to_sixty_four_bytes() {
    assert_eq!(ConnectionId::from_str("connect01").err(), Some(ValidationError::InvalidLength));
    assert_eq!(ConnectionId::from_str("connection-0").unwrap().as_str(), "connection-0");
    assert!(ConnectionId::from_str(&"c".repeat(64)).is_ok());
    assert_eq!(
        ConnectionId::from_str(&"c".repeat(65)).err(),
        Some(ValidationError::InvalidLength)
    );
}

#[test]
fn port_identifiers_have_two_to_one_hundred_twenty_eight_bytes() {
    assert_eq!(PortId::from_str("p").err(), Some(ValidationError::InvalidLength));
    assert_eq!(PortId::from_str("p1").unwrap().as_str(), "p1");
    assert!(PortId::from_str(&"p".repeat(128)).is_ok());
    assert_eq!(PortId::from_str(&"p".repeat(129)).err(), Some(ValidationError::InvalidLength));
}

#[test]
fn channel_identifiers_have_eight_to_sixty_four_bytes() {
    assert_eq!(ChannelId::from_str("channel").err(), Some(ValidationError::InvalidLength));
    assert_eq!(ChannelId::from_str("channel-0").unwrap().as_str(), "channel-0");
    assert!(ChannelId::from_str(&"c".repeat(64)).is_ok());
    assert_eq!(ChannelId::from_str(&"c".repeat(65)).err(), Some(ValidationError::InvalidLength));
}

#[test]
fn identifier_lengths_count_bytes() {
    // Five characters of two bytes each: ten bytes.
    let text = "\u{e9}".repeat(5);
    assert!(ConnectionId::from_str(&text).is_ok());
    assert_eq!(ConnectionId::from_str(&"\u{e9}".repeat(4)).err(), Some(ValidationError::InvalidLength));
}

#[test]
fn identifiers_compare_by_text() {
    assert!(port().same(&PortId::from_str("transfer").unwrap()));
    assert!(!port().same(&PortId::from_str("transfer2").unwrap()));
    assert!(client().same(&client().clone()));
    assert!(!channel().same(&ChannelId::from_str("channel-13").unwrap()));
    assert!(connection().same(&ConnectionId::from_str("connection-3").unwrap()));
}

#[test]
fn split_cuts_at_every_separator() {
    assert_eq!(split_text("", '/'), vec![String::new()]);
    assert_eq!(split_text("a", '/'), vec![String::from("a")]);
    assert_eq!(split_text("a/b", '/'), vec![String::from("a"), String::from("b")]);
    assert_eq!(
        split_text("/a//", '/'),
        vec![String::new(), String::from("a"), String::new(), String::new()]
    );
    assert_eq!(split_text("15-31", '-'), vec![String::from("15"), String::from("31")]);
    assert_eq!(split_text("\u{e9}/\u{e9}", '/'), vec![String::from("\u{e9}"), String::from("\u{e9}")]);
}

#[test]
fn texts_compare_by_their_characters() {
    assert!(same_text("", ""));
    assert!(same_text("ports", "ports"));
    assert!(!same_text("ports", "port"));
    assert!(!same_text("ports", "porty"));
    assert_eq!(chars_of("a\u{e9}b"), vec!['a', '\u{e9}', 'b']);
}
