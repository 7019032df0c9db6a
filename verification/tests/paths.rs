use ibc_grpc_server::error::{ServerError, ValidationError};
use ibc_grpc_server::host::ClientId;
use ibc_grpc_server::path::{ClientStatePath, ClientTypePath, IbcPath};
use ibc_grpc_server::text::{compare_bytes, Rank};
use ibc_grpc_server::types::{bytes_start_with, Identifier, KeyPrefix, Path, StoreHeight};

fn tendermint_client(counter: u64) -> ClientId {
    let id = ibc::core::ics24_host::identifier::ClientId::new(
        ibc::core::ics02_client::client_type::ClientType::Tendermint,
        counter,
    )
    .unwrap();
    ClientId::from_str(id.as_str()).unwrap()
}

#[test]
fn starts_with_test_case01() {
    let dst_path: Path = Path::parse("clients/07-tendermint-1033").unwrap();
    let client_id = tendermint_client(103344);
    let path = ClientTypePath(client_id);
    let src_path: Path = Path::from_typed(&IbcPath::ClientType(path));

    assert!(src_path.starts_with(&dst_path));
}

#[test]
fn starts_with_test_case02() {
    let dst_path = Path::parse("clients/07-tend").unwrap();
    let client_id = tendermint_client(1033);
    let path = ClientStatePath(client_id);
    let src_path: Path = Path::from_typed(&IbcPath::ClientState(path));

    assert!(src_path.starts_with(&dst_path));
}

#[test]
fn starts_with_test_case03() {
    let dst_path = Path::parse("clients").unwrap();
    let client_id = tendermint_client(1033);
    let path = ClientStatePath(client_id);
    let src_path: Path = Path::from_typed(&IbcPath::ClientState(path));

    assert!(src_path.starts_with(&dst_path));
}

#[test]
fn test_key_prefix_from_path_case01() {
    let src = String::from("connections");
    let src_path: Path = Path::parse(&src).expect("'connections' expected to be a valid Path");
    let prefix_key = KeyPrefix::from(&src_path);
    assert_eq!(src, prefix_key.to_string())
}

#[test]
fn test_key_prefix_from_path_case02() {
    let src = String::from("channelEnds/ports");
    let src_path: Path =
        Path::parse(&src).expect("'channelEnds/ports' expected to be a valid Path");
    let prefix_key = KeyPrefix::from(&src_path);
    assert_eq!(src, prefix_key.to_string())
}

#[test]
fn test_key_prefix_from_path_case03() {
    let src = format!("clients/{}/consensusStates", "123client_id");
    let src_path =
        Path::parse(&src).expect("'channelEnds/ports' expected to be a valid Path");
    let prefix_key = KeyPrefix::from(&src_path);
    assert_eq!(src, prefix_key.to_string())
}

#[test]
fn validate_rejects_the_empty_identifier() {
    assert_eq!(
        Identifier::validate(""),
        Err(ServerError::ValidateIdentifier(ValidationError::Empty))
    );
}

#[test]
fn validate_accepts_a_client_identifier() {
    assert_eq!(Identifier::validate("07-tendermint-0"), Ok(()));
}

#[test]
fn validate_rejects_a_space() {
    assert_eq!(
        Identifier::validate("has space"),
        Err(ServerError::ValidateIdentifier(ValidationError::InvalidCharacter))
    );
}

#[test]
fn validate_accepts_every_special_character() {
    assert_eq!(Identifier::validate("a.b_c+d-e#f[g]<h>"), Ok(()));
}

#[test]
fn validate_rejects_the_separator() {
    assert_eq!(
        Identifier::validate("a/b"),
        Err(ServerError::ValidateIdentifier(ValidationError::ContainSeparator))
    );
}

#[test]
fn validate_accepts_letters_beyond_ascii() {
    assert_eq!(Identifier::validate("caf\u{e9}"), Ok(()));
    assert_eq!(Identifier::validate("\u{663}"), Ok(()));
}

#[test]
fn validate_rejects_symbols_beyond_ascii() {
    assert_eq!(
        Identifier::validate("a\u{2603}"),
        Err(ServerError::ValidateIdentifier(ValidationError::InvalidCharacter))
    );
}

#[test]
fn validate_accepts_a_long_identifier() {
    let long = "a".repeat(4096);
    assert_eq!(Identifier::validate(&long), Ok(()));
}

#[test]
fn construct_keeps_the_text() {
    let id = Identifier::construct(String::from("clientState")).unwrap();
    assert_eq!(id.as_str(), "clientState");
    assert!(Identifier::construct(String::from("client State")).is_err());
}

#[test]
fn parse_then_write_gives_the_text_back() {
    for s in [
        "a",
        "clients/07-tendermint-0/clientState",
        "commitments/ports/transfer/channels/channel-0/sequences/12",
        "x/y/z/x/y/z",
    ] {
        assert_eq!(Path::parse(s).unwrap().to_string(), s);
    }
}

#[test]
fn parse_counts_segments() {
    let p = Path::parse("clients/07-tendermint-0/clientState").unwrap();
    assert_eq!(p.len(), 3);
    assert_eq!(p.segment(0).as_str(), "clients");
    assert_eq!(p.segment(1).as_str(), "07-tendermint-0");
    assert_eq!(p.segment(2).as_str(), "clientState");
}

#[test]
fn parse_rejects_empty_segments() {
    let empty = Err(ServerError::ValidateIdentifier(ValidationError::Empty));
    assert_eq!(Path::parse(""), empty);
    assert_eq!(Path::parse("/clients"), empty);
    assert_eq!(Path::parse("clients/"), empty);
    assert_eq!(Path::parse("clients//x"), empty);
}

#[test]
fn parse_reports_the_first_bad_segment() {
    assert_eq!(
        Path::parse("ok/not ok//x"),
        Err(ServerError::ValidateIdentifier(ValidationError::InvalidCharacter))
    );
    assert_eq!(
        Path::parse("ok//not ok"),
        Err(ServerError::ValidateIdentifier(ValidationError::Empty))
    );
}

#[test]
fn parse_bytes_reads_utf8() {
    let p = Path::parse_bytes("clients/caf\u{e9}".as_bytes()).unwrap();
    assert_eq!(p, Path::parse("clients/caf\u{e9}").unwrap());
    assert_eq!(p.to_string(), "clients/caf\u{e9}");
}

#[test]
fn parse_bytes_rejects_bad_utf8() {
    assert_eq!(Path::parse_bytes(&[0x63, 0xff, 0x63]), Err(ServerError::FromUtf8));
    assert_eq!(Path::parse_bytes(&[0xc3]), Err(ServerError::FromUtf8));
}

#[test]
fn parse_bytes_rejects_bad_segments() {
    assert_eq!(
        Path::parse_bytes(b"clients//x"),
        Err(ServerError::ValidateIdentifier(ValidationError::Empty))
    );
}

#[test]
fn from_identifier_is_a_single_segment() {
    let id = Identifier::construct(String::from("connections")).unwrap();
    let p = Path::from_identifier(id);
    assert_eq!(p.len(), 1);
    assert_eq!(p.to_string(), "connections");
}

#[test]
fn from_identifiers_needs_a_segment() {
    assert_eq!(Path::from_identifiers(Vec::new()), None);
    let ids = vec![
        Identifier::construct(String::from("acks")).unwrap(),
        Identifier::construct(String::from("ports")).unwrap(),
    ];
    assert_eq!(Path::from_identifiers(ids).unwrap().to_string(), "acks/ports");
}

#[test]
fn starts_with_goes_by_bytes_not_segments() {
    let long = Path::parse("clients/07-tendermint-1033").unwrap();
    assert!(long.starts_with(&Path::parse("clients/07-tend").unwrap()));
    assert!(long.starts_with(&Path::parse("clients").unwrap()));
    assert!(Path::parse("clientsX").unwrap().starts_with(&Path::parse("clients").unwrap()));
    assert!(long.starts_with(&long.clone()));
}

#[test]
fn starts_with_rejects_other_prefixes() {
    let long = Path::parse("clients/07-tendermint-1033").unwrap();
    assert!(!long.starts_with(&Path::parse("clientz").unwrap()));
    assert!(!long.starts_with(&Path::parse("clients/07-tendermint-10334").unwrap()));
    assert!(!Path::parse("clients").unwrap().starts_with(&long));
    assert!(!long.starts_with(&Path::parse("connections").unwrap()));
}

#[test]
fn bytes_start_with_compares_prefixes() {
    assert!(bytes_start_with(b"abc", b""));
    assert!(bytes_start_with(b"abc", b"ab"));
    assert!(bytes_start_with(b"abc", b"abc"));
    assert!(!bytes_start_with(b"abc", b"abcd"));
    assert!(!bytes_start_with(b"abc", b"b"));
}

#[test]
fn key_prefix_bytes_are_the_text() {
    let p = Path::parse("channelEnds/ports").unwrap();
    let k = KeyPrefix::from(&p);
    assert_eq!(k.as_bytes(), b"channelEnds/ports");
    assert_eq!(k.to_string(), "channelEnds/ports");
}

#[test]
fn store_heights_compare() {
    assert_eq!(StoreHeight::Stable(3), StoreHeight::Stable(3));
    assert_ne!(StoreHeight::Latest, StoreHeight::Stable(0));
}

#[test]
fn paths_are_ordered_by_their_serialized_form() {
    let dash = Path::parse("a-b").unwrap();
    let slash = Path::parse("a/b").unwrap();
    let short = Path::parse("a").unwrap();
    assert_eq!(dash.compare(&slash), Rank::Less);
    assert_eq!(slash.compare(&dash), Rank::Greater);
    assert_eq!(short.compare(&slash), Rank::Less);
    assert_eq!(slash.compare(&slash.clone()), Rank::Equal);
    assert!(dash < slash);
    assert!(short < dash);
    assert!(slash > short);
    assert!(slash >= slash.clone());
    assert_eq!("a-b" < "a/b", dash < slash);
}

#[test]
fn paths_are_equal_when_their_segments_are() {
    assert_eq!(Path::parse("clients/x").unwrap(), Path::parse("clients/x").unwrap());
    assert_ne!(Path::parse("clients/x").unwrap(), Path::parse("clients/y").unwrap());
    assert_ne!(Path::parse("clients/x").unwrap(), Path::parse("clients").unwrap());
}

#[test]
fn bytes_compare_lexicographically() {
    assert_eq!(compare_bytes(b"", b""), Rank::Equal);
    assert_eq!(compare_bytes(b"", b"a"), Rank::Less);
    assert_eq!(compare_bytes(b"a", b""), Rank::Greater);
    assert_eq!(compare_bytes(b"ab", b"b"), Rank::Less);
    assert_eq!(compare_bytes(b"ab", b"aa"), Rank::Greater);
    assert_eq!(compare_bytes(b"ab", b"abc"), Rank::Less);
    assert_eq!(compare_bytes(b"abc", b"abc"), Rank::Equal);
}
