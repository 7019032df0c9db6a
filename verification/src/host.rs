//! The identifier grammar of the host, as the `ibc` crate checks it.

use vstd::prelude::*;
use vstd::utf8::encode_utf8;
use crate::charset::{is_identifier_char, unicode_alphanumeric};
use crate::error::ValidationError;

verus! {

/// The reasons for which the `ibc` crate rejects an identifier.
type Detail = ibc::core::ics24_host::error::ValidationErrorDetail;

/// Whether every character of `s` is an identifier character.
pub open spec fn all_identifier_chars(s: Seq<char>) -> bool {
    forall|i: int| 0 <= i < s.len() ==> is_identifier_char(#[trigger] s[i])
}

/// The length of `s` in UTF-8 bytes.
pub open spec fn byte_len(s: Seq<char>) -> int {
    encode_utf8(s).len() as int
}

/// The verdict on `id` as an identifier whose byte length must lie in
/// `min..=max`: the first check that fails, in the order emptiness,
/// separator, length, character class.
pub open spec fn identifier_verdict(id: Seq<char>, min: int, max: int) -> Result<
    (),
    ValidationError,
> {
    if id.len() == 0 {
        Err(ValidationError::Empty)
    } else if id.contains('/') {
        Err(ValidationError::ContainSeparator)
    } else if byte_len(id) < min || byte_len(id) > max {
        Err(ValidationError::InvalidLength)
    } else if !all_identifier_chars(id) {
        Err(ValidationError::InvalidCharacter)
    } else {
        Ok(())
    }
}

/// A non-empty text of identifier characters.
pub open spec fn is_valid_identifier(s: Seq<char>) -> bool {
    s.len() > 0 && all_identifier_chars(s)
}

/// The verdict on `s` as an identifier of any length.
pub open spec fn free_verdict(s: Seq<char>) -> Result<(), ValidationError> {
    identifier_verdict(s, 0, byte_len(s))
}

/// Text of identifier characters holds no separator.
pub proof fn lemma_identifier_chars_hold_no_separator(s: Seq<char>)
    requires
        all_identifier_chars(s),
    ensures
        !s.contains('/'),
{
    if s.contains('/') {
        let i = choose|i: int| 0 <= i < s.len() && s[i] == '/';
        assert(is_identifier_char(s[i]));
    }
}

/// A text passes the checks, whatever the length bounds that it meets, exactly
/// when it is a valid identifier within those bounds.
pub proof fn lemma_verdict_ok(s: Seq<char>, min: int, max: int)
    ensures
        identifier_verdict(s, min, max) is Ok <==> is_valid_identifier(s) && min <= byte_len(s)
            <= max,
        free_verdict(s) is Ok <==> is_valid_identifier(s),
{
    if all_identifier_chars(s) {
        lemma_identifier_chars_hold_no_separator(s);
    }
}

/// Calls `ibc::core::ics24_host::validate::validate_identifier`. That
/// function rejects, in this order, an empty string, one holding `/`, one
/// whose byte length is outside `min..=max`, and one with a character that is
/// neither alphanumeric nor one of `._+-#[]<>`; the contract names the error
/// of the first check that fails. So every character beyond ASCII of a text
/// that passes is alphanumeric in the sense of `char::is_alphanumeric`. The
/// function panics when `max < min`.
#[verifier::external_body]
fn check_identifier(id: &str, min: usize, max: usize) -> (r: Result<(), ValidationError>)
    requires
        min <= max,
    ensures
        r == identifier_verdict(id@, min as int, max as int),
        r is Ok ==> forall|i: int|
            0 <= i < id@.len() && id@[i] > '\x7f' ==> unicode_alphanumeric(#[trigger] id@[i]),
{
    match ibc::core::ics24_host::validate::validate_identifier(id, min, max) {
        Ok(()) => Ok(()),
        Err(e) => Err(match e.detail() {
            Detail::ContainSeparator(_) => ValidationError::ContainSeparator,
            Detail::InvalidLength(_) => ValidationError::InvalidLength,
            Detail::InvalidCharacter(_) => ValidationError::InvalidCharacter,
            Detail::Empty(_) => ValidationError::Empty,
            Detail::ChainIdInvalidFormat(_) => ValidationError::ChainIdInvalidFormat,
            Detail::InvalidCounterpartyChannelId(_) => {
                ValidationError::InvalidCounterpartyChannelId
            },
        }),
    }
}

/// Validates a free-form identifier: non-empty, of identifier characters,
/// of any length.
pub fn validate(s: &str) -> (r: Result<(), ValidationError>)
    ensures
        r == free_verdict(s@),
        r is Ok <==> is_valid_identifier(s@),
{
    proof {
        lemma_verdict_ok(s@, 0, byte_len(s@));
    }
    let bytes = s.as_bytes();
    check_identifier(s, 0, bytes.len())
}

/// The least byte length of a client identifier.
pub const CLIENT_ID_MIN: usize = 9;

/// The greatest byte length of a client identifier.
pub const CLIENT_ID_MAX: usize = 64;

/// The verdict on `s` as a client identifier: an identifier of 9 to 64
/// bytes.
pub open spec fn client_id_verdict(s: Seq<char>) -> Result<(), ValidationError> {
    identifier_verdict(s, CLIENT_ID_MIN as int, CLIENT_ID_MAX as int)
}

/// A valid identifier of 9 to 64 bytes.
pub open spec fn is_client_id(s: Seq<char>) -> bool {
    client_id_verdict(s) is Ok
}

/// Calls `from_str` of `ibc::core::ics24_host::identifier::ClientId`, which
/// runs the identifier checks with the byte length bounds 9 and 64 and
/// keeps a copy of the text that passes.
#[verifier::external_body]
fn client_id_text(s: &str) -> (r: Result<String, ValidationError>)
    ensures
        r is Ok <==> is_client_id(s@),
        r matches Ok(t) ==> t@ == s@,
        r matches Err(e) ==> e == client_id_verdict(s@)->Err_0,
{
    match s.parse::<ibc::core::ics24_host::identifier::ClientId>() {
        Ok(id) => Ok(id.to_string()),
        Err(e) => Err(match e.detail() {
            Detail::ContainSeparator(_) => ValidationError::ContainSeparator,
            Detail::InvalidLength(_) => ValidationError::InvalidLength,
            Detail::InvalidCharacter(_) => ValidationError::InvalidCharacter,
            Detail::Empty(_) => ValidationError::Empty,
            Detail::ChainIdInvalidFormat(_) => ValidationError::ChainIdInvalidFormat,
            Detail::InvalidCounterpartyChannelId(_) => {
                ValidationError::InvalidCounterpartyChannelId
            },
        }),
    }
}

/// The identifier of a client.
#[derive(Debug, PartialEq, Eq, PartialOrd, Ord, Hash)]
pub struct ClientId(String);

impl View for ClientId {
    type V = Seq<char>;

    closed spec fn view(&self) -> Seq<char> {
        self.0@
    }
}

impl Clone for ClientId {
    fn clone(&self) -> (r: Self)
        ensures
            r@ == self@,
    {
        proof {
            use_type_invariant(self);
        }
        ClientId(self.0.clone())
    }
}

impl ClientId {
    #[verifier::type_invariant]
    spec fn valid(self) -> bool {
        is_client_id(self.0@)
    }

    /// Validates `s` as a client identifier.
    pub fn from_str(s: &str) -> (r: Result<ClientId, ValidationError>)
        ensures
            r is Ok <==> is_client_id(s@),
            r matches Ok(id) ==> id@ == s@,
            r matches Err(e) ==> e == client_id_verdict(s@)->Err_0,
    {
        match client_id_text(s) {
            Ok(t) => Ok(ClientId(t)),
            Err(e) => Err(e),
        }
    }

    /// The text of the identifier.
    pub fn as_str(&self) -> (s: &str)
        ensures
            s@ == self@,
            is_client_id(self@),
    {
        proof {
            use_type_invariant(self);
        }
        self.0.as_str()
    }

    /// Whether both identifiers have the same text.
    pub fn same(&self, other: &ClientId) -> (r: bool)
        ensures
            r == (self@ == other@),
    {
        self.0 == other.0
    }
}

/// The least byte length of a connection identifier.
pub const CONNECTION_ID_MIN: usize = 10;

/// The greatest byte length of a connection identifier.
pub const CONNECTION_ID_MAX: usize = 64;

/// The verdict on `s` as a connection identifier: an identifier of 10 to 64
/// bytes.
pub open spec fn connection_id_verdict(s: Seq<char>) -> Result<(), ValidationError> {
    identifier_verdict(s, CONNECTION_ID_MIN as int, CONNECTION_ID_MAX as int)
}

/// A valid identifier of 10 to 64 bytes.
pub open spec fn is_connection_id(s: Seq<char>) -> bool {
    connection_id_verdict(s) is Ok
}

/// Calls `from_str` of `ibc::core::ics24_host::identifier::ConnectionId`, which
/// runs the identifier checks with the byte length bounds 10 and 64 and
/// keeps a copy of the text that passes.
#[verifier::external_body]
fn connection_id_text(s: &str) -> (r: Result<String, ValidationError>)
    ensures
        r is Ok <==> is_connection_id(s@),
        r matches Ok(t) ==> t@ == s@,
        r matches Err(e) ==> e == connection_id_verdict(s@)->Err_0,
{
    match s.parse::<ibc::core::ics24_host::identifier::ConnectionId>() {
        Ok(id) => Ok(id.to_string()),
        Err(e) => Err(match e.detail() {
            Detail::ContainSeparator(_) => ValidationError::ContainSeparator,
            Detail::InvalidLength(_) => ValidationError::InvalidLength,
            Detail::InvalidCharacter(_) => ValidationError::InvalidCharacter,
            Detail::Empty(_) => ValidationError::Empty,
            Detail::ChainIdInvalidFormat(_) => ValidationError::ChainIdInvalidFormat,
            Detail::InvalidCounterpartyChannelId(_) => {
                ValidationError::InvalidCounterpartyChannelId
            },
        }),
    }
}

/// The identifier of a connection.
#[derive(Debug, PartialEq, Eq, PartialOrd, Ord, Hash)]
pub struct ConnectionId(String);

impl View for ConnectionId {
    type V = Seq<char>;

    closed spec fn view(&self) -> Seq<char> {
        self.0@
    }
}

impl Clone for ConnectionId {
    fn clone(&self) -> (r: Self)
        ensures
            r@ == self@,
    {
        proof {
            use_type_invariant(self);
        }
        ConnectionId(self.0.clone())
    }
}

impl ConnectionId {
    #[verifier::type_invariant]
    spec fn valid(self) -> bool {
        is_connection_id(self.0@)
    }

    /// Validates `s` as a connection identifier.
    pub fn from_str(s: &str) -> (r: Result<ConnectionId, ValidationError>)
        ensures
            r is Ok <==> is_connection_id(s@),
            r matches Ok(id) ==> id@ == s@,
            r matches Err(e) ==> e == connection_id_verdict(s@)->Err_0,
    {
        match connection_id_text(s) {
            Ok(t) => Ok(ConnectionId(t)),
            Err(e) => Err(e),
        }
    }

    /// The text of the identifier.
    pub fn as_str(&self) -> (s: &str)
        ensures
            s@ == self@,
            is_connection_id(self@),
    {
        proof {
            use_type_invariant(self);
        }
        self.0.as_str()
    }

    /// Whether both identifiers have the same text.
    pub fn same(&self, other: &ConnectionId) -> (r: bool)
        ensures
            r == (self@ == other@),
    {
        self.0 == other.0
    }
}

/// The least byte length of a port identifier.
pub const PORT_ID_MIN: usize = 2;

/// The greatest byte length of a port identifier.
pub const PORT_ID_MAX: usize = 128;

/// The verdict on `s` as a port identifier: an identifier of 2 to 128
/// bytes.
pub open spec fn port_id_verdict(s: Seq<char>) -> Result<(), ValidationError> {
    identifier_verdict(s, PORT_ID_MIN as int, PORT_ID_MAX as int)
}

/// A valid identifier of 2 to 128 bytes.
pub open spec fn is_port_id(s: Seq<char>) -> bool {
    port_id_verdict(s) is Ok
}

/// Calls `from_str` of `ibc::core::ics24_host::identifier::PortId`, which
/// runs the identifier checks with the byte length bounds 2 and 128 and
/// keeps a copy of the text that passes.
#[verifier::external_body]
fn port_id_text(s: &str) -> (r: Result<String, ValidationError>)
    ensures
        r is Ok <==> is_port_id(s@),
        r matches Ok(t) ==> t@ == s@,
        r matches Err(e) ==> e == port_id_verdict(s@)->Err_0,
{
    match s.parse::<ibc::core::ics24_host::identifier::PortId>() {
        Ok(id) => Ok(id.to_string()),
        Err(e) => Err(match e.detail() {
            Detail::ContainSeparator(_) => ValidationError::ContainSeparator,
            Detail::InvalidLength(_) => ValidationError::InvalidLength,
            Detail::InvalidCharacter(_) => ValidationError::InvalidCharacter,
            Detail::Empty(_) => ValidationError::Empty,
            Detail::ChainIdInvalidFormat(_) => ValidationError::ChainIdInvalidFormat,
            Detail::InvalidCounterpartyChannelId(_) => {
                ValidationError::InvalidCounterpartyChannelId
            },
        }),
    }
}

/// The identifier of a port.
#[derive(Debug, PartialEq, Eq, PartialOrd, Ord, Hash)]
pub struct PortId(String);

impl View for PortId {
    type V = Seq<char>;

    closed spec fn view(&self) -> Seq<char> {
        self.0@
    }
}

impl Clone for PortId {
    fn clone(&self) -> (r: Self)
        ensures
            r@ == self@,
    {
        proof {
            use_type_invariant(self);
        }
        PortId(self.0.clone())
    }
}

impl PortId {
    #[verifier::type_invariant]
    spec fn valid(self) -> bool {
        is_port_id(self.0@)
    }

    /// Validates `s` as a port identifier.
    pub fn from_str(s: &str) -> (r: Result<PortId, ValidationError>)
        ensures
            r is Ok <==> is_port_id(s@),
            r matches Ok(id) ==> id@ == s@,
            r matches Err(e) ==> e == port_id_verdict(s@)->Err_0,
    {
        match port_id_text(s) {
            Ok(t) => Ok(PortId(t)),
            Err(e) => Err(e),
        }
    }

    /// The text of the identifier.
    pub fn as_str(&self) -> (s: &str)
        ensures
            s@ == self@,
            is_port_id(self@),
    {
        proof {
            use_type_invariant(self);
        }
        self.0.as_str()
    }

    /// Whether both identifiers have the same text.
    pub fn same(&self, other: &PortId) -> (r: bool)
        ensures
            r == (self@ == other@),
    {
        self.0 == other.0
    }
}

/// The least byte length of a channel identifier.
pub const CHANNEL_ID_MIN: usize = 8;

/// The greatest byte length of a channel identifier.
pub const CHANNEL_ID_MAX: usize = 64;

/// The verdict on `s` as a channel identifier: an identifier of 8 to 64
/// bytes.
pub open spec fn channel_id_verdict(s: Seq<char>) -> Result<(), ValidationError> {
    identifier_verdict(s, CHANNEL_ID_MIN as int, CHANNEL_ID_MAX as int)
}

/// A valid identifier of 8 to 64 bytes.
pub open spec fn is_channel_id(s: Seq<char>) -> bool {
    channel_id_verdict(s) is Ok
}

/// Calls `from_str` of `ibc::core::ics24_host::identifier::ChannelId`, which
/// runs the identifier checks with the byte length bounds 8 and 64 and
/// keeps a copy of the text that passes.
#[verifier::external_body]
fn channel_id_text(s: &str) -> (r: Result<String, ValidationError>)
    ensures
        r is Ok <==> is_channel_id(s@),
        r matches Ok(t) ==> t@ == s@,
        r matches Err(e) ==> e == channel_id_verdict(s@)->Err_0,
{
    match s.parse::<ibc::core::ics24_host::identifier::ChannelId>() {
        Ok(id) => Ok(id.to_string()),
        Err(e) => Err(match e.detail() {
            Detail::ContainSeparator(_) => ValidationError::ContainSeparator,
            Detail::InvalidLength(_) => ValidationError::InvalidLength,
            Detail::InvalidCharacter(_) => ValidationError::InvalidCharacter,
            Detail::Empty(_) => ValidationError::Empty,
            Detail::ChainIdInvalidFormat(_) => ValidationError::ChainIdInvalidFormat,
            Detail::InvalidCounterpartyChannelId(_) => {
                ValidationError::InvalidCounterpartyChannelId
            },
        }),
    }
}

/// The identifier of a channel.
#[derive(Debug, PartialEq, Eq, PartialOrd, Ord, Hash)]
pub struct ChannelId(String);

impl View for ChannelId {
    type V = Seq<char>;

    closed spec fn view(&self) -> Seq<char> {
        self.0@
    }
}

impl Clone for ChannelId {
    fn clone(&self) -> (r: Self)
        ensures
            r@ == self@,
    {
        proof {
            use_type_invariant(self);
        }
        ChannelId(self.0.clone())
    }
}

impl ChannelId {
    #[verifier::type_invariant]
    spec fn valid(self) -> bool {
        is_channel_id(self.0@)
    }

    /// Validates `s` as a channel identifier.
    pub fn from_str(s: &str) -> (r: Result<ChannelId, ValidationError>)
        ensures
            r is Ok <==> is_channel_id(s@),
            r matches Ok(id) ==> id@ == s@,
            r matches Err(e) ==> e == channel_id_verdict(s@)->Err_0,
    {
        match channel_id_text(s) {
            Ok(t) => Ok(ChannelId(t)),
            Err(e) => Err(e),
        }
    }

    /// The text of the identifier.
    pub fn as_str(&self) -> (s: &str)
        ensures
            s@ == self@,
            is_channel_id(self@),
    {
        proof {
            use_type_invariant(self);
        }
        self.0.as_str()
    }

    /// Whether both identifiers have the same text.
    pub fn same(&self, other: &ChannelId) -> (r: bool)
        ensures
            r == (self@ == other@),
    {
        self.0 == other.0
    }
}

} // verus!
