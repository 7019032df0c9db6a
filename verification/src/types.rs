//! Identifiers, paths and key prefixes.

use vstd::prelude::*;
use vstd::string::StringExecFns;
use vstd::utf8::{decode_utf8, encode_utf8, valid_utf8};
use crate::error::{ServerError, ValidationError};
use crate::host::{
    free_verdict, is_valid_identifier, lemma_identifier_chars_hold_no_separator, lemma_verdict_ok,
    validate,
};
use crate::text::{
    compare_bytes, lemma_lex_rank_equal, lex_rank, Rank,
    free_of, join, lemma_join_split, lemma_split_join, lemma_split_pieces, split, split_text,
    texts,
};

verus! {

/// The separator between the segments of a path.
pub const SEPARATOR: char = '/';

/// The verdict on a sequence of segments: the error of the first segment that
/// is no identifier.
pub open spec fn segments_verdict(parts: Seq<Seq<char>>) -> Result<(), ValidationError>
    decreases parts.len(),
{
    if parts.len() == 0 {
        Ok(())
    } else {
        match segments_verdict(parts.drop_last()) {
            Err(e) => Err(e),
            Ok(()) => free_verdict(parts.last()),
        }
    }
}

/// Whether there is at least one segment and each is a valid identifier.
pub open spec fn are_path_segments(parts: Seq<Seq<char>>) -> bool {
    &&& parts.len() >= 1
    &&& forall|i: int| 0 <= i < parts.len() ==> is_valid_identifier(#[trigger] parts[i])
}

/// What parsing `s` as a path gives: its segments, or the error of the first
/// segment that is no identifier.
pub open spec fn parse_spec(s: Seq<char>) -> Result<Seq<Seq<char>>, ServerError> {
    match segments_verdict(split(s, SEPARATOR)) {
        Ok(()) => Ok(split(s, SEPARATOR)),
        Err(e) => Err(ServerError::ValidateIdentifier(e)),
    }
}

/// What parsing bytes as a path gives.
pub open spec fn parse_bytes_spec(b: Seq<u8>) -> Result<Seq<Seq<char>>, ServerError> {
    if valid_utf8(b) {
        parse_spec(decode_utf8(b))
    } else {
        Err(ServerError::FromUtf8)
    }
}

/// The serialized form of a sequence of segments.
pub open spec fn path_text(parts: Seq<Seq<char>>) -> Seq<char> {
    join(parts, SEPARATOR)
}

/// The segments pass exactly when each of them is a valid identifier.
pub proof fn lemma_segments_verdict(parts: Seq<Seq<char>>)
    ensures
        segments_verdict(parts) is Ok <==> forall|i: int|
            0 <= i < parts.len() ==> is_valid_identifier(#[trigger] parts[i]),
    decreases parts.len(),
{
    if parts.len() > 0 {
        let init = parts.drop_last();
        lemma_segments_verdict(init);
        lemma_verdict_ok(parts.last(), 0, 0);
        if segments_verdict(parts) is Ok {
            assert forall|i: int| 0 <= i < parts.len() implies is_valid_identifier(
                #[trigger] parts[i],
            ) by {
                if i < init.len() {
                    assert(init[i] == parts[i]);
                }
            }
        } else if segments_verdict(init) is Ok {
            assert(!is_valid_identifier(parts[parts.len() - 1]));
        } else {
            let i = choose|i: int| 0 <= i < init.len() && !is_valid_identifier(#[trigger] init[i]);
            assert(init[i] == parts[i]);
        }
    }
}

/// Valid segments hold no separator.
pub proof fn lemma_segments_free_of_separator(parts: Seq<Seq<char>>)
    requires
        are_path_segments(parts),
    ensures
        free_of(parts, SEPARATOR),
{
    assert forall|i: int| 0 <= i < parts.len() implies !(#[trigger] parts[i]).contains(
        SEPARATOR,
    ) by {
        assert(is_valid_identifier(parts[i]));
        lemma_identifier_chars_hold_no_separator(parts[i]);
    }
}

/// Parsing a text and writing the path out again gives the text back.
pub proof fn law_parse_then_write(s: Seq<char>)
    requires
        parse_spec(s) is Ok,
    ensures
        are_path_segments(parse_spec(s)->Ok_0),
        path_text(parse_spec(s)->Ok_0) == s,
{
    lemma_join_split(s, SEPARATOR);
    lemma_split_pieces(s, SEPARATOR);
    lemma_segments_verdict(split(s, SEPARATOR));
}

/// Writing a path out and parsing the text gives the path back.
pub proof fn law_write_then_parse(parts: Seq<Seq<char>>)
    requires
        are_path_segments(parts),
    ensures
        parse_spec(path_text(parts)) is Ok,
        parse_spec(path_text(parts))->Ok_0 == parts,
{
    lemma_segments_free_of_separator(parts);
    lemma_split_join(parts, SEPARATOR);
    lemma_segments_verdict(parts);
}

/// How the path of segments `a` stands to that of `b`: as the bytes of
/// their serialized forms stand in lexicographic order.
pub open spec fn path_rank(a: Seq<Seq<char>>, b: Seq<Seq<char>>) -> Rank {
    lex_rank(encode_utf8(path_text(a)), encode_utf8(path_text(b)))
}

/// Two paths rank equal exactly when they have the same segments.
pub proof fn law_equal_rank_same_path(a: Seq<Seq<char>>, b: Seq<Seq<char>>)
    requires
        are_path_segments(a),
        are_path_segments(b),
    ensures
        path_rank(a, b) is Equal <==> a == b,
{
    broadcast use vstd::utf8::encode_utf8_decode_utf8;

    lemma_lex_rank_equal(encode_utf8(path_text(a)), encode_utf8(path_text(b)));
    law_write_then_parse(a);
    law_write_then_parse(b);
    if encode_utf8(path_text(a)) == encode_utf8(path_text(b)) {
        assert(path_text(a) == decode_utf8(encode_utf8(path_text(a))));
        assert(path_text(b) == decode_utf8(encode_utf8(path_text(b))));
    }
}

/// Whether the path parsed from `a` starts with the path parsed from `b` is
/// whether the bytes of `a` begin with the bytes of `b`: the test knows no
/// segments.
pub proof fn law_starts_with_of_parsed(a: Seq<char>, b: Seq<char>)
    requires
        parse_spec(a) is Ok,
        parse_spec(b) is Ok,
    ensures
        encode_utf8(path_text(parse_spec(b)->Ok_0)).is_prefix_of(
            encode_utf8(path_text(parse_spec(a)->Ok_0)),
        ) == encode_utf8(b).is_prefix_of(encode_utf8(a)),
{
    law_parse_then_write(a);
    law_parse_then_write(b);
}

/// The key prefix of a path that was parsed from a text is that text.
pub proof fn law_key_prefix_of_parsed(s: Seq<char>, p: Path, k: KeyPrefix)
    requires
        parse_spec(s) is Ok,
        p@ == parse_spec(s)->Ok_0,
        k@ == path_text(p@),
    ensures
        k@ == s,
{
    law_parse_then_write(s);
}

/// A single validated segment of a path.
#[derive(Debug, PartialEq, Eq, PartialOrd, Ord)]
pub struct Identifier(String);

impl Clone for Identifier {
    fn clone(&self) -> (r: Self)
        ensures
            r@ == self@,
    {
        proof {
            use_type_invariant(self);
        }
        Identifier(self.0.clone())
    }
}

impl View for Identifier {
    type V = Seq<char>;

    closed spec fn view(&self) -> Seq<char> {
        self.0@
    }
}

impl Identifier {
    #[verifier::type_invariant]
    spec fn valid(self) -> bool {
        is_valid_identifier(self.0@)
    }

    /// Checks that `s` is non-empty and made of identifier characters.
    pub fn validate(s: &str) -> (r: Result<(), ServerError>)
        ensures
            r is Ok <==> is_valid_identifier(s@),
            r matches Err(e) ==> e == ServerError::ValidateIdentifier(free_verdict(s@)->Err_0),
    {
        match validate(s) {
            Ok(()) => Ok(()),
            Err(e) => Err(ServerError::ValidateIdentifier(e)),
        }
    }

    /// Validates `s` and wraps it.
    pub fn construct(s: String) -> (r: Result<Identifier, ServerError>)
        ensures
            r is Ok <==> is_valid_identifier(s@),
            r matches Ok(id) ==> id@ == s@,
            r matches Err(e) ==> e == ServerError::ValidateIdentifier(free_verdict(s@)->Err_0),
    {
        match Identifier::validate(s.as_str()) {
            Ok(()) => Ok(Identifier(s)),
            Err(e) => Err(e),
        }
    }

    /// The text of the identifier.
    pub fn as_str(&self) -> (s: &str)
        ensures
            s@ == self@,
            is_valid_identifier(self@),
    {
        proof {
            use_type_invariant(self);
        }
        self.0.as_str()
    }
}

/// The height at which the store is read.
#[derive(Copy, Clone, Debug, PartialEq, Eq, Structural)]
pub enum StoreHeight {
    /// The newest state.
    Latest,
    /// The state at a given stable height.
    Stable(u64),
}

/// A non-empty sequence of identifiers: a slash-delimited key of the store.
/// Paths are equal and ordered as the bytes of their serialized forms are.
#[derive(Debug)]
pub struct Path(Vec<Identifier>);

impl Clone for Path {
    fn clone(&self) -> (r: Self)
        ensures
            r@ == self@,
    {
        proof {
            use_type_invariant(self);
        }
        let mut identifiers: Vec<Identifier> = Vec::new();
        let n: usize = self.0.len();
        let mut i: usize = 0;
        while i < n
            invariant
                n == self.0@.len(),
                i <= n,
                identifiers@.len() == i,
                forall|j: int| 0 <= j < i ==> (#[trigger] identifiers@[j])@ == self.0@[j]@,
            decreases n - i,
        {
            identifiers.push(self.0[i].clone());
            i = i + 1;
        }
        assert(Seq::new(identifiers@.len(), |i: int| identifiers@[i]@) =~= self@);
        Path(identifiers)
    }
}

impl View for Path {
    type V = Seq<Seq<char>>;

    closed spec fn view(&self) -> Seq<Seq<char>> {
        Seq::new(self.0@.len(), |i: int| self.0@[i]@)
    }
}

impl Path {
    #[verifier::type_invariant]
    spec fn valid(self) -> bool {
        are_path_segments(self@)
    }

    /// Splits `s` on `/` and validates every piece as an identifier.
    pub fn parse(s: &str) -> (r: Result<Path, ServerError>)
        ensures
            r is Ok <==> parse_spec(s@) is Ok,
            r matches Ok(p) ==> p@ == parse_spec(s@)->Ok_0 && are_path_segments(p@) && path_text(p@)
                == s@,
            r matches Err(e) ==> e == parse_spec(s@)->Err_0,
    {
        let parts = split_text(s, SEPARATOR);
        let ghost pieces = split(s@, SEPARATOR);
        let mut identifiers: Vec<Identifier> = Vec::new();
        let n: usize = parts.len();
        let mut i: usize = 0;
        assert(pieces.take(0) =~= Seq::<Seq<char>>::empty());
        while i < n
            invariant
                pieces == split(s@, SEPARATOR),
                texts(parts@) == pieces,
                n == parts.len(),
                i <= n,
                identifiers@.len() == i,
                forall|j: int| 0 <= j < i ==> (#[trigger] identifiers@[j])@ == pieces[j],
                segments_verdict(pieces.take(i as int)) is Ok,
            decreases n - i,
        {
            assert(pieces[i as int] == parts@[i as int]@);
            assert(pieces.take(i + 1).drop_last() =~= pieces.take(i as int));
            assert(pieces.take(i + 1).last() == pieces[i as int]);
            match Identifier::construct(parts[i].clone()) {
                Ok(id) => {
                    proof {
                        lemma_verdict_ok(pieces[i as int], 0, 0);
                    }
                    identifiers.push(id);
                },
                Err(e) => {
                    proof {
                        assert(free_verdict(pieces[i as int]) is Err);
                        assert(segments_verdict(pieces.take(i + 1)) == free_verdict(
                            pieces[i as int],
                        ));
                        lemma_segments_fail_early(pieces, i + 1);
                    }
                    return Err(e);
                },
            }
            i = i + 1;
        }
        proof {
            assert(pieces.take(n as int) =~= pieces);
            assert(Seq::new(identifiers@.len(), |i: int| identifiers@[i]@) =~= pieces);
            law_parse_then_write(s@);
        }
        Ok(Path(identifiers))
    }

    /// Decodes `b` as UTF-8 and parses the text.
    pub fn parse_bytes(b: &[u8]) -> (r: Result<Path, ServerError>)
        ensures
            r is Ok <==> parse_bytes_spec(b@) is Ok,
            r matches Ok(p) ==> p@ == parse_bytes_spec(b@)->Ok_0 && are_path_segments(p@),
            r matches Err(e) ==> e == parse_bytes_spec(b@)->Err_0,
    {
        match utf8_text(b) {
            Some(s) => Path::parse(s),
            None => Err(ServerError::FromUtf8),
        }
    }

    /// The path of the single segment `id`.
    pub fn from_identifier(id: Identifier) -> (p: Path)
        ensures
            p@ == seq![id@],
    {
        proof {
            use_type_invariant(&id);
        }
        let mut identifiers: Vec<Identifier> = Vec::new();
        identifiers.push(id);
        assert(Seq::new(identifiers@.len(), |i: int| identifiers@[i]@) =~= seq![id@]);
        Path(identifiers)
    }

    /// The path of the given segments.
    pub fn from_identifiers(identifiers: Vec<Identifier>) -> (r: Option<Path>)
        ensures
            r is Some <==> identifiers@.len() > 0,
            r matches Some(p) ==> p@ == Seq::new(identifiers@.len(), |i: int| identifiers@[i]@),
    {
        let n: usize = identifiers.len();
        if n == 0 {
            return None;
        }
        let ghost parts = Seq::new(identifiers@.len(), |i: int| identifiers@[i]@);
        let mut i: usize = 0;
        while i < n
            invariant
                n == identifiers@.len(),
                i <= n,
                parts == Seq::new(identifiers@.len(), |i: int| identifiers@[i]@),
                forall|j: int| 0 <= j < i ==> is_valid_identifier(#[trigger] parts[j]),
            decreases n - i,
        {
            let _ = identifiers[i].as_str();
            i = i + 1;
        }
        Some(Path(identifiers))
    }

    /// The number of segments, which is at least one.
    pub fn len(&self) -> (n: usize)
        ensures
            n == self@.len(),
            n >= 1,
            are_path_segments(self@),
    {
        proof {
            use_type_invariant(self);
        }
        self.0.len()
    }

    /// The segment at position `i`.
    pub fn segment(&self, i: usize) -> (id: &Identifier)
        requires
            i < self@.len(),
        ensures
            id@ == self@[i as int],
            is_valid_identifier(id@),
    {
        proof {
            use_type_invariant(self);
        }
        &self.0[i]
    }

    /// The segments joined with `/`.
    pub fn to_string(&self) -> (s: String)
        ensures
            s@ == path_text(self@),
            are_path_segments(self@),
    {
        proof {
            use_type_invariant(self);
        }
        let n: usize = self.0.len();
        let mut out: String = self.0[0].as_str().to_owned();
        let mut i: usize = 1;
        assert(self@.take(1) =~= seq![self@[0]]);
        while i < n
            invariant
                n == self@.len(),
                n == self.0@.len(),
                1 <= i <= n,
                out@ == path_text(self@.take(i as int)),
            decreases n - i,
        {
            assert(self@.take(i + 1).drop_last() =~= self@.take(i as int));
            out.append("/");
            out.append(self.0[i].as_str());
            proof {
                reveal_strlit("/");
                assert("/"@ =~= seq![SEPARATOR]);
                assert(self@.take(i + 1).last() == self.0@[i as int]@);
            }
            i = i + 1;
        }
        assert(self@.take(n as int) =~= self@);
        out
    }

    /// How `self` stands to `other` in the order of paths.
    pub fn compare(&self, other: &Path) -> (r: Rank)
        ensures
            r == path_rank(self@, other@),
    {
        let own = KeyPrefix::from(self);
        let theirs = KeyPrefix::from(other);
        compare_bytes(own.as_bytes(), theirs.as_bytes())
    }

    /// Whether the serialized bytes of `self` begin with those of `prefix`.
    /// The comparison is on bytes, not on whole segments.
    pub fn starts_with(&self, prefix: &Path) -> (r: bool)
        ensures
            r == encode_utf8(path_text(prefix@)).is_prefix_of(encode_utf8(path_text(self@))),
    {
        let own = KeyPrefix::from(self);
        let other = KeyPrefix::from(prefix);
        bytes_start_with(own.as_bytes(), other.as_bytes())
    }
}

/// Calls `core::str::from_utf8`, which gives the text of `b` exactly when `b`
/// is well-formed UTF-8.
#[verifier::external_body]
fn utf8_text(b: &[u8]) -> (r: Option<&str>)
    ensures
        r is Some <==> valid_utf8(b@),
        r matches Some(s) ==> s@ == decode_utf8(b@),
{
    core::str::from_utf8(b).ok()
}

/// Whether `a` begins with `b`.
pub fn bytes_start_with(a: &[u8], b: &[u8]) -> (r: bool)
    ensures
        r == b@.is_prefix_of(a@),
{
    if b.len() > a.len() {
        return false;
    }
    let n: usize = b.len();
    let mut i: usize = 0;
    while i < n
        invariant
            n == b@.len(),
            n <= a@.len(),
            i <= n,
            forall|j: int| 0 <= j < i ==> a@[j] == b@[j],
        decreases n - i,
    {
        if a[i] != b[i] {
            assert(a@.subrange(0, n as int)[i as int] != b@[i as int]);
            return false;
        }
        i = i + 1;
    }
    assert(b@ =~= a@.subrange(0, n as int));
    true
}

/// The serialized form of a path, compared bytewise in prefix scans.
#[derive(Debug, Ord, PartialOrd, Eq, PartialEq, Clone)]
pub struct KeyPrefix(String);

impl View for KeyPrefix {
    type V = Seq<char>;

    closed spec fn view(&self) -> Seq<char> {
        self.0@
    }
}

impl KeyPrefix {
    /// Serializes `path`.
    pub fn from(path: &Path) -> (k: KeyPrefix)
        ensures
            k@ == path_text(path@),
    {
        KeyPrefix(path.to_string())
    }

    /// The bytes that prefix scans compare.
    pub fn as_bytes(&self) -> (b: &[u8])
        ensures
            b@ == encode_utf8(self@),
    {
        self.0.as_str().as_bytes()
    }

    /// The serialized text.
    pub fn to_string(&self) -> (s: String)
        ensures
            s@ == self@,
    {
        self.0.clone()
    }
}

/// A failure among the first `k` segments is the verdict on all of them.
pub proof fn lemma_segments_fail_early(parts: Seq<Seq<char>>, k: int)
    requires
        0 <= k <= parts.len(),
        segments_verdict(parts.take(k)) is Err,
    ensures
        segments_verdict(parts) == segments_verdict(parts.take(k)),
    decreases parts.len() - k,
{
    if k < parts.len() {
        assert(parts.take(k + 1).drop_last() =~= parts.take(k));
        lemma_segments_fail_early(parts, k + 1);
    } else {
        assert(parts.take(k) =~= parts);
    }
}

} // verus!
