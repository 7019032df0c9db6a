//! Splitting and joining text on a separator.

use vstd::prelude::*;
use vstd::string::{StrSliceExecFns, StringExecFns, StringSliceAdditionalSpecFns};

verus! {

/// The pieces of `s` between occurrences of `sep`. There is always at least
/// one piece; an empty string has the single empty piece.
pub open spec fn split(s: Seq<char>, sep: char) -> Seq<Seq<char>>
    decreases s.len(),
{
    if s.len() == 0 {
        seq![Seq::empty()]
    } else {
        let before = split(s.drop_last(), sep);
        if s.last() == sep {
            before.push(Seq::empty())
        } else {
            before.update(before.len() - 1, before.last().push(s.last()))
        }
    }
}

/// The pieces written one after another with `sep` between neighbours.
pub open spec fn join(parts: Seq<Seq<char>>, sep: char) -> Seq<char>
    decreases parts.len(),
{
    if parts.len() == 0 {
        Seq::empty()
    } else if parts.len() == 1 {
        parts[0]
    } else {
        join(parts.drop_last(), sep) + seq![sep] + parts.last()
    }
}

/// Whether no piece holds the separator.
pub open spec fn free_of(parts: Seq<Seq<char>>, sep: char) -> bool {
    forall|i: int| 0 <= i < parts.len() ==> !(#[trigger] parts[i]).contains(sep)
}

/// The views of a sequence of strings.
pub open spec fn texts(v: Seq<String>) -> Seq<Seq<char>> {
    Seq::new(v.len(), |i: int| v[i]@)
}

/// Splitting yields at least one piece, and no piece holds the separator.
pub proof fn lemma_split_pieces(s: Seq<char>, sep: char)
    ensures
        split(s, sep).len() >= 1,
        free_of(split(s, sep), sep),
    decreases s.len(),
{
    if s.len() > 0 {
        lemma_split_pieces(s.drop_last(), sep);
        let before = split(s.drop_last(), sep);
        if s.last() != sep {
            let piece = before.last().push(s.last());
            assert forall|i: int| 0 <= i < split(s, sep).len() implies !(#[trigger] split(
                s,
                sep,
            )[i]).contains(sep) by {
                if i == before.len() - 1 {
                    assert(!before[i].contains(sep));
                    assert forall|j: int| 0 <= j < piece.len() implies piece[j] != sep by {
                        if j < before[i].len() {
                            assert(before[i][j] == piece[j]);
                            assert(before[i].contains(piece[j]));
                        }
                    }
                } else {
                    assert(split(s, sep)[i] == before[i]);
                }
            }
        } else {
            assert forall|i: int| 0 <= i < split(s, sep).len() implies !(#[trigger] split(
                s,
                sep,
            )[i]).contains(sep) by {
                if i < before.len() {
                    assert(split(s, sep)[i] == before[i]);
                }
            }
        }
    } else {
        assert(split(s, sep)[0] =~= Seq::<char>::empty());
    }
}

/// Joining the pieces of a text gives the text back.
pub proof fn lemma_join_split(s: Seq<char>, sep: char)
    ensures
        join(split(s, sep), sep) == s,
    decreases s.len(),
{
    if s.len() == 0 {
        assert(split(s, sep).len() == 1);
        assert(join(split(s, sep), sep) =~= s);
    } else {
        lemma_join_split(s.drop_last(), sep);
        lemma_split_pieces(s.drop_last(), sep);
        let before = split(s.drop_last(), sep);
        let parts = split(s, sep);
        if s.last() == sep {
            assert(parts.drop_last() =~= before);
            assert(join(parts, sep) =~= s.drop_last() + seq![sep] + Seq::<char>::empty());
            assert(join(parts, sep) =~= s);
        } else {
            if before.len() == 1 {
                assert(join(parts, sep) =~= s.drop_last().push(s.last()));
            } else {
                assert(parts.drop_last() =~= before.drop_last());
                assert(join(parts, sep) =~= join(before, sep).push(s.last()));
            }
            assert(s.drop_last().push(s.last()) =~= s);
        }
    }
}

/// Splitting what follows a separator-free tail: the tail is the last piece.
pub proof fn lemma_split_tail(head: Seq<char>, tail: Seq<char>, sep: char)
    requires
        !tail.contains(sep),
    ensures
        split(head + seq![sep] + tail, sep) == split(head, sep).push(tail),
    decreases tail.len(),
{
    let whole = head + seq![sep] + tail;
    if tail.len() == 0 {
        assert(whole.drop_last() =~= head);
        assert(tail =~= Seq::<char>::empty());
    } else {
        let shorter = tail.drop_last();
        assert forall|j: int| 0 <= j < shorter.len() implies shorter[j] != sep by {
            assert(tail[j] == shorter[j]);
            assert(tail.contains(shorter[j]));
        }
        lemma_split_tail(head, shorter, sep);
        assert(whole.drop_last() =~= head + seq![sep] + shorter);
        assert(whole.last() == tail.last());
        assert(tail.contains(tail.last()));
        let before = split(whole.drop_last(), sep);
        assert(before == split(head, sep).push(shorter));
        assert(shorter.push(tail.last()) =~= tail);
        assert(before.update(before.len() - 1, before.last().push(whole.last())) =~= split(
            head,
            sep,
        ).push(tail));
    }
}

/// Splitting a separator-free text gives the text as its only piece.
pub proof fn lemma_split_single(s: Seq<char>, sep: char)
    requires
        !s.contains(sep),
    ensures
        split(s, sep) == seq![s],
    decreases s.len(),
{
    if s.len() == 0 {
        assert(s =~= Seq::<char>::empty());
    } else {
        let shorter = s.drop_last();
        assert forall|j: int| 0 <= j < shorter.len() implies shorter[j] != sep by {
            assert(s[j] == shorter[j]);
            assert(s.contains(shorter[j]));
        }
        lemma_split_single(shorter, sep);
        assert(s.contains(s.last()));
        assert(shorter.push(s.last()) =~= s);
        let before = split(shorter, sep);
        assert(before.len() == 1 && before.last() == shorter);
        assert(before.update(0, shorter.push(s.last())) =~= seq![s]);
    }
}

/// Splitting the join of separator-free pieces gives the pieces back.
pub proof fn lemma_split_join(parts: Seq<Seq<char>>, sep: char)
    requires
        parts.len() >= 1,
        free_of(parts, sep),
    ensures
        split(join(parts, sep), sep) == parts,
    decreases parts.len(),
{
    if parts.len() == 1 {
        lemma_split_single(parts[0], sep);
        assert(seq![parts[0]] =~= parts);
    } else {
        let init = parts.drop_last();
        assert forall|i: int| 0 <= i < init.len() implies !(#[trigger] init[i]).contains(sep) by {
            assert(init[i] == parts[i]);
        }
        lemma_split_join(init, sep);
        lemma_split_tail(join(init, sep), parts.last(), sep);
        assert(init.push(parts.last()) =~= parts);
    }
}

/// The characters of a string slice, in order.
pub fn chars_of(s: &str) -> (v: Vec<char>)
    ensures
        v@ == s@,
{
    let mut v: Vec<char> = Vec::new();
    for c in it: s.chars()
        invariant
            it.seq() == s@,
            v@ == it.seq().take(it.index()),
    {
        v.push(c);
        assert(it.seq().take(it.index() + 1) == it.seq().take(it.index()).push(c));
    }
    v
}

/// Splits `s` at every occurrence of `sep`.
pub fn split_text(s: &str, sep: char) -> (parts: Vec<String>)
    ensures
        texts(parts@) == split(s@, sep),
{
    let chars = chars_of(s);
    let n: usize = chars.len();
    let mut parts: Vec<String> = Vec::new();
    let mut start: usize = 0;
    let mut i: usize = 0;
    assert(s@.take(0) =~= Seq::<char>::empty());
    assert(texts(parts@).push(s@.subrange(0, 0)) =~= split(s@.take(0), sep));
    while i < n
        invariant
            chars@ == s@,
            n == chars.len(),
            start <= i <= n,
            texts(parts@).push(s@.subrange(start as int, i as int)) == split(
                s@.take(i as int),
                sep,
            ),
        decreases n - i,
    {
        let ghost prefix = s@.take(i as int);
        let ghost next = s@.take(i + 1);
        assert(next.drop_last() =~= prefix);
        assert(next.last() == s@[i as int]);
        if chars[i] == sep {
            let piece = s.substring_char(start, i).to_owned();
            let ghost old_parts = parts@;
            parts.push(piece);
            assert(texts(parts@) =~= texts(old_parts).push(s@.subrange(start as int, i as int)));
            start = i + 1;
            assert(s@.subrange(start as int, i + 1) =~= Seq::<char>::empty());
        } else {
            assert(s@.subrange(start as int, i + 1) =~= s@.subrange(start as int, i as int).push(
                s@[i as int],
            ));
            let ghost before = split(prefix, sep);
            assert(texts(parts@).push(s@.subrange(start as int, i + 1)) =~= before.update(
                before.len() - 1,
                before.last().push(s@[i as int]),
            ));
        }
        i = i + 1;
    }
    assert(s@.take(n as int) =~= s@);
    let piece = s.substring_char(start, n).to_owned();
    let ghost old_parts = parts@;
    parts.push(piece);
    assert(texts(parts@) =~= texts(old_parts).push(s@.subrange(start as int, n as int)));
    parts
}

/// Whether two texts are the same.
pub fn same_text(a: &str, b: &str) -> (r: bool)
    ensures
        r == (a@ == b@),
{
    broadcast use vstd::utf8::encode_utf8_decode_utf8;

    let x = a.as_bytes();
    let y = b.as_bytes();
    if x.len() != y.len() {
        return false;
    }
    let n: usize = x.len();
    let mut i: usize = 0;
    while i < n
        invariant
            x@ == a.spec_bytes(),
            y@ == b.spec_bytes(),
            n == x@.len(),
            n == y@.len(),
            i <= n,
            forall|j: int| 0 <= j < i ==> x@[j] == y@[j],
        decreases n - i,
    {
        if x[i] != y[i] {
            return false;
        }
        i = i + 1;
    }
    assert(x@ =~= y@);
    assert(a@ == vstd::utf8::decode_utf8(vstd::utf8::encode_utf8(a@)));
    assert(b@ == vstd::utf8::decode_utf8(vstd::utf8::encode_utf8(b@)));
    true
}

/// Writes the pieces one after another with `sep` between neighbours.
pub(crate) fn join_text(parts: &Vec<String>, sep: &str) -> (s: String)
    requires
        sep@.len() == 1,
    ensures
        s@ == join(texts(parts@), sep@[0]),
{
    let n: usize = parts.len();
    let mut out: String = String::new();
    if n == 0 {
        return out;
    }
    out.append(parts[0].as_str());
    let ghost pieces = texts(parts@);
    assert(pieces.take(1) =~= seq![pieces[0]]);
    assert(out@ =~= pieces[0]);
    let mut i: usize = 1;
    while i < n
        invariant
            n == parts@.len(),
            pieces == texts(parts@),
            sep@.len() == 1,
            1 <= i <= n,
            out@ == join(pieces.take(i as int), sep@[0]),
        decreases n - i,
    {
        assert(pieces.take(i + 1).drop_last() =~= pieces.take(i as int));
        assert(pieces.take(i + 1).last() == parts@[i as int]@);
        assert(sep@ =~= seq![sep@[0]]);
        out.append(sep);
        out.append(parts[i].as_str());
        i = i + 1;
    }
    assert(pieces.take(n as int) =~= pieces);
    out
}

/// How one text stands to another in an order.
#[derive(Clone, Copy, Debug, PartialEq, Eq, Structural)]
pub enum Rank {
    Less,
    Equal,
    Greater,
}

/// How `a` stands to `b` in lexicographic order: by the first position at
/// which they differ, a proper prefix coming first.
pub open spec fn lex_rank(a: Seq<u8>, b: Seq<u8>) -> Rank
    decreases a.len(),
{
    if a.len() == 0 {
        if b.len() == 0 {
            Rank::Equal
        } else {
            Rank::Less
        }
    } else if b.len() == 0 {
        Rank::Greater
    } else if a[0] < b[0] {
        Rank::Less
    } else if a[0] > b[0] {
        Rank::Greater
    } else {
        lex_rank(a.drop_first(), b.drop_first())
    }
}

/// Two byte strings rank equal exactly when they are the same.
pub proof fn lemma_lex_rank_equal(a: Seq<u8>, b: Seq<u8>)
    ensures
        lex_rank(a, b) is Equal <==> a == b,
    decreases a.len(),
{
    if a.len() > 0 && b.len() > 0 {
        lemma_lex_rank_equal(a.drop_first(), b.drop_first());
        if a == b {
            assert(a.drop_first() == b.drop_first());
        }
        if a[0] == b[0] && a.drop_first() == b.drop_first() {
            assert(a =~= seq![a[0]] + a.drop_first());
            assert(b =~= seq![b[0]] + b.drop_first());
        }
    } else if a.len() == 0 && b.len() == 0 {
        assert(a =~= b);
    }
}

/// Compares two byte strings in lexicographic order.
pub fn compare_bytes(a: &[u8], b: &[u8]) -> (r: Rank)
    ensures
        r == lex_rank(a@, b@),
{
    let n: usize = if a.len() < b.len() {
        a.len()
    } else {
        b.len()
    };
    let mut i: usize = 0;
    assert(a@.skip(0) =~= a@ && b@.skip(0) =~= b@);
    while i < n
        invariant
            n <= a@.len(),
            n <= b@.len(),
            n == a@.len() || n == b@.len(),
            i <= n,
            lex_rank(a@, b@) == lex_rank(a@.skip(i as int), b@.skip(i as int)),
        decreases n - i,
    {
        assert(a@.skip(i as int)[0] == a@[i as int] && b@.skip(i as int)[0] == b@[i as int]);
        assert(a@.skip(i as int).drop_first() =~= a@.skip(i + 1));
        assert(b@.skip(i as int).drop_first() =~= b@.skip(i + 1));
        if a[i] < b[i] {
            return Rank::Less;
        }
        if a[i] > b[i] {
            return Rank::Greater;
        }
        i = i + 1;
    }
    if a.len() < b.len() {
        Rank::Less
    } else if a.len() > b.len() {
        Rank::Greater
    } else {
        Rank::Equal
    }
}

} // verus!
