//! What the query services share: heights and pages.

use vstd::prelude::*;
use crate::grammar::{is_word, lemma_words_are_identifiers};
use crate::store::IbcStore;
use crate::types::{Identifier, Path};

verus! {

/// The revision number that every height of this chain carries.
pub const CHAIN_REVISION_NUMBER: u64 = 0;

/// A height of the chain.
#[derive(Clone, Copy, Debug, PartialEq, Eq, Structural)]
pub struct Height {
    pub revision_number: u64,
    pub revision_height: u64,
}

/// Where a paged answer goes on. The queries of this library answer in one
/// page and leave it out.
#[derive(Clone, Debug, PartialEq, Eq)]
pub struct PageResponse {
    pub next_key: Vec<u8>,
    pub total: u64,
}

/// The height stamp of a list answer: the height of the chain at revision 0.
pub fn stamp(revision_height: u64) -> (h: Option<Height>)
    ensures
        h == Some(Height { revision_number: CHAIN_REVISION_NUMBER, revision_height }),
{
    Some(Height { revision_number: CHAIN_REVISION_NUMBER, revision_height })
}

/// Whether `h` is a stamp of the chain of `store`: a height that the store
/// may report, at revision 0.
pub open spec fn is_stamp<Store: IbcStore>(store: &Store, h: Option<Height>) -> bool {
    h matches Some(height) && height.revision_number == CHAIN_REVISION_NUMBER
        && store.height_answer(height.revision_height)
}

/// The identifier of one fixed word of the key grammar.
fn word(text: &str) -> (id: Identifier)
    requires
        is_word(text@),
    ensures
        id@ == text@,
{
    proof {
        lemma_words_are_identifiers();
    }
    Identifier::construct(text.to_owned()).unwrap()
}

/// The key space named by one fixed word.
pub(crate) fn key_space(root: &str) -> (p: Path)
    requires
        is_word(root@),
    ensures
        p@ == seq![root@],
{
    Path::from_identifier(word(root))
}

/// The key space named by two fixed words.
pub(crate) fn key_space_under(root: &str, sub: &str) -> (p: Path)
    requires
        is_word(root@),
        is_word(sub@),
    ensures
        p@ == seq![root@, sub@],
{
    let mut identifiers: Vec<Identifier> = Vec::new();
    identifiers.push(word(root));
    identifiers.push(word(sub));
    let p = Path::from_identifiers(identifiers).unwrap();
    assert(p@ =~= seq![root@, sub@]);
    p
}

} // verus!
