//! Walking the keys that the store lists: what each key contributes, and
//! what the walk as a whole returns.

use vstd::prelude::*;
use crate::status::Status;
use crate::types::Path;

verus! {

/// What one listed key contributes to the answer.
pub enum Step<T> {
    /// Nothing: the key is passed over.
    Skip,
    /// One item of the answer.
    Keep(T),
    /// The end of the query, with the reason.
    Fail(Status),
}

impl<T: View> View for Step<T> {
    type V = Step<T::V>;

    open spec fn view(&self) -> Step<T::V> {
        match *self {
            Step::Skip => Step::Skip,
            Step::Keep(item) => Step::Keep(item@),
            Step::Fail(e) => Step::Fail(e),
        }
    }
}

/// The items kept, in order, or the first failure.
pub open spec fn gather<T>(steps: Seq<Step<T>>) -> Result<Seq<T>, Status>
    decreases steps.len(),
{
    if steps.len() == 0 {
        Ok(Seq::empty())
    } else {
        match gather(steps.drop_last()) {
            Err(e) => Err(e),
            Ok(items) => match steps.last() {
                Step::Skip => Ok(items),
                Step::Keep(item) => Ok(items.push(item)),
                Step::Fail(e) => Err(e),
            },
        }
    }
}

/// The views of a sequence of values.
pub open spec fn views<T: View>(v: Seq<T>) -> Seq<T::V> {
    Seq::new(v.len(), |i: int| v[i]@)
}

/// One kind of walk over listed keys: what is asked of the store for a
/// key, and how the key with the reply becomes a step.
pub trait Visit {
    /// What the store replies to the lookup of a key.
    type Reply;

    /// An item of the answer.
    type Item: View;

    /// Whether `reply` is an answer that the store may give to the lookup
    /// that `key` needs. Where the key needs no lookup any reply will do.
    spec fn asked(&self, key: Seq<Seq<char>>, reply: Self::Reply) -> bool;

    /// What `key` contributes, given the reply to its lookup. Where the key
    /// needs no lookup the reply plays no part.
    spec fn step(&self, key: Seq<Seq<char>>, reply: Self::Reply) -> Step<<Self::Item as View>::V>;

    /// Looks `key` up as far as it needs to and says what it contributes.
    /// The reply that the step rests on is handed back for the record.
    fn visit(&self, key: &Path) -> (r: (Step<Self::Item>, Ghost<Self::Reply>))
        ensures
            self.asked(key@, r.1@),
            r.0@ == self.step(key@, r.1@),
    ;
}

/// The steps of a walk over `keys` where the store replies with `replies`.
pub open spec fn steps<V: Visit>(visitor: &V, keys: Seq<Path>, replies: Seq<V::Reply>) -> Seq<
    Step<<V::Item as View>::V>,
> {
    Seq::new(keys.len(), |i: int| visitor.step(keys[i]@, replies[i]))
}

/// Whether every reply is an answer that the store may give to the lookup
/// of the key at its position.
pub open spec fn all_asked<V: Visit>(visitor: &V, keys: Seq<Path>, replies: Seq<V::Reply>) -> bool {
    forall|i: int| 0 <= i < replies.len() ==> visitor.asked(keys[i]@, #[trigger] replies[i])
}

/// Whether `r` is what a walk over `keys` returns where the store gives
/// `replies` to the keys visited, one after another from the first: the
/// first failure, or, where every key was visited and none failed, the
/// items kept in the order of the keys.
pub open spec fn walked<V: Visit>(
    r: Result<Vec<V::Item>, Status>,
    visitor: &V,
    keys: Seq<Path>,
    replies: Seq<V::Reply>,
) -> bool {
    &&& replies.len() <= keys.len()
    &&& all_asked(visitor, keys, replies)
    &&& match gather(steps(visitor, keys.take(replies.len() as int), replies)) {
        Err(e) => r is Err && r->Err_0 == e,
        Ok(items) => r matches Ok(kept) && views(kept@) == items && replies.len() == keys.len(),
    }
}

/// Walks over `keys` in order, visits each and gathers the items kept. The
/// walk ends at the first step that fails.
pub fn walk<V: Visit>(visitor: &V, keys: &Vec<Path>) -> (r: Result<Vec<V::Item>, Status>)
    ensures
        exists|replies: Seq<V::Reply>| #[trigger] walked(r, visitor, keys@, replies),
{
    let n: usize = keys.len();
    let mut items: Vec<V::Item> = Vec::new();
    let ghost mut replies: Seq<V::Reply> = Seq::empty();
    let mut i: usize = 0;
    assert(steps(visitor, keys@.take(0), replies) =~= Seq::empty());
    assert(views(items@) =~= Seq::empty());
    while i < n
        invariant
            n == keys@.len(),
            i <= n,
            replies.len() == i,
            all_asked(visitor, keys@, replies),
            gather(steps(visitor, keys@.take(i as int), replies)) == Ok::<
                Seq<<V::Item as View>::V>,
                Status,
            >(views(items@)),
        decreases n - i,
    {
        let ghost done = steps(visitor, keys@.take(i as int), replies);
        let (step, Ghost(reply)) = visitor.visit(&keys[i]);
        proof {
            let next = steps(visitor, keys@.take(i + 1), replies.push(reply));
            assert(next.drop_last() =~= done);
            assert(next.last() == visitor.step(keys@[i as int]@, reply));
            replies = replies.push(reply);
        }
        match step {
            Step::Skip => {},
            Step::Keep(item) => {
                let ghost before = items@;
                items.push(item);
                assert(views(items@) =~= views(before).push(item@));
            },
            Step::Fail(e) => {
                let r = Err(e);
                assert(walked(r, visitor, keys@, replies));
                return r;
            },
        }
        i = i + 1;
    }
    assert(keys@.take(n as int) =~= keys@);
    let r = Ok(items);
    assert(walked(r, visitor, keys@, replies));
    r
}

} // verus!
