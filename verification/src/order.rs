//! Equality and order of paths, for the operators of the language.

use std::cmp::Ordering;
use vstd::prelude::*;
use vstd::std_specs::cmp::{PartialEqSpecImpl, PartialOrdSpecImpl};
use crate::text::Rank;
use crate::types::{path_rank, Path};

verus! {

impl PartialEq for Path {
    fn eq(&self, other: &Path) -> (r: bool) {
        match self.compare(other) {
            Rank::Equal => true,
            _ => false,
        }
    }
}

impl PartialEqSpecImpl for Path {
    open spec fn obeys_eq_spec() -> bool {
        true
    }

    open spec fn eq_spec(&self, other: &Path) -> bool {
        path_rank(self@, other@) is Equal
    }
}

impl Eq for Path {

}

impl PartialOrd for Path {
    fn partial_cmp(&self, other: &Path) -> (r: Option<Ordering>) {
        match self.compare(other) {
            Rank::Less => Some(Ordering::Less),
            Rank::Equal => Some(Ordering::Equal),
            Rank::Greater => Some(Ordering::Greater),
        }
    }
}

impl PartialOrdSpecImpl for Path {
    open spec fn obeys_partial_cmp_spec() -> bool {
        true
    }

    open spec fn partial_cmp_spec(&self, other: &Path) -> Option<Ordering> {
        match path_rank(self@, other@) {
            Rank::Less => Some(Ordering::Less),
            Rank::Equal => Some(Ordering::Equal),
            Rank::Greater => Some(Ordering::Greater),
        }
    }
}

} // verus!
