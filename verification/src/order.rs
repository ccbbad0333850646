//! Equality and order of repositories: both go by the path alone.

use std::cmp::Ordering;
use vstd::prelude::*;
use vstd::std_specs::cmp::{PartialEqSpecImpl, PartialOrdSpecImpl};
use crate::repo::Repo;
use crate::util::{compare_paths, path_order};

verus! {

impl PartialEq for Repo {
    /// Whether the two repositories have the same path.
    fn eq(&self, other: &Self) -> (r: bool) {
        compare_paths(self.path.as_str(), other.path.as_str()) == 0
    }
}

impl PartialEqSpecImpl for Repo {
    open spec fn obeys_eq_spec() -> bool {
        true
    }

    open spec fn eq_spec(&self, other: &Self) -> bool {
        path_order(self.path@, other.path@) == 0
    }
}

impl Eq for Repo {

}

impl PartialOrd for Repo {
    /// How the path of this repository stands to the path of the other.
    fn partial_cmp(&self, other: &Self) -> (r: Option<Ordering>) {
        let order = compare_paths(self.path.as_str(), other.path.as_str());
        if order < 0 {
            Some(Ordering::Less)
        } else if order == 0 {
            Some(Ordering::Equal)
        } else {
            Some(Ordering::Greater)
        }
    }
}

impl PartialOrdSpecImpl for Repo {
    open spec fn obeys_partial_cmp_spec() -> bool {
        true
    }

    open spec fn partial_cmp_spec(&self, other: &Self) -> Option<Ordering> {
        if path_order(self.path@, other.path@) < 0 {
            Some(Ordering::Less)
        } else if path_order(self.path@, other.path@) == 0 {
            Some(Ordering::Equal)
        } else {
            Some(Ordering::Greater)
        }
    }
}

} // verus!
