//! Allow/deny routing for remote module names.
//!
//! The HTTP resolver consults an optional allow-list and an optional
//! deny-list before it accepts a candidate URL. Both lists hold string
//! prefixes; a candidate matches a list when some entry of the list is a
//! prefix of the candidate.

use vstd::prelude::*;

use crate::strutil::{is_prefix_of, str_has_prefix};

verus! {

/// Some entry of `list` is a prefix of `name`.
pub open spec fn matches_any_prefix(list: Seq<Seq<char>>, name: Seq<char>) -> bool {
    exists|i: int| 0 <= i < list.len() && is_prefix_of(list[i], name)
}

/// A prefix-matching routing table, consulted by the HTTP resolver before a
/// remote module name is accepted.
pub struct RouteList {
    prefixes: Vec<String>,
}

impl RouteList {
    pub closed spec fn view(&self) -> Seq<Seq<char>> {
        self.prefixes@.map_values(|p: String| p@)
    }

    /// An empty routing table.
    pub fn new() -> (r: RouteList)
        ensures
            r@ =~= Seq::<Seq<char>>::empty(),
    {
        RouteList { prefixes: Vec::new() }
    }

    /// Register one more prefix.
    pub fn with_prefix(self, prefix: String) -> (r: RouteList)
        ensures
            r@ =~= self@.push(prefix@),
    {
        let mut prefixes = self.prefixes;
        prefixes.push(prefix);
        RouteList { prefixes }
    }

    /// Does some registered prefix match `name`?
    pub fn matches(&self, name: &str) -> (r: bool)
        ensures
            r == matches_any_prefix(self@, name@),
    {
        let mut i: usize = 0;
        while i < self.prefixes.len()
            invariant
                i <= self.prefixes@.len(),
                self@.len() == self.prefixes@.len(),
                forall|j: int| 0 <= j < self@.len() ==> self@[j] == self.prefixes@[j]@,
                forall|j: int| 0 <= j < i ==> !is_prefix_of(self@[j], name@),
            decreases self.prefixes@.len() - i,
        {
            if str_has_prefix(name, self.prefixes[i].as_str()) {
                assert(is_prefix_of(self@[i as int], name@));
                return true;
            }
            i += 1;
        }
        false
    }
}

} // verus!
