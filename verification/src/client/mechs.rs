//! A set of mechanisms, as the server offers it.

use std::collections::BTreeSet;
use vstd::prelude::*;
use crate::client::proto::AuthMech;

verus! {

broadcast use {vstd::laws_cmp::group_laws_cmp, vstd::std_specs::btree::group_btree_axioms};

/// A set of mechanisms. It is kept as the ordered set of their ranks.
#[derive(Clone, Debug, PartialEq, Eq)]
pub struct MechSet {
    ranks: BTreeSet<u8>,
}

impl View for MechSet {
    type V = Set<AuthMech>;

    /// The mechanisms whose rank the set holds.
    closed spec fn view(&self) -> Set<AuthMech> {
        Set::new(|m: AuthMech| self.ranks@.contains(m.spec_rank()))
    }
}

impl MechSet {
    /// The empty set.
    pub fn new() -> (set: MechSet)
        ensures
            set@ == Set::<AuthMech>::empty(),
    {
        let set = MechSet { ranks: BTreeSet::new() };
        assert(set@ =~= Set::<AuthMech>::empty());
        set
    }

    /// Adds a mechanism, and says whether it was new to the set.
    pub fn insert(&mut self, mech: AuthMech) -> (fresh: bool)
        ensures
            final(self)@ == old(self)@.insert(mech),
            fresh == !old(self)@.contains(mech),
    {
        let fresh = self.ranks.insert(mech.rank());
        assert(self@ =~= old(self)@.insert(mech));
        fresh
    }

    /// Whether the set holds a mechanism.
    pub fn contains(&self, mech: AuthMech) -> (found: bool)
        ensures
            found == self@.contains(mech),
    {
        let rank = mech.rank();
        self.ranks.contains(&rank)
    }

    /// The set of the mechanisms in a list.
    pub fn from_mechs(mechs: &Vec<AuthMech>) -> (set: MechSet)
        ensures
            set@ == mechs@.to_set(),
    {
        let mut set = MechSet::new();
        let mut i: usize = 0;
        while i < mechs.len()
            invariant
                i <= mechs.len(),
                set@ == mechs@.take(i as int).to_set(),
            decreases mechs.len() - i,
        {
            set.insert(mechs[i]);
            proof {
                assert(mechs@.take(i + 1) =~= mechs@.take(i as int).push(mechs@[i as int]));
                mechs@.take(i as int).lemma_push_to_set_commute(mechs@[i as int]);
            }
            i += 1;
        }
        assert(mechs@.take(i as int) =~= mechs@);
        set
    }
}

} // verus!
