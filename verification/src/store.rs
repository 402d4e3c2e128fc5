//! The proposal store: a map from identifiers to proposal records.

use vstd::prelude::*;
use std::collections::HashMap;
use crate::proposal::{Proposal, ProposalView};

verus! {

broadcast use vstd::std_specs::hash::group_hash_axioms;

/// Holds every proposal record under its identifier. Its view is the map
/// from each identifier in use to the model of its record.
#[derive(Debug)]
pub struct ProposalStore {
    records: HashMap<u32, Proposal>,
}

impl View for ProposalStore {
    type V = Map<u32, ProposalView>;

    closed spec fn view(&self) -> Map<u32, ProposalView> {
        Map::new(|id: u32| self.records@.contains_key(id), |id: u32| self.records@[id]@)
    }
}

impl ProposalStore {
    /// A store that holds nothing.
    pub fn new() -> (r: ProposalStore)
        ensures
            r@ == Map::<u32, ProposalView>::empty(),
    {
        let r = ProposalStore { records: HashMap::new() };
        assert(r@ =~= Map::<u32, ProposalView>::empty());
        r
    }

    /// A copy of the record stored under `id`, if there is one.
    pub fn get(&self, id: u32) -> (r: Option<Proposal>)
        ensures
            match r {
                Some(p) => self@.contains_key(id) && p@ == self@[id],
                None => !self@.contains_key(id),
            },
    {
        match self.records.get(&id) {
            Some(p) => Some(p.duplicate()),
            None => None,
        }
    }

    /// Stores `proposal` under `id`, in place of any record that was there.
    pub fn insert(&mut self, id: u32, proposal: Proposal)
        ensures
            final(self)@ == old(self)@.insert(id, proposal@),
    {
        self.records.insert(id, proposal);
        assert(self@ =~= old(self)@.insert(id, proposal@));
    }
}

} // verus!
