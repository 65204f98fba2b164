use vstd::prelude::*;
use std::collections::HashMap;

verus! {

broadcast use vstd::std_specs::hash::group_hash_axioms;

/// Map from job id to the output of its successful completion.
pub struct ResultStore {
    entries: HashMap<u64, String>,
}

impl ResultStore {
    /// The stored outputs, by job id.
    pub closed spec fn outputs(&self) -> Map<u64, Seq<char>> {
        self.entries@.map_values(|s: String| s@)
    }

    pub fn new() -> (r: ResultStore)
        ensures
            r.outputs() == Map::<u64, Seq<char>>::empty(),
    {
        let r = ResultStore { entries: HashMap::new() };
        assert(r.outputs() =~= Map::<u64, Seq<char>>::empty());
        r
    }

    /// Stores `output` for `id`; a later write for the same id wins.
    pub fn put(&mut self, id: u64, output: String)
        ensures
            final(self).outputs() == old(self).outputs().insert(id, output@),
    {
        let ghost o = output@;
        self.entries.insert(id, output);
        assert(self.outputs() =~= old(self).outputs().insert(id, o));
    }

    /// The stored output for `id`; `None` for an unfinished or unknown job.
    pub fn get(&self, id: u64) -> (r: Option<String>)
        ensures
            match r {
                Some(s) => self.outputs().contains_key(id) && s@ == self.outputs()[id],
                None => !self.outputs().contains_key(id),
            },
    {
        match self.entries.get(&id) {
            Some(s) => Some(s.clone()),
            None => None,
        }
    }
}

} // verus!
