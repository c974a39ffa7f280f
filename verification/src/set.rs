//! A set of watch targets.

use vstd::prelude::*;
use crate::target::{Target, Watch};

verus! {

/// A set of watch targets: the answer of the allowed-set provider.
///
/// The targets are kept in the order in which they were first inserted; a
/// well-formed set holds none twice.
#[derive(Debug)]
pub struct WatchSet {
    items: Vec<Watch>,
}

impl View for WatchSet {
    type V = Set<Target>;

    closed spec fn view(&self) -> Set<Target> {
        self.targets().to_set()
    }
}

impl WatchSet {
    /// The targets in insertion order.
    pub closed spec fn targets(&self) -> Seq<Target> {
        self.items@.map_values(|w: Watch| w@)
    }

    /// No target occurs twice.
    pub closed spec fn wf(&self) -> bool {
        self.targets().no_duplicates()
    }

    /// The empty set.
    pub fn new() -> (set: Self)
        ensures
            set.wf(),
            set@ == Set::<Target>::empty(),
    {
        let set = WatchSet { items: Vec::new() };
        assert(set.targets().to_set() =~= Set::<Target>::empty());
        set
    }

    /// Whether `watch` is a member.
    pub fn contains(&self, watch: &Watch) -> (found: bool)
        ensures
            found == self@.contains(watch@),
    {
        let mut i: usize = 0;
        while i < self.items.len()
            invariant
                i <= self.items.len(),
                forall|j: int| 0 <= j < i ==> self.targets()[j] != watch@,
            decreases self.items.len() - i,
        {
            if self.items[i] == *watch {
                assert(self.targets()[i as int] == watch@);
                assert(self.targets().contains(watch@));
                return true;
            }
            i += 1;
        }
        assert(!self.targets().contains(watch@));
        false
    }

    /// Adds `watch`; says whether it was new. A target that is already a
    /// member leaves the set as it was.
    pub fn insert(&mut self, watch: Watch) -> (added: bool)
        ensures
            final(self)@ == old(self)@.insert(watch@),
            added == !old(self)@.contains(watch@),
            old(self).wf() ==> final(self).wf(),
    {
        if self.contains(&watch) {
            assert(self@ =~= self@.insert(watch@));
            return false;
        }
        let ghost before = self.targets();
        let ghost target = watch@;
        self.items.push(watch);
        proof {
            assert(self.targets() =~= before.push(target));
            assert(self.targets().to_set() =~= before.to_set().insert(target)) by {
                assert forall|t: Target| self.targets().to_set().contains(t) == before.to_set().insert(target).contains(t) by {
                    if before.push(target).contains(t) {
                        let k = choose|k: int| 0 <= k < before.push(target).len() && before.push(target)[k] == t;
                        if k < before.len() {
                            assert(before[k] == t);
                            assert(before.contains(t));
                        }
                    }
                    if before.contains(t) {
                        let k = choose|k: int| 0 <= k < before.len() && before[k] == t;
                        assert(before.push(target)[k] == t);
                    }
                    if t == target {
                        assert(before.push(target)[before.len() as int] == t);
                    }
                }
            }
            if before.no_duplicates() {
                assert forall|a: int, b: int| 0 <= a < b < before.push(target).len() implies before.push(target)[a] != before.push(target)[b] by {
                    if b == before.len() {
                        assert(before.contains(before[a]));
                    }
                }
            }
        }
        true
    }

    /// The number of members.
    pub fn len(&self) -> (count: usize)
        requires
            self.wf(),
        ensures
            count == self@.len(),
    {
        proof {
            self.targets().unique_seq_to_set();
        }
        self.items.len()
    }

    /// The members, in the order in which they were first inserted: each
    /// member, and nothing else; of a well-formed set each member once.
    pub fn to_vec(&self) -> (members: Vec<Watch>)
        ensures
            members@.map_values(|w: Watch| w@) == self.targets(),
            members@.map_values(|w: Watch| w@).to_set() == self@,
            self.wf() ==> members@.map_values(|w: Watch| w@).no_duplicates(),
            self.wf() ==> members.len() == self@.len(),
    {
        proof {
            if self.wf() {
                self.targets().unique_seq_to_set();
            }
        }
        let mut members: Vec<Watch> = Vec::new();
        let mut i: usize = 0;
        while i < self.items.len()
            invariant
                i <= self.items.len(),
                members@.map_values(|w: Watch| w@) == self.targets().take(i as int),
            decreases self.items.len() - i,
        {
            let ghost done = members@.map_values(|w: Watch| w@);
            let member = self.items[i].clone();
            assert(member@ == self.targets()[i as int]);
            members.push(member);
            assert(members@.map_values(|w: Watch| w@) =~= done.push(self.targets()[i as int]));
            assert(done.push(self.targets()[i as int]) =~= self.targets().take(i as int + 1));
            i += 1;
        }
        assert(self.targets().take(i as int) =~= self.targets());
        members
    }
}

} // verus!
