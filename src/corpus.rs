//! The bounded store of seeds that the fuzzer mutates.
//!
//! Entries carry a stable id, their accumulated votes and how often they were
//! picked. When an insertion takes the store past its drop threshold, the
//! lowest-scoring entries are removed until `drop_threshold - prune_amount`
//! remain. An entry visited fewer than `visit_ignore_threshold` times scores
//! half its votes, so fresh entries do not crowd out proven ones; they are
//! not otherwise protected from eviction.
use vstd::prelude::*;

verus! {

/// A seed's metadata; its payload is kept by the caller under `id`.
#[derive(Clone, Copy, Debug)]
pub struct CorpusEntry {
    pub id: u64,
    pub votes: u64,
    pub visit_count: u64,
}

/// The ranking score of an entry.
pub open spec fn spec_score(e: CorpusEntry, visit_ignore_threshold: u64) -> nat {
    if e.visit_count >= visit_ignore_threshold {
        e.votes as nat
    } else {
        e.votes as nat / 2
    }
}

/// How many entries remain after pruning.
pub open spec fn spec_prune_target(drop_threshold: usize, prune_amount: usize) -> nat {
    if drop_threshold >= prune_amount {
        (drop_threshold - prune_amount) as nat
    } else {
        0
    }
}

/// Every entry of `before` either is still in `after` or scores no higher
/// than every entry of `after`.
pub open spec fn spec_dropped_lowest(before: Seq<CorpusEntry>, after: Seq<CorpusEntry>, ignore: u64) -> bool {
    forall|e: CorpusEntry|
        #[trigger] before.contains(e) ==> after.contains(e) || (forall|k: CorpusEntry|
            #[trigger] after.contains(k) ==> spec_score(e, ignore) <= spec_score(k, ignore))
}

/// Every entry of `after` comes from `before`.
pub open spec fn spec_kept_from(before: Seq<CorpusEntry>, after: Seq<CorpusEntry>) -> bool {
    forall|k: CorpusEntry| #[trigger] after.contains(k) ==> before.contains(k)
}

/// The corpus: entries in insertion order, and its pruning parameters.
pub struct CorpusStore {
    entries: Vec<CorpusEntry>,
    next_id: u64,
    drop_threshold: usize,
    prune_amount: usize,
    visit_ignore_threshold: u64,
}

impl CorpusStore {
    pub closed spec fn spec_entries(&self) -> Seq<CorpusEntry> {
        self.entries@
    }

    pub closed spec fn spec_next_id(&self) -> u64 {
        self.next_id
    }

    pub closed spec fn spec_drop_threshold(&self) -> usize {
        self.drop_threshold
    }

    pub closed spec fn spec_prune_amount(&self) -> usize {
        self.prune_amount
    }

    pub closed spec fn spec_visit_ignore_threshold(&self) -> u64 {
        self.visit_ignore_threshold
    }

    /// The store never holds more than its drop threshold, and every id is
    /// below the next one to hand out, so no id is reused.
    pub closed spec fn wf(&self) -> bool {
        &&& self.entries@.len() <= self.drop_threshold
        &&& forall|i: int| 0 <= i < self.entries@.len() ==> #[trigger] self.entries@[i].id < self.next_id
    }

    /// An empty store with the given pruning parameters.
    pub fn new(drop_threshold: usize, prune_amount: usize, visit_ignore_threshold: u64) -> (r: CorpusStore)
        ensures
            r.wf(),
            r.spec_entries() == Seq::<CorpusEntry>::empty(),
            r.spec_next_id() == 0,
            r.spec_drop_threshold() == drop_threshold,
            r.spec_prune_amount() == prune_amount,
            r.spec_visit_ignore_threshold() == visit_ignore_threshold,
    {
        CorpusStore { entries: Vec::new(), next_id: 0, drop_threshold, prune_amount, visit_ignore_threshold }
    }

    pub fn len(&self) -> (r: usize)
        ensures
            r == self.spec_entries().len(),
    {
        self.entries.len()
    }

    /// The entry at position `i`, in insertion order.
    pub fn get(&self, i: usize) -> (r: CorpusEntry)
        requires
            i < self.spec_entries().len(),
        ensures
            r == self.spec_entries()[i as int],
    {
        self.entries[i]
    }

    /// The ranking score of an entry.
    pub fn score(&self, e: &CorpusEntry) -> (r: u64)
        ensures
            r == spec_score(*e, self.spec_visit_ignore_threshold()),
    {
        if e.visit_count >= self.visit_ignore_threshold {
            e.votes
        } else {
            e.votes / 2
        }
    }

    /// Position of a lowest-scoring entry; among equals the latest one, so
    /// that earlier insertions survive ties.
    fn lowest_index(&self) -> (r: usize)
        requires
            self.entries@.len() > 0,
        ensures
            r < self.entries@.len(),
            forall|j: int|
                0 <= j < self.entries@.len() ==> spec_score(self.entries@[r as int], self.visit_ignore_threshold)
                    <= spec_score(#[trigger] self.entries@[j], self.visit_ignore_threshold),
    {
        let mut m: usize = 0;
        let mut best = self.score(&self.entries[0]);
        let mut j: usize = 1;
        while j < self.entries.len()
            invariant
                1 <= j <= self.entries@.len(),
                m < j,
                best == spec_score(self.entries@[m as int], self.visit_ignore_threshold),
                forall|i: int|
                    0 <= i < j ==> best <= spec_score(#[trigger] self.entries@[i], self.visit_ignore_threshold),
            decreases self.entries@.len() - j,
        {
            let s = self.score(&self.entries[j]);
            if s <= best {
                m = j;
                best = s;
            }
            j = j + 1;
        }
        m
    }

    /// Removes lowest-scoring entries until at most
    /// `drop_threshold - prune_amount` remain (none when the store is no
    /// larger than that). Kept entries stay in insertion order.
    pub fn prune(&mut self)
        ensures
            final(self).spec_entries().len() == if old(self).spec_entries().len() <= spec_prune_target(
                old(self).spec_drop_threshold(),
                old(self).spec_prune_amount(),
            ) {
                old(self).spec_entries().len() as nat
            } else {
                spec_prune_target(old(self).spec_drop_threshold(), old(self).spec_prune_amount())
            },
            old(self).spec_entries().len() <= spec_prune_target(
                old(self).spec_drop_threshold(),
                old(self).spec_prune_amount(),
            ) ==> final(self).spec_entries() == old(self).spec_entries(),
            spec_kept_from(old(self).spec_entries(), final(self).spec_entries()),
            spec_dropped_lowest(
                old(self).spec_entries(),
                final(self).spec_entries(),
                old(self).spec_visit_ignore_threshold(),
            ),
            final(self).spec_next_id() == old(self).spec_next_id(),
            final(self).spec_drop_threshold() == old(self).spec_drop_threshold(),
            final(self).spec_prune_amount() == old(self).spec_prune_amount(),
            final(self).spec_visit_ignore_threshold() == old(self).spec_visit_ignore_threshold(),
    {
        let target: usize = if self.drop_threshold >= self.prune_amount {
            self.drop_threshold - self.prune_amount
        } else {
            0
        };
        let ghost before = self.entries@;
        let ghost ignore = self.visit_ignore_threshold;
        while self.entries.len() > target
            invariant
                target == spec_prune_target(old(self).drop_threshold, old(self).prune_amount),
                self.next_id == old(self).next_id,
                self.drop_threshold == old(self).drop_threshold,
                self.prune_amount == old(self).prune_amount,
                self.visit_ignore_threshold == ignore,
                ignore == old(self).visit_ignore_threshold,
                before == old(self).entries@,
                before.len() <= target ==> self.entries@ == before,
                before.len() > target ==> self.entries@.len() >= target,
                spec_kept_from(before, self.entries@),
                spec_dropped_lowest(before, self.entries@, ignore),
            decreases self.entries@.len(),
        {
            let m = self.lowest_index();
            let ghost cur = self.entries@;
            let ghost low = cur[m as int];
            self.entries.remove(m);
            proof {
                let next = self.entries@;
                assert(next == cur.remove(m as int));
                cur.remove_ensures(m as int);
                assert forall|k: CorpusEntry| #[trigger] next.contains(k) implies cur.contains(k) by {
                    let j = choose|j: int| 0 <= j < next.len() && next[j] == k;
                    if j < m {
                        assert(cur[j] == k);
                    } else {
                        assert(cur[j + 1] == k);
                    }
                }
                assert forall|e: CorpusEntry| #[trigger] before.contains(e) implies next.contains(e) || (
                forall|k: CorpusEntry| #[trigger] next.contains(k) ==> spec_score(e, ignore) <= spec_score(
                    k,
                    ignore,
                )) by {
                    if cur.contains(e) {
                        let j = choose|j: int| 0 <= j < cur.len() && cur[j] == e;
                        if j < m {
                            assert(next[j] == e);
                        } else if j > m {
                            assert(next[j - 1] == e);
                        } else {
                            assert forall|k: CorpusEntry| #[trigger] next.contains(k) implies spec_score(
                                e,
                                ignore,
                            ) <= spec_score(k, ignore) by {
                                assert(cur.contains(k));
                                let i = choose|i: int| 0 <= i < cur.len() && cur[i] == k;
                                assert(spec_score(cur[m as int], ignore) <= spec_score(cur[i], ignore));
                            }
                        }
                    } else {
                        assert forall|k: CorpusEntry| #[trigger] next.contains(k) implies spec_score(
                            e,
                            ignore,
                        ) <= spec_score(k, ignore) by {
                            assert(cur.contains(k));
                        }
                    }
                }
            }
        }
    }

    /// Adds an entry with the given votes, never visited, and returns its
    /// id. When the store was already at its drop threshold it is pruned
    /// afterwards; below the threshold nothing is removed.
    pub fn insert(&mut self, votes: u64) -> (id: u64)
        requires
            old(self).wf(),
            old(self).spec_next_id() < u64::MAX,
        ensures
            final(self).wf(),
            id == old(self).spec_next_id(),
            final(self).spec_next_id() == id + 1,
            old(self).spec_entries().len() < old(self).spec_drop_threshold() ==> final(self).spec_entries()
                == old(self).spec_entries().push(CorpusEntry { id, votes, visit_count: 0 }),
            old(self).spec_entries().len() >= old(self).spec_drop_threshold() ==> final(self).spec_entries().len()
                == spec_prune_target(
                old(self).spec_drop_threshold(),
                old(self).spec_prune_amount(),
            ),
            spec_kept_from(
                old(self).spec_entries().push(CorpusEntry { id, votes, visit_count: 0 }),
                final(self).spec_entries(),
            ),
            spec_dropped_lowest(
                old(self).spec_entries().push(CorpusEntry { id, votes, visit_count: 0 }),
                final(self).spec_entries(),
                old(self).spec_visit_ignore_threshold(),
            ),
            final(self).spec_drop_threshold() == old(self).spec_drop_threshold(),
            final(self).spec_prune_amount() == old(self).spec_prune_amount(),
            final(self).spec_visit_ignore_threshold() == old(self).spec_visit_ignore_threshold(),
    {
        let id = self.next_id;
        let entry = CorpusEntry { id, votes, visit_count: 0 };
        self.entries.push(entry);
        self.next_id = id + 1;
        let ghost pushed = self.entries@;
        if self.entries.len() > self.drop_threshold {
            self.prune();
        }
        proof {
            assert forall|i: int| 0 <= i < self.entries@.len() implies #[trigger] self.entries@[i].id
                < self.next_id by {
                assert(self.entries@.contains(self.entries@[i]));
                assert(pushed.contains(self.entries@[i]));
                let j = choose|j: int| 0 <= j < pushed.len() && pushed[j] == self.entries@[i];
                if j < old(self).entries@.len() {
                    assert(pushed[j] == old(self).entries@[j]);
                }
            }
        }
        id
    }

    /// Adds `delta` votes, saturating, to the entry with the given id.
    /// Returns whether such an entry exists.
    pub fn vote(&mut self, id: u64, delta: u64) -> (found: bool)
        requires
            old(self).wf(),
        ensures
            final(self).wf(),
            final(self).spec_entries().len() == old(self).spec_entries().len(),
            found == exists|i: int| 0 <= i < old(self).spec_entries().len() && old(self).spec_entries()[i].id == id,
            forall|i: int|
                0 <= i < old(self).spec_entries().len() ==> {
                    let e = #[trigger] old(self).spec_entries()[i];
                    final(self).spec_entries()[i] == if e.id == id {
                        CorpusEntry {
                            votes: if e.votes + delta <= u64::MAX { (e.votes + delta) as u64 } else { u64::MAX },
                            ..e
                        }
                    } else {
                        e
                    }
                },
            final(self).spec_next_id() == old(self).spec_next_id(),
            final(self).spec_drop_threshold() == old(self).spec_drop_threshold(),
            final(self).spec_prune_amount() == old(self).spec_prune_amount(),
            final(self).spec_visit_ignore_threshold() == old(self).spec_visit_ignore_threshold(),
    {
        let mut found = false;
        let mut i: usize = 0;
        while i < self.entries.len()
            invariant
                i <= self.entries@.len(),
                self.entries@.len() == old(self).entries@.len(),
                self.next_id == old(self).next_id,
                self.drop_threshold == old(self).drop_threshold,
                self.prune_amount == old(self).prune_amount,
                self.visit_ignore_threshold == old(self).visit_ignore_threshold,
                found == exists|j: int| 0 <= j < i && old(self).entries@[j].id == id,
                forall|j: int|
                    i <= j < self.entries@.len() ==> self.entries@[j] == old(self).entries@[j],
                forall|j: int|
                    0 <= j < i ==> {
                        let e = #[trigger] old(self).entries@[j];
                        self.entries@[j] == if e.id == id {
                            CorpusEntry {
                                votes: if e.votes + delta <= u64::MAX { (e.votes + delta) as u64 } else { u64::MAX },
                                ..e
                            }
                        } else {
                            e
                        }
                    },
            decreases self.entries@.len() - i,
        {
            let e = self.entries[i];
            if e.id == id {
                let votes = e.votes.saturating_add(delta);
                self.entries.set(i, CorpusEntry { votes, ..e });
                found = true;
            }
            i = i + 1;
        }
        assert forall|j: int| 0 <= j < self.entries@.len() implies #[trigger] self.entries@[j].id
            < self.next_id by {
            assert(old(self).entries@[j].id < old(self).next_id);
        }
        assert(i == old(self).entries@.len());
        assert(found == exists|j: int| 0 <= j < old(self).entries@.len() && old(self).entries@[j].id == id);
        found
    }

    /// Counts one more selection, saturating, of the entry with the given id.
    /// Returns whether such an entry exists.
    pub fn visit(&mut self, id: u64) -> (found: bool)
        requires
            old(self).wf(),
        ensures
            final(self).wf(),
            final(self).spec_entries().len() == old(self).spec_entries().len(),
            found == exists|i: int| 0 <= i < old(self).spec_entries().len() && old(self).spec_entries()[i].id == id,
            forall|i: int|
                0 <= i < old(self).spec_entries().len() ==> {
                    let e = #[trigger] old(self).spec_entries()[i];
                    final(self).spec_entries()[i] == if e.id == id {
                        CorpusEntry {
                            visit_count: if e.visit_count + 1 <= u64::MAX { (e.visit_count + 1) as u64 } else { u64::MAX },
                            ..e
                        }
                    } else {
                        e
                    }
                },
            final(self).spec_next_id() == old(self).spec_next_id(),
            final(self).spec_drop_threshold() == old(self).spec_drop_threshold(),
            final(self).spec_prune_amount() == old(self).spec_prune_amount(),
            final(self).spec_visit_ignore_threshold() == old(self).spec_visit_ignore_threshold(),
    {
        let mut found = false;
        let mut i: usize = 0;
        while i < self.entries.len()
            invariant
                i <= self.entries@.len(),
                self.entries@.len() == old(self).entries@.len(),
                self.next_id == old(self).next_id,
                self.drop_threshold == old(self).drop_threshold,
                self.prune_amount == old(self).prune_amount,
                self.visit_ignore_threshold == old(self).visit_ignore_threshold,
                found == exists|j: int| 0 <= j < i && old(self).entries@[j].id == id,
                forall|j: int|
                    i <= j < self.entries@.len() ==> self.entries@[j] == old(self).entries@[j],
                forall|j: int|
                    0 <= j < i ==> {
                        let e = #[trigger] old(self).entries@[j];
                        self.entries@[j] == if e.id == id {
                            CorpusEntry {
                                visit_count: if e.visit_count + 1 <= u64::MAX { (e.visit_count + 1) as u64 } else { u64::MAX },
                                ..e
                            }
                        } else {
                            e
                        }
                    },
            decreases self.entries@.len() - i,
        {
            let e = self.entries[i];
            if e.id == id {
                let visit_count = e.visit_count.saturating_add(1);
                self.entries.set(i, CorpusEntry { visit_count, ..e });
                found = true;
            }
            i = i + 1;
        }
        assert forall|j: int| 0 <= j < self.entries@.len() implies #[trigger] self.entries@[j].id
            < self.next_id by {
            assert(old(self).entries@[j].id < old(self).next_id);
        }
        assert(i == old(self).entries@.len());
        assert(found == exists|j: int| 0 <= j < old(self).entries@.len() && old(self).entries@[j].id == id);
        found
    }
}

} // verus!
