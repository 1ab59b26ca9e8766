use vstd::prelude::*;
use crate::types::{ElusivError, U256};

verus! {

/// A nullifier hash reserved by jobs in flight, with the number of reservations.
#[derive(Clone, Copy, Debug, PartialEq, Eq, Structural)]
pub struct PendingClaim {
    pub tree: u64,
    pub hash: U256,
    pub count: u64,
}

/// Per merkle tree: the permanent set of spent nullifier hashes, and the
/// reference-counted claims of jobs that have not been finalized yet.
pub struct NullifierLedger {
    committed: Vec<(u64, U256)>,
    pending: Vec<PendingClaim>,
}

pub open spec fn claim_matches(c: PendingClaim, tree: u64, hash: U256) -> bool {
    c.tree == tree && c.hash == hash
}

impl NullifierLedger {
    pub closed spec fn committed_seq(&self) -> Seq<(u64, U256)> {
        self.committed@
    }

    pub closed spec fn pending_seq(&self) -> Seq<PendingClaim> {
        self.pending@
    }

    /// Whether `hash` is in the permanent set of `tree`.
    pub open spec fn is_committed(&self, tree: u64, hash: U256) -> bool {
        self.committed_seq().contains((tree, hash))
    }

    /// The number of in-flight claims on `hash` in `tree`.
    pub open spec fn pending_count(&self, tree: u64, hash: U256) -> nat {
        let s = self.pending_seq();
        if exists|i: int| 0 <= i < s.len() && claim_matches(#[trigger] s[i], tree, hash) {
            s[choose|i: int| 0 <= i < s.len() && claim_matches(#[trigger] s[i], tree, hash)].count as nat
        } else {
            0
        }
    }

    /// Whether `commit` refuses `hash` in `tree`: exactly when it is already spent.
    pub open spec fn commit_refused(&self, tree: u64, hash: U256) -> bool {
        self.is_committed(tree, hash)
    }

    /// Each (tree, hash) has at most one pending entry.
    pub open spec fn wf(&self) -> bool {
        let s = self.pending_seq();
        forall|i: int, j: int|
            0 <= i < s.len() && 0 <= j < s.len() && i != j ==> !claim_matches(#[trigger] s[i], #[trigger] s[j].tree, s[j].hash)
    }

    proof fn lemma_count_at(&self, i: int)
        requires
            self.wf(),
            0 <= i < self.pending_seq().len(),
        ensures
            self.pending_count(self.pending_seq()[i].tree, self.pending_seq()[i].hash)
                == self.pending_seq()[i].count,
    {
        let s = self.pending_seq();
        let t = s[i].tree;
        let h = s[i].hash;
        assert(claim_matches(s[i], t, h));
        let k = choose|k: int| 0 <= k < s.len() && claim_matches(#[trigger] s[k], t, h);
        assert(claim_matches(s[k], s[i].tree, s[i].hash));
    }

    pub fn new() -> (r: Self)
        ensures
            r.wf(),
            forall|t: u64, h: U256| !r.is_committed(t, h) && r.pending_count(t, h) == 0,
    {
        NullifierLedger { committed: Vec::new(), pending: Vec::new() }
    }

    fn find_pending(&self, tree: u64, hash: U256) -> (r: Option<usize>)
        requires
            self.wf(),
        ensures
            r is Some ==> r->0 < self.pending_seq().len() && claim_matches(
                self.pending_seq()[r->0 as int],
                tree,
                hash,
            ),
            r is None ==> self.pending_count(tree, hash) == 0 && forall|i: int|
                0 <= i < self.pending_seq().len() ==> !claim_matches(
                    #[trigger] self.pending_seq()[i],
                    tree,
                    hash,
                ),
    {
        let mut i: usize = 0;
        while i < self.pending.len()
            invariant
                i <= self.pending@.len(),
                forall|k: int| 0 <= k < i ==> !claim_matches(#[trigger] self.pending@[k], tree, hash),
            decreases self.pending@.len() - i,
        {
            if self.pending[i].tree == tree && self.pending[i].hash == hash {
                return Some(i);
            }
            i = i + 1;
        }
        None
    }

    /// The number of in-flight claims on `hash` in `tree`.
    pub fn get_pending_count(&self, tree: u64, hash: U256) -> (r: u64)
        requires
            self.wf(),
        ensures
            r == self.pending_count(tree, hash),
    {
        match self.find_pending(tree, hash) {
            Some(i) => {
                proof {
                    self.lemma_count_at(i as int);
                }
                self.pending[i].count
            },
            None => 0,
        }
    }

    /// Whether `hash` is in the permanent set of `tree`.
    pub fn contains_committed(&self, tree: u64, hash: U256) -> (r: bool)
        ensures
            r == self.is_committed(tree, hash),
    {
        let mut i: usize = 0;
        while i < self.committed.len()
            invariant
                i <= self.committed@.len(),
                forall|k: int| 0 <= k < i ==> #[trigger] self.committed@[k] != (tree, hash),
            decreases self.committed@.len() - i,
        {
            if self.committed[i].0 == tree && self.committed[i].1 == hash {
                assert(self.committed@[i as int] == (tree, hash));
                return true;
            }
            i = i + 1;
        }
        false
    }

    /// Records a reservation of `hash` in `tree` by a job in flight and returns
    /// the new reference count. A hash that is already reserved is refused with
    /// `DuplicateNullifierClaim` unless `allow_duplicates`; so is one whose count
    /// cannot grow further.
    pub fn claim(&mut self, tree: u64, hash: U256, allow_duplicates: bool) -> (r: Result<
        u64,
        ElusivError,
    >)
        requires
            old(self).wf(),
        ensures
            final(self).wf(),
            r is Err <==> (old(self).pending_count(tree, hash) > 0 && !allow_duplicates)
                || old(self).pending_count(tree, hash) == u64::MAX,
            r is Err ==> r == Err::<u64, ElusivError>(ElusivError::DuplicateNullifierClaim)
                && final(self).pending_count(tree, hash) == old(self).pending_count(tree, hash),
            r is Ok ==> r == Ok::<u64, ElusivError>((old(self).pending_count(tree, hash) + 1) as u64),
            forall|t: u64, h: U256|
                #![trigger final(self).pending_count(t, h)]
                final(self).pending_count(t, h) == if r is Ok && t == tree && h == hash {
                    old(self).pending_count(t, h) + 1
                } else {
                    old(self).pending_count(t, h)
                },
            final(self).committed_seq() == old(self).committed_seq(),
    {
        match self.find_pending(tree, hash) {
            Some(i) => {
                proof {
                    self.lemma_count_at(i as int);
                }
                let c = self.pending[i].count;
                if (c > 0 && !allow_duplicates) || c == u64::MAX {
                    return Err(ElusivError::DuplicateNullifierClaim);
                }
                self.set_count(i, c + 1);
                Ok(c + 1)
            },
            None => {
                let ghost prev = *self;
                self.pending.push(PendingClaim { tree, hash, count: 1 });
                proof {
                    let s = self.pending@;
                    let n = s.len() - 1;
                    assert forall|i: int, j: int|
                        0 <= i < s.len() && 0 <= j < s.len() && i != j implies !claim_matches(
                            #[trigger] s[i],
                            #[trigger] s[j].tree,
                            s[j].hash,
                        ) by {
                        if i < n && j < n {
                            assert(s[i] == prev.pending@[i] && s[j] == prev.pending@[j]);
                            assert(!claim_matches(
                                prev.pending_seq()[i],
                                prev.pending_seq()[j].tree,
                                prev.pending_seq()[j].hash,
                            ));
                        } else if i == n {
                            assert(s[j] == prev.pending@[j]);
                            assert(!claim_matches(prev.pending_seq()[j], tree, hash));
                        } else {
                            assert(s[i] == prev.pending@[i]);
                            assert(!claim_matches(prev.pending_seq()[i], tree, hash));
                        }
                    }
                    self.lemma_count_at(n);
                    assert forall|t: u64, h: U256| !(t == tree && h == hash) implies
                        #[trigger] self.pending_count(t, h) == prev.pending_count(t, h) by {
                        if exists|i: int| 0 <= i < s.len() && claim_matches(#[trigger] s[i], t, h) {
                            let i = choose|i: int| 0 <= i < s.len() && claim_matches(#[trigger] s[i], t, h);
                            assert(i < n);
                            assert(claim_matches(prev.pending@[i], t, h));
                            self.lemma_count_at(i);
                            prev.lemma_count_at(i);
                        } else {
                            assert forall|i: int| 0 <= i < prev.pending@.len() implies
                                !claim_matches(#[trigger] prev.pending@[i], t, h) by {
                                assert(s[i] == prev.pending@[i]);
                            }
                        }
                    }
                }
                Ok(1)
            },
        }
    }

    /// Replaces the count of pending entry `i`, keeping every other entry.
    fn set_count(&mut self, i: usize, count: u64)
        requires
            old(self).wf(),
            i < old(self).pending_seq().len(),
        ensures
            final(self).wf(),
            final(self).committed_seq() == old(self).committed_seq(),
            forall|t: u64, h: U256|
                #![trigger final(self).pending_count(t, h)]
                final(self).pending_count(t, h) == if claim_matches(old(self).pending_seq()[i as int], t, h) {
                    count as nat
                } else {
                    old(self).pending_count(t, h)
                },
    {
        let ghost prev = *self;
        let e = self.pending[i];
        self.pending.set(i, PendingClaim { tree: e.tree, hash: e.hash, count });
        proof {
            let s = self.pending@;
            assert forall|a: int, b: int|
                0 <= a < s.len() && 0 <= b < s.len() && a != b implies !claim_matches(
                    #[trigger] s[a],
                    #[trigger] s[b].tree,
                    s[b].hash,
                ) by {
                assert(!claim_matches(prev.pending@[a], prev.pending@[b].tree, prev.pending@[b].hash));
            }
            self.lemma_count_at(i as int);
            assert forall|t: u64, h: U256| !claim_matches(e, t, h) implies
                #[trigger] self.pending_count(t, h) == prev.pending_count(t, h) by {
                if exists|k: int| 0 <= k < s.len() && claim_matches(#[trigger] s[k], t, h) {
                    let k = choose|k: int| 0 <= k < s.len() && claim_matches(#[trigger] s[k], t, h);
                    assert(claim_matches(prev.pending@[k], t, h));
                    self.lemma_count_at(k);
                    prev.lemma_count_at(k);
                } else {
                    assert forall|k: int| 0 <= k < prev.pending@.len() implies
                        !claim_matches(#[trigger] prev.pending@[k], t, h) by {
                        if k != i {
                            assert(s[k] == prev.pending@[k]);
                        }
                    }
                }
            }
        }
    }

    /// Drops one reservation of `hash` in `tree` and returns the remaining count;
    /// fails with `InvalidState` when there is none.
    pub fn release(&mut self, tree: u64, hash: U256) -> (r: Result<u64, ElusivError>)
        requires
            old(self).wf(),
        ensures
            final(self).wf(),
            r is Err <==> old(self).pending_count(tree, hash) == 0,
            r is Err ==> r == Err::<u64, ElusivError>(ElusivError::InvalidState),
            r is Ok ==> r == Ok::<u64, ElusivError>((old(self).pending_count(tree, hash) - 1) as u64),
            forall|t: u64, h: U256|
                #![trigger final(self).pending_count(t, h)]
                final(self).pending_count(t, h) == if r is Ok && t == tree && h == hash {
                    (old(self).pending_count(t, h) - 1) as nat
                } else {
                    old(self).pending_count(t, h)
                },
            final(self).committed_seq() == old(self).committed_seq(),
    {
        match self.find_pending(tree, hash) {
            Some(i) => {
                proof {
                    self.lemma_count_at(i as int);
                }
                let c = self.pending[i].count;
                if c == 0 {
                    return Err(ElusivError::InvalidState);
                }
                self.set_count(i, c - 1);
                Ok(c - 1)
            },
            None => Err(ElusivError::InvalidState),
        }
    }

    /// Inserts `hash` into the permanent set of `tree`; fails with `DoubleSpend`
    /// when it is there already.
    pub fn commit(&mut self, tree: u64, hash: U256) -> (r: Result<(), ElusivError>)
        requires
            old(self).wf(),
        ensures
            final(self).wf(),
            r is Err <==> old(self).commit_refused(tree, hash),
            r is Err ==> r == Err::<(), ElusivError>(ElusivError::DoubleSpend),
            r is Err ==> final(self).committed_seq() == old(self).committed_seq(),
            r is Ok ==> final(self).committed_seq() == old(self).committed_seq().push((tree, hash)),
            forall|t: u64, h: U256|
                #![trigger final(self).is_committed(t, h)]
                final(self).is_committed(t, h) == (old(self).is_committed(t, h) || (t == tree && h == hash)),
            final(self).pending_seq() == old(self).pending_seq(),
    {
        if self.contains_committed(tree, hash) {
            return Err(ElusivError::DoubleSpend);
        }
        let ghost prev = self.committed@;
        let ghost before = *self;
        self.committed.push((tree, hash));
        proof {
            assert(self.pending_seq() == before.pending_seq());
            assert forall|t: u64, h: U256|
                #![trigger self.is_committed(t, h)]
                self.is_committed(t, h) == (prev.contains((t, h)) || (t == tree && h == hash)) by {
                if prev.contains((t, h)) {
                    let k = choose|k: int| 0 <= k < prev.len() && prev[k] == (t, h);
                    assert(self.committed@[k] == (t, h));
                }
                if self.committed@.contains((t, h)) && !(t == tree && h == hash) {
                    let k = choose|k: int| 0 <= k < self.committed@.len() && self.committed@[k] == (t, h);
                    assert(prev[k] == (t, h));
                }
                assert(self.committed@[prev.len() as int] == (tree, hash));
            }
        }
        Ok(())
    }
}

} // verus!
