use vstd::prelude::*;

use crate::primitives::contains_bytes;
use crate::storage_errors::StorageError;
use crate::storage_state::{StorageState, StorageStateView};
use crate::storage_types::copy_bytes;

verus! {

/// Content ID length in bytes (46 bytes multihash).
pub const CID_LENGTH: usize = 46;

/// The values of a list of content IDs.
pub open spec fn cids_view(v: Seq<Vec<u8>>) -> Seq<Seq<u8>> {
    v.map_values(|c: Vec<u8>| c@)
}

/// Every content ID has the content ID length.
pub open spec fn valid_cid_lengths(hashes: Seq<Seq<u8>>) -> bool {
    forall|i: int| 0 <= i < hashes.len() ==> #[trigger] hashes[i].len() == CID_LENGTH
}

impl StorageStateView {
    /// The hashes of `hashes` that are blacklisted (`blacklisted`) or not (`!blacklisted`), or
    /// `InvalidCidLength` when one of `hashes` has the wrong length.
    pub open spec fn spec_hashes_by_blacklisting(self, hashes: Seq<Seq<u8>>, blacklisted: bool) -> Result<
        Set<Seq<u8>>,
        StorageError,
    > {
        if !valid_cid_lengths(hashes) {
            Err(StorageError::InvalidCidLength)
        } else {
            Ok(hashes.to_set().filter(|h: Seq<u8>| self.blacklist.contains(h) == blacklisted))
        }
    }

    /// Remove and add hashes to the blacklist: only blacklisted hashes are removed and only
    /// new ones added, and the resulting size must not exceed the limit.
    pub open spec fn spec_update_blacklist(self, remove: Seq<Seq<u8>>, add: Seq<Seq<u8>>) -> Result<
        (Set<Seq<u8>>, u64),
        StorageError,
    > {
        match self.spec_hashes_by_blacklisting(remove, true) {
            Err(e) => Err(e),
            Ok(verified_remove) => match self.spec_hashes_by_blacklisting(add, false) {
                Err(e) => Err(e),
                Ok(verified_add) => {
                    let size = self.current_blacklist_size.saturating_add(verified_add.len() as u64).saturating_sub(
                        verified_remove.len() as u64,
                    );
                    if size > self.config.blacklist_size_limit {
                        Err(StorageError::BlacklistSizeLimitExceeded)
                    } else {
                        Ok((self.blacklist.to_set().difference(verified_remove).union(verified_add), size))
                    }
                },
            },
        }
    }
}

impl StorageState {
    /// Returns the hashes of the collection whose blacklisting is `blacklisted`, each once;
    /// every hash must have the content ID length.
    pub fn get_hashes_by_predicate(&self, hashes: &Vec<Vec<u8>>, blacklisted: bool) -> (r: Result<
        Vec<Vec<u8>>,
        StorageError,
    >)
        ensures
            match (r, self@.spec_hashes_by_blacklisting(cids_view(hashes@), blacklisted)) {
                (Ok(v), Ok(s)) => cids_view(v@).to_set() == s && cids_view(v@).no_duplicates(),
                (Err(a), Err(b)) => a == b,
                _ => false,
            },
    {
        let ghost hv = cids_view(hashes@);
        let mut i: usize = 0;
        while i < hashes.len()
            invariant
                hv == cids_view(hashes@),
                i <= hashes@.len(),
                forall|j: int| 0 <= j < i ==> #[trigger] hv[j].len() == CID_LENGTH,
            decreases hashes@.len() - i,
        {
            if hashes[i].len() != CID_LENGTH {
                proof {
                    assert(hv[i as int].len() != CID_LENGTH);
                }
                return Err(StorageError::InvalidCidLength);
            }
            i = i + 1;
        }
        let ghost bl = self@.blacklist;
        let ghost keep = |h: Seq<u8>| bl.contains(h) == blacklisted;
        let mut filtered: Vec<Vec<u8>> = Vec::new();
        let mut i: usize = 0;
        while i < hashes.len()
            invariant
                hv == cids_view(hashes@),
                bl == self@.blacklist,
                keep == (|h: Seq<u8>| bl.contains(h) == blacklisted),
                i <= hashes@.len(),
                cids_view(filtered@).to_set() == hv.take(i as int).to_set().filter(keep),
                cids_view(filtered@).no_duplicates(),
            decreases hashes@.len() - i,
        {
            let ghost before = cids_view(filtered@);
            proof {
                crate::sorted::lemma_take_succ_to_set(hv, i as int);
            }
            let in_blacklist: bool = contains_bytes(&self.blacklist, &hashes[i]);
            if in_blacklist == blacklisted && !contains_bytes(&filtered, &hashes[i]) {
                filtered.push(copy_bytes(&hashes[i]));
                proof {
                    assert(cids_view(filtered@) =~= before.push(hv[i as int]));
                    assert(cids_view(filtered@).to_set() =~= hv.take(i + 1).to_set().filter(keep)) by {
                        assert forall|h: Seq<u8>| cids_view(filtered@).to_set().contains(h) <==> hv.take(i + 1).to_set().filter(keep).contains(h) by {
                            if cids_view(filtered@).to_set().contains(h) && h != hv[i as int] {
                                let k = choose|k: int| 0 <= k < cids_view(filtered@).len() && cids_view(filtered@)[k] == h;
                                assert(before[k] == h);
                                assert(before.to_set().contains(h));
                            }
                            if h == hv[i as int] {
                                assert(cids_view(filtered@)[before.len() as int] == h);
                            }
                            if hv.take(i + 1).to_set().filter(keep).contains(h) && h != hv[i as int] {
                                assert(before.to_set().contains(h));
                                let k = choose|k: int| 0 <= k < before.len() && before[k] == h;
                                assert(cids_view(filtered@)[k] == h);
                            }
                        }
                    }
                    assert forall|a: int, b: int| 0 <= a < b < cids_view(filtered@).len()
                        implies cids_view(filtered@)[a] != cids_view(filtered@)[b] by {
                        if b == before.len() {
                            assert(before.contains(before[a]));
                        }
                    }
                }
            } else {
                proof {
                    assert(cids_view(filtered@).to_set() =~= hv.take(i + 1).to_set().filter(keep)) by {
                        if in_blacklist == blacklisted {
                            assert(before.contains(hv[i as int]));
                            let k = choose|k: int| 0 <= k < before.len() && before[k] == hv[i as int];
                            assert(before.to_set().contains(hv[i as int]));
                        }
                    }
                }
            }
            i = i + 1;
        }
        proof {
            crate::sorted::lemma_take_all(hv);
        }
        Ok(filtered)
    }

    /// Returns only existing hashes in the blacklist from the given collection.
    pub fn get_existing_hashes(&self, hashes: &Vec<Vec<u8>>) -> (r: Result<Vec<Vec<u8>>, StorageError>)
        ensures
            match (r, self@.spec_hashes_by_blacklisting(cids_view(hashes@), true)) {
                (Ok(v), Ok(s)) => cids_view(v@).to_set() == s && cids_view(v@).no_duplicates(),
                (Err(a), Err(b)) => a == b,
                _ => false,
            },
    {
        self.get_hashes_by_predicate(hashes, true)
    }

    /// Returns only nonexisting hashes in the blacklist from the given collection.
    pub fn get_nonexisting_hashes(&self, hashes: &Vec<Vec<u8>>) -> (r: Result<Vec<Vec<u8>>, StorageError>)
        ensures
            match (r, self@.spec_hashes_by_blacklisting(cids_view(hashes@), false)) {
                (Ok(v), Ok(s)) => cids_view(v@).to_set() == s && cids_view(v@).no_duplicates(),
                (Err(a), Err(b)) => a == b,
                _ => false,
            },
    {
        self.get_hashes_by_predicate(hashes, false)
    }

    /// Add and remove hashes to the current blacklist. Each list stands for a set of hashes
    /// (repetitions do not count).
    pub fn update_blacklist(&mut self, remove_hashes: &Vec<Vec<u8>>, add_hashes: &Vec<Vec<u8>>) -> (r: Result<
        (),
        StorageError,
    >)
        requires
            old(self)@.wf(),
        ensures
            final(self)@.wf(),
            match (r, old(self)@.spec_update_blacklist(cids_view(remove_hashes@), cids_view(add_hashes@))) {
                (Ok(_), Ok(s)) => final(self)@ == (StorageStateView {
                    blacklist: final(self)@.blacklist,
                    current_blacklist_size: s.1,
                    ..old(self)@
                }) && final(self)@.blacklist.to_set() == s.0,
                (Err(a), Err(b)) => a == b && final(self)@ == old(self)@,
                _ => false,
            },
            // the counter keeps counting the blacklisted hashes
            r is Ok && old(self)@.current_blacklist_size == old(self)@.blacklist.len()
                && old(self)@.current_blacklist_size + add_hashes@.len() <= u64::MAX
                ==> final(self)@.current_blacklist_size == final(self)@.blacklist.len(),
    {
        let verified_remove_hashes = match self.get_existing_hashes(remove_hashes) {
            Err(e) => return Err(e),
            Ok(v) => v,
        };
        let verified_add_hashes = match self.get_nonexisting_hashes(add_hashes) {
            Err(e) => return Err(e),
            Ok(v) => v,
        };
        let ghost vr = cids_view(verified_remove_hashes@);
        let ghost va = cids_view(verified_add_hashes@);
        proof {
            vr.unique_seq_to_set();
            va.unique_seq_to_set();
        }
        let updated_blacklist_size: u64 = self.current_blacklist_size.saturating_add(
            crate::primitives::saturated_u64(verified_add_hashes.len()),
        ).saturating_sub(crate::primitives::saturated_u64(verified_remove_hashes.len()));
        if updated_blacklist_size > self.config.blacklist_size_limit {
            return Err(StorageError::BlacklistSizeLimitExceeded);
        }
        let ghost b0 = self@.blacklist;
        let mut updated: Vec<Vec<u8>> = Vec::new();
        let mut i: usize = 0;
        while i < self.blacklist.len()
            invariant
                b0 == self@.blacklist,
                b0.no_duplicates(),
                vr == cids_view(verified_remove_hashes@),
                i <= b0.len(),
                cids_view(updated@).to_set() == b0.take(i as int).to_set().difference(vr.to_set()),
                cids_view(updated@).no_duplicates(),
                cids_view(updated@).len() <= i,
            decreases b0.len() - i,
        {
            let ghost before = cids_view(updated@);
            proof {
                crate::sorted::lemma_take_succ_to_set(b0, i as int);
                crate::sorted::lemma_not_in_prefix(b0, i as int);
            }
            if !contains_bytes(&verified_remove_hashes, &self.blacklist[i]) {
                updated.push(copy_bytes(&self.blacklist[i]));
                proof {
                    assert(cids_view(updated@) =~= before.push(b0[i as int]));
                    assert(cids_view(updated@).to_set() =~= b0.take(i + 1).to_set().difference(vr.to_set())) by {
                        assert forall|h: Seq<u8>| #[trigger] cids_view(updated@).to_set().contains(h)
                            == b0.take(i + 1).to_set().difference(vr.to_set()).contains(h) by {
                            if cids_view(updated@).to_set().contains(h) && h != b0[i as int] {
                                let k = choose|k: int| 0 <= k < cids_view(updated@).len() && cids_view(updated@)[k] == h;
                                assert(before[k] == h);
                                assert(before.to_set().contains(h));
                            }
                            if h == b0[i as int] {
                                assert(cids_view(updated@)[before.len() as int] == h);
                            }
                            if b0.take(i + 1).to_set().difference(vr.to_set()).contains(h) && h != b0[i as int] {
                                assert(before.to_set().contains(h));
                                let k = choose|k: int| 0 <= k < before.len() && before[k] == h;
                                assert(cids_view(updated@)[k] == h);
                            }
                        }
                    }
                    assert forall|a: int, b: int| 0 <= a < b < cids_view(updated@).len()
                        implies cids_view(updated@)[a] != cids_view(updated@)[b] by {
                        if b == before.len() {
                            assert(before.to_set().contains(before[a]));
                        }
                    }
                }
            } else {
                proof {
                    assert(cids_view(updated@).to_set() =~= b0.take(i + 1).to_set().difference(vr.to_set()));
                }
            }
            i = i + 1;
        }
        proof {
            crate::sorted::lemma_take_all(b0);
        }
        let ghost kept = cids_view(updated@);
        proof {
            assert forall|j: int| 0 <= j < va.len() implies !b0.contains(#[trigger] va[j]) by {
                assert(va.to_set().contains(va[j]));
            }
        }
        let mut k: usize = 0;
        while k < verified_add_hashes.len()
            invariant
                va == cids_view(verified_add_hashes@),
                va.no_duplicates(),
                forall|j: int| 0 <= j < va.len() ==> !b0.contains(#[trigger] va[j]),
                kept.to_set() == b0.to_set().difference(vr.to_set()),
                kept.no_duplicates(),
                k <= va.len(),
                cids_view(updated@) == kept + va.take(k as int),
            decreases va.len() - k,
        {
            let ghost before = cids_view(updated@);
            updated.push(copy_bytes(&verified_add_hashes[k]));
            proof {
                assert(cids_view(updated@) =~= before.push(va[k as int]));
                assert(va.take(k + 1) =~= va.take(k as int).push(va[k as int]));
                assert(cids_view(updated@) =~= kept + va.take(k + 1));
            }
            k = k + 1;
        }
        proof {
            crate::sorted::lemma_take_all(va);
            let n = cids_view(updated@);
            assert(n == kept + va);
            // kept hashes come from the blacklist, added ones do not
            assert forall|j: int| 0 <= j < kept.len() implies b0.contains(#[trigger] kept[j]) by {
                assert(kept.to_set().contains(kept[j]));
            }
            assert forall|a: int, b: int| 0 <= a < b < n.len() implies n[a] != n[b] by {
                if a < kept.len() && b >= kept.len() {
                    assert(n[b] == va[b - kept.len()]);
                    assert(b0.contains(n[a]));
                } else if a >= kept.len() {
                    assert(n[a] == va[a - kept.len()]);
                    assert(n[b] == va[b - kept.len()]);
                }
            }
            assert(n.to_set() =~= kept.to_set().union(va.to_set())) by {
                assert forall|h: Seq<u8>| #[trigger] n.to_set().contains(h) == kept.to_set().union(va.to_set()).contains(h) by {
                    if n.to_set().contains(h) {
                        let j = choose|j: int| 0 <= j < n.len() && n[j] == h;
                        if j < kept.len() {
                            assert(kept[j] == h);
                            assert(kept.contains(h));
                        } else {
                            assert(va[j - kept.len()] == h);
                            assert(va.contains(h));
                        }
                    }
                    if kept.to_set().contains(h) {
                        let j = choose|j: int| 0 <= j < kept.len() && kept[j] == h;
                        assert(n[j] == h);
                        assert(n.contains(h));
                    }
                    if va.to_set().contains(h) {
                        let j = choose|j: int| 0 <= j < va.len() && va[j] == h;
                        assert(n[j + kept.len()] == h);
                        assert(n.contains(h));
                    }
                }
            }
            // sizes: the kept hashes are the blacklisted ones minus the verified removals
            kept.unique_seq_to_set();
            b0.unique_seq_to_set();
            assert(vr.to_set().subset_of(b0.to_set())) by {
                assert forall|h: Seq<u8>| vr.to_set().contains(h) implies b0.to_set().contains(h) by {
                    assert(self@.spec_hashes_by_blacklisting(cids_view(remove_hashes@), true) is Ok);
                }
            }
            vr.unique_seq_to_set();
            vstd::set_lib::lemma_set_difference_len(b0.to_set(), vr.to_set());
            assert(b0.to_set().intersect(vr.to_set()) =~= vr.to_set());
        }
        proof {
            let av = cids_view(add_hashes@);
            if self@.current_blacklist_size == b0.len() && self@.current_blacklist_size + add_hashes@.len() <= u64::MAX {
                av.lemma_cardinality_of_set();
                vstd::seq_lib::seq_to_set_is_finite(av);
                vstd::seq_lib::seq_to_set_is_finite(b0);
                assert(va.to_set().subset_of(av.to_set()));
                vstd::set_lib::lemma_len_subset(va.to_set(), av.to_set());
                vstd::set_lib::lemma_len_subset(vr.to_set(), b0.to_set());
                assert(kept.len() == b0.len() - vr.len());
                assert(updated_blacklist_size == b0.len() + va.len() - vr.len());
            }
        }
        self.blacklist = updated;
        self.current_blacklist_size = updated_blacklist_size;
        proof {
            let n = cids_view(self.blacklist@);
            assert(n.len() == kept.len() + va.len());
            assert(self@.blacklist == n);
        }
        Ok(())
    }
}

} // verus!
