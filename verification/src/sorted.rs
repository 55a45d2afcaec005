use vstd::prelude::*;
use std::collections::{BTreeMap, BTreeSet};
use vstd::std_specs::iter::IteratorSpec;
use vstd::std_specs::cmp::OrdSpec;

verus! {

/// A sequence whose elements grow strictly from left to right.
pub open spec fn strictly_increasing(q: Seq<u64>) -> bool {
    forall|i: int, j: int| 0 <= i < j < q.len() ==> q[i] < q[j]
}

/// `q` lists the elements of `s` in ascending order, each once.
pub open spec fn enumerates_ascending(q: Seq<u64>, s: Set<u64>) -> bool {
    &&& strictly_increasing(q)
    &&& q.to_set() == s
}

/// The elements of a finite set of integers in ascending order (the order in which an ordered
/// set hands them out).
pub open spec fn ascending(s: Set<u64>) -> Seq<u64> {
    choose|q: Seq<u64>| enumerates_ascending(q, s)
}

proof fn lemma_increasing_tail(q: Seq<u64>)
    requires
        strictly_increasing(q),
        q.len() > 0,
    ensures
        strictly_increasing(q.drop_first()),
{
}

/// Two ascending enumerations of the same set are the same sequence.
pub proof fn lemma_ascending_unique(q1: Seq<u64>, q2: Seq<u64>, s: Set<u64>)
    requires
        enumerates_ascending(q1, s),
        enumerates_ascending(q2, s),
    ensures
        q1 == q2,
    decreases q1.len(),
{
    if q1.len() == 0 {
        if q2.len() > 0 {
            assert(q2.to_set().contains(q2[0]));
            assert(!q1.to_set().contains(q2[0]));
        }
        assert(q1 =~= q2);
    } else if q2.len() == 0 {
        assert(q1.to_set().contains(q1[0]));
    } else {
        // the heads are both the minimum of s
        assert(q1.to_set().contains(q1[0]));
        assert(q2.to_set().contains(q2[0]));
        assert(q2.contains(q1[0]));
        assert(q1.contains(q2[0]));
        let j2 = choose|j: int| 0 <= j < q2.len() && q2[j] == q1[0];
        let j1 = choose|j: int| 0 <= j < q1.len() && q1[j] == q2[0];
        if j2 > 0 {
            assert(q2[0] < q2[j2]);
            if j1 > 0 {
                assert(q1[0] < q1[j1]);
            }
        }
        if j1 > 0 {
            assert(q1[0] < q1[j1]);
        }
        assert(q1[0] == q2[0]);
        let h = q1[0];
        let t1 = q1.drop_first();
        let t2 = q2.drop_first();
        let s2 = s.remove(h);
        lemma_increasing_tail(q1);
        lemma_increasing_tail(q2);
        assert forall|x: u64| t1.to_set().contains(x) <==> s2.contains(x) by {
            if t1.to_set().contains(x) {
                let k = choose|k: int| 0 <= k < t1.len() && t1[k] == x;
                assert(q1[k + 1] == x);
                assert(q1.to_set().contains(x));
                assert(q1[0] < q1[k + 1]);
            }
            if s2.contains(x) {
                assert(q1.to_set().contains(x));
                let k = choose|k: int| 0 <= k < q1.len() && q1[k] == x;
                assert(k != 0);
                assert(t1[k - 1] == x);
                assert(t1.contains(x));
            }
        }
        assert forall|x: u64| t2.to_set().contains(x) <==> s2.contains(x) by {
            if t2.to_set().contains(x) {
                let k = choose|k: int| 0 <= k < t2.len() && t2[k] == x;
                assert(q2[k + 1] == x);
                assert(q2.to_set().contains(x));
                assert(q2[0] < q2[k + 1]);
            }
            if s2.contains(x) {
                assert(q2.to_set().contains(x));
                let k = choose|k: int| 0 <= k < q2.len() && q2[k] == x;
                assert(k != 0);
                assert(t2[k - 1] == x);
                assert(t2.contains(x));
            }
        }
        assert(t1.to_set() =~= s2);
        assert(t2.to_set() =~= s2);
        lemma_ascending_unique(t1, t2, s2);
        assert(q1 =~= q2) by {
            assert forall|i: int| 0 <= i < q1.len() implies q1[i] == q2[i] by {
                if i > 0 {
                    assert(q1[i] == t1[i - 1]);
                    assert(q2[i] == t2[i - 1]);
                }
            }
        }
    }
}

/// Any ascending enumeration of `s` is `ascending(s)`.
pub proof fn lemma_ascending_is(q: Seq<u64>, s: Set<u64>)
    requires
        enumerates_ascending(q, s),
    ensures
        ascending(s) == q,
{
    let c = ascending(s);
    assert(enumerates_ascending(c, s));
    lemma_ascending_unique(c, q, s);
}

/// The elements of an ordered set of integers, in ascending order.
pub fn ascending_vec(s: &BTreeSet<u64>) -> (v: Vec<u64>)
    ensures
        v@ == ascending(s@),
        enumerates_ascending(v@, s@),
{
    let mut v: Vec<u64> = Vec::new();
    let ghost r = vstd::std_specs::btree::spec_btree_keys_iter(s).remaining();
    for x in it: s.iter()
        invariant
            r == vstd::std_specs::btree::spec_btree_keys_iter(s).remaining(),
            it.seq() == r,
            v@.len() == it.index(),
            forall|j: int| 0 <= j < it.index() ==> v@[j] == *r[j],
    {
        v.push(*x);
    }
    proof {
        assert(v@ =~= r.unref());
        assert(vstd::laws_cmp::obeys_cmp::<u64>());
        assert(vstd::laws_cmp::obeys_cmp::<&u64>());
        assert(vstd::std_specs::btree::increasing_seq(r));
        vstd::std_specs::btree::axiom_increasing_seq_meaning(r);
        assert forall|i: int, j: int| 0 <= i < j < v@.len() implies v@[i] < v@[j] by {
            let a: &u64 = r[i];
            let b: &u64 = r[j];
            assert(OrdSpec::cmp_spec(&a, &b) is Less);
        }
        lemma_ascending_is(v@, s@);
    }
    v
}


/// The elements of an ordered set of integer pairs, each once, in the set's own order.
pub fn pair_vec(s: &BTreeSet<(u64, u64)>) -> (v: Vec<(u64, u64)>)
    ensures
        v@.to_set() == s@,
        v@.no_duplicates(),
        v@.len() == s@.len(),
{
    let mut v: Vec<(u64, u64)> = Vec::new();
    let ghost r = vstd::std_specs::btree::spec_btree_keys_iter(s).remaining();
    for x in it: s.iter()
        invariant
            r == vstd::std_specs::btree::spec_btree_keys_iter(s).remaining(),
            it.seq() == r,
            v@.len() == it.index(),
            forall|j: int| 0 <= j < it.index() ==> v@[j] == *r[j],
    {
        v.push(*x);
    }
    proof {
        assert(v@ =~= r.unref());
    }
    v
}

/// The first failure that `check` reports, walking `q` from the front.
pub open spec fn first_failure<A, E>(q: Seq<A>, check: spec_fn(A) -> Option<E>) -> Option<E>
    decreases q.len(),
{
    if q.len() == 0 {
        None
    } else {
        match check(q[0]) {
            Some(e) => Some(e),
            None => first_failure(q.drop_first(), check),
        }
    }
}

/// When `check` passes every element before `i` and fails at `i`, the first failure is at `i`.
pub proof fn lemma_first_failure_at<A, E>(q: Seq<A>, check: spec_fn(A) -> Option<E>, i: int)
    requires
        0 <= i < q.len(),
        forall|j: int| 0 <= j < i ==> check(#[trigger] q[j]) is None,
        check(q[i]) is Some,
    ensures
        first_failure(q, check) == check(q[i]),
    decreases i,
{
    if i > 0 {
        assert(check(q[0]) is None);
        let t = q.drop_first();
        assert forall|j: int| 0 <= j < i - 1 implies check(#[trigger] t[j]) is None by {
            assert(t[j] == q[j + 1]);
        }
        assert(t[i - 1] == q[i]);
        lemma_first_failure_at(t, check, i - 1);
    }
}

/// When `check` passes every element, there is no failure.
pub proof fn lemma_first_failure_none<A, E>(q: Seq<A>, check: spec_fn(A) -> Option<E>)
    requires
        forall|j: int| 0 <= j < q.len() ==> check(#[trigger] q[j]) is None,
    ensures
        first_failure(q, check) is None,
    decreases q.len(),
{
    if q.len() > 0 {
        assert(check(q[0]) is None);
        let t = q.drop_first();
        assert forall|j: int| 0 <= j < t.len() implies check(#[trigger] t[j]) is None by {
            assert(t[j] == q[j + 1]);
        }
        lemma_first_failure_none(t, check);
    }
}


/// The set of the first `i + 1` elements adds the element at `i` to that of the first `i`.
pub proof fn lemma_take_succ_to_set<A>(s: Seq<A>, i: int)
    requires
        0 <= i < s.len(),
    ensures
        s.take(i + 1).to_set() == s.take(i).to_set().insert(s[i]),
{
    let a = s.take(i + 1);
    let b = s.take(i);
    assert(a =~= b.push(s[i]));
    assert forall|x: A| a.to_set().contains(x) <==> b.to_set().insert(s[i]).contains(x) by {
        if a.to_set().contains(x) {
            let k = choose|k: int| 0 <= k < a.len() && a[k] == x;
            if k < i {
                assert(b[k] == x);
                assert(b.contains(x));
            }
        }
        if b.to_set().contains(x) {
            let k = choose|k: int| 0 <= k < b.len() && b[k] == x;
            assert(a[k] == x);
            assert(a.contains(x));
        }
        if x == s[i] {
            assert(a[i] == x);
            assert(a.contains(x));
        }
    }
    assert(a.to_set() =~= b.to_set().insert(s[i]));
}

/// Taking the whole sequence gives the sequence.
pub proof fn lemma_take_all<A>(s: Seq<A>)
    ensures
        s.take(s.len() as int) == s,
{
    assert(s.take(s.len() as int) =~= s);
}

/// The keys of an ordered map with integer keys, each once.
pub fn key_vec<V>(m: &BTreeMap<u64, V>) -> (v: Vec<u64>)
    ensures
        v@.to_set() == m@.dom(),
        v@.no_duplicates(),
{
    let ghost r = vstd::std_specs::btree::spec_btree_map_iter(m).remaining();
    let mut v: Vec<u64> = Vec::new();
    for e in it: m.iter()
        invariant
            r == vstd::std_specs::btree::spec_btree_map_iter(m).remaining(),
            it.seq() == r,
            v@.len() == it.index(),
            forall|j: int| 0 <= j < it.index() ==> v@[j] == *r[j].0,
    {
        let (k, _) = e;
        v.push(*k);
    }
    proof {
        assert forall|k: u64| v@.to_set().contains(k) <==> m@.dom().contains(k) by {
            if m@.dom().contains(k) {
                assert(r.contains((&k, &m@[k])));
                let j = choose|j: int| 0 <= j < r.len() && r[j] == (&k, &m@[k]);
                assert(v@[j] == k);
                assert(v@.contains(k));
            }
            if v@.to_set().contains(k) {
                let j = choose|j: int| 0 <= j < v@.len() && v@[j] == k;
                assert(m@.contains_key(*r[j].0));
            }
        }
        assert(v@.to_set() =~= m@.dom());
        assert forall|i: int, j: int| 0 <= i < v@.len() && 0 <= j < v@.len() && i != j implies v@[i] != v@[j] by {
            assert(r[i] != r[j]);
            assert(m@.contains_key(*r[i].0) && m@[*r[i].0] == *r[i].1);
            assert(m@.contains_key(*r[j].0) && m@[*r[j].0] == *r[j].1);
        }
    }
    v
}

/// The length of an ordered set of integers is the size of its value.
pub proof fn lemma_set_len(s: &BTreeSet<u64>)
    ensures
        s.len() == s@.len(),
{
    broadcast use vstd::std_specs::btree::group_btree_axioms;
    assert(vstd::laws_cmp::obeys_cmp::<u64>());
}

/// In a sequence without duplicates, an element is not among the ones before it.
pub proof fn lemma_not_in_prefix<A>(s: Seq<A>, i: int)
    requires
        s.no_duplicates(),
        0 <= i < s.len(),
    ensures
        !s.take(i).to_set().contains(s[i]),
{
    if s.take(i).to_set().contains(s[i]) {
        let j = choose|j: int| 0 <= j < i && s.take(i)[j] == s[i];
        assert(s[j] == s[i]);
    }
}

/// A strictly increasing sequence has no duplicates.
pub proof fn lemma_increasing_no_duplicates(q: Seq<u64>)
    requires
        strictly_increasing(q),
    ensures
        q.no_duplicates(),
{
    assert forall|i: int, j: int| 0 <= i < q.len() && 0 <= j < q.len() && i != j implies q[i] != q[j] by {
        if i < j {
            assert(q[i] < q[j]);
        } else {
            assert(q[j] < q[i]);
        }
    }
}

/// The keys of an ordered map with integer keys, in ascending order.
pub fn ascending_keys<V>(m: &BTreeMap<u64, V>) -> (v: Vec<u64>)
    ensures
        v@ == ascending(m@.dom()),
        enumerates_ascending(v@, m@.dom()),
{
    let mut v: Vec<u64> = Vec::new();
    let ghost r = vstd::std_specs::btree::spec_keys_iter(m).remaining();
    for x in it: m.keys()
        invariant
            r == vstd::std_specs::btree::spec_keys_iter(m).remaining(),
            it.seq() == r,
            v@.len() == it.index(),
            forall|j: int| 0 <= j < it.index() ==> v@[j] == *r[j],
    {
        v.push(*x);
    }
    proof {
        assert(v@ =~= r.unref());
        assert(vstd::laws_cmp::obeys_cmp::<u64>());
        assert(vstd::laws_cmp::obeys_cmp::<&u64>());
        assert(vstd::std_specs::btree::increasing_seq(r));
        vstd::std_specs::btree::axiom_increasing_seq_meaning(r);
        assert forall|i: int, j: int| 0 <= i < j < v@.len() implies v@[i] < v@[j] by {
            let a: &u64 = r[i];
            let b: &u64 = r[j];
            assert(OrdSpec::cmp_spec(&a, &b) is Less);
        }
        lemma_ascending_is(v@, m@.dom());
    }
    v
}

/// The length of an ordered set of integer pairs is the size of its value.
pub proof fn lemma_pair_set_len(s: &BTreeSet<(u64, u64)>)
    ensures
        s.len() == s@.len(),
{
    broadcast use vstd::std_specs::btree::group_btree_axioms;
    assert(vstd::laws_cmp::obeys_cmp::<(u64, u64)>());
}

/// A finite set of integers has an ascending enumeration.
pub proof fn lemma_ascending_exists(s: Set<u64>)
    requires
        s.finite(),
    ensures
        enumerates_ascending(ascending(s), s),
    decreases s.len(),
{
    if s.len() == 0 {
        assert(s =~= Set::empty()) by {
            if exists|x: u64| s.contains(x) {
                let x = choose|x: u64| s.contains(x);
                assert(s.remove(x).len() + 1 == s.len());
            }
        }
        let q = Seq::<u64>::empty();
        assert(q.to_set() =~= s);
        assert(enumerates_ascending(q, s));
    } else {
        let r = |a: u64, b: u64| a <= b;
        assert(vstd::relations::total_ordering(r));
        s.find_unique_maximal_ensures(r);
        let m = s.find_unique_maximal(r);
        let rest = s.remove(m);
        lemma_ascending_exists(rest);
        let q0 = ascending(rest);
        let q = q0.push(m);
        assert forall|i: int| 0 <= i < q0.len() implies q0[i] < m by {
            assert(q0.to_set().contains(q0[i]));
            assert(s.contains(q0[i]));
            if m <= q0[i] {
                assert(r(m, q0[i]));
                assert(r(q0[i], m));
            }
        }
        assert(strictly_increasing(q)) by {
            assert forall|i: int, j: int| 0 <= i < j < q.len() implies q[i] < q[j] by {
                if j < q0.len() {
                    assert(q[i] == q0[i] && q[j] == q0[j]);
                } else {
                    assert(q[i] == q0[i]);
                }
            }
        }
        assert(q.to_set() =~= s) by {
            assert forall|x: u64| q.to_set().contains(x) <==> s.contains(x) by {
                if q.to_set().contains(x) {
                    let k = choose|k: int| 0 <= k < q.len() && q[k] == x;
                    if k < q0.len() {
                        assert(q0[k] == x);
                        assert(q0.contains(x));
                    }
                }
                if s.contains(x) {
                    if x == m {
                        assert(q[q0.len() as int] == x);
                    } else {
                        assert(rest.contains(x));
                        assert(q0.to_set().contains(x));
                        let k = choose|k: int| 0 <= k < q0.len() && q0[k] == x;
                        assert(q[k] == x);
                    }
                    assert(q.contains(x));
                }
            }
        }
        assert(enumerates_ascending(q, s));
    }
}

/// When there is no failure, `check` passes every element.
pub proof fn lemma_first_failure_none_all<A, E>(q: Seq<A>, check: spec_fn(A) -> Option<E>)
    requires
        first_failure(q, check) is None,
    ensures
        forall|j: int| 0 <= j < q.len() ==> check(#[trigger] q[j]) is None,
    decreases q.len(),
{
    if q.len() > 0 {
        let t = q.drop_first();
        lemma_first_failure_none_all(t, check);
        assert forall|j: int| 0 <= j < q.len() implies check(#[trigger] q[j]) is None by {
            if j > 0 {
                assert(q[j] == t[j - 1]);
            }
        }
    }
}

} // verus!
