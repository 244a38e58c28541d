//! A stable sort by an integer key, the spec of the orders the manager
//! keeps (the list order, the queue order of the Queued view, the order of
//! fetched pages), and the facts that make it the one stable sort.
use vstd::prelude::*;

verus! {

broadcast use vstd::seq_lib::group_to_multiset_ensures;

/// `x` put into `s` after every trailing element whose key exceeds its own,
/// i.e. behind all elements with a key at most its key.
pub open spec fn insert_by_key<A>(s: Seq<A>, x: A, key: spec_fn(A) -> int) -> Seq<A>
    decreases s.len(),
{
    if s.len() == 0 {
        seq![x]
    } else if key(s.last()) <= key(x) {
        s.push(x)
    } else {
        insert_by_key(s.drop_last(), x, key).push(s.last())
    }
}

/// The stable sort of `s` by ascending key: elements with equal keys keep
/// their order in `s`.
pub open spec fn sort_by_key<A>(s: Seq<A>, key: spec_fn(A) -> int) -> Seq<A>
    decreases s.len(),
{
    if s.len() == 0 {
        s
    } else {
        insert_by_key(sort_by_key(s.drop_last(), key), s.last(), key)
    }
}

/// Keys ascend along `s`.
pub open spec fn sorted_by_key<A>(s: Seq<A>, key: spec_fn(A) -> int) -> bool {
    forall|i: int, j: int| 0 <= i <= j < s.len() ==> key(s[i]) <= key(s[j])
}

/// The elements of `s` whose key is `k`, in their order in `s`.
pub open spec fn with_key<A>(s: Seq<A>, key: spec_fn(A) -> int, k: int) -> Seq<A>
    decreases s.len(),
{
    if s.len() == 0 {
        s
    } else if key(s.last()) == k {
        with_key(s.drop_last(), key, k).push(s.last())
    } else {
        with_key(s.drop_last(), key, k)
    }
}

/// Where the scan from the end stops, inserting there is `insert_by_key`.
pub proof fn lemma_insert_by_key_at<A>(s: Seq<A>, x: A, key: spec_fn(A) -> int, j: int)
    requires
        0 <= j <= s.len(),
        j == 0 || key(s[j - 1]) <= key(x),
        forall|k: int| j <= k < s.len() ==> key(s[k]) > key(x),
    ensures
        insert_by_key(s, x, key) == s.insert(j, x),
    decreases s.len(),
{
    if s.len() == 0 {
        assert(s.insert(j, x) =~= seq![x]);
    } else if j == s.len() {
        assert(s.insert(j, x) =~= s.push(x));
    } else {
        let t = s.drop_last();
        lemma_insert_by_key_at(t, x, key, j);
        assert(s.insert(j, x) =~= t.insert(j, x).push(s.last()));
    }
}

proof fn lemma_insert_by_key_multiset<A>(s: Seq<A>, x: A, key: spec_fn(A) -> int)
    ensures
        insert_by_key(s, x, key).to_multiset() == s.to_multiset().insert(x),
    decreases s.len(),
{
    broadcast use vstd::seq_lib::to_multiset_build;
    if s.len() == 0 {
        assert(seq![x] =~= s.push(x));
    } else if key(s.last()) <= key(x) {
    } else {
        let t = s.drop_last();
        lemma_insert_by_key_multiset(t, x, key);
        assert(s =~= t.push(s.last()));
        assert(insert_by_key(s, x, key).to_multiset() =~= s.to_multiset().insert(x));
    }
}

proof fn lemma_insert_by_key_len<A>(s: Seq<A>, x: A, key: spec_fn(A) -> int)
    ensures
        insert_by_key(s, x, key).len() == s.len() + 1,
    decreases s.len(),
{
    if s.len() > 0 && key(s.last()) > key(x) {
        lemma_insert_by_key_len(s.drop_last(), x, key);
    }
}

proof fn lemma_insert_by_key_sorted<A>(s: Seq<A>, x: A, key: spec_fn(A) -> int)
    requires
        sorted_by_key(s, key),
    ensures
        sorted_by_key(insert_by_key(s, x, key), key),
        insert_by_key(s, x, key).len() == s.len() + 1,
        // the last element is either the old last or `x`
        s.len() > 0 ==> (insert_by_key(s, x, key).last() == s.last()
            || insert_by_key(s, x, key).last() == x),
        s.len() > 0 ==> key(insert_by_key(s, x, key).last()) == if key(s.last()) <= key(x) {
            key(x)
        } else {
            key(s.last())
        },
    decreases s.len(),
{
    lemma_insert_by_key_len(s, x, key);
    if s.len() == 0 {
    } else if key(s.last()) <= key(x) {
    } else {
        let t = s.drop_last();
        lemma_insert_by_key_sorted(t, x, key);
        let r = insert_by_key(t, x, key);
        assert forall|i: int, j: int| 0 <= i <= j < r.len() + 1 implies key(
            r.push(s.last())[i],
        ) <= key(r.push(s.last())[j]) by {
            if j == r.len() && i < r.len() {
                if t.len() > 0 {
                    assert(key(r[i]) <= key(r.last()));
                }
            }
        }
    }
}

/// The stable sort holds the same elements, as a multiset.
pub proof fn lemma_sort_by_key_permutes<A>(s: Seq<A>, key: spec_fn(A) -> int)
    ensures
        sort_by_key(s, key).to_multiset() == s.to_multiset(),
        sort_by_key(s, key).len() == s.len(),
    decreases s.len(),
{
    broadcast use vstd::seq_lib::to_multiset_build;
    if s.len() > 0 {
        let t = s.drop_last();
        lemma_sort_by_key_permutes(t, key);
        lemma_insert_by_key_multiset(sort_by_key(t, key), s.last(), key);
        lemma_insert_by_key_len(sort_by_key(t, key), s.last(), key);
        assert(s =~= t.push(s.last()));
    }
}

/// The stable sort puts keys in ascending order.
pub proof fn lemma_sort_by_key_sorted<A>(s: Seq<A>, key: spec_fn(A) -> int)
    ensures
        sorted_by_key(sort_by_key(s, key), key),
    decreases s.len(),
{
    if s.len() > 0 {
        lemma_sort_by_key_sorted(s.drop_last(), key);
        lemma_insert_by_key_sorted(sort_by_key(s.drop_last(), key), s.last(), key);
    }
}

proof fn lemma_insert_by_key_with_key<A>(s: Seq<A>, x: A, key: spec_fn(A) -> int, k: int)
    ensures
        with_key(insert_by_key(s, x, key), key, k) == if key(x) == k {
            with_key(s, key, k).push(x)
        } else {
            with_key(s, key, k)
        },
    decreases s.len(),
{
    if s.len() == 0 {
        assert(seq![x].drop_last() =~= s);
    } else if key(s.last()) <= key(x) {
        assert(s.push(x).drop_last() =~= s);
    } else {
        let t = s.drop_last();
        lemma_insert_by_key_with_key(t, x, key, k);
        let r = insert_by_key(t, x, key);
        assert(r.push(s.last()).drop_last() =~= r);
    }
}

/// The sort is stable: for every key, the elements with that key come out
/// in the order in which they came in.
pub proof fn lemma_sort_by_key_stable<A>(s: Seq<A>, key: spec_fn(A) -> int, k: int)
    ensures
        with_key(sort_by_key(s, key), key, k) == with_key(s, key, k),
    decreases s.len(),
{
    if s.len() > 0 {
        let t = s.drop_last();
        lemma_sort_by_key_stable(t, key, k);
        lemma_insert_by_key_with_key(sort_by_key(t, key), s.last(), key, k);
    }
}

/// Two sequences sorted by a key, holding the same elements, where no two
/// elements of the first share a key, are the same sequence.
pub proof fn lemma_sorted_unique<A>(a: Seq<A>, b: Seq<A>, key: spec_fn(A) -> int)
    requires
        sorted_by_key(a, key),
        sorted_by_key(b, key),
        a.to_multiset() == b.to_multiset(),
        forall|i: int, j: int| 0 <= i < j < a.len() ==> key(a[i]) != key(a[j]),
    ensures
        a == b,
    decreases a.len(),
{
    assert(a.len() == b.len()) by {
        vstd::seq_lib::to_multiset_len(a);
        vstd::seq_lib::to_multiset_len(b);
    }
    if a.len() == 0 {
        assert(a =~= b);
    } else {
        let n = a.len() - 1;
        let x = a[n];
        let y = b[n];
        assert(a.contains(x));
        assert(a.to_multiset().count(x) > 0);
        assert(b.contains(x));
        let j = choose|j: int| 0 <= j < b.len() && b[j] == x;
        assert(key(b[j]) <= key(b[n]));
        assert(b.contains(y));
        assert(b.to_multiset().count(y) > 0);
        assert(a.contains(y));
        let i = choose|i: int| 0 <= i < a.len() && a[i] == y;
        assert(key(a[i]) <= key(a[n]));
        assert(i == n);
        assert(x == y);
        assert(a.remove(n) =~= a.drop_last());
        assert(b.remove(n) =~= b.drop_last());
        assert(a.drop_last().to_multiset() == b.drop_last().to_multiset());
        lemma_sorted_unique(a.drop_last(), b.drop_last(), key);
        assert(a =~= a.drop_last().push(x));
        assert(b =~= b.drop_last().push(y));
    }
}

} // verus!
