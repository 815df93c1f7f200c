//! Stable sorting by an integer key, as a specification.
//!
//! A stable sort places each element, in input order, after every element
//! already placed whose key is not greater than its own.
use vstd::prelude::*;

verus! {

/// The elements of `r` whose key is at most `k`.
pub open spec fn key_le<T>(r: Seq<T>, key: spec_fn(T) -> int, k: int) -> Seq<T> {
    r.filter(|y: T| key(y) <= k)
}

/// The elements of `r` whose key is greater than `k`.
pub open spec fn key_gt<T>(r: Seq<T>, key: spec_fn(T) -> int, k: int) -> Seq<T> {
    r.filter(|y: T| key(y) > k)
}

/// `x` placed after the elements of `r` whose key does not exceed its own,
/// and before the others.
pub open spec fn insert_by_key<T>(r: Seq<T>, x: T, key: spec_fn(T) -> int) -> Seq<T> {
    key_le(r, key, key(x)) + seq![x] + key_gt(r, key, key(x))
}

/// The stable sort of `s` by `key`.
pub open spec fn stable_sort_by_key<T>(s: Seq<T>, key: spec_fn(T) -> int) -> Seq<T>
    decreases s.len(),
{
    if s.len() == 0 {
        s
    } else {
        insert_by_key(stable_sort_by_key(s.drop_last(), key), s.last(), key)
    }
}

/// The keys never decrease along `s`.
pub open spec fn sorted_by_key<T>(s: Seq<T>, key: spec_fn(T) -> int) -> bool {
    forall|i: int, j: int| 0 <= i <= j < s.len() ==> key(#[trigger] s[i]) <= key(#[trigger] s[j])
}

/// In a sorted sequence, the keys at most `k` form a prefix.
pub proof fn lemma_sorted_split<T>(r: Seq<T>, key: spec_fn(T) -> int, k: int) -> (j: int)
    requires
        sorted_by_key(r, key),
    ensures
        0 <= j <= r.len(),
        forall|i: int| 0 <= i < j ==> key(#[trigger] r[i]) <= k,
        forall|i: int| j <= i < r.len() ==> key(#[trigger] r[i]) > k,
    decreases r.len(),
{
    if r.len() == 0 {
        0
    } else {
        let p = r.drop_last();
        assert forall|i: int, j: int| 0 <= i <= j < p.len() implies key(#[trigger] p[i]) <= key(
            #[trigger] p[j],
        ) by {
            assert(p[i] == r[i] && p[j] == r[j]);
        }
        let j0 = lemma_sorted_split(p, key, k);
        if key(r.last()) <= k {
            assert forall|i: int| 0 <= i < r.len() implies key(#[trigger] r[i]) <= k by {
                assert(r[i] == r[i] && r.last() == r[r.len() - 1]);
            }
            r.len() as int
        } else {
            assert forall|i: int| j0 <= i < r.len() implies key(#[trigger] r[i]) > k by {
                if i < r.len() - 1 {
                    assert(p[i] == r[i]);
                }
            }
            assert forall|i: int| 0 <= i < j0 implies key(#[trigger] r[i]) <= k by {
                assert(p[i] == r[i]);
            }
            j0
        }
    }
}

/// Where the keys at most `k` form the prefix of length `j`, the two
/// filters are that prefix and the rest.
pub proof fn lemma_filter_split<T>(r: Seq<T>, key: spec_fn(T) -> int, k: int, j: int)
    requires
        0 <= j <= r.len(),
        forall|i: int| 0 <= i < j ==> key(#[trigger] r[i]) <= k,
        forall|i: int| j <= i < r.len() ==> key(#[trigger] r[i]) > k,
    ensures
        key_le(r, key, k) == r.take(j),
        key_gt(r, key, k) == r.skip(j),
    decreases r.len(),
{
    reveal(Seq::filter);
    if r.len() == 0 {
        assert(r.take(j) =~= r);
        assert(r.skip(j) =~= r);
    } else {
        let p = r.drop_last();
        let last = r.last();
        assert(last == r[r.len() - 1]);
        if j == r.len() {
            lemma_filter_split(p, key, k, j - 1);
            assert(key_le(r, key, k) == key_le(p, key, k).push(last));
            assert(key_gt(r, key, k) == key_gt(p, key, k));
            assert(p.take(j - 1).push(last) =~= r.take(j));
            assert(p.skip(j - 1) =~= r.skip(j));
        } else {
            lemma_filter_split(p, key, k, j);
            assert(key_le(r, key, k) == key_le(p, key, k));
            assert(key_gt(r, key, k) == key_gt(p, key, k).push(last));
            assert(p.take(j) =~= r.take(j));
            assert(p.skip(j).push(last) =~= r.skip(j));
        }
    }
}

/// Placing `x` in a sorted sequence is inserting it at the split point of
/// its key; the result is sorted and holds one more `x`.
pub proof fn lemma_insert_by_key<T>(r: Seq<T>, x: T, key: spec_fn(T) -> int, j: int)
    requires
        sorted_by_key(r, key),
        0 <= j <= r.len(),
        forall|i: int| 0 <= i < j ==> key(#[trigger] r[i]) <= key(x),
        forall|i: int| j <= i < r.len() ==> key(#[trigger] r[i]) > key(x),
    ensures
        insert_by_key(r, x, key) == r.insert(j, x),
        sorted_by_key(r.insert(j, x), key),
        r.insert(j, x).to_multiset() == r.to_multiset().insert(x),
{
    lemma_filter_split(r, key, key(x), j);
    assert(r.take(j) + seq![x] + r.skip(j) =~= r.insert(j, x));
    let s = r.insert(j, x);
    assert forall|a: int, b: int| 0 <= a <= b < s.len() implies key(#[trigger] s[a]) <= key(
        #[trigger] s[b],
    ) by {
        if a < j {
            assert(s[a] == r[a]);
        } else if a > j {
            assert(s[a] == r[a - 1]);
        }
        if b < j {
            assert(s[b] == r[b]);
        } else if b > j {
            assert(s[b] == r[b - 1]);
        }
    }
    vstd::seq_lib::to_multiset_insert(r, j, x);
}

/// A stable sort is sorted and holds the same elements.
pub proof fn lemma_stable_sort<T>(s: Seq<T>, key: spec_fn(T) -> int)
    ensures
        sorted_by_key(stable_sort_by_key(s, key), key),
        stable_sort_by_key(s, key).to_multiset() == s.to_multiset(),
        stable_sort_by_key(s, key).len() == s.len(),
    decreases s.len(),
{
    broadcast use vstd::seq_lib::group_to_multiset_ensures;

    if s.len() > 0 {
        let p = s.drop_last();
        lemma_stable_sort(p, key);
        let r = stable_sort_by_key(p, key);
        let j = lemma_sorted_split(r, key, key(s.last()));
        lemma_insert_by_key(r, s.last(), key, j);
        assert(p.push(s.last()) =~= s);
    }
}

} // verus!
