//! Helpers for describing byte streams made of many pieces.
use vstd::prelude::*;

verus! {

/// The concatenation of `f(s[0]) + f(s[1]) + ...`.
pub open spec fn concat_map<T>(s: Seq<T>, f: spec_fn(T) -> Seq<u8>) -> Seq<u8>
    decreases s.len(),
{
    if s.len() == 0 {
        Seq::empty()
    } else {
        concat_map(s.drop_last(), f) + f(s.last())
    }
}

pub proof fn lemma_concat_map_push<T>(s: Seq<T>, x: T, f: spec_fn(T) -> Seq<u8>)
    ensures
        concat_map(s.push(x), f) == concat_map(s, f) + f(x),
{
    assert(s.push(x).drop_last() =~= s);
}

pub proof fn lemma_concat_map_take_step<T>(s: Seq<T>, i: int, f: spec_fn(T) -> Seq<u8>)
    requires
        0 <= i < s.len(),
    ensures
        concat_map(s.take(i + 1), f) == concat_map(s.take(i), f) + f(s[i]),
{
    assert(s.take(i + 1) =~= s.take(i).push(s[i]));
    lemma_concat_map_push(s.take(i), s[i], f);
}

pub proof fn lemma_concat_map_len<T>(s: Seq<T>, f: spec_fn(T) -> Seq<u8>, k: nat)
    requires
        forall|i: int| 0 <= i < s.len() ==> (#[trigger] f(s[i])).len() == k,
    ensures
        concat_map(s, f).len() == s.len() * k,
    decreases s.len(),
{
    if s.len() > 0 {
        lemma_concat_map_len(s.drop_last(), f, k);
        assert(f(s[s.len() - 1]).len() == k);
        assert((s.len() - 1) * k + k == s.len() * k) by (nonlinear_arith);
    }
}

pub proof fn lemma_concat_map_append<T>(a: Seq<T>, b: Seq<T>, f: spec_fn(T) -> Seq<u8>)
    ensures
        concat_map(a + b, f) == concat_map(a, f) + concat_map(b, f),
    decreases b.len(),
{
    if b.len() == 0 {
        assert(a + b =~= a);
    } else {
        lemma_concat_map_append(a, b.drop_last(), f);
        assert((a + b).drop_last() =~= a + b.drop_last());
        assert((a + b).last() == b.last());
    }
}

} // verus!

verus! {

pub proof fn lemma_concat_map_take_len<T>(s: Seq<T>, i: int, f: spec_fn(T) -> Seq<u8>)
    requires
        0 <= i <= s.len(),
    ensures
        concat_map(s.take(i), f).len() <= concat_map(s, f).len(),
{
    lemma_concat_map_append(s.take(i), s.skip(i), f);
    assert(s.take(i) + s.skip(i) =~= s);
}

} // verus!

verus! {

/// The pieces before the `k`-th, the `k`-th, and the pieces after it.
pub proof fn lemma_concat_map_split<T>(s: Seq<T>, f: spec_fn(T) -> Seq<u8>, k: int)
    requires
        0 <= k < s.len(),
    ensures
        concat_map(s, f) == concat_map(s.take(k), f) + f(s[k]) + concat_map(s.skip(k + 1), f),
{
    lemma_concat_map_append(s.take(k + 1), s.skip(k + 1), f);
    assert(s.take(k + 1) + s.skip(k + 1) =~= s);
    lemma_concat_map_take_step(s, k, f);
}


/// Where every item is encoded in `k` bytes, item `i` is encoded at
/// `i * k`.
pub proof fn lemma_concat_map_fixed_at<T>(s: Seq<T>, f: spec_fn(T) -> Seq<u8>, k: nat, i: int)
    requires
        0 <= i < s.len(),
        forall|j: int| 0 <= j < s.len() ==> (#[trigger] f(s[j])).len() == k,
    ensures
        concat_map(s, f).len() == s.len() * k,
        i * k + k <= s.len() * k,
        concat_map(s, f).subrange(i * k, i * k + k) == f(s[i]),
{
    lemma_concat_map_len(s, f, k);
    lemma_concat_map_split(s, f, i);
    let t = s.take(i);
    assert forall|j: int| 0 <= j < t.len() implies (#[trigger] f(t[j])).len() == k by {
        assert(t[j] == s[j]);
    }
    lemma_concat_map_len(t, f, k);
    let a = concat_map(t, f);
    let b = f(s[i]);
    let c = concat_map(s.skip(i + 1), f);
    assert(a.len() == i * k);
    assert(i * k + k <= s.len() * k) by (nonlinear_arith)
        requires
            0 <= i < s.len(),
    ;
    assert((a + b + c).subrange(i * k, i * k + k) =~= b);
}

} // verus!
