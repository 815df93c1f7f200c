//! The checksum of font data: the sum of its big-endian 32-bit words.
use vstd::prelude::*;

verus! {

/// Byte `i` of `s`, or zero past its end.
pub open spec fn byte_or_zero(s: Seq<u8>, i: int) -> int {
    if 0 <= i < s.len() {
        s[i] as int
    } else {
        0
    }
}

/// The big-endian 32-bit word made of the first four bytes of `s`, padded
/// with zeros.
pub open spec fn first_word(s: Seq<u8>) -> int {
    byte_or_zero(s, 0) * 0x100_0000 + byte_or_zero(s, 1) * 0x1_0000 + byte_or_zero(s, 2) * 0x100
        + byte_or_zero(s, 3)
}

/// The sum of the big-endian 32-bit words of `s`, the last one padded with
/// zeros.
pub open spec fn word_sum(s: Seq<u8>) -> int
    decreases s.len(),
{
    if s.len() == 0 {
        0
    } else if s.len() <= 4 {
        first_word(s)
    } else {
        first_word(s) + word_sum(s.skip(4))
    }
}

/// The checksum of font data: the sum of its words modulo 2^32.
pub open spec fn checksum(s: Seq<u8>) -> u32 {
    (word_sum(s) % 0x1_0000_0000) as u32
}

/// One word, then the rest: holds whenever at least four bytes are left.
proof fn lemma_word_sum_step(s: Seq<u8>)
    requires
        s.len() >= 4,
    ensures
        word_sum(s) == first_word(s) + word_sum(s.skip(4)),
{
    if s.len() == 4 {
        assert(s.skip(4).len() == 0);
    }
}

/// Computes the checksum of font data.
pub fn ttf_checksum(data: &[u8]) -> (r: u32)
    ensures
        r == checksum(data@),
{
    let ghost d = data@;
    let mut sum: u32 = 0;
    let mut i: usize = 0;
    assert(d.skip(0) =~= d);
    while data.len() - i >= 4
        invariant
            d == data@,
            i <= d.len(),
            (sum + word_sum(d.skip(i as int))) % 0x1_0000_0000 == word_sum(d) % 0x1_0000_0000,
        decreases d.len() - i,
    {
        let word: u32 = data[i] as u32 * 0x100_0000 + data[i + 1] as u32 * 0x1_0000
            + data[i + 2] as u32 * 0x100 + data[i + 3] as u32;
        proof {
            let rest = d.skip(i as int);
            lemma_word_sum_step(rest);
            assert(rest.skip(4) =~= d.skip(i + 4));
            assert(word == first_word(rest));
            vstd::arithmetic::div_mod::lemma_add_mod_noop(
                sum + word as int,
                word_sum(d.skip(i + 4)),
                0x1_0000_0000,
            );
            vstd::arithmetic::div_mod::lemma_add_mod_noop(
                (sum + word) % 0x1_0000_0000,
                word_sum(d.skip(i + 4)),
                0x1_0000_0000,
            );
            vstd::arithmetic::div_mod::lemma_mod_twice(sum + word as int, 0x1_0000_0000);
        }
        sum = ((sum as u64 + word as u64) % 0x1_0000_0000) as u32;
        i = i + 4;
    }
    let remaining = data.len() - i;
    if remaining > 0 {
        let b0: u32 = data[i] as u32;
        let b1: u32 = if remaining > 1 {
            data[i + 1] as u32
        } else {
            0
        };
        let b2: u32 = if remaining > 2 {
            data[i + 2] as u32
        } else {
            0
        };
        let word: u32 = b0 * 0x100_0000 + b1 * 0x1_0000 + b2 * 0x100;
        proof {
            let rest = d.skip(i as int);
            assert(word == first_word(rest));
            assert(word_sum(rest) == first_word(rest));
            vstd::arithmetic::div_mod::lemma_add_mod_noop(sum + word as int, 0, 0x1_0000_0000);
        }
        sum = ((sum as u64 + word as u64) % 0x1_0000_0000) as u32;
    } else {
        proof {
            assert(d.skip(i as int).len() == 0);
        }
    }
    sum
}

/// The words of data whose length is a multiple of four, then the words of
/// what follows.
pub proof fn lemma_word_sum_append(a: Seq<u8>, b: Seq<u8>)
    requires
        a.len() % 4 == 0,
    ensures
        word_sum(a + b) == word_sum(a) + word_sum(b),
    decreases a.len(),
{
    if a.len() == 0 {
        assert(a + b =~= b);
    } else {
        lemma_word_sum_step(a);
        lemma_word_sum_step(a + b);
        assert(first_word(a + b) == first_word(a));
        assert((a + b).skip(4) =~= a.skip(4) + b);
        lemma_word_sum_append(a.skip(4), b);
    }
}

/// Zero bytes at the end add nothing.
pub proof fn lemma_word_sum_zeros(s: Seq<u8>, k: nat)
    ensures
        word_sum(s + Seq::new(k, |i: int| 0u8)) == word_sum(s),
    decreases s.len() + k,
{
    let z = Seq::new(k, |i: int| 0u8);
    let t = s + z;
    if t.len() == 0 {
    } else if s.len() == 0 {
        assert(t =~= z);
        if k <= 4 {
            assert(first_word(t) == 0);
        } else {
            assert(first_word(t) == 0);
            assert(t.skip(4) =~= Seq::<u8>::empty() + Seq::new((k - 4) as nat, |i: int| 0u8));
            lemma_word_sum_zeros(Seq::empty(), (k - 4) as nat);
        }
    } else if t.len() <= 4 {
        assert(first_word(t) == first_word(s));
    } else if s.len() <= 4 {
        assert(first_word(t) == first_word(s));
        let m = (4 - s.len()) as nat;
        assert(t.skip(4) =~= Seq::<u8>::empty() + Seq::new((k - m) as nat, |i: int| 0u8));
        lemma_word_sum_zeros(Seq::empty(), (k - m) as nat);
    } else {
        assert(first_word(t) == first_word(s));
        assert(t.skip(4) =~= s.skip(4) + z);
        lemma_word_sum_zeros(s.skip(4), k);
    }
}

/// The word of four big-endian bytes is their value.
pub proof fn lemma_word_sum_be32(v: u32)
    ensures
        word_sum(crate::bytes_spec::u32_bytes(v)) == v,
{
    let s = crate::bytes_spec::u32_bytes(v);
    assert(s.len() == 4);
    let x = v as int;
    assert(x == (x / 0x100_0000) * 0x100_0000 + ((x / 0x1_0000) % 0x100) * 0x1_0000 + ((x / 0x100)
        % 0x100) * 0x100 + x % 0x100) by (nonlinear_arith)
        requires
            0 <= x < 0x1_0000_0000,
    ;
}

/// The checksum of data made of two parts, the first a whole number of
/// words, is the wrapping sum of their checksums: the parts can be summed
/// in any order.
pub proof fn lemma_checksum_append(a: Seq<u8>, b: Seq<u8>)
    requires
        a.len() % 4 == 0,
    ensures
        checksum(a + b) == ((checksum(a) + checksum(b)) % 0x1_0000_0000) as u32,
{
    lemma_word_sum_append(a, b);
    vstd::arithmetic::div_mod::lemma_add_mod_noop(word_sum(a), word_sum(b), 0x1_0000_0000);
}

} // verus!
