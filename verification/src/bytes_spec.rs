//! Mathematical description of big-endian integer encodings.
use vstd::prelude::*;

verus! {

/// The two's-complement reading of a signed 16-bit value as an unsigned one.
pub open spec fn i16_as_u16(v: int) -> int {
    if v < 0 { v + 0x1_0000 } else { v }
}

/// The two's-complement reading of a signed 32-bit value as an unsigned one.
pub open spec fn i32_as_u32(v: int) -> int {
    if v < 0 { v + 0x1_0000_0000 } else { v }
}

/// Big-endian bytes of a value in `0..2^16`.
pub open spec fn be16(v: int) -> Seq<u8> {
    seq![(v / 0x100) as u8, (v % 0x100) as u8]
}

/// Big-endian bytes of a value in `0..2^32`.
pub open spec fn be32(v: int) -> Seq<u8> {
    seq![
        (v / 0x100_0000) as u8,
        ((v / 0x1_0000) % 0x100) as u8,
        ((v / 0x100) % 0x100) as u8,
        (v % 0x100) as u8,
    ]
}

/// Big-endian bytes of a value in `0..2^64`.
pub open spec fn be64(v: int) -> Seq<u8> {
    be32(v / 0x1_0000_0000) + be32(v % 0x1_0000_0000)
}

pub open spec fn u16_bytes(v: u16) -> Seq<u8> {
    be16(v as int)
}

pub open spec fn i16_bytes(v: i16) -> Seq<u8> {
    be16(i16_as_u16(v as int))
}

pub open spec fn u32_bytes(v: u32) -> Seq<u8> {
    be32(v as int)
}

pub open spec fn i32_bytes(v: i32) -> Seq<u8> {
    be32(i32_as_u32(v as int))
}

pub open spec fn u64_bytes(v: u64) -> Seq<u8> {
    be64(v as int)
}

pub open spec fn i8_bytes(v: i8) -> Seq<u8> {
    seq![(if v < 0 { v + 0x100 } else { v as int }) as u8]
}

/// The signed (two's-complement) byte at offset `o` of `s`.
pub open spec fn read_i8(s: Seq<u8>, o: int) -> int {
    if s[o] >= 0x80 {
        s[o] - 0x100
    } else {
        s[o] as int
    }
}

/// The byte of an `i8` reads back as it.
pub proof fn lemma_read_i8(v: i8)
    ensures
        read_i8(i8_bytes(v), 0) == v,
{
}

/// The unsigned big-endian 16-bit number at offset `o` of `s`.
pub open spec fn read_u16(s: Seq<u8>, o: int) -> int {
    s[o] as int * 0x100 + s[o + 1] as int
}

/// The signed (two's-complement) big-endian 16-bit number at offset `o` of
/// `s`.
pub open spec fn read_i16(s: Seq<u8>, o: int) -> int {
    let u = read_u16(s, o);
    if u >= 0x8000 {
        u - 0x1_0000
    } else {
        u
    }
}

/// The unsigned big-endian 32-bit number at offset `o` of `s`.
pub open spec fn read_u32(s: Seq<u8>, o: int) -> int {
    read_u16(s, o) * 0x1_0000 + read_u16(s, o + 2)
}

/// The signed big-endian 32-bit number at offset `o` of `s`.
pub open spec fn read_i32(s: Seq<u8>, o: int) -> int {
    let u = read_u32(s, o);
    if u >= 0x8000_0000 {
        u - 0x1_0000_0000
    } else {
        u
    }
}

/// The unsigned big-endian 64-bit number at offset `o` of `s`.
pub open spec fn read_u64(s: Seq<u8>, o: int) -> int {
    read_u32(s, o) * 0x1_0000_0000 + read_u32(s, o + 4)
}

/// The bytes of a `u64` read back as it.
pub proof fn lemma_read_u64(v: u64)
    ensures
        read_u64(u64_bytes(v), 0) == v,
{
    let x = v as int;
    let hi = x / 0x1_0000_0000;
    let lo = x % 0x1_0000_0000;
    lemma_read_u32(hi as u32);
    lemma_read_u32(lo as u32);
    let b = u64_bytes(v);
    assert(b == be32(hi) + be32(lo));
    assert(b.subrange(4, 8) =~= be32(lo));
    lemma_read_at(b, 4, be32(lo));
    assert(b.subrange(0, 4) =~= be32(hi));
    lemma_read_at(b, 0, be32(hi));
}

/// The bytes of a `u16` read back as it.
pub proof fn lemma_read_u16(v: u16)
    ensures
        read_u16(u16_bytes(v), 0) == v,
{
}

/// The bytes of an `i16` read back as it.
pub proof fn lemma_read_i16(v: i16)
    ensures
        read_i16(i16_bytes(v), 0) == v,
{
}

/// The bytes of a `u32` read back as it.
pub proof fn lemma_read_u32(v: u32)
    ensures
        read_u32(u32_bytes(v), 0) == v,
{
    let x = v as int;
    assert(x == (x / 0x100_0000) * 0x100_0000 + ((x / 0x1_0000) % 0x100) * 0x1_0000 + ((x / 0x100)
        % 0x100) * 0x100 + x % 0x100) by (nonlinear_arith)
        requires
            0 <= x < 0x1_0000_0000,
    ;
}

/// The bytes of an `i32` read back as it.
pub proof fn lemma_read_i32(v: i32)
    ensures
        read_i32(i32_bytes(v), 0) == v,
{
    let x = i32_as_u32(v as int);
    assert(x == (x / 0x100_0000) * 0x100_0000 + ((x / 0x1_0000) % 0x100) * 0x1_0000 + ((x / 0x100)
        % 0x100) * 0x100 + x % 0x100) by (nonlinear_arith)
        requires
            0 <= x < 0x1_0000_0000,
    ;
}

/// A number is read from the bytes at its offset alone.
pub proof fn lemma_read_at(s: Seq<u8>, o: int, b: Seq<u8>)
    requires
        0 <= o,
        o + b.len() <= s.len(),
        s.subrange(o, o + b.len()) == b,
    ensures
        b.len() >= 2 ==> read_u16(s, o) == read_u16(b, 0) && read_i16(s, o) == read_i16(b, 0),
        b.len() >= 4 ==> read_u32(s, o) == read_u32(b, 0) && read_i32(s, o) == read_i32(b, 0),
        b.len() >= 8 ==> read_u64(s, o) == read_u64(b, 0),
{
    if b.len() >= 2 {
        assert(s[o] == b[0] && s[o + 1] == b[1]);
    }
    if b.len() >= 4 {
        assert(s[o + 2] == b[2] && s[o + 3] == b[3]);
    }
    if b.len() >= 8 {
        assert(s[o + 4] == b[4] && s[o + 5] == b[5] && s[o + 6] == b[6] && s[o + 7] == b[7]);
    }
}

} // verus!
