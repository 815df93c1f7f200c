//! CFF2 numeral encodings.
//!
//! The first byte `b0` of an encoded number tells its form:
//!
//! | `b0`       | range           | value                          | bytes |
//! |------------|-----------------|--------------------------------|-------|
//! | 32..=246   | -107..=107      | `b0 - 139`                     | 1     |
//! | 247..=250  | 108..=1131      | `(b0 - 247) * 256 + b1 + 108`  | 2     |
//! | 251..=254  | -1131..=-108    | `-(b0 - 251) * 256 - b1 - 108` | 2     |
//! | 28         | `i16`           | `b1`, `b2` as an `i16`         | 3     |
//! | 255        | 16.16 fixed     | `b1` to `b4` as a `Fixed`      | 5     |
//! | 29         | `i32`           | `b1` to `b4` as an `i32`       | 5     |
//! | 30         | any             | binary coded decimal           | any   |
//!
//! In binary coded decimal, each nibble is a digit 0 to 9, or 0xA for a
//! decimal point, 0xB for `E`, 0xC for `E-`, 0xE for a minus sign and 0xF
//! for the end of the number.
use crate::buf::BufSink;
use crate::bytes_spec::{i16_bytes, i32_bytes, lemma_read_at, lemma_read_i32, read_i32};
use vstd::prelude::*;

verus! {

/// The short form of a number between -1131 and 1131, or `None` outside.
pub open spec fn n1131_bytes(v: int) -> Option<Seq<u8>> {
    if -107 <= v <= 107 {
        Some(seq![(v + 139) as u8])
    } else if 108 <= v <= 1131 {
        Some(seq![((v - 108) / 256 + 247) as u8, ((v - 108) % 256) as u8])
    } else if -1131 <= v <= -108 {
        Some(seq![((-(v + 108)) / 256 + 251) as u8, ((-(v + 108)) % 256) as u8])
    } else {
        None
    }
}

/// Write a number in the range between -1131 and 1131 in CFF2 encoding format.
/// If the number is out of range, return false.
fn write_n1131_to_1131<W: BufSink>(value: i16, writer: &mut W) -> (r: bool)
    requires
        old(writer).written().len() + 2 <= isize::MAX,
    ensures
        r == n1131_bytes(value as int) is Some,
        r ==> final(writer).written() == old(writer).written() + n1131_bytes(value as int)->0,
        !r ==> final(writer).written() == old(writer).written(),
{
    if -107 <= value && value <= 107 {
        writer.put_u8((value + 139) as u8);
        assert(writer.written() =~= old(writer).written() + n1131_bytes(value as int)->0);
    } else if 108 <= value && value <= 1131 {
        writer.put_u8(((value - 108) / 256 + 247) as u8);
        writer.put_u8(((value - 108) % 256) as u8);
        assert(writer.written() =~= old(writer).written() + n1131_bytes(value as int)->0);
    } else if -1131 <= value && value <= -108 {
        writer.put_u8((-(value + 108) / 256 + 251) as u8);
        writer.put_u8((-(value + 108) % 256) as u8);
        assert(writer.written() =~= old(writer).written() + n1131_bytes(value as int)->0);
    } else {
        return false;
    }
    true
}

/// A 16-bit integer operand.
#[derive(Debug, Clone, Copy, PartialEq, Eq, PartialOrd, Ord, Structural)]
pub struct Cff2Int16(pub i16);

impl Cff2Int16 {
    /// The short form where it applies, else 28 and the `i16`.
    pub open spec fn encoding(&self) -> Seq<u8> {
        match n1131_bytes(self.0 as int) {
            Some(b) => b,
            None => seq![28u8] + i16_bytes(self.0),
        }
    }

    pub fn write<W: BufSink>(&self, writer: &mut W)
        requires
            old(writer).written().len() + 3 <= isize::MAX,
        ensures
            final(writer).written() == old(writer).written() + self.encoding(),
    {
        let value = self.0;
        if !write_n1131_to_1131(value, writer) {
            writer.put_u8(28);
            writer.put_i16(value);
            assert(writer.written() =~= old(writer).written() + self.encoding());
        }
    }
}

/// A 32-bit integer operand.
#[derive(Debug, Clone, Copy, PartialEq, Eq, PartialOrd, Ord, Structural)]
pub struct Cff2Int32(pub i32);

impl Cff2Int32 {
    /// The short form where it applies, else 29 and the `i32`.
    pub open spec fn encoding(&self) -> Seq<u8> {
        match n1131_bytes(self.0 as int) {
            Some(b) => b,
            None => seq![29u8] + i32_bytes(self.0),
        }
    }

    pub fn write<W: BufSink>(&self, writer: &mut W)
        requires
            old(writer).written().len() + 5 <= isize::MAX,
        ensures
            final(writer).written() == old(writer).written() + self.encoding(),
    {
        let value = self.0;
        let short = -1131 <= value && value <= 1131 && write_n1131_to_1131(value as i16, writer);
        if !short {
            writer.put_u8(29);
            writer.put_i32(value);
            assert(writer.written() =~= old(writer).written() + self.encoding());
        }
    }
}

/// A 16.16 fixed-point operand, held as its bits.
#[derive(Debug, Clone, Copy, PartialEq, Eq, PartialOrd, Ord, Structural)]
pub struct Cff2Fixed(pub i32);

/// The integer part of a 16.16 fixed-point number, rounded towards minus
/// infinity, kept in 16 bits.
pub open spec fn int_part(bits: i32) -> i16 {
    (bits >> 16u32) as i16
}

fn f16dot16_int_part(bits: i32) -> (r: i16)
    ensures
        r == int_part(bits),
{
    (bits >> 16u32) as i16
}

impl Cff2Fixed {
    /// A whole number in the short form where it applies, else 255 and the
    /// bits.
    pub open spec fn encoding(&self) -> Seq<u8> {
        if self.0 & 0xffff == 0 && n1131_bytes(int_part(self.0) as int) is Some {
            n1131_bytes(int_part(self.0) as int)->0
        } else {
            seq![255u8] + i32_bytes(self.0)
        }
    }

    pub fn write<W: BufSink>(&self, writer: &mut W)
        requires
            old(writer).written().len() + 5 <= isize::MAX,
        ensures
            final(writer).written() == old(writer).written() + self.encoding(),
    {
        let is_int = self.0 & 0xffff == 0;
        if is_int && write_n1131_to_1131(f16dot16_int_part(self.0), writer) {
            return ;
        }
        writer.put_u8(255);
        writer.put_i32(self.0);
        assert(writer.written() =~= old(writer).written() + self.encoding());
    }
}

/// The decimal digits of `n`, most significant first.
pub open spec fn decimal_digits(n: nat) -> Seq<u8>
    decreases n,
{
    if n < 10 {
        seq![n as u8]
    } else {
        decimal_digits(n / 10).push((n % 10) as u8)
    }
}

/// `10^k`.
pub open spec fn pow10(k: nat) -> nat
    decreases k,
{
    if k == 0 {
        1
    } else {
        10 * pow10((k - 1) as nat)
    }
}

/// A number below `10^k` has at most `k` digits, each below ten.
proof fn lemma_decimal_digits(n: nat, k: nat)
    requires
        1 <= k,
        n < pow10(k),
    ensures
        1 <= decimal_digits(n).len() <= k,
        forall|i: int| 0 <= i < decimal_digits(n).len() ==> #[trigger] decimal_digits(n)[i] < 10,
    decreases n,
{
    if n >= 10 {
        if k == 1 {
            assert(pow10(1) == 10) by {
                reveal_with_fuel(pow10, 2);
            }
        }
        assert(pow10(k) == 10 * pow10((k - 1) as nat));
        lemma_decimal_digits(n / 10, (k - 1) as nat);
        let d = decimal_digits(n);
        assert forall|i: int| 0 <= i < d.len() implies #[trigger] d[i] < 10 by {
            if i < d.len() - 1 {
                assert(d[i] == decimal_digits(n / 10)[i]);
            }
        }
    }
}

proof fn lemma_pow10_bounds()
    ensures
        u128::MAX < pow10(39),
        u32::MAX < pow10(10),
{
    reveal_with_fuel(pow10, 40);
    assert(pow10(10) == 10_000_000_000);
    assert(pow10(39) == 1_000_000_000_000_000_000_000_000_000_000_000_000_000);
}

/// Appends the decimal digits of `n`.
fn push_digits(n: u128, out: &mut Vec<u8>)
    ensures
        final(out)@ == old(out)@ + decimal_digits(n as nat),
    decreases n,
{
    if n >= 10 {
        push_digits(n / 10, out);
    }
    out.push((n % 10) as u8);
    assert(out@ =~= old(out)@ + decimal_digits(n as nat));
}

/// A decimal operand: `mantissa * 10^-scale`.
#[derive(Debug, Clone, Copy, PartialEq, Eq, Structural)]
pub struct Cff2Decimal {
    pub mantissa: i128,
    pub scale: u32,
}

/// The nibbles of a decimal: for zero a single 0; otherwise a minus sign if
/// negative, the digits of the mantissa, and `E-` with the digits of the
/// scale if the scale is not zero.
pub open spec fn decimal_nibbles(d: Cff2Decimal) -> Seq<u8> {
    if d.mantissa == 0 {
        seq![0u8]
    } else {
        let m: nat = if d.mantissa < 0 {
            (-d.mantissa) as nat
        } else {
            d.mantissa as nat
        };
        (if d.mantissa < 0 {
            seq![0xeu8]
        } else {
            seq![]
        }) + decimal_digits(m) + (if d.scale > 0 {
            seq![0xcu8] + decimal_digits(d.scale as nat)
        } else {
            seq![]
        })
    }
}

/// Nibbles packed two to a byte, the first in the high half. For an odd
/// count the last nibble is left out.
pub open spec fn pack(nibs: Seq<u8>) -> Seq<u8>
    decreases nibs.len(),
{
    if nibs.len() < 2 {
        seq![]
    } else {
        seq![(nibs[0] * 16 + nibs[1]) as u8] + pack(nibs.skip(2))
    }
}

proof fn lemma_pack_len(s: Seq<u8>)
    ensures
        pack(s).len() == s.len() / 2,
    decreases s.len(),
{
    if s.len() >= 2 {
        lemma_pack_len(s.skip(2));
    }
}

/// Nibbles packed and ended with 0xF nibbles up to a whole byte: one if the
/// count is odd, two if it is even.
pub open spec fn pack_flushed(nibs: Seq<u8>) -> Seq<u8> {
    if nibs.len() % 2 == 0 {
        pack(nibs) + seq![0xffu8]
    } else {
        pack(nibs.push(0xfu8))
    }
}

proof fn lemma_pack_push2(s: Seq<u8>, a: u8, b: u8)
    requires
        s.len() % 2 == 0,
    ensures
        pack(s.push(a).push(b)) == pack(s) + seq![(a * 16 + b) as u8],
    decreases s.len(),
{
    let u = s.push(a).push(b);
    if s.len() == 0 {
        assert(u.skip(2) =~= Seq::<u8>::empty());
        assert(pack(u.skip(2)) == Seq::<u8>::empty());
        assert(u[0] == a && u[1] == b);
        assert(pack(s) == Seq::<u8>::empty());
        assert(pack(u) =~= pack(s) + seq![(a * 16 + b) as u8]);
    } else {
        let t = s.skip(2);
        lemma_pack_push2(t, a, b);
        assert(u.skip(2) =~= t.push(a).push(b));
        assert(u[0] == s[0] && u[1] == s[1]);
        assert(pack(u) =~= pack(s) + seq![(a * 16 + b) as u8]);
    }
}

/// A writer for writing nibbles to a buffer. The most significant (high)
/// nibble is written first, followed by the least significant (low) nibble.
struct NibbleWriter {
    /// The current nibble to write.
    curr: u8,
    /// Whether the next nibble to write is the high nibble.
    is_high: bool,
}

impl NibbleWriter {
    /// The writer has written the nibbles `nibs` after `base`: every full
    /// byte is in `written`, and a pending high nibble is in `curr`.
    spec fn holds(&self, nibs: Seq<u8>, base: Seq<u8>, written: Seq<u8>) -> bool {
        &&& forall|i: int| 0 <= i < nibs.len() ==> #[trigger] nibs[i] < 16
        &&& self.is_high == (nibs.len() % 2 == 0)
        &&& self.is_high ==> written == base + pack(nibs)
        &&& !self.is_high ==> written == base + pack(nibs.drop_last()) && self.curr == nibs.last()
            * 16
    }

    fn new() -> (r: Self)
        ensures
            forall|base: Seq<u8>| r.holds(seq![], base, base),
    {
        let r = NibbleWriter { curr: 0, is_high: true };
        assert forall|base: Seq<u8>| r.holds(seq![], base, base) by {
            assert(base + pack(seq![]) =~= base);
        }
        r
    }

    fn write_nibble<W: BufSink>(&mut self, writer: &mut W, nibble: u8, Ghost(nibs): Ghost<Seq<u8>>, Ghost(base): Ghost<Seq<u8>>)
        requires
            nibble < 16,
            old(self).holds(nibs, base, old(writer).written()),
            old(writer).written().len() + 1 <= isize::MAX,
        ensures
            final(self).holds(nibs.push(nibble), base, final(writer).written()),
    {
        let ghost next = nibs.push(nibble);
        if self.is_high {
            self.curr = nibble * 16;
            assert(next.drop_last() =~= nibs);
            self.is_high = false;
            assert(next.last() == nibble);
        } else {
            self.curr = self.curr + nibble;
            writer.put_u8(self.curr);
            proof {
                let p = nibs.drop_last();
                assert(p.push(nibs.last()) =~= nibs);
                lemma_pack_push2(p, nibs.last(), nibble);
                assert(next =~= p.push(nibs.last()).push(nibble));
                assert(writer.written() =~= base + pack(next));
            }
            self.is_high = true;
        }
        assert forall|i: int| 0 <= i < nibs.push(nibble).len() implies #[trigger] nibs.push(nibble)[i] < 16 by {
            if i < nibs.len() {
                assert(nibs.push(nibble)[i] == nibs[i]);
            }
        }
    }

    /// Flush self with one or more `f` nibbles that pad to a whole byte.
    fn flush<W: BufSink>(&mut self, writer: &mut W, Ghost(nibs): Ghost<Seq<u8>>, Ghost(base): Ghost<Seq<u8>>)
        requires
            old(self).holds(nibs, base, old(writer).written()),
            old(writer).written().len() + 1 <= isize::MAX,
        ensures
            final(writer).written() == base + pack_flushed(nibs),
    {
        if self.is_high {
            writer.put_u8(0xff);
            assert(writer.written() =~= base + pack_flushed(nibs));
        } else {
            self.write_nibble(writer, 0xf, Ghost(nibs), Ghost(base));
        }
    }
}

impl Cff2Decimal {
    /// Byte 30, then the nibbles, flushed.
    pub open spec fn encoding(&self) -> Seq<u8> {
        seq![30u8] + pack_flushed(decimal_nibbles(*self))
    }

    pub fn write<W: BufSink>(&self, writer: &mut W)
        requires
            old(writer).written().len() + 64 <= isize::MAX,
        ensures
            final(writer).written() == old(writer).written() + self.encoding(),
    {
        // All decimals should first write byte 30 to indicate it's a binary
        // encoded decimal, before writing the actual value.
        writer.put_u8(30);
        let ghost base = writer.written();
        let mut w = NibbleWriter::new();
        let ghost empty: Seq<u8> = seq![];
        if self.mantissa == 0 {
            w.write_nibble(writer, 0, Ghost(empty), Ghost(base));
            let ghost zero: Seq<u8> = empty.push(0u8);
            assert(zero =~= decimal_nibbles(*self));
            w.flush(writer, Ghost(zero), Ghost(base));
        } else {
            let neg = self.mantissa < 0;
            let mantissa: u128 = if neg {
                (-(self.mantissa + 1)) as u128 + 1
            } else {
                self.mantissa as u128
            };
            let ghost mut nibs: Seq<u8> = empty;
            if neg {
                w.write_nibble(writer, 0xe, Ghost(nibs), Ghost(base));
                proof {
                    nibs = nibs.push(0xeu8);
                }
            }
            let ghost sign = nibs;
            // The digits of the mantissa, then `E-` and the digits of the
            // scale: the scale of a decimal is never negative.
            let mut rest: Vec<u8> = Vec::new();
            push_digits(mantissa, &mut rest);
            if self.scale > 0 {
                rest.push(0xc);
                push_digits(self.scale as u128, &mut rest);
            }
            proof {
                lemma_pow10_bounds();
                lemma_decimal_digits(mantissa as nat, 39);
                lemma_decimal_digits(self.scale as nat, 10);
                assert(sign + rest@ =~= decimal_nibbles(*self));
                assert forall|i: int| 0 <= i < rest@.len() implies #[trigger] rest@[i] < 16 by {
                    let dm = decimal_digits(mantissa as nat);
                    if i < dm.len() {
                        assert(rest@[i] == dm[i]);
                    } else if i > dm.len() {
                        assert(rest@[i] == decimal_digits(self.scale as nat)[i - dm.len() - 1]);
                    }
                }
            }
            let mut k: usize = 0;
            while k < rest.len()
                invariant
                    k <= rest@.len() <= 51,
                    sign.len() <= 1,
                    forall|i: int| 0 <= i < rest@.len() ==> #[trigger] rest@[i] < 16,
                    nibs == sign + rest@.take(k as int),
                    w.holds(nibs, base, writer.written()),
                    writer.written().len() <= base.len() + nibs.len(),
                    base.len() + 60 <= isize::MAX,
                decreases rest@.len() - k,
            {
                w.write_nibble(writer, rest[k], Ghost(nibs), Ghost(base));
                proof {
                    lemma_pack_len(nibs.push(rest@[k as int]));
                    lemma_pack_len(nibs.push(rest@[k as int]).drop_last());
                    nibs = nibs.push(rest@[k as int]);
                    assert(nibs =~= sign + rest@.take(k as int + 1));
                }
                k = k + 1;
            }
            assert(rest@.take(k as int) =~= rest@);
            w.flush(writer, Ghost(nibs), Ghost(base));
        }
    }
}

/// The integer that encoded bytes stand for, following the table of forms;
/// `None` for bytes that are not exactly one encoded integer.
pub open spec fn decode_int(b: Seq<u8>) -> Option<int> {
    if b.len() == 0 {
        None
    } else {
        let b0 = b[0] as int;
        if 32 <= b0 <= 246 && b.len() == 1 {
            Some(b0 - 139)
        } else if 247 <= b0 <= 250 && b.len() == 2 {
            Some((b0 - 247) * 256 + b[1] + 108)
        } else if 251 <= b0 <= 254 && b.len() == 2 {
            Some(-(b0 - 251) * 256 - b[1] - 108)
        } else if b0 == 28 && b.len() == 3 {
            let u = b[1] * 0x100 + b[2];
            Some(
                if u >= 0x8000 {
                    u - 0x1_0000
                } else {
                    u as int
                },
            )
        } else if b0 == 29 && b.len() == 5 {
            let u = b[1] * 0x100_0000 + b[2] * 0x1_0000 + b[3] * 0x100 + b[4];
            Some(
                if u >= 0x8000_0000 {
                    u - 0x1_0000_0000
                } else {
                    u as int
                },
            )
        } else {
            None
        }
    }
}

proof fn lemma_n1131_round_trip(v: int)
    requires
        n1131_bytes(v) is Some,
    ensures
        decode_int(n1131_bytes(v)->0) == Some(v),
{
}

/// Every 16-bit integer reads back as itself.
pub proof fn lemma_int16_round_trip(v: Cff2Int16)
    ensures
        decode_int(v.encoding()) == Some(v.0 as int),
{
    if n1131_bytes(v.0 as int) is Some {
        lemma_n1131_round_trip(v.0 as int);
    } else {
        let x = v.0 as int;
        let u = if x < 0 {
            x + 0x1_0000
        } else {
            x
        };
        assert(v.encoding() =~= seq![28u8, (u / 0x100) as u8, (u % 0x100) as u8]);
    }
}

/// Every 32-bit integer reads back as itself.
pub proof fn lemma_int32_round_trip(v: Cff2Int32)
    ensures
        decode_int(v.encoding()) == Some(v.0 as int),
{
    if n1131_bytes(v.0 as int) is Some {
        lemma_n1131_round_trip(v.0 as int);
    } else {
        let x = v.0 as int;
        let u = if x < 0 {
            x + 0x1_0000_0000
        } else {
            x
        };
        assert(v.encoding() =~= seq![
            29u8,
            (u / 0x100_0000) as u8,
            ((u / 0x1_0000) % 0x100) as u8,
            ((u / 0x100) % 0x100) as u8,
            (u % 0x100) as u8,
        ]);
        assert(u == (u / 0x100_0000) * 0x100_0000 + ((u / 0x1_0000) % 0x100) * 0x1_0000 + ((u
            / 0x100) % 0x100) * 0x100 + u % 0x100) by (nonlinear_arith)
            requires
                0 <= u < 0x1_0000_0000,
        ;
    }
}

/// A CFF2 operand.
#[derive(Debug, Clone, Copy, PartialEq, Eq, Structural)]
pub enum Cff2Number {
    Int16(Cff2Int16),
    Int32(Cff2Int32),
    Fixed(Cff2Fixed),
    Decimal(Cff2Decimal),
}


/// The value that an operand of the fixed-point form stands for, in
/// 1/65536ths: 255 and a 16.16 number, or an integer form, a whole number.
pub open spec fn decode_fixed(b: Seq<u8>) -> Option<int> {
    if b.len() == 5 && b[0] == 255 {
        Some(read_i32(b, 1))
    } else {
        match decode_int(b) {
            Some(k) => Some(k * 0x1_0000),
            None => None,
        }
    }
}

proof fn lemma_whole_fixed(b: i32)
    requires
        b & 0xffff == 0,
    ensures
        int_part(b) as int * 0x1_0000 == b as int,
{
    let h = int_part(b);
    assert(b & 0xffff == 0 ==> ((b >> 16u32) as i16) as i32 == b / 0x1_0000i32) by (bit_vector);
    assert(b & 0xffff == 0 ==> b % 0x1_0000i32 == 0) by (bit_vector);
}

/// Every 16.16 fixed-point operand reads back as itself: a whole number
/// between -1131 and 1131 in its short integer form, any other as 255 and
/// its 32 bits.
pub proof fn lemma_fixed_round_trip(v: Cff2Fixed)
    ensures
        decode_fixed(v.encoding()) == Some(v.0 as int),
{
    let e = v.encoding();
    if v.0 & 0xffff == 0 && n1131_bytes(int_part(v.0) as int) is Some {
        lemma_n1131_round_trip(int_part(v.0) as int);
        lemma_whole_fixed(v.0);
        assert(!(e.len() == 5));
    } else {
        let b = i32_bytes(v.0);
        assert(e.subrange(1, 5) =~= b);
        lemma_read_at(e, 1, b);
        lemma_read_i32(v.0);
    }
}

} // verus!
