//! Model of the tables in a TrueType font file, close to their binary form.
pub mod cff2;
pub mod checksum;
pub mod cmap;
pub mod encoding;
pub mod font;
pub mod glyf;
pub mod head;
pub mod hhea;
pub mod hmtx;
pub mod loca;
pub mod maxp;
pub mod name;
pub mod os2;
pub mod post;
pub mod dsig;


pub use font::{CFF2Tables, FontFile, Outline, TrueTypeTables};

use crate::buf::BufSink;
use vstd::prelude::*;

verus! {

/// A signed 16-bit number of font design units.
#[allow(non_camel_case_types)]
pub type fword = i16;

/// An unsigned 16-bit number of font design units.
#[allow(non_camel_case_types)]
pub type ufword = u16;

/// A signed fixed-point number with 14 fractional bits, held as its bits.
#[derive(Debug, Clone, Copy, PartialEq, Eq, Structural)]
pub struct F2Dot14(pub i16);

impl F2Dot14 {
    pub fn from_bits(bits: i16) -> (r: Self)
        ensures
            r.0 == bits,
    {
        F2Dot14(bits)
    }

    pub fn to_bits(self) -> (r: i16)
        ensures
            r == self.0,
    {
        self.0
    }
}

/// A signed fixed-point number with 14 fractional bits.
#[allow(non_camel_case_types)]
pub type f2dot14 = F2Dot14;

/// A signed fixed-point number with 16 fractional bits, held as its bits.
#[derive(Debug, Clone, Copy, PartialEq, Eq, Structural)]
pub struct Fixed(pub i32);

impl Fixed {
    pub fn from_bits(bits: i32) -> (r: Self)
        ensures
            r.0 == bits,
    {
        Fixed(bits)
    }

    pub fn to_bits(self) -> (r: i32)
        ensures
            r == self.0,
    {
        self.0
    }
}

/// The trait implemented by all tables in a TrueType font file.
pub trait ITable {
    /// The bytes that `write` appends.
    spec fn encoding(&self) -> Seq<u8>;

    /// The four-byte tag of the table.
    spec fn tag(&self) -> Seq<u8>;

    /// The table can be written: what it refers to exists, and the sizes
    /// that are computed on the way fit in a `usize`.
    spec fn writable(&self) -> bool;

    /// The name tag of the table.
    fn name(&self) -> (r: [u8; 4])
        ensures
            r@ == self.tag();

    /// Writes the table to the given buffer.
    fn write<W: BufSink>(&self, writer: &mut W)
        requires
            self.writable(),
            old(writer).written().len() + self.encoding().len() <= isize::MAX,
        ensures
            final(writer).written() == old(writer).written() + self.encoding();
}

} // verus!
