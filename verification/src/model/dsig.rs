//! The `DSIG` table.
use crate::buf::BufSink;
use crate::bytes_spec::{
    lemma_read_at, lemma_read_u16, lemma_read_u32, read_u16, read_u32, u16_bytes, u32_bytes,
};
use crate::model::ITable;
use vstd::prelude::*;

verus! {

pub const VERSION: u32 = 0x00000001;

/// The permission flags of the signature table.
#[derive(Clone, Copy, Debug, PartialEq, Eq, Structural)]
pub struct Flags(pub u16);

impl Flags {
    pub const NO_RESIGN: u16 = 0b0000_0001;

    pub fn empty() -> (r: Self)
        ensures
            r.0 == 0,
    {
        Flags(0)
    }

    pub fn bits(&self) -> (r: u16)
        ensures
            r == self.0,
    {
        self.0
    }

    pub fn from_bits_retain(bits: u16) -> (r: Self)
        ensures
            r.0 == bits,
    {
        Flags(bits)
    }
}

impl Default for Flags {
    fn default() -> (r: Self)
        ensures
            r.0 == 0,
    {
        Flags(0)
    }
}

/// The `DSIG` table, without signatures.
#[derive(Debug, Clone, Copy, PartialEq, Eq, Structural)]
pub struct Table {
    pub flags: Flags,
}

impl Default for Table {
    fn default() -> (r: Self)
        ensures
            r.flags.0 == 0,
    {
        Table { flags: Flags::default() }
    }
}

impl ITable for Table {
    /// The version, a zero signature count and the flags.
    open spec fn encoding(&self) -> Seq<u8> {
        u32_bytes(VERSION) + u16_bytes(0) + u16_bytes(self.flags.0)
    }

    open spec fn tag(&self) -> Seq<u8> {
        seq![0x44u8, 0x53u8, 0x49u8, 0x47u8]
    }

    open spec fn writable(&self) -> bool {
        true
    }

    fn name(&self) -> (r: [u8; 4]) {
        let r = [0x44u8, 0x53u8, 0x49u8, 0x47u8];
        assert(r@ =~= self.tag());
        r
    }

    fn write<W: BufSink>(&self, writer: &mut W) {
        writer.put_u32(VERSION);
        writer.put_u16(0);
        writer.put_u16(self.flags.bits());
        assert(writer.written() =~= old(writer).written() + self.encoding());
    }
}

/// The bytes of the table hold the version 1 at 0, no signatures at 4 and
/// the flags at 6.
pub proof fn lemma_dsig_layout(t: Table)
    ensures
        t.encoding().len() == 8,
        read_u32(t.encoding(), 0) == 1,
        read_u16(t.encoding(), 4) == 0,
        read_u16(t.encoding(), 6) == t.flags.0,
{
    let e = t.encoding();
    assert(e.subrange(0, 4) =~= u32_bytes(VERSION));
    lemma_read_at(e, 0, u32_bytes(VERSION));
    lemma_read_u32(VERSION);
    assert(e.subrange(4, 6) =~= u16_bytes(0u16));
    lemma_read_at(e, 4, u16_bytes(0u16));
    lemma_read_u16(0u16);
    assert(e.subrange(6, 8) =~= u16_bytes(t.flags.0));
    lemma_read_at(e, 6, u16_bytes(t.flags.0));
    lemma_read_u16(t.flags.0);
}

} // verus!
