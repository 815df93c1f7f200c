//! The `post` table.
use crate::buf::BufSink;
use crate::bytes_spec::{
    i16_bytes, i32_bytes, lemma_read_at, lemma_read_i16, lemma_read_i32, lemma_read_u32, read_i16,
    read_i32, read_u32, u32_bytes,
};
use crate::model::{fword, Fixed, ITable};
use vstd::prelude::*;

verus! {

/// The `post` table, version 3: no glyph names.
#[derive(Debug, Clone, Copy, PartialEq, Eq, Structural)]
pub struct TableV3 {
    pub italic_angle: Fixed,
    pub underline_position: fword,
    pub underline_thickness: fword,
    /// Written as a `u32`, 1 for true.
    pub is_fixed_pitch: bool,
    /// Memory usage of the font.
    ///
    /// set to 0 if unknown.
    pub min_mem_type42: u32,
    pub max_mem_type42: u32,
    pub min_mem_type1: u32,
    pub max_mem_type1: u32,
}

impl TableV3 {
    pub const VERSION: u32 = 0x00030000;
}

impl ITable for TableV3 {
    open spec fn encoding(&self) -> Seq<u8> {
        u32_bytes(Self::VERSION) + i32_bytes(self.italic_angle.0) + i16_bytes(
            self.underline_position,
        ) + i16_bytes(self.underline_thickness) + u32_bytes(
            if self.is_fixed_pitch {
                1
            } else {
                0
            },
        ) + u32_bytes(self.min_mem_type42) + u32_bytes(self.max_mem_type42) + u32_bytes(
            self.min_mem_type1,
        ) + u32_bytes(self.max_mem_type1)
    }

    open spec fn tag(&self) -> Seq<u8> {
        seq![0x70u8, 0x6fu8, 0x73u8, 0x74u8]
    }

    open spec fn writable(&self) -> bool {
        true
    }

    fn name(&self) -> (r: [u8; 4]) {
        let r = [0x70u8, 0x6fu8, 0x73u8, 0x74u8];
        assert(r@ =~= self.tag());
        r
    }

    fn write<W: BufSink>(&self, writer: &mut W) {
        writer.put_u32(Self::VERSION);
        writer.put_i32(self.italic_angle.to_bits());
        writer.put_i16(self.underline_position);
        writer.put_i16(self.underline_thickness);
        writer.put_u32(
            if self.is_fixed_pitch {
                1
            } else {
                0
            },
        );
        writer.put_u32(self.min_mem_type42);
        writer.put_u32(self.max_mem_type42);
        writer.put_u32(self.min_mem_type1);
        writer.put_u32(self.max_mem_type1);
        assert(writer.written() =~= old(writer).written() + self.encoding());
    }
}

/// The bytes of the table hold each field at its fixed offset, as OpenType
/// lays out `post`: the version 3.0 at 0, the italic angle at 4, the
/// underline position and thickness at 8 and 10, whether the font is
/// monospaced (1 or 0) at 12, and the memory usages at 16 to 28.
pub proof fn lemma_post_layout(t: TableV3)
    ensures
        t.encoding().len() == 32,
        read_u32(t.encoding(), 0) == 0x00030000,
        read_i32(t.encoding(), 4) == t.italic_angle.0,
        read_i16(t.encoding(), 8) == t.underline_position,
        read_i16(t.encoding(), 10) == t.underline_thickness,
        read_u32(t.encoding(), 12) == if t.is_fixed_pitch { 1int } else { 0int },
        read_u32(t.encoding(), 16) == t.min_mem_type42,
        read_u32(t.encoding(), 20) == t.max_mem_type42,
        read_u32(t.encoding(), 24) == t.min_mem_type1,
        read_u32(t.encoding(), 28) == t.max_mem_type1,
{
    let e = t.encoding();
    assert(e.subrange(0, 4) =~= u32_bytes(TableV3::VERSION));
    lemma_read_at(e, 0, u32_bytes(TableV3::VERSION));
    lemma_read_u32(TableV3::VERSION);
    assert(e.subrange(4, 8) =~= i32_bytes(t.italic_angle.0));
    lemma_read_at(e, 4, i32_bytes(t.italic_angle.0));
    lemma_read_i32(t.italic_angle.0);
    assert(e.subrange(8, 10) =~= i16_bytes(t.underline_position));
    lemma_read_at(e, 8, i16_bytes(t.underline_position));
    lemma_read_i16(t.underline_position);
    assert(e.subrange(10, 12) =~= i16_bytes(t.underline_thickness));
    lemma_read_at(e, 10, i16_bytes(t.underline_thickness));
    lemma_read_i16(t.underline_thickness);
    assert(e.subrange(12, 16) =~= u32_bytes(if t.is_fixed_pitch { 1u32 } else { 0u32 }));
    lemma_read_at(e, 12, u32_bytes(if t.is_fixed_pitch { 1u32 } else { 0u32 }));
    lemma_read_u32(if t.is_fixed_pitch { 1u32 } else { 0u32 });
    assert(e.subrange(16, 20) =~= u32_bytes(t.min_mem_type42));
    lemma_read_at(e, 16, u32_bytes(t.min_mem_type42));
    lemma_read_u32(t.min_mem_type42);
    assert(e.subrange(20, 24) =~= u32_bytes(t.max_mem_type42));
    lemma_read_at(e, 20, u32_bytes(t.max_mem_type42));
    lemma_read_u32(t.max_mem_type42);
    assert(e.subrange(24, 28) =~= u32_bytes(t.min_mem_type1));
    lemma_read_at(e, 24, u32_bytes(t.min_mem_type1));
    lemma_read_u32(t.min_mem_type1);
    assert(e.subrange(28, 32) =~= u32_bytes(t.max_mem_type1));
    lemma_read_at(e, 28, u32_bytes(t.max_mem_type1));
    lemma_read_u32(t.max_mem_type1);
}

} // verus!
