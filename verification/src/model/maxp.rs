//! The `maxp` table.
use crate::buf::BufSink;
use crate::bytes_spec::{
    lemma_read_at, lemma_read_u16, lemma_read_u32, read_u16, read_u32, u16_bytes, u32_bytes,
};
use crate::model::ITable;
use vstd::prelude::*;

verus! {

/// `maxp` table version 0.5. For use with CFF/CFF2 outlines.
///
/// For usage with TrueType outlines, use [`TableV1`].
#[derive(Debug)]
pub struct TableV0_5 {
    pub n_glyphs: u16,
}

impl ITable for TableV0_5 {
    open spec fn writable(&self) -> bool {
        true
    }

    open spec fn encoding(&self) -> Seq<u8> {
        u32_bytes(0x00005000) + u16_bytes(self.n_glyphs)
    }

    open spec fn tag(&self) -> Seq<u8> {
        seq![0x6du8, 0x61u8, 0x78u8, 0x70u8]
    }

    fn name(&self) -> (r: [u8; 4]) {
        let r = [0x6du8, 0x61u8, 0x78u8, 0x70u8];
        assert(r@ =~= self.tag());
        r
    }

    fn write<W: BufSink>(&self, writer: &mut W) {
        let version: u32 = 0x00005000;
        writer.put_u32(version);
        writer.put_u16(self.n_glyphs);
        assert(writer.written() =~= old(writer).written() + self.encoding());
    }
}

/// Whether instructions use the twilight zone.
#[derive(Clone, Copy, Debug, PartialEq, Eq, Structural)]
pub enum MaxZonesKind {
    DoesNotUseTwilightZone,
    UsesTwilightZone,
}

impl MaxZonesKind {
    /// The number stored in the table.
    pub open spec fn value(self) -> u16 {
        match self {
            MaxZonesKind::DoesNotUseTwilightZone => 1,
            MaxZonesKind::UsesTwilightZone => 2,
        }
    }

    pub fn to_u16(self) -> (r: u16)
        ensures
            r == self.value(),
    {
        match self {
            MaxZonesKind::DoesNotUseTwilightZone => 1,
            MaxZonesKind::UsesTwilightZone => 2,
        }
    }
}

impl Default for MaxZonesKind {
    fn default() -> (r: Self)
        ensures
            r == MaxZonesKind::DoesNotUseTwilightZone,
    {
        MaxZonesKind::DoesNotUseTwilightZone
    }
}

/// `maxp` table version 1. For use with TrueType outlines.
///
/// For usage with CFF/CFF2 outlines, use [`TableV0_5`].
#[derive(Debug, Clone, Copy, PartialEq, Eq, Structural)]
pub struct TableV1 {
    pub n_glyphs: u16,
    pub max_points: u16,
    pub max_contours: u16,
    pub max_composite_points: u16,
    pub max_composite_contours: u16,
    pub max_zones: MaxZonesKind,
    pub max_twilight_points: u16,
    pub max_storage: u16,
    pub max_func_defs: u16,
    pub max_instruction_defs: u16,
    pub max_stack_elements: u16,
    pub max_size_of_instructions: u16,
    pub max_component_elements: u16,
    pub max_component_depth: u16,
}

/// The table with every count zero and no twilight zone.
pub open spec fn empty_table_v1() -> TableV1 {
    TableV1 {
        n_glyphs: 0,
        max_points: 0,
        max_contours: 0,
        max_composite_points: 0,
        max_composite_contours: 0,
        max_zones: MaxZonesKind::DoesNotUseTwilightZone,
        max_twilight_points: 0,
        max_storage: 0,
        max_func_defs: 0,
        max_instruction_defs: 0,
        max_stack_elements: 0,
        max_size_of_instructions: 0,
        max_component_elements: 0,
        max_component_depth: 0,
    }
}

impl Default for TableV1 {
    fn default() -> (r: Self)
        ensures
            r == empty_table_v1(),
    {
        TableV1 {
            n_glyphs: 0,
            max_points: 0,
            max_contours: 0,
            max_composite_points: 0,
            max_composite_contours: 0,
            max_zones: MaxZonesKind::default(),
            max_twilight_points: 0,
            max_storage: 0,
            max_func_defs: 0,
            max_instruction_defs: 0,
            max_stack_elements: 0,
            max_size_of_instructions: 0,
            max_component_elements: 0,
            max_component_depth: 0,
        }
    }
}

impl ITable for TableV1 {
    open spec fn writable(&self) -> bool {
        true
    }

    open spec fn encoding(&self) -> Seq<u8> {
        u32_bytes(0x00010000) + u16_bytes(self.n_glyphs) + u16_bytes(self.max_points) + u16_bytes(
            self.max_contours,
        ) + u16_bytes(self.max_composite_points) + u16_bytes(self.max_composite_contours)
            + u16_bytes(self.max_zones.value()) + u16_bytes(self.max_twilight_points) + u16_bytes(
            self.max_storage,
        ) + u16_bytes(self.max_func_defs) + u16_bytes(self.max_instruction_defs) + u16_bytes(
            self.max_stack_elements,
        ) + u16_bytes(self.max_size_of_instructions) + u16_bytes(self.max_component_elements)
            + u16_bytes(self.max_component_depth)
    }

    open spec fn tag(&self) -> Seq<u8> {
        seq![0x6du8, 0x61u8, 0x78u8, 0x70u8]
    }

    fn name(&self) -> (r: [u8; 4]) {
        let r = [0x6du8, 0x61u8, 0x78u8, 0x70u8];
        assert(r@ =~= self.tag());
        r
    }

    fn write<W: BufSink>(&self, writer: &mut W) {
        let version: u32 = 0x00010000;
        writer.put_u32(version);
        writer.put_u16(self.n_glyphs);
        writer.put_u16(self.max_points);
        writer.put_u16(self.max_contours);
        writer.put_u16(self.max_composite_points);
        writer.put_u16(self.max_composite_contours);
        writer.put_u16(self.max_zones.to_u16());
        writer.put_u16(self.max_twilight_points);
        writer.put_u16(self.max_storage);
        writer.put_u16(self.max_func_defs);
        writer.put_u16(self.max_instruction_defs);
        writer.put_u16(self.max_stack_elements);
        writer.put_u16(self.max_size_of_instructions);
        writer.put_u16(self.max_component_elements);
        writer.put_u16(self.max_component_depth);
        assert(writer.written() =~= old(writer).written() + self.encoding());
    }
}

/// The bytes of the table hold the version 0.5 at 0 and the number of
/// glyphs at 4, as OpenType lays out `maxp` version 0.5.
pub proof fn lemma_maxp_v0_5_layout(t: TableV0_5)
    ensures
        t.encoding().len() == 6,
        read_u32(t.encoding(), 0) == 0x00005000,
        read_u16(t.encoding(), 4) == t.n_glyphs,
{
    let e = t.encoding();
    assert(e.subrange(0, 4) =~= u32_bytes(0x00005000u32));
    lemma_read_at(e, 0, u32_bytes(0x00005000u32));
    lemma_read_u32(0x00005000u32);
    assert(e.subrange(4, 6) =~= u16_bytes(t.n_glyphs));
    lemma_read_at(e, 4, u16_bytes(t.n_glyphs));
    lemma_read_u16(t.n_glyphs);
}

/// The bytes of the table hold each field at its fixed offset, as OpenType
/// lays out `maxp` version 1.0: the version at 0, the number of glyphs at
/// 4, then the maxima, two bytes each, from the points at 6 to the
/// component depth at 30.
pub proof fn lemma_maxp_v1_layout(t: TableV1)
    ensures
        t.encoding().len() == 32,
        read_u32(t.encoding(), 0) == 0x00010000,
        read_u16(t.encoding(), 4) == t.n_glyphs,
        read_u16(t.encoding(), 6) == t.max_points,
        read_u16(t.encoding(), 8) == t.max_contours,
        read_u16(t.encoding(), 10) == t.max_composite_points,
        read_u16(t.encoding(), 12) == t.max_composite_contours,
        read_u16(t.encoding(), 14) == t.max_zones.value(),
        read_u16(t.encoding(), 16) == t.max_twilight_points,
        read_u16(t.encoding(), 18) == t.max_storage,
        read_u16(t.encoding(), 20) == t.max_func_defs,
        read_u16(t.encoding(), 22) == t.max_instruction_defs,
        read_u16(t.encoding(), 24) == t.max_stack_elements,
        read_u16(t.encoding(), 26) == t.max_size_of_instructions,
        read_u16(t.encoding(), 28) == t.max_component_elements,
        read_u16(t.encoding(), 30) == t.max_component_depth,
{
    let e = t.encoding();
    assert(e.subrange(0, 4) =~= u32_bytes(0x00010000u32));
    lemma_read_at(e, 0, u32_bytes(0x00010000u32));
    lemma_read_u32(0x00010000u32);
    assert(e.subrange(4, 6) =~= u16_bytes(t.n_glyphs));
    lemma_read_at(e, 4, u16_bytes(t.n_glyphs));
    lemma_read_u16(t.n_glyphs);
    assert(e.subrange(6, 8) =~= u16_bytes(t.max_points));
    lemma_read_at(e, 6, u16_bytes(t.max_points));
    lemma_read_u16(t.max_points);
    assert(e.subrange(8, 10) =~= u16_bytes(t.max_contours));
    lemma_read_at(e, 8, u16_bytes(t.max_contours));
    lemma_read_u16(t.max_contours);
    assert(e.subrange(10, 12) =~= u16_bytes(t.max_composite_points));
    lemma_read_at(e, 10, u16_bytes(t.max_composite_points));
    lemma_read_u16(t.max_composite_points);
    assert(e.subrange(12, 14) =~= u16_bytes(t.max_composite_contours));
    lemma_read_at(e, 12, u16_bytes(t.max_composite_contours));
    lemma_read_u16(t.max_composite_contours);
    assert(e.subrange(14, 16) =~= u16_bytes(t.max_zones.value()));
    lemma_read_at(e, 14, u16_bytes(t.max_zones.value()));
    lemma_read_u16(t.max_zones.value());
    assert(e.subrange(16, 18) =~= u16_bytes(t.max_twilight_points));
    lemma_read_at(e, 16, u16_bytes(t.max_twilight_points));
    lemma_read_u16(t.max_twilight_points);
    assert(e.subrange(18, 20) =~= u16_bytes(t.max_storage));
    lemma_read_at(e, 18, u16_bytes(t.max_storage));
    lemma_read_u16(t.max_storage);
    assert(e.subrange(20, 22) =~= u16_bytes(t.max_func_defs));
    lemma_read_at(e, 20, u16_bytes(t.max_func_defs));
    lemma_read_u16(t.max_func_defs);
    assert(e.subrange(22, 24) =~= u16_bytes(t.max_instruction_defs));
    lemma_read_at(e, 22, u16_bytes(t.max_instruction_defs));
    lemma_read_u16(t.max_instruction_defs);
    assert(e.subrange(24, 26) =~= u16_bytes(t.max_stack_elements));
    lemma_read_at(e, 24, u16_bytes(t.max_stack_elements));
    lemma_read_u16(t.max_stack_elements);
    assert(e.subrange(26, 28) =~= u16_bytes(t.max_size_of_instructions));
    lemma_read_at(e, 26, u16_bytes(t.max_size_of_instructions));
    lemma_read_u16(t.max_size_of_instructions);
    assert(e.subrange(28, 30) =~= u16_bytes(t.max_component_elements));
    lemma_read_at(e, 28, u16_bytes(t.max_component_elements));
    lemma_read_u16(t.max_component_elements);
    assert(e.subrange(30, 32) =~= u16_bytes(t.max_component_depth));
    lemma_read_at(e, 30, u16_bytes(t.max_component_depth));
    lemma_read_u16(t.max_component_depth);
}

} // verus!
