//! The `hhea` table.
use crate::buf::BufSink;
use crate::bytes_spec::{
    i16_bytes, lemma_read_at, lemma_read_i16, lemma_read_u16, read_i16, read_u16, u16_bytes,
};
use crate::model::ITable;
use vstd::prelude::*;

verus! {

#[derive(Debug, Clone, Copy, PartialEq, Eq, Structural)]
pub struct Table {
    pub ascender: i16,
    pub descender: i16,
    pub line_gap: i16,
    pub advance_width_max: u16,
    pub min_left_side_bearing: i16,
    pub min_right_side_bearing: i16,
    pub x_max_extent: i16,
    pub caret_slope_rise: i16,
    pub caret_slope_run: i16,
    pub caret_offset: i16,
    pub metric_data_format: i16,
    pub number_of_hmetrics: u16,
}

pub const MAJOR_VERSION: u16 = 1;
pub const MINOR_VERSION: u16 = 0;

impl ITable for Table {
    /// Version 1.0, the fields, and four reserved zero words before the
    /// metric data format.
    open spec fn encoding(&self) -> Seq<u8> {
        u16_bytes(MAJOR_VERSION) + u16_bytes(MINOR_VERSION) + i16_bytes(self.ascender) + i16_bytes(
            self.descender,
        ) + i16_bytes(self.line_gap) + u16_bytes(self.advance_width_max) + i16_bytes(
            self.min_left_side_bearing,
        ) + i16_bytes(self.min_right_side_bearing) + i16_bytes(self.x_max_extent) + i16_bytes(
            self.caret_slope_rise,
        ) + i16_bytes(self.caret_slope_run) + i16_bytes(self.caret_offset) + i16_bytes(0)
            + i16_bytes(0) + i16_bytes(0) + i16_bytes(0) + i16_bytes(self.metric_data_format)
            + u16_bytes(self.number_of_hmetrics)
    }

    open spec fn tag(&self) -> Seq<u8> {
        seq![0x68u8, 0x68u8, 0x65u8, 0x61u8]
    }

    open spec fn writable(&self) -> bool {
        true
    }

    fn name(&self) -> (r: [u8; 4]) {
        let r = [0x68u8, 0x68u8, 0x65u8, 0x61u8];
        assert(r@ =~= self.tag());
        r
    }

    fn write<W: BufSink>(&self, writer: &mut W) {
        writer.put_u16(MAJOR_VERSION);
        writer.put_u16(MINOR_VERSION);
        writer.put_i16(self.ascender);
        writer.put_i16(self.descender);
        writer.put_i16(self.line_gap);
        writer.put_u16(self.advance_width_max);
        writer.put_i16(self.min_left_side_bearing);
        writer.put_i16(self.min_right_side_bearing);
        writer.put_i16(self.x_max_extent);
        writer.put_i16(self.caret_slope_rise);
        writer.put_i16(self.caret_slope_run);
        writer.put_i16(self.caret_offset);
        // Reserved
        let mut k: usize = 0;
        let ghost before = writer.written();
        while k < 4
            invariant
                k <= 4,
                old(writer).written().len() + self.encoding().len() <= isize::MAX,
                before.len() == old(writer).written().len() + 24,
                writer.written() == before + Seq::new((2 * k) as nat, |i: int| 0u8),
            decreases 4 - k,
        {
            writer.put_i16(0);
            assert(i16_bytes(0) =~= seq![0u8, 0u8]);
            assert(writer.written() =~= before + Seq::new((2 * (k + 1)) as nat, |i: int| 0u8));
            k = k + 1;
        }
        writer.put_i16(self.metric_data_format);
        writer.put_u16(self.number_of_hmetrics);
        assert(i16_bytes(0) =~= seq![0u8, 0u8]);
        assert(writer.written() =~= old(writer).written() + self.encoding());
    }
}

/// The bytes of the table hold each field at its fixed offset, as OpenType
/// lays out `hhea`: the version 1.0 at 0, the ascender at 4, the descender
/// at 6, the line gap at 8, the maximum advance width at 10, the minimum
/// side bearings at 12 and 14, the maximum extent at 16, the caret slope at
/// 18 and 20, the caret offset at 22, four reserved zero words, the metric
/// data format at 32 and the number of horizontal metrics at 34.
pub proof fn lemma_hhea_layout(t: Table)
    ensures
        t.encoding().len() == 36,
        read_u16(t.encoding(), 0) == 1,
        read_u16(t.encoding(), 2) == 0,
        read_i16(t.encoding(), 4) == t.ascender,
        read_i16(t.encoding(), 6) == t.descender,
        read_i16(t.encoding(), 8) == t.line_gap,
        read_u16(t.encoding(), 10) == t.advance_width_max,
        read_i16(t.encoding(), 12) == t.min_left_side_bearing,
        read_i16(t.encoding(), 14) == t.min_right_side_bearing,
        read_i16(t.encoding(), 16) == t.x_max_extent,
        read_i16(t.encoding(), 18) == t.caret_slope_rise,
        read_i16(t.encoding(), 20) == t.caret_slope_run,
        read_i16(t.encoding(), 22) == t.caret_offset,
        read_i16(t.encoding(), 24) == 0,
        read_i16(t.encoding(), 26) == 0,
        read_i16(t.encoding(), 28) == 0,
        read_i16(t.encoding(), 30) == 0,
        read_i16(t.encoding(), 32) == t.metric_data_format,
        read_u16(t.encoding(), 34) == t.number_of_hmetrics,
{
    let e = t.encoding();
    assert(e.subrange(0, 2) =~= u16_bytes(MAJOR_VERSION));
    lemma_read_at(e, 0, u16_bytes(MAJOR_VERSION));
    lemma_read_u16(MAJOR_VERSION);
    assert(e.subrange(2, 4) =~= u16_bytes(MINOR_VERSION));
    lemma_read_at(e, 2, u16_bytes(MINOR_VERSION));
    lemma_read_u16(MINOR_VERSION);
    assert(e.subrange(4, 6) =~= i16_bytes(t.ascender));
    lemma_read_at(e, 4, i16_bytes(t.ascender));
    lemma_read_i16(t.ascender);
    assert(e.subrange(6, 8) =~= i16_bytes(t.descender));
    lemma_read_at(e, 6, i16_bytes(t.descender));
    lemma_read_i16(t.descender);
    assert(e.subrange(8, 10) =~= i16_bytes(t.line_gap));
    lemma_read_at(e, 8, i16_bytes(t.line_gap));
    lemma_read_i16(t.line_gap);
    assert(e.subrange(10, 12) =~= u16_bytes(t.advance_width_max));
    lemma_read_at(e, 10, u16_bytes(t.advance_width_max));
    lemma_read_u16(t.advance_width_max);
    assert(e.subrange(12, 14) =~= i16_bytes(t.min_left_side_bearing));
    lemma_read_at(e, 12, i16_bytes(t.min_left_side_bearing));
    lemma_read_i16(t.min_left_side_bearing);
    assert(e.subrange(14, 16) =~= i16_bytes(t.min_right_side_bearing));
    lemma_read_at(e, 14, i16_bytes(t.min_right_side_bearing));
    lemma_read_i16(t.min_right_side_bearing);
    assert(e.subrange(16, 18) =~= i16_bytes(t.x_max_extent));
    lemma_read_at(e, 16, i16_bytes(t.x_max_extent));
    lemma_read_i16(t.x_max_extent);
    assert(e.subrange(18, 20) =~= i16_bytes(t.caret_slope_rise));
    lemma_read_at(e, 18, i16_bytes(t.caret_slope_rise));
    lemma_read_i16(t.caret_slope_rise);
    assert(e.subrange(20, 22) =~= i16_bytes(t.caret_slope_run));
    lemma_read_at(e, 20, i16_bytes(t.caret_slope_run));
    lemma_read_i16(t.caret_slope_run);
    assert(e.subrange(22, 24) =~= i16_bytes(t.caret_offset));
    lemma_read_at(e, 22, i16_bytes(t.caret_offset));
    lemma_read_i16(t.caret_offset);
    assert(e.subrange(24, 26) =~= i16_bytes(0i16));
    lemma_read_at(e, 24, i16_bytes(0i16));
    lemma_read_i16(0i16);
    assert(e.subrange(26, 28) =~= i16_bytes(0i16));
    lemma_read_at(e, 26, i16_bytes(0i16));
    lemma_read_i16(0i16);
    assert(e.subrange(28, 30) =~= i16_bytes(0i16));
    lemma_read_at(e, 28, i16_bytes(0i16));
    lemma_read_i16(0i16);
    assert(e.subrange(30, 32) =~= i16_bytes(0i16));
    lemma_read_at(e, 30, i16_bytes(0i16));
    lemma_read_i16(0i16);
    assert(e.subrange(32, 34) =~= i16_bytes(t.metric_data_format));
    lemma_read_at(e, 32, i16_bytes(t.metric_data_format));
    lemma_read_i16(t.metric_data_format);
    assert(e.subrange(34, 36) =~= u16_bytes(t.number_of_hmetrics));
    lemma_read_at(e, 34, u16_bytes(t.number_of_hmetrics));
    lemma_read_u16(t.number_of_hmetrics);
}

} // verus!
