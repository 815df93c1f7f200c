//! The `hmtx` table.
use crate::buf::BufSink;
use crate::bytes_spec::{
    i16_bytes, lemma_read_at, lemma_read_i16, lemma_read_u16, read_i16, read_u16, u16_bytes,
};
use crate::model::{fword, ufword, ITable};
use crate::seq_util::{
    concat_map, lemma_concat_map_fixed_at, lemma_concat_map_len, lemma_concat_map_take_len,
    lemma_concat_map_take_step,
};
use vstd::prelude::*;

verus! {

#[derive(Debug, Clone, Copy, PartialEq, Eq, Structural)]
pub struct LongHorizontalMetric {
    pub advance_width: ufword,
    pub left_side_bearing: fword,
}

#[derive(Debug)]
pub struct Table {
    /// The horizontal metrics for each glyph in the font, up to
    /// `num_h_metrics` entries.
    pub metrics: Vec<LongHorizontalMetric>,
    /// LSB for glyphs larger than `num_h_metrics`.
    pub left_side_bearings: Vec<fword>,
}

pub open spec fn metric_enc() -> spec_fn(LongHorizontalMetric) -> Seq<u8> {
    |m: LongHorizontalMetric| u16_bytes(m.advance_width) + i16_bytes(m.left_side_bearing)
}

pub open spec fn bearing_enc() -> spec_fn(fword) -> Seq<u8> {
    |b: fword| i16_bytes(b)
}

impl ITable for Table {
    open spec fn encoding(&self) -> Seq<u8> {
        concat_map(self.metrics@, metric_enc()) + concat_map(self.left_side_bearings@, bearing_enc())
    }

    open spec fn tag(&self) -> Seq<u8> {
        seq![0x68u8, 0x6du8, 0x74u8, 0x78u8]
    }

    open spec fn writable(&self) -> bool {
        true
    }

    fn name(&self) -> (r: [u8; 4]) {
        let r = [0x68u8, 0x6du8, 0x74u8, 0x78u8];
        assert(r@ =~= self.tag());
        r
    }

    fn write<W: BufSink>(&self, writer: &mut W) {
        let ghost base = old(writer).written();
        let ghost ms = self.metrics@;
        let ghost bs = self.left_side_bearings@;
        let mut i: usize = 0;
        while i < self.metrics.len()
            invariant
                ms == self.metrics@,
                i <= ms.len(),
                base.len() + concat_map(ms, metric_enc()).len() + concat_map(bs, bearing_enc()).len()
                    <= isize::MAX,
                writer.written() == base + concat_map(ms.take(i as int), metric_enc()),
            decreases ms.len() - i,
        {
            proof {
                lemma_concat_map_take_step(ms, i as int, metric_enc());
                lemma_concat_map_take_len(ms, i as int + 1, metric_enc());
            }
            let metric = self.metrics[i];
            writer.put_u16(metric.advance_width);
            writer.put_i16(metric.left_side_bearing);
            assert(writer.written() =~= base + concat_map(ms.take(i as int + 1), metric_enc()));
            i = i + 1;
        }
        assert(ms.take(i as int) =~= ms);
        let ghost mid = writer.written();
        let mut j: usize = 0;
        while j < self.left_side_bearings.len()
            invariant
                bs == self.left_side_bearings@,
                j <= bs.len(),
                mid.len() + concat_map(bs, bearing_enc()).len() <= isize::MAX,
                writer.written() == mid + concat_map(bs.take(j as int), bearing_enc()),
            decreases bs.len() - j,
        {
            proof {
                lemma_concat_map_take_step(bs, j as int, bearing_enc());
                lemma_concat_map_take_len(bs, j as int + 1, bearing_enc());
            }
            writer.put_i16(self.left_side_bearings[j]);
            assert(writer.written() =~= mid + concat_map(bs.take(j as int + 1), bearing_enc()));
            j = j + 1;
        }
        assert(bs.take(j as int) =~= bs);
        assert(writer.written() =~= base + self.encoding());
    }
}


/// The bytes of the table hold, for each glyph with a full metric, its
/// advance width at `4 i` and its left side bearing at `4 i + 2`; then
/// the left side bearings of the other glyphs, two bytes each.
pub proof fn lemma_hmtx_layout(t: &Table)
    ensures
        t.encoding().len() == 4 * t.metrics@.len() + 2 * t.left_side_bearings@.len(),
        forall|i: int|
            0 <= i < t.metrics@.len() ==> read_u16(t.encoding(), 4 * i) == (
            #[trigger] t.metrics@[i]).advance_width && read_i16(t.encoding(), 4 * i + 2)
                == t.metrics@[i].left_side_bearing,
        forall|j: int|
            0 <= j < t.left_side_bearings@.len() ==> read_i16(
                t.encoding(),
                4 * t.metrics@.len() + 2 * j,
            ) == #[trigger] t.left_side_bearings@[j],
{
    let ms = t.metrics@;
    let bs = t.left_side_bearings@;
    let a = concat_map(ms, metric_enc());
    let b = concat_map(bs, bearing_enc());
    let e = t.encoding();
    assert forall|i: int| 0 <= i < ms.len() implies (#[trigger] metric_enc()(ms[i])).len() == 4 by {}
    assert forall|j: int| 0 <= j < bs.len() implies (#[trigger] bearing_enc()(bs[j])).len() == 2 by {}
    lemma_concat_map_len(ms, metric_enc(), 4);
    lemma_concat_map_len(bs, bearing_enc(), 2);
    assert forall|i: int| 0 <= i < ms.len() implies read_u16(e, 4 * i) == (
    #[trigger] ms[i]).advance_width && read_i16(e, 4 * i + 2) == ms[i].left_side_bearing by {
        lemma_concat_map_fixed_at(ms, metric_enc(), 4, i);
        let m = ms[i];
        let w = u16_bytes(m.advance_width) + i16_bytes(m.left_side_bearing);
        assert(a.subrange(4 * i, 4 * i + 4) == w);
        assert(e.subrange(4 * i, 4 * i + 4) =~= a.subrange(4 * i, 4 * i + 4));
        assert(e.subrange(4 * i, 4 * i + 2) =~= w.subrange(0, 2));
        assert(e.subrange(4 * i + 2, 4 * i + 4) =~= w.subrange(2, 4));
        assert(w.subrange(0, 2) =~= u16_bytes(m.advance_width));
        assert(w.subrange(2, 4) =~= i16_bytes(m.left_side_bearing));
        lemma_read_at(e, 4 * i, u16_bytes(m.advance_width));
        lemma_read_at(e, 4 * i + 2, i16_bytes(m.left_side_bearing));
        lemma_read_u16(m.advance_width);
        lemma_read_i16(m.left_side_bearing);
    }
    assert forall|j: int| 0 <= j < bs.len() implies read_i16(e, 4 * ms.len() + 2 * j)
        == #[trigger] bs[j] by {
        lemma_concat_map_fixed_at(bs, bearing_enc(), 2, j);
        assert(b.subrange(2 * j, 2 * j + 2) == i16_bytes(bs[j]));
        assert(e.subrange(4 * ms.len() + 2 * j, 4 * ms.len() + 2 * j + 2) =~= i16_bytes(bs[j]));
        lemma_read_at(e, 4 * ms.len() + 2 * j, i16_bytes(bs[j]));
        lemma_read_i16(bs[j]);
    }
}

} // verus!
