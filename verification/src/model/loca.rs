//! The `loca` table.
use crate::buf::BufSink;
use crate::bytes_spec::{lemma_read_at, lemma_read_u32, read_u32, u32_bytes};
use crate::model::ITable;
use crate::seq_util::{
    concat_map, lemma_concat_map_fixed_at, lemma_concat_map_len, lemma_concat_map_take_len,
    lemma_concat_map_take_step,
};
use vstd::prelude::*;

verus! {

pub open spec fn u32_enc() -> spec_fn(u32) -> Seq<u8> {
    |x: u32| u32_bytes(x)
}

/// `loca` table, long format.
pub struct Table {
    /// The starting offset within the `glyf` table of each glyph
    pub offsets: Vec<u32>,
}

impl ITable for Table {
    open spec fn writable(&self) -> bool {
        true
    }

    open spec fn encoding(&self) -> Seq<u8> {
        concat_map(self.offsets@, u32_enc())
    }

    open spec fn tag(&self) -> Seq<u8> {
        seq![0x6cu8, 0x6fu8, 0x63u8, 0x61u8]
    }

    fn name(&self) -> (r: [u8; 4]) {
        let r = [0x6cu8, 0x6fu8, 0x63u8, 0x61u8];
        assert(r@ =~= self.tag());
        r
    }

    fn write<W: BufSink>(&self, writer: &mut W) {
        let ghost base = old(writer).written();
        let mut i: usize = 0;
        while i < self.offsets.len()
            invariant
                i <= self.offsets@.len(),
                writer.written() == base + concat_map(self.offsets@.take(i as int), u32_enc()),
                base.len() + concat_map(self.offsets@, u32_enc()).len() <= isize::MAX,
            decreases self.offsets@.len() - i,
        {
            proof {
                lemma_concat_map_take_step(self.offsets@, i as int, u32_enc());
                lemma_concat_map_take_len(self.offsets@, i as int + 1, u32_enc());
            }
            writer.put_u32(self.offsets[i]);
            assert(writer.written() =~= base + concat_map(self.offsets@.take(i as int + 1), u32_enc()));
            i = i + 1;
        }
        assert(self.offsets@.take(i as int) =~= self.offsets@);
    }
}


/// The bytes of the table hold offset `i` at `4 i`, four bytes each.
pub proof fn lemma_loca_layout(t: &Table)
    ensures
        t.encoding().len() == 4 * t.offsets@.len(),
        forall|i: int|
            0 <= i < t.offsets@.len() ==> read_u32(t.encoding(), 4 * i) == #[trigger] t.offsets@[i],
{
    let os = t.offsets@;
    let e = t.encoding();
    assert forall|i: int| 0 <= i < os.len() implies (#[trigger] u32_enc()(os[i])).len() == 4 by {}
    lemma_concat_map_len(os, u32_enc(), 4);
    assert forall|i: int| 0 <= i < os.len() implies read_u32(e, 4 * i) == #[trigger] os[i] by {
        lemma_concat_map_fixed_at(os, u32_enc(), 4, i);
        lemma_read_at(e, 4 * i, u32_bytes(os[i]));
        lemma_read_u32(os[i]);
    }
}

} // verus!
