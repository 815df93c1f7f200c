//! Generate the `loca` table from the `glyf` table.
//!
//! The offsets come from measuring each glyph with
//! [`crate::buf::SizeOnlyBufWriter`], which counts the bytes written to it
//! without keeping them.
use crate::buf::{BufSink, SizeOnlyBufWriter};
use crate::model::glyf::{glyph_enc, Glyph, Table as GlyfTable};
use crate::model::{loca, ITable};
use crate::seq_util::{
    concat_map, lemma_concat_map_append, lemma_concat_map_take_len, lemma_concat_map_take_step,
};
use vstd::prelude::*;

verus! {

/// Where glyph `i` starts in the written `glyf` table, modulo 2^32.
pub open spec fn glyph_offset(glyphs: Seq<Glyph>, i: int) -> u32 {
    (concat_map(glyphs.take(i), glyph_enc()).len() % 0x1_0000_0000) as u32
}

/// Generate the `loca` table from an existing `glyf` table.
///
/// Entry `i` is the offset at which glyph `i` starts in the written `glyf`
/// table; one more entry follows the last glyph and holds the length of the
/// whole table, so that the length of every glyph can be read off. Offsets
/// are taken modulo 2^32, as the long format stores them in 32 bits.
pub fn glyf_to_loca(glyf: &GlyfTable) -> (r: loca::Table)
    requires
        concat_map(glyf.glyphs@, glyph_enc()).len() <= isize::MAX,
    ensures
        r.offsets@.len() == glyf.glyphs@.len() + 1,
        forall|i: int|
            0 <= i < r.offsets@.len() ==> #[trigger] r.offsets@[i] == glyph_offset(
                glyf.glyphs@,
                i,
            ),
{
    let mut offsets: Vec<u32> = Vec::new();
    let mut w = SizeOnlyBufWriter::new();
    let mut i: usize = 0;
    while i < glyf.glyphs.len()
        invariant
            i <= glyf.glyphs@.len(),
            w.written() == concat_map(glyf.glyphs@.take(i as int), glyph_enc()),
            concat_map(glyf.glyphs@, glyph_enc()).len() <= isize::MAX,
            offsets@.len() == i,
            forall|j: int|
                0 <= j < i ==> #[trigger] offsets@[j] == (concat_map(
                    glyf.glyphs@.take(j),
                    glyph_enc(),
                ).len() % 0x1_0000_0000) as u32,
        decreases glyf.glyphs@.len() - i,
    {
        let size: usize = w.size();
        offsets.push((size as u64 % 0x1_0000_0000u64) as u32);
        proof {
            lemma_concat_map_take_step(glyf.glyphs@, i as int, glyph_enc());
            lemma_concat_map_take_len(glyf.glyphs@, i as int + 1, glyph_enc());
        }
        glyf.glyphs[i].write(&mut w);
        i = i + 1;
    }
    let size: usize = w.size();
    offsets.push((size as u64 % 0x1_0000_0000u64) as u32);
    proof {
        assert(glyf.glyphs@.take(i as int) == glyf.glyphs@);
    }
    loca::Table { offsets }
}

proof fn lemma_piece_at<T>(g: Seq<T>, f: spec_fn(T) -> Seq<u8>, i: int)
    requires
        0 <= i < g.len(),
    ensures
        concat_map(g, f).subrange(
            concat_map(g.take(i), f).len() as int,
            concat_map(g.take(i + 1), f).len() as int,
        ) == f(g[i]),
{
    let a = concat_map(g.take(i), f);
    let b = concat_map(g.take(i + 1), f);
    lemma_concat_map_take_step(g, i, f);
    lemma_concat_map_append(g.take(i + 1), g.skip(i + 1), f);
    assert(g.take(i + 1) + g.skip(i + 1) =~= g);
    assert(concat_map(g, f).subrange(a.len() as int, b.len() as int) =~= f(g[i]));
}

/// In a `glyf` table shorter than 4 GiB, glyph `i` is written between the
/// offsets `i` and `i + 1` that `glyf_to_loca` gives.
#[verifier::spinoff_prover]
pub proof fn lemma_loca_locates_glyphs(glyf: &GlyfTable, i: int)
    requires
        0 <= i < glyf.glyphs@.len(),
        glyf.encoding().len() < 0x1_0000_0000,
    ensures
        glyf.encoding().subrange(
            glyph_offset(glyf.glyphs@, i) as int,
            glyph_offset(glyf.glyphs@, i + 1) as int,
        ) == glyph_enc()(glyf.glyphs@[i]),
{
    let g = glyf.glyphs@;
    let f = glyph_enc();
    lemma_concat_map_take_len(g, i, f);
    lemma_concat_map_take_len(g, i + 1, f);
    lemma_piece_at(g, f, i);
    assert(glyf.encoding() == concat_map(g, f));
    let x = concat_map(g.take(i), f).len();
    let y = concat_map(g.take(i + 1), f).len();
    assert(glyph_offset(g, i) as int == x);
    assert(glyph_offset(g, i + 1) as int == y);
}

} // verus!
