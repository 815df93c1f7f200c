//! Generate the `maxp` table from the `glyf` table.
use crate::model::glyf::{compound_measure, compound_resolves, Glyph, Table as GlyfTable};
use crate::model::maxp::{empty_table_v1, TableV1};
use vstd::prelude::*;

verus! {

/// The low 16 bits of a count, as a `u16` field of the table keeps it.
pub open spec fn low16(n: int) -> u16 {
    (n % 0x1_0000) as u16
}

pub open spec fn max16(a: u16, b: u16) -> u16 {
    if a >= b {
        a
    } else {
        b
    }
}

/// Every compound glyph of the table refers only to glyphs of the table,
/// without a cycle, and its counts fit in a `usize`.
pub open spec fn compounds_measurable(glyphs: Seq<Glyph>) -> bool {
    forall|i: int|
        0 <= i < glyphs.len() ==> match #[trigger] glyphs[i] {
            Glyph::Simple(_) => true,
            Glyph::Compound(c) => {
                &&& compound_resolves(glyphs, c, glyphs.len())
                &&& compound_measure(glyphs, c, glyphs.len(), 0) <= usize::MAX
                &&& compound_measure(glyphs, c, glyphs.len(), 1) <= usize::MAX
                &&& compound_measure(glyphs, c, glyphs.len(), 2) <= usize::MAX
            },
        }
}

/// The table after one more glyph has been accounted for.
pub open spec fn maxp_step(m: TableV1, glyphs: Seq<Glyph>, g: Glyph) -> TableV1 {
    match g {
        Glyph::Simple(s) => TableV1 {
            max_points: max16(m.max_points, low16(s.spec_n_points() as int)),
            max_contours: max16(m.max_contours, low16(s.end_points_of_countours@.len() as int)),
            max_size_of_instructions: max16(
                m.max_size_of_instructions,
                low16(s.instructions@.len() as int),
            ),
            ..m
        },
        Glyph::Compound(c) => TableV1 {
            max_points: max16(m.max_points, low16(compound_measure(glyphs, c, glyphs.len(), 0) as int)),
            max_contours: max16(
                m.max_contours,
                low16(compound_measure(glyphs, c, glyphs.len(), 1) as int),
            ),
            max_size_of_instructions: max16(
                m.max_size_of_instructions,
                low16(c.instructions@.len() as int),
            ),
            max_component_elements: max16(
                m.max_component_elements,
                low16(c.components@.len() as int),
            ),
            max_component_depth: max16(
                m.max_component_depth,
                low16(compound_measure(glyphs, c, glyphs.len(), 2) as int),
            ),
            ..m
        },
    }
}

/// The table after the first `k` glyphs have been accounted for.
pub open spec fn maxp_upto(glyphs: Seq<Glyph>, k: nat) -> TableV1
    decreases k,
{
    if k == 0 || k > glyphs.len() {
        TableV1 { n_glyphs: low16(glyphs.len() as int), ..empty_table_v1() }
    } else {
        maxp_step(maxp_upto(glyphs, (k - 1) as nat), glyphs, glyphs[k - 1])
    }
}

/// What glyph `g` counts for in field `f` of the table, in 16 bits: 0 its
/// points, 1 its contours, 2 the size of its instructions, 3 its components
/// and 4 its depth of nesting. The counts of a compound glyph take in those
/// of the glyphs it refers to; a simple glyph has no components and counts
/// for nothing in fields 3 and 4.
pub open spec fn glyph_count(glyphs: Seq<Glyph>, g: Glyph, f: int) -> u16 {
    match g {
        Glyph::Simple(s) => if f == 0 {
            low16(s.spec_n_points() as int)
        } else if f == 1 {
            low16(s.end_points_of_countours@.len() as int)
        } else if f == 2 {
            low16(s.instructions@.len() as int)
        } else {
            0
        },
        Glyph::Compound(c) => if f == 0 {
            low16(compound_measure(glyphs, c, glyphs.len(), 0) as int)
        } else if f == 1 {
            low16(compound_measure(glyphs, c, glyphs.len(), 1) as int)
        } else if f == 2 {
            low16(c.instructions@.len() as int)
        } else if f == 3 {
            low16(c.components@.len() as int)
        } else {
            low16(compound_measure(glyphs, c, glyphs.len(), 2) as int)
        },
    }
}

/// Field `f` of the table: 0 `max_points`, 1 `max_contours`, 2
/// `max_size_of_instructions`, 3 `max_component_elements`, 4
/// `max_component_depth`.
pub open spec fn maxp_count(m: TableV1, f: int) -> u16 {
    if f == 0 {
        m.max_points
    } else if f == 1 {
        m.max_contours
    } else if f == 2 {
        m.max_size_of_instructions
    } else if f == 3 {
        m.max_component_elements
    } else {
        m.max_component_depth
    }
}

proof fn lemma_maxp_upto_count(glyphs: Seq<Glyph>, k: nat, f: int)
    requires
        k <= glyphs.len(),
        0 <= f < 5,
    ensures
        ({
            let r = maxp_upto(glyphs, k);
            &&& forall|i: int| 0 <= i < k ==> maxp_count(r, f) >= glyph_count(glyphs, #[trigger] glyphs[i], f)
            &&& maxp_count(r, f) == 0 || exists|i: int|
                0 <= i < k && maxp_count(r, f) == glyph_count(glyphs, #[trigger] glyphs[i], f)
            &&& r.n_glyphs == low16(glyphs.len() as int)
            &&& r.max_composite_points == 0
            &&& r.max_composite_contours == 0
            &&& r.max_zones == empty_table_v1().max_zones
            &&& r.max_twilight_points == 0
            &&& r.max_storage == 0
            &&& r.max_func_defs == 0
            &&& r.max_instruction_defs == 0
            &&& r.max_stack_elements == 0
        }),
    decreases k,
{
    if k > 0 {
        lemma_maxp_upto_count(glyphs, (k - 1) as nat, f);
        let m = maxp_upto(glyphs, (k - 1) as nat);
        let g = glyphs[k - 1];
        let r = maxp_upto(glyphs, k);
        assert(r == maxp_step(m, glyphs, g));
        assert(maxp_count(r, f) == max16(maxp_count(m, f), glyph_count(glyphs, g, f)));
        if maxp_count(r, f) != 0 {
            if maxp_count(r, f) == glyph_count(glyphs, g, f) {
                assert(maxp_count(r, f) == glyph_count(glyphs, glyphs[k - 1], f));
            } else {
                let i = choose|i: int|
                    0 <= i < k - 1 && maxp_count(m, f) == glyph_count(glyphs, #[trigger] glyphs[i], f);
                assert(maxp_count(r, f) == glyph_count(glyphs, glyphs[i], f));
            }
        }
    }
}

/// The table that `glyf_to_maxp` gives holds, in each of its maxima, the
/// largest count of any glyph of the table, whatever their order: no
/// glyph counts for more, and the maximum is the count of some glyph, or
/// zero. It counts the glyphs, and leaves the fields that glyphs do not
/// bear on at zero.
pub proof fn lemma_maxp_maxima(glyphs: Seq<Glyph>, f: int)
    requires
        0 <= f < 5,
    ensures
        ({
            let r = maxp_upto(glyphs, glyphs.len());
            &&& forall|i: int|
                0 <= i < glyphs.len() ==> maxp_count(r, f) >= glyph_count(glyphs, #[trigger] glyphs[i], f)
            &&& maxp_count(r, f) == 0 || exists|i: int|
                0 <= i < glyphs.len() && maxp_count(r, f) == glyph_count(glyphs, #[trigger] glyphs[i], f)
            &&& r.n_glyphs == low16(glyphs.len() as int)
            &&& r.max_composite_points == 0
            &&& r.max_composite_contours == 0
            &&& r.max_zones == empty_table_v1().max_zones
            &&& r.max_twilight_points == 0
            &&& r.max_storage == 0
            &&& r.max_func_defs == 0
            &&& r.max_instruction_defs == 0
            &&& r.max_stack_elements == 0
        }),
{
    lemma_maxp_upto_count(glyphs, glyphs.len(), f);
}

fn low16_of(n: usize) -> (r: u16)
    ensures
        r == low16(n as int),
{
    (n % 0x1_0000) as u16
}

fn max_u16(a: u16, b: u16) -> (r: u16)
    ensures
        r == max16(a, b),
{
    if a >= b {
        a
    } else {
        b
    }
}

/// Convert a `glyf` table to a `maxp` table version 1.
///
/// The glyph count and every maximum over the glyphs are kept in 16 bits,
/// as the table stores them: a count past `u16::MAX` keeps its low bits.
/// The counts of a compound glyph include those of the glyphs it refers to.
pub fn glyf_to_maxp(glyf: &GlyfTable) -> (r: TableV1)
    requires
        compounds_measurable(glyf.glyphs@),
    ensures
        r == maxp_upto(glyf.glyphs@, glyf.glyphs@.len()),
{
    let glyphs = glyf.glyphs.as_slice();
    let ghost gs = glyf.glyphs@;
    let mut maxp = TableV1 { n_glyphs: low16_of(glyf.glyphs.len()), ..TableV1::default() };
    let mut i: usize = 0;
    while i < glyf.glyphs.len()
        invariant
            gs == glyf.glyphs@,
            glyphs@ == gs,
            i <= gs.len(),
            compounds_measurable(gs),
            maxp == maxp_upto(gs, i as nat),
        decreases gs.len() - i,
    {
        match &glyf.glyphs[i] {
            Glyph::Simple(glyph) => {
                maxp.max_points = max_u16(maxp.max_points, low16_of(glyph.n_points()));
                maxp.max_contours = max_u16(maxp.max_contours, low16_of(glyph.n_contours()));
                maxp.max_size_of_instructions =
                    max_u16(maxp.max_size_of_instructions, low16_of(glyph.instructions.len()));
            },
            Glyph::Compound(glyph) => {
                proof {
                    assert(match gs[i as int] {
                        Glyph::Simple(_) => true,
                        Glyph::Compound(c) => compound_resolves(gs, c, gs.len()),
                    });
                }
                maxp.max_points = max_u16(maxp.max_points, low16_of(glyph.n_points(glyphs)));
                maxp.max_contours = max_u16(maxp.max_contours, low16_of(glyph.n_contours(glyphs)));
                maxp.max_size_of_instructions =
                    max_u16(maxp.max_size_of_instructions, low16_of(glyph.instructions.len()));
                maxp.max_component_elements =
                    max_u16(maxp.max_component_elements, low16_of(glyph.components.len()));
                maxp.max_component_depth = max_u16(maxp.max_component_depth, low16_of(glyph.depth(glyphs)));
            },
        }
        i = i + 1;
    }
    maxp
}

} // verus!
