//! The `glyf` table.
pub mod compound;
pub mod simple;

use crate::buf::BufSink;
use crate::bytes_spec::{
    i16_bytes, lemma_read_at, lemma_read_i16, lemma_read_u16, read_i16, read_u16, u16_bytes,
};
use crate::model::glyf::compound::components_encoding;
use crate::model::glyf::simple::{coord_enc, flag_enc, u16_enc};
use crate::seq_util::{lemma_concat_map_fixed_at, lemma_concat_map_len};
use crate::model::fword;
use vstd::prelude::*;

verus! {

/// The bounding box that starts every glyph description.
#[derive(Debug, Clone, Copy, PartialEq, Eq, Default, Structural)]
pub struct GlyphCommon {
    pub x_min: fword,
    pub y_min: fword,
    pub x_max: fword,
    pub y_max: fword,
}

impl GlyphCommon {
    pub open spec fn encoding(&self) -> Seq<u8> {
        i16_bytes(self.x_min) + i16_bytes(self.y_min) + i16_bytes(self.x_max) + i16_bytes(
            self.y_max,
        )
    }

    pub fn write<W: BufSink>(&self, w: &mut W)
        requires
            old(w).written().len() + 8 <= isize::MAX,
        ensures
            final(w).written() == old(w).written() + self.encoding(),
    {
        w.put_i16(self.x_min);
        w.put_i16(self.y_min);
        w.put_i16(self.x_max);
        w.put_i16(self.y_max);
        assert(w.written() =~= old(w).written() + self.encoding());
    }
}

} // verus!

verus! {

use crate::model::glyf::compound::{CompoundGlyph, CompoundGlyphVerifyError};
use crate::model::glyf::simple::{expand_flags, SimpleGlyph, SimpleGlyphVerifyError};
use crate::model::ITable;
use crate::seq_util::{concat_map, lemma_concat_map_take_len, lemma_concat_map_take_step};

/// A glyph description in the `glyf` table.
#[derive(Debug, Clone)]
pub enum Glyph {
    Simple(SimpleGlyph),
    Compound(CompoundGlyph),
}

/// Why a glyph cannot be written as it is.
#[derive(Debug, Clone, Copy, PartialEq, Eq, Structural)]
pub enum GlyphVerifyErrorKind {
    Simple(SimpleGlyphVerifyError),
    Compound(CompoundGlyphVerifyError),
}

/// A glyph that cannot be written, and its index in the table.
#[derive(Debug, Clone, Copy, PartialEq, Eq, Structural)]
pub struct GlyphVerifyError {
    pub kind: GlyphVerifyErrorKind,
    pub index: usize,
}

impl GlyphVerifyError {
    pub fn kind(&self) -> (r: GlyphVerifyErrorKind)
        ensures
            r == self.kind,
    {
        self.kind
    }

    pub fn index(&self) -> (r: usize)
        ensures
            r == self.index,
    {
        self.index
    }
}

/// The number of points (`kind` 0), contours (`kind` 1) or nesting levels
/// (`kind` 2) of a glyph, following component references at most `fuel`
/// levels deep.
pub open spec fn glyph_measure(glyphs: Seq<Glyph>, g: Glyph, fuel: nat, kind: u8) -> nat
    decreases fuel, 0nat,
{
    match g {
        Glyph::Simple(s) => if kind == 0 {
            s.spec_n_points()
        } else if kind == 1 {
            s.end_points_of_countours@.len()
        } else {
            1
        },
        Glyph::Compound(c) => if fuel == 0 {
            0
        } else {
            compound_measure(glyphs, c, (fuel - 1) as nat, kind)
        },
    }
}

/// The measure of a compound glyph: the sum over its components of points
/// or contours, or one more than the deepest component.
pub open spec fn compound_measure(glyphs: Seq<Glyph>, c: CompoundGlyph, fuel: nat, kind: u8) -> nat
    decreases fuel, 2nat,
{
    let m = components_measure(glyphs, c.components@, c.components@.len(), fuel, kind);
    if kind == 2 {
        m + 1
    } else {
        m
    }
}

pub open spec fn components_measure(
    glyphs: Seq<Glyph>,
    cs: Seq<crate::model::glyf::compound::Component>,
    k: nat,
    fuel: nat,
    kind: u8,
) -> nat
    decreases fuel, 1nat, k,
{
    if k == 0 || k > cs.len() {
        0
    } else {
        let rest = components_measure(glyphs, cs, (k - 1) as nat, fuel, kind);
        let idx = cs[k - 1].glyph_index as int;
        let here = if 0 <= idx < glyphs.len() {
            glyph_measure(glyphs, glyphs[idx], fuel, kind)
        } else {
            0
        };
        if kind == 2 {
            if rest >= here {
                rest
            } else {
                here
            }
        } else {
            rest + here
        }
    }
}

/// Every component reference leads, within `fuel` levels, to glyphs of the
/// table.
pub open spec fn resolves(glyphs: Seq<Glyph>, g: Glyph, fuel: nat) -> bool
    decreases fuel, 0nat,
{
    match g {
        Glyph::Simple(_) => true,
        Glyph::Compound(c) => fuel > 0 && compound_resolves(glyphs, c, (fuel - 1) as nat),
    }
}

pub open spec fn compound_resolves(glyphs: Seq<Glyph>, c: CompoundGlyph, fuel: nat) -> bool
    decreases fuel, 1nat,
{
    forall|i: int|
        0 <= i < c.components@.len() ==> {
            let idx = (#[trigger] c.components@[i]).glyph_index as int;
            &&& idx < glyphs.len()
            &&& resolves(glyphs, glyphs[idx], fuel)
        }
}

proof fn lemma_components_measure_mono(
    glyphs: Seq<Glyph>,
    cs: Seq<crate::model::glyf::compound::Component>,
    a: nat,
    b: nat,
    fuel: nat,
    kind: u8,
)
    requires
        a <= b <= cs.len(),
    ensures
        components_measure(glyphs, cs, a, fuel, kind) <= components_measure(glyphs, cs, b, fuel, kind),
    decreases b,
{
    if a < b {
        lemma_components_measure_mono(glyphs, cs, a, (b - 1) as nat, fuel, kind);
    }
}

impl CompoundGlyph {
    fn measure(&self, glyphs: &[Glyph], kind: u8, Ghost(fuel): Ghost<nat>) -> (r: usize)
        requires
            compound_resolves(glyphs@, *self, fuel),
            compound_measure(glyphs@, *self, fuel, kind) <= usize::MAX,
        ensures
            r == compound_measure(glyphs@, *self, fuel, kind),
        decreases fuel, 1nat,
    {
        let ghost cs = self.components@;
        let mut acc: usize = 0;
        let mut i: usize = 0;
        proof {
            lemma_components_measure_mono(glyphs@, cs, 0, cs.len(), fuel, kind);
        }
        while i < self.components.len()
            invariant
                cs == self.components@,
                i <= cs.len(),
                compound_resolves(glyphs@, *self, fuel),
                compound_measure(glyphs@, *self, fuel, kind) <= usize::MAX,
                acc == components_measure(glyphs@, cs, i as nat, fuel, kind),
            decreases cs.len() - i,
        {
            let idx = self.components[i].glyph_index as usize;
            proof {
                assert(cs[i as int] == self.components@[i as int]);
                lemma_components_measure_mono(glyphs@, cs, (i + 1) as nat, cs.len(), fuel, kind);
            }
            let here = glyphs[idx].measure(glyphs, kind, Ghost(fuel));
            if kind == 2 {
                if here > acc {
                    acc = here;
                }
            } else {
                acc = acc + here;
            }
            i = i + 1;
        }
        if kind == 2 {
            acc + 1
        } else {
            acc
        }
    }

    /// The total number of points of the component glyphs.
    pub fn n_points(&self, glyphs: &[Glyph]) -> (r: usize)
        requires
            compound_resolves(glyphs@, *self, glyphs@.len()),
            compound_measure(glyphs@, *self, glyphs@.len(), 0) <= usize::MAX,
        ensures
            r == compound_measure(glyphs@, *self, glyphs@.len(), 0),
    {
        self.measure(glyphs, 0, Ghost(glyphs@.len()))
    }

    /// The total number of contours of the component glyphs.
    pub fn n_contours(&self, glyphs: &[Glyph]) -> (r: usize)
        requires
            compound_resolves(glyphs@, *self, glyphs@.len()),
            compound_measure(glyphs@, *self, glyphs@.len(), 1) <= usize::MAX,
        ensures
            r == compound_measure(glyphs@, *self, glyphs@.len(), 1),
    {
        self.measure(glyphs, 1, Ghost(glyphs@.len()))
    }

    /// One more than the nesting depth of the deepest component glyph.
    pub fn depth(&self, glyphs: &[Glyph]) -> (r: usize)
        requires
            compound_resolves(glyphs@, *self, glyphs@.len()),
            compound_measure(glyphs@, *self, glyphs@.len(), 2) <= usize::MAX,
        ensures
            r == compound_measure(glyphs@, *self, glyphs@.len(), 2),
    {
        self.measure(glyphs, 2, Ghost(glyphs@.len()))
    }
}

impl Glyph {
    fn measure(&self, glyphs: &[Glyph], kind: u8, Ghost(fuel): Ghost<nat>) -> (r: usize)
        requires
            resolves(glyphs@, *self, fuel),
            glyph_measure(glyphs@, *self, fuel, kind) <= usize::MAX,
        ensures
            r == glyph_measure(glyphs@, *self, fuel, kind),
        decreases fuel, 0nat,
    {
        match self {
            Glyph::Simple(g) => if kind == 0 {
                g.n_points()
            } else if kind == 1 {
                g.n_contours()
            } else {
                1
            },
            Glyph::Compound(g) => g.measure(glyphs, kind, Ghost((fuel - 1) as nat)),
        }
    }

    pub fn common(&self) -> (r: &GlyphCommon)
        ensures
            *r == match *self {
                Glyph::Simple(g) => g.common,
                Glyph::Compound(g) => g.common,
            },
    {
        match self {
            Glyph::Simple(simple_glyph) => &simple_glyph.common,
            Glyph::Compound(compound_glyph) => &compound_glyph.common,
        }
    }

    /// The number of points, counting those of component glyphs.
    pub fn n_points(&self, glyphs: &[Glyph]) -> (r: usize)
        requires
            resolves(glyphs@, *self, glyphs@.len() + 1),
            glyph_measure(glyphs@, *self, glyphs@.len() + 1, 0) <= usize::MAX,
        ensures
            r == glyph_measure(glyphs@, *self, glyphs@.len() + 1, 0),
    {
        self.measure(glyphs, 0, Ghost(glyphs@.len() + 1))
    }

    /// The number of contours, counting those of component glyphs.
    pub fn n_contours(&self, glyphs: &[Glyph]) -> (r: usize)
        requires
            resolves(glyphs@, *self, glyphs@.len() + 1),
            glyph_measure(glyphs@, *self, glyphs@.len() + 1, 1) <= usize::MAX,
        ensures
            r == glyph_measure(glyphs@, *self, glyphs@.len() + 1, 1),
    {
        self.measure(glyphs, 1, Ghost(glyphs@.len() + 1))
    }

    /// The nesting depth: 1 for a simple glyph.
    pub fn depth(&self, glyphs: &[Glyph]) -> (r: usize)
        requires
            resolves(glyphs@, *self, glyphs@.len() + 1),
            glyph_measure(glyphs@, *self, glyphs@.len() + 1, 2) <= usize::MAX,
        ensures
            r == glyph_measure(glyphs@, *self, glyphs@.len() + 1, 2),
    {
        self.measure(glyphs, 2, Ghost(glyphs@.len() + 1))
    }

    pub open spec fn verify_result(&self) -> Result<(), GlyphVerifyErrorKind> {
        match *self {
            Glyph::Simple(g) => match g.verify_result() {
                Ok(_) => Ok(()),
                Err(e) => Err(GlyphVerifyErrorKind::Simple(e)),
            },
            Glyph::Compound(g) => match g.verify_result() {
                Ok(_) => Ok(()),
                Err(e) => Err(GlyphVerifyErrorKind::Compound(e)),
            },
        }
    }

    /// The flags of a simple glyph stand for few enough points to count.
    pub open spec fn countable(&self) -> bool {
        match *self {
            Glyph::Simple(g) => expand_flags(g.flags@).len() <= usize::MAX,
            Glyph::Compound(_) => true,
        }
    }

    pub fn verify(&self) -> (r: Result<(), GlyphVerifyErrorKind>)
        requires
            self.countable(),
        ensures
            r == self.verify_result(),
    {
        match self {
            Glyph::Simple(g) => match g.verify() {
                Ok(()) => Ok(()),
                Err(e) => Err(GlyphVerifyErrorKind::Simple(e)),
            },
            Glyph::Compound(g) => match g.verify() {
                Ok(()) => Ok(()),
                Err(e) => Err(GlyphVerifyErrorKind::Compound(e)),
            },
        }
    }

    pub open spec fn encoding(&self) -> Seq<u8> {
        match *self {
            Glyph::Simple(g) => g.encoding(),
            Glyph::Compound(g) => g.encoding(),
        }
    }

    pub fn write<W: BufSink>(&self, w: &mut W)
        requires
            old(w).written().len() + self.encoding().len() <= isize::MAX,
        ensures
            final(w).written() == old(w).written() + self.encoding(),
    {
        match self {
            Glyph::Simple(g) => g.write(w),
            Glyph::Compound(g) => g.write(w),
        }
    }
}

pub open spec fn glyph_enc() -> spec_fn(Glyph) -> Seq<u8> {
    |g: Glyph| g.encoding()
}

/// The `glyf` table: the glyph descriptions, one after another.
pub struct Table {
    pub glyphs: Vec<Glyph>,
}

/// What `Table::verify` returns for the first `k` glyphs.
pub open spec fn table_verify(glyphs: Seq<Glyph>, k: nat) -> Result<(), GlyphVerifyError>
    decreases k,
{
    if k == 0 {
        Ok(())
    } else {
        match table_verify(glyphs, (k - 1) as nat) {
            Err(e) => Err(e),
            Ok(_) => match glyphs[k - 1].verify_result() {
                Ok(_) => Ok(()),
                Err(e) => Err(GlyphVerifyError { kind: e, index: (k - 1) as usize }),
            },
        }
    }
}

proof fn lemma_table_verify_err_stays(glyphs: Seq<Glyph>, a: nat, b: nat)
    requires
        a <= b,
        table_verify(glyphs, a) is Err,
    ensures
        table_verify(glyphs, b) == table_verify(glyphs, a),
    decreases b,
{
    if a < b {
        lemma_table_verify_err_stays(glyphs, a, (b - 1) as nat);
    }
}

impl Table {
    /// Checks every glyph, reporting the first one that fails.
    pub fn verify(&self) -> (r: Result<(), GlyphVerifyError>)
        requires
            forall|i: int| 0 <= i < self.glyphs@.len() ==> (#[trigger] self.glyphs@[i]).countable(),
        ensures
            r == table_verify(self.glyphs@, self.glyphs@.len()),
    {
        let mut ix: usize = 0;
        while ix < self.glyphs.len()
            invariant
                ix <= self.glyphs@.len(),
                forall|i: int| 0 <= i < self.glyphs@.len() ==> (#[trigger] self.glyphs@[i]).countable(),
                table_verify(self.glyphs@, ix as nat) == Ok::<(), GlyphVerifyError>(()),
            decreases self.glyphs@.len() - ix,
        {
            match self.glyphs[ix].verify() {
                Err(e) => {
                    proof {
                        lemma_table_verify_err_stays(self.glyphs@, (ix + 1) as nat, self.glyphs@.len());
                    }
                    return Err(GlyphVerifyError { kind: e, index: ix });
                },
                Ok(()) => {},
            }
            ix = ix + 1;
        }
        Ok(())
    }
}

impl ITable for Table {
    open spec fn writable(&self) -> bool {
        true
    }

    open spec fn encoding(&self) -> Seq<u8> {
        concat_map(self.glyphs@, glyph_enc())
    }

    open spec fn tag(&self) -> Seq<u8> {
        seq![0x67u8, 0x6cu8, 0x79u8, 0x66u8]
    }

    fn name(&self) -> (r: [u8; 4]) {
        let r = [0x67u8, 0x6cu8, 0x79u8, 0x66u8];
        assert(r@ =~= self.tag());
        r
    }

    fn write<W: BufSink>(&self, w: &mut W) {
        let ghost base = old(w).written();
        let mut i: usize = 0;
        while i < self.glyphs.len()
            invariant
                i <= self.glyphs@.len(),
                w.written() == base + concat_map(self.glyphs@.take(i as int), glyph_enc()),
                base.len() + concat_map(self.glyphs@, glyph_enc()).len() <= isize::MAX,
            decreases self.glyphs@.len() - i,
        {
            proof {
                lemma_concat_map_take_step(self.glyphs@, i as int, glyph_enc());
                lemma_concat_map_take_len(self.glyphs@, i as int + 1, glyph_enc());
            }
            self.glyphs[i].write(w);
            assert(w.written() =~= base + concat_map(self.glyphs@.take(i as int + 1), glyph_enc()));
            i = i + 1;
        }
        assert(self.glyphs@.take(i as int) =~= self.glyphs@);
    }
}


/// The bounding box read back from the bytes that follow the first word of
/// a glyph.
proof fn lemma_common_reads(e: Seq<u8>, c: GlyphCommon)
    requires
        10 <= e.len(),
        e.subrange(2, 10) == c.encoding(),
    ensures
        read_i16(e, 2) == c.x_min,
        read_i16(e, 4) == c.y_min,
        read_i16(e, 6) == c.x_max,
        read_i16(e, 8) == c.y_max,
{
    let w = c.encoding();
    assert forall|k: int| 0 <= k < 8 implies e[2 + k] == #[trigger] w[k] by {
        assert(e.subrange(2, 10)[k] == e[2 + k]);
    }
    assert(w.subrange(0, 2) =~= i16_bytes(c.x_min));
    assert(w.subrange(2, 4) =~= i16_bytes(c.y_min));
    assert(w.subrange(4, 6) =~= i16_bytes(c.x_max));
    assert(w.subrange(6, 8) =~= i16_bytes(c.y_max));
    assert(e.subrange(2, 4) =~= i16_bytes(c.x_min));
    assert(e.subrange(4, 6) =~= i16_bytes(c.y_min));
    assert(e.subrange(6, 8) =~= i16_bytes(c.x_max));
    assert(e.subrange(8, 10) =~= i16_bytes(c.y_max));
    lemma_read_at(e, 2, i16_bytes(c.x_min));
    lemma_read_at(e, 4, i16_bytes(c.y_min));
    lemma_read_at(e, 6, i16_bytes(c.x_max));
    lemma_read_at(e, 8, i16_bytes(c.y_max));
    lemma_read_i16(c.x_min);
    lemma_read_i16(c.y_min);
    lemma_read_i16(c.x_max);
    lemma_read_i16(c.y_max);
}

/// The bytes of a simple glyph hold, as OpenType lays out a glyph, its
/// number of contours at 0 (in 16 bits), its bounding box at 2 to 8, the
/// last point of contour `c` at `10 + 2 c`, then the size of its
/// instructions (in 16 bits) and the instructions themselves.
pub proof fn lemma_simple_glyph_layout(g: SimpleGlyph)
    ensures
        ({
            let e = g.encoding();
            let n = g.end_points_of_countours@.len() as int;
            let il = g.instructions@.len() as int;
            &&& e.len() >= 12 + 2 * n + il
            &&& read_u16(e, 0) == n % 0x1_0000
            &&& read_i16(e, 2) == g.common.x_min
            &&& read_i16(e, 4) == g.common.y_min
            &&& read_i16(e, 6) == g.common.x_max
            &&& read_i16(e, 8) == g.common.y_max
            &&& forall|c: int|
                0 <= c < n ==> read_u16(e, 10 + 2 * c) == #[trigger] g.end_points_of_countours@[c]
            &&& read_u16(e, 10 + 2 * n) == il % 0x1_0000
            &&& e.subrange(12 + 2 * n, 12 + 2 * n + il) == g.instructions@
        }),
{
    let e = g.encoding();
    let ends = g.end_points_of_countours@;
    let n = ends.len() as int;
    let il = g.instructions@.len() as int;
    let n16 = (n % 0x1_0000) as u16;
    let il16 = (il % 0x1_0000) as u16;
    let h = u16_bytes(n16);
    let cm = g.common.encoding();
    let ce = concat_map(ends, u16_enc());
    let ib = u16_bytes(il16);
    let rest = concat_map(g.flags@, flag_enc()) + concat_map(g.x_coords@, coord_enc()) + concat_map(
        g.y_coords@,
        coord_enc(),
    );
    assert(e == h + cm + ce + ib + g.instructions@ + rest);
    assert forall|j: int| 0 <= j < n implies (#[trigger] u16_enc()(ends[j])).len() == 2 by {}
    lemma_concat_map_len(ends, u16_enc(), 2);
    assert(e.subrange(0, 2) =~= h);
    lemma_read_at(e, 0, h);
    lemma_read_u16(n16);
    assert(e.subrange(2, 10) =~= cm);
    lemma_common_reads(e, g.common);
    assert forall|c: int| 0 <= c < n implies read_u16(e, 10 + 2 * c) == #[trigger] ends[c] by {
        lemma_concat_map_fixed_at(ends, u16_enc(), 2, c);
        assert(ce.subrange(2 * c, 2 * c + 2) == u16_bytes(ends[c]));
        assert(e[10 + 2 * c] == ce[2 * c] && e[11 + 2 * c] == ce[2 * c + 1]);
        assert(e.subrange(10 + 2 * c, 12 + 2 * c) =~= u16_bytes(ends[c]));
        lemma_read_at(e, 10 + 2 * c, u16_bytes(ends[c]));
        lemma_read_u16(ends[c]);
    }
    assert(e.subrange(10 + 2 * n, 12 + 2 * n) =~= ib);
    lemma_read_at(e, 10 + 2 * n, ib);
    lemma_read_u16(il16);
    assert(e.subrange(12 + 2 * n, 12 + 2 * n + il) =~= g.instructions@);
}

/// The bytes of a compound glyph hold -1 at 0, where a simple glyph holds
/// its number of contours, and its bounding box at 2 to 8.
pub proof fn lemma_compound_glyph_header(g: CompoundGlyph)
    ensures
        g.encoding().len() >= 10,
        read_i16(g.encoding(), 0) == -1,
        read_i16(g.encoding(), 2) == g.common.x_min,
        read_i16(g.encoding(), 4) == g.common.y_min,
        read_i16(g.encoding(), 6) == g.common.x_max,
        read_i16(g.encoding(), 8) == g.common.y_max,
{
    let e = g.encoding();
    let has = g.instructions@.len() > 0;
    let tail = components_encoding(g.components@, has) + (if has {
        u16_bytes((g.instructions@.len() % 0x1_0000) as u16) + g.instructions@
    } else {
        Seq::empty()
    });
    assert(e == i16_bytes(-1i16) + g.common.encoding() + tail);
    assert(e.subrange(0, 2) =~= i16_bytes(-1i16));
    lemma_read_at(e, 0, i16_bytes(-1i16));
    lemma_read_i16(-1i16);
    assert(e.subrange(2, 10) =~= g.common.encoding());
    lemma_common_reads(e, g.common);
}

} // verus!
