//! Compound glyphs: glyphs made of other glyphs.
use crate::buf::BufSink;
use crate::bytes_spec::{
    i16_bytes, i8_bytes, lemma_read_at, lemma_read_i16, lemma_read_i8, lemma_read_u16, read_i16,
    read_i8, read_u16, u16_bytes,
};
use crate::model::glyf::GlyphCommon;
use crate::model::{f2dot14, fword};
use crate::seq_util::{concat_map, lemma_concat_map_take_len, lemma_concat_map_take_step};
use vstd::prelude::*;

verus! {

/// Where a component glyph is placed.
#[derive(Clone, Copy, Debug, PartialEq, Eq, Structural)]
pub enum Args {
    /// This component glyph should be offsetted by the given amount
    Offset { x: fword, y: fword },
    /// The control point in child component with index `child`
    /// (before renumbering) should be moved to the same place as
    /// the `parent`th point (after renumbering) currently added to
    /// the glyph.
    AlignCtrlPoints { parent: u16, child: u16 },
}

impl Args {
    pub open spec fn spec_in_short_format(self) -> bool {
        match self {
            Args::Offset { x, y } => -128 <= x <= 127 && -128 <= y <= 127,
            Args::AlignCtrlPoints { parent, child } => parent <= 255 && child <= 255,
        }
    }

    /// Whether both arguments fit in one byte each.
    pub fn in_short_format(&self) -> (r: bool)
        ensures
            r == self.spec_in_short_format(),
    {
        match *self {
            Args::Offset { x, y } => x >= -128 && x <= 127 && y >= -128 && y <= 127,
            Args::AlignCtrlPoints { parent, child } => parent <= 255 && child <= 255,
        }
    }

    pub open spec fn spec_my_flags(self, flags: u16) -> u16 {
        let f1 = if !self.spec_in_short_format() {
            flags | 0x0001u16
        } else {
            flags
        };
        if self is Offset {
            f1 | 0x0002u16
        } else {
            f1
        }
    }

    /// Adds the flags that describe the arguments: two-byte arguments unless
    /// both fit in one byte, and xy values for an offset.
    pub fn add_my_flags(&self, flags: ComponentFlags) -> (r: ComponentFlags)
        ensures
            r.0 == self.spec_my_flags(flags.0),
    {
        let mut flags = flags;
        if !self.in_short_format() {
            flags = flags.union(ComponentFlags::ARG_1_AND_2_ARE_WORDS);
        }
        if matches!(self, Self::Offset { .. }) {
            flags = flags.union(ComponentFlags::ARGS_ARE_XY_VALUES);
        }
        flags
    }

    pub open spec fn encoding(self) -> Seq<u8> {
        match self {
            Args::Offset { x, y } => if self.spec_in_short_format() {
                i8_bytes(x as i8) + i8_bytes(y as i8)
            } else {
                i16_bytes(x) + i16_bytes(y)
            },
            Args::AlignCtrlPoints { parent, child } => if self.spec_in_short_format() {
                seq![parent as u8, child as u8]
            } else {
                u16_bytes(parent) + u16_bytes(child)
            },
        }
    }

    pub fn write<W: BufSink>(&self, w: &mut W)
        requires
            old(w).written().len() + self.encoding().len() <= isize::MAX,
        ensures
            final(w).written() == old(w).written() + self.encoding(),
    {
        let short = self.in_short_format();
        match *self {
            Args::Offset { x, y } => {
                if short {
                    w.put_i8(x as i8);
                    w.put_i8(y as i8);
                } else {
                    w.put_i16(x);
                    w.put_i16(y);
                }
            },
            Args::AlignCtrlPoints { parent, child } => {
                if short {
                    w.put_u8(parent as u8);
                    w.put_u8(child as u8);
                } else {
                    w.put_u16(parent);
                    w.put_u16(child);
                }
            },
        }
        assert(w.written() =~= old(w).written() + self.encoding());
    }
}

/// The transformation of a component.
#[derive(Clone, Copy, Debug, PartialEq, Eq, Structural)]
pub enum Scale {
    One,
    Simple(f2dot14),
    XY { x: f2dot14, y: f2dot14 },
    /// Scale in a 2x2 matrix. Names are (component_axis, project_to_axis)
    TwoByTwo { xx: f2dot14, yx: f2dot14, xy: f2dot14, yy: f2dot14 },
}

impl Scale {
    pub open spec fn spec_my_flags(self, flags: u16) -> u16 {
        match self {
            Scale::One => flags,
            Scale::Simple(_) => flags | 0x0008u16,
            Scale::XY { .. } => flags | 0x0040u16,
            Scale::TwoByTwo { .. } => flags | 0x0080u16,
        }
    }

    /// Adds the flag that says which kind of scale follows.
    pub fn add_my_flags(&self, flags: ComponentFlags) -> (r: ComponentFlags)
        ensures
            r.0 == self.spec_my_flags(flags.0),
    {
        match self {
            Scale::One => flags,
            Scale::Simple(_) => flags.union(ComponentFlags::WE_HAVE_A_SCALE),
            Scale::XY { .. } => flags.union(ComponentFlags::WE_HAVE_AN_X_AND_Y_SCALE),
            Scale::TwoByTwo { .. } => flags.union(ComponentFlags::WE_HAVE_A_TWO_BY_TWO),
        }
    }

    pub open spec fn encoding(self) -> Seq<u8> {
        match self {
            Scale::One => Seq::empty(),
            Scale::Simple(s) => i16_bytes(s.0),
            Scale::XY { x, y } => i16_bytes(x.0) + i16_bytes(y.0),
            Scale::TwoByTwo { xx, yx, xy, yy } => i16_bytes(xx.0) + i16_bytes(xy.0) + i16_bytes(yx.0)
                + i16_bytes(yy.0),
        }
    }

    pub fn write<W: BufSink>(&self, w: &mut W)
        requires
            old(w).written().len() + self.encoding().len() <= isize::MAX,
        ensures
            final(w).written() == old(w).written() + self.encoding(),
    {
        match self {
            Scale::One => {},
            Scale::Simple(scale) => w.put_i16(scale.to_bits()),
            Scale::XY { x, y } => {
                w.put_i16(x.to_bits());
                w.put_i16(y.to_bits());
            },
            Scale::TwoByTwo { xx, yx, xy, yy } => {
                w.put_i16(xx.to_bits());
                w.put_i16(xy.to_bits());
                w.put_i16(yx.to_bits());
                w.put_i16(yy.to_bits());
            },
        }
        assert(w.written() =~= old(w).written() + self.encoding());
    }
}

/// The flags of a component.
#[derive(Clone, Copy, PartialEq, Eq, Debug, Structural)]
pub struct ComponentFlags(pub u16);

impl ComponentFlags {
    /// Bit 0: If this is set, the arguments are 16-bit (uint16 or int16); otherwise, they are bytes (uint8 or int8).
    ///
    /// Should not be set by user.
    pub const ARG_1_AND_2_ARE_WORDS: u16 = 0x0001;
    /// Bit 1: If this is set, the arguments are signed xy values; otherwise, they are unsigned point numbers.
    ///
    /// Should not be set by user.
    pub const ARGS_ARE_XY_VALUES: u16 = 0x0002;
    /// Bit 2: If set and ARGS_ARE_XY_VALUES is also set, the xy values are rounded to the nearest grid line.
    pub const ROUND_XY_TO_GRID: u16 = 0x0004;
    /// Bit 3: There is a simple scale for the component. Should not be set by user.
    pub const WE_HAVE_A_SCALE: u16 = 0x0008;
    /// Bit 5: Indicates at least one more glyph after this one. Should not be set by user.
    pub const MORE_COMPONENTS: u16 = 0x0020;
    /// Bit 6: The x direction will use a different scale from the y direction. Should not be set by user.
    pub const WE_HAVE_AN_X_AND_Y_SCALE: u16 = 0x0040;
    /// Bit 7: There is a 2 by 2 transformation that will be used to scale the component. Should not be set by user.
    pub const WE_HAVE_A_TWO_BY_TWO: u16 = 0x0080;
    /// Bit 8: Following the last component are instructions for the composite glyph. Should not be set by user.
    pub const WE_HAVE_INSTRUCTIONS: u16 = 0x0100;
    /// Bit 9: the composite takes its advance width and side bearings from this component.
    pub const USE_MY_METRICS: u16 = 0x0200;
    /// Bit 10: the components of the compound glyph overlap.
    pub const OVERLAP_COMPOUND: u16 = 0x0400;
    /// Bit 11: The composite is designed to have the component offset scaled.
    pub const SCALED_COMPONENT_OFFSET: u16 = 0x0800;
    /// Bit 12: The composite is designed not to have the component offset scaled.
    pub const UNSCALED_COMPONENT_OFFSET: u16 = 0x1000;
    /// Reserved flags that should be set to 0.
    pub const RESERVED: u16 = 0xE010;

    pub fn empty() -> (r: Self)
        ensures
            r.0 == 0,
    {
        ComponentFlags(0)
    }

    pub fn bits(&self) -> (r: u16)
        ensures
            r == self.0,
    {
        self.0
    }

    pub fn union(self, mask: u16) -> (r: Self)
        ensures
            r.0 == self.0 | mask,
    {
        ComponentFlags(self.0 | mask)
    }

    /// Whether all bits of `mask` are set.
    pub fn contains(&self, mask: u16) -> (r: bool)
        ensures
            r == (self.0 & mask == mask),
    {
        self.0 & mask == mask
    }

    /// Whether any bit of `mask` is set.
    pub fn intersects(&self, mask: u16) -> (r: bool)
        ensures
            r == (self.0 & mask != 0),
    {
        self.0 & mask != 0
    }

    /// Forbidden flags that should not set by user.
    pub fn forbidden() -> (r: Self)
        ensures
            r.0 == 0x0001u16 | 0x0002u16 | 0x0008u16 | 0x0040u16 | 0x0080u16 | 0x0020u16 | 0x0100u16
                | 0xE010u16,
    {
        ComponentFlags(
            Self::ARG_1_AND_2_ARE_WORDS | Self::ARGS_ARE_XY_VALUES | Self::WE_HAVE_A_SCALE
                | Self::WE_HAVE_AN_X_AND_Y_SCALE | Self::WE_HAVE_A_TWO_BY_TWO | Self::MORE_COMPONENTS
                | Self::WE_HAVE_INSTRUCTIONS | Self::RESERVED,
        )
    }
}

/// One glyph inside a compound glyph.
#[derive(Clone, Copy, Debug, PartialEq, Eq, Structural)]
pub struct Component {
    pub flags: ComponentFlags,
    pub glyph_index: u16,
    pub args: Args,
    pub scale: Scale,
}

impl Component {
    /// The flags written for the component.
    pub open spec fn written_flags(self, is_last: bool, has_instructions: bool) -> u16 {
        let f1 = if !is_last {
            self.flags.0 | 0x0020u16
        } else {
            self.flags.0
        };
        let f2 = if has_instructions {
            f1 | 0x0100u16
        } else {
            f1
        };
        self.scale.spec_my_flags(self.args.spec_my_flags(f2))
    }

    pub open spec fn encoding(self, is_last: bool, has_instructions: bool) -> Seq<u8> {
        u16_bytes(self.written_flags(is_last, has_instructions)) + u16_bytes(self.glyph_index)
            + self.args.encoding() + self.scale.encoding()
    }

    pub fn write<W: BufSink>(&self, w: &mut W, is_last: bool, has_instructions: bool)
        requires
            old(w).written().len() + self.encoding(is_last, has_instructions).len() <= isize::MAX,
        ensures
            final(w).written() == old(w).written() + self.encoding(is_last, has_instructions),
    {
        let mut flags = self.flags;
        if !is_last {
            flags = flags.union(ComponentFlags::MORE_COMPONENTS);
        }
        if has_instructions {
            flags = flags.union(ComponentFlags::WE_HAVE_INSTRUCTIONS);
        }
        flags = self.args.add_my_flags(flags);
        flags = self.scale.add_my_flags(flags);

        w.put_u16(flags.bits());
        w.put_u16(self.glyph_index);
        self.args.write(w);
        self.scale.write(w);
        assert(w.written() =~= old(w).written() + self.encoding(is_last, has_instructions));
    }
}

/// A glyph made of other glyphs.
#[derive(Clone, Debug)]
pub struct CompoundGlyph {
    pub common: GlyphCommon,
    pub components: Vec<Component>,
    pub instructions: Vec<u8>,
}

/// Why a compound glyph cannot be written as it is.
#[derive(Debug, Clone, Copy, PartialEq, Eq, Structural)]
pub enum CompoundGlyphVerifyError {
    /// A compound glyph must have at least one component.
    NoComponents,
    /// The flags for the component contain ones that are not allowed to be set by user.
    ForbiddenFlags(usize),
}

pub open spec fn forbidden_bits() -> u16 {
    0x0001u16 | 0x0002u16 | 0x0008u16 | 0x0040u16 | 0x0080u16 | 0x0020u16 | 0x0100u16 | 0xE010u16
}

/// Each component with whether it is the last one.
pub open spec fn comp_pairs(cs: Seq<Component>) -> Seq<(Component, bool)> {
    Seq::new(cs.len(), |i: int| (cs[i], i == cs.len() - 1))
}

pub open spec fn comp_enc(has_instructions: bool) -> spec_fn((Component, bool)) -> Seq<u8> {
    |p: (Component, bool)| p.0.encoding(p.1, has_instructions)
}

/// The bytes of the components, each told whether it is the last one.
pub open spec fn components_encoding(cs: Seq<Component>, has_instructions: bool) -> Seq<u8> {
    concat_map(comp_pairs(cs), comp_enc(has_instructions))
}

impl CompoundGlyph {
    /// What `verify` returns: the first problem found.
    pub open spec fn verify_result(&self) -> Result<(), CompoundGlyphVerifyError> {
        let cs = self.components@;
        if cs.len() == 0 {
            Err(CompoundGlyphVerifyError::NoComponents)
        } else if exists|i: int| 0 <= i < cs.len() && #[trigger] cs[i].flags.0 & forbidden_bits() != 0 {
            let i = choose|i: int|
                0 <= i < cs.len() && #[trigger] cs[i].flags.0 & forbidden_bits() != 0 && forall|j: int|
                    0 <= j < i ==> cs[j].flags.0 & forbidden_bits() == 0;
            Err(CompoundGlyphVerifyError::ForbiddenFlags(i as usize))
        } else {
            Ok(())
        }
    }

    /// Checks that there is a component and that no component sets a flag
    /// that only the encoder may set.
    pub fn verify(&self) -> (r: Result<(), CompoundGlyphVerifyError>)
        ensures
            r == self.verify_result(),
    {
        if self.components.len() == 0 {
            return Err(CompoundGlyphVerifyError::NoComponents);
        }
        let forbidden = ComponentFlags::forbidden();
        let mut idx: usize = 0;
        while idx < self.components.len()
            invariant
                idx <= self.components@.len(),
                self.components@.len() > 0,
                forbidden.0 == forbidden_bits(),
                forall|j: int| 0 <= j < idx ==> self.components@[j].flags.0 & forbidden_bits() == 0,
            decreases self.components@.len() - idx,
        {
            if self.components[idx].flags.intersects(forbidden.bits()) {
                proof {
                    let cs = self.components@;
                    let i = choose|i: int|
                        0 <= i < cs.len() && #[trigger] cs[i].flags.0 & forbidden_bits() != 0 && forall|j: int|
                            0 <= j < i ==> cs[j].flags.0 & forbidden_bits() == 0;
                    assert(0 <= idx < cs.len() && cs[idx as int].flags.0 & forbidden_bits() != 0);
                    if i < idx {
                    } else if i > idx {
                    }
                    assert(i == idx);
                }
                return Err(CompoundGlyphVerifyError::ForbiddenFlags(idx));
            }
            idx = idx + 1;
        }
        Ok(())
    }

    pub open spec fn encoding(&self) -> Seq<u8> {
        let has_instructions = self.instructions@.len() > 0;
        i16_bytes(-1i16) + self.common.encoding() + components_encoding(self.components@, has_instructions)
            + (if has_instructions {
            u16_bytes((self.instructions@.len() % 0x1_0000) as u16) + self.instructions@
        } else {
            Seq::empty()
        })
    }

    #[verifier::rlimit(30)]
    pub fn write<W: BufSink>(&self, w: &mut W)
        requires
            old(w).written().len() + self.encoding().len() <= isize::MAX,
        ensures
            final(w).written() == old(w).written() + self.encoding(),
    {
        let has_instructions = self.instructions.len() > 0;
        let ghost base = old(w).written();
        let ghost total = self.encoding().len();
        let ghost cs = self.components@;
        let ghost pairs = comp_pairs(cs);
        let ghost f = comp_enc(has_instructions);
        let ghost p0 = i16_bytes(-1i16) + self.common.encoding();
        assert(self.encoding() == p0 + concat_map(pairs, f) + (if has_instructions {
            u16_bytes((self.instructions@.len() % 0x1_0000) as u16) + self.instructions@
        } else {
            Seq::empty()
        }));

        w.put_i16(-1);
        self.common.write(w);
        assert(w.written() =~= base + p0);
        let n = self.components.len();
        let mut idx: usize = 0;
        while idx < n
            invariant
                n == cs.len(),
                cs == self.components@,
                idx <= n,
                has_instructions == (self.instructions@.len() > 0),
                pairs == comp_pairs(cs),
                f == comp_enc(has_instructions),
                w.written() == base + p0 + concat_map(pairs.take(idx as int), f),
                base.len() + p0.len() + concat_map(pairs, f).len() <= base.len() + total,
                base.len() + total <= isize::MAX,
            decreases n - idx,
        {
            proof {
                lemma_concat_map_take_step(pairs, idx as int, f);
                lemma_concat_map_take_len(pairs, idx as int + 1, f);
                assert(pairs[idx as int] == (cs[idx as int], idx == n - 1));
            }
            self.components[idx].write(w, idx == n - 1, has_instructions);
            assert(w.written() =~= base + p0 + concat_map(pairs.take(idx as int + 1), f));
            idx = idx + 1;
        }
        assert(pairs.take(n as int) =~= pairs);
        if has_instructions {
            w.put_u16((self.instructions.len() % 0x1_0000) as u16);
            w.put_slice(self.instructions.as_slice());
        }
        assert(w.written() =~= base + self.encoding());
    }
}


/// The bytes of the arguments hold, in one byte each where both fit, else
/// in two: the offset `x` then `y`, or the parent point then the child
/// point.
pub proof fn lemma_args_layout(a: Args)
    ensures
        a.encoding().len() == (if a.spec_in_short_format() { 2int } else { 4int }),
        a matches Args::Offset { x, y } ==> if a.spec_in_short_format() {
            read_i8(a.encoding(), 0) == x && read_i8(a.encoding(), 1) == y
        } else {
            read_i16(a.encoding(), 0) == x && read_i16(a.encoding(), 2) == y
        },
        a matches Args::AlignCtrlPoints { parent, child } ==> if a.spec_in_short_format() {
            a.encoding()[0] == parent && a.encoding()[1] == child
        } else {
            read_u16(a.encoding(), 0) == parent && read_u16(a.encoding(), 2) == child
        },
{
    let e = a.encoding();
    match a {
        Args::Offset { x, y } => {
            if a.spec_in_short_format() {
                assert(e.subrange(0, 1) =~= i8_bytes(x as i8));
                assert(e.subrange(1, 2) =~= i8_bytes(y as i8));
                assert(e[0] == i8_bytes(x as i8)[0] && e[1] == i8_bytes(y as i8)[0]);
                lemma_read_i8(x as i8);
                lemma_read_i8(y as i8);
            } else {
                assert(e.subrange(0, 2) =~= i16_bytes(x));
                assert(e.subrange(2, 4) =~= i16_bytes(y));
                lemma_read_at(e, 0, i16_bytes(x));
                lemma_read_at(e, 2, i16_bytes(y));
                lemma_read_i16(x);
                lemma_read_i16(y);
            }
        },
        Args::AlignCtrlPoints { parent, child } => {
            if !a.spec_in_short_format() {
                assert(e.subrange(0, 2) =~= u16_bytes(parent));
                assert(e.subrange(2, 4) =~= u16_bytes(child));
                lemma_read_at(e, 0, u16_bytes(parent));
                lemma_read_at(e, 2, u16_bytes(child));
                lemma_read_u16(parent);
                lemma_read_u16(child);
            }
        },
    }
}

/// The bytes of the scale hold nothing for no scale, else its factors, two
/// bytes each: one factor; `x` then `y`; or the matrix as OpenType orders
/// it, `xx`, `xy`, `yx`, `yy`.
pub proof fn lemma_scale_layout(s: Scale)
    ensures
        s is One ==> s.encoding().len() == 0,
        s matches Scale::Simple(f) ==> s.encoding().len() == 2 && read_i16(s.encoding(), 0) == f.0,
        s matches Scale::XY { x, y } ==> s.encoding().len() == 4 && read_i16(s.encoding(), 0)
            == x.0 && read_i16(s.encoding(), 2) == y.0,
        s matches Scale::TwoByTwo { xx, yx, xy, yy } ==> s.encoding().len() == 8 && read_i16(
            s.encoding(),
            0,
        ) == xx.0 && read_i16(s.encoding(), 2) == xy.0 && read_i16(s.encoding(), 4) == yx.0
            && read_i16(s.encoding(), 6) == yy.0,
{
    let e = s.encoding();
    match s {
        Scale::One => {},
        Scale::Simple(f) => {
            lemma_read_i16(f.0);
        },
        Scale::XY { x, y } => {
            assert(e.subrange(0, 2) =~= i16_bytes(x.0));
            assert(e.subrange(2, 4) =~= i16_bytes(y.0));
            lemma_read_at(e, 0, i16_bytes(x.0));
            lemma_read_at(e, 2, i16_bytes(y.0));
            lemma_read_i16(x.0);
            lemma_read_i16(y.0);
        },
        Scale::TwoByTwo { xx, yx, xy, yy } => {
            assert(e.subrange(0, 2) =~= i16_bytes(xx.0));
            assert(e.subrange(2, 4) =~= i16_bytes(xy.0));
            assert(e.subrange(4, 6) =~= i16_bytes(yx.0));
            assert(e.subrange(6, 8) =~= i16_bytes(yy.0));
            lemma_read_at(e, 0, i16_bytes(xx.0));
            lemma_read_at(e, 2, i16_bytes(xy.0));
            lemma_read_at(e, 4, i16_bytes(yx.0));
            lemma_read_at(e, 6, i16_bytes(yy.0));
            lemma_read_i16(xx.0);
            lemma_read_i16(xy.0);
            lemma_read_i16(yx.0);
            lemma_read_i16(yy.0);
        },
    }
}

/// The bytes of a component hold its flags at 0 and the index of its glyph
/// at 2, then its arguments and then its scale.
pub proof fn lemma_component_layout(c: Component, is_last: bool, has_instructions: bool)
    ensures
        ({
            let e = c.encoding(is_last, has_instructions);
            let la = c.args.encoding().len() as int;
            &&& read_u16(e, 0) == c.written_flags(is_last, has_instructions)
            &&& read_u16(e, 2) == c.glyph_index
            &&& e.subrange(4, 4 + la) == c.args.encoding()
            &&& e.subrange(4 + la, e.len() as int) == c.scale.encoding()
        }),
{
    let e = c.encoding(is_last, has_instructions);
    let f = u16_bytes(c.written_flags(is_last, has_instructions));
    let g = u16_bytes(c.glyph_index);
    let la = c.args.encoding().len() as int;
    assert(e == f + g + c.args.encoding() + c.scale.encoding());
    assert(e.subrange(0, 2) =~= f);
    assert(e.subrange(2, 4) =~= g);
    lemma_read_at(e, 0, f);
    lemma_read_at(e, 2, g);
    lemma_read_u16(c.written_flags(is_last, has_instructions));
    lemma_read_u16(c.glyph_index);
    assert(e.subrange(4, 4 + la) =~= c.args.encoding());
    assert(e.subrange(4 + la, e.len() as int) =~= c.scale.encoding());
}

} // verus!
