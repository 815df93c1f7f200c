//! Simple glyphs: contours made of on- and off-curve points.
use crate::buf::BufSink;
use crate::bytes_spec::{i16_bytes, u16_bytes};
use crate::model::glyf::GlyphCommon;
use crate::seq_util::{concat_map, lemma_concat_map_take_len, lemma_concat_map_take_step};
use vstd::prelude::*;
use vstd::std_specs::convert::FromSpecImpl;

verus! {

/// A relative coordinate, stored in one byte (magnitude only) or two.
#[derive(Debug, Clone, Copy, PartialEq, Eq, Structural)]
pub enum Coord {
    Short(u8),
    Long(i16),
}

impl Coord {
    pub fn unwrap_short(self) -> (r: u8)
        requires
            self is Short,
        ensures
            r == self->Short_0,
    {
        match self {
            Coord::Short(x) => x,
            Coord::Long(_) => {
                proof {
                    assert(false);
                }
                0
            },
        }
    }

    pub fn unwrap_long(self) -> (r: i16)
        requires
            self is Long,
        ensures
            r == self->Long_0,
    {
        match self {
            Coord::Short(_) => {
                proof {
                    assert(false);
                }
                0
            },
            Coord::Long(x) => x,
        }
    }

    /// The bytes of the coordinate in the coordinate arrays.
    pub open spec fn encoding(self) -> Seq<u8> {
        match self {
            Coord::Short(x) => seq![x],
            Coord::Long(x) => i16_bytes(x),
        }
    }
}

impl From<i16> for Coord {
    fn from(value: i16) -> (r: Self) {
        Coord::Long(value)
    }
}

impl FromSpecImpl<i16> for Coord {
    open spec fn obeys_from_spec() -> bool {
        true
    }

    open spec fn from_spec(v: i16) -> Self {
        Coord::Long(v)
    }
}

impl From<u8> for Coord {
    fn from(value: u8) -> (r: Self) {
        Coord::Short(value)
    }
}

impl FromSpecImpl<u8> for Coord {
    open spec fn obeys_from_spec() -> bool {
        true
    }

    open spec fn from_spec(v: u8) -> Self {
        Coord::Short(v)
    }
}

/// The flags of one outline point.
#[derive(Debug, Clone, Copy, PartialEq, Eq, Structural)]
pub struct OutlineFlag(pub u8);

impl OutlineFlag {
    /// If set, the point is on the curve; otherwise, it is off the curve.
    pub const ON_CURVE: u8 = 0b00000001;
    /// If set, the x-coordinate is 1 byte long; otherwise, it is 2 bytes long.
    pub const X_SHORT_VECTOR: u8 = 0b00000010;
    /// If set, the y-coordinate is 1 byte long; otherwise, it is 2 bytes long.
    pub const Y_SHORT_VECTOR: u8 = 0b00000100;
    /// If set, the next byte gives the number of additional times this flag
    /// is repeated. Set only by the encoder, from the variant of
    /// [`FlagOrRepeat`].
    pub const REPEAT: u8 = 0b00001000;
    /// Only if `X_SHORT_VECTOR` is unset: the x-coordinate is absent and the
    /// same as the previous one.
    pub const LONG_X_SAME: u8 = 0b00010000;
    /// Only if `X_SHORT_VECTOR` is set: the sign of the value, 1 positive.
    pub const SHORT_X_SIGN: u8 = 0b00010000;
    /// Only if `Y_SHORT_VECTOR` is unset: the y-coordinate is absent and the
    /// same as the previous one.
    pub const LONG_Y_SAME: u8 = 0b00100000;
    /// Only if `Y_SHORT_VECTOR` is set: the sign of the value, 1 positive.
    pub const SHORT_Y_SIGN: u8 = 0b00100000;

    pub fn empty() -> (r: Self)
        ensures
            r.0 == 0,
    {
        OutlineFlag(0)
    }

    pub fn bits(&self) -> (r: u8)
        ensures
            r == self.0,
    {
        self.0
    }

    pub fn from_bits_retain(bits: u8) -> (r: Self)
        ensures
            r.0 == bits,
    {
        OutlineFlag(bits)
    }

    /// Whether all bits of `other` are set in `self`.
    pub fn contains(&self, mask: u8) -> (r: bool)
        ensures
            r == (self.0 & mask == mask),
    {
        self.0 & mask == mask
    }

    /// Whether any bit of `other` is set in `self`.
    pub fn intersects(&self, mask: u8) -> (r: bool)
        ensures
            r == (self.0 & mask != 0),
    {
        self.0 & mask != 0
    }

    pub fn union(self, mask: u8) -> (r: Self)
        ensures
            r.0 == self.0 | mask,
    {
        OutlineFlag(self.0 | mask)
    }
}

/// The names of the flags that are set, in bit order. Bits 4 and 5 are
/// named by what they mean for the point: the sign of a short coordinate,
/// or a repeated long one.
pub open spec fn flag_names_of(f: u8) -> Seq<&'static str> {
    (if f & 0x01 != 0 {
        seq!["ON_CURVE"]
    } else {
        seq![]
    }) + (if f & 0x02 != 0 {
        seq!["X_SHORT_VECTOR"]
    } else {
        seq![]
    }) + (if f & 0x04 != 0 {
        seq!["Y_SHORT_VECTOR"]
    } else {
        seq![]
    }) + (if f & 0x08 != 0 {
        seq!["REPEAT"]
    } else {
        seq![]
    }) + (if f & 0x10 != 0 {
        if f & 0x02 != 0 {
            seq!["SHORT_X_SIGN"]
        } else {
            seq!["LONG_X_SAME"]
        }
    } else {
        seq![]
    }) + (if f & 0x20 != 0 {
        if f & 0x04 != 0 {
            seq!["SHORT_Y_SIGN"]
        } else {
            seq!["LONG_Y_SAME"]
        }
    } else {
        seq![]
    })
}

impl OutlineFlag {
    /// The names of the flags that are set, as the flag is shown in debug
    /// output.
    pub fn flag_names(&self) -> (r: Vec<&'static str>)
        ensures
            r@ == flag_names_of(self.0),
    {
        let mut names: Vec<&'static str> = Vec::new();
        if self.intersects(OutlineFlag::ON_CURVE) {
            names.push("ON_CURVE");
        }
        if self.intersects(OutlineFlag::X_SHORT_VECTOR) {
            names.push("X_SHORT_VECTOR");
        }
        if self.intersects(OutlineFlag::Y_SHORT_VECTOR) {
            names.push("Y_SHORT_VECTOR");
        }
        if self.intersects(OutlineFlag::REPEAT) {
            names.push("REPEAT");
        }
        if self.intersects(OutlineFlag::LONG_X_SAME) {
            if self.intersects(OutlineFlag::X_SHORT_VECTOR) {
                names.push("SHORT_X_SIGN");
            } else {
                names.push("LONG_X_SAME");
            }
        }
        if self.intersects(OutlineFlag::LONG_Y_SAME) {
            if self.intersects(OutlineFlag::Y_SHORT_VECTOR) {
                names.push("SHORT_Y_SIGN");
            } else {
                names.push("LONG_Y_SAME");
            }
        }
        assert(names@ =~= flag_names_of(self.0));
        names
    }
}

/// A flag entry: one flag, or a flag repeated `times_minus_1 + 1` times.
#[derive(Debug, Clone, Copy, PartialEq, Eq, Structural)]
pub enum FlagOrRepeat {
    Single(OutlineFlag),
    Repeat { flag: OutlineFlag, times_minus_1: u8 },
}

impl FlagOrRepeat {
    pub open spec fn flag(self) -> OutlineFlag {
        match self {
            FlagOrRepeat::Single(f) => f,
            FlagOrRepeat::Repeat { flag, .. } => flag,
        }
    }

    pub open spec fn times(self) -> nat {
        match self {
            FlagOrRepeat::Single(_) => 1,
            FlagOrRepeat::Repeat { times_minus_1, .. } => times_minus_1 as nat + 1,
        }
    }

    /// The bytes of the entry in the flag array.
    pub open spec fn encoding(self) -> Seq<u8> {
        match self {
            FlagOrRepeat::Single(f) => seq![f.0],
            FlagOrRepeat::Repeat { flag, times_minus_1 } => seq![flag.0 | 0b1000u8, times_minus_1],
        }
    }

    pub fn write<W: BufSink>(&self, writer: &mut W)
        requires
            old(writer).written().len() + self.encoding().len() <= isize::MAX,
        ensures
            final(writer).written() == old(writer).written() + self.encoding(),
    {
        match *self {
            FlagOrRepeat::Single(flag) => {
                writer.put_u8(flag.bits());
                assert(writer.written() =~= old(writer).written() + self.encoding());
            },
            FlagOrRepeat::Repeat { flag, times_minus_1 } => {
                let flag = flag.union(OutlineFlag::REPEAT);
                writer.put_u8(flag.bits());
                writer.put_u8(times_minus_1);
                assert(writer.written() =~= old(writer).written() + self.encoding());
            },
        }
    }

    pub fn size(&self) -> (r: usize)
        ensures
            r == self.encoding().len(),
    {
        match self {
            FlagOrRepeat::Single(_) => 1,
            FlagOrRepeat::Repeat { .. } => 2,
        }
    }

    pub fn get_flag(&self) -> (r: OutlineFlag)
        ensures
            r == self.flag(),
    {
        match self {
            FlagOrRepeat::Single(flag) => *flag,
            FlagOrRepeat::Repeat { flag, .. } => *flag,
        }
    }

    /// The number of points the entry stands for: `times_minus_1 + 1`, up
    /// to 256.
    pub fn get_repeat_times(&self) -> (r: usize)
        ensures
            r == self.times(),
    {
        match self {
            FlagOrRepeat::Single(_) => 1,
            FlagOrRepeat::Repeat { times_minus_1, .. } => *times_minus_1 as usize + 1,
        }
    }
}

impl From<OutlineFlag> for FlagOrRepeat {
    fn from(value: OutlineFlag) -> (r: Self) {
        Self::Single(value)
    }
}

impl FromSpecImpl<OutlineFlag> for FlagOrRepeat {
    open spec fn obeys_from_spec() -> bool {
        true
    }

    open spec fn from_spec(v: OutlineFlag) -> Self {
        FlagOrRepeat::Single(v)
    }
}

pub open spec fn u16_enc() -> spec_fn(u16) -> Seq<u8> {
    |x: u16| u16_bytes(x)
}

pub open spec fn flag_enc() -> spec_fn(FlagOrRepeat) -> Seq<u8> {
    |f: FlagOrRepeat| f.encoding()
}

pub open spec fn coord_enc() -> spec_fn(Coord) -> Seq<u8> {
    |c: Coord| c.encoding()
}

/// The flags that a sequence of entries stands for, one per point.
pub open spec fn expand_flags(fs: Seq<FlagOrRepeat>) -> Seq<OutlineFlag>
    decreases fs.len(),
{
    if fs.len() == 0 {
        Seq::empty()
    } else {
        expand_flags(fs.drop_last()) + Seq::new(fs.last().times(), |_i: int| fs.last().flag())
    }
}

/// A glyph made of contours.
#[derive(Debug, Clone)]
pub struct SimpleGlyph {
    pub common: GlyphCommon,
    /// The index of the last point of each contour. The number of points is
    /// the last entry plus one.
    pub end_points_of_countours: Vec<u16>,
    pub instructions: Vec<u8>,
    pub flags: Vec<FlagOrRepeat>,
    /// Relative X coordinates
    pub x_coords: Vec<Coord>,
    /// Relative Y coordinates
    pub y_coords: Vec<Coord>,
}

/// Why a simple glyph cannot be written as it is.
#[derive(Debug, Clone, Copy, PartialEq, Eq, Structural)]
pub enum SimpleGlyphVerifyError {
    /// The number of countours is too large to be represented.
    NCountourTooLarge,
    /// The `REPEAT` flag is set in the given flag entry.
    RepeatSetInFlags(usize),
    /// The number of flags is different from the number of points.
    FlagCountMismatch,
    /// More coordinates in the axis than the flags use.
    TooManyCoords { axis: char, count: usize },
    /// The flags need a coordinate in the axis past the last one.
    TooFewCoords { axis: char, count: usize },
    /// A coordinate has the other format than its flag asks for.
    CoordFormatMismatch { axis: char, idx: usize, expected: bool, got: bool },
}

pub open spec fn short_mask(is_x: bool) -> u8 {
    if is_x { 0b10u8 } else { 0b100u8 }
}

pub open spec fn same_mask(is_x: bool) -> u8 {
    if is_x { 0b1_0000u8 } else { 0b10_0000u8 }
}

pub open spec fn axis_char(is_x: bool) -> char {
    if is_x { 'x' } else { 'y' }
}

/// Whether a point with flag bits `f` has a coordinate in the array of the
/// axis.
pub open spec fn needs_coord(f: u8, is_x: bool) -> bool {
    f & short_mask(is_x) != 0 || f & same_mask(is_x) == 0
}

/// Checks the coordinate of one point on one axis, `count` coordinates of
/// the axis having been used before. Gives the new count.
pub open spec fn check_axis(f: u8, is_x: bool, coords: Seq<Coord>, count: nat) -> Result<
    nat,
    SimpleGlyphVerifyError,
> {
    if !needs_coord(f, is_x) {
        Ok(count)
    } else if count >= coords.len() {
        Err(SimpleGlyphVerifyError::TooFewCoords { axis: axis_char(is_x), count: count as usize })
    } else {
        let want_short = f & short_mask(is_x) != 0;
        if (coords[count as int] is Short) != want_short {
            Err(
                SimpleGlyphVerifyError::CoordFormatMismatch {
                    axis: axis_char(is_x),
                    idx: count as usize,
                    expected: want_short,
                    got: !want_short,
                },
            )
        } else {
            Ok(count + 1)
        }
    }
}

impl SimpleGlyph {
    pub open spec fn spec_n_points(&self) -> nat {
        if self.end_points_of_countours@.len() == 0 {
            0
        } else {
            self.end_points_of_countours@.last() as nat + 1
        }
    }

    /// Checks one point on both axes.
    pub open spec fn check_point(&self, f: u8, xc: nat, yc: nat) -> Result<
        (nat, nat),
        SimpleGlyphVerifyError,
    > {
        match check_axis(f, true, self.x_coords@, xc) {
            Err(e) => Err(e),
            Ok(xc2) => match check_axis(f, false, self.y_coords@, yc) {
                Err(e) => Err(e),
                Ok(yc2) => Ok((xc2, yc2)),
            },
        }
    }

    /// Checks `k` points with flag bits `f`.
    pub open spec fn check_repeats(&self, f: u8, k: nat, xc: nat, yc: nat) -> Result<
        (nat, nat),
        SimpleGlyphVerifyError,
    >
        decreases k,
    {
        if k == 0 {
            Ok((xc, yc))
        } else {
            match self.check_repeats(f, (k - 1) as nat, xc, yc) {
                Err(e) => Err(e),
                Ok((a, b)) => self.check_point(f, a, b),
            }
        }
    }

    /// Checks the first `n` flag entries, in order.
    pub open spec fn scan(&self, n: nat) -> Result<(nat, nat), SimpleGlyphVerifyError>
        decreases n,
    {
        if n == 0 {
            Ok((0, 0))
        } else {
            match self.scan((n - 1) as nat) {
                Err(e) => Err(e),
                Ok((a, b)) => {
                    let e = self.flags@[n - 1];
                    if e.flag().0 & 0b1000u8 != 0 {
                        Err(SimpleGlyphVerifyError::RepeatSetInFlags((n - 1) as usize))
                    } else {
                        self.check_repeats(e.flag().0, e.times(), a, b)
                    }
                },
            }
        }
    }

    /// What `verify` returns.
    pub open spec fn verify_result(&self) -> Result<(), SimpleGlyphVerifyError> {
        if self.end_points_of_countours@.len() > 0x7fff {
            Err(SimpleGlyphVerifyError::NCountourTooLarge)
        } else {
            match self.scan(self.flags@.len()) {
                Err(e) => Err(e),
                Ok((a, b)) => if expand_flags(self.flags@).len() != self.spec_n_points() {
                    Err(SimpleGlyphVerifyError::FlagCountMismatch)
                } else if a != self.x_coords@.len() {
                    Err(SimpleGlyphVerifyError::TooManyCoords { axis: 'x', count: a as usize })
                } else if b != self.y_coords@.len() {
                    Err(SimpleGlyphVerifyError::TooManyCoords { axis: 'y', count: b as usize })
                } else {
                    Ok(())
                },
            }
        }
    }

    /// The bytes that `write` appends.
    pub open spec fn encoding(&self) -> Seq<u8> {
        u16_bytes((self.end_points_of_countours@.len() % 0x1_0000) as u16) + self.common.encoding()
            + concat_map(self.end_points_of_countours@, u16_enc()) + u16_bytes(
            (self.instructions@.len() % 0x1_0000) as u16,
        ) + self.instructions@ + concat_map(self.flags@, flag_enc())
            + concat_map(self.x_coords@, coord_enc()) + concat_map(self.y_coords@, coord_enc())
    }

    pub fn write<W: BufSink>(&self, w: &mut W)
        requires
            old(w).written().len() + self.encoding().len() <= isize::MAX,
        ensures
            final(w).written() == old(w).written() + self.encoding(),
    {
        let ghost base = old(w).written();
        let ghost total = self.encoding().len();
        let ghost p0 = u16_bytes((self.end_points_of_countours@.len() % 0x1_0000) as u16) + self.common.encoding();
        let ghost p1 = p0 + concat_map(self.end_points_of_countours@, u16_enc());
        let ghost p2 = p1 + u16_bytes((self.instructions@.len() % 0x1_0000) as u16) + self.instructions@;
        let ghost p3 = p2 + concat_map(self.flags@, flag_enc());
        let ghost p4 = p3 + concat_map(self.x_coords@, coord_enc());
        assert(self.encoding() =~= p4 + concat_map(self.y_coords@, coord_enc()));

        w.put_u16((self.end_points_of_countours.len() % 0x1_0000) as u16);
        self.common.write(w);
        assert(w.written() =~= base + p0);
        let mut i: usize = 0;
        while i < self.end_points_of_countours.len()
            invariant
                i <= self.end_points_of_countours@.len(),
                w.written() == base + p0 + concat_map(self.end_points_of_countours@.take(i as int), u16_enc()),
                base.len() + total <= isize::MAX,
                total >= p1.len(),
                p1 == p0 + concat_map(self.end_points_of_countours@, u16_enc()),
            decreases self.end_points_of_countours@.len() - i,
        {
            proof {
                lemma_concat_map_take_step(self.end_points_of_countours@, i as int, u16_enc());
                lemma_concat_map_take_len(self.end_points_of_countours@, i as int + 1, u16_enc());
            }
            assert(concat_map(self.end_points_of_countours@.take(i as int + 1), u16_enc()).len() == concat_map(self.end_points_of_countours@.take(i as int), u16_enc()).len() + 2);
            w.put_u16(self.end_points_of_countours[i]);
            assert(w.written() =~= base + p0 + concat_map(self.end_points_of_countours@.take(i as int + 1), u16_enc()));
            i = i + 1;
        }
        assert(self.end_points_of_countours@.take(i as int) =~= self.end_points_of_countours@);
        w.put_u16((self.instructions.len() % 0x1_0000) as u16);
        w.put_slice(self.instructions.as_slice());
        assert(w.written() =~= base + p2);
        let mut i: usize = 0;
        while i < self.flags.len()
            invariant
                i <= self.flags@.len(),
                w.written() == base + p2 + concat_map(self.flags@.take(i as int), flag_enc()),
                base.len() + total <= isize::MAX,
                total >= p3.len(),
                p3 == p2 + concat_map(self.flags@, flag_enc()),
            decreases self.flags@.len() - i,
        {
            proof {
                lemma_concat_map_take_step(self.flags@, i as int, flag_enc());
                lemma_concat_map_take_len(self.flags@, i as int + 1, flag_enc());
            }
            assert(concat_map(self.flags@.take(i as int + 1), flag_enc()).len() == concat_map(self.flags@.take(i as int), flag_enc()).len() + self.flags@[i as int].encoding().len());
            self.flags[i].write(w);
            assert(w.written() =~= base + p2 + concat_map(self.flags@.take(i as int + 1), flag_enc()));
            i = i + 1;
        }
        assert(self.flags@.take(i as int) =~= self.flags@);
        assert(w.written() =~= base + p3);
        self.write_coords(w, &self.x_coords, Ghost(base + p3), Ghost((base.len() + total) as nat));
        assert(w.written() =~= base + p4);
        self.write_coords(w, &self.y_coords, Ghost(base + p4), Ghost((base.len() + total) as nat));
        assert(w.written() =~= base + self.encoding());
    }

    fn write_coords<W: BufSink>(&self, w: &mut W, coords: &Vec<Coord>, Ghost(start): Ghost<Seq<u8>>, Ghost(limit): Ghost<nat>)
        requires
            old(w).written() == start,
            start.len() + concat_map(coords@, coord_enc()).len() <= limit,
            limit <= isize::MAX,
        ensures
            final(w).written() == start + concat_map(coords@, coord_enc()),
    {
        let mut i: usize = 0;
        while i < coords.len()
            invariant
                i <= coords@.len(),
                w.written() == start + concat_map(coords@.take(i as int), coord_enc()),
                start.len() + concat_map(coords@, coord_enc()).len() <= limit,
                limit <= isize::MAX,
            decreases coords@.len() - i,
        {
            proof {
                lemma_concat_map_take_step(coords@, i as int, coord_enc());
                lemma_concat_map_take_len(coords@, i as int + 1, coord_enc());
            }
            assert(concat_map(coords@.take(i as int + 1), coord_enc()).len() == concat_map(coords@.take(i as int), coord_enc()).len() + coords@[i as int].encoding().len());
            match coords[i] {
                Coord::Short(x) => w.put_u8(x),
                Coord::Long(x) => w.put_i16(x),
            }
            assert(w.written() =~= start + concat_map(coords@.take(i as int + 1), coord_enc()));
            i = i + 1;
        }
        assert(coords@.take(i as int) =~= coords@);
    }

    pub fn n_points(&self) -> (r: usize)
        ensures
            r == self.spec_n_points(),
    {
        let n = self.end_points_of_countours.len();
        if n == 0 {
            0
        } else {
            self.end_points_of_countours[n - 1] as usize + 1
        }
    }

    pub fn n_contours(&self) -> (r: usize)
        ensures
            r == self.end_points_of_countours@.len(),
    {
        self.end_points_of_countours.len()
    }

    fn check_axis_exec(f: OutlineFlag, is_x: bool, coords: &Vec<Coord>, count: usize) -> (r: Result<
        usize,
        SimpleGlyphVerifyError,
    >)
        requires
            count <= coords@.len(),
        ensures
            match (r, check_axis(f.0, is_x, coords@, count as nat)) {
                (Ok(a), Ok(b)) => a == b,
                (Err(a), Err(b)) => a == b,
                _ => false,
            },
    {
        let short = if is_x { OutlineFlag::X_SHORT_VECTOR } else { OutlineFlag::Y_SHORT_VECTOR };
        let same = if is_x { OutlineFlag::LONG_X_SAME } else { OutlineFlag::LONG_Y_SAME };
        let axis = if is_x { 'x' } else { 'y' };
        if f.intersects(short) {
            if count >= coords.len() {
                return Err(SimpleGlyphVerifyError::TooFewCoords { axis, count });
            }
            if !matches!(coords[count], Coord::Short(_)) {
                return Err(
                    SimpleGlyphVerifyError::CoordFormatMismatch {
                        axis,
                        idx: count,
                        expected: true,
                        got: false,
                    },
                );
            }
            Ok(count + 1)
        } else if f.intersects(same) {
            Ok(count)
        } else {
            if count >= coords.len() {
                return Err(SimpleGlyphVerifyError::TooFewCoords { axis, count });
            }
            if !matches!(coords[count], Coord::Long(_)) {
                return Err(
                    SimpleGlyphVerifyError::CoordFormatMismatch {
                        axis,
                        idx: count,
                        expected: false,
                        got: true,
                    },
                );
            }
            Ok(count + 1)
        }
    }

    /// Checks that the flags and coordinates agree with each other and with
    /// the contour ends, reporting the first disagreement.
    pub fn verify(&self) -> (r: Result<(), SimpleGlyphVerifyError>)
        requires
            expand_flags(self.flags@).len() <= usize::MAX,
        ensures
            r == self.verify_result(),
    {
        let n_countours = self.end_points_of_countours.len();
        if n_countours > 0x7fff {
            return Err(SimpleGlyphVerifyError::NCountourTooLarge);
        }
        let n_points = self.n_points();

        let mut flag_count: usize = 0;
        let mut x_coords_count: usize = 0;
        let mut y_coords_count: usize = 0;
        let mut i: usize = 0;
        while i < self.flags.len()
            invariant
                i <= self.flags@.len(),
                self.end_points_of_countours@.len() <= 0x7fff,
                expand_flags(self.flags@).len() <= usize::MAX,
                flag_count == expand_flags(self.flags@.take(i as int)).len(),
                self.scan(i as nat) == Ok::<(nat, nat), SimpleGlyphVerifyError>(
                    (x_coords_count as nat, y_coords_count as nat),
                ),
                x_coords_count <= self.x_coords@.len(),
                y_coords_count <= self.y_coords@.len(),
            decreases self.flags@.len() - i,
        {
            let entry = self.flags[i];
            let flags = entry.get_flag();
            let repeat_times = entry.get_repeat_times();
            proof {
                lemma_expand_flags_take_step(self.flags@, i as int);
                lemma_expand_flags_prefix_len(self.flags@, i as int + 1);
            }
            if flags.intersects(OutlineFlag::REPEAT) {
                proof {
                    assert(self.scan(i as nat + 1) == Err::<(nat, nat), SimpleGlyphVerifyError>(SimpleGlyphVerifyError::RepeatSetInFlags(i)));
                    self.lemma_scan_err_stays(i as nat + 1, self.flags@.len());
                }
                return Err(SimpleGlyphVerifyError::RepeatSetInFlags(i));
            }
            flag_count = flag_count + repeat_times;

            let ghost xc0 = x_coords_count as nat;
            let ghost yc0 = y_coords_count as nat;
            let mut j: usize = 0;
            while j < repeat_times
                invariant
                    j <= repeat_times,
                    repeat_times == entry.times(),
                    i < self.flags@.len(),
                    entry == self.flags@[i as int],
                    flags == entry.flag(),
                    flags.0 & 0b1000u8 == 0,
                    self.end_points_of_countours@.len() <= 0x7fff,
                    self.scan(i as nat) == Ok::<(nat, nat), SimpleGlyphVerifyError>((xc0, yc0)),
                    x_coords_count <= self.x_coords@.len(),
                    y_coords_count <= self.y_coords@.len(),
                    self.check_repeats(flags.0, j as nat, xc0, yc0) == Ok::<
                        (nat, nat),
                        SimpleGlyphVerifyError,
                    >((x_coords_count as nat, y_coords_count as nat)),
                decreases repeat_times - j,
            {
                match Self::check_axis_exec(flags, true, &self.x_coords, x_coords_count) {
                    Err(e) => {
                        proof {
                            assert(self.check_repeats(flags.0, j as nat + 1, xc0, yc0) == Err::<(nat, nat), SimpleGlyphVerifyError>(e));
                            self.lemma_check_repeats_err_stays(flags.0, j as nat + 1, entry.times(), xc0, yc0);
                            assert(self.scan(i as nat + 1) == Err::<(nat, nat), SimpleGlyphVerifyError>(e));
                            self.lemma_scan_err_stays(i as nat + 1, self.flags@.len());
                        }
                        return Err(e);
                    },
                    Ok(c) => {
                        x_coords_count = c;
                    },
                }
                match Self::check_axis_exec(flags, false, &self.y_coords, y_coords_count) {
                    Err(e) => {
                        proof {
                            assert(self.check_repeats(flags.0, j as nat + 1, xc0, yc0) == Err::<(nat, nat), SimpleGlyphVerifyError>(e));
                            self.lemma_check_repeats_err_stays(flags.0, j as nat + 1, entry.times(), xc0, yc0);
                            assert(self.scan(i as nat + 1) == Err::<(nat, nat), SimpleGlyphVerifyError>(e));
                            self.lemma_scan_err_stays(i as nat + 1, self.flags@.len());
                        }
                        return Err(e);
                    },
                    Ok(c) => {
                        y_coords_count = c;
                    },
                }
                j = j + 1;
            }
            i = i + 1;
        }
        assert(self.flags@.take(self.flags@.len() as int) =~= self.flags@);
        if flag_count != n_points {
            return Err(SimpleGlyphVerifyError::FlagCountMismatch);
        }
        if x_coords_count != self.x_coords.len() {
            return Err(SimpleGlyphVerifyError::TooManyCoords { axis: 'x', count: x_coords_count });
        }
        if y_coords_count != self.y_coords.len() {
            return Err(SimpleGlyphVerifyError::TooManyCoords { axis: 'y', count: y_coords_count });
        }
        Ok(())
    }

    proof fn lemma_check_repeats_err_stays(&self, f: u8, k1: nat, k2: nat, xc: nat, yc: nat)
        requires
            k1 <= k2,
            self.check_repeats(f, k1, xc, yc) is Err,
        ensures
            self.check_repeats(f, k2, xc, yc) == self.check_repeats(f, k1, xc, yc),
        decreases k2,
    {
        if k2 > k1 {
            self.lemma_check_repeats_err_stays(f, k1, (k2 - 1) as nat, xc, yc);
        }
    }

    proof fn lemma_scan_err_stays(&self, n1: nat, n2: nat)
        requires
            n1 <= n2,
            self.scan(n1) is Err,
        ensures
            self.scan(n2) == self.scan(n1),
        decreases n2,
    {
        if n2 > n1 {
            self.lemma_scan_err_stays(n1, (n2 - 1) as nat);
        }
    }
}

pub proof fn lemma_expand_flags_take_step(fs: Seq<FlagOrRepeat>, i: int)
    requires
        0 <= i < fs.len(),
    ensures
        expand_flags(fs.take(i + 1)) == expand_flags(fs.take(i)) + Seq::new(
            fs[i].times(),
            |_j: int| fs[i].flag(),
        ),
{
    assert(fs.take(i + 1).drop_last() =~= fs.take(i));
}

pub proof fn lemma_expand_flags_prefix_len(fs: Seq<FlagOrRepeat>, i: int)
    requires
        0 <= i <= fs.len(),
    ensures
        expand_flags(fs.take(i)).len() <= expand_flags(fs).len(),
        expand_flags(fs.take(i)) =~= expand_flags(fs).take(expand_flags(fs.take(i)).len() as int),
    decreases fs.len() - i,
{
    if i == fs.len() {
        assert(fs.take(i) =~= fs);
    } else {
        lemma_expand_flags_prefix_len(fs, i + 1);
        lemma_expand_flags_take_step(fs, i);
    }
}

} // verus!
