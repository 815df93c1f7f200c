//! Conversion between quadratic outlines and simple glyph data.
pub use crate::curve::quad::{QuadBezier, QuadBezierBuilder, QuadBezierPointIter, QuadSegment};
use crate::curve::quad::seg_points;
use crate::model::fword;
use crate::model::glyf::simple::{
    check_axis, expand_flags, lemma_expand_flags_prefix_len, lemma_expand_flags_take_step,
    needs_coord, same_mask, short_mask, Coord, FlagOrRepeat, OutlineFlag, SimpleGlyph,
    SimpleGlyphVerifyError,
};
use crate::model::glyf::GlyphCommon;
use vstd::prelude::*;

verus! {

/// A point of an outline: whether it is on the curve, and its coordinates.
pub type OutlinePoint = (bool, (fword, fword));

/// Why a list of outlines cannot be encoded.
#[derive(Debug, Clone, Copy, PartialEq, Eq, Structural)]
pub enum ConvertError {
    /// The outline at this index is not closed.
    SegmentNotClosed(usize),
}

/// The index of the first outline that is not closed, or the number of
/// outlines if all are closed.
pub open spec fn first_open(outlines: Seq<QuadBezier<(fword, fword)>>) -> nat
    decreases outlines.len(),
{
    if outlines.len() == 0 {
        0
    } else if !outlines[0].closed {
        0
    } else {
        1 + first_open(outlines.drop_first())
    }
}

/// The points of the first `k` outlines, one after another.
pub open spec fn stream(outlines: Seq<QuadBezier<(fword, fword)>>, k: nat) -> Seq<OutlinePoint>
    decreases k,
{
    if k == 0 {
        Seq::empty()
    } else {
        stream(outlines, (k - 1) as nat) + outlines[k - 1].points()
    }
}

/// The coordinate of point `j` on an axis, relative to the point before it
/// (to the origin for the first point).
pub open spec fn delta(s: Seq<OutlinePoint>, j: int, is_x: bool) -> int {
    let cur = if is_x { s[j].1.0 as int } else { s[j].1.1 as int };
    let prev = if j == 0 { 0 } else if is_x { s[j - 1].1.0 as int } else { s[j - 1].1.1 as int };
    cur - prev
}

/// The coordinate stored for a relative move `d`, if any.
pub open spec fn delta_coord(d: int) -> Option<Coord> {
    if d == 0 {
        None
    } else if 0 < d <= 255 {
        Some(Coord::Short(d as u8))
    } else if -255 <= d < 0 {
        Some(Coord::Short((-d) as u8))
    } else {
        Some(Coord::Long(d as i16))
    }
}

/// The flag bits of one axis for a relative move `d`.
pub open spec fn delta_flag(d: int, short: u8, same: u8) -> u8 {
    if d == 0 {
        same
    } else if 0 < d <= 255 {
        short | same
    } else if -255 <= d < 0 {
        short
    } else {
        0
    }
}

pub open spec fn on_bit(on: bool) -> u8 {
    if on { 1u8 } else { 0u8 }
}

/// The flag that the encoder gives point `j`.
pub open spec fn raw_flag(s: Seq<OutlinePoint>, j: int) -> OutlineFlag {
    OutlineFlag(
        delta_flag(delta(s, j, true), 0b10u8, 0b1_0000u8) | delta_flag(delta(s, j, false), 0b100u8, 0b10_0000u8) | on_bit(s[j].0),
    )
}

pub open spec fn raw_flags(s: Seq<OutlinePoint>) -> Seq<OutlineFlag> {
    Seq::new(s.len(), |j: int| raw_flag(s, j))
}

pub open spec fn opt_seq(o: Option<Coord>) -> Seq<Coord> {
    match o {
        Some(c) => seq![c],
        None => Seq::empty(),
    }
}

/// The coordinates that the encoder stores on an axis for the first `n`
/// points.
pub open spec fn coords_of(s: Seq<OutlinePoint>, n: nat, is_x: bool) -> Seq<Coord>
    decreases n,
{
    if n == 0 {
        Seq::empty()
    } else {
        coords_of(s, (n - 1) as nat, is_x) + opt_seq(delta_coord(delta(s, n - 1, is_x)))
    }
}

pub open spec fn min_i16(a: int, b: int) -> int {
    if a <= b { a } else { b }
}

pub open spec fn max_i16(a: int, b: int) -> int {
    if a >= b { a } else { b }
}

/// The bounding box of the origin and the first `n` points.
pub open spec fn bbox(s: Seq<OutlinePoint>, n: nat) -> GlyphCommon
    decreases n,
{
    if n == 0 {
        GlyphCommon { x_min: 0, y_min: 0, x_max: 0, y_max: 0 }
    } else {
        let b = bbox(s, (n - 1) as nat);
        let (x, y) = s[n - 1].1;
        GlyphCommon {
            x_min: min_i16(b.x_min as int, x as int) as i16,
            y_min: min_i16(b.y_min as int, y as int) as i16,
            x_max: max_i16(b.x_max as int, x as int) as i16,
            y_max: max_i16(b.y_max as int, y as int) as i16,
        }
    }
}

/// The number of points of the first `k` outlines.
pub open spec fn points_upto(outlines: Seq<QuadBezier<(fword, fword)>>, k: nat) -> nat {
    stream(outlines, k).len()
}

/// The contour end index that the encoder stores for outline `c`.
pub open spec fn end_point(outlines: Seq<QuadBezier<(fword, fword)>>, c: nat) -> u16 {
    ((points_upto(outlines, c + 1) % 0x1_0000) - 1) as u16
}

/// Flag entries that use repeats as far as allowed: an entry repeats its flag
/// at most 255 times, and only the next entry with another flag, or a full
/// run of 255, ends it.
pub open spec fn runs_maximal(fs: Seq<FlagOrRepeat>) -> bool {
    &&& forall|i: int|
        0 <= i < fs.len() ==> {
            &&& (#[trigger] fs[i]).times() <= 255
            &&& fs[i] is Repeat ==> fs[i].times() >= 2
        }
    &&& forall|i: int|
        0 <= i < fs.len() - 1 ==> #[trigger] fs[i].flag() != fs[i + 1].flag() || fs[i].times()
            == 255
}

/// Both relative coordinates of point `j` lie in `-32767..=32767`.
pub open spec fn delta_fits(s: Seq<OutlinePoint>, j: int) -> bool {
    &&& -0x7fff <= delta(s, j, true) <= 0x7fff
    &&& -0x7fff <= delta(s, j, false) <= 0x7fff
}

/// What the encoder may be given: the deltas between points fit into a
/// signed 16-bit value other than -32768, and no contour ends on a point
/// count that is a multiple of 65536.
pub open spec fn encodable(outlines: Seq<QuadBezier<(fword, fword)>>) -> bool {
    let k = first_open(outlines);
    let s = stream(outlines, k);
    &&& outlines.len() > 0
    &&& forall|i: int| 0 <= i < outlines.len() ==> (#[trigger] outlines[i]).segments@.len() < usize::MAX
    &&& forall|j: int| 0 <= j < s.len() ==> #[trigger] delta_fits(s, j)
    &&& forall|c: nat| c < k ==> #[trigger] points_upto(outlines, c + 1) % 0x1_0000 != 0
}

/// The glyph that the encoder makes of closed outlines.
pub open spec fn encoded_glyph_matches(g: SimpleGlyph, outlines: Seq<QuadBezier<(fword, fword)>>) -> bool {
    let n = outlines.len();
    let s = stream(outlines, n);
    &&& g.common == bbox(s, s.len())
    &&& g.end_points_of_countours@.len() == n
    &&& forall|c: int| 0 <= c < n ==> #[trigger] g.end_points_of_countours@[c] == end_point(outlines, c as nat)
    &&& g.instructions@.len() == 0
    &&& expand_flags(g.flags@) == raw_flags(s)
    &&& runs_maximal(g.flags@)
    &&& g.x_coords@ == coords_of(s, s.len(), true)
    &&& g.y_coords@ == coords_of(s, s.len(), false)
}

} // verus!

verus! {

pub proof fn lemma_first_open(outlines: Seq<QuadBezier<(fword, fword)>>)
    ensures
        first_open(outlines) <= outlines.len(),
        forall|i: int| 0 <= i < first_open(outlines) ==> (#[trigger] outlines[i]).closed,
        first_open(outlines) < outlines.len() ==> !outlines[first_open(outlines) as int].closed,
    decreases outlines.len(),
{
    if outlines.len() > 0 && outlines[0].closed {
        lemma_first_open(outlines.drop_first());
        assert forall|i: int| 0 <= i < first_open(outlines) implies (#[trigger] outlines[i]).closed by {
            if i > 0 {
                assert(outlines[i] == outlines.drop_first()[i - 1]);
            }
        }
    }
}

pub proof fn lemma_stream_prefix(outlines: Seq<QuadBezier<(fword, fword)>>, a: nat, b: nat)
    requires
        a <= b <= outlines.len(),
    ensures
        stream(outlines, a).len() <= stream(outlines, b).len(),
        forall|j: int| 0 <= j < stream(outlines, a).len() ==> stream(outlines, b)[j] == stream(outlines, a)[j],
    decreases b,
{
    if a < b {
        lemma_stream_prefix(outlines, a, (b - 1) as nat);
    }
}

/// Fact about the points of outline `i` inside the stream of the first `k`
/// outlines.
pub proof fn lemma_stream_segment(outlines: Seq<QuadBezier<(fword, fword)>>, i: nat, k: nat)
    requires
        i < k <= outlines.len(),
    ensures
        points_upto(outlines, i + 1) == points_upto(outlines, i) + outlines[i as int].points().len(),
        points_upto(outlines, i + 1) <= stream(outlines, k).len(),
        forall|p: int|
            0 <= p < outlines[i as int].points().len() ==> stream(outlines, k)[points_upto(outlines, i) + p]
                == outlines[i as int].points()[p],
{
    lemma_stream_prefix(outlines, i + 1, k);
}

/// The flag bits of both axes and the on-curve bit do not overlap.
proof fn lemma_flag_bits(xf: u8, yf: u8, on: u8)
    requires
        xf == 0 || xf == 0b10u8 || xf == 0b1_0000u8 || xf == 0b1_0010u8,
        yf == 0 || yf == 0b100u8 || yf == 0b10_0000u8 || yf == 0b10_0100u8,
        on == 0 || on == 1,
    ensures
        (xf | yf | on) & 0b10u8 == xf & 0b10u8,
        (xf | yf | on) & 0b1_0000u8 == xf & 0b1_0000u8,
        (xf | yf | on) & 0b100u8 == yf & 0b100u8,
        (xf | yf | on) & 0b10_0000u8 == yf & 0b10_0000u8,
        (xf | yf | on) & 0b1u8 == on,
        (xf | yf | on) & 0b1000u8 == 0,
{
    assert(
        (xf == 0 || xf == 0b10u8 || xf == 0b1_0000u8 || xf == 0b1_0010u8)
        && (yf == 0 || yf == 0b100u8 || yf == 0b10_0000u8 || yf == 0b10_0100u8)
        && (on == 0 || on == 1)
        ==> {
            &&& (xf | yf | on) & 0b10u8 == xf & 0b10u8
            &&& (xf | yf | on) & 0b1_0000u8 == xf & 0b1_0000u8
            &&& (xf | yf | on) & 0b100u8 == yf & 0b100u8
            &&& (xf | yf | on) & 0b10_0000u8 == yf & 0b10_0000u8
            &&& (xf | yf | on) & 0b1u8 == on
            &&& (xf | yf | on) & 0b1000u8 == 0
        }
    ) by (bit_vector);
}

fn encode_delta(delta: fword, short: u8, sgn_same: u8) -> (r: (Option<Coord>, OutlineFlag))
    requires
        delta != i16::MIN,
    ensures
        r.0 == delta_coord(delta as int),
        r.1.0 == delta_flag(delta as int, short, sgn_same),
{
    if delta == 0 {
        (None, OutlineFlag(sgn_same))
    } else if delta > 0 && delta <= 255 {
        (Some(Coord::Short(delta as u8)), OutlineFlag(short | sgn_same))
    } else if delta < 0 && (-delta) <= 255 {
        (Some(Coord::Short((-delta) as u8)), OutlineFlag(short))
    } else {
        (Some(Coord::Long(delta)), OutlineFlag::empty())
    }
}

fn update_bb(glyph_data: &mut SimpleGlyph, x: fword, y: fword)
    ensures
        final(glyph_data).common == (GlyphCommon {
            x_min: min_i16(old(glyph_data).common.x_min as int, x as int) as i16,
            y_min: min_i16(old(glyph_data).common.y_min as int, y as int) as i16,
            x_max: max_i16(old(glyph_data).common.x_max as int, x as int) as i16,
            y_max: max_i16(old(glyph_data).common.y_max as int, y as int) as i16,
        }),
        final(glyph_data).end_points_of_countours@ == old(glyph_data).end_points_of_countours@,
        final(glyph_data).instructions@ == old(glyph_data).instructions@,
        final(glyph_data).flags@ == old(glyph_data).flags@,
        final(glyph_data).x_coords@ == old(glyph_data).x_coords@,
        final(glyph_data).y_coords@ == old(glyph_data).y_coords@,
{
    if x > glyph_data.common.x_max {
        glyph_data.common.x_max = x;
    }
    if x < glyph_data.common.x_min {
        glyph_data.common.x_min = x;
    }
    if y > glyph_data.common.y_max {
        glyph_data.common.y_max = y;
    }
    if y < glyph_data.common.y_min {
        glyph_data.common.y_min = y;
    }
}

fn flag_entry(flag: OutlineFlag, count: usize) -> (r: FlagOrRepeat)
    requires
        1 <= count <= 255,
    ensures
        r.flag() == flag,
        r.times() == count,
        r is Repeat ==> r.times() >= 2,
{
    if count > 1 {
        FlagOrRepeat::Repeat { flag, times_minus_1: (count - 1) as u8 }
    } else {
        FlagOrRepeat::Single(flag)
    }
}

/// Groups equal consecutive flags into repeat entries of at most 255.
fn compress_flags(raw_flags: &Vec<OutlineFlag>) -> (r: Vec<FlagOrRepeat>)
    requires
        raw_flags@.len() > 0,
    ensures
        expand_flags(r@) == raw_flags@,
        runs_maximal(r@),
{
    let ghost raw = raw_flags@;
    let mut new_flags: Vec<FlagOrRepeat> = Vec::new();
    let mut last_flag = raw_flags[0];
    let mut repeat_count: usize = 0;
    let mut i: usize = 0;
    while i < raw_flags.len()
        invariant
            raw == raw_flags@,
            i <= raw.len(),
            raw.len() > 0,
            i == 0 ==> repeat_count == 0 && last_flag == raw[0],
            i > 0 ==> 1 <= repeat_count <= 255,
            expand_flags(new_flags@) + Seq::new(repeat_count as nat, |_j: int| last_flag) == raw.take(
                i as int,
            ),
            runs_maximal(new_flags@),
            new_flags@.len() > 0 ==> (new_flags@.last().flag() != last_flag
                || new_flags@.last().times() == 255),
        decreases raw.len() - i,
    {
        let flag = raw_flags[i];
        if flag == last_flag && repeat_count < 255 {
            let ghost c0 = repeat_count as nat;
            assert(Seq::new(c0 + 1, |_j: int| last_flag) =~= Seq::new(c0, |_j: int| last_flag).push(last_flag));
            assert(raw.take(i as int + 1) =~= raw.take(i as int).push(raw[i as int]));
            repeat_count = repeat_count + 1;
            assert(expand_flags(new_flags@) + Seq::new(repeat_count as nat, |_j: int| last_flag)
                =~= raw.take(i as int + 1));
        } else {
            let e = flag_entry(last_flag, repeat_count);
            let ghost old_new = new_flags@;
            new_flags.push(e);
            assert(new_flags@.drop_last() =~= old_new);
            assert(expand_flags(new_flags@) == expand_flags(old_new) + Seq::new(
                e.times(),
                |_j: int| e.flag(),
            ));
            assert(Seq::new(e.times(), |_j: int| e.flag()) =~= Seq::new(
                repeat_count as nat,
                |_j: int| last_flag,
            ));
            last_flag = flag;
            repeat_count = 1;
            assert(expand_flags(new_flags@) + Seq::new(repeat_count as nat, |_j: int| last_flag)
                =~= raw.take(i as int + 1));
            assert forall|k: int| 0 <= k < new_flags@.len() - 1 implies #[trigger] new_flags@[k].flag()
                != new_flags@[k + 1].flag() || new_flags@[k].times() == 255 by {
                if k < old_new.len() - 1 {
                    assert(new_flags@[k] == old_new[k]);
                    assert(new_flags@[k + 1] == old_new[k + 1]);
                }
            }
        }
        i = i + 1;
    }
    let e = flag_entry(last_flag, repeat_count);
    let ghost old_new = new_flags@;
    new_flags.push(e);
    assert(new_flags@.drop_last() =~= old_new);
    assert(Seq::new(e.times(), |_j: int| e.flag()) =~= Seq::new(
        repeat_count as nat,
        |_j: int| last_flag,
    ));
    assert(raw.take(i as int) =~= raw);
    assert forall|k: int| 0 <= k < new_flags@.len() - 1 implies #[trigger] new_flags@[k].flag()
        != new_flags@[k + 1].flag() || new_flags@[k].times() == 255 by {
        if k < old_new.len() - 1 {
            assert(new_flags@[k] == old_new[k]);
            assert(new_flags@[k + 1] == old_new[k + 1]);
        }
    }
    new_flags
}

} // verus!

verus! {

pub proof fn lemma_points_nonempty(c: QuadBezier<(fword, fword)>)
    ensures
        c.points().len() >= 1,
{
    let n = c.segments@.len();
    if n > 0 {
        crate::curve::quad::lemma_points_before_len(c, (n - 1) as nat);
    }
}

/// Converts a list of closed quadratic outlines to a simple glyph.
///
/// Each point is stored relative to the one before it, in one byte where
/// its magnitude allows. Equal consecutive flags are grouped into repeat
/// entries. The bounding box covers the origin and all points.
pub fn encode(outlines: &[QuadBezier<(fword, fword)>]) -> (r: Result<SimpleGlyph, ConvertError>)
    requires
        encodable(outlines@),
    ensures
        first_open(outlines@) < outlines@.len() ==> r == Err::<SimpleGlyph, ConvertError>(
            ConvertError::SegmentNotClosed(first_open(outlines@) as usize),
        ),
        first_open(outlines@) == outlines@.len() ==> (r matches Ok(g) && encoded_glyph_matches(
            g,
            outlines@,
        )),
{
    let ghost o = outlines@;
    let ghost kstar = first_open(o);
    let ghost s = stream(o, kstar);
    proof {
        lemma_first_open(o);
        lemma_stream_prefix(o, 0, kstar);
    }
    let mut glyph_data = SimpleGlyph {
        common: GlyphCommon { x_max: 0, x_min: 0, y_max: 0, y_min: 0 },
        end_points_of_countours: Vec::new(),
        instructions: Vec::new(),
        flags: Vec::new(),
        x_coords: Vec::new(),
        y_coords: Vec::new(),
    };

    let mut last_x: fword = 0;
    let mut last_y: fword = 0;
    let mut raw_flags: Vec<OutlineFlag> = Vec::new();
    assert(raw_flags@ =~= Seq::new(0, |j: int| raw_flag(s, j)));
    let mut i: usize = 0;
    while i < outlines.len()
        invariant
            o == outlines@,
            kstar == first_open(o),
            s == stream(o, kstar),
            encodable(o),
            kstar <= o.len(),
            forall|t: int| 0 <= t < kstar ==> (#[trigger] o[t]).closed,
            kstar < o.len() ==> !o[kstar as int].closed,
            i <= kstar,
            points_upto(o, i as nat) <= s.len(),
            raw_flags@ == Seq::new(points_upto(o, i as nat), |j: int| raw_flag(s, j)),
            glyph_data.x_coords@ == coords_of(s, points_upto(o, i as nat), true),
            glyph_data.y_coords@ == coords_of(s, points_upto(o, i as nat), false),
            glyph_data.common == bbox(s, points_upto(o, i as nat)),
            glyph_data.end_points_of_countours@.len() == i,
            forall|c: int|
                0 <= c < i ==> #[trigger] glyph_data.end_points_of_countours@[c] == end_point(
                    o,
                    c as nat,
                ),
            glyph_data.instructions@.len() == 0,
            points_upto(o, i as nat) == 0 ==> last_x == 0 && last_y == 0,
            points_upto(o, i as nat) > 0 ==> last_x == s[points_upto(o, i as nat) - 1].1.0
                && last_y == s[points_upto(o, i as nat) - 1].1.1,
        decreases o.len() - i,
    {
        let outline = &outlines[i];
        if !outline.closed {
            return Err(ConvertError::SegmentNotClosed(i));
        }
        proof {
            lemma_stream_segment(o, i as nat, kstar);
        }
        let ghost m = points_upto(o, i as nat);
        let ghost pts = outline.points();
        let mut it = outline.iter();
        let mut done = false;
        while !done
            invariant
                o == outlines@,
                kstar == first_open(o),
                s == stream(o, kstar),
                encodable(o),
                i < kstar <= o.len(),
                *outline == o[i as int],
                pts == outline.points(),
                m == points_upto(o, i as nat),
                m + pts.len() <= s.len(),
                forall|p: int| 0 <= p < pts.len() ==> s[m + p] == pts[p],
                it.curve() == outline,
                it.well_formed(),
                it.pos() <= pts.len(),
                done ==> it.pos() == pts.len(),
                raw_flags@ == Seq::new(m + it.pos(), |j: int| raw_flag(s, j)),
                glyph_data.x_coords@ == coords_of(s, m + it.pos(), true),
                glyph_data.y_coords@ == coords_of(s, m + it.pos(), false),
                glyph_data.common == bbox(s, m + it.pos()),
                glyph_data.end_points_of_countours@.len() == i,
                forall|c: int|
                    0 <= c < i ==> #[trigger] glyph_data.end_points_of_countours@[c] == end_point(
                        o,
                        c as nat,
                    ),
                glyph_data.instructions@.len() == 0,
                m + it.pos() == 0 ==> last_x == 0 && last_y == 0,
                m + it.pos() > 0 ==> last_x == s[m + it.pos() - 1].1.0 && last_y == s[m + it.pos()
                    - 1].1.1,
            decreases 2 * (pts.len() - it.pos()) + (if done { 0int } else { 1int }),
        {
            let ghost p = it.pos();
            match it.next() {
                None => {
                    done = true;
                },
                Some((on_curve, (x, y))) => {
                    let ghost j: int = (m + p) as int;
                    assert(s[j] == (on_curve, (x, y)));
                    assert(delta(s, j, true) == x - last_x);
                    assert(delta(s, j, false) == y - last_y);
                    assert(0 <= j < s.len());
                    assert(delta_fits(s, j));
                    let dx = x - last_x;
                    let dy = y - last_y;
                    last_x = x;
                    last_y = y;

                    update_bb(&mut glyph_data, x, y);

                    let (xc, xf) = encode_delta(
                        dx,
                        OutlineFlag::X_SHORT_VECTOR,
                        OutlineFlag::LONG_X_SAME,
                    );
                    let (yc, yf) = encode_delta(
                        dy,
                        OutlineFlag::Y_SHORT_VECTOR,
                        OutlineFlag::LONG_Y_SAME,
                    );
                    let flags = xf.union(yf.bits()).union(
                        if on_curve {
                            OutlineFlag::ON_CURVE
                        } else {
                            0
                        },
                    );
                    assert(flags == raw_flag(s, j));

                    raw_flags.push(flags);
                    assert(raw_flags@ =~= Seq::new(m + p + 1, |j: int| raw_flag(s, j)));
                    match xc {
                        Some(xc) => glyph_data.x_coords.push(xc),
                        None => {},
                    }
                    match yc {
                        Some(yc) => glyph_data.y_coords.push(yc),
                        None => {},
                    }
                    assert(glyph_data.x_coords@ =~= coords_of(s, (j + 1) as nat, true));
                    assert(glyph_data.y_coords@ =~= coords_of(s, (j + 1) as nat, false));
                },
            }
        }
        let end = (raw_flags.len() % 0x1_0000) as u16 - 1;
        glyph_data.end_points_of_countours.push(end);
        i = i + 1;
    }
    proof {
        lemma_points_nonempty(o[o.len() - 1]);
        assert(s == stream(o, o.len()));
    }
    glyph_data.flags = compress_flags(&raw_flags);

    Ok(glyph_data)
}

} // verus!

verus! {

/// How many of the first `n` points have a coordinate stored on the axis.
pub open spec fn coords_used(fl: Seq<OutlineFlag>, n: nat, is_x: bool) -> nat
    decreases n,
{
    if n == 0 {
        0
    } else {
        coords_used(fl, (n - 1) as nat, is_x) + (if needs_coord(fl[n - 1].0, is_x) {
            1nat
        } else {
            0nat
        })
    }
}

pub open spec fn coord_value(c: Coord) -> int {
    match c {
        Coord::Short(v) => v as int,
        Coord::Long(v) => v as int,
    }
}

/// The relative move on an axis of a point with flag bits `f` and stored
/// coordinate `c`.
pub open spec fn axis_delta(f: u8, is_x: bool, c: Coord) -> int {
    if f & short_mask(is_x) != 0 {
        if f & same_mask(is_x) != 0 {
            coord_value(c)
        } else {
            -coord_value(c)
        }
    } else if f & same_mask(is_x) != 0 {
        0
    } else {
        coord_value(c)
    }
}

pub open spec fn glyph_flags(g: SimpleGlyph) -> Seq<OutlineFlag> {
    expand_flags(g.flags@)
}

pub open spec fn axis_coords(g: SimpleGlyph, is_x: bool) -> Seq<Coord> {
    if is_x { g.x_coords@ } else { g.y_coords@ }
}

/// The relative move of point `i` of a glyph on an axis.
pub open spec fn point_delta(g: SimpleGlyph, i: int, is_x: bool) -> int {
    let fl = glyph_flags(g);
    axis_delta(fl[i].0, is_x, axis_coords(g, is_x)[coords_used(fl, i as nat, is_x) as int])
}

/// The absolute coordinate on an axis after the first `n` points.
pub open spec fn position(g: SimpleGlyph, n: nat, is_x: bool) -> int
    decreases n,
{
    if n == 0 {
        0
    } else {
        position(g, (n - 1) as nat, is_x) + point_delta(g, n - 1, is_x)
    }
}

/// Point `i` of a glyph: whether it is on the curve, and where it is.
pub open spec fn glyph_point(g: SimpleGlyph, i: int) -> (bool, int, int) {
    (
        glyph_flags(g)[i].0 & 1u8 != 0,
        position(g, (i + 1) as nat, true),
        position(g, (i + 1) as nat, false),
    )
}

/// The index of the first point of contour `c`.
pub open spec fn contour_start(g: SimpleGlyph, c: int) -> int {
    if c == 0 {
        0
    } else {
        g.end_points_of_countours@[c - 1] as int + 1
    }
}

pub open spec fn fits_i16(v: int) -> bool {
    -0x8000 <= v <= 0x7fff
}

/// What the decoder needs of a glyph besides what `verify` checks: every
/// contour has at least two points and starts on the curve, every absolute
/// coordinate fits an `fword`, and so does the sum of the coordinates of two
/// consecutive off-curve points.
pub open spec fn decodable(g: SimpleGlyph) -> bool {
    let ends = g.end_points_of_countours@;
    let n = g.spec_n_points();
    &&& forall|c: int| 0 <= c < ends.len() ==> #[trigger] contour_start(g, c) + 1 <= ends[c]
    &&& forall|c: int| 0 <= c < ends.len() ==> (#[trigger] glyph_point(g, contour_start(g, c))).0
    &&& forall|i: nat|
        1 <= i <= n ==> fits_i16(#[trigger] position(g, i, true)) && fits_i16(position(g, i, false))
    &&& forall|i: int|
        1 <= i < n && !glyph_point(g, i - 1).0 && !(#[trigger] glyph_point(g, i)).0 ==> {
            &&& fits_i16(glyph_point(g, i - 1).1 + glyph_point(g, i).1)
            &&& fits_i16(glyph_point(g, i - 1).2 + glyph_point(g, i).2)
        }
}

/// Halves toward zero.
pub open spec fn half(v: int) -> int {
    if v >= 0 { v / 2 } else { -((-v) / 2) }
}

pub open spec fn to_point(x: int, y: int) -> (fword, fword) {
    (x as fword, y as fword)
}

pub open spec fn seg_to(c: (int, int), e: (int, int)) -> QuadSegment<(fword, fword)> {
    QuadSegment { control: to_point(c.0, c.1), end: to_point(e.0, e.1) }
}

/// The segments and pending off-curve point after the decoder has read
/// points `1..=m` of a contour.
pub open spec fn curve_state(pts: Seq<(bool, int, int)>, m: nat) -> (
    Seq<QuadSegment<(fword, fword)>>,
    Option<(int, int)>,
)
    decreases m,
{
    if m == 0 {
        (Seq::empty(), None)
    } else {
        let (segs, off) = curve_state(pts, (m - 1) as nat);
        let p = pts[m as int];
        if p.0 {
            match off {
                Some(c) => (segs.push(seg_to(c, (p.1, p.2))), None),
                None => (segs.push(seg_to((p.1, p.2), (p.1, p.2))), None),
            }
        } else {
            match off {
                None => (segs, Some((p.1, p.2))),
                Some(c) => (
                    segs.push(seg_to(c, (half(c.0 + p.1), half(c.1 + p.2)))),
                    Some((p.1, p.2)),
                ),
            }
        }
    }
}

/// The segments of the closed curve through the points of a contour.
pub open spec fn curve_segments(pts: Seq<(bool, int, int)>) -> Seq<QuadSegment<(fword, fword)>> {
    let (segs, off) = curve_state(pts, (pts.len() - 1) as nat);
    let start = (pts[0].1, pts[0].2);
    match off {
        None => segs.push(seg_to(start, start)),
        Some(c) => segs.push(seg_to(c, start)),
    }
}

/// The points of contour `c`.
pub open spec fn contour_points(g: SimpleGlyph, c: int) -> Seq<(bool, int, int)> {
    let s = contour_start(g, c);
    Seq::new(
        (g.end_points_of_countours@[c] - s + 1) as nat,
        |k: int| glyph_point(g, s + k),
    )
}

/// The curves that the decoder gives for a glyph.
pub open spec fn decoded_matches(curves: Seq<QuadBezier<(fword, fword)>>, g: SimpleGlyph) -> bool {
    &&& curves.len() == g.end_points_of_countours@.len()
    &&& forall|c: int|
        0 <= c < curves.len() ==> {
            let pts = contour_points(g, c);
            &&& (#[trigger] curves[c]).start == to_point(pts[0].1, pts[0].2)
            &&& curves[c].segments@ == curve_segments(pts)
            &&& curves[c].closed
        }
}

} // verus!

verus! {

/// Point `i` passes the checks of `verify` on both axes.
pub open spec fn pt_ok(g: SimpleGlyph, fl: Seq<OutlineFlag>, i: int) -> bool {
    g.check_point(fl[i].0, coords_used(fl, i as nat, true), coords_used(fl, i as nat, false)) is Ok
}

pub proof fn lemma_coords_used_prefix(fl1: Seq<OutlineFlag>, fl2: Seq<OutlineFlag>, n: nat)
    requires
        n <= fl1.len(),
        n <= fl2.len(),
        forall|t: int| 0 <= t < n ==> fl1[t] == fl2[t],
    ensures
        coords_used(fl1, n, true) == coords_used(fl2, n, true),
        coords_used(fl1, n, false) == coords_used(fl2, n, false),
    decreases n,
{
    if n > 0 {
        lemma_coords_used_prefix(fl1, fl2, (n - 1) as nat);
    }
}

proof fn lemma_pt_ok_prefix(g: SimpleGlyph, fl1: Seq<OutlineFlag>, fl2: Seq<OutlineFlag>, i: int)
    requires
        0 <= i < fl1.len(),
        i < fl2.len(),
        forall|t: int| 0 <= t <= i ==> fl1[t] == fl2[t],
    ensures
        pt_ok(g, fl1, i) == pt_ok(g, fl2, i),
{
    lemma_coords_used_prefix(fl1, fl2, i as nat);
}

proof fn lemma_check_repeats(g: SimpleGlyph, p: Seq<OutlineFlag>, f: OutlineFlag, k: nat, big: nat)
    requires
        k <= big,
    ensures
        ({
            let q = p + Seq::new(big, |_j: int| f);
            let r = g.check_repeats(f.0, k, coords_used(p, p.len(), true), coords_used(p, p.len(), false));
            &&& (r is Ok) == (forall|t: int| 0 <= t < k ==> #[trigger] pt_ok(g, q, p.len() + t))
            &&& r is Ok ==> r == Ok::<(nat, nat), SimpleGlyphVerifyError>(
                (coords_used(q, p.len() + k, true), coords_used(q, p.len() + k, false)),
            )
        }),
    decreases k,
{
    let q = p + Seq::new(big, |_j: int| f);
    if k == 0 {
        lemma_coords_used_prefix(p, q, p.len());
    } else {
        lemma_check_repeats(g, p, f, (k - 1) as nat, big);
        let j = p.len() + k - 1;
        assert(q[j] == f);
        let r = g.check_repeats(f.0, k, coords_used(p, p.len(), true), coords_used(p, p.len(), false));
        if r is Ok {
            assert forall|t: int| 0 <= t < k implies #[trigger] pt_ok(g, q, p.len() + t) by {
                if t == k - 1 {
                } else {
                }
            }
        }
        if forall|t: int| 0 <= t < k ==> #[trigger] pt_ok(g, q, p.len() + t) {
            assert(pt_ok(g, q, p.len() + (k - 1)));
        }
    }
}

pub proof fn lemma_scan(g: SimpleGlyph, n: nat)
    requires
        n <= g.flags@.len(),
    ensures
        ({
            let e = expand_flags(g.flags@.take(n as int));
            &&& (g.scan(n) is Ok) == ((forall|t: int|
                0 <= t < n ==> (#[trigger] g.flags@[t]).flag().0 & 0b1000u8 == 0) && (forall|i: int|
                0 <= i < e.len() ==> #[trigger] pt_ok(g, e, i)))
            &&& g.scan(n) is Ok ==> g.scan(n) == Ok::<(nat, nat), SimpleGlyphVerifyError>(
                (coords_used(e, e.len(), true), coords_used(e, e.len(), false)),
            )
        }),
    decreases n,
{
    let e = expand_flags(g.flags@.take(n as int));
    if n == 0 {
        assert(g.flags@.take(0) =~= Seq::<FlagOrRepeat>::empty());
    } else {
        lemma_scan(g, (n - 1) as nat);
        let p = expand_flags(g.flags@.take(n - 1));
        let ent = g.flags@[n - 1];
        lemma_expand_flags_take_step(g.flags@, n - 1);
        assert(e == p + Seq::new(ent.times(), |_j: int| ent.flag()));
        lemma_check_repeats(g, p, ent.flag(), ent.times(), ent.times());
        assert forall|i: int| 0 <= i < p.len() implies pt_ok(g, p, i) == pt_ok(g, e, i) by {
            lemma_pt_ok_prefix(g, p, e, i);
        }
        if g.scan(n) is Ok {
            assert forall|i: int| 0 <= i < e.len() implies #[trigger] pt_ok(g, e, i) by {
                if i < p.len() {
                    assert(pt_ok(g, p, i));
                } else {
                    assert(pt_ok(g, e, p.len() + (i - p.len())));
                }
            }
            assert forall|t: int| 0 <= t < n implies (#[trigger] g.flags@[t]).flag().0 & 0b1000u8 == 0 by {
                if t < n - 1 {
                    assert(g.flags@.take(n - 1)[t] == g.flags@[t]);
                }
            }
        }
        if (forall|t: int| 0 <= t < n ==> (#[trigger] g.flags@[t]).flag().0 & 0b1000u8 == 0) && (
        forall|i: int| 0 <= i < e.len() ==> #[trigger] pt_ok(g, e, i)) {
            assert forall|i: int| 0 <= i < p.len() implies #[trigger] pt_ok(g, p, i) by {
                assert(pt_ok(g, e, i));
            }
            assert forall|t: int| 0 <= t < n - 1 implies (#[trigger] g.flags@[t]).flag().0 & 0b1000u8 == 0 by {
                assert(g.flags@[t].flag().0 & 0b1000u8 == 0);
            }
            assert(g.flags@[n - 1].flag().0 & 0b1000u8 == 0);
            assert forall|t: int| 0 <= t < ent.times() implies #[trigger] pt_ok(g, e, p.len() + t) by {
                assert(pt_ok(g, e, p.len() + t));
            }
        }
    }
}

} // verus!

verus! {

/// What `verify` promises of a glyph that passes it.
pub proof fn lemma_verified_facts(g: SimpleGlyph)
    requires
        g.verify_result() is Ok,
    ensures
        glyph_flags(g).len() == g.spec_n_points(),
        forall|i: int| 0 <= i < glyph_flags(g).len() ==> #[trigger] pt_ok(g, glyph_flags(g), i),
        coords_used(glyph_flags(g), glyph_flags(g).len(), true) == g.x_coords@.len(),
        coords_used(glyph_flags(g), glyph_flags(g).len(), false) == g.y_coords@.len(),
{
    lemma_scan(g, g.flags@.len());
    assert(g.flags@.take(g.flags@.len() as int) =~= g.flags@);
}

pub proof fn lemma_verified_len(g: SimpleGlyph)
    requires
        g.verify_result() is Ok,
    ensures
        glyph_flags(g).len() == g.spec_n_points(),
{
}

pub proof fn lemma_flag_in_entry(fs: Seq<FlagOrRepeat>, j: int, t: int)
    requires
        0 <= j < fs.len(),
        0 <= t < fs[j].times(),
    ensures
        expand_flags(fs.take(j)).len() + fs[j].times() <= expand_flags(fs).len(),
        expand_flags(fs)[expand_flags(fs.take(j)).len() + t] == fs[j].flag(),
{
    lemma_expand_flags_take_step(fs, j);
    lemma_expand_flags_prefix_len(fs, j + 1);
    let e1 = expand_flags(fs.take(j + 1));
    assert(e1[expand_flags(fs.take(j)).len() + t] == fs[j].flag());
}

proof fn lemma_single_bit(f: u8)
    ensures
        (f & 0b10u8 == 0b10u8) == (f & 0b10u8 != 0),
        (f & 0b100u8 == 0b100u8) == (f & 0b100u8 != 0),
        (f & 0b1_0000u8 == 0b1_0000u8) == (f & 0b1_0000u8 != 0),
        (f & 0b10_0000u8 == 0b10_0000u8) == (f & 0b10_0000u8 != 0),
        (f & 0b1u8 == 0b1u8) == (f & 0b1u8 != 0),
{
    assert((f & 0b10u8 == 0b10u8) == (f & 0b10u8 != 0)) by (bit_vector);
    assert((f & 0b100u8 == 0b100u8) == (f & 0b100u8 != 0)) by (bit_vector);
    assert((f & 0b1_0000u8 == 0b1_0000u8) == (f & 0b1_0000u8 != 0)) by (bit_vector);
    assert((f & 0b10_0000u8 == 0b10_0000u8) == (f & 0b10_0000u8 != 0)) by (bit_vector);
    assert((f & 0b1u8 == 0b1u8) == (f & 0b1u8 != 0)) by (bit_vector);
}

/// A decoder for a simple glyph that passed `verify` and is decodable.
struct BezierDecoder<'a> {
    glyph: &'a SimpleGlyph,
    // current position
    x: fword,
    y: fword,
    /// The next countour end index to read
    countour_ix: usize,
    /// Total number of points in the glyph
    n_points: usize,
    /// Number of points read so far.
    point_ix: usize,
    /// The next flag to read
    flag_ptr: usize,
    /// The current flag
    flag: OutlineFlag,
    /// The remaining number of times the current flag should be repeated
    flag_repeats_remaining: usize,
    /// The next X coordinate to read
    x_ptr: usize,
    /// The next Y coordinate to read
    y_ptr: usize,
}

#[verifier::opaque]
pub open spec fn decoder_ready(g: SimpleGlyph) -> bool {
    &&& g.verify_result() is Ok
    &&& decodable(g)
    &&& expand_flags(g.flags@).len() <= usize::MAX
}

impl<'a> BezierDecoder<'a> {
    spec fn inv(&self) -> bool {
        let g = *self.glyph;
        let fs = g.flags@;
        let fl = glyph_flags(g);
        &&& decoder_ready(g)
        &&& self.n_points == g.spec_n_points()
        &&& fl.len() == self.n_points
        &&& self.point_ix <= self.n_points
        &&& self.flag_ptr <= fs.len()
        &&& expand_flags(fs.take(self.flag_ptr as int)).len() == self.point_ix
            + self.flag_repeats_remaining
        &&& self.flag_repeats_remaining > 0 ==> {
            &&& self.flag_ptr > 0
            &&& self.flag == fs[self.flag_ptr - 1].flag()
            &&& self.flag_repeats_remaining <= fs[self.flag_ptr - 1].times()
        }
        &&& self.x_ptr == coords_used(fl, self.point_ix as nat, true)
        &&& self.y_ptr == coords_used(fl, self.point_ix as nat, false)
        &&& self.x == position(g, self.point_ix as nat, true)
        &&& self.y == position(g, self.point_ix as nat, false)
    }

    fn new(glyph: &'a SimpleGlyph) -> (r: Self)
        requires
            decoder_ready(*glyph),
        ensures
            r.inv(),
            r.glyph == glyph,
            r.point_ix == 0,
            r.countour_ix == 0,
    {
        let n_points = glyph.n_points();
        assert(glyph.flags@.take(0) =~= Seq::<FlagOrRepeat>::empty());
        proof {
            reveal(decoder_ready);
            lemma_verified_len(*glyph);
        }
        BezierDecoder {
            glyph,
            x: 0,
            y: 0,
            countour_ix: 0,
            n_points,
            point_ix: 0,
            flag_ptr: 0,
            flag: OutlineFlag::empty(),
            flag_repeats_remaining: 0,
            x_ptr: 0,
            y_ptr: 0,
        }
    }

    /// Advances the flag state by one point and gives the point's flag.
    fn read_flag(&mut self) -> (r: OutlineFlag)
        requires
            old(self).inv(),
            old(self).point_ix < old(self).n_points,
        ensures
            r == glyph_flags(*old(self).glyph)[old(self).point_ix as int],
            final(self).glyph == old(self).glyph,
            final(self).countour_ix == old(self).countour_ix,
            final(self).point_ix == old(self).point_ix + 1,
            final(self).n_points == old(self).n_points,
            final(self).x == old(self).x,
            final(self).y == old(self).y,
            final(self).x_ptr == old(self).x_ptr,
            final(self).y_ptr == old(self).y_ptr,
            final(self).flag_ptr <= final(self).glyph.flags@.len(),
            expand_flags(final(self).glyph.flags@.take(final(self).flag_ptr as int)).len()
                == final(self).point_ix + final(self).flag_repeats_remaining,
            final(self).flag_repeats_remaining > 0 ==> {
                &&& final(self).flag_ptr > 0
                &&& final(self).flag == final(self).glyph.flags@[final(self).flag_ptr - 1].flag()
                &&& final(self).flag_repeats_remaining <= final(self).glyph.flags@[final(self).flag_ptr
                    - 1].times()
            },
    {
        let ghost g = *self.glyph;
        let ghost fs = g.flags@;
        let ghost fl = glyph_flags(g);
        let ghost pi = self.point_ix as int;
        self.point_ix = self.point_ix + 1;
        let _n_entries = self.glyph.flags.len();
        if self.flag_repeats_remaining == 0 {
            proof {
                assert(expand_flags(fs.take(self.flag_ptr as int)).len() == pi);
                assert(pi < fl.len());
                if self.flag_ptr == fs.len() {
                    assert(fs.take(self.flag_ptr as int) =~= fs);
                    assert(false);
                }
                assert(self.flag_ptr < fs.len());
                lemma_expand_flags_take_step(fs, self.flag_ptr as int);
            }
            let flag = self.glyph.flags[self.flag_ptr];
            self.flag = flag.get_flag();
            self.flag_repeats_remaining = flag.get_repeat_times();
            self.flag_ptr = self.flag_ptr + 1;
        }
        self.flag_repeats_remaining = self.flag_repeats_remaining - 1;
        proof {
            let j = self.flag_ptr - 1;
            let t = fs[j].times() - self.flag_repeats_remaining - 1;
            lemma_expand_flags_take_step(fs, j);
            lemma_flag_in_entry(fs, j, t);
        }
        self.flag
    }

    /// Reads the next point: its absolute coordinates and its flag.
    fn next_point(&mut self) -> (r: (fword, fword, OutlineFlag))
        requires
            old(self).inv(),
            old(self).point_ix < old(self).n_points,
        ensures
            final(self).inv(),
            final(self).glyph == old(self).glyph,
            final(self).countour_ix == old(self).countour_ix,
            final(self).point_ix == old(self).point_ix + 1,
            r.0 as int == glyph_point(*old(self).glyph, old(self).point_ix as int).1,
            r.1 as int == glyph_point(*old(self).glyph, old(self).point_ix as int).2,
            (r.2.0 & 1u8 != 0) == glyph_point(*old(self).glyph, old(self).point_ix as int).0,
    {
        let ghost g = *self.glyph;
        let ghost fl = glyph_flags(g);
        let ghost pi = self.point_ix as int;
        proof {
            reveal(decoder_ready);
            lemma_verified_facts(g);
            assert(pt_ok(g, fl, pi));
        }
        let flag = self.read_flag();
        let (dx, xp) = read_axis(&self.glyph.x_coords, self.x_ptr, flag, true);
        let (dy, yp) = read_axis(&self.glyph.y_coords, self.y_ptr, flag, false);
        self.x_ptr = xp;
        self.y_ptr = yp;
        proof {
            assert(fits_i16(position(g, (pi + 1) as nat, true)));
            assert(fits_i16(position(g, (pi + 1) as nat, false)));
        }
        self.x = self.x + dx;
        self.y = self.y + dy;
        let x_coord = self.x;
        let y_coord = self.y;

        (x_coord, y_coord, flag)
    }
}

/// Reads the relative move of a point on one axis: gives it and the index
/// of the next coordinate of the axis.
fn read_axis(coords: &Vec<Coord>, ptr: usize, flag: OutlineFlag, is_x: bool) -> (r: (i16, usize))
    requires
        check_axis(flag.0, is_x, coords@, ptr as nat) is Ok,
    ensures
        r.0 as int == axis_delta(flag.0, is_x, coords@[ptr as int]),
        r.1 == ptr + (if needs_coord(flag.0, is_x) { 1int } else { 0int }),
{
    proof {
        lemma_single_bit(flag.0);
        if needs_coord(flag.0, is_x) {
            assert(ptr < coords@.len());
        }
    }
    let short = if is_x { OutlineFlag::X_SHORT_VECTOR } else { OutlineFlag::Y_SHORT_VECTOR };
    let same = if is_x { OutlineFlag::LONG_X_SAME } else { OutlineFlag::LONG_Y_SAME };
    let _n_coords = coords.len();
    assert(short == short_mask(is_x));
    assert(same == same_mask(is_x));
    let d: i16 = if flag.contains(short) {
        if flag.contains(same) {
            coords[ptr].unwrap_short() as i16
        } else {
            -(coords[ptr].unwrap_short() as i16)
        }
    } else {
        if flag.contains(same) {
            0
        } else {
            coords[ptr].unwrap_long()
        }
    };
    if flag.contains(short) || !flag.contains(same) {
        (d, ptr + 1)
    } else {
        (d, ptr)
    }
}

} // verus!

verus! {

/// Contours with at least two points each: a contour ends before the last
/// point of the glyph.
pub proof fn lemma_contour_bounds(g: SimpleGlyph, c: int)
    requires
        forall|c: int|
            0 <= c < g.end_points_of_countours@.len() ==> #[trigger] contour_start(g, c) + 1
                <= g.end_points_of_countours@[c],
        0 <= c < g.end_points_of_countours@.len(),
    ensures
        contour_start(g, c) + 1 <= g.end_points_of_countours@[c],
        g.end_points_of_countours@[c] < g.spec_n_points(),
    decreases g.end_points_of_countours@.len() - c,
{
    let ends = g.end_points_of_countours@;
    assert(contour_start(g, c) + 1 <= ends[c]);
    if c + 1 < ends.len() {
        lemma_contour_bounds(g, c + 1);
        assert(contour_start(g, c + 1) + 1 <= ends[c + 1]);
    }
}

impl<'a> BezierDecoder<'a> {
    fn end_of_contour_p(&self) -> (r: bool)
        requires
            self.countour_ix < self.glyph.end_points_of_countours@.len(),
        ensures
            r == (self.point_ix > self.glyph.end_points_of_countours@[self.countour_ix as int]),
    {
        self.point_ix > self.glyph.end_points_of_countours[self.countour_ix] as usize
    }

    /// Reads the points of the current contour and builds its curve.
    #[verifier::rlimit(40)]
    fn decode_curve(&mut self) -> (r: QuadBezierBuilder<(i16, i16)>)
        requires
            old(self).inv(),
            old(self).countour_ix < old(self).glyph.end_points_of_countours@.len(),
            old(self).point_ix == contour_start(*old(self).glyph, old(self).countour_ix as int),
        ensures
            final(self).inv(),
            final(self).glyph == old(self).glyph,
            final(self).countour_ix == old(self).countour_ix,
            final(self).point_ix == old(self).glyph.end_points_of_countours@[old(
                self,
            ).countour_ix as int] + 1,
            ({
                let pts = contour_points(*old(self).glyph, old(self).countour_ix as int);
                &&& r.partial().start == to_point(pts[0].1, pts[0].2)
                &&& r.partial().segments@ == curve_segments(pts)
                &&& r.partial().closed
            }),
    {
        let ghost g = *self.glyph;
        let ghost c = self.countour_ix as int;
        let ghost s = contour_start(g, c);
        let ghost e = g.end_points_of_countours@[c] as int;
        let ghost pts = contour_points(g, c);
        proof {
            reveal(decoder_ready);
            lemma_contour_bounds(g, c);
        }
        // start point
        let (x, y, _flags) = self.next_point();
        proof {
            assert(pts[0] == glyph_point(g, s));
        }
        let mut curve = QuadBezier::builder((x, y));
        let start = (x, y);
        let mut off_curve: Option<(i16, i16)> = None;

        // inner loop, iterating points
        while !self.end_of_contour_p()
            invariant
                self.inv(),
                self.glyph == old(self).glyph,
                g == *self.glyph,
                self.countour_ix == c,
                0 <= c < g.end_points_of_countours@.len(),
                s == contour_start(g, c),
                e == g.end_points_of_countours@[c],
                s + 1 <= e < g.spec_n_points(),
                pts == contour_points(g, c),
                s + 1 <= self.point_ix <= e + 1,
                start == to_point(pts[0].1, pts[0].2),
                curve.partial().start == start,
                !curve.partial().closed,
                curve.partial().segments@ == curve_state(pts, (self.point_ix - s - 1) as nat).0,
                match curve_state(pts, (self.point_ix - s - 1) as nat).1 {
                    None => off_curve is None,
                    Some(p) => off_curve == Some(to_point(p.0, p.1)) && fits_i16(p.0) && fits_i16(p.1)
                        && !glyph_point(g, self.point_ix - 1).0,
                },
            decreases e + 1 - self.point_ix,
        {
            let ghost m = (self.point_ix - s) as nat;
            let (x, y, flags) = self.next_point();
            proof {
                lemma_decode_step(g, c, m as int);
                lemma_single_bit(flags.0);
            }
            if flags.contains(OutlineFlag::ON_CURVE) {
                match off_curve {
                    Some((cx, cy)) => {
                        curve.quad_to((cx, cy), (x, y));
                    },
                    None => {
                        curve.line_to((x, y));
                    },
                }
                off_curve = None;
            } else {
                match off_curve {
                    None => {
                        off_curve = Some((x, y));
                    },
                    Some((cx, cy)) => {
                        // Two consecutive off-curve points stand for an
                        // on-curve point at their midpoint.
                        let midx = half_i16(cx, x);
                        let midy = half_i16(cy, y);
                        curve.quad_to((cx, cy), (midx, midy));
                        off_curve = Some((x, y));
                    },
                }
            }
        }
        // Close the curve
        match off_curve {
            None => {
                curve.line_to(start);
            },
            Some((cx, cy)) => {
                curve.quad_to((cx, cy), start);
            },
        };
        curve.close();
        curve
    }
}

proof fn lemma_decode_step(g: SimpleGlyph, c: int, m: int)
    requires
        decoder_ready(g),
        0 <= c < g.end_points_of_countours@.len(),
        1 <= m <= g.end_points_of_countours@[c] - contour_start(g, c),
    ensures
        contour_points(g, c)[m] == glyph_point(g, contour_start(g, c) + m),
        contour_points(g, c)[m - 1] == glyph_point(g, contour_start(g, c) + m - 1),
        fits_i16(glyph_point(g, contour_start(g, c) + m).1),
        fits_i16(glyph_point(g, contour_start(g, c) + m).2),
        !glyph_point(g, contour_start(g, c) + m - 1).0 && !glyph_point(g, contour_start(g, c) + m).0
            ==> {
            &&& fits_i16(glyph_point(g, contour_start(g, c) + m - 1).1 + glyph_point(g, contour_start(g, c) + m).1)
            &&& fits_i16(glyph_point(g, contour_start(g, c) + m - 1).2 + glyph_point(g, contour_start(g, c) + m).2)
        },
{
    reveal(decoder_ready);
    lemma_contour_bounds(g, c);
    let i = contour_start(g, c) + m;
    assert(fits_i16(position(g, (i + 1) as nat, true)));
    assert(glyph_point(g, i).0 || !glyph_point(g, i).0);
}

/// The midpoint coordinate `(a + b) / 2`, rounded toward zero.
fn half_i16(a: i16, b: i16) -> (r: i16)
    requires
        fits_i16(a + b),
    ensures
        r == half(a + b),
{
    let sum = a + b;
    if sum >= 0 {
        sum / 2
    } else {
        -((-(sum as i32)) / 2) as i16
    }
}

} // verus!

verus! {

impl<'a> BezierDecoder<'a> {
    /// Builds the curves of all contours.
    fn decode(&mut self) -> (r: Vec<QuadBezier<(fword, fword)>>)
        requires
            old(self).inv(),
            old(self).point_ix == 0,
            old(self).countour_ix == 0,
        ensures
            decoded_matches(r@, *old(self).glyph),
    {
        let ghost g = *self.glyph;
        let mut curves: Vec<QuadBezier<(fword, fword)>> = Vec::new();
        let n_contours = self.glyph.end_points_of_countours.len();
        while self.countour_ix < n_contours
            invariant
                self.inv(),
                g == *self.glyph,
                n_contours == g.end_points_of_countours@.len(),
                self.countour_ix <= n_contours,
                self.point_ix == contour_start(g, self.countour_ix as int),
                curves@.len() == self.countour_ix,
                forall|c: int|
                    0 <= c < curves@.len() ==> {
                        let pts = contour_points(g, c);
                        &&& (#[trigger] curves@[c]).start == to_point(pts[0].1, pts[0].2)
                        &&& curves@[c].segments@ == curve_segments(pts)
                        &&& curves@[c].closed
                    },
            decreases n_contours - self.countour_ix,
        {
            let curve = self.decode_curve();
            curves.push(curve.build());
            self.countour_ix = self.countour_ix + 1;
        }
        curves
    }
}

/// Converts a simple glyph back to its quadratic outlines, one closed curve
/// per contour.
pub fn decode(glyph: &SimpleGlyph) -> (r: Result<Vec<QuadBezier<(fword, fword)>>, SimpleGlyphVerifyError>)
    requires
        expand_flags(glyph.flags@).len() <= usize::MAX,
        glyph.verify_result() is Ok ==> decodable(*glyph),
    ensures
        match glyph.verify_result() {
            Err(e) => r == Err::<Vec<QuadBezier<(fword, fword)>>, SimpleGlyphVerifyError>(e),
            Ok(_) => r matches Ok(curves) && decoded_matches(curves@, *glyph),
        },
{
    match glyph.verify() {
        Err(e) => Err(e),
        Ok(()) => {
            proof {
                reveal(decoder_ready);
            }
            let mut decoder = BezierDecoder::new(glyph);
            Ok(decoder.decode())
        },
    }
}

} // verus!

verus! {

proof fn lemma_delta_flag_values(d: int)
    ensures
        delta_flag(d, 0b10u8, 0b1_0000u8) == 0 || delta_flag(d, 0b10u8, 0b1_0000u8) == 0b10u8
            || delta_flag(d, 0b10u8, 0b1_0000u8) == 0b1_0000u8 || delta_flag(d, 0b10u8, 0b1_0000u8)
            == 0b1_0010u8,
        delta_flag(d, 0b100u8, 0b10_0000u8) == 0 || delta_flag(d, 0b100u8, 0b10_0000u8) == 0b100u8
            || delta_flag(d, 0b100u8, 0b10_0000u8) == 0b10_0000u8 || delta_flag(
            d,
            0b100u8,
            0b10_0000u8,
        ) == 0b10_0100u8,
{
    assert(0b10u8 | 0b1_0000u8 == 0b1_0010u8) by (bit_vector);
    assert(0b100u8 | 0b10_0000u8 == 0b10_0100u8) by (bit_vector);
}

proof fn lemma_axis_code(f: u8, d: int, is_x: bool)
    requires
        -0x7fff <= d <= 0x7fff,
        f & short_mask(is_x) == delta_flag(d, short_mask(is_x), same_mask(is_x)) & short_mask(is_x),
        f & same_mask(is_x) == delta_flag(d, short_mask(is_x), same_mask(is_x)) & same_mask(is_x),
    ensures
        needs_coord(f, is_x) == (delta_coord(d) is Some),
        delta_coord(d) matches Some(c) ==> axis_delta(f, is_x, c) == d && (c is Short) == (f
            & short_mask(is_x) != 0),
        delta_coord(d) is None ==> forall|c: Coord| axis_delta(f, is_x, c) == d,
{
    let sh = short_mask(is_x);
    let sa = same_mask(is_x);
    if is_x {
        assert((0b10u8 | 0b1_0000u8) & 0b10u8 == 0b10u8 && (0b10u8 | 0b1_0000u8) & 0b1_0000u8 == 0b1_0000u8) by (bit_vector);
        assert(0b10u8 & 0b10u8 == 0b10u8 && 0b10u8 & 0b1_0000u8 == 0) by (bit_vector);
        assert(0b1_0000u8 & 0b10u8 == 0 && 0b1_0000u8 & 0b1_0000u8 == 0b1_0000u8) by (bit_vector);
        assert(0u8 & 0b10u8 == 0 && 0u8 & 0b1_0000u8 == 0) by (bit_vector);
    } else {
        assert((0b100u8 | 0b10_0000u8) & 0b100u8 == 0b100u8 && (0b100u8 | 0b10_0000u8) & 0b10_0000u8 == 0b10_0000u8) by (bit_vector);
        assert(0b100u8 & 0b100u8 == 0b100u8 && 0b100u8 & 0b10_0000u8 == 0) by (bit_vector);
        assert(0b10_0000u8 & 0b100u8 == 0 && 0b10_0000u8 & 0b10_0000u8 == 0b10_0000u8) by (bit_vector);
        assert(0u8 & 0b100u8 == 0 && 0u8 & 0b10_0000u8 == 0) by (bit_vector);
    }
    if d == 0 {
        assert(f & sh == 0 && f & sa != 0);
    } else if 0 < d <= 255 {
        assert(f & sh != 0 && f & sa != 0);
    } else if -255 <= d < 0 {
        assert(f & sh != 0 && f & sa == 0);
    } else {
        assert(f & sh == 0 && f & sa == 0);
    }
}

/// What the encoder stores for one point decodes to that point.
proof fn lemma_point_code(s: Seq<OutlinePoint>, j: int, is_x: bool)
    requires
        0 <= j < s.len(),
        delta_fits(s, j),
    ensures
        ({
            let f = raw_flag(s, j).0;
            let d = delta(s, j, is_x);
            &&& needs_coord(f, is_x) == (delta_coord(d) is Some)
            &&& delta_coord(d) matches Some(c) ==> axis_delta(f, is_x, c) == d && (c is Short) == (f
                & short_mask(is_x) != 0)
            &&& delta_coord(d) is None ==> forall|c: Coord| axis_delta(f, is_x, c) == d
            &&& (f & 1u8 != 0) == s[j].0
            &&& f & 0b1000u8 == 0
        }),
{
    let dx = delta(s, j, true);
    let dy = delta(s, j, false);
    lemma_delta_flag_values(dx);
    lemma_delta_flag_values(dy);
    lemma_flag_bits(
        delta_flag(dx, 0b10u8, 0b1_0000u8),
        delta_flag(dy, 0b100u8, 0b10_0000u8),
        on_bit(s[j].0),
    );
    lemma_axis_code(raw_flag(s, j).0, delta(s, j, is_x), is_x);
}

/// The coordinates the encoder stores are those the flags ask for.
proof fn lemma_coords_used_encoded(s: Seq<OutlinePoint>, n: nat, is_x: bool)
    requires
        n <= s.len(),
        forall|j: int| 0 <= j < s.len() ==> #[trigger] delta_fits(s, j),
    ensures
        coords_used(raw_flags(s), n, is_x) == coords_of(s, n, is_x).len(),
    decreases n,
{
    if n > 0 {
        lemma_coords_used_encoded(s, (n - 1) as nat, is_x);
        assert(delta_fits(s, n - 1));
        lemma_point_code(s, n - 1, is_x);
    }
}

proof fn lemma_coords_of_prefix(s: Seq<OutlinePoint>, a: nat, b: nat, is_x: bool)
    requires
        a <= b,
    ensures
        coords_of(s, a, is_x).len() <= coords_of(s, b, is_x).len(),
        forall|i: int|
            0 <= i < coords_of(s, a, is_x).len() ==> coords_of(s, b, is_x)[i] == coords_of(
                s,
                a,
                is_x,
            )[i],
    decreases b,
{
    if a < b {
        lemma_coords_of_prefix(s, a, (b - 1) as nat, is_x);
    }
}

/// The stored coordinate of point `j`, if any, is at the index that the
/// decoder reads.
proof fn lemma_coord_at(s: Seq<OutlinePoint>, j: int, is_x: bool)
    requires
        0 <= j < s.len(),
    ensures
        delta_coord(delta(s, j, is_x)) matches Some(c) ==> {
            &&& coords_of(s, j as nat, is_x).len() < coords_of(s, s.len(), is_x).len()
            &&& coords_of(s, s.len(), is_x)[coords_of(s, j as nat, is_x).len() as int] == c
        },
{
    lemma_coords_of_prefix(s, (j + 1) as nat, s.len(), is_x);
}

/// Each point of the encoded glyph passes the checks of `verify` and moves by
/// the delta the encoder saw.
proof fn lemma_encoded_points(g: SimpleGlyph, s: Seq<OutlinePoint>, j: int)
    requires
        0 <= j < s.len(),
        forall|i: int| 0 <= i < s.len() ==> #[trigger] delta_fits(s, i),
        glyph_flags(g) == raw_flags(s),
        g.x_coords@ == coords_of(s, s.len(), true),
        g.y_coords@ == coords_of(s, s.len(), false),
    ensures
        pt_ok(g, glyph_flags(g), j),
        point_delta(g, j, true) == delta(s, j, true),
        point_delta(g, j, false) == delta(s, j, false),
        (glyph_flags(g)[j].0 & 1u8 != 0) == s[j].0,
{
    assert(delta_fits(s, j));
    lemma_point_code(s, j, true);
    lemma_point_code(s, j, false);
    lemma_coords_used_encoded(s, j as nat, true);
    lemma_coords_used_encoded(s, j as nat, false);
    lemma_coord_at(s, j, true);
    lemma_coord_at(s, j, false);
}

proof fn lemma_encoded_positions(g: SimpleGlyph, s: Seq<OutlinePoint>, n: nat)
    requires
        n <= s.len(),
        forall|i: int| 0 <= i < s.len() ==> #[trigger] delta_fits(s, i),
        glyph_flags(g) == raw_flags(s),
        g.x_coords@ == coords_of(s, s.len(), true),
        g.y_coords@ == coords_of(s, s.len(), false),
    ensures
        n == 0 ==> position(g, n, true) == 0 && position(g, n, false) == 0,
        n > 0 ==> position(g, n, true) == s[n - 1].1.0 && position(g, n, false) == s[n - 1].1.1,
    decreases n,
{
    if n > 0 {
        lemma_encoded_positions(g, s, (n - 1) as nat);
        lemma_encoded_points(g, s, n - 1);
    }
}

} // verus!

verus! {

pub open spec fn as_ipt(p: OutlinePoint) -> (bool, int, int) {
    (p.0, p.1.0 as int, p.1.1 as int)
}

proof fn lemma_is_line_eq(seg: QuadSegment<(fword, fword)>)
    ensures
        seg.spec_is_line() == (seg.control == seg.end),
{
}

/// Where an outline's points switch between on- and off-curve: the first
/// point is on the curve, and an off-curve point follows an on-curve one.
proof fn lemma_points_before_shape(b: QuadBezier<(fword, fword)>, k: nat)
    requires
        k <= b.segments@.len(),
    ensures
        b.points_before(k)[0].0,
        b.points_before(k).last().0,
        forall|t: int|
            0 < t < b.points_before(k).len() && !(#[trigger] b.points_before(k)[t]).0 ==> b.points_before(
                k,
            )[t - 1].0,
    decreases k,
{
    if k > 0 {
        lemma_points_before_shape(b, (k - 1) as nat);
        crate::curve::quad::lemma_points_before_len(b, (k - 1) as nat);
    }
}

proof fn lemma_points_shape(b: QuadBezier<(fword, fword)>)
    ensures
        b.points()[0].0,
        forall|t: int| 0 < t < b.points().len() && !(#[trigger] b.points()[t]).0 ==> b.points()[t - 1].0,
{
    let n = b.segments@.len();
    if n > 0 {
        lemma_points_before_shape(b, (n - 1) as nat);
        crate::curve::quad::lemma_points_before_len(b, (n - 1) as nat);
    }
}

/// What decoding needs of an outline to give it back: it is closed, ends
/// where it starts, and has at least two points.
pub open spec fn outline_round_trips(b: QuadBezier<(fword, fword)>) -> bool {
    &&& b.closed
    &&& b.segments@.len() > 0
    &&& b.segments@.last().end == b.start
    &&& b.points().len() >= 2
}

proof fn lemma_curve_state_prefix(b: QuadBezier<(fword, fword)>, pts: Seq<(bool, int, int)>, k: nat)
    requires
        k < b.segments@.len(),
        pts.len() == b.points().len(),
        forall|t: int| 0 <= t < pts.len() ==> pts[t] == as_ipt(#[trigger] b.points()[t]),
    ensures
        b.points_before(k).len() <= b.points().len(),
        curve_state(pts, (b.points_before(k).len() - 1) as nat) == (b.segments@.take(k as int), None::<(int, int)>),
    decreases k,
{
    let n = b.segments@.len();
    crate::curve::quad::lemma_points_before_prefix(b, k, (n - 1) as nat);
    crate::curve::quad::lemma_points_before_len(b, k);
    if k == 0 {
        assert(b.segments@.take(0) =~= Seq::<QuadSegment<(fword, fword)>>::empty());
    } else {
        lemma_curve_state_prefix(b, pts, (k - 1) as nat);
        crate::curve::quad::lemma_points_before_prefix(b, (k - 1) as nat, (n - 1) as nat);
        crate::curve::quad::lemma_points_before_len(b, (k - 1) as nat);
        let seg = b.segments@[k - 1];
        lemma_is_line_eq(seg);
        let m = b.points_before((k - 1) as nat).len() - 1;
        let pb = b.points_before(k);
        assert(pb == b.points_before((k - 1) as nat) + seg_points(seg, false));
        assert(b.segments@.take(k as int) =~= b.segments@.take(k - 1).push(seg));
        assert(b.points() == b.points_before((n - 1) as nat) + seg_points(b.segments@[n - 1], b.closed));
        assert(b.points()[m + 1] == pb[m + 1]);
        assert(pts[m + 1] == as_ipt(b.points()[m + 1]));
        if seg.spec_is_line() {
            assert(pb[m + 1] == (true, seg.end));
            assert(seg_to((seg.end.0 as int, seg.end.1 as int), (seg.end.0 as int, seg.end.1 as int))
                == seg);
        } else {
            assert(b.points()[m + 2] == pb[m + 2]);
            assert(pts[m + 2] == as_ipt(b.points()[m + 2]));
            assert(pb[m + 1] == (false, seg.control));
            assert(pb[m + 2] == (true, seg.end));
            assert(curve_state(pts, (m + 1) as nat) == (b.segments@.take(k - 1), Some(
                (seg.control.0 as int, seg.control.1 as int),
            )));
            assert(seg_to(
                (seg.control.0 as int, seg.control.1 as int),
                (seg.end.0 as int, seg.end.1 as int),
            ) == seg);
        }
    }
}

/// Decoding the points of an outline that ends where it starts rebuilds its
/// segments.
proof fn lemma_curve_round_trip(b: QuadBezier<(fword, fword)>, pts: Seq<(bool, int, int)>)
    requires
        outline_round_trips(b),
        pts.len() == b.points().len(),
        forall|t: int| 0 <= t < pts.len() ==> pts[t] == as_ipt(#[trigger] b.points()[t]),
    ensures
        curve_segments(pts) == b.segments@,
        to_point(pts[0].1, pts[0].2) == b.start,
{
    let n = b.segments@.len();
    lemma_curve_state_prefix(b, pts, (n - 1) as nat);
    crate::curve::quad::lemma_points_before_len(b, (n - 1) as nat);
    crate::curve::quad::lemma_points_before_prefix(b, 0, (n - 1) as nat);
    let last = b.segments@[n - 1];
    lemma_is_line_eq(last);
    let m = b.points_before((n - 1) as nat).len() - 1;
    assert(pts[0] == as_ipt(b.points()[0]));
    assert(b.segments@ =~= b.segments@.take(n - 1).push(last));
    if last.spec_is_line() {
        assert(pts.len() - 1 == m);
        assert(seg_to((b.start.0 as int, b.start.1 as int), (b.start.0 as int, b.start.1 as int))
            == last);
    } else {
        assert(pts.len() - 1 == m + 1);
        assert(pts[m + 1] == as_ipt(b.points()[m + 1]));
        assert(b.points()[m + 1] == (false, last.control));
        assert(seg_to(
            (last.control.0 as int, last.control.1 as int),
            (b.start.0 as int, b.start.1 as int),
        ) == last);
    }
}

} // verus!

verus! {

/// The outlines that decoding gives back after encoding, and the glyph that
/// encoding made of them.
pub open spec fn round_trip_input(outlines: Seq<QuadBezier<(fword, fword)>>, g: SimpleGlyph) -> bool {
    &&& encoded_input(outlines, g)
    &&& forall|c: int| 0 <= c < outlines.len() ==> outline_round_trips(#[trigger] outlines[c])
}

/// `g` is what `encode` gives for `outlines`, which it accepts, and which
/// have at most 32767 outlines and fewer than 65536 points in all.
pub open spec fn encoded_input(outlines: Seq<QuadBezier<(fword, fword)>>, g: SimpleGlyph) -> bool {
    &&& encodable(outlines)
    &&& first_open(outlines) == outlines.len()
    &&& outlines.len() <= 0x7fff
    &&& points_upto(outlines, outlines.len()) < 0x1_0000
    &&& encoded_glyph_matches(g, outlines)
}

proof fn lemma_all_closed(outlines: Seq<QuadBezier<(fword, fword)>>)
    requires
        forall|c: int| 0 <= c < outlines.len() ==> outline_round_trips(#[trigger] outlines[c]),
    ensures
        first_open(outlines) == outlines.len(),
{
    lemma_first_open(outlines);
    if first_open(outlines) < outlines.len() {
        assert(outline_round_trips(outlines[first_open(outlines) as int]));
    }
}

proof fn lemma_glyph_point_encoded(g: SimpleGlyph, s: Seq<OutlinePoint>, j: int)
    requires
        0 <= j < s.len(),
        forall|i: int| 0 <= i < s.len() ==> #[trigger] delta_fits(s, i),
        glyph_flags(g) == raw_flags(s),
        g.x_coords@ == coords_of(s, s.len(), true),
        g.y_coords@ == coords_of(s, s.len(), false),
    ensures
        glyph_point(g, j) == as_ipt(s[j]),
{
    lemma_encoded_points(g, s, j);
    lemma_encoded_positions(g, s, (j + 1) as nat);
}

proof fn lemma_encoded_verify(outlines: Seq<QuadBezier<(fword, fword)>>, g: SimpleGlyph)
    requires
        encoded_input(outlines, g),
    ensures
        g.verify_result() == Ok::<(), SimpleGlyphVerifyError>(()),
        expand_flags(g.flags@).len() < 0x1_0000,
{
    let n = outlines.len();
    let s = stream(outlines, n);
    let fs = g.flags@;
    let fl = glyph_flags(g);
    assert forall|j: int| 0 <= j < fl.len() implies #[trigger] pt_ok(g, fl, j) by {
        lemma_encoded_points(g, s, j);
    }
    assert forall|t: int| 0 <= t < fs.len() implies (#[trigger] fs[t]).flag().0 & 0b1000u8 == 0 by {
        lemma_flag_in_entry(fs, t, 0);
        let idx = expand_flags(fs.take(t)).len() as int;
        assert(delta_fits(s, idx));
        lemma_point_code(s, idx, true);
    }
    lemma_scan(g, fs.len());
    assert(fs.take(fs.len() as int) =~= fs);
    lemma_coords_used_encoded(s, s.len(), true);
    lemma_coords_used_encoded(s, s.len(), false);
    assert(g.end_points_of_countours@[n - 1] == end_point(outlines, (n - 1) as nat));
    assert(points_upto(outlines, n as nat) % 0x1_0000 != 0);
}

proof fn lemma_points_upto_positive(outlines: Seq<QuadBezier<(fword, fword)>>, c: nat)
    requires
        1 <= c <= outlines.len(),
    ensures
        points_upto(outlines, c) >= 1,
{
    lemma_stream_prefix(outlines, 1, c);
    lemma_points_nonempty(outlines[0]);
    assert(stream(outlines, 1) =~= stream(outlines, 0) + outlines[0].points());
}

proof fn lemma_encoded_contour(outlines: Seq<QuadBezier<(fword, fword)>>, g: SimpleGlyph, c: int)
    requires
        encoded_input(outlines, g),
        0 <= c < outlines.len(),
    ensures
        contour_start(g, c) == points_upto(outlines, c as nat),
        g.end_points_of_countours@[c] == points_upto(outlines, (c + 1) as nat) - 1,
        contour_points(g, c).len() == outlines[c].points().len(),
        forall|k: int|
            0 <= k < contour_points(g, c).len() ==> #[trigger] contour_points(g, c)[k] == as_ipt(
                outlines[c].points()[k],
            ),
{
    let n = outlines.len();
    
    let s = stream(outlines, n);
    lemma_stream_segment(outlines, c as nat, n);
    lemma_stream_prefix(outlines, (c + 1) as nat, n);
    lemma_points_upto_positive(outlines, (c + 1) as nat);
    assert(g.end_points_of_countours@[c] == end_point(outlines, c as nat));
    if c > 0 {
        assert(g.end_points_of_countours@[c - 1] == end_point(outlines, (c - 1) as nat));
        lemma_points_upto_positive(outlines, c as nat);
        lemma_stream_prefix(outlines, c as nat, n);
    }
    let pts = contour_points(g, c);
    assert forall|k: int| 0 <= k < pts.len() implies #[trigger] pts[k] == as_ipt(outlines[c].points()[k]) by {
        lemma_glyph_point_encoded(g, s, points_upto(outlines, c as nat) + k);
    }
}

proof fn lemma_locate(outlines: Seq<QuadBezier<(fword, fword)>>, k: nat, i: int)
    requires
        k <= outlines.len(),
        0 <= i < points_upto(outlines, k),
    ensures
        exists|c: int| 0 <= c < k && points_upto(outlines, c as nat) <= i < #[trigger] points_upto(outlines, (c + 1) as nat),
    decreases k,
{
    if k > 0 {
        if i >= points_upto(outlines, (k - 1) as nat) {
            let c: int = k - 1;
            assert((c + 1) as nat == k);
            assert(points_upto(outlines, c as nat) <= i < points_upto(outlines, (c + 1) as nat));
        } else {
            lemma_locate(outlines, (k - 1) as nat, i);
        }
    }
}

proof fn lemma_encoded_decodable(outlines: Seq<QuadBezier<(fword, fword)>>, g: SimpleGlyph)
    requires
        round_trip_input(outlines, g),
    ensures
        decodable(g),
{
    let n = outlines.len();
    lemma_all_closed(outlines);
    lemma_encoded_verify(outlines, g);
    let s = stream(outlines, n);
    let ends = g.end_points_of_countours@;
    assert(g.spec_n_points() == s.len()) by {
        lemma_encoded_contour(outlines, g, n - 1);
    }
    assert forall|c: int| 0 <= c < ends.len() implies #[trigger] contour_start(g, c) + 1 <= ends[c] by {
        lemma_encoded_contour(outlines, g, c);
        lemma_stream_segment(outlines, c as nat, n);
        assert(outline_round_trips(outlines[c]));
    }
    assert forall|c: int| 0 <= c < ends.len() implies (#[trigger] glyph_point(g, contour_start(g, c))).0 by {
        lemma_encoded_contour(outlines, g, c);
        lemma_points_shape(outlines[c]);
        assert(contour_points(g, c)[0] == as_ipt(outlines[c].points()[0]));
    }
    assert forall|i: nat| 1 <= i <= g.spec_n_points() implies fits_i16(#[trigger] position(g, i, true))
        && fits_i16(position(g, i, false)) by {
        lemma_encoded_positions(g, s, i);
    }
    assert forall|i: int| 1 <= i < g.spec_n_points() && !glyph_point(g, i - 1).0 && !(
    #[trigger] glyph_point(g, i)).0 implies {
        &&& fits_i16(glyph_point(g, i - 1).1 + glyph_point(g, i).1)
        &&& fits_i16(glyph_point(g, i - 1).2 + glyph_point(g, i).2)
    } by {
        lemma_locate(outlines, n, i);
        let c = choose|c: int| 0 <= c < n && points_upto(outlines, c as nat) <= i < #[trigger] points_upto(outlines, (c + 1) as nat);
        lemma_encoded_contour(outlines, g, c);
        lemma_points_shape(outlines[c]);
        let t = i - points_upto(outlines, c as nat);
        assert(contour_points(g, c)[t] == glyph_point(g, i));
        if t > 0 {
            assert(contour_points(g, c)[t - 1] == glyph_point(g, i - 1));
            assert(!outlines[c].points()[t].0);
        } else {
            assert(outlines[c].points()[0].0);
        }
    }
}

/// Encoding closed outlines and decoding the glyph gives the outlines back:
/// the glyph passes `verify`, meets what `decode` needs, and every curve
/// that `decode` can give equals the outline it came from. This holds for
/// outlines that end where they start and have at least two points each,
/// with at most 32767 outlines and fewer than 65536 points in all.
pub proof fn lemma_encode_decode_round_trip(
    outlines: Seq<QuadBezier<(fword, fword)>>,
    g: SimpleGlyph,
    curves: Seq<QuadBezier<(fword, fword)>>,
)
    requires
        encodable(outlines),
        forall|c: int| 0 <= c < outlines.len() ==> outline_round_trips(#[trigger] outlines[c]),
        outlines.len() <= 0x7fff,
        points_upto(outlines, outlines.len()) < 0x1_0000,
        encoded_glyph_matches(g, outlines),
    ensures
        first_open(outlines) == outlines.len(),
        expand_flags(g.flags@).len() <= usize::MAX,
        g.verify_result() == Ok::<(), SimpleGlyphVerifyError>(()),
        decodable(g),
        decoded_matches(curves, g) ==> {
            &&& curves.len() == outlines.len()
            &&& forall|c: int|
                0 <= c < curves.len() ==> {
                    &&& (#[trigger] curves[c]).start == outlines[c].start
                    &&& curves[c].segments@ == outlines[c].segments@
                    &&& curves[c].closed == outlines[c].closed
                }
        },
{
    lemma_all_closed(outlines);
    lemma_encoded_verify(outlines, g);
    lemma_encoded_decodable(outlines, g);
    if decoded_matches(curves, g) {
        assert forall|c: int| 0 <= c < curves.len() implies {
            &&& (#[trigger] curves[c]).start == outlines[c].start
            &&& curves[c].segments@ == outlines[c].segments@
            &&& curves[c].closed == outlines[c].closed
        } by {
            lemma_encoded_contour(outlines, g, c);
            assert(outline_round_trips(outlines[c]));
            lemma_curve_round_trip(outlines[c], contour_points(g, c));
        }
    }
}

/// A glyph that `encode` gives passes `verify`: for every list of outlines
/// that `encode` accepts (all closed, with coordinate steps that fit), with
/// at most 32767 outlines and fewer than 65536 points in all.
pub proof fn lemma_encoded_glyph_verifies(outlines: Seq<QuadBezier<(fword, fword)>>, g: SimpleGlyph)
    requires
        encodable(outlines),
        first_open(outlines) == outlines.len(),
        outlines.len() <= 0x7fff,
        points_upto(outlines, outlines.len()) < 0x1_0000,
        encoded_glyph_matches(g, outlines),
    ensures
        g.verify_result() == Ok::<(), SimpleGlyphVerifyError>(()),
{
    lemma_encoded_verify(outlines, g);
}


/// The bounding box of the origin and the first `n` points holds each of
/// them, and each of its bounds is a coordinate of one of them or zero.
proof fn lemma_bbox_bounds(s: Seq<OutlinePoint>, n: nat)
    requires
        n <= s.len(),
    ensures
        ({
            let b = bbox(s, n);
            &&& b.x_min <= 0 <= b.x_max
            &&& b.y_min <= 0 <= b.y_max
            &&& forall|j: int|
                0 <= j < n ==> b.x_min <= (#[trigger] s[j]).1.0 <= b.x_max && b.y_min <= s[j].1.1
                    <= b.y_max
            &&& b.x_min == 0 || exists|j: int| 0 <= j < n && (#[trigger] s[j]).1.0 == b.x_min
            &&& b.x_max == 0 || exists|j: int| 0 <= j < n && (#[trigger] s[j]).1.0 == b.x_max
            &&& b.y_min == 0 || exists|j: int| 0 <= j < n && (#[trigger] s[j]).1.1 == b.y_min
            &&& b.y_max == 0 || exists|j: int| 0 <= j < n && (#[trigger] s[j]).1.1 == b.y_max
        }),
    decreases n,
{
    if n > 0 {
        lemma_bbox_bounds(s, (n - 1) as nat);
        let p = bbox(s, (n - 1) as nat);
        let b = bbox(s, n);
        let last = s[n - 1];
        if b.x_min != 0 && b.x_min != last.1.0 {
            let j = choose|j: int| 0 <= j < n - 1 && (#[trigger] s[j]).1.0 == p.x_min;
            assert(s[j].1.0 == b.x_min);
        }
        if b.x_max != 0 && b.x_max != last.1.0 {
            let j = choose|j: int| 0 <= j < n - 1 && (#[trigger] s[j]).1.0 == p.x_max;
            assert(s[j].1.0 == b.x_max);
        }
        if b.y_min != 0 && b.y_min != last.1.1 {
            let j = choose|j: int| 0 <= j < n - 1 && (#[trigger] s[j]).1.1 == p.y_min;
            assert(s[j].1.1 == b.y_min);
        }
        if b.y_max != 0 && b.y_max != last.1.1 {
            let j = choose|j: int| 0 <= j < n - 1 && (#[trigger] s[j]).1.1 == p.y_max;
            assert(s[j].1.1 == b.y_max);
        }
        if b.x_min == last.1.0 || b.x_max == last.1.0 || b.y_min == last.1.1 || b.y_max == last.1.1 {
            assert(s[n - 1] == last);
        }
    }
}

/// The bounding box that `encode` stores holds every point of every
/// outline, on the curve or off it (a control point counts as much as an
/// end point), and the origin; and each of its bounds is a coordinate of
/// one of these points, or zero.
pub proof fn lemma_encoded_bbox(outlines: Seq<QuadBezier<(fword, fword)>>, g: SimpleGlyph)
    requires
        encoded_glyph_matches(g, outlines),
    ensures
        g.common.x_min <= 0 <= g.common.x_max,
        g.common.y_min <= 0 <= g.common.y_max,
        forall|c: int, k: int|
            0 <= c < outlines.len() && 0 <= k < outlines[c].points().len() ==> {
                let (x, y) = (#[trigger] outlines[c].points()[k]).1;
                &&& g.common.x_min <= x <= g.common.x_max
                &&& g.common.y_min <= y <= g.common.y_max
            },
        g.common.x_min == 0 || exists|c: int, k: int|
            0 <= c < outlines.len() && 0 <= k < outlines[c].points().len() && (
            #[trigger] outlines[c].points()[k]).1.0 == g.common.x_min,
        g.common.x_max == 0 || exists|c: int, k: int|
            0 <= c < outlines.len() && 0 <= k < outlines[c].points().len() && (
            #[trigger] outlines[c].points()[k]).1.0 == g.common.x_max,
        g.common.y_min == 0 || exists|c: int, k: int|
            0 <= c < outlines.len() && 0 <= k < outlines[c].points().len() && (
            #[trigger] outlines[c].points()[k]).1.1 == g.common.y_min,
        g.common.y_max == 0 || exists|c: int, k: int|
            0 <= c < outlines.len() && 0 <= k < outlines[c].points().len() && (
            #[trigger] outlines[c].points()[k]).1.1 == g.common.y_max,
{
    let n = outlines.len();
    let s = stream(outlines, n);
    lemma_bbox_bounds(s, s.len());
    assert forall|c: int, k: int|
        0 <= c < outlines.len() && 0 <= k < outlines[c].points().len() implies {
            let (x, y) = (#[trigger] outlines[c].points()[k]).1;
            &&& g.common.x_min <= x <= g.common.x_max
            &&& g.common.y_min <= y <= g.common.y_max
        } by {
        lemma_stream_segment(outlines, c as nat, n);
        assert(s[points_upto(outlines, c as nat) + k] == outlines[c].points()[k]);
    }
    if g.common.x_min != 0 {
        let j = choose|j: int| 0 <= j < s.len() && (#[trigger] s[j]).1.0 == g.common.x_min;
        lemma_point_of_stream(outlines, j);
    }
    if g.common.x_max != 0 {
        let j = choose|j: int| 0 <= j < s.len() && (#[trigger] s[j]).1.0 == g.common.x_max;
        lemma_point_of_stream(outlines, j);
    }
    if g.common.y_min != 0 {
        let j = choose|j: int| 0 <= j < s.len() && (#[trigger] s[j]).1.1 == g.common.y_min;
        lemma_point_of_stream(outlines, j);
    }
    if g.common.y_max != 0 {
        let j = choose|j: int| 0 <= j < s.len() && (#[trigger] s[j]).1.1 == g.common.y_max;
        lemma_point_of_stream(outlines, j);
    }
}

/// Every point of the stream is a point of one of the outlines.
proof fn lemma_point_of_stream(outlines: Seq<QuadBezier<(fword, fword)>>, j: int)
    requires
        0 <= j < stream(outlines, outlines.len()).len(),
    ensures
        exists|c: int, k: int|
            0 <= c < outlines.len() && 0 <= k < outlines[c].points().len() && #[trigger] outlines[c].points()[k]
                == stream(outlines, outlines.len())[j],
{
    let n = outlines.len();
    lemma_locate(outlines, n, j);
    let c = choose|c: int|
        0 <= c < n && points_upto(outlines, c as nat) <= j < #[trigger] points_upto(outlines, (c + 1) as nat);
    lemma_stream_segment(outlines, c as nat, n);
    let k = j - points_upto(outlines, c as nat);
    assert(outlines[c].points()[k] == stream(outlines, n)[j]);
}


/// The glyph that `encode` gives holds every outline it accepts, whether or
/// not the outline ends where it starts: read back from the glyph's flags
/// and coordinates, contour `c` is the points of outline `c`, on the curve
/// or off it, in order, and ends at the index the glyph records. This holds
/// for at most 32767 outlines and fewer than 65536 points in all.
pub proof fn lemma_encoded_contours(outlines: Seq<QuadBezier<(fword, fword)>>, g: SimpleGlyph)
    requires
        encodable(outlines),
        first_open(outlines) == outlines.len(),
        outlines.len() <= 0x7fff,
        points_upto(outlines, outlines.len()) < 0x1_0000,
        encoded_glyph_matches(g, outlines),
    ensures
        g.end_points_of_countours@.len() == outlines.len(),
        forall|c: int|
            0 <= c < outlines.len() ==> #[trigger] g.end_points_of_countours@[c] == points_upto(
                outlines,
                (c + 1) as nat,
            ) - 1,
        forall|c: int|
            0 <= c < outlines.len() ==> (#[trigger] contour_points(g, c)).len()
                == outlines[c].points().len(),
        forall|c: int, k: int|
            0 <= c < outlines.len() && 0 <= k < outlines[c].points().len() ==> #[trigger] contour_points(
                g,
                c,
            )[k] == as_ipt(outlines[c].points()[k]),
{
    assert forall|c: int| 0 <= c < outlines.len() implies #[trigger] g.end_points_of_countours@[c]
        == points_upto(outlines, (c + 1) as nat) - 1 by {
        lemma_encoded_contour(outlines, g, c);
    }
    assert forall|c: int| 0 <= c < outlines.len() implies (#[trigger] contour_points(g, c)).len()
        == outlines[c].points().len() by {
        lemma_encoded_contour(outlines, g, c);
    }
    assert forall|c: int, k: int|
        0 <= c < outlines.len() && 0 <= k < outlines[c].points().len() implies #[trigger] contour_points(
        g,
        c,
    )[k] == as_ipt(outlines[c].points()[k]) by {
        lemma_encoded_contour(outlines, g, c);
    }
}

} // verus!
