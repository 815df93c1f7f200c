//! Quadratic bezier curves.
use vstd::prelude::*;
use vstd::std_specs::cmp::PartialEqSpec;

verus! {

/// A quadratic bezier segment, with `P` as the point type.
#[derive(Debug, Clone, Copy, PartialEq)]
pub struct QuadSegment<P> {
    /// The control point. If the segment is a straight line, this point should
    /// be the same as `end`.
    pub control: P,
    /// The end point of the segment.
    pub end: P,
}

impl<P: PartialEq> QuadSegment<P> {
    /// Whether the control point equals the end point.
    pub open spec fn spec_is_line(&self) -> bool {
        self.control.eq_spec(&self.end)
    }
}

impl<P: Eq> QuadSegment<P> {
    pub fn is_line(&self) -> (r: bool)
        ensures
            P::obeys_eq_spec() ==> r == self.spec_is_line(),
    {
        self.control == self.end
    }
}

/// A curve of quadratic segments, with `P` as the point type.
#[derive(Debug, Clone, PartialEq)]
pub struct QuadBezier<P> {
    /// The start point of the curve.
    pub start: P,
    /// The segments of the curve.
    pub segments: Vec<QuadSegment<P>>,
    /// Whether the curve is closed.
    pub closed: bool,
}

/// The points that a segment contributes to the point list: its control
/// point unless the segment is a line, then its end point unless
/// `omit_end`.
pub open spec fn seg_points<P: PartialEq>(seg: QuadSegment<P>, omit_end: bool) -> Seq<(bool, P)> {
    (if seg.spec_is_line() {
        Seq::empty()
    } else {
        seq![(false, seg.control)]
    }) + (if omit_end {
        Seq::empty()
    } else {
        seq![(true, seg.end)]
    })
}

impl<P: PartialEq> QuadBezier<P> {
    /// The start point followed by the points of the first `k` segments.
    pub open spec fn points_before(&self, k: nat) -> Seq<(bool, P)>
        decreases k,
    {
        if k == 0 {
            seq![(true, self.start)]
        } else {
            self.points_before((k - 1) as nat) + seg_points(self.segments@[k - 1], false)
        }
    }

    /// The points of the curve, each with whether it is on the curve. A
    /// closed curve leaves out the end of its last segment, which is where
    /// the curve starts again.
    pub open spec fn points(&self) -> Seq<(bool, P)> {
        let n = self.segments@.len();
        if n == 0 {
            seq![(true, self.start)]
        } else {
            self.points_before((n - 1) as nat) + seg_points(self.segments@[n - 1], self.closed)
        }
    }
}

impl<P: Copy> QuadBezier<P> {
    /// Converts the curve to a curve with a different point type.
    /// Often used to downsample a curve.
    pub fn cast<P1, F: Fn(P) -> P1>(&self, cast: F) -> (r: QuadBezier<P1>)
        requires
            forall|p: P| cast.requires((p,)),
        ensures
            cast.ensures((self.start,), r.start),
            r.closed == self.closed,
            r.segments@.len() == self.segments@.len(),
            forall|i: int|
                0 <= i < self.segments@.len() ==> {
                    &&& cast.ensures((self.segments@[i].control,), #[trigger] r.segments@[i].control)
                    &&& cast.ensures((self.segments@[i].end,), r.segments@[i].end)
                },
    {
        let mut segments: Vec<QuadSegment<P1>> = Vec::new();
        let mut i: usize = 0;
        while i < self.segments.len()
            invariant
                i <= self.segments@.len(),
                segments@.len() == i,
                forall|p: P| cast.requires((p,)),
                forall|j: int|
                    0 <= j < i ==> {
                        &&& cast.ensures((self.segments@[j].control,), #[trigger] segments@[j].control)
                        &&& cast.ensures((self.segments@[j].end,), segments@[j].end)
                    },
            decreases self.segments@.len() - i,
        {
            let seg = &self.segments[i];
            let control = cast(seg.control);
            let end = cast(seg.end);
            segments.push(QuadSegment { control, end });
            i = i + 1;
        }
        QuadBezier { start: cast(self.start), segments, closed: self.closed }
    }

    pub fn builder(start: P) -> (r: QuadBezierBuilder<P>)
        ensures
            r.partial().start == start,
            r.partial().segments@ == Seq::<QuadSegment<P>>::empty(),
            !r.partial().closed,
    {
        QuadBezierBuilder::new(start)
    }
}

impl<P: Copy + PartialEq> QuadBezier<P> {
    pub fn iter(&self) -> (r: QuadBezierPointIter<'_, P>)
        requires
            self.segments@.len() < usize::MAX,
        ensures
            r.curve() == self,
            r.pos() == 0,
            r.well_formed(),
    {
        QuadBezierPointIter { curve: self, current_segment: 0, is_off_curve: false }
    }
}

/// Builds a curve segment by segment.
pub struct QuadBezierBuilder<P> {
    bezier: QuadBezier<P>,
}

impl<P> QuadBezierBuilder<P> {
    /// The curve built so far.
    pub closed spec fn partial(&self) -> QuadBezier<P> {
        self.bezier
    }
}

impl<P: Copy> QuadBezierBuilder<P> {
    pub fn new(start: P) -> (r: Self)
        ensures
            r.partial().start == start,
            r.partial().segments@ == Seq::<QuadSegment<P>>::empty(),
            !r.partial().closed,
    {
        QuadBezierBuilder { bezier: QuadBezier { start, segments: Vec::new(), closed: false } }
    }

    /// Appends a straight segment to `end`.
    pub fn line_to(&mut self, end: P) -> (r: &mut Self)
        ensures
            r.partial().start == old(self).partial().start,
            r.partial().closed == old(self).partial().closed,
            r.partial().segments@ == old(self).partial().segments@.push(
                QuadSegment { control: end, end },
            ),
            *final(self) == *final(r),
    {
        self.bezier.segments.push(QuadSegment { control: end, end });
        self
    }

    /// Appends a curved segment through `control` to `end`.
    pub fn quad_to(&mut self, control: P, end: P) -> (r: &mut Self)
        ensures
            r.partial().start == old(self).partial().start,
            r.partial().closed == old(self).partial().closed,
            r.partial().segments@ == old(self).partial().segments@.push(QuadSegment { control, end }),
            *final(self) == *final(r),
    {
        self.bezier.segments.push(QuadSegment { control, end });
        self
    }

    /// Marks the curve closed.
    pub fn close(&mut self) -> (r: &mut Self)
        ensures
            r.partial().start == old(self).partial().start,
            r.partial().closed,
            r.partial().segments@ == old(self).partial().segments@,
            *final(self) == *final(r),
    {
        self.bezier.closed = true;
        self
    }

    pub fn build(self) -> (r: QuadBezier<P>)
        ensures
            r.start == self.partial().start,
            r.segments@ == self.partial().segments@,
            r.closed == self.partial().closed,
    {
        self.bezier
    }
}

/// Walks the points of a curve in order (see [`QuadBezier::points`]).
pub struct QuadBezierPointIter<'a, P> {
    curve: &'a QuadBezier<P>,
    /// Start point is seg 0, segments start from 1
    current_segment: usize,
    /// Whether the upcoming point is the off-curve point of the current segment.
    /// The off-curve should be outputted before the on-curve point.
    is_off_curve: bool,
}

impl<'a, P: PartialEq> QuadBezierPointIter<'a, P> {
    pub closed spec fn curve(&self) -> &'a QuadBezier<P> {
        self.curve
    }

    /// How many points have been handed out.
    pub closed spec fn pos(&self) -> nat {
        if self.current_segment == 0 {
            0
        } else {
            self.curve.points_before((self.current_segment - 1) as nat).len() + (if self.is_off_curve {
                0nat
            } else {
                1nat
            })
        }
    }

    /// The position fields describe a place in the point list.
    pub closed spec fn well_formed(&self) -> bool {
        let n = self.curve.segments@.len();
        &&& self.current_segment <= n + 1
        &&& self.current_segment > 0 && !self.is_off_curve ==> {
            &&& self.current_segment - 1 < n
            &&& !self.curve.segments@[self.current_segment - 1].spec_is_line()
        }
        &&& self.curve.closed && n > 0 ==> self.current_segment <= n
        &&& n < usize::MAX
    }
}

pub proof fn lemma_points_before_len<P: PartialEq>(c: QuadBezier<P>, k: nat)
    ensures
        c.points_before(k).len() >= 1,
    decreases k,
{
    if k > 0 {
        lemma_points_before_len(c, (k - 1) as nat);
    }
}

impl<'a, P: Copy + Eq> QuadBezierPointIter<'a, P> {
    /// Hands out the next point, or `None` once all points were handed out.
    pub fn next(&mut self) -> (r: Option<(bool, P)>)
        requires
            P::obeys_eq_spec(),
            old(self).well_formed(),
        ensures
            final(self).curve() == old(self).curve(),
            final(self).well_formed(),
            old(self).pos() < old(self).curve().points().len() ==> {
                &&& r == Some(old(self).curve().points()[old(self).pos() as int])
                &&& final(self).pos() == old(self).pos() + 1
            },
            old(self).pos() >= old(self).curve().points().len() ==> {
                &&& r is None
                &&& final(self).pos() == old(self).pos()
            },
    {
        let curve = self.curve;
        let ghost n = curve.segments@.len();
        let ghost pts = curve.points();
        proof {
            if n > 0 {
                lemma_points_before_prefix(*curve, 0, (n - 1) as nat);
            }
        }
        if self.current_segment == 0 {
            assert(pts[0] == (true, curve.start));
            *self = QuadBezierPointIter { curve, current_segment: 1, is_off_curve: true };
            Some((true, curve.start))
        } else {
            let seg_id = self.current_segment - 1;
            if seg_id >= curve.segments.len() {
                return None;
            }
            let seg = &curve.segments[seg_id];
            proof {
                lemma_points_before_prefix(*curve, seg_id as nat, (n - 1) as nat);
                lemma_points_before_len(*curve, seg_id as nat);
            }
            if seg.is_line() || !self.is_off_curve {
                // If we're on the last segment and it's a closed curve, we
                // should omit the last point.
                if seg_id == curve.segments.len() - 1 && curve.closed {
                    assert(old(self).pos() == pts.len());
                    return None;
                }
                proof {
                    if seg_id + 1 <= n - 1 {
                        lemma_points_before_prefix(*curve, seg_id as nat + 1, (n - 1) as nat);
                    }
                    assert(curve.points_before(seg_id as nat + 1) == curve.points_before(seg_id as nat)
                        + seg_points(curve.segments@[seg_id as int], false));
                    let j = curve.points_before(seg_id as nat + 1).len() - 1;
                    assert(curve.points_before(seg_id as nat + 1)[j] == (true, seg.end));
                    if seg_id + 1 == n {
                        assert(pts =~= curve.points_before(n));
                    }
                    assert(j == old(self).pos());
                    assert(pts[j] == (true, seg.end));
                }
                *self = QuadBezierPointIter {
                    curve,
                    current_segment: self.current_segment + 1,
                    is_off_curve: true,
                };
                Some((true, seg.end))
            } else {
                proof {
                    let j = curve.points_before(seg_id as nat).len() as int;
                    if seg_id + 1 <= n - 1 {
                        lemma_points_before_prefix(*curve, seg_id as nat + 1, (n - 1) as nat);
                    }
                    assert(curve.points_before(seg_id as nat + 1) == curve.points_before(seg_id as nat)
                        + seg_points(curve.segments@[seg_id as int], false));
                    assert(curve.points_before(seg_id as nat + 1)[j] == (false, seg.control));
                    assert(pts[j] == (false, seg.control));
                }
                *self = QuadBezierPointIter {
                    curve,
                    current_segment: self.current_segment,
                    is_off_curve: false,
                };
                Some((false, seg.control))
            }
        }
    }
}

pub proof fn lemma_points_before_prefix<P: PartialEq>(c: QuadBezier<P>, a: nat, b: nat)
    requires
        a <= b,
    ensures
        c.points_before(a).len() <= c.points_before(b).len(),
        forall|i: int|
            0 <= i < c.points_before(a).len() ==> c.points_before(b)[i] == c.points_before(a)[i],
    decreases b,
{
    if a < b {
        lemma_points_before_prefix(c, a, (b - 1) as nat);
    }
}

} // verus!
