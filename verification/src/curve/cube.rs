//! Cubic bezier curves.
use vstd::prelude::*;

verus! {

/// A cubic bezier segment: a straight line to a point, or a curve through
/// two control points to its end.
#[derive(Clone, Copy, Debug, PartialEq)]
pub enum CubicSegment<P> {
    Line(P),
    Curve(P, P, P),
}

/// The points a segment holds, in order.
pub open spec fn cubic_seg_points<P>(seg: CubicSegment<P>) -> Seq<P> {
    match seg {
        CubicSegment::Line(p) => seq![p],
        CubicSegment::Curve(a, b, c) => seq![a, b, c],
    }
}

impl<P> CubicSegment<P> {
    pub fn is_line(&self) -> (r: bool)
        ensures
            r == self is Line,
    {
        match self {
            CubicSegment::Line(_) => true,
            CubicSegment::Curve(_, _, _) => false,
        }
    }

    /// The number of points the segment holds: 1 for a line, 3 for a curve.
    pub fn points_count(&self) -> (r: usize)
        ensures
            r == cubic_seg_points(*self).len(),
    {
        match self {
            CubicSegment::Line(_) => 1,
            CubicSegment::Curve(_, _, _) => 3,
        }
    }
}

/// A curve of cubic segments, with `P` as the point type.
#[derive(Clone, Debug, PartialEq)]
pub struct CubicBezier<P> {
    pub start: P,
    pub segments: Vec<CubicSegment<P>>,
    pub closed: bool,
}

impl<P> CubicBezier<P> {
    /// The points of the first `k` segments, in order.
    pub open spec fn points_before(&self, k: nat) -> Seq<P>
        decreases k,
    {
        if k == 0 || k > self.segments@.len() {
            seq![]
        } else {
            self.points_before((k - 1) as nat) + cubic_seg_points(self.segments@[k - 1])
        }
    }

    /// The points of all segments, in order; the start point is not among
    /// them.
    pub open spec fn points(&self) -> Seq<P> {
        self.points_before(self.segments@.len())
    }
}

impl<P: Copy> CubicBezier<P> {
    /// Converts the curve to a curve with a different point type.
    pub fn cast<P1, F: Fn(P) -> P1>(&self, cast: F) -> (r: CubicBezier<P1>)
        requires
            forall|p: P| cast.requires((p,)),
        ensures
            cast.ensures((self.start,), r.start),
            r.closed == self.closed,
            r.segments@.len() == self.segments@.len(),
            forall|i: int|
                0 <= i < self.segments@.len() ==> match (self.segments@[i], #[trigger] r.segments@[i]) {
                    (CubicSegment::Line(p), CubicSegment::Line(q)) => cast.ensures((p,), q),
                    (CubicSegment::Curve(a, b, c), CubicSegment::Curve(x, y, z)) => {
                        &&& cast.ensures((a,), x)
                        &&& cast.ensures((b,), y)
                        &&& cast.ensures((c,), z)
                    },
                    _ => false,
                },
    {
        let mut segments: Vec<CubicSegment<P1>> = Vec::new();
        let mut i: usize = 0;
        while i < self.segments.len()
            invariant
                i <= self.segments@.len(),
                segments@.len() == i,
                forall|p: P| cast.requires((p,)),
                forall|j: int|
                    0 <= j < i ==> match (self.segments@[j], #[trigger] segments@[j]) {
                        (CubicSegment::Line(p), CubicSegment::Line(q)) => cast.ensures((p,), q),
                        (CubicSegment::Curve(a, b, c), CubicSegment::Curve(x, y, z)) => {
                            &&& cast.ensures((a,), x)
                            &&& cast.ensures((b,), y)
                            &&& cast.ensures((c,), z)
                        },
                        _ => false,
                    },
            decreases self.segments@.len() - i,
        {
            let seg = match &self.segments[i] {
                CubicSegment::Line(p) => CubicSegment::Line(cast(*p)),
                CubicSegment::Curve(p1, p2, p3) => CubicSegment::Curve(cast(*p1), cast(*p2), cast(*p3)),
            };
            segments.push(seg);
            i = i + 1;
        }
        CubicBezier { start: cast(self.start), segments, closed: self.closed }
    }

    pub fn iter(&self) -> (r: CubicBezierPointIter<'_, P>)
        ensures
            r.curve() == self,
            r.pos() == 0,
            r.well_formed(),
    {
        CubicBezierPointIter { curve: self, current_segment: 0, current_in_segment_idx: 0 }
    }

    pub fn builder(start: P) -> (r: CubicBezierBuilder<P>)
        ensures
            r.partial().start == start,
            r.partial().segments@ == Seq::<CubicSegment<P>>::empty(),
            !r.partial().closed,
    {
        CubicBezierBuilder::new(start)
    }
}

/// Builds a curve segment by segment.
pub struct CubicBezierBuilder<P> {
    bezier: CubicBezier<P>,
}

impl<P> CubicBezierBuilder<P> {
    /// The curve built so far.
    pub closed spec fn partial(&self) -> CubicBezier<P> {
        self.bezier
    }
}

impl<P: Copy> CubicBezierBuilder<P> {
    pub fn new(start: P) -> (r: Self)
        ensures
            r.partial().start == start,
            r.partial().segments@ == Seq::<CubicSegment<P>>::empty(),
            !r.partial().closed,
    {
        CubicBezierBuilder { bezier: CubicBezier { start, segments: Vec::new(), closed: false } }
    }

    /// Appends a straight segment to `end`.
    pub fn line_to(&mut self, end: P) -> (r: &mut Self)
        ensures
            r.partial().start == old(self).partial().start,
            r.partial().closed == old(self).partial().closed,
            r.partial().segments@ == old(self).partial().segments@.push(CubicSegment::Line(end)),
            *final(self) == *final(r),
    {
        self.bezier.segments.push(CubicSegment::Line(end));
        self
    }

    /// Appends a curved segment through two control points to `end`.
    pub fn curve_to(&mut self, control1: P, control2: P, end: P) -> (r: &mut Self)
        ensures
            r.partial().start == old(self).partial().start,
            r.partial().closed == old(self).partial().closed,
            r.partial().segments@ == old(self).partial().segments@.push(
                CubicSegment::Curve(control1, control2, end),
            ),
            *final(self) == *final(r),
    {
        self.bezier.segments.push(CubicSegment::Curve(control1, control2, end));
        self
    }

    /// Marks the curve closed.
    pub fn close(&mut self) -> (r: &mut Self)
        ensures
            r.partial().start == old(self).partial().start,
            r.partial().closed,
            r.partial().segments@ == old(self).partial().segments@,
            *final(self) == *final(r),
    {
        self.bezier.closed = true;
        self
    }

    pub fn build(self) -> (r: CubicBezier<P>)
        ensures
            r.start == self.partial().start,
            r.segments@ == self.partial().segments@,
            r.closed == self.partial().closed,
    {
        self.bezier
    }
}

/// Walks the points of the segments of a curve in order (see
/// [`CubicBezier::points`]).
pub struct CubicBezierPointIter<'a, P> {
    curve: &'a CubicBezier<P>,
    /// the next segment to be processed
    current_segment: usize,
    /// The index of the current point in the current segment.
    /// Line segments have 1 point, curve segments have 3 points.
    current_in_segment_idx: usize,
}

impl<'a, P> CubicBezierPointIter<'a, P> {
    pub closed spec fn curve(&self) -> &'a CubicBezier<P> {
        self.curve
    }

    /// How many points have been handed out.
    pub closed spec fn pos(&self) -> nat {
        self.curve.points_before(self.current_segment as nat).len() + self.current_in_segment_idx as nat
    }

    /// The position fields describe a place in the point list.
    pub closed spec fn well_formed(&self) -> bool {
        let n = self.curve.segments@.len();
        &&& self.current_segment <= n
        &&& self.current_segment < n ==> self.current_in_segment_idx < cubic_seg_points(
            self.curve.segments@[self.current_segment as int],
        ).len()
        &&& self.current_segment == n ==> self.current_in_segment_idx == 0
    }
}

pub proof fn lemma_cubic_points_prefix<P>(c: CubicBezier<P>, a: nat, b: nat)
    requires
        a <= b <= c.segments@.len(),
    ensures
        c.points_before(a).len() <= c.points_before(b).len(),
        forall|i: int|
            0 <= i < c.points_before(a).len() ==> c.points_before(b)[i] == c.points_before(a)[i],
    decreases b,
{
    if a < b {
        lemma_cubic_points_prefix(c, a, (b - 1) as nat);
    }
}

impl<'a, P: Copy> CubicBezierPointIter<'a, P> {
    /// Hands out the next point, or `None` once all points were handed out.
    pub fn next(&mut self) -> (r: Option<P>)
        requires
            old(self).well_formed(),
        ensures
            final(self).curve() == old(self).curve(),
            final(self).well_formed(),
            old(self).pos() < old(self).curve().points().len() ==> {
                &&& r == Some(old(self).curve().points()[old(self).pos() as int])
                &&& final(self).pos() == old(self).pos() + 1
            },
            old(self).pos() >= old(self).curve().points().len() ==> {
                &&& r is None
                &&& final(self).pos() == old(self).pos()
            },
    {
        let curve = self.curve;
        let ghost n = curve.segments@.len();
        if self.current_segment == curve.segments.len() {
            return None;
        }
        let k = self.current_segment;
        let idx = self.current_in_segment_idx;
        let seg = &curve.segments[k];
        let point = match seg {
            CubicSegment::Line(p) => *p,
            CubicSegment::Curve(p1, p2, p3) => if idx == 0 {
                *p1
            } else if idx == 1 {
                *p2
            } else {
                *p3
            },
        };
        proof {
            lemma_cubic_points_prefix(*curve, (k + 1) as nat, n);
            let before = curve.points_before(k as nat);
            assert(curve.points_before((k + 1) as nat) == before + cubic_seg_points(*seg));
            assert(curve.points_before((k + 1) as nat)[before.len() + idx] == point);
        }
        let next_idx = idx + 1;
        if next_idx == seg.points_count() {
            *self = CubicBezierPointIter {
                curve,
                current_segment: k + 1,
                current_in_segment_idx: 0,
            };
        } else {
            *self = CubicBezierPointIter { curve, current_segment: k, current_in_segment_idx: next_idx };
        }
        Some(point)
    }
}

} // verus!
