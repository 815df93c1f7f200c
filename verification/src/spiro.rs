//! The kinds of control points of spiro curves, and the errors of turning
//! them into bezier paths.
use vstd::prelude::*;
use vstd::std_specs::convert::TryFromSpecImpl;

verus! {

/// The type of a spiro control point.
#[derive(Copy, Clone, PartialEq, Eq, Debug, Structural)]
pub enum CpTy {
    Corner,
    G4,
    G2,
    /// Also known as "left".
    Flat,
    /// Also known as "right".
    Curl,
    Open,
    EndOpen,
}

impl CpTy {
    /// The character that stands for the type.
    pub open spec fn value(self) -> u8 {
        match self {
            CpTy::Corner => 0x76,  // 'v'
            CpTy::G4 => 0x6f,  // 'o'
            CpTy::G2 => 0x63,  // 'c'
            CpTy::Flat => 0x5b,  // '['
            CpTy::Curl => 0x5d,  // ']'
            CpTy::Open => 0x7b,  // '{'
            CpTy::EndOpen => 0x7d,  // '}'
        }
    }

    pub fn to_u8(self) -> (r: u8)
        ensures
            r == self.value(),
    {
        match self {
            CpTy::Corner => 0x76,
            CpTy::G4 => 0x6f,
            CpTy::G2 => 0x63,
            CpTy::Flat => 0x5b,
            CpTy::Curl => 0x5d,
            CpTy::Open => 0x7b,
            CpTy::EndOpen => 0x7d,
        }
    }

    /// The number of continuity constraints between a point of this type
    /// and the next one of type `other`.
    pub open spec fn spec_jinc(self, other: Self) -> usize {
        if self is G4 || self is Curl || other is G4 || other is Flat {
            4
        } else if self is G2 && other is G2 {
            2
        } else if (self is G2 && (other is EndOpen || other is Corner || other is Curl)) || ((
        self is Open || self is Corner || self is Flat) && other is G2) {
            1
        } else {
            0
        }
    }

    pub fn jinc(self, other: Self) -> (r: usize)
        ensures
            r == self.spec_jinc(other),
    {
        match (self, other) {
            (CpTy::G4, _) | (CpTy::Curl, _) | (_, CpTy::G4) | (_, CpTy::Flat) => 4,
            (CpTy::G2, CpTy::G2) => 2,
            (CpTy::G2, CpTy::EndOpen)
            | (CpTy::G2, CpTy::Corner)
            | (CpTy::G2, CpTy::Curl)
            | (CpTy::Open, CpTy::G2)
            | (CpTy::Corner, CpTy::G2)
            | (CpTy::Flat, CpTy::G2) => 1,
            _ => 0,
        }
    }
}

impl Default for CpTy {
    fn default() -> (r: Self)
        ensures
            r == CpTy::Corner,
    {
        CpTy::Corner
    }
}

/// The type a character stands for, or the character itself if it stands
/// for none.
pub open spec fn cp_ty_of(value: u8) -> Result<CpTy, u8> {
    if value == 0x76 {
        Ok(CpTy::Corner)
    } else if value == 0x6f {
        Ok(CpTy::G4)
    } else if value == 0x63 {
        Ok(CpTy::G2)
    } else if value == 0x5b {
        Ok(CpTy::Flat)
    } else if value == 0x5d {
        Ok(CpTy::Curl)
    } else if value == 0x7b {
        Ok(CpTy::Open)
    } else if value == 0x7d {
        Ok(CpTy::EndOpen)
    } else {
        Err(value)
    }
}

impl TryFrom<u8> for CpTy {
    type Error = u8;

    fn try_from(value: u8) -> (r: Result<Self, Self::Error>) {
        match value {
            0x76 => Ok(Self::Corner),
            0x6f => Ok(Self::G4),
            0x63 => Ok(Self::G2),
            0x5b => Ok(Self::Flat),
            0x5d => Ok(Self::Curl),
            0x7b => Ok(Self::Open),
            0x7d => Ok(Self::EndOpen),
            i => Err(i),
        }
    }
}

impl TryFromSpecImpl<u8> for CpTy {
    open spec fn obeys_try_from_spec() -> bool {
        true
    }

    open spec fn try_from_spec(v: u8) -> Result<Self, u8> {
        cp_ty_of(v)
    }
}

/// Reading the character of a type gives back the type, and a character
/// that is read as a type is that type's character.
pub proof fn lemma_cp_ty_round_trip(t: CpTy, v: u8)
    ensures
        cp_ty_of(t.value()) == Ok::<CpTy, u8>(t),
        cp_ty_of(v) matches Ok(u) ==> u.value() == v,
        cp_ty_of(v) matches Err(e) ==> e == v,
{
}

/// The number of continuity constraints of the first `n_seg` segments of a
/// path whose control points have the types `tys`.
pub open spec fn constraint_count(tys: Seq<CpTy>, n_seg: int) -> int
    decreases n_seg,
{
    if n_seg <= 0 {
        0
    } else {
        constraint_count(tys, n_seg - 1) + tys[n_seg - 1].spec_jinc(tys[n_seg]) as int
    }
}

proof fn lemma_constraint_count_bound(tys: Seq<CpTy>, n_seg: int)
    requires
        0 <= n_seg,
    ensures
        0 <= constraint_count(tys, n_seg) <= 4 * n_seg,
    decreases n_seg,
{
    if n_seg > 0 {
        lemma_constraint_count_bound(tys, n_seg - 1);
    }
}

/// Counts the continuity constraints of the first `n_seg` segments, the size
/// of the system of equations that the solver sets up.
pub fn count(tys: &[CpTy], n_seg: usize) -> (r: usize)
    requires
        n_seg < tys.len(),
        n_seg <= usize::MAX / 4,
    ensures
        r == constraint_count(tys@, n_seg as int),
        r <= 4 * n_seg,
{
    let mut total: usize = 0;
    let mut i: usize = 0;
    while i < n_seg
        invariant
            i <= n_seg,
            n_seg < tys.len(),
            n_seg <= usize::MAX / 4,
            total == constraint_count(tys@, i as int),
            total <= 4 * i,
        decreases n_seg - i,
    {
        total = total + tys[i].jinc(tys[i + 1]);
        i = i + 1;
    }
    total
}

/// Whether a point of type `t` starts the scan of the constraint rows of a
/// closed path: smooth points and corners.
pub open spec fn starts_rows(t: CpTy) -> bool {
    t is G4 || t is G2 || t is Corner
}

/// The rows by which the constraints of a point of type `t` reach back into
/// the previous segment.
pub open spec fn back_rows(t: CpTy) -> int {
    if t is G4 {
        2
    } else if t is G2 {
        1
    } else {
        0
    }
}

/// Where the solver of a closed path that starts at a flat point begins to
/// fill its rows: the first point among the first `n` that starts the rows,
/// the column of its first unknown, and the row of its first constraint.
/// Where no such point exists, everything starts at zero.
pub open spec fn cyclic_start_spec(tys: Seq<CpTy>, n: int, nmat: int) -> (int, int, int) {
    if exists|k: int| 0 <= k < n && starts_rows(#[trigger] tys[k]) {
        let k = choose|k: int|
            0 <= k < n && starts_rows(tys[k]) && forall|l: int|
                0 <= l < k ==> !starts_rows(#[trigger] tys[l]);
        let c = constraint_count(tys, k);
        (k, c % nmat, (c - back_rows(tys[k])) % nmat)
    } else {
        (0, 0, 0)
    }
}

/// Finds where the solver of a closed path that starts at a flat point
/// begins to fill its rows.
pub fn cyclic_start(tys: &[CpTy], n: usize, nmat: usize) -> (r: (usize, usize, usize))
    requires
        n < tys.len(),
        n <= usize::MAX / 4,
        nmat > 0,
    ensures
        (r.0 as int, r.1 as int, r.2 as int) == cyclic_start_spec(tys@, n as int, nmat as int),
{
    let mut i: usize = 0;
    let mut j: usize = 0;
    while i < n
        invariant
            i <= n,
            n < tys.len(),
            n <= usize::MAX / 4,
            nmat > 0,
            j == constraint_count(tys@, i as int),
            j <= 4 * i,
            forall|l: int| 0 <= l < i ==> !starts_rows(#[trigger] tys@[l]),
        decreases n - i,
    {
        let t = tys[i];
        match t {
            CpTy::G4 | CpTy::G2 | CpTy::Corner => {
                let back: usize = match t {
                    CpTy::G4 => 2,
                    CpTy::G2 => 1,
                    _ => 0,
                };
                let jm = j % nmat;
                let b = back % nmat;
                let jj = if b <= jm {
                    jm - b
                } else {
                    jm + (nmat - b)
                };
                proof {
                    let k = i as int;
                    assert(starts_rows(tys@[k]));
                    let kk = choose|k: int|
                        0 <= k < n && starts_rows(tys@[k]) && forall|l: int|
                            0 <= l < k ==> !starts_rows(#[trigger] tys@[l]);
                    assert(kk == k) by {
                        if kk < k {
                            assert(!starts_rows(tys@[kk]));
                        }
                        if k < kk {
                            assert(!starts_rows(tys@[k]));
                        }
                    }
                    lemma_mod_sub_small(j as int, back as int, nmat as int);
                }
                return (i, jm, jj);
            },
            _ => {
                j = j + t.jinc(tys[i + 1]);
                i = i + 1;
            },
        }
    }
    (0, 0, 0)
}

/// Subtracting a small number and reducing works on the reduced value too.
proof fn lemma_mod_sub_small(a: int, b: int, m: int)
    requires
        0 <= a,
        0 <= b <= 2,
        m > 0,
    ensures
        (if b % m <= a % m {
            a % m - b % m
        } else {
            a % m + (m - b % m)
        }) == (a - b) % m,
{
    vstd::arithmetic::div_mod::lemma_mod_pos_bound(a, m);
    vstd::arithmetic::div_mod::lemma_mod_pos_bound(b, m);
    vstd::arithmetic::div_mod::lemma_fundamental_div_mod(a, m);
    vstd::arithmetic::div_mod::lemma_fundamental_div_mod(b, m);
    let qa = a / m;
    let qb = b / m;
    let k = 1 - qa + qb;
    let y = a - b;
    let x = a % m + m - b % m;
    assert(x == m * k + y) by (nonlinear_arith)
        requires
            a == m * qa + a % m,
            b == m * qb + b % m,
            k == 1 - qa + qb,
            x == a % m + m - b % m,
            y == a - b,
    ;
    vstd::arithmetic::div_mod::lemma_mod_multiples_vanish(k, y, m);
    if b % m <= a % m {
        vstd::arithmetic::div_mod::lemma_mod_add_multiples_vanish(x - m, m);
        vstd::arithmetic::div_mod::lemma_small_mod((x - m) as nat, m as nat);
    } else {
        vstd::arithmetic::div_mod::lemma_small_mod(x as nat, m as nat);
    }
}

/// Whether the constraints of a point of type `t` reach into both segments
/// that meet there.
pub open spec fn crosses(t: CpTy) -> bool {
    t is G4 || t is G2 || t is Flat || t is Curl
}

/// The rows of the band matrix that the continuity constraints of one
/// segment go to: the angle and the curvature derivatives at its left and
/// at its right end. `None` where the segment has no such constraint.
#[derive(Clone, Copy, Debug)]
pub struct ConstraintRows {
    pub th_left: Option<usize>,
    pub k0_left: Option<usize>,
    pub k1_left: Option<usize>,
    pub k2_left: Option<usize>,
    pub th_right: Option<usize>,
    pub k0_right: Option<usize>,
    pub k1_right: Option<usize>,
    pub k2_right: Option<usize>,
}

/// The rows of the constraints of a segment from a point of type `ty0` to
/// one of type `ty1`, when the next free row is `jj` of `nmat`, and the next
/// free row after them.
///
/// The constraints that cross the left end start at the current row, taken
/// modulo `nmat`; then come those that lie on either end alone; those that
/// cross the right end are the ones the next segment starts with, so the
/// next free row stays at the first of them.
pub open spec fn constraint_rows_spec(ty0: CpTy, ty1: CpTy, jj: int, nmat: int) -> (
    Option<int>,
    Option<int>,
    Option<int>,
    Option<int>,
    Option<int>,
    Option<int>,
    Option<int>,
    Option<int>,
    int,
) {
    let jinc = ty0.spec_jinc(ty1);
    // crossing the left end
    let (thl, k0l, jj1) = if crosses(ty0) {
        (Some(jj % nmat), Some((jj + 1) % nmat), (jj + 1) % nmat + 1)
    } else {
        (None, None, jj)
    };
    let (k1l, k2l, jj2) = if ty0 is G4 {
        (Some(jj1 % nmat), Some(jj1 % nmat + 1), jj1 % nmat + 2)
    } else {
        (None, None, jj1)
    };
    // on the left end alone
    let on_left = (ty0 is Flat || ty0 is Corner || ty0 is Open || ty0 is G2) && jinc == 4;
    let (k1l, k2l, jj3) = if !on_left {
        (k1l, k2l, jj2)
    } else if ty0 is G2 {
        (k1l, Some(jj2), jj2 + 1)
    } else {
        (Some(jj2), Some(jj2 + 1), jj2 + 2)
    };
    // on the right end alone
    let on_right = (ty1 is Curl || ty1 is Corner || ty1 is EndOpen || ty1 is G2) && jinc == 4;
    let (k1r, k2r, jj4) = if !on_right {
        (None, None, jj3)
    } else if ty1 is G2 {
        (None, Some(jj3), jj3 + 1)
    } else {
        (Some(jj3), Some(jj3 + 1), jj3 + 2)
    };
    // crossing the right end
    let (thr, k0r, jj5) = if crosses(ty1) {
        (Some(jj4 % nmat), Some((jj4 % nmat + 1) % nmat), jj4 % nmat)
    } else {
        (None, None, jj4)
    };
    let (k1r, k2r) = if ty1 is G4 {
        (Some((jj5 + 2) % nmat), Some((jj5 + 3) % nmat))
    } else {
        (k1r, k2r)
    };
    (thl, k0l, k1l, k2l, thr, k0r, k1r, k2r, jj5)
}

/// A row of type `usize`, as an integer.
pub open spec fn row_int(r: Option<usize>) -> Option<int> {
    match r {
        Some(x) => Some(x as int),
        None => None,
    }
}

/// Assigns the rows of the continuity constraints of the segment from a
/// point of type `ty0` to one of type `ty1`.
pub fn constraint_rows(ty0: CpTy, ty1: CpTy, jj: usize, nmat: usize) -> (r: (ConstraintRows, usize))
    requires
        nmat > 0,
        jj <= usize::MAX - 8,
        nmat <= usize::MAX - 8,
    ensures
        ({
            let s = constraint_rows_spec(ty0, ty1, jj as int, nmat as int);
            &&& row_int(r.0.th_left) == s.0
            &&& row_int(r.0.k0_left) == s.1
            &&& row_int(r.0.k1_left) == s.2
            &&& row_int(r.0.k2_left) == s.3
            &&& row_int(r.0.th_right) == s.4
            &&& row_int(r.0.k0_right) == s.5
            &&& row_int(r.0.k1_right) == s.6
            &&& row_int(r.0.k2_right) == s.7
            &&& r.1 == s.8
        }),
{
    let jinc = ty0.jinc(ty1);
    let mut jj = jj;
    let mut rows = ConstraintRows {
        th_left: None,
        k0_left: None,
        k1_left: None,
        k2_left: None,
        th_right: None,
        k0_right: None,
        k1_right: None,
        k2_right: None,
    };
    // crossing the left end
    if matches!(ty0, CpTy::G4 | CpTy::G2 | CpTy::Flat | CpTy::Curl) {
        rows.th_left = Some(jj % nmat);
        jj = (jj + 1) % nmat;
        rows.k0_left = Some(jj);
        jj = jj + 1;
    }
    if matches!(ty0, CpTy::G4) {
        jj = jj % nmat;
        rows.k1_left = Some(jj);
        rows.k2_left = Some(jj + 1);
        jj = jj + 2;
    }
    // on the left end alone

    if matches!(ty0, CpTy::Flat | CpTy::Corner | CpTy::Open | CpTy::G2) && jinc == 4 {
        if !matches!(ty0, CpTy::G2) {
            rows.k1_left = Some(jj);
            jj = jj + 1;
        }
        rows.k2_left = Some(jj);
        jj = jj + 1;
    }
    // on the right end alone

    if matches!(ty1, CpTy::Curl | CpTy::Corner | CpTy::EndOpen | CpTy::G2) && jinc == 4 {
        if !matches!(ty1, CpTy::G2) {
            rows.k1_right = Some(jj);
            jj = jj + 1;
        }
        rows.k2_right = Some(jj);
        jj = jj + 1;
    }
    // crossing the right end

    if matches!(ty1, CpTy::G4 | CpTy::G2 | CpTy::Flat | CpTy::Curl) {
        jj = jj % nmat;
        rows.th_right = Some(jj);
        rows.k0_right = Some((jj + 1) % nmat);
    }
    if matches!(ty1, CpTy::G4) {
        rows.k1_right = Some((jj + 2) % nmat);
        rows.k2_right = Some((jj + 3) % nmat);
    }
    (rows, jj)
}

/// A row reduced modulo the number of rows, as the solver uses it.
pub open spec fn row_mod(r: Option<int>, nmat: int) -> Option<int> {
    match r {
        Some(x) => Some(x % nmat),
        None => None,
    }
}

/// The constraints that cross a smooth or flat point belong to both
/// segments that meet there: the rows that the segment ending at the point
/// gives them on its right are the rows that the next segment, starting
/// from the next free row, gives them on its left.
pub proof fn lemma_crossing_rows_shared(ty0: CpTy, ty1: CpTy, ty2: CpTy, jj: int, nmat: int)
    requires
        0 <= jj,
        0 < nmat,
        crosses(ty1),
    ensures
        ({
            let s = constraint_rows_spec(ty0, ty1, jj, nmat);
            let t = constraint_rows_spec(ty1, ty2, s.8, nmat);
            &&& row_mod(t.0, nmat) == s.4
            &&& row_mod(t.1, nmat) == s.5
            &&& ty1 is G4 ==> row_mod(t.2, nmat) == s.6 && row_mod(t.3, nmat) == s.7
        }),
{
    let s = constraint_rows_spec(ty0, ty1, jj, nmat);
    let x = s.8;
    assert(0 <= x < nmat) by {
        vstd::arithmetic::div_mod::lemma_mod_bound(x, nmat);
    }
    vstd::arithmetic::div_mod::lemma_small_mod(x as nat, nmat as nat);
    vstd::arithmetic::div_mod::lemma_mod_bound(x + 1, nmat);
    vstd::arithmetic::div_mod::lemma_mod_twice(x + 1, nmat);
    if ty1 is G4 {
        let y = (x + 1) % nmat;
        vstd::arithmetic::div_mod::lemma_add_mod_noop_right(1, x + 1, nmat);
        assert((y + 1) % nmat == (x + 2) % nmat);
        vstd::arithmetic::div_mod::lemma_mod_twice(y + 1, nmat);
        vstd::arithmetic::div_mod::lemma_add_mod_noop_right(1, y + 1, nmat);
        vstd::arithmetic::div_mod::lemma_add_mod_noop_right(2, x + 1, nmat);
        assert(((y + 1) % nmat + 1) % nmat == (x + 3) % nmat);
    }
}

/// The column of the band that the unknown in column `j` falls in, on the
/// row `jj` of a system of `nmat` equations.
pub open spec fn band_offset_spec(j: int, jj: int, nmat: int) -> int {
    let jj = jj % nmat;
    if nmat < 6 {
        j + 5 - jj
    } else if nmat == 6 {
        2 + (j + 3 + nmat - jj) % nmat
    } else {
        (j + 5 + nmat - jj) % nmat
    }
}

/// Finds the column of the band that the unknown in column `j` falls in, on
/// the row `jj` of a system of `nmat` equations.
pub fn band_offset(j: usize, jj: usize, nmat: usize) -> (r: usize)
    requires
        j < nmat,
        nmat <= usize::MAX / 4,
    ensures
        r == band_offset_spec(j as int, jj as int, nmat as int),
{
    let jj = jj % nmat;
    if nmat < 6 {
        j + 5 - jj
    } else if nmat == 6 {
        2 + ((j + 3 + nmat - jj) % nmat)
    } else {
        (j + 5 + nmat - jj) % nmat
    }
}

proof fn lemma_constraint_count_mono(tys: Seq<CpTy>, a: int, b: int)
    requires
        0 <= a <= b,
    ensures
        constraint_count(tys, a) <= constraint_count(tys, b),
    decreases b - a,
{
    if a < b {
        lemma_constraint_count_mono(tys, a, b - 1);
    }
}

/// Where the solver begins to fill its rows: the first segment, the column
/// of its first unknown and the row of its first constraint. A path that
/// starts at a smooth point begins with the rows that its constraints reach
/// back with; a closed path that starts at a flat point begins at the first
/// smooth point or corner.
pub open spec fn start_rows_spec(tys: Seq<CpTy>, n: int, nmat: int) -> (int, int, int) {
    if tys[0] is Flat {
        cyclic_start_spec(tys, n, nmat)
    } else {
        (0, 0, (nmat - back_rows(tys[0])) % nmat)
    }
}

/// Finds where the solver begins to fill the rows of the `nmat` constraints
/// of the first `n` segments.
pub fn start_rows(tys: &[CpTy], n: usize, nmat: usize) -> (r: (usize, usize, usize))
    requires
        1 <= n < tys.len(),
        n <= usize::MAX / 4,
        nmat == constraint_count(tys@, n as int),
        nmat > 0,
    ensures
        (r.0 as int, r.1 as int, r.2 as int) == start_rows_spec(tys@, n as int, nmat as int),
{
    proof {
        lemma_constraint_count_mono(tys@, 1, n as int);
        assert(constraint_count(tys@, 0) == 0);
        assert(constraint_count(tys@, 1) == tys@[0].spec_jinc(tys@[1]) as int);
    }
    match tys[0] {
        CpTy::Flat => cyclic_start(tys, n, nmat),
        CpTy::G4 => {
            proof {
                vstd::arithmetic::div_mod::lemma_small_mod((nmat - 2) as nat, nmat as nat);
            }
            (0, 0, nmat - 2)
        },
        CpTy::G2 => {
            proof {
                vstd::arithmetic::div_mod::lemma_small_mod((nmat - 1) as nat, nmat as nat);
            }
            (0, 0, nmat - 1)
        },
        _ => {
            proof {
                vstd::arithmetic::div_mod::lemma_mod_self_0(nmat as int);
            }
            (0, 0, 0)
        },
    }
}

/// Prepares the types of the control points of a path: an open path starts
/// with an open point and ends with an end point. Returns the number of
/// segments, one less than the points where the path is open, or
/// [`Error::NotEnoughCps`], changing nothing, where there are fewer than two
/// points.
pub fn prepare_types(tys: &mut Vec<CpTy>, is_closed: bool) -> (r: Result<usize, Error>)
    ensures
        old(tys)@.len() < 2 <==> r is Err,
        r is Err ==> r == Err::<usize, Error>(Error::NotEnoughCps) && final(tys)@ == old(tys)@,
        r is Ok ==> {
            let n = old(tys)@.len();
            &&& final(tys)@ == (if is_closed {
                old(tys)@
            } else {
                old(tys)@.update(0, CpTy::Open).update(n - 1, CpTy::EndOpen)
            })
            &&& r == Ok::<usize, Error>(
                (if final(tys)@[0] is Open {
                    n - 1
                } else {
                    n as int
                }) as usize,
            )
        },
{
    let n = tys.len();
    if n < 2 {
        return Err(Error::NotEnoughCps);
    }
    if !is_closed {
        tys.set(0, CpTy::Open);
        tys.set(n - 1, CpTy::EndOpen);
    }
    if matches!(tys[0], CpTy::Open) {
        Ok(n - 1)
    } else {
        Ok(n)
    }
}

/// The number of band rows the solver needs: three copies of the system for
/// a closed path, and never fewer than five.
pub open spec fn solver_size_spec(first: CpTy, nmat: int) -> int {
    let n = if first is Open || first is Corner {
        nmat
    } else {
        3 * nmat
    };
    if n < 5 {
        5
    } else {
        n
    }
}

/// Finds the number of band rows the solver needs for `nmat` constraints of a
/// path whose first point has the type `first`.
pub fn solver_size(first: CpTy, nmat: usize) -> (r: usize)
    requires
        nmat <= usize::MAX / 4,
    ensures
        r == solver_size_spec(first, nmat as int),
{
    let n = if matches!(first, CpTy::Open | CpTy::Corner) {
        nmat
    } else {
        3 * nmat
    };
    if n < 5 {
        5
    } else {
        n
    }
}

/// The errors of turning spiro control points into a bezier path.
#[derive(Debug, Clone, Copy, PartialEq, Eq, Structural)]
pub enum Error {
    NotEnoughCps,
}

impl Error {
    /// The message that describes the error.
    pub fn message(&self) -> (r: &'static str)
        ensures
            self is NotEnoughCps ==> r == "not enough spiro control points to create bezier path",
    {
        match self {
            Error::NotEnoughCps => "not enough spiro control points to create bezier path",
        }
    }
}

} // verus!
