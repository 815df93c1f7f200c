//! Format 4 of the `cmap` subtables: segment mapping to delta values.
use crate::buf::BufSink;
use crate::bytes_spec::{
    i16_bytes, lemma_read_at, lemma_read_i16, lemma_read_u16, read_i16, read_u16, u16_bytes,
};
use crate::hl::cmap::{SeqMapping, SubTable};
use crate::model::encoding::NON_MACINTOSH_LANG_CODE;
use crate::sort::sorted_by_key;
use crate::seq_util::{
    concat_map, lemma_concat_map_fixed_at, lemma_concat_map_len, lemma_concat_map_take_len,
    lemma_concat_map_take_step,
};
use vstd::prelude::*;

verus! {

/// A run of character codes mapped to glyphs by adding `id_delta`.
#[derive(Debug, Clone, Copy, PartialEq, Eq, Structural)]
pub struct Segment {
    /// The ending character code for the segment, inclusive.
    pub end_code: u16,
    /// The starting character code for the segment.
    pub start_code: u16,
    /// The delta value to be added to the character code to get the glyph index.
    pub id_delta: i16,
    /// The offset into the glyph index array or 0 if the idDelta value is used.
    ///
    /// All segments emitted by this program will have this value set to 0
    /// because we don't use the glyph index array.
    pub id_range_offset: u16,
}

/// A format 4 subtable.
#[derive(Debug)]
pub struct Table {
    /// The written size of the subtable in bytes.
    pub length: u16,
    pub language: u16,
    /// Twice the number of segments.
    pub seg_count_x2: u16,
    /// Twice the largest power of two not above the number of segments.
    pub search_range: u16,
    /// The base-2 logarithm of that power of two.
    pub entry_selector: u16,
    /// `seg_count_x2 - search_range`.
    pub range_shift: u16,
    pub segments: Vec<Segment>,
}

/// `2^e`.
pub open spec fn pow2(e: nat) -> nat
    decreases e,
{
    if e == 0 {
        1
    } else {
        2 * pow2((e - 1) as nat)
    }
}

/// The `i16` that is congruent to `x` modulo 2^16.
pub open spec fn delta16(x: int) -> i16 {
    let r = x % 0x1_0000;
    if r >= 0x8000 {
        (r - 0x1_0000) as i16
    } else {
        r as i16
    }
}

/// The last code of a run, `start_code + len - 1`, can be computed in
/// `u32`: the run is not empty or starts above 0, and `start_code + len`
/// fits in `u32`.
pub open spec fn run_end_fits(m: SeqMapping) -> bool {
    1 <= m.start_code + m.len <= u32::MAX
}

/// The segment of a run that starts in the Basic Multilingual Plane, cut at
/// its end.
pub open spec fn bmp_segment(m: SeqMapping) -> Segment {
    let last = m.start_code + m.len - 1;
    Segment {
        end_code: (if last > 0xffff {
            0xffff
        } else {
            last
        }) as u16,
        start_code: m.start_code as u16,
        id_delta: delta16(m.glyph_id - m.start_code),
        id_range_offset: 0,
    }
}

/// The segments of the runs that start in the Basic Multilingual Plane, in
/// order; the other runs cannot be encoded in this format.
pub open spec fn bmp_segments(tbl: Seq<SeqMapping>) -> Seq<Segment>
    decreases tbl.len(),
{
    if tbl.len() == 0 {
        seq![]
    } else {
        let rest = bmp_segments(tbl.drop_last());
        if tbl.last().start_code <= 0xffff {
            rest.push(bmp_segment(tbl.last()))
        } else {
            rest
        }
    }
}

/// The segment that ends the search, mapping the code 0xFFFF to glyph 0.
pub open spec fn final_segment() -> Segment {
    Segment { end_code: 0xffff, start_code: 0xffff, id_delta: 1, id_range_offset: 0 }
}

/// What `from_raw` requires of a run: where the run starts in the Basic
/// Multilingual Plane, its last code lies within `u32`.
pub open spec fn fmt4_run_ok(m: SeqMapping) -> bool {
    m.start_code <= 0xffff ==> run_end_fits(m)
}

pub open spec fn end_enc() -> spec_fn(Segment) -> Seq<u8> {
    |s: Segment| u16_bytes(s.end_code)
}

pub open spec fn start_enc() -> spec_fn(Segment) -> Seq<u8> {
    |s: Segment| u16_bytes(s.start_code)
}

pub open spec fn delta_enc() -> spec_fn(Segment) -> Seq<u8> {
    |s: Segment| i16_bytes(s.id_delta)
}

pub open spec fn offset_enc() -> spec_fn(Segment) -> Seq<u8> {
    |s: Segment| u16_bytes(s.id_range_offset)
}

/// One of the four arrays of segment fields.
pub open spec fn field_enc(which: u8) -> spec_fn(Segment) -> Seq<u8> {
    if which == 0 {
        end_enc()
    } else if which == 1 {
        start_enc()
    } else if which == 2 {
        delta_enc()
    } else {
        offset_enc()
    }
}

impl Table {
    /// The header fields agree with the segments: the length is the written
    /// size and the search parameters are those of the segment count.
    pub open spec fn wf(&self) -> bool {
        let n = self.segments@.len();
        &&& self.length == 16 + 8 * n
        &&& self.seg_count_x2 == 2 * n
        &&& pow2(self.entry_selector as nat) <= n < pow2(self.entry_selector as nat + 1)
        &&& self.search_range == 2 * pow2(self.entry_selector as nat)
        &&& self.range_shift == self.seg_count_x2 - self.search_range
    }

    pub open spec fn encoding(&self) -> Seq<u8> {
        let s = self.segments@;
        u16_bytes(4) + u16_bytes(self.length) + u16_bytes(self.language) + u16_bytes(
            self.seg_count_x2,
        ) + u16_bytes(self.search_range) + u16_bytes(self.entry_selector) + u16_bytes(
            self.range_shift,
        ) + concat_map(s, end_enc()) + u16_bytes(0) + concat_map(s, start_enc()) + concat_map(
            s,
            delta_enc(),
        ) + concat_map(s, offset_enc())
    }

    /// Get the written size in byte of the table.
    pub fn byte_length(&self) -> (r: usize)
        ensures
            r == self.length,
    {
        self.length as usize
    }

    fn write_field<W: BufSink>(&self, w: &mut W, which: u8)
        requires
            old(w).written().len() + 2 * self.segments@.len() <= isize::MAX,
        ensures
            final(w).written() == old(w).written() + concat_map(self.segments@, field_enc(which)),
            concat_map(self.segments@, field_enc(which)).len() == 2 * self.segments@.len(),
    {
        let ghost base = old(w).written();
        let ghost f = field_enc(which);
        let ghost s = self.segments@;
        proof {
            assert forall|i: int| 0 <= i < s.len() implies (#[trigger] f(s[i])).len() == 2 by {}
            lemma_concat_map_len(s, f, 2);
        }
        let mut i: usize = 0;
        while i < self.segments.len()
            invariant
                s == self.segments@,
                f == field_enc(which),
                i <= s.len(),
                concat_map(s, f).len() == 2 * s.len(),
                base.len() + 2 * s.len() <= isize::MAX,
                w.written() == base + concat_map(s.take(i as int), f),
            decreases s.len() - i,
        {
            proof {
                lemma_concat_map_take_step(s, i as int, f);
                lemma_concat_map_take_len(s, i as int + 1, f);
            }
            let seg = self.segments[i];
            if which == 0 {
                w.put_u16(seg.end_code);
            } else if which == 1 {
                w.put_u16(seg.start_code);
            } else if which == 2 {
                w.put_i16(seg.id_delta);
            } else {
                w.put_u16(seg.id_range_offset);
            }
            assert(w.written() =~= base + concat_map(s.take(i as int + 1), f));
            i = i + 1;
        }
        assert(s.take(i as int) =~= s);
    }

    /// The encoding is `16 + 8 * n` bytes long for `n` segments.
    pub proof fn lemma_encoding_len(&self)
        ensures
            self.encoding().len() == 16 + 8 * self.segments@.len(),
    {
        let s = self.segments@;
        assert forall|w: u8| 0 <= w < 4 implies concat_map(s, #[trigger] field_enc(w)).len() == 2
            * s.len() by {
            let f = field_enc(w);
            assert forall|i: int| 0 <= i < s.len() implies (#[trigger] f(s[i])).len() == 2 by {}
            lemma_concat_map_len(s, f, 2);
        }
        assert(concat_map(s, field_enc(0)).len() == 2 * s.len());
        assert(concat_map(s, field_enc(1)).len() == 2 * s.len());
        assert(concat_map(s, field_enc(2)).len() == 2 * s.len());
        assert(concat_map(s, field_enc(3)).len() == 2 * s.len());
    }

    /// Write the table to a buffer.
    pub fn write<W: BufSink>(&self, w: &mut W)
        requires
            old(w).written().len() + self.encoding().len() <= isize::MAX,
        ensures
            final(w).written() == old(w).written() + self.encoding(),
    {
        proof {
            self.lemma_encoding_len();
        }
        let ghost base = old(w).written();
        w.put_u16(4);
        w.put_u16(self.length);
        w.put_u16(self.language);
        w.put_u16(self.seg_count_x2);
        w.put_u16(self.search_range);
        w.put_u16(self.entry_selector);
        w.put_u16(self.range_shift);
        self.write_field(w, 0);
        w.put_u16(0);
        self.write_field(w, 1);
        self.write_field(w, 2);
        self.write_field(w, 3);
        assert(w.written() =~= base + self.encoding());
    }
}

fn delta16_of(glyph_id: u32, start_code: u32) -> (r: i16)
    requires
        start_code <= 0xffff,
    ensures
        r == delta16(glyph_id - start_code),
{
    let g: i32 = (glyph_id % 0x1_0000) as i32;
    let d: i32 = g - start_code as i32;
    proof {
        let x: int = glyph_id - start_code;
        let q: int = glyph_id as int / 0x1_0000;
        assert(x % 0x1_0000 == (g - start_code) % 0x1_0000) by {
            assert(glyph_id == 0x1_0000 * q + g);
            vstd::arithmetic::div_mod::lemma_mod_multiples_vanish(q, g - start_code, 0x1_0000);
        }
    }
    if d >= 0x8000 {
        (d - 0x1_0000) as i16
    } else if d < -0x8000 {
        (d + 0x1_0000) as i16
    } else {
        d as i16
    }
}

/// Finds `e` with `2^e <= n < 2^(e + 1)`.
fn floor_log2(n: u16) -> (e: u16)
    requires
        1 <= n,
    ensures
        pow2(e as nat) <= n < pow2(e as nat + 1),
        e < 16,
{
    let mut e: u16 = 0;
    let mut p: u16 = 1;
    while p <= n / 2
        invariant
            1 <= n,
            1 <= p <= n,
            p == pow2(e as nat),
            e < 16,
        decreases n - p,
    {
        p = p * 2;
        e = e + 1;
        assert(pow2(e as nat) == 2 * pow2((e - 1) as nat));
        proof {
            if e >= 16 {
                lemma_pow2_mono(16, e as nat);
                assert(pow2(16) == 0x1_0000) by {
                    reveal_with_fuel(pow2, 17);
                }
            }
        }
    }
    assert(pow2(e as nat + 1) == 2 * pow2(e as nat));
    e
}

impl Table {
    /// Convert a raw subtable to a format 4 subtable.
    ///
    /// Each run that starts in the Basic Multilingual Plane becomes a segment,
    /// cut at the end of the plane; runs that start above it are left out.
    /// A final segment for the code 0xFFFF ends the list, and the header
    /// fields are computed from the number of segments.
    pub fn from_raw(tbl: &SubTable) -> (r: Self)
        requires
            tbl@.len() < 8189,
            forall|i: int| 0 <= i < tbl@.len() ==> fmt4_run_ok(#[trigger] tbl@[i]),
        ensures
            r.segments@ == bmp_segments(tbl@).push(final_segment()),
            r.language == NON_MACINTOSH_LANG_CODE,
            r.wf(),
    {
        let mut segments: Vec<Segment> = Vec::new();
        let mut i: usize = 0;
        while i < tbl.len()
            invariant
                i <= tbl@.len(),
                tbl@.len() < 8189,
                forall|j: int| 0 <= j < tbl@.len() ==> fmt4_run_ok(#[trigger] tbl@[j]),
                segments@ == bmp_segments(tbl@.take(i as int)),
                segments@.len() <= i,
            decreases tbl@.len() - i,
        {
            let seq = tbl[i];
            proof {
                assert(tbl@.take(i as int + 1).drop_last() =~= tbl@.take(i as int));
                assert(tbl@.take(i as int + 1).last() == tbl@[i as int]);
                assert(fmt4_run_ok(tbl@[i as int]));
            }
            if seq.start_code <= 0xffff {
                let last: u32 = seq.start_code + seq.len - 1;
                let end_code: u16 = if last > 0xffff {
                    0xffff
                } else {
                    last as u16
                };
                segments.push(
                    Segment {
                        end_code,
                        start_code: seq.start_code as u16,
                        id_delta: delta16_of(seq.glyph_id, seq.start_code),
                        id_range_offset: 0,
                    },
                );
            }
            i = i + 1;
        }
        assert(tbl@.take(i as int) =~= tbl@);
        // A final segment is needed to end the search: its start and end
        // codes must be 0xFFFF, and it maps that code to the missing glyph.
        segments.push(Segment { end_code: 0xFFFF, start_code: 0xFFFF, id_delta: 1, id_range_offset: 0 });
        let seg_count: u16 = segments.len() as u16;
        let entry_selector = floor_log2(seg_count);
        assert((1u16 << entry_selector) == pow2(entry_selector as nat)) by {
            lemma_shl_pow2(entry_selector);
        }
        let search_range: u16 = 2 * (1u16 << entry_selector);
        let seg_count_x2: u16 = seg_count * 2;
        let range_shift: u16 = seg_count_x2 - search_range;
        Table {
            length: 16 + 8 * seg_count,
            language: NON_MACINTOSH_LANG_CODE,
            seg_count_x2,
            search_range,
            entry_selector,
            range_shift,
            segments,
        }
    }
}

proof fn lemma_pow2_mono(a: nat, b: nat)
    requires
        a <= b,
    ensures
        pow2(a) <= pow2(b),
    decreases b,
{
    if a < b {
        lemma_pow2_mono(a, (b - 1) as nat);
    }
}

proof fn lemma_shl_pow2(e: u16)
    requires
        e < 16,
    ensures
        (1u16 << e) == pow2(e as nat),
    decreases e,
{
    if e == 0 {
        assert((1u16 << 0u16) == 1u16) by (bit_vector);
    } else {
        lemma_shl_pow2((e - 1) as u16);
        let f = (e - 1) as u16;
        assert((1u16 << e) == 2 * (1u16 << f)) by (bit_vector)
            requires
                e < 16,
                f == e - 1,
        ;
    }
}

/// A segment maps every code of its run to the glyph the run assigns it:
/// adding `id_delta` modulo 2^16 gives `glyph_id + (code - start_code)`.
pub proof fn lemma_segment_maps_run(m: SeqMapping, code: int)
    requires
        m.start_code <= 0xffff,
        run_end_fits(m),
        m.start_code <= code <= bmp_segment(m).end_code,
    ensures
        (code + bmp_segment(m).id_delta) % 0x1_0000 == (m.glyph_id + (code - m.start_code))
            % 0x1_0000,
{
    let x: int = m.glyph_id - m.start_code;
    let d = delta16(x);
    assert((d - x) % 0x1_0000 == 0) by {
        let r = x % 0x1_0000;
        assert(x == 0x1_0000 * (x / 0x1_0000) + r);
    }
    assert((code + d) % 0x1_0000 == (code + x) % 0x1_0000) by {
        let q = (d - x) / 0x1_0000;
        assert(d - x == 0x1_0000 * q);
        vstd::arithmetic::div_mod::lemma_mod_multiples_vanish(q, code + x, 0x1_0000);
        assert(code + d == 0x1_0000 * q + (code + x));
    }
}

/// Segments are ordered by their first code.
pub open spec fn segment_key() -> spec_fn(Segment) -> int {
    |s: Segment| s.start_code as int
}

proof fn lemma_bmp_bound(tbl: Seq<SeqMapping>, bound: int)
    requires
        forall|j: int| 0 <= j < tbl.len() ==> (#[trigger] tbl[j]).start_code <= bound,
    ensures
        forall|k: int| 0 <= k < bmp_segments(tbl).len() ==> (#[trigger] bmp_segments(tbl)[k]).start_code
            <= bound,
    decreases tbl.len(),
{
    if tbl.len() > 0 {
        let p = tbl.drop_last();
        assert forall|j: int| 0 <= j < p.len() implies (#[trigger] p[j]).start_code <= bound by {
            assert(p[j] == tbl[j]);
        }
        lemma_bmp_bound(p, bound);
        let last = tbl.last();
        assert(last == tbl[tbl.len() - 1]);
        let bp = bmp_segments(p);
        let b = bmp_segments(tbl);
        assert forall|k: int| 0 <= k < b.len() implies (#[trigger] b[k]).start_code <= bound by {
            if k < bp.len() {
                assert(b[k] == bp[k]);
            } else {
                assert(b[k] == bmp_segment(last));
                assert(bmp_segment(last).start_code == last.start_code);
            }
        }
    }
}

/// Runs sorted by their first code give segments sorted by their first
/// code, the final segment last: the order in which a format 4 subtable is
/// searched.
pub proof fn lemma_segments_sorted(tbl: Seq<SeqMapping>)
    requires
        forall|i: int, j: int| 0 <= i <= j < tbl.len() ==> (#[trigger] tbl[i]).start_code <= (
        #[trigger] tbl[j]).start_code,
    ensures
        sorted_by_key(bmp_segments(tbl).push(final_segment()), segment_key()),
    decreases tbl.len(),
{
    let key = segment_key();
    if tbl.len() > 0 {
        let p = tbl.drop_last();
        let last = tbl.last();
        assert(last == tbl[tbl.len() - 1]);
        assert forall|i: int, j: int| 0 <= i <= j < p.len() implies (#[trigger] p[i]).start_code <= (
        #[trigger] p[j]).start_code by {
            assert(p[i] == tbl[i] && p[j] == tbl[j]);
        }
        lemma_segments_sorted(p);
        assert forall|j: int| 0 <= j < p.len() implies (#[trigger] p[j]).start_code <= last.start_code by {
            assert(p[j] == tbl[j]);
        }
        lemma_bmp_bound(p, last.start_code as int);
        let bp = bmp_segments(p);
        let b = bmp_segments(tbl);
        assert(sorted_by_key(bp.push(final_segment()), key));
        assert forall|i: int, j: int| 0 <= i <= j < bp.len() implies key(#[trigger] bp[i]) <= key(
            #[trigger] bp[j],
        ) by {
            assert(bp.push(final_segment())[i] == bp[i]);
            assert(bp.push(final_segment())[j] == bp[j]);
        }
        let s = b.push(final_segment());
        assert forall|i: int, j: int| 0 <= i <= j < s.len() implies key(#[trigger] s[i]) <= key(
            #[trigger] s[j],
        ) by {
            if j == s.len() - 1 {
            } else if last.start_code <= 0xffff && j == s.len() - 2 {
                if i < j {
                    assert(s[i] == bp[i]);
                }
            } else {
                assert(s[i] == bp[i]);
                assert(s[j] == bp[j]);
            }
        }
    } else {
        let s = bmp_segments(tbl).push(final_segment());
        assert(s.len() == 1);
    }
}


/// Item `i` of an array of two-byte items that stands at `base`.
proof fn lemma_array_item(
    e: Seq<u8>,
    base: int,
    s: Seq<Segment>,
    f: spec_fn(Segment) -> Seq<u8>,
    i: int,
)
    requires
        0 <= base,
        0 <= i < s.len(),
        base + 2 * s.len() <= e.len(),
        forall|j: int| 0 <= j < s.len() ==> (#[trigger] f(s[j])).len() == 2,
        e.subrange(base, base + 2 * s.len()) == concat_map(s, f),
    ensures
        e.subrange(base + 2 * i, base + 2 * i + 2) == f(s[i]),
{
    lemma_concat_map_fixed_at(s, f, 2, i);
    let c = concat_map(s, f);
    assert(e.subrange(base, base + 2 * s.len())[2 * i] == e[base + 2 * i]);
    assert(e.subrange(base, base + 2 * s.len())[2 * i + 1] == e[base + 2 * i + 1]);
    assert(c.subrange(2 * i, 2 * i + 2)[0] == c[2 * i]);
    assert(c.subrange(2 * i, 2 * i + 2)[1] == c[2 * i + 1]);
    assert(e.subrange(base + 2 * i, base + 2 * i + 2) =~= f(s[i]));
}

/// The bytes of a format 4 subtable hold, as OpenType lays it out, the
/// format 4 at 0, its length at 2, its language at 4, twice the number of
/// segments at 6, the search range, entry selector and range shift at 8 to
/// 12; then, for `n` segments, the last codes from 14, a zero word at
/// `14 + 2 n`, the first codes from `16 + 2 n`, the deltas from `16 + 4 n`
/// and the range offsets from `16 + 6 n`, two bytes each.
#[verifier::rlimit(40)]
pub proof fn lemma_fmt4_layout(t: &Table)
    ensures
        ({
            let e = t.encoding();
            let s = t.segments@;
            let n = s.len() as int;
            &&& e.len() == 16 + 8 * n
            &&& read_u16(e, 0) == 4
            &&& read_u16(e, 2) == t.length
            &&& read_u16(e, 4) == t.language
            &&& read_u16(e, 6) == t.seg_count_x2
            &&& read_u16(e, 8) == t.search_range
            &&& read_u16(e, 10) == t.entry_selector
            &&& read_u16(e, 12) == t.range_shift
            &&& read_u16(e, 14 + 2 * n) == 0
            &&& forall|i: int|
                0 <= i < n ==> {
                    &&& read_u16(e, 14 + 2 * i) == (#[trigger] s[i]).end_code
                    &&& read_u16(e, 16 + 2 * n + 2 * i) == s[i].start_code
                    &&& read_i16(e, 16 + 4 * n + 2 * i) == s[i].id_delta
                    &&& read_u16(e, 16 + 6 * n + 2 * i) == s[i].id_range_offset
                }
        }),
{
    let e = t.encoding();
    let s = t.segments@;
    let n = s.len() as int;
    let h = u16_bytes(4) + u16_bytes(t.length) + u16_bytes(t.language) + u16_bytes(t.seg_count_x2)
        + u16_bytes(t.search_range) + u16_bytes(t.entry_selector) + u16_bytes(t.range_shift);
    let a = concat_map(s, end_enc());
    let b = concat_map(s, start_enc());
    let c = concat_map(s, delta_enc());
    let d = concat_map(s, offset_enc());
    assert(e == h + a + u16_bytes(0) + b + c + d);
    assert forall|j: int| 0 <= j < n implies (#[trigger] end_enc()(s[j])).len() == 2 by {}
    assert forall|j: int| 0 <= j < n implies (#[trigger] start_enc()(s[j])).len() == 2 by {}
    assert forall|j: int| 0 <= j < n implies (#[trigger] delta_enc()(s[j])).len() == 2 by {}
    assert forall|j: int| 0 <= j < n implies (#[trigger] offset_enc()(s[j])).len() == 2 by {}
    lemma_concat_map_len(s, end_enc(), 2);
    lemma_concat_map_len(s, start_enc(), 2);
    lemma_concat_map_len(s, delta_enc(), 2);
    lemma_concat_map_len(s, offset_enc(), 2);
    assert(e.subrange(0, 2) =~= u16_bytes(4));
    assert(e.subrange(2, 4) =~= u16_bytes(t.length));
    assert(e.subrange(4, 6) =~= u16_bytes(t.language));
    assert(e.subrange(6, 8) =~= u16_bytes(t.seg_count_x2));
    assert(e.subrange(8, 10) =~= u16_bytes(t.search_range));
    assert(e.subrange(10, 12) =~= u16_bytes(t.entry_selector));
    assert(e.subrange(12, 14) =~= u16_bytes(t.range_shift));
    assert(e.subrange(14 + 2 * n, 16 + 2 * n) =~= u16_bytes(0));
    lemma_read_at(e, 0, u16_bytes(4));
    lemma_read_at(e, 2, u16_bytes(t.length));
    lemma_read_at(e, 4, u16_bytes(t.language));
    lemma_read_at(e, 6, u16_bytes(t.seg_count_x2));
    lemma_read_at(e, 8, u16_bytes(t.search_range));
    lemma_read_at(e, 10, u16_bytes(t.entry_selector));
    lemma_read_at(e, 12, u16_bytes(t.range_shift));
    lemma_read_at(e, 14 + 2 * n, u16_bytes(0));
    lemma_read_u16(4);
    lemma_read_u16(t.length);
    lemma_read_u16(t.language);
    lemma_read_u16(t.seg_count_x2);
    lemma_read_u16(t.search_range);
    lemma_read_u16(t.entry_selector);
    lemma_read_u16(t.range_shift);
    lemma_read_u16(0);
    assert(e.subrange(14, 14 + 2 * n) =~= a);
    assert(e.subrange(16 + 2 * n, 16 + 4 * n) =~= b);
    assert(e.subrange(16 + 4 * n, 16 + 6 * n) =~= c);
    assert(e.subrange(16 + 6 * n, 16 + 8 * n) =~= d);
    assert forall|i: int| 0 <= i < n implies {
        &&& read_u16(e, 14 + 2 * i) == (#[trigger] s[i]).end_code
        &&& read_u16(e, 16 + 2 * n + 2 * i) == s[i].start_code
        &&& read_i16(e, 16 + 4 * n + 2 * i) == s[i].id_delta
        &&& read_u16(e, 16 + 6 * n + 2 * i) == s[i].id_range_offset
    } by {
        lemma_array_item(e, 14, s, end_enc(), i);
        lemma_array_item(e, 16 + 2 * n, s, start_enc(), i);
        lemma_array_item(e, 16 + 4 * n, s, delta_enc(), i);
        lemma_array_item(e, 16 + 6 * n, s, offset_enc(), i);
        lemma_read_at(e, 14 + 2 * i, u16_bytes(s[i].end_code));
        lemma_read_at(e, 16 + 2 * n + 2 * i, u16_bytes(s[i].start_code));
        lemma_read_at(e, 16 + 4 * n + 2 * i, i16_bytes(s[i].id_delta));
        lemma_read_at(e, 16 + 6 * n + 2 * i, u16_bytes(s[i].id_range_offset));
        lemma_read_u16(s[i].end_code);
        lemma_read_u16(s[i].start_code);
        lemma_read_i16(s[i].id_delta);
        lemma_read_u16(s[i].id_range_offset);
    }
}

} // verus!
