//! Model of the `cmap` table.
//!
//! The `cmap` table has a lot of different formats due to historical reasons.
//! This implementation, however, currently only support writing formats 4 and
//! 12, as they are the most commonly used today.
pub mod fmt12;
pub mod fmt4;

use crate::buf::BufSink;
use crate::bytes_spec::{lemma_read_at, lemma_read_u16, lemma_read_u32, read_u16, read_u32, u16_bytes, u32_bytes};
use crate::model::ITable;
use crate::seq_util::{
    lemma_concat_map_fixed_at,
    concat_map, lemma_concat_map_append, lemma_concat_map_len, lemma_concat_map_split,
    lemma_concat_map_take_len, lemma_concat_map_take_step,
};
use crate::hl::cmap::{
    fmt12_records, fmt4_records, Encoding, SeqMapping, SubTable, Table as RawTable,
};
use crate::model::cmap::fmt12::run_group;
use crate::model::cmap::fmt4::{
    bmp_segments, final_segment, fmt4_run_ok, lemma_segments_sorted, run_end_fits, segment_key,
};
use crate::model::encoding::{EncodingRecord, NON_MACINTOSH_LANG_CODE};
use crate::sort::{
    insert_by_key, lemma_insert_by_key, lemma_stable_sort, sorted_by_key, stable_sort_by_key,
};
use vstd::prelude::*;

verus! {

/// Representing a subtable for a specific platform and encoding.
#[derive(Debug)]
pub enum Subtable {
    Format4(fmt4::Table),
    Format12(fmt12::Table),
}

impl Subtable {
    pub open spec fn encoding(&self) -> Seq<u8> {
        match self {
            Subtable::Format4(t) => t.encoding(),
            Subtable::Format12(t) => t.encoding(),
        }
    }

    /// The size that the subtable claims for itself.
    pub open spec fn spec_byte_length(&self) -> int {
        match self {
            Subtable::Format4(t) => t.length as int,
            Subtable::Format12(t) => t.spec_byte_length(),
        }
    }

    /// The claimed size is the written size.
    pub open spec fn wf(&self) -> bool {
        match self {
            Subtable::Format4(t) => t.wf(),
            Subtable::Format12(_) => true,
        }
    }

    pub proof fn lemma_encoding_len(&self)
        requires
            self.wf(),
        ensures
            self.encoding().len() == self.spec_byte_length(),
    {
        match self {
            Subtable::Format4(t) => t.lemma_encoding_len(),
            Subtable::Format12(t) => t.lemma_encoding_len(),
        }
    }

    pub fn byte_length(&self) -> (r: usize)
        requires
            self.spec_byte_length() <= usize::MAX,
        ensures
            r == self.spec_byte_length(),
    {
        match self {
            Subtable::Format4(table) => table.byte_length(),
            Subtable::Format12(table) => table.byte_length(),
        }
    }

    pub fn write<W: BufSink>(&self, writer: &mut W)
        requires
            old(writer).written().len() + self.encoding().len() <= isize::MAX,
        ensures
            final(writer).written() == old(writer).written() + self.encoding(),
    {
        match self {
            Subtable::Format4(table) => table.write(writer),
            Subtable::Format12(table) => table.write(writer),
        }
    }

    /// The subtable is the one `from_raw` builds in format `fmt` from the
    /// (sorted) runs.
    pub open spec fn built_from(&self, fmt: u8, runs: Seq<SeqMapping>) -> bool {
        match self {
            Subtable::Format4(t) => {
                &&& fmt == 4
                &&& t.segments@ == bmp_segments(runs).push(final_segment())
                &&& t.language == NON_MACINTOSH_LANG_CODE
                &&& t.wf()
            },
            Subtable::Format12(t) => {
                &&& fmt == 12
                &&& t.groups@ == runs.map_values(|m: SeqMapping| run_group(m))
                &&& t.language == NON_MACINTOSH_LANG_CODE
            },
        }
    }
}

/// A runtime representation of the `cmap` table.
pub struct Table {
    /// The list of subtables that will be written in order.
    pub subtables: Vec<Subtable>,
    /// The mapping between encoding and their corresponding subtables
    /// indices in the `subtables` list.
    ///
    /// This mapping is used because multiple encodings can share the same
    /// subtable, e.g. Microsoft and Unicode both have UCS-2 tables and they
    /// can be shared.
    pub mapping: Vec<(EncodingRecord, usize)>,
}

/// Runs are ordered by their first character code.
pub open spec fn run_key() -> spec_fn(SeqMapping) -> int {
    |m: SeqMapping| m.start_code as int
}

/// Records are ordered by platform ID, then encoding ID.
pub open spec fn record_key() -> spec_fn((EncodingRecord, usize)) -> int {
    |p: (EncodingRecord, usize)| p.0.order_key()
}

/// The subtables that `from_raw` builds for a mapping, in order: the format
/// and the index of the raw subtable of each.
pub open spec fn plan(mapping: Seq<(Encoding, usize)>) -> Seq<(u8, usize)>
    decreases mapping.len(),
{
    if mapping.len() == 0 {
        seq![]
    } else {
        let (e, idx) = mapping.last();
        plan(mapping.drop_last()) + (if fmt4_records(e).len() > 0 {
            seq![(4u8, idx)]
        } else {
            seq![]
        }) + (if fmt12_records(e).len() > 0 {
            seq![(12u8, idx)]
        } else {
            seq![]
        })
    }
}

/// The encoding records that `from_raw` emits for a mapping, before they are
/// sorted, each with the index of its subtable.
pub open spec fn plan_records(mapping: Seq<(Encoding, usize)>) -> Seq<(EncodingRecord, usize)>
    decreases mapping.len(),
{
    if mapping.len() == 0 {
        seq![]
    } else {
        let (e, _) = mapping.last();
        let base = plan(mapping.drop_last()).len();
        let n4: int = if fmt4_records(e).len() > 0 {
            1
        } else {
            0
        };
        plan_records(mapping.drop_last()) + fmt4_records(e).map_values(
            |r: EncodingRecord| (r, base as usize),
        ) + fmt12_records(e).map_values(|r: EncodingRecord| (r, (base + n4) as usize))
    }
}

/// Every record that `from_raw` emits names one of the subtables it builds.
pub proof fn lemma_plan_records_index(mapping: Seq<(Encoding, usize)>)
    ensures
        forall|i: int|
            0 <= i < plan_records(mapping).len() ==> (#[trigger] plan_records(mapping)[i]).1 < plan(
                mapping,
            ).len(),
    decreases mapping.len(),
{
    if mapping.len() > 0 {
        let prev = mapping.drop_last();
        lemma_plan_records_index(prev);
        let (e, _) = mapping.last();
        let base = plan(prev).len();
        let pr = plan_records(mapping);
        let n0 = plan_records(prev).len();
        let n4 = fmt4_records(e).len();
        let n4i: int = if n4 > 0 {
            1
        } else {
            0
        };
        let b4 = fmt4_records(e).map_values(|r: EncodingRecord| (r, base as usize));
        let b12 = fmt12_records(e).map_values(|r: EncodingRecord| (r, (base + n4i) as usize));
        assert(pr == plan_records(prev) + b4 + b12);
        assert forall|i: int| 0 <= i < pr.len() implies (#[trigger] pr[i]).1 < plan(mapping).len() by {
            if i < n0 {
                assert(pr[i] == plan_records(prev)[i]);
            } else if i < n0 + n4 {
                assert(pr[i] == b4[i - n0]);
            } else {
                assert(pr[i] == b12[i - n0 - n4]);
            }
        }
    }
}

/// What `from_raw` requires of the raw table: every index names a subtable,
/// and the runs of each subtable can be converted to the formats its
/// encoding needs.
pub open spec fn raw_convertible(raw: RawTable) -> bool {
    forall|i: int|
        0 <= i < raw.mapping@.len() ==> {
            let (e, idx) = #[trigger] raw.mapping@[i];
            &&& idx < raw.subtables@.len()
            &&& fmt4_records(e).len() > 0 ==> {
                &&& raw.subtables@[idx as int]@.len() < 8189
                &&& forall|j: int|
                    0 <= j < raw.subtables@[idx as int]@.len() ==> fmt4_run_ok(
                        #[trigger] raw.subtables@[idx as int]@[j],
                    )
            }
            &&& fmt12_records(e).len() > 0 ==> forall|j: int|
                0 <= j < raw.subtables@[idx as int]@.len() ==> run_end_fits(
                    #[trigger] raw.subtables@[idx as int]@[j],
                )
        }
}

/// A predicate that holds of every element of a sequence holds of every
/// element of its stable sort.
pub proof fn lemma_sort_keeps_all<T>(s: Seq<T>, key: spec_fn(T) -> int, p: spec_fn(T) -> bool)
    requires
        forall|i: int| 0 <= i < s.len() ==> p(#[trigger] s[i]),
    ensures
        forall|i: int|
            0 <= i < stable_sort_by_key(s, key).len() ==> p(#[trigger] stable_sort_by_key(s, key)[i]),
{
    broadcast use vstd::seq_lib::group_to_multiset_ensures;

    lemma_stable_sort(s, key);
    let t = stable_sort_by_key(s, key);
    assert forall|i: int| 0 <= i < t.len() implies p(#[trigger] t[i]) by {
        assert(t.contains(t[i]));
        assert(t.to_multiset().count(t[i]) > 0);
        assert(s.contains(t[i]));
    }
}

/// Sorts runs stably by their first character code.
fn sort_runs(v: &Vec<SeqMapping>) -> (r: Vec<SeqMapping>)
    ensures
        r@ == stable_sort_by_key(v@, run_key()),
{
    let mut r: Vec<SeqMapping> = Vec::new();
    let mut i: usize = 0;
    while i < v.len()
        invariant
            i <= v@.len(),
            r@ == stable_sort_by_key(v@.take(i as int), run_key()),
            sorted_by_key(r@, run_key()),
        decreases v@.len() - i,
    {
        let x = v[i];
        let k = x.start_code;
        let mut j: usize = 0;
        while j < r.len() && r[j].start_code <= k
            invariant
                j <= r@.len(),
                forall|t: int| 0 <= t < j ==> (#[trigger] r@[t]).start_code <= k,
            decreases r@.len() - j,
        {
            j = j + 1;
        }
        proof {
            let key = run_key();
            assert forall|t: int| 0 <= t < j implies key(#[trigger] r@[t]) <= key(x) by {}
            assert forall|t: int| j <= t < r@.len() implies key(#[trigger] r@[t]) > key(x) by {
                assert(key(r@[j as int]) <= key(r@[t]));
            }
            lemma_insert_by_key(r@, x, key, j as int);
            assert(v@.take(i as int + 1).drop_last() =~= v@.take(i as int));
            assert(v@.take(i as int + 1).last() == x);
        }
        r.insert(j, x);
        i = i + 1;
    }
    assert(v@.take(i as int) =~= v@);
    r
}

fn record_order_key(p: &(EncodingRecord, usize)) -> (k: u32)
    ensures
        k == record_key()(*p),
{
    p.0.platform_id.to_u16() as u32 * 0x1_0000 + p.0.encoding_id as u32
}

/// Sorts records stably by platform ID, then encoding ID.
fn sort_records(v: &Vec<(EncodingRecord, usize)>) -> (r: Vec<(EncodingRecord, usize)>)
    ensures
        r@ == stable_sort_by_key(v@, record_key()),
{
    let mut r: Vec<(EncodingRecord, usize)> = Vec::new();
    let mut i: usize = 0;
    while i < v.len()
        invariant
            i <= v@.len(),
            r@ == stable_sort_by_key(v@.take(i as int), record_key()),
            sorted_by_key(r@, record_key()),
        decreases v@.len() - i,
    {
        let x = v[i];
        let k = record_order_key(&x);
        let mut j: usize = 0;
        while j < r.len() && record_order_key(&r[j]) <= k
            invariant
                j <= r@.len(),
                forall|t: int| 0 <= t < j ==> record_key()(#[trigger] r@[t]) <= k,
            decreases r@.len() - j,
        {
            j = j + 1;
        }
        proof {
            let key = record_key();
            assert forall|t: int| j <= t < r@.len() implies key(#[trigger] r@[t]) > key(x) by {
                assert(key(r@[j as int]) <= key(r@[t]));
            }
            lemma_insert_by_key(r@, x, key, j as int);
            assert(v@.take(i as int + 1).drop_last() =~= v@.take(i as int));
            assert(v@.take(i as int + 1).last() == x);
        }
        r.insert(j, x);
        i = i + 1;
    }
    assert(v@.take(i as int) =~= v@);
    r
}

impl Table {
    /// Converts a raw `cmap` table ([`RawTable`]) to the concrete runtime
    /// representation ([`Table`]).
    ///
    /// The runs of each raw subtable are first sorted stably by their first
    /// character code. Then, for each entry of the raw mapping in order, a
    /// format 4 subtable is built if the encoding has format 4 records, and a
    /// format 12 subtable if it has format 12 records; each record points to
    /// its new subtable. Finally the records are sorted stably by platform ID
    /// and encoding ID, as the OpenType specification requires.
    pub fn from_raw(raw: RawTable) -> (r: Self)
        requires
            raw_convertible(raw),
        ensures
            r.subtables@.len() == plan(raw.mapping@).len(),
            forall|k: int|
                0 <= k < r.subtables@.len() ==> (#[trigger] r.subtables@[k]).built_from(
                    plan(raw.mapping@)[k].0,
                    stable_sort_by_key(raw.subtables@[plan(raw.mapping@)[k].1 as int]@, run_key()),
                ),
            r.mapping@ == stable_sort_by_key(plan_records(raw.mapping@), record_key()),
            sorted_by_key(r.mapping@, record_key()),
            forall|i: int| 0 <= i < r.mapping@.len() ==> (#[trigger] r.mapping@[i]).1 < r.subtables@.len(),
            forall|k: int| 0 <= k < r.subtables@.len() ==> (#[trigger] r.subtables@[k]).wf(),
            forall|k: int|
                0 <= k < r.subtables@.len() && (#[trigger] r.subtables@[k]) is Format4
                    ==> sorted_by_key(r.subtables@[k]->Format4_0.segments@, segment_key()),
    {
        // Ensure that the character mappings within each subtable is sorted.
        let mut sorted: Vec<SubTable> = Vec::new();
        let mut i: usize = 0;
        while i < raw.subtables.len()
            invariant
                i <= raw.subtables@.len(),
                sorted@.len() == i,
                forall|j: int|
                    0 <= j < i ==> (#[trigger] sorted@[j])@ == stable_sort_by_key(
                        raw.subtables@[j]@,
                        run_key(),
                    ),
            decreases raw.subtables@.len() - i,
        {
            let s = sort_runs(&raw.subtables[i]);
            sorted.push(s);
            i = i + 1;
        }
        let ghost rm = raw.mapping@;
        let mut subtables: Vec<Subtable> = Vec::new();
        let mut mapping: Vec<(EncodingRecord, usize)> = Vec::new();
        let mut i: usize = 0;
        while i < raw.mapping.len()
            invariant
                rm == raw.mapping@,
                raw_convertible(raw),
                i <= rm.len(),
                sorted@.len() == raw.subtables@.len(),
                forall|j: int|
                    0 <= j < sorted@.len() ==> (#[trigger] sorted@[j])@ == stable_sort_by_key(
                        raw.subtables@[j]@,
                        run_key(),
                    ),
                subtables@.len() == plan(rm.take(i as int)).len(),
                forall|k: int|
                    0 <= k < subtables@.len() ==> (#[trigger] subtables@[k]).built_from(
                        plan(rm.take(i as int))[k].0,
                        stable_sort_by_key(
                            raw.subtables@[plan(rm.take(i as int))[k].1 as int]@,
                            run_key(),
                        ),
                    ),
                mapping@ == plan_records(rm.take(i as int)),
            decreases rm.len() - i,
        {
            let (encoding, tbl_index) = raw.mapping[i];
            let ghost prev = rm.take(i as int);
            let ghost next = rm.take(i as int + 1);
            proof {
                assert(next.drop_last() =~= prev);
                assert(next.last() == rm[i as int]);
                assert(rm[i as int] == (encoding, tbl_index));
            }
            let tbl = &sorted[tbl_index];
            proof {
                let raw_runs = raw.subtables@[tbl_index as int]@;
                lemma_stable_sort(raw_runs, run_key());
                lemma_sort_keeps_all(raw_runs, run_key(), |m: SeqMapping| fmt4_run_ok(m) || fmt4_records(encoding).len() == 0);
                lemma_sort_keeps_all(raw_runs, run_key(), |m: SeqMapping| run_end_fits(m) || fmt12_records(encoding).len() == 0);
            }
            let fmt4_tbls = encoding.to_encoding_records_fmt4();
            let ghost mid_subs = subtables@;
            let ghost mid_map = mapping@;
            if fmt4_tbls.len() > 0 {
                let idx = subtables.len();
                let subtable = Subtable::Format4(fmt4::Table::from_raw(tbl));
                subtables.push(subtable);
                let mut t: usize = 0;
                while t < fmt4_tbls.len()
                    invariant
                        t <= fmt4_tbls@.len(),
                        mapping@ == mid_map + fmt4_tbls@.take(t as int).map_values(
                            |r: EncodingRecord| (r, idx),
                        ),
                    decreases fmt4_tbls@.len() - t,
                {
                    mapping.push((fmt4_tbls[t], idx));
                    assert(mapping@ =~= mid_map + fmt4_tbls@.take(t as int + 1).map_values(
                        |r: EncodingRecord| (r, idx),
                    ));
                    t = t + 1;
                }
                assert(fmt4_tbls@.take(t as int) =~= fmt4_tbls@);
            }
            let fmt12_tbls = encoding.to_encoding_records_fmt12();
            let ghost mid_map2 = mapping@;
            if fmt12_tbls.len() > 0 {
                let idx = subtables.len();
                let subtable = Subtable::Format12(fmt12::Table::from_raw(tbl));
                subtables.push(subtable);
                let mut t: usize = 0;
                while t < fmt12_tbls.len()
                    invariant
                        t <= fmt12_tbls@.len(),
                        mapping@ == mid_map2 + fmt12_tbls@.take(t as int).map_values(
                            |r: EncodingRecord| (r, idx),
                        ),
                    decreases fmt12_tbls@.len() - t,
                {
                    mapping.push((fmt12_tbls[t], idx));
                    assert(mapping@ =~= mid_map2 + fmt12_tbls@.take(t as int + 1).map_values(
                        |r: EncodingRecord| (r, idx),
                    ));
                    t = t + 1;
                }
                assert(fmt12_tbls@.take(t as int) =~= fmt12_tbls@);
            }
            proof {
                let p0 = plan(prev);
                let p1 = plan(next);
                assert(p1.len() == subtables@.len());
                assert forall|k: int| 0 <= k < p0.len() implies p1[k] == p0[k] by {}
                if fmt4_records(encoding).len() == 0 {
                    assert(fmt4_records(encoding).map_values(|r: EncodingRecord| (r, p0.len() as usize)) =~= seq![]);
                }
                if fmt12_records(encoding).len() == 0 {
                    assert(fmt12_records(encoding).map_values(|r: EncodingRecord| (r, p0.len() as usize)) =~= seq![]);
                }
                assert(mapping@ =~= plan_records(next));
            }
            i = i + 1;
        }
        assert(rm.take(i as int) =~= rm);
        // The mapping should be sorted by platform ID and encoding ID,
        // as required by the OpenType specification.
        let sorted_mapping = sort_records(&mapping);
        proof {
            lemma_stable_sort(mapping@, record_key());
            lemma_plan_records_index(rm);
            lemma_sort_keeps_all(
                mapping@,
                record_key(),
                |p: (EncodingRecord, usize)| p.1 < plan(rm).len(),
            );
            assert forall|k: int| 0 <= k < subtables@.len() implies (#[trigger] subtables@[k]).wf() by {
                assert(subtables@[k].built_from(
                    plan(rm)[k].0,
                    stable_sort_by_key(raw.subtables@[plan(rm)[k].1 as int]@, run_key()),
                ));
            }
            assert forall|k: int|
                0 <= k < subtables@.len() && (#[trigger] subtables@[k]) is Format4 implies sorted_by_key(
                subtables@[k]->Format4_0.segments@,
                segment_key(),
            ) by {
                let runs = stable_sort_by_key(raw.subtables@[plan(rm)[k].1 as int]@, run_key());
                assert(subtables@[k].built_from(plan(rm)[k].0, runs));
                lemma_stable_sort(raw.subtables@[plan(rm)[k].1 as int]@, run_key());
                assert forall|i: int, j: int| 0 <= i <= j < runs.len() implies (#[trigger] runs[i]).start_code
                    <= (#[trigger] runs[j]).start_code by {
                    assert(run_key()(runs[i]) <= run_key()(runs[j]));
                }
                lemma_segments_sorted(runs);
            }
        }
        Table { subtables, mapping: sorted_mapping }
    }
}

/// The sum of the claimed sizes of the first `k` subtables.
pub open spec fn lengths_before(subs: Seq<Subtable>, k: nat) -> int
    decreases k,
{
    if k == 0 || k > subs.len() {
        0
    } else {
        lengths_before(subs, (k - 1) as nat) + subs[k - 1].spec_byte_length()
    }
}

pub open spec fn sub_enc() -> spec_fn(Subtable) -> Seq<u8> {
    |s: Subtable| s.encoding()
}

proof fn lemma_lengths_before_mono(subs: Seq<Subtable>, a: nat, b: nat)
    requires
        a <= b <= subs.len(),
    ensures
        0 <= lengths_before(subs, a) <= lengths_before(subs, b),
    decreases b,
{
    if b > 0 && a < b {
        lemma_lengths_before_mono(subs, a, (b - 1) as nat);
        assert(subs[b - 1].spec_byte_length() >= 0);
    } else if b > 0 {
        lemma_lengths_before_mono(subs, (a - 1) as nat, (b - 1) as nat);
    }
}

impl Table {
    /// Where subtable `k` starts: after the header, the records and the
    /// subtables before it.
    pub open spec fn subtable_offset(&self, k: int) -> int {
        4 + 8 * self.mapping@.len() + lengths_before(self.subtables@, k as nat)
    }

    /// The bytes of one encoding record: the platform, the encoding and the
    /// offset of its subtable, kept in 32 bits.
    pub open spec fn record_enc(&self) -> spec_fn((EncodingRecord, usize)) -> Seq<u8> {
        |p: (EncodingRecord, usize)|
            u16_bytes(p.0.platform_id.value()) + u16_bytes(p.0.encoding_id) + u32_bytes(
                (self.subtable_offset(p.1 as int) % 0x1_0000_0000) as u32,
            )
    }
}

impl ITable for Table {
    open spec fn encoding(&self) -> Seq<u8> {
        u16_bytes(0) + u16_bytes((self.mapping@.len() % 0x1_0000) as u16) + concat_map(
            self.mapping@,
            self.record_enc(),
        ) + concat_map(self.subtables@, sub_enc())
    }

    open spec fn tag(&self) -> Seq<u8> {
        seq![0x63u8, 0x6du8, 0x61u8, 0x70u8]
    }

    /// Every record names a subtable, and the offsets fit in a `usize`.
    open spec fn writable(&self) -> bool {
        &&& forall|i: int|
            0 <= i < self.mapping@.len() ==> (#[trigger] self.mapping@[i]).1 < self.subtables@.len()
        &&& self.subtable_offset(self.subtables@.len() as int) <= usize::MAX
    }

    fn name(&self) -> (r: [u8; 4]) {
        let r = [0x63u8, 0x6du8, 0x61u8, 0x70u8];
        assert(r@ =~= self.tag());
        r
    }

    fn write<W: BufSink>(&self, writer: &mut W) {
        let ghost subs = self.subtables@;
        let ghost recs = self.mapping@;
        proof {
            lemma_lengths_before_mono(subs, 0, subs.len());
        }
        // To write the header entries, we need to calculate the offset of each
        // subtable first. The table header is 4 bytes long (version and
        // number of records), and each encoding record is 8 bytes long
        // (platform ID, encoding ID and offset).
        let size_header: usize = 4;
        let size_encoding_record: usize = 8;
        let total_size_encoding_records = self.mapping.len() * size_encoding_record;
        let subtables_start_offset = size_header + total_size_encoding_records;
        let mut subtable_offsets: Vec<usize> = Vec::new();
        let mut curr_offset = subtables_start_offset;
        let mut k: usize = 0;
        while k < self.subtables.len()
            invariant
                subs == self.subtables@,
                self.writable(),
                k <= subs.len(),
                subtable_offsets@.len() == k,
                forall|j: int| 0 <= j < k ==> #[trigger] subtable_offsets@[j] == self.subtable_offset(j),
                curr_offset == self.subtable_offset(k as int),
            decreases subs.len() - k,
        {
            proof {
                lemma_lengths_before_mono(subs, (k + 1) as nat, subs.len());
            }
            subtable_offsets.push(curr_offset);
            curr_offset = curr_offset + self.subtables[k].byte_length();
            k = k + 1;
        }
        let ghost base = old(writer).written();
        // Write header
        writer.put_u16(0);
        writer.put_u16((self.mapping.len() % 0x1_0000) as u16);
        let ghost head = writer.written();
        let ghost f = self.record_enc();
        let ghost g = sub_enc();
        assert(base.len() + 4 + concat_map(recs, f).len() + concat_map(subs, g).len() <= isize::MAX);
        // Write encoding records
        let mut i: usize = 0;
        while i < self.mapping.len()
            invariant
                recs == self.mapping@,
                subs == self.subtables@,
                f == self.record_enc(),
                self.writable(),
                i <= recs.len(),
                subtable_offsets@.len() == subs.len(),
                forall|j: int|
                    0 <= j < subs.len() ==> #[trigger] subtable_offsets@[j] == self.subtable_offset(j),
                head.len() + concat_map(recs, f).len() + concat_map(subs, g).len() <= isize::MAX,
                writer.written() == head + concat_map(recs.take(i as int), f),
            decreases recs.len() - i,
        {
            proof {
                lemma_concat_map_take_step(recs, i as int, f);
                lemma_concat_map_take_len(recs, i as int + 1, f);
            }
            let (encoding, idx) = self.mapping[i];
            assert(self.mapping@[i as int].1 < subs.len());
            let offset: u64 = subtable_offsets[idx] as u64;
            writer.put_u16(encoding.platform_id.to_u16());
            writer.put_u16(encoding.encoding_id);
            writer.put_u32((offset % 0x1_0000_0000u64) as u32);
            assert(writer.written() =~= head + concat_map(recs.take(i as int + 1), f));
            i = i + 1;
        }
        assert(recs.take(i as int) =~= recs);
        let ghost mid = writer.written();
        // Write subtables
        let mut k: usize = 0;
        while k < self.subtables.len()
            invariant
                subs == self.subtables@,
                g == sub_enc(),
                k <= subs.len(),
                mid.len() + concat_map(subs, g).len() <= isize::MAX,
                writer.written() == mid + concat_map(subs.take(k as int), g),
            decreases subs.len() - k,
        {
            proof {
                lemma_concat_map_take_step(subs, k as int, g);
                lemma_concat_map_take_len(subs, k as int + 1, g);
            }
            self.subtables[k].write(writer);
            assert(writer.written() =~= mid + concat_map(subs.take(k as int + 1), g));
            k = k + 1;
        }
        assert(subs.take(k as int) =~= subs);
        assert(writer.written() =~= base + self.encoding());
    }
}

/// With every subtable as long as it claims, the subtables before the
/// `k`-th take `lengths_before(subs, k)` bytes.
proof fn lemma_subtables_prefix_len(subs: Seq<Subtable>, k: int)
    requires
        0 <= k <= subs.len(),
        forall|j: int| 0 <= j < subs.len() ==> (#[trigger] subs[j]).wf(),
    ensures
        concat_map(subs.take(k), sub_enc()).len() == lengths_before(subs, k as nat),
    decreases k,
{
    if k > 0 {
        lemma_subtables_prefix_len(subs, k - 1);
        lemma_concat_map_take_step(subs, k - 1, sub_enc());
        subs[k - 1].lemma_encoding_len();
    }
}

/// In the written table, encoding record `i` stands at `4 + 8 * i`, and the
/// offset it holds is where the bytes of its subtable start.
#[verifier::spinoff_prover]
#[verifier::rlimit(40)]
pub proof fn lemma_record_points_at_subtable(t: &Table, i: int)
    requires
        t.writable(),
        forall|k: int| 0 <= k < t.subtables@.len() ==> (#[trigger] t.subtables@[k]).wf(),
        0 <= i < t.mapping@.len(),
    ensures
        ({
            let idx = t.mapping@[i].1 as int;
            let off = t.subtable_offset(idx);
            let e = t.encoding();
            &&& e.subrange(4 + 8 * i, 4 + 8 * i + 8) == t.record_enc()(t.mapping@[i])
            &&& e.subrange(off, off + t.subtables@[idx].spec_byte_length())
                == t.subtables@[idx].encoding()
        }),
{
    let recs = t.mapping@;
    let subs = t.subtables@;
    let f = t.record_enc();
    let g = sub_enc();
    let idx = recs[i].1 as int;
    assert(idx < subs.len());
    assert forall|j: int| 0 <= j < recs.len() implies (#[trigger] f(recs[j])).len() == 8 by {}
    lemma_concat_map_len(recs, f, 8);
    lemma_concat_map_len(recs.take(i), f, 8);
    lemma_concat_map_split(recs, f, i);
    lemma_concat_map_split(subs, g, idx);
    lemma_subtables_prefix_len(subs, idx);
    subs[idx].lemma_encoding_len();
    let head = u16_bytes(0) + u16_bytes((recs.len() % 0x1_0000) as u16);
    let e = t.encoding();
    assert(e == head + concat_map(recs, f) + concat_map(subs, g));
    assert(e.subrange(4 + 8 * i, 4 + 8 * i + 8) =~= f(recs[i]));
    let off = t.subtable_offset(idx);
    assert(e.subrange(off, off + subs[idx].spec_byte_length()) =~= g(subs[idx]));
}


/// The bytes of the `cmap` table hold the version 0 at 0 and the number of
/// encoding records at 2 (in 16 bits); then record `i` at `4 + 8 i`: its
/// platform, its encoding and the offset of the subtable it names (in 32
/// bits).
pub proof fn lemma_cmap_layout(t: &Table)
    ensures
        ({
            let e = t.encoding();
            let m = t.mapping@;
            &&& read_u16(e, 0) == 0
            &&& read_u16(e, 2) == m.len() % 0x1_0000
            &&& forall|i: int|
                0 <= i < m.len() ==> {
                    &&& read_u16(e, 4 + 8 * i) == (#[trigger] m[i]).0.platform_id.value()
                    &&& read_u16(e, 6 + 8 * i) == m[i].0.encoding_id
                    &&& read_u32(e, 8 + 8 * i) == t.subtable_offset(m[i].1 as int) % 0x1_0000_0000
                }
        }),
{
    let e = t.encoding();
    let m = t.mapping@;
    let n16 = (m.len() % 0x1_0000) as u16;
    let f = t.record_enc();
    let h = u16_bytes(0) + u16_bytes(n16);
    let rb = concat_map(m, f);
    let subs = concat_map(t.subtables@, sub_enc());
    assert(e == h + rb + subs);
    assert forall|j: int| 0 <= j < m.len() implies (#[trigger] f(m[j])).len() == 8 by {}
    lemma_concat_map_len(m, f, 8);
    assert(e.subrange(0, 2) =~= u16_bytes(0));
    assert(e.subrange(2, 4) =~= u16_bytes(n16));
    lemma_read_at(e, 0, u16_bytes(0));
    lemma_read_at(e, 2, u16_bytes(n16));
    lemma_read_u16(0);
    lemma_read_u16(n16);
    assert forall|i: int| 0 <= i < m.len() implies {
        &&& read_u16(e, 4 + 8 * i) == (#[trigger] m[i]).0.platform_id.value()
        &&& read_u16(e, 6 + 8 * i) == m[i].0.encoding_id
        &&& read_u32(e, 8 + 8 * i) == t.subtable_offset(m[i].1 as int) % 0x1_0000_0000
    } by {
        lemma_concat_map_fixed_at(m, f, 8, i);
        let w = f(m[i]);
        assert(rb.subrange(8 * i, 8 * i + 8) == w);
        assert forall|k: int| 0 <= k < 8 implies e[4 + 8 * i + k] == #[trigger] w[k] by {
            assert(rb.subrange(8 * i, 8 * i + 8)[k] == rb[8 * i + k]);
        }
        let off = (t.subtable_offset(m[i].1 as int) % 0x1_0000_0000) as u32;
        let p = u16_bytes(m[i].0.platform_id.value());
        let q = u16_bytes(m[i].0.encoding_id);
        let r = u32_bytes(off);
        assert(w == p + q + r);
        let o = 4 + 8 * i;
        assert(e[o] == w[0] && e[o + 1] == w[1] && e[o + 2] == w[2] && e[o + 3] == w[3]);
        assert(e[o + 4] == w[4] && e[o + 5] == w[5] && e[o + 6] == w[6] && e[o + 7] == w[7]);
        lemma_read_u16(m[i].0.platform_id.value());
        lemma_read_u16(m[i].0.encoding_id);
        lemma_read_u32(off);
    }
}

} // verus!
