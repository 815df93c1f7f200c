//! Format 12 of the `cmap` subtables: segmented coverage.
use crate::buf::BufSink;
use crate::bytes_spec::{
    lemma_read_at, lemma_read_u16, lemma_read_u32, read_u16, read_u32, u16_bytes, u32_bytes,
};
use crate::hl::cmap::{SeqMapping, SubTable};
use crate::model::cmap::fmt4::run_end_fits;
use crate::model::encoding::NON_MACINTOSH_LANG_CODE;
use crate::seq_util::{
    concat_map, lemma_concat_map_fixed_at, lemma_concat_map_len, lemma_concat_map_take_len,
    lemma_concat_map_take_step,
};
use vstd::prelude::*;

verus! {

/// The codes `start_code ..= end_code` map to consecutive glyphs from
/// `start_glyph_id`.
#[derive(Debug, Clone, Copy, PartialEq, Eq, Structural)]
pub struct SequentialMapGroup {
    pub start_code: u32,
    pub end_code: u32,
    pub start_glyph_id: u32,
}

/// A format 12 subtable.
#[derive(Debug)]
pub struct Table {
    pub language: u32,
    pub groups: Vec<SequentialMapGroup>,
}

pub open spec fn group_enc() -> spec_fn(SequentialMapGroup) -> Seq<u8> {
    |g: SequentialMapGroup| u32_bytes(g.start_code) + u32_bytes(g.end_code) + u32_bytes(
        g.start_glyph_id,
    )
}

/// The group of a run of character codes.
pub open spec fn run_group(m: SeqMapping) -> SequentialMapGroup {
    SequentialMapGroup {
        start_code: m.start_code,
        end_code: (m.start_code + m.len - 1) as u32,
        start_glyph_id: m.glyph_id,
    }
}

impl Table {
    /// The size of the written table, `16 + 12 * n` for `n` groups.
    pub open spec fn spec_byte_length(&self) -> int {
        16 + 12 * self.groups@.len() as int
    }

    /// The header holds the size and the group count in 32 bits.
    pub open spec fn encoding(&self) -> Seq<u8> {
        u16_bytes(12) + u16_bytes(0) + u32_bytes((self.spec_byte_length() % 0x1_0000_0000) as u32)
            + u32_bytes(self.language) + u32_bytes((self.groups@.len() % 0x1_0000_0000) as u32)
            + concat_map(self.groups@, group_enc())
    }

    pub fn byte_length(&self) -> (r: usize)
        requires
            self.spec_byte_length() <= usize::MAX,
        ensures
            r == self.spec_byte_length(),
    {
        // format + reserved + byte_length_including_header + language + count
        let header_size: usize = 2 + 2 + 4 + 4 + 4;
        // start_code + end_code + start_glyph_id
        let size_of_group: usize = 3 * 4;
        header_size + self.groups.len() * size_of_group
    }

    /// The encoding is as long as `byte_length` says.
    pub proof fn lemma_encoding_len(&self)
        ensures
            self.encoding().len() == self.spec_byte_length(),
    {
        let s = self.groups@;
        let f = group_enc();
        assert forall|i: int| 0 <= i < s.len() implies (#[trigger] f(s[i])).len() == 12 by {}
        lemma_concat_map_len(s, f, 12);
    }

    pub fn write<W: BufSink>(&self, writer: &mut W)
        requires
            old(writer).written().len() + self.encoding().len() <= isize::MAX,
        ensures
            final(writer).written() == old(writer).written() + self.encoding(),
    {
        proof {
            self.lemma_encoding_len();
        }
        let ghost base = old(writer).written();
        let size_of_table: u32 = (self.byte_length() as u64 % 0x1_0000_0000u64) as u32;
        let count: u32 = (self.groups.len() as u64 % 0x1_0000_0000u64) as u32;
        writer.put_u16(12);
        writer.put_u16(0);
        writer.put_u32(size_of_table);
        writer.put_u32(self.language);
        writer.put_u32(count);
        let ghost head = writer.written();
        let ghost s = self.groups@;
        let mut i: usize = 0;
        while i < self.groups.len()
            invariant
                s == self.groups@,
                i <= s.len(),
                head.len() + concat_map(s, group_enc()).len() <= isize::MAX,
                writer.written() == head + concat_map(s.take(i as int), group_enc()),
            decreases s.len() - i,
        {
            proof {
                lemma_concat_map_take_step(s, i as int, group_enc());
                lemma_concat_map_take_len(s, i as int + 1, group_enc());
            }
            let group = self.groups[i];
            writer.put_u32(group.start_code);
            writer.put_u32(group.end_code);
            writer.put_u32(group.start_glyph_id);
            assert(writer.written() =~= head + concat_map(s.take(i as int + 1), group_enc()));
            i = i + 1;
        }
        assert(s.take(i as int) =~= s);
        assert(writer.written() =~= base + self.encoding());
    }

    /// Convert a raw subtable to a format 12 subtable: one group per run,
    /// in the same order.
    pub fn from_raw(raw: &SubTable) -> (r: Self)
        requires
            forall|i: int| 0 <= i < raw@.len() ==> run_end_fits(#[trigger] raw@[i]),
        ensures
            r.groups@ == raw@.map_values(|m: SeqMapping| run_group(m)),
            r.language == NON_MACINTOSH_LANG_CODE,
    {
        let mut groups: Vec<SequentialMapGroup> = Vec::new();
        let mut i: usize = 0;
        while i < raw.len()
            invariant
                i <= raw@.len(),
                forall|j: int| 0 <= j < raw@.len() ==> run_end_fits(#[trigger] raw@[j]),
                groups@ == raw@.take(i as int).map_values(|m: SeqMapping| run_group(m)),
            decreases raw@.len() - i,
        {
            let mapping = raw[i];
            assert(run_end_fits(raw@[i as int]));
            groups.push(
                SequentialMapGroup {
                    start_code: mapping.start_code,
                    end_code: mapping.start_code + mapping.len - 1,
                    start_glyph_id: mapping.glyph_id,
                },
            );
            assert(groups@ =~= raw@.take(i as int + 1).map_values(|m: SeqMapping| run_group(m)));
            i = i + 1;
        }
        assert(raw@.take(i as int) =~= raw@);
        Table { language: NON_MACINTOSH_LANG_CODE as u32, groups }
    }
}


/// The bytes of a format 12 subtable hold the format 12 at 0, a zero word,
/// its length at 4, its language at 8 and the number of groups at 12 (the
/// last three in 32 bits), then group `i` at `16 + 12 i`: its first code,
/// its last code and its first glyph, four bytes each.
#[verifier::rlimit(30)]
pub proof fn lemma_fmt12_layout(t: &Table)
    ensures
        t.encoding().len() == 16 + 12 * t.groups@.len(),
        read_u16(t.encoding(), 0) == 12,
        read_u16(t.encoding(), 2) == 0,
        read_u32(t.encoding(), 4) == (16 + 12 * t.groups@.len()) % 0x1_0000_0000,
        read_u32(t.encoding(), 8) == t.language,
        read_u32(t.encoding(), 12) == t.groups@.len() % 0x1_0000_0000,
        forall|i: int|
            0 <= i < t.groups@.len() ==> {
                &&& read_u32(t.encoding(), 16 + 12 * i) == (#[trigger] t.groups@[i]).start_code
                &&& read_u32(t.encoding(), 20 + 12 * i) == t.groups@[i].end_code
                &&& read_u32(t.encoding(), 24 + 12 * i) == t.groups@[i].start_glyph_id
            },
{
    let gs = t.groups@;
    let e = t.encoding();
    let len32 = (t.spec_byte_length() % 0x1_0000_0000) as u32;
    let n32 = (gs.len() % 0x1_0000_0000) as u32;
    let h = u16_bytes(12) + u16_bytes(0) + u32_bytes(len32) + u32_bytes(t.language) + u32_bytes(n32);
    let c = concat_map(gs, group_enc());
    assert(e == h + c);
    assert forall|i: int| 0 <= i < gs.len() implies (#[trigger] group_enc()(gs[i])).len() == 12 by {}
    lemma_concat_map_len(gs, group_enc(), 12);
    assert(e.subrange(0, 2) =~= u16_bytes(12));
    assert(e.subrange(2, 4) =~= u16_bytes(0));
    assert(e.subrange(4, 8) =~= u32_bytes(len32));
    assert(e.subrange(8, 12) =~= u32_bytes(t.language));
    assert(e.subrange(12, 16) =~= u32_bytes(n32));
    lemma_read_at(e, 0, u16_bytes(12));
    lemma_read_at(e, 2, u16_bytes(0));
    lemma_read_at(e, 4, u32_bytes(len32));
    lemma_read_at(e, 8, u32_bytes(t.language));
    lemma_read_at(e, 12, u32_bytes(n32));
    lemma_read_u16(12);
    lemma_read_u16(0);
    lemma_read_u32(len32);
    lemma_read_u32(t.language);
    lemma_read_u32(n32);
    assert forall|i: int| 0 <= i < gs.len() implies {
        &&& read_u32(e, 16 + 12 * i) == (#[trigger] gs[i]).start_code
        &&& read_u32(e, 20 + 12 * i) == gs[i].end_code
        &&& read_u32(e, 24 + 12 * i) == gs[i].start_glyph_id
    } by {
        lemma_fmt12_group_at(t, i);
    }
}


/// Group `i` of a format 12 subtable stands at `16 + 12 i`.
proof fn lemma_fmt12_group_at(t: &Table, i: int)
    requires
        0 <= i < t.groups@.len(),
    ensures
        read_u32(t.encoding(), 16 + 12 * i) == t.groups@[i].start_code,
        read_u32(t.encoding(), 20 + 12 * i) == t.groups@[i].end_code,
        read_u32(t.encoding(), 24 + 12 * i) == t.groups@[i].start_glyph_id,
{
    lemma_fmt12_group_bytes(t, i);
    lemma_group_reads(t.encoding(), 16 + 12 * i, t.groups@[i]);
}

/// The bytes of group `i` stand at `16 + 12 i`.
proof fn lemma_fmt12_group_bytes(t: &Table, i: int)
    requires
        0 <= i < t.groups@.len(),
    ensures
        16 + 12 * i + 12 <= t.encoding().len(),
        t.encoding().subrange(16 + 12 * i, 16 + 12 * i + 12) == group_enc()(t.groups@[i]),
{
    let gs = t.groups@;
    let len32 = (t.spec_byte_length() % 0x1_0000_0000) as u32;
    let n32 = (gs.len() % 0x1_0000_0000) as u32;
    let h = u16_bytes(12) + u16_bytes(0) + u32_bytes(len32) + u32_bytes(t.language) + u32_bytes(n32);
    let c = concat_map(gs, group_enc());
    assert(t.encoding() == h + c);
    assert(h.len() == 16);
    assert forall|j: int| 0 <= j < gs.len() implies (#[trigger] group_enc()(gs[j])).len() == 12 by {}
    lemma_concat_map_fixed_at(gs, group_enc(), 12, i);
    lemma_subrange_after(h, c, 12 * i, 12 * i + 12);
}

/// The three words of a group read back as its fields.
proof fn lemma_group_reads(e: Seq<u8>, o: int, g: SequentialMapGroup)
    requires
        0 <= o,
        o + 12 <= e.len(),
        e.subrange(o, o + 12) == group_enc()(g),
    ensures
        read_u32(e, o) == g.start_code,
        read_u32(e, o + 4) == g.end_code,
        read_u32(e, o + 8) == g.start_glyph_id,
{
    let w = group_enc()(g);
    assert(w == u32_bytes(g.start_code) + u32_bytes(g.end_code) + u32_bytes(g.start_glyph_id));
    let a = u32_bytes(g.start_code);
    let b = u32_bytes(g.end_code);
    let c = u32_bytes(g.start_glyph_id);
    assert forall|k: int| 0 <= k < 12 implies e[o + k] == #[trigger] w[k] by {
        assert(e.subrange(o, o + 12)[k] == e[o + k]);
    }
    assert(w.subrange(0, 4) =~= a);
    assert(w.subrange(4, 8) =~= b);
    assert(w.subrange(8, 12) =~= c);
    assert(e.subrange(o, o + 4) =~= a);
    assert(e.subrange(o + 4, o + 8) =~= b);
    assert(e.subrange(o + 8, o + 12) =~= c);
    lemma_read_at(e, o, u32_bytes(g.start_code));
    lemma_read_at(e, o + 4, u32_bytes(g.end_code));
    lemma_read_at(e, o + 8, u32_bytes(g.start_glyph_id));
    lemma_read_u32(g.start_code);
    lemma_read_u32(g.end_code);
    lemma_read_u32(g.start_glyph_id);
}


proof fn lemma_subrange_after(h: Seq<u8>, c: Seq<u8>, a: int, b: int)
    requires
        0 <= a <= b <= c.len(),
    ensures
        (h + c).subrange(h.len() + a, h.len() + b) == c.subrange(a, b),
{
    assert((h + c).subrange(h.len() + a, h.len() + b) =~= c.subrange(a, b));
}

} // verus!
