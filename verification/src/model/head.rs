//! Implementation of the OpenType `head` table.
//!
//! Times are counted in seconds since 12:00 midnight that started January
//! 1st, 1904, in the GMT/UTC time zone, as the table stores them.
use crate::buf::BufSink;
use crate::bytes_spec::{
    i16_bytes, lemma_read_at, lemma_read_i16, lemma_read_u16, lemma_read_u32, lemma_read_u64,
    read_i16, read_u16, read_u32, read_u64, u16_bytes, u32_bytes, u64_bytes,
};
use crate::model::checksum::{lemma_word_sum_append, lemma_word_sum_be32, word_sum};
use crate::model::ITable;
use vstd::prelude::*;

verus! {

/// The flags of the `head` table.
#[derive(Debug, Clone, Copy, PartialEq, Eq, Structural)]
pub struct HeaderFlags(pub u16);

impl HeaderFlags {
    pub const NOTHING: u16 = 0x0000;
    pub const BASELINE_Y0: u16 = 0x0001;
    pub const LEFT_SIDEBEARING_X0: u16 = 0x0002;
    pub const INSTRUCTIONS_DEPEND_ON_POINT_SIZE: u16 = 0x0004;
    pub const FORCE_PPEM_TO_INT: u16 = 0x0008;
    pub const INSTRUCTIONS_ALTER_ADVANCE_WIDTH: u16 = 0x0010;
    pub const LOSSLESS_FONT_DATA: u16 = 0x0800;
    pub const FONT_CONVERTED: u16 = 0x1000;
    pub const OPTIMIZED_FOR_CLEARTYPE: u16 = 0x2000;
    pub const LAST_RESORT_FONT: u16 = 0x4000;

    pub fn empty() -> (r: Self)
        ensures
            r.0 == 0,
    {
        HeaderFlags(0)
    }

    pub fn bits(&self) -> (r: u16)
        ensures
            r == self.0,
    {
        self.0
    }

    pub fn from_bits_retain(bits: u16) -> (r: Self)
        ensures
            r.0 == bits,
    {
        HeaderFlags(bits)
    }

    /// Whether all bits of `mask` are set.
    pub fn contains(&self, mask: u16) -> (r: bool)
        ensures
            r == (self.0 & mask == mask),
    {
        self.0 & mask == mask
    }

    pub fn union(self, mask: u16) -> (r: Self)
        ensures
            r.0 == self.0 | mask,
    {
        HeaderFlags(self.0 | mask)
    }
}

/// The format of the offsets in the `loca` table.
#[derive(Debug, Clone, Copy, PartialEq, Eq, Structural)]
pub enum IndexToLocFormat {
    Short,
    Long,
}

impl IndexToLocFormat {
    /// The number stored in the table.
    pub open spec fn value(self) -> u16 {
        match self {
            IndexToLocFormat::Short => 0,
            IndexToLocFormat::Long => 1,
        }
    }

    pub fn to_u16(self) -> (r: u16)
        ensures
            r == self.value(),
    {
        match self {
            IndexToLocFormat::Short => 0,
            IndexToLocFormat::Long => 1,
        }
    }
}

/// The style bits of the `head` table.
#[derive(Debug, Clone, Copy, PartialEq, Eq, Structural)]
pub struct MacStyle(pub u16);

impl MacStyle {
    pub const REGULAR: u16 = 0x0000;
    pub const BOLD: u16 = 0x0001;
    pub const ITALIC: u16 = 0x0002;
    pub const UNDERLINE: u16 = 0x0004;
    pub const OUTLINE: u16 = 0x0008;
    pub const SHADOW: u16 = 0x0010;
    pub const CONDENSED: u16 = 0x0020;
    pub const EXTENDED: u16 = 0x0040;

    pub fn empty() -> (r: Self)
        ensures
            r.0 == 0,
    {
        MacStyle(0)
    }

    pub fn bits(&self) -> (r: u16)
        ensures
            r == self.0,
    {
        self.0
    }

    pub fn from_bits_retain(bits: u16) -> (r: Self)
        ensures
            r.0 == bits,
    {
        MacStyle(bits)
    }

    /// Whether all bits of `mask` are set.
    pub fn contains(&self, mask: u16) -> (r: bool)
        ensures
            r == (self.0 & mask == mask),
    {
        self.0 & mask == mask
    }

    pub fn union(self, mask: u16) -> (r: Self)
        ensures
            r.0 == self.0 | mask,
    {
        MacStyle(self.0 | mask)
    }
}

/// The `head` table.
#[derive(Debug, Clone, Copy, PartialEq, Eq, Structural)]
pub struct Table {
    pub font_revision: u32,
    /// Set to 0, will be rewritten in later stages
    pub checksum_adjustment: u32,
    pub flags: HeaderFlags,
    pub units_per_em: u16,
    /// Seconds since the start of 1904, UTC.
    pub created: u64,
    /// Seconds since the start of 1904, UTC.
    pub modified: u64,
    pub x_min: i16,
    pub y_min: i16,
    pub x_max: i16,
    pub y_max: i16,
    pub mac_style: MacStyle,
    pub lowest_rec_ppem: u16,
}

pub const HEAD_MAJOR: u16 = 1;
pub const HEAD_MINOR: u16 = 0;
pub const MAGIC_NUMBER: u32 = 0x5F0F3CF5;

impl ITable for Table {
    /// Version 1.0, then the fields, with the font direction hint 2, the
    /// long `loca` format and glyph data format 0.
    open spec fn encoding(&self) -> Seq<u8> {
        u16_bytes(HEAD_MAJOR) + u16_bytes(HEAD_MINOR) + u32_bytes(self.font_revision) + u32_bytes(
            self.checksum_adjustment,
        ) + u32_bytes(MAGIC_NUMBER) + u16_bytes(self.flags.0) + u16_bytes(self.units_per_em)
            + u64_bytes(self.created) + u64_bytes(self.modified) + i16_bytes(self.x_min)
            + i16_bytes(self.y_min) + i16_bytes(self.x_max) + i16_bytes(self.y_max) + u16_bytes(
            self.mac_style.0,
        ) + u16_bytes(self.lowest_rec_ppem) + i16_bytes(2) + u16_bytes(
            IndexToLocFormat::Long.value(),
        ) + i16_bytes(0)
    }

    open spec fn tag(&self) -> Seq<u8> {
        seq![0x68u8, 0x65u8, 0x61u8, 0x64u8]
    }

    open spec fn writable(&self) -> bool {
        true
    }

    fn name(&self) -> (r: [u8; 4]) {
        let r = [0x68u8, 0x65u8, 0x61u8, 0x64u8];
        assert(r@ =~= self.tag());
        r
    }

    fn write<W: BufSink>(&self, writer: &mut W) {
        writer.put_u16(HEAD_MAJOR);
        writer.put_u16(HEAD_MINOR);
        writer.put_u32(self.font_revision);
        writer.put_u32(self.checksum_adjustment);
        writer.put_u32(MAGIC_NUMBER);
        writer.put_u16(self.flags.bits());
        writer.put_u16(self.units_per_em);
        writer.put_u64(self.created);
        writer.put_u64(self.modified);
        writer.put_i16(self.x_min);
        writer.put_i16(self.y_min);
        writer.put_i16(self.x_max);
        writer.put_i16(self.y_max);
        writer.put_u16(self.mac_style.bits());
        writer.put_u16(self.lowest_rec_ppem);
        // font direction hint
        writer.put_i16(2);
        writer.put_u16(IndexToLocFormat::Long.to_u16());
        // glyph data format
        writer.put_i16(0);
        assert(writer.written() =~= old(writer).written() + self.encoding());
    }
}

impl Table {
    /// The words of the table add up to those of the same table with a zero
    /// `checksum_adjustment`, plus the adjustment: it stands in a word of
    /// its own.
    #[verifier::spinoff_prover]
    #[verifier::rlimit(30)]
    pub proof fn lemma_word_sum_adjustment(&self)
        ensures
            word_sum(self.encoding()) == word_sum(
                Table { checksum_adjustment: 0, ..*self }.encoding(),
            ) + self.checksum_adjustment,
    {
        let z = Table { checksum_adjustment: 0, ..*self };
        let a = u16_bytes(HEAD_MAJOR) + u16_bytes(HEAD_MINOR) + u32_bytes(self.font_revision);
        let b = u32_bytes(MAGIC_NUMBER) + u16_bytes(self.flags.0) + u16_bytes(self.units_per_em)
            + u64_bytes(self.created) + u64_bytes(self.modified) + i16_bytes(self.x_min)
            + i16_bytes(self.y_min) + i16_bytes(self.x_max) + i16_bytes(self.y_max) + u16_bytes(
            self.mac_style.0,
        ) + u16_bytes(self.lowest_rec_ppem) + i16_bytes(2) + u16_bytes(
            IndexToLocFormat::Long.value(),
        ) + i16_bytes(0);
        let c = u32_bytes(self.checksum_adjustment);
        let c0 = u32_bytes(0);
        assert(self.encoding() =~= a + (c + b));
        assert(z.encoding() =~= a + (c0 + b));
        lemma_word_sum_append(a, c + b);
        lemma_word_sum_append(c, b);
        lemma_word_sum_append(a, c0 + b);
        lemma_word_sum_append(c0, b);
        lemma_word_sum_be32(self.checksum_adjustment);
        lemma_word_sum_be32(0);
    }
}

/// The bytes of the table hold each field at its fixed offset, as OpenType
/// lays out `head`: the version 1.0 at 0, the font revision at 4, the
/// checksum adjustment at 8, the magic number at 12, the flags at 16, the
/// units per em at 18, the creation and modification times at 20 and 28,
/// the bounding box at 36 to 42, the style at 44, the smallest readable
/// size at 46, the font direction hint 2 at 48, long `loca` offsets (1) at
/// 50 and glyph data format 0 at 52.
#[verifier::rlimit(30)]
pub proof fn lemma_head_layout(t: Table)
    ensures
        t.encoding().len() == 54,
        read_u16(t.encoding(), 0) == 1,
        read_u16(t.encoding(), 2) == 0,
        read_u32(t.encoding(), 4) == t.font_revision,
        read_u32(t.encoding(), 8) == t.checksum_adjustment,
        read_u32(t.encoding(), 12) == 0x5F0F3CF5,
        read_u16(t.encoding(), 16) == t.flags.0,
        read_u16(t.encoding(), 18) == t.units_per_em,
        read_u64(t.encoding(), 20) == t.created,
        read_u64(t.encoding(), 28) == t.modified,
        read_i16(t.encoding(), 36) == t.x_min,
        read_i16(t.encoding(), 38) == t.y_min,
        read_i16(t.encoding(), 40) == t.x_max,
        read_i16(t.encoding(), 42) == t.y_max,
        read_u16(t.encoding(), 44) == t.mac_style.0,
        read_u16(t.encoding(), 46) == t.lowest_rec_ppem,
        read_i16(t.encoding(), 48) == 2,
        read_u16(t.encoding(), 50) == 1,
        read_i16(t.encoding(), 52) == 0,
{
    let e = t.encoding();
    assert(e.subrange(0, 2) =~= u16_bytes(HEAD_MAJOR));
    lemma_read_at(e, 0, u16_bytes(HEAD_MAJOR));
    lemma_read_u16(HEAD_MAJOR);
    assert(e.subrange(2, 4) =~= u16_bytes(HEAD_MINOR));
    lemma_read_at(e, 2, u16_bytes(HEAD_MINOR));
    lemma_read_u16(HEAD_MINOR);
    assert(e.subrange(4, 8) =~= u32_bytes(t.font_revision));
    lemma_read_at(e, 4, u32_bytes(t.font_revision));
    lemma_read_u32(t.font_revision);
    assert(e.subrange(8, 12) =~= u32_bytes(t.checksum_adjustment));
    lemma_read_at(e, 8, u32_bytes(t.checksum_adjustment));
    lemma_read_u32(t.checksum_adjustment);
    assert(e.subrange(12, 16) =~= u32_bytes(MAGIC_NUMBER));
    lemma_read_at(e, 12, u32_bytes(MAGIC_NUMBER));
    lemma_read_u32(MAGIC_NUMBER);
    assert(e.subrange(16, 18) =~= u16_bytes(t.flags.0));
    lemma_read_at(e, 16, u16_bytes(t.flags.0));
    lemma_read_u16(t.flags.0);
    assert(e.subrange(18, 20) =~= u16_bytes(t.units_per_em));
    lemma_read_at(e, 18, u16_bytes(t.units_per_em));
    lemma_read_u16(t.units_per_em);
    assert(e.subrange(20, 28) =~= u64_bytes(t.created));
    lemma_read_at(e, 20, u64_bytes(t.created));
    lemma_read_u64(t.created);
    assert(e.subrange(28, 36) =~= u64_bytes(t.modified));
    lemma_read_at(e, 28, u64_bytes(t.modified));
    lemma_read_u64(t.modified);
    assert(e.subrange(36, 38) =~= i16_bytes(t.x_min));
    lemma_read_at(e, 36, i16_bytes(t.x_min));
    lemma_read_i16(t.x_min);
    assert(e.subrange(38, 40) =~= i16_bytes(t.y_min));
    lemma_read_at(e, 38, i16_bytes(t.y_min));
    lemma_read_i16(t.y_min);
    assert(e.subrange(40, 42) =~= i16_bytes(t.x_max));
    lemma_read_at(e, 40, i16_bytes(t.x_max));
    lemma_read_i16(t.x_max);
    assert(e.subrange(42, 44) =~= i16_bytes(t.y_max));
    lemma_read_at(e, 42, i16_bytes(t.y_max));
    lemma_read_i16(t.y_max);
    assert(e.subrange(44, 46) =~= u16_bytes(t.mac_style.0));
    lemma_read_at(e, 44, u16_bytes(t.mac_style.0));
    lemma_read_u16(t.mac_style.0);
    assert(e.subrange(46, 48) =~= u16_bytes(t.lowest_rec_ppem));
    lemma_read_at(e, 46, u16_bytes(t.lowest_rec_ppem));
    lemma_read_u16(t.lowest_rec_ppem);
    assert(e.subrange(48, 50) =~= i16_bytes(2i16));
    lemma_read_at(e, 48, i16_bytes(2i16));
    lemma_read_i16(2i16);
    assert(e.subrange(50, 52) =~= u16_bytes(IndexToLocFormat::Long.value()));
    lemma_read_at(e, 50, u16_bytes(IndexToLocFormat::Long.value()));
    lemma_read_u16(IndexToLocFormat::Long.value());
    assert(e.subrange(52, 54) =~= i16_bytes(0i16));
    lemma_read_at(e, 52, i16_bytes(0i16));
    lemma_read_i16(0i16);
}

} // verus!
