//! A higher-level representation of the character mapping within the `cmap` table.
//!
//! Code creating `cmap` table records should use types in this module, and then
//! convert it to various other formats using their respective modules, instead
//! of trying to instantiate the other formats directly.
use crate::model::encoding::{
    EncodingRecord, PlatformId, UnicodePlatformEncoding, WindowsPlatformEncoding,
};
use vstd::prelude::*;

verus! {

/// A run of characters to be mapped sequentially to glyphs: the codes
/// `start_code .. start_code + len` map to the glyphs
/// `glyph_id .. glyph_id + len`. A list of them should be sorted by
/// `start_code`.
#[derive(Debug, Clone, Copy, PartialEq, Eq, Structural)]
pub struct SeqMapping {
    pub start_code: u32,
    pub len: u32,
    pub glyph_id: u32,
}

/// A subtable for a specific platform and encoding is encoded as a list of
/// character mappings.
pub type SubTable = Vec<SeqMapping>;

/// A high-level representation of the encoding of a subtable.
/// This encoding will be mapped in a one-to-many relationship with the
/// actual OpenType platform and encoding IDs.
#[derive(Debug, Clone, Copy, PartialEq, Eq, Structural)]
pub enum Encoding {
    /// Unicode scalars.
    ///
    /// This will map to both Unicode UCS-2 and UCS-4 encodings of Unicode and
    /// Microsoft platforms.
    Unicode,
    /// Unicode variation sequences. Unsupported for now.
    UnicodeVariations,
    /// Windows Symbol encoding.
    Symbol,
    /// Windows Shift-JIS encoding.
    ShiftJis,
    /// Windows PRC encoding.
    Prc,
    /// Windows Big5 encoding.
    Big5,
    /// Windows Wansung encoding.
    Wansung,
    /// Windows Johab encoding.
    Johab,
}

pub open spec fn record(platform_id: PlatformId, encoding_id: u16) -> EncodingRecord {
    EncodingRecord { platform_id, encoding_id }
}

/// The records of the format 4 subtable of an encoding.
pub open spec fn fmt4_records(e: Encoding) -> Seq<EncodingRecord> {
    match e {
        Encoding::Unicode => seq![
            record(PlatformId::Unicode, UnicodePlatformEncoding::V2Bmp.value()),
            record(PlatformId::Microsoft, WindowsPlatformEncoding::UnicodeUcs2.value()),
        ],
        Encoding::UnicodeVariations => seq![],
        Encoding::Symbol => seq![
            record(PlatformId::Microsoft, WindowsPlatformEncoding::Symbol.value()),
        ],
        Encoding::ShiftJis => seq![
            record(PlatformId::Microsoft, WindowsPlatformEncoding::ShiftJis.value()),
        ],
        Encoding::Prc => seq![record(PlatformId::Microsoft, WindowsPlatformEncoding::Prc.value())],
        Encoding::Big5 => seq![record(PlatformId::Microsoft, WindowsPlatformEncoding::Big5.value())],
        Encoding::Wansung => seq![
            record(PlatformId::Microsoft, WindowsPlatformEncoding::Wansung.value()),
        ],
        Encoding::Johab => seq![
            record(PlatformId::Microsoft, WindowsPlatformEncoding::Johab.value()),
        ],
    }
}

/// The records of the format 12 subtable of an encoding.
pub open spec fn fmt12_records(e: Encoding) -> Seq<EncodingRecord> {
    match e {
        Encoding::Unicode => seq![
            record(PlatformId::Unicode, UnicodePlatformEncoding::V2Full.value()),
            record(PlatformId::Microsoft, WindowsPlatformEncoding::UnicodeUcs4.value()),
        ],
        _ => seq![],
    }
}

fn ms_record(e: WindowsPlatformEncoding) -> (r: EncodingRecord)
    ensures
        r == record(PlatformId::Microsoft, e.value()),
{
    EncodingRecord { platform_id: PlatformId::Microsoft, encoding_id: e.to_u16() }
}

impl Encoding {
    /// The encoding records for this encoding, that should be used in the
    /// format 4 subtable.
    pub fn to_encoding_records_fmt4(&self) -> (r: Vec<EncodingRecord>)
        ensures
            r@ == fmt4_records(*self),
    {
        let r = match self {
            Encoding::Unicode => vec![
                EncodingRecord {
                    platform_id: PlatformId::Unicode,
                    encoding_id: UnicodePlatformEncoding::V2Bmp.to_u16(),
                },
                ms_record(WindowsPlatformEncoding::UnicodeUcs2),
            ],
            Encoding::UnicodeVariations => vec![],
            Encoding::Symbol => vec![ms_record(WindowsPlatformEncoding::Symbol)],
            Encoding::ShiftJis => vec![ms_record(WindowsPlatformEncoding::ShiftJis)],
            Encoding::Prc => vec![ms_record(WindowsPlatformEncoding::Prc)],
            Encoding::Big5 => vec![ms_record(WindowsPlatformEncoding::Big5)],
            Encoding::Wansung => vec![ms_record(WindowsPlatformEncoding::Wansung)],
            Encoding::Johab => vec![ms_record(WindowsPlatformEncoding::Johab)],
        };
        assert(r@ =~= fmt4_records(*self));
        r
    }

    /// The encoding records for this encoding, that should be used in the
    /// format 12 subtable.
    pub fn to_encoding_records_fmt12(&self) -> (r: Vec<EncodingRecord>)
        ensures
            r@ == fmt12_records(*self),
    {
        let r = match self {
            Encoding::Unicode => vec![
                EncodingRecord {
                    platform_id: PlatformId::Unicode,
                    encoding_id: UnicodePlatformEncoding::V2Full.to_u16(),
                },
                ms_record(WindowsPlatformEncoding::UnicodeUcs4),
            ],
            _ => vec![],
        };
        assert(r@ =~= fmt12_records(*self));
        r
    }
}

/// A full-fledged `cmap` table is a list of subtables, each for a specific
/// platform and encoding.
pub struct Table {
    pub subtables: Vec<SubTable>,
    /// The mapping between encoding and their corresponding subtables
    /// indices in the `subtables` list.
    ///
    /// This mapping is used because multiple encodings can share the same
    /// subtable, e.g. Microsoft and Unicode both have UCS-2 tables and they
    /// can be shared.
    pub mapping: Vec<(Encoding, usize)>,
}

} // verus!
