//! Platform and encoding definitions used in `cmap` and `name` tables.
//!
//! The variants of each enum are listed in the order of the numbers that the
//! tables store for them, so that the derived ordering follows those numbers.
use vstd::prelude::*;

verus! {

/// The platform IDs for subtables of the `cmap` table.
///
/// The use of the `Macintosh` platform ID is discouraged; it is not
/// supported by this library.
#[derive(Debug, Clone, Copy, PartialEq, Eq, PartialOrd, Ord, Structural)]
pub enum PlatformId {
    Unicode,
    Macintosh,
    Microsoft,
}

impl PlatformId {
    /// The number stored in the tables.
    pub open spec fn value(self) -> u16 {
        match self {
            PlatformId::Unicode => 0,
            PlatformId::Macintosh => 1,
            PlatformId::Microsoft => 3,
        }
    }

    pub fn to_u16(self) -> (r: u16)
        ensures
            r == self.value(),
    {
        match self {
            PlatformId::Unicode => 0,
            PlatformId::Macintosh => 1,
            PlatformId::Microsoft => 3,
        }
    }
}

/// The encoding IDs for the Unicode platform ([`PlatformId::Unicode`]).
///
/// In practice, we should only use [`UnicodePlatformEncoding::V2Bmp`] and
/// [`UnicodePlatformEncoding::V2Full`] for modern fonts; the first three are
/// deprecated.
#[derive(Debug, Clone, Copy, PartialEq, Eq, PartialOrd, Ord, Structural)]
pub enum UnicodePlatformEncoding {
    V1_0,
    V1_1,
    Iso10416_1993,
    /// Unicode 2.0 and later, BMP only
    V2Bmp,
    /// Unicode 2.0 and later, full repertoire
    V2Full,
    /// Unicode Variation Sequences, only for format 14
    VariationSequences,
    /// Last Resort Font, only for format 13
    LastResort,
}

impl UnicodePlatformEncoding {
    /// The number stored in the tables.
    pub open spec fn value(self) -> u16 {
        match self {
            UnicodePlatformEncoding::V1_0 => 0,
            UnicodePlatformEncoding::V1_1 => 1,
            UnicodePlatformEncoding::Iso10416_1993 => 2,
            UnicodePlatformEncoding::V2Bmp => 3,
            UnicodePlatformEncoding::V2Full => 4,
            UnicodePlatformEncoding::VariationSequences => 5,
            UnicodePlatformEncoding::LastResort => 6,
        }
    }

    pub fn to_u16(self) -> (r: u16)
        ensures
            r == self.value(),
    {
        match self {
            UnicodePlatformEncoding::V1_0 => 0,
            UnicodePlatformEncoding::V1_1 => 1,
            UnicodePlatformEncoding::Iso10416_1993 => 2,
            UnicodePlatformEncoding::V2Bmp => 3,
            UnicodePlatformEncoding::V2Full => 4,
            UnicodePlatformEncoding::VariationSequences => 5,
            UnicodePlatformEncoding::LastResort => 6,
        }
    }
}

/// The encoding IDs for the Microsoft platform ([`PlatformId::Microsoft`]).
///
/// In practice, we should only use [`WindowsPlatformEncoding::UnicodeUcs2`] and
/// [`WindowsPlatformEncoding::UnicodeUcs4`] for modern fonts.
#[derive(Debug, Clone, Copy, PartialEq, Eq, PartialOrd, Ord, Structural)]
pub enum WindowsPlatformEncoding {
    Symbol,
    UnicodeUcs2,
    ShiftJis,
    Prc,
    Big5,
    Wansung,
    Johab,
    UnicodeUcs4,
}

impl WindowsPlatformEncoding {
    /// The number stored in the tables.
    pub open spec fn value(self) -> u16 {
        match self {
            WindowsPlatformEncoding::Symbol => 0,
            WindowsPlatformEncoding::UnicodeUcs2 => 1,
            WindowsPlatformEncoding::ShiftJis => 2,
            WindowsPlatformEncoding::Prc => 3,
            WindowsPlatformEncoding::Big5 => 4,
            WindowsPlatformEncoding::Wansung => 5,
            WindowsPlatformEncoding::Johab => 6,
            WindowsPlatformEncoding::UnicodeUcs4 => 10,
        }
    }

    pub fn to_u16(self) -> (r: u16)
        ensures
            r == self.value(),
    {
        match self {
            WindowsPlatformEncoding::Symbol => 0,
            WindowsPlatformEncoding::UnicodeUcs2 => 1,
            WindowsPlatformEncoding::ShiftJis => 2,
            WindowsPlatformEncoding::Prc => 3,
            WindowsPlatformEncoding::Big5 => 4,
            WindowsPlatformEncoding::Wansung => 5,
            WindowsPlatformEncoding::Johab => 6,
            WindowsPlatformEncoding::UnicodeUcs4 => 10,
        }
    }
}

/// The language code to use when not using the Macintosh platform.
///
/// Since this implementation actually doesn't support the Macintosh platform
/// at all, this constant is used to fill in the language code field in all
/// `cmap` subtables.
pub const NON_MACINTOSH_LANG_CODE: u16 = 0;

/// Representing a platform and encoding pair.
#[derive(Debug, Clone, Copy, PartialEq, Eq, Structural)]
pub struct EncodingRecord {
    pub platform_id: PlatformId,
    pub encoding_id: u16,
}

impl EncodingRecord {
    /// The order of records in a table: by platform ID, then encoding ID.
    pub open spec fn order_key(self) -> int {
        self.platform_id.value() as int * 0x1_0000 + self.encoding_id as int
    }
}

} // verus!
