//! The `OS/2` table.
use crate::buf::BufSink;
use crate::bytes_spec::{
    i16_bytes, lemma_read_at, lemma_read_i16, lemma_read_u16, lemma_read_u32, read_i16, read_u16,
    read_u32, u16_bytes, u32_bytes,
};
use crate::model::{fword, ufword, ITable};
use vstd::prelude::*;

verus! {

#[derive(Debug, Clone, Copy, PartialEq, Eq, Structural)]
pub enum WeightClass {
    Thin,
    ExtraLight,
    Light,
    Regular,
    Medium,
    SemiBold,
    Bold,
    ExtraBold,
    Black,
}

impl WeightClass {
    /// The number stored in the table.
    pub open spec fn value(self) -> u16 {
        match self {
            WeightClass::Thin => 100,
            WeightClass::ExtraLight => 200,
            WeightClass::Light => 300,
            WeightClass::Regular => 400,
            WeightClass::Medium => 500,
            WeightClass::SemiBold => 600,
            WeightClass::Bold => 700,
            WeightClass::ExtraBold => 800,
            WeightClass::Black => 900,
        }
    }

    pub fn to_u16(self) -> (r: u16)
        ensures
            r == self.value(),
    {
        match self {
            WeightClass::Thin => 100,
            WeightClass::ExtraLight => 200,
            WeightClass::Light => 300,
            WeightClass::Regular => 400,
            WeightClass::Medium => 500,
            WeightClass::SemiBold => 600,
            WeightClass::Bold => 700,
            WeightClass::ExtraBold => 800,
            WeightClass::Black => 900,
        }
    }
}

#[derive(Debug, Clone, Copy, PartialEq, Eq, Structural)]
pub enum WidthClass {
    UltraCondensed,
    ExtraCondensed,
    Condensed,
    SemiCondensed,
    Normal,
    SemiExpanded,
    Expanded,
    ExtraExpanded,
    UltraExpanded,
}

impl WidthClass {
    /// The number stored in the table.
    pub open spec fn value(self) -> u16 {
        match self {
            WidthClass::UltraCondensed => 1,
            WidthClass::ExtraCondensed => 2,
            WidthClass::Condensed => 3,
            WidthClass::SemiCondensed => 4,
            WidthClass::Normal => 5,
            WidthClass::SemiExpanded => 6,
            WidthClass::Expanded => 7,
            WidthClass::ExtraExpanded => 8,
            WidthClass::UltraExpanded => 9,
        }
    }

    pub fn to_u16(self) -> (r: u16)
        ensures
            r == self.value(),
    {
        match self {
            WidthClass::UltraCondensed => 1,
            WidthClass::ExtraCondensed => 2,
            WidthClass::Condensed => 3,
            WidthClass::SemiCondensed => 4,
            WidthClass::Normal => 5,
            WidthClass::SemiExpanded => 6,
            WidthClass::Expanded => 7,
            WidthClass::ExtraExpanded => 8,
            WidthClass::UltraExpanded => 9,
        }
    }
}

#[derive(Debug, Clone, Copy, PartialEq, Eq, Structural)]
pub enum UsagePermissionKind {
    InstallableEmbedding,
    RestrictedLicenseEmbedding,
    PreviewPrintEmbedding,
    EditableEmbedding,
}

impl UsagePermissionKind {
    /// The number stored in the table.
    pub open spec fn value(self) -> u16 {
        match self {
            UsagePermissionKind::InstallableEmbedding => 0,
            UsagePermissionKind::RestrictedLicenseEmbedding => 2,
            UsagePermissionKind::PreviewPrintEmbedding => 4,
            UsagePermissionKind::EditableEmbedding => 8,
        }
    }

    pub fn to_u16(self) -> (r: u16)
        ensures
            r == self.value(),
    {
        match self {
            UsagePermissionKind::InstallableEmbedding => 0,
            UsagePermissionKind::RestrictedLicenseEmbedding => 2,
            UsagePermissionKind::PreviewPrintEmbedding => 4,
            UsagePermissionKind::EditableEmbedding => 8,
        }
    }
}

#[derive(Debug, Clone, Copy, PartialEq, Eq, Structural)]
pub enum BareFamilyClass {
    NoClassification,
    OldStyleSerifs,
    TransitionalSerifs,
    ModernSerifs,
    ClarendonSerifs,
    SlabSerifs,
    FreeformSerifs,
    SansSerif,
    Ornamentals,
    Scripts,
    Symbolic,
}

impl BareFamilyClass {
    /// The number stored in the table.
    pub open spec fn value(self) -> u8 {
        match self {
            BareFamilyClass::NoClassification => 0,
            BareFamilyClass::OldStyleSerifs => 1,
            BareFamilyClass::TransitionalSerifs => 2,
            BareFamilyClass::ModernSerifs => 3,
            BareFamilyClass::ClarendonSerifs => 4,
            BareFamilyClass::SlabSerifs => 5,
            BareFamilyClass::FreeformSerifs => 7,
            BareFamilyClass::SansSerif => 8,
            BareFamilyClass::Ornamentals => 9,
            BareFamilyClass::Scripts => 10,
            BareFamilyClass::Symbolic => 12,
        }
    }

    pub fn to_u8(self) -> (r: u8)
        ensures
            r == self.value(),
    {
        match self {
            BareFamilyClass::NoClassification => 0,
            BareFamilyClass::OldStyleSerifs => 1,
            BareFamilyClass::TransitionalSerifs => 2,
            BareFamilyClass::ModernSerifs => 3,
            BareFamilyClass::ClarendonSerifs => 4,
            BareFamilyClass::SlabSerifs => 5,
            BareFamilyClass::FreeformSerifs => 7,
            BareFamilyClass::SansSerif => 8,
            BareFamilyClass::Ornamentals => 9,
            BareFamilyClass::Scripts => 10,
            BareFamilyClass::Symbolic => 12,
        }
    }
}

#[derive(Debug, Clone, Copy, PartialEq, Eq, Structural)]
pub enum OldStyleSerifKind {
    NoClassification,
    IBMRoundedLegibility,
    Garalde,
    Venetian,
    ModifiedVenetian,
    DutchModern,
    DutchTraditional,
    Contemporary,
    Calligraphic,
    Miscellaneous,
}

impl OldStyleSerifKind {
    /// The number stored in the table.
    pub open spec fn value(self) -> u8 {
        match self {
            OldStyleSerifKind::NoClassification => 0,
            OldStyleSerifKind::IBMRoundedLegibility => 1,
            OldStyleSerifKind::Garalde => 2,
            OldStyleSerifKind::Venetian => 3,
            OldStyleSerifKind::ModifiedVenetian => 4,
            OldStyleSerifKind::DutchModern => 5,
            OldStyleSerifKind::DutchTraditional => 6,
            OldStyleSerifKind::Contemporary => 7,
            OldStyleSerifKind::Calligraphic => 8,
            OldStyleSerifKind::Miscellaneous => 15,
        }
    }

    pub fn to_u8(self) -> (r: u8)
        ensures
            r == self.value(),
    {
        match self {
            OldStyleSerifKind::NoClassification => 0,
            OldStyleSerifKind::IBMRoundedLegibility => 1,
            OldStyleSerifKind::Garalde => 2,
            OldStyleSerifKind::Venetian => 3,
            OldStyleSerifKind::ModifiedVenetian => 4,
            OldStyleSerifKind::DutchModern => 5,
            OldStyleSerifKind::DutchTraditional => 6,
            OldStyleSerifKind::Contemporary => 7,
            OldStyleSerifKind::Calligraphic => 8,
            OldStyleSerifKind::Miscellaneous => 15,
        }
    }
}

#[derive(Debug, Clone, Copy, PartialEq, Eq, Structural)]
pub enum TransitionalSerifKind {
    NoClassification,
    DirectLine,
    Script,
    Miscellaneous,
}

impl TransitionalSerifKind {
    /// The number stored in the table.
    pub open spec fn value(self) -> u8 {
        match self {
            TransitionalSerifKind::NoClassification => 0,
            TransitionalSerifKind::DirectLine => 1,
            TransitionalSerifKind::Script => 2,
            TransitionalSerifKind::Miscellaneous => 15,
        }
    }

    pub fn to_u8(self) -> (r: u8)
        ensures
            r == self.value(),
    {
        match self {
            TransitionalSerifKind::NoClassification => 0,
            TransitionalSerifKind::DirectLine => 1,
            TransitionalSerifKind::Script => 2,
            TransitionalSerifKind::Miscellaneous => 15,
        }
    }
}

#[derive(Debug, Clone, Copy, PartialEq, Eq, Structural)]
pub enum ModernSerifKind {
    NoClassification,
    Italian,
    Script,
    Miscellaneous,
}

impl ModernSerifKind {
    /// The number stored in the table.
    pub open spec fn value(self) -> u8 {
        match self {
            ModernSerifKind::NoClassification => 0,
            ModernSerifKind::Italian => 1,
            ModernSerifKind::Script => 2,
            ModernSerifKind::Miscellaneous => 15,
        }
    }

    pub fn to_u8(self) -> (r: u8)
        ensures
            r == self.value(),
    {
        match self {
            ModernSerifKind::NoClassification => 0,
            ModernSerifKind::Italian => 1,
            ModernSerifKind::Script => 2,
            ModernSerifKind::Miscellaneous => 15,
        }
    }
}

#[derive(Debug, Clone, Copy, PartialEq, Eq, Structural)]
pub enum ClarendonSerifKind {
    NoClassification,
    Clarendon,
    Modern,
    Traditional,
    Newspaper,
    StubSerif,
    Monotone,
    Typewriter,
    Miscellaneous,
}

impl ClarendonSerifKind {
    /// The number stored in the table.
    pub open spec fn value(self) -> u8 {
        match self {
            ClarendonSerifKind::NoClassification => 0,
            ClarendonSerifKind::Clarendon => 1,
            ClarendonSerifKind::Modern => 2,
            ClarendonSerifKind::Traditional => 3,
            ClarendonSerifKind::Newspaper => 4,
            ClarendonSerifKind::StubSerif => 5,
            ClarendonSerifKind::Monotone => 6,
            ClarendonSerifKind::Typewriter => 7,
            ClarendonSerifKind::Miscellaneous => 15,
        }
    }

    pub fn to_u8(self) -> (r: u8)
        ensures
            r == self.value(),
    {
        match self {
            ClarendonSerifKind::NoClassification => 0,
            ClarendonSerifKind::Clarendon => 1,
            ClarendonSerifKind::Modern => 2,
            ClarendonSerifKind::Traditional => 3,
            ClarendonSerifKind::Newspaper => 4,
            ClarendonSerifKind::StubSerif => 5,
            ClarendonSerifKind::Monotone => 6,
            ClarendonSerifKind::Typewriter => 7,
            ClarendonSerifKind::Miscellaneous => 15,
        }
    }
}

#[derive(Debug, Clone, Copy, PartialEq, Eq, Structural)]
pub enum SlabSerifKind {
    NoClassification,
    Monotone,
    Humanist,
    Geometric,
    Swiss,
    Typewriter,
    Miscellaneous,
}

impl SlabSerifKind {
    /// The number stored in the table.
    pub open spec fn value(self) -> u8 {
        match self {
            SlabSerifKind::NoClassification => 0,
            SlabSerifKind::Monotone => 1,
            SlabSerifKind::Humanist => 2,
            SlabSerifKind::Geometric => 3,
            SlabSerifKind::Swiss => 4,
            SlabSerifKind::Typewriter => 5,
            SlabSerifKind::Miscellaneous => 15,
        }
    }

    pub fn to_u8(self) -> (r: u8)
        ensures
            r == self.value(),
    {
        match self {
            SlabSerifKind::NoClassification => 0,
            SlabSerifKind::Monotone => 1,
            SlabSerifKind::Humanist => 2,
            SlabSerifKind::Geometric => 3,
            SlabSerifKind::Swiss => 4,
            SlabSerifKind::Typewriter => 5,
            SlabSerifKind::Miscellaneous => 15,
        }
    }
}

#[derive(Debug, Clone, Copy, PartialEq, Eq, Structural)]
pub enum FreeformSerifKind {
    NoClassification,
    Modern,
    Miscellaneous,
}

impl FreeformSerifKind {
    /// The number stored in the table.
    pub open spec fn value(self) -> u8 {
        match self {
            FreeformSerifKind::NoClassification => 0,
            FreeformSerifKind::Modern => 1,
            FreeformSerifKind::Miscellaneous => 15,
        }
    }

    pub fn to_u8(self) -> (r: u8)
        ensures
            r == self.value(),
    {
        match self {
            FreeformSerifKind::NoClassification => 0,
            FreeformSerifKind::Modern => 1,
            FreeformSerifKind::Miscellaneous => 15,
        }
    }
}

#[derive(Debug, Clone, Copy, PartialEq, Eq, Structural)]
pub enum SansSerifKind {
    NoClassification,
    IBMNeoGrotesqueGothic,
    Humanist,
    LowXRoundGeometric,
    HighXRoundGeometric,
    NeoGrotesqueGothic,
    ModifiedNeoGrotesqueGothic,
    TypewriterGothic,
    Matrix,
    Miscellaneous,
}

impl SansSerifKind {
    /// The number stored in the table.
    pub open spec fn value(self) -> u8 {
        match self {
            SansSerifKind::NoClassification => 0,
            SansSerifKind::IBMNeoGrotesqueGothic => 1,
            SansSerifKind::Humanist => 2,
            SansSerifKind::LowXRoundGeometric => 3,
            SansSerifKind::HighXRoundGeometric => 4,
            SansSerifKind::NeoGrotesqueGothic => 5,
            SansSerifKind::ModifiedNeoGrotesqueGothic => 6,
            SansSerifKind::TypewriterGothic => 9,
            SansSerifKind::Matrix => 10,
            SansSerifKind::Miscellaneous => 15,
        }
    }

    pub fn to_u8(self) -> (r: u8)
        ensures
            r == self.value(),
    {
        match self {
            SansSerifKind::NoClassification => 0,
            SansSerifKind::IBMNeoGrotesqueGothic => 1,
            SansSerifKind::Humanist => 2,
            SansSerifKind::LowXRoundGeometric => 3,
            SansSerifKind::HighXRoundGeometric => 4,
            SansSerifKind::NeoGrotesqueGothic => 5,
            SansSerifKind::ModifiedNeoGrotesqueGothic => 6,
            SansSerifKind::TypewriterGothic => 9,
            SansSerifKind::Matrix => 10,
            SansSerifKind::Miscellaneous => 15,
        }
    }
}

#[derive(Debug, Clone, Copy, PartialEq, Eq, Structural)]
pub enum OrnamentalKind {
    NoClassification,
    Engraver,
    BlackLetter,
    Decorative,
    ThreeDimensional,
    Miscellaneous,
}

impl OrnamentalKind {
    /// The number stored in the table.
    pub open spec fn value(self) -> u8 {
        match self {
            OrnamentalKind::NoClassification => 0,
            OrnamentalKind::Engraver => 1,
            OrnamentalKind::BlackLetter => 2,
            OrnamentalKind::Decorative => 3,
            OrnamentalKind::ThreeDimensional => 4,
            OrnamentalKind::Miscellaneous => 15,
        }
    }

    pub fn to_u8(self) -> (r: u8)
        ensures
            r == self.value(),
    {
        match self {
            OrnamentalKind::NoClassification => 0,
            OrnamentalKind::Engraver => 1,
            OrnamentalKind::BlackLetter => 2,
            OrnamentalKind::Decorative => 3,
            OrnamentalKind::ThreeDimensional => 4,
            OrnamentalKind::Miscellaneous => 15,
        }
    }
}

#[derive(Debug, Clone, Copy, PartialEq, Eq, Structural)]
pub enum ScriptKind {
    NoClassification,
    Uncial,
    BrushJoined,
    FormalJoined,
    MonotoneJoined,
    Calligraphic,
    BrushUnjoined,
    FormalUnjoined,
    MonotoneUnjoined,
    Miscellaneous,
}

impl ScriptKind {
    /// The number stored in the table.
    pub open spec fn value(self) -> u8 {
        match self {
            ScriptKind::NoClassification => 0,
            ScriptKind::Uncial => 1,
            ScriptKind::BrushJoined => 2,
            ScriptKind::FormalJoined => 3,
            ScriptKind::MonotoneJoined => 4,
            ScriptKind::Calligraphic => 5,
            ScriptKind::BrushUnjoined => 6,
            ScriptKind::FormalUnjoined => 7,
            ScriptKind::MonotoneUnjoined => 8,
            ScriptKind::Miscellaneous => 15,
        }
    }

    pub fn to_u8(self) -> (r: u8)
        ensures
            r == self.value(),
    {
        match self {
            ScriptKind::NoClassification => 0,
            ScriptKind::Uncial => 1,
            ScriptKind::BrushJoined => 2,
            ScriptKind::FormalJoined => 3,
            ScriptKind::MonotoneJoined => 4,
            ScriptKind::Calligraphic => 5,
            ScriptKind::BrushUnjoined => 6,
            ScriptKind::FormalUnjoined => 7,
            ScriptKind::MonotoneUnjoined => 8,
            ScriptKind::Miscellaneous => 15,
        }
    }
}

#[derive(Debug, Clone, Copy, PartialEq, Eq, Structural)]
pub enum SymbolicKind {
    NoClassification,
    MixedSerif,
    OldstyleSerif,
    NeoGrotesqueSansSerif,
    Miscellaneous,
}

impl SymbolicKind {
    /// The number stored in the table.
    pub open spec fn value(self) -> u8 {
        match self {
            SymbolicKind::NoClassification => 0,
            SymbolicKind::MixedSerif => 3,
            SymbolicKind::OldstyleSerif => 6,
            SymbolicKind::NeoGrotesqueSansSerif => 7,
            SymbolicKind::Miscellaneous => 15,
        }
    }

    pub fn to_u8(self) -> (r: u8)
        ensures
            r == self.value(),
    {
        match self {
            SymbolicKind::NoClassification => 0,
            SymbolicKind::MixedSerif => 3,
            SymbolicKind::OldstyleSerif => 6,
            SymbolicKind::NeoGrotesqueSansSerif => 7,
            SymbolicKind::Miscellaneous => 15,
        }
    }
}

/// The upper bits of the embedding permissions.
#[derive(Debug, Clone, Copy, PartialEq, Eq, Structural)]
pub struct FsTypeUpper(pub u16);

#[allow(non_upper_case_globals)]
impl FsTypeUpper {
    pub const Nothing: u16 = 0x0000u16;
    pub const NoSubsetting: u16 = 0x0100u16;
    pub const BitmapEmbeddingOnly: u16 = 0x0200u16;

    pub fn empty() -> (r: Self)
        ensures
            r.0 == 0,
    {
        FsTypeUpper(0)
    }

    pub fn bits(&self) -> (r: u16)
        ensures
            r == self.0,
    {
        self.0
    }

    pub fn from_bits_retain(bits: u16) -> (r: Self)
        ensures
            r.0 == bits,
    {
        FsTypeUpper(bits)
    }

    /// Whether all bits of `mask` are set.
    pub fn contains(&self, mask: u16) -> (r: bool)
        ensures
            r == (self.0 & mask == mask),
    {
        self.0 & mask == mask
    }

    pub fn union(self, mask: u16) -> (r: Self)
        ensures
            r.0 == self.0 | mask,
    {
        FsTypeUpper(self.0 | mask)
    }
}

/// The IBM font family class and subclass.
#[derive(Debug, Clone, Copy, PartialEq, Eq, Structural)]
pub enum SFamilyClass {
    NoClassification,
    OldStyleSerifs(OldStyleSerifKind),
    TransitionalSerifs(TransitionalSerifKind),
    ModernSerifs(ModernSerifKind),
    ClarendonSerifs(ClarendonSerifKind),
    SlabSerifs(SlabSerifKind),
    FreeformSerifs(FreeformSerifKind),
    SansSerif(SansSerifKind),
    Ornamentals(OrnamentalKind),
    Scripts(ScriptKind),
    Symbolic(SymbolicKind),
}

impl SFamilyClass {
    /// The class in the high byte, the subclass in the low byte.
    pub open spec fn value(self) -> u16 {
        match self {
            SFamilyClass::NoClassification => 0,
            SFamilyClass::OldStyleSerifs(kind) => (1 * 0x100 + kind.value()) as u16,
            SFamilyClass::TransitionalSerifs(kind) => (2 * 0x100 + kind.value()) as u16,
            SFamilyClass::ModernSerifs(kind) => (3 * 0x100 + kind.value()) as u16,
            SFamilyClass::ClarendonSerifs(kind) => (4 * 0x100 + kind.value()) as u16,
            SFamilyClass::SlabSerifs(kind) => (5 * 0x100 + kind.value()) as u16,
            SFamilyClass::FreeformSerifs(kind) => (7 * 0x100 + kind.value()) as u16,
            SFamilyClass::SansSerif(kind) => (8 * 0x100 + kind.value()) as u16,
            SFamilyClass::Ornamentals(kind) => (9 * 0x100 + kind.value()) as u16,
            SFamilyClass::Scripts(kind) => (10 * 0x100 + kind.value()) as u16,
            SFamilyClass::Symbolic(kind) => (12 * 0x100 + kind.value()) as u16,
        }
    }

    pub fn to_int(&self) -> (r: u16)
        ensures
            r == self.value(),
    {
        match self {
            SFamilyClass::NoClassification => 0,
            SFamilyClass::OldStyleSerifs(kind) => 1 * 0x100 + kind.to_u8() as u16,
            SFamilyClass::TransitionalSerifs(kind) => 2 * 0x100 + kind.to_u8() as u16,
            SFamilyClass::ModernSerifs(kind) => 3 * 0x100 + kind.to_u8() as u16,
            SFamilyClass::ClarendonSerifs(kind) => 4 * 0x100 + kind.to_u8() as u16,
            SFamilyClass::SlabSerifs(kind) => 5 * 0x100 + kind.to_u8() as u16,
            SFamilyClass::FreeformSerifs(kind) => 7 * 0x100 + kind.to_u8() as u16,
            SFamilyClass::SansSerif(kind) => 8 * 0x100 + kind.to_u8() as u16,
            SFamilyClass::Ornamentals(kind) => 9 * 0x100 + kind.to_u8() as u16,
            SFamilyClass::Scripts(kind) => 10 * 0x100 + kind.to_u8() as u16,
            SFamilyClass::Symbolic(kind) => 12 * 0x100 + kind.to_u8() as u16,
        }
    }
}

/// The PANOSE classification numbers.
#[derive(Debug, Clone, Copy, PartialEq, Eq, Structural)]
pub struct PanroseClassification {
    pub family_type: u8,
    pub serif_style: u8,
    pub weight: u8,
    pub proportion: u8,
    pub contrast: u8,
    pub stroke_variation: u8,
    pub arm_style: u8,
    pub letterform: u8,
    pub midline: u8,
    pub x_height: u8,
}

/// The font selection flags.
#[derive(Debug, Clone, Copy, PartialEq, Eq, Structural)]
pub struct FsSelectionKind(pub u16);

#[allow(non_upper_case_globals)]
impl FsSelectionKind {
    pub const Italic: u16 = 0x0001u16;
    pub const Underscore: u16 = 0x0002u16;
    pub const Negative: u16 = 0x0004u16;
    pub const Outlined: u16 = 0x0008u16;
    pub const Strikeout: u16 = 0x0010u16;
    pub const Bold: u16 = 0x0020u16;
    pub const Regular: u16 = 0x0040u16;
    pub const UseTypoMetrics: u16 = 0x0080u16;
    pub const WWS: u16 = 0x0100u16;
    pub const Oblique: u16 = 0x0200u16;

    pub fn empty() -> (r: Self)
        ensures
            r.0 == 0,
    {
        FsSelectionKind(0)
    }

    pub fn bits(&self) -> (r: u16)
        ensures
            r == self.0,
    {
        self.0
    }

    pub fn from_bits_retain(bits: u16) -> (r: Self)
        ensures
            r.0 == bits,
    {
        FsSelectionKind(bits)
    }

    /// Whether all bits of `mask` are set.
    pub fn contains(&self, mask: u16) -> (r: bool)
        ensures
            r == (self.0 & mask == mask),
    {
        self.0 & mask == mask
    }

    pub fn union(self, mask: u16) -> (r: Self)
        ensures
            r.0 == self.0 | mask,
    {
        FsSelectionKind(self.0 | mask)
    }
}

/// The Unicode blocks that the font covers: bit `b` stands for the blocks with that bit number.
#[derive(Debug, Clone, Copy, PartialEq, Eq, Structural)]
pub struct UnicodeRange(pub u128);

#[allow(non_upper_case_globals)]
impl UnicodeRange {
    pub const BasicLatin: u128 = 0x1u128;
    pub const Latin1Supplement: u128 = 0x2u128;
    pub const LatinExtendedA: u128 = 0x4u128;
    pub const LatinExtendedB: u128 = 0x8u128;
    pub const IPAExtensions: u128 = 0x10u128;
    pub const PhoneticExtensions: u128 = 0x20u128;
    pub const PhoneticExtensionsSupplement: u128 = 0x40u128;
    pub const SpacingModifierLetters: u128 = 0x80u128;
    pub const ModifierToneLetters: u128 = 0x100u128;
    pub const CombiningDiacriticalMarks: u128 = 0x200u128;
    pub const CombiningDiacriticalMarksSupplement: u128 = 0x400u128;
    pub const GreekAndCoptic: u128 = 0x800u128;
    pub const Coptic: u128 = 0x1000u128;
    pub const Cyrillic: u128 = 0x2000u128;
    pub const CyrillicSupplement: u128 = 0x4000u128;
    pub const CyrillicExtendedA: u128 = 0x8000u128;
    pub const CyrillicExtendedB: u128 = 0x10000u128;
    pub const Armenian: u128 = 0x20000u128;
    pub const Hebrew: u128 = 0x40000u128;
    pub const Vai: u128 = 0x80000u128;
    pub const Arabic: u128 = 0x100000u128;
    pub const ArabicSupplement: u128 = 0x200000u128;
    pub const NKo: u128 = 0x400000u128;
    pub const Kannada: u128 = 0x400000u128;
    pub const Malayalam: u128 = 0x800000u128;
    pub const Thai: u128 = 0x1000000u128;
    pub const Lao: u128 = 0x2000000u128;
    pub const Georgian: u128 = 0x4000000u128;
    pub const GeorgianSupplement: u128 = 0x4000000u128;
    pub const Balinese: u128 = 0x8000000u128;
    pub const HangulJamo: u128 = 0x10000000u128;
    pub const LatinExtendedAdditional: u128 = 0x20000000u128;
    pub const LatinExtendedC: u128 = 0x20000000u128;
    pub const LatinExtendedD: u128 = 0x20000000u128;
    pub const GreekExtended: u128 = 0x40000000u128;
    pub const GeneralPunctuation: u128 = 0x80000000u128;
    pub const SupplementalPunctuation: u128 = 0x80000000u128;
    pub const SuperscriptsAndSubscripts: u128 = 0x100000000u128;
    pub const CurrencySymbols: u128 = 0x200000000u128;
    pub const CombiningDiacriticalMarksForSymbols: u128 = 0x400000000u128;
    pub const LetterlikeSymbols: u128 = 0x800000000u128;
    pub const NumberForms: u128 = 0x1000000000u128;
    pub const Arrows: u128 = 0x2000000000u128;
    pub const MiscellaneousSymbolsAndArrows: u128 = 0x2000000000u128;
    pub const MathematicalOperators: u128 = 0x4000000000u128;
    pub const MiscellaneousTechnical: u128 = 0x8000000000u128;
    pub const ControlPictures: u128 = 0x10000000000u128;
    pub const OpticalCharacterRecognition: u128 = 0x20000000000u128;
    pub const EnclosedAlphanumerics: u128 = 0x40000000000u128;
    pub const BoxDrawing: u128 = 0x80000000000u128;
    pub const BlockElements: u128 = 0x100000000000u128;
    pub const GeometricShapes: u128 = 0x200000000000u128;
    pub const MiscellaneousSymbols: u128 = 0x400000000000u128;
    pub const Dingbats: u128 = 0x800000000000u128;
    pub const CJKSymbolsAndPunctuation: u128 = 0x1000000000000u128;
    pub const Hiragana: u128 = 0x2000000000000u128;
    pub const Katakana: u128 = 0x4000000000000u128;
    pub const KatakanaPhoneticExtensions: u128 = 0x4000000000000u128;
    pub const Bopomofo: u128 = 0x8000000000000u128;
    pub const BopomofoExtended: u128 = 0x8000000000000u128;
    pub const HangulCompatibilityJamo: u128 = 0x10000000000000u128;
    pub const Phagspa: u128 = 0x20000000000000u128;
    pub const EnclosedCJKLettersAndMonths: u128 = 0x40000000000000u128;
    pub const CJKCompatibility: u128 = 0x80000000000000u128;
    pub const HangulSyllables: u128 = 0x100000000000000u128;
    pub const NonPlane0: u128 = 0x200000000000000u128;
    pub const Phoenician: u128 = 0x400000000000000u128;
    pub const CJKUnifiedIdeographs: u128 = 0x800000000000000u128;
    pub const CJKRadicalsSupplement: u128 = 0x800000000000000u128;
    pub const KangxiRadicals: u128 = 0x800000000000000u128;
    pub const IdeographicDescriptionCharacters: u128 = 0x800000000000000u128;
    pub const CJKUnifiedIdeographsExtensionA: u128 = 0x800000000000000u128;
    pub const CJKUnifiedIdeographsExtensionB: u128 = 0x800000000000000u128;
    pub const Kanbun: u128 = 0x800000000000000u128;
    pub const PrivateUseAreaPlane0: u128 = 0x1000000000000000u128;
    pub const CJKStrokes: u128 = 0x2000000000000000u128;
    pub const CJKCompatibilityIdeographs: u128 = 0x2000000000000000u128;
    pub const CJKCompatibilityIdeographsSupplement: u128 = 0x2000000000000000u128;
    pub const AlphabeticPresentationForms: u128 = 0x4000000000000000u128;
    pub const ArabicPresentationFormsA: u128 = 0x8000000000000000u128;
    pub const CombiningHalfMarks: u128 = 0x10000000000000000u128;
    pub const VerticalForms: u128 = 0x20000000000000000u128;
    pub const CJKCompatibilityForms: u128 = 0x20000000000000000u128;
    pub const SmallFormVariants: u128 = 0x40000000000000000u128;
    pub const ArabicPresentationFormsB: u128 = 0x80000000000000000u128;
    pub const HalfwidthAndFullwidthForms: u128 = 0x100000000000000000u128;
    pub const Specials: u128 = 0x200000000000000000u128;
    pub const Tibetan: u128 = 0x400000000000000000u128;
    pub const Syriac: u128 = 0x800000000000000000u128;
    pub const Thaana: u128 = 0x1000000000000000000u128;
    pub const Sinhala: u128 = 0x2000000000000000000u128;
    pub const Myanmar: u128 = 0x4000000000000000000u128;
    pub const Ethiopic: u128 = 0x8000000000000000000u128;
    pub const EthiopicSupplement: u128 = 0x8000000000000000000u128;
    pub const EthiopicExtended: u128 = 0x8000000000000000000u128;
    pub const Cherokee: u128 = 0x10000000000000000000u128;
    pub const UnifiedCanadianAboriginalSyllabics: u128 = 0x20000000000000000000u128;
    pub const Ogham: u128 = 0x40000000000000000000u128;
    pub const Runic: u128 = 0x80000000000000000000u128;
    pub const Khmer: u128 = 0x100000000000000000000u128;
    pub const KhmerSymbols: u128 = 0x100000000000000000000u128;
    pub const Mongolian: u128 = 0x200000000000000000000u128;
    pub const BraillePatterns: u128 = 0x400000000000000000000u128;
    pub const YiSyllables: u128 = 0x800000000000000000000u128;
    pub const YiRadicals: u128 = 0x800000000000000000000u128;
    pub const Tagalog: u128 = 0x1000000000000000000000u128;
    pub const Hanunoo: u128 = 0x1000000000000000000000u128;
    pub const Buhid: u128 = 0x1000000000000000000000u128;
    pub const Tagbanwa: u128 = 0x1000000000000000000000u128;
    pub const OldItalic: u128 = 0x2000000000000000000000u128;
    pub const Gothic: u128 = 0x4000000000000000000000u128;
    pub const Deseret: u128 = 0x8000000000000000000000u128;
    pub const ByzantineMusicalSymbols: u128 = 0x10000000000000000000000u128;
    pub const MusicalSymbols: u128 = 0x10000000000000000000000u128;
    pub const AncientGreekMusicalNotation: u128 = 0x10000000000000000000000u128;
    pub const MathematicalAlphanumericSymbols: u128 = 0x20000000000000000000000u128;
    pub const PrivateUsePlane15: u128 = 0x40000000000000000000000u128;
    pub const PrivateUsePlane16: u128 = 0x40000000000000000000000u128;
    pub const VariationSelectors: u128 = 0x80000000000000000000000u128;
    pub const VariationSelectorsSupplement: u128 = 0x80000000000000000000000u128;
    pub const Tags: u128 = 0x100000000000000000000000u128;
    pub const Limbu: u128 = 0x200000000000000000000000u128;
    pub const TaiLe: u128 = 0x400000000000000000000000u128;
    pub const NewTaiLue: u128 = 0x800000000000000000000000u128;
    pub const Buginese: u128 = 0x1000000000000000000000000u128;
    pub const Glagolitic: u128 = 0x2000000000000000000000000u128;
    pub const Tifinagh: u128 = 0x4000000000000000000000000u128;
    pub const YijingHexagramSymbols: u128 = 0x8000000000000000000000000u128;
    pub const SylotiNagri: u128 = 0x10000000000000000000000000u128;
    pub const LinearBSyllabary: u128 = 0x20000000000000000000000000u128;
    pub const LinearBIdeograms: u128 = 0x20000000000000000000000000u128;
    pub const AegeanNumbers: u128 = 0x20000000000000000000000000u128;
    pub const AncientGreekNumbers: u128 = 0x40000000000000000000000000u128;
    pub const Ugaritic: u128 = 0x80000000000000000000000000u128;
    pub const OldPersian: u128 = 0x100000000000000000000000000u128;
    pub const Shavian: u128 = 0x200000000000000000000000000u128;
    pub const Osmanya: u128 = 0x400000000000000000000000000u128;
    pub const CypriotSyllabary: u128 = 0x800000000000000000000000000u128;
    pub const Kharoshthi: u128 = 0x1000000000000000000000000000u128;
    pub const TaiXuanJingSymbols: u128 = 0x2000000000000000000000000000u128;
    pub const Cuneiform: u128 = 0x4000000000000000000000000000u128;
    pub const CuneiformNumbersAndPunctuation: u128 = 0x4000000000000000000000000000u128;
    pub const CountingRodNumerals: u128 = 0x8000000000000000000000000000u128;
    pub const Sundanese: u128 = 0x10000000000000000000000000000u128;
    pub const Lepcha: u128 = 0x20000000000000000000000000000u128;
    pub const OlChiki: u128 = 0x40000000000000000000000000000u128;
    pub const Saurashtra: u128 = 0x80000000000000000000000000000u128;
    pub const KayahLi: u128 = 0x100000000000000000000000000000u128;
    pub const Rejang: u128 = 0x200000000000000000000000000000u128;
    pub const Cham: u128 = 0x400000000000000000000000000000u128;
    pub const AncientSymbols: u128 = 0x800000000000000000000000000000u128;
    pub const PhaistosDisc: u128 = 0x1000000000000000000000000000000u128;
    pub const Carian: u128 = 0x2000000000000000000000000000000u128;
    pub const Lycian: u128 = 0x2000000000000000000000000000000u128;
    pub const Lydian: u128 = 0x2000000000000000000000000000000u128;
    pub const DominoTiles: u128 = 0x4000000000000000000000000000000u128;
    pub const MahjongTiles: u128 = 0x4000000000000000000000000000000u128;

    pub fn empty() -> (r: Self)
        ensures
            r.0 == 0,
    {
        UnicodeRange(0)
    }

    pub fn bits(&self) -> (r: u128)
        ensures
            r == self.0,
    {
        self.0
    }

    pub fn from_bits_retain(bits: u128) -> (r: Self)
        ensures
            r.0 == bits,
    {
        UnicodeRange(bits)
    }

    /// Whether all bits of `mask` are set.
    pub fn contains(&self, mask: u128) -> (r: bool)
        ensures
            r == (self.0 & mask == mask),
    {
        self.0 & mask == mask
    }

    pub fn union(self, mask: u128) -> (r: Self)
        ensures
            r.0 == self.0 | mask,
    {
        UnicodeRange(self.0 | mask)
    }
}

/// The bits of the Unicode blocks that contain the code `c`, added to
/// `acc`: each block in turn sets its bit if it contains `c`.
pub open spec fn unicode_range_bits(acc: u128, c: u32) -> u128 {
    acc
        // BasicLatin
        | (if c <= 0x007F { 0x1u128 } else { 0u128 })
        // Latin1Supplement
        | (if 0x0080 <= c && c <= 0x00FF { 0x2u128 } else { 0u128 })
        // LatinExtendedA
        | (if 0x0100 <= c && c <= 0x017F { 0x4u128 } else { 0u128 })
        // LatinExtendedB
        | (if 0x0180 <= c && c <= 0x024F { 0x8u128 } else { 0u128 })
        // IPAExtensions
        | (if 0x0250 <= c && c <= 0x02AF { 0x10u128 } else { 0u128 })
        // PhoneticExtensions
        | (if 0x1D00 <= c && c <= 0x1D7F { 0x20u128 } else { 0u128 })
        // PhoneticExtensionsSupplement
        | (if 0x1D80 <= c && c <= 0x1DBF { 0x40u128 } else { 0u128 })
        // SpacingModifierLetters
        | (if 0x02B0 <= c && c <= 0x02FF { 0x80u128 } else { 0u128 })
        // ModifierToneLetters
        | (if 0xA700 <= c && c <= 0xA71F { 0x100u128 } else { 0u128 })
        // CombiningDiacriticalMarks
        | (if 0x0300 <= c && c <= 0x036F { 0x200u128 } else { 0u128 })
        // CombiningDiacriticalMarksSupplement
        | (if 0x1DC0 <= c && c <= 0x1DFF { 0x400u128 } else { 0u128 })
        // GreekAndCoptic
        | (if 0x0370 <= c && c <= 0x03FF { 0x800u128 } else { 0u128 })
        // Coptic
        | (if 0x2C80 <= c && c <= 0x2CFF { 0x1000u128 } else { 0u128 })
        // Cyrillic
        | (if 0x0400 <= c && c <= 0x04FF { 0x2000u128 } else { 0u128 })
        // CyrillicSupplement
        | (if 0x0500 <= c && c <= 0x052F { 0x4000u128 } else { 0u128 })
        // CyrillicExtendedA
        | (if 0x2DE0 <= c && c <= 0x2DFF { 0x8000u128 } else { 0u128 })
        // CyrillicExtendedB
        | (if 0xA640 <= c && c <= 0xA69F { 0x10000u128 } else { 0u128 })
        // Armenian
        | (if 0x0530 <= c && c <= 0x058F { 0x20000u128 } else { 0u128 })
        // Hebrew
        | (if 0x0590 <= c && c <= 0x05FF { 0x40000u128 } else { 0u128 })
        // Vai
        | (if 0xA500 <= c && c <= 0xA63F { 0x80000u128 } else { 0u128 })
        // Arabic
        | (if 0x0600 <= c && c <= 0x06FF { 0x100000u128 } else { 0u128 })
        // ArabicSupplement
        | (if 0x0750 <= c && c <= 0x077F { 0x200000u128 } else { 0u128 })
        // NKo
        | (if 0x07C0 <= c && c <= 0x07FF { 0x400000u128 } else { 0u128 })
        // Kannada
        | (if 0x0C80 <= c && c <= 0x0CFF { 0x400000u128 } else { 0u128 })
        // Malayalam
        | (if 0x0D00 <= c && c <= 0x0D7F { 0x800000u128 } else { 0u128 })
        // Thai
        | (if 0x0E00 <= c && c <= 0x0E7F { 0x1000000u128 } else { 0u128 })
        // Lao
        | (if 0x0E80 <= c && c <= 0x0EFF { 0x2000000u128 } else { 0u128 })
        // Georgian
        | (if 0x10A0 <= c && c <= 0x10FF { 0x4000000u128 } else { 0u128 })
        // GeorgianSupplement
        | (if 0x2D00 <= c && c <= 0x2D2F { 0x4000000u128 } else { 0u128 })
        // Balinese
        | (if 0x1B00 <= c && c <= 0x1B7F { 0x8000000u128 } else { 0u128 })
        // HangulJamo
        | (if 0x1100 <= c && c <= 0x11FF { 0x10000000u128 } else { 0u128 })
        // LatinExtendedAdditional
        | (if 0x1E00 <= c && c <= 0x1EFF { 0x20000000u128 } else { 0u128 })
        // LatinExtendedC
        | (if 0x2C60 <= c && c <= 0x2C7F { 0x20000000u128 } else { 0u128 })
        // LatinExtendedD
        | (if 0xA720 <= c && c <= 0xA7FF { 0x20000000u128 } else { 0u128 })
        // GreekExtended
        | (if 0x1F00 <= c && c <= 0x1FFF { 0x40000000u128 } else { 0u128 })
        // GeneralPunctuation
        | (if 0x2000 <= c && c <= 0x206F { 0x80000000u128 } else { 0u128 })
        // SupplementalPunctuation
        | (if 0x2E00 <= c && c <= 0x2E7F { 0x80000000u128 } else { 0u128 })
        // SuperscriptsAndSubscripts
        | (if 0x2070 <= c && c <= 0x209F { 0x100000000u128 } else { 0u128 })
        // CurrencySymbols
        | (if 0x20A0 <= c && c <= 0x20CF { 0x200000000u128 } else { 0u128 })
        // CombiningDiacriticalMarksForSymbols
        | (if 0x20D0 <= c && c <= 0x20FF { 0x400000000u128 } else { 0u128 })
        // LetterlikeSymbols
        | (if 0x2100 <= c && c <= 0x214F { 0x800000000u128 } else { 0u128 })
        // NumberForms
        | (if 0x2150 <= c && c <= 0x218F { 0x1000000000u128 } else { 0u128 })
        // Arrows
        | (if 0x2190 <= c && c <= 0x21FF { 0x2000000000u128 } else { 0u128 })
        // Arrows
        | (if 0x27F0 <= c && c <= 0x27FF { 0x2000000000u128 } else { 0u128 })
        // Arrows
        | (if 0x2900 <= c && c <= 0x297F { 0x2000000000u128 } else { 0u128 })
        // MiscellaneousSymbolsAndArrows
        | (if 0x2B00 <= c && c <= 0x2BFF { 0x2000000000u128 } else { 0u128 })
        // MathematicalOperators
        | (if 0x2200 <= c && c <= 0x22FF { 0x4000000000u128 } else { 0u128 })
        // MathematicalOperators
        | (if 0x2A00 <= c && c <= 0x2AFF { 0x4000000000u128 } else { 0u128 })
        // MathematicalOperators
        | (if 0x27C0 <= c && c <= 0x27EF { 0x4000000000u128 } else { 0u128 })
        // MathematicalOperators
        | (if 0x2980 <= c && c <= 0x29FF { 0x4000000000u128 } else { 0u128 })
        // MiscellaneousTechnical
        | (if 0x2300 <= c && c <= 0x23FF { 0x8000000000u128 } else { 0u128 })
        // ControlPictures
        | (if 0x2400 <= c && c <= 0x243F { 0x10000000000u128 } else { 0u128 })
        // OpticalCharacterRecognition
        | (if 0x2440 <= c && c <= 0x245F { 0x20000000000u128 } else { 0u128 })
        // EnclosedAlphanumerics
        | (if 0x2460 <= c && c <= 0x24FF { 0x40000000000u128 } else { 0u128 })
        // BoxDrawing
        | (if 0x2500 <= c && c <= 0x257F { 0x80000000000u128 } else { 0u128 })
        // BlockElements
        | (if 0x2580 <= c && c <= 0x259F { 0x100000000000u128 } else { 0u128 })
        // GeometricShapes
        | (if 0x25A0 <= c && c <= 0x25FF { 0x200000000000u128 } else { 0u128 })
        // MiscellaneousSymbols
        | (if 0x2600 <= c && c <= 0x26FF { 0x400000000000u128 } else { 0u128 })
        // Dingbats
        | (if 0x2700 <= c && c <= 0x27BF { 0x800000000000u128 } else { 0u128 })
        // CJKSymbolsAndPunctuation
        | (if 0x3000 <= c && c <= 0x303F { 0x1000000000000u128 } else { 0u128 })
        // Hiragana
        | (if 0x3040 <= c && c <= 0x309F { 0x2000000000000u128 } else { 0u128 })
        // Katakana
        | (if 0x30A0 <= c && c <= 0x30FF { 0x4000000000000u128 } else { 0u128 })
        // KatakanaPhoneticExtensions
        | (if 0x31F0 <= c && c <= 0x31FF { 0x4000000000000u128 } else { 0u128 })
        // Bopomofo
        | (if 0x3100 <= c && c <= 0x312F { 0x8000000000000u128 } else { 0u128 })
        // BopomofoExtended
        | (if 0x31A0 <= c && c <= 0x31BF { 0x8000000000000u128 } else { 0u128 })
        // HangulCompatibilityJamo
        | (if 0x3130 <= c && c <= 0x318F { 0x10000000000000u128 } else { 0u128 })
        // Phagspa
        | (if 0xA840 <= c && c <= 0xA87F { 0x20000000000000u128 } else { 0u128 })
        // EnclosedCJKLettersAndMonths
        | (if 0x3200 <= c && c <= 0x32FF { 0x40000000000000u128 } else { 0u128 })
        // CJKCompatibility
        | (if 0x3300 <= c && c <= 0x33FF { 0x80000000000000u128 } else { 0u128 })
        // HangulSyllables
        | (if 0xAC00 <= c && c <= 0xD7AF { 0x100000000000000u128 } else { 0u128 })
        // NonPlane0
        | (if 0x10000 <= c && c <= 0x10FFFF { 0x200000000000000u128 } else { 0u128 })
        // Phoenician
        | (if 0x10900 <= c && c <= 0x1091F { 0x400000000000000u128 } else { 0u128 })
        // CJKUnifiedIdeographs
        | (if 0x4E00 <= c && c <= 0x9FFF { 0x800000000000000u128 } else { 0u128 })
        // CJKRadicalsSupplement
        | (if 0x2E80 <= c && c <= 0x2EFF { 0x800000000000000u128 } else { 0u128 })
        // KangxiRadicals
        | (if 0x2F00 <= c && c <= 0x2FDF { 0x800000000000000u128 } else { 0u128 })
        // IdeographicDescriptionCharacters
        | (if 0x2FF0 <= c && c <= 0x2FFF { 0x800000000000000u128 } else { 0u128 })
        // CJKUnifiedIdeographsExtensionA
        | (if 0x3400 <= c && c <= 0x4DBF { 0x800000000000000u128 } else { 0u128 })
        // CJKUnifiedIdeographsExtensionB
        | (if 0x20000 <= c && c <= 0x2A6DF { 0x800000000000000u128 } else { 0u128 })
        // Kanbun
        | (if 0x3190 <= c && c <= 0x319F { 0x800000000000000u128 } else { 0u128 })
        // PrivateUseAreaPlane0
        | (if 0xE000 <= c && c <= 0xF8FF { 0x1000000000000000u128 } else { 0u128 })
        // CJKStrokes
        | (if 0x31C0 <= c && c <= 0x31EF { 0x2000000000000000u128 } else { 0u128 })
        // CJKCompatibilityIdeographs
        | (if 0xF900 <= c && c <= 0xFAFF { 0x2000000000000000u128 } else { 0u128 })
        // CJKCompatibilityIdeographsSupplement
        | (if 0x2F800 <= c && c <= 0x2FA1F { 0x2000000000000000u128 } else { 0u128 })
        // AlphabeticPresentationForms
        | (if 0xFB00 <= c && c <= 0xFB4F { 0x4000000000000000u128 } else { 0u128 })
        // ArabicPresentationFormsA
        | (if 0xFB50 <= c && c <= 0xFDFF { 0x8000000000000000u128 } else { 0u128 })
        // CombiningHalfMarks
        | (if 0xFE20 <= c && c <= 0xFE2F { 0x10000000000000000u128 } else { 0u128 })
        // VerticalForms
        | (if 0xFE10 <= c && c <= 0xFE1F { 0x20000000000000000u128 } else { 0u128 })
        // CJKCompatibilityForms
        | (if 0xFE30 <= c && c <= 0xFE4F { 0x20000000000000000u128 } else { 0u128 })
        // SmallFormVariants
        | (if 0xFE50 <= c && c <= 0xFE6F { 0x40000000000000000u128 } else { 0u128 })
        // ArabicPresentationFormsB
        | (if 0xFE70 <= c && c <= 0xFEFF { 0x80000000000000000u128 } else { 0u128 })
        // HalfwidthAndFullwidthForms
        | (if 0xFF00 <= c && c <= 0xFFEF { 0x100000000000000000u128 } else { 0u128 })
        // Specials
        | (if 0xFFF0 <= c && c <= 0xFFFF { 0x200000000000000000u128 } else { 0u128 })
        // Tibetan
        | (if 0x0F00 <= c && c <= 0x0FFF { 0x400000000000000000u128 } else { 0u128 })
        // Syriac
        | (if 0x0700 <= c && c <= 0x074F { 0x800000000000000000u128 } else { 0u128 })
        // Thaana
        | (if 0x0780 <= c && c <= 0x07BF { 0x1000000000000000000u128 } else { 0u128 })
        // Sinhala
        | (if 0x0D80 <= c && c <= 0x0DFF { 0x2000000000000000000u128 } else { 0u128 })
        // Myanmar
        | (if 0x1000 <= c && c <= 0x109F { 0x4000000000000000000u128 } else { 0u128 })
        // Ethiopic
        | (if 0x1200 <= c && c <= 0x137F { 0x8000000000000000000u128 } else { 0u128 })
        // EthiopicSupplement
        | (if 0x1380 <= c && c <= 0x139F { 0x8000000000000000000u128 } else { 0u128 })
        // EthiopicExtended
        | (if 0x2D80 <= c && c <= 0x2DDF { 0x8000000000000000000u128 } else { 0u128 })
        // Cherokee
        | (if 0x13A0 <= c && c <= 0x13FF { 0x10000000000000000000u128 } else { 0u128 })
        // UnifiedCanadianAboriginalSyllabics
        | (if 0x1400 <= c && c <= 0x167F { 0x20000000000000000000u128 } else { 0u128 })
        // Ogham
        | (if 0x1680 <= c && c <= 0x169F { 0x40000000000000000000u128 } else { 0u128 })
        // Runic
        | (if 0x16A0 <= c && c <= 0x16FF { 0x80000000000000000000u128 } else { 0u128 })
        // Khmer
        | (if 0x1780 <= c && c <= 0x17FF { 0x100000000000000000000u128 } else { 0u128 })
        // KhmerSymbols
        | (if 0x19E0 <= c && c <= 0x19FF { 0x100000000000000000000u128 } else { 0u128 })
        // Mongolian
        | (if 0x1800 <= c && c <= 0x18AF { 0x200000000000000000000u128 } else { 0u128 })
        // BraillePatterns
        | (if 0x2800 <= c && c <= 0x28FF { 0x400000000000000000000u128 } else { 0u128 })
        // YiSyllables
        | (if 0xA000 <= c && c <= 0xA48F { 0x800000000000000000000u128 } else { 0u128 })
        // YiRadicals
        | (if 0xA490 <= c && c <= 0xA4CF { 0x800000000000000000000u128 } else { 0u128 })
        // Tagalog
        | (if 0x1700 <= c && c <= 0x171F { 0x1000000000000000000000u128 } else { 0u128 })
        // Hanunoo
        | (if 0x1720 <= c && c <= 0x173F { 0x1000000000000000000000u128 } else { 0u128 })
        // Buhid
        | (if 0x1740 <= c && c <= 0x175F { 0x1000000000000000000000u128 } else { 0u128 })
        // Tagbanwa
        | (if 0x1760 <= c && c <= 0x177F { 0x1000000000000000000000u128 } else { 0u128 })
        // OldItalic
        | (if 0x10300 <= c && c <= 0x1032F { 0x2000000000000000000000u128 } else { 0u128 })
        // Gothic
        | (if 0x10330 <= c && c <= 0x1034F { 0x4000000000000000000000u128 } else { 0u128 })
        // Deseret
        | (if 0x10400 <= c && c <= 0x1044F { 0x8000000000000000000000u128 } else { 0u128 })
        // ByzantineMusicalSymbols
        | (if 0x1D000 <= c && c <= 0x1D0FF { 0x10000000000000000000000u128 } else { 0u128 })
        // MusicalSymbols
        | (if 0x1D100 <= c && c <= 0x1D1FF { 0x10000000000000000000000u128 } else { 0u128 })
        // AncientGreekMusicalNotation
        | (if 0x1D200 <= c && c <= 0x1D24F { 0x10000000000000000000000u128 } else { 0u128 })
        // MathematicalAlphanumericSymbols
        | (if 0x1D400 <= c && c <= 0x1D7FF { 0x20000000000000000000000u128 } else { 0u128 })
        // PrivateUsePlane15
        | (if 0xF0000 <= c && c <= 0xFFFFD { 0x40000000000000000000000u128 } else { 0u128 })
        // PrivateUsePlane16
        | (if 0x100000 <= c && c <= 0x10FFFD { 0x40000000000000000000000u128 } else { 0u128 })
        // VariationSelectors
        | (if 0xFE00 <= c && c <= 0xFE0F { 0x80000000000000000000000u128 } else { 0u128 })
        // VariationSelectorsSupplement
        | (if 0xE0100 <= c && c <= 0xE01EF { 0x80000000000000000000000u128 } else { 0u128 })
        // Tags
        | (if 0xE0000 <= c && c <= 0xE007F { 0x100000000000000000000000u128 } else { 0u128 })
        // Limbu
        | (if 0x1900 <= c && c <= 0x194F { 0x200000000000000000000000u128 } else { 0u128 })
        // TaiLe
        | (if 0x1950 <= c && c <= 0x197F { 0x400000000000000000000000u128 } else { 0u128 })
        // NewTaiLue
        | (if 0x1980 <= c && c <= 0x19DF { 0x800000000000000000000000u128 } else { 0u128 })
        // Buginese
        | (if 0x1A00 <= c && c <= 0x1A1F { 0x1000000000000000000000000u128 } else { 0u128 })
        // Glagolitic
        | (if 0x2C00 <= c && c <= 0x2C5F { 0x2000000000000000000000000u128 } else { 0u128 })
        // Tifinagh
        | (if 0x2D30 <= c && c <= 0x2D7F { 0x4000000000000000000000000u128 } else { 0u128 })
        // YijingHexagramSymbols
        | (if 0x4DC0 <= c && c <= 0x4DFF { 0x8000000000000000000000000u128 } else { 0u128 })
        // SylotiNagri
        | (if 0xA800 <= c && c <= 0xA82F { 0x10000000000000000000000000u128 } else { 0u128 })
        // LinearBSyllabary
        | (if 0x10000 <= c && c <= 0x1007F { 0x20000000000000000000000000u128 } else { 0u128 })
        // LinearBIdeograms
        | (if 0x10080 <= c && c <= 0x100FF { 0x20000000000000000000000000u128 } else { 0u128 })
        // AegeanNumbers
        | (if 0x10100 <= c && c <= 0x1013F { 0x20000000000000000000000000u128 } else { 0u128 })
        // AncientGreekNumbers
        | (if 0x10140 <= c && c <= 0x1018F { 0x40000000000000000000000000u128 } else { 0u128 })
        // Ugaritic
        | (if 0x10380 <= c && c <= 0x1039F { 0x80000000000000000000000000u128 } else { 0u128 })
        // OldPersian
        | (if 0x103A0 <= c && c <= 0x103DF { 0x100000000000000000000000000u128 } else { 0u128 })
        // Shavian
        | (if 0x10450 <= c && c <= 0x1047F { 0x200000000000000000000000000u128 } else { 0u128 })
        // Osmanya
        | (if 0x10480 <= c && c <= 0x104AF { 0x400000000000000000000000000u128 } else { 0u128 })
        // CypriotSyllabary
        | (if 0x10800 <= c && c <= 0x1083F { 0x800000000000000000000000000u128 } else { 0u128 })
        // Kharoshthi
        | (if 0x10A00 <= c && c <= 0x10A5F { 0x1000000000000000000000000000u128 } else { 0u128 })
        // TaiXuanJingSymbols
        | (if 0x1D300 <= c && c <= 0x1D35F { 0x2000000000000000000000000000u128 } else { 0u128 })
        // Cuneiform
        | (if 0x12000 <= c && c <= 0x123FF { 0x4000000000000000000000000000u128 } else { 0u128 })
        // CuneiformNumbersAndPunctuation
        | (if 0x12400 <= c && c <= 0x1247F { 0x4000000000000000000000000000u128 } else { 0u128 })
        // CountingRodNumerals
        | (if 0x1D360 <= c && c <= 0x1D37F { 0x8000000000000000000000000000u128 } else { 0u128 })
        // Sundanese
        | (if 0x1B80 <= c && c <= 0x1BBF { 0x10000000000000000000000000000u128 } else { 0u128 })
        // Lepcha
        | (if 0x1C00 <= c && c <= 0x1C4F { 0x20000000000000000000000000000u128 } else { 0u128 })
        // OlChiki
        | (if 0x1C50 <= c && c <= 0x1C7F { 0x40000000000000000000000000000u128 } else { 0u128 })
        // Saurashtra
        | (if 0xA880 <= c && c <= 0xA8DF { 0x80000000000000000000000000000u128 } else { 0u128 })
        // KayahLi
        | (if 0xA900 <= c && c <= 0xA92F { 0x100000000000000000000000000000u128 } else { 0u128 })
        // Rejang
        | (if 0xA930 <= c && c <= 0xA95F { 0x200000000000000000000000000000u128 } else { 0u128 })
        // Cham
        | (if 0xAA00 <= c && c <= 0xAA5F { 0x400000000000000000000000000000u128 } else { 0u128 })
        // AncientSymbols
        | (if 0x10190 <= c && c <= 0x101CF { 0x800000000000000000000000000000u128 } else { 0u128 })
        // PhaistosDisc
        | (if 0x101D0 <= c && c <= 0x101FF { 0x1000000000000000000000000000000u128 } else { 0u128 })
        // Carian
        | (if 0x102A0 <= c && c <= 0x102DF { 0x2000000000000000000000000000000u128 } else { 0u128 })
        // Lycian
        | (if 0x10280 <= c && c <= 0x1029F { 0x2000000000000000000000000000000u128 } else { 0u128 })
        // Lydian
        | (if 0x10920 <= c && c <= 0x1093F { 0x2000000000000000000000000000000u128 } else { 0u128 })
        // DominoTiles
        | (if 0x1F030 <= c && c <= 0x1F09F { 0x4000000000000000000000000000000u128 } else { 0u128 })
        // MahjongTiles
        | (if 0x1F000 <= c && c <= 0x1F02F { 0x4000000000000000000000000000000u128 } else { 0u128 })
}

proof fn lemma_unicode_range_blocks_bv(acc: u128, c: u32, r: u128)
    by (bit_vector)
    requires
        r == unicode_range_bits(acc, c),
    ensures
        ({
            // bit 0: BasicLatin
            &&& (c <= 0x007F) ==> r & 0x1u128 == 0x1u128
            &&& !(c <= 0x007F) ==> r & 0x1u128 == acc & 0x1u128
            // bit 1: Latin1Supplement
            &&& ((0x0080 <= c && c <= 0x00FF)) ==> r & 0x2u128 == 0x2u128
            &&& !((0x0080 <= c && c <= 0x00FF)) ==> r & 0x2u128 == acc & 0x2u128
            // bit 2: LatinExtendedA
            &&& ((0x0100 <= c && c <= 0x017F)) ==> r & 0x4u128 == 0x4u128
            &&& !((0x0100 <= c && c <= 0x017F)) ==> r & 0x4u128 == acc & 0x4u128
            // bit 3: LatinExtendedB
            &&& ((0x0180 <= c && c <= 0x024F)) ==> r & 0x8u128 == 0x8u128
            &&& !((0x0180 <= c && c <= 0x024F)) ==> r & 0x8u128 == acc & 0x8u128
            // bit 4: IPAExtensions
            &&& ((0x0250 <= c && c <= 0x02AF)) ==> r & 0x10u128 == 0x10u128
            &&& !((0x0250 <= c && c <= 0x02AF)) ==> r & 0x10u128 == acc & 0x10u128
            // bit 5: PhoneticExtensions
            &&& ((0x1D00 <= c && c <= 0x1D7F)) ==> r & 0x20u128 == 0x20u128
            &&& !((0x1D00 <= c && c <= 0x1D7F)) ==> r & 0x20u128 == acc & 0x20u128
            // bit 6: PhoneticExtensionsSupplement
            &&& ((0x1D80 <= c && c <= 0x1DBF)) ==> r & 0x40u128 == 0x40u128
            &&& !((0x1D80 <= c && c <= 0x1DBF)) ==> r & 0x40u128 == acc & 0x40u128
            // bit 7: SpacingModifierLetters
            &&& ((0x02B0 <= c && c <= 0x02FF)) ==> r & 0x80u128 == 0x80u128
            &&& !((0x02B0 <= c && c <= 0x02FF)) ==> r & 0x80u128 == acc & 0x80u128
            // bit 8: ModifierToneLetters
            &&& ((0xA700 <= c && c <= 0xA71F)) ==> r & 0x100u128 == 0x100u128
            &&& !((0xA700 <= c && c <= 0xA71F)) ==> r & 0x100u128 == acc & 0x100u128
            // bit 9: CombiningDiacriticalMarks
            &&& ((0x0300 <= c && c <= 0x036F)) ==> r & 0x200u128 == 0x200u128
            &&& !((0x0300 <= c && c <= 0x036F)) ==> r & 0x200u128 == acc & 0x200u128
            // bit 10: CombiningDiacriticalMarksSupplement
            &&& ((0x1DC0 <= c && c <= 0x1DFF)) ==> r & 0x400u128 == 0x400u128
            &&& !((0x1DC0 <= c && c <= 0x1DFF)) ==> r & 0x400u128 == acc & 0x400u128
            // bit 11: GreekAndCoptic
            &&& ((0x0370 <= c && c <= 0x03FF)) ==> r & 0x800u128 == 0x800u128
            &&& !((0x0370 <= c && c <= 0x03FF)) ==> r & 0x800u128 == acc & 0x800u128
            // bit 12: Coptic
            &&& ((0x2C80 <= c && c <= 0x2CFF)) ==> r & 0x1000u128 == 0x1000u128
            &&& !((0x2C80 <= c && c <= 0x2CFF)) ==> r & 0x1000u128 == acc & 0x1000u128
            // bit 13: Cyrillic
            &&& ((0x0400 <= c && c <= 0x04FF)) ==> r & 0x2000u128 == 0x2000u128
            &&& !((0x0400 <= c && c <= 0x04FF)) ==> r & 0x2000u128 == acc & 0x2000u128
            // bit 14: CyrillicSupplement
            &&& ((0x0500 <= c && c <= 0x052F)) ==> r & 0x4000u128 == 0x4000u128
            &&& !((0x0500 <= c && c <= 0x052F)) ==> r & 0x4000u128 == acc & 0x4000u128
            // bit 15: CyrillicExtendedA
            &&& ((0x2DE0 <= c && c <= 0x2DFF)) ==> r & 0x8000u128 == 0x8000u128
            &&& !((0x2DE0 <= c && c <= 0x2DFF)) ==> r & 0x8000u128 == acc & 0x8000u128
            // bit 16: CyrillicExtendedB
            &&& ((0xA640 <= c && c <= 0xA69F)) ==> r & 0x10000u128 == 0x10000u128
            &&& !((0xA640 <= c && c <= 0xA69F)) ==> r & 0x10000u128 == acc & 0x10000u128
            // bit 17: Armenian
            &&& ((0x0530 <= c && c <= 0x058F)) ==> r & 0x20000u128 == 0x20000u128
            &&& !((0x0530 <= c && c <= 0x058F)) ==> r & 0x20000u128 == acc & 0x20000u128
            // bit 18: Hebrew
            &&& ((0x0590 <= c && c <= 0x05FF)) ==> r & 0x40000u128 == 0x40000u128
            &&& !((0x0590 <= c && c <= 0x05FF)) ==> r & 0x40000u128 == acc & 0x40000u128
            // bit 19: Vai
            &&& ((0xA500 <= c && c <= 0xA63F)) ==> r & 0x80000u128 == 0x80000u128
            &&& !((0xA500 <= c && c <= 0xA63F)) ==> r & 0x80000u128 == acc & 0x80000u128
            // bit 20: Arabic
            &&& ((0x0600 <= c && c <= 0x06FF)) ==> r & 0x100000u128 == 0x100000u128
            &&& !((0x0600 <= c && c <= 0x06FF)) ==> r & 0x100000u128 == acc & 0x100000u128
            // bit 21: ArabicSupplement
            &&& ((0x0750 <= c && c <= 0x077F)) ==> r & 0x200000u128 == 0x200000u128
            &&& !((0x0750 <= c && c <= 0x077F)) ==> r & 0x200000u128 == acc & 0x200000u128
            // bit 22: NKo, Kannada
            &&& ((0x07C0 <= c && c <= 0x07FF) || (0x0C80 <= c && c <= 0x0CFF)) ==> r & 0x400000u128 == 0x400000u128
            &&& !((0x07C0 <= c && c <= 0x07FF) || (0x0C80 <= c && c <= 0x0CFF)) ==> r & 0x400000u128 == acc & 0x400000u128
            // bit 23: Malayalam
            &&& ((0x0D00 <= c && c <= 0x0D7F)) ==> r & 0x800000u128 == 0x800000u128
            &&& !((0x0D00 <= c && c <= 0x0D7F)) ==> r & 0x800000u128 == acc & 0x800000u128
            // bit 24: Thai
            &&& ((0x0E00 <= c && c <= 0x0E7F)) ==> r & 0x1000000u128 == 0x1000000u128
            &&& !((0x0E00 <= c && c <= 0x0E7F)) ==> r & 0x1000000u128 == acc & 0x1000000u128
            // bit 25: Lao
            &&& ((0x0E80 <= c && c <= 0x0EFF)) ==> r & 0x2000000u128 == 0x2000000u128
            &&& !((0x0E80 <= c && c <= 0x0EFF)) ==> r & 0x2000000u128 == acc & 0x2000000u128
            // bit 26: Georgian, GeorgianSupplement
            &&& ((0x10A0 <= c && c <= 0x10FF) || (0x2D00 <= c && c <= 0x2D2F)) ==> r & 0x4000000u128 == 0x4000000u128
            &&& !((0x10A0 <= c && c <= 0x10FF) || (0x2D00 <= c && c <= 0x2D2F)) ==> r & 0x4000000u128 == acc & 0x4000000u128
            // bit 27: Balinese
            &&& ((0x1B00 <= c && c <= 0x1B7F)) ==> r & 0x8000000u128 == 0x8000000u128
            &&& !((0x1B00 <= c && c <= 0x1B7F)) ==> r & 0x8000000u128 == acc & 0x8000000u128
            // bit 28: HangulJamo
            &&& ((0x1100 <= c && c <= 0x11FF)) ==> r & 0x10000000u128 == 0x10000000u128
            &&& !((0x1100 <= c && c <= 0x11FF)) ==> r & 0x10000000u128 == acc & 0x10000000u128
            // bit 29: LatinExtendedAdditional, LatinExtendedC, LatinExtendedD
            &&& ((0x1E00 <= c && c <= 0x1EFF) || (0x2C60 <= c && c <= 0x2C7F) || (0xA720 <= c && c <= 0xA7FF)) ==> r & 0x20000000u128 == 0x20000000u128
            &&& !((0x1E00 <= c && c <= 0x1EFF) || (0x2C60 <= c && c <= 0x2C7F) || (0xA720 <= c && c <= 0xA7FF)) ==> r & 0x20000000u128 == acc & 0x20000000u128
            // bit 30: GreekExtended
            &&& ((0x1F00 <= c && c <= 0x1FFF)) ==> r & 0x40000000u128 == 0x40000000u128
            &&& !((0x1F00 <= c && c <= 0x1FFF)) ==> r & 0x40000000u128 == acc & 0x40000000u128
            // bit 31: GeneralPunctuation, SupplementalPunctuation
            &&& ((0x2000 <= c && c <= 0x206F) || (0x2E00 <= c && c <= 0x2E7F)) ==> r & 0x80000000u128 == 0x80000000u128
            &&& !((0x2000 <= c && c <= 0x206F) || (0x2E00 <= c && c <= 0x2E7F)) ==> r & 0x80000000u128 == acc & 0x80000000u128
            // bit 32: SuperscriptsAndSubscripts
            &&& ((0x2070 <= c && c <= 0x209F)) ==> r & 0x100000000u128 == 0x100000000u128
            &&& !((0x2070 <= c && c <= 0x209F)) ==> r & 0x100000000u128 == acc & 0x100000000u128
            // bit 33: CurrencySymbols
            &&& ((0x20A0 <= c && c <= 0x20CF)) ==> r & 0x200000000u128 == 0x200000000u128
            &&& !((0x20A0 <= c && c <= 0x20CF)) ==> r & 0x200000000u128 == acc & 0x200000000u128
            // bit 34: CombiningDiacriticalMarksForSymbols
            &&& ((0x20D0 <= c && c <= 0x20FF)) ==> r & 0x400000000u128 == 0x400000000u128
            &&& !((0x20D0 <= c && c <= 0x20FF)) ==> r & 0x400000000u128 == acc & 0x400000000u128
            // bit 35: LetterlikeSymbols
            &&& ((0x2100 <= c && c <= 0x214F)) ==> r & 0x800000000u128 == 0x800000000u128
            &&& !((0x2100 <= c && c <= 0x214F)) ==> r & 0x800000000u128 == acc & 0x800000000u128
            // bit 36: NumberForms
            &&& ((0x2150 <= c && c <= 0x218F)) ==> r & 0x1000000000u128 == 0x1000000000u128
            &&& !((0x2150 <= c && c <= 0x218F)) ==> r & 0x1000000000u128 == acc & 0x1000000000u128
            // bit 37: Arrows, MiscellaneousSymbolsAndArrows
            &&& ((0x2190 <= c && c <= 0x21FF) || (0x27F0 <= c && c <= 0x27FF) || (0x2900 <= c && c <= 0x297F) || (0x2B00 <= c && c <= 0x2BFF)) ==> r & 0x2000000000u128 == 0x2000000000u128
            &&& !((0x2190 <= c && c <= 0x21FF) || (0x27F0 <= c && c <= 0x27FF) || (0x2900 <= c && c <= 0x297F) || (0x2B00 <= c && c <= 0x2BFF)) ==> r & 0x2000000000u128 == acc & 0x2000000000u128
            // bit 38: MathematicalOperators
            &&& ((0x2200 <= c && c <= 0x22FF) || (0x2A00 <= c && c <= 0x2AFF) || (0x27C0 <= c && c <= 0x27EF) || (0x2980 <= c && c <= 0x29FF)) ==> r & 0x4000000000u128 == 0x4000000000u128
            &&& !((0x2200 <= c && c <= 0x22FF) || (0x2A00 <= c && c <= 0x2AFF) || (0x27C0 <= c && c <= 0x27EF) || (0x2980 <= c && c <= 0x29FF)) ==> r & 0x4000000000u128 == acc & 0x4000000000u128
            // bit 39: MiscellaneousTechnical
            &&& ((0x2300 <= c && c <= 0x23FF)) ==> r & 0x8000000000u128 == 0x8000000000u128
            &&& !((0x2300 <= c && c <= 0x23FF)) ==> r & 0x8000000000u128 == acc & 0x8000000000u128
            // bit 40: ControlPictures
            &&& ((0x2400 <= c && c <= 0x243F)) ==> r & 0x10000000000u128 == 0x10000000000u128
            &&& !((0x2400 <= c && c <= 0x243F)) ==> r & 0x10000000000u128 == acc & 0x10000000000u128
            // bit 41: OpticalCharacterRecognition
            &&& ((0x2440 <= c && c <= 0x245F)) ==> r & 0x20000000000u128 == 0x20000000000u128
            &&& !((0x2440 <= c && c <= 0x245F)) ==> r & 0x20000000000u128 == acc & 0x20000000000u128
            // bit 42: EnclosedAlphanumerics
            &&& ((0x2460 <= c && c <= 0x24FF)) ==> r & 0x40000000000u128 == 0x40000000000u128
            &&& !((0x2460 <= c && c <= 0x24FF)) ==> r & 0x40000000000u128 == acc & 0x40000000000u128
            // bit 43: BoxDrawing
            &&& ((0x2500 <= c && c <= 0x257F)) ==> r & 0x80000000000u128 == 0x80000000000u128
            &&& !((0x2500 <= c && c <= 0x257F)) ==> r & 0x80000000000u128 == acc & 0x80000000000u128
            // bit 44: BlockElements
            &&& ((0x2580 <= c && c <= 0x259F)) ==> r & 0x100000000000u128 == 0x100000000000u128
            &&& !((0x2580 <= c && c <= 0x259F)) ==> r & 0x100000000000u128 == acc & 0x100000000000u128
            // bit 45: GeometricShapes
            &&& ((0x25A0 <= c && c <= 0x25FF)) ==> r & 0x200000000000u128 == 0x200000000000u128
            &&& !((0x25A0 <= c && c <= 0x25FF)) ==> r & 0x200000000000u128 == acc & 0x200000000000u128
            // bit 46: MiscellaneousSymbols
            &&& ((0x2600 <= c && c <= 0x26FF)) ==> r & 0x400000000000u128 == 0x400000000000u128
            &&& !((0x2600 <= c && c <= 0x26FF)) ==> r & 0x400000000000u128 == acc & 0x400000000000u128
            // bit 47: Dingbats
            &&& ((0x2700 <= c && c <= 0x27BF)) ==> r & 0x800000000000u128 == 0x800000000000u128
            &&& !((0x2700 <= c && c <= 0x27BF)) ==> r & 0x800000000000u128 == acc & 0x800000000000u128
            // bit 48: CJKSymbolsAndPunctuation
            &&& ((0x3000 <= c && c <= 0x303F)) ==> r & 0x1000000000000u128 == 0x1000000000000u128
            &&& !((0x3000 <= c && c <= 0x303F)) ==> r & 0x1000000000000u128 == acc & 0x1000000000000u128
            // bit 49: Hiragana
            &&& ((0x3040 <= c && c <= 0x309F)) ==> r & 0x2000000000000u128 == 0x2000000000000u128
            &&& !((0x3040 <= c && c <= 0x309F)) ==> r & 0x2000000000000u128 == acc & 0x2000000000000u128
            // bit 50: Katakana, KatakanaPhoneticExtensions
            &&& ((0x30A0 <= c && c <= 0x30FF) || (0x31F0 <= c && c <= 0x31FF)) ==> r & 0x4000000000000u128 == 0x4000000000000u128
            &&& !((0x30A0 <= c && c <= 0x30FF) || (0x31F0 <= c && c <= 0x31FF)) ==> r & 0x4000000000000u128 == acc & 0x4000000000000u128
            // bit 51: Bopomofo, BopomofoExtended
            &&& ((0x3100 <= c && c <= 0x312F) || (0x31A0 <= c && c <= 0x31BF)) ==> r & 0x8000000000000u128 == 0x8000000000000u128
            &&& !((0x3100 <= c && c <= 0x312F) || (0x31A0 <= c && c <= 0x31BF)) ==> r & 0x8000000000000u128 == acc & 0x8000000000000u128
            // bit 52: HangulCompatibilityJamo
            &&& ((0x3130 <= c && c <= 0x318F)) ==> r & 0x10000000000000u128 == 0x10000000000000u128
            &&& !((0x3130 <= c && c <= 0x318F)) ==> r & 0x10000000000000u128 == acc & 0x10000000000000u128
            // bit 53: Phagspa
            &&& ((0xA840 <= c && c <= 0xA87F)) ==> r & 0x20000000000000u128 == 0x20000000000000u128
            &&& !((0xA840 <= c && c <= 0xA87F)) ==> r & 0x20000000000000u128 == acc & 0x20000000000000u128
            // bit 54: EnclosedCJKLettersAndMonths
            &&& ((0x3200 <= c && c <= 0x32FF)) ==> r & 0x40000000000000u128 == 0x40000000000000u128
            &&& !((0x3200 <= c && c <= 0x32FF)) ==> r & 0x40000000000000u128 == acc & 0x40000000000000u128
            // bit 55: CJKCompatibility
            &&& ((0x3300 <= c && c <= 0x33FF)) ==> r & 0x80000000000000u128 == 0x80000000000000u128
            &&& !((0x3300 <= c && c <= 0x33FF)) ==> r & 0x80000000000000u128 == acc & 0x80000000000000u128
            // bit 56: HangulSyllables
            &&& ((0xAC00 <= c && c <= 0xD7AF)) ==> r & 0x100000000000000u128 == 0x100000000000000u128
            &&& !((0xAC00 <= c && c <= 0xD7AF)) ==> r & 0x100000000000000u128 == acc & 0x100000000000000u128
            // bit 57: NonPlane0
            &&& ((0x10000 <= c && c <= 0x10FFFF)) ==> r & 0x200000000000000u128 == 0x200000000000000u128
            &&& !((0x10000 <= c && c <= 0x10FFFF)) ==> r & 0x200000000000000u128 == acc & 0x200000000000000u128
            // bit 58: Phoenician
            &&& ((0x10900 <= c && c <= 0x1091F)) ==> r & 0x400000000000000u128 == 0x400000000000000u128
            &&& !((0x10900 <= c && c <= 0x1091F)) ==> r & 0x400000000000000u128 == acc & 0x400000000000000u128
            // bit 59: CJKUnifiedIdeographs, CJKRadicalsSupplement, KangxiRadicals, IdeographicDescriptionCharacters, CJKUnifiedIdeographsExtensionA, CJKUnifiedIdeographsExtensionB, Kanbun
            &&& ((0x4E00 <= c && c <= 0x9FFF) || (0x2E80 <= c && c <= 0x2EFF) || (0x2F00 <= c && c <= 0x2FDF) || (0x2FF0 <= c && c <= 0x2FFF) || (0x3400 <= c && c <= 0x4DBF) || (0x20000 <= c && c <= 0x2A6DF) || (0x3190 <= c && c <= 0x319F)) ==> r & 0x800000000000000u128 == 0x800000000000000u128
            &&& !((0x4E00 <= c && c <= 0x9FFF) || (0x2E80 <= c && c <= 0x2EFF) || (0x2F00 <= c && c <= 0x2FDF) || (0x2FF0 <= c && c <= 0x2FFF) || (0x3400 <= c && c <= 0x4DBF) || (0x20000 <= c && c <= 0x2A6DF) || (0x3190 <= c && c <= 0x319F)) ==> r & 0x800000000000000u128 == acc & 0x800000000000000u128
            // bit 60: PrivateUseAreaPlane0
            &&& ((0xE000 <= c && c <= 0xF8FF)) ==> r & 0x1000000000000000u128 == 0x1000000000000000u128
            &&& !((0xE000 <= c && c <= 0xF8FF)) ==> r & 0x1000000000000000u128 == acc & 0x1000000000000000u128
            // bit 61: CJKStrokes, CJKCompatibilityIdeographs, CJKCompatibilityIdeographsSupplement
            &&& ((0x31C0 <= c && c <= 0x31EF) || (0xF900 <= c && c <= 0xFAFF) || (0x2F800 <= c && c <= 0x2FA1F)) ==> r & 0x2000000000000000u128 == 0x2000000000000000u128
            &&& !((0x31C0 <= c && c <= 0x31EF) || (0xF900 <= c && c <= 0xFAFF) || (0x2F800 <= c && c <= 0x2FA1F)) ==> r & 0x2000000000000000u128 == acc & 0x2000000000000000u128
            // bit 62: AlphabeticPresentationForms
            &&& ((0xFB00 <= c && c <= 0xFB4F)) ==> r & 0x4000000000000000u128 == 0x4000000000000000u128
            &&& !((0xFB00 <= c && c <= 0xFB4F)) ==> r & 0x4000000000000000u128 == acc & 0x4000000000000000u128
            // bit 63: ArabicPresentationFormsA
            &&& ((0xFB50 <= c && c <= 0xFDFF)) ==> r & 0x8000000000000000u128 == 0x8000000000000000u128
            &&& !((0xFB50 <= c && c <= 0xFDFF)) ==> r & 0x8000000000000000u128 == acc & 0x8000000000000000u128
            // bit 64: CombiningHalfMarks
            &&& ((0xFE20 <= c && c <= 0xFE2F)) ==> r & 0x10000000000000000u128 == 0x10000000000000000u128
            &&& !((0xFE20 <= c && c <= 0xFE2F)) ==> r & 0x10000000000000000u128 == acc & 0x10000000000000000u128
            // bit 65: VerticalForms, CJKCompatibilityForms
            &&& ((0xFE10 <= c && c <= 0xFE1F) || (0xFE30 <= c && c <= 0xFE4F)) ==> r & 0x20000000000000000u128 == 0x20000000000000000u128
            &&& !((0xFE10 <= c && c <= 0xFE1F) || (0xFE30 <= c && c <= 0xFE4F)) ==> r & 0x20000000000000000u128 == acc & 0x20000000000000000u128
            // bit 66: SmallFormVariants
            &&& ((0xFE50 <= c && c <= 0xFE6F)) ==> r & 0x40000000000000000u128 == 0x40000000000000000u128
            &&& !((0xFE50 <= c && c <= 0xFE6F)) ==> r & 0x40000000000000000u128 == acc & 0x40000000000000000u128
            // bit 67: ArabicPresentationFormsB
            &&& ((0xFE70 <= c && c <= 0xFEFF)) ==> r & 0x80000000000000000u128 == 0x80000000000000000u128
            &&& !((0xFE70 <= c && c <= 0xFEFF)) ==> r & 0x80000000000000000u128 == acc & 0x80000000000000000u128
            // bit 68: HalfwidthAndFullwidthForms
            &&& ((0xFF00 <= c && c <= 0xFFEF)) ==> r & 0x100000000000000000u128 == 0x100000000000000000u128
            &&& !((0xFF00 <= c && c <= 0xFFEF)) ==> r & 0x100000000000000000u128 == acc & 0x100000000000000000u128
            // bit 69: Specials
            &&& ((0xFFF0 <= c && c <= 0xFFFF)) ==> r & 0x200000000000000000u128 == 0x200000000000000000u128
            &&& !((0xFFF0 <= c && c <= 0xFFFF)) ==> r & 0x200000000000000000u128 == acc & 0x200000000000000000u128
            // bit 70: Tibetan
            &&& ((0x0F00 <= c && c <= 0x0FFF)) ==> r & 0x400000000000000000u128 == 0x400000000000000000u128
            &&& !((0x0F00 <= c && c <= 0x0FFF)) ==> r & 0x400000000000000000u128 == acc & 0x400000000000000000u128
            // bit 71: Syriac
            &&& ((0x0700 <= c && c <= 0x074F)) ==> r & 0x800000000000000000u128 == 0x800000000000000000u128
            &&& !((0x0700 <= c && c <= 0x074F)) ==> r & 0x800000000000000000u128 == acc & 0x800000000000000000u128
            // bit 72: Thaana
            &&& ((0x0780 <= c && c <= 0x07BF)) ==> r & 0x1000000000000000000u128 == 0x1000000000000000000u128
            &&& !((0x0780 <= c && c <= 0x07BF)) ==> r & 0x1000000000000000000u128 == acc & 0x1000000000000000000u128
            // bit 73: Sinhala
            &&& ((0x0D80 <= c && c <= 0x0DFF)) ==> r & 0x2000000000000000000u128 == 0x2000000000000000000u128
            &&& !((0x0D80 <= c && c <= 0x0DFF)) ==> r & 0x2000000000000000000u128 == acc & 0x2000000000000000000u128
            // bit 74: Myanmar
            &&& ((0x1000 <= c && c <= 0x109F)) ==> r & 0x4000000000000000000u128 == 0x4000000000000000000u128
            &&& !((0x1000 <= c && c <= 0x109F)) ==> r & 0x4000000000000000000u128 == acc & 0x4000000000000000000u128
            // bit 75: Ethiopic, EthiopicSupplement, EthiopicExtended
            &&& ((0x1200 <= c && c <= 0x137F) || (0x1380 <= c && c <= 0x139F) || (0x2D80 <= c && c <= 0x2DDF)) ==> r & 0x8000000000000000000u128 == 0x8000000000000000000u128
            &&& !((0x1200 <= c && c <= 0x137F) || (0x1380 <= c && c <= 0x139F) || (0x2D80 <= c && c <= 0x2DDF)) ==> r & 0x8000000000000000000u128 == acc & 0x8000000000000000000u128
            // bit 76: Cherokee
            &&& ((0x13A0 <= c && c <= 0x13FF)) ==> r & 0x10000000000000000000u128 == 0x10000000000000000000u128
            &&& !((0x13A0 <= c && c <= 0x13FF)) ==> r & 0x10000000000000000000u128 == acc & 0x10000000000000000000u128
            // bit 77: UnifiedCanadianAboriginalSyllabics
            &&& ((0x1400 <= c && c <= 0x167F)) ==> r & 0x20000000000000000000u128 == 0x20000000000000000000u128
            &&& !((0x1400 <= c && c <= 0x167F)) ==> r & 0x20000000000000000000u128 == acc & 0x20000000000000000000u128
            // bit 78: Ogham
            &&& ((0x1680 <= c && c <= 0x169F)) ==> r & 0x40000000000000000000u128 == 0x40000000000000000000u128
            &&& !((0x1680 <= c && c <= 0x169F)) ==> r & 0x40000000000000000000u128 == acc & 0x40000000000000000000u128
            // bit 79: Runic
            &&& ((0x16A0 <= c && c <= 0x16FF)) ==> r & 0x80000000000000000000u128 == 0x80000000000000000000u128
            &&& !((0x16A0 <= c && c <= 0x16FF)) ==> r & 0x80000000000000000000u128 == acc & 0x80000000000000000000u128
            // bit 80: Khmer, KhmerSymbols
            &&& ((0x1780 <= c && c <= 0x17FF) || (0x19E0 <= c && c <= 0x19FF)) ==> r & 0x100000000000000000000u128 == 0x100000000000000000000u128
            &&& !((0x1780 <= c && c <= 0x17FF) || (0x19E0 <= c && c <= 0x19FF)) ==> r & 0x100000000000000000000u128 == acc & 0x100000000000000000000u128
            // bit 81: Mongolian
            &&& ((0x1800 <= c && c <= 0x18AF)) ==> r & 0x200000000000000000000u128 == 0x200000000000000000000u128
            &&& !((0x1800 <= c && c <= 0x18AF)) ==> r & 0x200000000000000000000u128 == acc & 0x200000000000000000000u128
            // bit 82: BraillePatterns
            &&& ((0x2800 <= c && c <= 0x28FF)) ==> r & 0x400000000000000000000u128 == 0x400000000000000000000u128
            &&& !((0x2800 <= c && c <= 0x28FF)) ==> r & 0x400000000000000000000u128 == acc & 0x400000000000000000000u128
            // bit 83: YiSyllables, YiRadicals
            &&& ((0xA000 <= c && c <= 0xA48F) || (0xA490 <= c && c <= 0xA4CF)) ==> r & 0x800000000000000000000u128 == 0x800000000000000000000u128
            &&& !((0xA000 <= c && c <= 0xA48F) || (0xA490 <= c && c <= 0xA4CF)) ==> r & 0x800000000000000000000u128 == acc & 0x800000000000000000000u128
            // bit 84: Tagalog, Hanunoo, Buhid, Tagbanwa
            &&& ((0x1700 <= c && c <= 0x171F) || (0x1720 <= c && c <= 0x173F) || (0x1740 <= c && c <= 0x175F) || (0x1760 <= c && c <= 0x177F)) ==> r & 0x1000000000000000000000u128 == 0x1000000000000000000000u128
            &&& !((0x1700 <= c && c <= 0x171F) || (0x1720 <= c && c <= 0x173F) || (0x1740 <= c && c <= 0x175F) || (0x1760 <= c && c <= 0x177F)) ==> r & 0x1000000000000000000000u128 == acc & 0x1000000000000000000000u128
            // bit 85: OldItalic
            &&& ((0x10300 <= c && c <= 0x1032F)) ==> r & 0x2000000000000000000000u128 == 0x2000000000000000000000u128
            &&& !((0x10300 <= c && c <= 0x1032F)) ==> r & 0x2000000000000000000000u128 == acc & 0x2000000000000000000000u128
            // bit 86: Gothic
            &&& ((0x10330 <= c && c <= 0x1034F)) ==> r & 0x4000000000000000000000u128 == 0x4000000000000000000000u128
            &&& !((0x10330 <= c && c <= 0x1034F)) ==> r & 0x4000000000000000000000u128 == acc & 0x4000000000000000000000u128
            // bit 87: Deseret
            &&& ((0x10400 <= c && c <= 0x1044F)) ==> r & 0x8000000000000000000000u128 == 0x8000000000000000000000u128
            &&& !((0x10400 <= c && c <= 0x1044F)) ==> r & 0x8000000000000000000000u128 == acc & 0x8000000000000000000000u128
            // bit 88: ByzantineMusicalSymbols, MusicalSymbols, AncientGreekMusicalNotation
            &&& ((0x1D000 <= c && c <= 0x1D0FF) || (0x1D100 <= c && c <= 0x1D1FF) || (0x1D200 <= c && c <= 0x1D24F)) ==> r & 0x10000000000000000000000u128 == 0x10000000000000000000000u128
            &&& !((0x1D000 <= c && c <= 0x1D0FF) || (0x1D100 <= c && c <= 0x1D1FF) || (0x1D200 <= c && c <= 0x1D24F)) ==> r & 0x10000000000000000000000u128 == acc & 0x10000000000000000000000u128
            // bit 89: MathematicalAlphanumericSymbols
            &&& ((0x1D400 <= c && c <= 0x1D7FF)) ==> r & 0x20000000000000000000000u128 == 0x20000000000000000000000u128
            &&& !((0x1D400 <= c && c <= 0x1D7FF)) ==> r & 0x20000000000000000000000u128 == acc & 0x20000000000000000000000u128
            // bit 90: PrivateUsePlane15, PrivateUsePlane16
            &&& ((0xF0000 <= c && c <= 0xFFFFD) || (0x100000 <= c && c <= 0x10FFFD)) ==> r & 0x40000000000000000000000u128 == 0x40000000000000000000000u128
            &&& !((0xF0000 <= c && c <= 0xFFFFD) || (0x100000 <= c && c <= 0x10FFFD)) ==> r & 0x40000000000000000000000u128 == acc & 0x40000000000000000000000u128
            // bit 91: VariationSelectors, VariationSelectorsSupplement
            &&& ((0xFE00 <= c && c <= 0xFE0F) || (0xE0100 <= c && c <= 0xE01EF)) ==> r & 0x80000000000000000000000u128 == 0x80000000000000000000000u128
            &&& !((0xFE00 <= c && c <= 0xFE0F) || (0xE0100 <= c && c <= 0xE01EF)) ==> r & 0x80000000000000000000000u128 == acc & 0x80000000000000000000000u128
            // bit 92: Tags
            &&& ((0xE0000 <= c && c <= 0xE007F)) ==> r & 0x100000000000000000000000u128 == 0x100000000000000000000000u128
            &&& !((0xE0000 <= c && c <= 0xE007F)) ==> r & 0x100000000000000000000000u128 == acc & 0x100000000000000000000000u128
            // bit 93: Limbu
            &&& ((0x1900 <= c && c <= 0x194F)) ==> r & 0x200000000000000000000000u128 == 0x200000000000000000000000u128
            &&& !((0x1900 <= c && c <= 0x194F)) ==> r & 0x200000000000000000000000u128 == acc & 0x200000000000000000000000u128
            // bit 94: TaiLe
            &&& ((0x1950 <= c && c <= 0x197F)) ==> r & 0x400000000000000000000000u128 == 0x400000000000000000000000u128
            &&& !((0x1950 <= c && c <= 0x197F)) ==> r & 0x400000000000000000000000u128 == acc & 0x400000000000000000000000u128
            // bit 95: NewTaiLue
            &&& ((0x1980 <= c && c <= 0x19DF)) ==> r & 0x800000000000000000000000u128 == 0x800000000000000000000000u128
            &&& !((0x1980 <= c && c <= 0x19DF)) ==> r & 0x800000000000000000000000u128 == acc & 0x800000000000000000000000u128
            // bit 96: Buginese
            &&& ((0x1A00 <= c && c <= 0x1A1F)) ==> r & 0x1000000000000000000000000u128 == 0x1000000000000000000000000u128
            &&& !((0x1A00 <= c && c <= 0x1A1F)) ==> r & 0x1000000000000000000000000u128 == acc & 0x1000000000000000000000000u128
            // bit 97: Glagolitic
            &&& ((0x2C00 <= c && c <= 0x2C5F)) ==> r & 0x2000000000000000000000000u128 == 0x2000000000000000000000000u128
            &&& !((0x2C00 <= c && c <= 0x2C5F)) ==> r & 0x2000000000000000000000000u128 == acc & 0x2000000000000000000000000u128
            // bit 98: Tifinagh
            &&& ((0x2D30 <= c && c <= 0x2D7F)) ==> r & 0x4000000000000000000000000u128 == 0x4000000000000000000000000u128
            &&& !((0x2D30 <= c && c <= 0x2D7F)) ==> r & 0x4000000000000000000000000u128 == acc & 0x4000000000000000000000000u128
            // bit 99: YijingHexagramSymbols
            &&& ((0x4DC0 <= c && c <= 0x4DFF)) ==> r & 0x8000000000000000000000000u128 == 0x8000000000000000000000000u128
            &&& !((0x4DC0 <= c && c <= 0x4DFF)) ==> r & 0x8000000000000000000000000u128 == acc & 0x8000000000000000000000000u128
            // bit 100: SylotiNagri
            &&& ((0xA800 <= c && c <= 0xA82F)) ==> r & 0x10000000000000000000000000u128 == 0x10000000000000000000000000u128
            &&& !((0xA800 <= c && c <= 0xA82F)) ==> r & 0x10000000000000000000000000u128 == acc & 0x10000000000000000000000000u128
            // bit 101: LinearBSyllabary, LinearBIdeograms, AegeanNumbers
            &&& ((0x10000 <= c && c <= 0x1007F) || (0x10080 <= c && c <= 0x100FF) || (0x10100 <= c && c <= 0x1013F)) ==> r & 0x20000000000000000000000000u128 == 0x20000000000000000000000000u128
            &&& !((0x10000 <= c && c <= 0x1007F) || (0x10080 <= c && c <= 0x100FF) || (0x10100 <= c && c <= 0x1013F)) ==> r & 0x20000000000000000000000000u128 == acc & 0x20000000000000000000000000u128
            // bit 102: AncientGreekNumbers
            &&& ((0x10140 <= c && c <= 0x1018F)) ==> r & 0x40000000000000000000000000u128 == 0x40000000000000000000000000u128
            &&& !((0x10140 <= c && c <= 0x1018F)) ==> r & 0x40000000000000000000000000u128 == acc & 0x40000000000000000000000000u128
            // bit 103: Ugaritic
            &&& ((0x10380 <= c && c <= 0x1039F)) ==> r & 0x80000000000000000000000000u128 == 0x80000000000000000000000000u128
            &&& !((0x10380 <= c && c <= 0x1039F)) ==> r & 0x80000000000000000000000000u128 == acc & 0x80000000000000000000000000u128
            // bit 104: OldPersian
            &&& ((0x103A0 <= c && c <= 0x103DF)) ==> r & 0x100000000000000000000000000u128 == 0x100000000000000000000000000u128
            &&& !((0x103A0 <= c && c <= 0x103DF)) ==> r & 0x100000000000000000000000000u128 == acc & 0x100000000000000000000000000u128
            // bit 105: Shavian
            &&& ((0x10450 <= c && c <= 0x1047F)) ==> r & 0x200000000000000000000000000u128 == 0x200000000000000000000000000u128
            &&& !((0x10450 <= c && c <= 0x1047F)) ==> r & 0x200000000000000000000000000u128 == acc & 0x200000000000000000000000000u128
            // bit 106: Osmanya
            &&& ((0x10480 <= c && c <= 0x104AF)) ==> r & 0x400000000000000000000000000u128 == 0x400000000000000000000000000u128
            &&& !((0x10480 <= c && c <= 0x104AF)) ==> r & 0x400000000000000000000000000u128 == acc & 0x400000000000000000000000000u128
            // bit 107: CypriotSyllabary
            &&& ((0x10800 <= c && c <= 0x1083F)) ==> r & 0x800000000000000000000000000u128 == 0x800000000000000000000000000u128
            &&& !((0x10800 <= c && c <= 0x1083F)) ==> r & 0x800000000000000000000000000u128 == acc & 0x800000000000000000000000000u128
            // bit 108: Kharoshthi
            &&& ((0x10A00 <= c && c <= 0x10A5F)) ==> r & 0x1000000000000000000000000000u128 == 0x1000000000000000000000000000u128
            &&& !((0x10A00 <= c && c <= 0x10A5F)) ==> r & 0x1000000000000000000000000000u128 == acc & 0x1000000000000000000000000000u128
            // bit 109: TaiXuanJingSymbols
            &&& ((0x1D300 <= c && c <= 0x1D35F)) ==> r & 0x2000000000000000000000000000u128 == 0x2000000000000000000000000000u128
            &&& !((0x1D300 <= c && c <= 0x1D35F)) ==> r & 0x2000000000000000000000000000u128 == acc & 0x2000000000000000000000000000u128
            // bit 110: Cuneiform, CuneiformNumbersAndPunctuation
            &&& ((0x12000 <= c && c <= 0x123FF) || (0x12400 <= c && c <= 0x1247F)) ==> r & 0x4000000000000000000000000000u128 == 0x4000000000000000000000000000u128
            &&& !((0x12000 <= c && c <= 0x123FF) || (0x12400 <= c && c <= 0x1247F)) ==> r & 0x4000000000000000000000000000u128 == acc & 0x4000000000000000000000000000u128
            // bit 111: CountingRodNumerals
            &&& ((0x1D360 <= c && c <= 0x1D37F)) ==> r & 0x8000000000000000000000000000u128 == 0x8000000000000000000000000000u128
            &&& !((0x1D360 <= c && c <= 0x1D37F)) ==> r & 0x8000000000000000000000000000u128 == acc & 0x8000000000000000000000000000u128
            // bit 112: Sundanese
            &&& ((0x1B80 <= c && c <= 0x1BBF)) ==> r & 0x10000000000000000000000000000u128 == 0x10000000000000000000000000000u128
            &&& !((0x1B80 <= c && c <= 0x1BBF)) ==> r & 0x10000000000000000000000000000u128 == acc & 0x10000000000000000000000000000u128
            // bit 113: Lepcha
            &&& ((0x1C00 <= c && c <= 0x1C4F)) ==> r & 0x20000000000000000000000000000u128 == 0x20000000000000000000000000000u128
            &&& !((0x1C00 <= c && c <= 0x1C4F)) ==> r & 0x20000000000000000000000000000u128 == acc & 0x20000000000000000000000000000u128
            // bit 114: OlChiki
            &&& ((0x1C50 <= c && c <= 0x1C7F)) ==> r & 0x40000000000000000000000000000u128 == 0x40000000000000000000000000000u128
            &&& !((0x1C50 <= c && c <= 0x1C7F)) ==> r & 0x40000000000000000000000000000u128 == acc & 0x40000000000000000000000000000u128
            // bit 115: Saurashtra
            &&& ((0xA880 <= c && c <= 0xA8DF)) ==> r & 0x80000000000000000000000000000u128 == 0x80000000000000000000000000000u128
            &&& !((0xA880 <= c && c <= 0xA8DF)) ==> r & 0x80000000000000000000000000000u128 == acc & 0x80000000000000000000000000000u128
            // bit 116: KayahLi
            &&& ((0xA900 <= c && c <= 0xA92F)) ==> r & 0x100000000000000000000000000000u128 == 0x100000000000000000000000000000u128
            &&& !((0xA900 <= c && c <= 0xA92F)) ==> r & 0x100000000000000000000000000000u128 == acc & 0x100000000000000000000000000000u128
            // bit 117: Rejang
            &&& ((0xA930 <= c && c <= 0xA95F)) ==> r & 0x200000000000000000000000000000u128 == 0x200000000000000000000000000000u128
            &&& !((0xA930 <= c && c <= 0xA95F)) ==> r & 0x200000000000000000000000000000u128 == acc & 0x200000000000000000000000000000u128
            // bit 118: Cham
            &&& ((0xAA00 <= c && c <= 0xAA5F)) ==> r & 0x400000000000000000000000000000u128 == 0x400000000000000000000000000000u128
            &&& !((0xAA00 <= c && c <= 0xAA5F)) ==> r & 0x400000000000000000000000000000u128 == acc & 0x400000000000000000000000000000u128
            // bit 119: AncientSymbols
            &&& ((0x10190 <= c && c <= 0x101CF)) ==> r & 0x800000000000000000000000000000u128 == 0x800000000000000000000000000000u128
            &&& !((0x10190 <= c && c <= 0x101CF)) ==> r & 0x800000000000000000000000000000u128 == acc & 0x800000000000000000000000000000u128
            // bit 120: PhaistosDisc
            &&& ((0x101D0 <= c && c <= 0x101FF)) ==> r & 0x1000000000000000000000000000000u128 == 0x1000000000000000000000000000000u128
            &&& !((0x101D0 <= c && c <= 0x101FF)) ==> r & 0x1000000000000000000000000000000u128 == acc & 0x1000000000000000000000000000000u128
            // bit 121: Carian, Lycian, Lydian
            &&& ((0x102A0 <= c && c <= 0x102DF) || (0x10280 <= c && c <= 0x1029F) || (0x10920 <= c && c <= 0x1093F)) ==> r & 0x2000000000000000000000000000000u128 == 0x2000000000000000000000000000000u128
            &&& !((0x102A0 <= c && c <= 0x102DF) || (0x10280 <= c && c <= 0x1029F) || (0x10920 <= c && c <= 0x1093F)) ==> r & 0x2000000000000000000000000000000u128 == acc & 0x2000000000000000000000000000000u128
            // bit 122: DominoTiles, MahjongTiles
            &&& ((0x1F030 <= c && c <= 0x1F09F) || (0x1F000 <= c && c <= 0x1F02F)) ==> r & 0x4000000000000000000000000000000u128 == 0x4000000000000000000000000000000u128
            &&& !((0x1F030 <= c && c <= 0x1F09F) || (0x1F000 <= c && c <= 0x1F02F)) ==> r & 0x4000000000000000000000000000000u128 == acc & 0x4000000000000000000000000000000u128
            // bits that no block sets
            &&& r & 0xF8000000000000000000000000000000u128 == acc & 0xF8000000000000000000000000000000u128
        }),
{
}

/// Adding a character to a set of Unicode ranges keeps the bits already
/// set and sets the bit of each block of the OpenType `ulUnicodeRange`
/// table that holds the character, and no other bit: for each bit, the
/// blocks it stands for, and the code points of each block.
pub proof fn lemma_unicode_range_blocks(acc: u128, c: u32)
    ensures
        ({
            let r = unicode_range_bits(acc, c);
            // bit 0: BasicLatin
            &&& (c <= 0x007F) ==> r & 0x1u128 == 0x1u128
            &&& !(c <= 0x007F) ==> r & 0x1u128 == acc & 0x1u128
            // bit 1: Latin1Supplement
            &&& ((0x0080 <= c && c <= 0x00FF)) ==> r & 0x2u128 == 0x2u128
            &&& !((0x0080 <= c && c <= 0x00FF)) ==> r & 0x2u128 == acc & 0x2u128
            // bit 2: LatinExtendedA
            &&& ((0x0100 <= c && c <= 0x017F)) ==> r & 0x4u128 == 0x4u128
            &&& !((0x0100 <= c && c <= 0x017F)) ==> r & 0x4u128 == acc & 0x4u128
            // bit 3: LatinExtendedB
            &&& ((0x0180 <= c && c <= 0x024F)) ==> r & 0x8u128 == 0x8u128
            &&& !((0x0180 <= c && c <= 0x024F)) ==> r & 0x8u128 == acc & 0x8u128
            // bit 4: IPAExtensions
            &&& ((0x0250 <= c && c <= 0x02AF)) ==> r & 0x10u128 == 0x10u128
            &&& !((0x0250 <= c && c <= 0x02AF)) ==> r & 0x10u128 == acc & 0x10u128
            // bit 5: PhoneticExtensions
            &&& ((0x1D00 <= c && c <= 0x1D7F)) ==> r & 0x20u128 == 0x20u128
            &&& !((0x1D00 <= c && c <= 0x1D7F)) ==> r & 0x20u128 == acc & 0x20u128
            // bit 6: PhoneticExtensionsSupplement
            &&& ((0x1D80 <= c && c <= 0x1DBF)) ==> r & 0x40u128 == 0x40u128
            &&& !((0x1D80 <= c && c <= 0x1DBF)) ==> r & 0x40u128 == acc & 0x40u128
            // bit 7: SpacingModifierLetters
            &&& ((0x02B0 <= c && c <= 0x02FF)) ==> r & 0x80u128 == 0x80u128
            &&& !((0x02B0 <= c && c <= 0x02FF)) ==> r & 0x80u128 == acc & 0x80u128
            // bit 8: ModifierToneLetters
            &&& ((0xA700 <= c && c <= 0xA71F)) ==> r & 0x100u128 == 0x100u128
            &&& !((0xA700 <= c && c <= 0xA71F)) ==> r & 0x100u128 == acc & 0x100u128
            // bit 9: CombiningDiacriticalMarks
            &&& ((0x0300 <= c && c <= 0x036F)) ==> r & 0x200u128 == 0x200u128
            &&& !((0x0300 <= c && c <= 0x036F)) ==> r & 0x200u128 == acc & 0x200u128
            // bit 10: CombiningDiacriticalMarksSupplement
            &&& ((0x1DC0 <= c && c <= 0x1DFF)) ==> r & 0x400u128 == 0x400u128
            &&& !((0x1DC0 <= c && c <= 0x1DFF)) ==> r & 0x400u128 == acc & 0x400u128
            // bit 11: GreekAndCoptic
            &&& ((0x0370 <= c && c <= 0x03FF)) ==> r & 0x800u128 == 0x800u128
            &&& !((0x0370 <= c && c <= 0x03FF)) ==> r & 0x800u128 == acc & 0x800u128
            // bit 12: Coptic
            &&& ((0x2C80 <= c && c <= 0x2CFF)) ==> r & 0x1000u128 == 0x1000u128
            &&& !((0x2C80 <= c && c <= 0x2CFF)) ==> r & 0x1000u128 == acc & 0x1000u128
            // bit 13: Cyrillic
            &&& ((0x0400 <= c && c <= 0x04FF)) ==> r & 0x2000u128 == 0x2000u128
            &&& !((0x0400 <= c && c <= 0x04FF)) ==> r & 0x2000u128 == acc & 0x2000u128
            // bit 14: CyrillicSupplement
            &&& ((0x0500 <= c && c <= 0x052F)) ==> r & 0x4000u128 == 0x4000u128
            &&& !((0x0500 <= c && c <= 0x052F)) ==> r & 0x4000u128 == acc & 0x4000u128
            // bit 15: CyrillicExtendedA
            &&& ((0x2DE0 <= c && c <= 0x2DFF)) ==> r & 0x8000u128 == 0x8000u128
            &&& !((0x2DE0 <= c && c <= 0x2DFF)) ==> r & 0x8000u128 == acc & 0x8000u128
            // bit 16: CyrillicExtendedB
            &&& ((0xA640 <= c && c <= 0xA69F)) ==> r & 0x10000u128 == 0x10000u128
            &&& !((0xA640 <= c && c <= 0xA69F)) ==> r & 0x10000u128 == acc & 0x10000u128
            // bit 17: Armenian
            &&& ((0x0530 <= c && c <= 0x058F)) ==> r & 0x20000u128 == 0x20000u128
            &&& !((0x0530 <= c && c <= 0x058F)) ==> r & 0x20000u128 == acc & 0x20000u128
            // bit 18: Hebrew
            &&& ((0x0590 <= c && c <= 0x05FF)) ==> r & 0x40000u128 == 0x40000u128
            &&& !((0x0590 <= c && c <= 0x05FF)) ==> r & 0x40000u128 == acc & 0x40000u128
            // bit 19: Vai
            &&& ((0xA500 <= c && c <= 0xA63F)) ==> r & 0x80000u128 == 0x80000u128
            &&& !((0xA500 <= c && c <= 0xA63F)) ==> r & 0x80000u128 == acc & 0x80000u128
            // bit 20: Arabic
            &&& ((0x0600 <= c && c <= 0x06FF)) ==> r & 0x100000u128 == 0x100000u128
            &&& !((0x0600 <= c && c <= 0x06FF)) ==> r & 0x100000u128 == acc & 0x100000u128
            // bit 21: ArabicSupplement
            &&& ((0x0750 <= c && c <= 0x077F)) ==> r & 0x200000u128 == 0x200000u128
            &&& !((0x0750 <= c && c <= 0x077F)) ==> r & 0x200000u128 == acc & 0x200000u128
            // bit 22: NKo, Kannada
            &&& ((0x07C0 <= c && c <= 0x07FF) || (0x0C80 <= c && c <= 0x0CFF)) ==> r & 0x400000u128 == 0x400000u128
            &&& !((0x07C0 <= c && c <= 0x07FF) || (0x0C80 <= c && c <= 0x0CFF)) ==> r & 0x400000u128 == acc & 0x400000u128
            // bit 23: Malayalam
            &&& ((0x0D00 <= c && c <= 0x0D7F)) ==> r & 0x800000u128 == 0x800000u128
            &&& !((0x0D00 <= c && c <= 0x0D7F)) ==> r & 0x800000u128 == acc & 0x800000u128
            // bit 24: Thai
            &&& ((0x0E00 <= c && c <= 0x0E7F)) ==> r & 0x1000000u128 == 0x1000000u128
            &&& !((0x0E00 <= c && c <= 0x0E7F)) ==> r & 0x1000000u128 == acc & 0x1000000u128
            // bit 25: Lao
            &&& ((0x0E80 <= c && c <= 0x0EFF)) ==> r & 0x2000000u128 == 0x2000000u128
            &&& !((0x0E80 <= c && c <= 0x0EFF)) ==> r & 0x2000000u128 == acc & 0x2000000u128
            // bit 26: Georgian, GeorgianSupplement
            &&& ((0x10A0 <= c && c <= 0x10FF) || (0x2D00 <= c && c <= 0x2D2F)) ==> r & 0x4000000u128 == 0x4000000u128
            &&& !((0x10A0 <= c && c <= 0x10FF) || (0x2D00 <= c && c <= 0x2D2F)) ==> r & 0x4000000u128 == acc & 0x4000000u128
            // bit 27: Balinese
            &&& ((0x1B00 <= c && c <= 0x1B7F)) ==> r & 0x8000000u128 == 0x8000000u128
            &&& !((0x1B00 <= c && c <= 0x1B7F)) ==> r & 0x8000000u128 == acc & 0x8000000u128
            // bit 28: HangulJamo
            &&& ((0x1100 <= c && c <= 0x11FF)) ==> r & 0x10000000u128 == 0x10000000u128
            &&& !((0x1100 <= c && c <= 0x11FF)) ==> r & 0x10000000u128 == acc & 0x10000000u128
            // bit 29: LatinExtendedAdditional, LatinExtendedC, LatinExtendedD
            &&& ((0x1E00 <= c && c <= 0x1EFF) || (0x2C60 <= c && c <= 0x2C7F) || (0xA720 <= c && c <= 0xA7FF)) ==> r & 0x20000000u128 == 0x20000000u128
            &&& !((0x1E00 <= c && c <= 0x1EFF) || (0x2C60 <= c && c <= 0x2C7F) || (0xA720 <= c && c <= 0xA7FF)) ==> r & 0x20000000u128 == acc & 0x20000000u128
            // bit 30: GreekExtended
            &&& ((0x1F00 <= c && c <= 0x1FFF)) ==> r & 0x40000000u128 == 0x40000000u128
            &&& !((0x1F00 <= c && c <= 0x1FFF)) ==> r & 0x40000000u128 == acc & 0x40000000u128
            // bit 31: GeneralPunctuation, SupplementalPunctuation
            &&& ((0x2000 <= c && c <= 0x206F) || (0x2E00 <= c && c <= 0x2E7F)) ==> r & 0x80000000u128 == 0x80000000u128
            &&& !((0x2000 <= c && c <= 0x206F) || (0x2E00 <= c && c <= 0x2E7F)) ==> r & 0x80000000u128 == acc & 0x80000000u128
            // bit 32: SuperscriptsAndSubscripts
            &&& ((0x2070 <= c && c <= 0x209F)) ==> r & 0x100000000u128 == 0x100000000u128
            &&& !((0x2070 <= c && c <= 0x209F)) ==> r & 0x100000000u128 == acc & 0x100000000u128
            // bit 33: CurrencySymbols
            &&& ((0x20A0 <= c && c <= 0x20CF)) ==> r & 0x200000000u128 == 0x200000000u128
            &&& !((0x20A0 <= c && c <= 0x20CF)) ==> r & 0x200000000u128 == acc & 0x200000000u128
            // bit 34: CombiningDiacriticalMarksForSymbols
            &&& ((0x20D0 <= c && c <= 0x20FF)) ==> r & 0x400000000u128 == 0x400000000u128
            &&& !((0x20D0 <= c && c <= 0x20FF)) ==> r & 0x400000000u128 == acc & 0x400000000u128
            // bit 35: LetterlikeSymbols
            &&& ((0x2100 <= c && c <= 0x214F)) ==> r & 0x800000000u128 == 0x800000000u128
            &&& !((0x2100 <= c && c <= 0x214F)) ==> r & 0x800000000u128 == acc & 0x800000000u128
            // bit 36: NumberForms
            &&& ((0x2150 <= c && c <= 0x218F)) ==> r & 0x1000000000u128 == 0x1000000000u128
            &&& !((0x2150 <= c && c <= 0x218F)) ==> r & 0x1000000000u128 == acc & 0x1000000000u128
            // bit 37: Arrows, MiscellaneousSymbolsAndArrows
            &&& ((0x2190 <= c && c <= 0x21FF) || (0x27F0 <= c && c <= 0x27FF) || (0x2900 <= c && c <= 0x297F) || (0x2B00 <= c && c <= 0x2BFF)) ==> r & 0x2000000000u128 == 0x2000000000u128
            &&& !((0x2190 <= c && c <= 0x21FF) || (0x27F0 <= c && c <= 0x27FF) || (0x2900 <= c && c <= 0x297F) || (0x2B00 <= c && c <= 0x2BFF)) ==> r & 0x2000000000u128 == acc & 0x2000000000u128
            // bit 38: MathematicalOperators
            &&& ((0x2200 <= c && c <= 0x22FF) || (0x2A00 <= c && c <= 0x2AFF) || (0x27C0 <= c && c <= 0x27EF) || (0x2980 <= c && c <= 0x29FF)) ==> r & 0x4000000000u128 == 0x4000000000u128
            &&& !((0x2200 <= c && c <= 0x22FF) || (0x2A00 <= c && c <= 0x2AFF) || (0x27C0 <= c && c <= 0x27EF) || (0x2980 <= c && c <= 0x29FF)) ==> r & 0x4000000000u128 == acc & 0x4000000000u128
            // bit 39: MiscellaneousTechnical
            &&& ((0x2300 <= c && c <= 0x23FF)) ==> r & 0x8000000000u128 == 0x8000000000u128
            &&& !((0x2300 <= c && c <= 0x23FF)) ==> r & 0x8000000000u128 == acc & 0x8000000000u128
            // bit 40: ControlPictures
            &&& ((0x2400 <= c && c <= 0x243F)) ==> r & 0x10000000000u128 == 0x10000000000u128
            &&& !((0x2400 <= c && c <= 0x243F)) ==> r & 0x10000000000u128 == acc & 0x10000000000u128
            // bit 41: OpticalCharacterRecognition
            &&& ((0x2440 <= c && c <= 0x245F)) ==> r & 0x20000000000u128 == 0x20000000000u128
            &&& !((0x2440 <= c && c <= 0x245F)) ==> r & 0x20000000000u128 == acc & 0x20000000000u128
            // bit 42: EnclosedAlphanumerics
            &&& ((0x2460 <= c && c <= 0x24FF)) ==> r & 0x40000000000u128 == 0x40000000000u128
            &&& !((0x2460 <= c && c <= 0x24FF)) ==> r & 0x40000000000u128 == acc & 0x40000000000u128
            // bit 43: BoxDrawing
            &&& ((0x2500 <= c && c <= 0x257F)) ==> r & 0x80000000000u128 == 0x80000000000u128
            &&& !((0x2500 <= c && c <= 0x257F)) ==> r & 0x80000000000u128 == acc & 0x80000000000u128
            // bit 44: BlockElements
            &&& ((0x2580 <= c && c <= 0x259F)) ==> r & 0x100000000000u128 == 0x100000000000u128
            &&& !((0x2580 <= c && c <= 0x259F)) ==> r & 0x100000000000u128 == acc & 0x100000000000u128
            // bit 45: GeometricShapes
            &&& ((0x25A0 <= c && c <= 0x25FF)) ==> r & 0x200000000000u128 == 0x200000000000u128
            &&& !((0x25A0 <= c && c <= 0x25FF)) ==> r & 0x200000000000u128 == acc & 0x200000000000u128
            // bit 46: MiscellaneousSymbols
            &&& ((0x2600 <= c && c <= 0x26FF)) ==> r & 0x400000000000u128 == 0x400000000000u128
            &&& !((0x2600 <= c && c <= 0x26FF)) ==> r & 0x400000000000u128 == acc & 0x400000000000u128
            // bit 47: Dingbats
            &&& ((0x2700 <= c && c <= 0x27BF)) ==> r & 0x800000000000u128 == 0x800000000000u128
            &&& !((0x2700 <= c && c <= 0x27BF)) ==> r & 0x800000000000u128 == acc & 0x800000000000u128
            // bit 48: CJKSymbolsAndPunctuation
            &&& ((0x3000 <= c && c <= 0x303F)) ==> r & 0x1000000000000u128 == 0x1000000000000u128
            &&& !((0x3000 <= c && c <= 0x303F)) ==> r & 0x1000000000000u128 == acc & 0x1000000000000u128
            // bit 49: Hiragana
            &&& ((0x3040 <= c && c <= 0x309F)) ==> r & 0x2000000000000u128 == 0x2000000000000u128
            &&& !((0x3040 <= c && c <= 0x309F)) ==> r & 0x2000000000000u128 == acc & 0x2000000000000u128
            // bit 50: Katakana, KatakanaPhoneticExtensions
            &&& ((0x30A0 <= c && c <= 0x30FF) || (0x31F0 <= c && c <= 0x31FF)) ==> r & 0x4000000000000u128 == 0x4000000000000u128
            &&& !((0x30A0 <= c && c <= 0x30FF) || (0x31F0 <= c && c <= 0x31FF)) ==> r & 0x4000000000000u128 == acc & 0x4000000000000u128
            // bit 51: Bopomofo, BopomofoExtended
            &&& ((0x3100 <= c && c <= 0x312F) || (0x31A0 <= c && c <= 0x31BF)) ==> r & 0x8000000000000u128 == 0x8000000000000u128
            &&& !((0x3100 <= c && c <= 0x312F) || (0x31A0 <= c && c <= 0x31BF)) ==> r & 0x8000000000000u128 == acc & 0x8000000000000u128
            // bit 52: HangulCompatibilityJamo
            &&& ((0x3130 <= c && c <= 0x318F)) ==> r & 0x10000000000000u128 == 0x10000000000000u128
            &&& !((0x3130 <= c && c <= 0x318F)) ==> r & 0x10000000000000u128 == acc & 0x10000000000000u128
            // bit 53: Phagspa
            &&& ((0xA840 <= c && c <= 0xA87F)) ==> r & 0x20000000000000u128 == 0x20000000000000u128
            &&& !((0xA840 <= c && c <= 0xA87F)) ==> r & 0x20000000000000u128 == acc & 0x20000000000000u128
            // bit 54: EnclosedCJKLettersAndMonths
            &&& ((0x3200 <= c && c <= 0x32FF)) ==> r & 0x40000000000000u128 == 0x40000000000000u128
            &&& !((0x3200 <= c && c <= 0x32FF)) ==> r & 0x40000000000000u128 == acc & 0x40000000000000u128
            // bit 55: CJKCompatibility
            &&& ((0x3300 <= c && c <= 0x33FF)) ==> r & 0x80000000000000u128 == 0x80000000000000u128
            &&& !((0x3300 <= c && c <= 0x33FF)) ==> r & 0x80000000000000u128 == acc & 0x80000000000000u128
            // bit 56: HangulSyllables
            &&& ((0xAC00 <= c && c <= 0xD7AF)) ==> r & 0x100000000000000u128 == 0x100000000000000u128
            &&& !((0xAC00 <= c && c <= 0xD7AF)) ==> r & 0x100000000000000u128 == acc & 0x100000000000000u128
            // bit 57: NonPlane0
            &&& ((0x10000 <= c && c <= 0x10FFFF)) ==> r & 0x200000000000000u128 == 0x200000000000000u128
            &&& !((0x10000 <= c && c <= 0x10FFFF)) ==> r & 0x200000000000000u128 == acc & 0x200000000000000u128
            // bit 58: Phoenician
            &&& ((0x10900 <= c && c <= 0x1091F)) ==> r & 0x400000000000000u128 == 0x400000000000000u128
            &&& !((0x10900 <= c && c <= 0x1091F)) ==> r & 0x400000000000000u128 == acc & 0x400000000000000u128
            // bit 59: CJKUnifiedIdeographs, CJKRadicalsSupplement, KangxiRadicals, IdeographicDescriptionCharacters, CJKUnifiedIdeographsExtensionA, CJKUnifiedIdeographsExtensionB, Kanbun
            &&& ((0x4E00 <= c && c <= 0x9FFF) || (0x2E80 <= c && c <= 0x2EFF) || (0x2F00 <= c && c <= 0x2FDF) || (0x2FF0 <= c && c <= 0x2FFF) || (0x3400 <= c && c <= 0x4DBF) || (0x20000 <= c && c <= 0x2A6DF) || (0x3190 <= c && c <= 0x319F)) ==> r & 0x800000000000000u128 == 0x800000000000000u128
            &&& !((0x4E00 <= c && c <= 0x9FFF) || (0x2E80 <= c && c <= 0x2EFF) || (0x2F00 <= c && c <= 0x2FDF) || (0x2FF0 <= c && c <= 0x2FFF) || (0x3400 <= c && c <= 0x4DBF) || (0x20000 <= c && c <= 0x2A6DF) || (0x3190 <= c && c <= 0x319F)) ==> r & 0x800000000000000u128 == acc & 0x800000000000000u128
            // bit 60: PrivateUseAreaPlane0
            &&& ((0xE000 <= c && c <= 0xF8FF)) ==> r & 0x1000000000000000u128 == 0x1000000000000000u128
            &&& !((0xE000 <= c && c <= 0xF8FF)) ==> r & 0x1000000000000000u128 == acc & 0x1000000000000000u128
            // bit 61: CJKStrokes, CJKCompatibilityIdeographs, CJKCompatibilityIdeographsSupplement
            &&& ((0x31C0 <= c && c <= 0x31EF) || (0xF900 <= c && c <= 0xFAFF) || (0x2F800 <= c && c <= 0x2FA1F)) ==> r & 0x2000000000000000u128 == 0x2000000000000000u128
            &&& !((0x31C0 <= c && c <= 0x31EF) || (0xF900 <= c && c <= 0xFAFF) || (0x2F800 <= c && c <= 0x2FA1F)) ==> r & 0x2000000000000000u128 == acc & 0x2000000000000000u128
            // bit 62: AlphabeticPresentationForms
            &&& ((0xFB00 <= c && c <= 0xFB4F)) ==> r & 0x4000000000000000u128 == 0x4000000000000000u128
            &&& !((0xFB00 <= c && c <= 0xFB4F)) ==> r & 0x4000000000000000u128 == acc & 0x4000000000000000u128
            // bit 63: ArabicPresentationFormsA
            &&& ((0xFB50 <= c && c <= 0xFDFF)) ==> r & 0x8000000000000000u128 == 0x8000000000000000u128
            &&& !((0xFB50 <= c && c <= 0xFDFF)) ==> r & 0x8000000000000000u128 == acc & 0x8000000000000000u128
            // bit 64: CombiningHalfMarks
            &&& ((0xFE20 <= c && c <= 0xFE2F)) ==> r & 0x10000000000000000u128 == 0x10000000000000000u128
            &&& !((0xFE20 <= c && c <= 0xFE2F)) ==> r & 0x10000000000000000u128 == acc & 0x10000000000000000u128
            // bit 65: VerticalForms, CJKCompatibilityForms
            &&& ((0xFE10 <= c && c <= 0xFE1F) || (0xFE30 <= c && c <= 0xFE4F)) ==> r & 0x20000000000000000u128 == 0x20000000000000000u128
            &&& !((0xFE10 <= c && c <= 0xFE1F) || (0xFE30 <= c && c <= 0xFE4F)) ==> r & 0x20000000000000000u128 == acc & 0x20000000000000000u128
            // bit 66: SmallFormVariants
            &&& ((0xFE50 <= c && c <= 0xFE6F)) ==> r & 0x40000000000000000u128 == 0x40000000000000000u128
            &&& !((0xFE50 <= c && c <= 0xFE6F)) ==> r & 0x40000000000000000u128 == acc & 0x40000000000000000u128
            // bit 67: ArabicPresentationFormsB
            &&& ((0xFE70 <= c && c <= 0xFEFF)) ==> r & 0x80000000000000000u128 == 0x80000000000000000u128
            &&& !((0xFE70 <= c && c <= 0xFEFF)) ==> r & 0x80000000000000000u128 == acc & 0x80000000000000000u128
            // bit 68: HalfwidthAndFullwidthForms
            &&& ((0xFF00 <= c && c <= 0xFFEF)) ==> r & 0x100000000000000000u128 == 0x100000000000000000u128
            &&& !((0xFF00 <= c && c <= 0xFFEF)) ==> r & 0x100000000000000000u128 == acc & 0x100000000000000000u128
            // bit 69: Specials
            &&& ((0xFFF0 <= c && c <= 0xFFFF)) ==> r & 0x200000000000000000u128 == 0x200000000000000000u128
            &&& !((0xFFF0 <= c && c <= 0xFFFF)) ==> r & 0x200000000000000000u128 == acc & 0x200000000000000000u128
            // bit 70: Tibetan
            &&& ((0x0F00 <= c && c <= 0x0FFF)) ==> r & 0x400000000000000000u128 == 0x400000000000000000u128
            &&& !((0x0F00 <= c && c <= 0x0FFF)) ==> r & 0x400000000000000000u128 == acc & 0x400000000000000000u128
            // bit 71: Syriac
            &&& ((0x0700 <= c && c <= 0x074F)) ==> r & 0x800000000000000000u128 == 0x800000000000000000u128
            &&& !((0x0700 <= c && c <= 0x074F)) ==> r & 0x800000000000000000u128 == acc & 0x800000000000000000u128
            // bit 72: Thaana
            &&& ((0x0780 <= c && c <= 0x07BF)) ==> r & 0x1000000000000000000u128 == 0x1000000000000000000u128
            &&& !((0x0780 <= c && c <= 0x07BF)) ==> r & 0x1000000000000000000u128 == acc & 0x1000000000000000000u128
            // bit 73: Sinhala
            &&& ((0x0D80 <= c && c <= 0x0DFF)) ==> r & 0x2000000000000000000u128 == 0x2000000000000000000u128
            &&& !((0x0D80 <= c && c <= 0x0DFF)) ==> r & 0x2000000000000000000u128 == acc & 0x2000000000000000000u128
            // bit 74: Myanmar
            &&& ((0x1000 <= c && c <= 0x109F)) ==> r & 0x4000000000000000000u128 == 0x4000000000000000000u128
            &&& !((0x1000 <= c && c <= 0x109F)) ==> r & 0x4000000000000000000u128 == acc & 0x4000000000000000000u128
            // bit 75: Ethiopic, EthiopicSupplement, EthiopicExtended
            &&& ((0x1200 <= c && c <= 0x137F) || (0x1380 <= c && c <= 0x139F) || (0x2D80 <= c && c <= 0x2DDF)) ==> r & 0x8000000000000000000u128 == 0x8000000000000000000u128
            &&& !((0x1200 <= c && c <= 0x137F) || (0x1380 <= c && c <= 0x139F) || (0x2D80 <= c && c <= 0x2DDF)) ==> r & 0x8000000000000000000u128 == acc & 0x8000000000000000000u128
            // bit 76: Cherokee
            &&& ((0x13A0 <= c && c <= 0x13FF)) ==> r & 0x10000000000000000000u128 == 0x10000000000000000000u128
            &&& !((0x13A0 <= c && c <= 0x13FF)) ==> r & 0x10000000000000000000u128 == acc & 0x10000000000000000000u128
            // bit 77: UnifiedCanadianAboriginalSyllabics
            &&& ((0x1400 <= c && c <= 0x167F)) ==> r & 0x20000000000000000000u128 == 0x20000000000000000000u128
            &&& !((0x1400 <= c && c <= 0x167F)) ==> r & 0x20000000000000000000u128 == acc & 0x20000000000000000000u128
            // bit 78: Ogham
            &&& ((0x1680 <= c && c <= 0x169F)) ==> r & 0x40000000000000000000u128 == 0x40000000000000000000u128
            &&& !((0x1680 <= c && c <= 0x169F)) ==> r & 0x40000000000000000000u128 == acc & 0x40000000000000000000u128
            // bit 79: Runic
            &&& ((0x16A0 <= c && c <= 0x16FF)) ==> r & 0x80000000000000000000u128 == 0x80000000000000000000u128
            &&& !((0x16A0 <= c && c <= 0x16FF)) ==> r & 0x80000000000000000000u128 == acc & 0x80000000000000000000u128
            // bit 80: Khmer, KhmerSymbols
            &&& ((0x1780 <= c && c <= 0x17FF) || (0x19E0 <= c && c <= 0x19FF)) ==> r & 0x100000000000000000000u128 == 0x100000000000000000000u128
            &&& !((0x1780 <= c && c <= 0x17FF) || (0x19E0 <= c && c <= 0x19FF)) ==> r & 0x100000000000000000000u128 == acc & 0x100000000000000000000u128
            // bit 81: Mongolian
            &&& ((0x1800 <= c && c <= 0x18AF)) ==> r & 0x200000000000000000000u128 == 0x200000000000000000000u128
            &&& !((0x1800 <= c && c <= 0x18AF)) ==> r & 0x200000000000000000000u128 == acc & 0x200000000000000000000u128
            // bit 82: BraillePatterns
            &&& ((0x2800 <= c && c <= 0x28FF)) ==> r & 0x400000000000000000000u128 == 0x400000000000000000000u128
            &&& !((0x2800 <= c && c <= 0x28FF)) ==> r & 0x400000000000000000000u128 == acc & 0x400000000000000000000u128
            // bit 83: YiSyllables, YiRadicals
            &&& ((0xA000 <= c && c <= 0xA48F) || (0xA490 <= c && c <= 0xA4CF)) ==> r & 0x800000000000000000000u128 == 0x800000000000000000000u128
            &&& !((0xA000 <= c && c <= 0xA48F) || (0xA490 <= c && c <= 0xA4CF)) ==> r & 0x800000000000000000000u128 == acc & 0x800000000000000000000u128
            // bit 84: Tagalog, Hanunoo, Buhid, Tagbanwa
            &&& ((0x1700 <= c && c <= 0x171F) || (0x1720 <= c && c <= 0x173F) || (0x1740 <= c && c <= 0x175F) || (0x1760 <= c && c <= 0x177F)) ==> r & 0x1000000000000000000000u128 == 0x1000000000000000000000u128
            &&& !((0x1700 <= c && c <= 0x171F) || (0x1720 <= c && c <= 0x173F) || (0x1740 <= c && c <= 0x175F) || (0x1760 <= c && c <= 0x177F)) ==> r & 0x1000000000000000000000u128 == acc & 0x1000000000000000000000u128
            // bit 85: OldItalic
            &&& ((0x10300 <= c && c <= 0x1032F)) ==> r & 0x2000000000000000000000u128 == 0x2000000000000000000000u128
            &&& !((0x10300 <= c && c <= 0x1032F)) ==> r & 0x2000000000000000000000u128 == acc & 0x2000000000000000000000u128
            // bit 86: Gothic
            &&& ((0x10330 <= c && c <= 0x1034F)) ==> r & 0x4000000000000000000000u128 == 0x4000000000000000000000u128
            &&& !((0x10330 <= c && c <= 0x1034F)) ==> r & 0x4000000000000000000000u128 == acc & 0x4000000000000000000000u128
            // bit 87: Deseret
            &&& ((0x10400 <= c && c <= 0x1044F)) ==> r & 0x8000000000000000000000u128 == 0x8000000000000000000000u128
            &&& !((0x10400 <= c && c <= 0x1044F)) ==> r & 0x8000000000000000000000u128 == acc & 0x8000000000000000000000u128
            // bit 88: ByzantineMusicalSymbols, MusicalSymbols, AncientGreekMusicalNotation
            &&& ((0x1D000 <= c && c <= 0x1D0FF) || (0x1D100 <= c && c <= 0x1D1FF) || (0x1D200 <= c && c <= 0x1D24F)) ==> r & 0x10000000000000000000000u128 == 0x10000000000000000000000u128
            &&& !((0x1D000 <= c && c <= 0x1D0FF) || (0x1D100 <= c && c <= 0x1D1FF) || (0x1D200 <= c && c <= 0x1D24F)) ==> r & 0x10000000000000000000000u128 == acc & 0x10000000000000000000000u128
            // bit 89: MathematicalAlphanumericSymbols
            &&& ((0x1D400 <= c && c <= 0x1D7FF)) ==> r & 0x20000000000000000000000u128 == 0x20000000000000000000000u128
            &&& !((0x1D400 <= c && c <= 0x1D7FF)) ==> r & 0x20000000000000000000000u128 == acc & 0x20000000000000000000000u128
            // bit 90: PrivateUsePlane15, PrivateUsePlane16
            &&& ((0xF0000 <= c && c <= 0xFFFFD) || (0x100000 <= c && c <= 0x10FFFD)) ==> r & 0x40000000000000000000000u128 == 0x40000000000000000000000u128
            &&& !((0xF0000 <= c && c <= 0xFFFFD) || (0x100000 <= c && c <= 0x10FFFD)) ==> r & 0x40000000000000000000000u128 == acc & 0x40000000000000000000000u128
            // bit 91: VariationSelectors, VariationSelectorsSupplement
            &&& ((0xFE00 <= c && c <= 0xFE0F) || (0xE0100 <= c && c <= 0xE01EF)) ==> r & 0x80000000000000000000000u128 == 0x80000000000000000000000u128
            &&& !((0xFE00 <= c && c <= 0xFE0F) || (0xE0100 <= c && c <= 0xE01EF)) ==> r & 0x80000000000000000000000u128 == acc & 0x80000000000000000000000u128
            // bit 92: Tags
            &&& ((0xE0000 <= c && c <= 0xE007F)) ==> r & 0x100000000000000000000000u128 == 0x100000000000000000000000u128
            &&& !((0xE0000 <= c && c <= 0xE007F)) ==> r & 0x100000000000000000000000u128 == acc & 0x100000000000000000000000u128
            // bit 93: Limbu
            &&& ((0x1900 <= c && c <= 0x194F)) ==> r & 0x200000000000000000000000u128 == 0x200000000000000000000000u128
            &&& !((0x1900 <= c && c <= 0x194F)) ==> r & 0x200000000000000000000000u128 == acc & 0x200000000000000000000000u128
            // bit 94: TaiLe
            &&& ((0x1950 <= c && c <= 0x197F)) ==> r & 0x400000000000000000000000u128 == 0x400000000000000000000000u128
            &&& !((0x1950 <= c && c <= 0x197F)) ==> r & 0x400000000000000000000000u128 == acc & 0x400000000000000000000000u128
            // bit 95: NewTaiLue
            &&& ((0x1980 <= c && c <= 0x19DF)) ==> r & 0x800000000000000000000000u128 == 0x800000000000000000000000u128
            &&& !((0x1980 <= c && c <= 0x19DF)) ==> r & 0x800000000000000000000000u128 == acc & 0x800000000000000000000000u128
            // bit 96: Buginese
            &&& ((0x1A00 <= c && c <= 0x1A1F)) ==> r & 0x1000000000000000000000000u128 == 0x1000000000000000000000000u128
            &&& !((0x1A00 <= c && c <= 0x1A1F)) ==> r & 0x1000000000000000000000000u128 == acc & 0x1000000000000000000000000u128
            // bit 97: Glagolitic
            &&& ((0x2C00 <= c && c <= 0x2C5F)) ==> r & 0x2000000000000000000000000u128 == 0x2000000000000000000000000u128
            &&& !((0x2C00 <= c && c <= 0x2C5F)) ==> r & 0x2000000000000000000000000u128 == acc & 0x2000000000000000000000000u128
            // bit 98: Tifinagh
            &&& ((0x2D30 <= c && c <= 0x2D7F)) ==> r & 0x4000000000000000000000000u128 == 0x4000000000000000000000000u128
            &&& !((0x2D30 <= c && c <= 0x2D7F)) ==> r & 0x4000000000000000000000000u128 == acc & 0x4000000000000000000000000u128
            // bit 99: YijingHexagramSymbols
            &&& ((0x4DC0 <= c && c <= 0x4DFF)) ==> r & 0x8000000000000000000000000u128 == 0x8000000000000000000000000u128
            &&& !((0x4DC0 <= c && c <= 0x4DFF)) ==> r & 0x8000000000000000000000000u128 == acc & 0x8000000000000000000000000u128
            // bit 100: SylotiNagri
            &&& ((0xA800 <= c && c <= 0xA82F)) ==> r & 0x10000000000000000000000000u128 == 0x10000000000000000000000000u128
            &&& !((0xA800 <= c && c <= 0xA82F)) ==> r & 0x10000000000000000000000000u128 == acc & 0x10000000000000000000000000u128
            // bit 101: LinearBSyllabary, LinearBIdeograms, AegeanNumbers
            &&& ((0x10000 <= c && c <= 0x1007F) || (0x10080 <= c && c <= 0x100FF) || (0x10100 <= c && c <= 0x1013F)) ==> r & 0x20000000000000000000000000u128 == 0x20000000000000000000000000u128
            &&& !((0x10000 <= c && c <= 0x1007F) || (0x10080 <= c && c <= 0x100FF) || (0x10100 <= c && c <= 0x1013F)) ==> r & 0x20000000000000000000000000u128 == acc & 0x20000000000000000000000000u128
            // bit 102: AncientGreekNumbers
            &&& ((0x10140 <= c && c <= 0x1018F)) ==> r & 0x40000000000000000000000000u128 == 0x40000000000000000000000000u128
            &&& !((0x10140 <= c && c <= 0x1018F)) ==> r & 0x40000000000000000000000000u128 == acc & 0x40000000000000000000000000u128
            // bit 103: Ugaritic
            &&& ((0x10380 <= c && c <= 0x1039F)) ==> r & 0x80000000000000000000000000u128 == 0x80000000000000000000000000u128
            &&& !((0x10380 <= c && c <= 0x1039F)) ==> r & 0x80000000000000000000000000u128 == acc & 0x80000000000000000000000000u128
            // bit 104: OldPersian
            &&& ((0x103A0 <= c && c <= 0x103DF)) ==> r & 0x100000000000000000000000000u128 == 0x100000000000000000000000000u128
            &&& !((0x103A0 <= c && c <= 0x103DF)) ==> r & 0x100000000000000000000000000u128 == acc & 0x100000000000000000000000000u128
            // bit 105: Shavian
            &&& ((0x10450 <= c && c <= 0x1047F)) ==> r & 0x200000000000000000000000000u128 == 0x200000000000000000000000000u128
            &&& !((0x10450 <= c && c <= 0x1047F)) ==> r & 0x200000000000000000000000000u128 == acc & 0x200000000000000000000000000u128
            // bit 106: Osmanya
            &&& ((0x10480 <= c && c <= 0x104AF)) ==> r & 0x400000000000000000000000000u128 == 0x400000000000000000000000000u128
            &&& !((0x10480 <= c && c <= 0x104AF)) ==> r & 0x400000000000000000000000000u128 == acc & 0x400000000000000000000000000u128
            // bit 107: CypriotSyllabary
            &&& ((0x10800 <= c && c <= 0x1083F)) ==> r & 0x800000000000000000000000000u128 == 0x800000000000000000000000000u128
            &&& !((0x10800 <= c && c <= 0x1083F)) ==> r & 0x800000000000000000000000000u128 == acc & 0x800000000000000000000000000u128
            // bit 108: Kharoshthi
            &&& ((0x10A00 <= c && c <= 0x10A5F)) ==> r & 0x1000000000000000000000000000u128 == 0x1000000000000000000000000000u128
            &&& !((0x10A00 <= c && c <= 0x10A5F)) ==> r & 0x1000000000000000000000000000u128 == acc & 0x1000000000000000000000000000u128
            // bit 109: TaiXuanJingSymbols
            &&& ((0x1D300 <= c && c <= 0x1D35F)) ==> r & 0x2000000000000000000000000000u128 == 0x2000000000000000000000000000u128
            &&& !((0x1D300 <= c && c <= 0x1D35F)) ==> r & 0x2000000000000000000000000000u128 == acc & 0x2000000000000000000000000000u128
            // bit 110: Cuneiform, CuneiformNumbersAndPunctuation
            &&& ((0x12000 <= c && c <= 0x123FF) || (0x12400 <= c && c <= 0x1247F)) ==> r & 0x4000000000000000000000000000u128 == 0x4000000000000000000000000000u128
            &&& !((0x12000 <= c && c <= 0x123FF) || (0x12400 <= c && c <= 0x1247F)) ==> r & 0x4000000000000000000000000000u128 == acc & 0x4000000000000000000000000000u128
            // bit 111: CountingRodNumerals
            &&& ((0x1D360 <= c && c <= 0x1D37F)) ==> r & 0x8000000000000000000000000000u128 == 0x8000000000000000000000000000u128
            &&& !((0x1D360 <= c && c <= 0x1D37F)) ==> r & 0x8000000000000000000000000000u128 == acc & 0x8000000000000000000000000000u128
            // bit 112: Sundanese
            &&& ((0x1B80 <= c && c <= 0x1BBF)) ==> r & 0x10000000000000000000000000000u128 == 0x10000000000000000000000000000u128
            &&& !((0x1B80 <= c && c <= 0x1BBF)) ==> r & 0x10000000000000000000000000000u128 == acc & 0x10000000000000000000000000000u128
            // bit 113: Lepcha
            &&& ((0x1C00 <= c && c <= 0x1C4F)) ==> r & 0x20000000000000000000000000000u128 == 0x20000000000000000000000000000u128
            &&& !((0x1C00 <= c && c <= 0x1C4F)) ==> r & 0x20000000000000000000000000000u128 == acc & 0x20000000000000000000000000000u128
            // bit 114: OlChiki
            &&& ((0x1C50 <= c && c <= 0x1C7F)) ==> r & 0x40000000000000000000000000000u128 == 0x40000000000000000000000000000u128
            &&& !((0x1C50 <= c && c <= 0x1C7F)) ==> r & 0x40000000000000000000000000000u128 == acc & 0x40000000000000000000000000000u128
            // bit 115: Saurashtra
            &&& ((0xA880 <= c && c <= 0xA8DF)) ==> r & 0x80000000000000000000000000000u128 == 0x80000000000000000000000000000u128
            &&& !((0xA880 <= c && c <= 0xA8DF)) ==> r & 0x80000000000000000000000000000u128 == acc & 0x80000000000000000000000000000u128
            // bit 116: KayahLi
            &&& ((0xA900 <= c && c <= 0xA92F)) ==> r & 0x100000000000000000000000000000u128 == 0x100000000000000000000000000000u128
            &&& !((0xA900 <= c && c <= 0xA92F)) ==> r & 0x100000000000000000000000000000u128 == acc & 0x100000000000000000000000000000u128
            // bit 117: Rejang
            &&& ((0xA930 <= c && c <= 0xA95F)) ==> r & 0x200000000000000000000000000000u128 == 0x200000000000000000000000000000u128
            &&& !((0xA930 <= c && c <= 0xA95F)) ==> r & 0x200000000000000000000000000000u128 == acc & 0x200000000000000000000000000000u128
            // bit 118: Cham
            &&& ((0xAA00 <= c && c <= 0xAA5F)) ==> r & 0x400000000000000000000000000000u128 == 0x400000000000000000000000000000u128
            &&& !((0xAA00 <= c && c <= 0xAA5F)) ==> r & 0x400000000000000000000000000000u128 == acc & 0x400000000000000000000000000000u128
            // bit 119: AncientSymbols
            &&& ((0x10190 <= c && c <= 0x101CF)) ==> r & 0x800000000000000000000000000000u128 == 0x800000000000000000000000000000u128
            &&& !((0x10190 <= c && c <= 0x101CF)) ==> r & 0x800000000000000000000000000000u128 == acc & 0x800000000000000000000000000000u128
            // bit 120: PhaistosDisc
            &&& ((0x101D0 <= c && c <= 0x101FF)) ==> r & 0x1000000000000000000000000000000u128 == 0x1000000000000000000000000000000u128
            &&& !((0x101D0 <= c && c <= 0x101FF)) ==> r & 0x1000000000000000000000000000000u128 == acc & 0x1000000000000000000000000000000u128
            // bit 121: Carian, Lycian, Lydian
            &&& ((0x102A0 <= c && c <= 0x102DF) || (0x10280 <= c && c <= 0x1029F) || (0x10920 <= c && c <= 0x1093F)) ==> r & 0x2000000000000000000000000000000u128 == 0x2000000000000000000000000000000u128
            &&& !((0x102A0 <= c && c <= 0x102DF) || (0x10280 <= c && c <= 0x1029F) || (0x10920 <= c && c <= 0x1093F)) ==> r & 0x2000000000000000000000000000000u128 == acc & 0x2000000000000000000000000000000u128
            // bit 122: DominoTiles, MahjongTiles
            &&& ((0x1F030 <= c && c <= 0x1F09F) || (0x1F000 <= c && c <= 0x1F02F)) ==> r & 0x4000000000000000000000000000000u128 == 0x4000000000000000000000000000000u128
            &&& !((0x1F030 <= c && c <= 0x1F09F) || (0x1F000 <= c && c <= 0x1F02F)) ==> r & 0x4000000000000000000000000000000u128 == acc & 0x4000000000000000000000000000000u128
            // bits that no block sets
            &&& r & 0xF8000000000000000000000000000000u128 == acc & 0xF8000000000000000000000000000000u128
        }),
{
    lemma_unicode_range_blocks_bv(acc, c, unicode_range_bits(acc, c));
}

impl UnicodeRange {
    /// Set the bit for the given character. Might simultaneously set
    /// multiple bits.
    pub fn add_bits_from_range(self, ch: char) -> (r: Self)
        ensures
            r.0 == unicode_range_bits(self.0, ch as u32),
    {
        let c = ch as u32;
        let r = self.0
            | (if c <= 0x007F { 0x1u128 } else { 0u128 })
            | (if 0x0080 <= c && c <= 0x00FF { 0x2u128 } else { 0u128 })
            | (if 0x0100 <= c && c <= 0x017F { 0x4u128 } else { 0u128 })
            | (if 0x0180 <= c && c <= 0x024F { 0x8u128 } else { 0u128 })
            | (if 0x0250 <= c && c <= 0x02AF { 0x10u128 } else { 0u128 })
            | (if 0x1D00 <= c && c <= 0x1D7F { 0x20u128 } else { 0u128 })
            | (if 0x1D80 <= c && c <= 0x1DBF { 0x40u128 } else { 0u128 })
            | (if 0x02B0 <= c && c <= 0x02FF { 0x80u128 } else { 0u128 })
            | (if 0xA700 <= c && c <= 0xA71F { 0x100u128 } else { 0u128 })
            | (if 0x0300 <= c && c <= 0x036F { 0x200u128 } else { 0u128 })
            | (if 0x1DC0 <= c && c <= 0x1DFF { 0x400u128 } else { 0u128 })
            | (if 0x0370 <= c && c <= 0x03FF { 0x800u128 } else { 0u128 })
            | (if 0x2C80 <= c && c <= 0x2CFF { 0x1000u128 } else { 0u128 })
            | (if 0x0400 <= c && c <= 0x04FF { 0x2000u128 } else { 0u128 })
            | (if 0x0500 <= c && c <= 0x052F { 0x4000u128 } else { 0u128 })
            | (if 0x2DE0 <= c && c <= 0x2DFF { 0x8000u128 } else { 0u128 })
            | (if 0xA640 <= c && c <= 0xA69F { 0x10000u128 } else { 0u128 })
            | (if 0x0530 <= c && c <= 0x058F { 0x20000u128 } else { 0u128 })
            | (if 0x0590 <= c && c <= 0x05FF { 0x40000u128 } else { 0u128 })
            | (if 0xA500 <= c && c <= 0xA63F { 0x80000u128 } else { 0u128 })
            | (if 0x0600 <= c && c <= 0x06FF { 0x100000u128 } else { 0u128 })
            | (if 0x0750 <= c && c <= 0x077F { 0x200000u128 } else { 0u128 })
            | (if 0x07C0 <= c && c <= 0x07FF { 0x400000u128 } else { 0u128 })
            | (if 0x0C80 <= c && c <= 0x0CFF { 0x400000u128 } else { 0u128 })
            | (if 0x0D00 <= c && c <= 0x0D7F { 0x800000u128 } else { 0u128 })
            | (if 0x0E00 <= c && c <= 0x0E7F { 0x1000000u128 } else { 0u128 })
            | (if 0x0E80 <= c && c <= 0x0EFF { 0x2000000u128 } else { 0u128 })
            | (if 0x10A0 <= c && c <= 0x10FF { 0x4000000u128 } else { 0u128 })
            | (if 0x2D00 <= c && c <= 0x2D2F { 0x4000000u128 } else { 0u128 })
            | (if 0x1B00 <= c && c <= 0x1B7F { 0x8000000u128 } else { 0u128 })
            | (if 0x1100 <= c && c <= 0x11FF { 0x10000000u128 } else { 0u128 })
            | (if 0x1E00 <= c && c <= 0x1EFF { 0x20000000u128 } else { 0u128 })
            | (if 0x2C60 <= c && c <= 0x2C7F { 0x20000000u128 } else { 0u128 })
            | (if 0xA720 <= c && c <= 0xA7FF { 0x20000000u128 } else { 0u128 })
            | (if 0x1F00 <= c && c <= 0x1FFF { 0x40000000u128 } else { 0u128 })
            | (if 0x2000 <= c && c <= 0x206F { 0x80000000u128 } else { 0u128 })
            | (if 0x2E00 <= c && c <= 0x2E7F { 0x80000000u128 } else { 0u128 })
            | (if 0x2070 <= c && c <= 0x209F { 0x100000000u128 } else { 0u128 })
            | (if 0x20A0 <= c && c <= 0x20CF { 0x200000000u128 } else { 0u128 })
            | (if 0x20D0 <= c && c <= 0x20FF { 0x400000000u128 } else { 0u128 })
            | (if 0x2100 <= c && c <= 0x214F { 0x800000000u128 } else { 0u128 })
            | (if 0x2150 <= c && c <= 0x218F { 0x1000000000u128 } else { 0u128 })
            | (if 0x2190 <= c && c <= 0x21FF { 0x2000000000u128 } else { 0u128 })
            | (if 0x27F0 <= c && c <= 0x27FF { 0x2000000000u128 } else { 0u128 })
            | (if 0x2900 <= c && c <= 0x297F { 0x2000000000u128 } else { 0u128 })
            | (if 0x2B00 <= c && c <= 0x2BFF { 0x2000000000u128 } else { 0u128 })
            | (if 0x2200 <= c && c <= 0x22FF { 0x4000000000u128 } else { 0u128 })
            | (if 0x2A00 <= c && c <= 0x2AFF { 0x4000000000u128 } else { 0u128 })
            | (if 0x27C0 <= c && c <= 0x27EF { 0x4000000000u128 } else { 0u128 })
            | (if 0x2980 <= c && c <= 0x29FF { 0x4000000000u128 } else { 0u128 })
            | (if 0x2300 <= c && c <= 0x23FF { 0x8000000000u128 } else { 0u128 })
            | (if 0x2400 <= c && c <= 0x243F { 0x10000000000u128 } else { 0u128 })
            | (if 0x2440 <= c && c <= 0x245F { 0x20000000000u128 } else { 0u128 })
            | (if 0x2460 <= c && c <= 0x24FF { 0x40000000000u128 } else { 0u128 })
            | (if 0x2500 <= c && c <= 0x257F { 0x80000000000u128 } else { 0u128 })
            | (if 0x2580 <= c && c <= 0x259F { 0x100000000000u128 } else { 0u128 })
            | (if 0x25A0 <= c && c <= 0x25FF { 0x200000000000u128 } else { 0u128 })
            | (if 0x2600 <= c && c <= 0x26FF { 0x400000000000u128 } else { 0u128 })
            | (if 0x2700 <= c && c <= 0x27BF { 0x800000000000u128 } else { 0u128 })
            | (if 0x3000 <= c && c <= 0x303F { 0x1000000000000u128 } else { 0u128 })
            | (if 0x3040 <= c && c <= 0x309F { 0x2000000000000u128 } else { 0u128 })
            | (if 0x30A0 <= c && c <= 0x30FF { 0x4000000000000u128 } else { 0u128 })
            | (if 0x31F0 <= c && c <= 0x31FF { 0x4000000000000u128 } else { 0u128 })
            | (if 0x3100 <= c && c <= 0x312F { 0x8000000000000u128 } else { 0u128 })
            | (if 0x31A0 <= c && c <= 0x31BF { 0x8000000000000u128 } else { 0u128 })
            | (if 0x3130 <= c && c <= 0x318F { 0x10000000000000u128 } else { 0u128 })
            | (if 0xA840 <= c && c <= 0xA87F { 0x20000000000000u128 } else { 0u128 })
            | (if 0x3200 <= c && c <= 0x32FF { 0x40000000000000u128 } else { 0u128 })
            | (if 0x3300 <= c && c <= 0x33FF { 0x80000000000000u128 } else { 0u128 })
            | (if 0xAC00 <= c && c <= 0xD7AF { 0x100000000000000u128 } else { 0u128 })
            | (if 0x10000 <= c && c <= 0x10FFFF { 0x200000000000000u128 } else { 0u128 })
            | (if 0x10900 <= c && c <= 0x1091F { 0x400000000000000u128 } else { 0u128 })
            | (if 0x4E00 <= c && c <= 0x9FFF { 0x800000000000000u128 } else { 0u128 })
            | (if 0x2E80 <= c && c <= 0x2EFF { 0x800000000000000u128 } else { 0u128 })
            | (if 0x2F00 <= c && c <= 0x2FDF { 0x800000000000000u128 } else { 0u128 })
            | (if 0x2FF0 <= c && c <= 0x2FFF { 0x800000000000000u128 } else { 0u128 })
            | (if 0x3400 <= c && c <= 0x4DBF { 0x800000000000000u128 } else { 0u128 })
            | (if 0x20000 <= c && c <= 0x2A6DF { 0x800000000000000u128 } else { 0u128 })
            | (if 0x3190 <= c && c <= 0x319F { 0x800000000000000u128 } else { 0u128 })
            | (if 0xE000 <= c && c <= 0xF8FF { 0x1000000000000000u128 } else { 0u128 })
            | (if 0x31C0 <= c && c <= 0x31EF { 0x2000000000000000u128 } else { 0u128 })
            | (if 0xF900 <= c && c <= 0xFAFF { 0x2000000000000000u128 } else { 0u128 })
            | (if 0x2F800 <= c && c <= 0x2FA1F { 0x2000000000000000u128 } else { 0u128 })
            | (if 0xFB00 <= c && c <= 0xFB4F { 0x4000000000000000u128 } else { 0u128 })
            | (if 0xFB50 <= c && c <= 0xFDFF { 0x8000000000000000u128 } else { 0u128 })
            | (if 0xFE20 <= c && c <= 0xFE2F { 0x10000000000000000u128 } else { 0u128 })
            | (if 0xFE10 <= c && c <= 0xFE1F { 0x20000000000000000u128 } else { 0u128 })
            | (if 0xFE30 <= c && c <= 0xFE4F { 0x20000000000000000u128 } else { 0u128 })
            | (if 0xFE50 <= c && c <= 0xFE6F { 0x40000000000000000u128 } else { 0u128 })
            | (if 0xFE70 <= c && c <= 0xFEFF { 0x80000000000000000u128 } else { 0u128 })
            | (if 0xFF00 <= c && c <= 0xFFEF { 0x100000000000000000u128 } else { 0u128 })
            | (if 0xFFF0 <= c && c <= 0xFFFF { 0x200000000000000000u128 } else { 0u128 })
            | (if 0x0F00 <= c && c <= 0x0FFF { 0x400000000000000000u128 } else { 0u128 })
            | (if 0x0700 <= c && c <= 0x074F { 0x800000000000000000u128 } else { 0u128 })
            | (if 0x0780 <= c && c <= 0x07BF { 0x1000000000000000000u128 } else { 0u128 })
            | (if 0x0D80 <= c && c <= 0x0DFF { 0x2000000000000000000u128 } else { 0u128 })
            | (if 0x1000 <= c && c <= 0x109F { 0x4000000000000000000u128 } else { 0u128 })
            | (if 0x1200 <= c && c <= 0x137F { 0x8000000000000000000u128 } else { 0u128 })
            | (if 0x1380 <= c && c <= 0x139F { 0x8000000000000000000u128 } else { 0u128 })
            | (if 0x2D80 <= c && c <= 0x2DDF { 0x8000000000000000000u128 } else { 0u128 })
            | (if 0x13A0 <= c && c <= 0x13FF { 0x10000000000000000000u128 } else { 0u128 })
            | (if 0x1400 <= c && c <= 0x167F { 0x20000000000000000000u128 } else { 0u128 })
            | (if 0x1680 <= c && c <= 0x169F { 0x40000000000000000000u128 } else { 0u128 })
            | (if 0x16A0 <= c && c <= 0x16FF { 0x80000000000000000000u128 } else { 0u128 })
            | (if 0x1780 <= c && c <= 0x17FF { 0x100000000000000000000u128 } else { 0u128 })
            | (if 0x19E0 <= c && c <= 0x19FF { 0x100000000000000000000u128 } else { 0u128 })
            | (if 0x1800 <= c && c <= 0x18AF { 0x200000000000000000000u128 } else { 0u128 })
            | (if 0x2800 <= c && c <= 0x28FF { 0x400000000000000000000u128 } else { 0u128 })
            | (if 0xA000 <= c && c <= 0xA48F { 0x800000000000000000000u128 } else { 0u128 })
            | (if 0xA490 <= c && c <= 0xA4CF { 0x800000000000000000000u128 } else { 0u128 })
            | (if 0x1700 <= c && c <= 0x171F { 0x1000000000000000000000u128 } else { 0u128 })
            | (if 0x1720 <= c && c <= 0x173F { 0x1000000000000000000000u128 } else { 0u128 })
            | (if 0x1740 <= c && c <= 0x175F { 0x1000000000000000000000u128 } else { 0u128 })
            | (if 0x1760 <= c && c <= 0x177F { 0x1000000000000000000000u128 } else { 0u128 })
            | (if 0x10300 <= c && c <= 0x1032F { 0x2000000000000000000000u128 } else { 0u128 })
            | (if 0x10330 <= c && c <= 0x1034F { 0x4000000000000000000000u128 } else { 0u128 })
            | (if 0x10400 <= c && c <= 0x1044F { 0x8000000000000000000000u128 } else { 0u128 })
            | (if 0x1D000 <= c && c <= 0x1D0FF { 0x10000000000000000000000u128 } else { 0u128 })
            | (if 0x1D100 <= c && c <= 0x1D1FF { 0x10000000000000000000000u128 } else { 0u128 })
            | (if 0x1D200 <= c && c <= 0x1D24F { 0x10000000000000000000000u128 } else { 0u128 })
            | (if 0x1D400 <= c && c <= 0x1D7FF { 0x20000000000000000000000u128 } else { 0u128 })
            | (if 0xF0000 <= c && c <= 0xFFFFD { 0x40000000000000000000000u128 } else { 0u128 })
            | (if 0x100000 <= c && c <= 0x10FFFD { 0x40000000000000000000000u128 } else { 0u128 })
            | (if 0xFE00 <= c && c <= 0xFE0F { 0x80000000000000000000000u128 } else { 0u128 })
            | (if 0xE0100 <= c && c <= 0xE01EF { 0x80000000000000000000000u128 } else { 0u128 })
            | (if 0xE0000 <= c && c <= 0xE007F { 0x100000000000000000000000u128 } else { 0u128 })
            | (if 0x1900 <= c && c <= 0x194F { 0x200000000000000000000000u128 } else { 0u128 })
            | (if 0x1950 <= c && c <= 0x197F { 0x400000000000000000000000u128 } else { 0u128 })
            | (if 0x1980 <= c && c <= 0x19DF { 0x800000000000000000000000u128 } else { 0u128 })
            | (if 0x1A00 <= c && c <= 0x1A1F { 0x1000000000000000000000000u128 } else { 0u128 })
            | (if 0x2C00 <= c && c <= 0x2C5F { 0x2000000000000000000000000u128 } else { 0u128 })
            | (if 0x2D30 <= c && c <= 0x2D7F { 0x4000000000000000000000000u128 } else { 0u128 })
            | (if 0x4DC0 <= c && c <= 0x4DFF { 0x8000000000000000000000000u128 } else { 0u128 })
            | (if 0xA800 <= c && c <= 0xA82F { 0x10000000000000000000000000u128 } else { 0u128 })
            | (if 0x10000 <= c && c <= 0x1007F { 0x20000000000000000000000000u128 } else { 0u128 })
            | (if 0x10080 <= c && c <= 0x100FF { 0x20000000000000000000000000u128 } else { 0u128 })
            | (if 0x10100 <= c && c <= 0x1013F { 0x20000000000000000000000000u128 } else { 0u128 })
            | (if 0x10140 <= c && c <= 0x1018F { 0x40000000000000000000000000u128 } else { 0u128 })
            | (if 0x10380 <= c && c <= 0x1039F { 0x80000000000000000000000000u128 } else { 0u128 })
            | (if 0x103A0 <= c && c <= 0x103DF { 0x100000000000000000000000000u128 } else { 0u128 })
            | (if 0x10450 <= c && c <= 0x1047F { 0x200000000000000000000000000u128 } else { 0u128 })
            | (if 0x10480 <= c && c <= 0x104AF { 0x400000000000000000000000000u128 } else { 0u128 })
            | (if 0x10800 <= c && c <= 0x1083F { 0x800000000000000000000000000u128 } else { 0u128 })
            | (if 0x10A00 <= c && c <= 0x10A5F { 0x1000000000000000000000000000u128 } else { 0u128 })
            | (if 0x1D300 <= c && c <= 0x1D35F { 0x2000000000000000000000000000u128 } else { 0u128 })
            | (if 0x12000 <= c && c <= 0x123FF { 0x4000000000000000000000000000u128 } else { 0u128 })
            | (if 0x12400 <= c && c <= 0x1247F { 0x4000000000000000000000000000u128 } else { 0u128 })
            | (if 0x1D360 <= c && c <= 0x1D37F { 0x8000000000000000000000000000u128 } else { 0u128 })
            | (if 0x1B80 <= c && c <= 0x1BBF { 0x10000000000000000000000000000u128 } else { 0u128 })
            | (if 0x1C00 <= c && c <= 0x1C4F { 0x20000000000000000000000000000u128 } else { 0u128 })
            | (if 0x1C50 <= c && c <= 0x1C7F { 0x40000000000000000000000000000u128 } else { 0u128 })
            | (if 0xA880 <= c && c <= 0xA8DF { 0x80000000000000000000000000000u128 } else { 0u128 })
            | (if 0xA900 <= c && c <= 0xA92F { 0x100000000000000000000000000000u128 } else { 0u128 })
            | (if 0xA930 <= c && c <= 0xA95F { 0x200000000000000000000000000000u128 } else { 0u128 })
            | (if 0xAA00 <= c && c <= 0xAA5F { 0x400000000000000000000000000000u128 } else { 0u128 })
            | (if 0x10190 <= c && c <= 0x101CF { 0x800000000000000000000000000000u128 } else { 0u128 })
            | (if 0x101D0 <= c && c <= 0x101FF { 0x1000000000000000000000000000000u128 } else { 0u128 })
            | (if 0x102A0 <= c && c <= 0x102DF { 0x2000000000000000000000000000000u128 } else { 0u128 })
            | (if 0x10280 <= c && c <= 0x1029F { 0x2000000000000000000000000000000u128 } else { 0u128 })
            | (if 0x10920 <= c && c <= 0x1093F { 0x2000000000000000000000000000000u128 } else { 0u128 })
            | (if 0x1F030 <= c && c <= 0x1F09F { 0x4000000000000000000000000000000u128 } else { 0u128 })
            | (if 0x1F000 <= c && c <= 0x1F02F { 0x4000000000000000000000000000000u128 } else { 0u128 });
        UnicodeRange(r)
    }
}

/// The code pages that the font covers.
#[derive(Debug, Clone, Copy, PartialEq, Eq, Structural)]
pub struct CodePageRange(pub u64);

#[allow(non_upper_case_globals)]
impl CodePageRange {
    pub const Latin1: u64 = 0x1u64;
    pub const Latin2: u64 = 0x2u64;
    pub const Cyrillic: u64 = 0x4u64;
    pub const Greek: u64 = 0x8u64;
    pub const Turkish: u64 = 0x10u64;
    pub const Hebrew: u64 = 0x20u64;
    pub const Arabic: u64 = 0x40u64;
    pub const WindowsBaltic: u64 = 0x80u64;
    pub const Vietnamese: u64 = 0x100u64;
    pub const Thai: u64 = 0x10000u64;
    pub const JISJapan: u64 = 0x20000u64;
    pub const ChineseSimplified: u64 = 0x40000u64;
    pub const KoreanWansung: u64 = 0x80000u64;
    pub const ChineseTraditional: u64 = 0x100000u64;
    pub const KoreanJohab: u64 = 0x200000u64;
    pub const MacintoshCharacterSet: u64 = 0x20000000u64;
    pub const OEMCharacterSet: u64 = 0x40000000u64;
    pub const SymbolCharacterSet: u64 = 0x80000000u64;
    pub const IBMGreek: u64 = 0x1000000000000u64;
    pub const MSDOSRussian: u64 = 0x2000000000000u64;
    pub const MSDOSNordic: u64 = 0x4000000000000u64;
    pub const Arabic864: u64 = 0x8000000000000u64;
    pub const MSDOSCanadianFrench: u64 = 0x10000000000000u64;
    pub const Hebrew862: u64 = 0x20000000000000u64;
    pub const MSDOSIcelandic: u64 = 0x40000000000000u64;
    pub const MSDOSPortuguese: u64 = 0x80000000000000u64;
    pub const IBMTurkish: u64 = 0x100000000000000u64;
    pub const IBMCyrillic: u64 = 0x200000000000000u64;
    pub const Latin2_852: u64 = 0x400000000000000u64;
    pub const MSDOSBaltic: u64 = 0x800000000000000u64;
    pub const GreekFormer437G: u64 = 0x1000000000000000u64;
    pub const ArabicASMO708: u64 = 0x2000000000000000u64;
    pub const WELatin1: u64 = 0x4000000000000000u64;
    pub const US: u64 = 0x8000000000000000u64;

    pub fn empty() -> (r: Self)
        ensures
            r.0 == 0,
    {
        CodePageRange(0)
    }

    pub fn bits(&self) -> (r: u64)
        ensures
            r == self.0,
    {
        self.0
    }

    pub fn from_bits_retain(bits: u64) -> (r: Self)
        ensures
            r.0 == bits,
    {
        CodePageRange(bits)
    }

    /// Whether all bits of `mask` are set.
    pub fn contains(&self, mask: u64) -> (r: bool)
        ensures
            r == (self.0 & mask == mask),
    {
        self.0 & mask == mask
    }

    pub fn union(self, mask: u64) -> (r: Self)
        ensures
            r.0 == self.0 | mask,
    {
        CodePageRange(self.0 | mask)
    }
}

/// The `OS/2` table, version 4.
#[derive(Debug, Clone, Copy, PartialEq, Eq)]
pub struct Table {
    pub x_avg_char_width: fword,
    pub us_weight_class: u16,
    pub us_width_class: u16,
    // The following two fields are bitwise ORed together forming a single
    // 16-bit value
    pub usage_permission: UsagePermissionKind,
    pub fs_type: FsTypeUpper,
    pub y_subscript_x_size: fword,
    pub y_subscript_y_size: fword,
    pub y_subscript_x_offset: fword,
    pub y_subscript_y_offset: fword,
    pub y_superscript_x_size: fword,
    pub y_superscript_y_size: fword,
    pub y_superscript_x_offset: fword,
    pub y_superscript_y_offset: fword,
    pub y_strikeout_size: fword,
    pub y_strikeout_position: fword,
    pub s_family_class: SFamilyClass,
    pub panose_classification: PanroseClassification,
    pub unicode_range: UnicodeRange,
    /// Set to 4 spaces
    pub ach_vend_id: [u8; 4],
    pub fs_selection: FsSelectionKind,
    /// Usually 0x0020
    pub first_char_index: u16,
    /// Usually 0xffff
    pub last_char_index: u16,
    pub s_typo_ascender: fword,
    pub s_typo_descender: fword,
    pub s_typo_line_gap: fword,
    pub us_win_ascent: ufword,
    pub us_win_descent: ufword,
    pub code_page_range: CodePageRange,
    pub sx_height: fword,
    pub s_cap_height: fword,
    /// Usually 0
    pub us_default_char: u16,
    /// Usually 0x0020
    pub us_break_char: u16,
    /// The longest kerning or ligature context
    pub us_max_context: u16,
}

/// `2^(32 k)` for `k` below 4.
pub open spec fn word_base(k: nat) -> int {
    if k == 0 {
        1
    } else if k == 1 {
        0x1_0000_0000
    } else if k == 2 {
        0x1_0000_0000_0000_0000
    } else {
        0x1_0000_0000_0000_0000_0000_0000
    }
}

/// The 32-bit word `k` (counted from the least significant) of a number.
pub open spec fn word32(x: int, k: nat) -> u32 {
    ((x / word_base(k)) % 0x1_0000_0000) as u32
}

pub open spec fn panose_bytes(p: PanroseClassification) -> Seq<u8> {
    seq![
        p.family_type,
        p.serif_style,
        p.weight,
        p.proportion,
        p.contrast,
        p.stroke_variation,
        p.arm_style,
        p.letterform,
        p.midline,
        p.x_height,
    ]
}

fn u128_word(x: u128, k: u32) -> (r: u32)
    requires
        k < 4,
    ensures
        r == word32(x as int, k as nat),
{
    if k == 0 {
        (x % 0x1_0000_0000) as u32
    } else if k == 1 {
        ((x / 0x1_0000_0000) % 0x1_0000_0000) as u32
    } else if k == 2 {
        ((x / 0x1_0000_0000_0000_0000) % 0x1_0000_0000) as u32
    } else {
        ((x / 0x1_0000_0000_0000_0000_0000_0000) % 0x1_0000_0000) as u32
    }
}

fn u64_word(x: u64, k: u32) -> (r: u32)
    requires
        k < 2,
    ensures
        r == word32(x as int, k as nat),
{
    if k == 0 {
        (x % 0x1_0000_0000) as u32
    } else {
        ((x / 0x1_0000_0000) % 0x1_0000_0000) as u32
    }
}

impl Table {
    /// Version, widths, weights, permissions and the sub/superscript and
    /// strikeout metrics.
    pub open spec fn metrics_part(&self) -> Seq<u8> {
        u16_bytes(4) + i16_bytes(self.x_avg_char_width) + u16_bytes(self.us_weight_class)
            + u16_bytes(self.us_width_class) + u16_bytes(
            self.usage_permission.value() | self.fs_type.0,
        ) + i16_bytes(self.y_subscript_x_size) + i16_bytes(self.y_subscript_y_size) + i16_bytes(
            self.y_subscript_x_offset,
        ) + i16_bytes(self.y_subscript_y_offset) + i16_bytes(self.y_superscript_x_size)
            + i16_bytes(self.y_superscript_y_size) + i16_bytes(self.y_superscript_x_offset)
            + i16_bytes(self.y_superscript_y_offset) + i16_bytes(self.y_strikeout_size) + i16_bytes(
            self.y_strikeout_position,
        )
    }

    /// Family class, PANOSE numbers, unicode ranges (32-bit words from the
    /// least significant) and vendor ID.
    pub open spec fn class_part(&self) -> Seq<u8> {
        u16_bytes(self.s_family_class.value()) + panose_bytes(self.panose_classification)
            + u32_bytes(word32(self.unicode_range.0 as int, 0)) + u32_bytes(
            word32(self.unicode_range.0 as int, 1),
        ) + u32_bytes(word32(self.unicode_range.0 as int, 2)) + u32_bytes(
            word32(self.unicode_range.0 as int, 3),
        ) + self.ach_vend_id@
    }

    /// Selection flags, character range, vertical metrics, code pages
    /// (32-bit words from the least significant) and the last fields.
    pub open spec fn tail_part(&self) -> Seq<u8> {
        u16_bytes(self.fs_selection.0) + u16_bytes(self.first_char_index) + u16_bytes(
            self.last_char_index,
        ) + i16_bytes(self.s_typo_ascender) + i16_bytes(self.s_typo_descender) + i16_bytes(
            self.s_typo_line_gap,
        ) + u16_bytes(self.us_win_ascent) + u16_bytes(self.us_win_descent) + u32_bytes(
            word32(self.code_page_range.0 as int, 0),
        ) + u32_bytes(word32(self.code_page_range.0 as int, 1)) + i16_bytes(self.sx_height)
            + i16_bytes(self.s_cap_height) + u16_bytes(self.us_default_char) + u16_bytes(
            self.us_break_char,
        ) + u16_bytes(self.us_max_context)
    }

    fn write_metrics<W: BufSink>(&self, writer: &mut W)
        requires
            old(writer).written().len() + 30 <= isize::MAX,
        ensures
            final(writer).written() == old(writer).written() + self.metrics_part(),
            self.metrics_part().len() == 30,
    {
        let version: u16 = 4;
        writer.put_u16(version);
        writer.put_i16(self.x_avg_char_width);
        writer.put_u16(self.us_weight_class);
        writer.put_u16(self.us_width_class);
        writer.put_u16(self.usage_permission.to_u16() | self.fs_type.bits());
        writer.put_i16(self.y_subscript_x_size);
        writer.put_i16(self.y_subscript_y_size);
        writer.put_i16(self.y_subscript_x_offset);
        writer.put_i16(self.y_subscript_y_offset);
        writer.put_i16(self.y_superscript_x_size);
        writer.put_i16(self.y_superscript_y_size);
        writer.put_i16(self.y_superscript_x_offset);
        writer.put_i16(self.y_superscript_y_offset);
        writer.put_i16(self.y_strikeout_size);
        writer.put_i16(self.y_strikeout_position);
        assert(writer.written() =~= old(writer).written() + self.metrics_part());
    }

    fn write_class<W: BufSink>(&self, writer: &mut W)
        requires
            old(writer).written().len() + 32 <= isize::MAX,
        ensures
            final(writer).written() == old(writer).written() + self.class_part(),
            self.class_part().len() == 32,
    {
        writer.put_u16(self.s_family_class.to_int());
        let p = self.panose_classification;
        writer.put_u8(p.family_type);
        writer.put_u8(p.serif_style);
        writer.put_u8(p.weight);
        writer.put_u8(p.proportion);
        writer.put_u8(p.contrast);
        writer.put_u8(p.stroke_variation);
        writer.put_u8(p.arm_style);
        writer.put_u8(p.letterform);
        writer.put_u8(p.midline);
        writer.put_u8(p.x_height);
        let ur = self.unicode_range.0;
        writer.put_u32(u128_word(ur, 0));
        writer.put_u32(u128_word(ur, 1));
        writer.put_u32(u128_word(ur, 2));
        writer.put_u32(u128_word(ur, 3));
        writer.put_u8(self.ach_vend_id[0]);
        writer.put_u8(self.ach_vend_id[1]);
        writer.put_u8(self.ach_vend_id[2]);
        writer.put_u8(self.ach_vend_id[3]);
        assert(self.ach_vend_id@ =~= seq![
            self.ach_vend_id[0],
            self.ach_vend_id[1],
            self.ach_vend_id[2],
            self.ach_vend_id[3],
        ]);
        assert(writer.written() =~= old(writer).written() + self.class_part());
    }

    fn write_tail<W: BufSink>(&self, writer: &mut W)
        requires
            old(writer).written().len() + 34 <= isize::MAX,
        ensures
            final(writer).written() == old(writer).written() + self.tail_part(),
            self.tail_part().len() == 34,
    {
        writer.put_u16(self.fs_selection.bits());
        writer.put_u16(self.first_char_index);
        writer.put_u16(self.last_char_index);
        writer.put_i16(self.s_typo_ascender);
        writer.put_i16(self.s_typo_descender);
        writer.put_i16(self.s_typo_line_gap);
        writer.put_u16(self.us_win_ascent);
        writer.put_u16(self.us_win_descent);
        let cp = self.code_page_range.0;
        writer.put_u32(u64_word(cp, 0));
        writer.put_u32(u64_word(cp, 1));
        writer.put_i16(self.sx_height);
        writer.put_i16(self.s_cap_height);
        writer.put_u16(self.us_default_char);
        writer.put_u16(self.us_break_char);
        writer.put_u16(self.us_max_context);
        assert(writer.written() =~= old(writer).written() + self.tail_part());
    }
}

impl ITable for Table {
    /// Version 4 of the table.
    open spec fn encoding(&self) -> Seq<u8> {
        self.metrics_part() + self.class_part() + self.tail_part()
    }

    open spec fn tag(&self) -> Seq<u8> {
        seq![0x4fu8, 0x53u8, 0x2fu8, 0x32u8]
    }

    open spec fn writable(&self) -> bool {
        true
    }

    fn name(&self) -> (r: [u8; 4]) {
        let r = [0x4fu8, 0x53u8, 0x2fu8, 0x32u8];
        assert(r@ =~= self.tag());
        r
    }

    fn write<W: BufSink>(&self, writer: &mut W) {
        self.write_metrics(writer);
        self.write_class(writer);
        self.write_tail(writer);
        assert(writer.written() =~= old(writer).written() + self.encoding());
    }
}

/// The bytes of the table hold each field at its fixed offset, as OpenType
/// lays out `OS/2` version 4: the version at 0, the average width at 2,
/// weight and width classes at 4 and 6, the embedding permissions at 8, the
/// subscript and superscript boxes at 10 to 24, the strikeout at 26 and 28,
/// the family class at 30, the PANOSE bytes at 32 to 41, the Unicode ranges
/// at 42 to 57 (bits 0 to 31 first), the vendor ID at 58, the selection
/// flags at 62, the character range at 64 and 66, the typographic metrics
/// at 68 to 72, the Windows metrics at 74 and 76, the code pages at 78 and
/// 82 (bits 0 to 31 first), and the heights, default and break characters
/// and context length at 86 to 94.
#[verifier::spinoff_prover]
#[verifier::rlimit(100)]
pub proof fn lemma_os2_layout(t: Table)
    ensures
        t.encoding().len() == 96,
        read_u16(t.encoding(), 0) == 4,
        read_i16(t.encoding(), 2) == t.x_avg_char_width,
        read_u16(t.encoding(), 4) == t.us_weight_class,
        read_u16(t.encoding(), 6) == t.us_width_class,
        read_u16(t.encoding(), 8) == (t.usage_permission.value() | t.fs_type.0),
        read_i16(t.encoding(), 10) == t.y_subscript_x_size,
        read_i16(t.encoding(), 12) == t.y_subscript_y_size,
        read_i16(t.encoding(), 14) == t.y_subscript_x_offset,
        read_i16(t.encoding(), 16) == t.y_subscript_y_offset,
        read_i16(t.encoding(), 18) == t.y_superscript_x_size,
        read_i16(t.encoding(), 20) == t.y_superscript_y_size,
        read_i16(t.encoding(), 22) == t.y_superscript_x_offset,
        read_i16(t.encoding(), 24) == t.y_superscript_y_offset,
        read_i16(t.encoding(), 26) == t.y_strikeout_size,
        read_i16(t.encoding(), 28) == t.y_strikeout_position,
        read_u16(t.encoding(), 30) == t.s_family_class.value(),
        t.encoding()[32] == t.panose_classification.family_type,
        t.encoding()[33] == t.panose_classification.serif_style,
        t.encoding()[34] == t.panose_classification.weight,
        t.encoding()[35] == t.panose_classification.proportion,
        t.encoding()[36] == t.panose_classification.contrast,
        t.encoding()[37] == t.panose_classification.stroke_variation,
        t.encoding()[38] == t.panose_classification.arm_style,
        t.encoding()[39] == t.panose_classification.letterform,
        t.encoding()[40] == t.panose_classification.midline,
        t.encoding()[41] == t.panose_classification.x_height,
        read_u32(t.encoding(), 42) == (t.unicode_range.0 as int) % 0x1_0000_0000,
        read_u32(t.encoding(), 46) == (t.unicode_range.0 as int) / 0x1_0000_0000 % 0x1_0000_0000,
        read_u32(t.encoding(), 50) == (t.unicode_range.0 as int) / 0x1_0000_0000_0000_0000 % 0x1_0000_0000,
        read_u32(t.encoding(), 54) == (t.unicode_range.0 as int) / 0x1_0000_0000_0000_0000_0000_0000,
        t.encoding().subrange(58, 62) == t.ach_vend_id@,
        read_u16(t.encoding(), 62) == t.fs_selection.0,
        read_u16(t.encoding(), 64) == t.first_char_index,
        read_u16(t.encoding(), 66) == t.last_char_index,
        read_i16(t.encoding(), 68) == t.s_typo_ascender,
        read_i16(t.encoding(), 70) == t.s_typo_descender,
        read_i16(t.encoding(), 72) == t.s_typo_line_gap,
        read_u16(t.encoding(), 74) == t.us_win_ascent,
        read_u16(t.encoding(), 76) == t.us_win_descent,
        read_u32(t.encoding(), 78) == (t.code_page_range.0 as int) % 0x1_0000_0000,
        read_u32(t.encoding(), 82) == (t.code_page_range.0 as int) / 0x1_0000_0000,
        read_i16(t.encoding(), 86) == t.sx_height,
        read_i16(t.encoding(), 88) == t.s_cap_height,
        read_u16(t.encoding(), 90) == t.us_default_char,
        read_u16(t.encoding(), 92) == t.us_break_char,
        read_u16(t.encoding(), 94) == t.us_max_context,
{
    let e = t.encoding();
    let x = t.unicode_range.0 as int;
    let y = t.code_page_range.0 as int;
    assert(t.metrics_part().len() == 30 && t.class_part().len() == 32 && t.tail_part().len() == 34);
    assert(word32(x, 0) == x % 0x1_0000_0000);
    assert(word32(x, 3) == x / 0x1_0000_0000_0000_0000_0000_0000) by {
        vstd::arithmetic::div_mod::lemma_small_mod(
            (x / 0x1_0000_0000_0000_0000_0000_0000) as nat,
            0x1_0000_0000,
        );
    }
    assert(word32(y, 0) == y % 0x1_0000_0000);
    assert(word32(y, 1) == y / 0x1_0000_0000) by {
        vstd::arithmetic::div_mod::lemma_small_mod((y / 0x1_0000_0000) as nat, 0x1_0000_0000);
    }
    assert(e.subrange(0, 2) =~= u16_bytes(4u16));
    lemma_read_at(e, 0, u16_bytes(4u16));
    lemma_read_u16(4u16);
    assert(e.subrange(2, 4) =~= i16_bytes(t.x_avg_char_width));
    lemma_read_at(e, 2, i16_bytes(t.x_avg_char_width));
    lemma_read_i16(t.x_avg_char_width);
    assert(e.subrange(4, 6) =~= u16_bytes(t.us_weight_class));
    lemma_read_at(e, 4, u16_bytes(t.us_weight_class));
    lemma_read_u16(t.us_weight_class);
    assert(e.subrange(6, 8) =~= u16_bytes(t.us_width_class));
    lemma_read_at(e, 6, u16_bytes(t.us_width_class));
    lemma_read_u16(t.us_width_class);
    assert(e.subrange(8, 10) =~= u16_bytes(t.usage_permission.value() | t.fs_type.0));
    lemma_read_at(e, 8, u16_bytes(t.usage_permission.value() | t.fs_type.0));
    lemma_read_u16(t.usage_permission.value() | t.fs_type.0);
    assert(e.subrange(10, 12) =~= i16_bytes(t.y_subscript_x_size));
    lemma_read_at(e, 10, i16_bytes(t.y_subscript_x_size));
    lemma_read_i16(t.y_subscript_x_size);
    assert(e.subrange(12, 14) =~= i16_bytes(t.y_subscript_y_size));
    lemma_read_at(e, 12, i16_bytes(t.y_subscript_y_size));
    lemma_read_i16(t.y_subscript_y_size);
    assert(e.subrange(14, 16) =~= i16_bytes(t.y_subscript_x_offset));
    lemma_read_at(e, 14, i16_bytes(t.y_subscript_x_offset));
    lemma_read_i16(t.y_subscript_x_offset);
    assert(e.subrange(16, 18) =~= i16_bytes(t.y_subscript_y_offset));
    lemma_read_at(e, 16, i16_bytes(t.y_subscript_y_offset));
    lemma_read_i16(t.y_subscript_y_offset);
    assert(e.subrange(18, 20) =~= i16_bytes(t.y_superscript_x_size));
    lemma_read_at(e, 18, i16_bytes(t.y_superscript_x_size));
    lemma_read_i16(t.y_superscript_x_size);
    assert(e.subrange(20, 22) =~= i16_bytes(t.y_superscript_y_size));
    lemma_read_at(e, 20, i16_bytes(t.y_superscript_y_size));
    lemma_read_i16(t.y_superscript_y_size);
    assert(e.subrange(22, 24) =~= i16_bytes(t.y_superscript_x_offset));
    lemma_read_at(e, 22, i16_bytes(t.y_superscript_x_offset));
    lemma_read_i16(t.y_superscript_x_offset);
    assert(e.subrange(24, 26) =~= i16_bytes(t.y_superscript_y_offset));
    lemma_read_at(e, 24, i16_bytes(t.y_superscript_y_offset));
    lemma_read_i16(t.y_superscript_y_offset);
    assert(e.subrange(26, 28) =~= i16_bytes(t.y_strikeout_size));
    lemma_read_at(e, 26, i16_bytes(t.y_strikeout_size));
    lemma_read_i16(t.y_strikeout_size);
    assert(e.subrange(28, 30) =~= i16_bytes(t.y_strikeout_position));
    lemma_read_at(e, 28, i16_bytes(t.y_strikeout_position));
    lemma_read_i16(t.y_strikeout_position);
    assert(e.subrange(30, 32) =~= u16_bytes(t.s_family_class.value()));
    lemma_read_at(e, 30, u16_bytes(t.s_family_class.value()));
    lemma_read_u16(t.s_family_class.value());
    assert(e[32] == t.panose_classification.family_type);
    assert(e[33] == t.panose_classification.serif_style);
    assert(e[34] == t.panose_classification.weight);
    assert(e[35] == t.panose_classification.proportion);
    assert(e[36] == t.panose_classification.contrast);
    assert(e[37] == t.panose_classification.stroke_variation);
    assert(e[38] == t.panose_classification.arm_style);
    assert(e[39] == t.panose_classification.letterform);
    assert(e[40] == t.panose_classification.midline);
    assert(e[41] == t.panose_classification.x_height);
    assert(e.subrange(42, 46) =~= u32_bytes(word32(t.unicode_range.0 as int, 0)));
    lemma_read_at(e, 42, u32_bytes(word32(t.unicode_range.0 as int, 0)));
    lemma_read_u32(word32(t.unicode_range.0 as int, 0));
    assert(e.subrange(46, 50) =~= u32_bytes(word32(t.unicode_range.0 as int, 1)));
    lemma_read_at(e, 46, u32_bytes(word32(t.unicode_range.0 as int, 1)));
    lemma_read_u32(word32(t.unicode_range.0 as int, 1));
    assert(e.subrange(50, 54) =~= u32_bytes(word32(t.unicode_range.0 as int, 2)));
    lemma_read_at(e, 50, u32_bytes(word32(t.unicode_range.0 as int, 2)));
    lemma_read_u32(word32(t.unicode_range.0 as int, 2));
    assert(e.subrange(54, 58) =~= u32_bytes(word32(t.unicode_range.0 as int, 3)));
    lemma_read_at(e, 54, u32_bytes(word32(t.unicode_range.0 as int, 3)));
    lemma_read_u32(word32(t.unicode_range.0 as int, 3));
    assert(e.subrange(58, 62) =~= t.ach_vend_id@);
    assert(e.subrange(62, 64) =~= u16_bytes(t.fs_selection.0));
    lemma_read_at(e, 62, u16_bytes(t.fs_selection.0));
    lemma_read_u16(t.fs_selection.0);
    assert(e.subrange(64, 66) =~= u16_bytes(t.first_char_index));
    lemma_read_at(e, 64, u16_bytes(t.first_char_index));
    lemma_read_u16(t.first_char_index);
    assert(e.subrange(66, 68) =~= u16_bytes(t.last_char_index));
    lemma_read_at(e, 66, u16_bytes(t.last_char_index));
    lemma_read_u16(t.last_char_index);
    assert(e.subrange(68, 70) =~= i16_bytes(t.s_typo_ascender));
    lemma_read_at(e, 68, i16_bytes(t.s_typo_ascender));
    lemma_read_i16(t.s_typo_ascender);
    assert(e.subrange(70, 72) =~= i16_bytes(t.s_typo_descender));
    lemma_read_at(e, 70, i16_bytes(t.s_typo_descender));
    lemma_read_i16(t.s_typo_descender);
    assert(e.subrange(72, 74) =~= i16_bytes(t.s_typo_line_gap));
    lemma_read_at(e, 72, i16_bytes(t.s_typo_line_gap));
    lemma_read_i16(t.s_typo_line_gap);
    assert(e.subrange(74, 76) =~= u16_bytes(t.us_win_ascent));
    lemma_read_at(e, 74, u16_bytes(t.us_win_ascent));
    lemma_read_u16(t.us_win_ascent);
    assert(e.subrange(76, 78) =~= u16_bytes(t.us_win_descent));
    lemma_read_at(e, 76, u16_bytes(t.us_win_descent));
    lemma_read_u16(t.us_win_descent);
    assert(e.subrange(78, 82) =~= u32_bytes(word32(t.code_page_range.0 as int, 0)));
    lemma_read_at(e, 78, u32_bytes(word32(t.code_page_range.0 as int, 0)));
    lemma_read_u32(word32(t.code_page_range.0 as int, 0));
    assert(e.subrange(82, 86) =~= u32_bytes(word32(t.code_page_range.0 as int, 1)));
    lemma_read_at(e, 82, u32_bytes(word32(t.code_page_range.0 as int, 1)));
    lemma_read_u32(word32(t.code_page_range.0 as int, 1));
    assert(e.subrange(86, 88) =~= i16_bytes(t.sx_height));
    lemma_read_at(e, 86, i16_bytes(t.sx_height));
    lemma_read_i16(t.sx_height);
    assert(e.subrange(88, 90) =~= i16_bytes(t.s_cap_height));
    lemma_read_at(e, 88, i16_bytes(t.s_cap_height));
    lemma_read_i16(t.s_cap_height);
    assert(e.subrange(90, 92) =~= u16_bytes(t.us_default_char));
    lemma_read_at(e, 90, u16_bytes(t.us_default_char));
    lemma_read_u16(t.us_default_char);
    assert(e.subrange(92, 94) =~= u16_bytes(t.us_break_char));
    lemma_read_at(e, 92, u16_bytes(t.us_break_char));
    lemma_read_u16(t.us_break_char);
    assert(e.subrange(94, 96) =~= u16_bytes(t.us_max_context));
    lemma_read_at(e, 94, u16_bytes(t.us_max_context));
    lemma_read_u16(t.us_max_context);
}

} // verus!
