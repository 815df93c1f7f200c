//! CFF2 instructions: DICT operators and CharString operators.
use vstd::prelude::*;

verus! {

#[derive(Debug, Clone, Copy, PartialEq, Eq, Structural)]
pub enum TopDictInst {
    /// Specifies the offset to the CharStringINDEX subtable, from the start of the CFF2 table.
    CharStringIndexOffset,
    /// Specifies the offset to the VariationStore subtable, from the start of the CFF2 table.
    VariationStoreOffset,
    /// Specifies the offset to the FontDICTINDEX subtable, from the start of the CFF2 table.
    FontDictIndexOffset,
    /// Specifies the offset to the FontDICTSelect subtable, from the start of the CFF2 table.
    FontDictSelectOffset,
    /// Specifies the scale factor for glyph coordinates within the em square, similar to the unitsPerEm field in the 'head' table.
    FontMatrix,
}

impl TopDictInst {
    /// The bytes of the operator.
    pub open spec fn spec_encoding(self) -> Seq<u8> {
        match self {
            TopDictInst::CharStringIndexOffset => seq![0x11u8],
            TopDictInst::VariationStoreOffset => seq![0x18u8],
            TopDictInst::FontDictIndexOffset => seq![0x0cu8, 0x24u8],
            TopDictInst::FontDictSelectOffset => seq![0x0cu8, 0x25u8],
            TopDictInst::FontMatrix => seq![0x0cu8, 0x07u8],
        }
    }

    /// Returns the encoded bytes for the instruction.
    pub fn encoding(&self) -> (r: Vec<u8>)
        ensures
            r@ == self.spec_encoding(),
    {
        let r = match self {
            TopDictInst::CharStringIndexOffset => vec![0x11u8],
            TopDictInst::VariationStoreOffset => vec![0x18u8],
            TopDictInst::FontDictIndexOffset => vec![0x0cu8, 0x24u8],
            TopDictInst::FontDictSelectOffset => vec![0x0cu8, 0x25u8],
            TopDictInst::FontMatrix => vec![0x0cu8, 0x07u8],
        };
        assert(r@ =~= self.spec_encoding());
        r
    }
}

#[derive(Debug, Clone, Copy, PartialEq, Eq, Structural)]
pub enum CharStringOps {
    /// Moves the current point to a position at the relative coordinates (dx1, dy1) and starts a new contour.
    RMoveTo,
    /// Moves the current point dx units in the horizontal direction and starts a new contour.
    HMoveTo,
    /// Moves the current point dy units in the vertical direction and starts a new contour.
    VMoveTo,
    /// Appends a line segment from the current point to a position at the relative coordinates (dx, dy).
    RLineTo,
    /// Appends a horizontal line segment from the current point to a position at the relative coordinates (d, 0).
    HLineTo,
    /// Appends a vertical line segment from the current point to a position at the relative coordinates (0, d).
    VLineTo,
    /// Appends a cubic Bézier curve, defined by the points p0, p1, p2, p3 where p0 is located at the current point, p1 is the first off-curve point given by the relative coordinates (dxa, dya), p2 is the second off-curve point given by the relative coordinates (dxb, dyb) and p3 is the end point given by the relative coordinates (dxc, dyc).
    RRCurveTo,
    /// Appends one or more Bézier curves starting from the current point, as described by the dxa…dxc set(s) of arguments.
    HHCurveTo,
    /// Appends one or more Bézier curves starting from the current point with start/end tangents that alternate between horizontal and vertical.
    HVCurveTo,
    /// Appends one or more Bézier curves starting from the current point with start/end tangents that alternate between vertical and horizontal.
    VHCurveTo,
    /// Appends a sequence of Bézier curves followed by a line.
    RCurveLine,
    /// Appends a sequence of lines followed by a Bézier curve.
    RLineCurve,
    /// Appends two Bézier curves described by dx1…dy6.
    Flex,
    /// Appends two Bézier curves described by dx1…dx6.
    HFlex,
    /// Appends two Bézier curves described by dx1…dx6.
    HFlex1,
    /// Appends two Bézier curves described by dx1…d6.
    Flex1,
    /// Calls the subroutine in LocalSubrINDEX with the index determined by subr#.
    CallSubr,
    /// Calls the subroutine in GlobalSubrINDEX with the index determined by subr#.
    CallGSubr,
    /// Activates a particular list of variation regions from a VariationStore subtable.
    VSIndex,
    /// Pops n + n * k + 1 operands from the stack, processes them according to the OpenType variations interpolation algorithm, then pushes n result numbers back onto the stack.
    Blend,
}

impl CharStringOps {
    /// The bytes of the operator.
    pub open spec fn spec_encoding(self) -> Seq<u8> {
        match self {
            CharStringOps::RMoveTo => seq![0x15u8],
            CharStringOps::HMoveTo => seq![0x16u8],
            CharStringOps::VMoveTo => seq![0x04u8],
            CharStringOps::RLineTo => seq![0x05u8],
            CharStringOps::HLineTo => seq![0x06u8],
            CharStringOps::VLineTo => seq![0x07u8],
            CharStringOps::RRCurveTo => seq![0x08u8],
            CharStringOps::HHCurveTo => seq![0x1bu8],
            CharStringOps::HVCurveTo => seq![0x1fu8],
            CharStringOps::VHCurveTo => seq![0x1eu8],
            CharStringOps::RCurveLine => seq![0x18u8],
            CharStringOps::RLineCurve => seq![0x19u8],
            CharStringOps::Flex => seq![0x0cu8, 0x23u8],
            CharStringOps::HFlex => seq![0x0cu8, 0x22u8],
            CharStringOps::HFlex1 => seq![0x0cu8, 0x24u8],
            CharStringOps::Flex1 => seq![0x0cu8, 0x25u8],
            CharStringOps::CallSubr => seq![0x0au8],
            CharStringOps::CallGSubr => seq![0x1du8],
            CharStringOps::VSIndex => seq![0x0fu8],
            CharStringOps::Blend => seq![0x10u8],
        }
    }

    /// Returns the encoded bytes for the instruction.
    pub fn encoding(&self) -> (r: Vec<u8>)
        ensures
            r@ == self.spec_encoding(),
    {
        let r = match self {
            CharStringOps::RMoveTo => vec![0x15u8],
            CharStringOps::HMoveTo => vec![0x16u8],
            CharStringOps::VMoveTo => vec![0x04u8],
            CharStringOps::RLineTo => vec![0x05u8],
            CharStringOps::HLineTo => vec![0x06u8],
            CharStringOps::VLineTo => vec![0x07u8],
            CharStringOps::RRCurveTo => vec![0x08u8],
            CharStringOps::HHCurveTo => vec![0x1bu8],
            CharStringOps::HVCurveTo => vec![0x1fu8],
            CharStringOps::VHCurveTo => vec![0x1eu8],
            CharStringOps::RCurveLine => vec![0x18u8],
            CharStringOps::RLineCurve => vec![0x19u8],
            CharStringOps::Flex => vec![0x0cu8, 0x23u8],
            CharStringOps::HFlex => vec![0x0cu8, 0x22u8],
            CharStringOps::HFlex1 => vec![0x0cu8, 0x24u8],
            CharStringOps::Flex1 => vec![0x0cu8, 0x25u8],
            CharStringOps::CallSubr => vec![0x0au8],
            CharStringOps::CallGSubr => vec![0x1du8],
            CharStringOps::VSIndex => vec![0x0fu8],
            CharStringOps::Blend => vec![0x10u8],
        };
        assert(r@ =~= self.spec_encoding());
        r
    }
}

} // verus!
