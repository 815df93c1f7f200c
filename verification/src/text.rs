//! UTF-16, as the `name` table stores its strings.
use vstd::prelude::*;
use widestring::U16String;

verus! {

/// The UTF-16 code units of one character: itself below 0x10000, else a
/// surrogate pair.
pub open spec fn utf16_char(c: char) -> Seq<u16> {
    let v = c as int;
    if v < 0x1_0000 {
        seq![v as u16]
    } else {
        let w = v - 0x1_0000;
        seq![(0xD800 + w / 0x400) as u16, (0xDC00 + w % 0x400) as u16]
    }
}

/// The UTF-16 code units of a string.
pub open spec fn utf16_of(s: Seq<char>) -> Seq<u16>
    decreases s.len(),
{
    if s.len() == 0 {
        seq![]
    } else {
        utf16_of(s.drop_last()) + utf16_char(s.last())
    }
}

/// Calls `widestring::U16String::from_str`, which collects
/// `str::encode_utf16`, and takes its vector: the UTF-16 code units of the
/// string, in order.
#[verifier::external_body]
pub(crate) fn utf16_units(s: &str) -> (r: Vec<u16>)
    ensures
        r@ == utf16_of(s@),
{
    U16String::from_str(s).into_vec()
}

} // verus!
