//! The `name` table.
use crate::buf::{bytes_mut_contents, bytes_mut_len, bytes_mut_new, bytes_mut_to_vec, BufSink};
use crate::bytes_spec::{lemma_read_at, lemma_read_u16, read_u16, u16_bytes};
use crate::model::glyf::simple::u16_enc;
use crate::model::encoding::{PlatformId, UnicodePlatformEncoding};
use crate::model::ITable;
use crate::seq_util::{
    concat_map, lemma_concat_map_append, lemma_concat_map_fixed_at, lemma_concat_map_len,
    lemma_concat_map_take_len, lemma_concat_map_take_step,
};
use crate::sort::{lemma_insert_by_key, sorted_by_key, stable_sort_by_key, lemma_stable_sort};
use crate::text::{utf16_of, utf16_units};
use bytes::BytesMut;
use vstd::prelude::*;

verus! {

/// The version of the name table. Only version 0 is written by this library.
pub const NAME_TABLE_VERSION: u16 = 0;

/// The kinds of names, in the order of their IDs.
#[derive(Debug, Clone, Copy, PartialEq, Eq, Structural)]
pub enum NameId {
    Copyright,
    FontFamilyName,
    FontSubfamilyName,
    UniqueFontIdentifier,
    FullFontName,
    Version,
    PostscriptName,
    Trademark,
    Manufacturer,
    Designer,
    Description,
    VendorURL,
    DesignerURL,
    LicenseDescription,
    LicenseInfoURL,
    Reserved,
    PreferredFamily,
    PreferredSubfamily,
    CompatibleFull,
    SampleText,
    PostscriptCIDFindfontName,
    WWSFamilyName,
    WWSSubfamilyName,
    LightBackgroundPalette,
    DarkBackgroundPalette,
    VariationsPostscriptNamePrefix,
}

/// The number of name IDs.
pub const NAME_ID_COUNT: usize = 26;

impl NameId {
    /// The name ID stored in the table.
    pub open spec fn value(self) -> u16 {
        match self {
            NameId::Copyright => 0,
            NameId::FontFamilyName => 1,
            NameId::FontSubfamilyName => 2,
            NameId::UniqueFontIdentifier => 3,
            NameId::FullFontName => 4,
            NameId::Version => 5,
            NameId::PostscriptName => 6,
            NameId::Trademark => 7,
            NameId::Manufacturer => 8,
            NameId::Designer => 9,
            NameId::Description => 10,
            NameId::VendorURL => 11,
            NameId::DesignerURL => 12,
            NameId::LicenseDescription => 13,
            NameId::LicenseInfoURL => 14,
            NameId::Reserved => 15,
            NameId::PreferredFamily => 16,
            NameId::PreferredSubfamily => 17,
            NameId::CompatibleFull => 18,
            NameId::SampleText => 19,
            NameId::PostscriptCIDFindfontName => 20,
            NameId::WWSFamilyName => 21,
            NameId::WWSSubfamilyName => 22,
            NameId::LightBackgroundPalette => 23,
            NameId::DarkBackgroundPalette => 24,
            NameId::VariationsPostscriptNamePrefix => 25,
        }
    }

    pub fn to_u16(self) -> (r: u16)
        ensures
            r == self.value(),
    {
        match self {
            NameId::Copyright => 0,
            NameId::FontFamilyName => 1,
            NameId::FontSubfamilyName => 2,
            NameId::UniqueFontIdentifier => 3,
            NameId::FullFontName => 4,
            NameId::Version => 5,
            NameId::PostscriptName => 6,
            NameId::Trademark => 7,
            NameId::Manufacturer => 8,
            NameId::Designer => 9,
            NameId::Description => 10,
            NameId::VendorURL => 11,
            NameId::DesignerURL => 12,
            NameId::LicenseDescription => 13,
            NameId::LicenseInfoURL => 14,
            NameId::Reserved => 15,
            NameId::PreferredFamily => 16,
            NameId::PreferredSubfamily => 17,
            NameId::CompatibleFull => 18,
            NameId::SampleText => 19,
            NameId::PostscriptCIDFindfontName => 20,
            NameId::WWSFamilyName => 21,
            NameId::WWSSubfamilyName => 22,
            NameId::LightBackgroundPalette => 23,
            NameId::DarkBackgroundPalette => 24,
            NameId::VariationsPostscriptNamePrefix => 25,
        }
    }
}

/// The name ID with the number `k`, for `k` below 26.
pub open spec fn name_id_at(k: int) -> NameId {
    if k == 0 {
        NameId::Copyright
    } else if k == 1 {
        NameId::FontFamilyName
    } else if k == 2 {
        NameId::FontSubfamilyName
    } else if k == 3 {
        NameId::UniqueFontIdentifier
    } else if k == 4 {
        NameId::FullFontName
    } else if k == 5 {
        NameId::Version
    } else if k == 6 {
        NameId::PostscriptName
    } else if k == 7 {
        NameId::Trademark
    } else if k == 8 {
        NameId::Manufacturer
    } else if k == 9 {
        NameId::Designer
    } else if k == 10 {
        NameId::Description
    } else if k == 11 {
        NameId::VendorURL
    } else if k == 12 {
        NameId::DesignerURL
    } else if k == 13 {
        NameId::LicenseDescription
    } else if k == 14 {
        NameId::LicenseInfoURL
    } else if k == 15 {
        NameId::Reserved
    } else if k == 16 {
        NameId::PreferredFamily
    } else if k == 17 {
        NameId::PreferredSubfamily
    } else if k == 18 {
        NameId::CompatibleFull
    } else if k == 19 {
        NameId::SampleText
    } else if k == 20 {
        NameId::PostscriptCIDFindfontName
    } else if k == 21 {
        NameId::WWSFamilyName
    } else if k == 22 {
        NameId::WWSSubfamilyName
    } else if k == 23 {
        NameId::LightBackgroundPalette
    } else if k == 24 {
        NameId::DarkBackgroundPalette
    } else {
        NameId::VariationsPostscriptNamePrefix
    }
}

/// The ID at position `k` of the order of the name IDs has the value `k`.
proof fn lemma_name_id_at_value(k: int)
    requires
        0 <= k < 26,
    ensures
        name_id_at(k).value() == k,
{
}

/// Every name ID stands at the position of its value.
proof fn lemma_value_name_id_at(id: NameId)
    ensures
        id.value() < 26,
        name_id_at(id.value() as int) == id,
{
}

fn name_id_at_exec(k: usize) -> (r: NameId)
    requires
        k < NAME_ID_COUNT,
    ensures
        r == name_id_at(k as int),
{
    if k == 0 {
        NameId::Copyright
    } else if k == 1 {
        NameId::FontFamilyName
    } else if k == 2 {
        NameId::FontSubfamilyName
    } else if k == 3 {
        NameId::UniqueFontIdentifier
    } else if k == 4 {
        NameId::FullFontName
    } else if k == 5 {
        NameId::Version
    } else if k == 6 {
        NameId::PostscriptName
    } else if k == 7 {
        NameId::Trademark
    } else if k == 8 {
        NameId::Manufacturer
    } else if k == 9 {
        NameId::Designer
    } else if k == 10 {
        NameId::Description
    } else if k == 11 {
        NameId::VendorURL
    } else if k == 12 {
        NameId::DesignerURL
    } else if k == 13 {
        NameId::LicenseDescription
    } else if k == 14 {
        NameId::LicenseInfoURL
    } else if k == 15 {
        NameId::Reserved
    } else if k == 16 {
        NameId::PreferredFamily
    } else if k == 17 {
        NameId::PreferredSubfamily
    } else if k == 18 {
        NameId::CompatibleFull
    } else if k == 19 {
        NameId::SampleText
    } else if k == 20 {
        NameId::PostscriptCIDFindfontName
    } else if k == 21 {
        NameId::WWSFamilyName
    } else if k == 22 {
        NameId::WWSSubfamilyName
    } else if k == 23 {
        NameId::LightBackgroundPalette
    } else if k == 24 {
        NameId::DarkBackgroundPalette
    } else {
        NameId::VariationsPostscriptNamePrefix
    }
}

/// The names of a font in one language, one optional string per name ID.
#[derive(Debug, Clone, PartialEq, Eq)]
pub struct NameRecords {
    pub copyright: Option<String>,
    pub font_family_name: Option<String>,
    pub font_subfamily_name: Option<String>,
    pub unique_font_identifier: Option<String>,
    pub full_font_name: Option<String>,
    pub version: Option<String>,
    pub postscript_name: Option<String>,
    pub trademark: Option<String>,
    pub manufacturer: Option<String>,
    pub designer: Option<String>,
    pub description: Option<String>,
    pub vendor_url: Option<String>,
    pub designer_url: Option<String>,
    pub license_description: Option<String>,
    pub license_info_url: Option<String>,
    pub reserved: Option<String>,
    pub preferred_family: Option<String>,
    pub preferred_subfamily: Option<String>,
    pub compatible_full: Option<String>,
    pub sample_text: Option<String>,
    pub postscript_cid_findfont_name: Option<String>,
    pub wws_family_name: Option<String>,
    pub wws_subfamily_name: Option<String>,
    pub light_background_palette: Option<String>,
    pub dark_background_palette: Option<String>,
    pub variations_postscript_name_prefix: Option<String>,
}

impl Default for NameRecords {
    fn default() -> (r: Self)
        ensures
            forall|k: int| 0 <= k < 26 ==> r.field(name_id_at(k)) is None,
    {
        NameRecords {
            copyright: None,
            font_family_name: None,
            font_subfamily_name: None,
            unique_font_identifier: None,
            full_font_name: None,
            version: None,
            postscript_name: None,
            trademark: None,
            manufacturer: None,
            designer: None,
            description: None,
            vendor_url: None,
            designer_url: None,
            license_description: None,
            license_info_url: None,
            reserved: None,
            preferred_family: None,
            preferred_subfamily: None,
            compatible_full: None,
            sample_text: None,
            postscript_cid_findfont_name: None,
            wws_family_name: None,
            wws_subfamily_name: None,
            light_background_palette: None,
            dark_background_palette: None,
            variations_postscript_name_prefix: None,
        }
    }
}

impl NameRecords {
    /// The string of the given name ID, if any.
    pub open spec fn field(&self, id: NameId) -> Option<String> {
        match id {
            NameId::Copyright => self.copyright,
            NameId::FontFamilyName => self.font_family_name,
            NameId::FontSubfamilyName => self.font_subfamily_name,
            NameId::UniqueFontIdentifier => self.unique_font_identifier,
            NameId::FullFontName => self.full_font_name,
            NameId::Version => self.version,
            NameId::PostscriptName => self.postscript_name,
            NameId::Trademark => self.trademark,
            NameId::Manufacturer => self.manufacturer,
            NameId::Designer => self.designer,
            NameId::Description => self.description,
            NameId::VendorURL => self.vendor_url,
            NameId::DesignerURL => self.designer_url,
            NameId::LicenseDescription => self.license_description,
            NameId::LicenseInfoURL => self.license_info_url,
            NameId::Reserved => self.reserved,
            NameId::PreferredFamily => self.preferred_family,
            NameId::PreferredSubfamily => self.preferred_subfamily,
            NameId::CompatibleFull => self.compatible_full,
            NameId::SampleText => self.sample_text,
            NameId::PostscriptCIDFindfontName => self.postscript_cid_findfont_name,
            NameId::WWSFamilyName => self.wws_family_name,
            NameId::WWSSubfamilyName => self.wws_subfamily_name,
            NameId::LightBackgroundPalette => self.light_background_palette,
            NameId::DarkBackgroundPalette => self.dark_background_palette,
            NameId::VariationsPostscriptNamePrefix => self.variations_postscript_name_prefix,
        }
    }

    fn get(&self, id: NameId) -> (r: &Option<String>)
        ensures
            *r == self.field(id),
    {
        match id {
            NameId::Copyright => &self.copyright,
            NameId::FontFamilyName => &self.font_family_name,
            NameId::FontSubfamilyName => &self.font_subfamily_name,
            NameId::UniqueFontIdentifier => &self.unique_font_identifier,
            NameId::FullFontName => &self.full_font_name,
            NameId::Version => &self.version,
            NameId::PostscriptName => &self.postscript_name,
            NameId::Trademark => &self.trademark,
            NameId::Manufacturer => &self.manufacturer,
            NameId::Designer => &self.designer,
            NameId::Description => &self.description,
            NameId::VendorURL => &self.vendor_url,
            NameId::DesignerURL => &self.designer_url,
            NameId::LicenseDescription => &self.license_description,
            NameId::LicenseInfoURL => &self.license_info_url,
            NameId::Reserved => &self.reserved,
            NameId::PreferredFamily => &self.preferred_family,
            NameId::PreferredSubfamily => &self.preferred_subfamily,
            NameId::CompatibleFull => &self.compatible_full,
            NameId::SampleText => &self.sample_text,
            NameId::PostscriptCIDFindfontName => &self.postscript_cid_findfont_name,
            NameId::WWSFamilyName => &self.wws_family_name,
            NameId::WWSSubfamilyName => &self.wws_subfamily_name,
            NameId::LightBackgroundPalette => &self.light_background_palette,
            NameId::DarkBackgroundPalette => &self.dark_background_palette,
            NameId::VariationsPostscriptNamePrefix => &self.variations_postscript_name_prefix,
        }
    }

    /// Each name ID stands for the field of the same name: the record for
    /// the manufacturer carries `manufacturer`, the one for the designer
    /// carries `designer`, and so on.
    pub proof fn lemma_field_is_named_field(&self)
        ensures
        self.field(NameId::Copyright) == self.copyright,
        self.field(NameId::FontFamilyName) == self.font_family_name,
        self.field(NameId::FontSubfamilyName) == self.font_subfamily_name,
        self.field(NameId::UniqueFontIdentifier) == self.unique_font_identifier,
        self.field(NameId::FullFontName) == self.full_font_name,
        self.field(NameId::Version) == self.version,
        self.field(NameId::PostscriptName) == self.postscript_name,
        self.field(NameId::Trademark) == self.trademark,
        self.field(NameId::Manufacturer) == self.manufacturer,
        self.field(NameId::Designer) == self.designer,
        self.field(NameId::Description) == self.description,
        self.field(NameId::VendorURL) == self.vendor_url,
        self.field(NameId::DesignerURL) == self.designer_url,
        self.field(NameId::LicenseDescription) == self.license_description,
        self.field(NameId::LicenseInfoURL) == self.license_info_url,
        self.field(NameId::Reserved) == self.reserved,
        self.field(NameId::PreferredFamily) == self.preferred_family,
        self.field(NameId::PreferredSubfamily) == self.preferred_subfamily,
        self.field(NameId::CompatibleFull) == self.compatible_full,
        self.field(NameId::SampleText) == self.sample_text,
        self.field(NameId::PostscriptCIDFindfontName) == self.postscript_cid_findfont_name,
        self.field(NameId::WWSFamilyName) == self.wws_family_name,
        self.field(NameId::WWSSubfamilyName) == self.wws_subfamily_name,
        self.field(NameId::LightBackgroundPalette) == self.light_background_palette,
        self.field(NameId::DarkBackgroundPalette) == self.dark_background_palette,
        self.field(NameId::VariationsPostscriptNamePrefix) == self.variations_postscript_name_prefix,
    {
    }

    /// The records that `to_records` gives are the names that are present,
    /// each with its own field's string, in increasing order of their IDs,
    /// one for each: every record carries the string of the field its ID
    /// names, and every field that is present has its record.
    pub proof fn lemma_present_names(&self)
        ensures
            forall|i: int|
                0 <= i < self.present().len() ==> self.field(#[trigger] self.present()[i].0) is Some
                    && self.field(self.present()[i].0)->0@ == self.present()[i].1,
            forall|i: int, j: int|
                0 <= i < j < self.present().len() ==> (#[trigger] self.present()[i]).0.value()
                    < (#[trigger] self.present()[j]).0.value(),
            forall|id: NameId|
                #[trigger] self.field(id) is Some ==> exists|i: int|
                    0 <= i < self.present().len() && #[trigger] self.present()[i] == (
                        id,
                        self.field(id)->0@,
                    ),
    {
        self.lemma_present_upto(26);
        assert forall|id: NameId| #[trigger] self.field(id) is Some implies exists|i: int|
            0 <= i < self.present().len() && #[trigger] self.present()[i] == (id, self.field(id)->0@) by {
            lemma_value_name_id_at(id);
        }
    }

    proof fn lemma_present_upto(&self, k: nat)
        requires
            k <= 26,
        ensures
            ({
                let p = self.present_upto(k);
                &&& forall|i: int|
                    0 <= i < p.len() ==> (#[trigger] p[i]).0.value() < k && self.field(p[i].0) is Some
                        && self.field(p[i].0)->0@ == p[i].1
                &&& forall|i: int, j: int|
                    0 <= i < j < p.len() ==> (#[trigger] p[i]).0.value() < (#[trigger] p[j]).0.value()
                &&& forall|id: NameId|
                    id.value() < k && #[trigger] self.field(id) is Some ==> exists|i: int|
                        0 <= i < p.len() && #[trigger] p[i] == (id, self.field(id)->0@)
            }),
        decreases k,
    {
        if k > 0 {
            self.lemma_present_upto((k - 1) as nat);
            let id = name_id_at(k - 1);
            lemma_name_id_at_value(k - 1);
            let rest = self.present_upto((k - 1) as nat);
            let p = self.present_upto(k);
            assert forall|x: NameId| x.value() < k && #[trigger] self.field(x) is Some implies exists|i: int|
                0 <= i < p.len() && #[trigger] p[i] == (x, self.field(x)->0@) by {
                lemma_value_name_id_at(x);
                if x.value() == k - 1 {
                    assert(x == id);
                    assert(p[p.len() - 1] == (x, self.field(x)->0@));
                } else {
                    let i = choose|i: int| 0 <= i < rest.len() && #[trigger] rest[i] == (x, self.field(x)->0@);
                    assert(p[i] == rest[i]);
                }
            }
        }
    }

    /// The names that are present among the first `k` name IDs, with their
    /// IDs, in the order of the IDs.
    pub open spec fn present_upto(&self, k: nat) -> Seq<(NameId, Seq<char>)>
        decreases k,
    {
        if k == 0 {
            seq![]
        } else {
            let id = name_id_at(k - 1);
            let rest = self.present_upto((k - 1) as nat);
            match self.field(id) {
                Some(v) => rest.push((id, v@)),
                None => rest,
            }
        }
    }

    /// The names that are present, with their IDs, in the order of the IDs.
    pub open spec fn present(&self) -> Seq<(NameId, Seq<char>)> {
        self.present_upto(26)
    }

    /// One record for each name that is present, in the order of the name
    /// IDs.
    pub fn to_records(&self) -> (r: Vec<NameRecord>)
        ensures
            r@.map_values(|x: NameRecord| (x.name_id, x.value@)) == self.present(),
    {
        let mut records: Vec<NameRecord> = Vec::new();
        let mut k: usize = 0;
        while k < NAME_ID_COUNT
            invariant
                k <= 26,
                records@.map_values(|x: NameRecord| (x.name_id, x.value@)) == self.present_upto(
                    k as nat,
                ),
            decreases 26 - k,
        {
            let id = name_id_at_exec(k);
            match self.get(id) {
                Some(value) => {
                    records.push(NameRecord { name_id: id, value: value.clone() });
                },
                None => {},
            }
            assert(records@.map_values(|x: NameRecord| (x.name_id, x.value@)) =~= self.present_upto(
                (k + 1) as nat,
            ));
            k = k + 1;
        }
        records
    }
}

/// One name of a font.
#[derive(Debug, Clone)]
pub struct NameRecord {
    pub name_id: NameId,
    /// Written as UTF-16, located by its length and offset in bytes.
    pub value: String,
}

/// The language of a set of names.
#[derive(Debug, Clone, Copy, PartialEq, Eq, Hash, Structural)]
pub enum Lang {
    /// Used by Unicode platform.
    ///
    /// There is no platform-specific encoding for the Unicode platform.
    /// As version-1 of the name table is not widely supported, the alternative
    /// format of using BCP-47 language tags with Unicode platform is not
    /// implemented in this library.
    Unicode,
    /// Used by Microsoft platform, with a Windows language ID (such as
    /// 0x0409 for English, United States).
    Microsoft(u16),
}

/// The platform ID, encoding ID and language ID that a language is written
/// with.
pub open spec fn lang_ids(lang: Lang) -> (u16, u16, u16) {
    match lang {
        Lang::Unicode => (0, 4, 0),
        Lang::Microsoft(id) => (3, 1, id),
    }
}

fn lang_ids_exec(lang: &Lang) -> (r: (u16, u16, u16))
    ensures
        r == lang_ids(*lang),
{
    match lang {
        Lang::Unicode => (
            PlatformId::Unicode.to_u16(),
            UnicodePlatformEncoding::V2Full.to_u16(),
            0,
        ),
        Lang::Microsoft(mslang_id) => (PlatformId::Microsoft.to_u16(), 1, *mslang_id),
    }
}

/// The `name` table: the names of the font in each language. Each language
/// appears at most once.
pub struct Table {
    pub records: Vec<(Lang, NameRecords)>,
}

/// A name record as the table stores it.
#[derive(Debug, Clone, Copy, PartialEq, Eq, Structural)]
pub struct EncodedNameRecord {
    pub platform_id: u16,
    pub encoding_id: u16,
    pub language_id: u16,
    pub name_id: u16,
    /// The length of the string in bytes.
    pub name_length: u16,
    /// The offset of the string in the storage area.
    pub name_offset: u16,
}

/// A name to be written: platform, encoding, language, name ID and the
/// UTF-16 code units of the string.
pub type NameItem = (u16, u16, u16, u16, Seq<u16>);

/// The names of the table, language by language in the order of the table,
/// and within a language in the order of the name IDs.
pub open spec fn items_of(entries: Seq<(Lang, NameRecords)>) -> Seq<NameItem>
    decreases entries.len(),
{
    if entries.len() == 0 {
        seq![]
    } else {
        items_of(entries.drop_last()) + lang_items(entries.last())
    }
}

/// The names of one language.
pub open spec fn lang_items(entry: (Lang, NameRecords)) -> Seq<NameItem> {
    let (p, e, l) = lang_ids(entry.0);
    entry.1.present().map_values(
        |x: (NameId, Seq<char>)| (p, e, l, x.0.value(), utf16_of(x.1)),
    )
}

/// The storage area: the strings one after the other.
pub open spec fn pool_units(items: Seq<NameItem>) -> Seq<u16>
    decreases items.len(),
{
    if items.len() == 0 {
        seq![]
    } else {
        pool_units(items.drop_last()) + items.last().4
    }
}

/// The records of the names, each locating its string in the storage area.
/// Lengths and offsets are in bytes, kept in 16 bits.
pub open spec fn encoded_of(items: Seq<NameItem>) -> Seq<EncodedNameRecord>
    decreases items.len(),
{
    if items.len() == 0 {
        seq![]
    } else {
        let it = items.last();
        encoded_of(items.drop_last()).push(
            EncodedNameRecord {
                platform_id: it.0,
                encoding_id: it.1,
                language_id: it.2,
                name_id: it.3,
                name_length: ((2 * it.4.len()) % 0x1_0000) as u16,
                name_offset: ((2 * pool_units(items.drop_last()).len()) % 0x1_0000) as u16,
            },
        )
    }
}

/// Records are ordered by platform, encoding, language and name ID.
pub open spec fn name_key() -> spec_fn(EncodedNameRecord) -> int {
    |r: EncodedNameRecord|
        ((r.platform_id as int * 0x1_0000 + r.encoding_id as int) * 0x1_0000
            + r.language_id as int) * 0x1_0000 + r.name_id as int
}

pub open spec fn record_enc() -> spec_fn(EncodedNameRecord) -> Seq<u8> {
    |r: EncodedNameRecord|
        u16_bytes(r.platform_id) + u16_bytes(r.encoding_id) + u16_bytes(r.language_id) + u16_bytes(
            r.name_id,
        ) + u16_bytes(r.name_length) + u16_bytes(r.name_offset)
}

impl Table {
    pub open spec fn items(&self) -> Seq<NameItem> {
        items_of(self.records@)
    }

    /// The records as they are written, sorted.
    pub open spec fn sorted_records(&self) -> Seq<EncodedNameRecord> {
        stable_sort_by_key(encoded_of(self.items()), name_key())
    }
}

proof fn lemma_items_of_append(a: Seq<(Lang, NameRecords)>, b: Seq<(Lang, NameRecords)>)
    ensures
        items_of(a + b) == items_of(a) + items_of(b),
    decreases b.len(),
{
    if b.len() == 0 {
        assert(a + b =~= a);
    } else {
        lemma_items_of_append(a, b.drop_last());
        assert((a + b).drop_last() =~= a + b.drop_last());
    }
}

proof fn lemma_pool_units_append(x: Seq<NameItem>, y: Seq<NameItem>)
    ensures
        pool_units(x + y) == pool_units(x) + pool_units(y),
    decreases y.len(),
{
    if y.len() == 0 {
        assert(x + y =~= x);
    } else {
        lemma_pool_units_append(x, y.drop_last());
        assert((x + y).drop_last() =~= x + y.drop_last());
    }
}

proof fn lemma_encoded_len(items: Seq<NameItem>)
    ensures
        encoded_of(items).len() == items.len(),
    decreases items.len(),
{
    if items.len() > 0 {
        lemma_encoded_len(items.drop_last());
    }
}

proof fn lemma_units_bytes(u: Seq<u16>)
    ensures
        concat_map(u, u16_enc()).len() == 2 * u.len(),
{
    let f = u16_enc();
    assert forall|i: int| 0 <= i < u.len() implies (#[trigger] f(u[i])).len() == 2 by {}
    lemma_concat_map_len(u, f, 2);
}

fn name_order_key(r: &EncodedNameRecord) -> (k: u64)
    ensures
        k == name_key()(*r),
{
    ((r.platform_id as u64 * 0x1_0000 + r.encoding_id as u64) * 0x1_0000 + r.language_id as u64)
        * 0x1_0000 + r.name_id as u64
}

/// Sorts records stably by platform, encoding, language and name ID.
fn sort_name_records(v: &Vec<EncodedNameRecord>) -> (r: Vec<EncodedNameRecord>)
    ensures
        r@ == stable_sort_by_key(v@, name_key()),
{
    let mut r: Vec<EncodedNameRecord> = Vec::new();
    let mut i: usize = 0;
    while i < v.len()
        invariant
            i <= v@.len(),
            r@ == stable_sort_by_key(v@.take(i as int), name_key()),
            sorted_by_key(r@, name_key()),
        decreases v@.len() - i,
    {
        let x = v[i];
        let k = name_order_key(&x);
        let mut j: usize = 0;
        while j < r.len() && name_order_key(&r[j]) <= k
            invariant
                j <= r@.len(),
                forall|t: int| 0 <= t < j ==> name_key()(#[trigger] r@[t]) <= k,
            decreases r@.len() - j,
        {
            j = j + 1;
        }
        proof {
            let key = name_key();
            assert forall|t: int| j <= t < r@.len() implies key(#[trigger] r@[t]) > key(x) by {
                assert(key(r@[j as int]) <= key(r@[t]));
            }
            lemma_insert_by_key(r@, x, key, j as int);
            assert(v@.take(i as int + 1).drop_last() =~= v@.take(i as int));
            assert(v@.take(i as int + 1).last() == x);
        }
        r.insert(j, x);
        i = i + 1;
    }
    assert(v@.take(i as int) =~= v@);
    r
}

impl Table {
    /// Encodes the strings into the storage area and makes a record for
    /// each, in the order of the languages and name IDs.
    fn build(&self) -> (r: (BytesMut, Vec<EncodedNameRecord>))
        requires
            2 * pool_units(self.items()).len() <= isize::MAX,
        ensures
            bytes_mut_contents(r.0) == concat_map(pool_units(self.items()), u16_enc()),
            r.1@ == encoded_of(self.items()),
    {
        let ghost entries = self.records@;
        let ghost items = self.items();
        let mut pool = bytes_mut_new();
        let mut name_records: Vec<EncodedNameRecord> = Vec::new();
        let ghost mut done: Seq<NameItem> = seq![];
        let mut i: usize = 0;
        while i < self.records.len()
            invariant
                entries == self.records@,
                items == items_of(entries),
                2 * pool_units(items).len() <= isize::MAX,
                i <= entries.len(),
                done == items_of(entries.take(i as int)),
                name_records@ == encoded_of(done),
                bytes_mut_contents(pool) == concat_map(pool_units(done), u16_enc()),
            decreases entries.len() - i,
        {
            let entry = &self.records[i];
            let (platform_id, encoding_id, language_id) = lang_ids_exec(&entry.0);
            let rs = entry.1.to_records();
            let ghost cur = lang_items(entries[i as int]);
            let ghost start = done;
            proof {
                assert(entries.take(i as int + 1) =~= entries.take(i as int).push(entries[i as int]));
                assert(entries.take(i as int + 1).drop_last() =~= entries.take(i as int));
                assert(items_of(entries.take(i as int + 1)) == start + cur);
                lemma_items_of_append(entries.take(i as int + 1), entries.skip(i as int + 1));
                assert(entries.take(i as int + 1) + entries.skip(i as int + 1) =~= entries);
                lemma_pool_units_append(start + cur, items_of(entries.skip(i as int + 1)));
                assert(rs@.map_values(|x: NameRecord| (x.name_id, x.value@)).len() == rs@.len());
            }
            let mut j: usize = 0;
            while j < rs.len()
                invariant
                    items == items_of(entries),
                    2 * pool_units(items).len() <= isize::MAX,
                    pool_units(start + cur).len() <= pool_units(items).len(),
                    i < entries.len(),
                    cur == lang_items(entries[i as int]),
                    (platform_id, encoding_id, language_id) == lang_ids(entries[i as int].0),
                    rs@.map_values(|x: NameRecord| (x.name_id, x.value@)) == entries[i as int].1.present(),
                    cur.len() == rs@.len(),
                    j <= rs@.len(),
                    done == start + cur.take(j as int),
                    name_records@ == encoded_of(done),
                    bytes_mut_contents(pool) == concat_map(pool_units(done), u16_enc()),
                decreases rs@.len() - j,
            {
                let ghost item = cur[j as int];
                proof {
                    assert(rs@.map_values(|x: NameRecord| (x.name_id, x.value@))[j as int] == (
                        rs@[j as int].name_id,
                        rs@[j as int].value@,
                    ));
                    assert(item.3 == rs@[j as int].name_id.value());
                    assert(item.4 == utf16_of(rs@[j as int].value@));
                    assert(start + cur.take(j as int + 1) =~= (start + cur.take(j as int)).push(item));
                    assert((start + cur).take(start.len() + j + 1) =~= start + cur.take(j as int + 1));
                    lemma_pool_units_append(
                        start + cur.take(j as int + 1),
                        (start + cur).skip(start.len() + j + 1),
                    );
                    assert(start + cur.take(j as int + 1) + (start + cur).skip(start.len() + j + 1)
                        =~= start + cur);
                    lemma_units_bytes(pool_units(done));
                }
                let units = utf16_units(rs[j].value.as_str());
                let rec_start = bytes_mut_len(&pool);
                proof {
                    let next = done.push(item);
                    assert(next.drop_last() =~= done);
                    assert(pool_units(next) == pool_units(done) + item.4);
                    assert(next =~= start + cur.take(j as int + 1));
                }
                let rec_len = units.len() * 2;
                let ghost before = bytes_mut_contents(pool);
                let mut t: usize = 0;
                while t < units.len()
                    invariant
                        t <= units@.len(),
                        before.len() + 2 * units@.len() <= isize::MAX,
                        bytes_mut_contents(pool) == before + concat_map(units@.take(t as int), u16_enc()),
                    decreases units@.len() - t,
                {
                    proof {
                        lemma_concat_map_take_step(units@, t as int, u16_enc());
                        lemma_units_bytes(units@.take(t as int));
                    }
                    pool.put_u16(units[t]);
                    assert(bytes_mut_contents(pool) =~= before + concat_map(
                        units@.take(t as int + 1),
                        u16_enc(),
                    ));
                    t = t + 1;
                }
                assert(units@.take(t as int) =~= units@);
                let name_id = rs[j].name_id.to_u16();
                name_records.push(
                    EncodedNameRecord {
                        platform_id,
                        encoding_id,
                        language_id,
                        name_id,
                        name_length: (rec_len % 0x1_0000) as u16,
                        name_offset: (rec_start % 0x1_0000) as u16,
                    },
                );
                proof {
                    let next = done.push(item);
                    assert(next.drop_last() =~= done);
                    lemma_concat_map_append(pool_units(done), item.4, u16_enc());
                    done = next;
                }
                j = j + 1;
            }
            proof {
                assert(cur.take(j as int) =~= cur);
            }
            i = i + 1;
        }
        proof {
            assert(entries.take(i as int) =~= entries);
        }
        (pool, name_records)
    }
}

impl ITable for Table {
    /// The header (version, number of records, start of the storage area),
    /// the sorted records, then the storage area.
    open spec fn encoding(&self) -> Seq<u8> {
        let n = self.items().len();
        u16_bytes(NAME_TABLE_VERSION) + u16_bytes((n % 0x1_0000) as u16) + u16_bytes(
            ((6 + 12 * n) % 0x1_0000) as u16,
        ) + concat_map(self.sorted_records(), record_enc()) + concat_map(
            pool_units(self.items()),
            u16_enc(),
        )
    }

    open spec fn tag(&self) -> Seq<u8> {
        seq![0x6eu8, 0x61u8, 0x6du8, 0x65u8]
    }

    /// Each language appears at most once.
    open spec fn writable(&self) -> bool {
        forall|i: int, j: int|
            0 <= i < j < self.records@.len() ==> (#[trigger] self.records@[i]).0
                != (#[trigger] self.records@[j]).0
    }

    fn name(&self) -> (r: [u8; 4]) {
        let r = [0x6eu8, 0x61u8, 0x6du8, 0x65u8];
        assert(r@ =~= self.tag());
        r
    }

    fn write<W: BufSink>(&self, writer: &mut W) {
        let ghost items = self.items();
        let ghost sorted = self.sorted_records();
        let ghost base = old(writer).written();
        proof {
            lemma_units_bytes(pool_units(items));
            lemma_encoded_len(items);
            lemma_stable_sort(encoded_of(items), name_key());
            let f = record_enc();
            assert forall|i: int| 0 <= i < sorted.len() implies (#[trigger] f(sorted[i])).len() == 12 by {}
            lemma_concat_map_len(sorted, f, 12);
        }
        let (pool, name_records) = self.build();
        let name_records = sort_name_records(&name_records);
        let n = name_records.len();
        // version, count and start of the storage area, then the records
        let storage_offset = 3 * 2 + (6 * 2) * n;
        writer.put_u16(NAME_TABLE_VERSION);
        writer.put_u16((n % 0x1_0000) as u16);
        writer.put_u16((storage_offset % 0x1_0000) as u16);
        let ghost head = writer.written();
        let mut i: usize = 0;
        while i < name_records.len()
            invariant
                sorted == name_records@,
                i <= sorted.len(),
                head.len() + concat_map(sorted, record_enc()).len() + 2 * pool_units(items).len()
                    <= isize::MAX,
                writer.written() == head + concat_map(sorted.take(i as int), record_enc()),
            decreases sorted.len() - i,
        {
            proof {
                lemma_concat_map_take_step(sorted, i as int, record_enc());
                lemma_concat_map_take_len(sorted, i as int + 1, record_enc());
            }
            let rec = name_records[i];
            writer.put_u16(rec.platform_id);
            writer.put_u16(rec.encoding_id);
            writer.put_u16(rec.language_id);
            writer.put_u16(rec.name_id);
            writer.put_u16(rec.name_length);
            writer.put_u16(rec.name_offset);
            assert(writer.written() =~= head + concat_map(sorted.take(i as int + 1), record_enc()));
            i = i + 1;
        }
        assert(sorted.take(i as int) =~= sorted);
        // Storage area
        let pool_bytes = bytes_mut_to_vec(&pool);
        writer.put_slice(pool_bytes.as_slice());
        assert(writer.written() =~= base + self.encoding());
    }
}

proof fn lemma_encoded_prefix(items: Seq<NameItem>, m: nat)
    requires
        m <= items.len(),
    ensures
        encoded_of(items.take(m as int)) == encoded_of(items).take(m as int),
    decreases items.len(),
{
    lemma_encoded_len(items);
    if m < items.len() {
        let p = items.drop_last();
        lemma_encoded_prefix(p, m);
        assert(p.take(m as int) =~= items.take(m as int));
        assert(encoded_of(items).take(m as int) =~= encoded_of(p).take(m as int));
    } else {
        assert(items.take(m as int) =~= items);
        assert(encoded_of(items).take(m as int) =~= encoded_of(items));
    }
}

proof fn lemma_storage_tail(t: &Table)
    ensures
        t.encoding().skip(6 + 12 * t.items().len() as int) == concat_map(
            pool_units(t.items()),
            u16_enc(),
        ),
{
    let items = t.items();
    let sorted = t.sorted_records();
    lemma_encoded_len(items);
    lemma_stable_sort(encoded_of(items), name_key());
    let f = record_enc();
    assert forall|i: int| 0 <= i < sorted.len() implies (#[trigger] f(sorted[i])).len() == 12 by {}
    lemma_concat_map_len(sorted, f, 12);
    assert(t.encoding().skip(6 + 12 * items.len() as int) =~= concat_map(pool_units(items), u16_enc()));
}

proof fn lemma_record_location(items: Seq<NameItem>, k: int)
    requires
        0 <= k < items.len(),
        2 * pool_units(items).len() < 0x1_0000,
    ensures
        ({
            let rec = encoded_of(items)[k];
            let storage = concat_map(pool_units(items), u16_enc());
            let off = rec.name_offset as int;
            &&& rec.name_length == 2 * items[k].4.len()
            &&& storage.subrange(off, off + rec.name_length) == concat_map(items[k].4, u16_enc())
        }),
{
    let pre = items.take(k);
    let it = items[k];
    let upto = items.take(k + 1);
    lemma_encoded_len(items);
    lemma_encoded_len(upto);
    lemma_encoded_prefix(items, (k + 1) as nat);
    assert(upto.drop_last() =~= pre);
    assert(upto.last() == it);
    let rec = encoded_of(items)[k];
    assert(rec == encoded_of(upto)[k]);
    assert(rec == encoded_of(upto).last());
    assert(rec.name_offset == ((2 * pool_units(pre).len()) % 0x1_0000) as u16);
    assert(rec.name_length == ((2 * it.4.len()) % 0x1_0000) as u16);
    lemma_pool_units_append(pre.push(it), items.skip(k + 1));
    assert(pre.push(it) + items.skip(k + 1) =~= items);
    assert(pool_units(pre.push(it)) == pool_units(pre) + it.4) by {
        assert(pre.push(it).drop_last() =~= pre);
    }
    lemma_units_bytes(pool_units(pre));
    lemma_units_bytes(it.4);
    lemma_concat_map_append(pool_units(pre) + it.4, pool_units(items.skip(k + 1)), u16_enc());
    lemma_concat_map_append(pool_units(pre), it.4, u16_enc());
    let a = concat_map(pool_units(pre), u16_enc());
    let b = concat_map(it.4, u16_enc());
    let storage = concat_map(pool_units(items), u16_enc());
    assert(storage == a + b + concat_map(pool_units(items.skip(k + 1)), u16_enc()));
    assert(storage.subrange(a.len() as int, a.len() + b.len() as int) =~= b);
}

/// In the written table, the storage area follows the header and the
/// records, and each name's record gives the offset and the length in bytes
/// of its UTF-16 string there, provided the storage area is shorter than
/// 64 KiB so that the 16-bit offsets and lengths hold it exactly. Each
/// name's record is among the written ones.
pub proof fn lemma_records_locate_strings(t: &Table, k: int)
    requires
        0 <= k < t.items().len(),
        2 * pool_units(t.items()).len() < 0x1_0000,
    ensures
        ({
            let items = t.items();
            let rec = encoded_of(items)[k];
            let storage = concat_map(pool_units(items), u16_enc());
            let off = rec.name_offset as int;
            &&& t.encoding().skip(6 + 12 * items.len() as int) == storage
            &&& rec.name_length == 2 * items[k].4.len()
            &&& storage.subrange(off, off + rec.name_length) == concat_map(items[k].4, u16_enc())
            &&& t.sorted_records().contains(rec)
        }),
{
    broadcast use vstd::seq_lib::group_to_multiset_ensures;

    let items = t.items();
    lemma_storage_tail(t);
    lemma_record_location(items, k);
    let rec = encoded_of(items)[k];
    lemma_encoded_len(items);
    lemma_stable_sort(encoded_of(items), name_key());
    assert(encoded_of(items).contains(rec));
    assert(encoded_of(items).to_multiset().count(rec) > 0);
    assert(t.sorted_records().to_multiset().count(rec) > 0);
}


/// The bytes of the `name` table hold the version 0 at 0, the number of
/// records at 2 and the start of the storage area, `6 + 12 n`, at 4 (in 16
/// bits); then record `i` of the sorted records at `6 + 12 i`: its platform,
/// encoding, language, name ID, string length and string offset, two bytes
/// each.
pub proof fn lemma_name_table_layout(t: &Table)
    ensures
        ({
            let e = t.encoding();
            let n = t.items().len() as int;
            let rs = t.sorted_records();
            &&& rs.len() == n
            &&& read_u16(e, 0) == 0
            &&& read_u16(e, 2) == n % 0x1_0000
            &&& read_u16(e, 4) == (6 + 12 * n) % 0x1_0000
            &&& forall|i: int|
                0 <= i < n ==> {
                    &&& read_u16(e, 6 + 12 * i) == (#[trigger] rs[i]).platform_id
                    &&& read_u16(e, 8 + 12 * i) == rs[i].encoding_id
                    &&& read_u16(e, 10 + 12 * i) == rs[i].language_id
                    &&& read_u16(e, 12 + 12 * i) == rs[i].name_id
                    &&& read_u16(e, 14 + 12 * i) == rs[i].name_length
                    &&& read_u16(e, 16 + 12 * i) == rs[i].name_offset
                }
        }),
{
    let e = t.encoding();
    let n = t.items().len() as int;
    let rs = t.sorted_records();
    lemma_encoded_len(t.items());
    lemma_stable_sort(encoded_of(t.items()), name_key());
    let n16 = (n % 0x1_0000) as u16;
    let s16 = ((6 + 12 * n) % 0x1_0000) as u16;
    let h = u16_bytes(NAME_TABLE_VERSION) + u16_bytes(n16) + u16_bytes(s16);
    let rb = concat_map(rs, record_enc());
    let pool = concat_map(pool_units(t.items()), u16_enc());
    assert(e == h + rb + pool);
    assert(e.subrange(0, 2) =~= u16_bytes(0));
    assert(e.subrange(2, 4) =~= u16_bytes(n16));
    assert(e.subrange(4, 6) =~= u16_bytes(s16));
    lemma_read_at(e, 0, u16_bytes(0));
    lemma_read_at(e, 2, u16_bytes(n16));
    lemma_read_at(e, 4, u16_bytes(s16));
    lemma_read_u16(0);
    lemma_read_u16(n16);
    lemma_read_u16(s16);
    assert forall|j: int| 0 <= j < rs.len() implies (#[trigger] record_enc()(rs[j])).len() == 12 by {}
    assert forall|i: int| 0 <= i < n implies {
        &&& read_u16(e, 6 + 12 * i) == (#[trigger] rs[i]).platform_id
        &&& read_u16(e, 8 + 12 * i) == rs[i].encoding_id
        &&& read_u16(e, 10 + 12 * i) == rs[i].language_id
        &&& read_u16(e, 12 + 12 * i) == rs[i].name_id
        &&& read_u16(e, 14 + 12 * i) == rs[i].name_length
        &&& read_u16(e, 16 + 12 * i) == rs[i].name_offset
    } by {
        lemma_concat_map_fixed_at(rs, record_enc(), 12, i);
        let w = record_enc()(rs[i]);
        assert(rb.subrange(12 * i, 12 * i + 12) == w);
        assert forall|k: int| 0 <= k < 12 implies e[6 + 12 * i + k] == #[trigger] w[k] by {
            assert(rb.subrange(12 * i, 12 * i + 12)[k] == rb[12 * i + k]);
        }
        lemma_record_reads(e, 6 + 12 * i, rs[i]);
    }
}

/// The six words of a record read back as its fields.
proof fn lemma_record_reads(e: Seq<u8>, o: int, r: EncodedNameRecord)
    requires
        0 <= o,
        o + 12 <= e.len(),
        forall|k: int| 0 <= k < 12 ==> e[o + k] == #[trigger] record_enc()(r)[k],
    ensures
        read_u16(e, o) == r.platform_id,
        read_u16(e, o + 2) == r.encoding_id,
        read_u16(e, o + 4) == r.language_id,
        read_u16(e, o + 6) == r.name_id,
        read_u16(e, o + 8) == r.name_length,
        read_u16(e, o + 10) == r.name_offset,
{
    let w = record_enc()(r);
    assert(w == u16_bytes(r.platform_id) + u16_bytes(r.encoding_id) + u16_bytes(r.language_id)
        + u16_bytes(r.name_id) + u16_bytes(r.name_length) + u16_bytes(r.name_offset));
    assert(e[o] == w[0] && e[o + 1] == w[1] && e[o + 2] == w[2] && e[o + 3] == w[3]);
    assert(e[o + 4] == w[4] && e[o + 5] == w[5] && e[o + 6] == w[6] && e[o + 7] == w[7]);
    assert(e[o + 8] == w[8] && e[o + 9] == w[9] && e[o + 10] == w[10] && e[o + 11] == w[11]);
    lemma_read_u16(r.platform_id);
    lemma_read_u16(r.encoding_id);
    lemma_read_u16(r.language_id);
    lemma_read_u16(r.name_id);
    lemma_read_u16(r.name_length);
    lemma_read_u16(r.name_offset);
}


/// The names of one language are its present names, in order, each with
/// the OpenType IDs of the language: platform 0 (Unicode) with encoding 4
/// (full repertoire) and language 0 for `Lang::Unicode`, platform 3
/// (Windows) with encoding 1 (Unicode BMP) and the language's own ID for
/// `Lang::Microsoft`; then the name ID and the UTF-16 string.
pub proof fn lemma_lang_items(entry: (Lang, NameRecords))
    ensures
        lang_items(entry).len() == entry.1.present().len(),
        forall|i: int|
            0 <= i < lang_items(entry).len() ==> {
                let it = #[trigger] lang_items(entry)[i];
                &&& entry.0 is Unicode ==> it.0 == 0 && it.1 == 4 && it.2 == 0
                &&& entry.0 matches Lang::Microsoft(id) ==> it.0 == 3 && it.1 == 1 && it.2 == id
                &&& it.3 == entry.1.present()[i].0.value()
                &&& it.4 == utf16_of(entry.1.present()[i].1)
            },
{
}

} // verus!
