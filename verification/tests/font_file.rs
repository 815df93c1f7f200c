use bytes::BytesMut;
use monoxide_ttf::hl::{self, cmap::SeqMapping};
use monoxide_ttf::model::checksum::ttf_checksum;
use monoxide_ttf::model::font::pad_to_4_bytes;
use monoxide_ttf::model::glyf::simple::{Coord, FlagOrRepeat, OutlineFlag, SimpleGlyph};
use monoxide_ttf::model::head::{HeaderFlags, MacStyle};
use monoxide_ttf::model::{
    cmap, glyf, head, hhea, hmtx, name, os2, FontFile, Outline, TrueTypeTables,
};

fn square_glyph() -> glyf::Glyph {
    glyf::Glyph::Simple(SimpleGlyph {
        common: glyf::GlyphCommon {
            x_min: 0,
            y_min: 0,
            x_max: 1024,
            y_max: 1024,
        },
        end_points_of_countours: vec![3],
        instructions: vec![],
        flags: vec![FlagOrRepeat::Repeat {
            flag: OutlineFlag::from_bits_retain(OutlineFlag::ON_CURVE),
            times_minus_1: 3,
        }],
        x_coords: vec![Coord::Long(0), Coord::Long(1024), Coord::Long(0), Coord::Long(-1024)],
        y_coords: vec![Coord::Long(0), Coord::Long(0), Coord::Long(1024), Coord::Long(0)],
    })
}

fn test_font() -> FontFile {
    let head = head::Table {
        font_revision: 0x0001_0000,
        checksum_adjustment: 0,
        flags: HeaderFlags::empty(),
        units_per_em: 1024,
        created: 3_600_000_000,
        modified: 3_600_000_001,
        x_min: 0,
        y_min: 0,
        x_max: 1024,
        y_max: 1024,
        mac_style: MacStyle::from_bits_retain(MacStyle::REGULAR),
        lowest_rec_ppem: 8,
    };
    let hhea = hhea::Table {
        ascender: 1024,
        descender: -256,
        line_gap: 0,
        advance_width_max: 1024,
        min_left_side_bearing: 0,
        min_right_side_bearing: 0,
        x_max_extent: 1024,
        caret_slope_rise: 1,
        caret_slope_run: 0,
        caret_offset: 0,
        metric_data_format: 0,
        number_of_hmetrics: 1,
    };
    let hmtx = hmtx::Table {
        metrics: vec![hmtx::LongHorizontalMetric {
            advance_width: 1024,
            left_side_bearing: 0,
        }],
        left_side_bearings: vec![],
    };
    let cmap = cmap::Table::from_raw(hl::cmap::Table {
        subtables: vec![vec![SeqMapping {
            start_code: 65,
            len: 1,
            glyph_id: 0,
        }]],
        mapping: vec![(hl::cmap::Encoding::Unicode, 0)],
    });
    let mut names = name::NameRecords::default();
    names.full_font_name = Some("Test Font".into());
    names.font_family_name = Some("Test".into());
    let name = name::Table {
        records: vec![(name::Lang::Microsoft(0x0409), names)],
    };
    let os2 = os2::Table {
        x_avg_char_width: 1024,
        us_weight_class: 400,
        us_width_class: 5,
        usage_permission: os2::UsagePermissionKind::EditableEmbedding,
        fs_type: os2::FsTypeUpper::empty(),
        y_subscript_x_size: 512,
        y_subscript_y_size: 512,
        y_subscript_x_offset: 0,
        y_subscript_y_offset: 128,
        y_superscript_x_size: 512,
        y_superscript_y_size: 512,
        y_superscript_x_offset: 0,
        y_superscript_y_offset: 768,
        y_strikeout_size: 50,
        y_strikeout_position: 258,
        s_family_class: os2::SFamilyClass::NoClassification,
        panose_classification: os2::PanroseClassification {
            family_type: 2,
            serif_style: 0,
            weight: 5,
            proportion: 3,
            contrast: 0,
            stroke_variation: 0,
            arm_style: 0,
            letterform: 0,
            midline: 0,
            x_height: 0,
        },
        unicode_range: os2::UnicodeRange::empty(),
        ach_vend_id: *b"TEST",
        fs_selection: os2::FsSelectionKind::from_bits_retain(os2::FsSelectionKind::Regular),
        first_char_index: 0x20,
        last_char_index: 0xffff,
        s_typo_ascender: 1024,
        s_typo_descender: -256,
        s_typo_line_gap: 0,
        us_win_ascent: 1024,
        us_win_descent: 256,
        code_page_range: os2::CodePageRange::empty(),
        sx_height: 0,
        s_cap_height: 0,
        us_default_char: 0,
        us_break_char: 0x20,
        us_max_context: 0,
    };
    let glyf = glyf::Table {
        glyphs: vec![square_glyph()],
    };
    let loca = hl::loca::glyf_to_loca(&glyf);
    let maxp = hl::maxp::glyf_to_maxp(&glyf);
    FontFile {
        head,
        hhea,
        hmtx,
        cmap,
        name,
        os2,
        outline: Outline::TrueType(TrueTypeTables { glyf, loca, maxp }),
    }
}

fn write(font: &FontFile) -> Vec<u8> {
    let mut buf = BytesMut::new();
    font.write(&mut buf);
    buf.to_vec()
}

fn be32(b: &[u8]) -> u32 {
    u32::from_be_bytes([b[0], b[1], b[2], b[3]])
}

#[test]
fn font_header_has_nine_tables() {
    let bytes = write(&test_font());
    assert_eq!(&bytes[0..4], &[0, 1, 0, 0]);
    // 9 tables: searchRange 128, entrySelector 3, rangeShift 16
    assert_eq!(&bytes[4..12], &[0, 9, 0, 128, 0, 3, 0, 16]);
    let tags: Vec<&[u8]> = (0..9).map(|k| &bytes[12 + 16 * k..16 + 16 * k]).collect();
    assert_eq!(
        tags,
        vec![
            &b"head"[..],
            b"hhea",
            b"hmtx",
            b"cmap",
            b"name",
            b"OS/2",
            b"glyf",
            b"loca",
            b"maxp"
        ]
    );
}

#[test]
fn font_directory_locates_tables() {
    let bytes = write(&test_font());
    let mut expected_offset = 12 + 16 * 9 + 8;
    for k in 0..9 {
        let rec = &bytes[12 + 16 * k..28 + 16 * k];
        let offset = be32(&rec[8..12]) as usize;
        let length = be32(&rec[12..16]) as usize;
        assert_eq!(offset, expected_offset);
        assert_eq!(offset % 4, 0);
        // the mark before the table
        assert_eq!(&bytes[offset - 8..offset - 6], b"__");
        assert_eq!(&bytes[offset - 6..offset - 2], &rec[0..4]);
        assert_eq!(&bytes[offset - 2..offset], b"__");
        // the checksum of every table but `head` is that of its bytes
        if k > 0 {
            assert_eq!(be32(&rec[4..8]), ttf_checksum(&bytes[offset..offset + length]));
        }
        expected_offset = (offset + length).next_multiple_of(4) + 8;
    }
    assert_eq!(bytes.len(), expected_offset - 8);
}

#[test]
fn font_checksum_is_magic() {
    // the whole file, marks before the tables included
    let bytes = write(&test_font());
    assert_eq!(ttf_checksum(&bytes), 0xB1B0AFBA);
}

#[test]
fn head_is_written_with_adjustment() {
    let font = test_font();
    let bytes = write(&font);
    let offset = be32(&bytes[12 + 8..12 + 12]) as usize;
    let adjustment = be32(&bytes[offset + 8..offset + 12]);
    assert_ne!(adjustment, 0);
    // The magic number follows the adjustment.
    assert_eq!(be32(&bytes[offset + 12..offset + 16]), 0x5F0F3CF5);
}

#[test]
fn pad_to_4_bytes_pads_with_zeros() {
    for (len, pad) in [(0usize, 0usize), (1, 3), (2, 2), (3, 1), (4, 0), (5, 3)] {
        let mut buf = BytesMut::new();
        pad_to_4_bytes(len, &mut buf);
        assert_eq!(buf.to_vec(), vec![0u8; pad]);
    }
}

#[test]
fn ttf_checksum_sums_words() {
    assert_eq!(ttf_checksum(&[]), 0);
    assert_eq!(ttf_checksum(&[0, 0, 0, 1, 0, 0, 0, 2]), 3);
    // the last word is padded with zeros
    assert_eq!(ttf_checksum(&[1, 2, 3]), 0x0102_0300);
    assert_eq!(ttf_checksum(&[0, 0, 0, 1, 0xAB]), 0xAB00_0001);
    // the sum wraps
    assert_eq!(ttf_checksum(&[0xff; 8]), 0xffff_fffe);
}
