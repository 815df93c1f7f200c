use monoxide_ttf::hl::cmap as hl;
use monoxide_ttf::model::cmap::fmt4::{Segment, Table};

/// This is a test taken from the OpenType specification that demonstrates the
/// format 4 subtable layout and encoding: the table maps characters 10-20,
/// 30-90 and 153-480 onto a contiguous range of glyph indices.
#[test]
fn test_opentype_spec_example() {
    let raw_tbl = vec![
        hl::SeqMapping {
            start_code: 10,
            len: 11,
            glyph_id: 1,
        },
        hl::SeqMapping {
            start_code: 30,
            len: 61,
            glyph_id: 12,
        },
        hl::SeqMapping {
            start_code: 153,
            len: 328,
            glyph_id: 73,
        },
    ];

    let table = Table::from_raw(&raw_tbl);
    assert_eq!(table.seg_count_x2, 8);
    assert_eq!(table.search_range, 8);
    assert_eq!(table.entry_selector, 2);
    assert_eq!(table.range_shift, 0);
    assert_eq!(table.segments.len(), 4);
    assert_eq!(
        &table.segments[0],
        &Segment {
            end_code: 20,
            start_code: 10,
            id_delta: -9,
            id_range_offset: 0,
        }
    );
    assert_eq!(
        &table.segments[1],
        &Segment {
            end_code: 90,
            start_code: 30,
            id_delta: -18,
            id_range_offset: 0,
        }
    );
    assert_eq!(
        &table.segments[2],
        &Segment {
            end_code: 480,
            start_code: 153,
            id_delta: -80,
            id_range_offset: 0,
        }
    );
    assert_eq!(
        &table.segments[3],
        &Segment {
            end_code: 0xFFFF,
            start_code: 0xFFFF,
            id_delta: 1,
            id_range_offset: 0,
        }
    );
}
