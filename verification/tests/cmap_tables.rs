use bytes::BytesMut;
use monoxide_ttf::hl::cmap::{Encoding, SeqMapping, Table as RawTable};
use monoxide_ttf::model::cmap::{fmt12, fmt4, Subtable, Table};
use monoxide_ttf::model::encoding::{EncodingRecord, PlatformId};
use monoxide_ttf::model::ITable;

fn run(start_code: u32, len: u32, glyph_id: u32) -> SeqMapping {
    SeqMapping {
        start_code,
        len,
        glyph_id,
    }
}

#[test]
fn encoding_records() {
    let fmt4 = Encoding::Unicode.to_encoding_records_fmt4();
    assert_eq!(fmt4.len(), 2);
    assert_eq!(fmt4[0].platform_id, PlatformId::Unicode);
    assert_eq!(fmt4[0].encoding_id, 3);
    assert_eq!(fmt4[1].platform_id, PlatformId::Microsoft);
    assert_eq!(fmt4[1].encoding_id, 1);
    let fmt12 = Encoding::Unicode.to_encoding_records_fmt12();
    assert_eq!(fmt12[0].encoding_id, 4);
    assert_eq!(fmt12[1].encoding_id, 10);
    assert_eq!(Encoding::Symbol.to_encoding_records_fmt4().len(), 1);
    assert!(Encoding::Symbol.to_encoding_records_fmt12().is_empty());
    assert!(Encoding::UnicodeVariations.to_encoding_records_fmt4().is_empty());
}

#[test]
fn fmt4_cuts_runs_at_the_plane_end() {
    let t = fmt4::Table::from_raw(&vec![run(0xfff0, 0x20, 5), run(0x10000, 4, 9)]);
    assert_eq!(t.segments.len(), 2);
    assert_eq!(t.segments[0].start_code, 0xfff0);
    assert_eq!(t.segments[0].end_code, 0xffff);
    assert_eq!(t.segments[0].id_delta, 21);
    assert_eq!(t.seg_count_x2, 4);
    assert_eq!(t.length, 16 + 8 * 2);
}

#[test]
fn fmt4_search_parameters_for_five_segments() {
    let runs: Vec<SeqMapping> = (0..4).map(|k| run(10 * k, 2, 1)).collect();
    let t = fmt4::Table::from_raw(&runs);
    assert_eq!(t.seg_count_x2, 10);
    assert_eq!(t.search_range, 8);
    assert_eq!(t.entry_selector, 2);
    assert_eq!(t.range_shift, 2);
    let mut b = BytesMut::new();
    t.write(&mut b);
    assert_eq!(b.to_vec().len(), t.byte_length());
}

#[test]
fn fmt12_groups() {
    let t = fmt12::Table::from_raw(&vec![run(0x41, 26, 3), run(0x1f600, 2, 40)]);
    assert_eq!(t.groups.len(), 2);
    assert_eq!(t.groups[1].start_code, 0x1f600);
    assert_eq!(t.groups[1].end_code, 0x1f601);
    assert_eq!(t.groups[1].start_glyph_id, 40);
    assert_eq!(t.byte_length(), 16 + 24);
    let mut b = BytesMut::new();
    t.write(&mut b);
    let bytes = b.to_vec();
    assert_eq!(bytes.len(), 40);
    assert_eq!(&bytes[0..8], &[0, 12, 0, 0, 0, 0, 0, 40]);
}

#[test]
fn from_raw_sorts_runs_and_records() {
    let raw = RawTable {
        subtables: vec![vec![run(200, 1, 2), run(100, 1, 1)]],
        mapping: vec![(Encoding::Symbol, 0), (Encoding::Unicode, 0)],
    };
    let t = Table::from_raw(raw);
    // Symbol: one format 4 subtable; Unicode: one format 4, one format 12.
    assert_eq!(t.subtables.len(), 3);
    let keys: Vec<(PlatformId, u16, usize)> = t
        .mapping
        .iter()
        .map(|(r, i)| (r.platform_id, r.encoding_id, *i))
        .collect();
    assert_eq!(
        keys,
        vec![
            (PlatformId::Unicode, 3, 1),
            (PlatformId::Unicode, 4, 2),
            (PlatformId::Microsoft, 0, 0),
            (PlatformId::Microsoft, 1, 1),
            (PlatformId::Microsoft, 10, 2),
        ]
    );
    match &t.subtables[0] {
        Subtable::Format4(f) => {
            assert_eq!(f.segments[0].start_code, 100);
            assert_eq!(f.segments[1].start_code, 200);
        }
        Subtable::Format12(_) => panic!("expected format 4"),
    }
}

#[test]
fn cmap_records_point_at_subtables() {
    let raw = RawTable {
        subtables: vec![vec![run(65, 26, 1)]],
        mapping: vec![(Encoding::Unicode, 0)],
    };
    let t = Table::from_raw(raw);
    let mut b = BytesMut::new();
    t.write(&mut b);
    let bytes = b.to_vec();
    assert_eq!(&bytes[0..4], &[0, 0, 0, 4]);
    for k in 0..4 {
        let rec = &bytes[4 + 8 * k..12 + 8 * k];
        let offset = u32::from_be_bytes([rec[4], rec[5], rec[6], rec[7]]) as usize;
        let idx = t.mapping[k].1;
        let mut sub = BytesMut::new();
        t.subtables[idx].write(&mut sub);
        let sub = sub.to_vec();
        assert_eq!(&bytes[offset..offset + sub.len()], &sub[..]);
        assert_eq!(sub.len(), t.subtables[idx].byte_length());
    }
    assert_eq!(t.name(), *b"cmap");
    let _ = EncodingRecord {
        platform_id: PlatformId::Unicode,
        encoding_id: 3,
    };
}
