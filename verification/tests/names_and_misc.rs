use bytes::BytesMut;
use monoxide_ttf::buf::BufSink;
use monoxide_ttf::hl::glyf::{encode, ConvertError, QuadBezier};
use monoxide_ttf::model::glyf::compound::{
    Args, Component, ComponentFlags, CompoundGlyph, CompoundGlyphVerifyError, Scale,
};
use monoxide_ttf::model::glyf::simple::{
    Coord, FlagOrRepeat, OutlineFlag, SimpleGlyph, SimpleGlyphVerifyError,
};
use monoxide_ttf::model::glyf::{Glyph, GlyphCommon, GlyphVerifyErrorKind, Table as GlyfTable};
use monoxide_ttf::model::name::{Lang, NameId, NameRecords, Table as NameTable};
use monoxide_ttf::model::ITable;
use monoxide_ttf::spiro::{CpTy, Error};
use monoxide_ttf::util::SizeOnlyBufWriter;

#[test]
fn to_records_in_name_id_order() {
    let mut r = NameRecords::default();
    r.version = Some("1.0".into());
    r.copyright = Some("c".into());
    let recs = r.to_records();
    assert_eq!(recs.len(), 2);
    assert_eq!(recs[0].name_id, NameId::Copyright);
    assert_eq!(recs[1].name_id, NameId::Version);
    assert_eq!(recs[1].value, "1.0");
}

#[test]
fn name_table_sorts_records_and_keeps_strings() {
    let mut en = NameRecords::default();
    en.font_family_name = Some("Ab".into());
    let mut uni = NameRecords::default();
    uni.copyright = Some("\u{1F600}".into());
    let t = NameTable {
        records: vec![(Lang::Microsoft(0x0409), en), (Lang::Unicode, uni)],
    };
    let mut b = BytesMut::new();
    t.write(&mut b);
    let bytes = b.to_vec();
    // version, count, storage offset
    assert_eq!(&bytes[0..6], &[0, 0, 0, 2, 0, 30]);
    // The Unicode record sorts first; its string was stored second.
    assert_eq!(&bytes[6..18], &[0, 0, 0, 4, 0, 0, 0, 0, 0, 4, 0, 4]);
    assert_eq!(&bytes[18..30], &[0, 3, 0, 1, 0x04, 0x09, 0, 1, 0, 4, 0, 0]);
    // "Ab" then the surrogate pair of U+1F600
    assert_eq!(&bytes[30..], &[0, 0x41, 0, 0x62, 0xD8, 0x3D, 0xDE, 0x00]);
}

#[test]
fn utf16_of_strings() {
    let mut uni = NameRecords::default();
    uni.copyright = Some("A\u{e9}\u{10437}".into());
    let t = NameTable {
        records: vec![(Lang::Unicode, uni)],
    };
    let mut b = BytesMut::new();
    t.write(&mut b);
    let bytes = b.to_vec();
    assert_eq!(&bytes[0..6], &[0, 0, 0, 1, 0, 18]);
    assert_eq!(&bytes[6..18], &[0, 0, 0, 4, 0, 0, 0, 0, 0, 8, 0, 0]);
    // one unit each below 0x10000, a surrogate pair above
    assert_eq!(&bytes[18..], &[0, 0x41, 0, 0xe9, 0xD8, 0x01, 0xDC, 0x37]);
}

#[test]
fn bytes_mut_sink_writes_big_endian() {
    let mut b = BytesMut::new();
    b.put_u16(0x1234);
    b.put_i16(-2);
    b.put_u32(0xdeadbeef);
    b.put_i8(-1);
    b.put_u64(1);
    b.put_slice(&[9, 8]);
    assert_eq!(
        b.to_vec(),
        vec![0x12, 0x34, 0xff, 0xfe, 0xde, 0xad, 0xbe, 0xef, 0xff, 0, 0, 0, 0, 0, 0, 0, 1, 9, 8]
    );
}

#[test]
fn size_only_writer_counts_repeated_and_buffered_bytes() {
    let mut w = SizeOnlyBufWriter::new();
    assert_eq!(w.size(), 0);
    w.put_u16(1);
    w.put_slice(&[1, 2, 3]);
    w.put_bytes(0, 5);
    assert_eq!(w.size(), 10);
    let mut other = BytesMut::new();
    other.put_slice(&[7, 7, 7, 7]);
    w.put(other);
    assert_eq!(w.size(), 14);
}

#[test]
fn bytes_mut_sink_puts_repeated_and_buffered_bytes() {
    let mut b = BytesMut::new();
    b.put_u8(1);
    b.put_bytes(9, 3);
    let mut other = BytesMut::new();
    other.put_slice(&[4, 5]);
    b.put(other);
    assert_eq!(b.to_vec(), vec![1, 9, 9, 9, 4, 5]);
    // an empty buffer takes over the other one
    let mut empty = BytesMut::new();
    let mut src = BytesMut::new();
    src.put_slice(&[6]);
    empty.put(src);
    assert_eq!(empty.to_vec(), vec![6]);
}

#[test]
fn size_only_writer_counts() {
    let mut w = SizeOnlyBufWriter::new();
    w.put_u32(1);
    w.put_slice(&[1, 2, 3]);
    assert_eq!(w.size(), 7);
}

#[test]
fn spiro_control_point_types() {
    assert_eq!(CpTy::try_from(b'v'), Ok(CpTy::Corner));
    assert_eq!(CpTy::try_from(b'}'), Ok(CpTy::EndOpen));
    assert_eq!(CpTy::try_from(b'x'), Err(b'x'));
    assert_eq!(CpTy::G2.to_u8(), b'c');
    assert_eq!(CpTy::default(), CpTy::Corner);
    assert_eq!(CpTy::G4.jinc(CpTy::Corner), 4);
    assert_eq!(CpTy::G2.jinc(CpTy::G2), 2);
    assert_eq!(CpTy::Open.jinc(CpTy::G2), 1);
    assert_eq!(CpTy::Corner.jinc(CpTy::Corner), 0);
    assert_eq!(
        Error::NotEnoughCps.message(),
        "not enough spiro control points to create bezier path"
    );
}

#[test]
fn outline_flag_names() {
    let f = OutlineFlag::from_bits_retain(
        OutlineFlag::ON_CURVE | OutlineFlag::X_SHORT_VECTOR | OutlineFlag::SHORT_X_SIGN | OutlineFlag::LONG_Y_SAME,
    );
    assert_eq!(
        f.flag_names(),
        vec!["ON_CURVE", "X_SHORT_VECTOR", "SHORT_X_SIGN", "LONG_Y_SAME"]
    );
}

#[test]
fn coord_and_flag_conversions() {
    assert_eq!(Coord::from(5u8), Coord::Short(5));
    assert_eq!(Coord::from(-5i16), Coord::Long(-5));
    let f = OutlineFlag::from_bits_retain(OutlineFlag::ON_CURVE);
    assert_eq!(FlagOrRepeat::from(f), FlagOrRepeat::Single(f));
}

fn simple(flags: Vec<FlagOrRepeat>, xs: Vec<Coord>, ys: Vec<Coord>, ends: Vec<u16>) -> SimpleGlyph {
    SimpleGlyph {
        common: GlyphCommon::default(),
        end_points_of_countours: ends,
        instructions: vec![],
        flags,
        x_coords: xs,
        y_coords: ys,
    }
}

#[test]
fn simple_glyph_errors() {
    let on = OutlineFlag::from_bits_retain(OutlineFlag::ON_CURVE);
    let rep = OutlineFlag::from_bits_retain(OutlineFlag::ON_CURVE | OutlineFlag::REPEAT);
    let long = |v| Coord::Long(v);
    // REPEAT set by hand
    let g = simple(vec![FlagOrRepeat::Single(rep)], vec![long(0)], vec![long(0)], vec![0]);
    assert_eq!(g.verify(), Err(SimpleGlyphVerifyError::RepeatSetInFlags(0)));
    // two flags for one point
    let g = simple(
        vec![FlagOrRepeat::Single(on), FlagOrRepeat::Single(on)],
        vec![long(0), long(0)],
        vec![long(0), long(0)],
        vec![0],
    );
    assert_eq!(g.verify(), Err(SimpleGlyphVerifyError::FlagCountMismatch));
    // a missing coordinate
    let g = simple(vec![FlagOrRepeat::Single(on)], vec![], vec![long(0)], vec![0]);
    assert_eq!(
        g.verify(),
        Err(SimpleGlyphVerifyError::TooFewCoords { axis: 'x', count: 0 })
    );
    // an extra coordinate
    let g = simple(vec![FlagOrRepeat::Single(on)], vec![long(0), long(1)], vec![long(0)], vec![0]);
    assert_eq!(
        g.verify(),
        Err(SimpleGlyphVerifyError::TooManyCoords { axis: 'x', count: 1 })
    );
    // a short coordinate where the flag asks for a long one
    let g = simple(vec![FlagOrRepeat::Single(on)], vec![Coord::Short(1)], vec![long(0)], vec![0]);
    assert_eq!(
        g.verify(),
        Err(SimpleGlyphVerifyError::CoordFormatMismatch {
            axis: 'x',
            idx: 0,
            expected: false,
            got: true
        })
    );
    // a fine glyph
    let g = simple(vec![FlagOrRepeat::Single(on)], vec![long(0)], vec![long(0)], vec![0]);
    assert_eq!(g.verify(), Ok(()));
    assert_eq!(g.n_points(), 1);
    assert_eq!(g.n_contours(), 1);
}

#[test]
fn compound_glyph_errors_and_counts() {
    let empty = CompoundGlyph {
        common: GlyphCommon::default(),
        components: vec![],
        instructions: vec![],
    };
    assert_eq!(empty.verify(), Err(CompoundGlyphVerifyError::NoComponents));
    let component = |flags: u16, idx: u16| Component {
        glyph_index: idx,
        flags: ComponentFlags(flags),
        args: Args::Offset { x: 10, y: 0 },
        scale: Scale::One,
    };
    let bad = CompoundGlyph {
        common: GlyphCommon::default(),
        components: vec![component(0, 0), component(0x0020, 0)],
        instructions: vec![],
    };
    assert_eq!(bad.verify(), Err(CompoundGlyphVerifyError::ForbiddenFlags(1)));
    let on = OutlineFlag::from_bits_retain(OutlineFlag::ON_CURVE);
    let square = Glyph::Simple(simple(
        vec![FlagOrRepeat::Repeat { flag: on, times_minus_1: 3 }],
        vec![Coord::Long(0); 4],
        vec![Coord::Long(0); 4],
        vec![3],
    ));
    let pair = CompoundGlyph {
        common: GlyphCommon::default(),
        components: vec![component(0, 0), component(0, 0)],
        instructions: vec![1, 2],
    };
    let glyphs = vec![square, Glyph::Compound(pair.clone())];
    assert_eq!(pair.verify(), Ok(()));
    assert_eq!(pair.n_points(&glyphs), 8);
    assert_eq!(pair.n_contours(&glyphs), 2);
    assert_eq!(pair.depth(&glyphs), 2);
    let table = GlyfTable { glyphs };
    let maxp = monoxide_ttf::hl::maxp::glyf_to_maxp(&table);
    assert_eq!(maxp.n_glyphs, 2);
    assert_eq!(maxp.max_points, 8);
    assert_eq!(maxp.max_contours, 2);
    assert_eq!(maxp.max_size_of_instructions, 2);
    assert_eq!(maxp.max_component_elements, 2);
    assert_eq!(maxp.max_component_depth, 2);
    let loca = monoxide_ttf::hl::loca::glyf_to_loca(&table);
    let mut w = SizeOnlyBufWriter::new();
    table.glyphs[0].write(&mut w);
    assert_eq!(loca.offsets.len(), 3);
    assert_eq!(loca.offsets[0], 0);
    assert_eq!(loca.offsets[1] as usize, w.size());
    let mut all = SizeOnlyBufWriter::new();
    table.write(&mut all);
    assert_eq!(loca.offsets[2] as usize, all.size());
    let bad_table = GlyfTable {
        glyphs: vec![Glyph::Compound(empty)],
    };
    let e = bad_table.verify().unwrap_err();
    assert_eq!(e.index, 0);
    assert_eq!(e.kind, GlyphVerifyErrorKind::Compound(CompoundGlyphVerifyError::NoComponents));
}

#[test]
fn open_outline_cannot_be_encoded() {
    let mut open = QuadBezier::builder((0i16, 0i16));
    open.line_to((10, 0)).line_to((10, 10));
    let open = open.build();
    let mut closed = QuadBezier::builder((0i16, 0i16));
    closed.line_to((10, 0)).line_to((0, 0)).close();
    let closed = closed.build();
    assert_eq!(
        encode(&vec![closed, open]).unwrap_err(),
        ConvertError::SegmentNotClosed(1)
    );
}
