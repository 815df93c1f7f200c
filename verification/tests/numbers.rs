use bytes::BytesMut;
use monoxide_ttf::model::cff2::inst::{CharStringOps, TopDictInst};
use monoxide_ttf::model::cff2::num::{Cff2Decimal, Cff2Fixed, Cff2Int16, Cff2Int32};
use monoxide_ttf::model::cff2::IndexData;

fn int16(v: i16) -> Vec<u8> {
    let mut b = BytesMut::new();
    Cff2Int16(v).write(&mut b);
    b.to_vec()
}

fn int32(v: i32) -> Vec<u8> {
    let mut b = BytesMut::new();
    Cff2Int32(v).write(&mut b);
    b.to_vec()
}

fn fixed(bits: i32) -> Vec<u8> {
    let mut b = BytesMut::new();
    Cff2Fixed(bits).write(&mut b);
    b.to_vec()
}

fn decimal(mantissa: i128, scale: u32) -> Vec<u8> {
    let mut b = BytesMut::new();
    Cff2Decimal { mantissa, scale }.write(&mut b);
    b.to_vec()
}

#[test]
fn small_integers_take_one_byte() {
    assert_eq!(int16(0), vec![139]);
    assert_eq!(int16(107), vec![246]);
    assert_eq!(int16(-107), vec![32]);
}

#[test]
fn medium_integers_take_two_bytes() {
    assert_eq!(int16(108), vec![247, 0]);
    assert_eq!(int16(1131), vec![250, 255]);
    assert_eq!(int16(-108), vec![251, 0]);
    assert_eq!(int16(-1131), vec![254, 255]);
    assert_eq!(int16(300), vec![247, 192]);
}

#[test]
fn large_integers_take_a_prefix() {
    assert_eq!(int16(2000), vec![28, 0x07, 0xd0]);
    assert_eq!(int16(-2000), vec![28, 0xf8, 0x30]);
    assert_eq!(int32(70000), vec![29, 0x00, 0x01, 0x11, 0x70]);
    assert_eq!(int32(-70000), vec![29, 0xff, 0xfe, 0xee, 0x90]);
    assert_eq!(int32(5), vec![144]);
}

#[test]
fn int32_outside_short_range_takes_full_form() {
    // 65636 and 65541 have small low 16 bits, but are not small themselves.
    assert_eq!(int32(65636), vec![29, 0x00, 0x01, 0x00, 0x64]);
    assert_eq!(int32(65541), vec![29, 0x00, 0x01, 0x00, 0x05]);
    assert_eq!(int32(1131), vec![250, 255]);
    assert_eq!(int32(1132), vec![29, 0x00, 0x00, 0x04, 0x6c]);
}

#[test]
fn fixed_whole_numbers_take_short_forms() {
    assert_eq!(fixed(0x0001_0000), vec![140]);
    assert_eq!(fixed(-0x0001_0000), vec![138]);
    // 1.5
    assert_eq!(fixed(0x0001_8000), vec![255, 0x00, 0x01, 0x80, 0x00]);
    // 2000.0
    assert_eq!(fixed(2000 << 16), vec![255, 0x07, 0xd0, 0x00, 0x00]);
}

#[test]
fn decimals_are_nibbles() {
    assert_eq!(decimal(0, 0), vec![30, 0x0f]);
    // -1.5: minus, 1, 5, E-, 1, end
    assert_eq!(decimal(-15, 1), vec![30, 0xe1, 0x5c, 0x1f]);
    // 3: one digit, end padded with two nibbles
    assert_eq!(decimal(3, 0), vec![30, 0x3f]);
    // 12: two digits then a whole end byte
    assert_eq!(decimal(12, 0), vec![30, 0x12, 0xff]);
    // 0.001234 = 1234E-6
    assert_eq!(decimal(1234, 6), vec![30, 0x12, 0x34, 0xc6, 0xff]);
}

#[test]
fn index_data_verify() {
    let ok = IndexData {
        offsize: 1,
        offsets: vec![1, 2],
        data: vec![7, 8],
    };
    assert_eq!(ok.verify(), Ok(()));
    let bad = IndexData {
        offsize: 1,
        offsets: vec![1, 2, 3],
        data: vec![7, 8],
    };
    assert_eq!(bad.verify(), Err("offsets and data length mismatch"));
}

#[test]
fn instruction_encodings() {
    assert_eq!(TopDictInst::CharStringIndexOffset.encoding(), vec![0x11]);
    assert_eq!(TopDictInst::FontMatrix.encoding(), vec![0x0c, 0x07]);
    assert_eq!(CharStringOps::RMoveTo.encoding(), vec![0x15]);
    assert_eq!(CharStringOps::Flex1.encoding(), vec![0x0c, 0x25]);
}
