//! Round-trip behaviour of the codec on concrete streams and models.

use gds2_io::error::GDSIIErrorKind;
use gds2_io::model::{FileHeader, GDSIIModel, LibraryHeader, Tuctosin};

/// The wire image of the scenario library: version 3, all-zero begin
/// timestamp, library name "LIB", units 0.001 and 1e-9, one structure
/// "TOP" with one boundary element.
fn scenario_bytes() -> Vec<u8> {
    let mut b: Vec<u8> = Vec::new();
    // HEADER, version 3
    b.extend_from_slice(&[0x00, 0x06, 0x00, 0x02, 0x00, 0x03]);
    // BGNLIB, twelve zero stamps
    b.extend_from_slice(&[0x00, 0x1C, 0x01, 0x02]);
    b.extend_from_slice(&[0u8; 24]);
    // LIBNAME "LIB", NUL-padded to even length
    b.extend_from_slice(&[0x00, 0x08, 0x02, 0x06, 0x4C, 0x49, 0x42, 0x00]);
    // UNITS, two big-endian float64 words
    b.extend_from_slice(&[0x00, 0x14, 0x03, 0x05]);
    b.extend_from_slice(&0.001f64.to_bits().to_be_bytes());
    b.extend_from_slice(&1e-9f64.to_bits().to_be_bytes());
    // BGNSTR, twelve zero stamps
    b.extend_from_slice(&[0x00, 0x1C, 0x05, 0x02]);
    b.extend_from_slice(&[0u8; 24]);
    // STRNAME "TOP", NUL-padded
    b.extend_from_slice(&[0x00, 0x08, 0x06, 0x06, 0x54, 0x4F, 0x50, 0x00]);
    // BOUNDARY
    b.extend_from_slice(&[0x00, 0x04, 0x08, 0x00]);
    // LAYER 1
    b.extend_from_slice(&[0x00, 0x06, 0x0D, 0x02, 0x00, 0x01]);
    // DATATYPE 0
    b.extend_from_slice(&[0x00, 0x06, 0x0E, 0x02, 0x00, 0x00]);
    // XY, five points
    b.extend_from_slice(&[0x00, 0x2C, 0x10, 0x03]);
    for (x, y) in [(0i32, 0i32), (0, 100), (100, 100), (100, 0), (0, 0)] {
        b.extend_from_slice(&x.to_be_bytes());
        b.extend_from_slice(&y.to_be_bytes());
    }
    // ENDEL, ENDSTR, ENDLIB
    b.extend_from_slice(&[0x00, 0x04, 0x11, 0x00]);
    b.extend_from_slice(&[0x00, 0x04, 0x07, 0x00]);
    b.extend_from_slice(&[0x00, 0x04, 0x04, 0x00]);
    b
}

/// The scenario library as an in-memory model.
fn scenario_model() -> GDSIIModel {
    let mut m = GDSIIModel::default();
    m.header.version = Some(3);
    m.header.bgn_lib = Some(vec![0i16; 12]);
    m.header.lib_name = Some(b"LIB".to_vec());
    m.header.units = Some((0.001f64.to_bits(), 1e-9f64.to_bits()));
    m.structure_name = b"TOP".to_vec();
    m.s_boundary = vec![
        Tuctosin::Layer(1),
        Tuctosin::DataType(0),
        Tuctosin::Xy(vec![(0, 0), (0, 100), (100, 100), (100, 0), (0, 0)]),
    ];
    m
}

#[test]
fn scenario_encode_then_decode() {
    let m = scenario_model();
    assert!(m.is_well_formed());
    let bytes = m.save_gds2().unwrap();
    let back = gds2_io::parser::gds2_parser(&bytes).unwrap();
    assert_eq!(back.structure_name, b"TOP".to_vec());
    assert_eq!(back.s_boundary.len(), 3);
    match &back.s_boundary[2] {
        Tuctosin::Xy(pts) => {
            assert_eq!(pts, &vec![(0, 0), (0, 100), (100, 100), (100, 0), (0, 0)]);
        }
        other => panic!("expected a point list, got {:?}", other),
    }
    assert_eq!(back, m);
}

#[test]
fn scenario_bytes_decode_to_model() {
    let m = gds2_io::parser::gds2_parser(&scenario_bytes()).unwrap();
    assert_eq!(m, scenario_model());
}

#[test]
fn scenario_model_encodes_to_bytes() {
    let out = scenario_model().save_gds2().unwrap();
    assert_eq!(out, scenario_bytes());
}

#[test]
fn reencoding_a_decoded_stream_is_stable() {
    let first = gds2_io::parser::gds2_parser(&scenario_bytes()).unwrap();
    let bytes1 = first.save_gds2().unwrap();
    let second = gds2_io::parser::gds2_parser(&bytes1).unwrap();
    assert_eq!(second, first);
    let bytes2 = second.save_gds2().unwrap();
    assert_eq!(bytes2, bytes1);
}

#[test]
fn roundtrip_with_every_header_field_and_group() {
    let mut m = GDSIIModel::default();
    m.header.version = Some(600);
    m.header.bgn_lib = Some((1i16..=12).collect());
    m.header.lib_name = Some(b"ALL".to_vec());
    m.header.units = Some((0.25f64.to_bits(), 2.5e-10f64.to_bits()));
    m.header.ref_libs = Some(b"REFA".to_vec());
    m.header.fonts = Some(b"FONTS".to_vec());
    m.header.attr_table = Some(b"ATTRS".to_vec());
    m.header.generations = Some(3);
    m.header.format = Some(1);
    m.header.mask = Some(b"M1".to_vec());
    m.header.end_mask = true;
    m.structure_time = vec![2024, 1, 2, 3, 4, 5, 2024, 1, 2, 3, 4, 6];
    m.structure_name = b"CELL".to_vec();
    m.s_boundary = vec![
        Tuctosin::ElfFlags(-1),
        Tuctosin::Plex(-70000),
        Tuctosin::Layer(7),
        Tuctosin::DataType(2),
        Tuctosin::Xy(vec![(-1, 1), (i32::MIN, i32::MAX)]),
    ];
    m.s_path = vec![
        Tuctosin::PathType(1),
        Tuctosin::Width(-400),
        Tuctosin::Xy(vec![(5, 6)]),
    ];
    m.s_sref = vec![
        Tuctosin::Sname(b"SUB".to_vec()),
        Tuctosin::Strans(-32768),
        Tuctosin::Mag(i64::MIN),
        Tuctosin::Angle(i64::MAX),
    ];
    m.s_aref = vec![Tuctosin::ColRow(4, 9)];
    m.s_text = vec![
        Tuctosin::TextType(1),
        Tuctosin::Persentation(5),
        Tuctosin::AsciiString(b"HELLO".to_vec()),
    ];
    m.s_node = vec![Tuctosin::NodeType(2)];
    m.s_box = vec![Tuctosin::BoxType(3)];
    assert!(m.is_well_formed());
    let bytes = m.save_gds2().unwrap();
    let back = gds2_io::parser::gds2_parser(&bytes).unwrap();
    assert_eq!(back, m);
}

#[test]
fn duplicate_header_key_last_write_wins() {
    let mut b: Vec<u8> = Vec::new();
    b.extend_from_slice(&[0x00, 0x06, 0x00, 0x02, 0x00, 0x03]);
    b.extend_from_slice(&[0x00, 0x06, 0x00, 0x02, 0x00, 0x05]);
    b.extend_from_slice(&[0x00, 0x04, 0x04, 0x00]);
    let m = gds2_io::parser::gds2_parser(&b).unwrap();
    assert_eq!(m.header.version, Some(5));
}

#[test]
fn trailing_bytes_after_terminal_are_ignored() {
    let mut b: Vec<u8> = Vec::new();
    b.extend_from_slice(&[0x00, 0x04, 0x04, 0x00]);
    b.push(0x00); // even-byte padding after the terminal record
    let m = gds2_io::parser::gds2_parser(&b).unwrap();
    assert_eq!(m, GDSIIModel::default());
}

#[test]
fn text_padding_is_trimmed_on_decode() {
    let mut b: Vec<u8> = Vec::new();
    // LIBNAME "AB \0" : trailing space and NUL are both padding
    b.extend_from_slice(&[0x00, 0x08, 0x02, 0x06, 0x41, 0x42, 0x20, 0x00]);
    b.extend_from_slice(&[0x00, 0x04, 0x04, 0x00]);
    let m = gds2_io::parser::gds2_parser(&b).unwrap();
    assert_eq!(m.header.lib_name, Some(b"AB".to_vec()));
}

#[test]
fn odd_length_text_is_padded_with_nul() {
    let mut m = GDSIIModel::default();
    m.header.version = Some(3);
    m.header.bgn_lib = Some(vec![0i16; 12]);
    m.header.lib_name = Some(b"A".to_vec());
    m.header.units = Some((0.001f64.to_bits(), 1e-9f64.to_bits()));
    let bytes = m.save_gds2().unwrap();
    // the LIBNAME record: total 6, tag 0x0206, payload "A\0"
    assert_eq!(&bytes[34..40], &[0x00, 0x06, 0x02, 0x06, 0x41, 0x00]);
    let back = gds2_io::parser::gds2_parser(&bytes).unwrap();
    assert_eq!(back.header.lib_name, Some(b"A".to_vec()));
}

#[test]
fn strans_record_keeps_its_own_field() {
    let mut b: Vec<u8> = Vec::new();
    b.extend_from_slice(&[0x00, 0x04, 0x0A, 0x00]); // SREF group begin
    b.extend_from_slice(&[0x00, 0x06, 0x1A, 0x01, 0x80, 0x00]); // STRANS
    b.extend_from_slice(&[0x00, 0x04, 0x11, 0x00]);
    b.extend_from_slice(&[0x00, 0x04, 0x04, 0x00]);
    let m = gds2_io::parser::gds2_parser(&b).unwrap();
    assert_eq!(m.s_sref, vec![Tuctosin::Strans(-32768)]);
}

#[test]
fn colrow_record_reads_both_counts() {
    let mut b: Vec<u8> = Vec::new();
    b.extend_from_slice(&[0x00, 0x04, 0x0B, 0x00]); // AREF group begin
    b.extend_from_slice(&[0x00, 0x08, 0x13, 0x02, 0x00, 0x02, 0x00, 0x03]);
    b.extend_from_slice(&[0x00, 0x04, 0x11, 0x00]);
    b.extend_from_slice(&[0x00, 0x04, 0x04, 0x00]);
    let m = gds2_io::parser::gds2_parser(&b).unwrap();
    assert_eq!(m.s_aref, vec![Tuctosin::ColRow(2, 3)]);
}

#[test]
fn header_helpers_report_their_keys() {
    assert_eq!(FileHeader::Header(3).get_tag(), "head");
    assert_eq!(FileHeader::BgnLib(vec![0; 12]).get_tag(), "bgn");
    assert_eq!(FileHeader::LibName(b"X".to_vec()).get_tag(), "libname");
    assert_eq!(FileHeader::Units(0, 0).get_tag(), "unit");
    assert_eq!(FileHeader::EndMask.get_tag(), "endmask");
}

#[test]
fn default_model_is_empty() {
    let m = GDSIIModel::default();
    assert_eq!(m.header, LibraryHeader::default());
    assert_eq!(m.structure_time, vec![0i16; 12]);
    assert!(m.structure_name.is_empty());
    assert!(m.s_boundary.is_empty());
    assert!(m.s_box.is_empty());
    assert!(m.is_well_formed());
}

#[test]
fn encode_decode_err_is_never_partial() {
    // a stream that fails midway returns no model at all
    let mut b = scenario_bytes();
    b.truncate(b.len() - 4); // drop the terminal record
    match gds2_io::parser::gds2_parser(&b) {
        Err(GDSIIErrorKind::InvalidGDSII(_)) => {}
        other => panic!("expected a decode error, got {:?}", other),
    }
}
