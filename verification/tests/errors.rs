//! Every malformed input yields one typed, terminal error — never a
//! crash, never a partial model.

use gds2_io::error::{DecodeError, DecodeErrorKind, EncodeError, GDSIIErrorKind, HeaderKey};
use gds2_io::model::GDSIIModel;

fn decode_err(bytes: &[u8]) -> DecodeError {
    match gds2_io::parser::gds2_parser(bytes) {
        Err(GDSIIErrorKind::InvalidGDSII(d)) => d,
        other => panic!("expected a decode error, got {:?}", other),
    }
}

#[test]
fn length_below_four_is_rejected() {
    // length field 3: below the 4-byte record header, so malformed —
    // not an end-of-stream signal
    let e = decode_err(&[0x00, 0x03, 0x00, 0x02]);
    assert_eq!(e.kind, DecodeErrorKind::BadLength);
    assert_eq!(e.tag, 0x0002);
    assert_eq!(e.byte_offset, 0);
}

#[test]
fn length_zero_is_rejected() {
    let e = decode_err(&[0x00, 0x00, 0x04, 0x00]);
    assert_eq!(e.kind, DecodeErrorKind::BadLength);
}

#[test]
fn unknown_tag_is_rejected() {
    let e = decode_err(&[0x00, 0x04, 0xAB, 0xCD]);
    assert_eq!(e.kind, DecodeErrorKind::UnknownTag);
    assert_eq!(e.tag, 0xABCD);
    assert_eq!(e.byte_offset, 0);
}

#[test]
fn point_list_length_not_multiple_of_eight_is_rejected() {
    let mut b: Vec<u8> = Vec::new();
    b.extend_from_slice(&[0x00, 0x04, 0x08, 0x00]); // BOUNDARY
    b.extend_from_slice(&[0x00, 0x10, 0x10, 0x03]); // XY with 12 payload bytes
    b.extend_from_slice(&[0u8; 12]);
    let e = decode_err(&b);
    assert_eq!(e.kind, DecodeErrorKind::BadPointListLength { actual: 12 });
    assert_eq!(e.tag, 0x1003);
    assert_eq!(e.byte_offset, 4);
}

#[test]
fn empty_point_list_is_rejected() {
    let mut b: Vec<u8> = Vec::new();
    b.extend_from_slice(&[0x00, 0x04, 0x08, 0x00]);
    b.extend_from_slice(&[0x00, 0x04, 0x10, 0x03]); // XY with no payload
    let e = decode_err(&b);
    assert_eq!(e.kind, DecodeErrorKind::BadPointListLength { actual: 0 });
}

#[test]
fn body_field_before_any_group_is_rejected() {
    // a LAYER record with no element-group-begin before it
    let e = decode_err(&[0x00, 0x06, 0x0D, 0x02, 0x00, 0x01]);
    assert_eq!(e.kind, DecodeErrorKind::FieldOutsideGroup);
    assert_eq!(e.tag, 0x0D02);
    assert_eq!(e.byte_offset, 0);
}

#[test]
fn body_field_after_group_end_is_rejected() {
    let mut b: Vec<u8> = Vec::new();
    b.extend_from_slice(&[0x00, 0x04, 0x08, 0x00]); // BOUNDARY
    b.extend_from_slice(&[0x00, 0x06, 0x0D, 0x02, 0x00, 0x01]); // LAYER, fine
    b.extend_from_slice(&[0x00, 0x04, 0x11, 0x00]); // ENDEL clears the group
    b.extend_from_slice(&[0x00, 0x06, 0x0E, 0x02, 0x00, 0x00]); // DATATYPE, outside
    let e = decode_err(&b);
    assert_eq!(e.kind, DecodeErrorKind::FieldOutsideGroup);
    assert_eq!(e.byte_offset, 14);
}

#[test]
fn truncated_header_is_rejected() {
    let e = decode_err(&[0x00]);
    assert_eq!(e.kind, DecodeErrorKind::Truncated);
    assert_eq!(e.byte_offset, 0);
}

#[test]
fn empty_stream_is_rejected() {
    let e = decode_err(&[]);
    assert_eq!(e.kind, DecodeErrorKind::Truncated);
}

#[test]
fn truncated_payload_is_rejected() {
    // HEADER claims 6 bytes total but only 5 are present
    let e = decode_err(&[0x00, 0x06, 0x00, 0x02, 0x00]);
    assert_eq!(e.kind, DecodeErrorKind::Truncated);
    assert_eq!(e.tag, 0x0002);
}

#[test]
fn missing_terminal_record_is_rejected() {
    let e = decode_err(&[0x00, 0x06, 0x00, 0x02, 0x00, 0x03]);
    assert_eq!(e.kind, DecodeErrorKind::Truncated);
    assert_eq!(e.byte_offset, 6);
}

#[test]
fn fixed_size_mismatch_is_rejected_with_expected_and_actual() {
    // HEADER with a 4-byte payload instead of 2
    let e = decode_err(&[0x00, 0x08, 0x00, 0x02, 0x00, 0x00, 0x00, 0x00]);
    assert_eq!(
        e.kind,
        DecodeErrorKind::SizeMismatch { expected: 2, actual: 4 }
    );
    assert_eq!(e.tag, 0x0002);
}

#[test]
fn void_record_with_payload_is_rejected() {
    // ENDEL must carry no payload
    let mut b: Vec<u8> = Vec::new();
    b.extend_from_slice(&[0x00, 0x04, 0x08, 0x00]);
    b.extend_from_slice(&[0x00, 0x06, 0x11, 0x00, 0x00, 0x00]);
    let e = decode_err(&b);
    assert_eq!(
        e.kind,
        DecodeErrorKind::SizeMismatch { expected: 0, actual: 2 }
    );
}

#[test]
fn timestamp_with_wrong_size_is_rejected() {
    // BGNLIB with 22 payload bytes instead of 24
    let mut b: Vec<u8> = Vec::new();
    b.extend_from_slice(&[0x00, 0x1A, 0x01, 0x02]);
    b.extend_from_slice(&[0u8; 22]);
    let e = decode_err(&b);
    assert_eq!(
        e.kind,
        DecodeErrorKind::SizeMismatch { expected: 24, actual: 22 }
    );
}

#[test]
fn units_with_wrong_size_is_rejected() {
    let mut b: Vec<u8> = Vec::new();
    b.extend_from_slice(&[0x00, 0x0C, 0x03, 0x05]);
    b.extend_from_slice(&[0u8; 8]);
    let e = decode_err(&b);
    assert_eq!(
        e.kind,
        DecodeErrorKind::SizeMismatch { expected: 16, actual: 8 }
    );
}

fn complete_model() -> GDSIIModel {
    let mut m = GDSIIModel::default();
    m.header.version = Some(3);
    m.header.bgn_lib = Some(vec![0i16; 12]);
    m.header.lib_name = Some(b"LIB".to_vec());
    m.header.units = Some((0.001f64.to_bits(), 1e-9f64.to_bits()));
    m
}

#[test]
fn encoding_without_units_fails_with_missing_units() {
    let mut m = complete_model();
    m.header.units = None;
    match m.save_gds2() {
        Err(GDSIIErrorKind::EncodeFailed(EncodeError { missing_field })) => {
            assert_eq!(missing_field, HeaderKey::Units);
        }
        other => panic!("expected an encode error, got {:?}", other),
    }
}

#[test]
fn encoding_without_version_fails_with_missing_version() {
    let mut m = complete_model();
    m.header.version = None;
    assert_eq!(
        m.save_gds2(),
        Err(GDSIIErrorKind::EncodeFailed(EncodeError {
            missing_field: HeaderKey::Version
        }))
    );
}

#[test]
fn encoding_without_timestamp_fails_with_missing_timestamp() {
    let mut m = complete_model();
    m.header.bgn_lib = None;
    assert_eq!(
        m.save_gds2(),
        Err(GDSIIErrorKind::EncodeFailed(EncodeError {
            missing_field: HeaderKey::BgnLib
        }))
    );
}

#[test]
fn encoding_without_library_name_fails_with_missing_name() {
    let mut m = complete_model();
    m.header.lib_name = None;
    assert_eq!(
        m.save_gds2(),
        Err(GDSIIErrorKind::EncodeFailed(EncodeError {
            missing_field: HeaderKey::LibName
        }))
    );
}

#[test]
fn maximal_odd_text_decodes_but_cannot_reencode() {
    // a name record at the largest possible length, 0xFFFF, with an odd
    // 65531-byte payload that trims to nothing shorter: it decodes, but
    // its padded re-encoding would need a 17-bit length field, so the
    // decoded model fails the encoder's machine-limit check
    let mut b: Vec<u8> = vec![0x00, 0x04, 0x0A, 0x00]; // SREF group begin
    b.extend_from_slice(&[0xFF, 0xFF, 0x12, 0x06]); // SNAME, total length 0xFFFF
    b.extend(std::iter::repeat(b'a').take(65531));
    b.extend_from_slice(&[0x00, 0x04, 0x11, 0x00]);
    b.extend_from_slice(&[0x00, 0x04, 0x04, 0x00]);
    let m = gds2_io::parser::gds2_parser(&b).unwrap();
    assert_eq!(m.s_sref.len(), 1);
    assert!(!m.is_well_formed());
}

#[test]
fn well_formedness_check_flags_bad_models() {
    let mut m = complete_model();
    assert!(m.is_well_formed());
    m.structure_time = vec![0i16; 11];
    assert!(!m.is_well_formed());
    let mut m2 = complete_model();
    m2.s_boundary = vec![gds2_io::model::Tuctosin::Xy(vec![])];
    assert!(!m2.is_well_formed());
    let mut m3 = complete_model();
    m3.header.bgn_lib = Some(vec![0i16; 13]);
    assert!(!m3.is_well_formed());
}
