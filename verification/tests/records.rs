//! The record layer on its own: single-record decode, the body-field
//! encoder, and the low-level byte packers.

use gds2_io::bytes::{push_be16, push_be32, push_be64, read_u16_at, read_u32_at, read_u64_at};
use gds2_io::codec::decode_record;
use gds2_io::error::DecodeErrorKind;
use gds2_io::model::{GDSIIVariant, FileHeader, ModuleHeader, Tuctosin, TuctosinHeader};
use gds2_io::saver::append_tuctosin_end;

#[test]
fn big_endian_packers_invert_readers() {
    let mut out: Vec<u8> = Vec::new();
    push_be16(&mut out, 0xBEEF);
    push_be32(&mut out, 0xDEAD_F00Du32);
    push_be64(&mut out, 0x0123_4567_89AB_CDEFu64);
    assert_eq!(out[..2], [0xBE, 0xEF]);
    assert_eq!(read_u16_at(&out, 0), 0xBEEF);
    assert_eq!(read_u32_at(&out, 2), 0xDEAD_F00D);
    assert_eq!(read_u64_at(&out, 6), 0x0123_4567_89AB_CDEF);
}

#[test]
fn decode_record_reads_one_record_and_reports_the_next_offset() {
    let b = [0x00u8, 0x06, 0x00, 0x02, 0x00, 0x03, 0xFF];
    let (v, next) = decode_record(&b, 0).unwrap();
    assert_eq!(v, GDSIIVariant::FileHeader(FileHeader::Header(3)));
    assert_eq!(next, 6);
}

#[test]
fn decode_record_at_a_later_offset() {
    let b = [0xAAu8, 0xAA, 0x00, 0x04, 0x04, 0x00];
    let (v, next) = decode_record(&b, 2).unwrap();
    assert_eq!(v, GDSIIVariant::FileEnd);
    assert_eq!(next, 6);
}

#[test]
fn decode_record_classifies_every_group_begin() {
    let tags: [(u8, TuctosinHeader); 7] = [
        (0x08, TuctosinHeader::Boundary),
        (0x09, TuctosinHeader::Path),
        (0x0A, TuctosinHeader::Sref),
        (0x0B, TuctosinHeader::Aref),
        (0x0C, TuctosinHeader::Text),
        (0x15, TuctosinHeader::Node),
        (0x2D, TuctosinHeader::Box),
    ];
    for (hi, kind) in tags {
        let b = [0x00, 0x04, hi, 0x00];
        let (v, _) = decode_record(&b, 0).unwrap();
        assert_eq!(v, GDSIIVariant::TuctosinHeader(kind));
    }
}

#[test]
fn decode_record_reads_module_headers() {
    let mut b: Vec<u8> = vec![0x00, 0x1C, 0x05, 0x02];
    for i in 1i16..=12 {
        b.extend_from_slice(&i.to_be_bytes());
    }
    let (v, _) = decode_record(&b, 0).unwrap();
    assert_eq!(
        v,
        GDSIIVariant::ModuleHeader(ModuleHeader::BgnStr((1i16..=12).collect()))
    );
    let b2 = [0x00u8, 0x06, 0x06, 0x06, 0x58, 0x00];
    let (v2, _) = decode_record(&b2, 0).unwrap();
    assert_eq!(v2, GDSIIVariant::ModuleHeader(ModuleHeader::StrName(b"X".to_vec())));
}

#[test]
fn decode_record_reports_truncation_at_its_offset() {
    let b = [0x00u8, 0x04, 0x04, 0x00];
    let e = decode_record(&b, 2).unwrap_err();
    assert_eq!(e.kind, DecodeErrorKind::Truncated);
    assert_eq!(e.byte_offset, 2);
}

#[test]
fn byted_emits_the_full_record_image() {
    assert_eq!(
        Tuctosin::Layer(1).byted(),
        vec![0x00, 0x06, 0x0D, 0x02, 0x00, 0x01]
    );
    assert_eq!(
        Tuctosin::Width(-2).byted(),
        vec![0x00, 0x08, 0x0F, 0x03, 0xFF, 0xFF, 0xFF, 0xFE]
    );
    assert_eq!(
        Tuctosin::Mag(1).byted(),
        vec![0x00, 0x0C, 0x1B, 0x05, 0, 0, 0, 0, 0, 0, 0, 1]
    );
    assert_eq!(
        Tuctosin::Xy(vec![(1, -1)]).byted(),
        vec![0x00, 0x0C, 0x10, 0x03, 0, 0, 0, 1, 0xFF, 0xFF, 0xFF, 0xFF]
    );
    assert_eq!(
        Tuctosin::Sname(b"A".to_vec()).byted(),
        vec![0x00, 0x06, 0x12, 0x06, 0x41, 0x00]
    );
    assert_eq!(
        Tuctosin::ColRow(2, 3).byted(),
        vec![0x00, 0x08, 0x13, 0x02, 0x00, 0x02, 0x00, 0x03]
    );
}

#[test]
fn byted_records_decode_back() {
    let fields = [
        Tuctosin::ElfFlags(-5),
        Tuctosin::Plex(123456),
        Tuctosin::PathType(2),
        Tuctosin::Strans(1),
        Tuctosin::Angle(-1),
        Tuctosin::TextType(0),
        Tuctosin::Persentation(9),
        Tuctosin::AsciiString(b"HI".to_vec()),
        Tuctosin::NodeType(1),
        Tuctosin::BoxType(4),
    ];
    for f in fields {
        let bytes = f.byted();
        let (v, next) = decode_record(&bytes, 0).unwrap();
        assert_eq!(v, GDSIIVariant::Tuctosin(f));
        assert_eq!(next, bytes.len());
    }
}

#[test]
fn append_tuctosin_end_appends_the_group_end_record() {
    let mut data = vec![0xAAu8];
    append_tuctosin_end(&mut data);
    assert_eq!(data, vec![0xAA, 0x00, 0x04, 0x11, 0x00]);
}

#[test]
fn largest_point_list_roundtrips() {
    // 8191 points: the largest list whose record still fits the 16-bit
    // length field (8 * 8191 + 4 = 65532)
    let pts: Vec<(i32, i32)> = (0..8191).map(|i| (i, -i)).collect();
    let t = Tuctosin::Xy(pts);
    let bytes = t.byted();
    assert_eq!(bytes.len(), 65532);
    let (v, next) = decode_record(&bytes, 0).unwrap();
    assert_eq!(v, GDSIIVariant::Tuctosin(t));
    assert_eq!(next, 65532);
}

#[test]
fn oversize_records_fail_the_well_formedness_check() {
    let mut m = gds2_io::model::GDSIIModel::default();
    m.header.version = Some(3);
    m.header.bgn_lib = Some(vec![0i16; 12]);
    m.header.lib_name = Some(b"L".to_vec());
    m.header.units = Some((0, 0));
    assert!(m.is_well_formed());
    m.s_boundary = vec![Tuctosin::Xy(vec![(0, 0); 8192])];
    assert!(!m.is_well_formed());
    m.s_boundary = vec![Tuctosin::AsciiString(vec![b'a'; 65531])];
    assert!(!m.is_well_formed());
    m.s_boundary = vec![Tuctosin::AsciiString(vec![b'a'; 65530])];
    assert!(m.is_well_formed());
}

#[test]
fn all_padding_text_decodes_to_empty() {
    let b = [0x00u8, 0x08, 0x12, 0x06, 0x00, 0x20, 0x00, 0x00];
    let (v, _) = decode_record(&b, 0).unwrap();
    assert_eq!(v, GDSIIVariant::Tuctosin(Tuctosin::Sname(Vec::new())));
}

#[test]
fn units_words_survive_the_wire() {
    let b = {
        let mut b: Vec<u8> = vec![0x00, 0x14, 0x03, 0x05];
        b.extend_from_slice(&1.5f64.to_bits().to_be_bytes());
        b.extend_from_slice(&(-0.125f64).to_bits().to_be_bytes());
        b
    };
    let (v, _) = decode_record(&b, 0).unwrap();
    match v {
        GDSIIVariant::FileHeader(FileHeader::Units(a, bb)) => {
            assert_eq!(f64::from_bits(a), 1.5);
            assert_eq!(f64::from_bits(bb), -0.125);
        }
        other => panic!("expected a units record, got {:?}", other),
    }
}
