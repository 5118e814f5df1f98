//! The record codec: the single source of truth for every record's wire
//! layout, shared by the decoder and the encoder.
//!
//! A record is one TLV unit: a 2-byte big-endian total length `L`
//! (including this 4-byte header), a 2-byte tag, and `L - 4` payload
//! bytes.  `spec_parse_rec` is the mathematical decoder of one record,
//! `rec_bytes` the mathematical encoder; `decode_record` is the
//! executable decoder, proved to agree with `spec_parse_rec` exactly,
//! error for error.

use vstd::prelude::*;

use crate::bytes::{be_bytes, be_val, read_u16_at, read_u32_at, read_u64_at};
use crate::error::{DecodeError, DecodeErrorKind};
use crate::model::{FileHeader, FileHeaderV, GDSIIVariant, ModuleHeader, ModuleHeaderV, RecordV,
    Tuctosin, TuctosinHeader, TuctosinV};

verus! {

// ---------------------------------------------------------------------
// Wire images of the primitive payload shapes.
// ---------------------------------------------------------------------

/// The two wire bytes of a signed 16-bit value.
pub open spec fn i16_bytes(v: i16) -> Seq<u8> {
    be_bytes((v as u16) as int, 2)
}

/// The four wire bytes of a signed 32-bit value.
pub open spec fn i32_bytes(v: i32) -> Seq<u8> {
    be_bytes((v as u32) as int, 4)
}

/// The eight wire bytes of a signed 64-bit value.
pub open spec fn i64_bytes(v: i64) -> Seq<u8> {
    be_bytes((v as u64) as int, 8)
}

/// The eight wire bytes of a raw 64-bit word.
pub open spec fn u64_bytes(v: u64) -> Seq<u8> {
    be_bytes(v as int, 8)
}

/// The wire image of a run of 16-bit values.
pub open spec fn i16s_bytes(vs: Seq<i16>) -> Seq<u8>
    decreases vs.len(),
{
    if vs.len() == 0 {
        Seq::empty()
    } else {
        i16_bytes(vs[0]) + i16s_bytes(vs.drop_first())
    }
}

/// The eight wire bytes of one (x, y) point.
pub open spec fn pair_bytes(p: (i32, i32)) -> Seq<u8> {
    i32_bytes(p.0) + i32_bytes(p.1)
}

/// The wire image of a point list.
pub open spec fn points_bytes(ps: Seq<(i32, i32)>) -> Seq<u8>
    decreases ps.len(),
{
    if ps.len() == 0 {
        Seq::empty()
    } else {
        pair_bytes(ps[0]) + points_bytes(ps.drop_first())
    }
}

/// The wire image of a text payload: NUL-padded to an even length.
pub open spec fn text_bytes(s: Seq<u8>) -> Seq<u8> {
    if s.len() % 2 == 0 {
        s
    } else {
        s.push(0)
    }
}

// ---------------------------------------------------------------------
// Wire values of the primitive payload shapes.
// ---------------------------------------------------------------------

/// The unsigned 16-bit value of two wire bytes.
pub open spec fn be_u16v(b: Seq<u8>) -> u16 {
    be_val(b) as u16
}

/// The signed 16-bit value of two wire bytes.
pub open spec fn be_i16v(b: Seq<u8>) -> i16 {
    (be_val(b) as u16) as i16
}

/// The signed 32-bit value of four wire bytes.
pub open spec fn be_i32v(b: Seq<u8>) -> i32 {
    (be_val(b) as u32) as i32
}

/// The signed 64-bit value of eight wire bytes.
pub open spec fn be_i64v(b: Seq<u8>) -> i64 {
    (be_val(b) as u64) as i64
}

/// The raw 64-bit word of eight wire bytes.
pub open spec fn be_u64v(b: Seq<u8>) -> u64 {
    be_val(b) as u64
}

/// The 16-bit values packed in a payload, in order.
pub open spec fn i16s_of(p: Seq<u8>) -> Seq<i16> {
    Seq::new(p.len() / 2, |i: int| be_i16v(p.subrange(2 * i, 2 * i + 2)))
}

/// The (x, y) points packed in a payload, in order.
pub open spec fn points_of(p: Seq<u8>) -> Seq<(i32, i32)> {
    Seq::new(
        p.len() / 8,
        |i: int| (be_i32v(p.subrange(8 * i, 8 * i + 4)), be_i32v(p.subrange(8 * i + 4, 8 * i + 8))),
    )
}

/// A text payload with its trailing NUL and space padding removed.
pub open spec fn trim_pad(s: Seq<u8>) -> Seq<u8>
    decreases s.len(),
{
    if s.len() > 0 && (s.last() == 0 || s.last() == 32) {
        trim_pad(s.drop_last())
    } else {
        s
    }
}

/// Holds when a byte string carries no trailing padding of its own, so
/// that decoding its padded wire image gives it back unchanged.
pub open spec fn no_pad_end(s: Seq<u8>) -> bool {
    s.len() == 0 || (s.last() != 0 && s.last() != 32)
}

// ---------------------------------------------------------------------
// The closed tag table.
// ---------------------------------------------------------------------

/// The wire tag of a library header record.
pub open spec fn file_header_tag(h: FileHeaderV) -> u16 {
    match h {
        FileHeaderV::Header(_) => 0x0002,
        FileHeaderV::BgnLib(_) => 0x0102,
        FileHeaderV::LibName(_) => 0x0206,
        FileHeaderV::RefLibs(_) => 0x1F06,
        FileHeaderV::Fonts(_) => 0x2006,
        FileHeaderV::AttrTable(_) => 0x2306,
        FileHeaderV::Generations(_) => 0x2202,
        FileHeaderV::Format(_) => 0x3602,
        FileHeaderV::Mask(_) => 0x3706,
        FileHeaderV::EndMask => 0x3800,
        FileHeaderV::Units(_, _) => 0x0305,
    }
}

/// The wire tag of a structure header record.
pub open spec fn module_header_tag(m: ModuleHeaderV) -> u16 {
    match m {
        ModuleHeaderV::BgnStr(_) => 0x0502,
        ModuleHeaderV::StrName(_) => 0x0606,
    }
}

/// The wire tag of an element-group-begin record.
pub open spec fn group_tag(k: TuctosinHeader) -> u16 {
    match k {
        TuctosinHeader::Boundary => 0x0800,
        TuctosinHeader::Path => 0x0900,
        TuctosinHeader::Sref => 0x0A00,
        TuctosinHeader::Aref => 0x0B00,
        TuctosinHeader::Text => 0x0C00,
        TuctosinHeader::Node => 0x1500,
        TuctosinHeader::Box => 0x2D00,
    }
}

/// The wire tag of a body-field record.
pub open spec fn toc_tag(t: TuctosinV) -> u16 {
    match t {
        TuctosinV::ElfFlags(_) => 0x2601,
        TuctosinV::Plex(_) => 0x2F03,
        TuctosinV::Layer(_) => 0x0D02,
        TuctosinV::DataType(_) => 0x0E02,
        TuctosinV::Xy(_) => 0x1003,
        TuctosinV::PathType(_) => 0x2102,
        TuctosinV::Width(_) => 0x0F03,
        TuctosinV::Sname(_) => 0x1206,
        TuctosinV::Strans(_) => 0x1A01,
        TuctosinV::Mag(_) => 0x1B05,
        TuctosinV::Angle(_) => 0x1C05,
        TuctosinV::ColRow(_, _) => 0x1302,
        TuctosinV::TextType(_) => 0x1602,
        TuctosinV::Persentation(_) => 0x1701,
        TuctosinV::AsciiString(_) => 0x1906,
        TuctosinV::NodeType(_) => 0x2A02,
        TuctosinV::BoxType(_) => 0x2E02,
    }
}

/// The wire tag of any record.
pub open spec fn rec_tag(r: RecordV) -> u16 {
    match r {
        RecordV::FileHeader(h) => file_header_tag(h),
        RecordV::ModuleHeader(m) => module_header_tag(m),
        RecordV::TuctosinHeader(k) => group_tag(k),
        RecordV::Tuctosin(t) => toc_tag(t),
        RecordV::TuctosinEnd => 0x1100,
        RecordV::ModuleEnd => 0x0700,
        RecordV::FileEnd => 0x0400,
    }
}

/// Holds when a tag code is in the closed record table.
pub open spec fn known_tag(tag: u16) -> bool {
    ||| tag == 0x0002 ||| tag == 0x0102 ||| tag == 0x0206 ||| tag == 0x1F06
    ||| tag == 0x2006 ||| tag == 0x2306 ||| tag == 0x2202 ||| tag == 0x3602
    ||| tag == 0x3706 ||| tag == 0x3800 ||| tag == 0x0305 ||| tag == 0x0400
    ||| tag == 0x0502 ||| tag == 0x0606 ||| tag == 0x0700 ||| tag == 0x0800
    ||| tag == 0x0900 ||| tag == 0x0A00 ||| tag == 0x0B00 ||| tag == 0x0C00
    ||| tag == 0x1500 ||| tag == 0x2D00 ||| tag == 0x1100 ||| tag == 0x2601
    ||| tag == 0x2F03 ||| tag == 0x0D02 ||| tag == 0x0E02 ||| tag == 0x1003
    ||| tag == 0x2102 ||| tag == 0x0F03 ||| tag == 0x1206 ||| tag == 0x1A01
    ||| tag == 0x1B05 ||| tag == 0x1C05 ||| tag == 0x1302 ||| tag == 0x1602
    ||| tag == 0x1701 ||| tag == 0x1906 ||| tag == 0x2A02 ||| tag == 0x2E02
}

// ---------------------------------------------------------------------
// The mathematical encoder of one record.
// ---------------------------------------------------------------------

/// The payload bytes of a library header record.
pub open spec fn file_header_payload(h: FileHeaderV) -> Seq<u8> {
    match h {
        FileHeaderV::Header(v) => i16_bytes(v),
        FileHeaderV::BgnLib(t) => i16s_bytes(t),
        FileHeaderV::LibName(s) => text_bytes(s),
        FileHeaderV::RefLibs(s) => text_bytes(s),
        FileHeaderV::Fonts(s) => text_bytes(s),
        FileHeaderV::AttrTable(s) => text_bytes(s),
        FileHeaderV::Generations(v) => i16_bytes(v),
        FileHeaderV::Format(v) => i16_bytes(v),
        FileHeaderV::Mask(s) => text_bytes(s),
        FileHeaderV::EndMask => Seq::empty(),
        FileHeaderV::Units(a, b) => u64_bytes(a) + u64_bytes(b),
    }
}

/// The payload bytes of a structure header record.
pub open spec fn module_header_payload(m: ModuleHeaderV) -> Seq<u8> {
    match m {
        ModuleHeaderV::BgnStr(t) => i16s_bytes(t),
        ModuleHeaderV::StrName(s) => text_bytes(s),
    }
}

/// The payload bytes of a body-field record.
pub open spec fn toc_payload(t: TuctosinV) -> Seq<u8> {
    match t {
        TuctosinV::ElfFlags(v) => i16_bytes(v),
        TuctosinV::Plex(v) => i32_bytes(v),
        TuctosinV::Layer(v) => i16_bytes(v),
        TuctosinV::DataType(v) => i16_bytes(v),
        TuctosinV::Xy(ps) => points_bytes(ps),
        TuctosinV::PathType(v) => i16_bytes(v),
        TuctosinV::Width(v) => i32_bytes(v),
        TuctosinV::Sname(s) => text_bytes(s),
        TuctosinV::Strans(v) => i16_bytes(v),
        TuctosinV::Mag(v) => i64_bytes(v),
        TuctosinV::Angle(v) => i64_bytes(v),
        TuctosinV::ColRow(c, r) => i16_bytes(c) + i16_bytes(r),
        TuctosinV::TextType(v) => i16_bytes(v),
        TuctosinV::Persentation(v) => i16_bytes(v),
        TuctosinV::AsciiString(s) => text_bytes(s),
        TuctosinV::NodeType(v) => i16_bytes(v),
        TuctosinV::BoxType(v) => i16_bytes(v),
    }
}

/// The payload bytes of any record.
pub open spec fn rec_payload(r: RecordV) -> Seq<u8> {
    match r {
        RecordV::FileHeader(h) => file_header_payload(h),
        RecordV::ModuleHeader(m) => module_header_payload(m),
        RecordV::TuctosinHeader(_) => Seq::empty(),
        RecordV::Tuctosin(t) => toc_payload(t),
        RecordV::TuctosinEnd => Seq::empty(),
        RecordV::ModuleEnd => Seq::empty(),
        RecordV::FileEnd => Seq::empty(),
    }
}

/// The full wire image of one record: length, tag, payload.
pub open spec fn rec_bytes(r: RecordV) -> Seq<u8> {
    be_bytes(rec_payload(r).len() as int + 4, 2) + be_bytes(rec_tag(r) as int, 2) + rec_payload(r)
}

/// Machine limits on one record: the payload together with the 4-byte
/// record header fits the 16-bit length field, timestamps hold exactly
/// 12 stamps, and a point list is never empty.
pub open spec fn rec_wf(r: RecordV) -> bool {
    &&& rec_payload(r).len() + 4 <= 0xFFFF
    &&& match r {
        RecordV::FileHeader(FileHeaderV::BgnLib(t)) => t.len() == 12,
        RecordV::ModuleHeader(ModuleHeaderV::BgnStr(t)) => t.len() == 12,
        RecordV::Tuctosin(TuctosinV::Xy(ps)) => ps.len() >= 1,
        _ => true,
    }
}

/// Holds when a record's text payload carries no trailing padding, so
/// that decoding its wire image gives the record back unchanged.
pub open spec fn rec_canonical(r: RecordV) -> bool {
    match r {
        RecordV::FileHeader(FileHeaderV::LibName(s)) => no_pad_end(s),
        RecordV::FileHeader(FileHeaderV::RefLibs(s)) => no_pad_end(s),
        RecordV::FileHeader(FileHeaderV::Fonts(s)) => no_pad_end(s),
        RecordV::FileHeader(FileHeaderV::AttrTable(s)) => no_pad_end(s),
        RecordV::FileHeader(FileHeaderV::Mask(s)) => no_pad_end(s),
        RecordV::ModuleHeader(ModuleHeaderV::StrName(s)) => no_pad_end(s),
        RecordV::Tuctosin(TuctosinV::Sname(s)) => no_pad_end(s),
        RecordV::Tuctosin(TuctosinV::AsciiString(s)) => no_pad_end(s),
        _ => true,
    }
}

// ---------------------------------------------------------------------
// The mathematical decoder of one record.
// ---------------------------------------------------------------------

/// The size-mismatch failure for a fixed-size payload.
pub open spec fn size_err(tag: u16, expected: int, p: Seq<u8>, pos: int) -> Result<
    RecordV,
    DecodeError,
> {
    Err(
        DecodeError {
            kind: DecodeErrorKind::SizeMismatch {
                expected: expected as usize,
                actual: p.len() as usize,
            },
            tag,
            byte_offset: pos as usize,
        },
    )
}

/// Dispatches a payload through the closed tag table.
pub open spec fn spec_parse_payload(tag: u16, p: Seq<u8>, pos: int) -> Result<
    RecordV,
    DecodeError,
> {
    if tag == 0x0002 {
        if p.len() == 2 { Ok(RecordV::FileHeader(FileHeaderV::Header(be_i16v(p)))) }
        else { size_err(tag, 2, p, pos) }
    } else if tag == 0x0102 {
        if p.len() == 24 { Ok(RecordV::FileHeader(FileHeaderV::BgnLib(i16s_of(p)))) }
        else { size_err(tag, 24, p, pos) }
    } else if tag == 0x0206 {
        Ok(RecordV::FileHeader(FileHeaderV::LibName(trim_pad(p))))
    } else if tag == 0x1F06 {
        Ok(RecordV::FileHeader(FileHeaderV::RefLibs(trim_pad(p))))
    } else if tag == 0x2006 {
        Ok(RecordV::FileHeader(FileHeaderV::Fonts(trim_pad(p))))
    } else if tag == 0x2306 {
        Ok(RecordV::FileHeader(FileHeaderV::AttrTable(trim_pad(p))))
    } else if tag == 0x2202 {
        if p.len() == 2 { Ok(RecordV::FileHeader(FileHeaderV::Generations(be_i16v(p)))) }
        else { size_err(tag, 2, p, pos) }
    } else if tag == 0x3602 {
        if p.len() == 2 { Ok(RecordV::FileHeader(FileHeaderV::Format(be_i16v(p)))) }
        else { size_err(tag, 2, p, pos) }
    } else if tag == 0x3706 {
        Ok(RecordV::FileHeader(FileHeaderV::Mask(trim_pad(p))))
    } else if tag == 0x3800 {
        if p.len() == 0 { Ok(RecordV::FileHeader(FileHeaderV::EndMask)) }
        else { size_err(tag, 0, p, pos) }
    } else if tag == 0x0305 {
        if p.len() == 16 {
            Ok(RecordV::FileHeader(FileHeaderV::Units(
                be_u64v(p.subrange(0, 8)),
                be_u64v(p.subrange(8, 16)),
            )))
        } else { size_err(tag, 16, p, pos) }
    } else if tag == 0x0400 {
        if p.len() == 0 { Ok(RecordV::FileEnd) } else { size_err(tag, 0, p, pos) }
    } else if tag == 0x0502 {
        if p.len() == 24 { Ok(RecordV::ModuleHeader(ModuleHeaderV::BgnStr(i16s_of(p)))) }
        else { size_err(tag, 24, p, pos) }
    } else if tag == 0x0606 {
        Ok(RecordV::ModuleHeader(ModuleHeaderV::StrName(trim_pad(p))))
    } else if tag == 0x0700 {
        if p.len() == 0 { Ok(RecordV::ModuleEnd) } else { size_err(tag, 0, p, pos) }
    } else if tag == 0x0800 {
        if p.len() == 0 { Ok(RecordV::TuctosinHeader(TuctosinHeader::Boundary)) }
        else { size_err(tag, 0, p, pos) }
    } else if tag == 0x0900 {
        if p.len() == 0 { Ok(RecordV::TuctosinHeader(TuctosinHeader::Path)) }
        else { size_err(tag, 0, p, pos) }
    } else if tag == 0x0A00 {
        if p.len() == 0 { Ok(RecordV::TuctosinHeader(TuctosinHeader::Sref)) }
        else { size_err(tag, 0, p, pos) }
    } else if tag == 0x0B00 {
        if p.len() == 0 { Ok(RecordV::TuctosinHeader(TuctosinHeader::Aref)) }
        else { size_err(tag, 0, p, pos) }
    } else if tag == 0x0C00 {
        if p.len() == 0 { Ok(RecordV::TuctosinHeader(TuctosinHeader::Text)) }
        else { size_err(tag, 0, p, pos) }
    } else if tag == 0x1500 {
        if p.len() == 0 { Ok(RecordV::TuctosinHeader(TuctosinHeader::Node)) }
        else { size_err(tag, 0, p, pos) }
    } else if tag == 0x2D00 {
        if p.len() == 0 { Ok(RecordV::TuctosinHeader(TuctosinHeader::Box)) }
        else { size_err(tag, 0, p, pos) }
    } else if tag == 0x1100 {
        if p.len() == 0 { Ok(RecordV::TuctosinEnd) } else { size_err(tag, 0, p, pos) }
    } else if tag == 0x2601 {
        if p.len() == 2 { Ok(RecordV::Tuctosin(TuctosinV::ElfFlags(be_i16v(p)))) }
        else { size_err(tag, 2, p, pos) }
    } else if tag == 0x2F03 {
        if p.len() == 4 { Ok(RecordV::Tuctosin(TuctosinV::Plex(be_i32v(p)))) }
        else { size_err(tag, 4, p, pos) }
    } else if tag == 0x0D02 {
        if p.len() == 2 { Ok(RecordV::Tuctosin(TuctosinV::Layer(be_i16v(p)))) }
        else { size_err(tag, 2, p, pos) }
    } else if tag == 0x0E02 {
        if p.len() == 2 { Ok(RecordV::Tuctosin(TuctosinV::DataType(be_i16v(p)))) }
        else { size_err(tag, 2, p, pos) }
    } else if tag == 0x1003 {
        if p.len() % 8 == 0 && p.len() > 0 {
            Ok(RecordV::Tuctosin(TuctosinV::Xy(points_of(p))))
        } else {
            Err(
                DecodeError {
                    kind: DecodeErrorKind::BadPointListLength { actual: p.len() as usize },
                    tag,
                    byte_offset: pos as usize,
                },
            )
        }
    } else if tag == 0x2102 {
        if p.len() == 2 { Ok(RecordV::Tuctosin(TuctosinV::PathType(be_i16v(p)))) }
        else { size_err(tag, 2, p, pos) }
    } else if tag == 0x0F03 {
        if p.len() == 4 { Ok(RecordV::Tuctosin(TuctosinV::Width(be_i32v(p)))) }
        else { size_err(tag, 4, p, pos) }
    } else if tag == 0x1206 {
        Ok(RecordV::Tuctosin(TuctosinV::Sname(trim_pad(p))))
    } else if tag == 0x1A01 {
        if p.len() == 2 { Ok(RecordV::Tuctosin(TuctosinV::Strans(be_i16v(p)))) }
        else { size_err(tag, 2, p, pos) }
    } else if tag == 0x1B05 {
        if p.len() == 8 { Ok(RecordV::Tuctosin(TuctosinV::Mag(be_i64v(p)))) }
        else { size_err(tag, 8, p, pos) }
    } else if tag == 0x1C05 {
        if p.len() == 8 { Ok(RecordV::Tuctosin(TuctosinV::Angle(be_i64v(p)))) }
        else { size_err(tag, 8, p, pos) }
    } else if tag == 0x1302 {
        if p.len() == 4 {
            Ok(RecordV::Tuctosin(TuctosinV::ColRow(
                be_i16v(p.subrange(0, 2)),
                be_i16v(p.subrange(2, 4)),
            )))
        } else { size_err(tag, 4, p, pos) }
    } else if tag == 0x1602 {
        if p.len() == 2 { Ok(RecordV::Tuctosin(TuctosinV::TextType(be_i16v(p)))) }
        else { size_err(tag, 2, p, pos) }
    } else if tag == 0x1701 {
        if p.len() == 2 { Ok(RecordV::Tuctosin(TuctosinV::Persentation(be_i16v(p)))) }
        else { size_err(tag, 2, p, pos) }
    } else if tag == 0x1906 {
        Ok(RecordV::Tuctosin(TuctosinV::AsciiString(trim_pad(p))))
    } else if tag == 0x2A02 {
        if p.len() == 2 { Ok(RecordV::Tuctosin(TuctosinV::NodeType(be_i16v(p)))) }
        else { size_err(tag, 2, p, pos) }
    } else if tag == 0x2E02 {
        if p.len() == 2 { Ok(RecordV::Tuctosin(TuctosinV::BoxType(be_i16v(p)))) }
        else { size_err(tag, 2, p, pos) }
    } else {
        Err(
            DecodeError {
                kind: DecodeErrorKind::UnknownTag,
                tag,
                byte_offset: pos as usize,
            },
        )
    }
}

/// Decodes the one record at `pos`: either the record and the offset
/// just past it, or the error the wire bytes force.
pub open spec fn spec_parse_rec(s: Seq<u8>, pos: int) -> Result<(RecordV, int), DecodeError> {
    if pos + 4 > s.len() {
        Err(DecodeError { kind: DecodeErrorKind::Truncated, tag: 0, byte_offset: pos as usize })
    } else {
        let l = be_val(s.subrange(pos, pos + 2));
        let tag = be_u16v(s.subrange(pos + 2, pos + 4));
        if l < 4 {
            Err(DecodeError { kind: DecodeErrorKind::BadLength, tag, byte_offset: pos as usize })
        } else if pos + l > s.len() {
            Err(DecodeError { kind: DecodeErrorKind::Truncated, tag, byte_offset: pos as usize })
        } else {
            match spec_parse_payload(tag, s.subrange(pos + 4, pos + l), pos) {
                Ok(r) => Ok((r, pos + l)),
                Err(e) => Err(e),
            }
        }
    }
}

// ---------------------------------------------------------------------
// Shape lemmas on the payload images.
// ---------------------------------------------------------------------

pub broadcast proof fn lemma_i16s_bytes_len(vs: Seq<i16>)
    ensures
        (#[trigger] i16s_bytes(vs)).len() == 2 * vs.len(),
    decreases vs.len(),
{
    broadcast use crate::bytes::lemma_be_bytes_len;

    if vs.len() > 0 {
        lemma_i16s_bytes_len(vs.drop_first());
    }
}

pub broadcast proof fn lemma_points_bytes_len(ps: Seq<(i32, i32)>)
    ensures
        (#[trigger] points_bytes(ps)).len() == 8 * ps.len(),
    decreases ps.len(),
{
    broadcast use crate::bytes::lemma_be_bytes_len;

    if ps.len() > 0 {
        lemma_points_bytes_len(ps.drop_first());
    }
}

pub proof fn lemma_i16s_bytes_push(vs: Seq<i16>, v: i16)
    ensures
        i16s_bytes(vs.push(v)) == i16s_bytes(vs) + i16_bytes(v),
    decreases vs.len(),
{
    if vs.len() == 0 {
        let w = vs.push(v);
        assert(w[0] == v);
        assert(w.drop_first() =~= Seq::<i16>::empty());
        assert(i16s_bytes(w) == i16_bytes(v) + i16s_bytes(w.drop_first()));
        assert(i16s_bytes(w.drop_first()).len() == 0);
        assert(i16s_bytes(vs).len() == 0);
        assert(i16s_bytes(w) =~= i16s_bytes(vs) + i16_bytes(v));
    } else {
        assert(vs.push(v).drop_first() =~= vs.drop_first().push(v));
        assert(vs.push(v)[0] == vs[0]);
        lemma_i16s_bytes_push(vs.drop_first(), v);
        assert(i16s_bytes(vs.push(v)) == i16_bytes(vs[0]) + (i16s_bytes(vs.drop_first())
            + i16_bytes(v)));
        assert(i16_bytes(vs[0]) + (i16s_bytes(vs.drop_first()) + i16_bytes(v)) =~= (i16_bytes(
            vs[0],
        ) + i16s_bytes(vs.drop_first())) + i16_bytes(v));
    }
}

pub proof fn lemma_points_bytes_push(ps: Seq<(i32, i32)>, p: (i32, i32))
    ensures
        points_bytes(ps.push(p)) == points_bytes(ps) + pair_bytes(p),
    decreases ps.len(),
{
    if ps.len() == 0 {
        let w = ps.push(p);
        assert(w[0] == p);
        assert(w.drop_first() =~= Seq::<(i32, i32)>::empty());
        assert(points_bytes(w) == pair_bytes(p) + points_bytes(w.drop_first()));
        assert(points_bytes(w.drop_first()).len() == 0);
        assert(points_bytes(ps).len() == 0);
        assert(points_bytes(w) =~= points_bytes(ps) + pair_bytes(p));
    } else {
        assert(ps.push(p).drop_first() =~= ps.drop_first().push(p));
        assert(ps.push(p)[0] == ps[0]);
        lemma_points_bytes_push(ps.drop_first(), p);
        assert(points_bytes(ps.push(p)) == pair_bytes(ps[0]) + (points_bytes(ps.drop_first())
            + pair_bytes(p)));
        assert(pair_bytes(ps[0]) + (points_bytes(ps.drop_first()) + pair_bytes(p)) =~= (pair_bytes(
            ps[0],
        ) + points_bytes(ps.drop_first())) + pair_bytes(p));
    }
}

// ---------------------------------------------------------------------
// The executable decoder.
// ---------------------------------------------------------------------

/// Reads the signed 16-bit value at `pos`.
fn read_i16_at(s: &[u8], pos: usize) -> (r: i16)
    requires
        pos + 2 <= s@.len(),
    ensures
        r == be_i16v(s@.subrange(pos as int, pos as int + 2)),
{
    read_u16_at(s, pos) as i16
}

/// Reads the signed 32-bit value at `pos`.
fn read_i32_at(s: &[u8], pos: usize) -> (r: i32)
    requires
        pos + 4 <= s@.len(),
    ensures
        r == be_i32v(s@.subrange(pos as int, pos as int + 4)),
{
    read_u32_at(s, pos) as i32
}

/// Reads the signed 64-bit value at `pos`.
fn read_i64_at(s: &[u8], pos: usize) -> (r: i64)
    requires
        pos + 8 <= s@.len(),
    ensures
        r == be_i64v(s@.subrange(pos as int, pos as int + 8)),
{
    read_u64_at(s, pos) as i64
}

/// Copies `s[from..to]` into a fresh buffer.
fn copy_range(s: &[u8], from: usize, to: usize) -> (r: Vec<u8>)
    requires
        from <= to <= s@.len(),
    ensures
        r@ == s@.subrange(from as int, to as int),
{
    let mut r: Vec<u8> = Vec::new();
    let mut i = from;
    while i < to
        invariant
            from <= i <= to <= s@.len(),
            r@ == s@.subrange(from as int, i as int),
        decreases to - i,
    {
        let b = s[i];
        r.push(b);
        proof {
            assert(s@.subrange(from as int, i + 1 as int) =~= s@.subrange(
                from as int,
                i as int,
            ).push(b));
        }
        i = i + 1;
    }
    r
}

/// Strips trailing NUL and space padding from a text payload.
fn trim_text(v: Vec<u8>) -> (r: Vec<u8>)
    ensures
        r@ == trim_pad(v@),
{
    let mut w = v;
    loop
        invariant_except_break
            trim_pad(w@) == trim_pad(v@),
        ensures
            w@ == trim_pad(v@),
        decreases w@.len(),
    {
        if w.len() == 0 {
            break;
        }
        let b = w[w.len() - 1];
        if b != 0 && b != 32 {
            break;
        }
        let _ = w.pop();
    }
    w
}

/// Dispatches one record's payload through the closed tag table: the
/// executable image of `spec_parse_payload`.
#[verifier::rlimit(30)]
fn decode_payload(tag: u16, data: Vec<u8>, pos: usize) -> (res: Result<GDSIIVariant, DecodeError>)
    ensures
        match res {
            Ok(v) => spec_parse_payload(tag, data@, pos as int) == Ok::<RecordV, DecodeError>(v@),
            Err(e) => spec_parse_payload(tag, data@, pos as int) == Err::<RecordV, DecodeError>(e),
        },
{
    let n = data.len();
    if tag == 0x0002 {
        if n == 2 {
            let v = read_i16_at(data.as_slice(), 0);
            proof {
                assert(data@.subrange(0, 2) =~= data@);
            }
            Ok(GDSIIVariant::FileHeader(FileHeader::Header(v)))
        } else {
            Err(mismatch(tag, 2, n, pos))
        }
    } else if tag == 0x0102 {
        if n == 24 {
            let t = read_i16_run(&data);
            Ok(GDSIIVariant::FileHeader(FileHeader::BgnLib(t)))
        } else {
            Err(mismatch(tag, 24, n, pos))
        }
    } else if tag == 0x0206 {
        Ok(GDSIIVariant::FileHeader(FileHeader::LibName(trim_text(data))))
    } else if tag == 0x1F06 {
        Ok(GDSIIVariant::FileHeader(FileHeader::RefLibs(trim_text(data))))
    } else if tag == 0x2006 {
        Ok(GDSIIVariant::FileHeader(FileHeader::Fonts(trim_text(data))))
    } else if tag == 0x2306 {
        Ok(GDSIIVariant::FileHeader(FileHeader::AttrTable(trim_text(data))))
    } else if tag == 0x2202 {
        if n == 2 {
            let v = read_i16_at(data.as_slice(), 0);
            proof {
                assert(data@.subrange(0, 2) =~= data@);
            }
            Ok(GDSIIVariant::FileHeader(FileHeader::Generations(v)))
        } else {
            Err(mismatch(tag, 2, n, pos))
        }
    } else if tag == 0x3602 {
        if n == 2 {
            let v = read_i16_at(data.as_slice(), 0);
            proof {
                assert(data@.subrange(0, 2) =~= data@);
            }
            Ok(GDSIIVariant::FileHeader(FileHeader::Format(v)))
        } else {
            Err(mismatch(tag, 2, n, pos))
        }
    } else if tag == 0x3706 {
        Ok(GDSIIVariant::FileHeader(FileHeader::Mask(trim_text(data))))
    } else if tag == 0x3800 {
        if n == 0 {
            Ok(GDSIIVariant::FileHeader(FileHeader::EndMask))
        } else {
            Err(mismatch(tag, 0, n, pos))
        }
    } else if tag == 0x0305 {
        if n == 16 {
            let a = read_u64_at(data.as_slice(), 0);
            let b = read_u64_at(data.as_slice(), 8);
            Ok(GDSIIVariant::FileHeader(FileHeader::Units(a, b)))
        } else {
            Err(mismatch(tag, 16, n, pos))
        }
    } else if tag == 0x0400 {
        if n == 0 {
            Ok(GDSIIVariant::FileEnd)
        } else {
            Err(mismatch(tag, 0, n, pos))
        }
    } else if tag == 0x0502 {
        if n == 24 {
            let t = read_i16_run(&data);
            Ok(GDSIIVariant::ModuleHeader(ModuleHeader::BgnStr(t)))
        } else {
            Err(mismatch(tag, 24, n, pos))
        }
    } else if tag == 0x0606 {
        Ok(GDSIIVariant::ModuleHeader(ModuleHeader::StrName(trim_text(data))))
    } else if tag == 0x0700 {
        if n == 0 {
            Ok(GDSIIVariant::ModuleEnd)
        } else {
            Err(mismatch(tag, 0, n, pos))
        }
    } else if tag == 0x0800 {
        if n == 0 {
            Ok(GDSIIVariant::TuctosinHeader(TuctosinHeader::Boundary))
        } else {
            Err(mismatch(tag, 0, n, pos))
        }
    } else if tag == 0x0900 {
        if n == 0 {
            Ok(GDSIIVariant::TuctosinHeader(TuctosinHeader::Path))
        } else {
            Err(mismatch(tag, 0, n, pos))
        }
    } else if tag == 0x0A00 {
        if n == 0 {
            Ok(GDSIIVariant::TuctosinHeader(TuctosinHeader::Sref))
        } else {
            Err(mismatch(tag, 0, n, pos))
        }
    } else if tag == 0x0B00 {
        if n == 0 {
            Ok(GDSIIVariant::TuctosinHeader(TuctosinHeader::Aref))
        } else {
            Err(mismatch(tag, 0, n, pos))
        }
    } else if tag == 0x0C00 {
        if n == 0 {
            Ok(GDSIIVariant::TuctosinHeader(TuctosinHeader::Text))
        } else {
            Err(mismatch(tag, 0, n, pos))
        }
    } else if tag == 0x1500 {
        if n == 0 {
            Ok(GDSIIVariant::TuctosinHeader(TuctosinHeader::Node))
        } else {
            Err(mismatch(tag, 0, n, pos))
        }
    } else if tag == 0x2D00 {
        if n == 0 {
            Ok(GDSIIVariant::TuctosinHeader(TuctosinHeader::Box))
        } else {
            Err(mismatch(tag, 0, n, pos))
        }
    } else if tag == 0x1100 {
        if n == 0 {
            Ok(GDSIIVariant::TuctosinEnd)
        } else {
            Err(mismatch(tag, 0, n, pos))
        }
    } else if tag == 0x2601 {
        if n == 2 {
            let v = read_i16_at(data.as_slice(), 0);
            proof {
                assert(data@.subrange(0, 2) =~= data@);
            }
            Ok(GDSIIVariant::Tuctosin(Tuctosin::ElfFlags(v)))
        } else {
            Err(mismatch(tag, 2, n, pos))
        }
    } else if tag == 0x2F03 {
        if n == 4 {
            let v = read_i32_at(data.as_slice(), 0);
            proof {
                assert(data@.subrange(0, 4) =~= data@);
            }
            Ok(GDSIIVariant::Tuctosin(Tuctosin::Plex(v)))
        } else {
            Err(mismatch(tag, 4, n, pos))
        }
    } else if tag == 0x0D02 {
        if n == 2 {
            let v = read_i16_at(data.as_slice(), 0);
            proof {
                assert(data@.subrange(0, 2) =~= data@);
            }
            Ok(GDSIIVariant::Tuctosin(Tuctosin::Layer(v)))
        } else {
            Err(mismatch(tag, 2, n, pos))
        }
    } else if tag == 0x0E02 {
        if n == 2 {
            let v = read_i16_at(data.as_slice(), 0);
            proof {
                assert(data@.subrange(0, 2) =~= data@);
            }
            Ok(GDSIIVariant::Tuctosin(Tuctosin::DataType(v)))
        } else {
            Err(mismatch(tag, 2, n, pos))
        }
    } else if tag == 0x1003 {
        if n % 8 == 0 && n > 0 {
            let ps = read_point_run(&data);
            Ok(GDSIIVariant::Tuctosin(Tuctosin::Xy(ps)))
        } else {
            Err(
                DecodeError {
                    kind: DecodeErrorKind::BadPointListLength { actual: n },
                    tag,
                    byte_offset: pos,
                },
            )
        }
    } else if tag == 0x2102 {
        if n == 2 {
            let v = read_i16_at(data.as_slice(), 0);
            proof {
                assert(data@.subrange(0, 2) =~= data@);
            }
            Ok(GDSIIVariant::Tuctosin(Tuctosin::PathType(v)))
        } else {
            Err(mismatch(tag, 2, n, pos))
        }
    } else if tag == 0x0F03 {
        if n == 4 {
            let v = read_i32_at(data.as_slice(), 0);
            proof {
                assert(data@.subrange(0, 4) =~= data@);
            }
            Ok(GDSIIVariant::Tuctosin(Tuctosin::Width(v)))
        } else {
            Err(mismatch(tag, 4, n, pos))
        }
    } else if tag == 0x1206 {
        Ok(GDSIIVariant::Tuctosin(Tuctosin::Sname(trim_text(data))))
    } else if tag == 0x1A01 {
        if n == 2 {
            let v = read_i16_at(data.as_slice(), 0);
            proof {
                assert(data@.subrange(0, 2) =~= data@);
            }
            Ok(GDSIIVariant::Tuctosin(Tuctosin::Strans(v)))
        } else {
            Err(mismatch(tag, 2, n, pos))
        }
    } else if tag == 0x1B05 {
        if n == 8 {
            let v = read_i64_at(data.as_slice(), 0);
            proof {
                assert(data@.subrange(0, 8) =~= data@);
            }
            Ok(GDSIIVariant::Tuctosin(Tuctosin::Mag(v)))
        } else {
            Err(mismatch(tag, 8, n, pos))
        }
    } else if tag == 0x1C05 {
        if n == 8 {
            let v = read_i64_at(data.as_slice(), 0);
            proof {
                assert(data@.subrange(0, 8) =~= data@);
            }
            Ok(GDSIIVariant::Tuctosin(Tuctosin::Angle(v)))
        } else {
            Err(mismatch(tag, 8, n, pos))
        }
    } else if tag == 0x1302 {
        if n == 4 {
            let c = read_i16_at(data.as_slice(), 0);
            let r = read_i16_at(data.as_slice(), 2);
            Ok(GDSIIVariant::Tuctosin(Tuctosin::ColRow(c, r)))
        } else {
            Err(mismatch(tag, 4, n, pos))
        }
    } else if tag == 0x1602 {
        if n == 2 {
            let v = read_i16_at(data.as_slice(), 0);
            proof {
                assert(data@.subrange(0, 2) =~= data@);
            }
            Ok(GDSIIVariant::Tuctosin(Tuctosin::TextType(v)))
        } else {
            Err(mismatch(tag, 2, n, pos))
        }
    } else if tag == 0x1701 {
        if n == 2 {
            let v = read_i16_at(data.as_slice(), 0);
            proof {
                assert(data@.subrange(0, 2) =~= data@);
            }
            Ok(GDSIIVariant::Tuctosin(Tuctosin::Persentation(v)))
        } else {
            Err(mismatch(tag, 2, n, pos))
        }
    } else if tag == 0x1906 {
        Ok(GDSIIVariant::Tuctosin(Tuctosin::AsciiString(trim_text(data))))
    } else if tag == 0x2A02 {
        if n == 2 {
            let v = read_i16_at(data.as_slice(), 0);
            proof {
                assert(data@.subrange(0, 2) =~= data@);
            }
            Ok(GDSIIVariant::Tuctosin(Tuctosin::NodeType(v)))
        } else {
            Err(mismatch(tag, 2, n, pos))
        }
    } else if tag == 0x2E02 {
        if n == 2 {
            let v = read_i16_at(data.as_slice(), 0);
            proof {
                assert(data@.subrange(0, 2) =~= data@);
            }
            Ok(GDSIIVariant::Tuctosin(Tuctosin::BoxType(v)))
        } else {
            Err(mismatch(tag, 2, n, pos))
        }
    } else {
        Err(DecodeError { kind: DecodeErrorKind::UnknownTag, tag, byte_offset: pos })
    }
}

/// The size-mismatch error value, as `size_err` states it.
fn mismatch(tag: u16, expected: usize, actual: usize, pos: usize) -> (e: DecodeError)
    ensures
        e == (DecodeError {
            kind: DecodeErrorKind::SizeMismatch { expected, actual },
            tag,
            byte_offset: pos,
        }),
{
    DecodeError {
        kind: DecodeErrorKind::SizeMismatch { expected, actual },
        tag,
        byte_offset: pos,
    }
}

/// Reads the 12-stamp timestamp payload.
fn read_i16_run(data: &Vec<u8>) -> (t: Vec<i16>)
    requires
        data@.len() == 24,
    ensures
        t@ == i16s_of(data@),
{
    let mut t: Vec<i16> = Vec::new();
    let mut i: usize = 0;
    while i < 12
        invariant
            data@.len() == 24,
            i <= 12,
            t@.len() == i,
            forall|j: int|
                0 <= j < i ==> t@[j] == be_i16v(data@.subrange(2 * j, 2 * j + 2)),
        decreases 12 - i,
    {
        let x = read_i16_at(data.as_slice(), 2 * i);
        t.push(x);
        i = i + 1;
    }
    proof {
        assert(t@ =~= i16s_of(data@));
    }
    t
}

/// Reads a point-list payload.
fn read_point_run(data: &Vec<u8>) -> (ps: Vec<(i32, i32)>)
    requires
        data@.len() % 8 == 0,
    ensures
        ps@ == points_of(data@),
{
    let n = data.len() / 8;
    let mut ps: Vec<(i32, i32)> = Vec::new();
    let mut i: usize = 0;
    while i < n
        invariant
            data@.len() == n * 8,
            data@.len() <= usize::MAX,
            i <= n,
            ps@.len() == i,
            forall|j: int|
                0 <= j < i ==> ps@[j] == (
                    be_i32v(data@.subrange(8 * j, 8 * j + 4)),
                    be_i32v(data@.subrange(8 * j + 4, 8 * j + 8)),
                ),
        decreases n - i,
    {
        proof {
            assert(8 * (i as int) + 8 <= 8 * (n as int));
        }
        let x = read_i32_at(data.as_slice(), 8 * i);
        let y = read_i32_at(data.as_slice(), 8 * i + 4);
        ps.push((x, y));
        i = i + 1;
    }
    proof {
        assert(ps@ =~= points_of(data@));
    }
    ps
}

/// Decodes the one record at `pos` of the stream, agreeing with
/// `spec_parse_rec` result for result and error for error.
pub fn decode_record(s: &[u8], pos: usize) -> (res: Result<(GDSIIVariant, usize), DecodeError>)
    requires
        pos <= s@.len(),
    ensures
        match res {
            Ok(p) => {
                &&& spec_parse_rec(s@, pos as int) == Ok::<(RecordV, int), DecodeError>(
                    (p.0@, p.1 as int),
                )
                &&& pos + 4 <= p.1 <= s@.len()
            },
            Err(e) => spec_parse_rec(s@, pos as int) == Err::<(RecordV, int), DecodeError>(e),
        },
{
    let n = s.len();
    if n - pos < 4 {
        return Err(DecodeError { kind: DecodeErrorKind::Truncated, tag: 0, byte_offset: pos });
    }
    let l = read_u16_at(s, pos) as usize;
    let tag = read_u16_at(s, pos + 2);
    if l < 4 {
        return Err(DecodeError { kind: DecodeErrorKind::BadLength, tag, byte_offset: pos });
    }
    if n - pos < l {
        return Err(DecodeError { kind: DecodeErrorKind::Truncated, tag, byte_offset: pos });
    }
    let data = copy_range(s, pos + 4, pos + l);
    match decode_payload(tag, data, pos) {
        Ok(v) => Ok((v, pos + l)),
        Err(e) => Err(e),
    }
}

} // verus!
