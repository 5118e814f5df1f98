//! The encoder: walks a model and re-emits its records in canonical order.
//!
//! `model_recs` is the canonical record sequence of a model and
//! `spec_encode_model` its byte image; `save_gds2` is the executable
//! encoder, proved to produce exactly those bytes, and to fail with the
//! exact missing-field error when a mandatory header field is absent.

use vstd::prelude::*;

use crate::bytes::{be_bytes, push_be16, push_be64};
use crate::error::{EncodeError, GDSIIErrorKind, HeaderKey};
use crate::model::{FileHeader, FileHeaderV, GDSIIModel, LibraryHeaderV, ModelV, ModuleHeader,
    ModuleHeaderV, RecordV, Tuctosin, TuctosinHeader, TuctosinV, tocs_view};

verus! {

broadcast use crate::bytes::lemma_be_bytes_len, crate::codec::lemma_i16s_bytes_len,
    crate::codec::lemma_points_bytes_len;

// ---------------------------------------------------------------------
// Machine limits on a whole model.
// ---------------------------------------------------------------------

/// A text payload, padded, still fits the 16-bit record length field.
pub open spec fn text_wf(s: Seq<u8>) -> bool {
    crate::codec::text_bytes(s).len() + 4 <= 0xFFFF
}

pub open spec fn opt_text_wf(o: Option<Seq<u8>>) -> bool {
    match o {
        Some(s) => text_wf(s),
        None => true,
    }
}

/// Machine limits on the header map.
pub open spec fn header_wf(h: LibraryHeaderV) -> bool {
    &&& match h.bgn_lib {
        Some(t) => t.len() == 12,
        None => true,
    }
    &&& opt_text_wf(h.lib_name)
    &&& opt_text_wf(h.ref_libs)
    &&& opt_text_wf(h.fonts)
    &&& opt_text_wf(h.attr_table)
    &&& opt_text_wf(h.mask)
}

pub open spec fn toc_wf(t: TuctosinV) -> bool {
    crate::codec::rec_wf(RecordV::Tuctosin(t))
}

pub open spec fn tocs_wf(ts: Seq<TuctosinV>) -> bool {
    forall|i: int| 0 <= i < ts.len() ==> toc_wf(#[trigger] ts[i])
}

/// Machine limits on a whole model: every record it would emit fits the
/// wire format, the timestamp holds 12 stamps, and no point list is
/// empty.
pub open spec fn model_wf(m: ModelV) -> bool {
    &&& header_wf(m.header)
    &&& m.structure_time.len() == 12
    &&& text_wf(m.structure_name)
    &&& tocs_wf(m.s_boundary)
    &&& tocs_wf(m.s_path)
    &&& tocs_wf(m.s_sref)
    &&& tocs_wf(m.s_aref)
    &&& tocs_wf(m.s_text)
    &&& tocs_wf(m.s_node)
    &&& tocs_wf(m.s_box)
}

/// The four header fields a valid library must carry.
pub open spec fn model_complete(h: LibraryHeaderV) -> bool {
    &&& h.version is Some
    &&& h.bgn_lib is Some
    &&& h.lib_name is Some
    &&& h.units is Some
}

/// The first absent mandatory field, in the order the encoder checks.
pub open spec fn first_missing(h: LibraryHeaderV) -> HeaderKey {
    if h.version is None {
        HeaderKey::Version
    } else if h.bgn_lib is None {
        HeaderKey::BgnLib
    } else if h.lib_name is None {
        HeaderKey::LibName
    } else {
        HeaderKey::Units
    }
}

// ---------------------------------------------------------------------
// Canonical text form.
// ---------------------------------------------------------------------

pub open spec fn opt_text_canonical(o: Option<Seq<u8>>) -> bool {
    match o {
        Some(s) => crate::codec::no_pad_end(s),
        None => true,
    }
}

pub open spec fn toc_canonical(t: TuctosinV) -> bool {
    crate::codec::rec_canonical(RecordV::Tuctosin(t))
}

pub open spec fn tocs_canonical(ts: Seq<TuctosinV>) -> bool {
    forall|i: int| 0 <= i < ts.len() ==> toc_canonical(#[trigger] ts[i])
}

/// Holds when no text field of the model carries trailing padding of its
/// own: exactly the form the decoder produces, and the form on which
/// re-encoding is the identity.
pub open spec fn model_canonical(m: ModelV) -> bool {
    &&& opt_text_canonical(m.header.lib_name)
    &&& opt_text_canonical(m.header.ref_libs)
    &&& opt_text_canonical(m.header.fonts)
    &&& opt_text_canonical(m.header.attr_table)
    &&& opt_text_canonical(m.header.mask)
    &&& crate::codec::no_pad_end(m.structure_name)
    &&& tocs_canonical(m.s_boundary)
    &&& tocs_canonical(m.s_path)
    &&& tocs_canonical(m.s_sref)
    &&& tocs_canonical(m.s_aref)
    &&& tocs_canonical(m.s_text)
    &&& tocs_canonical(m.s_node)
    &&& tocs_canonical(m.s_box)
}

// ---------------------------------------------------------------------
// The canonical record sequence of a model.
// ---------------------------------------------------------------------

/// The version record, where present.
pub open spec fn version_recs(h: LibraryHeaderV) -> Seq<RecordV> {
    match h.version {
        Some(v) => seq![RecordV::FileHeader(FileHeaderV::Header(v))],
        None => Seq::empty(),
    }
}

pub open spec fn bgn_lib_recs(h: LibraryHeaderV) -> Seq<RecordV> {
    match h.bgn_lib {
        Some(t) => seq![RecordV::FileHeader(FileHeaderV::BgnLib(t))],
        None => Seq::empty(),
    }
}

pub open spec fn lib_name_recs(h: LibraryHeaderV) -> Seq<RecordV> {
    match h.lib_name {
        Some(s) => seq![RecordV::FileHeader(FileHeaderV::LibName(s))],
        None => Seq::empty(),
    }
}

pub open spec fn units_recs(h: LibraryHeaderV) -> Seq<RecordV> {
    match h.units {
        Some(u) => seq![RecordV::FileHeader(FileHeaderV::Units(u.0, u.1))],
        None => Seq::empty(),
    }
}

pub open spec fn ref_libs_recs(h: LibraryHeaderV) -> Seq<RecordV> {
    match h.ref_libs {
        Some(s) => seq![RecordV::FileHeader(FileHeaderV::RefLibs(s))],
        None => Seq::empty(),
    }
}

pub open spec fn fonts_recs(h: LibraryHeaderV) -> Seq<RecordV> {
    match h.fonts {
        Some(s) => seq![RecordV::FileHeader(FileHeaderV::Fonts(s))],
        None => Seq::empty(),
    }
}

pub open spec fn attr_table_recs(h: LibraryHeaderV) -> Seq<RecordV> {
    match h.attr_table {
        Some(s) => seq![RecordV::FileHeader(FileHeaderV::AttrTable(s))],
        None => Seq::empty(),
    }
}

pub open spec fn generations_recs(h: LibraryHeaderV) -> Seq<RecordV> {
    match h.generations {
        Some(v) => seq![RecordV::FileHeader(FileHeaderV::Generations(v))],
        None => Seq::empty(),
    }
}

pub open spec fn format_recs(h: LibraryHeaderV) -> Seq<RecordV> {
    match h.format {
        Some(v) => seq![RecordV::FileHeader(FileHeaderV::Format(v))],
        None => Seq::empty(),
    }
}

pub open spec fn mask_recs(h: LibraryHeaderV) -> Seq<RecordV> {
    match h.mask {
        Some(s) => seq![RecordV::FileHeader(FileHeaderV::Mask(s))],
        None => Seq::empty(),
    }
}

pub open spec fn end_mask_recs(h: LibraryHeaderV) -> Seq<RecordV> {
    if h.end_mask {
        seq![RecordV::FileHeader(FileHeaderV::EndMask)]
    } else {
        Seq::empty()
    }
}

/// The header records, in canonical order: the four mandatory fields
/// first, then each optional field only where present.
pub open spec fn header_recs(h: LibraryHeaderV) -> Seq<RecordV> {
    version_recs(h) + bgn_lib_recs(h) + lib_name_recs(h) + units_recs(h) + ref_libs_recs(h)
        + fonts_recs(h) + attr_table_recs(h) + generations_recs(h) + format_recs(h) + mask_recs(h)
        + end_mask_recs(h)
}

/// The structure section's two header records.
pub open spec fn structure_recs(m: ModelV) -> Seq<RecordV> {
    seq![
        RecordV::ModuleHeader(ModuleHeaderV::BgnStr(m.structure_time)),
        RecordV::ModuleHeader(ModuleHeaderV::StrName(m.structure_name)),
    ]
}

/// One body-field record per element field, in file order.
pub open spec fn tocs_recs(ts: Seq<TuctosinV>) -> Seq<RecordV> {
    Seq::new(ts.len(), |i: int| RecordV::Tuctosin(ts[i]))
}

/// A non-empty group: its begin record, its fields, its end record.
pub open spec fn group_recs(k: TuctosinHeader, ts: Seq<TuctosinV>) -> Seq<RecordV> {
    if ts.len() == 0 {
        Seq::empty()
    } else {
        seq![RecordV::TuctosinHeader(k)] + tocs_recs(ts) + seq![RecordV::TuctosinEnd]
    }
}

/// The canonical record sequence of a whole model.
pub open spec fn model_recs(m: ModelV) -> Seq<RecordV> {
    header_recs(m.header) + structure_recs(m) + group_recs(TuctosinHeader::Boundary, m.s_boundary)
        + group_recs(TuctosinHeader::Path, m.s_path) + group_recs(TuctosinHeader::Sref, m.s_sref)
        + group_recs(TuctosinHeader::Aref, m.s_aref) + group_recs(TuctosinHeader::Text, m.s_text)
        + group_recs(TuctosinHeader::Node, m.s_node) + group_recs(TuctosinHeader::Box, m.s_box)
        + seq![RecordV::ModuleEnd, RecordV::FileEnd]
}

/// The byte image of a record sequence.
#[verifier::opaque]
pub open spec fn cat_rec_bytes(rs: Seq<RecordV>) -> Seq<u8>
    decreases rs.len(),
{
    if rs.len() == 0 {
        Seq::empty()
    } else {
        crate::codec::rec_bytes(rs[0]) + cat_rec_bytes(rs.drop_first())
    }
}

/// The byte image of a whole model, in canonical order.
pub open spec fn spec_encode_model(m: ModelV) -> Seq<u8> {
    cat_rec_bytes(model_recs(m))
}

/// All records of a sequence are within machine limits.
pub open spec fn recs_wf(rs: Seq<RecordV>) -> bool {
    forall|i: int| 0 <= i < rs.len() ==> crate::codec::rec_wf(#[trigger] rs[i])
}

/// The byte image of an empty record sequence is empty.
pub proof fn lemma_cat_rec_bytes_nil(rs: Seq<RecordV>)
    requires
        rs.len() == 0,
    ensures
        cat_rec_bytes(rs) == Seq::<u8>::empty(),
{
    reveal(cat_rec_bytes);
}

pub proof fn lemma_cat_rec_bytes_app(a: Seq<RecordV>, b: Seq<RecordV>)
    ensures
        cat_rec_bytes(a + b) == cat_rec_bytes(a) + cat_rec_bytes(b),
    decreases a.len(),
{
    reveal(cat_rec_bytes);
    if a.len() == 0 {
        assert(a + b =~= b);
        assert(cat_rec_bytes(a).len() == 0);
        assert(cat_rec_bytes(a) + cat_rec_bytes(b) =~= cat_rec_bytes(b));
    } else {
        assert((a + b).drop_first() =~= a.drop_first() + b);
        assert((a + b)[0] == a[0]);
        lemma_cat_rec_bytes_app(a.drop_first(), b);
        assert(cat_rec_bytes(a + b) == crate::codec::rec_bytes(a[0]) + (cat_rec_bytes(
            a.drop_first(),
        ) + cat_rec_bytes(b)));
        assert(crate::codec::rec_bytes(a[0]) + (cat_rec_bytes(a.drop_first()) + cat_rec_bytes(b))
            =~= (crate::codec::rec_bytes(a[0]) + cat_rec_bytes(a.drop_first())) + cat_rec_bytes(
            b,
        ));
    }
}

pub proof fn lemma_cat_rec_bytes_one(r: RecordV)
    ensures
        cat_rec_bytes(seq![r]) == crate::codec::rec_bytes(r),
{
    reveal(cat_rec_bytes);
    assert(seq![r].drop_first() =~= Seq::<RecordV>::empty());
    assert(cat_rec_bytes(seq![r].drop_first()).len() == 0);
    assert(cat_rec_bytes(seq![r]) =~= crate::codec::rec_bytes(r));
}

pub proof fn lemma_cat_rec_bytes_push(rs: Seq<RecordV>, r: RecordV)
    ensures
        cat_rec_bytes(rs.push(r)) == cat_rec_bytes(rs) + crate::codec::rec_bytes(r),
{
    assert(rs.push(r) =~= rs + seq![r]);
    lemma_cat_rec_bytes_app(rs, seq![r]);
    lemma_cat_rec_bytes_one(r);
}

/// Byte-string concatenation is associative.
pub proof fn lemma_bytes_assoc(a: Seq<u8>, b: Seq<u8>, c: Seq<u8>)
    ensures
        (a + b) + c == a + (b + c),
{
    assert((a + b) + c =~= a + (b + c));
}

// ---------------------------------------------------------------------
// Low-level emitters.
// ---------------------------------------------------------------------

/// Appends the raw bytes of `s`.
fn push_bytes(out: &mut Vec<u8>, s: &Vec<u8>)
    ensures
        final(out)@ == old(out)@ + s@,
{
    let mut i: usize = 0;
    while i < s.len()
        invariant
            i <= s@.len(),
            out@ == old(out)@ + s@.take(i as int),
        decreases s@.len() - i,
    {
        let b = s[i];
        out.push(b);
        proof {
            assert(s@.take(i as int + 1) =~= s@.take(i as int).push(b));
            assert(old(out)@ + s@.take(i as int).push(b) =~= (old(out)@ + s@.take(
                i as int,
            )).push(b));
        }
        i = i + 1;
    }
    proof {
        assert(s@.take(s@.len() as int) =~= s@);
    }
}

/// Appends the two wire bytes of a signed 16-bit value.
fn push_i16(out: &mut Vec<u8>, v: i16)
    ensures
        final(out)@ == old(out)@ + crate::codec::i16_bytes(v),
{
    push_be16(out, v as u16);
}

/// Appends the record header: total length, then tag.
fn emit_rec_header(out: &mut Vec<u8>, total: u16, tag: u16)
    ensures
        final(out)@ == old(out)@ + be_bytes(total as int, 2) + be_bytes(tag as int, 2),
{
    push_be16(out, total);
    push_be16(out, tag);
}

/// Emits a record with an empty payload.
fn emit_void(out: &mut Vec<u8>, tag: u16)
    ensures
        final(out)@ == old(out)@ + (be_bytes(4, 2) + be_bytes(tag as int, 2) + Seq::empty()),
{
    emit_rec_header(out, 4, tag);
    proof {
        assert(old(out)@ + be_bytes(4, 2) + be_bytes(tag as int, 2) =~= old(out)@ + (be_bytes(
            4,
            2,
        ) + be_bytes(tag as int, 2) + Seq::empty()));
    }
}

/// Emits a record whose payload is one signed 16-bit value.
fn emit_framed_i16(out: &mut Vec<u8>, tag: u16, v: i16)
    ensures
        final(out)@ == old(out)@ + (be_bytes(6, 2) + be_bytes(tag as int, 2)
            + crate::codec::i16_bytes(v)),
{
    emit_rec_header(out, 6, tag);
    push_i16(out, v);
    proof {
        assert(old(out)@ + be_bytes(6, 2) + be_bytes(tag as int, 2) + crate::codec::i16_bytes(v)
            =~= old(out)@ + (be_bytes(6, 2) + be_bytes(tag as int, 2) + crate::codec::i16_bytes(
            v,
        )));
    }
}

/// Emits a record whose payload is one signed 32-bit value.
fn emit_framed_i32(out: &mut Vec<u8>, tag: u16, v: i32)
    ensures
        final(out)@ == old(out)@ + (be_bytes(8, 2) + be_bytes(tag as int, 2)
            + crate::codec::i32_bytes(v)),
{
    emit_rec_header(out, 8, tag);
    crate::bytes::push_be32(out, v as u32);
    proof {
        assert(old(out)@ + be_bytes(8, 2) + be_bytes(tag as int, 2) + crate::codec::i32_bytes(v)
            =~= old(out)@ + (be_bytes(8, 2) + be_bytes(tag as int, 2) + crate::codec::i32_bytes(
            v,
        )));
    }
}

/// Emits a record whose payload is one signed 64-bit value.
fn emit_framed_i64(out: &mut Vec<u8>, tag: u16, v: i64)
    ensures
        final(out)@ == old(out)@ + (be_bytes(12, 2) + be_bytes(tag as int, 2)
            + crate::codec::i64_bytes(v)),
{
    emit_rec_header(out, 12, tag);
    push_be64(out, v as u64);
    proof {
        assert(old(out)@ + be_bytes(12, 2) + be_bytes(tag as int, 2) + crate::codec::i64_bytes(v)
            =~= old(out)@ + (be_bytes(12, 2) + be_bytes(tag as int, 2) + crate::codec::i64_bytes(
            v,
        )));
    }
}

/// Emits a text record, NUL-padded to an even payload length.
fn emit_framed_text(out: &mut Vec<u8>, tag: u16, s: &Vec<u8>)
    requires
        text_wf(s@),
    ensures
        final(out)@ == old(out)@ + (be_bytes(crate::codec::text_bytes(s@).len() as int + 4, 2)
            + be_bytes(tag as int, 2) + crate::codec::text_bytes(s@)),
{
    let pad: usize = s.len() % 2;
    let total = (s.len() + pad + 4) as u16;
    emit_rec_header(out, total, tag);
    push_bytes(out, s);
    if pad == 1 {
        out.push(0);
        proof {
            assert(crate::codec::text_bytes(s@) =~= s@.push(0));
        }
    }
    proof {
        assert(crate::codec::text_bytes(s@).len() == s@.len() + pad);
        assert(out@ =~= old(out)@ + (be_bytes(crate::codec::text_bytes(s@).len() as int + 4, 2)
            + be_bytes(tag as int, 2) + crate::codec::text_bytes(s@)));
    }
}

/// Emits a 12-stamp timestamp record.
fn emit_framed_i16run(out: &mut Vec<u8>, tag: u16, t: &Vec<i16>)
    requires
        t@.len() == 12,
    ensures
        final(out)@ == old(out)@ + (be_bytes(28, 2) + be_bytes(tag as int, 2)
            + crate::codec::i16s_bytes(t@)),
{
    emit_rec_header(out, 28, tag);
    let mut i: usize = 0;
    while i < t.len()
        invariant
            i <= t@.len(),
            out@ == old(out)@ + be_bytes(28, 2) + be_bytes(tag as int, 2)
                + crate::codec::i16s_bytes(t@.take(i as int)),
        decreases t@.len() - i,
    {
        let v = t[i];
        push_i16(out, v);
        proof {
            assert(t@.take(i as int + 1) =~= t@.take(i as int).push(v));
            crate::codec::lemma_i16s_bytes_push(t@.take(i as int), v);
            assert(old(out)@ + be_bytes(28, 2) + be_bytes(tag as int, 2)
                + crate::codec::i16s_bytes(t@.take(i as int)) + crate::codec::i16_bytes(v) =~= old(
                out,
            )@ + be_bytes(28, 2) + be_bytes(tag as int, 2) + (crate::codec::i16s_bytes(t@.take(
                i as int,
            )) + crate::codec::i16_bytes(v)));
        }
        i = i + 1;
    }
    proof {
        assert(t@.take(t@.len() as int) =~= t@);
        assert(out@ =~= old(out)@ + (be_bytes(28, 2) + be_bytes(tag as int, 2)
            + crate::codec::i16s_bytes(t@)));
    }
}

/// Emits a point-list record.
fn emit_framed_points(out: &mut Vec<u8>, ps: &Vec<(i32, i32)>)
    requires
        8 * ps@.len() + 4 <= 0xFFFF,
    ensures
        final(out)@ == old(out)@ + (be_bytes(8 * ps@.len() as int + 4, 2) + be_bytes(0x1003, 2)
            + crate::codec::points_bytes(ps@)),
{
    let total = (ps.len() * 8 + 4) as u16;
    emit_rec_header(out, total, 0x1003);
    let mut i: usize = 0;
    while i < ps.len()
        invariant
            i <= ps@.len(),
            8 * ps@.len() + 4 <= 0xFFFF,
            out@ == old(out)@ + be_bytes(8 * ps@.len() as int + 4, 2) + be_bytes(0x1003, 2)
                + crate::codec::points_bytes(ps@.take(i as int)),
        decreases ps@.len() - i,
    {
        let p = ps[i];
        crate::bytes::push_be32(out, p.0 as u32);
        crate::bytes::push_be32(out, p.1 as u32);
        proof {
            assert(ps@.take(i as int + 1) =~= ps@.take(i as int).push(p));
            crate::codec::lemma_points_bytes_push(ps@.take(i as int), p);
            assert(old(out)@ + be_bytes(8 * ps@.len() as int + 4, 2) + be_bytes(0x1003, 2)
                + crate::codec::points_bytes(ps@.take(i as int)) + crate::codec::i32_bytes(p.0)
                + crate::codec::i32_bytes(p.1) =~= old(out)@ + be_bytes(
                8 * ps@.len() as int + 4,
                2,
            ) + be_bytes(0x1003, 2) + (crate::codec::points_bytes(ps@.take(i as int))
                + crate::codec::pair_bytes(p)));
        }
        i = i + 1;
    }
    proof {
        assert(ps@.take(ps@.len() as int) =~= ps@);
        assert(out@ =~= old(out)@ + (be_bytes(8 * ps@.len() as int + 4, 2) + be_bytes(0x1003, 2)
            + crate::codec::points_bytes(ps@)));
    }
}

/// Emits the units record: the two raw float64 words.
fn emit_framed_units(out: &mut Vec<u8>, a: u64, b: u64)
    ensures
        final(out)@ == old(out)@ + (be_bytes(20, 2) + be_bytes(0x0305, 2)
            + (crate::codec::u64_bytes(a) + crate::codec::u64_bytes(b))),
{
    emit_rec_header(out, 20, 0x0305);
    push_be64(out, a);
    push_be64(out, b);
    proof {
        assert(old(out)@ + be_bytes(20, 2) + be_bytes(0x0305, 2) + crate::codec::u64_bytes(a)
            + crate::codec::u64_bytes(b) =~= old(out)@ + (be_bytes(20, 2) + be_bytes(0x0305, 2) + (
        crate::codec::u64_bytes(a) + crate::codec::u64_bytes(b))));
    }
}

/// Emits the array (column, row) record.
fn emit_framed_colrow(out: &mut Vec<u8>, c: i16, r: i16)
    ensures
        final(out)@ == old(out)@ + (be_bytes(8, 2) + be_bytes(0x1302, 2)
            + (crate::codec::i16_bytes(c) + crate::codec::i16_bytes(r))),
{
    emit_rec_header(out, 8, 0x1302);
    push_i16(out, c);
    push_i16(out, r);
    proof {
        assert(old(out)@ + be_bytes(8, 2) + be_bytes(0x1302, 2) + crate::codec::i16_bytes(c)
            + crate::codec::i16_bytes(r) =~= old(out)@ + (be_bytes(8, 2) + be_bytes(0x1302, 2) + (
        crate::codec::i16_bytes(c) + crate::codec::i16_bytes(r))));
    }
}

// ---------------------------------------------------------------------
// Record emitters.
// ---------------------------------------------------------------------

/// Emits one body-field record.
fn emit_toc(out: &mut Vec<u8>, t: &Tuctosin)
    requires
        crate::codec::rec_wf(RecordV::Tuctosin(t@)),
    ensures
        final(out)@ == old(out)@ + crate::codec::rec_bytes(RecordV::Tuctosin(t@)),
{
    match t {
        Tuctosin::ElfFlags(d) => emit_framed_i16(out, 0x2601, *d),
        Tuctosin::Plex(d) => emit_framed_i32(out, 0x2F03, *d),
        Tuctosin::Layer(d) => emit_framed_i16(out, 0x0D02, *d),
        Tuctosin::DataType(d) => emit_framed_i16(out, 0x0E02, *d),
        Tuctosin::Xy(d) => {
            emit_framed_points(out, d);
        },
        Tuctosin::PathType(d) => emit_framed_i16(out, 0x2102, *d),
        Tuctosin::Width(d) => emit_framed_i32(out, 0x0F03, *d),
        Tuctosin::Sname(s) => emit_framed_text(out, 0x1206, s),
        Tuctosin::Strans(d) => emit_framed_i16(out, 0x1A01, *d),
        Tuctosin::Mag(d) => emit_framed_i64(out, 0x1B05, *d),
        Tuctosin::Angle(d) => emit_framed_i64(out, 0x1C05, *d),
        Tuctosin::ColRow(c, r) => emit_framed_colrow(out, *c, *r),
        Tuctosin::TextType(d) => emit_framed_i16(out, 0x1602, *d),
        Tuctosin::Persentation(d) => emit_framed_i16(out, 0x1701, *d),
        Tuctosin::AsciiString(s) => emit_framed_text(out, 0x1906, s),
        Tuctosin::NodeType(d) => emit_framed_i16(out, 0x2A02, *d),
        Tuctosin::BoxType(d) => emit_framed_i16(out, 0x2E02, *d),
    }
}

impl Tuctosin {
    /// The full wire image of this one body-field record.
    pub fn byted(&self) -> (r: Vec<u8>)
        requires
            crate::codec::rec_wf(RecordV::Tuctosin(self@)),
        ensures
            r@ == crate::codec::rec_bytes(RecordV::Tuctosin(self@)),
    {
        let mut data: Vec<u8> = Vec::new();
        emit_toc(&mut data, self);
        proof {
            assert(data@ =~= crate::codec::rec_bytes(RecordV::Tuctosin(self@)));
        }
        data
    }
}

/// Appends the element-group-end record.
pub fn append_tuctosin_end(data: &mut Vec<u8>)
    ensures
        final(data)@ == old(data)@ + crate::codec::rec_bytes(RecordV::TuctosinEnd),
{
    emit_void(data, 0x1100);
}

/// The wire tag of an element-group-begin record.
fn group_tag_of(k: TuctosinHeader) -> (t: u16)
    ensures
        t == crate::codec::group_tag(k),
{
    match k {
        TuctosinHeader::Boundary => 0x0800,
        TuctosinHeader::Path => 0x0900,
        TuctosinHeader::Sref => 0x0A00,
        TuctosinHeader::Aref => 0x0B00,
        TuctosinHeader::Text => 0x0C00,
        TuctosinHeader::Node => 0x1500,
        TuctosinHeader::Box => 0x2D00,
    }
}

/// Emits one element group: nothing when it is empty, else its begin
/// record, every field record in file order, and its end record.
fn emit_group(out: &mut Vec<u8>, k: TuctosinHeader, tocs: &Vec<Tuctosin>)
    requires
        tocs_wf(tocs_view(tocs@)),
    ensures
        final(out)@ == old(out)@ + cat_rec_bytes(group_recs(k, tocs_view(tocs@))),
{
    let ghost ts = tocs_view(tocs@);
    if tocs.len() == 0 {
        proof {
            assert(ts.len() == 0);
            lemma_cat_rec_bytes_nil(group_recs(k, ts));
            assert(out@ =~= out@ + cat_rec_bytes(group_recs(k, ts)));
        }
        return;
    }
    let tag = group_tag_of(k);
    emit_void(out, tag);
    proof {
        assert(crate::codec::rec_bytes(RecordV::TuctosinHeader(k)) =~= be_bytes(4, 2) + be_bytes(
            tag as int,
            2,
        ) + Seq::empty());
    }
    proof {
        lemma_cat_rec_bytes_nil(tocs_recs(ts.take(0)));
    }
    let mut i: usize = 0;
    while i < tocs.len()
        invariant
            i <= tocs@.len(),
            ts == tocs_view(tocs@),
            tocs_wf(ts),
            out@ == old(out)@ + crate::codec::rec_bytes(RecordV::TuctosinHeader(k))
                + cat_rec_bytes(tocs_recs(ts.take(i as int))),
        decreases tocs@.len() - i,
    {
        proof {
            assert(ts[i as int] == tocs@[i as int]@);
        }
        emit_toc(out, &tocs[i]);
        proof {
            assert(ts.take(i as int + 1) =~= ts.take(i as int).push(ts[i as int]));
            assert(tocs_recs(ts.take(i as int + 1)) =~= tocs_recs(ts.take(i as int)).push(
                RecordV::Tuctosin(ts[i as int]),
            ));
            lemma_cat_rec_bytes_push(tocs_recs(ts.take(i as int)), RecordV::Tuctosin(ts[i as int]));
            assert(old(out)@ + crate::codec::rec_bytes(RecordV::TuctosinHeader(k))
                + cat_rec_bytes(tocs_recs(ts.take(i as int))) + crate::codec::rec_bytes(
                RecordV::Tuctosin(ts[i as int]),
            ) =~= old(out)@ + crate::codec::rec_bytes(RecordV::TuctosinHeader(k)) + (cat_rec_bytes(
                tocs_recs(ts.take(i as int)),
            ) + crate::codec::rec_bytes(RecordV::Tuctosin(ts[i as int]))));
        }
        i = i + 1;
    }
    append_tuctosin_end(out);
    proof {
        assert(ts.take(ts.len() as int) =~= ts);
        let hdr = seq![RecordV::TuctosinHeader(k)];
        let end = seq![RecordV::TuctosinEnd];
        lemma_cat_rec_bytes_app(hdr + tocs_recs(ts), end);
        lemma_cat_rec_bytes_app(hdr, tocs_recs(ts));
        lemma_cat_rec_bytes_one(RecordV::TuctosinHeader(k));
        lemma_cat_rec_bytes_one(RecordV::TuctosinEnd);
        assert(group_recs(k, ts) == hdr + tocs_recs(ts) + end);
        assert(out@ =~= old(out)@ + cat_rec_bytes(group_recs(k, ts)));
    }
}

// ---------------------------------------------------------------------
// The whole-model encoder.
// ---------------------------------------------------------------------

/// Emits the version record where present.
fn emit_version(out: &mut Vec<u8>, hdr: &crate::model::LibraryHeader)
    ensures
        final(out)@ == old(out)@ + cat_rec_bytes(version_recs(hdr@)),
{
    if let Some(d) = &hdr.version {
        emit_framed_i16(out, 0x0002, *d);
        proof {
            let r = RecordV::FileHeader(FileHeaderV::Header(*d));
            assert(crate::codec::rec_bytes(r) =~= be_bytes(6, 2) + be_bytes(0x0002, 2)
                + crate::codec::i16_bytes(*d));
            lemma_cat_rec_bytes_one(r);
            assert(out@ =~= old(out)@ + cat_rec_bytes(version_recs(hdr@)));
        }
    } else {
        proof {
            lemma_cat_rec_bytes_nil(version_recs(hdr@));
            assert(out@ =~= old(out)@ + cat_rec_bytes(version_recs(hdr@)));
        }
    }
}

/// Emits the begin-library timestamp record where present.
fn emit_bgn_lib(out: &mut Vec<u8>, hdr: &crate::model::LibraryHeader)
    requires
        header_wf(hdr@),
    ensures
        final(out)@ == old(out)@ + cat_rec_bytes(bgn_lib_recs(hdr@)),
{
    if let Some(t) = &hdr.bgn_lib {
        emit_framed_i16run(out, 0x0102, t);
        proof {
            let r = RecordV::FileHeader(FileHeaderV::BgnLib(t@));
            assert(crate::codec::rec_bytes(r) =~= be_bytes(28, 2) + be_bytes(0x0102, 2)
                + crate::codec::i16s_bytes(t@));
            lemma_cat_rec_bytes_one(r);
            assert(out@ =~= old(out)@ + cat_rec_bytes(bgn_lib_recs(hdr@)));
        }
    } else {
        proof {
            lemma_cat_rec_bytes_nil(bgn_lib_recs(hdr@));
            assert(out@ =~= old(out)@ + cat_rec_bytes(bgn_lib_recs(hdr@)));
        }
    }
}

/// Emits one optional text header record.
///
/// `which` picks the header slot, so that one routine serves the five
/// text keys: 0 library name, 1 reference libraries, 2 fonts,
/// 3 attribute table, 4 mask.
fn emit_opt_text(out: &mut Vec<u8>, hdr: &crate::model::LibraryHeader, which: u8)
    requires
        which < 5,
        header_wf(hdr@),
    ensures
        which == 0 ==> final(out)@ == old(out)@ + cat_rec_bytes(lib_name_recs(hdr@)),
        which == 1 ==> final(out)@ == old(out)@ + cat_rec_bytes(ref_libs_recs(hdr@)),
        which == 2 ==> final(out)@ == old(out)@ + cat_rec_bytes(fonts_recs(hdr@)),
        which == 3 ==> final(out)@ == old(out)@ + cat_rec_bytes(attr_table_recs(hdr@)),
        which == 4 ==> final(out)@ == old(out)@ + cat_rec_bytes(mask_recs(hdr@)),
{
    let slot = if which == 0 {
        &hdr.lib_name
    } else if which == 1 {
        &hdr.ref_libs
    } else if which == 2 {
        &hdr.fonts
    } else if which == 3 {
        &hdr.attr_table
    } else {
        &hdr.mask
    };
    let tag: u16 = if which == 0 {
        0x0206
    } else if which == 1 {
        0x1F06
    } else if which == 2 {
        0x2006
    } else if which == 3 {
        0x2306
    } else {
        0x3706
    };
    if let Some(s) = slot {
        emit_framed_text(out, tag, s);
        proof {
            let r = if which == 0 {
                RecordV::FileHeader(FileHeaderV::LibName(s@))
            } else if which == 1 {
                RecordV::FileHeader(FileHeaderV::RefLibs(s@))
            } else if which == 2 {
                RecordV::FileHeader(FileHeaderV::Fonts(s@))
            } else if which == 3 {
                RecordV::FileHeader(FileHeaderV::AttrTable(s@))
            } else {
                RecordV::FileHeader(FileHeaderV::Mask(s@))
            };
            assert(crate::codec::rec_bytes(r) =~= be_bytes(
                crate::codec::text_bytes(s@).len() as int + 4,
                2,
            ) + be_bytes(tag as int, 2) + crate::codec::text_bytes(s@));
            lemma_cat_rec_bytes_one(r);
        }
    } else {
        proof {
            lemma_cat_rec_bytes_nil(Seq::<RecordV>::empty());
            assert(out@ =~= old(out)@ + cat_rec_bytes(Seq::<RecordV>::empty()));
        }
    }
}

/// Emits the units record where present.
fn emit_units(out: &mut Vec<u8>, hdr: &crate::model::LibraryHeader)
    ensures
        final(out)@ == old(out)@ + cat_rec_bytes(units_recs(hdr@)),
{
    if let Some(u) = &hdr.units {
        emit_framed_units(out, u.0, u.1);
        proof {
            let r = RecordV::FileHeader(FileHeaderV::Units(u.0, u.1));
            assert(crate::codec::rec_bytes(r) =~= be_bytes(20, 2) + be_bytes(0x0305, 2) + (
            crate::codec::u64_bytes(u.0) + crate::codec::u64_bytes(u.1)));
            lemma_cat_rec_bytes_one(r);
            assert(out@ =~= old(out)@ + cat_rec_bytes(units_recs(hdr@)));
        }
    } else {
        proof {
            lemma_cat_rec_bytes_nil(units_recs(hdr@));
            assert(out@ =~= old(out)@ + cat_rec_bytes(units_recs(hdr@)));
        }
    }
}

/// Emits one optional 16-bit header record: 0 generations, 1 format.
fn emit_opt_i16(out: &mut Vec<u8>, hdr: &crate::model::LibraryHeader, which: u8)
    requires
        which < 2,
    ensures
        which == 0 ==> final(out)@ == old(out)@ + cat_rec_bytes(generations_recs(hdr@)),
        which == 1 ==> final(out)@ == old(out)@ + cat_rec_bytes(format_recs(hdr@)),
{
    let slot = if which == 0 {
        &hdr.generations
    } else {
        &hdr.format
    };
    let tag: u16 = if which == 0 {
        0x2202
    } else {
        0x3602
    };
    if let Some(d) = slot {
        emit_framed_i16(out, tag, *d);
        proof {
            let r = if which == 0 {
                RecordV::FileHeader(FileHeaderV::Generations(*d))
            } else {
                RecordV::FileHeader(FileHeaderV::Format(*d))
            };
            assert(crate::codec::rec_bytes(r) =~= be_bytes(6, 2) + be_bytes(tag as int, 2)
                + crate::codec::i16_bytes(*d));
            lemma_cat_rec_bytes_one(r);
        }
    } else {
        proof {
            lemma_cat_rec_bytes_nil(Seq::<RecordV>::empty());
            assert(out@ =~= old(out)@ + cat_rec_bytes(Seq::<RecordV>::empty()));
        }
    }
}

/// Emits the end-of-masks marker where present.
fn emit_end_mask(out: &mut Vec<u8>, hdr: &crate::model::LibraryHeader)
    ensures
        final(out)@ == old(out)@ + cat_rec_bytes(end_mask_recs(hdr@)),
{
    if hdr.end_mask {
        emit_void(out, 0x3800);
        proof {
            let r = RecordV::FileHeader(FileHeaderV::EndMask);
            assert(crate::codec::rec_bytes(r) =~= be_bytes(4, 2) + be_bytes(0x3800, 2)
                + Seq::empty());
            lemma_cat_rec_bytes_one(r);
            assert(out@ =~= old(out)@ + cat_rec_bytes(end_mask_recs(hdr@)));
        }
    } else {
        proof {
            lemma_cat_rec_bytes_nil(end_mask_recs(hdr@));
            assert(out@ =~= old(out)@ + cat_rec_bytes(end_mask_recs(hdr@)));
        }
    }
}

/// Emits the first six header slots, in canonical order.
fn emit_header_a(out: &mut Vec<u8>, hdr: &crate::model::LibraryHeader)
    requires
        header_wf(hdr@),
    ensures
        final(out)@ == old(out)@ + cat_rec_bytes(version_recs(hdr@)) + cat_rec_bytes(
            bgn_lib_recs(hdr@),
        ) + cat_rec_bytes(lib_name_recs(hdr@)) + cat_rec_bytes(units_recs(hdr@)) + cat_rec_bytes(
            ref_libs_recs(hdr@),
        ) + cat_rec_bytes(fonts_recs(hdr@)),
{
    emit_version(out, hdr);
    emit_bgn_lib(out, hdr);
    emit_opt_text(out, hdr, 0);
    emit_units(out, hdr);
    emit_opt_text(out, hdr, 1);
    emit_opt_text(out, hdr, 2);
}

/// Emits the last five header slots, in canonical order.
fn emit_header_b(out: &mut Vec<u8>, hdr: &crate::model::LibraryHeader)
    requires
        header_wf(hdr@),
    ensures
        final(out)@ == old(out)@ + cat_rec_bytes(attr_table_recs(hdr@)) + cat_rec_bytes(
            generations_recs(hdr@),
        ) + cat_rec_bytes(format_recs(hdr@)) + cat_rec_bytes(mask_recs(hdr@)) + cat_rec_bytes(
            end_mask_recs(hdr@),
        ),
{
    emit_opt_text(out, hdr, 3);
    emit_opt_i16(out, hdr, 0);
    emit_opt_i16(out, hdr, 1);
    emit_opt_text(out, hdr, 4);
    emit_end_mask(out, hdr);
}

/// Emits every header record present, in canonical order.
#[verifier::rlimit(100)]
#[verifier::spinoff_prover]
fn emit_header_map(out: &mut Vec<u8>, hdr: &crate::model::LibraryHeader)
    requires
        header_wf(hdr@),
    ensures
        final(out)@ == old(out)@ + cat_rec_bytes(header_recs(hdr@)),
{
    let ghost h = hdr@;
    let ghost base = out@;
    emit_header_a(out, hdr);
    emit_header_b(out, hdr);
    proof {
        let a1 = version_recs(h);
        let a2 = bgn_lib_recs(h);
        let a3 = lib_name_recs(h);
        let a4 = units_recs(h);
        let a5 = ref_libs_recs(h);
        let a6 = fonts_recs(h);
        let a7 = attr_table_recs(h);
        let a8 = generations_recs(h);
        let a9 = format_recs(h);
        let a10 = mask_recs(h);
        let a11 = end_mask_recs(h);
        lemma_cat_rec_bytes_app(a1, a2);
        lemma_cat_rec_bytes_app(a1 + a2, a3);
        lemma_cat_rec_bytes_app(a1 + a2 + a3, a4);
        lemma_cat_rec_bytes_app(a1 + a2 + a3 + a4, a5);
        lemma_cat_rec_bytes_app(a1 + a2 + a3 + a4 + a5, a6);
        lemma_cat_rec_bytes_app(a1 + a2 + a3 + a4 + a5 + a6, a7);
        lemma_cat_rec_bytes_app(a1 + a2 + a3 + a4 + a5 + a6 + a7, a8);
        lemma_cat_rec_bytes_app(a1 + a2 + a3 + a4 + a5 + a6 + a7 + a8, a9);
        lemma_cat_rec_bytes_app(a1 + a2 + a3 + a4 + a5 + a6 + a7 + a8 + a9, a10);
        lemma_cat_rec_bytes_app(a1 + a2 + a3 + a4 + a5 + a6 + a7 + a8 + a9 + a10, a11);
        assert(header_recs(h) == a1 + a2 + a3 + a4 + a5 + a6 + a7 + a8 + a9 + a10 + a11);
        let c1 = cat_rec_bytes(a1);
        let c2 = cat_rec_bytes(a2);
        let c3 = cat_rec_bytes(a3);
        let c4 = cat_rec_bytes(a4);
        let c5 = cat_rec_bytes(a5);
        let c6 = cat_rec_bytes(a6);
        let c7 = cat_rec_bytes(a7);
        let c8 = cat_rec_bytes(a8);
        let c9 = cat_rec_bytes(a9);
        let c10 = cat_rec_bytes(a10);
        let c11 = cat_rec_bytes(a11);
        lemma_bytes_assoc(base, c1, c2);
        lemma_bytes_assoc(base, c1 + c2, c3);
        lemma_bytes_assoc(base, c1 + c2 + c3, c4);
        lemma_bytes_assoc(base, c1 + c2 + c3 + c4, c5);
        lemma_bytes_assoc(base, c1 + c2 + c3 + c4 + c5, c6);
        lemma_bytes_assoc(base, c1 + c2 + c3 + c4 + c5 + c6, c7);
        lemma_bytes_assoc(base, c1 + c2 + c3 + c4 + c5 + c6 + c7, c8);
        lemma_bytes_assoc(base, c1 + c2 + c3 + c4 + c5 + c6 + c7 + c8, c9);
        lemma_bytes_assoc(base, c1 + c2 + c3 + c4 + c5 + c6 + c7 + c8 + c9, c10);
        lemma_bytes_assoc(base, c1 + c2 + c3 + c4 + c5 + c6 + c7 + c8 + c9 + c10, c11);
        assert(out@ == base + cat_rec_bytes(header_recs(h)));
    }
}

/// Emits the structure section's begin-timestamp and name records.
fn emit_structure(out: &mut Vec<u8>, time: &Vec<i16>, name: &Vec<u8>)
    requires
        time@.len() == 12,
        text_wf(name@),
    ensures
        final(out)@ == old(out)@ + cat_rec_bytes(
            seq![
                RecordV::ModuleHeader(ModuleHeaderV::BgnStr(time@)),
                RecordV::ModuleHeader(ModuleHeaderV::StrName(name@)),
            ],
        ),
{
    let ghost base = out@;
    let ghost mut rs: Seq<RecordV> = Seq::empty();
    proof {
        lemma_cat_rec_bytes_nil(rs);
    }
    emit_framed_i16run(out, 0x0502, time);
    proof {
        let r = RecordV::ModuleHeader(ModuleHeaderV::BgnStr(time@));
        assert(crate::codec::rec_bytes(r) =~= be_bytes(28, 2) + be_bytes(0x0502, 2)
            + crate::codec::i16s_bytes(time@));
        lemma_cat_rec_bytes_push(rs, r);
        rs = rs.push(r);
        assert(out@ =~= base + cat_rec_bytes(rs));
    }
    emit_framed_text(out, 0x0606, name);
    proof {
        let r = RecordV::ModuleHeader(ModuleHeaderV::StrName(name@));
        assert(crate::codec::rec_bytes(r) =~= be_bytes(
            crate::codec::text_bytes(name@).len() as int + 4,
            2,
        ) + be_bytes(0x0606, 2) + crate::codec::text_bytes(name@));
        lemma_cat_rec_bytes_push(rs, r);
        rs = rs.push(r);
        assert(out@ =~= base + cat_rec_bytes(rs));
        assert(rs =~= seq![
            RecordV::ModuleHeader(ModuleHeaderV::BgnStr(time@)),
            RecordV::ModuleHeader(ModuleHeaderV::StrName(name@)),
        ]);
    }
}

/// Emits the structure-end and stream-terminal records.
fn emit_tail(out: &mut Vec<u8>)
    ensures
        final(out)@ == old(out)@ + cat_rec_bytes(seq![RecordV::ModuleEnd, RecordV::FileEnd]),
{
    let ghost base = out@;
    let ghost mut rs: Seq<RecordV> = Seq::empty();
    proof {
        lemma_cat_rec_bytes_nil(rs);
    }
    emit_void(out, 0x0700);
    proof {
        assert(crate::codec::rec_bytes(RecordV::ModuleEnd) =~= be_bytes(4, 2) + be_bytes(
            0x0700,
            2,
        ) + Seq::empty());
        lemma_cat_rec_bytes_push(rs, RecordV::ModuleEnd);
        rs = rs.push(RecordV::ModuleEnd);
        assert(out@ =~= base + cat_rec_bytes(rs));
    }
    emit_void(out, 0x0400);
    proof {
        assert(crate::codec::rec_bytes(RecordV::FileEnd) =~= be_bytes(4, 2) + be_bytes(
            0x0400,
            2,
        ) + Seq::empty());
        lemma_cat_rec_bytes_push(rs, RecordV::FileEnd);
        rs = rs.push(RecordV::FileEnd);
        assert(out@ =~= base + cat_rec_bytes(rs));
        assert(rs =~= seq![RecordV::ModuleEnd, RecordV::FileEnd]);
    }
}

impl GDSIIModel {
    /// Encodes the model as one GDSII stream in canonical order, or
    /// fails naming the first absent mandatory header field.  Nothing is
    /// produced on failure: the stream is built whole or not at all.
    #[verifier::rlimit(60)]
#[verifier::spinoff_prover]
    pub fn save_gds2(&self) -> (res: Result<Vec<u8>, GDSIIErrorKind>)
        requires
            model_wf(self@),
        ensures
            match res {
                Ok(out) => model_complete(self@.header) && out@ == spec_encode_model(self@),
                Err(e) => !model_complete(self@.header) && e == GDSIIErrorKind::EncodeFailed(
                    EncodeError { missing_field: first_missing(self@.header) },
                ),
            },
    {
        if self.header.version.is_none() {
            return Err(GDSIIErrorKind::EncodeFailed(EncodeError {
                missing_field: HeaderKey::Version,
            }));
        }
        if self.header.bgn_lib.is_none() {
            return Err(GDSIIErrorKind::EncodeFailed(EncodeError {
                missing_field: HeaderKey::BgnLib,
            }));
        }
        if self.header.lib_name.is_none() {
            return Err(GDSIIErrorKind::EncodeFailed(EncodeError {
                missing_field: HeaderKey::LibName,
            }));
        }
        if self.header.units.is_none() {
            return Err(GDSIIErrorKind::EncodeFailed(EncodeError {
                missing_field: HeaderKey::Units,
            }));
        }
        let mut out: Vec<u8> = Vec::new();
        emit_header_map(&mut out, &self.header);
        emit_structure(&mut out, &self.structure_time, &self.structure_name);
        emit_group(&mut out, TuctosinHeader::Boundary, &self.s_boundary);
        emit_group(&mut out, TuctosinHeader::Path, &self.s_path);
        emit_group(&mut out, TuctosinHeader::Sref, &self.s_sref);
        emit_group(&mut out, TuctosinHeader::Aref, &self.s_aref);
        emit_group(&mut out, TuctosinHeader::Text, &self.s_text);
        emit_group(&mut out, TuctosinHeader::Node, &self.s_node);
        emit_group(&mut out, TuctosinHeader::Box, &self.s_box);
        emit_tail(&mut out);
        proof {
            let hr = header_recs(self@.header);
            let st = structure_recs(self@);
            let g1 = group_recs(TuctosinHeader::Boundary, self@.s_boundary);
            let g2 = group_recs(TuctosinHeader::Path, self@.s_path);
            let g3 = group_recs(TuctosinHeader::Sref, self@.s_sref);
            let g4 = group_recs(TuctosinHeader::Aref, self@.s_aref);
            let g5 = group_recs(TuctosinHeader::Text, self@.s_text);
            let g6 = group_recs(TuctosinHeader::Node, self@.s_node);
            let g7 = group_recs(TuctosinHeader::Box, self@.s_box);
            let tl = seq![RecordV::ModuleEnd, RecordV::FileEnd];
            assert(st =~= seq![
                RecordV::ModuleHeader(ModuleHeaderV::BgnStr(self@.structure_time)),
                RecordV::ModuleHeader(ModuleHeaderV::StrName(self@.structure_name)),
            ]);
            lemma_cat_rec_bytes_app(hr, st);
            lemma_cat_rec_bytes_app(hr + st, g1);
            lemma_cat_rec_bytes_app(hr + st + g1, g2);
            lemma_cat_rec_bytes_app(hr + st + g1 + g2, g3);
            lemma_cat_rec_bytes_app(hr + st + g1 + g2 + g3, g4);
            lemma_cat_rec_bytes_app(hr + st + g1 + g2 + g3 + g4, g5);
            lemma_cat_rec_bytes_app(hr + st + g1 + g2 + g3 + g4 + g5, g6);
            lemma_cat_rec_bytes_app(hr + st + g1 + g2 + g3 + g4 + g5 + g6, g7);
            lemma_cat_rec_bytes_app(hr + st + g1 + g2 + g3 + g4 + g5 + g6 + g7, tl);
            assert(model_recs(self@) == hr + st + g1 + g2 + g3 + g4 + g5 + g6 + g7 + tl);
            let b0 = Seq::<u8>::empty();
            let d1 = cat_rec_bytes(hr);
            let d2 = cat_rec_bytes(st);
            let d3 = cat_rec_bytes(g1);
            let d4 = cat_rec_bytes(g2);
            let d5 = cat_rec_bytes(g3);
            let d6 = cat_rec_bytes(g4);
            let d7 = cat_rec_bytes(g5);
            let d8 = cat_rec_bytes(g6);
            let d9 = cat_rec_bytes(g7);
            let d10 = cat_rec_bytes(tl);
            assert(b0 + d1 =~= d1);
            lemma_bytes_assoc(d1, d2, d3);
            lemma_bytes_assoc(d1, d2 + d3, d4);
            lemma_bytes_assoc(d1, d2 + d3 + d4, d5);
            lemma_bytes_assoc(d1, d2 + d3 + d4 + d5, d6);
            lemma_bytes_assoc(d1, d2 + d3 + d4 + d5 + d6, d7);
            lemma_bytes_assoc(d1, d2 + d3 + d4 + d5 + d6 + d7, d8);
            lemma_bytes_assoc(d1, d2 + d3 + d4 + d5 + d6 + d7 + d8, d9);
            lemma_bytes_assoc(d1, d2 + d3 + d4 + d5 + d6 + d7 + d8 + d9, d10);
            assert(out@ == spec_encode_model(self@));
        }
        Ok(out)
    }
}

// ---------------------------------------------------------------------
// The well-formedness check callers use before encoding.
// ---------------------------------------------------------------------

/// Whether a text payload fits the record length field once padded.
fn text_ok(s: &Vec<u8>) -> (r: bool)
    ensures
        r == text_wf(s@),
{
    let r = s.len() <= 65530;
    proof {
        if s@.len() % 2 == 0 {
            assert(crate::codec::text_bytes(s@).len() == s@.len());
        } else {
            assert(crate::codec::text_bytes(s@).len() == s@.len() + 1);
        }
    }
    r
}

/// Whether one body field is within machine limits.
fn toc_ok(t: &Tuctosin) -> (r: bool)
    ensures
        r == toc_wf(t@),
{
    match t {
        Tuctosin::Xy(ps) => 1 <= ps.len() && ps.len() <= 8191,
        Tuctosin::Sname(s) => text_ok(s),
        Tuctosin::AsciiString(s) => text_ok(s),
        _ => true,
    }
}

/// Whether every field of one group is within machine limits.
fn tocs_ok(v: &Vec<Tuctosin>) -> (r: bool)
    ensures
        r == tocs_wf(tocs_view(v@)),
{
    let ghost ts = tocs_view(v@);
    let mut i: usize = 0;
    while i < v.len()
        invariant
            i <= v@.len(),
            ts == tocs_view(v@),
            forall|j: int| 0 <= j < i ==> toc_wf(#[trigger] ts[j]),
        decreases v@.len() - i,
    {
        if !toc_ok(&v[i]) {
            proof {
                assert(ts[i as int] == v@[i as int]@);
            }
            return false;
        }
        proof {
            assert(ts[i as int] == v@[i as int]@);
        }
        i = i + 1;
    }
    true
}

impl GDSIIModel {
    /// Whether every record this model would emit fits the wire format:
    /// exactly the `save_gds2` machine-limit precondition.
    pub fn is_well_formed(&self) -> (r: bool)
        ensures
            r == model_wf(self@),
    {
        if let Some(t) = &self.header.bgn_lib {
            if t.len() != 12 {
                return false;
            }
        }
        if let Some(s) = &self.header.lib_name {
            if !text_ok(s) {
                return false;
            }
        }
        if let Some(s) = &self.header.ref_libs {
            if !text_ok(s) {
                return false;
            }
        }
        if let Some(s) = &self.header.fonts {
            if !text_ok(s) {
                return false;
            }
        }
        if let Some(s) = &self.header.attr_table {
            if !text_ok(s) {
                return false;
            }
        }
        if let Some(s) = &self.header.mask {
            if !text_ok(s) {
                return false;
            }
        }
        if self.structure_time.len() != 12 {
            return false;
        }
        if !text_ok(&self.structure_name) {
            return false;
        }
        tocs_ok(&self.s_boundary) && tocs_ok(&self.s_path) && tocs_ok(&self.s_sref) && tocs_ok(
            &self.s_aref,
        ) && tocs_ok(&self.s_text) && tocs_ok(&self.s_node) && tocs_ok(&self.s_box)
    }
}

} // verus!
