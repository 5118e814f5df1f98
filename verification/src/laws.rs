//! The codec laws: encoding and decoding are exact inverses.
//!
//! The two public results are `lemma_round_trip` — decoding a model's
//! encoding yields the model back — and `lemma_idempotent` — re-encoding
//! a decoded stream and re-decoding it is stable after the first pass.
//! The error shapes of the decoder (short length, unknown tag, malformed
//! point list, body field outside any group) are stated here as well.

use vstd::prelude::*;

use crate::bytes::{be_bytes, be_val, lemma_be_bytes_val, pow256};
use crate::codec::{be_i16v, be_i32v, be_i64v, be_u16v, be_u64v, i16_bytes, i16s_bytes, i16s_of,
    i32_bytes, i64_bytes, no_pad_end, pair_bytes, points_bytes, points_of, rec_bytes,
    rec_canonical, rec_payload, rec_tag, rec_wf, spec_parse_payload, spec_parse_rec, text_bytes,
    trim_pad, u64_bytes};
use crate::error::{DecodeError, DecodeErrorKind};
use crate::model::{FileHeaderV, LibraryHeaderV, ModelV, ModuleHeaderV, RecordV, TuctosinHeader,
    TuctosinV};
use crate::parser::{apply_file_header, push_toc, spec_decode, spec_run};
use crate::saver::{cat_rec_bytes, lemma_cat_rec_bytes_app, lemma_cat_rec_bytes_nil,
    lemma_cat_rec_bytes_one, model_canonical, model_complete, model_recs, model_wf,
    spec_encode_model};

verus! {

broadcast use crate::bytes::lemma_be_bytes_len, crate::codec::lemma_i16s_bytes_len,
    crate::codec::lemma_points_bytes_len;

// ---------------------------------------------------------------------
// Primitive values survive their wire image.
// ---------------------------------------------------------------------

proof fn lemma_pow256_small()
    ensures
        pow256(2) == 0x1_0000,
        pow256(4) == 0x1_0000_0000,
        pow256(8) == 0x1_0000_0000_0000_0000,
{
    reveal_with_fuel(pow256, 9);
}

pub proof fn lemma_i16_roundtrip(v: i16)
    ensures
        be_i16v(i16_bytes(v)) == v,
{
    lemma_pow256_small();
    lemma_be_bytes_val((v as u16) as int, 2);
    assert(((v as u16) as i16) == v) by (bit_vector);
}

pub proof fn lemma_i32_roundtrip(v: i32)
    ensures
        be_i32v(i32_bytes(v)) == v,
{
    lemma_pow256_small();
    lemma_be_bytes_val((v as u32) as int, 4);
    assert(((v as u32) as i32) == v) by (bit_vector);
}

pub proof fn lemma_i64_roundtrip(v: i64)
    ensures
        be_i64v(i64_bytes(v)) == v,
{
    lemma_pow256_small();
    lemma_be_bytes_val((v as u64) as int, 8);
    assert(((v as u64) as i64) == v) by (bit_vector);
}

pub proof fn lemma_u64_roundtrip(v: u64)
    ensures
        be_u64v(u64_bytes(v)) == v,
{
    lemma_pow256_small();
    lemma_be_bytes_val(v as int, 8);
}

// ---------------------------------------------------------------------
// Runs of values survive their wire image.
// ---------------------------------------------------------------------

proof fn lemma_i16s_bytes_index(vs: Seq<i16>, i: int)
    requires
        0 <= i < vs.len(),
    ensures
        i16s_bytes(vs).subrange(2 * i, 2 * i + 2) == i16_bytes(vs[i]),
    decreases i,
{
    if i == 0 {
        assert(i16s_bytes(vs).subrange(0, 2) =~= i16_bytes(vs[0]));
    } else {
        lemma_i16s_bytes_index(vs.drop_first(), i - 1);
        assert(i16s_bytes(vs).subrange(2 * i, 2 * i + 2) =~= i16s_bytes(
            vs.drop_first(),
        ).subrange(2 * (i - 1), 2 * (i - 1) + 2));
        assert(vs.drop_first()[i - 1] == vs[i]);
    }
}

pub proof fn lemma_i16s_roundtrip(vs: Seq<i16>)
    ensures
        i16s_of(i16s_bytes(vs)) == vs,
{
    assert forall|i: int| 0 <= i < vs.len() implies i16s_of(i16s_bytes(vs))[i] == vs[i] by {
        lemma_i16s_bytes_index(vs, i);
        lemma_i16_roundtrip(vs[i]);
    }
    assert(i16s_of(i16s_bytes(vs)) =~= vs);
}

proof fn lemma_points_bytes_index(ps: Seq<(i32, i32)>, i: int)
    requires
        0 <= i < ps.len(),
    ensures
        points_bytes(ps).subrange(8 * i, 8 * i + 8) == pair_bytes(ps[i]),
    decreases i,
{
    if i == 0 {
        assert(points_bytes(ps).subrange(0, 8) =~= pair_bytes(ps[0]));
    } else {
        lemma_points_bytes_index(ps.drop_first(), i - 1);
        assert(points_bytes(ps).subrange(8 * i, 8 * i + 8) =~= points_bytes(
            ps.drop_first(),
        ).subrange(8 * (i - 1), 8 * (i - 1) + 8));
        assert(ps.drop_first()[i - 1] == ps[i]);
    }
}

pub proof fn lemma_points_roundtrip(ps: Seq<(i32, i32)>)
    ensures
        points_of(points_bytes(ps)) == ps,
{
    assert forall|i: int| 0 <= i < ps.len() implies points_of(points_bytes(ps))[i] == ps[i] by {
        lemma_points_bytes_index(ps, i);
        let sub = points_bytes(ps).subrange(8 * i, 8 * i + 8);
        assert(points_bytes(ps).subrange(8 * i, 8 * i + 4) =~= sub.subrange(0, 4));
        assert(points_bytes(ps).subrange(8 * i + 4, 8 * i + 8) =~= sub.subrange(4, 8));
        assert(sub.subrange(0, 4) =~= i32_bytes(ps[i].0));
        assert(sub.subrange(4, 8) =~= i32_bytes(ps[i].1));
        lemma_i32_roundtrip(ps[i].0);
        lemma_i32_roundtrip(ps[i].1);
    }
    assert(points_of(points_bytes(ps)) =~= ps);
}

// ---------------------------------------------------------------------
// Text survives padding and trimming.
// ---------------------------------------------------------------------

/// Trimming the padded image of an unpadded text gives the text back.
pub proof fn lemma_text_roundtrip(s: Seq<u8>)
    requires
        no_pad_end(s),
    ensures
        trim_pad(text_bytes(s)) == s,
{
    reveal_with_fuel(trim_pad, 2);
    if s.len() % 2 == 0 {
        assert(trim_pad(s) == s);
    } else {
        assert(s.push(0).last() == 0);
        assert(s.push(0).drop_last() =~= s);
        assert(trim_pad(s.push(0)) == trim_pad(s));
        assert(trim_pad(s) == s);
    }
}

/// What trimming produces never ends in padding.
pub proof fn lemma_trim_no_pad(s: Seq<u8>)
    ensures
        no_pad_end(trim_pad(s)),
        trim_pad(s).len() <= s.len(),
    decreases s.len(),
{
    if s.len() > 0 && (s.last() == 0 || s.last() == 32) {
        lemma_trim_no_pad(s.drop_last());
    }
}

// ---------------------------------------------------------------------
// One record survives its wire image.
// ---------------------------------------------------------------------

/// Decoding the payload a record encodes gives the record back, for any
/// well-formed, unpadded record, at any reported offset.
#[verifier::rlimit(60)]
#[verifier::spinoff_prover]
pub proof fn lemma_payload_roundtrip(r: RecordV, pos: int)
    requires
        rec_wf(r),
        rec_canonical(r),
    ensures
        spec_parse_payload(rec_tag(r), rec_payload(r), pos) == Ok::<RecordV, DecodeError>(r),
{
    match r {
        RecordV::FileHeader(fh) => match fh {
            FileHeaderV::Header(v) => {
                assert(rec_payload(r) =~= i16_bytes(v));
                lemma_i16_roundtrip(v);
            },
            FileHeaderV::BgnLib(t) => {
                lemma_i16s_roundtrip(t);
            },
            FileHeaderV::LibName(s) => {
                lemma_text_roundtrip(s);
            },
            FileHeaderV::RefLibs(s) => {
                lemma_text_roundtrip(s);
            },
            FileHeaderV::Fonts(s) => {
                lemma_text_roundtrip(s);
            },
            FileHeaderV::AttrTable(s) => {
                lemma_text_roundtrip(s);
            },
            FileHeaderV::Generations(v) => {
                lemma_i16_roundtrip(v);
            },
            FileHeaderV::Format(v) => {
                lemma_i16_roundtrip(v);
            },
            FileHeaderV::Mask(s) => {
                lemma_text_roundtrip(s);
            },
            FileHeaderV::EndMask => {},
            FileHeaderV::Units(a, b) => {
                let p = rec_payload(r);
                assert(p.subrange(0, 8) =~= u64_bytes(a));
                assert(p.subrange(8, 16) =~= u64_bytes(b));
                lemma_u64_roundtrip(a);
                lemma_u64_roundtrip(b);
            },
        },
        RecordV::ModuleHeader(mh) => match mh {
            ModuleHeaderV::BgnStr(t) => {
                lemma_i16s_roundtrip(t);
            },
            ModuleHeaderV::StrName(s) => {
                lemma_text_roundtrip(s);
            },
        },
        RecordV::TuctosinHeader(_) => {},
        RecordV::Tuctosin(t) => match t {
            TuctosinV::ElfFlags(v) => {
                lemma_i16_roundtrip(v);
            },
            TuctosinV::Plex(v) => {
                lemma_i32_roundtrip(v);
            },
            TuctosinV::Layer(v) => {
                lemma_i16_roundtrip(v);
            },
            TuctosinV::DataType(v) => {
                lemma_i16_roundtrip(v);
            },
            TuctosinV::Xy(ps) => {
                lemma_points_roundtrip(ps);
            },
            TuctosinV::PathType(v) => {
                lemma_i16_roundtrip(v);
            },
            TuctosinV::Width(v) => {
                lemma_i32_roundtrip(v);
            },
            TuctosinV::Sname(s) => {
                lemma_text_roundtrip(s);
            },
            TuctosinV::Strans(v) => {
                lemma_i16_roundtrip(v);
            },
            TuctosinV::Mag(v) => {
                lemma_i64_roundtrip(v);
            },
            TuctosinV::Angle(v) => {
                lemma_i64_roundtrip(v);
            },
            TuctosinV::ColRow(c, rr) => {
                let p = rec_payload(r);
                assert(p.subrange(0, 2) =~= i16_bytes(c));
                assert(p.subrange(2, 4) =~= i16_bytes(rr));
                lemma_i16_roundtrip(c);
                lemma_i16_roundtrip(rr);
            },
            TuctosinV::TextType(v) => {
                lemma_i16_roundtrip(v);
            },
            TuctosinV::Persentation(v) => {
                lemma_i16_roundtrip(v);
            },
            TuctosinV::AsciiString(s) => {
                lemma_text_roundtrip(s);
            },
            TuctosinV::NodeType(v) => {
                lemma_i16_roundtrip(v);
            },
            TuctosinV::BoxType(v) => {
                lemma_i16_roundtrip(v);
            },
        },
        RecordV::TuctosinEnd => {},
        RecordV::ModuleEnd => {},
        RecordV::FileEnd => {},
    }
}

/// Decoding the one record laid down at `pos` gives the record and the
/// offset just past it.
pub proof fn lemma_parse_rec_at(s: Seq<u8>, pos: int, r: RecordV)
    requires
        rec_wf(r),
        rec_canonical(r),
        0 <= pos,
        pos + rec_bytes(r).len() <= s.len(),
        s.subrange(pos, pos + rec_bytes(r).len()) == rec_bytes(r),
    ensures
        spec_parse_rec(s, pos) == Ok::<(RecordV, int), DecodeError>(
            (r, pos + rec_bytes(r).len()),
        ),
{
    let p = rec_payload(r);
    let l = p.len() as int + 4;
    let bytes = rec_bytes(r);
    assert(bytes.len() == l);
    lemma_pow256_small();
    assert forall|i: int| 0 <= i < l implies s[pos + i] == #[trigger] bytes[i] by {
        assert(bytes[i] == s.subrange(pos, pos + l)[i]);
    }
    assert(s.subrange(pos, pos + 2) =~= be_bytes(l, 2)) by {
        assert forall|j: int| 0 <= j < 2 implies s.subrange(pos, pos + 2)[j] == #[trigger] be_bytes(
            l,
            2,
        )[j] by {
            assert(s[pos + j] == bytes[j]);
            assert(bytes[j] == be_bytes(l, 2)[j]);
        }
    }
    lemma_be_bytes_val(l, 2);
    assert(be_val(s.subrange(pos, pos + 2)) == l);
    assert(s.subrange(pos + 2, pos + 4) =~= be_bytes(rec_tag(r) as int, 2)) by {
        assert forall|j: int| 0 <= j < 2 implies s.subrange(pos + 2, pos + 4)[j]
            == #[trigger] be_bytes(rec_tag(r) as int, 2)[j] by {
            assert(s[pos + 2 + j] == bytes[2 + j]);
            assert(bytes[2 + j] == be_bytes(rec_tag(r) as int, 2)[j]);
        }
    }
    lemma_be_bytes_val(rec_tag(r) as int, 2);
    assert(be_u16v(s.subrange(pos + 2, pos + 4)) == rec_tag(r));
    assert(s.subrange(pos + 4, pos + l) =~= p) by {
        assert forall|j: int| 0 <= j < p.len() implies s.subrange(pos + 4, pos + l)[j]
            == #[trigger] p[j] by {
            assert(s[pos + 4 + j] == bytes[4 + j]);
            assert(bytes[4 + j] == p[j]);
        }
    }
    lemma_payload_roundtrip(r, pos);
}

// ---------------------------------------------------------------------
// Walking a stream record by record.
// ---------------------------------------------------------------------

/// The singleton record sequence of an optional header record.
spec fn opt_rec(fh: Option<FileHeaderV>) -> Seq<RecordV> {
    match fh {
        Some(x) => seq![RecordV::FileHeader(x)],
        None => Seq::empty(),
    }
}

/// A header map folded over another: every present field of `h`
/// overwrites the base, as the decoder's last-write-wins policy does.
spec fn merge_header(base: LibraryHeaderV, h: LibraryHeaderV) -> LibraryHeaderV {
    LibraryHeaderV {
        version: if h.version is Some { h.version } else { base.version },
        bgn_lib: if h.bgn_lib is Some { h.bgn_lib } else { base.bgn_lib },
        lib_name: if h.lib_name is Some { h.lib_name } else { base.lib_name },
        ref_libs: if h.ref_libs is Some { h.ref_libs } else { base.ref_libs },
        fonts: if h.fonts is Some { h.fonts } else { base.fonts },
        attr_table: if h.attr_table is Some { h.attr_table } else { base.attr_table },
        generations: if h.generations is Some { h.generations } else { base.generations },
        format: if h.format is Some { h.format } else { base.format },
        mask: if h.mask is Some { h.mask } else { base.mask },
        end_mask: base.end_mask || h.end_mask,
        units: if h.units is Some { h.units } else { base.units },
    }
}

/// A model with one element group extended by a run of fields.
spec fn push_group(m: ModelV, k: TuctosinHeader, ts: Seq<TuctosinV>) -> ModelV {
    match k {
        TuctosinHeader::Boundary => ModelV { s_boundary: m.s_boundary + ts, ..m },
        TuctosinHeader::Path => ModelV { s_path: m.s_path + ts, ..m },
        TuctosinHeader::Sref => ModelV { s_sref: m.s_sref + ts, ..m },
        TuctosinHeader::Aref => ModelV { s_aref: m.s_aref + ts, ..m },
        TuctosinHeader::Text => ModelV { s_text: m.s_text + ts, ..m },
        TuctosinHeader::Node => ModelV { s_node: m.s_node + ts, ..m },
        TuctosinHeader::Box => ModelV { s_box: m.s_box + ts, ..m },
    }
}

/// One step of the decoder's state machine, for the one record laid down
/// at `pos`.
proof fn lemma_run_step(
    s: Seq<u8>,
    pos: int,
    r: RecordV,
    m: ModelV,
    active: Option<TuctosinHeader>,
)
    requires
        rec_wf(r),
        rec_canonical(r),
        0 <= pos,
        pos + rec_bytes(r).len() <= s.len(),
        s.subrange(pos, pos + rec_bytes(r).len()) == rec_bytes(r),
    ensures
        ({
            let next = pos + rec_bytes(r).len() as int;
            match r {
                RecordV::FileEnd => spec_run(s, pos, m, active) == Ok::<ModelV, DecodeError>(m),
                RecordV::FileHeader(fh) => spec_run(s, pos, m, active) == spec_run(
                    s,
                    next,
                    ModelV { header: apply_file_header(m.header, fh), ..m },
                    active,
                ),
                RecordV::ModuleHeader(mh) => match mh {
                    ModuleHeaderV::BgnStr(t) => spec_run(s, pos, m, active) == spec_run(
                        s,
                        next,
                        ModelV { structure_time: t, ..m },
                        active,
                    ),
                    ModuleHeaderV::StrName(n) => spec_run(s, pos, m, active) == spec_run(
                        s,
                        next,
                        ModelV { structure_name: n, ..m },
                        active,
                    ),
                },
                RecordV::TuctosinHeader(k) => spec_run(s, pos, m, active) == spec_run(
                    s,
                    next,
                    m,
                    Some(k),
                ),
                RecordV::Tuctosin(t) => match active {
                    Some(k) => spec_run(s, pos, m, active) == spec_run(
                        s,
                        next,
                        push_toc(m, k, t),
                        active,
                    ),
                    None => true,
                },
                RecordV::TuctosinEnd => spec_run(s, pos, m, active) == spec_run(s, next, m, None),
                RecordV::ModuleEnd => spec_run(s, pos, m, active) == spec_run(s, next, m, None),
            }
        }),
{
    lemma_parse_rec_at(s, pos, r);
}

/// Splits a laid-down concatenation of two record runs into its parts.
proof fn lemma_sub_cat_split(s: Seq<u8>, pos: int, a: Seq<RecordV>, b: Seq<RecordV>)
    requires
        0 <= pos,
        pos + cat_rec_bytes(a + b).len() <= s.len(),
        s.subrange(pos, pos + cat_rec_bytes(a + b).len()) == cat_rec_bytes(a + b),
    ensures
        cat_rec_bytes(a + b).len() == cat_rec_bytes(a).len() + cat_rec_bytes(b).len(),
        s.subrange(pos, pos + cat_rec_bytes(a).len()) == cat_rec_bytes(a),
        s.subrange(
            pos + cat_rec_bytes(a).len(),
            pos + cat_rec_bytes(a).len() + cat_rec_bytes(b).len(),
        ) == cat_rec_bytes(b),
{
    lemma_cat_rec_bytes_app(a, b);
    let ca = cat_rec_bytes(a);
    let cb = cat_rec_bytes(b);
    let l = ca.len() as int + cb.len() as int;
    assert forall|i: int| 0 <= i < l implies s[pos + i] == #[trigger] (ca + cb)[i] by {
        assert((ca + cb)[i] == s.subrange(pos, pos + l)[i]);
    }
    assert(s.subrange(pos, pos + ca.len()) =~= ca) by {
        assert forall|j: int| 0 <= j < ca.len() implies s.subrange(pos, pos + ca.len())[j]
            == #[trigger] ca[j] by {
            assert(s[pos + j] == (ca + cb)[j]);
        }
    }
    assert(s.subrange(pos + ca.len(), pos + ca.len() + cb.len()) =~= cb) by {
        assert forall|j: int| 0 <= j < cb.len() implies s.subrange(
            pos + ca.len(),
            pos + ca.len() + cb.len(),
        )[j] == #[trigger] cb[j] by {
            assert(s[pos + ca.len() + j] == (ca + cb)[ca.len() + j]);
        }
    }
}

/// One optional header record: where present it overwrites its slot,
/// where absent nothing is read.
proof fn lemma_run_opt_header(
    s: Seq<u8>,
    pos: int,
    fh: Option<FileHeaderV>,
    m: ModelV,
    active: Option<TuctosinHeader>,
)
    requires
        match fh {
            Some(x) => rec_wf(RecordV::FileHeader(x)) && rec_canonical(RecordV::FileHeader(x)),
            None => true,
        },
        0 <= pos,
        pos + cat_rec_bytes(opt_rec(fh)).len() <= s.len(),
        s.subrange(pos, pos + cat_rec_bytes(opt_rec(fh)).len()) == cat_rec_bytes(opt_rec(fh)),
    ensures
        match fh {
            Some(x) => spec_run(s, pos, m, active) == spec_run(
                s,
                pos + cat_rec_bytes(opt_rec(fh)).len(),
                ModelV { header: apply_file_header(m.header, x), ..m },
                active,
            ),
            None => spec_run(s, pos, m, active) == spec_run(
                s,
                pos + cat_rec_bytes(opt_rec(fh)).len(),
                m,
                active,
            ),
        },
{
    match fh {
        Some(x) => {
            lemma_cat_rec_bytes_one(RecordV::FileHeader(x));
            lemma_run_step(s, pos, RecordV::FileHeader(x), m, active);
        },
        None => {
            lemma_cat_rec_bytes_nil(opt_rec(fh));
        },
    }
}

/// The first six header slots of `h` folded over a base map.
spec fn merge_front(base: LibraryHeaderV, h: LibraryHeaderV) -> LibraryHeaderV {
    LibraryHeaderV {
        version: if h.version is Some { h.version } else { base.version },
        bgn_lib: if h.bgn_lib is Some { h.bgn_lib } else { base.bgn_lib },
        lib_name: if h.lib_name is Some { h.lib_name } else { base.lib_name },
        units: if h.units is Some { h.units } else { base.units },
        ref_libs: if h.ref_libs is Some { h.ref_libs } else { base.ref_libs },
        fonts: if h.fonts is Some { h.fonts } else { base.fonts },
        ..base
    }
}

/// The front of the header section: the four mandatory slots, the
/// reference libraries and the fonts.
spec fn front_recs(h: LibraryHeaderV) -> Seq<RecordV> {
    crate::saver::version_recs(h) + crate::saver::bgn_lib_recs(h) + crate::saver::lib_name_recs(h)
        + crate::saver::units_recs(h) + crate::saver::ref_libs_recs(h)
        + crate::saver::fonts_recs(h)
}

/// The back of the header section: the remaining optional slots.
spec fn back_recs(h: LibraryHeaderV) -> Seq<RecordV> {
    crate::saver::attr_table_recs(h) + crate::saver::generations_recs(h)
        + crate::saver::format_recs(h) + crate::saver::mask_recs(h)
        + crate::saver::end_mask_recs(h)
}

/// The first three header slots.
spec fn front_a_recs(h: LibraryHeaderV) -> Seq<RecordV> {
    crate::saver::version_recs(h) + crate::saver::bgn_lib_recs(h) + crate::saver::lib_name_recs(h)
}

/// The next three header slots.
spec fn front_b_recs(h: LibraryHeaderV) -> Seq<RecordV> {
    crate::saver::units_recs(h) + crate::saver::ref_libs_recs(h) + crate::saver::fonts_recs(h)
}

#[verifier::rlimit(100)]
#[verifier::spinoff_prover]
proof fn lemma_run_header_front_a(
    s: Seq<u8>,
    pos: int,
    h: LibraryHeaderV,
    m: ModelV,
    active: Option<TuctosinHeader>,
)
    requires
        crate::saver::header_wf(h),
        crate::saver::opt_text_canonical(h.lib_name),
        0 <= pos,
        pos + cat_rec_bytes(front_a_recs(h)).len() <= s.len(),
        s.subrange(pos, pos + cat_rec_bytes(front_a_recs(h)).len()) == cat_rec_bytes(
            front_a_recs(h),
        ),
    ensures
        spec_run(s, pos, m, active) == spec_run(
            s,
            pos + cat_rec_bytes(front_a_recs(h)).len(),
            ModelV {
                header: LibraryHeaderV {
                    version: if h.version is Some { h.version } else { m.header.version },
                    bgn_lib: if h.bgn_lib is Some { h.bgn_lib } else { m.header.bgn_lib },
                    lib_name: if h.lib_name is Some { h.lib_name } else { m.header.lib_name },
                    ..m.header
                },
                ..m
            },
            active,
        ),
{
    let p1 = crate::saver::version_recs(h);
    let p2 = crate::saver::bgn_lib_recs(h);
    let p3 = crate::saver::lib_name_recs(h);
    let t3 = p3;
    let t2 = p2 + t3;
    let t1 = p1 + t2;
    assert(front_a_recs(h) =~= t1);
    let f1: Option<FileHeaderV> = match h.version {
        Some(v) => Some(FileHeaderV::Header(v)),
        None => None,
    };
    let f2: Option<FileHeaderV> = match h.bgn_lib {
        Some(t) => Some(FileHeaderV::BgnLib(t)),
        None => None,
    };
    let f3: Option<FileHeaderV> = match h.lib_name {
        Some(x) => Some(FileHeaderV::LibName(x)),
        None => None,
    };
    assert(p1 =~= opt_rec(f1));
    assert(p2 =~= opt_rec(f2));
    assert(p3 =~= opt_rec(f3));
    let pos0 = pos;
    lemma_sub_cat_split(s, pos0, p1, t2);
    lemma_run_opt_header(s, pos0, f1, m, active);
    let pos1 = pos0 + cat_rec_bytes(p1).len();
    let m1 = match f1 {
        Some(x) => ModelV { header: apply_file_header(m.header, x), ..m },
        None => m,
    };
    lemma_sub_cat_split(s, pos1, p2, t3);
    lemma_run_opt_header(s, pos1, f2, m1, active);
    let pos2 = pos1 + cat_rec_bytes(p2).len();
    let m2 = match f2 {
        Some(x) => ModelV { header: apply_file_header(m1.header, x), ..m1 },
        None => m1,
    };
    lemma_run_opt_header(s, pos2, f3, m2, active);
    let m3 = match f3 {
        Some(x) => ModelV { header: apply_file_header(m2.header, x), ..m2 },
        None => m2,
    };
    assert(m3 =~= (ModelV {
        header: LibraryHeaderV {
            version: if h.version is Some { h.version } else { m.header.version },
            bgn_lib: if h.bgn_lib is Some { h.bgn_lib } else { m.header.bgn_lib },
            lib_name: if h.lib_name is Some { h.lib_name } else { m.header.lib_name },
            ..m.header
        },
        ..m
    }));
}

#[verifier::rlimit(100)]
#[verifier::spinoff_prover]
proof fn lemma_run_header_front_b(
    s: Seq<u8>,
    pos: int,
    h: LibraryHeaderV,
    m: ModelV,
    active: Option<TuctosinHeader>,
)
    requires
        crate::saver::header_wf(h),
        crate::saver::opt_text_canonical(h.ref_libs),
        crate::saver::opt_text_canonical(h.fonts),
        0 <= pos,
        pos + cat_rec_bytes(front_b_recs(h)).len() <= s.len(),
        s.subrange(pos, pos + cat_rec_bytes(front_b_recs(h)).len()) == cat_rec_bytes(
            front_b_recs(h),
        ),
    ensures
        spec_run(s, pos, m, active) == spec_run(
            s,
            pos + cat_rec_bytes(front_b_recs(h)).len(),
            ModelV {
                header: LibraryHeaderV {
                    units: if h.units is Some { h.units } else { m.header.units },
                    ref_libs: if h.ref_libs is Some { h.ref_libs } else { m.header.ref_libs },
                    fonts: if h.fonts is Some { h.fonts } else { m.header.fonts },
                    ..m.header
                },
                ..m
            },
            active,
        ),
{
    let p4 = crate::saver::units_recs(h);
    let p5 = crate::saver::ref_libs_recs(h);
    let p6 = crate::saver::fonts_recs(h);
    let t6 = p6;
    let t5 = p5 + t6;
    let t4 = p4 + t5;
    assert(front_b_recs(h) =~= t4);
    let f4: Option<FileHeaderV> = match h.units {
        Some(u) => Some(FileHeaderV::Units(u.0, u.1)),
        None => None,
    };
    let f5: Option<FileHeaderV> = match h.ref_libs {
        Some(x) => Some(FileHeaderV::RefLibs(x)),
        None => None,
    };
    let f6: Option<FileHeaderV> = match h.fonts {
        Some(x) => Some(FileHeaderV::Fonts(x)),
        None => None,
    };
    assert(p4 =~= opt_rec(f4));
    assert(p5 =~= opt_rec(f5));
    assert(p6 =~= opt_rec(f6));
    let pos0 = pos;
    lemma_sub_cat_split(s, pos0, p4, t5);
    lemma_run_opt_header(s, pos0, f4, m, active);
    let pos1 = pos0 + cat_rec_bytes(p4).len();
    let m4 = match f4 {
        Some(x) => ModelV { header: apply_file_header(m.header, x), ..m },
        None => m,
    };
    lemma_sub_cat_split(s, pos1, p5, t6);
    lemma_run_opt_header(s, pos1, f5, m4, active);
    let pos2 = pos1 + cat_rec_bytes(p5).len();
    let m5 = match f5 {
        Some(x) => ModelV { header: apply_file_header(m4.header, x), ..m4 },
        None => m4,
    };
    lemma_run_opt_header(s, pos2, f6, m5, active);
    let m6 = match f6 {
        Some(x) => ModelV { header: apply_file_header(m5.header, x), ..m5 },
        None => m5,
    };
    assert(m6 =~= (ModelV {
        header: LibraryHeaderV {
            units: if h.units is Some { h.units } else { m.header.units },
            ref_libs: if h.ref_libs is Some { h.ref_libs } else { m.header.ref_libs },
            fonts: if h.fonts is Some { h.fonts } else { m.header.fonts },
            ..m.header
        },
        ..m
    }));
}

#[verifier::rlimit(100)]
#[verifier::spinoff_prover]
proof fn lemma_run_header_front(
    s: Seq<u8>,
    pos: int,
    h: LibraryHeaderV,
    m: ModelV,
    active: Option<TuctosinHeader>,
)
    requires
        crate::saver::header_wf(h),
        crate::saver::opt_text_canonical(h.lib_name),
        crate::saver::opt_text_canonical(h.ref_libs),
        crate::saver::opt_text_canonical(h.fonts),
        0 <= pos,
        pos + cat_rec_bytes(front_recs(h)).len() <= s.len(),
        s.subrange(pos, pos + cat_rec_bytes(front_recs(h)).len()) == cat_rec_bytes(front_recs(h)),
    ensures
        spec_run(s, pos, m, active) == spec_run(
            s,
            pos + cat_rec_bytes(front_recs(h)).len(),
            ModelV { header: merge_front(m.header, h), ..m },
            active,
        ),
{
    assert(front_recs(h) =~= front_a_recs(h) + front_b_recs(h));
    lemma_sub_cat_split(s, pos, front_a_recs(h), front_b_recs(h));
    lemma_run_header_front_a(s, pos, h, m, active);
    let mid = pos + cat_rec_bytes(front_a_recs(h)).len();
    let ma = ModelV {
        header: LibraryHeaderV {
            version: if h.version is Some { h.version } else { m.header.version },
            bgn_lib: if h.bgn_lib is Some { h.bgn_lib } else { m.header.bgn_lib },
            lib_name: if h.lib_name is Some { h.lib_name } else { m.header.lib_name },
            ..m.header
        },
        ..m
    };
    lemma_run_header_front_b(s, mid, h, ma, active);
    let mb = ModelV {
        header: LibraryHeaderV {
            units: if h.units is Some { h.units } else { ma.header.units },
            ref_libs: if h.ref_libs is Some { h.ref_libs } else { ma.header.ref_libs },
            fonts: if h.fonts is Some { h.fonts } else { ma.header.fonts },
            ..ma.header
        },
        ..ma
    };
    assert(mb =~= (ModelV { header: merge_front(m.header, h), ..m }));
}

/// The seventh to ninth header slots.
spec fn back_a_recs(h: LibraryHeaderV) -> Seq<RecordV> {
    crate::saver::attr_table_recs(h) + crate::saver::generations_recs(h)
        + crate::saver::format_recs(h)
}

/// The last two header slots.
spec fn back_b_recs(h: LibraryHeaderV) -> Seq<RecordV> {
    crate::saver::mask_recs(h) + crate::saver::end_mask_recs(h)
}

#[verifier::rlimit(100)]
#[verifier::spinoff_prover]
proof fn lemma_run_header_back_a(
    s: Seq<u8>,
    pos: int,
    h: LibraryHeaderV,
    m: ModelV,
    active: Option<TuctosinHeader>,
)
    requires
        crate::saver::header_wf(h),
        crate::saver::opt_text_canonical(h.attr_table),
        0 <= pos,
        pos + cat_rec_bytes(back_a_recs(h)).len() <= s.len(),
        s.subrange(pos, pos + cat_rec_bytes(back_a_recs(h)).len()) == cat_rec_bytes(
            back_a_recs(h),
        ),
    ensures
        spec_run(s, pos, m, active) == spec_run(
            s,
            pos + cat_rec_bytes(back_a_recs(h)).len(),
            ModelV {
                header: LibraryHeaderV {
                    attr_table: if h.attr_table is Some { h.attr_table } else {
                        m.header.attr_table
                    },
                    generations: if h.generations is Some { h.generations } else {
                        m.header.generations
                    },
                    format: if h.format is Some { h.format } else { m.header.format },
                    ..m.header
                },
                ..m
            },
            active,
        ),
{
    let p7 = crate::saver::attr_table_recs(h);
    let p8 = crate::saver::generations_recs(h);
    let p9 = crate::saver::format_recs(h);
    let t9 = p9;
    let t8 = p8 + t9;
    let t7 = p7 + t8;
    assert(back_a_recs(h) =~= t7);
    let f7: Option<FileHeaderV> = match h.attr_table {
        Some(x) => Some(FileHeaderV::AttrTable(x)),
        None => None,
    };
    let f8: Option<FileHeaderV> = match h.generations {
        Some(v) => Some(FileHeaderV::Generations(v)),
        None => None,
    };
    let f9: Option<FileHeaderV> = match h.format {
        Some(v) => Some(FileHeaderV::Format(v)),
        None => None,
    };
    assert(p7 =~= opt_rec(f7));
    assert(p8 =~= opt_rec(f8));
    assert(p9 =~= opt_rec(f9));
    let pos0 = pos;
    lemma_sub_cat_split(s, pos0, p7, t8);
    lemma_run_opt_header(s, pos0, f7, m, active);
    let pos1 = pos0 + cat_rec_bytes(p7).len();
    let m7 = match f7 {
        Some(x) => ModelV { header: apply_file_header(m.header, x), ..m },
        None => m,
    };
    lemma_sub_cat_split(s, pos1, p8, t9);
    lemma_run_opt_header(s, pos1, f8, m7, active);
    let pos2 = pos1 + cat_rec_bytes(p8).len();
    let m8 = match f8 {
        Some(x) => ModelV { header: apply_file_header(m7.header, x), ..m7 },
        None => m7,
    };
    lemma_run_opt_header(s, pos2, f9, m8, active);
    let m9 = match f9 {
        Some(x) => ModelV { header: apply_file_header(m8.header, x), ..m8 },
        None => m8,
    };
    assert(m9 =~= (ModelV {
        header: LibraryHeaderV {
            attr_table: if h.attr_table is Some { h.attr_table } else { m.header.attr_table },
            generations: if h.generations is Some { h.generations } else {
                m.header.generations
            },
            format: if h.format is Some { h.format } else { m.header.format },
            ..m.header
        },
        ..m
    }));
}

#[verifier::rlimit(100)]
#[verifier::spinoff_prover]
proof fn lemma_run_header_back_b(
    s: Seq<u8>,
    pos: int,
    h: LibraryHeaderV,
    m: ModelV,
    active: Option<TuctosinHeader>,
)
    requires
        crate::saver::header_wf(h),
        crate::saver::opt_text_canonical(h.mask),
        0 <= pos,
        pos + cat_rec_bytes(back_b_recs(h)).len() <= s.len(),
        s.subrange(pos, pos + cat_rec_bytes(back_b_recs(h)).len()) == cat_rec_bytes(
            back_b_recs(h),
        ),
    ensures
        spec_run(s, pos, m, active) == spec_run(
            s,
            pos + cat_rec_bytes(back_b_recs(h)).len(),
            ModelV {
                header: LibraryHeaderV {
                    mask: if h.mask is Some { h.mask } else { m.header.mask },
                    end_mask: m.header.end_mask || h.end_mask,
                    ..m.header
                },
                ..m
            },
            active,
        ),
{
    let p10 = crate::saver::mask_recs(h);
    let p11 = crate::saver::end_mask_recs(h);
    let t11 = p11;
    let t10 = p10 + t11;
    assert(back_b_recs(h) =~= t10);
    let f10: Option<FileHeaderV> = match h.mask {
        Some(x) => Some(FileHeaderV::Mask(x)),
        None => None,
    };
    let f11: Option<FileHeaderV> = if h.end_mask {
        Some(FileHeaderV::EndMask)
    } else {
        None
    };
    assert(p10 =~= opt_rec(f10));
    assert(p11 =~= opt_rec(f11));
    let pos0 = pos;
    lemma_sub_cat_split(s, pos0, p10, t11);
    lemma_run_opt_header(s, pos0, f10, m, active);
    let pos1 = pos0 + cat_rec_bytes(p10).len();
    let m10 = match f10 {
        Some(x) => ModelV { header: apply_file_header(m.header, x), ..m },
        None => m,
    };
    lemma_run_opt_header(s, pos1, f11, m10, active);
    let m11 = match f11 {
        Some(x) => ModelV { header: apply_file_header(m10.header, x), ..m10 },
        None => m10,
    };
    assert(m11 =~= (ModelV {
        header: LibraryHeaderV {
            mask: if h.mask is Some { h.mask } else { m.header.mask },
            end_mask: m.header.end_mask || h.end_mask,
            ..m.header
        },
        ..m
    }));
}

#[verifier::rlimit(100)]
#[verifier::spinoff_prover]
proof fn lemma_run_header_back(
    s: Seq<u8>,
    pos: int,
    h: LibraryHeaderV,
    m: ModelV,
    active: Option<TuctosinHeader>,
)
    requires
        crate::saver::header_wf(h),
        crate::saver::opt_text_canonical(h.attr_table),
        crate::saver::opt_text_canonical(h.mask),
        0 <= pos,
        pos + cat_rec_bytes(back_recs(h)).len() <= s.len(),
        s.subrange(pos, pos + cat_rec_bytes(back_recs(h)).len()) == cat_rec_bytes(back_recs(h)),
    ensures
        spec_run(s, pos, m, active) == spec_run(
            s,
            pos + cat_rec_bytes(back_recs(h)).len(),
            ModelV {
                header: LibraryHeaderV {
                    attr_table: if h.attr_table is Some { h.attr_table } else {
                        m.header.attr_table
                    },
                    generations: if h.generations is Some { h.generations } else {
                        m.header.generations
                    },
                    format: if h.format is Some { h.format } else { m.header.format },
                    mask: if h.mask is Some { h.mask } else { m.header.mask },
                    end_mask: m.header.end_mask || h.end_mask,
                    ..m.header
                },
                ..m
            },
            active,
        ),
{
    assert(back_recs(h) =~= back_a_recs(h) + back_b_recs(h));
    lemma_sub_cat_split(s, pos, back_a_recs(h), back_b_recs(h));
    lemma_run_header_back_a(s, pos, h, m, active);
    let mid = pos + cat_rec_bytes(back_a_recs(h)).len();
    let ma = ModelV {
        header: LibraryHeaderV {
            attr_table: if h.attr_table is Some { h.attr_table } else { m.header.attr_table },
            generations: if h.generations is Some { h.generations } else {
                m.header.generations
            },
            format: if h.format is Some { h.format } else { m.header.format },
            ..m.header
        },
        ..m
    };
    lemma_run_header_back_b(s, mid, h, ma, active);
    let mb = ModelV {
        header: LibraryHeaderV {
            mask: if h.mask is Some { h.mask } else { ma.header.mask },
            end_mask: ma.header.end_mask || h.end_mask,
            ..ma.header
        },
        ..ma
    };
    assert(mb =~= (ModelV {
        header: LibraryHeaderV {
            attr_table: if h.attr_table is Some { h.attr_table } else { m.header.attr_table },
            generations: if h.generations is Some { h.generations } else {
                m.header.generations
            },
            format: if h.format is Some { h.format } else { m.header.format },
            mask: if h.mask is Some { h.mask } else { m.header.mask },
            end_mask: m.header.end_mask || h.end_mask,
            ..m.header
        },
        ..m
    }));
}

/// Running the decoder over a laid-down header section folds every
/// present field into the header map, and touches nothing else.
#[verifier::rlimit(100)]
#[verifier::spinoff_prover]
proof fn lemma_run_header(
    s: Seq<u8>,
    pos: int,
    h: LibraryHeaderV,
    m: ModelV,
    active: Option<TuctosinHeader>,
)
    requires
        crate::saver::header_wf(h),
        crate::saver::opt_text_canonical(h.lib_name),
        crate::saver::opt_text_canonical(h.ref_libs),
        crate::saver::opt_text_canonical(h.fonts),
        crate::saver::opt_text_canonical(h.attr_table),
        crate::saver::opt_text_canonical(h.mask),
        0 <= pos,
        pos + cat_rec_bytes(crate::saver::header_recs(h)).len() <= s.len(),
        s.subrange(pos, pos + cat_rec_bytes(crate::saver::header_recs(h)).len())
            == cat_rec_bytes(crate::saver::header_recs(h)),
    ensures
        spec_run(s, pos, m, active) == spec_run(
            s,
            pos + cat_rec_bytes(crate::saver::header_recs(h)).len(),
            ModelV { header: merge_header(m.header, h), ..m },
            active,
        ),
{
    assert(crate::saver::header_recs(h) =~= front_recs(h) + back_recs(h));
    lemma_sub_cat_split(s, pos, front_recs(h), back_recs(h));
    lemma_run_header_front(s, pos, h, m, active);
    let mid = pos + cat_rec_bytes(front_recs(h)).len();
    let mf = ModelV { header: merge_front(m.header, h), ..m };
    lemma_run_header_back(s, mid, h, mf, active);
    let mb = ModelV {
        header: LibraryHeaderV {
            attr_table: if h.attr_table is Some { h.attr_table } else { mf.header.attr_table },
            generations: if h.generations is Some { h.generations } else {
                mf.header.generations
            },
            format: if h.format is Some { h.format } else { mf.header.format },
            mask: if h.mask is Some { h.mask } else { mf.header.mask },
            end_mask: mf.header.end_mask || h.end_mask,
            ..mf.header
        },
        ..mf
    };
    assert(mb =~= (ModelV { header: merge_header(m.header, h), ..m }));
}


/// The structure section sets the timestamp and the name, in that order.
proof fn lemma_run_structure(
    s: Seq<u8>,
    pos: int,
    time: Seq<i16>,
    name: Seq<u8>,
    m: ModelV,
    active: Option<TuctosinHeader>,
)
    requires
        time.len() == 12,
        crate::saver::text_wf(name),
        no_pad_end(name),
        0 <= pos,
        pos + cat_rec_bytes(
            seq![
                RecordV::ModuleHeader(ModuleHeaderV::BgnStr(time)),
                RecordV::ModuleHeader(ModuleHeaderV::StrName(name)),
            ],
        ).len() <= s.len(),
        s.subrange(
            pos,
            pos + cat_rec_bytes(
                seq![
                    RecordV::ModuleHeader(ModuleHeaderV::BgnStr(time)),
                    RecordV::ModuleHeader(ModuleHeaderV::StrName(name)),
                ],
            ).len(),
        ) == cat_rec_bytes(
            seq![
                RecordV::ModuleHeader(ModuleHeaderV::BgnStr(time)),
                RecordV::ModuleHeader(ModuleHeaderV::StrName(name)),
            ],
        ),
    ensures
        spec_run(s, pos, m, active) == spec_run(
            s,
            pos + cat_rec_bytes(
                seq![
                    RecordV::ModuleHeader(ModuleHeaderV::BgnStr(time)),
                    RecordV::ModuleHeader(ModuleHeaderV::StrName(name)),
                ],
            ).len(),
            ModelV { structure_time: time, structure_name: name, ..m },
            active,
        ),
{
    let r1 = RecordV::ModuleHeader(ModuleHeaderV::BgnStr(time));
    let r2 = RecordV::ModuleHeader(ModuleHeaderV::StrName(name));
    assert(seq![r1, r2] =~= seq![r1] + seq![r2]);
    lemma_sub_cat_split(s, pos, seq![r1], seq![r2]);
    lemma_cat_rec_bytes_one(r1);
    lemma_cat_rec_bytes_one(r2);
    lemma_run_step(s, pos, r1, m, active);
    let m1 = ModelV { structure_time: time, ..m };
    lemma_run_step(s, pos + rec_bytes(r1).len(), r2, m1, active);
    let m2 = ModelV { structure_name: name, ..m1 };
    assert(m2 =~= (ModelV { structure_time: time, structure_name: name, ..m }));
}

/// A run of body-field records extends the active group in file order.
proof fn lemma_run_tocs(s: Seq<u8>, pos: int, k: TuctosinHeader, ts: Seq<TuctosinV>, m: ModelV)
    requires
        crate::saver::tocs_wf(ts),
        crate::saver::tocs_canonical(ts),
        0 <= pos,
        pos + cat_rec_bytes(crate::saver::tocs_recs(ts)).len() <= s.len(),
        s.subrange(pos, pos + cat_rec_bytes(crate::saver::tocs_recs(ts)).len()) == cat_rec_bytes(
            crate::saver::tocs_recs(ts),
        ),
    ensures
        spec_run(s, pos, m, Some(k)) == spec_run(
            s,
            pos + cat_rec_bytes(crate::saver::tocs_recs(ts)).len(),
            push_group(m, k, ts),
            Some(k),
        ),
    decreases ts.len(),
{
    if ts.len() == 0 {
        lemma_cat_rec_bytes_nil(crate::saver::tocs_recs(ts));
        assert(push_group(m, k, ts) =~= m);
    } else {
        let r0 = RecordV::Tuctosin(ts[0]);
        let rest = ts.drop_first();
        assert(crate::saver::tocs_recs(ts) =~= seq![r0] + crate::saver::tocs_recs(rest));
        lemma_sub_cat_split(s, pos, seq![r0], crate::saver::tocs_recs(rest));
        lemma_cat_rec_bytes_one(r0);
        assert(crate::saver::toc_wf(ts[0]));
        assert(crate::saver::toc_canonical(ts[0]));
        lemma_run_step(s, pos, r0, m, Some(k));
        let pos1 = pos + cat_rec_bytes(seq![r0]).len();
        let m1 = push_toc(m, k, ts[0]);
        assert(crate::saver::tocs_wf(rest)) by {
            assert forall|i: int| 0 <= i < rest.len() implies crate::saver::toc_wf(
                #[trigger] rest[i],
            ) by {
                assert(rest[i] == ts[i + 1]);
            }
        }
        assert(crate::saver::tocs_canonical(rest)) by {
            assert forall|i: int| 0 <= i < rest.len() implies crate::saver::toc_canonical(
                #[trigger] rest[i],
            ) by {
                assert(rest[i] == ts[i + 1]);
            }
        }
        lemma_run_tocs(s, pos1, k, rest, m1);
        assert(push_group(m1, k, rest) =~= push_group(m, k, ts)) by {
            assert(seq![ts[0]] + rest =~= ts);
            match k {
                TuctosinHeader::Boundary => {
                    assert(m.s_boundary.push(ts[0]) + rest =~= m.s_boundary + ts);
                },
                TuctosinHeader::Path => {
                    assert(m.s_path.push(ts[0]) + rest =~= m.s_path + ts);
                },
                TuctosinHeader::Sref => {
                    assert(m.s_sref.push(ts[0]) + rest =~= m.s_sref + ts);
                },
                TuctosinHeader::Aref => {
                    assert(m.s_aref.push(ts[0]) + rest =~= m.s_aref + ts);
                },
                TuctosinHeader::Text => {
                    assert(m.s_text.push(ts[0]) + rest =~= m.s_text + ts);
                },
                TuctosinHeader::Node => {
                    assert(m.s_node.push(ts[0]) + rest =~= m.s_node + ts);
                },
                TuctosinHeader::Box => {
                    assert(m.s_box.push(ts[0]) + rest =~= m.s_box + ts);
                },
            }
        }
    }
}

/// One whole element group: an empty group reads nothing; a non-empty
/// one opens, fills and closes, leaving no group active.
proof fn lemma_run_group(
    s: Seq<u8>,
    pos: int,
    k: TuctosinHeader,
    ts: Seq<TuctosinV>,
    m: ModelV,
    active: Option<TuctosinHeader>,
)
    requires
        crate::saver::tocs_wf(ts),
        crate::saver::tocs_canonical(ts),
        0 <= pos,
        pos + cat_rec_bytes(crate::saver::group_recs(k, ts)).len() <= s.len(),
        s.subrange(pos, pos + cat_rec_bytes(crate::saver::group_recs(k, ts)).len())
            == cat_rec_bytes(crate::saver::group_recs(k, ts)),
    ensures
        ts.len() == 0 ==> spec_run(s, pos, m, active) == spec_run(
            s,
            pos + cat_rec_bytes(crate::saver::group_recs(k, ts)).len(),
            m,
            active,
        ),
        ts.len() > 0 ==> spec_run(s, pos, m, active) == spec_run(
            s,
            pos + cat_rec_bytes(crate::saver::group_recs(k, ts)).len(),
            push_group(m, k, ts),
            None,
        ),
{
    if ts.len() == 0 {
        lemma_cat_rec_bytes_nil(crate::saver::group_recs(k, ts));
    } else {
        let hdr = RecordV::TuctosinHeader(k);
        let end = RecordV::TuctosinEnd;
        assert(crate::saver::group_recs(k, ts) =~= seq![hdr] + (crate::saver::tocs_recs(ts)
            + seq![end]));
        lemma_sub_cat_split(s, pos, seq![hdr], crate::saver::tocs_recs(ts) + seq![end]);
        lemma_cat_rec_bytes_one(hdr);
        lemma_run_step(s, pos, hdr, m, active);
        let pos1 = pos + cat_rec_bytes(seq![hdr]).len();
        lemma_sub_cat_split(s, pos1, crate::saver::tocs_recs(ts), seq![end]);
        lemma_run_tocs(s, pos1, k, ts, m);
        let pos2 = pos1 + cat_rec_bytes(crate::saver::tocs_recs(ts)).len();
        lemma_cat_rec_bytes_one(end);
        lemma_run_step(s, pos2, end, push_group(m, k, ts), Some(k));
    }
}

/// The structure-end and terminal records finish the pass with the model
/// as it stands; trailing bytes are never read.
proof fn lemma_run_tail(s: Seq<u8>, pos: int, m: ModelV, active: Option<TuctosinHeader>)
    requires
        0 <= pos,
        pos + cat_rec_bytes(seq![RecordV::ModuleEnd, RecordV::FileEnd]).len() <= s.len(),
        s.subrange(pos, pos + cat_rec_bytes(seq![RecordV::ModuleEnd, RecordV::FileEnd]).len())
            == cat_rec_bytes(seq![RecordV::ModuleEnd, RecordV::FileEnd]),
    ensures
        spec_run(s, pos, m, active) == Ok::<ModelV, DecodeError>(m),
{
    let r1 = RecordV::ModuleEnd;
    let r2 = RecordV::FileEnd;
    assert(seq![r1, r2] =~= seq![r1] + seq![r2]);
    lemma_sub_cat_split(s, pos, seq![r1], seq![r2]);
    lemma_cat_rec_bytes_one(r1);
    lemma_cat_rec_bytes_one(r2);
    lemma_run_step(s, pos, r1, m, active);
    lemma_run_step(s, pos + rec_bytes(r1).len(), r2, m, None);
}

// ---------------------------------------------------------------------
// The whole-stream laws.
// ---------------------------------------------------------------------

/// The record run from the first element group to the stream terminal.
spec fn groups_tail_recs(m: ModelV) -> Seq<RecordV> {
    crate::saver::group_recs(TuctosinHeader::Boundary, m.s_boundary) + (
    crate::saver::group_recs(TuctosinHeader::Path, m.s_path) + (crate::saver::group_recs(
        TuctosinHeader::Sref,
        m.s_sref,
    ) + (crate::saver::group_recs(TuctosinHeader::Aref, m.s_aref) + (crate::saver::group_recs(
        TuctosinHeader::Text,
        m.s_text,
    ) + (crate::saver::group_recs(TuctosinHeader::Node, m.s_node) + (crate::saver::group_recs(
        TuctosinHeader::Box,
        m.s_box,
    ) + seq![RecordV::ModuleEnd, RecordV::FileEnd]))))))
}

/// A base model with every element group of `m` appended to its own.
spec fn with_groups(base: ModelV, m: ModelV) -> ModelV {
    ModelV {
        s_boundary: base.s_boundary + m.s_boundary,
        s_path: base.s_path + m.s_path,
        s_sref: base.s_sref + m.s_sref,
        s_aref: base.s_aref + m.s_aref,
        s_text: base.s_text + m.s_text,
        s_node: base.s_node + m.s_node,
        s_box: base.s_box + m.s_box,
        ..base
    }
}

/// The seven element groups and the stream tail, walked in order.
#[verifier::rlimit(100)]
#[verifier::spinoff_prover]
proof fn lemma_run_groups_tail(s: Seq<u8>, pos: int, m: ModelV, base: ModelV)
    requires
        model_wf(m),
        model_canonical(m),
        0 <= pos,
        pos + cat_rec_bytes(groups_tail_recs(m)).len() <= s.len(),
        s.subrange(pos, pos + cat_rec_bytes(groups_tail_recs(m)).len()) == cat_rec_bytes(
            groups_tail_recs(m),
        ),
    ensures
        spec_run(s, pos, base, None) == Ok::<ModelV, DecodeError>(with_groups(base, m)),
{
    let g1 = crate::saver::group_recs(TuctosinHeader::Boundary, m.s_boundary);
    let g2 = crate::saver::group_recs(TuctosinHeader::Path, m.s_path);
    let g3 = crate::saver::group_recs(TuctosinHeader::Sref, m.s_sref);
    let g4 = crate::saver::group_recs(TuctosinHeader::Aref, m.s_aref);
    let g5 = crate::saver::group_recs(TuctosinHeader::Text, m.s_text);
    let g6 = crate::saver::group_recs(TuctosinHeader::Node, m.s_node);
    let g7 = crate::saver::group_recs(TuctosinHeader::Box, m.s_box);
    let tl = seq![RecordV::ModuleEnd, RecordV::FileEnd];
    let t9 = tl;
    let t8 = g7 + t9;
    let t7 = g6 + t8;
    let t6 = g5 + t7;
    let t5 = g4 + t6;
    let t4 = g3 + t5;
    let t3 = g2 + t4;
    let t2 = g1 + t3;
    assert(groups_tail_recs(m) == t2);
    let q2 = pos;
    let m2 = base;
    lemma_sub_cat_split(s, q2, g1, t3);
    lemma_run_group(s, q2, TuctosinHeader::Boundary, m.s_boundary, m2, None);
    let q3 = q2 + cat_rec_bytes(g1).len();
    let m3 = push_group(m2, TuctosinHeader::Boundary, m.s_boundary);
    if m.s_boundary.len() == 0 {
        assert(m3 =~= m2);
    }
    assert(spec_run(s, q2, m2, None) == spec_run(s, q3, m3, None));
    lemma_sub_cat_split(s, q3, g2, t4);
    lemma_run_group(s, q3, TuctosinHeader::Path, m.s_path, m3, None);
    let q4 = q3 + cat_rec_bytes(g2).len();
    let m4 = push_group(m3, TuctosinHeader::Path, m.s_path);
    if m.s_path.len() == 0 {
        assert(m4 =~= m3);
    }
    assert(spec_run(s, q3, m3, None) == spec_run(s, q4, m4, None));
    lemma_sub_cat_split(s, q4, g3, t5);
    lemma_run_group(s, q4, TuctosinHeader::Sref, m.s_sref, m4, None);
    let q5 = q4 + cat_rec_bytes(g3).len();
    let m5 = push_group(m4, TuctosinHeader::Sref, m.s_sref);
    if m.s_sref.len() == 0 {
        assert(m5 =~= m4);
    }
    assert(spec_run(s, q4, m4, None) == spec_run(s, q5, m5, None));
    lemma_sub_cat_split(s, q5, g4, t6);
    lemma_run_group(s, q5, TuctosinHeader::Aref, m.s_aref, m5, None);
    let q6 = q5 + cat_rec_bytes(g4).len();
    let m6 = push_group(m5, TuctosinHeader::Aref, m.s_aref);
    if m.s_aref.len() == 0 {
        assert(m6 =~= m5);
    }
    assert(spec_run(s, q5, m5, None) == spec_run(s, q6, m6, None));
    lemma_sub_cat_split(s, q6, g5, t7);
    lemma_run_group(s, q6, TuctosinHeader::Text, m.s_text, m6, None);
    let q7 = q6 + cat_rec_bytes(g5).len();
    let m7 = push_group(m6, TuctosinHeader::Text, m.s_text);
    if m.s_text.len() == 0 {
        assert(m7 =~= m6);
    }
    assert(spec_run(s, q6, m6, None) == spec_run(s, q7, m7, None));
    lemma_sub_cat_split(s, q7, g6, t8);
    lemma_run_group(s, q7, TuctosinHeader::Node, m.s_node, m7, None);
    let q8 = q7 + cat_rec_bytes(g6).len();
    let m8 = push_group(m7, TuctosinHeader::Node, m.s_node);
    if m.s_node.len() == 0 {
        assert(m8 =~= m7);
    }
    assert(spec_run(s, q7, m7, None) == spec_run(s, q8, m8, None));
    lemma_sub_cat_split(s, q8, g7, t9);
    lemma_run_group(s, q8, TuctosinHeader::Box, m.s_box, m8, None);
    let q9 = q8 + cat_rec_bytes(g7).len();
    let m9 = push_group(m8, TuctosinHeader::Box, m.s_box);
    if m.s_box.len() == 0 {
        assert(m9 =~= m8);
    }
    assert(spec_run(s, q8, m8, None) == spec_run(s, q9, m9, None));
    lemma_run_tail(s, q9, m9, None);
    assert(m9 =~= with_groups(base, m));
}

/// The header section and the structure section, as one record run.
spec fn front_model_recs(m: ModelV) -> Seq<RecordV> {
    crate::saver::header_recs(m.header) + crate::saver::structure_recs(m)
}

/// Concatenation of record runs is associative.
proof fn lemma_recs_assoc(a: Seq<RecordV>, b: Seq<RecordV>, c: Seq<RecordV>)
    ensures
        (a + b) + c == a + (b + c),
{
    assert((a + b) + c =~= a + (b + c));
}

/// The canonical record sequence splits into its front and its groups.
proof fn lemma_model_recs_split(m: ModelV)
    ensures
        model_recs(m) == front_model_recs(m) + groups_tail_recs(m),
{
    let ab = front_model_recs(m);
    let g1 = crate::saver::group_recs(TuctosinHeader::Boundary, m.s_boundary);
    let g2 = crate::saver::group_recs(TuctosinHeader::Path, m.s_path);
    let g3 = crate::saver::group_recs(TuctosinHeader::Sref, m.s_sref);
    let g4 = crate::saver::group_recs(TuctosinHeader::Aref, m.s_aref);
    let g5 = crate::saver::group_recs(TuctosinHeader::Text, m.s_text);
    let g6 = crate::saver::group_recs(TuctosinHeader::Node, m.s_node);
    let g7 = crate::saver::group_recs(TuctosinHeader::Box, m.s_box);
    let tl = seq![RecordV::ModuleEnd, RecordV::FileEnd];
    let u7 = g7 + tl;
    let u6 = g6 + u7;
    let u5 = g5 + u6;
    let u4 = g4 + u5;
    let u3 = g3 + u4;
    let u2 = g2 + u3;
    let u1 = g1 + u2;
    assert(groups_tail_recs(m) == u1);
    let l1 = ab + g1;
    let l2 = l1 + g2;
    let l3 = l2 + g3;
    let l4 = l3 + g4;
    let l5 = l4 + g5;
    let l6 = l5 + g6;
    let l7 = l6 + g7;
    assert(model_recs(m) == l7 + tl);
    lemma_recs_assoc(l6, g7, tl);
    lemma_recs_assoc(l5, g6, u7);
    lemma_recs_assoc(l4, g5, u6);
    lemma_recs_assoc(l3, g4, u5);
    lemma_recs_assoc(l2, g3, u4);
    lemma_recs_assoc(l1, g2, u3);
    lemma_recs_assoc(ab, g1, u2);
}

/// The header and structure sections walked in order, from any base.
#[verifier::rlimit(100)]
#[verifier::spinoff_prover]
proof fn lemma_run_front_model(s: Seq<u8>, pos: int, m: ModelV, base: ModelV)
    requires
        model_wf(m),
        model_canonical(m),
        0 <= pos,
        pos + cat_rec_bytes(front_model_recs(m)).len() <= s.len(),
        s.subrange(pos, pos + cat_rec_bytes(front_model_recs(m)).len()) == cat_rec_bytes(
            front_model_recs(m),
        ),
    ensures
        spec_run(s, pos, base, None) == spec_run(
            s,
            pos + cat_rec_bytes(front_model_recs(m)).len(),
            ModelV {
                header: merge_header(base.header, m.header),
                structure_time: m.structure_time,
                structure_name: m.structure_name,
                ..base
            },
            None,
        ),
{
    let hr = crate::saver::header_recs(m.header);
    let stq = seq![
        RecordV::ModuleHeader(ModuleHeaderV::BgnStr(m.structure_time)),
        RecordV::ModuleHeader(ModuleHeaderV::StrName(m.structure_name)),
    ];
    assert(crate::saver::structure_recs(m) =~= stq);
    assert(front_model_recs(m) == hr + stq);
    lemma_sub_cat_split(s, pos, hr, stq);
    lemma_run_header(s, pos, m.header, base, None);
    let q1 = pos + cat_rec_bytes(hr).len();
    let m1 = ModelV { header: merge_header(base.header, m.header), ..base };
    lemma_run_structure(s, q1, m.structure_time, m.structure_name, m1, None);
    let m2 = ModelV {
        structure_time: m.structure_time,
        structure_name: m.structure_name,
        ..m1
    };
    assert(m2 =~= (ModelV {
        header: merge_header(base.header, m.header),
        structure_time: m.structure_time,
        structure_name: m.structure_name,
        ..base
    }));
}

/// Round trip: decoding the encoding of any complete, well-formed,
/// canonical model reproduces the model exactly — the header map, the
/// timestamp array, the structure name, and every element group's
/// ordered field sequence.
#[verifier::rlimit(100)]
#[verifier::spinoff_prover]
pub proof fn lemma_round_trip(m: ModelV)
    requires
        model_wf(m),
        model_canonical(m),
        model_complete(m.header),
    ensures
        spec_decode(spec_encode_model(m)) == Ok::<ModelV, DecodeError>(m),
{
    let s = spec_encode_model(m);
    let fr = front_model_recs(m);
    let gt = groups_tail_recs(m);
    lemma_model_recs_split(m);
    assert(s == cat_rec_bytes(fr + gt));
    assert(s.subrange(0, cat_rec_bytes(fr + gt).len() as int) =~= cat_rec_bytes(fr + gt));
    lemma_sub_cat_split(s, 0, fr, gt);
    let m0 = ModelV::empty();
    lemma_run_front_model(s, 0, m, m0);
    let q = cat_rec_bytes(fr).len() as int;
    let m2 = ModelV {
        header: merge_header(m0.header, m.header),
        structure_time: m.structure_time,
        structure_name: m.structure_name,
        ..m0
    };
    lemma_run_groups_tail(s, q, m, m2);
    assert(with_groups(m2, m) =~= m);
    assert(spec_decode(s) == Ok::<ModelV, DecodeError>(m));
}

// ---------------------------------------------------------------------
// The decoder only produces canonical text.
// ---------------------------------------------------------------------

/// Whatever one payload decodes to carries no trailing padding.
proof fn lemma_parsed_canonical(tag: u16, p: Seq<u8>, pos: int)
    ensures
        spec_parse_payload(tag, p, pos) matches Ok(r) ==> rec_canonical(r),
{
    lemma_trim_no_pad(p);
}

/// A canonical field list stays canonical under one more canonical field.
proof fn lemma_tocs_canonical_push(g: Seq<TuctosinV>, t: TuctosinV)
    requires
        crate::saver::tocs_canonical(g),
        crate::saver::toc_canonical(t),
    ensures
        crate::saver::tocs_canonical(g.push(t)),
{
    assert forall|i: int| 0 <= i < g.push(t).len() implies crate::saver::toc_canonical(
        #[trigger] g.push(t)[i],
    ) by {
        if i < g.len() {
            assert(g.push(t)[i] == g[i]);
        } else {
            assert(g.push(t)[i] == t);
        }
    }
}

/// Whatever the decoder accepts is canonical: no text field of a decoded
/// model ends in padding.
#[verifier::rlimit(100)]
#[verifier::spinoff_prover]
proof fn lemma_run_canonical(s: Seq<u8>, pos: int, m: ModelV, active: Option<TuctosinHeader>)
    requires
        model_canonical(m),
        0 <= pos <= s.len(),
    ensures
        spec_run(s, pos, m, active) matches Ok(m2) ==> model_canonical(m2),
    decreases s.len() - pos,
{
    match spec_parse_rec(s, pos) {
        Err(_) => {},
        Ok((r, next)) => {
            let l = be_val(s.subrange(pos, pos + 2));
            let tag = be_u16v(s.subrange(pos + 2, pos + 4));
            lemma_parsed_canonical(tag, s.subrange(pos + 4, pos + l), pos);
            assert(rec_canonical(r));
            match r {
                RecordV::FileEnd => {},
                RecordV::FileHeader(fh) => {
                    let m1 = ModelV { header: apply_file_header(m.header, fh), ..m };
                    assert(model_canonical(m1));
                    lemma_run_canonical(s, next, m1, active);
                },
                RecordV::ModuleHeader(mh) => match mh {
                    ModuleHeaderV::BgnStr(t) => {
                        let m1 = ModelV { structure_time: t, ..m };
                        assert(model_canonical(m1));
                        lemma_run_canonical(s, next, m1, active);
                    },
                    ModuleHeaderV::StrName(n) => {
                        let m1 = ModelV { structure_name: n, ..m };
                        assert(model_canonical(m1));
                        lemma_run_canonical(s, next, m1, active);
                    },
                },
                RecordV::TuctosinHeader(k) => {
                    lemma_run_canonical(s, next, m, Some(k));
                },
                RecordV::Tuctosin(t) => match active {
                    Some(k) => {
                        let m1 = push_toc(m, k, t);
                        assert(crate::saver::toc_canonical(t));
                        match k {
                            TuctosinHeader::Boundary => lemma_tocs_canonical_push(
                                m.s_boundary,
                                t,
                            ),
                            TuctosinHeader::Path => lemma_tocs_canonical_push(m.s_path, t),
                            TuctosinHeader::Sref => lemma_tocs_canonical_push(m.s_sref, t),
                            TuctosinHeader::Aref => lemma_tocs_canonical_push(m.s_aref, t),
                            TuctosinHeader::Text => lemma_tocs_canonical_push(m.s_text, t),
                            TuctosinHeader::Node => lemma_tocs_canonical_push(m.s_node, t),
                            TuctosinHeader::Box => lemma_tocs_canonical_push(m.s_box, t),
                        }
                        assert(model_canonical(m1));
                        lemma_run_canonical(s, next, m1, active);
                    },
                    None => {},
                },
                RecordV::TuctosinEnd => {
                    lemma_run_canonical(s, next, m, None);
                },
                RecordV::ModuleEnd => {
                    lemma_run_canonical(s, next, m, None);
                },
            }
        },
    }
}

/// The empty model is canonical.
proof fn lemma_empty_canonical()
    ensures
        model_canonical(ModelV::empty()),
{
}

// ---------------------------------------------------------------------
// Idempotence.
// ---------------------------------------------------------------------

/// Idempotence: re-encoding a decoded stream and re-decoding it is
/// stable after the first pass — the second decode returns exactly the
/// model the first produced, so every later pass repeats the same bytes.
pub proof fn lemma_idempotent(s: Seq<u8>, m: ModelV)
    requires
        spec_decode(s) == Ok::<ModelV, DecodeError>(m),
        model_wf(m),
        model_complete(m.header),
    ensures
        spec_decode(spec_encode_model(m)) == Ok::<ModelV, DecodeError>(m),
{
    lemma_empty_canonical();
    lemma_run_canonical(s, 0, ModelV::empty(), None);
    lemma_round_trip(m);
}

// ---------------------------------------------------------------------
// The decoder's error shapes.
// ---------------------------------------------------------------------

/// A record whose length field is under 4 is rejected deterministically
/// as a decode error, never read as an end-of-stream signal.
pub proof fn lemma_short_length_rejected(
    s: Seq<u8>,
    pos: int,
    m: ModelV,
    active: Option<TuctosinHeader>,
)
    requires
        0 <= pos,
        pos + 4 <= s.len(),
        be_val(s.subrange(pos, pos + 2)) < 4,
    ensures
        spec_parse_rec(s, pos) matches Err(e) && e.kind == DecodeErrorKind::BadLength
            && e.byte_offset == pos as usize,
        spec_run(s, pos, m, active) is Err,
{
}

/// An unknown tag code yields a decode error naming the tag, never a
/// crash.
#[verifier::rlimit(60)]
#[verifier::spinoff_prover]
pub proof fn lemma_unknown_tag_rejected(
    s: Seq<u8>,
    pos: int,
    m: ModelV,
    active: Option<TuctosinHeader>,
)
    requires
        0 <= pos,
        pos + 4 <= s.len(),
        4 <= be_val(s.subrange(pos, pos + 2)),
        pos + be_val(s.subrange(pos, pos + 2)) <= s.len(),
        !crate::codec::known_tag(be_u16v(s.subrange(pos + 2, pos + 4))),
    ensures
        spec_parse_rec(s, pos) matches Err(e) && e.kind == DecodeErrorKind::UnknownTag && e.tag
            == be_u16v(s.subrange(pos + 2, pos + 4)),
        spec_run(s, pos, m, active) is Err,
{
}

/// A point-list payload whose length is not a multiple of 8 yields a
/// decode error.
pub proof fn lemma_bad_point_list_rejected(p: Seq<u8>, pos: int)
    requires
        p.len() % 8 != 0,
    ensures
        spec_parse_payload(0x1003, p, pos) matches Err(e) && e.kind == (
        DecodeErrorKind::BadPointListLength { actual: p.len() as usize }),
{
}

/// A body-field record decoded while no element group is open is a
/// structural decode error.
pub proof fn lemma_field_outside_group(s: Seq<u8>, pos: int, m: ModelV)
    requires
        spec_parse_rec(s, pos) matches Ok(pr) && pr.0 is Tuctosin,
    ensures
        spec_run(s, pos, m, None) matches Err(e) && e.kind == DecodeErrorKind::FieldOutsideGroup
            && e.byte_offset == pos as usize,
{
}

} // verus!
