//! The streaming decoder: one linear pass that folds records into the
//! structural model.
//!
//! `spec_run` is the mathematical fold: it threads the model under
//! construction and the active element group through the record stream
//! until the terminal record, and `spec_decode` runs it from the empty
//! model.  `gds2_parser` is the executable decoder, proved to agree with
//! `spec_decode` exactly, error for error; it never returns a partially
//! built model.

use vstd::prelude::*;

use crate::codec::{spec_parse_rec, toc_tag};
use crate::error::{DecodeError, DecodeErrorKind, GDSIIErrorKind};
use crate::model::{FileHeader, FileHeaderV, GDSIIModel, GDSIIVariant, LibraryHeaderV, ModelV,
    ModuleHeader, ModuleHeaderV, RecordV, Tuctosin, TuctosinHeader, TuctosinV};

verus! {

/// Folds one header record into the header map: last write wins.
pub open spec fn apply_file_header(h: LibraryHeaderV, fh: FileHeaderV) -> LibraryHeaderV {
    match fh {
        FileHeaderV::Header(v) => LibraryHeaderV { version: Some(v), ..h },
        FileHeaderV::BgnLib(t) => LibraryHeaderV { bgn_lib: Some(t), ..h },
        FileHeaderV::LibName(s) => LibraryHeaderV { lib_name: Some(s), ..h },
        FileHeaderV::RefLibs(s) => LibraryHeaderV { ref_libs: Some(s), ..h },
        FileHeaderV::Fonts(s) => LibraryHeaderV { fonts: Some(s), ..h },
        FileHeaderV::AttrTable(s) => LibraryHeaderV { attr_table: Some(s), ..h },
        FileHeaderV::Generations(v) => LibraryHeaderV { generations: Some(v), ..h },
        FileHeaderV::Format(v) => LibraryHeaderV { format: Some(v), ..h },
        FileHeaderV::Mask(s) => LibraryHeaderV { mask: Some(s), ..h },
        FileHeaderV::EndMask => LibraryHeaderV { end_mask: true, ..h },
        FileHeaderV::Units(a, b) => LibraryHeaderV { units: Some((a, b)), ..h },
    }
}

/// Appends one body field to the active element group.
pub open spec fn push_toc(m: ModelV, k: TuctosinHeader, t: TuctosinV) -> ModelV {
    match k {
        TuctosinHeader::Boundary => ModelV { s_boundary: m.s_boundary.push(t), ..m },
        TuctosinHeader::Path => ModelV { s_path: m.s_path.push(t), ..m },
        TuctosinHeader::Sref => ModelV { s_sref: m.s_sref.push(t), ..m },
        TuctosinHeader::Aref => ModelV { s_aref: m.s_aref.push(t), ..m },
        TuctosinHeader::Text => ModelV { s_text: m.s_text.push(t), ..m },
        TuctosinHeader::Node => ModelV { s_node: m.s_node.push(t), ..m },
        TuctosinHeader::Box => ModelV { s_box: m.s_box.push(t), ..m },
    }
}

/// Runs the decoder's state machine from `pos`: folds each record into
/// the model until the terminal record, and stops there, leaving any
/// trailing bytes unread.  A body-field record with no element group
/// open is the one structural error.
pub open spec fn spec_run(
    s: Seq<u8>,
    pos: int,
    m: ModelV,
    active: Option<TuctosinHeader>,
) -> Result<ModelV, DecodeError>
    decreases s.len() - pos,
{
    match spec_parse_rec(s, pos) {
        Err(e) => Err(e),
        Ok((r, next)) => match r {
            RecordV::FileEnd => Ok(m),
            RecordV::FileHeader(fh) => spec_run(
                s,
                next,
                ModelV { header: apply_file_header(m.header, fh), ..m },
                active,
            ),
            RecordV::ModuleHeader(mh) => match mh {
                ModuleHeaderV::BgnStr(t) => spec_run(
                    s,
                    next,
                    ModelV { structure_time: t, ..m },
                    active,
                ),
                ModuleHeaderV::StrName(n) => spec_run(
                    s,
                    next,
                    ModelV { structure_name: n, ..m },
                    active,
                ),
            },
            RecordV::TuctosinHeader(k) => spec_run(s, next, m, Some(k)),
            RecordV::Tuctosin(t) => match active {
                Some(k) => spec_run(s, next, push_toc(m, k, t), active),
                None => Err(
                    DecodeError {
                        kind: DecodeErrorKind::FieldOutsideGroup,
                        tag: toc_tag(t),
                        byte_offset: pos as usize,
                    },
                ),
            },
            RecordV::TuctosinEnd => spec_run(s, next, m, None),
            RecordV::ModuleEnd => spec_run(s, next, m, None),
        },
    }
}

/// Decodes a whole stream from its start, beginning with the empty model.
pub open spec fn spec_decode(s: Seq<u8>) -> Result<ModelV, DecodeError> {
    spec_run(s, 0, ModelV::empty(), None)
}

/// Folds one header record into the executable header map.
fn apply_header(hm: &mut crate::model::LibraryHeader, fh: FileHeader)
    ensures
        final(hm)@ == apply_file_header(old(hm)@, fh@),
{
    match fh {
        FileHeader::Header(d) => hm.version = Some(d),
        FileHeader::BgnLib(t) => hm.bgn_lib = Some(t),
        FileHeader::LibName(s) => hm.lib_name = Some(s),
        FileHeader::RefLibs(s) => hm.ref_libs = Some(s),
        FileHeader::Fonts(s) => hm.fonts = Some(s),
        FileHeader::AttrTable(s) => hm.attr_table = Some(s),
        FileHeader::Generations(d) => hm.generations = Some(d),
        FileHeader::Format(d) => hm.format = Some(d),
        FileHeader::Mask(s) => hm.mask = Some(s),
        FileHeader::EndMask => hm.end_mask = true,
        FileHeader::Units(a, b) => hm.units = Some((a, b)),
    }
}

/// The wire tag of a body-field record.
fn toc_tag_of(t: &Tuctosin) -> (r: u16)
    ensures
        r == toc_tag(t@),
{
    match t {
        Tuctosin::ElfFlags(_) => 0x2601,
        Tuctosin::Plex(_) => 0x2F03,
        Tuctosin::Layer(_) => 0x0D02,
        Tuctosin::DataType(_) => 0x0E02,
        Tuctosin::Xy(_) => 0x1003,
        Tuctosin::PathType(_) => 0x2102,
        Tuctosin::Width(_) => 0x0F03,
        Tuctosin::Sname(_) => 0x1206,
        Tuctosin::Strans(_) => 0x1A01,
        Tuctosin::Mag(_) => 0x1B05,
        Tuctosin::Angle(_) => 0x1C05,
        Tuctosin::ColRow(_, _) => 0x1302,
        Tuctosin::TextType(_) => 0x1602,
        Tuctosin::Persentation(_) => 0x1701,
        Tuctosin::AsciiString(_) => 0x1906,
        Tuctosin::NodeType(_) => 0x2A02,
        Tuctosin::BoxType(_) => 0x2E02,
    }
}

/// Decodes one GDSII stream into a model, in a single linear pass.
///
/// Either the whole stream up to the terminal record folds into a
/// complete model, or the one terminal decode error is returned and no
/// partial model escapes.  Bytes after the terminal record are ignored.
#[verifier::rlimit(60)]
#[verifier::spinoff_prover]
pub fn gds2_parser(s: &[u8]) -> (res: Result<GDSIIModel, GDSIIErrorKind>)
    ensures
        match res {
            Ok(m) => spec_decode(s@) == Ok::<ModelV, DecodeError>(m@),
            Err(e) => {
                &&& e matches GDSIIErrorKind::InvalidGDSII(d)
                &&& spec_decode(s@) == Err::<ModelV, DecodeError>(d)
            },
        },
{
    let mut model = GDSIIModel::default();
    let mut active: Option<TuctosinHeader> = None;
    let mut pos: usize = 0;
    loop
        invariant
            pos <= s@.len(),
            spec_run(s@, pos as int, model@, active) == spec_decode(s@),
        decreases s@.len() - pos,
    {
        match crate::codec::decode_record(s, pos) {
            Err(e) => {
                return Err(GDSIIErrorKind::InvalidGDSII(e));
            },
            Ok((v, next)) => {
                match v {
                    GDSIIVariant::FileEnd => {
                        return Ok(model);
                    },
                    GDSIIVariant::FileHeader(fh) => {
                        let ghost before = model@;
                        let ghost fhv = fh@;
                        apply_header(&mut model.header, fh);
                        proof {
                            assert(model@ =~= (ModelV {
                                header: apply_file_header(before.header, fhv),
                                ..before
                            }));
                        }
                    },
                    GDSIIVariant::ModuleHeader(mh) => {
                        match mh {
                            ModuleHeader::BgnStr(t) => {
                                let ghost before = model@;
                                let ghost tv = t@;
                                model.structure_time = t;
                                proof {
                                    assert(model@ =~= (ModelV {
                                        structure_time: tv,
                                        ..before
                                    }));
                                }
                            },
                            ModuleHeader::StrName(n) => {
                                let ghost before = model@;
                                let ghost nv = n@;
                                model.structure_name = n;
                                proof {
                                    assert(model@ =~= (ModelV {
                                        structure_name: nv,
                                        ..before
                                    }));
                                }
                            },
                        }
                    },
                    GDSIIVariant::TuctosinHeader(k) => {
                        active = Some(k);
                    },
                    GDSIIVariant::Tuctosin(t) => {
                        match active {
                            Some(k) => {
                                let ghost before = model@;
                                let ghost tv = t@;
                                match k {
                                    TuctosinHeader::Boundary => {
                                        let ghost vb = model.s_boundary@;
                                        model.s_boundary.push(t);
                                        proof {
                                            assert(crate::model::tocs_view(model.s_boundary@)
                                                =~= crate::model::tocs_view(vb).push(tv));
                                            assert(model@ =~= push_toc(before, k, tv));
                                        }
                                    },
                                    TuctosinHeader::Path => {
                                        let ghost vb = model.s_path@;
                                        model.s_path.push(t);
                                        proof {
                                            assert(crate::model::tocs_view(model.s_path@)
                                                =~= crate::model::tocs_view(vb).push(tv));
                                            assert(model@ =~= push_toc(before, k, tv));
                                        }
                                    },
                                    TuctosinHeader::Sref => {
                                        let ghost vb = model.s_sref@;
                                        model.s_sref.push(t);
                                        proof {
                                            assert(crate::model::tocs_view(model.s_sref@)
                                                =~= crate::model::tocs_view(vb).push(tv));
                                            assert(model@ =~= push_toc(before, k, tv));
                                        }
                                    },
                                    TuctosinHeader::Aref => {
                                        let ghost vb = model.s_aref@;
                                        model.s_aref.push(t);
                                        proof {
                                            assert(crate::model::tocs_view(model.s_aref@)
                                                =~= crate::model::tocs_view(vb).push(tv));
                                            assert(model@ =~= push_toc(before, k, tv));
                                        }
                                    },
                                    TuctosinHeader::Text => {
                                        let ghost vb = model.s_text@;
                                        model.s_text.push(t);
                                        proof {
                                            assert(crate::model::tocs_view(model.s_text@)
                                                =~= crate::model::tocs_view(vb).push(tv));
                                            assert(model@ =~= push_toc(before, k, tv));
                                        }
                                    },
                                    TuctosinHeader::Node => {
                                        let ghost vb = model.s_node@;
                                        model.s_node.push(t);
                                        proof {
                                            assert(crate::model::tocs_view(model.s_node@)
                                                =~= crate::model::tocs_view(vb).push(tv));
                                            assert(model@ =~= push_toc(before, k, tv));
                                        }
                                    },
                                    TuctosinHeader::Box => {
                                        let ghost vb = model.s_box@;
                                        model.s_box.push(t);
                                        proof {
                                            assert(crate::model::tocs_view(model.s_box@)
                                                =~= crate::model::tocs_view(vb).push(tv));
                                            assert(model@ =~= push_toc(before, k, tv));
                                        }
                                    },
                                }
                            },
                            None => {
                                let tag = toc_tag_of(&t);
                                return Err(GDSIIErrorKind::InvalidGDSII(DecodeError {
                                    kind: DecodeErrorKind::FieldOutsideGroup,
                                    tag,
                                    byte_offset: pos,
                                }));
                            },
                        }
                    },
                    GDSIIVariant::TuctosinEnd => {
                        active = None;
                    },
                    GDSIIVariant::ModuleEnd => {
                        active = None;
                    },
                }
                pos = next;
            },
        }
    }
}

} // verus!
