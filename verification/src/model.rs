//! The structural model: a library as decoded from, and encoded to, the wire.
//!
//! Text payloads are kept as the raw bytes from the wire (GDSII names are
//! byte strings; the on-disk convention pads them with NUL to even length,
//! and the decoder strips NUL and space padding).  The units record's two
//! float64 words are kept as their raw 8-byte big-endian bit patterns, so
//! the codec stays byte-exact without doing any floating-point arithmetic.
//!
//! Each executable type has a ghost mirror (`...V`) over `Seq`, reached by
//! `@`; every contract in the crate speaks of those mirrors.

use vstd::prelude::*;

use crate::error::HeaderKey;

verus! {

/// One record of a GDSII stream, as the record codec sees it.
#[derive(Debug, Clone, PartialEq, Eq)]
pub enum GDSIIVariant {
    FileHeader(FileHeader),
    ModuleHeader(ModuleHeader),
    TuctosinHeader(TuctosinHeader),
    Tuctosin(Tuctosin),
    TuctosinEnd,  // 0x11_00
    ModuleEnd,    // 0x07_00
    FileEnd,      // 0x04_00
}

/// File header variant in GDSII.
#[derive(Debug, Clone, PartialEq, Eq)]
pub enum FileHeader {
    Header(i16),        // 0x00_02
    BgnLib(Vec<i16>),   // 0x01_02, always 12 stamps
    LibName(Vec<u8>),   // 0x02_06
    RefLibs(Vec<u8>),   // 0x1F_06
    Fonts(Vec<u8>),     // 0x20_06
    AttrTable(Vec<u8>), // 0x23_06
    Generations(i16),   // 0x22_02
    Format(i16),        // 0x36_02
    Mask(Vec<u8>),      // 0x37_06
    EndMask,            // 0x38_00
    Units(u64, u64),    // 0x03_05, two raw big-endian float64 words
}

/// Module header in GDSII.
#[derive(Debug, Clone, PartialEq, Eq)]
pub enum ModuleHeader {
    BgnStr(Vec<i16>), // 0x05_02, always 12 stamps
    StrName(Vec<u8>), // 0x06_06
}

/// Shape header in GDSII: which element group a begin record opens.
#[derive(Debug, Clone, Copy, PartialEq, Eq, Structural)]
pub enum TuctosinHeader {
    Boundary, // 0x08_00
    Path,     // 0x09_00
    Sref,     // 0x0A_00
    Aref,     // 0x0B_00
    Text,     // 0x0C_00
    Node,     // 0x15_00
    Box,      // 0x2D_00
}

/// A body field of one element.
#[derive(Debug, Clone, PartialEq, Eq)]
pub enum Tuctosin {
    ElfFlags(i16),       // 0x26_01
    Plex(i32),           // 0x2F_03
    Layer(i16),          // 0x0D_02
    DataType(i16),       // 0x0E_02
    Xy(Vec<(i32, i32)>), // 0x10_03
    PathType(i16),       // 0x21_02
    Width(i32),          // 0x0F_03
    Sname(Vec<u8>),      // 0x12_06
    Strans(i16),         // 0x1A_01
    Mag(i64),            // 0x1B_05
    Angle(i64),          // 0x1C_05
    ColRow(i16, i16),    // 0x13_02
    TextType(i16),       // 0x16_02
    Persentation(i16),   // 0x17_01
    AsciiString(Vec<u8>),// 0x19_06
    NodeType(i16),       // 0x2A_02
    BoxType(i16),        // 0x2E_02
}

/// The library's header mapping, one slot per canonical key.
///
/// A struct of options is the closed header map: keys are unique by
/// construction, and the decoder's last write to a key wins.
#[derive(Debug, Clone, PartialEq, Eq)]
pub struct LibraryHeader {
    pub version: Option<i16>,
    pub bgn_lib: Option<Vec<i16>>,
    pub lib_name: Option<Vec<u8>>,
    pub ref_libs: Option<Vec<u8>>,
    pub fonts: Option<Vec<u8>>,
    pub attr_table: Option<Vec<u8>>,
    pub generations: Option<i16>,
    pub format: Option<i16>,
    pub mask: Option<Vec<u8>>,
    pub end_mask: bool,
    pub units: Option<(u64, u64)>,
}

/// The in-memory library: header map, one structure, seven element groups.
///
/// Order within each group is file order and is kept exactly.
#[derive(Debug, Clone, PartialEq, Eq)]
pub struct GDSIIModel {
    pub header: LibraryHeader,
    /// The structure's 12-stamp begin timestamp; always 12 entries.
    pub structure_time: Vec<i16>,
    pub structure_name: Vec<u8>,
    pub s_boundary: Vec<Tuctosin>,
    pub s_path: Vec<Tuctosin>,
    pub s_sref: Vec<Tuctosin>,
    pub s_aref: Vec<Tuctosin>,
    pub s_text: Vec<Tuctosin>,
    pub s_node: Vec<Tuctosin>,
    pub s_box: Vec<Tuctosin>,
}

/// Ghost mirror of `FileHeader`.
#[verifier::ext_equal]
pub enum FileHeaderV {
    Header(i16),
    BgnLib(Seq<i16>),
    LibName(Seq<u8>),
    RefLibs(Seq<u8>),
    Fonts(Seq<u8>),
    AttrTable(Seq<u8>),
    Generations(i16),
    Format(i16),
    Mask(Seq<u8>),
    EndMask,
    Units(u64, u64),
}

/// Ghost mirror of `ModuleHeader`.
#[verifier::ext_equal]
pub enum ModuleHeaderV {
    BgnStr(Seq<i16>),
    StrName(Seq<u8>),
}

/// Ghost mirror of `Tuctosin`.
#[verifier::ext_equal]
pub enum TuctosinV {
    ElfFlags(i16),
    Plex(i32),
    Layer(i16),
    DataType(i16),
    Xy(Seq<(i32, i32)>),
    PathType(i16),
    Width(i32),
    Sname(Seq<u8>),
    Strans(i16),
    Mag(i64),
    Angle(i64),
    ColRow(i16, i16),
    TextType(i16),
    Persentation(i16),
    AsciiString(Seq<u8>),
    NodeType(i16),
    BoxType(i16),
}

/// Ghost mirror of `GDSIIVariant`.
#[verifier::ext_equal]
pub enum RecordV {
    FileHeader(FileHeaderV),
    ModuleHeader(ModuleHeaderV),
    TuctosinHeader(TuctosinHeader),
    Tuctosin(TuctosinV),
    TuctosinEnd,
    ModuleEnd,
    FileEnd,
}

/// Ghost mirror of `LibraryHeader`.
#[verifier::ext_equal]
pub struct LibraryHeaderV {
    pub version: Option<i16>,
    pub bgn_lib: Option<Seq<i16>>,
    pub lib_name: Option<Seq<u8>>,
    pub ref_libs: Option<Seq<u8>>,
    pub fonts: Option<Seq<u8>>,
    pub attr_table: Option<Seq<u8>>,
    pub generations: Option<i16>,
    pub format: Option<i16>,
    pub mask: Option<Seq<u8>>,
    pub end_mask: bool,
    pub units: Option<(u64, u64)>,
}

/// Ghost mirror of `GDSIIModel`.
#[verifier::ext_equal]
pub struct ModelV {
    pub header: LibraryHeaderV,
    pub structure_time: Seq<i16>,
    pub structure_name: Seq<u8>,
    pub s_boundary: Seq<TuctosinV>,
    pub s_path: Seq<TuctosinV>,
    pub s_sref: Seq<TuctosinV>,
    pub s_aref: Seq<TuctosinV>,
    pub s_text: Seq<TuctosinV>,
    pub s_node: Seq<TuctosinV>,
    pub s_box: Seq<TuctosinV>,
}

/// The element-wise view of a field list.
pub open spec fn tocs_view(v: Seq<Tuctosin>) -> Seq<TuctosinV> {
    Seq::new(v.len(), |i: int| v[i]@)
}

impl View for FileHeader {
    type V = FileHeaderV;

    open spec fn view(&self) -> FileHeaderV {
        match self {
            FileHeader::Header(d) => FileHeaderV::Header(*d),
            FileHeader::BgnLib(t) => FileHeaderV::BgnLib(t@),
            FileHeader::LibName(s) => FileHeaderV::LibName(s@),
            FileHeader::RefLibs(s) => FileHeaderV::RefLibs(s@),
            FileHeader::Fonts(s) => FileHeaderV::Fonts(s@),
            FileHeader::AttrTable(s) => FileHeaderV::AttrTable(s@),
            FileHeader::Generations(d) => FileHeaderV::Generations(*d),
            FileHeader::Format(d) => FileHeaderV::Format(*d),
            FileHeader::Mask(s) => FileHeaderV::Mask(s@),
            FileHeader::EndMask => FileHeaderV::EndMask,
            FileHeader::Units(a, b) => FileHeaderV::Units(*a, *b),
        }
    }
}

impl View for ModuleHeader {
    type V = ModuleHeaderV;

    open spec fn view(&self) -> ModuleHeaderV {
        match self {
            ModuleHeader::BgnStr(t) => ModuleHeaderV::BgnStr(t@),
            ModuleHeader::StrName(s) => ModuleHeaderV::StrName(s@),
        }
    }
}

impl View for Tuctosin {
    type V = TuctosinV;

    open spec fn view(&self) -> TuctosinV {
        match self {
            Tuctosin::ElfFlags(d) => TuctosinV::ElfFlags(*d),
            Tuctosin::Plex(d) => TuctosinV::Plex(*d),
            Tuctosin::Layer(d) => TuctosinV::Layer(*d),
            Tuctosin::DataType(d) => TuctosinV::DataType(*d),
            Tuctosin::Xy(v) => TuctosinV::Xy(v@),
            Tuctosin::PathType(d) => TuctosinV::PathType(*d),
            Tuctosin::Width(d) => TuctosinV::Width(*d),
            Tuctosin::Sname(s) => TuctosinV::Sname(s@),
            Tuctosin::Strans(d) => TuctosinV::Strans(*d),
            Tuctosin::Mag(d) => TuctosinV::Mag(*d),
            Tuctosin::Angle(d) => TuctosinV::Angle(*d),
            Tuctosin::ColRow(c, r) => TuctosinV::ColRow(*c, *r),
            Tuctosin::TextType(d) => TuctosinV::TextType(*d),
            Tuctosin::Persentation(d) => TuctosinV::Persentation(*d),
            Tuctosin::AsciiString(s) => TuctosinV::AsciiString(s@),
            Tuctosin::NodeType(d) => TuctosinV::NodeType(*d),
            Tuctosin::BoxType(d) => TuctosinV::BoxType(*d),
        }
    }
}

impl View for GDSIIVariant {
    type V = RecordV;

    open spec fn view(&self) -> RecordV {
        match self {
            GDSIIVariant::FileHeader(h) => RecordV::FileHeader(h@),
            GDSIIVariant::ModuleHeader(m) => RecordV::ModuleHeader(m@),
            GDSIIVariant::TuctosinHeader(k) => RecordV::TuctosinHeader(*k),
            GDSIIVariant::Tuctosin(t) => RecordV::Tuctosin(t@),
            GDSIIVariant::TuctosinEnd => RecordV::TuctosinEnd,
            GDSIIVariant::ModuleEnd => RecordV::ModuleEnd,
            GDSIIVariant::FileEnd => RecordV::FileEnd,
        }
    }
}

impl View for LibraryHeader {
    type V = LibraryHeaderV;

    open spec fn view(&self) -> LibraryHeaderV {
        LibraryHeaderV {
            version: self.version,
            bgn_lib: match &self.bgn_lib {
                Some(t) => Some(t@),
                None => None,
            },
            lib_name: match &self.lib_name {
                Some(s) => Some(s@),
                None => None,
            },
            ref_libs: match &self.ref_libs {
                Some(s) => Some(s@),
                None => None,
            },
            fonts: match &self.fonts {
                Some(s) => Some(s@),
                None => None,
            },
            attr_table: match &self.attr_table {
                Some(s) => Some(s@),
                None => None,
            },
            generations: self.generations,
            format: self.format,
            mask: match &self.mask {
                Some(s) => Some(s@),
                None => None,
            },
            end_mask: self.end_mask,
            units: self.units,
        }
    }
}

impl View for GDSIIModel {
    type V = ModelV;

    open spec fn view(&self) -> ModelV {
        ModelV {
            header: self.header@,
            structure_time: self.structure_time@,
            structure_name: self.structure_name@,
            s_boundary: tocs_view(self.s_boundary@),
            s_path: tocs_view(self.s_path@),
            s_sref: tocs_view(self.s_sref@),
            s_aref: tocs_view(self.s_aref@),
            s_text: tocs_view(self.s_text@),
            s_node: tocs_view(self.s_node@),
            s_box: tocs_view(self.s_box@),
        }
    }
}

/// The header-map key string of each canonical key, as the original
/// representation spelled them.
pub open spec fn key_string(k: HeaderKey) -> Seq<char> {
    match k {
        HeaderKey::Version => "head"@,
        HeaderKey::BgnLib => "bgn"@,
        HeaderKey::LibName => "libname"@,
        HeaderKey::RefLibs => "reflib"@,
        HeaderKey::Fonts => "font"@,
        HeaderKey::AttrTable => "attr"@,
        HeaderKey::Generations => "generation"@,
        HeaderKey::Format => "format"@,
        HeaderKey::Mask => "mask"@,
        HeaderKey::EndMask => "endmask"@,
        HeaderKey::Units => "unit"@,
    }
}

impl FileHeaderV {
    /// The canonical header-map key this record writes.
    pub open spec fn key(self) -> HeaderKey {
        match self {
            FileHeaderV::Header(_) => HeaderKey::Version,
            FileHeaderV::BgnLib(_) => HeaderKey::BgnLib,
            FileHeaderV::LibName(_) => HeaderKey::LibName,
            FileHeaderV::RefLibs(_) => HeaderKey::RefLibs,
            FileHeaderV::Fonts(_) => HeaderKey::Fonts,
            FileHeaderV::AttrTable(_) => HeaderKey::AttrTable,
            FileHeaderV::Generations(_) => HeaderKey::Generations,
            FileHeaderV::Format(_) => HeaderKey::Format,
            FileHeaderV::Mask(_) => HeaderKey::Mask,
            FileHeaderV::EndMask => HeaderKey::EndMask,
            FileHeaderV::Units(_, _) => HeaderKey::Units,
        }
    }
}

impl FileHeader {
    /// The canonical header-map key string of this record kind.
    pub fn get_tag(&self) -> (r: String)
        ensures
            r@ == key_string(self@.key()),
    {
        match self {
            FileHeader::Header(_) => String::from_str("head"),
            FileHeader::BgnLib(_) => String::from_str("bgn"),
            FileHeader::LibName(_) => String::from_str("libname"),
            FileHeader::RefLibs(_) => String::from_str("reflib"),
            FileHeader::Fonts(_) => String::from_str("font"),
            FileHeader::AttrTable(_) => String::from_str("attr"),
            FileHeader::Generations(_) => String::from_str("generation"),
            FileHeader::Format(_) => String::from_str("format"),
            FileHeader::Mask(_) => String::from_str("mask"),
            FileHeader::EndMask => String::from_str("endmask"),
            FileHeader::Units(_, _) => String::from_str("unit"),
        }
    }
}

impl Default for TuctosinHeader {
    /// The group kind the original representation started from.
    fn default() -> (r: Self)
        ensures
            r == TuctosinHeader::Boundary,
    {
        TuctosinHeader::Boundary
    }
}

impl LibraryHeaderV {
    /// The header map with every slot empty.
    pub open spec fn empty() -> LibraryHeaderV {
        LibraryHeaderV {
            version: None,
            bgn_lib: None,
            lib_name: None,
            ref_libs: None,
            fonts: None,
            attr_table: None,
            generations: None,
            format: None,
            mask: None,
            end_mask: false,
            units: None,
        }
    }
}

impl ModelV {
    /// The model the decoder starts from: nothing set, every group empty,
    /// the structure timestamp all zeros.
    pub open spec fn empty() -> ModelV {
        ModelV {
            header: LibraryHeaderV::empty(),
            structure_time: Seq::new(12, |i: int| 0i16),
            structure_name: Seq::empty(),
            s_boundary: Seq::empty(),
            s_path: Seq::empty(),
            s_sref: Seq::empty(),
            s_aref: Seq::empty(),
            s_text: Seq::empty(),
            s_node: Seq::empty(),
            s_box: Seq::empty(),
        }
    }
}

impl Default for LibraryHeader {
    /// The empty header map.
    fn default() -> (r: Self)
        ensures
            r@ == LibraryHeaderV::empty(),
    {
        LibraryHeader {
            version: None,
            bgn_lib: None,
            lib_name: None,
            ref_libs: None,
            fonts: None,
            attr_table: None,
            generations: None,
            format: None,
            mask: None,
            end_mask: false,
            units: None,
        }
    }
}

impl Default for GDSIIModel {
    /// The empty model.
    fn default() -> (r: Self)
        ensures
            r@ == ModelV::empty(),
    {
        let mut time: Vec<i16> = Vec::new();
        while time.len() < 12
            invariant
                time@.len() <= 12,
                forall|i: int| 0 <= i < time@.len() ==> time@[i] == 0i16,
            decreases 12 - time.len(),
        {
            time.push(0i16);
        }
        let r = GDSIIModel {
            header: LibraryHeader::default(),
            structure_time: time,
            structure_name: Vec::new(),
            s_boundary: Vec::new(),
            s_path: Vec::new(),
            s_sref: Vec::new(),
            s_aref: Vec::new(),
            s_text: Vec::new(),
            s_node: Vec::new(),
            s_box: Vec::new(),
        };
        proof {
            assert(r@.structure_time =~= Seq::new(12, |i: int| 0i16));
            assert(tocs_view(Seq::<Tuctosin>::empty()) =~= Seq::<TuctosinV>::empty());
            assert(r@ =~= ModelV::empty());
        }
        r
    }
}

} // verus!
