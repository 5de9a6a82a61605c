//! The file assembler: header, map list, then every section the map names.

use vstd::prelude::*;

use crate::parser::parse::{items_at, items_end, spec_counted, spec_parse_list, Decode, Parse};
use crate::parser::{le32, DecodeMode, FileParser, ParseError, HEADER_SIZE};
use crate::types::refs::NO_INDEX;
use crate::types::code::CodeItem;
use crate::types::header::Header;
use crate::types::id::{
    AnnotationItem, AnnotationSetItem, AnnotationSetRefList, AnnotationsDirectoryItem, CallSiteIdItem, ClassDataItem,
    ClassDefItem, DebugInfoItem, EncodedArrayItem, FieldIdItem, MethodHandleItem, MethodIdItem, ProtoIdItem, StringDataItem,
    StringIdItem, TypeIdItem, TypeList,
};
use crate::types::map::{all_required, first_of, map_ok, MapItem, MapList, TypeCode};

verus! {

/// A decoded DEX file: every section, in the order of its table.
#[derive(Debug)]
pub struct DexFile {
    pub header: Header,
    pub map_list: MapList,
    pub string_ids: Vec<StringIdItem>,
    pub type_ids: Vec<TypeIdItem>,
    pub proto_ids: Vec<ProtoIdItem>,
    pub field_ids: Vec<FieldIdItem>,
    pub method_ids: Vec<MethodIdItem>,
    pub class_defs: Vec<ClassDefItem>,
    pub string_data: Vec<StringDataItem>,
    pub code: Vec<CodeItem>,
    pub debug_info: Vec<DebugInfoItem>,
    pub type_lists: Vec<TypeList>,
    pub annotations: Vec<AnnotationItem>,
    pub class_data: Vec<ClassDataItem>,
    pub encoded_arrays: Vec<EncodedArrayItem>,
    pub annotation_sets: Vec<AnnotationSetItem>,
    pub annotation_set_ref_lists: Vec<AnnotationSetRefList>,
    pub annotation_directories: Vec<AnnotationsDirectoryItem>,
    pub call_site_ids: Vec<CallSiteIdItem>,
    pub method_handles: Vec<MethodHandleItem>,
}

/// The values of the section `m`, read at its offset.
pub open spec fn spec_section<T: Parse>(mode: DecodeMode, s: Seq<u8>, m: MapItem) -> Result<Seq<T>, ParseError> {
    if m.offset > s.len() {
        Err(ParseError::Truncation)
    } else {
        match spec_parse_list::<T>(mode, s, m.offset as int, m.size as nat) {
            Ok((vs, _)) => Ok(vs),
            Err(e) => Err(e),
        }
    }
}

/// The records of the section `m` decode.
pub open spec fn section_ok<T: Decode>(mode: DecodeMode, s: Seq<u8>, m: MapItem) -> bool {
    m.offset <= s.len() && items_end::<T>(mode, s, m.offset as int, m.size as nat) is Ok
}

/// The values of an optional section: empty when the map lacks it.
pub open spec fn spec_opt_section<T: Parse>(mode: DecodeMode, s: Seq<u8>, m: Option<MapItem>) -> Result<Seq<T>, ParseError> {
    match m {
        Some(m) => spec_section::<T>(mode, s, m),
        None => Ok(Seq::empty()),
    }
}

/// Where the map list lies: the header's `map_off`.
pub open spec fn map_off(s: Seq<u8>) -> int {
    le32(s, 52) as int
}

/// The sections that the map list at the header's `map_off` names.
pub open spec fn spec_map_items(mode: DecodeMode, s: Seq<u8>) -> Seq<MapItem> {
    spec_counted::<MapItem>(mode, s, map_off(s))->Ok_0.1
}

/// The section of kind `t`.
pub open spec fn section(mode: DecodeMode, s: Seq<u8>, t: TypeCode) -> MapItem {
    first_of(spec_map_items(mode, s), t)->Some_0
}

/// Every part of the file decodes: the header, the map list at `map_off`,
/// which has all required sections, one header entry at zero and one map
/// list entry at `map_off`; every section; and the data of every string.
pub open spec fn file_ok(mode: DecodeMode, s: Seq<u8>) -> bool {
    &&& Header::spec_end(mode, s, 0) is Ok
    &&& map_off(s) <= s.len()
    &&& spec_counted::<MapItem>(mode, s, map_off(s)) is Ok
    &&& all_required(spec_map_items(mode, s))
    &&& map_ok(spec_map_items(mode, s), map_off(s) as u32)
    &&& spec_section::<StringIdItem>(mode, s, section(mode, s, TypeCode::StringIdItem)) is Ok
    &&& spec_section::<TypeIdItem>(mode, s, section(mode, s, TypeCode::TypeIdItem)) is Ok
    &&& spec_section::<ProtoIdItem>(mode, s, section(mode, s, TypeCode::ProtoIdItem)) is Ok
    &&& spec_section::<FieldIdItem>(mode, s, section(mode, s, TypeCode::FieldIdItem)) is Ok
    &&& spec_section::<MethodIdItem>(mode, s, section(mode, s, TypeCode::MethodIdItem)) is Ok
    &&& spec_section::<ClassDefItem>(mode, s, section(mode, s, TypeCode::ClassDefItem)) is Ok
    &&& strings_ok(mode, s, spec_section::<StringIdItem>(mode, s, section(mode, s, TypeCode::StringIdItem))->Ok_0)
    &&& section_ok::<CodeItem>(mode, s, section(mode, s, TypeCode::CodeItem))
    &&& section_ok::<DebugInfoItem>(mode, s, section(mode, s, TypeCode::DebugInfoItem))
    &&& section_ok::<TypeList>(mode, s, section(mode, s, TypeCode::TypeList))
    &&& section_ok::<AnnotationItem>(mode, s, section(mode, s, TypeCode::AnnotationItem))
    &&& section_ok::<ClassDataItem>(mode, s, section(mode, s, TypeCode::ClassDataItem))
    &&& section_ok::<EncodedArrayItem>(mode, s, section(mode, s, TypeCode::EncodedArrayItem))
    &&& section_ok::<AnnotationSetItem>(mode, s, section(mode, s, TypeCode::AnnotationSetItem))
    &&& section_ok::<AnnotationSetRefList>(mode, s, section(mode, s, TypeCode::AnnotationSetRefList))
    &&& section_ok::<AnnotationsDirectoryItem>(mode, s, section(mode, s, TypeCode::AnnotationsDirectoryItem))
    &&& spec_opt_section::<CallSiteIdItem>(mode, s, first_of(spec_map_items(mode, s), TypeCode::CallSiteIdItem)) is Ok
    &&& spec_opt_section::<MethodHandleItem>(mode, s, first_of(spec_map_items(mode, s), TypeCode::MethodHandleItem)) is Ok
}

/// The data of every string in `ids` decodes.
pub open spec fn strings_ok(mode: DecodeMode, s: Seq<u8>, ids: Seq<StringIdItem>) -> bool {
    forall|i: int| 0 <= i < ids.len() ==> string_ok(mode, s, #[trigger] ids[i])
}

/// The data of the string `id` decodes.
pub open spec fn string_ok(mode: DecodeMode, s: Seq<u8>, id: StringIdItem) -> bool {
    id.string_data_off.offset <= s.len() && StringDataItem::spec_end(mode, s, id.string_data_off.offset as int) is Ok
}

/// `f` is the file that the bytes `s` hold.
pub open spec fn file_at(mode: DecodeMode, s: Seq<u8>, f: DexFile) -> bool {
    &&& Header::spec_at(mode, s, 0, f.header)
    &&& MapList::spec_at(mode, s, map_off(s), f.map_list)
    &&& f.header.map_off == map_off(s)
    &&& f.string_ids@ == spec_section::<StringIdItem>(mode, s, section(mode, s, TypeCode::StringIdItem))->Ok_0
    &&& f.type_ids@ == spec_section::<TypeIdItem>(mode, s, section(mode, s, TypeCode::TypeIdItem))->Ok_0
    &&& f.proto_ids@ == spec_section::<ProtoIdItem>(mode, s, section(mode, s, TypeCode::ProtoIdItem))->Ok_0
    &&& f.field_ids@ == spec_section::<FieldIdItem>(mode, s, section(mode, s, TypeCode::FieldIdItem))->Ok_0
    &&& f.method_ids@ == spec_section::<MethodIdItem>(mode, s, section(mode, s, TypeCode::MethodIdItem))->Ok_0
    &&& f.class_defs@ == spec_section::<ClassDefItem>(mode, s, section(mode, s, TypeCode::ClassDefItem))->Ok_0
    &&& f.string_data@.len() == f.string_ids@.len()
    &&& forall|i: int| 0 <= i < f.string_ids@.len() ==> StringDataItem::spec_at(mode, s,
        f.string_ids@[i].string_data_off.offset as int, #[trigger] f.string_data@[i])
    &&& items_at::<CodeItem>(mode, s, section(mode, s, TypeCode::CodeItem).offset as int, f.code@, section(mode, s, TypeCode::CodeItem).size as nat)
    &&& items_at::<DebugInfoItem>(mode, s, section(mode, s, TypeCode::DebugInfoItem).offset as int, f.debug_info@, section(mode, s, TypeCode::DebugInfoItem).size as nat)
    &&& items_at::<TypeList>(mode, s, section(mode, s, TypeCode::TypeList).offset as int, f.type_lists@, section(mode, s, TypeCode::TypeList).size as nat)
    &&& items_at::<AnnotationItem>(mode, s, section(mode, s, TypeCode::AnnotationItem).offset as int, f.annotations@, section(mode, s, TypeCode::AnnotationItem).size as nat)
    &&& items_at::<ClassDataItem>(mode, s, section(mode, s, TypeCode::ClassDataItem).offset as int, f.class_data@, section(mode, s, TypeCode::ClassDataItem).size as nat)
    &&& items_at::<EncodedArrayItem>(mode, s, section(mode, s, TypeCode::EncodedArrayItem).offset as int, f.encoded_arrays@, section(mode, s, TypeCode::EncodedArrayItem).size as nat)
    &&& items_at::<AnnotationSetItem>(mode, s, section(mode, s, TypeCode::AnnotationSetItem).offset as int, f.annotation_sets@, section(mode, s, TypeCode::AnnotationSetItem).size as nat)
    &&& items_at::<AnnotationSetRefList>(mode, s, section(mode, s, TypeCode::AnnotationSetRefList).offset as int, f.annotation_set_ref_lists@, section(mode, s, TypeCode::AnnotationSetRefList).size as nat)
    &&& items_at::<AnnotationsDirectoryItem>(mode, s, section(mode, s, TypeCode::AnnotationsDirectoryItem).offset as int, f.annotation_directories@, section(mode, s, TypeCode::AnnotationsDirectoryItem).size as nat)
    &&& f.call_site_ids@ == spec_opt_section::<CallSiteIdItem>(mode, s, first_of(spec_map_items(mode, s), TypeCode::CallSiteIdItem))->Ok_0
    &&& f.method_handles@ == spec_opt_section::<MethodHandleItem>(mode, s, first_of(spec_map_items(mode, s), TypeCode::MethodHandleItem))->Ok_0
}

/// An optional offset: absent (zero) or past the header.
pub open spec fn offset_ok(o: u32) -> bool {
    o == 0 || o >= HEADER_SIZE
}

/// An optional index into a table of `n` entries: the sentinel or in range.
pub open spec fn opt_index_ok(i: usize, n: nat) -> bool {
    i == NO_INDEX || i < n
}

/// A string table entry points past the header.
pub open spec fn string_id_ok(x: StringIdItem) -> bool {
    x.string_data_off.offset >= HEADER_SIZE
}

/// A type table entry names an existing string.
pub open spec fn type_id_ok(x: TypeIdItem, ns: nat) -> bool {
    x.descriptor_idx.idx < ns
}

/// A prototype names existing strings and types, and an optional parameter list.
pub open spec fn proto_id_ok(x: ProtoIdItem, ns: nat, nt: nat) -> bool {
    x.shorty_idx.idx < ns && x.return_type_idx.idx < nt && offset_ok(x.parameters.offset)
}

/// A field reference names an existing class, type and string.
pub open spec fn field_id_ok(x: FieldIdItem, ns: nat, nt: nat) -> bool {
    x.class_idx.idx < nt && x.type_idx.idx < nt && x.name_idx.idx < ns
}

/// A method reference names an existing class, prototype and string.
pub open spec fn method_id_ok(x: MethodIdItem, ns: nat, nt: nat, np: nat) -> bool {
    x.class_idx.idx < nt && x.proto_idx.idx < np && x.name_idx.idx < ns
}

/// A class definition names an existing class; its superclass and source file
/// are existing or absent, and its offsets are absent or past the header.
pub open spec fn class_def_ok(x: ClassDefItem, ns: nat, nt: nat) -> bool {
    &&& x.class_idx.idx < nt
    &&& opt_index_ok(x.superclass_idx.idx, nt)
    &&& opt_index_ok(x.source_file_idx.idx, ns)
    &&& offset_ok(x.interfaces_off.offset)
    &&& offset_ok(x.annotations_off.offset)
    &&& offset_ok(x.class_data_off.offset)
    &&& offset_ok(x.static_values_off.offset)
}

/// Every index and offset of the identifier tables and class definitions is
/// a sentinel or a valid reference.
pub open spec fn refs_ok(f: &DexFile) -> bool {
    let ns = f.string_ids@.len();
    let nt = f.type_ids@.len();
    let np = f.proto_ids@.len();
    &&& forall|i: int| 0 <= i < ns ==> string_id_ok(#[trigger] f.string_ids@[i])
    &&& forall|i: int| 0 <= i < nt ==> type_id_ok(#[trigger] f.type_ids@[i], ns)
    &&& forall|i: int| 0 <= i < np ==> proto_id_ok(#[trigger] f.proto_ids@[i], ns, nt)
    &&& forall|i: int| 0 <= i < f.field_ids@.len() ==> field_id_ok(#[trigger] f.field_ids@[i], ns, nt)
    &&& forall|i: int| 0 <= i < f.method_ids@.len() ==> method_id_ok(#[trigger] f.method_ids@[i], ns, nt, np)
    &&& forall|i: int| 0 <= i < f.class_defs@.len() ==> class_def_ok(#[trigger] f.class_defs@[i], ns, nt)
}

impl DexFile {
    /// Whether every index and offset of the identifier tables and class
    /// definitions is a sentinel or a valid reference.
    pub fn check_references(&self) -> (r: bool)
        ensures
            r == refs_ok(self),
    {
        let ns = self.string_ids.len();
        let nt = self.type_ids.len();
        let np = self.proto_ids.len();
        let mut i: usize = 0;
        while i < self.string_ids.len()
            invariant
                i <= self.string_ids@.len(),
                ns == self.string_ids@.len(),
                nt == self.type_ids@.len(),
                np == self.proto_ids@.len(),
                forall|j: int| 0 <= j < i ==> string_id_ok(#[trigger] self.string_ids@[j]),
            decreases self.string_ids@.len() - i,
        {
            let e = &self.string_ids[i];
            if !(e.string_data_off.offset >= HEADER_SIZE) {
                return false;
            }
            i = i + 1;
        }
        let mut i: usize = 0;
        while i < self.type_ids.len()
            invariant
                i <= self.type_ids@.len(),
                ns == self.string_ids@.len(),
                nt == self.type_ids@.len(),
                np == self.proto_ids@.len(),
                forall|j: int| 0 <= j < i ==> type_id_ok(#[trigger] self.type_ids@[j], ns as nat),
            decreases self.type_ids@.len() - i,
        {
            let e = &self.type_ids[i];
            if !(e.descriptor_idx.idx < ns) {
                return false;
            }
            i = i + 1;
        }
        let mut i: usize = 0;
        while i < self.proto_ids.len()
            invariant
                i <= self.proto_ids@.len(),
                ns == self.string_ids@.len(),
                nt == self.type_ids@.len(),
                np == self.proto_ids@.len(),
                forall|j: int| 0 <= j < i ==> proto_id_ok(#[trigger] self.proto_ids@[j], ns as nat, nt as nat),
            decreases self.proto_ids@.len() - i,
        {
            let e = &self.proto_ids[i];
            if !(e.shorty_idx.idx < ns && e.return_type_idx.idx < nt && (e.parameters.offset == 0 || e.parameters.offset >= HEADER_SIZE)) {
                return false;
            }
            i = i + 1;
        }
        let mut i: usize = 0;
        while i < self.field_ids.len()
            invariant
                i <= self.field_ids@.len(),
                ns == self.string_ids@.len(),
                nt == self.type_ids@.len(),
                np == self.proto_ids@.len(),
                forall|j: int| 0 <= j < i ==> field_id_ok(#[trigger] self.field_ids@[j], ns as nat, nt as nat),
            decreases self.field_ids@.len() - i,
        {
            let e = &self.field_ids[i];
            if !(e.class_idx.idx < nt && e.type_idx.idx < nt && e.name_idx.idx < ns) {
                return false;
            }
            i = i + 1;
        }
        let mut i: usize = 0;
        while i < self.method_ids.len()
            invariant
                i <= self.method_ids@.len(),
                ns == self.string_ids@.len(),
                nt == self.type_ids@.len(),
                np == self.proto_ids@.len(),
                forall|j: int| 0 <= j < i ==> method_id_ok(#[trigger] self.method_ids@[j], ns as nat, nt as nat, np as nat),
            decreases self.method_ids@.len() - i,
        {
            let e = &self.method_ids[i];
            if !(e.class_idx.idx < nt && e.proto_idx.idx < np && e.name_idx.idx < ns) {
                return false;
            }
            i = i + 1;
        }
        let mut i: usize = 0;
        while i < self.class_defs.len()
            invariant
                i <= self.class_defs@.len(),
                ns == self.string_ids@.len(),
                nt == self.type_ids@.len(),
                np == self.proto_ids@.len(),
                forall|j: int| 0 <= j < i ==> class_def_ok(#[trigger] self.class_defs@[j], ns as nat, nt as nat),
            decreases self.class_defs@.len() - i,
        {
            let e = &self.class_defs[i];
            if !(e.class_idx.idx < nt && (e.superclass_idx.idx == NO_INDEX as usize || e.superclass_idx.idx < nt) && (e.source_file_idx.idx == NO_INDEX as usize || e.source_file_idx.idx < ns) && (e.interfaces_off.offset == 0 || e.interfaces_off.offset >= HEADER_SIZE) && (e.annotations_off.offset == 0 || e.annotations_off.offset >= HEADER_SIZE) && (e.class_data_off.offset == 0 || e.class_data_off.offset >= HEADER_SIZE) && (e.static_values_off.offset == 0 || e.static_values_off.offset >= HEADER_SIZE)) {
                return false;
            }
            i = i + 1;
        }
        true
    }
}

impl FileParser {
    /// Reads the values of the section `m`.
    fn read_section<T: Parse>(&mut self, m: MapItem) -> (r: Result<Vec<T>, ParseError>)
        requires
            old(self).wf(),
        ensures
            final(self).wf(),
            final(self).bytes() == old(self).bytes(),
            final(self).mode() == old(self).mode(),
            match spec_section::<T>(old(self).mode(), old(self).bytes(), m) {
                Ok(vs) => r is Ok && r->Ok_0@ == vs,
                Err(e) => r is Err,
            },
    {
        match self.set_offset(m.offset as usize) {
            Ok(()) => {},
            Err(e) => {
                return Err(e);
            },
        }
        self.parse_list::<T>(m.size)
    }

    /// Reads the values of the section `m`, or none when the map lacks it.
    fn read_opt_section<T: Parse>(&mut self, m: Option<MapItem>) -> (r: Result<Vec<T>, ParseError>)
        requires
            old(self).wf(),
        ensures
            final(self).wf(),
            final(self).bytes() == old(self).bytes(),
            final(self).mode() == old(self).mode(),
            match spec_opt_section::<T>(old(self).mode(), old(self).bytes(), m) {
                Ok(vs) => r is Ok && r->Ok_0@ == vs,
                Err(e) => r is Err,
            },
    {
        match m {
            Some(m) => self.read_section::<T>(m),
            None => Ok(Vec::new()),
        }
    }

    /// Decodes the records of the section `m`.
    fn decode_section<T: Decode>(&mut self, m: MapItem) -> (r: Result<Vec<T>, ParseError>)
        requires
            old(self).wf(),
        ensures
            final(self).wf(),
            final(self).bytes() == old(self).bytes(),
            final(self).mode() == old(self).mode(),
            section_ok::<T>(old(self).mode(), old(self).bytes(), m) <==> r is Ok,
            r is Ok ==> items_at::<T>(old(self).mode(), old(self).bytes(), m.offset as int, r->Ok_0@, m.size as nat),
    {
        match self.set_offset(m.offset as usize) {
            Ok(()) => {},
            Err(e) => {
                return Err(e);
            },
        }
        self.decode_list::<T>(m.size)
    }

    /// Decodes the data of every string in `ids`.
    fn decode_strings(&mut self, ids: &Vec<StringIdItem>) -> (r: Result<Vec<StringDataItem>, ParseError>)
        requires
            old(self).wf(),
        ensures
            final(self).wf(),
            final(self).bytes() == old(self).bytes(),
            final(self).mode() == old(self).mode(),
            strings_ok(old(self).mode(), old(self).bytes(), ids@) <==> r is Ok,
            r is Ok ==> r->Ok_0@.len() == ids@.len() && forall|i: int| 0 <= i < ids@.len() ==> StringDataItem::spec_at(
                old(self).mode(), old(self).bytes(), ids@[i].string_data_off.offset as int, #[trigger] r->Ok_0@[i]),
    {
        let ghost s = self.bytes();
        let ghost mode = self.mode();
        let mut out: Vec<StringDataItem> = Vec::new();
        let mut i: usize = 0;
        while i < ids.len()
            invariant
                self.wf(),
                self.bytes() == s,
                self.mode() == mode,
                s == old(self).bytes(),
                mode == old(self).mode(),
                i <= ids@.len(),
                out@.len() == i,
                forall|j: int| 0 <= j < i ==> string_ok(mode, s, #[trigger] ids@[j]),
                forall|j: int| 0 <= j < i ==> StringDataItem::spec_at(mode, s, ids@[j].string_data_off.offset as int, #[trigger] out@[j]),
            decreases ids@.len() - i,
        {
            match self.set_offset(ids[i].string_data_off.offset as usize) {
                Ok(()) => {},
                Err(e) => {
                    return Err(e);
                },
            }
            let d = match StringDataItem::decode(self) {
                Ok(d) => d,
                Err(e) => {
                    return Err(e);
                },
            };
            out.push(d);
            i = i + 1;
        }
        Ok(out)
    }

    /// Decodes the whole file.
    pub fn parse_file(&mut self) -> (r: Result<DexFile, ParseError>)
        requires
            old(self).wf(),
        ensures
            final(self).wf(),
            final(self).bytes() == old(self).bytes(),
            r is Ok ==> file_ok(old(self).mode(), old(self).bytes()),
            file_ok(old(self).mode(), old(self).bytes()) ==> forall|g: DexFile| #[trigger] file_at(old(self).mode(), old(self).bytes(), g)
                ==> (r is Ok <==> refs_ok(&g)),
            r matches Ok(f) ==> file_at(old(self).mode(), old(self).bytes(), f) && refs_ok(&f),
            r matches Ok(f) ==> map_ok(f.map_list.list@, f.header.map_off),
    {
        DexFile::parse(self)
    }
}

impl DexFile {
    /// Decodes the whole file: the header at offset zero, the map list at the
    /// header's `map_off`, then each section at the offset the map gives it;
    /// last, every index and offset of the tables must be a sentinel or a
    /// valid reference.
    #[verifier::rlimit(100)]
    pub fn parse(p: &mut FileParser) -> (r: Result<DexFile, ParseError>)
        requires
            old(p).wf(),
        ensures
            final(p).wf(),
            final(p).bytes() == old(p).bytes(),
            r is Ok ==> file_ok(old(p).mode(), old(p).bytes()),
            file_ok(old(p).mode(), old(p).bytes()) ==> forall|g: DexFile| #[trigger] file_at(old(p).mode(), old(p).bytes(), g)
                ==> (r is Ok <==> refs_ok(&g)),
            r matches Ok(f) ==> file_at(old(p).mode(), old(p).bytes(), f) && refs_ok(&f),
            r matches Ok(f) ==> map_ok(f.map_list.list@, f.header.map_off),
    {
        let ghost s = p.bytes();
        let ghost mode = p.mode();
        let _ = p.set_offset(0);
        let header = match Header::decode(p) {
            Ok(h) => h,
            Err(e) => {
                return Err(e);
            },
        };
        match p.set_offset(header.map_off as usize) {
            Ok(()) => {},
            Err(e) => {
                return Err(e);
            },
        }
        let map_list = match MapList::decode(p) {
            Ok(m) => m,
            Err(e) => {
                return Err(e);
            },
        };
        let map = match map_list.map() {
            Ok(m) => m,
            Err(e) => {
                return Err(e);
            },
        };
        if !map_list.check(header.map_off) {
            return Err(ParseError::BadMapList);
        }
        let string_ids = match p.read_section::<StringIdItem>(map.string_id_item) {
            Ok(v) => v,
            Err(e) => {
                return Err(e);
            },
        };
        let type_ids = match p.read_section::<TypeIdItem>(map.type_id_item) {
            Ok(v) => v,
            Err(e) => {
                return Err(e);
            },
        };
        let proto_ids = match p.read_section::<ProtoIdItem>(map.proto_id_item) {
            Ok(v) => v,
            Err(e) => {
                return Err(e);
            },
        };
        let field_ids = match p.read_section::<FieldIdItem>(map.field_id_item) {
            Ok(v) => v,
            Err(e) => {
                return Err(e);
            },
        };
        let method_ids = match p.read_section::<MethodIdItem>(map.method_id_item) {
            Ok(v) => v,
            Err(e) => {
                return Err(e);
            },
        };
        let class_defs = match p.read_section::<ClassDefItem>(map.class_def_item) {
            Ok(v) => v,
            Err(e) => {
                return Err(e);
            },
        };
        let string_data = match p.decode_strings(&string_ids) {
            Ok(v) => v,
            Err(e) => {
                return Err(e);
            },
        };
        let code = match p.decode_section::<CodeItem>(map.code_item) {
            Ok(v) => v,
            Err(e) => {
                return Err(e);
            },
        };
        let debug_info = match p.decode_section::<DebugInfoItem>(map.debug_info_item) {
            Ok(v) => v,
            Err(e) => {
                return Err(e);
            },
        };
        let type_lists = match p.decode_section::<TypeList>(map.type_list) {
            Ok(v) => v,
            Err(e) => {
                return Err(e);
            },
        };
        let annotations = match p.decode_section::<AnnotationItem>(map.annotation_item) {
            Ok(v) => v,
            Err(e) => {
                return Err(e);
            },
        };
        let class_data = match p.decode_section::<ClassDataItem>(map.class_data_item) {
            Ok(v) => v,
            Err(e) => {
                return Err(e);
            },
        };
        let encoded_arrays = match p.decode_section::<EncodedArrayItem>(map.encoded_array_item) {
            Ok(v) => v,
            Err(e) => {
                return Err(e);
            },
        };
        let annotation_sets = match p.decode_section::<AnnotationSetItem>(map.annotation_set_item) {
            Ok(v) => v,
            Err(e) => {
                return Err(e);
            },
        };
        let annotation_set_ref_lists = match p.decode_section::<AnnotationSetRefList>(map.annotation_set_ref_list) {
            Ok(v) => v,
            Err(e) => {
                return Err(e);
            },
        };
        let annotation_directories = match p.decode_section::<AnnotationsDirectoryItem>(map.annotations_directory_item) {
            Ok(v) => v,
            Err(e) => {
                return Err(e);
            },
        };
        let call_site_ids = match p.read_opt_section::<CallSiteIdItem>(map.call_site_id_item) {
            Ok(v) => v,
            Err(e) => {
                return Err(e);
            },
        };
        let method_handles = match p.read_opt_section::<MethodHandleItem>(map.method_handle_item) {
            Ok(v) => v,
            Err(e) => {
                return Err(e);
            },
        };
        let f = DexFile {
            header,
            map_list,
            string_ids,
            type_ids,
            proto_ids,
            field_ids,
            method_ids,
            class_defs,
            string_data,
            code,
            debug_info,
            type_lists,
            annotations,
            class_data,
            encoded_arrays,
            annotation_sets,
            annotation_set_ref_lists,
            annotation_directories,
            call_site_ids,
            method_handles,
        };
        proof {
            assert forall|g: DexFile| #[trigger] file_at(mode, s, g) implies refs_ok(&g) == refs_ok(&f) by {
                assert(g.string_ids@ == f.string_ids@);
                assert(g.type_ids@ == f.type_ids@);
                assert(g.proto_ids@ == f.proto_ids@);
                assert(g.field_ids@ == f.field_ids@);
                assert(g.method_ids@ == f.method_ids@);
                assert(g.class_defs@ == f.class_defs@);
            }
        }
        if !f.check_references() {
            return Err(ParseError::OutOfBounds);
        }
        Ok(f)
    }
}

} // verus!
