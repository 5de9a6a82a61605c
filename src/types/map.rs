//! The map list: the catalogue of the file's sections.

use vstd::prelude::*;

use crate::parser::parse::{decoded, spec_counted, Decode, Parse};
use crate::parser::{block_start, le16, le16_at, le32, le32_at, spec_bytes, DecodeMode, FileParser, ParseError};

verus! {

/// The kind of a section, as the map list names it.
#[derive(Debug, Clone, Copy, PartialEq, Eq, Structural, PartialOrd, Ord, Hash)]
pub enum TypeCode {
    HeaderItem,
    StringIdItem,
    TypeIdItem,
    ProtoIdItem,
    FieldIdItem,
    MethodIdItem,
    ClassDefItem,
    CallSiteIdItem,
    MethodHandleItem,
    MapList,
    TypeList,
    AnnotationSetRefList,
    AnnotationSetItem,
    ClassDataItem,
    CodeItem,
    StringDataItem,
    DebugInfoItem,
    AnnotationItem,
    EncodedArrayItem,
    AnnotationsDirectoryItem,
    HiddenapiClassDataItem,
}

/// The section kind that the code `value` names, if any.
pub open spec fn spec_type_code(value: u16) -> Option<TypeCode> {
    if value == 0x0000 {
        Some(TypeCode::HeaderItem)
    } else if value == 0x0001 {
        Some(TypeCode::StringIdItem)
    } else if value == 0x0002 {
        Some(TypeCode::TypeIdItem)
    } else if value == 0x0003 {
        Some(TypeCode::ProtoIdItem)
    } else if value == 0x0004 {
        Some(TypeCode::FieldIdItem)
    } else if value == 0x0005 {
        Some(TypeCode::MethodIdItem)
    } else if value == 0x0006 {
        Some(TypeCode::ClassDefItem)
    } else if value == 0x0007 {
        Some(TypeCode::CallSiteIdItem)
    } else if value == 0x0008 {
        Some(TypeCode::MethodHandleItem)
    } else if value == 0x1000 {
        Some(TypeCode::MapList)
    } else if value == 0x1001 {
        Some(TypeCode::TypeList)
    } else if value == 0x1002 {
        Some(TypeCode::AnnotationSetRefList)
    } else if value == 0x1003 {
        Some(TypeCode::AnnotationSetItem)
    } else if value == 0x2000 {
        Some(TypeCode::ClassDataItem)
    } else if value == 0x2001 {
        Some(TypeCode::CodeItem)
    } else if value == 0x2002 {
        Some(TypeCode::StringDataItem)
    } else if value == 0x2003 {
        Some(TypeCode::DebugInfoItem)
    } else if value == 0x2004 {
        Some(TypeCode::AnnotationItem)
    } else if value == 0x2005 {
        Some(TypeCode::EncodedArrayItem)
    } else if value == 0x2006 {
        Some(TypeCode::AnnotationsDirectoryItem)
    } else if value == 0xf000 {
        Some(TypeCode::HiddenapiClassDataItem)
    } else {
        None
    }
}

impl TypeCode {
    /// The section kind named by `value`; an unknown code is refused.
    pub fn try_from(value: u16) -> (r: Result<TypeCode, ParseError>)
        ensures
            match spec_type_code(value) {
                Some(c) => r == Ok::<TypeCode, ParseError>(c),
                None => r == Err::<TypeCode, ParseError>(ParseError::BadTypeCode(value)),
            },
    {
        match value {
            0x0000 => Ok(TypeCode::HeaderItem),
            0x0001 => Ok(TypeCode::StringIdItem),
            0x0002 => Ok(TypeCode::TypeIdItem),
            0x0003 => Ok(TypeCode::ProtoIdItem),
            0x0004 => Ok(TypeCode::FieldIdItem),
            0x0005 => Ok(TypeCode::MethodIdItem),
            0x0006 => Ok(TypeCode::ClassDefItem),
            0x0007 => Ok(TypeCode::CallSiteIdItem),
            0x0008 => Ok(TypeCode::MethodHandleItem),
            0x1000 => Ok(TypeCode::MapList),
            0x1001 => Ok(TypeCode::TypeList),
            0x1002 => Ok(TypeCode::AnnotationSetRefList),
            0x1003 => Ok(TypeCode::AnnotationSetItem),
            0x2000 => Ok(TypeCode::ClassDataItem),
            0x2001 => Ok(TypeCode::CodeItem),
            0x2002 => Ok(TypeCode::StringDataItem),
            0x2003 => Ok(TypeCode::DebugInfoItem),
            0x2004 => Ok(TypeCode::AnnotationItem),
            0x2005 => Ok(TypeCode::EncodedArrayItem),
            0x2006 => Ok(TypeCode::AnnotationsDirectoryItem),
            0xf000 => Ok(TypeCode::HiddenapiClassDataItem),
            _ => Err(ParseError::BadTypeCode(value)),
        }
    }

    /// The code of the section kind.
    pub open spec fn spec_code(self) -> u16 {
        match self {
            TypeCode::HeaderItem => 0x0000,
            TypeCode::StringIdItem => 0x0001,
            TypeCode::TypeIdItem => 0x0002,
            TypeCode::ProtoIdItem => 0x0003,
            TypeCode::FieldIdItem => 0x0004,
            TypeCode::MethodIdItem => 0x0005,
            TypeCode::ClassDefItem => 0x0006,
            TypeCode::CallSiteIdItem => 0x0007,
            TypeCode::MethodHandleItem => 0x0008,
            TypeCode::MapList => 0x1000,
            TypeCode::TypeList => 0x1001,
            TypeCode::AnnotationSetRefList => 0x1002,
            TypeCode::AnnotationSetItem => 0x1003,
            TypeCode::ClassDataItem => 0x2000,
            TypeCode::CodeItem => 0x2001,
            TypeCode::StringDataItem => 0x2002,
            TypeCode::DebugInfoItem => 0x2003,
            TypeCode::AnnotationItem => 0x2004,
            TypeCode::EncodedArrayItem => 0x2005,
            TypeCode::AnnotationsDirectoryItem => 0x2006,
            TypeCode::HiddenapiClassDataItem => 0xf000,
        }
    }

    /// The code of the section kind.
    pub fn code(&self) -> (r: u16)
        ensures
            r == self.spec_code(),
    {
        match self {
            TypeCode::HeaderItem => 0x0000,
            TypeCode::StringIdItem => 0x0001,
            TypeCode::TypeIdItem => 0x0002,
            TypeCode::ProtoIdItem => 0x0003,
            TypeCode::FieldIdItem => 0x0004,
            TypeCode::MethodIdItem => 0x0005,
            TypeCode::ClassDefItem => 0x0006,
            TypeCode::CallSiteIdItem => 0x0007,
            TypeCode::MethodHandleItem => 0x0008,
            TypeCode::MapList => 0x1000,
            TypeCode::TypeList => 0x1001,
            TypeCode::AnnotationSetRefList => 0x1002,
            TypeCode::AnnotationSetItem => 0x1003,
            TypeCode::ClassDataItem => 0x2000,
            TypeCode::CodeItem => 0x2001,
            TypeCode::StringDataItem => 0x2002,
            TypeCode::DebugInfoItem => 0x2003,
            TypeCode::AnnotationItem => 0x2004,
            TypeCode::EncodedArrayItem => 0x2005,
            TypeCode::AnnotationsDirectoryItem => 0x2006,
            TypeCode::HiddenapiClassDataItem => 0xf000,
        }
    }
}

/// One section: its kind, its number of items, and its offset.
#[derive(Debug, Clone, Copy, PartialEq, Eq, Structural, PartialOrd, Ord)]
pub struct MapItem {
    pub item_type: TypeCode,
    pub size: u32,
    pub offset: u32,
}

impl Parse for MapItem {
    open spec fn spec_parse(mode: DecodeMode, s: Seq<u8>, pos: int) -> Result<(MapItem, int), ParseError> {
        match block_start(s, pos, 12, false) {
            Ok(a) => match spec_type_code(le16(s, a) as u16) {
                Some(t) => Ok((MapItem { item_type: t, size: le32(s, a + 4) as u32, offset: le32(s, a + 8) as u32 }, a + 12)),
                None => Err(ParseError::BadTypeCode(le16(s, a) as u16)),
            },
            Err(e) => Err(e),
        }
    }

    fn parse(p: &mut FileParser) -> (r: Result<MapItem, ParseError>) {
        let b = match p.read_block(12, false) {
            Ok(b) => b,
            Err(e) => {
                return Err(e);
            },
        };
        match TypeCode::try_from(le16_at(&b, 0)) {
            Ok(item_type) => Ok(MapItem { item_type, size: le32_at(&b, 4), offset: le32_at(&b, 8) }),
            Err(e) => Err(e),
        }
    }
}

/// The map list: the sections in the order the file lists them.
#[derive(Debug, Clone, PartialEq, Eq)]
pub struct MapList {
    pub size: u32,
    pub list: Vec<MapItem>,
}

impl Decode for MapList {
    open spec fn spec_end(mode: DecodeMode, s: Seq<u8>, pos: int) -> Result<int, ParseError> {
        match spec_counted::<MapItem>(mode, s, pos) {
            Ok((_, _, e)) => Ok(e),
            Err(e) => Err(e),
        }
    }

    open spec fn spec_at(mode: DecodeMode, s: Seq<u8>, pos: int, v: MapList) -> bool {
        match spec_counted::<MapItem>(mode, s, pos) {
            Ok((n, vs, _)) => v.size == n && v.list@ == vs,
            Err(_) => false,
        }
    }

    fn decode(p: &mut FileParser) -> (r: Result<MapList, ParseError>) {
        match p.parse_counted::<MapItem>() {
            Ok((size, list)) => Ok(MapList { size, list }),
            Err(e) => Err(e),
        }
    }
}

/// The first section of kind `t` in `list`.
pub open spec fn first_of(list: Seq<MapItem>, t: TypeCode) -> Option<MapItem>
    decreases list.len(),
{
    if list.len() == 0 {
        None
    } else if list[0].item_type == t {
        Some(list[0])
    } else {
        first_of(list.drop_first(), t)
    }
}

/// How many sections of kind `t` `list` has.
pub open spec fn count_of(list: Seq<MapItem>, t: TypeCode) -> nat
    decreases list.len(),
{
    if list.len() == 0 {
        0
    } else {
        (if list[0].item_type == t { 1nat } else { 0nat }) + count_of(list.drop_first(), t)
    }
}

/// The map list has exactly one header section, at offset zero, and exactly
/// one map list section, at `map_off`.
pub open spec fn map_ok(list: Seq<MapItem>, map_off: u32) -> bool {
    &&& count_of(list, TypeCode::HeaderItem) == 1
    &&& first_of(list, TypeCode::HeaderItem)->Some_0.offset == 0
    &&& count_of(list, TypeCode::MapList) == 1
    &&& first_of(list, TypeCode::MapList)->Some_0.offset == map_off
}

proof fn lemma_absent_uncounted(list: Seq<MapItem>, t: TypeCode)
    ensures
        first_of(list, t) is None ==> count_of(list, t) == 0,
    decreases list.len(),
{
    if list.len() > 0 {
        lemma_absent_uncounted(list.drop_first(), t);
    }
}

/// The sections of a file, by kind; the last three may be missing.
#[derive(Debug, Clone, PartialEq, Eq)]
pub struct SectionMap {
    pub header_item: MapItem,
    pub string_id_item: MapItem,
    pub type_id_item: MapItem,
    pub proto_id_item: MapItem,
    pub field_id_item: MapItem,
    pub method_id_item: MapItem,
    pub class_def_item: MapItem,
    pub code_item: MapItem,
    pub debug_info_item: MapItem,
    pub type_list: MapItem,
    pub string_data_item: MapItem,
    pub annotation_item: MapItem,
    pub class_data_item: MapItem,
    pub encoded_array_item: MapItem,
    pub annotation_set_item: MapItem,
    pub annotation_set_ref_list: MapItem,
    pub annotations_directory_item: MapItem,
    pub map_list: MapItem,
    pub call_site_id_item: Option<MapItem>,
    pub method_handle_item: Option<MapItem>,
    pub hiddenapi_class_data_item: Option<MapItem>,
}

/// The sections that a file must have.
pub open spec fn all_required(list: Seq<MapItem>) -> bool {
    first_of(list, TypeCode::HeaderItem) is Some
    && first_of(list, TypeCode::StringIdItem) is Some
    && first_of(list, TypeCode::TypeIdItem) is Some
    && first_of(list, TypeCode::ProtoIdItem) is Some
    && first_of(list, TypeCode::FieldIdItem) is Some
    && first_of(list, TypeCode::MethodIdItem) is Some
    && first_of(list, TypeCode::ClassDefItem) is Some
    && first_of(list, TypeCode::CodeItem) is Some
    && first_of(list, TypeCode::DebugInfoItem) is Some
    && first_of(list, TypeCode::TypeList) is Some
    && first_of(list, TypeCode::StringDataItem) is Some
    && first_of(list, TypeCode::AnnotationItem) is Some
    && first_of(list, TypeCode::ClassDataItem) is Some
    && first_of(list, TypeCode::EncodedArrayItem) is Some
    && first_of(list, TypeCode::AnnotationSetItem) is Some
    && first_of(list, TypeCode::AnnotationSetRefList) is Some
    && first_of(list, TypeCode::AnnotationsDirectoryItem) is Some
    && first_of(list, TypeCode::MapList) is Some
}

impl MapList {
    /// The first section of kind `typ`; a missing one is refused.
    pub fn item(&self, typ: TypeCode) -> (r: Result<MapItem, ParseError>)
        ensures
            match first_of(self.list@, typ) {
                Some(m) => r == Ok::<MapItem, ParseError>(m),
                None => r == Err::<MapItem, ParseError>(ParseError::MissingSection(typ.spec_code())),
            },
    {
        let mut i: usize = 0;
        proof {
            assert(self.list@.subrange(0, self.list@.len() as int) =~= self.list@);
        }
        while i < self.list.len()
            invariant
                i <= self.list@.len(),
                first_of(self.list@, typ) == first_of(self.list@.subrange(i as int, self.list@.len() as int), typ),
            decreases self.list@.len() - i,
        {
            let ghost rest = self.list@.subrange(i as int, self.list@.len() as int);
            assert(rest.drop_first() =~= self.list@.subrange(i + 1, self.list@.len() as int));
            if self.list[i].item_type == typ {
                return Ok(self.list[i]);
            }
            i = i + 1;
        }
        Err(ParseError::MissingSection(typ.code()))
    }

    /// How many sections of kind `typ` there are.
    pub fn count(&self, typ: TypeCode) -> (r: usize)
        ensures
            r == count_of(self.list@, typ),
    {
        let mut i: usize = self.list.len();
        let mut n: usize = 0;
        proof {
            assert(self.list@.subrange(i as int, i as int) =~= Seq::<MapItem>::empty());
        }
        while i > 0
            invariant
                i <= self.list@.len(),
                n <= self.list.len() - i,
                n == count_of(self.list@.subrange(i as int, self.list@.len() as int), typ),
            decreases i,
        {
            i = i - 1;
            let ghost rest = self.list@.subrange(i as int, self.list@.len() as int);
            assert(rest.drop_first() =~= self.list@.subrange(i + 1, self.list@.len() as int));
            if self.list[i].item_type == typ {
                n = n + 1;
            }
        }
        assert(self.list@.subrange(0, self.list@.len() as int) =~= self.list@);
        n
    }

    /// Whether the list has exactly one header section, at offset zero, and
    /// exactly one map list section, at `map_off`.
    pub fn check(&self, map_off: u32) -> (r: bool)
        ensures
            r == map_ok(self.list@, map_off),
    {
        if self.count(TypeCode::HeaderItem) != 1 || self.count(TypeCode::MapList) != 1 {
            return false;
        }
        proof {
            lemma_absent_uncounted(self.list@, TypeCode::HeaderItem);
            lemma_absent_uncounted(self.list@, TypeCode::MapList);
        }
        let h = self.item(TypeCode::HeaderItem);
        let m = self.item(TypeCode::MapList);
        match (h, m) {
            (Ok(h), Ok(m)) => h.offset == 0 && m.offset == map_off,
            _ => false,
        }
    }

    /// The sections by kind; a missing required section is refused.
    pub fn map(&self) -> (r: Result<SectionMap, ParseError>)
        ensures
            r is Ok <==> all_required(self.list@),
            r matches Ok(m) ==> {
                &&& Some(m.header_item) == first_of(self.list@, TypeCode::HeaderItem)
                &&& Some(m.string_id_item) == first_of(self.list@, TypeCode::StringIdItem)
                &&& Some(m.type_id_item) == first_of(self.list@, TypeCode::TypeIdItem)
                &&& Some(m.proto_id_item) == first_of(self.list@, TypeCode::ProtoIdItem)
                &&& Some(m.field_id_item) == first_of(self.list@, TypeCode::FieldIdItem)
                &&& Some(m.method_id_item) == first_of(self.list@, TypeCode::MethodIdItem)
                &&& Some(m.class_def_item) == first_of(self.list@, TypeCode::ClassDefItem)
                &&& Some(m.code_item) == first_of(self.list@, TypeCode::CodeItem)
                &&& Some(m.debug_info_item) == first_of(self.list@, TypeCode::DebugInfoItem)
                &&& Some(m.type_list) == first_of(self.list@, TypeCode::TypeList)
                &&& Some(m.string_data_item) == first_of(self.list@, TypeCode::StringDataItem)
                &&& Some(m.annotation_item) == first_of(self.list@, TypeCode::AnnotationItem)
                &&& Some(m.class_data_item) == first_of(self.list@, TypeCode::ClassDataItem)
                &&& Some(m.encoded_array_item) == first_of(self.list@, TypeCode::EncodedArrayItem)
                &&& Some(m.annotation_set_item) == first_of(self.list@, TypeCode::AnnotationSetItem)
                &&& Some(m.annotation_set_ref_list) == first_of(self.list@, TypeCode::AnnotationSetRefList)
                &&& Some(m.annotations_directory_item) == first_of(self.list@, TypeCode::AnnotationsDirectoryItem)
                &&& Some(m.map_list) == first_of(self.list@, TypeCode::MapList)
                &&& m.call_site_id_item == first_of(self.list@, TypeCode::CallSiteIdItem)
                &&& m.method_handle_item == first_of(self.list@, TypeCode::MethodHandleItem)
                &&& m.hiddenapi_class_data_item == first_of(self.list@, TypeCode::HiddenapiClassDataItem)
            },
            r matches Err(e) ==> exists|t: TypeCode| first_of(self.list@, t) is None && e == ParseError::MissingSection(t.spec_code()),
    {
        let header_item = match self.item(TypeCode::HeaderItem) {
            Ok(v) => v,
            Err(e) => {
                return Err(e);
            },
        };
        let string_id_item = match self.item(TypeCode::StringIdItem) {
            Ok(v) => v,
            Err(e) => {
                return Err(e);
            },
        };
        let type_id_item = match self.item(TypeCode::TypeIdItem) {
            Ok(v) => v,
            Err(e) => {
                return Err(e);
            },
        };
        let proto_id_item = match self.item(TypeCode::ProtoIdItem) {
            Ok(v) => v,
            Err(e) => {
                return Err(e);
            },
        };
        let field_id_item = match self.item(TypeCode::FieldIdItem) {
            Ok(v) => v,
            Err(e) => {
                return Err(e);
            },
        };
        let method_id_item = match self.item(TypeCode::MethodIdItem) {
            Ok(v) => v,
            Err(e) => {
                return Err(e);
            },
        };
        let class_def_item = match self.item(TypeCode::ClassDefItem) {
            Ok(v) => v,
            Err(e) => {
                return Err(e);
            },
        };
        let code_item = match self.item(TypeCode::CodeItem) {
            Ok(v) => v,
            Err(e) => {
                return Err(e);
            },
        };
        let debug_info_item = match self.item(TypeCode::DebugInfoItem) {
            Ok(v) => v,
            Err(e) => {
                return Err(e);
            },
        };
        let type_list = match self.item(TypeCode::TypeList) {
            Ok(v) => v,
            Err(e) => {
                return Err(e);
            },
        };
        let string_data_item = match self.item(TypeCode::StringDataItem) {
            Ok(v) => v,
            Err(e) => {
                return Err(e);
            },
        };
        let annotation_item = match self.item(TypeCode::AnnotationItem) {
            Ok(v) => v,
            Err(e) => {
                return Err(e);
            },
        };
        let class_data_item = match self.item(TypeCode::ClassDataItem) {
            Ok(v) => v,
            Err(e) => {
                return Err(e);
            },
        };
        let encoded_array_item = match self.item(TypeCode::EncodedArrayItem) {
            Ok(v) => v,
            Err(e) => {
                return Err(e);
            },
        };
        let annotation_set_item = match self.item(TypeCode::AnnotationSetItem) {
            Ok(v) => v,
            Err(e) => {
                return Err(e);
            },
        };
        let annotation_set_ref_list = match self.item(TypeCode::AnnotationSetRefList) {
            Ok(v) => v,
            Err(e) => {
                return Err(e);
            },
        };
        let annotations_directory_item = match self.item(TypeCode::AnnotationsDirectoryItem) {
            Ok(v) => v,
            Err(e) => {
                return Err(e);
            },
        };
        let map_list = match self.item(TypeCode::MapList) {
            Ok(v) => v,
            Err(e) => {
                return Err(e);
            },
        };
        let call_site_id_item = match self.item(TypeCode::CallSiteIdItem) {
            Ok(v) => Some(v),
            Err(_) => None,
        };
        let method_handle_item = match self.item(TypeCode::MethodHandleItem) {
            Ok(v) => Some(v),
            Err(_) => None,
        };
        let hiddenapi_class_data_item = match self.item(TypeCode::HiddenapiClassDataItem) {
            Ok(v) => Some(v),
            Err(_) => None,
        };
        Ok(SectionMap {
            header_item,
            string_id_item,
            type_id_item,
            proto_id_item,
            field_id_item,
            method_id_item,
            class_def_item,
            code_item,
            debug_info_item,
            type_list,
            string_data_item,
            annotation_item,
            class_data_item,
            encoded_array_item,
            annotation_set_item,
            annotation_set_ref_list,
            annotations_directory_item,
            map_list,
            call_site_id_item,
            method_handle_item,
            hiddenapi_class_data_item,
        })
    }
}

/// The `len` bytes at the file offset `start`.
pub open spec fn spec_bytes_range(s: Seq<u8>, start: u32, len: usize) -> Result<Seq<u8>, ParseError> {
    if start > s.len() {
        Err(ParseError::Truncation)
    } else {
        match spec_bytes(s, start as int, len as int) {
            Ok((b, _)) => Ok(b),
            Err(e) => Err(e),
        }
    }
}

/// Reads the `len` bytes at the file offset `start`.
pub fn get_bytes_range(p: &mut FileParser, start: u32, len: usize) -> (r: Result<Vec<u8>, ParseError>)
    requires
        old(p).wf(),
    ensures
        final(p).wf(),
        final(p).bytes() == old(p).bytes(),
        final(p).mode() == old(p).mode(),
        match spec_bytes_range(old(p).bytes(), start, len) {
            Ok(b) => r is Ok && r->Ok_0@ == b,
            Err(e) => r == Err::<Vec<u8>, ParseError>(e),
        },
{
    match p.set_offset(start as usize) {
        Ok(()) => {},
        Err(e) => {
            return Err(e);
        },
    }
    p.read_bytes(len)
}

/// A section together with its raw bytes.
#[derive(Debug)]
pub struct MapData {
    pub item_type: TypeCode,
    pub size: u32,
    pub offset: u32,
    pub data: Vec<u8>,
}

impl MapData {
    /// The section `map_item` with the `len` bytes at its offset.
    pub fn parse(p: &mut FileParser, map_item: &MapItem, len: u32) -> (r: Result<MapData, ParseError>)
        requires
            old(p).wf(),
        ensures
            final(p).wf(),
            final(p).bytes() == old(p).bytes(),
            match spec_bytes_range(old(p).bytes(), map_item.offset, len as usize) {
                Ok(b) => r is Ok && r->Ok_0.data@ == b && r->Ok_0.item_type == map_item.item_type
                    && r->Ok_0.size == map_item.size && r->Ok_0.offset == map_item.offset,
                Err(e) => r is Err && r->Err_0 == e,
            },
    {
        match get_bytes_range(p, map_item.offset, len as usize) {
            Ok(data) => Ok(MapData { item_type: map_item.item_type, size: map_item.size, offset: map_item.offset, data }),
            Err(e) => Err(e),
        }
    }
}

impl MapList {
    /// Decodes the map list at the cursor, aligned to four bytes.
    pub fn parse(p: &mut FileParser) -> (r: Result<MapList, ParseError>)
        requires
            old(p).wf(),
        ensures
            decoded::<MapList>(r, *old(p), *final(p)),
    {
        MapList::decode(p)
    }
}

} // verus!
