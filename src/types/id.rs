//! The identifier tables and the data items they point to.

use std::marker::PhantomData;

use vstd::prelude::*;

use crate::parser::parse::{lemma_sleb_advances, lemma_uleb_advances, spec_counted, spec_parse_list, spec_sleb128, spec_uleb128, Decode, Parse, Sleb128, Uleb128};
use crate::parser::{block_start, fits, le16, le16_at, le32, le32_at, spec_mutf8, spec_u8, utf16_lossy, DecodeMode, FileParser, ParseError};
use crate::types::code::CodeItem;
use crate::types::value::{rem, spec_values_len, spec_elements_len, values_at, elements_at, EncodedAnnotation, EncodedArray};
use crate::types::refs::{Idx, Ref};

verus! {

/// An entry of the string table: where the string's data lies.
#[derive(Debug, PartialEq, Eq)]
pub struct StringIdItem {
    pub string_data_off: Ref<StringDataItem>,
}

impl Parse for StringIdItem {
    open spec fn spec_parse(mode: DecodeMode, s: Seq<u8>, pos: int) -> Result<(StringIdItem, int), ParseError> {
        match block_start(s, pos, 4, true) {
            Ok(a) => Ok((StringIdItem {
                string_data_off: Ref { offset: le32(s, a + 0) as u32, _marker: PhantomData },
            }, a + 4)),
            Err(e) => Err(e),
        }
    }

    fn parse(p: &mut FileParser) -> (r: Result<StringIdItem, ParseError>) {
        let b = match p.read_block(4, true) {
            Ok(b) => b,
            Err(e) => {
                return Err(e);
            },
        };
        Ok(StringIdItem {
            string_data_off: Ref::new(le32_at(&b, 0)),
        })
    }
}

/// An entry of the type table: the type's descriptor string.
#[derive(Debug, PartialEq, Eq)]
pub struct TypeIdItem {
    pub descriptor_idx: Idx<StringIdItem>,
}

impl Parse for TypeIdItem {
    open spec fn spec_parse(mode: DecodeMode, s: Seq<u8>, pos: int) -> Result<(TypeIdItem, int), ParseError> {
        match block_start(s, pos, 4, true) {
            Ok(a) => Ok((TypeIdItem {
                descriptor_idx: Idx { idx: le32(s, a + 0) as usize, _marker: PhantomData },
            }, a + 4)),
            Err(e) => Err(e),
        }
    }

    fn parse(p: &mut FileParser) -> (r: Result<TypeIdItem, ParseError>) {
        let b = match p.read_block(4, true) {
            Ok(b) => b,
            Err(e) => {
                return Err(e);
            },
        };
        Ok(TypeIdItem {
            descriptor_idx: Idx::new(le32_at(&b, 0) as usize),
        })
    }
}

/// An entry of the prototype table.
#[derive(Debug, PartialEq, Eq)]
pub struct ProtoIdItem {
    pub shorty_idx: Idx<StringIdItem>,
    pub return_type_idx: Idx<TypeIdItem>,
    pub parameters: Ref<TypeList>,
}

impl Parse for ProtoIdItem {
    open spec fn spec_parse(mode: DecodeMode, s: Seq<u8>, pos: int) -> Result<(ProtoIdItem, int), ParseError> {
        match block_start(s, pos, 12, true) {
            Ok(a) => Ok((ProtoIdItem {
                shorty_idx: Idx { idx: le32(s, a + 0) as usize, _marker: PhantomData },
                return_type_idx: Idx { idx: le32(s, a + 4) as usize, _marker: PhantomData },
                parameters: Ref { offset: le32(s, a + 8) as u32, _marker: PhantomData },
            }, a + 12)),
            Err(e) => Err(e),
        }
    }

    fn parse(p: &mut FileParser) -> (r: Result<ProtoIdItem, ParseError>) {
        let b = match p.read_block(12, true) {
            Ok(b) => b,
            Err(e) => {
                return Err(e);
            },
        };
        Ok(ProtoIdItem {
            shorty_idx: Idx::new(le32_at(&b, 0) as usize),
            return_type_idx: Idx::new(le32_at(&b, 4) as usize),
            parameters: Ref::new(le32_at(&b, 8)),
        })
    }
}

/// An entry of the field table.
#[derive(Debug, PartialEq, Eq)]
pub struct FieldIdItem {
    pub class_idx: Idx<TypeIdItem>,
    pub type_idx: Idx<TypeIdItem>,
    pub name_idx: Idx<StringIdItem>,
}

impl Parse for FieldIdItem {
    open spec fn spec_parse(mode: DecodeMode, s: Seq<u8>, pos: int) -> Result<(FieldIdItem, int), ParseError> {
        match block_start(s, pos, 8, true) {
            Ok(a) => Ok((FieldIdItem {
                class_idx: Idx { idx: le16(s, a + 0) as usize, _marker: PhantomData },
                type_idx: Idx { idx: le16(s, a + 2) as usize, _marker: PhantomData },
                name_idx: Idx { idx: le32(s, a + 4) as usize, _marker: PhantomData },
            }, a + 8)),
            Err(e) => Err(e),
        }
    }

    fn parse(p: &mut FileParser) -> (r: Result<FieldIdItem, ParseError>) {
        let b = match p.read_block(8, true) {
            Ok(b) => b,
            Err(e) => {
                return Err(e);
            },
        };
        Ok(FieldIdItem {
            class_idx: Idx::new(le16_at(&b, 0) as usize),
            type_idx: Idx::new(le16_at(&b, 2) as usize),
            name_idx: Idx::new(le32_at(&b, 4) as usize),
        })
    }
}

/// An entry of the method table.
#[derive(Debug, PartialEq, Eq)]
pub struct MethodIdItem {
    pub class_idx: Idx<TypeIdItem>,
    pub proto_idx: Idx<ProtoIdItem>,
    pub name_idx: Idx<StringIdItem>,
}

impl Parse for MethodIdItem {
    open spec fn spec_parse(mode: DecodeMode, s: Seq<u8>, pos: int) -> Result<(MethodIdItem, int), ParseError> {
        match block_start(s, pos, 8, true) {
            Ok(a) => Ok((MethodIdItem {
                class_idx: Idx { idx: le16(s, a + 0) as usize, _marker: PhantomData },
                proto_idx: Idx { idx: le16(s, a + 2) as usize, _marker: PhantomData },
                name_idx: Idx { idx: le32(s, a + 4) as usize, _marker: PhantomData },
            }, a + 8)),
            Err(e) => Err(e),
        }
    }

    fn parse(p: &mut FileParser) -> (r: Result<MethodIdItem, ParseError>) {
        let b = match p.read_block(8, true) {
            Ok(b) => b,
            Err(e) => {
                return Err(e);
            },
        };
        Ok(MethodIdItem {
            class_idx: Idx::new(le16_at(&b, 0) as usize),
            proto_idx: Idx::new(le16_at(&b, 2) as usize),
            name_idx: Idx::new(le32_at(&b, 4) as usize),
        })
    }
}

/// An entry of the class definition table; an absent optional is offset zero or the no-index sentinel.
#[derive(Debug, PartialEq, Eq)]
pub struct ClassDefItem {
    pub class_idx: Idx<TypeIdItem>,
    pub access_flags: u32,
    pub superclass_idx: Idx<TypeIdItem>,
    pub interfaces_off: Ref<TypeList>,
    pub source_file_idx: Idx<StringIdItem>,
    pub annotations_off: Ref<AnnotationsDirectoryItem>,
    pub class_data_off: Ref<ClassDataItem>,
    pub static_values_off: Ref<EncodedArrayItem>,
}

impl Parse for ClassDefItem {
    open spec fn spec_parse(mode: DecodeMode, s: Seq<u8>, pos: int) -> Result<(ClassDefItem, int), ParseError> {
        match block_start(s, pos, 32, true) {
            Ok(a) => Ok((ClassDefItem {
                class_idx: Idx { idx: le32(s, a + 0) as usize, _marker: PhantomData },
                access_flags: le32(s, a + 4) as u32,
                superclass_idx: Idx { idx: le32(s, a + 8) as usize, _marker: PhantomData },
                interfaces_off: Ref { offset: le32(s, a + 12) as u32, _marker: PhantomData },
                source_file_idx: Idx { idx: le32(s, a + 16) as usize, _marker: PhantomData },
                annotations_off: Ref { offset: le32(s, a + 20) as u32, _marker: PhantomData },
                class_data_off: Ref { offset: le32(s, a + 24) as u32, _marker: PhantomData },
                static_values_off: Ref { offset: le32(s, a + 28) as u32, _marker: PhantomData },
            }, a + 32)),
            Err(e) => Err(e),
        }
    }

    fn parse(p: &mut FileParser) -> (r: Result<ClassDefItem, ParseError>) {
        let b = match p.read_block(32, true) {
            Ok(b) => b,
            Err(e) => {
                return Err(e);
            },
        };
        Ok(ClassDefItem {
            class_idx: Idx::new(le32_at(&b, 0) as usize),
            access_flags: le32_at(&b, 4),
            superclass_idx: Idx::new(le32_at(&b, 8) as usize),
            interfaces_off: Ref::new(le32_at(&b, 12)),
            source_file_idx: Idx::new(le32_at(&b, 16) as usize),
            annotations_off: Ref::new(le32_at(&b, 20)),
            class_data_off: Ref::new(le32_at(&b, 24)),
            static_values_off: Ref::new(le32_at(&b, 28)),
        })
    }
}

/// An entry of the call site table: where the call site's array lies.
#[derive(Debug, PartialEq, Eq)]
pub struct CallSiteIdItem {
    pub call_site_off: Ref<EncodedArrayItem>,
}

impl Parse for CallSiteIdItem {
    open spec fn spec_parse(mode: DecodeMode, s: Seq<u8>, pos: int) -> Result<(CallSiteIdItem, int), ParseError> {
        match block_start(s, pos, 4, true) {
            Ok(a) => Ok((CallSiteIdItem {
                call_site_off: Ref { offset: le32(s, a + 0) as u32, _marker: PhantomData },
            }, a + 4)),
            Err(e) => Err(e),
        }
    }

    fn parse(p: &mut FileParser) -> (r: Result<CallSiteIdItem, ParseError>) {
        let b = match p.read_block(4, true) {
            Ok(b) => b,
            Err(e) => {
                return Err(e);
            },
        };
        Ok(CallSiteIdItem {
            call_site_off: Ref::new(le32_at(&b, 0)),
        })
    }
}

/// An entry of the method handle table; two of its four u16 are unused.
#[derive(Debug, PartialEq, Eq)]
pub struct MethodHandleItem {
    pub method_handle_type: u16,
    pub field_or_method_id: u16,
}

impl Parse for MethodHandleItem {
    open spec fn spec_parse(mode: DecodeMode, s: Seq<u8>, pos: int) -> Result<(MethodHandleItem, int), ParseError> {
        match block_start(s, pos, 8, true) {
            Ok(a) => Ok((MethodHandleItem {
                method_handle_type: le16(s, a + 0) as u16,
                field_or_method_id: le16(s, a + 4) as u16,
            }, a + 8)),
            Err(e) => Err(e),
        }
    }

    fn parse(p: &mut FileParser) -> (r: Result<MethodHandleItem, ParseError>) {
        let b = match p.read_block(8, true) {
            Ok(b) => b,
            Err(e) => {
                return Err(e);
            },
        };
        Ok(MethodHandleItem {
            method_handle_type: le16_at(&b, 0),
            field_or_method_id: le16_at(&b, 4),
        })
    }
}

/// An entry of a type list.
#[derive(Debug, PartialEq, Eq)]
pub struct TypeItem {
    pub type_idx: Idx<TypeIdItem>,
}

impl Parse for TypeItem {
    open spec fn spec_parse(mode: DecodeMode, s: Seq<u8>, pos: int) -> Result<(TypeItem, int), ParseError> {
        match block_start(s, pos, 2, false) {
            Ok(a) => Ok((TypeItem {
                type_idx: Idx { idx: le16(s, a + 0) as usize, _marker: PhantomData },
            }, a + 2)),
            Err(e) => Err(e),
        }
    }

    fn parse(p: &mut FileParser) -> (r: Result<TypeItem, ParseError>) {
        let b = match p.read_block(2, false) {
            Ok(b) => b,
            Err(e) => {
                return Err(e);
            },
        };
        Ok(TypeItem {
            type_idx: Idx::new(le16_at(&b, 0) as usize),
        })
    }
}

/// A range of code units guarded by a catch handler list.
#[derive(Debug, PartialEq, Eq)]
pub struct TryItem {
    pub start_addr: u32,
    pub insn_count: u16,
    pub handler_off: u16,
}

impl Parse for TryItem {
    open spec fn spec_parse(mode: DecodeMode, s: Seq<u8>, pos: int) -> Result<(TryItem, int), ParseError> {
        match block_start(s, pos, 8, false) {
            Ok(a) => Ok((TryItem {
                start_addr: le32(s, a + 0) as u32,
                insn_count: le16(s, a + 4) as u16,
                handler_off: le16(s, a + 6) as u16,
            }, a + 8)),
            Err(e) => Err(e),
        }
    }

    fn parse(p: &mut FileParser) -> (r: Result<TryItem, ParseError>) {
        let b = match p.read_block(8, false) {
            Ok(b) => b,
            Err(e) => {
                return Err(e);
            },
        };
        Ok(TryItem {
            start_addr: le32_at(&b, 0),
            insn_count: le16_at(&b, 4),
            handler_off: le16_at(&b, 6),
        })
    }
}

/// The annotations of one field.
#[derive(Debug, PartialEq, Eq)]
pub struct FieldAnnotation {
    pub field_idx: Idx<FieldIdItem>,
    pub annotations_off: Ref<AnnotationSetItem>,
}

impl Parse for FieldAnnotation {
    open spec fn spec_parse(mode: DecodeMode, s: Seq<u8>, pos: int) -> Result<(FieldAnnotation, int), ParseError> {
        match block_start(s, pos, 8, false) {
            Ok(a) => Ok((FieldAnnotation {
                field_idx: Idx { idx: le32(s, a + 0) as usize, _marker: PhantomData },
                annotations_off: Ref { offset: le32(s, a + 4) as u32, _marker: PhantomData },
            }, a + 8)),
            Err(e) => Err(e),
        }
    }

    fn parse(p: &mut FileParser) -> (r: Result<FieldAnnotation, ParseError>) {
        let b = match p.read_block(8, false) {
            Ok(b) => b,
            Err(e) => {
                return Err(e);
            },
        };
        Ok(FieldAnnotation {
            field_idx: Idx::new(le32_at(&b, 0) as usize),
            annotations_off: Ref::new(le32_at(&b, 4)),
        })
    }
}

/// The annotations of one method.
#[derive(Debug, PartialEq, Eq)]
pub struct MethodAnnotation {
    pub method_idx: Idx<MethodIdItem>,
    pub annotations_off: Ref<AnnotationSetItem>,
}

impl Parse for MethodAnnotation {
    open spec fn spec_parse(mode: DecodeMode, s: Seq<u8>, pos: int) -> Result<(MethodAnnotation, int), ParseError> {
        match block_start(s, pos, 8, false) {
            Ok(a) => Ok((MethodAnnotation {
                method_idx: Idx { idx: le32(s, a + 0) as usize, _marker: PhantomData },
                annotations_off: Ref { offset: le32(s, a + 4) as u32, _marker: PhantomData },
            }, a + 8)),
            Err(e) => Err(e),
        }
    }

    fn parse(p: &mut FileParser) -> (r: Result<MethodAnnotation, ParseError>) {
        let b = match p.read_block(8, false) {
            Ok(b) => b,
            Err(e) => {
                return Err(e);
            },
        };
        Ok(MethodAnnotation {
            method_idx: Idx::new(le32_at(&b, 0) as usize),
            annotations_off: Ref::new(le32_at(&b, 4)),
        })
    }
}

/// The annotations of one method's parameters.
#[derive(Debug, PartialEq, Eq)]
pub struct ParameterAnnotation {
    pub method_idx: Idx<MethodIdItem>,
    pub annotations_off: Ref<AnnotationSetRefList>,
}

impl Parse for ParameterAnnotation {
    open spec fn spec_parse(mode: DecodeMode, s: Seq<u8>, pos: int) -> Result<(ParameterAnnotation, int), ParseError> {
        match block_start(s, pos, 8, false) {
            Ok(a) => Ok((ParameterAnnotation {
                method_idx: Idx { idx: le32(s, a + 0) as usize, _marker: PhantomData },
                annotations_off: Ref { offset: le32(s, a + 4) as u32, _marker: PhantomData },
            }, a + 8)),
            Err(e) => Err(e),
        }
    }

    fn parse(p: &mut FileParser) -> (r: Result<ParameterAnnotation, ParseError>) {
        let b = match p.read_block(8, false) {
            Ok(b) => b,
            Err(e) => {
                return Err(e);
            },
        };
        Ok(ParameterAnnotation {
            method_idx: Idx::new(le32_at(&b, 0) as usize),
            annotations_off: Ref::new(le32_at(&b, 4)),
        })
    }
}

/// An entry of an annotation set list.
#[derive(Debug, PartialEq, Eq)]
pub struct AnnotationSetRefItem {
    pub annotations_off: Ref<AnnotationSetItem>,
}

impl Parse for AnnotationSetRefItem {
    open spec fn spec_parse(mode: DecodeMode, s: Seq<u8>, pos: int) -> Result<(AnnotationSetRefItem, int), ParseError> {
        match block_start(s, pos, 4, false) {
            Ok(a) => Ok((AnnotationSetRefItem {
                annotations_off: Ref { offset: le32(s, a + 0) as u32, _marker: PhantomData },
            }, a + 4)),
            Err(e) => Err(e),
        }
    }

    fn parse(p: &mut FileParser) -> (r: Result<AnnotationSetRefItem, ParseError>) {
        let b = match p.read_block(4, false) {
            Ok(b) => b,
            Err(e) => {
                return Err(e);
            },
        };
        Ok(AnnotationSetRefItem {
            annotations_off: Ref::new(le32_at(&b, 0)),
        })
    }
}

/// An entry of an annotation set.
#[derive(Debug, PartialEq, Eq)]
pub struct AnnotationOffItem {
    pub annotation_off: Ref<AnnotationItem>,
}

impl Parse for AnnotationOffItem {
    open spec fn spec_parse(mode: DecodeMode, s: Seq<u8>, pos: int) -> Result<(AnnotationOffItem, int), ParseError> {
        match block_start(s, pos, 4, false) {
            Ok(a) => Ok((AnnotationOffItem {
                annotation_off: Ref { offset: le32(s, a + 0) as u32, _marker: PhantomData },
            }, a + 4)),
            Err(e) => Err(e),
        }
    }

    fn parse(p: &mut FileParser) -> (r: Result<AnnotationOffItem, ParseError>) {
        let b = match p.read_block(4, false) {
            Ok(b) => b,
            Err(e) => {
                return Err(e);
            },
        };
        Ok(AnnotationOffItem {
            annotation_off: Ref::new(le32_at(&b, 0)),
        })
    }
}

/// A string: its length in UTF-16 code units, its modified UTF-8 bytes, and
/// the string they spell.
#[derive(Debug, PartialEq, Eq)]
pub struct StringDataItem {
    pub size: Uleb128,
    pub data: Vec<u8>,
    pub string: String,
}

impl Decode for StringDataItem {
    open spec fn spec_end(mode: DecodeMode, s: Seq<u8>, pos: int) -> Result<int, ParseError> {
        match spec_uleb128(s, pos) {
            Ok((size, q)) => match spec_mutf8(s, q, q, size.0 as nat) {
                Ok((_, e)) => Ok(e),
                Err(e) => Err(e),
            },
            Err(e) => Err(e),
        }
    }

    open spec fn spec_at(mode: DecodeMode, s: Seq<u8>, pos: int, v: StringDataItem) -> bool {
        match spec_uleb128(s, pos) {
            Ok((size, q)) => match spec_mutf8(s, q, q, size.0 as nat) {
                Ok((units, e)) => v.size == size && v.data@ == s.subrange(q, e) && v.string@ == utf16_lossy(units),
                Err(_) => false,
            },
            Err(_) => false,
        }
    }

    fn decode(p: &mut FileParser) -> (r: Result<StringDataItem, ParseError>) {
        let size = match p.uleb128() {
            Ok(v) => v,
            Err(e) => {
                return Err(e);
            },
        };
        match p.parse_string(size.0) {
            Ok((data, string)) => Ok(StringDataItem { size, data, string }),
            Err(e) => Err(e),
        }
    }
}

/// A list of type indices.
#[derive(Debug, PartialEq, Eq)]
pub struct TypeList {
    pub size: u32,
    pub list: Vec<TypeItem>,
}

/// A list of references to annotation sets.
#[derive(Debug, PartialEq, Eq)]
pub struct AnnotationSetRefList {
    pub size: u32,
    pub list: Vec<AnnotationSetRefItem>,
}

/// A set of references to annotations.
#[derive(Debug, PartialEq, Eq)]
pub struct AnnotationSetItem {
    pub size: u32,
    pub entries: Vec<AnnotationOffItem>,
}

impl Decode for TypeList {
    open spec fn spec_end(mode: DecodeMode, s: Seq<u8>, pos: int) -> Result<int, ParseError> {
        match spec_counted::<TypeItem>(mode, s, pos) {
            Ok((_, _, e)) => Ok(e),
            Err(e) => Err(e),
        }
    }

    open spec fn spec_at(mode: DecodeMode, s: Seq<u8>, pos: int, v: TypeList) -> bool {
        match spec_counted::<TypeItem>(mode, s, pos) {
            Ok((n, vs, _)) => v.size == n && v.list@ == vs,
            Err(_) => false,
        }
    }

    fn decode(p: &mut FileParser) -> (r: Result<TypeList, ParseError>) {
        match p.parse_counted::<TypeItem>() {
            Ok((size, list)) => Ok(TypeList { size, list }),
            Err(e) => Err(e),
        }
    }
}

impl Decode for AnnotationSetRefList {
    open spec fn spec_end(mode: DecodeMode, s: Seq<u8>, pos: int) -> Result<int, ParseError> {
        match spec_counted::<AnnotationSetRefItem>(mode, s, pos) {
            Ok((_, _, e)) => Ok(e),
            Err(e) => Err(e),
        }
    }

    open spec fn spec_at(mode: DecodeMode, s: Seq<u8>, pos: int, v: AnnotationSetRefList) -> bool {
        match spec_counted::<AnnotationSetRefItem>(mode, s, pos) {
            Ok((n, vs, _)) => v.size == n && v.list@ == vs,
            Err(_) => false,
        }
    }

    fn decode(p: &mut FileParser) -> (r: Result<AnnotationSetRefList, ParseError>) {
        match p.parse_counted::<AnnotationSetRefItem>() {
            Ok((size, list)) => Ok(AnnotationSetRefList { size, list }),
            Err(e) => Err(e),
        }
    }
}

impl Decode for AnnotationSetItem {
    open spec fn spec_end(mode: DecodeMode, s: Seq<u8>, pos: int) -> Result<int, ParseError> {
        match spec_counted::<AnnotationOffItem>(mode, s, pos) {
            Ok((_, _, e)) => Ok(e),
            Err(e) => Err(e),
        }
    }

    open spec fn spec_at(mode: DecodeMode, s: Seq<u8>, pos: int, v: AnnotationSetItem) -> bool {
        match spec_counted::<AnnotationOffItem>(mode, s, pos) {
            Ok((n, vs, _)) => v.size == n && v.entries@ == vs,
            Err(_) => false,
        }
    }

    fn decode(p: &mut FileParser) -> (r: Result<AnnotationSetItem, ParseError>) {
        match p.parse_counted::<AnnotationOffItem>() {
            Ok((size, entries)) => Ok(AnnotationSetItem { size, entries }),
            Err(e) => Err(e),
        }
    }
}

/// A field of a class: the difference of its field index from the previous
/// field's in the same list, and its access flags.
#[derive(Debug, PartialEq, Eq)]
pub struct EncodedField {
    pub field_idx_diff: Uleb128,
    pub access_flags: Uleb128,
}

/// A method of a class: the difference of its method index from the previous
/// method's in the same list, its access flags, and its code (offset zero for
/// abstract and native methods).
#[derive(Debug, PartialEq, Eq)]
pub struct EncodedMethod {
    pub method_idx_diff: Uleb128,
    pub access_flags: Uleb128,
    pub code_off: Ref<CodeItem>,
}

/// A pair of catch type and handler address.
#[derive(Debug, PartialEq, Eq)]
pub struct EncodedTypeAddrPair {
    pub type_idx: Uleb128,
    pub addr: Uleb128,
}

/// Two unsigned LEB128 numbers at `pos`.
pub open spec fn spec_uleb_pair(s: Seq<u8>, pos: int) -> Result<((Uleb128, Uleb128), int), ParseError> {
    match spec_uleb128(s, pos) {
        Ok((a, q)) => match spec_uleb128(s, q) {
            Ok((b, e)) => Ok(((a, b), e)),
            Err(e) => Err(e),
        },
        Err(e) => Err(e),
    }
}

impl FileParser {
    /// Reads two unsigned LEB128 numbers.
    fn uleb_pair(&mut self) -> (r: Result<(Uleb128, Uleb128), ParseError>)
        requires
            old(self).wf(),
        ensures
            crate::parser::parsed(r, *old(self), *final(self), spec_uleb_pair(old(self).bytes(), old(self).pos())),
    {
        let a = match self.uleb128() {
            Ok(v) => v,
            Err(e) => {
                return Err(e);
            },
        };
        match self.uleb128() {
            Ok(b) => Ok((a, b)),
            Err(e) => Err(e),
        }
    }
}

impl Parse for EncodedField {
    open spec fn spec_parse(mode: DecodeMode, s: Seq<u8>, pos: int) -> Result<(EncodedField, int), ParseError> {
        match spec_uleb_pair(s, pos) {
            Ok(((a, b), e)) => Ok((EncodedField { field_idx_diff: a, access_flags: b }, e)),
            Err(e) => Err(e),
        }
    }

    fn parse(p: &mut FileParser) -> (r: Result<EncodedField, ParseError>) {
        match p.uleb_pair() {
            Ok((a, b)) => Ok(EncodedField { field_idx_diff: a, access_flags: b }),
            Err(e) => Err(e),
        }
    }
}

impl Parse for EncodedTypeAddrPair {
    open spec fn spec_parse(mode: DecodeMode, s: Seq<u8>, pos: int) -> Result<(EncodedTypeAddrPair, int), ParseError> {
        match spec_uleb_pair(s, pos) {
            Ok(((a, b), e)) => Ok((EncodedTypeAddrPair { type_idx: a, addr: b }, e)),
            Err(e) => Err(e),
        }
    }

    fn parse(p: &mut FileParser) -> (r: Result<EncodedTypeAddrPair, ParseError>) {
        match p.uleb_pair() {
            Ok((a, b)) => Ok(EncodedTypeAddrPair { type_idx: a, addr: b }),
            Err(e) => Err(e),
        }
    }
}

impl Parse for EncodedMethod {
    open spec fn spec_parse(mode: DecodeMode, s: Seq<u8>, pos: int) -> Result<(EncodedMethod, int), ParseError> {
        match spec_uleb_pair(s, pos) {
            Ok(((a, b), q)) => match spec_uleb128(s, q) {
                Ok((c, e)) => Ok((EncodedMethod { method_idx_diff: a, access_flags: b, code_off: Ref { offset: c.0, _marker: PhantomData } }, e)),
                Err(e) => Err(e),
            },
            Err(e) => Err(e),
        }
    }

    fn parse(p: &mut FileParser) -> (r: Result<EncodedMethod, ParseError>) {
        let (a, b) = match p.uleb_pair() {
            Ok(v) => v,
            Err(e) => {
                return Err(e);
            },
        };
        match p.uleb128() {
            Ok(c) => Ok(EncodedMethod { method_idx_diff: a, access_flags: b, code_off: Ref::new(c.0) }),
            Err(e) => Err(e),
        }
    }
}

/// The fields and methods of a class, each list with its count.
#[derive(Debug, PartialEq, Eq)]
pub struct ClassDataItem {
    pub static_fields_size: Uleb128,
    pub instance_fields_size: Uleb128,
    pub direct_methods_size: Uleb128,
    pub virtual_methods_size: Uleb128,
    pub static_fields: Vec<EncodedField>,
    pub instance_fields: Vec<EncodedField>,
    pub direct_methods: Vec<EncodedMethod>,
    pub virtual_methods: Vec<EncodedMethod>,
}

/// The four counts of a class data item at `pos`.
pub open spec fn spec_class_counts(s: Seq<u8>, pos: int) -> Result<((Uleb128, Uleb128, Uleb128, Uleb128), int), ParseError> {
    match spec_uleb_pair(s, pos) {
        Ok(((a, b), q)) => match spec_uleb_pair(s, q) {
            Ok(((c, d), e)) => Ok(((a, b, c, d), e)),
            Err(e) => Err(e),
        },
        Err(e) => Err(e),
    }
}

/// The index differences of a field list.
pub open spec fn field_deltas(l: Seq<EncodedField>) -> Seq<u32> {
    Seq::new(l.len(), |i: int| l[i].field_idx_diff.0)
}

/// The index differences of a method list.
pub open spec fn method_deltas(l: Seq<EncodedMethod>) -> Seq<u32> {
    Seq::new(l.len(), |i: int| l[i].method_idx_diff.0)
}

/// Every difference after the first is at least one, so that the absolute
/// indices strictly increase.
pub open spec fn deltas_increase(d: Seq<u32>) -> bool {
    forall|k: int| 0 < k < d.len() ==> #[trigger] d[k] > 0
}

/// A list of fields at `pos` whose indices strictly increase.
pub open spec fn spec_field_list(mode: DecodeMode, s: Seq<u8>, pos: int, n: nat) -> Result<(Seq<EncodedField>, int), ParseError> {
    match spec_parse_list::<EncodedField>(mode, s, pos, n) {
        Ok((l, e)) => if deltas_increase(field_deltas(l)) {
            Ok((l, e))
        } else {
            Err(ParseError::BadIndexOrder)
        },
        Err(e) => Err(e),
    }
}

/// A list of methods at `pos` whose indices strictly increase.
pub open spec fn spec_method_list(mode: DecodeMode, s: Seq<u8>, pos: int, n: nat) -> Result<(Seq<EncodedMethod>, int), ParseError> {
    match spec_parse_list::<EncodedMethod>(mode, s, pos, n) {
        Ok((l, e)) => if deltas_increase(method_deltas(l)) {
            Ok((l, e))
        } else {
            Err(ParseError::BadIndexOrder)
        },
        Err(e) => Err(e),
    }
}

/// A class data item at `pos`: four counts, then the four lists, each with
/// strictly increasing indices.
pub open spec fn spec_class_data(mode: DecodeMode, s: Seq<u8>, pos: int) -> Result<(
    (Uleb128, Uleb128, Uleb128, Uleb128),
    (Seq<EncodedField>, Seq<EncodedField>, Seq<EncodedMethod>, Seq<EncodedMethod>),
    int,
), ParseError> {
    match spec_class_counts(s, pos) {
        Ok(((a, b, c, d), q0)) => match spec_field_list(mode, s, q0, a.0 as nat) {
            Ok((sf, q1)) => match spec_field_list(mode, s, q1, b.0 as nat) {
                Ok((inf, q2)) => match spec_method_list(mode, s, q2, c.0 as nat) {
                    Ok((dm, q3)) => match spec_method_list(mode, s, q3, d.0 as nat) {
                        Ok((vm, e)) => Ok(((a, b, c, d), (sf, inf, dm, vm), e)),
                        Err(e) => Err(e),
                    },
                    Err(e) => Err(e),
                },
                Err(e) => Err(e),
            },
            Err(e) => Err(e),
        },
        Err(e) => Err(e),
    }
}

impl FileParser {
    /// Reads `n` fields and refuses a repeated index.
    #[verifier::loop_isolation(false)]
    fn field_list(&mut self, n: u32) -> (r: Result<Vec<EncodedField>, ParseError>)
        requires
            old(self).wf(),
        ensures
            crate::parser::parsed(crate::parser::parse::list_view(r), *old(self), *final(self),
                spec_field_list(old(self).mode(), old(self).bytes(), old(self).pos(), n as nat)),
    {
        let l = match self.parse_list::<EncodedField>(n) {
            Ok(l) => l,
            Err(e) => {
                return Err(e);
            },
        };
        let mut k: usize = 1;
        while k < l.len()
            invariant
                1 <= k,
                forall|j: int| 0 < j < k && j < l@.len() ==> #[trigger] field_deltas(l@)[j] > 0,
            decreases l@.len() - k,
        {
            if l[k].field_idx_diff.0 == 0 {
                assert(field_deltas(l@)[k as int] == 0);
                assert(!deltas_increase(field_deltas(l@)));
                return Err(ParseError::BadIndexOrder);
            }
            k = k + 1;
        }
        Ok(l)
    }

    /// Reads `n` methods and refuses a repeated index.
    #[verifier::loop_isolation(false)]
    fn method_list(&mut self, n: u32) -> (r: Result<Vec<EncodedMethod>, ParseError>)
        requires
            old(self).wf(),
        ensures
            crate::parser::parsed(crate::parser::parse::list_view(r), *old(self), *final(self),
                spec_method_list(old(self).mode(), old(self).bytes(), old(self).pos(), n as nat)),
    {
        let l = match self.parse_list::<EncodedMethod>(n) {
            Ok(l) => l,
            Err(e) => {
                return Err(e);
            },
        };
        let mut k: usize = 1;
        while k < l.len()
            invariant
                1 <= k,
                forall|j: int| 0 < j < k && j < l@.len() ==> #[trigger] method_deltas(l@)[j] > 0,
            decreases l@.len() - k,
        {
            if l[k].method_idx_diff.0 == 0 {
                assert(method_deltas(l@)[k as int] == 0);
                assert(!deltas_increase(method_deltas(l@)));
                return Err(ParseError::BadIndexOrder);
            }
            k = k + 1;
        }
        Ok(l)
    }
}

impl Decode for ClassDataItem {
    open spec fn spec_end(mode: DecodeMode, s: Seq<u8>, pos: int) -> Result<int, ParseError> {
        match spec_class_data(mode, s, pos) {
            Ok((_, _, e)) => Ok(e),
            Err(e) => Err(e),
        }
    }

    open spec fn spec_at(mode: DecodeMode, s: Seq<u8>, pos: int, v: ClassDataItem) -> bool {
        match spec_class_data(mode, s, pos) {
            Ok(((a, b, c, d), (sf, inf, dm, vm), _)) => v.static_fields_size == a && v.instance_fields_size == b
                && v.direct_methods_size == c && v.virtual_methods_size == d && v.static_fields@ == sf
                && v.instance_fields@ == inf && v.direct_methods@ == dm && v.virtual_methods@ == vm
                && deltas_increase(field_deltas(v.static_fields@)) && deltas_increase(field_deltas(v.instance_fields@))
                && deltas_increase(method_deltas(v.direct_methods@)) && deltas_increase(method_deltas(v.virtual_methods@)),
            Err(_) => false,
        }
    }

    fn decode(p: &mut FileParser) -> (r: Result<ClassDataItem, ParseError>) {
        let (a, b) = match p.uleb_pair() {
            Ok(v) => v,
            Err(e) => {
                return Err(e);
            },
        };
        let (c, d) = match p.uleb_pair() {
            Ok(v) => v,
            Err(e) => {
                return Err(e);
            },
        };
        let static_fields = match p.field_list(a.0) {
            Ok(v) => v,
            Err(e) => {
                return Err(e);
            },
        };
        let instance_fields = match p.field_list(b.0) {
            Ok(v) => v,
            Err(e) => {
                return Err(e);
            },
        };
        let direct_methods = match p.method_list(c.0) {
            Ok(v) => v,
            Err(e) => {
                return Err(e);
            },
        };
        let virtual_methods = match p.method_list(d.0) {
            Ok(v) => v,
            Err(e) => {
                return Err(e);
            },
        };
        Ok(ClassDataItem {
            static_fields_size: a,
            instance_fields_size: b,
            direct_methods_size: c,
            virtual_methods_size: d,
            static_fields,
            instance_fields,
            direct_methods,
            virtual_methods,
        })
    }
}

/// The handlers of one guarded range: typed pairs, and a catch-all address
/// exactly when the signed size is not positive.
#[derive(Debug, PartialEq, Eq)]
pub struct EncodedCatchHandler {
    pub size: Sleb128,
    pub handlers: Vec<EncodedTypeAddrPair>,
    pub catch_all_addr: Option<Uleb128>,
}

/// `|size|`.
pub open spec fn abs_count(size: i32) -> nat {
    if size < 0 {
        (-size) as nat
    } else {
        size as nat
    }
}

/// A catch handler at `pos`: signed size, `|size|` typed pairs, and a
/// catch-all address when the size is not positive.
pub open spec fn spec_catch_handler(mode: DecodeMode, s: Seq<u8>, pos: int) -> Result<(Sleb128, Seq<EncodedTypeAddrPair>, Option<Uleb128>, int), ParseError> {
    match spec_sleb128(s, pos) {
        Ok((size, q)) => match spec_parse_list::<EncodedTypeAddrPair>(mode, s, q, abs_count(size.0)) {
            Ok((pairs, q2)) => if size.0 <= 0 {
                match spec_uleb128(s, q2) {
                    Ok((all, e)) => Ok((size, pairs, Some(all), e)),
                    Err(e) => Err(e),
                }
            } else {
                Ok((size, pairs, None, q2))
            },
            Err(e) => Err(e),
        },
        Err(e) => Err(e),
    }
}

impl Decode for EncodedCatchHandler {
    open spec fn spec_end(mode: DecodeMode, s: Seq<u8>, pos: int) -> Result<int, ParseError> {
        match spec_catch_handler(mode, s, pos) {
            Ok((_, _, _, e)) => Ok(e),
            Err(e) => Err(e),
        }
    }

    open spec fn spec_at(mode: DecodeMode, s: Seq<u8>, pos: int, v: EncodedCatchHandler) -> bool {
        match spec_catch_handler(mode, s, pos) {
            Ok((size, pairs, all, _)) => v.size == size && v.handlers@ == pairs && v.catch_all_addr == all,
            Err(_) => false,
        }
    }

    fn decode(p: &mut FileParser) -> (r: Result<EncodedCatchHandler, ParseError>) {
        let size = match p.sleb128() {
            Ok(v) => v,
            Err(e) => {
                return Err(e);
            },
        };
        let count: u32 = if size.0 < 0 {
            (-(size.0 as i64)) as u32
        } else {
            size.0 as u32
        };
        let handlers = match p.parse_list::<EncodedTypeAddrPair>(count) {
            Ok(v) => v,
            Err(e) => {
                return Err(e);
            },
        };
        if size.0 <= 0 {
            match p.uleb128() {
                Ok(all) => Ok(EncodedCatchHandler { size, handlers, catch_all_addr: Some(all) }),
                Err(e) => Err(e),
            }
        } else {
            Ok(EncodedCatchHandler { size, handlers, catch_all_addr: None })
        }
    }
}

/// The catch handlers of a method, addressed by byte offset from the list's start.
#[derive(Debug, PartialEq, Eq)]
pub struct EncodedCatchHandlerList {
    pub size: Uleb128,
    pub list: Vec<EncodedCatchHandler>,
}

impl Decode for EncodedCatchHandlerList {
    open spec fn spec_end(mode: DecodeMode, s: Seq<u8>, pos: int) -> Result<int, ParseError> {
        match spec_uleb128(s, pos) {
            Ok((size, q)) => crate::parser::parse::items_end::<EncodedCatchHandler>(mode, s, q, size.0 as nat),
            Err(e) => Err(e),
        }
    }

    open spec fn spec_at(mode: DecodeMode, s: Seq<u8>, pos: int, v: EncodedCatchHandlerList) -> bool {
        match spec_uleb128(s, pos) {
            Ok((size, q)) => v.size == size && crate::parser::parse::items_at::<EncodedCatchHandler>(mode, s, q, v.list@, size.0 as nat),
            Err(_) => false,
        }
    }

    fn decode(p: &mut FileParser) -> (r: Result<EncodedCatchHandlerList, ParseError>) {
        let size = match p.uleb128() {
            Ok(v) => v,
            Err(e) => {
                return Err(e);
            },
        };
        match p.decode_list::<EncodedCatchHandler>(size.0) {
            Ok(list) => Ok(EncodedCatchHandlerList { size, list }),
            Err(e) => Err(e),
        }
    }
}

/// `n` consecutive unsigned LEB128 numbers at `pos`: where they end.
pub open spec fn spec_ulebs(s: Seq<u8>, pos: int, n: nat) -> Result<int, ParseError>
    decreases n,
{
    if n == 0 {
        Ok(pos)
    } else {
        match spec_uleb128(s, pos) {
            Ok((_, q)) => spec_ulebs(s, q, (n - 1) as nat),
            Err(e) => Err(e),
        }
    }
}

/// Consecutive LEB128 numbers end at or after where they start.
pub proof fn lemma_ulebs_advance(s: Seq<u8>, pos: int, n: nat)
    ensures
        spec_ulebs(s, pos, n) matches Ok(e) ==> pos <= e && (n > 0 ==> e <= s.len()),
    decreases n,
{
    if n > 0 {
        lemma_uleb_advances(s, pos);
        if let Ok((_, q)) = spec_uleb128(s, pos) {
            lemma_ulebs_advance(s, q, (n - 1) as nat);
        }
    }
}

/// How many unsigned LEB128 operands the debug opcode `op` has; the advance
/// of the line, opcode 2, has one signed operand instead.
pub open spec fn debug_operands(op: u8) -> nat {
    if op == 1 || op == 5 || op == 6 || op == 9 {
        1
    } else if op == 3 {
        3
    } else if op == 4 {
        4
    } else {
        0
    }
}

/// Where the operands of the debug opcode at `pos` end.
pub open spec fn spec_debug_operands(s: Seq<u8>, pos: int) -> Result<int, ParseError> {
    if s[pos] == 2 {
        match spec_sleb128(s, pos + 1) {
            Ok((_, q)) => Ok(q),
            Err(e) => Err(e),
        }
    } else {
        spec_ulebs(s, pos + 1, debug_operands(s[pos]))
    }
}

/// The operands of a debug opcode lie after it, within the bytes.
pub proof fn lemma_debug_operands_advance(s: Seq<u8>, pos: int)
    requires
        0 <= pos < s.len(),
    ensures
        spec_debug_operands(s, pos) matches Ok(q) ==> pos < q <= s.len(),
{
    lemma_sleb_advances(s, pos + 1);
    lemma_ulebs_advance(s, pos + 1, debug_operands(s[pos]));
}

/// Where the debug program at `pos` ends: opcodes with their operands, up to
/// and including the end-of-sequence opcode 0.
pub open spec fn spec_debug_program(s: Seq<u8>, pos: int) -> Result<int, ParseError>
    decreases rem(s, pos),
{
    if !fits(s, pos, 1) {
        Err(ParseError::Truncation)
    } else if s[pos] == 0 {
        Ok(pos + 1)
    } else {
        proof {
            lemma_debug_operands_advance(s, pos);
        }
        match spec_debug_operands(s, pos) {
            Ok(q) => spec_debug_program(s, q),
            Err(e) => Err(e),
        }
    }
}

proof fn lemma_debug_program_advances(s: Seq<u8>, pos: int)
    ensures
        spec_debug_program(s, pos) matches Ok(e) ==> pos < e <= s.len(),
    decreases rem(s, pos),
{
    if fits(s, pos, 1) && s[pos] != 0 {
        lemma_debug_operands_advance(s, pos);
        if let Ok(q) = spec_debug_operands(s, pos) {
            lemma_debug_program_advances(s, q);
        }
    }
}

impl FileParser {
    /// Reads `n` unsigned LEB128 numbers.
    fn skip_ulebs(&mut self, n: u8) -> (r: Result<(), ParseError>)
        requires
            old(self).wf(),
        ensures
            final(self).wf(),
            final(self).bytes() == old(self).bytes(),
            final(self).mode() == old(self).mode(),
            match spec_ulebs(old(self).bytes(), old(self).pos(), n as nat) {
                Ok(e) => r is Ok && final(self).pos() == e,
                Err(e) => r == Err::<(), ParseError>(e),
            },
    {
        let ghost s = self.bytes();
        let mut i: u8 = 0;
        while i < n
            invariant
                self.wf(),
                self.bytes() == s,
                s == old(self).bytes(),
                self.mode() == old(self).mode(),
                i <= n,
                spec_ulebs(s, old(self).pos(), n as nat) == spec_ulebs(s, self.pos(), (n - i) as nat),
            decreases n - i,
        {
            match self.uleb128() {
                Ok(_) => {},
                Err(e) => {
                    return Err(e);
                },
            }
            i = i + 1;
        }
        Ok(())
    }

    /// Reads a debug program up to and including its end-of-sequence opcode.
    fn skip_debug_program(&mut self) -> (r: Result<(), ParseError>)
        requires
            old(self).wf(),
        ensures
            final(self).wf(),
            final(self).bytes() == old(self).bytes(),
            final(self).mode() == old(self).mode(),
            match spec_debug_program(old(self).bytes(), old(self).pos()) {
                Ok(e) => r is Ok && final(self).pos() == e,
                Err(e) => r == Err::<(), ParseError>(e),
            },
    {
        let ghost s = self.bytes();
        loop
            invariant
                self.wf(),
                self.bytes() == s,
                s == old(self).bytes(),
                self.mode() == old(self).mode(),
                spec_debug_program(s, old(self).pos()) == spec_debug_program(s, self.pos()),
            decreases rem(s, self.pos()),
        {
            let ghost here = self.pos();
            let op = match self.read_u8() {
                Ok(b) => b,
                Err(e) => {
                    return Err(e);
                },
            };
            if op == 0 {
                return Ok(());
            }
            proof {
                lemma_debug_operands_advance(s, here);
            }
            let step = if op == 2 {
                match self.sleb128() {
                    Ok(_) => Ok(()),
                    Err(e) => Err(e),
                }
            } else {
                let n: u8 = if op == 1 || op == 5 || op == 6 || op == 9 {
                    1
                } else if op == 3 {
                    3
                } else if op == 4 {
                    4
                } else {
                    0
                };
                self.skip_ulebs(n)
            };
            match step {
                Ok(()) => {},
                Err(e) => {
                    return Err(e);
                },
            }
        }
    }
}

/// The debug information of a method: first line, the name indices of its
/// parameters, and the bytes of its debug program.
#[derive(Debug, PartialEq, Eq)]
pub struct DebugInfoItem {
    pub line_start: Uleb128,
    pub parameters_size: Uleb128,
    pub parameter_names: Vec<Uleb128>,
    pub program: Vec<u8>,
}

impl Decode for DebugInfoItem {
    open spec fn spec_end(mode: DecodeMode, s: Seq<u8>, pos: int) -> Result<int, ParseError> {
        match spec_uleb_pair(s, pos) {
            Ok(((_, n), q)) => match spec_parse_list::<Uleb128>(mode, s, q, n.0 as nat) {
                Ok((_, q2)) => spec_debug_program(s, q2),
                Err(e) => Err(e),
            },
            Err(e) => Err(e),
        }
    }

    open spec fn spec_at(mode: DecodeMode, s: Seq<u8>, pos: int, v: DebugInfoItem) -> bool {
        match spec_uleb_pair(s, pos) {
            Ok(((l, n), q)) => match spec_parse_list::<Uleb128>(mode, s, q, n.0 as nat) {
                Ok((names, q2)) => v.line_start == l && v.parameters_size == n && v.parameter_names@ == names
                    && v.program@ == s.subrange(q2, spec_debug_program(s, q2)->Ok_0),
                Err(_) => false,
            },
            Err(_) => false,
        }
    }

    fn decode(p: &mut FileParser) -> (r: Result<DebugInfoItem, ParseError>) {
        let (line_start, parameters_size) = match p.uleb_pair() {
            Ok(v) => v,
            Err(e) => {
                return Err(e);
            },
        };
        let parameter_names = match p.parse_list::<Uleb128>(parameters_size.0) {
            Ok(v) => v,
            Err(e) => {
                return Err(e);
            },
        };
        let start = p.get_offset();
        proof {
            lemma_debug_program_advances(p.bytes(), start as int);
        }
        match p.skip_debug_program() {
            Ok(()) => {},
            Err(e) => {
                return Err(e);
            },
        }
        let end = p.get_offset();
        let _ = p.set_offset(start);
        match p.read_bytes(end - start) {
            Ok(program) => Ok(DebugInfoItem { line_start, parameters_size, parameter_names, program }),
            Err(e) => Err(e),
        }
    }
}

/// An annotation with its visibility.
#[derive(Debug, PartialEq)]
pub struct AnnotationItem {
    pub visibility: u8,
    pub annotation: EncodedAnnotation,
}

/// Where the encoded annotation at `pos` ends.
pub open spec fn spec_annotation_end(s: Seq<u8>, pos: int) -> Result<int, ParseError> {
    match spec_uleb128(s, pos) {
        Ok((_, q1)) => match spec_uleb128(s, q1) {
            Ok((size, q2)) => match spec_elements_len(s, q2, size.0 as nat) {
                Ok(k) => Ok(q2 + k),
                Err(e) => Err(e),
            },
            Err(e) => Err(e),
        },
        Err(e) => Err(e),
    }
}

/// `v` is the encoded annotation at `pos`.
pub open spec fn annotation_at(s: Seq<u8>, pos: int, v: EncodedAnnotation) -> bool {
    match spec_uleb128(s, pos) {
        Ok((ty, q1)) => match spec_uleb128(s, q1) {
            Ok((size, q2)) => v.type_idx == ty && v.size == size && elements_at(s, q2, v.elements@, size.0 as nat),
            Err(_) => false,
        },
        Err(_) => false,
    }
}

/// Where the encoded array at `pos` ends.
pub open spec fn spec_array_end(s: Seq<u8>, pos: int) -> Result<int, ParseError> {
    match spec_uleb128(s, pos) {
        Ok((size, q)) => match spec_values_len(s, q, size.0 as nat) {
            Ok(k) => Ok(q + k),
            Err(e) => Err(e),
        },
        Err(e) => Err(e),
    }
}

/// `v` is the encoded array at `pos`.
pub open spec fn array_at(s: Seq<u8>, pos: int, v: EncodedArray) -> bool {
    match spec_uleb128(s, pos) {
        Ok((size, q)) => v.size == size && values_at(s, q, v.values@, size.0 as nat),
        Err(_) => false,
    }
}

impl Decode for AnnotationItem {
    open spec fn spec_end(mode: DecodeMode, s: Seq<u8>, pos: int) -> Result<int, ParseError> {
        match spec_u8(s, pos) {
            Ok((_, q)) => spec_annotation_end(s, q),
            Err(e) => Err(e),
        }
    }

    open spec fn spec_at(mode: DecodeMode, s: Seq<u8>, pos: int, v: AnnotationItem) -> bool {
        match spec_u8(s, pos) {
            Ok((vis, q)) => v.visibility == vis && annotation_at(s, q, v.annotation),
            Err(_) => false,
        }
    }

    fn decode(p: &mut FileParser) -> (r: Result<AnnotationItem, ParseError>) {
        let visibility = match p.read_u8() {
            Ok(v) => v,
            Err(e) => {
                return Err(e);
            },
        };
        match EncodedAnnotation::parse(p) {
            Ok(annotation) => Ok(AnnotationItem { visibility, annotation }),
            Err(e) => Err(e),
        }
    }
}

/// An array of static field values or call site arguments.
#[derive(Debug, PartialEq)]
pub struct EncodedArrayItem {
    pub value: EncodedArray,
}

impl Decode for EncodedArrayItem {
    open spec fn spec_end(mode: DecodeMode, s: Seq<u8>, pos: int) -> Result<int, ParseError> {
        spec_array_end(s, pos)
    }

    open spec fn spec_at(mode: DecodeMode, s: Seq<u8>, pos: int, v: EncodedArrayItem) -> bool {
        array_at(s, pos, v.value)
    }

    fn decode(p: &mut FileParser) -> (r: Result<EncodedArrayItem, ParseError>) {
        match EncodedArray::parse(p) {
            Ok(value) => Ok(EncodedArrayItem { value }),
            Err(e) => Err(e),
        }
    }
}

/// The annotations of a class, its fields, its methods and its methods'
/// parameters; a list is absent when its count is zero.
#[derive(Debug, PartialEq, Eq)]
pub struct AnnotationsDirectoryItem {
    pub class_annotations_off: Ref<AnnotationSetItem>,
    pub fields_size: u32,
    pub annotated_methods_size: u32,
    pub annotated_parameters_size: u32,
    pub field_annotations: Option<Vec<FieldAnnotation>>,
    pub method_annotations: Option<Vec<MethodAnnotation>>,
    pub parameter_annotations: Option<Vec<ParameterAnnotation>>,
}

/// A list of `n` values at `pos` that is absent when `n` is zero.
pub open spec fn spec_opt_list<T: Parse>(mode: DecodeMode, s: Seq<u8>, pos: int, n: u32) -> Result<(Option<Seq<T>>, int), ParseError> {
    if n == 0 {
        Ok((None, pos))
    } else {
        match spec_parse_list::<T>(mode, s, pos, n as nat) {
            Ok((vs, e)) => Ok((Some(vs), e)),
            Err(e) => Err(e),
        }
    }
}

/// The values of an optional list, as a sequence.
pub open spec fn opt_view<T>(v: Option<Vec<T>>) -> Option<Seq<T>> {
    match v {
        Some(v) => Some(v@),
        None => None,
    }
}

impl FileParser {
    /// Reads `n` values, or nothing when `n` is zero.
    fn parse_opt_list<T: Parse>(&mut self, n: u32) -> (r: Result<Option<Vec<T>>, ParseError>)
        requires
            old(self).wf(),
        ensures
            crate::parser::parsed(
                match r { Ok(v) => Ok(opt_view(v)), Err(e) => Err(e) },
                *old(self),
                *final(self),
                spec_opt_list::<T>(old(self).mode(), old(self).bytes(), old(self).pos(), n),
            ),
    {
        if n == 0 {
            return Ok(None);
        }
        match self.parse_list::<T>(n) {
            Ok(v) => Ok(Some(v)),
            Err(e) => Err(e),
        }
    }
}

/// An annotations directory at `pos`: aligned header of an offset and three
/// counts, then the three lists.
pub open spec fn spec_directory(mode: DecodeMode, s: Seq<u8>, pos: int) -> Result<(
    (u32, u32, u32, u32),
    (Option<Seq<FieldAnnotation>>, Option<Seq<MethodAnnotation>>, Option<Seq<ParameterAnnotation>>),
    int,
), ParseError> {
    match block_start(s, pos, 16, true) {
        Ok(a) => {
            let (off, nf, nm, np) = (le32(s, a) as u32, le32(s, a + 4) as u32, le32(s, a + 8) as u32, le32(s, a + 12) as u32);
            match spec_opt_list::<FieldAnnotation>(mode, s, a + 16, nf) {
                Ok((fa, q1)) => match spec_opt_list::<MethodAnnotation>(mode, s, q1, nm) {
                    Ok((ma, q2)) => match spec_opt_list::<ParameterAnnotation>(mode, s, q2, np) {
                        Ok((pa, e)) => Ok(((off, nf, nm, np), (fa, ma, pa), e)),
                        Err(e) => Err(e),
                    },
                    Err(e) => Err(e),
                },
                Err(e) => Err(e),
            }
        },
        Err(e) => Err(e),
    }
}

impl Decode for AnnotationsDirectoryItem {
    open spec fn spec_end(mode: DecodeMode, s: Seq<u8>, pos: int) -> Result<int, ParseError> {
        match spec_directory(mode, s, pos) {
            Ok((_, _, e)) => Ok(e),
            Err(e) => Err(e),
        }
    }

    open spec fn spec_at(mode: DecodeMode, s: Seq<u8>, pos: int, v: AnnotationsDirectoryItem) -> bool {
        match spec_directory(mode, s, pos) {
            Ok(((off, nf, nm, np), (fa, ma, pa), _)) => v.class_annotations_off.offset == off && v.fields_size == nf
                && v.annotated_methods_size == nm && v.annotated_parameters_size == np
                && opt_view(v.field_annotations) == fa && opt_view(v.method_annotations) == ma
                && opt_view(v.parameter_annotations) == pa,
            Err(_) => false,
        }
    }

    fn decode(p: &mut FileParser) -> (r: Result<AnnotationsDirectoryItem, ParseError>) {
        let b = match p.read_block(16, true) {
            Ok(b) => b,
            Err(e) => {
                return Err(e);
            },
        };
        let fields_size = le32_at(&b, 4);
        let annotated_methods_size = le32_at(&b, 8);
        let annotated_parameters_size = le32_at(&b, 12);
        let field_annotations = match p.parse_opt_list::<FieldAnnotation>(fields_size) {
            Ok(v) => v,
            Err(e) => {
                return Err(e);
            },
        };
        let method_annotations = match p.parse_opt_list::<MethodAnnotation>(annotated_methods_size) {
            Ok(v) => v,
            Err(e) => {
                return Err(e);
            },
        };
        let parameter_annotations = match p.parse_opt_list::<ParameterAnnotation>(annotated_parameters_size) {
            Ok(v) => v,
            Err(e) => {
                return Err(e);
            },
        };
        Ok(AnnotationsDirectoryItem {
            class_annotations_off: Ref::new(le32_at(&b, 0)),
            fields_size,
            annotated_methods_size,
            annotated_parameters_size,
            field_annotations,
            method_annotations,
            parameter_annotations,
        })
    }
}

/// The sum of the first `n` deltas: the absolute index of entry `n - 1`.
pub open spec fn prefix_sum(deltas: Seq<u32>, n: int) -> int
    decreases n,
{
    if n <= 0 {
        0
    } else {
        prefix_sum(deltas, n - 1) + deltas[n - 1]
    }
}

/// Turns the index differences of a class data list into absolute indices:
/// entry `i` is the sum of the first `i + 1` differences. Nothing when a sum
/// does not fit 32 bits.
pub fn absolute_indices(deltas: &Vec<u32>) -> (r: Option<Vec<u32>>)
    ensures
        r is Some <==> prefix_sum(deltas@, deltas@.len() as int) <= u32::MAX,
        r matches Some(v) ==> v@.len() == deltas@.len() && forall|i: int| 0 <= i < v@.len() ==> #[trigger] v@[i]
            == prefix_sum(deltas@, i + 1),
{
    let mut out: Vec<u32> = Vec::new();
    let mut sum: u64 = 0;
    let mut i: usize = 0;
    while i < deltas.len()
        invariant
            i <= deltas@.len(),
            out@.len() == i,
            sum == prefix_sum(deltas@, i as int),
            sum <= u32::MAX,
            forall|j: int| 0 <= j < i ==> #[trigger] out@[j] == prefix_sum(deltas@, j + 1),
        decreases deltas@.len() - i,
    {
        sum = sum + deltas[i] as u64;
        if sum > 0xffff_ffff {
            proof {
                lemma_prefix_monotone(deltas@, i as int + 1, deltas@.len() as int);
            }
            return None;
        }
        out.push(sum as u32);
        i = i + 1;
    }
    Some(out)
}

proof fn lemma_prefix_monotone(deltas: Seq<u32>, i: int, j: int)
    requires
        0 <= i <= j <= deltas.len(),
    ensures
        prefix_sum(deltas, i) <= prefix_sum(deltas, j),
    decreases j - i,
{
    if i < j {
        lemma_prefix_monotone(deltas, i, j - 1);
    }
}

/// With every difference after the first nonzero, the absolute indices of a
/// class data list strictly increase.
pub proof fn lemma_absolute_increasing(deltas: Seq<u32>, i: int, j: int)
    requires
        forall|k: int| 0 < k < deltas.len() ==> #[trigger] deltas[k] > 0,
        0 <= i < j < deltas.len(),
    ensures
        prefix_sum(deltas, i + 1) < prefix_sum(deltas, j + 1),
    decreases j - i,
{
    if j > i + 1 {
        lemma_absolute_increasing(deltas, i, j - 1);
    }
}

/// What a method handle does.
#[derive(Debug, Clone, Copy, PartialEq, Eq, Structural)]
pub enum MethodHandleType {
    /// The handle is a static field setter.
    MethodHandleTypeStaticPut,
    /// The handle is a static field getter.
    MethodHandleTypeStaticGet,
    /// The handle is an instance field setter.
    MethodHandleTypeInstancePut,
    /// The handle is an instance field getter.
    MethodHandleTypeInstanceGet,
    /// The handle is a static method invoker.
    MethodHandleTypeInvokeStatic,
    /// The handle is an instance method invoker.
    MethodHandleTypeInvokeInstance,
    /// The handle is a constructor invoker.
    MethodHandleTypeInvokeConstructor,
    /// The handle is a direct method invoker.
    MethodHandleTypeInvokeDirect,
    /// The handle is an interface method invoker.
    MethodHandleTypeInvokeInterface,
}

/// The handle kind that `code` names, if any.
pub open spec fn spec_handle_type(code: u16) -> Option<MethodHandleType> {
    if code == 0 {
        Some(MethodHandleType::MethodHandleTypeStaticPut)
    } else if code == 1 {
        Some(MethodHandleType::MethodHandleTypeStaticGet)
    } else if code == 2 {
        Some(MethodHandleType::MethodHandleTypeInstancePut)
    } else if code == 3 {
        Some(MethodHandleType::MethodHandleTypeInstanceGet)
    } else if code == 4 {
        Some(MethodHandleType::MethodHandleTypeInvokeStatic)
    } else if code == 5 {
        Some(MethodHandleType::MethodHandleTypeInvokeInstance)
    } else if code == 6 {
        Some(MethodHandleType::MethodHandleTypeInvokeConstructor)
    } else if code == 7 {
        Some(MethodHandleType::MethodHandleTypeInvokeDirect)
    } else if code == 8 {
        Some(MethodHandleType::MethodHandleTypeInvokeInterface)
    } else {
        None
    }
}

impl MethodHandleType {
    /// The handle kind named by `code`; an unknown code is refused.
    pub fn from_code(code: u16) -> (r: Result<MethodHandleType, ParseError>)
        ensures
            match spec_handle_type(code) {
                Some(t) => r == Ok::<MethodHandleType, ParseError>(t),
                None => r == Err::<MethodHandleType, ParseError>(ParseError::BadMethodHandleType(code)),
            },
    {
        match code {
            0 => Ok(MethodHandleType::MethodHandleTypeStaticPut),
            1 => Ok(MethodHandleType::MethodHandleTypeStaticGet),
            2 => Ok(MethodHandleType::MethodHandleTypeInstancePut),
            3 => Ok(MethodHandleType::MethodHandleTypeInstanceGet),
            4 => Ok(MethodHandleType::MethodHandleTypeInvokeStatic),
            5 => Ok(MethodHandleType::MethodHandleTypeInvokeInstance),
            6 => Ok(MethodHandleType::MethodHandleTypeInvokeConstructor),
            7 => Ok(MethodHandleType::MethodHandleTypeInvokeDirect),
            8 => Ok(MethodHandleType::MethodHandleTypeInvokeInterface),
            _ => Err(ParseError::BadMethodHandleType(code)),
        }
    }

    /// Reads a handle kind as a u16.
    pub fn parse(p: &mut FileParser) -> (r: Result<MethodHandleType, ParseError>)
        requires
            old(p).wf(),
        ensures
            crate::parser::parsed(r, *old(p), *final(p), match crate::parser::spec_u16(old(p).bytes(), old(p).pos()) {
                Ok((v, n)) => match spec_handle_type(v) {
                    Some(t) => Ok((t, n)),
                    None => Err(ParseError::BadMethodHandleType(v)),
                },
                Err(e) => Err(e),
            }),
    {
        match p.read_u16() {
            Ok(v) => MethodHandleType::from_code(v),
            Err(e) => Err(e),
        }
    }
}

impl MethodHandleItem {
    /// What the handle does.
    pub fn handle_type(&self) -> (r: Result<MethodHandleType, ParseError>)
        ensures
            match spec_handle_type(self.method_handle_type) {
                Some(t) => r == Ok::<MethodHandleType, ParseError>(t),
                None => r == Err::<MethodHandleType, ParseError>(ParseError::BadMethodHandleType(self.method_handle_type)),
            },
    {
        MethodHandleType::from_code(self.method_handle_type)
    }
}

/// In every decoded class data item the absolute indices of each of the four
/// lists strictly increase.
pub proof fn lemma_class_data_increasing(mode: DecodeMode, s: Seq<u8>, pos: int, v: ClassDataItem, i: int, j: int)
    requires
        ClassDataItem::spec_at(mode, s, pos, v),
        0 <= i < j,
    ensures
        j < v.static_fields@.len() ==> prefix_sum(field_deltas(v.static_fields@), i + 1)
            < prefix_sum(field_deltas(v.static_fields@), j + 1),
        j < v.instance_fields@.len() ==> prefix_sum(field_deltas(v.instance_fields@), i + 1)
            < prefix_sum(field_deltas(v.instance_fields@), j + 1),
        j < v.direct_methods@.len() ==> prefix_sum(method_deltas(v.direct_methods@), i + 1)
            < prefix_sum(method_deltas(v.direct_methods@), j + 1),
        j < v.virtual_methods@.len() ==> prefix_sum(method_deltas(v.virtual_methods@), i + 1)
            < prefix_sum(method_deltas(v.virtual_methods@), j + 1),
{
    if j < v.static_fields@.len() {
        lemma_absolute_increasing(field_deltas(v.static_fields@), i, j);
    }
    if j < v.instance_fields@.len() {
        lemma_absolute_increasing(field_deltas(v.instance_fields@), i, j);
    }
    if j < v.direct_methods@.len() {
        lemma_absolute_increasing(method_deltas(v.direct_methods@), i, j);
    }
    if j < v.virtual_methods@.len() {
        lemma_absolute_increasing(method_deltas(v.virtual_methods@), i, j);
    }
}

/// Bytes from `pos` up to `end`, or zero past it.
pub open spec fn gap_to(pos: int, end: int) -> nat {
    if pos < end {
        (end - pos) as nat
    } else {
        0
    }
}

/// Where unsigned LEB128 numbers from `pos` end when they must fill the bytes
/// up to exactly `end`.
pub open spec fn spec_flags_end(s: Seq<u8>, pos: int, end: int) -> Result<int, ParseError>
    decreases gap_to(pos, end),
{
    if pos >= end {
        if pos == end {
            Ok(end)
        } else {
            Err(ParseError::OutOfBounds)
        }
    } else {
        proof {
            lemma_uleb_advances(s, pos);
        }
        match spec_uleb128(s, pos) {
            Ok((_, q)) => spec_flags_end(s, q, end),
            Err(e) => Err(e),
        }
    }
}

/// `vs` are the unsigned LEB128 numbers from `pos` up to `end`.
pub open spec fn flags_at(s: Seq<u8>, pos: int, end: int, vs: Seq<Uleb128>) -> bool
    decreases gap_to(pos, end),
{
    if pos >= end {
        vs.len() == 0
    } else {
        proof {
            lemma_uleb_advances(s, pos);
        }
        vs.len() > 0 && spec_uleb128(s, pos) is Ok && vs[0] == spec_uleb128(s, pos)->Ok_0.0
            && flags_at(s, spec_uleb128(s, pos)->Ok_0.1, end, vs.drop_first())
    }
}

/// The hidden API flags of the classes: the item's size in bytes, for each of
/// `classes` classes the offset of its flags from the item's start (zero for
/// none), then the flags, which fill the item exactly.
pub open spec fn spec_hiddenapi(mode: DecodeMode, s: Seq<u8>, pos: int, classes: u32) -> Result<(u32, Seq<u32>, int), ParseError> {
    if !fits(s, pos, 4) {
        Err(ParseError::Truncation)
    } else {
        match spec_parse_list::<u32>(mode, s, pos + 4, classes as nat) {
            Ok((offs, q)) => match spec_flags_end(s, q, pos + le32(s, pos)) {
                Ok(_) => Ok((le32(s, pos) as u32, offs, q)),
                Err(e) => Err(e),
            },
            Err(e) => Err(e),
        }
    }
}

/// The hidden API flags of the classes of a file.
#[derive(Debug, PartialEq, Eq)]
pub struct HiddenapiClassDataItem {
    pub size: u32,
    pub offsets: Vec<u32>,
    pub flags: Vec<Uleb128>,
}

impl HiddenapiClassDataItem {
    /// Decodes the item at the cursor for a file of `classes` classes.
    #[verifier::loop_isolation(false)]
    pub fn parse(p: &mut FileParser, classes: u32) -> (r: Result<HiddenapiClassDataItem, ParseError>)
        requires
            old(p).wf(),
        ensures
            final(p).wf(),
            final(p).bytes() == old(p).bytes(),
            final(p).mode() == old(p).mode(),
            match spec_hiddenapi(old(p).mode(), old(p).bytes(), old(p).pos(), classes) {
                Ok((size, offs, q)) => r is Ok && r->Ok_0.size == size && r->Ok_0.offsets@ == offs
                    && final(p).pos() == old(p).pos() + size
                    && flags_at(old(p).bytes(), q, old(p).pos() + size, r->Ok_0.flags@),
                Err(e) => r == Err::<HiddenapiClassDataItem, ParseError>(e),
            },
    {
        let ghost s = p.bytes();
        let start = p.get_offset();
        let size = match p.read_u32() {
            Ok(v) => v,
            Err(e) => {
                return Err(e);
            },
        };
        let offsets = match p.parse_list::<u32>(classes) {
            Ok(v) => v,
            Err(e) => {
                return Err(e);
            },
        };
        let ghost q = p.pos();
        assert(size == le32(s, old(p).pos()));
        let end: u128 = start as u128 + size as u128;
        let mut flags: Vec<Uleb128> = Vec::new();
        while (p.get_offset() as u128) < end
            invariant
                p.wf(),
                p.bytes() == s,
                s == old(p).bytes(),
                p.mode() == old(p).mode(),
                end == old(p).pos() + size,
                size == le32(s, old(p).pos()),
                spec_flags_end(s, q, end as int) == spec_flags_end(s, p.pos(), end as int),
                forall|rest: Seq<Uleb128>| #[trigger] flags_at(s, p.pos(), end as int, rest)
                    ==> flags_at(s, q, end as int, flags@ + rest),
            decreases gap_to(p.pos(), end as int),
        {
            let ghost here = p.pos();
            let ghost before = flags@;
            proof {
                lemma_uleb_advances(s, here);
            }
            let v = match p.uleb128() {
                Ok(v) => v,
                Err(e) => {
                    assert(spec_flags_end(s, here, end as int) == Err::<int, ParseError>(e));
                    assert(spec_flags_end(s, q, old(p).pos() + le32(s, old(p).pos())) == Err::<int, ParseError>(e));
                    return Err(e);
                },
            };
            flags.push(v);
            proof {
                assert forall|rest: Seq<Uleb128>| #[trigger] flags_at(s, p.pos(), end as int, rest)
                    implies flags_at(s, q, end as int, flags@ + rest) by {
                    let whole = seq![v] + rest;
                    assert(whole[0] == v);
                    assert(whole.drop_first() =~= rest);
                    assert(flags_at(s, here, end as int, whole));
                    assert(before + whole =~= flags@ + rest);
                }
            }
        }
        if p.get_offset() as u128 != end {
            return Err(ParseError::OutOfBounds);
        }
        proof {
            assert(flags_at(s, p.pos(), end as int, Seq::<Uleb128>::empty()));
            assert(flags@ + Seq::<Uleb128>::empty() =~= flags@);
        }
        Ok(HiddenapiClassDataItem { size, offsets, flags })
    }
}

} // verus!
