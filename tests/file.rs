use dexfile::parser::parse::Decode;
use dexfile::parser::{FileParser, ParseError};
use dexfile::types::code::CodeItem;
use dexfile::bytecode::instruction::Instruction;
use dexfile::bytecode::opcode::Opcode;
use dexfile::types::id::MethodHandleType;
use dexfile::types::map::{get_bytes_range, MapData, MapItem, TypeCode};
use dexfile::types::refs::Idx;
use dexfile::types::resolve::{ClassData, Resolver};
use dexfile::types::id::{ClassDataItem, EncodedField};
use dexfile::types::header::{EndianConstant, Header};
use dexfile::types::map::MapList;
use dexfile::parser::parse::Uleb128;

const REQUIRED: [u16; 18] = [
    0x0000, 0x0001, 0x0002, 0x0003, 0x0004, 0x0005, 0x0006, 0x2001, 0x2003, 0x1001, 0x2002, 0x2004, 0x2000,
    0x2005, 0x1003, 0x1002, 0x2006, 0x1000,
];

fn put32(b: &mut Vec<u8>, at: usize, v: u32) {
    b[at..at + 4].copy_from_slice(&v.to_le_bytes());
}

/// A file of a header and a map list whose sections are all empty.
fn minimal_file(items: &[(u16, u32, u32)]) -> Vec<u8> {
    let mut b = vec![0u8; 112];
    b[0..8].copy_from_slice(&[0x64, 0x65, 0x78, 0x0a, 0x30, 0x33, 0x35, 0x00]);
    put32(&mut b, 36, 0x70);
    put32(&mut b, 40, 0x1234_5678);
    put32(&mut b, 52, 112);
    b.extend_from_slice(&(items.len() as u32).to_le_bytes());
    for (code, size, off) in items {
        b.extend_from_slice(&code.to_le_bytes());
        b.extend_from_slice(&[0, 0]);
        b.extend_from_slice(&size.to_le_bytes());
        b.extend_from_slice(&off.to_le_bytes());
    }
    let len = b.len() as u32;
    put32(&mut b, 32, len);
    b
}

fn standard_items() -> Vec<(u16, u32, u32)> {
    REQUIRED
        .iter()
        .map(|&c| match c {
            0x0000 => (c, 1, 0),
            0x1000 => (c, 1, 112),
            _ => (c, 0, 112),
        })
        .collect()
}

#[test]
fn minimal_file_decodes() {
    let mut p = FileParser::new(minimal_file(&standard_items()));
    let f = p.parse_file().unwrap();
    assert_eq!(f.header.format_version, 35);
    assert_eq!(f.header.map_off, 112);
    assert_eq!(f.map_list.size, 18);
    assert!(f.map_list.check(f.header.map_off));
    assert!(f.string_ids.is_empty());
    assert!(f.code.is_empty());
}

#[test]
fn second_header_entry_is_refused() {
    let mut items = standard_items();
    items.push((0x0000, 1, 0));
    let mut p = FileParser::new(minimal_file(&items));
    assert!(matches!(p.parse_file(), Err(ParseError::BadMapList)));
}

#[test]
fn map_list_entry_elsewhere_is_refused() {
    let mut items = standard_items();
    items[17] = (0x1000, 1, 116);
    let mut p = FileParser::new(minimal_file(&items));
    assert!(matches!(p.parse_file(), Err(ParseError::BadMapList)));
}

#[test]
fn missing_section_is_refused() {
    let mut items = standard_items();
    items.remove(7);
    let mut p = FileParser::new(minimal_file(&items));
    assert!(matches!(p.parse_file(), Err(ParseError::MissingSection(0x2001))));
}

#[test]
fn bad_endian_tag_is_refused() {
    let mut b = minimal_file(&standard_items());
    put32(&mut b, 40, 0x1111_1111);
    let mut p = FileParser::new(b);
    assert!(matches!(p.parse_file(), Err(ParseError::BadEndianTag)));
}

#[test]
fn bad_type_code_is_refused() {
    let mut items = standard_items();
    items.push((0x7777, 0, 112));
    let mut p = FileParser::new(minimal_file(&items));
    assert!(matches!(p.parse_file(), Err(ParseError::BadTypeCode(0x7777))));
}

#[test]
fn truncated_file_is_refused() {
    let mut p = FileParser::new(vec![0x64, 0x65, 0x78, 0x0a, 0x30, 0x33, 0x35, 0x00, 0, 0]);
    assert!(matches!(p.parse_file(), Err(ParseError::Truncation)));
}

fn code_item(insns: &[u8], tries: u16) -> Vec<u8> {
    let mut b = Vec::new();
    b.extend_from_slice(&2u16.to_le_bytes());
    b.extend_from_slice(&1u16.to_le_bytes());
    b.extend_from_slice(&0u16.to_le_bytes());
    b.extend_from_slice(&tries.to_le_bytes());
    b.extend_from_slice(&0u32.to_le_bytes());
    b.extend_from_slice(&((insns.len() / 2) as u32).to_le_bytes());
    b.extend_from_slice(insns);
    b
}

#[test]
fn code_item_units_add_up() {
    let insns = [0x12, 0x10, 0x13, 0x01, 0x05, 0x00, 0x0f, 0x00];
    let mut b = code_item(&insns, 0);
    let mut p = FileParser::new(b.clone());
    let item = CodeItem::decode(&mut p).unwrap();
    assert_eq!(item.insns_size, 4);
    let units: i64 = item.insns.iter().map(|i| i.code_units()).sum();
    assert_eq!(units, 4);
    assert_eq!(item.insns[0], Instruction::Instruction11n(Opcode::Const4, (0, 1)));
    assert_eq!(item.insns[1], Instruction::Instruction21s(Opcode::Const16, (1, 5)));
    assert_eq!(p.get_offset(), 24);
    b.truncate(22);
    let mut p = FileParser::new(b);
    assert_eq!(CodeItem::decode(&mut p), Err(ParseError::Truncation));
}

#[test]
fn code_item_overrun_is_refused() {
    let insns = [0x12, 0x10, 0x13, 0x01];
    let mut b = code_item(&insns, 0);
    b.extend_from_slice(&[0x05, 0x00, 0, 0]);
    let mut p = FileParser::new(b);
    assert_eq!(CodeItem::decode(&mut p), Err(ParseError::OutOfBounds));
}

#[test]
fn code_item_with_tries_and_pad() {
    let insns = [0x12, 0x10, 0x0f, 0x00, 0x0e, 0x00];
    let mut b = code_item(&insns, 1);
    b.extend_from_slice(&[0xaa, 0xbb]);
    b.extend_from_slice(&0u32.to_le_bytes());
    b.extend_from_slice(&3u16.to_le_bytes());
    b.extend_from_slice(&1u16.to_le_bytes());
    b.extend_from_slice(&[0x01, 0x00, 0x02]);
    b.extend_from_slice(&[0, 0, 0]);
    let mut p = FileParser::new(b);
    let item = CodeItem::decode(&mut p).unwrap();
    assert_eq!(item.padding, Some(0xbbaa));
    let tries = item.tries.unwrap();
    assert_eq!(tries[0].insn_count, 3);
    let handlers = item.handlers.unwrap();
    assert_eq!(handlers.list.len(), 1);
    assert_eq!(handlers.list[0].catch_all_addr.map(|a| a.0), Some(2));
    assert_eq!(p.get_offset(), 36);
}

/// A file with two strings, one type and one class whose source file is absent.
fn file_with_class() -> Vec<u8> {
    let mut b = vec![0u8; 168];
    b[0..8].copy_from_slice(&[0x64, 0x65, 0x78, 0x0a, 0x30, 0x33, 0x38, 0x00]);
    put32(&mut b, 36, 0x70);
    put32(&mut b, 40, 0x1234_5678);
    put32(&mut b, 52, 168);
    put32(&mut b, 112, 156);
    put32(&mut b, 116, 160);
    put32(&mut b, 120, 0);
    put32(&mut b, 124, 0);
    put32(&mut b, 128, 1);
    put32(&mut b, 132, 0);
    put32(&mut b, 140, 0xffff_ffff);
    b[156..160].copy_from_slice(&[3, b'L', b'A', b';']);
    b[160..167].copy_from_slice(&[6, b'A', b'.', b'j', b'a', b'v', b'a']);
    let items: Vec<(u16, u32, u32)> = REQUIRED
        .iter()
        .map(|&c| match c {
            0x0000 => (c, 1, 0),
            0x0001 => (c, 2, 112),
            0x0002 => (c, 1, 120),
            0x0006 => (c, 1, 124),
            0x2002 => (c, 2, 156),
            0x1000 => (c, 1, 168),
            _ => (c, 0, 112),
        })
        .collect();
    b.extend_from_slice(&(items.len() as u32).to_le_bytes());
    for (code, size, off) in &items {
        b.extend_from_slice(&code.to_le_bytes());
        b.extend_from_slice(&[0, 0]);
        b.extend_from_slice(&size.to_le_bytes());
        b.extend_from_slice(&off.to_le_bytes());
    }
    b
}

#[test]
fn resolver_looks_up_names() {
    let r = Resolver::new(FileParser::new(file_with_class())).unwrap();
    assert_eq!(r.dex_file().header.format_version, 38);
    assert_eq!(r.dex_file().string_data[1].string, "A.java");
    assert_eq!(r.class_names().unwrap(), vec!["LA;".to_string()]);
    let classes = r.classes().unwrap();
    assert_eq!(classes[0].name, "LA;");
    assert_eq!(classes[0].superclass, "LA;");
    assert_eq!(classes[0].access_flags, 1);
    assert_eq!(classes[0].source_file, None);
    assert!(r.methods().unwrap().is_empty());
}

#[test]
fn source_file_lookup() {
    let mut r = Resolver::new(FileParser::new(file_with_class())).unwrap();
    assert_eq!(r.dex_file.class_defs[0].source_file(&r.dex_file), Ok(None));
    r.dex_file.class_defs[0].source_file_idx = Idx::new(1);
    assert_eq!(r.dex_file.class_defs[0].source_file(&r.dex_file), Ok(Some("A.java".to_string())));
    r.dex_file.class_defs[0].source_file_idx = Idx::new(5);
    assert_eq!(r.dex_file.class_defs[0].source_file(&r.dex_file), Err(ParseError::OutOfBounds));
    assert_eq!(r.dex_file.string(2), Err(ParseError::OutOfBounds));
    assert_eq!(r.dex_file.type_descriptor(0), Ok("LA;".to_string()));
}

#[test]
fn method_handle_kinds() {
    assert_eq!(MethodHandleType::from_code(4), Ok(MethodHandleType::MethodHandleTypeInvokeStatic));
    assert_eq!(MethodHandleType::from_code(9), Err(ParseError::BadMethodHandleType(9)));
}

#[test]
fn section_bytes() {
    let mut p = FileParser::new(file_with_class());
    assert_eq!(get_bytes_range(&mut p, 156, 4), Ok(vec![3, b'L', b'A', b';']));
    let item = MapItem { item_type: TypeCode::StringDataItem, size: 2, offset: 160 };
    let d = MapData::parse(&mut p, &item, 7).unwrap();
    assert_eq!(d.data, vec![6, b'A', b'.', b'j', b'a', b'v', b'a']);
    assert_eq!(d.item_type, TypeCode::StringDataItem);
    assert_eq!(get_bytes_range(&mut p, 5000, 1), Err(ParseError::Truncation));
}

#[test]
fn class_data_lookup() {
    let r = Resolver::new(FileParser::new(file_with_class())).unwrap();
    let empty = ClassDataItem {
        static_fields_size: Uleb128(0),
        instance_fields_size: Uleb128(0),
        direct_methods_size: Uleb128(0),
        virtual_methods_size: Uleb128(0),
        static_fields: vec![],
        instance_fields: vec![],
        direct_methods: vec![],
        virtual_methods: vec![],
    };
    let data = ClassData::resolve_from(&empty, &r.dex_file).unwrap();
    assert!(data.static_fields.is_empty() && data.virtual_methods.is_empty());
    let one_field = ClassDataItem {
        static_fields_size: Uleb128(1),
        static_fields: vec![EncodedField { field_idx_diff: Uleb128(0), access_flags: Uleb128(8) }],
        ..empty
    };
    assert_eq!(ClassData::resolve_from(&one_field, &r.dex_file), Err(ParseError::OutOfBounds));
}

#[test]
fn header_and_map_list_parse() {
    let mut p = FileParser::new(file_with_class());
    let h = Header::parse(&mut p).unwrap();
    assert_eq!(h.map_off, 168);
    assert_eq!(h.endian_tag, EndianConstant::EndianConstant);
    p.set_offset(168).unwrap();
    let m = MapList::parse(&mut p).unwrap();
    assert_eq!(m.size, 18);
    assert_eq!(m.item(TypeCode::StringIdItem).unwrap().offset, 112);
    assert_eq!(m.count(TypeCode::HeaderItem), 1);
}

#[test]
fn string_offset_inside_header_is_refused() {
    let mut b = file_with_class();
    put32(&mut b, 112, 100);
    let mut p = FileParser::new(b);
    assert!(matches!(p.parse_file(), Err(ParseError::OutOfBounds)));
}

#[test]
fn type_index_past_strings_is_refused() {
    let mut b = file_with_class();
    put32(&mut b, 120, 2);
    let mut p = FileParser::new(b);
    assert!(matches!(p.parse_file(), Err(ParseError::OutOfBounds)));
}

#[test]
fn superclass_may_be_absent() {
    let mut b = file_with_class();
    put32(&mut b, 132, 0xffff_ffff);
    let r = Resolver::new(FileParser::new(b)).unwrap();
    assert_eq!(r.dex_file().class_defs[0].superclass_idx.get(), None);
    assert!(r.dex_file().debug_info.is_empty());
}
