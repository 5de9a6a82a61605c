use dexfile::bytecode::format::Format;
use dexfile::bytecode::instruction::Instruction;
use dexfile::bytecode::opcode::Opcode;
use dexfile::parser::parse::{Sleb128, Uleb128};
use dexfile::parser::{DecodeMode, FileParser, ParseError};
use dexfile::types::header::Header;
use dexfile::types::id::{absolute_indices, ClassDataItem, ClassDefItem, DebugInfoItem, HiddenapiClassDataItem, StringDataItem};
use dexfile::types::map::TypeCode;
use dexfile::types::value::EncodedValue;
use dexfile::parser::parse::{Decode, Parse};

fn parser(bytes: &[u8]) -> FileParser {
    FileParser::new(bytes.to_vec())
}

#[test]
fn return_void_at_method_start() {
    let mut p = parser(&[0x0e, 0x00]);
    let ins = Instruction::parse(&mut p).unwrap();
    assert_eq!(ins, Instruction::Instruction10x(Opcode::ReturnVoid));
    assert_eq!(ins.opcode().format(), Format::Format10x);
    assert_eq!(p.get_offset(), 2);
}

#[test]
fn const4_nibble_split() {
    let mut p = parser(&[0x12, 0x34]);
    let ins = Instruction::parse(&mut p).unwrap();
    assert_eq!(ins, Instruction::Instruction11n(Opcode::Const4, (4, 3)));
}

#[test]
fn nop_takes_two_bytes() {
    let mut p = parser(&[0x00, 0x00]);
    let ins = Instruction::parse(&mut p).unwrap();
    assert_eq!(ins, Instruction::Instruction10x(Opcode::Nop));
    assert_eq!(p.get_offset(), 2);
}

#[test]
fn array_payload_without_pad() {
    let bytes = [0x00, 0x03, 0x02, 0x00, 0x04, 0x00, 0x00, 0x00, 0x61, 0x00, 0x62, 0x00, 0x63, 0x00, 0x64, 0x00];
    let mut p = parser(&bytes);
    let ins = Instruction::parse(&mut p).unwrap();
    assert_eq!(
        ins,
        Instruction::FillArrayDataPayload {
            element_width: 2,
            size: 4,
            data: vec![0x61, 0x00, 0x62, 0x00, 0x63, 0x00, 0x64, 0x00],
        }
    );
    assert_eq!(p.get_offset(), 16);
    assert_eq!(ins.code_units() * 2, 16);
}

#[test]
fn array_payload_with_pad() {
    let bytes = [0x00, 0x03, 0x01, 0x00, 0x03, 0x00, 0x00, 0x00, 0x0a, 0x0b, 0x0c, 0xff];
    let mut p = parser(&bytes);
    let ins = Instruction::parse(&mut p).unwrap();
    assert_eq!(ins, Instruction::FillArrayDataPayload { element_width: 1, size: 3, data: vec![0x0a, 0x0b, 0x0c] });
    assert_eq!(p.get_offset(), 12);
    assert_eq!(ins.code_units() * 2, 12);
}

#[test]
fn bytes_starting_00_01_are_a_packed_switch() {
    let bytes = [0x00, 0x01, 0x03, 0x00, 0x04, 0x00, 0x00, 0x00, 0x61, 0x00, 0x62, 0x00, 0x63, 0x00, 0x64, 0x00];
    let mut p = parser(&bytes);
    assert_eq!(Instruction::parse(&mut p), Err(ParseError::Truncation));
    let mut longer = bytes.to_vec();
    longer.extend_from_slice(&[0x05, 0x00, 0x00, 0x00]);
    let mut p = parser(&longer);
    let ins = Instruction::parse(&mut p).unwrap();
    assert_eq!(
        ins,
        Instruction::PackedSwitchPayload { size: 3, first_key: 4, targets: vec![0x0062_0061, 0x0064_0063, 5] }
    );
    assert_eq!(p.get_offset() as i64, ins.code_units() * 2);
}

#[test]
fn sparse_switch_payload() {
    let bytes = [0x00, 0x02, 0x01, 0x00, 0xff, 0xff, 0xff, 0xff, 0x10, 0x00, 0x00, 0x00];
    let mut p = parser(&bytes);
    let ins = Instruction::parse(&mut p).unwrap();
    assert_eq!(ins, Instruction::SparseSwitchPayload { size: 1, keys: vec![-1], targets: vec![16] });
    assert_eq!(p.get_offset() as i64, ins.code_units() * 2);
}

#[test]
fn advance_matches_format_size() {
    let stream = [
        0x1a, 0x01, 0x34, 0x12, // const-string v1, string@0x1234
        0x6e, 0x20, 0x07, 0x00, 0x21, 0x00, // invoke-virtual {v1, v2}, meth@7
        0x18, 0x02, 1, 2, 3, 4, 5, 6, 7, 8, // const-wide v2
        0x15, 0x00, 0x00, 0x80, // const/high16 v0, #0x80000000
        0x0e, 0x00, // return-void
    ];
    let mut p = parser(&stream);
    let mut units = 0;
    let mut decoded = Vec::new();
    while p.get_offset() < stream.len() {
        let before = p.get_offset();
        let ins = Instruction::parse(&mut p).unwrap();
        assert_eq!((p.get_offset() - before) as i64, ins.code_units() * 2);
        units += ins.code_units();
        decoded.push(ins);
    }
    assert_eq!(units * 2, stream.len() as i64);
    assert_eq!(decoded[0], Instruction::Instruction21c(Opcode::ConstString, (1, 0x1234)));
    assert_eq!(decoded[1], Instruction::Instruction35c(Opcode::InvokeVirtual, (0, 2, 7, 1, 2, 0, 0)));
    assert_eq!(decoded[2], Instruction::Instruction51l(Opcode::ConstWide, (2, 0x0807_0605_0403_0201)));
    assert_eq!(decoded[3], Instruction::Instruction21ih(Opcode::ConstHigh16, (0, 0x8000, i32::MIN)));
}

#[test]
fn const_wide_high16_constant() {
    let mut p = parser(&[0x19, 0x03, 0x00, 0x40]);
    let ins = Instruction::parse(&mut p).unwrap();
    assert_eq!(ins, Instruction::Instruction21lh(Opcode::ConstWideHigh16, (3, 0x4000, 0x4000_0000_0000_0000)));
}

#[test]
fn unknown_opcode_is_refused() {
    let mut p = parser(&[0x3e, 0x00]);
    assert_eq!(Instruction::parse(&mut p), Err(ParseError::UnknownOpcode(0x3e)));
    let mut p = parser(&[0x00, 0x05]);
    assert_eq!(Instruction::parse(&mut p), Err(ParseError::UnknownOpcode(0x0500)));
}

#[test]
fn odex_opcode_needs_odex_mode() {
    let bytes = [0xe3, 0x21, 0x05, 0x00];
    let mut p = parser(&bytes);
    assert_eq!(Instruction::parse(&mut p), Err(ParseError::UnknownOpcode(0xe3)));
    let mut p = FileParser::with_mode(bytes.to_vec(), DecodeMode { odex: true, strict_unused: true });
    assert_eq!(Instruction::parse(&mut p), Ok(Instruction::Instruction22c(Opcode::IgetVolatile, (1, 2, 5))));
}

#[test]
fn shared_values_follow_the_mode() {
    assert_eq!(Opcode::from_value(0xfa, false), Some(Opcode::InvokePolymorphic));
    assert_eq!(Opcode::from_value(0xfa, true), Some(Opcode::InvokeSuperQuick));
    assert_eq!(Opcode::from_value(0xf0, false), None);
    assert_eq!(Opcode::from_value(0xf0, true), Some(Opcode::InvokeObjectInitRange));
}

#[test]
fn unused_byte_strict_and_lenient() {
    let mut p = parser(&[0x0e, 0x01]);
    assert_eq!(Instruction::parse(&mut p), Err(ParseError::UnusedNonZero));
    let mut p = FileParser::with_mode(vec![0x0e, 0x01], DecodeMode { odex: false, strict_unused: false });
    assert_eq!(Instruction::parse(&mut p), Ok(Instruction::Instruction10x(Opcode::ReturnVoid)));
}

#[test]
fn truncated_instruction() {
    let mut p = parser(&[0x1a, 0x01, 0x34]);
    assert_eq!(Instruction::parse(&mut p), Err(ParseError::Truncation));
}

#[test]
fn opcode_value_round_trip() {
    let all = Opcode::all();
    assert_eq!(all.len(), 246);
    for op in all {
        let odex = op.flags().contains(dexfile::bytecode::opcode::ODEX_ONLY);
        assert_eq!(Opcode::from_value(op.value(), odex), Some(op), "{}", op.name());
    }
}

#[test]
fn reverse_map_per_mode() {
    let standard = Opcode::gen_value_map(false);
    let odex = Opcode::gen_value_map(true);
    assert_eq!(standard.get(&0x0e), Some(&Opcode::ReturnVoid));
    assert_eq!(standard.get(&0x0300), Some(&Opcode::ArrayPayload));
    assert_eq!(standard.get(&0xe3), None);
    assert_eq!(odex.get(&0xe3), Some(&Opcode::IgetVolatile));
    assert_eq!(odex.get(&0xfe), Some(&Opcode::SputObjectVolatile));
    assert_eq!(standard.get(&0xfe), Some(&Opcode::ConstMethodHandle));
}

#[test]
fn opcode_attributes() {
    assert_eq!(Opcode::ConstString.value(), 0x1a);
    assert_eq!(Opcode::ConstString.name(), "const-string");
    assert_eq!(Opcode::ConstString.format(), Format::Format21c);
    assert_eq!(Opcode::PackedSwitchPayload.value(), 0x0100);
    assert_eq!(Format::Format51l.size(), 5);
    assert_eq!(Format::ArrayPayload.size(), -1);
    assert!(Format::SparseSwitchPayload.payload());
    assert!(!Format::Format10x.payload());
    assert_eq!(Format::Format22cs.name(), "22cs");
}

#[test]
fn uleb128_three_bytes() {
    let mut p = parser(&[0xe5, 0x8e, 0x26]);
    assert_eq!(p.uleb128(), Ok(Uleb128(624485)));
    assert_eq!(p.get_offset(), 3);
}

#[test]
fn uleb128_longer_than_five_bytes() {
    let mut p = parser(&[0x80, 0x80, 0x80, 0x80, 0x80, 0x00]);
    assert_eq!(p.uleb128(), Err(ParseError::Leb128Overflow));
}

#[test]
fn uleb128_past_32_bits() {
    let mut p = parser(&[0xff, 0xff, 0xff, 0xff, 0x1f]);
    assert_eq!(p.uleb128(), Err(ParseError::Leb128Overflow));
    let mut p = parser(&[0xff, 0xff, 0xff, 0xff, 0x0f]);
    assert_eq!(p.uleb128(), Ok(Uleb128(u32::MAX)));
}

#[test]
fn uleb128_truncated() {
    let mut p = parser(&[0x80]);
    assert_eq!(p.uleb128(), Err(ParseError::Truncation));
}

#[test]
fn sleb128_zero_is_one_byte() {
    let mut p = parser(&[0x00]);
    assert_eq!(p.sleb128(), Ok(Sleb128(0)));
    assert_eq!(p.get_offset(), 1);
}

#[test]
fn sleb128_negative() {
    let mut p = parser(&[0x7f]);
    assert_eq!(p.sleb128(), Ok(Sleb128(-1)));
    let mut p = parser(&[0x80, 0x7f]);
    assert_eq!(p.sleb128(), Ok(Sleb128(-128)));
}

#[test]
fn mutf8_lone_zero_is_refused() {
    let mut p = parser(&[0x00]);
    assert_eq!(p.parse_string(1), Err(ParseError::BadUtf8 { value: 0, offset: 0 }));
}

#[test]
fn mutf8_two_byte_zero() {
    let mut p = parser(&[0xc0, 0x80]);
    assert_eq!(p.parse_mutf8(1), Ok(vec![0]));
    let mut p = parser(&[0xc0, 0x80]);
    let (raw, s) = p.parse_string(1).unwrap();
    assert_eq!(raw, vec![0xc0, 0x80]);
    assert_eq!(s, "\u{0}");
}

#[test]
fn mutf8_overlong_two_byte_is_refused() {
    let mut p = parser(&[0xc1, 0x80]);
    assert_eq!(p.parse_string(1), Err(ParseError::BadUtf8 { value: 0x80, offset: 1 }));
}

#[test]
fn mutf8_overlong_three_byte_is_refused() {
    let mut p = parser(&[0x41, 0xe0, 0x81, 0x80]);
    assert_eq!(p.parse_string(2), Err(ParseError::BadUtf8 { value: 0x80, offset: 3 }));
}

#[test]
fn mutf8_bad_continuation_is_refused() {
    let mut p = parser(&[0xe4, 0xb8, 0x41]);
    assert_eq!(p.parse_string(1), Err(ParseError::BadUtf8 { value: 0x41, offset: 2 }));
}

#[test]
fn mutf8_round_trip_of_mixed_forms() {
    let bytes = [0x41, 0xc3, 0xa9, 0xe4, 0xb8, 0xad, 0xed, 0xa0, 0xbd, 0xed, 0xb8, 0x80];
    let mut p = parser(&bytes);
    let units = p.parse_mutf8(5).unwrap();
    assert_eq!(units, vec![0x41, 0xe9, 0x4e2d, 0xd83d, 0xde00]);
    let mut again = Vec::new();
    for u in &units {
        let u = *u as u32;
        if (1..0x80).contains(&u) {
            again.push(u as u8);
        } else if u < 0x800 {
            again.push((0xc0 | (u >> 6)) as u8);
            again.push((0x80 | (u & 0x3f)) as u8);
        } else {
            again.push((0xe0 | (u >> 12)) as u8);
            again.push((0x80 | ((u >> 6) & 0x3f)) as u8);
            again.push((0x80 | (u & 0x3f)) as u8);
        }
    }
    assert_eq!(again, bytes.to_vec());
    let mut p = parser(&bytes);
    let (raw, s) = p.parse_string(5).unwrap();
    assert_eq!(raw, bytes.to_vec());
    assert_eq!(s, "Aé中😀");
}

#[test]
fn string_data_item_decodes() {
    let mut p = parser(&[0x02, 0x68, 0x69, 0x00]);
    let item = StringDataItem::decode(&mut p).unwrap();
    assert_eq!(item.size, Uleb128(2));
    assert_eq!(item.data, vec![0x68, 0x69]);
    assert_eq!(item.string, "hi");
}

#[test]
fn optional_offset_zero_is_absent() {
    let mut p = parser(&[0u8; 200]);
    assert_eq!(p.parse_with_offset::<u32>(0), Ok(None));
}

#[test]
fn optional_offset_inside_header_is_refused() {
    let mut p = parser(&[0u8; 200]);
    assert_eq!(p.parse_with_offset::<u32>(50), Err(ParseError::OutOfBounds));
    assert_eq!(p.parse_with_offset::<u32>(111), Err(ParseError::OutOfBounds));
    let mut bytes = vec![0u8; 200];
    bytes[112] = 7;
    let mut p = FileParser::new(bytes);
    assert_eq!(p.parse_with_offset::<u32>(112), Ok(Some(7)));
    assert_eq!(p.get_offset(), 0);
}

#[test]
fn no_index_source_file_is_absent() {
    let mut bytes = vec![0u8; 32];
    bytes[16..20].copy_from_slice(&[0xff, 0xff, 0xff, 0xff]);
    bytes[0] = 3;
    let mut p = FileParser::new(bytes);
    let item = ClassDefItem::parse(&mut p).unwrap();
    assert_eq!(item.source_file_idx.get(), None);
    assert_eq!(item.class_idx.get(), Some(3));
}

#[test]
fn encoded_byte_is_sign_extended() {
    let mut p = parser(&[0x00, 0xff]);
    assert_eq!(EncodedValue::parse(&mut p), Ok(EncodedValue::Byte(-1)));
}

#[test]
fn encoded_numbers_widen() {
    let mut p = parser(&[0x02, 0xfe]);
    assert_eq!(EncodedValue::parse(&mut p), Ok(EncodedValue::Short(-2)));
    let mut p = parser(&[0x03, 0xfe]);
    assert_eq!(EncodedValue::parse(&mut p), Ok(EncodedValue::Char(0xfe)));
    let mut p = parser(&[0x24, 0x00, 0x80]);
    assert_eq!(EncodedValue::parse(&mut p), Ok(EncodedValue::Int(-32768)));
    let mut p = parser(&[0xe6, 1, 2, 3, 4, 5, 6, 7, 0x80]);
    assert_eq!(EncodedValue::parse(&mut p), Ok(EncodedValue::Long(i64::from_le_bytes([1, 2, 3, 4, 5, 6, 7, 0x80]))));
    let mut p = parser(&[0x17, 0x05]);
    assert_eq!(EncodedValue::parse(&mut p), Ok(EncodedValue::Str(5)));
    let mut p = parser(&[0x3f]);
    assert_eq!(EncodedValue::parse(&mut p), Ok(EncodedValue::Boolean(true)));
    let mut p = parser(&[0x1e]);
    assert_eq!(EncodedValue::parse(&mut p), Ok(EncodedValue::Null));
}

#[test]
fn encoded_array_nested() {
    let mut p = parser(&[0x1c, 0x02, 0x00, 0x05, 0x1c, 0x01, 0x1f]);
    let v = EncodedValue::parse(&mut p).unwrap();
    match v {
        EncodedValue::Array(arr) => {
            assert_eq!(arr.size, Uleb128(2));
            assert_eq!(arr.values[0], EncodedValue::Byte(5));
            match &arr.values[1] {
                EncodedValue::Array(inner) => assert_eq!(inner.values, vec![EncodedValue::Boolean(false)]),
                other => panic!("unexpected {:?}", other),
            }
        },
        other => panic!("unexpected {:?}", other),
    }
    assert_eq!(p.get_offset(), 7);
}

#[test]
fn encoded_annotation_elements() {
    let mut p = parser(&[0x1d, 0x03, 0x01, 0x04, 0x04, 0x2a]);
    match EncodedValue::parse(&mut p).unwrap() {
        EncodedValue::Annotation(ann) => {
            assert_eq!(ann.type_idx, Uleb128(3));
            assert_eq!(ann.elements.len(), 1);
            assert_eq!(ann.elements[0].name_idx.index(), 4);
            assert_eq!(ann.elements[0].value, EncodedValue::Int(42));
        },
        other => panic!("unexpected {:?}", other),
    }
}

#[test]
fn encoded_value_bad_argument() {
    let mut p = parser(&[0x20, 0x00]);
    assert_eq!(EncodedValue::parse(&mut p), Err(ParseError::BadEncodedValue { value_type: 0, value_arg: 1 }));
    let mut p = parser(&[0x01]);
    assert_eq!(EncodedValue::parse(&mut p), Err(ParseError::BadEncodedValue { value_type: 1, value_arg: 0 }));
}

#[test]
fn header_version_from_magic() {
    let mut p = parser(&[0x64, 0x65, 0x78, 0x0a, 0x30, 0x33, 0x35, 0x00]);
    assert_eq!(Header::verify_header(&mut p), Ok(35));
}

#[test]
fn header_bad_magic_and_version() {
    let mut p = parser(&[0x64, 0x65, 0x79, 0x0a, 0x30, 0x33, 0x35, 0x00]);
    assert_eq!(Header::verify_header(&mut p), Err(ParseError::BadMagic));
    let mut p = parser(&[0x64, 0x65, 0x78, 0x0a, 0x30, 0x3a, 0x35, 0x00]);
    assert_eq!(Header::verify_header(&mut p), Err(ParseError::BadVersion));
}

#[test]
fn absolute_indices_from_deltas() {
    assert_eq!(absolute_indices(&vec![3, 1, 4]), Some(vec![3, 4, 8]));
    assert_eq!(absolute_indices(&vec![]), Some(vec![]));
    assert_eq!(absolute_indices(&vec![u32::MAX, 1]), None);
}

#[test]
fn type_codes() {
    assert_eq!(TypeCode::try_from(0x2001), Ok(TypeCode::CodeItem));
    assert_eq!(TypeCode::try_from(0x1234), Err(ParseError::BadTypeCode(0x1234)));
    assert_eq!(TypeCode::HiddenapiClassDataItem.code(), 0xf000);
}

#[test]
fn parse_error_constructors() {
    assert_eq!(ParseError::generic("x".to_string()), ParseError::GenericError("x".to_string()));
    assert_eq!(ParseError::bad_utf8(1, 2), ParseError::BadUtf8 { value: 1, offset: 2 });
}

#[test]
fn shared_values_pair_odex_with_standard() {
    let all = Opcode::all();
    for i in 0..all.len() {
        for j in i + 1..all.len() {
            if all[i].value() == all[j].value() {
                let a = all[i].flags().contains(dexfile::bytecode::opcode::ODEX_ONLY);
                let b = all[j].flags().contains(dexfile::bytecode::opcode::ODEX_ONLY);
                assert_ne!(a, b, "{} {}", all[i].name(), all[j].name());
            }
        }
    }
}

#[test]
fn class_data_repeated_index_is_refused() {
    let mut p = parser(&[0x02, 0x00, 0x00, 0x00, 0x05, 0x00, 0x00, 0x00]);
    assert_eq!(ClassDataItem::decode(&mut p), Err(ParseError::BadIndexOrder));
    let mut p = parser(&[0x02, 0x00, 0x00, 0x00, 0x05, 0x00, 0x01, 0x00]);
    let c = ClassDataItem::decode(&mut p).unwrap();
    assert_eq!(c.static_fields[1].field_idx_diff, Uleb128(1));
    assert_eq!(absolute_indices(&vec![5, 1]), Some(vec![5, 6]));
    let mut p = parser(&[0x00, 0x00, 0x02, 0x00, 0x00, 0x00, 0x00, 0x00, 0x00, 0x00]);
    assert_eq!(ClassDataItem::decode(&mut p), Err(ParseError::BadIndexOrder));
}

#[test]
fn cursor_stays_after_rejected_offset() {
    let mut p = parser(&[0u8; 200]);
    p.set_offset(7).unwrap();
    assert_eq!(p.parse_with_offset::<u32>(50), Err(ParseError::OutOfBounds));
    assert_eq!(p.get_offset(), 7);
    assert_eq!(p.parse_list_with_offset::<u32>(2, 60), Err(ParseError::OutOfBounds));
    assert_eq!(p.get_offset(), 7);
    assert_eq!(p.parse_with_offset::<u32>(198), Err(ParseError::Truncation));
    assert_eq!(p.get_offset(), 7);
    assert_eq!(p.parse_list_with_offset::<u32>(0, 0), Ok(None));
}

#[test]
fn debug_info_with_program() {
    let bytes = [0x01, 0x01, 0x00, 0x07, 0x01, 0x03, 0x02, 0x7f, 0x03, 0x01, 0x02, 0x03, 0x0e, 0x00, 0xaa];
    let mut p = parser(&bytes);
    let d = DebugInfoItem::decode(&mut p).unwrap();
    assert_eq!(d.line_start, Uleb128(1));
    assert_eq!(d.parameter_names, vec![Uleb128(0)]);
    assert_eq!(d.program, vec![0x07, 0x01, 0x03, 0x02, 0x7f, 0x03, 0x01, 0x02, 0x03, 0x0e, 0x00]);
    assert_eq!(p.get_offset(), 14);
    let mut p = parser(&bytes[..13]);
    assert_eq!(DebugInfoItem::decode(&mut p), Err(ParseError::Truncation));
}

#[test]
fn hiddenapi_flags_fill_the_item() {
    let bytes = [0x0e, 0x00, 0x00, 0x00, 0x0c, 0x00, 0x00, 0x00, 0x00, 0x00, 0x00, 0x00, 0x81, 0x01, 0x02];
    let mut p = parser(&bytes);
    let h = HiddenapiClassDataItem::parse(&mut p, 2).unwrap();
    assert_eq!(h.size, 14);
    assert_eq!(h.offsets, vec![12, 0]);
    assert_eq!(h.flags, vec![Uleb128(129)]);
    assert_eq!(p.get_offset(), 14);
    let mut overrun = bytes.to_vec();
    overrun[0] = 0x0d;
    let mut p = parser(&overrun);
    assert_eq!(HiddenapiClassDataItem::parse(&mut p, 2), Err(ParseError::OutOfBounds));
}
