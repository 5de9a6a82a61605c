//! The reverse map of the opcode table, from value to opcode.

use vstd::prelude::*;

use crate::bytecode::opcode::{
    lemma_value_lookup_round_trip, spec_all, spec_from_value, spec_info, spec_odex_only, spec_opcode_at, Opcode,
    OPCODE_COUNT,
};

verus! {

/// The reverse map of the opcode table in one mode: each value that names an
/// opcode, to that opcode.
pub open spec fn spec_value_map(odex: bool) -> Map<u16, Opcode> {
    Map::new(|v: u16| spec_from_value(v, odex) is Some, |v: u16| spec_from_value(v, odex)->Some_0)
}

/// Largest value that names an opcode.
pub const MAX_OPCODE_VALUE: u32 = 0x300;

proof fn lemma_no_opcode_above(k: u16, odex: bool)
    requires
        k > MAX_OPCODE_VALUE,
    ensures
        spec_from_value(k, odex) is None,
{
}

impl Opcode {
    /// Builds the reverse map from value to opcode for one mode.
    pub fn gen_value_map(odex: bool) -> (r: std::collections::HashMap<u16, Opcode>)
        ensures
            r@ == spec_value_map(odex),
    {
        broadcast use vstd::std_specs::hash::group_hash_axioms;

        let mut map: std::collections::HashMap<u16, Opcode> = std::collections::HashMap::new();
        let mut v: u32 = 0;
        while v <= MAX_OPCODE_VALUE
            invariant
                v <= MAX_OPCODE_VALUE + 1,
                map@ == Map::new(
                    |k: u16| (k as u32) < v && spec_from_value(k, odex) is Some,
                    |k: u16| spec_from_value(k, odex)->Some_0,
                ),
            decreases MAX_OPCODE_VALUE + 1 - v,
        {
            match Opcode::from_value(v as u16, odex) {
                Some(op) => {
                    map.insert(v as u16, op);
                },
                None => {},
            }
            assert(map@ =~= Map::new(
                |k: u16| (k as u32) < v + 1 && spec_from_value(k, odex) is Some,
                |k: u16| spec_from_value(k, odex)->Some_0,
            ));
            v = v + 1;
        }
        assert forall|k: u16| spec_from_value(k, odex) is Some implies (k as u32) < v by {
            if k as u32 > MAX_OPCODE_VALUE {
                lemma_no_opcode_above(k, odex);
            }
        }
        assert(map@ =~= spec_value_map(odex));
        map
    }
}

/// The payload pseudo-opcodes are exactly those whose value does not fit one
/// byte, and no opcode has a format without an operand layout.
#[verifier::rlimit(100)]
pub proof fn lemma_payload_iff_wide(op: Opcode)
    ensures
        spec_info(op).format.spec_payload() <==> spec_info(op).value >= 0x100,
        spec_info(op).value <= MAX_OPCODE_VALUE,
        !(spec_info(op).format is UnresolvedOdexInstruction),
{
    match op {
        Opcode::Nop => {},
        Opcode::Move => {},
        Opcode::MoveFrom16 => {},
        Opcode::Move16 => {},
        Opcode::MoveWide => {},
        Opcode::MoveWideFrom16 => {},
        Opcode::MoveWide16 => {},
        Opcode::MoveObject => {},
        Opcode::MoveObjectFrom16 => {},
        Opcode::MoveObject16 => {},
        Opcode::MoveResult => {},
        Opcode::MoveResultWide => {},
        Opcode::MoveResultObject => {},
        Opcode::MoveException => {},
        Opcode::ReturnVoid => {},
        Opcode::Return => {},
        Opcode::ReturnWide => {},
        Opcode::ReturnObject => {},
        Opcode::Const4 => {},
        Opcode::Const16 => {},
        Opcode::CONST => {},
        Opcode::ConstHigh16 => {},
        Opcode::ConstWide16 => {},
        Opcode::ConstWide32 => {},
        Opcode::ConstWide => {},
        Opcode::ConstWideHigh16 => {},
        Opcode::ConstString => {},
        Opcode::ConstStringJumbo => {},
        Opcode::ConstClass => {},
        Opcode::MonitorEnter => {},
        Opcode::MonitorExit => {},
        Opcode::CheckCast => {},
        Opcode::InstanceOf => {},
        Opcode::ArrayLength => {},
        Opcode::NewInstance => {},
        Opcode::NewArray => {},
        Opcode::FilledNewArray => {},
        Opcode::FilledNewArrayRange => {},
        Opcode::FillArrayData => {},
        Opcode::THROW => {},
        Opcode::GOTO => {},
        Opcode::Goto16 => {},
        Opcode::Goto32 => {},
        Opcode::PackedSwitch => {},
        Opcode::SparseSwitch => {},
        Opcode::CmplFloat => {},
        Opcode::CmpgFloat => {},
        Opcode::CmplDouble => {},
        Opcode::CmpgDouble => {},
        Opcode::CmpLong => {},
        Opcode::IfEq => {},
        Opcode::IfNe => {},
        Opcode::IfLt => {},
        Opcode::IfGe => {},
        Opcode::IfGt => {},
        Opcode::IfLe => {},
        Opcode::IfEqz => {},
        Opcode::IfNez => {},
        Opcode::IfLtz => {},
        Opcode::IfGez => {},
        Opcode::IfGtz => {},
        Opcode::IfLez => {},
        Opcode::AGET => {},
        Opcode::AgetWide => {},
        Opcode::AgetObject => {},
        Opcode::AgetBoolean => {},
        Opcode::AgetByte => {},
        Opcode::AgetChar => {},
        Opcode::AgetShort => {},
        Opcode::APUT => {},
        Opcode::AputWide => {},
        Opcode::AputObject => {},
        Opcode::AputBoolean => {},
        Opcode::AputByte => {},
        Opcode::AputChar => {},
        Opcode::AputShort => {},
        Opcode::IGET => {},
        Opcode::IgetWide => {},
        Opcode::IgetObject => {},
        Opcode::IgetBoolean => {},
        Opcode::IgetByte => {},
        Opcode::IgetChar => {},
        Opcode::IgetShort => {},
        Opcode::IPUT => {},
        Opcode::IputWide => {},
        Opcode::IputObject => {},
        Opcode::IputBoolean => {},
        Opcode::IputByte => {},
        Opcode::IputChar => {},
        Opcode::IputShort => {},
        Opcode::SGET => {},
        Opcode::SgetWide => {},
        Opcode::SgetObject => {},
        Opcode::SgetBoolean => {},
        Opcode::SgetByte => {},
        Opcode::SgetChar => {},
        Opcode::SgetShort => {},
        Opcode::SPUT => {},
        Opcode::SputWide => {},
        Opcode::SputObject => {},
        Opcode::SputBoolean => {},
        Opcode::SputByte => {},
        Opcode::SputChar => {},
        Opcode::SputShort => {},
        Opcode::InvokeVirtual => {},
        Opcode::InvokeSuper => {},
        Opcode::InvokeDirect => {},
        Opcode::InvokeStatic => {},
        Opcode::InvokeInterface => {},
        Opcode::InvokeVirtualRange => {},
        Opcode::InvokeSuperRange => {},
        Opcode::InvokeDirectRange => {},
        Opcode::InvokeStaticRange => {},
        Opcode::InvokeInterfaceRange => {},
        Opcode::NegInt => {},
        Opcode::NotInt => {},
        Opcode::NegLong => {},
        Opcode::NotLong => {},
        Opcode::NegFloat => {},
        Opcode::NegDouble => {},
        Opcode::IntToLong => {},
        Opcode::IntToFloat => {},
        Opcode::IntToDouble => {},
        Opcode::LongToInt => {},
        Opcode::LongToFloat => {},
        Opcode::LongToDouble => {},
        Opcode::FloatToInt => {},
        Opcode::FloatToLong => {},
        Opcode::FloatToDouble => {},
        Opcode::DoubleToInt => {},
        Opcode::DoubleToLong => {},
        Opcode::DoubleToFloat => {},
        Opcode::IntToByte => {},
        Opcode::IntToChar => {},
        Opcode::IntToShort => {},
        Opcode::AddInt => {},
        Opcode::SubInt => {},
        Opcode::MulInt => {},
        Opcode::DivInt => {},
        Opcode::RemInt => {},
        Opcode::AndInt => {},
        Opcode::OrInt => {},
        Opcode::XorInt => {},
        Opcode::ShlInt => {},
        Opcode::ShrInt => {},
        Opcode::UshrInt => {},
        Opcode::AddLong => {},
        Opcode::SubLong => {},
        Opcode::MulLong => {},
        Opcode::DivLong => {},
        Opcode::RemLong => {},
        Opcode::AndLong => {},
        Opcode::OrLong => {},
        Opcode::XorLong => {},
        Opcode::ShlLong => {},
        Opcode::ShrLong => {},
        Opcode::UshrLong => {},
        Opcode::AddFloat => {},
        Opcode::SubFloat => {},
        Opcode::MulFloat => {},
        Opcode::DivFloat => {},
        Opcode::RemFloat => {},
        Opcode::AddDouble => {},
        Opcode::SubDouble => {},
        Opcode::MulDouble => {},
        Opcode::DivDouble => {},
        Opcode::RemDouble => {},
        Opcode::AddInt2addr => {},
        Opcode::SubInt2addr => {},
        Opcode::MulInt2addr => {},
        Opcode::DivInt2addr => {},
        Opcode::RemInt2addr => {},
        Opcode::AndInt2addr => {},
        Opcode::OrInt2addr => {},
        Opcode::XorInt2addr => {},
        Opcode::ShlInt2addr => {},
        Opcode::ShrInt2addr => {},
        Opcode::UshrInt2addr => {},
        Opcode::AddLong2addr => {},
        Opcode::SubLong2addr => {},
        Opcode::MulLong2addr => {},
        Opcode::DivLong2addr => {},
        Opcode::RemLong2addr => {},
        Opcode::AndLong2addr => {},
        Opcode::OrLong2addr => {},
        Opcode::XorLong2addr => {},
        Opcode::ShlLong2addr => {},
        Opcode::ShrLong2addr => {},
        Opcode::UshrLong2addr => {},
        Opcode::AddFloat2addr => {},
        Opcode::SubFloat2addr => {},
        Opcode::MulFloat2addr => {},
        Opcode::DivFloat2addr => {},
        Opcode::RemFloat2addr => {},
        Opcode::AddDouble2addr => {},
        Opcode::SubDouble2addr => {},
        Opcode::MulDouble2addr => {},
        Opcode::DivDouble2addr => {},
        Opcode::RemDouble2addr => {},
        Opcode::AddIntLit16 => {},
        Opcode::RsubInt => {},
        Opcode::MulIntLit16 => {},
        Opcode::DivIntLit16 => {},
        Opcode::RemIntLit16 => {},
        Opcode::AndIntLit16 => {},
        Opcode::OrIntLit16 => {},
        Opcode::XorIntLit16 => {},
        Opcode::AddIntLit8 => {},
        Opcode::RsubIntLit8 => {},
        Opcode::MulIntLit8 => {},
        Opcode::DivIntLit8 => {},
        Opcode::RemIntLit8 => {},
        Opcode::AndIntLit8 => {},
        Opcode::OrIntLit8 => {},
        Opcode::XorIntLit8 => {},
        Opcode::ShlIntLit8 => {},
        Opcode::ShrIntLit8 => {},
        Opcode::UshrIntLit8 => {},
        Opcode::IgetVolatile => {},
        Opcode::IputVolatile => {},
        Opcode::SgetVolatile => {},
        Opcode::SputVolatile => {},
        Opcode::IgetObjectVolatile => {},
        Opcode::IgetWideVolatile => {},
        Opcode::IputWideVolatile => {},
        Opcode::SgetWideVolatile => {},
        Opcode::SputWideVolatile => {},
        Opcode::ThrowVerificationError => {},
        Opcode::ExecuteInline => {},
        Opcode::ExecuteInlineRange => {},
        Opcode::InvokeObjectInitRange => {},
        Opcode::ReturnVoidNoBarrier => {},
        Opcode::InvokeSuperQuick => {},
        Opcode::InvokeSuperQuickRange => {},
        Opcode::IputObjectVolatile => {},
        Opcode::SgetObjectVolatile => {},
        Opcode::SputObjectVolatile => {},
        Opcode::PackedSwitchPayload => {},
        Opcode::SparseSwitchPayload => {},
        Opcode::ArrayPayload => {},
        Opcode::InvokePolymorphic => {},
        Opcode::InvokePolymorphicRange => {},
        Opcode::InvokeCustom => {},
        Opcode::InvokeCustomRange => {},
        Opcode::ConstMethodHandle => {},
        Opcode::ConstMethodType => {},
    }
}

/// Where `op` stands in the catalogue.
pub open spec fn catalogue_index(op: Opcode) -> int {
    match op {
        Opcode::Nop => 0,
        Opcode::Move => 1,
        Opcode::MoveFrom16 => 2,
        Opcode::Move16 => 3,
        Opcode::MoveWide => 4,
        Opcode::MoveWideFrom16 => 5,
        Opcode::MoveWide16 => 6,
        Opcode::MoveObject => 7,
        Opcode::MoveObjectFrom16 => 8,
        Opcode::MoveObject16 => 9,
        Opcode::MoveResult => 10,
        Opcode::MoveResultWide => 11,
        Opcode::MoveResultObject => 12,
        Opcode::MoveException => 13,
        Opcode::ReturnVoid => 14,
        Opcode::Return => 15,
        Opcode::ReturnWide => 16,
        Opcode::ReturnObject => 17,
        Opcode::Const4 => 18,
        Opcode::Const16 => 19,
        Opcode::CONST => 20,
        Opcode::ConstHigh16 => 21,
        Opcode::ConstWide16 => 22,
        Opcode::ConstWide32 => 23,
        Opcode::ConstWide => 24,
        Opcode::ConstWideHigh16 => 25,
        Opcode::ConstString => 26,
        Opcode::ConstStringJumbo => 27,
        Opcode::ConstClass => 28,
        Opcode::MonitorEnter => 29,
        Opcode::MonitorExit => 30,
        Opcode::CheckCast => 31,
        Opcode::InstanceOf => 32,
        Opcode::ArrayLength => 33,
        Opcode::NewInstance => 34,
        Opcode::NewArray => 35,
        Opcode::FilledNewArray => 36,
        Opcode::FilledNewArrayRange => 37,
        Opcode::FillArrayData => 38,
        Opcode::THROW => 39,
        Opcode::GOTO => 40,
        Opcode::Goto16 => 41,
        Opcode::Goto32 => 42,
        Opcode::PackedSwitch => 43,
        Opcode::SparseSwitch => 44,
        Opcode::CmplFloat => 45,
        Opcode::CmpgFloat => 46,
        Opcode::CmplDouble => 47,
        Opcode::CmpgDouble => 48,
        Opcode::CmpLong => 49,
        Opcode::IfEq => 50,
        Opcode::IfNe => 51,
        Opcode::IfLt => 52,
        Opcode::IfGe => 53,
        Opcode::IfGt => 54,
        Opcode::IfLe => 55,
        Opcode::IfEqz => 56,
        Opcode::IfNez => 57,
        Opcode::IfLtz => 58,
        Opcode::IfGez => 59,
        Opcode::IfGtz => 60,
        Opcode::IfLez => 61,
        Opcode::AGET => 62,
        Opcode::AgetWide => 63,
        Opcode::AgetObject => 64,
        Opcode::AgetBoolean => 65,
        Opcode::AgetByte => 66,
        Opcode::AgetChar => 67,
        Opcode::AgetShort => 68,
        Opcode::APUT => 69,
        Opcode::AputWide => 70,
        Opcode::AputObject => 71,
        Opcode::AputBoolean => 72,
        Opcode::AputByte => 73,
        Opcode::AputChar => 74,
        Opcode::AputShort => 75,
        Opcode::IGET => 76,
        Opcode::IgetWide => 77,
        Opcode::IgetObject => 78,
        Opcode::IgetBoolean => 79,
        Opcode::IgetByte => 80,
        Opcode::IgetChar => 81,
        Opcode::IgetShort => 82,
        Opcode::IPUT => 83,
        Opcode::IputWide => 84,
        Opcode::IputObject => 85,
        Opcode::IputBoolean => 86,
        Opcode::IputByte => 87,
        Opcode::IputChar => 88,
        Opcode::IputShort => 89,
        Opcode::SGET => 90,
        Opcode::SgetWide => 91,
        Opcode::SgetObject => 92,
        Opcode::SgetBoolean => 93,
        Opcode::SgetByte => 94,
        Opcode::SgetChar => 95,
        Opcode::SgetShort => 96,
        Opcode::SPUT => 97,
        Opcode::SputWide => 98,
        Opcode::SputObject => 99,
        Opcode::SputBoolean => 100,
        Opcode::SputByte => 101,
        Opcode::SputChar => 102,
        Opcode::SputShort => 103,
        Opcode::InvokeVirtual => 104,
        Opcode::InvokeSuper => 105,
        Opcode::InvokeDirect => 106,
        Opcode::InvokeStatic => 107,
        Opcode::InvokeInterface => 108,
        Opcode::InvokeVirtualRange => 109,
        Opcode::InvokeSuperRange => 110,
        Opcode::InvokeDirectRange => 111,
        Opcode::InvokeStaticRange => 112,
        Opcode::InvokeInterfaceRange => 113,
        Opcode::NegInt => 114,
        Opcode::NotInt => 115,
        Opcode::NegLong => 116,
        Opcode::NotLong => 117,
        Opcode::NegFloat => 118,
        Opcode::NegDouble => 119,
        Opcode::IntToLong => 120,
        Opcode::IntToFloat => 121,
        Opcode::IntToDouble => 122,
        Opcode::LongToInt => 123,
        Opcode::LongToFloat => 124,
        Opcode::LongToDouble => 125,
        Opcode::FloatToInt => 126,
        Opcode::FloatToLong => 127,
        Opcode::FloatToDouble => 128,
        Opcode::DoubleToInt => 129,
        Opcode::DoubleToLong => 130,
        Opcode::DoubleToFloat => 131,
        Opcode::IntToByte => 132,
        Opcode::IntToChar => 133,
        Opcode::IntToShort => 134,
        Opcode::AddInt => 135,
        Opcode::SubInt => 136,
        Opcode::MulInt => 137,
        Opcode::DivInt => 138,
        Opcode::RemInt => 139,
        Opcode::AndInt => 140,
        Opcode::OrInt => 141,
        Opcode::XorInt => 142,
        Opcode::ShlInt => 143,
        Opcode::ShrInt => 144,
        Opcode::UshrInt => 145,
        Opcode::AddLong => 146,
        Opcode::SubLong => 147,
        Opcode::MulLong => 148,
        Opcode::DivLong => 149,
        Opcode::RemLong => 150,
        Opcode::AndLong => 151,
        Opcode::OrLong => 152,
        Opcode::XorLong => 153,
        Opcode::ShlLong => 154,
        Opcode::ShrLong => 155,
        Opcode::UshrLong => 156,
        Opcode::AddFloat => 157,
        Opcode::SubFloat => 158,
        Opcode::MulFloat => 159,
        Opcode::DivFloat => 160,
        Opcode::RemFloat => 161,
        Opcode::AddDouble => 162,
        Opcode::SubDouble => 163,
        Opcode::MulDouble => 164,
        Opcode::DivDouble => 165,
        Opcode::RemDouble => 166,
        Opcode::AddInt2addr => 167,
        Opcode::SubInt2addr => 168,
        Opcode::MulInt2addr => 169,
        Opcode::DivInt2addr => 170,
        Opcode::RemInt2addr => 171,
        Opcode::AndInt2addr => 172,
        Opcode::OrInt2addr => 173,
        Opcode::XorInt2addr => 174,
        Opcode::ShlInt2addr => 175,
        Opcode::ShrInt2addr => 176,
        Opcode::UshrInt2addr => 177,
        Opcode::AddLong2addr => 178,
        Opcode::SubLong2addr => 179,
        Opcode::MulLong2addr => 180,
        Opcode::DivLong2addr => 181,
        Opcode::RemLong2addr => 182,
        Opcode::AndLong2addr => 183,
        Opcode::OrLong2addr => 184,
        Opcode::XorLong2addr => 185,
        Opcode::ShlLong2addr => 186,
        Opcode::ShrLong2addr => 187,
        Opcode::UshrLong2addr => 188,
        Opcode::AddFloat2addr => 189,
        Opcode::SubFloat2addr => 190,
        Opcode::MulFloat2addr => 191,
        Opcode::DivFloat2addr => 192,
        Opcode::RemFloat2addr => 193,
        Opcode::AddDouble2addr => 194,
        Opcode::SubDouble2addr => 195,
        Opcode::MulDouble2addr => 196,
        Opcode::DivDouble2addr => 197,
        Opcode::RemDouble2addr => 198,
        Opcode::AddIntLit16 => 199,
        Opcode::RsubInt => 200,
        Opcode::MulIntLit16 => 201,
        Opcode::DivIntLit16 => 202,
        Opcode::RemIntLit16 => 203,
        Opcode::AndIntLit16 => 204,
        Opcode::OrIntLit16 => 205,
        Opcode::XorIntLit16 => 206,
        Opcode::AddIntLit8 => 207,
        Opcode::RsubIntLit8 => 208,
        Opcode::MulIntLit8 => 209,
        Opcode::DivIntLit8 => 210,
        Opcode::RemIntLit8 => 211,
        Opcode::AndIntLit8 => 212,
        Opcode::OrIntLit8 => 213,
        Opcode::XorIntLit8 => 214,
        Opcode::ShlIntLit8 => 215,
        Opcode::ShrIntLit8 => 216,
        Opcode::UshrIntLit8 => 217,
        Opcode::IgetVolatile => 218,
        Opcode::IputVolatile => 219,
        Opcode::SgetVolatile => 220,
        Opcode::SputVolatile => 221,
        Opcode::IgetObjectVolatile => 222,
        Opcode::IgetWideVolatile => 223,
        Opcode::IputWideVolatile => 224,
        Opcode::SgetWideVolatile => 225,
        Opcode::SputWideVolatile => 226,
        Opcode::ThrowVerificationError => 227,
        Opcode::ExecuteInline => 228,
        Opcode::ExecuteInlineRange => 229,
        Opcode::InvokeObjectInitRange => 230,
        Opcode::ReturnVoidNoBarrier => 231,
        Opcode::InvokeSuperQuick => 232,
        Opcode::InvokeSuperQuickRange => 233,
        Opcode::IputObjectVolatile => 234,
        Opcode::SgetObjectVolatile => 235,
        Opcode::SputObjectVolatile => 236,
        Opcode::PackedSwitchPayload => 237,
        Opcode::SparseSwitchPayload => 238,
        Opcode::ArrayPayload => 239,
        Opcode::InvokePolymorphic => 240,
        Opcode::InvokePolymorphicRange => 241,
        Opcode::InvokeCustom => 242,
        Opcode::InvokeCustomRange => 243,
        Opcode::ConstMethodHandle => 244,
        Opcode::ConstMethodType => 245,
    }
}

/// The catalogue position of the opcode at position `i` is `i`.
#[verifier::rlimit(100)]
proof fn lemma_catalogue_index(i: usize)
    requires
        i < OPCODE_COUNT,
    ensures
        catalogue_index(spec_opcode_at(i)) == i,
{
    match i {
        0 => {},
        1 => {},
        2 => {},
        3 => {},
        4 => {},
        5 => {},
        6 => {},
        7 => {},
        8 => {},
        9 => {},
        10 => {},
        11 => {},
        12 => {},
        13 => {},
        14 => {},
        15 => {},
        16 => {},
        17 => {},
        18 => {},
        19 => {},
        20 => {},
        21 => {},
        22 => {},
        23 => {},
        24 => {},
        25 => {},
        26 => {},
        27 => {},
        28 => {},
        29 => {},
        30 => {},
        31 => {},
        32 => {},
        33 => {},
        34 => {},
        35 => {},
        36 => {},
        37 => {},
        38 => {},
        39 => {},
        40 => {},
        41 => {},
        42 => {},
        43 => {},
        44 => {},
        45 => {},
        46 => {},
        47 => {},
        48 => {},
        49 => {},
        50 => {},
        51 => {},
        52 => {},
        53 => {},
        54 => {},
        55 => {},
        56 => {},
        57 => {},
        58 => {},
        59 => {},
        60 => {},
        61 => {},
        62 => {},
        63 => {},
        64 => {},
        65 => {},
        66 => {},
        67 => {},
        68 => {},
        69 => {},
        70 => {},
        71 => {},
        72 => {},
        73 => {},
        74 => {},
        75 => {},
        76 => {},
        77 => {},
        78 => {},
        79 => {},
        80 => {},
        81 => {},
        82 => {},
        83 => {},
        84 => {},
        85 => {},
        86 => {},
        87 => {},
        88 => {},
        89 => {},
        90 => {},
        91 => {},
        92 => {},
        93 => {},
        94 => {},
        95 => {},
        96 => {},
        97 => {},
        98 => {},
        99 => {},
        100 => {},
        101 => {},
        102 => {},
        103 => {},
        104 => {},
        105 => {},
        106 => {},
        107 => {},
        108 => {},
        109 => {},
        110 => {},
        111 => {},
        112 => {},
        113 => {},
        114 => {},
        115 => {},
        116 => {},
        117 => {},
        118 => {},
        119 => {},
        120 => {},
        121 => {},
        122 => {},
        123 => {},
        124 => {},
        125 => {},
        126 => {},
        127 => {},
        128 => {},
        129 => {},
        130 => {},
        131 => {},
        132 => {},
        133 => {},
        134 => {},
        135 => {},
        136 => {},
        137 => {},
        138 => {},
        139 => {},
        140 => {},
        141 => {},
        142 => {},
        143 => {},
        144 => {},
        145 => {},
        146 => {},
        147 => {},
        148 => {},
        149 => {},
        150 => {},
        151 => {},
        152 => {},
        153 => {},
        154 => {},
        155 => {},
        156 => {},
        157 => {},
        158 => {},
        159 => {},
        160 => {},
        161 => {},
        162 => {},
        163 => {},
        164 => {},
        165 => {},
        166 => {},
        167 => {},
        168 => {},
        169 => {},
        170 => {},
        171 => {},
        172 => {},
        173 => {},
        174 => {},
        175 => {},
        176 => {},
        177 => {},
        178 => {},
        179 => {},
        180 => {},
        181 => {},
        182 => {},
        183 => {},
        184 => {},
        185 => {},
        186 => {},
        187 => {},
        188 => {},
        189 => {},
        190 => {},
        191 => {},
        192 => {},
        193 => {},
        194 => {},
        195 => {},
        196 => {},
        197 => {},
        198 => {},
        199 => {},
        200 => {},
        201 => {},
        202 => {},
        203 => {},
        204 => {},
        205 => {},
        206 => {},
        207 => {},
        208 => {},
        209 => {},
        210 => {},
        211 => {},
        212 => {},
        213 => {},
        214 => {},
        215 => {},
        216 => {},
        217 => {},
        218 => {},
        219 => {},
        220 => {},
        221 => {},
        222 => {},
        223 => {},
        224 => {},
        225 => {},
        226 => {},
        227 => {},
        228 => {},
        229 => {},
        230 => {},
        231 => {},
        232 => {},
        233 => {},
        234 => {},
        235 => {},
        236 => {},
        237 => {},
        238 => {},
        239 => {},
        240 => {},
        241 => {},
        242 => {},
        243 => {},
        244 => {},
        _ => {},
    }
}

/// Two different opcodes share a value only when exactly one of them is an
/// optimized (ODEX) opcode.
pub proof fn lemma_shared_value_modes(a: Opcode, b: Opcode)
    requires
        a != b,
        spec_info(a).value == spec_info(b).value,
    ensures
        spec_odex_only(a) != spec_odex_only(b),
{
    lemma_value_lookup_round_trip(a);
    lemma_value_lookup_round_trip(b);
}

/// In the catalogue, two entries with the same value are one optimized
/// (ODEX) opcode and one standard opcode.
pub proof fn lemma_catalogue_shared_values(i: int, j: int)
    requires
        0 <= i < j < spec_all().len(),
        spec_info(spec_all()[i]).value == spec_info(spec_all()[j]).value,
    ensures
        spec_odex_only(spec_all()[i]) != spec_odex_only(spec_all()[j]),
{
    lemma_catalogue_index(i as usize);
    lemma_catalogue_index(j as usize);
    lemma_shared_value_modes(spec_all()[i], spec_all()[j]);
}

} // verus!
