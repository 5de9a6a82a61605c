//! The opcode table: every Dalvik opcode with its value, mnemonic, format,
//! reference kinds and flags, and the lookup from value to opcode.

use vstd::prelude::*;

use crate::bytecode::format::Format;

verus! {

/// Flag: the instruction can throw an exception.
pub const CAN_THROW: u32 = 0x1;

/// Flag: the instruction exists only in optimized (ODEX) files.
pub const ODEX_ONLY: u32 = 0x2;

/// Flag: execution can continue with the next instruction.
pub const CAN_CONTINUE: u32 = 0x4;

/// Flag: the instruction sets the hidden result register.
pub const SETS_RESULT: u32 = 0x8;

/// Flag: the instruction sets its first register.
pub const SETS_REGISTER: u32 = 0x10;

/// Flag: the instruction sets its first register to a wide value.
pub const SETS_WIDE_REGISTER: u32 = 0x20;

/// Flag: the instruction is a quick field accessor.
pub const QUICK_FIELD_ACCESSOR: u32 = 0x40;

/// Flag: the instruction is a volatile field accessor.
pub const VOLATILE_FIELD_ACCESSOR: u32 = 0x80;

/// Flag: the instruction is a static field accessor.
pub const STATIC_FIELD_ACCESSOR: u32 = 0x100;

/// Flag: the instruction is a jumbo instruction.
pub const JUMBO_OPCODE: u32 = 0x200;

/// Flag: the instruction can initialize an uninitialized object reference.
pub const CAN_INITIALIZE_REFERENCE: u32 = 0x400;

/// A set of opcode flags, one bit per flag.
#[derive(Debug, Clone, Copy, PartialEq, Eq, Structural, Hash)]
pub struct OpcodeFlags {
    pub bits: u32,
}

impl OpcodeFlags {
    /// Whether the single-bit flag `flag` is set.
    pub open spec fn spec_contains(self, flag: u32) -> bool {
        (self.bits / flag) % 2 == 1
    }

    /// Whether the single-bit flag `flag` is set.
    pub fn contains(&self, flag: u32) -> (r: bool)
        requires
            flag > 0,
        ensures
            r == self.spec_contains(flag),
    {
        (self.bits / flag) % 2 == 1
    }

    /// No flag set.
    pub fn empty() -> (r: OpcodeFlags)
        ensures
            r.bits == 0,
    {
        OpcodeFlags { bits: 0 }
    }
}

/// The table that an opcode's reference operand indexes.
#[derive(Debug, Clone, Copy, PartialEq, Eq, Structural, Hash)]
pub enum ReferenceType {
    String,
    Type,
    Field,
    Method,
    MethodProto,
    CallSite,
    MethodHandle,
    NoReference,
}

/// The attributes of an opcode.
pub struct OpcodeInfo {
    pub value: u16,
    pub format: Format,
    pub reference_type: ReferenceType,
    pub reference_type_2: ReferenceType,
    pub flags: u32,
}

/// A Dalvik opcode, standard or optimized (ODEX).
#[derive(Debug, Clone, Copy, PartialEq, Eq, Structural, PartialOrd, Ord, Hash)]
pub enum Opcode {
    /// Waste cycles.
    ///
    /// `nop`
    Nop,
    /// Move the contents of one non-object register to another.
    ///
    /// `move vA, vB`
    Move,
    /// Move the contents of one non-object register to another.
    ///
    /// `move/from16 vAA, vBBBB`
    MoveFrom16,
    /// Move the contents of one non-object register to another.
    ///
    /// `move/16 vAAAA, vBBBB`
    Move16,
    /// Move the contents of one register-pair to another.
    ///
    /// `move-wide vA, vB`
    MoveWide,
    /// Move the contents of one register-pair to another.
    ///
    /// `move-wide/from16 vAA, vBBBB`
    MoveWideFrom16,
    /// Move the contents of one register-pair to another.
    ///
    /// `move-wide/16 vAAAA, vBBBB`
    MoveWide16,
    /// Move the contents of one object-bearing register to another.
    ///
    /// `move-object vA, vB`
    MoveObject,
    /// Move the contents of one object-bearing register to another.
    ///
    /// `move-object/from16 vAA, vBBBB`
    MoveObjectFrom16,
    /// Move the contents of one object-bearing register to another.
    ///
    /// `move-object/16 vAAAA, vBBBB`
    MoveObject16,
    /// Move the single-word non-object result of the most recent invoke-kind into the indicated register. This must be done as the instruction immediately after an invoke-kind whose (single-word, non-object) result is not to be ignored; anywhere else is invalid.
    ///
    /// `move-result vAA`
    MoveResult,
    /// Move the double-word result of the most recent invoke-kind into the indicated register pair. This must be done as the instruction immediately after an invoke-kind whose (double-word) result is not to be ignored; anywhere else is invalid.
    ///
    /// `move-result-wide vAA`
    MoveResultWide,
    /// Move the object result of the most recent invoke-kind into the indicated register. This must be done as the instruction immediately after an invoke-kind or filled-new-array whose (object) result is not to be ignored; anywhere else is invalid.
    ///
    /// `move-result-object vAA`
    MoveResultObject,
    /// Save a just-caught exception into the given register. This must be the first instruction of any exception handler whose caught exception is not to be ignored, and this instruction must only ever occur as the first instruction of an exception handler; anywhere else is invalid.
    ///
    /// `move-exception vAA`
    MoveException,
    /// Return from a void method.
    ///
    /// `return-void`
    ReturnVoid,
    /// Return from a single-width (32-bit) non-object value-returning method.
    ///
    /// `return vAA`
    Return,
    /// Return from a double-width (64-bit) value-returning method.
    ///
    /// `return-wide vAA`
    ReturnWide,
    /// Return from an object-returning method.
    ///
    /// `return-object vAA`
    ReturnObject,
    /// Move the given literal value (sign-extended to 32 bits) into the specified register.
    ///
    /// `const/4 vA, #+B`
    Const4,
    /// Move the given literal value (sign-extended to 32 bits) into the specified register.
    ///
    /// `const/16 vAA, #+BBBB`
    Const16,
    ///
    CONST,
    ConstHigh16,
    ConstWide16,
    ConstWide32,
    ConstWide,
    ConstWideHigh16,
    ConstString,
    ConstStringJumbo,
    ConstClass,
    MonitorEnter,
    MonitorExit,
    CheckCast,
    InstanceOf,
    ArrayLength,
    NewInstance,
    NewArray,
    FilledNewArray,
    FilledNewArrayRange,
    FillArrayData,
    THROW,
    GOTO,
    Goto16,
    Goto32,
    PackedSwitch,
    SparseSwitch,
    CmplFloat,
    CmpgFloat,
    CmplDouble,
    CmpgDouble,
    CmpLong,
    IfEq,
    IfNe,
    IfLt,
    IfGe,
    IfGt,
    IfLe,
    IfEqz,
    IfNez,
    IfLtz,
    IfGez,
    IfGtz,
    IfLez,
    AGET,
    AgetWide,
    AgetObject,
    AgetBoolean,
    AgetByte,
    AgetChar,
    AgetShort,
    APUT,
    AputWide,
    AputObject,
    AputBoolean,
    AputByte,
    AputChar,
    AputShort,
    IGET,
    IgetWide,
    IgetObject,
    IgetBoolean,
    IgetByte,
    IgetChar,
    IgetShort,
    IPUT,
    IputWide,
    IputObject,
    IputBoolean,
    IputByte,
    IputChar,
    IputShort,
    SGET,
    SgetWide,
    SgetObject,
    SgetBoolean,
    SgetByte,
    SgetChar,
    SgetShort,
    SPUT,
    SputWide,
    SputObject,
    SputBoolean,
    SputByte,
    SputChar,
    SputShort,
    InvokeVirtual,
    InvokeSuper,
    InvokeDirect,
    InvokeStatic,
    InvokeInterface,
    InvokeVirtualRange,
    InvokeSuperRange,
    InvokeDirectRange,
    InvokeStaticRange,
    InvokeInterfaceRange,
    NegInt,
    NotInt,
    NegLong,
    NotLong,
    NegFloat,
    NegDouble,
    IntToLong,
    IntToFloat,
    IntToDouble,
    LongToInt,
    LongToFloat,
    LongToDouble,
    FloatToInt,
    FloatToLong,
    FloatToDouble,
    DoubleToInt,
    DoubleToLong,
    DoubleToFloat,
    IntToByte,
    IntToChar,
    IntToShort,
    AddInt,
    SubInt,
    MulInt,
    DivInt,
    RemInt,
    AndInt,
    OrInt,
    XorInt,
    ShlInt,
    ShrInt,
    UshrInt,
    AddLong,
    SubLong,
    MulLong,
    DivLong,
    RemLong,
    AndLong,
    OrLong,
    XorLong,
    ShlLong,
    ShrLong,
    UshrLong,
    AddFloat,
    SubFloat,
    MulFloat,
    DivFloat,
    RemFloat,
    AddDouble,
    SubDouble,
    MulDouble,
    DivDouble,
    RemDouble,
    AddInt2addr,
    SubInt2addr,
    MulInt2addr,
    DivInt2addr,
    RemInt2addr,
    AndInt2addr,
    OrInt2addr,
    XorInt2addr,
    ShlInt2addr,
    ShrInt2addr,
    UshrInt2addr,
    AddLong2addr,
    SubLong2addr,
    MulLong2addr,
    DivLong2addr,
    RemLong2addr,
    AndLong2addr,
    OrLong2addr,
    XorLong2addr,
    ShlLong2addr,
    ShrLong2addr,
    UshrLong2addr,
    AddFloat2addr,
    SubFloat2addr,
    MulFloat2addr,
    DivFloat2addr,
    RemFloat2addr,
    AddDouble2addr,
    SubDouble2addr,
    MulDouble2addr,
    DivDouble2addr,
    RemDouble2addr,
    AddIntLit16,
    RsubInt,
    MulIntLit16,
    DivIntLit16,
    RemIntLit16,
    AndIntLit16,
    OrIntLit16,
    XorIntLit16,
    AddIntLit8,
    RsubIntLit8,
    MulIntLit8,
    DivIntLit8,
    RemIntLit8,
    AndIntLit8,
    OrIntLit8,
    XorIntLit8,
    ShlIntLit8,
    ShrIntLit8,
    UshrIntLit8,
    IgetVolatile,
    IputVolatile,
    SgetVolatile,
    SputVolatile,
    IgetObjectVolatile,
    IgetWideVolatile,
    IputWideVolatile,
    SgetWideVolatile,
    SputWideVolatile,
    ThrowVerificationError,
    ExecuteInline,
    ExecuteInlineRange,
    InvokeObjectInitRange,
    ReturnVoidNoBarrier,
    InvokeSuperQuick,
    InvokeSuperQuickRange,
    IputObjectVolatile,
    SgetObjectVolatile,
    SputObjectVolatile,
    PackedSwitchPayload,
    SparseSwitchPayload,
    ArrayPayload,
    InvokePolymorphic,
    InvokePolymorphicRange,
    InvokeCustom,
    InvokeCustomRange,
    ConstMethodHandle,
    ConstMethodType,
}

/// Number of opcodes in the table.
pub const OPCODE_COUNT: usize = 246;

/// The attributes of `op`, as the Dalvik bytecode specification gives them.
pub open spec fn spec_info(op: Opcode) -> OpcodeInfo {
    match op {
        Opcode::Nop => OpcodeInfo { value: 0x0, format: Format::Format10x, reference_type: ReferenceType::NoReference, reference_type_2: ReferenceType::NoReference, flags: 0x4 },
        Opcode::Move => OpcodeInfo { value: 0x1, format: Format::Format12x, reference_type: ReferenceType::NoReference, reference_type_2: ReferenceType::NoReference, flags: 0x14 },
        Opcode::MoveFrom16 => OpcodeInfo { value: 0x2, format: Format::Format22x, reference_type: ReferenceType::NoReference, reference_type_2: ReferenceType::NoReference, flags: 0x14 },
        Opcode::Move16 => OpcodeInfo { value: 0x3, format: Format::Format32x, reference_type: ReferenceType::NoReference, reference_type_2: ReferenceType::NoReference, flags: 0x14 },
        Opcode::MoveWide => OpcodeInfo { value: 0x4, format: Format::Format12x, reference_type: ReferenceType::NoReference, reference_type_2: ReferenceType::NoReference, flags: 0x34 },
        Opcode::MoveWideFrom16 => OpcodeInfo { value: 0x5, format: Format::Format22x, reference_type: ReferenceType::NoReference, reference_type_2: ReferenceType::NoReference, flags: 0x34 },
        Opcode::MoveWide16 => OpcodeInfo { value: 0x6, format: Format::Format32x, reference_type: ReferenceType::NoReference, reference_type_2: ReferenceType::NoReference, flags: 0x34 },
        Opcode::MoveObject => OpcodeInfo { value: 0x7, format: Format::Format12x, reference_type: ReferenceType::NoReference, reference_type_2: ReferenceType::NoReference, flags: 0x14 },
        Opcode::MoveObjectFrom16 => OpcodeInfo { value: 0x8, format: Format::Format22x, reference_type: ReferenceType::NoReference, reference_type_2: ReferenceType::NoReference, flags: 0x14 },
        Opcode::MoveObject16 => OpcodeInfo { value: 0x9, format: Format::Format32x, reference_type: ReferenceType::NoReference, reference_type_2: ReferenceType::NoReference, flags: 0x14 },
        Opcode::MoveResult => OpcodeInfo { value: 0xa, format: Format::Format11x, reference_type: ReferenceType::NoReference, reference_type_2: ReferenceType::NoReference, flags: 0x14 },
        Opcode::MoveResultWide => OpcodeInfo { value: 0xb, format: Format::Format11x, reference_type: ReferenceType::NoReference, reference_type_2: ReferenceType::NoReference, flags: 0x34 },
        Opcode::MoveResultObject => OpcodeInfo { value: 0xc, format: Format::Format11x, reference_type: ReferenceType::NoReference, reference_type_2: ReferenceType::NoReference, flags: 0x14 },
        Opcode::MoveException => OpcodeInfo { value: 0xd, format: Format::Format11x, reference_type: ReferenceType::NoReference, reference_type_2: ReferenceType::NoReference, flags: 0x14 },
        Opcode::ReturnVoid => OpcodeInfo { value: 0xe, format: Format::Format10x, reference_type: ReferenceType::NoReference, reference_type_2: ReferenceType::NoReference, flags: 0x0 },
        Opcode::Return => OpcodeInfo { value: 0xf, format: Format::Format11x, reference_type: ReferenceType::NoReference, reference_type_2: ReferenceType::NoReference, flags: 0x0 },
        Opcode::ReturnWide => OpcodeInfo { value: 0x10, format: Format::Format11x, reference_type: ReferenceType::NoReference, reference_type_2: ReferenceType::NoReference, flags: 0x0 },
        Opcode::ReturnObject => OpcodeInfo { value: 0x11, format: Format::Format11x, reference_type: ReferenceType::NoReference, reference_type_2: ReferenceType::NoReference, flags: 0x0 },
        Opcode::Const4 => OpcodeInfo { value: 0x12, format: Format::Format11n, reference_type: ReferenceType::NoReference, reference_type_2: ReferenceType::NoReference, flags: 0x14 },
        Opcode::Const16 => OpcodeInfo { value: 0x13, format: Format::Format21s, reference_type: ReferenceType::NoReference, reference_type_2: ReferenceType::NoReference, flags: 0x14 },
        Opcode::CONST => OpcodeInfo { value: 0x14, format: Format::Format31i, reference_type: ReferenceType::NoReference, reference_type_2: ReferenceType::NoReference, flags: 0x14 },
        Opcode::ConstHigh16 => OpcodeInfo { value: 0x15, format: Format::Format21ih, reference_type: ReferenceType::NoReference, reference_type_2: ReferenceType::NoReference, flags: 0x14 },
        Opcode::ConstWide16 => OpcodeInfo { value: 0x16, format: Format::Format21s, reference_type: ReferenceType::NoReference, reference_type_2: ReferenceType::NoReference, flags: 0x34 },
        Opcode::ConstWide32 => OpcodeInfo { value: 0x17, format: Format::Format31i, reference_type: ReferenceType::NoReference, reference_type_2: ReferenceType::NoReference, flags: 0x34 },
        Opcode::ConstWide => OpcodeInfo { value: 0x18, format: Format::Format51l, reference_type: ReferenceType::NoReference, reference_type_2: ReferenceType::NoReference, flags: 0x34 },
        Opcode::ConstWideHigh16 => OpcodeInfo { value: 0x19, format: Format::Format21lh, reference_type: ReferenceType::NoReference, reference_type_2: ReferenceType::NoReference, flags: 0x34 },
        Opcode::ConstString => OpcodeInfo { value: 0x1a, format: Format::Format21c, reference_type: ReferenceType::String, reference_type_2: ReferenceType::NoReference, flags: 0x15 },
        Opcode::ConstStringJumbo => OpcodeInfo { value: 0x1b, format: Format::Format31c, reference_type: ReferenceType::String, reference_type_2: ReferenceType::NoReference, flags: 0x15 },
        Opcode::ConstClass => OpcodeInfo { value: 0x1c, format: Format::Format21c, reference_type: ReferenceType::Type, reference_type_2: ReferenceType::NoReference, flags: 0x15 },
        Opcode::MonitorEnter => OpcodeInfo { value: 0x1d, format: Format::Format11x, reference_type: ReferenceType::NoReference, reference_type_2: ReferenceType::NoReference, flags: 0x5 },
        Opcode::MonitorExit => OpcodeInfo { value: 0x1e, format: Format::Format11x, reference_type: ReferenceType::NoReference, reference_type_2: ReferenceType::NoReference, flags: 0x5 },
        Opcode::CheckCast => OpcodeInfo { value: 0x1f, format: Format::Format21c, reference_type: ReferenceType::Type, reference_type_2: ReferenceType::NoReference, flags: 0x15 },
        Opcode::InstanceOf => OpcodeInfo { value: 0x20, format: Format::Format22c, reference_type: ReferenceType::Type, reference_type_2: ReferenceType::NoReference, flags: 0x15 },
        Opcode::ArrayLength => OpcodeInfo { value: 0x21, format: Format::Format12x, reference_type: ReferenceType::NoReference, reference_type_2: ReferenceType::NoReference, flags: 0x15 },
        Opcode::NewInstance => OpcodeInfo { value: 0x22, format: Format::Format21c, reference_type: ReferenceType::Type, reference_type_2: ReferenceType::NoReference, flags: 0x15 },
        Opcode::NewArray => OpcodeInfo { value: 0x23, format: Format::Format22c, reference_type: ReferenceType::Type, reference_type_2: ReferenceType::NoReference, flags: 0x15 },
        Opcode::FilledNewArray => OpcodeInfo { value: 0x24, format: Format::Format35c, reference_type: ReferenceType::Type, reference_type_2: ReferenceType::NoReference, flags: 0xd },
        Opcode::FilledNewArrayRange => OpcodeInfo { value: 0x25, format: Format::Format3rc, reference_type: ReferenceType::Type, reference_type_2: ReferenceType::NoReference, flags: 0xd },
        Opcode::FillArrayData => OpcodeInfo { value: 0x26, format: Format::Format31t, reference_type: ReferenceType::NoReference, reference_type_2: ReferenceType::NoReference, flags: 0x4 },
        Opcode::THROW => OpcodeInfo { value: 0x27, format: Format::Format11x, reference_type: ReferenceType::NoReference, reference_type_2: ReferenceType::NoReference, flags: 0x1 },
        Opcode::GOTO => OpcodeInfo { value: 0x28, format: Format::Format10t, reference_type: ReferenceType::NoReference, reference_type_2: ReferenceType::NoReference, flags: 0x0 },
        Opcode::Goto16 => OpcodeInfo { value: 0x29, format: Format::Format20t, reference_type: ReferenceType::NoReference, reference_type_2: ReferenceType::NoReference, flags: 0x0 },
        Opcode::Goto32 => OpcodeInfo { value: 0x2a, format: Format::Format30t, reference_type: ReferenceType::NoReference, reference_type_2: ReferenceType::NoReference, flags: 0x0 },
        Opcode::PackedSwitch => OpcodeInfo { value: 0x2b, format: Format::Format31t, reference_type: ReferenceType::NoReference, reference_type_2: ReferenceType::NoReference, flags: 0x4 },
        Opcode::SparseSwitch => OpcodeInfo { value: 0x2c, format: Format::Format31t, reference_type: ReferenceType::NoReference, reference_type_2: ReferenceType::NoReference, flags: 0x4 },
        Opcode::CmplFloat => OpcodeInfo { value: 0x2d, format: Format::Format23x, reference_type: ReferenceType::NoReference, reference_type_2: ReferenceType::NoReference, flags: 0x14 },
        Opcode::CmpgFloat => OpcodeInfo { value: 0x2e, format: Format::Format23x, reference_type: ReferenceType::NoReference, reference_type_2: ReferenceType::NoReference, flags: 0x14 },
        Opcode::CmplDouble => OpcodeInfo { value: 0x2f, format: Format::Format23x, reference_type: ReferenceType::NoReference, reference_type_2: ReferenceType::NoReference, flags: 0x14 },
        Opcode::CmpgDouble => OpcodeInfo { value: 0x30, format: Format::Format23x, reference_type: ReferenceType::NoReference, reference_type_2: ReferenceType::NoReference, flags: 0x14 },
        Opcode::CmpLong => OpcodeInfo { value: 0x31, format: Format::Format23x, reference_type: ReferenceType::NoReference, reference_type_2: ReferenceType::NoReference, flags: 0x14 },
        Opcode::IfEq => OpcodeInfo { value: 0x32, format: Format::Format22t, reference_type: ReferenceType::NoReference, reference_type_2: ReferenceType::NoReference, flags: 0x4 },
        Opcode::IfNe => OpcodeInfo { value: 0x33, format: Format::Format22t, reference_type: ReferenceType::NoReference, reference_type_2: ReferenceType::NoReference, flags: 0x4 },
        Opcode::IfLt => OpcodeInfo { value: 0x34, format: Format::Format22t, reference_type: ReferenceType::NoReference, reference_type_2: ReferenceType::NoReference, flags: 0x4 },
        Opcode::IfGe => OpcodeInfo { value: 0x35, format: Format::Format22t, reference_type: ReferenceType::NoReference, reference_type_2: ReferenceType::NoReference, flags: 0x4 },
        Opcode::IfGt => OpcodeInfo { value: 0x36, format: Format::Format22t, reference_type: ReferenceType::NoReference, reference_type_2: ReferenceType::NoReference, flags: 0x4 },
        Opcode::IfLe => OpcodeInfo { value: 0x37, format: Format::Format22t, reference_type: ReferenceType::NoReference, reference_type_2: ReferenceType::NoReference, flags: 0x4 },
        Opcode::IfEqz => OpcodeInfo { value: 0x38, format: Format::Format21t, reference_type: ReferenceType::NoReference, reference_type_2: ReferenceType::NoReference, flags: 0x4 },
        Opcode::IfNez => OpcodeInfo { value: 0x39, format: Format::Format21t, reference_type: ReferenceType::NoReference, reference_type_2: ReferenceType::NoReference, flags: 0x4 },
        Opcode::IfLtz => OpcodeInfo { value: 0x3a, format: Format::Format21t, reference_type: ReferenceType::NoReference, reference_type_2: ReferenceType::NoReference, flags: 0x4 },
        Opcode::IfGez => OpcodeInfo { value: 0x3b, format: Format::Format21t, reference_type: ReferenceType::NoReference, reference_type_2: ReferenceType::NoReference, flags: 0x4 },
        Opcode::IfGtz => OpcodeInfo { value: 0x3c, format: Format::Format21t, reference_type: ReferenceType::NoReference, reference_type_2: ReferenceType::NoReference, flags: 0x4 },
        Opcode::IfLez => OpcodeInfo { value: 0x3d, format: Format::Format21t, reference_type: ReferenceType::NoReference, reference_type_2: ReferenceType::NoReference, flags: 0x4 },
        Opcode::AGET => OpcodeInfo { value: 0x44, format: Format::Format23x, reference_type: ReferenceType::NoReference, reference_type_2: ReferenceType::NoReference, flags: 0x15 },
        Opcode::AgetWide => OpcodeInfo { value: 0x45, format: Format::Format23x, reference_type: ReferenceType::NoReference, reference_type_2: ReferenceType::NoReference, flags: 0x35 },
        Opcode::AgetObject => OpcodeInfo { value: 0x46, format: Format::Format23x, reference_type: ReferenceType::NoReference, reference_type_2: ReferenceType::NoReference, flags: 0x15 },
        Opcode::AgetBoolean => OpcodeInfo { value: 0x47, format: Format::Format23x, reference_type: ReferenceType::NoReference, reference_type_2: ReferenceType::NoReference, flags: 0x15 },
        Opcode::AgetByte => OpcodeInfo { value: 0x48, format: Format::Format23x, reference_type: ReferenceType::NoReference, reference_type_2: ReferenceType::NoReference, flags: 0x15 },
        Opcode::AgetChar => OpcodeInfo { value: 0x49, format: Format::Format23x, reference_type: ReferenceType::NoReference, reference_type_2: ReferenceType::NoReference, flags: 0x15 },
        Opcode::AgetShort => OpcodeInfo { value: 0x4a, format: Format::Format23x, reference_type: ReferenceType::NoReference, reference_type_2: ReferenceType::NoReference, flags: 0x15 },
        Opcode::APUT => OpcodeInfo { value: 0x4b, format: Format::Format23x, reference_type: ReferenceType::NoReference, reference_type_2: ReferenceType::NoReference, flags: 0x5 },
        Opcode::AputWide => OpcodeInfo { value: 0x4c, format: Format::Format23x, reference_type: ReferenceType::NoReference, reference_type_2: ReferenceType::NoReference, flags: 0x5 },
        Opcode::AputObject => OpcodeInfo { value: 0x4d, format: Format::Format23x, reference_type: ReferenceType::NoReference, reference_type_2: ReferenceType::NoReference, flags: 0x5 },
        Opcode::AputBoolean => OpcodeInfo { value: 0x4e, format: Format::Format23x, reference_type: ReferenceType::NoReference, reference_type_2: ReferenceType::NoReference, flags: 0x5 },
        Opcode::AputByte => OpcodeInfo { value: 0x4f, format: Format::Format23x, reference_type: ReferenceType::NoReference, reference_type_2: ReferenceType::NoReference, flags: 0x5 },
        Opcode::AputChar => OpcodeInfo { value: 0x50, format: Format::Format23x, reference_type: ReferenceType::NoReference, reference_type_2: ReferenceType::NoReference, flags: 0x5 },
        Opcode::AputShort => OpcodeInfo { value: 0x51, format: Format::Format23x, reference_type: ReferenceType::NoReference, reference_type_2: ReferenceType::NoReference, flags: 0x5 },
        Opcode::IGET => OpcodeInfo { value: 0x52, format: Format::Format22c, reference_type: ReferenceType::Field, reference_type_2: ReferenceType::NoReference, flags: 0x15 },
        Opcode::IgetWide => OpcodeInfo { value: 0x53, format: Format::Format22c, reference_type: ReferenceType::Field, reference_type_2: ReferenceType::NoReference, flags: 0x35 },
        Opcode::IgetObject => OpcodeInfo { value: 0x54, format: Format::Format22c, reference_type: ReferenceType::Field, reference_type_2: ReferenceType::NoReference, flags: 0x15 },
        Opcode::IgetBoolean => OpcodeInfo { value: 0x55, format: Format::Format22c, reference_type: ReferenceType::Field, reference_type_2: ReferenceType::NoReference, flags: 0x15 },
        Opcode::IgetByte => OpcodeInfo { value: 0x56, format: Format::Format22c, reference_type: ReferenceType::Field, reference_type_2: ReferenceType::NoReference, flags: 0x15 },
        Opcode::IgetChar => OpcodeInfo { value: 0x57, format: Format::Format22c, reference_type: ReferenceType::Field, reference_type_2: ReferenceType::NoReference, flags: 0x15 },
        Opcode::IgetShort => OpcodeInfo { value: 0x58, format: Format::Format22c, reference_type: ReferenceType::Field, reference_type_2: ReferenceType::NoReference, flags: 0x15 },
        Opcode::IPUT => OpcodeInfo { value: 0x59, format: Format::Format22c, reference_type: ReferenceType::Field, reference_type_2: ReferenceType::NoReference, flags: 0x5 },
        Opcode::IputWide => OpcodeInfo { value: 0x5a, format: Format::Format22c, reference_type: ReferenceType::Field, reference_type_2: ReferenceType::NoReference, flags: 0x5 },
        Opcode::IputObject => OpcodeInfo { value: 0x5b, format: Format::Format22c, reference_type: ReferenceType::Field, reference_type_2: ReferenceType::NoReference, flags: 0x5 },
        Opcode::IputBoolean => OpcodeInfo { value: 0x5c, format: Format::Format22c, reference_type: ReferenceType::Field, reference_type_2: ReferenceType::NoReference, flags: 0x5 },
        Opcode::IputByte => OpcodeInfo { value: 0x5d, format: Format::Format22c, reference_type: ReferenceType::Field, reference_type_2: ReferenceType::NoReference, flags: 0x5 },
        Opcode::IputChar => OpcodeInfo { value: 0x5e, format: Format::Format22c, reference_type: ReferenceType::Field, reference_type_2: ReferenceType::NoReference, flags: 0x5 },
        Opcode::IputShort => OpcodeInfo { value: 0x5f, format: Format::Format22c, reference_type: ReferenceType::Field, reference_type_2: ReferenceType::NoReference, flags: 0x5 },
        Opcode::SGET => OpcodeInfo { value: 0x60, format: Format::Format21c, reference_type: ReferenceType::Field, reference_type_2: ReferenceType::NoReference, flags: 0x115 },
        Opcode::SgetWide => OpcodeInfo { value: 0x61, format: Format::Format21c, reference_type: ReferenceType::Field, reference_type_2: ReferenceType::NoReference, flags: 0x135 },
        Opcode::SgetObject => OpcodeInfo { value: 0x62, format: Format::Format21c, reference_type: ReferenceType::Field, reference_type_2: ReferenceType::NoReference, flags: 0x115 },
        Opcode::SgetBoolean => OpcodeInfo { value: 0x63, format: Format::Format21c, reference_type: ReferenceType::Field, reference_type_2: ReferenceType::NoReference, flags: 0x115 },
        Opcode::SgetByte => OpcodeInfo { value: 0x64, format: Format::Format21c, reference_type: ReferenceType::Field, reference_type_2: ReferenceType::NoReference, flags: 0x115 },
        Opcode::SgetChar => OpcodeInfo { value: 0x65, format: Format::Format21c, reference_type: ReferenceType::Field, reference_type_2: ReferenceType::NoReference, flags: 0x115 },
        Opcode::SgetShort => OpcodeInfo { value: 0x66, format: Format::Format21c, reference_type: ReferenceType::Field, reference_type_2: ReferenceType::NoReference, flags: 0x115 },
        Opcode::SPUT => OpcodeInfo { value: 0x67, format: Format::Format21c, reference_type: ReferenceType::Field, reference_type_2: ReferenceType::NoReference, flags: 0x105 },
        Opcode::SputWide => OpcodeInfo { value: 0x68, format: Format::Format21c, reference_type: ReferenceType::Field, reference_type_2: ReferenceType::NoReference, flags: 0x105 },
        Opcode::SputObject => OpcodeInfo { value: 0x69, format: Format::Format21c, reference_type: ReferenceType::Field, reference_type_2: ReferenceType::NoReference, flags: 0x105 },
        Opcode::SputBoolean => OpcodeInfo { value: 0x6a, format: Format::Format21c, reference_type: ReferenceType::Field, reference_type_2: ReferenceType::NoReference, flags: 0x105 },
        Opcode::SputByte => OpcodeInfo { value: 0x6b, format: Format::Format21c, reference_type: ReferenceType::Field, reference_type_2: ReferenceType::NoReference, flags: 0x105 },
        Opcode::SputChar => OpcodeInfo { value: 0x6c, format: Format::Format21c, reference_type: ReferenceType::Field, reference_type_2: ReferenceType::NoReference, flags: 0x105 },
        Opcode::SputShort => OpcodeInfo { value: 0x6d, format: Format::Format21c, reference_type: ReferenceType::Field, reference_type_2: ReferenceType::NoReference, flags: 0x105 },
        Opcode::InvokeVirtual => OpcodeInfo { value: 0x6e, format: Format::Format35c, reference_type: ReferenceType::Method, reference_type_2: ReferenceType::NoReference, flags: 0xd },
        Opcode::InvokeSuper => OpcodeInfo { value: 0x6f, format: Format::Format35c, reference_type: ReferenceType::Method, reference_type_2: ReferenceType::NoReference, flags: 0xd },
        Opcode::InvokeDirect => OpcodeInfo { value: 0x70, format: Format::Format35c, reference_type: ReferenceType::Method, reference_type_2: ReferenceType::NoReference, flags: 0x40d },
        Opcode::InvokeStatic => OpcodeInfo { value: 0x71, format: Format::Format35c, reference_type: ReferenceType::Method, reference_type_2: ReferenceType::NoReference, flags: 0xd },
        Opcode::InvokeInterface => OpcodeInfo { value: 0x72, format: Format::Format35c, reference_type: ReferenceType::Method, reference_type_2: ReferenceType::NoReference, flags: 0xd },
        Opcode::InvokeVirtualRange => OpcodeInfo { value: 0x74, format: Format::Format3rc, reference_type: ReferenceType::Method, reference_type_2: ReferenceType::NoReference, flags: 0xd },
        Opcode::InvokeSuperRange => OpcodeInfo { value: 0x75, format: Format::Format3rc, reference_type: ReferenceType::Method, reference_type_2: ReferenceType::NoReference, flags: 0xd },
        Opcode::InvokeDirectRange => OpcodeInfo { value: 0x76, format: Format::Format3rc, reference_type: ReferenceType::Method, reference_type_2: ReferenceType::NoReference, flags: 0x40d },
        Opcode::InvokeStaticRange => OpcodeInfo { value: 0x77, format: Format::Format3rc, reference_type: ReferenceType::Method, reference_type_2: ReferenceType::NoReference, flags: 0xd },
        Opcode::InvokeInterfaceRange => OpcodeInfo { value: 0x78, format: Format::Format3rc, reference_type: ReferenceType::Method, reference_type_2: ReferenceType::NoReference, flags: 0xd },
        Opcode::NegInt => OpcodeInfo { value: 0x7b, format: Format::Format12x, reference_type: ReferenceType::NoReference, reference_type_2: ReferenceType::NoReference, flags: 0x14 },
        Opcode::NotInt => OpcodeInfo { value: 0x7c, format: Format::Format12x, reference_type: ReferenceType::NoReference, reference_type_2: ReferenceType::NoReference, flags: 0x14 },
        Opcode::NegLong => OpcodeInfo { value: 0x7d, format: Format::Format12x, reference_type: ReferenceType::NoReference, reference_type_2: ReferenceType::NoReference, flags: 0x34 },
        Opcode::NotLong => OpcodeInfo { value: 0x7e, format: Format::Format12x, reference_type: ReferenceType::NoReference, reference_type_2: ReferenceType::NoReference, flags: 0x34 },
        Opcode::NegFloat => OpcodeInfo { value: 0x7f, format: Format::Format12x, reference_type: ReferenceType::NoReference, reference_type_2: ReferenceType::NoReference, flags: 0x14 },
        Opcode::NegDouble => OpcodeInfo { value: 0x80, format: Format::Format12x, reference_type: ReferenceType::NoReference, reference_type_2: ReferenceType::NoReference, flags: 0x34 },
        Opcode::IntToLong => OpcodeInfo { value: 0x81, format: Format::Format12x, reference_type: ReferenceType::NoReference, reference_type_2: ReferenceType::NoReference, flags: 0x34 },
        Opcode::IntToFloat => OpcodeInfo { value: 0x82, format: Format::Format12x, reference_type: ReferenceType::NoReference, reference_type_2: ReferenceType::NoReference, flags: 0x14 },
        Opcode::IntToDouble => OpcodeInfo { value: 0x83, format: Format::Format12x, reference_type: ReferenceType::NoReference, reference_type_2: ReferenceType::NoReference, flags: 0x34 },
        Opcode::LongToInt => OpcodeInfo { value: 0x84, format: Format::Format12x, reference_type: ReferenceType::NoReference, reference_type_2: ReferenceType::NoReference, flags: 0x14 },
        Opcode::LongToFloat => OpcodeInfo { value: 0x85, format: Format::Format12x, reference_type: ReferenceType::NoReference, reference_type_2: ReferenceType::NoReference, flags: 0x14 },
        Opcode::LongToDouble => OpcodeInfo { value: 0x86, format: Format::Format12x, reference_type: ReferenceType::NoReference, reference_type_2: ReferenceType::NoReference, flags: 0x34 },
        Opcode::FloatToInt => OpcodeInfo { value: 0x87, format: Format::Format12x, reference_type: ReferenceType::NoReference, reference_type_2: ReferenceType::NoReference, flags: 0x14 },
        Opcode::FloatToLong => OpcodeInfo { value: 0x88, format: Format::Format12x, reference_type: ReferenceType::NoReference, reference_type_2: ReferenceType::NoReference, flags: 0x34 },
        Opcode::FloatToDouble => OpcodeInfo { value: 0x89, format: Format::Format12x, reference_type: ReferenceType::NoReference, reference_type_2: ReferenceType::NoReference, flags: 0x34 },
        Opcode::DoubleToInt => OpcodeInfo { value: 0x8a, format: Format::Format12x, reference_type: ReferenceType::NoReference, reference_type_2: ReferenceType::NoReference, flags: 0x14 },
        Opcode::DoubleToLong => OpcodeInfo { value: 0x8b, format: Format::Format12x, reference_type: ReferenceType::NoReference, reference_type_2: ReferenceType::NoReference, flags: 0x34 },
        Opcode::DoubleToFloat => OpcodeInfo { value: 0x8c, format: Format::Format12x, reference_type: ReferenceType::NoReference, reference_type_2: ReferenceType::NoReference, flags: 0x14 },
        Opcode::IntToByte => OpcodeInfo { value: 0x8d, format: Format::Format12x, reference_type: ReferenceType::NoReference, reference_type_2: ReferenceType::NoReference, flags: 0x14 },
        Opcode::IntToChar => OpcodeInfo { value: 0x8e, format: Format::Format12x, reference_type: ReferenceType::NoReference, reference_type_2: ReferenceType::NoReference, flags: 0x14 },
        Opcode::IntToShort => OpcodeInfo { value: 0x8f, format: Format::Format12x, reference_type: ReferenceType::NoReference, reference_type_2: ReferenceType::NoReference, flags: 0x14 },
        Opcode::AddInt => OpcodeInfo { value: 0x90, format: Format::Format23x, reference_type: ReferenceType::NoReference, reference_type_2: ReferenceType::NoReference, flags: 0x14 },
        Opcode::SubInt => OpcodeInfo { value: 0x91, format: Format::Format23x, reference_type: ReferenceType::NoReference, reference_type_2: ReferenceType::NoReference, flags: 0x14 },
        Opcode::MulInt => OpcodeInfo { value: 0x92, format: Format::Format23x, reference_type: ReferenceType::NoReference, reference_type_2: ReferenceType::NoReference, flags: 0x14 },
        Opcode::DivInt => OpcodeInfo { value: 0x93, format: Format::Format23x, reference_type: ReferenceType::NoReference, reference_type_2: ReferenceType::NoReference, flags: 0x15 },
        Opcode::RemInt => OpcodeInfo { value: 0x94, format: Format::Format23x, reference_type: ReferenceType::NoReference, reference_type_2: ReferenceType::NoReference, flags: 0x15 },
        Opcode::AndInt => OpcodeInfo { value: 0x95, format: Format::Format23x, reference_type: ReferenceType::NoReference, reference_type_2: ReferenceType::NoReference, flags: 0x14 },
        Opcode::OrInt => OpcodeInfo { value: 0x96, format: Format::Format23x, reference_type: ReferenceType::NoReference, reference_type_2: ReferenceType::NoReference, flags: 0x14 },
        Opcode::XorInt => OpcodeInfo { value: 0x97, format: Format::Format23x, reference_type: ReferenceType::NoReference, reference_type_2: ReferenceType::NoReference, flags: 0x14 },
        Opcode::ShlInt => OpcodeInfo { value: 0x98, format: Format::Format23x, reference_type: ReferenceType::NoReference, reference_type_2: ReferenceType::NoReference, flags: 0x14 },
        Opcode::ShrInt => OpcodeInfo { value: 0x99, format: Format::Format23x, reference_type: ReferenceType::NoReference, reference_type_2: ReferenceType::NoReference, flags: 0x14 },
        Opcode::UshrInt => OpcodeInfo { value: 0x9a, format: Format::Format23x, reference_type: ReferenceType::NoReference, reference_type_2: ReferenceType::NoReference, flags: 0x14 },
        Opcode::AddLong => OpcodeInfo { value: 0x9b, format: Format::Format23x, reference_type: ReferenceType::NoReference, reference_type_2: ReferenceType::NoReference, flags: 0x34 },
        Opcode::SubLong => OpcodeInfo { value: 0x9c, format: Format::Format23x, reference_type: ReferenceType::NoReference, reference_type_2: ReferenceType::NoReference, flags: 0x34 },
        Opcode::MulLong => OpcodeInfo { value: 0x9d, format: Format::Format23x, reference_type: ReferenceType::NoReference, reference_type_2: ReferenceType::NoReference, flags: 0x34 },
        Opcode::DivLong => OpcodeInfo { value: 0x9e, format: Format::Format23x, reference_type: ReferenceType::NoReference, reference_type_2: ReferenceType::NoReference, flags: 0x35 },
        Opcode::RemLong => OpcodeInfo { value: 0x9f, format: Format::Format23x, reference_type: ReferenceType::NoReference, reference_type_2: ReferenceType::NoReference, flags: 0x35 },
        Opcode::AndLong => OpcodeInfo { value: 0xa0, format: Format::Format23x, reference_type: ReferenceType::NoReference, reference_type_2: ReferenceType::NoReference, flags: 0x34 },
        Opcode::OrLong => OpcodeInfo { value: 0xa1, format: Format::Format23x, reference_type: ReferenceType::NoReference, reference_type_2: ReferenceType::NoReference, flags: 0x34 },
        Opcode::XorLong => OpcodeInfo { value: 0xa2, format: Format::Format23x, reference_type: ReferenceType::NoReference, reference_type_2: ReferenceType::NoReference, flags: 0x34 },
        Opcode::ShlLong => OpcodeInfo { value: 0xa3, format: Format::Format23x, reference_type: ReferenceType::NoReference, reference_type_2: ReferenceType::NoReference, flags: 0x34 },
        Opcode::ShrLong => OpcodeInfo { value: 0xa4, format: Format::Format23x, reference_type: ReferenceType::NoReference, reference_type_2: ReferenceType::NoReference, flags: 0x34 },
        Opcode::UshrLong => OpcodeInfo { value: 0xa5, format: Format::Format23x, reference_type: ReferenceType::NoReference, reference_type_2: ReferenceType::NoReference, flags: 0x34 },
        Opcode::AddFloat => OpcodeInfo { value: 0xa6, format: Format::Format23x, reference_type: ReferenceType::NoReference, reference_type_2: ReferenceType::NoReference, flags: 0x14 },
        Opcode::SubFloat => OpcodeInfo { value: 0xa7, format: Format::Format23x, reference_type: ReferenceType::NoReference, reference_type_2: ReferenceType::NoReference, flags: 0x14 },
        Opcode::MulFloat => OpcodeInfo { value: 0xa8, format: Format::Format23x, reference_type: ReferenceType::NoReference, reference_type_2: ReferenceType::NoReference, flags: 0x14 },
        Opcode::DivFloat => OpcodeInfo { value: 0xa9, format: Format::Format23x, reference_type: ReferenceType::NoReference, reference_type_2: ReferenceType::NoReference, flags: 0x14 },
        Opcode::RemFloat => OpcodeInfo { value: 0xaa, format: Format::Format23x, reference_type: ReferenceType::NoReference, reference_type_2: ReferenceType::NoReference, flags: 0x14 },
        Opcode::AddDouble => OpcodeInfo { value: 0xab, format: Format::Format23x, reference_type: ReferenceType::NoReference, reference_type_2: ReferenceType::NoReference, flags: 0x34 },
        Opcode::SubDouble => OpcodeInfo { value: 0xac, format: Format::Format23x, reference_type: ReferenceType::NoReference, reference_type_2: ReferenceType::NoReference, flags: 0x34 },
        Opcode::MulDouble => OpcodeInfo { value: 0xad, format: Format::Format23x, reference_type: ReferenceType::NoReference, reference_type_2: ReferenceType::NoReference, flags: 0x34 },
        Opcode::DivDouble => OpcodeInfo { value: 0xae, format: Format::Format23x, reference_type: ReferenceType::NoReference, reference_type_2: ReferenceType::NoReference, flags: 0x34 },
        Opcode::RemDouble => OpcodeInfo { value: 0xaf, format: Format::Format23x, reference_type: ReferenceType::NoReference, reference_type_2: ReferenceType::NoReference, flags: 0x34 },
        Opcode::AddInt2addr => OpcodeInfo { value: 0xb0, format: Format::Format12x, reference_type: ReferenceType::NoReference, reference_type_2: ReferenceType::NoReference, flags: 0x14 },
        Opcode::SubInt2addr => OpcodeInfo { value: 0xb1, format: Format::Format12x, reference_type: ReferenceType::NoReference, reference_type_2: ReferenceType::NoReference, flags: 0x14 },
        Opcode::MulInt2addr => OpcodeInfo { value: 0xb2, format: Format::Format12x, reference_type: ReferenceType::NoReference, reference_type_2: ReferenceType::NoReference, flags: 0x14 },
        Opcode::DivInt2addr => OpcodeInfo { value: 0xb3, format: Format::Format12x, reference_type: ReferenceType::NoReference, reference_type_2: ReferenceType::NoReference, flags: 0x15 },
        Opcode::RemInt2addr => OpcodeInfo { value: 0xb4, format: Format::Format12x, reference_type: ReferenceType::NoReference, reference_type_2: ReferenceType::NoReference, flags: 0x15 },
        Opcode::AndInt2addr => OpcodeInfo { value: 0xb5, format: Format::Format12x, reference_type: ReferenceType::NoReference, reference_type_2: ReferenceType::NoReference, flags: 0x14 },
        Opcode::OrInt2addr => OpcodeInfo { value: 0xb6, format: Format::Format12x, reference_type: ReferenceType::NoReference, reference_type_2: ReferenceType::NoReference, flags: 0x14 },
        Opcode::XorInt2addr => OpcodeInfo { value: 0xb7, format: Format::Format12x, reference_type: ReferenceType::NoReference, reference_type_2: ReferenceType::NoReference, flags: 0x14 },
        Opcode::ShlInt2addr => OpcodeInfo { value: 0xb8, format: Format::Format12x, reference_type: ReferenceType::NoReference, reference_type_2: ReferenceType::NoReference, flags: 0x14 },
        Opcode::ShrInt2addr => OpcodeInfo { value: 0xb9, format: Format::Format12x, reference_type: ReferenceType::NoReference, reference_type_2: ReferenceType::NoReference, flags: 0x14 },
        Opcode::UshrInt2addr => OpcodeInfo { value: 0xba, format: Format::Format12x, reference_type: ReferenceType::NoReference, reference_type_2: ReferenceType::NoReference, flags: 0x14 },
        Opcode::AddLong2addr => OpcodeInfo { value: 0xbb, format: Format::Format12x, reference_type: ReferenceType::NoReference, reference_type_2: ReferenceType::NoReference, flags: 0x34 },
        Opcode::SubLong2addr => OpcodeInfo { value: 0xbc, format: Format::Format12x, reference_type: ReferenceType::NoReference, reference_type_2: ReferenceType::NoReference, flags: 0x34 },
        Opcode::MulLong2addr => OpcodeInfo { value: 0xbd, format: Format::Format12x, reference_type: ReferenceType::NoReference, reference_type_2: ReferenceType::NoReference, flags: 0x34 },
        Opcode::DivLong2addr => OpcodeInfo { value: 0xbe, format: Format::Format12x, reference_type: ReferenceType::NoReference, reference_type_2: ReferenceType::NoReference, flags: 0x35 },
        Opcode::RemLong2addr => OpcodeInfo { value: 0xbf, format: Format::Format12x, reference_type: ReferenceType::NoReference, reference_type_2: ReferenceType::NoReference, flags: 0x35 },
        Opcode::AndLong2addr => OpcodeInfo { value: 0xc0, format: Format::Format12x, reference_type: ReferenceType::NoReference, reference_type_2: ReferenceType::NoReference, flags: 0x34 },
        Opcode::OrLong2addr => OpcodeInfo { value: 0xc1, format: Format::Format12x, reference_type: ReferenceType::NoReference, reference_type_2: ReferenceType::NoReference, flags: 0x34 },
        Opcode::XorLong2addr => OpcodeInfo { value: 0xc2, format: Format::Format12x, reference_type: ReferenceType::NoReference, reference_type_2: ReferenceType::NoReference, flags: 0x34 },
        Opcode::ShlLong2addr => OpcodeInfo { value: 0xc3, format: Format::Format12x, reference_type: ReferenceType::NoReference, reference_type_2: ReferenceType::NoReference, flags: 0x34 },
        Opcode::ShrLong2addr => OpcodeInfo { value: 0xc4, format: Format::Format12x, reference_type: ReferenceType::NoReference, reference_type_2: ReferenceType::NoReference, flags: 0x34 },
        Opcode::UshrLong2addr => OpcodeInfo { value: 0xc5, format: Format::Format12x, reference_type: ReferenceType::NoReference, reference_type_2: ReferenceType::NoReference, flags: 0x34 },
        Opcode::AddFloat2addr => OpcodeInfo { value: 0xc6, format: Format::Format12x, reference_type: ReferenceType::NoReference, reference_type_2: ReferenceType::NoReference, flags: 0x14 },
        Opcode::SubFloat2addr => OpcodeInfo { value: 0xc7, format: Format::Format12x, reference_type: ReferenceType::NoReference, reference_type_2: ReferenceType::NoReference, flags: 0x14 },
        Opcode::MulFloat2addr => OpcodeInfo { value: 0xc8, format: Format::Format12x, reference_type: ReferenceType::NoReference, reference_type_2: ReferenceType::NoReference, flags: 0x14 },
        Opcode::DivFloat2addr => OpcodeInfo { value: 0xc9, format: Format::Format12x, reference_type: ReferenceType::NoReference, reference_type_2: ReferenceType::NoReference, flags: 0x14 },
        Opcode::RemFloat2addr => OpcodeInfo { value: 0xca, format: Format::Format12x, reference_type: ReferenceType::NoReference, reference_type_2: ReferenceType::NoReference, flags: 0x14 },
        Opcode::AddDouble2addr => OpcodeInfo { value: 0xcb, format: Format::Format12x, reference_type: ReferenceType::NoReference, reference_type_2: ReferenceType::NoReference, flags: 0x34 },
        Opcode::SubDouble2addr => OpcodeInfo { value: 0xcc, format: Format::Format12x, reference_type: ReferenceType::NoReference, reference_type_2: ReferenceType::NoReference, flags: 0x34 },
        Opcode::MulDouble2addr => OpcodeInfo { value: 0xcd, format: Format::Format12x, reference_type: ReferenceType::NoReference, reference_type_2: ReferenceType::NoReference, flags: 0x34 },
        Opcode::DivDouble2addr => OpcodeInfo { value: 0xce, format: Format::Format12x, reference_type: ReferenceType::NoReference, reference_type_2: ReferenceType::NoReference, flags: 0x34 },
        Opcode::RemDouble2addr => OpcodeInfo { value: 0xcf, format: Format::Format12x, reference_type: ReferenceType::NoReference, reference_type_2: ReferenceType::NoReference, flags: 0x34 },
        Opcode::AddIntLit16 => OpcodeInfo { value: 0xd0, format: Format::Format22s, reference_type: ReferenceType::NoReference, reference_type_2: ReferenceType::NoReference, flags: 0x14 },
        Opcode::RsubInt => OpcodeInfo { value: 0xd1, format: Format::Format22s, reference_type: ReferenceType::NoReference, reference_type_2: ReferenceType::NoReference, flags: 0x14 },
        Opcode::MulIntLit16 => OpcodeInfo { value: 0xd2, format: Format::Format22s, reference_type: ReferenceType::NoReference, reference_type_2: ReferenceType::NoReference, flags: 0x14 },
        Opcode::DivIntLit16 => OpcodeInfo { value: 0xd3, format: Format::Format22s, reference_type: ReferenceType::NoReference, reference_type_2: ReferenceType::NoReference, flags: 0x15 },
        Opcode::RemIntLit16 => OpcodeInfo { value: 0xd4, format: Format::Format22s, reference_type: ReferenceType::NoReference, reference_type_2: ReferenceType::NoReference, flags: 0x15 },
        Opcode::AndIntLit16 => OpcodeInfo { value: 0xd5, format: Format::Format22s, reference_type: ReferenceType::NoReference, reference_type_2: ReferenceType::NoReference, flags: 0x14 },
        Opcode::OrIntLit16 => OpcodeInfo { value: 0xd6, format: Format::Format22s, reference_type: ReferenceType::NoReference, reference_type_2: ReferenceType::NoReference, flags: 0x14 },
        Opcode::XorIntLit16 => OpcodeInfo { value: 0xd7, format: Format::Format22s, reference_type: ReferenceType::NoReference, reference_type_2: ReferenceType::NoReference, flags: 0x14 },
        Opcode::AddIntLit8 => OpcodeInfo { value: 0xd8, format: Format::Format22b, reference_type: ReferenceType::NoReference, reference_type_2: ReferenceType::NoReference, flags: 0x14 },
        Opcode::RsubIntLit8 => OpcodeInfo { value: 0xd9, format: Format::Format22b, reference_type: ReferenceType::NoReference, reference_type_2: ReferenceType::NoReference, flags: 0x14 },
        Opcode::MulIntLit8 => OpcodeInfo { value: 0xda, format: Format::Format22b, reference_type: ReferenceType::NoReference, reference_type_2: ReferenceType::NoReference, flags: 0x14 },
        Opcode::DivIntLit8 => OpcodeInfo { value: 0xdb, format: Format::Format22b, reference_type: ReferenceType::NoReference, reference_type_2: ReferenceType::NoReference, flags: 0x15 },
        Opcode::RemIntLit8 => OpcodeInfo { value: 0xdc, format: Format::Format22b, reference_type: ReferenceType::NoReference, reference_type_2: ReferenceType::NoReference, flags: 0x15 },
        Opcode::AndIntLit8 => OpcodeInfo { value: 0xdd, format: Format::Format22b, reference_type: ReferenceType::NoReference, reference_type_2: ReferenceType::NoReference, flags: 0x14 },
        Opcode::OrIntLit8 => OpcodeInfo { value: 0xde, format: Format::Format22b, reference_type: ReferenceType::NoReference, reference_type_2: ReferenceType::NoReference, flags: 0x14 },
        Opcode::XorIntLit8 => OpcodeInfo { value: 0xdf, format: Format::Format22b, reference_type: ReferenceType::NoReference, reference_type_2: ReferenceType::NoReference, flags: 0x14 },
        Opcode::ShlIntLit8 => OpcodeInfo { value: 0xe0, format: Format::Format22b, reference_type: ReferenceType::NoReference, reference_type_2: ReferenceType::NoReference, flags: 0x14 },
        Opcode::ShrIntLit8 => OpcodeInfo { value: 0xe1, format: Format::Format22b, reference_type: ReferenceType::NoReference, reference_type_2: ReferenceType::NoReference, flags: 0x14 },
        Opcode::UshrIntLit8 => OpcodeInfo { value: 0xe2, format: Format::Format22b, reference_type: ReferenceType::NoReference, reference_type_2: ReferenceType::NoReference, flags: 0x14 },
        Opcode::IgetVolatile => OpcodeInfo { value: 0xe3, format: Format::Format22c, reference_type: ReferenceType::Field, reference_type_2: ReferenceType::NoReference, flags: 0x97 },
        Opcode::IputVolatile => OpcodeInfo { value: 0xe4, format: Format::Format22c, reference_type: ReferenceType::Field, reference_type_2: ReferenceType::NoReference, flags: 0x87 },
        Opcode::SgetVolatile => OpcodeInfo { value: 0xe5, format: Format::Format21c, reference_type: ReferenceType::Field, reference_type_2: ReferenceType::NoReference, flags: 0x197 },
        Opcode::SputVolatile => OpcodeInfo { value: 0xe6, format: Format::Format21c, reference_type: ReferenceType::Field, reference_type_2: ReferenceType::NoReference, flags: 0x187 },
        Opcode::IgetObjectVolatile => OpcodeInfo { value: 0xe7, format: Format::Format22c, reference_type: ReferenceType::Field, reference_type_2: ReferenceType::NoReference, flags: 0x97 },
        Opcode::IgetWideVolatile => OpcodeInfo { value: 0xe8, format: Format::Format22c, reference_type: ReferenceType::Field, reference_type_2: ReferenceType::NoReference, flags: 0xb7 },
        Opcode::IputWideVolatile => OpcodeInfo { value: 0xe9, format: Format::Format22c, reference_type: ReferenceType::Field, reference_type_2: ReferenceType::NoReference, flags: 0x87 },
        Opcode::SgetWideVolatile => OpcodeInfo { value: 0xea, format: Format::Format21c, reference_type: ReferenceType::Field, reference_type_2: ReferenceType::NoReference, flags: 0x1b7 },
        Opcode::SputWideVolatile => OpcodeInfo { value: 0xeb, format: Format::Format21c, reference_type: ReferenceType::Field, reference_type_2: ReferenceType::NoReference, flags: 0x187 },
        Opcode::ThrowVerificationError => OpcodeInfo { value: 0xed, format: Format::Format20bc, reference_type: ReferenceType::NoReference, reference_type_2: ReferenceType::NoReference, flags: 0x3 },
        Opcode::ExecuteInline => OpcodeInfo { value: 0xee, format: Format::Format35mi, reference_type: ReferenceType::NoReference, reference_type_2: ReferenceType::NoReference, flags: 0xf },
        Opcode::ExecuteInlineRange => OpcodeInfo { value: 0xef, format: Format::Format3rmi, reference_type: ReferenceType::NoReference, reference_type_2: ReferenceType::NoReference, flags: 0xf },
        Opcode::InvokeObjectInitRange => OpcodeInfo { value: 0xf0, format: Format::Format3rc, reference_type: ReferenceType::Method, reference_type_2: ReferenceType::NoReference, flags: 0x40f },
        Opcode::ReturnVoidNoBarrier => OpcodeInfo { value: 0x73, format: Format::Format10x, reference_type: ReferenceType::NoReference, reference_type_2: ReferenceType::NoReference, flags: 0x2 },
        Opcode::InvokeSuperQuick => OpcodeInfo { value: 0xfa, format: Format::Format35ms, reference_type: ReferenceType::NoReference, reference_type_2: ReferenceType::NoReference, flags: 0xf },
        Opcode::InvokeSuperQuickRange => OpcodeInfo { value: 0xfb, format: Format::Format3rms, reference_type: ReferenceType::NoReference, reference_type_2: ReferenceType::NoReference, flags: 0xf },
        Opcode::IputObjectVolatile => OpcodeInfo { value: 0xfc, format: Format::Format22c, reference_type: ReferenceType::Field, reference_type_2: ReferenceType::NoReference, flags: 0x87 },
        Opcode::SgetObjectVolatile => OpcodeInfo { value: 0xfd, format: Format::Format21c, reference_type: ReferenceType::Field, reference_type_2: ReferenceType::NoReference, flags: 0x197 },
        Opcode::SputObjectVolatile => OpcodeInfo { value: 0xfe, format: Format::Format21c, reference_type: ReferenceType::Field, reference_type_2: ReferenceType::NoReference, flags: 0x187 },
        Opcode::PackedSwitchPayload => OpcodeInfo { value: 0x100, format: Format::PackedSwitchPayload, reference_type: ReferenceType::NoReference, reference_type_2: ReferenceType::NoReference, flags: 0x0 },
        Opcode::SparseSwitchPayload => OpcodeInfo { value: 0x200, format: Format::SparseSwitchPayload, reference_type: ReferenceType::NoReference, reference_type_2: ReferenceType::NoReference, flags: 0x0 },
        Opcode::ArrayPayload => OpcodeInfo { value: 0x300, format: Format::ArrayPayload, reference_type: ReferenceType::NoReference, reference_type_2: ReferenceType::NoReference, flags: 0x0 },
        Opcode::InvokePolymorphic => OpcodeInfo { value: 0xfa, format: Format::Format45cc, reference_type: ReferenceType::Method, reference_type_2: ReferenceType::MethodProto, flags: 0xd },
        Opcode::InvokePolymorphicRange => OpcodeInfo { value: 0xfb, format: Format::Format4rcc, reference_type: ReferenceType::Method, reference_type_2: ReferenceType::MethodProto, flags: 0xd },
        Opcode::InvokeCustom => OpcodeInfo { value: 0xfc, format: Format::Format35c, reference_type: ReferenceType::CallSite, reference_type_2: ReferenceType::NoReference, flags: 0xd },
        Opcode::InvokeCustomRange => OpcodeInfo { value: 0xfd, format: Format::Format3rc, reference_type: ReferenceType::CallSite, reference_type_2: ReferenceType::NoReference, flags: 0xd },
        Opcode::ConstMethodHandle => OpcodeInfo { value: 0xfe, format: Format::Format21c, reference_type: ReferenceType::MethodHandle, reference_type_2: ReferenceType::NoReference, flags: 0x15 },
        Opcode::ConstMethodType => OpcodeInfo { value: 0xff, format: Format::Format21c, reference_type: ReferenceType::MethodProto, reference_type_2: ReferenceType::NoReference, flags: 0x15 },
    }
}

/// The mnemonic of `op`.
pub open spec fn spec_name(op: Opcode) -> &'static str {
    match op {
        Opcode::Nop => "nop",
        Opcode::Move => "move",
        Opcode::MoveFrom16 => "move/from16",
        Opcode::Move16 => "move/16",
        Opcode::MoveWide => "move-wide",
        Opcode::MoveWideFrom16 => "move-wide/from16",
        Opcode::MoveWide16 => "move-wide/16",
        Opcode::MoveObject => "move-object",
        Opcode::MoveObjectFrom16 => "move-object/from16",
        Opcode::MoveObject16 => "move-object/16",
        Opcode::MoveResult => "move-result",
        Opcode::MoveResultWide => "move-result-wide",
        Opcode::MoveResultObject => "move-result-object",
        Opcode::MoveException => "move-exception",
        Opcode::ReturnVoid => "return-void",
        Opcode::Return => "return",
        Opcode::ReturnWide => "return-wide",
        Opcode::ReturnObject => "return-object",
        Opcode::Const4 => "const/4",
        Opcode::Const16 => "const/16",
        Opcode::CONST => "const",
        Opcode::ConstHigh16 => "const/high16",
        Opcode::ConstWide16 => "const-wide/16",
        Opcode::ConstWide32 => "const-wide/32",
        Opcode::ConstWide => "const-wide",
        Opcode::ConstWideHigh16 => "const-wide/high16",
        Opcode::ConstString => "const-string",
        Opcode::ConstStringJumbo => "const-string/jumbo",
        Opcode::ConstClass => "const-class",
        Opcode::MonitorEnter => "monitor-enter",
        Opcode::MonitorExit => "monitor-exit",
        Opcode::CheckCast => "check-cast",
        Opcode::InstanceOf => "instance-of",
        Opcode::ArrayLength => "array-length",
        Opcode::NewInstance => "new-instance",
        Opcode::NewArray => "new-array",
        Opcode::FilledNewArray => "filled-new-array",
        Opcode::FilledNewArrayRange => "filled-new-array/range",
        Opcode::FillArrayData => "fill-array-data",
        Opcode::THROW => "throw",
        Opcode::GOTO => "goto",
        Opcode::Goto16 => "goto/16",
        Opcode::Goto32 => "goto/32",
        Opcode::PackedSwitch => "packed-switch",
        Opcode::SparseSwitch => "sparse-switch",
        Opcode::CmplFloat => "cmpl-float",
        Opcode::CmpgFloat => "cmpg-float",
        Opcode::CmplDouble => "cmpl-double",
        Opcode::CmpgDouble => "cmpg-double",
        Opcode::CmpLong => "cmp-long",
        Opcode::IfEq => "if-eq",
        Opcode::IfNe => "if-ne",
        Opcode::IfLt => "if-lt",
        Opcode::IfGe => "if-ge",
        Opcode::IfGt => "if-gt",
        Opcode::IfLe => "if-le",
        Opcode::IfEqz => "if-eqz",
        Opcode::IfNez => "if-nez",
        Opcode::IfLtz => "if-ltz",
        Opcode::IfGez => "if-gez",
        Opcode::IfGtz => "if-gtz",
        Opcode::IfLez => "if-lez",
        Opcode::AGET => "aget",
        Opcode::AgetWide => "aget-wide",
        Opcode::AgetObject => "aget-object",
        Opcode::AgetBoolean => "aget-boolean",
        Opcode::AgetByte => "aget-byte",
        Opcode::AgetChar => "aget-char",
        Opcode::AgetShort => "aget-short",
        Opcode::APUT => "aput",
        Opcode::AputWide => "aput-wide",
        Opcode::AputObject => "aput-object",
        Opcode::AputBoolean => "aput-boolean",
        Opcode::AputByte => "aput-byte",
        Opcode::AputChar => "aput-char",
        Opcode::AputShort => "aput-short",
        Opcode::IGET => "iget",
        Opcode::IgetWide => "iget-wide",
        Opcode::IgetObject => "iget-object",
        Opcode::IgetBoolean => "iget-boolean",
        Opcode::IgetByte => "iget-byte",
        Opcode::IgetChar => "iget-char",
        Opcode::IgetShort => "iget-short",
        Opcode::IPUT => "iput",
        Opcode::IputWide => "iput-wide",
        Opcode::IputObject => "iput-object",
        Opcode::IputBoolean => "iput-boolean",
        Opcode::IputByte => "iput-byte",
        Opcode::IputChar => "iput-char",
        Opcode::IputShort => "iput-short",
        Opcode::SGET => "sget",
        Opcode::SgetWide => "sget-wide",
        Opcode::SgetObject => "sget-object",
        Opcode::SgetBoolean => "sget-boolean",
        Opcode::SgetByte => "sget-byte",
        Opcode::SgetChar => "sget-char",
        Opcode::SgetShort => "sget-short",
        Opcode::SPUT => "sput",
        Opcode::SputWide => "sput-wide",
        Opcode::SputObject => "sput-object",
        Opcode::SputBoolean => "sput-boolean",
        Opcode::SputByte => "sput-byte",
        Opcode::SputChar => "sput-char",
        Opcode::SputShort => "sput-short",
        Opcode::InvokeVirtual => "invoke-virtual",
        Opcode::InvokeSuper => "invoke-super",
        Opcode::InvokeDirect => "invoke-direct",
        Opcode::InvokeStatic => "invoke-static",
        Opcode::InvokeInterface => "invoke-interface",
        Opcode::InvokeVirtualRange => "invoke-virtual/range",
        Opcode::InvokeSuperRange => "invoke-super/range",
        Opcode::InvokeDirectRange => "invoke-direct/range",
        Opcode::InvokeStaticRange => "invoke-static/range",
        Opcode::InvokeInterfaceRange => "invoke-interface/range",
        Opcode::NegInt => "neg-int",
        Opcode::NotInt => "not-int",
        Opcode::NegLong => "neg-long",
        Opcode::NotLong => "not-long",
        Opcode::NegFloat => "neg-float",
        Opcode::NegDouble => "neg-double",
        Opcode::IntToLong => "int-to-long",
        Opcode::IntToFloat => "int-to-float",
        Opcode::IntToDouble => "int-to-double",
        Opcode::LongToInt => "long-to-int",
        Opcode::LongToFloat => "long-to-float",
        Opcode::LongToDouble => "long-to-double",
        Opcode::FloatToInt => "float-to-int",
        Opcode::FloatToLong => "float-to-long",
        Opcode::FloatToDouble => "float-to-double",
        Opcode::DoubleToInt => "double-to-int",
        Opcode::DoubleToLong => "double-to-long",
        Opcode::DoubleToFloat => "double-to-float",
        Opcode::IntToByte => "int-to-byte",
        Opcode::IntToChar => "int-to-char",
        Opcode::IntToShort => "int-to-short",
        Opcode::AddInt => "add-int",
        Opcode::SubInt => "sub-int",
        Opcode::MulInt => "mul-int",
        Opcode::DivInt => "div-int",
        Opcode::RemInt => "rem-int",
        Opcode::AndInt => "and-int",
        Opcode::OrInt => "or-int",
        Opcode::XorInt => "xor-int",
        Opcode::ShlInt => "shl-int",
        Opcode::ShrInt => "shr-int",
        Opcode::UshrInt => "ushr-int",
        Opcode::AddLong => "add-long",
        Opcode::SubLong => "sub-long",
        Opcode::MulLong => "mul-long",
        Opcode::DivLong => "div-long",
        Opcode::RemLong => "rem-long",
        Opcode::AndLong => "and-long",
        Opcode::OrLong => "or-long",
        Opcode::XorLong => "xor-long",
        Opcode::ShlLong => "shl-long",
        Opcode::ShrLong => "shr-long",
        Opcode::UshrLong => "ushr-long",
        Opcode::AddFloat => "add-float",
        Opcode::SubFloat => "sub-float",
        Opcode::MulFloat => "mul-float",
        Opcode::DivFloat => "div-float",
        Opcode::RemFloat => "rem-float",
        Opcode::AddDouble => "add-double",
        Opcode::SubDouble => "sub-double",
        Opcode::MulDouble => "mul-double",
        Opcode::DivDouble => "div-double",
        Opcode::RemDouble => "rem-double",
        Opcode::AddInt2addr => "add-int/2addr",
        Opcode::SubInt2addr => "sub-int/2addr",
        Opcode::MulInt2addr => "mul-int/2addr",
        Opcode::DivInt2addr => "div-int/2addr",
        Opcode::RemInt2addr => "rem-int/2addr",
        Opcode::AndInt2addr => "and-int/2addr",
        Opcode::OrInt2addr => "or-int/2addr",
        Opcode::XorInt2addr => "xor-int/2addr",
        Opcode::ShlInt2addr => "shl-int/2addr",
        Opcode::ShrInt2addr => "shr-int/2addr",
        Opcode::UshrInt2addr => "ushr-int/2addr",
        Opcode::AddLong2addr => "add-long/2addr",
        Opcode::SubLong2addr => "sub-long/2addr",
        Opcode::MulLong2addr => "mul-long/2addr",
        Opcode::DivLong2addr => "div-long/2addr",
        Opcode::RemLong2addr => "rem-long/2addr",
        Opcode::AndLong2addr => "and-long/2addr",
        Opcode::OrLong2addr => "or-long/2addr",
        Opcode::XorLong2addr => "xor-long/2addr",
        Opcode::ShlLong2addr => "shl-long/2addr",
        Opcode::ShrLong2addr => "shr-long/2addr",
        Opcode::UshrLong2addr => "ushr-long/2addr",
        Opcode::AddFloat2addr => "add-float/2addr",
        Opcode::SubFloat2addr => "sub-float/2addr",
        Opcode::MulFloat2addr => "mul-float/2addr",
        Opcode::DivFloat2addr => "div-float/2addr",
        Opcode::RemFloat2addr => "rem-float/2addr",
        Opcode::AddDouble2addr => "add-double/2addr",
        Opcode::SubDouble2addr => "sub-double/2addr",
        Opcode::MulDouble2addr => "mul-double/2addr",
        Opcode::DivDouble2addr => "div-double/2addr",
        Opcode::RemDouble2addr => "rem-double/2addr",
        Opcode::AddIntLit16 => "add-int/lit16",
        Opcode::RsubInt => "rsub-int",
        Opcode::MulIntLit16 => "mul-int/lit16",
        Opcode::DivIntLit16 => "div-int/lit16",
        Opcode::RemIntLit16 => "rem-int/lit16",
        Opcode::AndIntLit16 => "and-int/lit16",
        Opcode::OrIntLit16 => "or-int/lit16",
        Opcode::XorIntLit16 => "xor-int/lit16",
        Opcode::AddIntLit8 => "add-int/lit8",
        Opcode::RsubIntLit8 => "rsub-int/lit8",
        Opcode::MulIntLit8 => "mul-int/lit8",
        Opcode::DivIntLit8 => "div-int/lit8",
        Opcode::RemIntLit8 => "rem-int/lit8",
        Opcode::AndIntLit8 => "and-int/lit8",
        Opcode::OrIntLit8 => "or-int/lit8",
        Opcode::XorIntLit8 => "xor-int/lit8",
        Opcode::ShlIntLit8 => "shl-int/lit8",
        Opcode::ShrIntLit8 => "shr-int/lit8",
        Opcode::UshrIntLit8 => "ushr-int/lit8",
        Opcode::IgetVolatile => "iget-volatile",
        Opcode::IputVolatile => "iput-volatile",
        Opcode::SgetVolatile => "sget-volatile",
        Opcode::SputVolatile => "sput-volatile",
        Opcode::IgetObjectVolatile => "iget-object-volatile",
        Opcode::IgetWideVolatile => "iget-wide-volatile",
        Opcode::IputWideVolatile => "iput-wide-volatile",
        Opcode::SgetWideVolatile => "sget-wide-volatile",
        Opcode::SputWideVolatile => "sput-wide-volatile",
        Opcode::ThrowVerificationError => "throw-verification-error",
        Opcode::ExecuteInline => "execute-inline",
        Opcode::ExecuteInlineRange => "execute-inline/range",
        Opcode::InvokeObjectInitRange => "invoke-object-init/range",
        Opcode::ReturnVoidNoBarrier => "return-void-no-barrier",
        Opcode::InvokeSuperQuick => "invoke-super-quick",
        Opcode::InvokeSuperQuickRange => "invoke-super-quick/range",
        Opcode::IputObjectVolatile => "iput-object-volatile",
        Opcode::SgetObjectVolatile => "sget-object-volatile",
        Opcode::SputObjectVolatile => "sput-object-volatile",
        Opcode::PackedSwitchPayload => "packed-switch-payload",
        Opcode::SparseSwitchPayload => "sparse-switch-payload",
        Opcode::ArrayPayload => "array-payload",
        Opcode::InvokePolymorphic => "invoke-polymorphic",
        Opcode::InvokePolymorphicRange => "invoke-polymorphic/range",
        Opcode::InvokeCustom => "invoke-custom",
        Opcode::InvokeCustomRange => "invoke-custom/range",
        Opcode::ConstMethodHandle => "const-method-handle",
        Opcode::ConstMethodType => "const-method-type",
    }
}

/// The opcode that `value` names: in ODEX mode the optimized opcodes win the
/// values they share with later standard ones, and in standard mode the
/// optimized opcodes do not exist.
pub open spec fn spec_from_value(value: u16, odex: bool) -> Option<Opcode> {
    match value {
        0x0 => Option::Some(Opcode::Nop),
        0x1 => Option::Some(Opcode::Move),
        0x2 => Option::Some(Opcode::MoveFrom16),
        0x3 => Option::Some(Opcode::Move16),
        0x4 => Option::Some(Opcode::MoveWide),
        0x5 => Option::Some(Opcode::MoveWideFrom16),
        0x6 => Option::Some(Opcode::MoveWide16),
        0x7 => Option::Some(Opcode::MoveObject),
        0x8 => Option::Some(Opcode::MoveObjectFrom16),
        0x9 => Option::Some(Opcode::MoveObject16),
        0xa => Option::Some(Opcode::MoveResult),
        0xb => Option::Some(Opcode::MoveResultWide),
        0xc => Option::Some(Opcode::MoveResultObject),
        0xd => Option::Some(Opcode::MoveException),
        0xe => Option::Some(Opcode::ReturnVoid),
        0xf => Option::Some(Opcode::Return),
        0x10 => Option::Some(Opcode::ReturnWide),
        0x11 => Option::Some(Opcode::ReturnObject),
        0x12 => Option::Some(Opcode::Const4),
        0x13 => Option::Some(Opcode::Const16),
        0x14 => Option::Some(Opcode::CONST),
        0x15 => Option::Some(Opcode::ConstHigh16),
        0x16 => Option::Some(Opcode::ConstWide16),
        0x17 => Option::Some(Opcode::ConstWide32),
        0x18 => Option::Some(Opcode::ConstWide),
        0x19 => Option::Some(Opcode::ConstWideHigh16),
        0x1a => Option::Some(Opcode::ConstString),
        0x1b => Option::Some(Opcode::ConstStringJumbo),
        0x1c => Option::Some(Opcode::ConstClass),
        0x1d => Option::Some(Opcode::MonitorEnter),
        0x1e => Option::Some(Opcode::MonitorExit),
        0x1f => Option::Some(Opcode::CheckCast),
        0x20 => Option::Some(Opcode::InstanceOf),
        0x21 => Option::Some(Opcode::ArrayLength),
        0x22 => Option::Some(Opcode::NewInstance),
        0x23 => Option::Some(Opcode::NewArray),
        0x24 => Option::Some(Opcode::FilledNewArray),
        0x25 => Option::Some(Opcode::FilledNewArrayRange),
        0x26 => Option::Some(Opcode::FillArrayData),
        0x27 => Option::Some(Opcode::THROW),
        0x28 => Option::Some(Opcode::GOTO),
        0x29 => Option::Some(Opcode::Goto16),
        0x2a => Option::Some(Opcode::Goto32),
        0x2b => Option::Some(Opcode::PackedSwitch),
        0x2c => Option::Some(Opcode::SparseSwitch),
        0x2d => Option::Some(Opcode::CmplFloat),
        0x2e => Option::Some(Opcode::CmpgFloat),
        0x2f => Option::Some(Opcode::CmplDouble),
        0x30 => Option::Some(Opcode::CmpgDouble),
        0x31 => Option::Some(Opcode::CmpLong),
        0x32 => Option::Some(Opcode::IfEq),
        0x33 => Option::Some(Opcode::IfNe),
        0x34 => Option::Some(Opcode::IfLt),
        0x35 => Option::Some(Opcode::IfGe),
        0x36 => Option::Some(Opcode::IfGt),
        0x37 => Option::Some(Opcode::IfLe),
        0x38 => Option::Some(Opcode::IfEqz),
        0x39 => Option::Some(Opcode::IfNez),
        0x3a => Option::Some(Opcode::IfLtz),
        0x3b => Option::Some(Opcode::IfGez),
        0x3c => Option::Some(Opcode::IfGtz),
        0x3d => Option::Some(Opcode::IfLez),
        0x44 => Option::Some(Opcode::AGET),
        0x45 => Option::Some(Opcode::AgetWide),
        0x46 => Option::Some(Opcode::AgetObject),
        0x47 => Option::Some(Opcode::AgetBoolean),
        0x48 => Option::Some(Opcode::AgetByte),
        0x49 => Option::Some(Opcode::AgetChar),
        0x4a => Option::Some(Opcode::AgetShort),
        0x4b => Option::Some(Opcode::APUT),
        0x4c => Option::Some(Opcode::AputWide),
        0x4d => Option::Some(Opcode::AputObject),
        0x4e => Option::Some(Opcode::AputBoolean),
        0x4f => Option::Some(Opcode::AputByte),
        0x50 => Option::Some(Opcode::AputChar),
        0x51 => Option::Some(Opcode::AputShort),
        0x52 => Option::Some(Opcode::IGET),
        0x53 => Option::Some(Opcode::IgetWide),
        0x54 => Option::Some(Opcode::IgetObject),
        0x55 => Option::Some(Opcode::IgetBoolean),
        0x56 => Option::Some(Opcode::IgetByte),
        0x57 => Option::Some(Opcode::IgetChar),
        0x58 => Option::Some(Opcode::IgetShort),
        0x59 => Option::Some(Opcode::IPUT),
        0x5a => Option::Some(Opcode::IputWide),
        0x5b => Option::Some(Opcode::IputObject),
        0x5c => Option::Some(Opcode::IputBoolean),
        0x5d => Option::Some(Opcode::IputByte),
        0x5e => Option::Some(Opcode::IputChar),
        0x5f => Option::Some(Opcode::IputShort),
        0x60 => Option::Some(Opcode::SGET),
        0x61 => Option::Some(Opcode::SgetWide),
        0x62 => Option::Some(Opcode::SgetObject),
        0x63 => Option::Some(Opcode::SgetBoolean),
        0x64 => Option::Some(Opcode::SgetByte),
        0x65 => Option::Some(Opcode::SgetChar),
        0x66 => Option::Some(Opcode::SgetShort),
        0x67 => Option::Some(Opcode::SPUT),
        0x68 => Option::Some(Opcode::SputWide),
        0x69 => Option::Some(Opcode::SputObject),
        0x6a => Option::Some(Opcode::SputBoolean),
        0x6b => Option::Some(Opcode::SputByte),
        0x6c => Option::Some(Opcode::SputChar),
        0x6d => Option::Some(Opcode::SputShort),
        0x6e => Option::Some(Opcode::InvokeVirtual),
        0x6f => Option::Some(Opcode::InvokeSuper),
        0x70 => Option::Some(Opcode::InvokeDirect),
        0x71 => Option::Some(Opcode::InvokeStatic),
        0x72 => Option::Some(Opcode::InvokeInterface),
        0x73 => if odex { Option::Some(Opcode::ReturnVoidNoBarrier) } else { Option::None },
        0x74 => Option::Some(Opcode::InvokeVirtualRange),
        0x75 => Option::Some(Opcode::InvokeSuperRange),
        0x76 => Option::Some(Opcode::InvokeDirectRange),
        0x77 => Option::Some(Opcode::InvokeStaticRange),
        0x78 => Option::Some(Opcode::InvokeInterfaceRange),
        0x7b => Option::Some(Opcode::NegInt),
        0x7c => Option::Some(Opcode::NotInt),
        0x7d => Option::Some(Opcode::NegLong),
        0x7e => Option::Some(Opcode::NotLong),
        0x7f => Option::Some(Opcode::NegFloat),
        0x80 => Option::Some(Opcode::NegDouble),
        0x81 => Option::Some(Opcode::IntToLong),
        0x82 => Option::Some(Opcode::IntToFloat),
        0x83 => Option::Some(Opcode::IntToDouble),
        0x84 => Option::Some(Opcode::LongToInt),
        0x85 => Option::Some(Opcode::LongToFloat),
        0x86 => Option::Some(Opcode::LongToDouble),
        0x87 => Option::Some(Opcode::FloatToInt),
        0x88 => Option::Some(Opcode::FloatToLong),
        0x89 => Option::Some(Opcode::FloatToDouble),
        0x8a => Option::Some(Opcode::DoubleToInt),
        0x8b => Option::Some(Opcode::DoubleToLong),
        0x8c => Option::Some(Opcode::DoubleToFloat),
        0x8d => Option::Some(Opcode::IntToByte),
        0x8e => Option::Some(Opcode::IntToChar),
        0x8f => Option::Some(Opcode::IntToShort),
        0x90 => Option::Some(Opcode::AddInt),
        0x91 => Option::Some(Opcode::SubInt),
        0x92 => Option::Some(Opcode::MulInt),
        0x93 => Option::Some(Opcode::DivInt),
        0x94 => Option::Some(Opcode::RemInt),
        0x95 => Option::Some(Opcode::AndInt),
        0x96 => Option::Some(Opcode::OrInt),
        0x97 => Option::Some(Opcode::XorInt),
        0x98 => Option::Some(Opcode::ShlInt),
        0x99 => Option::Some(Opcode::ShrInt),
        0x9a => Option::Some(Opcode::UshrInt),
        0x9b => Option::Some(Opcode::AddLong),
        0x9c => Option::Some(Opcode::SubLong),
        0x9d => Option::Some(Opcode::MulLong),
        0x9e => Option::Some(Opcode::DivLong),
        0x9f => Option::Some(Opcode::RemLong),
        0xa0 => Option::Some(Opcode::AndLong),
        0xa1 => Option::Some(Opcode::OrLong),
        0xa2 => Option::Some(Opcode::XorLong),
        0xa3 => Option::Some(Opcode::ShlLong),
        0xa4 => Option::Some(Opcode::ShrLong),
        0xa5 => Option::Some(Opcode::UshrLong),
        0xa6 => Option::Some(Opcode::AddFloat),
        0xa7 => Option::Some(Opcode::SubFloat),
        0xa8 => Option::Some(Opcode::MulFloat),
        0xa9 => Option::Some(Opcode::DivFloat),
        0xaa => Option::Some(Opcode::RemFloat),
        0xab => Option::Some(Opcode::AddDouble),
        0xac => Option::Some(Opcode::SubDouble),
        0xad => Option::Some(Opcode::MulDouble),
        0xae => Option::Some(Opcode::DivDouble),
        0xaf => Option::Some(Opcode::RemDouble),
        0xb0 => Option::Some(Opcode::AddInt2addr),
        0xb1 => Option::Some(Opcode::SubInt2addr),
        0xb2 => Option::Some(Opcode::MulInt2addr),
        0xb3 => Option::Some(Opcode::DivInt2addr),
        0xb4 => Option::Some(Opcode::RemInt2addr),
        0xb5 => Option::Some(Opcode::AndInt2addr),
        0xb6 => Option::Some(Opcode::OrInt2addr),
        0xb7 => Option::Some(Opcode::XorInt2addr),
        0xb8 => Option::Some(Opcode::ShlInt2addr),
        0xb9 => Option::Some(Opcode::ShrInt2addr),
        0xba => Option::Some(Opcode::UshrInt2addr),
        0xbb => Option::Some(Opcode::AddLong2addr),
        0xbc => Option::Some(Opcode::SubLong2addr),
        0xbd => Option::Some(Opcode::MulLong2addr),
        0xbe => Option::Some(Opcode::DivLong2addr),
        0xbf => Option::Some(Opcode::RemLong2addr),
        0xc0 => Option::Some(Opcode::AndLong2addr),
        0xc1 => Option::Some(Opcode::OrLong2addr),
        0xc2 => Option::Some(Opcode::XorLong2addr),
        0xc3 => Option::Some(Opcode::ShlLong2addr),
        0xc4 => Option::Some(Opcode::ShrLong2addr),
        0xc5 => Option::Some(Opcode::UshrLong2addr),
        0xc6 => Option::Some(Opcode::AddFloat2addr),
        0xc7 => Option::Some(Opcode::SubFloat2addr),
        0xc8 => Option::Some(Opcode::MulFloat2addr),
        0xc9 => Option::Some(Opcode::DivFloat2addr),
        0xca => Option::Some(Opcode::RemFloat2addr),
        0xcb => Option::Some(Opcode::AddDouble2addr),
        0xcc => Option::Some(Opcode::SubDouble2addr),
        0xcd => Option::Some(Opcode::MulDouble2addr),
        0xce => Option::Some(Opcode::DivDouble2addr),
        0xcf => Option::Some(Opcode::RemDouble2addr),
        0xd0 => Option::Some(Opcode::AddIntLit16),
        0xd1 => Option::Some(Opcode::RsubInt),
        0xd2 => Option::Some(Opcode::MulIntLit16),
        0xd3 => Option::Some(Opcode::DivIntLit16),
        0xd4 => Option::Some(Opcode::RemIntLit16),
        0xd5 => Option::Some(Opcode::AndIntLit16),
        0xd6 => Option::Some(Opcode::OrIntLit16),
        0xd7 => Option::Some(Opcode::XorIntLit16),
        0xd8 => Option::Some(Opcode::AddIntLit8),
        0xd9 => Option::Some(Opcode::RsubIntLit8),
        0xda => Option::Some(Opcode::MulIntLit8),
        0xdb => Option::Some(Opcode::DivIntLit8),
        0xdc => Option::Some(Opcode::RemIntLit8),
        0xdd => Option::Some(Opcode::AndIntLit8),
        0xde => Option::Some(Opcode::OrIntLit8),
        0xdf => Option::Some(Opcode::XorIntLit8),
        0xe0 => Option::Some(Opcode::ShlIntLit8),
        0xe1 => Option::Some(Opcode::ShrIntLit8),
        0xe2 => Option::Some(Opcode::UshrIntLit8),
        0xe3 => if odex { Option::Some(Opcode::IgetVolatile) } else { Option::None },
        0xe4 => if odex { Option::Some(Opcode::IputVolatile) } else { Option::None },
        0xe5 => if odex { Option::Some(Opcode::SgetVolatile) } else { Option::None },
        0xe6 => if odex { Option::Some(Opcode::SputVolatile) } else { Option::None },
        0xe7 => if odex { Option::Some(Opcode::IgetObjectVolatile) } else { Option::None },
        0xe8 => if odex { Option::Some(Opcode::IgetWideVolatile) } else { Option::None },
        0xe9 => if odex { Option::Some(Opcode::IputWideVolatile) } else { Option::None },
        0xea => if odex { Option::Some(Opcode::SgetWideVolatile) } else { Option::None },
        0xeb => if odex { Option::Some(Opcode::SputWideVolatile) } else { Option::None },
        0xed => if odex { Option::Some(Opcode::ThrowVerificationError) } else { Option::None },
        0xee => if odex { Option::Some(Opcode::ExecuteInline) } else { Option::None },
        0xef => if odex { Option::Some(Opcode::ExecuteInlineRange) } else { Option::None },
        0xf0 => if odex { Option::Some(Opcode::InvokeObjectInitRange) } else { Option::None },
        0xfa => if odex { Option::Some(Opcode::InvokeSuperQuick) } else { Option::Some(Opcode::InvokePolymorphic) },
        0xfb => if odex { Option::Some(Opcode::InvokeSuperQuickRange) } else { Option::Some(Opcode::InvokePolymorphicRange) },
        0xfc => if odex { Option::Some(Opcode::IputObjectVolatile) } else { Option::Some(Opcode::InvokeCustom) },
        0xfd => if odex { Option::Some(Opcode::SgetObjectVolatile) } else { Option::Some(Opcode::InvokeCustomRange) },
        0xfe => if odex { Option::Some(Opcode::SputObjectVolatile) } else { Option::Some(Opcode::ConstMethodHandle) },
        0xff => Option::Some(Opcode::ConstMethodType),
        0x100 => Option::Some(Opcode::PackedSwitchPayload),
        0x200 => Option::Some(Opcode::SparseSwitchPayload),
        0x300 => Option::Some(Opcode::ArrayPayload),
        _ => Option::None,
    }
}

/// Whether `op` exists only in optimized (ODEX) files.
pub open spec fn spec_odex_only(op: Opcode) -> bool {
    (spec_info(op).flags / ODEX_ONLY) % 2 == 1
}

impl Opcode {
    /// The attributes of the opcode.
    pub fn info(&self) -> (r: OpcodeInfo)
        ensures
            r == spec_info(*self),
    {
        match self {
            Opcode::Nop => OpcodeInfo { value: 0x0, format: Format::Format10x, reference_type: ReferenceType::NoReference, reference_type_2: ReferenceType::NoReference, flags: 0x4 },
            Opcode::Move => OpcodeInfo { value: 0x1, format: Format::Format12x, reference_type: ReferenceType::NoReference, reference_type_2: ReferenceType::NoReference, flags: 0x14 },
            Opcode::MoveFrom16 => OpcodeInfo { value: 0x2, format: Format::Format22x, reference_type: ReferenceType::NoReference, reference_type_2: ReferenceType::NoReference, flags: 0x14 },
            Opcode::Move16 => OpcodeInfo { value: 0x3, format: Format::Format32x, reference_type: ReferenceType::NoReference, reference_type_2: ReferenceType::NoReference, flags: 0x14 },
            Opcode::MoveWide => OpcodeInfo { value: 0x4, format: Format::Format12x, reference_type: ReferenceType::NoReference, reference_type_2: ReferenceType::NoReference, flags: 0x34 },
            Opcode::MoveWideFrom16 => OpcodeInfo { value: 0x5, format: Format::Format22x, reference_type: ReferenceType::NoReference, reference_type_2: ReferenceType::NoReference, flags: 0x34 },
            Opcode::MoveWide16 => OpcodeInfo { value: 0x6, format: Format::Format32x, reference_type: ReferenceType::NoReference, reference_type_2: ReferenceType::NoReference, flags: 0x34 },
            Opcode::MoveObject => OpcodeInfo { value: 0x7, format: Format::Format12x, reference_type: ReferenceType::NoReference, reference_type_2: ReferenceType::NoReference, flags: 0x14 },
            Opcode::MoveObjectFrom16 => OpcodeInfo { value: 0x8, format: Format::Format22x, reference_type: ReferenceType::NoReference, reference_type_2: ReferenceType::NoReference, flags: 0x14 },
            Opcode::MoveObject16 => OpcodeInfo { value: 0x9, format: Format::Format32x, reference_type: ReferenceType::NoReference, reference_type_2: ReferenceType::NoReference, flags: 0x14 },
            Opcode::MoveResult => OpcodeInfo { value: 0xa, format: Format::Format11x, reference_type: ReferenceType::NoReference, reference_type_2: ReferenceType::NoReference, flags: 0x14 },
            Opcode::MoveResultWide => OpcodeInfo { value: 0xb, format: Format::Format11x, reference_type: ReferenceType::NoReference, reference_type_2: ReferenceType::NoReference, flags: 0x34 },
            Opcode::MoveResultObject => OpcodeInfo { value: 0xc, format: Format::Format11x, reference_type: ReferenceType::NoReference, reference_type_2: ReferenceType::NoReference, flags: 0x14 },
            Opcode::MoveException => OpcodeInfo { value: 0xd, format: Format::Format11x, reference_type: ReferenceType::NoReference, reference_type_2: ReferenceType::NoReference, flags: 0x14 },
            Opcode::ReturnVoid => OpcodeInfo { value: 0xe, format: Format::Format10x, reference_type: ReferenceType::NoReference, reference_type_2: ReferenceType::NoReference, flags: 0x0 },
            Opcode::Return => OpcodeInfo { value: 0xf, format: Format::Format11x, reference_type: ReferenceType::NoReference, reference_type_2: ReferenceType::NoReference, flags: 0x0 },
            Opcode::ReturnWide => OpcodeInfo { value: 0x10, format: Format::Format11x, reference_type: ReferenceType::NoReference, reference_type_2: ReferenceType::NoReference, flags: 0x0 },
            Opcode::ReturnObject => OpcodeInfo { value: 0x11, format: Format::Format11x, reference_type: ReferenceType::NoReference, reference_type_2: ReferenceType::NoReference, flags: 0x0 },
            Opcode::Const4 => OpcodeInfo { value: 0x12, format: Format::Format11n, reference_type: ReferenceType::NoReference, reference_type_2: ReferenceType::NoReference, flags: 0x14 },
            Opcode::Const16 => OpcodeInfo { value: 0x13, format: Format::Format21s, reference_type: ReferenceType::NoReference, reference_type_2: ReferenceType::NoReference, flags: 0x14 },
            Opcode::CONST => OpcodeInfo { value: 0x14, format: Format::Format31i, reference_type: ReferenceType::NoReference, reference_type_2: ReferenceType::NoReference, flags: 0x14 },
            Opcode::ConstHigh16 => OpcodeInfo { value: 0x15, format: Format::Format21ih, reference_type: ReferenceType::NoReference, reference_type_2: ReferenceType::NoReference, flags: 0x14 },
            Opcode::ConstWide16 => OpcodeInfo { value: 0x16, format: Format::Format21s, reference_type: ReferenceType::NoReference, reference_type_2: ReferenceType::NoReference, flags: 0x34 },
            Opcode::ConstWide32 => OpcodeInfo { value: 0x17, format: Format::Format31i, reference_type: ReferenceType::NoReference, reference_type_2: ReferenceType::NoReference, flags: 0x34 },
            Opcode::ConstWide => OpcodeInfo { value: 0x18, format: Format::Format51l, reference_type: ReferenceType::NoReference, reference_type_2: ReferenceType::NoReference, flags: 0x34 },
            Opcode::ConstWideHigh16 => OpcodeInfo { value: 0x19, format: Format::Format21lh, reference_type: ReferenceType::NoReference, reference_type_2: ReferenceType::NoReference, flags: 0x34 },
            Opcode::ConstString => OpcodeInfo { value: 0x1a, format: Format::Format21c, reference_type: ReferenceType::String, reference_type_2: ReferenceType::NoReference, flags: 0x15 },
            Opcode::ConstStringJumbo => OpcodeInfo { value: 0x1b, format: Format::Format31c, reference_type: ReferenceType::String, reference_type_2: ReferenceType::NoReference, flags: 0x15 },
            Opcode::ConstClass => OpcodeInfo { value: 0x1c, format: Format::Format21c, reference_type: ReferenceType::Type, reference_type_2: ReferenceType::NoReference, flags: 0x15 },
            Opcode::MonitorEnter => OpcodeInfo { value: 0x1d, format: Format::Format11x, reference_type: ReferenceType::NoReference, reference_type_2: ReferenceType::NoReference, flags: 0x5 },
            Opcode::MonitorExit => OpcodeInfo { value: 0x1e, format: Format::Format11x, reference_type: ReferenceType::NoReference, reference_type_2: ReferenceType::NoReference, flags: 0x5 },
            Opcode::CheckCast => OpcodeInfo { value: 0x1f, format: Format::Format21c, reference_type: ReferenceType::Type, reference_type_2: ReferenceType::NoReference, flags: 0x15 },
            Opcode::InstanceOf => OpcodeInfo { value: 0x20, format: Format::Format22c, reference_type: ReferenceType::Type, reference_type_2: ReferenceType::NoReference, flags: 0x15 },
            Opcode::ArrayLength => OpcodeInfo { value: 0x21, format: Format::Format12x, reference_type: ReferenceType::NoReference, reference_type_2: ReferenceType::NoReference, flags: 0x15 },
            Opcode::NewInstance => OpcodeInfo { value: 0x22, format: Format::Format21c, reference_type: ReferenceType::Type, reference_type_2: ReferenceType::NoReference, flags: 0x15 },
            Opcode::NewArray => OpcodeInfo { value: 0x23, format: Format::Format22c, reference_type: ReferenceType::Type, reference_type_2: ReferenceType::NoReference, flags: 0x15 },
            Opcode::FilledNewArray => OpcodeInfo { value: 0x24, format: Format::Format35c, reference_type: ReferenceType::Type, reference_type_2: ReferenceType::NoReference, flags: 0xd },
            Opcode::FilledNewArrayRange => OpcodeInfo { value: 0x25, format: Format::Format3rc, reference_type: ReferenceType::Type, reference_type_2: ReferenceType::NoReference, flags: 0xd },
            Opcode::FillArrayData => OpcodeInfo { value: 0x26, format: Format::Format31t, reference_type: ReferenceType::NoReference, reference_type_2: ReferenceType::NoReference, flags: 0x4 },
            Opcode::THROW => OpcodeInfo { value: 0x27, format: Format::Format11x, reference_type: ReferenceType::NoReference, reference_type_2: ReferenceType::NoReference, flags: 0x1 },
            Opcode::GOTO => OpcodeInfo { value: 0x28, format: Format::Format10t, reference_type: ReferenceType::NoReference, reference_type_2: ReferenceType::NoReference, flags: 0x0 },
            Opcode::Goto16 => OpcodeInfo { value: 0x29, format: Format::Format20t, reference_type: ReferenceType::NoReference, reference_type_2: ReferenceType::NoReference, flags: 0x0 },
            Opcode::Goto32 => OpcodeInfo { value: 0x2a, format: Format::Format30t, reference_type: ReferenceType::NoReference, reference_type_2: ReferenceType::NoReference, flags: 0x0 },
            Opcode::PackedSwitch => OpcodeInfo { value: 0x2b, format: Format::Format31t, reference_type: ReferenceType::NoReference, reference_type_2: ReferenceType::NoReference, flags: 0x4 },
            Opcode::SparseSwitch => OpcodeInfo { value: 0x2c, format: Format::Format31t, reference_type: ReferenceType::NoReference, reference_type_2: ReferenceType::NoReference, flags: 0x4 },
            Opcode::CmplFloat => OpcodeInfo { value: 0x2d, format: Format::Format23x, reference_type: ReferenceType::NoReference, reference_type_2: ReferenceType::NoReference, flags: 0x14 },
            Opcode::CmpgFloat => OpcodeInfo { value: 0x2e, format: Format::Format23x, reference_type: ReferenceType::NoReference, reference_type_2: ReferenceType::NoReference, flags: 0x14 },
            Opcode::CmplDouble => OpcodeInfo { value: 0x2f, format: Format::Format23x, reference_type: ReferenceType::NoReference, reference_type_2: ReferenceType::NoReference, flags: 0x14 },
            Opcode::CmpgDouble => OpcodeInfo { value: 0x30, format: Format::Format23x, reference_type: ReferenceType::NoReference, reference_type_2: ReferenceType::NoReference, flags: 0x14 },
            Opcode::CmpLong => OpcodeInfo { value: 0x31, format: Format::Format23x, reference_type: ReferenceType::NoReference, reference_type_2: ReferenceType::NoReference, flags: 0x14 },
            Opcode::IfEq => OpcodeInfo { value: 0x32, format: Format::Format22t, reference_type: ReferenceType::NoReference, reference_type_2: ReferenceType::NoReference, flags: 0x4 },
            Opcode::IfNe => OpcodeInfo { value: 0x33, format: Format::Format22t, reference_type: ReferenceType::NoReference, reference_type_2: ReferenceType::NoReference, flags: 0x4 },
            Opcode::IfLt => OpcodeInfo { value: 0x34, format: Format::Format22t, reference_type: ReferenceType::NoReference, reference_type_2: ReferenceType::NoReference, flags: 0x4 },
            Opcode::IfGe => OpcodeInfo { value: 0x35, format: Format::Format22t, reference_type: ReferenceType::NoReference, reference_type_2: ReferenceType::NoReference, flags: 0x4 },
            Opcode::IfGt => OpcodeInfo { value: 0x36, format: Format::Format22t, reference_type: ReferenceType::NoReference, reference_type_2: ReferenceType::NoReference, flags: 0x4 },
            Opcode::IfLe => OpcodeInfo { value: 0x37, format: Format::Format22t, reference_type: ReferenceType::NoReference, reference_type_2: ReferenceType::NoReference, flags: 0x4 },
            Opcode::IfEqz => OpcodeInfo { value: 0x38, format: Format::Format21t, reference_type: ReferenceType::NoReference, reference_type_2: ReferenceType::NoReference, flags: 0x4 },
            Opcode::IfNez => OpcodeInfo { value: 0x39, format: Format::Format21t, reference_type: ReferenceType::NoReference, reference_type_2: ReferenceType::NoReference, flags: 0x4 },
            Opcode::IfLtz => OpcodeInfo { value: 0x3a, format: Format::Format21t, reference_type: ReferenceType::NoReference, reference_type_2: ReferenceType::NoReference, flags: 0x4 },
            Opcode::IfGez => OpcodeInfo { value: 0x3b, format: Format::Format21t, reference_type: ReferenceType::NoReference, reference_type_2: ReferenceType::NoReference, flags: 0x4 },
            Opcode::IfGtz => OpcodeInfo { value: 0x3c, format: Format::Format21t, reference_type: ReferenceType::NoReference, reference_type_2: ReferenceType::NoReference, flags: 0x4 },
            Opcode::IfLez => OpcodeInfo { value: 0x3d, format: Format::Format21t, reference_type: ReferenceType::NoReference, reference_type_2: ReferenceType::NoReference, flags: 0x4 },
            Opcode::AGET => OpcodeInfo { value: 0x44, format: Format::Format23x, reference_type: ReferenceType::NoReference, reference_type_2: ReferenceType::NoReference, flags: 0x15 },
            Opcode::AgetWide => OpcodeInfo { value: 0x45, format: Format::Format23x, reference_type: ReferenceType::NoReference, reference_type_2: ReferenceType::NoReference, flags: 0x35 },
            Opcode::AgetObject => OpcodeInfo { value: 0x46, format: Format::Format23x, reference_type: ReferenceType::NoReference, reference_type_2: ReferenceType::NoReference, flags: 0x15 },
            Opcode::AgetBoolean => OpcodeInfo { value: 0x47, format: Format::Format23x, reference_type: ReferenceType::NoReference, reference_type_2: ReferenceType::NoReference, flags: 0x15 },
            Opcode::AgetByte => OpcodeInfo { value: 0x48, format: Format::Format23x, reference_type: ReferenceType::NoReference, reference_type_2: ReferenceType::NoReference, flags: 0x15 },
            Opcode::AgetChar => OpcodeInfo { value: 0x49, format: Format::Format23x, reference_type: ReferenceType::NoReference, reference_type_2: ReferenceType::NoReference, flags: 0x15 },
            Opcode::AgetShort => OpcodeInfo { value: 0x4a, format: Format::Format23x, reference_type: ReferenceType::NoReference, reference_type_2: ReferenceType::NoReference, flags: 0x15 },
            Opcode::APUT => OpcodeInfo { value: 0x4b, format: Format::Format23x, reference_type: ReferenceType::NoReference, reference_type_2: ReferenceType::NoReference, flags: 0x5 },
            Opcode::AputWide => OpcodeInfo { value: 0x4c, format: Format::Format23x, reference_type: ReferenceType::NoReference, reference_type_2: ReferenceType::NoReference, flags: 0x5 },
            Opcode::AputObject => OpcodeInfo { value: 0x4d, format: Format::Format23x, reference_type: ReferenceType::NoReference, reference_type_2: ReferenceType::NoReference, flags: 0x5 },
            Opcode::AputBoolean => OpcodeInfo { value: 0x4e, format: Format::Format23x, reference_type: ReferenceType::NoReference, reference_type_2: ReferenceType::NoReference, flags: 0x5 },
            Opcode::AputByte => OpcodeInfo { value: 0x4f, format: Format::Format23x, reference_type: ReferenceType::NoReference, reference_type_2: ReferenceType::NoReference, flags: 0x5 },
            Opcode::AputChar => OpcodeInfo { value: 0x50, format: Format::Format23x, reference_type: ReferenceType::NoReference, reference_type_2: ReferenceType::NoReference, flags: 0x5 },
            Opcode::AputShort => OpcodeInfo { value: 0x51, format: Format::Format23x, reference_type: ReferenceType::NoReference, reference_type_2: ReferenceType::NoReference, flags: 0x5 },
            Opcode::IGET => OpcodeInfo { value: 0x52, format: Format::Format22c, reference_type: ReferenceType::Field, reference_type_2: ReferenceType::NoReference, flags: 0x15 },
            Opcode::IgetWide => OpcodeInfo { value: 0x53, format: Format::Format22c, reference_type: ReferenceType::Field, reference_type_2: ReferenceType::NoReference, flags: 0x35 },
            Opcode::IgetObject => OpcodeInfo { value: 0x54, format: Format::Format22c, reference_type: ReferenceType::Field, reference_type_2: ReferenceType::NoReference, flags: 0x15 },
            Opcode::IgetBoolean => OpcodeInfo { value: 0x55, format: Format::Format22c, reference_type: ReferenceType::Field, reference_type_2: ReferenceType::NoReference, flags: 0x15 },
            Opcode::IgetByte => OpcodeInfo { value: 0x56, format: Format::Format22c, reference_type: ReferenceType::Field, reference_type_2: ReferenceType::NoReference, flags: 0x15 },
            Opcode::IgetChar => OpcodeInfo { value: 0x57, format: Format::Format22c, reference_type: ReferenceType::Field, reference_type_2: ReferenceType::NoReference, flags: 0x15 },
            Opcode::IgetShort => OpcodeInfo { value: 0x58, format: Format::Format22c, reference_type: ReferenceType::Field, reference_type_2: ReferenceType::NoReference, flags: 0x15 },
            Opcode::IPUT => OpcodeInfo { value: 0x59, format: Format::Format22c, reference_type: ReferenceType::Field, reference_type_2: ReferenceType::NoReference, flags: 0x5 },
            Opcode::IputWide => OpcodeInfo { value: 0x5a, format: Format::Format22c, reference_type: ReferenceType::Field, reference_type_2: ReferenceType::NoReference, flags: 0x5 },
            Opcode::IputObject => OpcodeInfo { value: 0x5b, format: Format::Format22c, reference_type: ReferenceType::Field, reference_type_2: ReferenceType::NoReference, flags: 0x5 },
            Opcode::IputBoolean => OpcodeInfo { value: 0x5c, format: Format::Format22c, reference_type: ReferenceType::Field, reference_type_2: ReferenceType::NoReference, flags: 0x5 },
            Opcode::IputByte => OpcodeInfo { value: 0x5d, format: Format::Format22c, reference_type: ReferenceType::Field, reference_type_2: ReferenceType::NoReference, flags: 0x5 },
            Opcode::IputChar => OpcodeInfo { value: 0x5e, format: Format::Format22c, reference_type: ReferenceType::Field, reference_type_2: ReferenceType::NoReference, flags: 0x5 },
            Opcode::IputShort => OpcodeInfo { value: 0x5f, format: Format::Format22c, reference_type: ReferenceType::Field, reference_type_2: ReferenceType::NoReference, flags: 0x5 },
            Opcode::SGET => OpcodeInfo { value: 0x60, format: Format::Format21c, reference_type: ReferenceType::Field, reference_type_2: ReferenceType::NoReference, flags: 0x115 },
            Opcode::SgetWide => OpcodeInfo { value: 0x61, format: Format::Format21c, reference_type: ReferenceType::Field, reference_type_2: ReferenceType::NoReference, flags: 0x135 },
            Opcode::SgetObject => OpcodeInfo { value: 0x62, format: Format::Format21c, reference_type: ReferenceType::Field, reference_type_2: ReferenceType::NoReference, flags: 0x115 },
            Opcode::SgetBoolean => OpcodeInfo { value: 0x63, format: Format::Format21c, reference_type: ReferenceType::Field, reference_type_2: ReferenceType::NoReference, flags: 0x115 },
            Opcode::SgetByte => OpcodeInfo { value: 0x64, format: Format::Format21c, reference_type: ReferenceType::Field, reference_type_2: ReferenceType::NoReference, flags: 0x115 },
            Opcode::SgetChar => OpcodeInfo { value: 0x65, format: Format::Format21c, reference_type: ReferenceType::Field, reference_type_2: ReferenceType::NoReference, flags: 0x115 },
            Opcode::SgetShort => OpcodeInfo { value: 0x66, format: Format::Format21c, reference_type: ReferenceType::Field, reference_type_2: ReferenceType::NoReference, flags: 0x115 },
            Opcode::SPUT => OpcodeInfo { value: 0x67, format: Format::Format21c, reference_type: ReferenceType::Field, reference_type_2: ReferenceType::NoReference, flags: 0x105 },
            Opcode::SputWide => OpcodeInfo { value: 0x68, format: Format::Format21c, reference_type: ReferenceType::Field, reference_type_2: ReferenceType::NoReference, flags: 0x105 },
            Opcode::SputObject => OpcodeInfo { value: 0x69, format: Format::Format21c, reference_type: ReferenceType::Field, reference_type_2: ReferenceType::NoReference, flags: 0x105 },
            Opcode::SputBoolean => OpcodeInfo { value: 0x6a, format: Format::Format21c, reference_type: ReferenceType::Field, reference_type_2: ReferenceType::NoReference, flags: 0x105 },
            Opcode::SputByte => OpcodeInfo { value: 0x6b, format: Format::Format21c, reference_type: ReferenceType::Field, reference_type_2: ReferenceType::NoReference, flags: 0x105 },
            Opcode::SputChar => OpcodeInfo { value: 0x6c, format: Format::Format21c, reference_type: ReferenceType::Field, reference_type_2: ReferenceType::NoReference, flags: 0x105 },
            Opcode::SputShort => OpcodeInfo { value: 0x6d, format: Format::Format21c, reference_type: ReferenceType::Field, reference_type_2: ReferenceType::NoReference, flags: 0x105 },
            Opcode::InvokeVirtual => OpcodeInfo { value: 0x6e, format: Format::Format35c, reference_type: ReferenceType::Method, reference_type_2: ReferenceType::NoReference, flags: 0xd },
            Opcode::InvokeSuper => OpcodeInfo { value: 0x6f, format: Format::Format35c, reference_type: ReferenceType::Method, reference_type_2: ReferenceType::NoReference, flags: 0xd },
            Opcode::InvokeDirect => OpcodeInfo { value: 0x70, format: Format::Format35c, reference_type: ReferenceType::Method, reference_type_2: ReferenceType::NoReference, flags: 0x40d },
            Opcode::InvokeStatic => OpcodeInfo { value: 0x71, format: Format::Format35c, reference_type: ReferenceType::Method, reference_type_2: ReferenceType::NoReference, flags: 0xd },
            Opcode::InvokeInterface => OpcodeInfo { value: 0x72, format: Format::Format35c, reference_type: ReferenceType::Method, reference_type_2: ReferenceType::NoReference, flags: 0xd },
            Opcode::InvokeVirtualRange => OpcodeInfo { value: 0x74, format: Format::Format3rc, reference_type: ReferenceType::Method, reference_type_2: ReferenceType::NoReference, flags: 0xd },
            Opcode::InvokeSuperRange => OpcodeInfo { value: 0x75, format: Format::Format3rc, reference_type: ReferenceType::Method, reference_type_2: ReferenceType::NoReference, flags: 0xd },
            Opcode::InvokeDirectRange => OpcodeInfo { value: 0x76, format: Format::Format3rc, reference_type: ReferenceType::Method, reference_type_2: ReferenceType::NoReference, flags: 0x40d },
            Opcode::InvokeStaticRange => OpcodeInfo { value: 0x77, format: Format::Format3rc, reference_type: ReferenceType::Method, reference_type_2: ReferenceType::NoReference, flags: 0xd },
            Opcode::InvokeInterfaceRange => OpcodeInfo { value: 0x78, format: Format::Format3rc, reference_type: ReferenceType::Method, reference_type_2: ReferenceType::NoReference, flags: 0xd },
            Opcode::NegInt => OpcodeInfo { value: 0x7b, format: Format::Format12x, reference_type: ReferenceType::NoReference, reference_type_2: ReferenceType::NoReference, flags: 0x14 },
            Opcode::NotInt => OpcodeInfo { value: 0x7c, format: Format::Format12x, reference_type: ReferenceType::NoReference, reference_type_2: ReferenceType::NoReference, flags: 0x14 },
            Opcode::NegLong => OpcodeInfo { value: 0x7d, format: Format::Format12x, reference_type: ReferenceType::NoReference, reference_type_2: ReferenceType::NoReference, flags: 0x34 },
            Opcode::NotLong => OpcodeInfo { value: 0x7e, format: Format::Format12x, reference_type: ReferenceType::NoReference, reference_type_2: ReferenceType::NoReference, flags: 0x34 },
            Opcode::NegFloat => OpcodeInfo { value: 0x7f, format: Format::Format12x, reference_type: ReferenceType::NoReference, reference_type_2: ReferenceType::NoReference, flags: 0x14 },
            Opcode::NegDouble => OpcodeInfo { value: 0x80, format: Format::Format12x, reference_type: ReferenceType::NoReference, reference_type_2: ReferenceType::NoReference, flags: 0x34 },
            Opcode::IntToLong => OpcodeInfo { value: 0x81, format: Format::Format12x, reference_type: ReferenceType::NoReference, reference_type_2: ReferenceType::NoReference, flags: 0x34 },
            Opcode::IntToFloat => OpcodeInfo { value: 0x82, format: Format::Format12x, reference_type: ReferenceType::NoReference, reference_type_2: ReferenceType::NoReference, flags: 0x14 },
            Opcode::IntToDouble => OpcodeInfo { value: 0x83, format: Format::Format12x, reference_type: ReferenceType::NoReference, reference_type_2: ReferenceType::NoReference, flags: 0x34 },
            Opcode::LongToInt => OpcodeInfo { value: 0x84, format: Format::Format12x, reference_type: ReferenceType::NoReference, reference_type_2: ReferenceType::NoReference, flags: 0x14 },
            Opcode::LongToFloat => OpcodeInfo { value: 0x85, format: Format::Format12x, reference_type: ReferenceType::NoReference, reference_type_2: ReferenceType::NoReference, flags: 0x14 },
            Opcode::LongToDouble => OpcodeInfo { value: 0x86, format: Format::Format12x, reference_type: ReferenceType::NoReference, reference_type_2: ReferenceType::NoReference, flags: 0x34 },
            Opcode::FloatToInt => OpcodeInfo { value: 0x87, format: Format::Format12x, reference_type: ReferenceType::NoReference, reference_type_2: ReferenceType::NoReference, flags: 0x14 },
            Opcode::FloatToLong => OpcodeInfo { value: 0x88, format: Format::Format12x, reference_type: ReferenceType::NoReference, reference_type_2: ReferenceType::NoReference, flags: 0x34 },
            Opcode::FloatToDouble => OpcodeInfo { value: 0x89, format: Format::Format12x, reference_type: ReferenceType::NoReference, reference_type_2: ReferenceType::NoReference, flags: 0x34 },
            Opcode::DoubleToInt => OpcodeInfo { value: 0x8a, format: Format::Format12x, reference_type: ReferenceType::NoReference, reference_type_2: ReferenceType::NoReference, flags: 0x14 },
            Opcode::DoubleToLong => OpcodeInfo { value: 0x8b, format: Format::Format12x, reference_type: ReferenceType::NoReference, reference_type_2: ReferenceType::NoReference, flags: 0x34 },
            Opcode::DoubleToFloat => OpcodeInfo { value: 0x8c, format: Format::Format12x, reference_type: ReferenceType::NoReference, reference_type_2: ReferenceType::NoReference, flags: 0x14 },
            Opcode::IntToByte => OpcodeInfo { value: 0x8d, format: Format::Format12x, reference_type: ReferenceType::NoReference, reference_type_2: ReferenceType::NoReference, flags: 0x14 },
            Opcode::IntToChar => OpcodeInfo { value: 0x8e, format: Format::Format12x, reference_type: ReferenceType::NoReference, reference_type_2: ReferenceType::NoReference, flags: 0x14 },
            Opcode::IntToShort => OpcodeInfo { value: 0x8f, format: Format::Format12x, reference_type: ReferenceType::NoReference, reference_type_2: ReferenceType::NoReference, flags: 0x14 },
            Opcode::AddInt => OpcodeInfo { value: 0x90, format: Format::Format23x, reference_type: ReferenceType::NoReference, reference_type_2: ReferenceType::NoReference, flags: 0x14 },
            Opcode::SubInt => OpcodeInfo { value: 0x91, format: Format::Format23x, reference_type: ReferenceType::NoReference, reference_type_2: ReferenceType::NoReference, flags: 0x14 },
            Opcode::MulInt => OpcodeInfo { value: 0x92, format: Format::Format23x, reference_type: ReferenceType::NoReference, reference_type_2: ReferenceType::NoReference, flags: 0x14 },
            Opcode::DivInt => OpcodeInfo { value: 0x93, format: Format::Format23x, reference_type: ReferenceType::NoReference, reference_type_2: ReferenceType::NoReference, flags: 0x15 },
            Opcode::RemInt => OpcodeInfo { value: 0x94, format: Format::Format23x, reference_type: ReferenceType::NoReference, reference_type_2: ReferenceType::NoReference, flags: 0x15 },
            Opcode::AndInt => OpcodeInfo { value: 0x95, format: Format::Format23x, reference_type: ReferenceType::NoReference, reference_type_2: ReferenceType::NoReference, flags: 0x14 },
            Opcode::OrInt => OpcodeInfo { value: 0x96, format: Format::Format23x, reference_type: ReferenceType::NoReference, reference_type_2: ReferenceType::NoReference, flags: 0x14 },
            Opcode::XorInt => OpcodeInfo { value: 0x97, format: Format::Format23x, reference_type: ReferenceType::NoReference, reference_type_2: ReferenceType::NoReference, flags: 0x14 },
            Opcode::ShlInt => OpcodeInfo { value: 0x98, format: Format::Format23x, reference_type: ReferenceType::NoReference, reference_type_2: ReferenceType::NoReference, flags: 0x14 },
            Opcode::ShrInt => OpcodeInfo { value: 0x99, format: Format::Format23x, reference_type: ReferenceType::NoReference, reference_type_2: ReferenceType::NoReference, flags: 0x14 },
            Opcode::UshrInt => OpcodeInfo { value: 0x9a, format: Format::Format23x, reference_type: ReferenceType::NoReference, reference_type_2: ReferenceType::NoReference, flags: 0x14 },
            Opcode::AddLong => OpcodeInfo { value: 0x9b, format: Format::Format23x, reference_type: ReferenceType::NoReference, reference_type_2: ReferenceType::NoReference, flags: 0x34 },
            Opcode::SubLong => OpcodeInfo { value: 0x9c, format: Format::Format23x, reference_type: ReferenceType::NoReference, reference_type_2: ReferenceType::NoReference, flags: 0x34 },
            Opcode::MulLong => OpcodeInfo { value: 0x9d, format: Format::Format23x, reference_type: ReferenceType::NoReference, reference_type_2: ReferenceType::NoReference, flags: 0x34 },
            Opcode::DivLong => OpcodeInfo { value: 0x9e, format: Format::Format23x, reference_type: ReferenceType::NoReference, reference_type_2: ReferenceType::NoReference, flags: 0x35 },
            Opcode::RemLong => OpcodeInfo { value: 0x9f, format: Format::Format23x, reference_type: ReferenceType::NoReference, reference_type_2: ReferenceType::NoReference, flags: 0x35 },
            Opcode::AndLong => OpcodeInfo { value: 0xa0, format: Format::Format23x, reference_type: ReferenceType::NoReference, reference_type_2: ReferenceType::NoReference, flags: 0x34 },
            Opcode::OrLong => OpcodeInfo { value: 0xa1, format: Format::Format23x, reference_type: ReferenceType::NoReference, reference_type_2: ReferenceType::NoReference, flags: 0x34 },
            Opcode::XorLong => OpcodeInfo { value: 0xa2, format: Format::Format23x, reference_type: ReferenceType::NoReference, reference_type_2: ReferenceType::NoReference, flags: 0x34 },
            Opcode::ShlLong => OpcodeInfo { value: 0xa3, format: Format::Format23x, reference_type: ReferenceType::NoReference, reference_type_2: ReferenceType::NoReference, flags: 0x34 },
            Opcode::ShrLong => OpcodeInfo { value: 0xa4, format: Format::Format23x, reference_type: ReferenceType::NoReference, reference_type_2: ReferenceType::NoReference, flags: 0x34 },
            Opcode::UshrLong => OpcodeInfo { value: 0xa5, format: Format::Format23x, reference_type: ReferenceType::NoReference, reference_type_2: ReferenceType::NoReference, flags: 0x34 },
            Opcode::AddFloat => OpcodeInfo { value: 0xa6, format: Format::Format23x, reference_type: ReferenceType::NoReference, reference_type_2: ReferenceType::NoReference, flags: 0x14 },
            Opcode::SubFloat => OpcodeInfo { value: 0xa7, format: Format::Format23x, reference_type: ReferenceType::NoReference, reference_type_2: ReferenceType::NoReference, flags: 0x14 },
            Opcode::MulFloat => OpcodeInfo { value: 0xa8, format: Format::Format23x, reference_type: ReferenceType::NoReference, reference_type_2: ReferenceType::NoReference, flags: 0x14 },
            Opcode::DivFloat => OpcodeInfo { value: 0xa9, format: Format::Format23x, reference_type: ReferenceType::NoReference, reference_type_2: ReferenceType::NoReference, flags: 0x14 },
            Opcode::RemFloat => OpcodeInfo { value: 0xaa, format: Format::Format23x, reference_type: ReferenceType::NoReference, reference_type_2: ReferenceType::NoReference, flags: 0x14 },
            Opcode::AddDouble => OpcodeInfo { value: 0xab, format: Format::Format23x, reference_type: ReferenceType::NoReference, reference_type_2: ReferenceType::NoReference, flags: 0x34 },
            Opcode::SubDouble => OpcodeInfo { value: 0xac, format: Format::Format23x, reference_type: ReferenceType::NoReference, reference_type_2: ReferenceType::NoReference, flags: 0x34 },
            Opcode::MulDouble => OpcodeInfo { value: 0xad, format: Format::Format23x, reference_type: ReferenceType::NoReference, reference_type_2: ReferenceType::NoReference, flags: 0x34 },
            Opcode::DivDouble => OpcodeInfo { value: 0xae, format: Format::Format23x, reference_type: ReferenceType::NoReference, reference_type_2: ReferenceType::NoReference, flags: 0x34 },
            Opcode::RemDouble => OpcodeInfo { value: 0xaf, format: Format::Format23x, reference_type: ReferenceType::NoReference, reference_type_2: ReferenceType::NoReference, flags: 0x34 },
            Opcode::AddInt2addr => OpcodeInfo { value: 0xb0, format: Format::Format12x, reference_type: ReferenceType::NoReference, reference_type_2: ReferenceType::NoReference, flags: 0x14 },
            Opcode::SubInt2addr => OpcodeInfo { value: 0xb1, format: Format::Format12x, reference_type: ReferenceType::NoReference, reference_type_2: ReferenceType::NoReference, flags: 0x14 },
            Opcode::MulInt2addr => OpcodeInfo { value: 0xb2, format: Format::Format12x, reference_type: ReferenceType::NoReference, reference_type_2: ReferenceType::NoReference, flags: 0x14 },
            Opcode::DivInt2addr => OpcodeInfo { value: 0xb3, format: Format::Format12x, reference_type: ReferenceType::NoReference, reference_type_2: ReferenceType::NoReference, flags: 0x15 },
            Opcode::RemInt2addr => OpcodeInfo { value: 0xb4, format: Format::Format12x, reference_type: ReferenceType::NoReference, reference_type_2: ReferenceType::NoReference, flags: 0x15 },
            Opcode::AndInt2addr => OpcodeInfo { value: 0xb5, format: Format::Format12x, reference_type: ReferenceType::NoReference, reference_type_2: ReferenceType::NoReference, flags: 0x14 },
            Opcode::OrInt2addr => OpcodeInfo { value: 0xb6, format: Format::Format12x, reference_type: ReferenceType::NoReference, reference_type_2: ReferenceType::NoReference, flags: 0x14 },
            Opcode::XorInt2addr => OpcodeInfo { value: 0xb7, format: Format::Format12x, reference_type: ReferenceType::NoReference, reference_type_2: ReferenceType::NoReference, flags: 0x14 },
            Opcode::ShlInt2addr => OpcodeInfo { value: 0xb8, format: Format::Format12x, reference_type: ReferenceType::NoReference, reference_type_2: ReferenceType::NoReference, flags: 0x14 },
            Opcode::ShrInt2addr => OpcodeInfo { value: 0xb9, format: Format::Format12x, reference_type: ReferenceType::NoReference, reference_type_2: ReferenceType::NoReference, flags: 0x14 },
            Opcode::UshrInt2addr => OpcodeInfo { value: 0xba, format: Format::Format12x, reference_type: ReferenceType::NoReference, reference_type_2: ReferenceType::NoReference, flags: 0x14 },
            Opcode::AddLong2addr => OpcodeInfo { value: 0xbb, format: Format::Format12x, reference_type: ReferenceType::NoReference, reference_type_2: ReferenceType::NoReference, flags: 0x34 },
            Opcode::SubLong2addr => OpcodeInfo { value: 0xbc, format: Format::Format12x, reference_type: ReferenceType::NoReference, reference_type_2: ReferenceType::NoReference, flags: 0x34 },
            Opcode::MulLong2addr => OpcodeInfo { value: 0xbd, format: Format::Format12x, reference_type: ReferenceType::NoReference, reference_type_2: ReferenceType::NoReference, flags: 0x34 },
            Opcode::DivLong2addr => OpcodeInfo { value: 0xbe, format: Format::Format12x, reference_type: ReferenceType::NoReference, reference_type_2: ReferenceType::NoReference, flags: 0x35 },
            Opcode::RemLong2addr => OpcodeInfo { value: 0xbf, format: Format::Format12x, reference_type: ReferenceType::NoReference, reference_type_2: ReferenceType::NoReference, flags: 0x35 },
            Opcode::AndLong2addr => OpcodeInfo { value: 0xc0, format: Format::Format12x, reference_type: ReferenceType::NoReference, reference_type_2: ReferenceType::NoReference, flags: 0x34 },
            Opcode::OrLong2addr => OpcodeInfo { value: 0xc1, format: Format::Format12x, reference_type: ReferenceType::NoReference, reference_type_2: ReferenceType::NoReference, flags: 0x34 },
            Opcode::XorLong2addr => OpcodeInfo { value: 0xc2, format: Format::Format12x, reference_type: ReferenceType::NoReference, reference_type_2: ReferenceType::NoReference, flags: 0x34 },
            Opcode::ShlLong2addr => OpcodeInfo { value: 0xc3, format: Format::Format12x, reference_type: ReferenceType::NoReference, reference_type_2: ReferenceType::NoReference, flags: 0x34 },
            Opcode::ShrLong2addr => OpcodeInfo { value: 0xc4, format: Format::Format12x, reference_type: ReferenceType::NoReference, reference_type_2: ReferenceType::NoReference, flags: 0x34 },
            Opcode::UshrLong2addr => OpcodeInfo { value: 0xc5, format: Format::Format12x, reference_type: ReferenceType::NoReference, reference_type_2: ReferenceType::NoReference, flags: 0x34 },
            Opcode::AddFloat2addr => OpcodeInfo { value: 0xc6, format: Format::Format12x, reference_type: ReferenceType::NoReference, reference_type_2: ReferenceType::NoReference, flags: 0x14 },
            Opcode::SubFloat2addr => OpcodeInfo { value: 0xc7, format: Format::Format12x, reference_type: ReferenceType::NoReference, reference_type_2: ReferenceType::NoReference, flags: 0x14 },
            Opcode::MulFloat2addr => OpcodeInfo { value: 0xc8, format: Format::Format12x, reference_type: ReferenceType::NoReference, reference_type_2: ReferenceType::NoReference, flags: 0x14 },
            Opcode::DivFloat2addr => OpcodeInfo { value: 0xc9, format: Format::Format12x, reference_type: ReferenceType::NoReference, reference_type_2: ReferenceType::NoReference, flags: 0x14 },
            Opcode::RemFloat2addr => OpcodeInfo { value: 0xca, format: Format::Format12x, reference_type: ReferenceType::NoReference, reference_type_2: ReferenceType::NoReference, flags: 0x14 },
            Opcode::AddDouble2addr => OpcodeInfo { value: 0xcb, format: Format::Format12x, reference_type: ReferenceType::NoReference, reference_type_2: ReferenceType::NoReference, flags: 0x34 },
            Opcode::SubDouble2addr => OpcodeInfo { value: 0xcc, format: Format::Format12x, reference_type: ReferenceType::NoReference, reference_type_2: ReferenceType::NoReference, flags: 0x34 },
            Opcode::MulDouble2addr => OpcodeInfo { value: 0xcd, format: Format::Format12x, reference_type: ReferenceType::NoReference, reference_type_2: ReferenceType::NoReference, flags: 0x34 },
            Opcode::DivDouble2addr => OpcodeInfo { value: 0xce, format: Format::Format12x, reference_type: ReferenceType::NoReference, reference_type_2: ReferenceType::NoReference, flags: 0x34 },
            Opcode::RemDouble2addr => OpcodeInfo { value: 0xcf, format: Format::Format12x, reference_type: ReferenceType::NoReference, reference_type_2: ReferenceType::NoReference, flags: 0x34 },
            Opcode::AddIntLit16 => OpcodeInfo { value: 0xd0, format: Format::Format22s, reference_type: ReferenceType::NoReference, reference_type_2: ReferenceType::NoReference, flags: 0x14 },
            Opcode::RsubInt => OpcodeInfo { value: 0xd1, format: Format::Format22s, reference_type: ReferenceType::NoReference, reference_type_2: ReferenceType::NoReference, flags: 0x14 },
            Opcode::MulIntLit16 => OpcodeInfo { value: 0xd2, format: Format::Format22s, reference_type: ReferenceType::NoReference, reference_type_2: ReferenceType::NoReference, flags: 0x14 },
            Opcode::DivIntLit16 => OpcodeInfo { value: 0xd3, format: Format::Format22s, reference_type: ReferenceType::NoReference, reference_type_2: ReferenceType::NoReference, flags: 0x15 },
            Opcode::RemIntLit16 => OpcodeInfo { value: 0xd4, format: Format::Format22s, reference_type: ReferenceType::NoReference, reference_type_2: ReferenceType::NoReference, flags: 0x15 },
            Opcode::AndIntLit16 => OpcodeInfo { value: 0xd5, format: Format::Format22s, reference_type: ReferenceType::NoReference, reference_type_2: ReferenceType::NoReference, flags: 0x14 },
            Opcode::OrIntLit16 => OpcodeInfo { value: 0xd6, format: Format::Format22s, reference_type: ReferenceType::NoReference, reference_type_2: ReferenceType::NoReference, flags: 0x14 },
            Opcode::XorIntLit16 => OpcodeInfo { value: 0xd7, format: Format::Format22s, reference_type: ReferenceType::NoReference, reference_type_2: ReferenceType::NoReference, flags: 0x14 },
            Opcode::AddIntLit8 => OpcodeInfo { value: 0xd8, format: Format::Format22b, reference_type: ReferenceType::NoReference, reference_type_2: ReferenceType::NoReference, flags: 0x14 },
            Opcode::RsubIntLit8 => OpcodeInfo { value: 0xd9, format: Format::Format22b, reference_type: ReferenceType::NoReference, reference_type_2: ReferenceType::NoReference, flags: 0x14 },
            Opcode::MulIntLit8 => OpcodeInfo { value: 0xda, format: Format::Format22b, reference_type: ReferenceType::NoReference, reference_type_2: ReferenceType::NoReference, flags: 0x14 },
            Opcode::DivIntLit8 => OpcodeInfo { value: 0xdb, format: Format::Format22b, reference_type: ReferenceType::NoReference, reference_type_2: ReferenceType::NoReference, flags: 0x15 },
            Opcode::RemIntLit8 => OpcodeInfo { value: 0xdc, format: Format::Format22b, reference_type: ReferenceType::NoReference, reference_type_2: ReferenceType::NoReference, flags: 0x15 },
            Opcode::AndIntLit8 => OpcodeInfo { value: 0xdd, format: Format::Format22b, reference_type: ReferenceType::NoReference, reference_type_2: ReferenceType::NoReference, flags: 0x14 },
            Opcode::OrIntLit8 => OpcodeInfo { value: 0xde, format: Format::Format22b, reference_type: ReferenceType::NoReference, reference_type_2: ReferenceType::NoReference, flags: 0x14 },
            Opcode::XorIntLit8 => OpcodeInfo { value: 0xdf, format: Format::Format22b, reference_type: ReferenceType::NoReference, reference_type_2: ReferenceType::NoReference, flags: 0x14 },
            Opcode::ShlIntLit8 => OpcodeInfo { value: 0xe0, format: Format::Format22b, reference_type: ReferenceType::NoReference, reference_type_2: ReferenceType::NoReference, flags: 0x14 },
            Opcode::ShrIntLit8 => OpcodeInfo { value: 0xe1, format: Format::Format22b, reference_type: ReferenceType::NoReference, reference_type_2: ReferenceType::NoReference, flags: 0x14 },
            Opcode::UshrIntLit8 => OpcodeInfo { value: 0xe2, format: Format::Format22b, reference_type: ReferenceType::NoReference, reference_type_2: ReferenceType::NoReference, flags: 0x14 },
            Opcode::IgetVolatile => OpcodeInfo { value: 0xe3, format: Format::Format22c, reference_type: ReferenceType::Field, reference_type_2: ReferenceType::NoReference, flags: 0x97 },
            Opcode::IputVolatile => OpcodeInfo { value: 0xe4, format: Format::Format22c, reference_type: ReferenceType::Field, reference_type_2: ReferenceType::NoReference, flags: 0x87 },
            Opcode::SgetVolatile => OpcodeInfo { value: 0xe5, format: Format::Format21c, reference_type: ReferenceType::Field, reference_type_2: ReferenceType::NoReference, flags: 0x197 },
            Opcode::SputVolatile => OpcodeInfo { value: 0xe6, format: Format::Format21c, reference_type: ReferenceType::Field, reference_type_2: ReferenceType::NoReference, flags: 0x187 },
            Opcode::IgetObjectVolatile => OpcodeInfo { value: 0xe7, format: Format::Format22c, reference_type: ReferenceType::Field, reference_type_2: ReferenceType::NoReference, flags: 0x97 },
            Opcode::IgetWideVolatile => OpcodeInfo { value: 0xe8, format: Format::Format22c, reference_type: ReferenceType::Field, reference_type_2: ReferenceType::NoReference, flags: 0xb7 },
            Opcode::IputWideVolatile => OpcodeInfo { value: 0xe9, format: Format::Format22c, reference_type: ReferenceType::Field, reference_type_2: ReferenceType::NoReference, flags: 0x87 },
            Opcode::SgetWideVolatile => OpcodeInfo { value: 0xea, format: Format::Format21c, reference_type: ReferenceType::Field, reference_type_2: ReferenceType::NoReference, flags: 0x1b7 },
            Opcode::SputWideVolatile => OpcodeInfo { value: 0xeb, format: Format::Format21c, reference_type: ReferenceType::Field, reference_type_2: ReferenceType::NoReference, flags: 0x187 },
            Opcode::ThrowVerificationError => OpcodeInfo { value: 0xed, format: Format::Format20bc, reference_type: ReferenceType::NoReference, reference_type_2: ReferenceType::NoReference, flags: 0x3 },
            Opcode::ExecuteInline => OpcodeInfo { value: 0xee, format: Format::Format35mi, reference_type: ReferenceType::NoReference, reference_type_2: ReferenceType::NoReference, flags: 0xf },
            Opcode::ExecuteInlineRange => OpcodeInfo { value: 0xef, format: Format::Format3rmi, reference_type: ReferenceType::NoReference, reference_type_2: ReferenceType::NoReference, flags: 0xf },
            Opcode::InvokeObjectInitRange => OpcodeInfo { value: 0xf0, format: Format::Format3rc, reference_type: ReferenceType::Method, reference_type_2: ReferenceType::NoReference, flags: 0x40f },
            Opcode::ReturnVoidNoBarrier => OpcodeInfo { value: 0x73, format: Format::Format10x, reference_type: ReferenceType::NoReference, reference_type_2: ReferenceType::NoReference, flags: 0x2 },
            Opcode::InvokeSuperQuick => OpcodeInfo { value: 0xfa, format: Format::Format35ms, reference_type: ReferenceType::NoReference, reference_type_2: ReferenceType::NoReference, flags: 0xf },
            Opcode::InvokeSuperQuickRange => OpcodeInfo { value: 0xfb, format: Format::Format3rms, reference_type: ReferenceType::NoReference, reference_type_2: ReferenceType::NoReference, flags: 0xf },
            Opcode::IputObjectVolatile => OpcodeInfo { value: 0xfc, format: Format::Format22c, reference_type: ReferenceType::Field, reference_type_2: ReferenceType::NoReference, flags: 0x87 },
            Opcode::SgetObjectVolatile => OpcodeInfo { value: 0xfd, format: Format::Format21c, reference_type: ReferenceType::Field, reference_type_2: ReferenceType::NoReference, flags: 0x197 },
            Opcode::SputObjectVolatile => OpcodeInfo { value: 0xfe, format: Format::Format21c, reference_type: ReferenceType::Field, reference_type_2: ReferenceType::NoReference, flags: 0x187 },
            Opcode::PackedSwitchPayload => OpcodeInfo { value: 0x100, format: Format::PackedSwitchPayload, reference_type: ReferenceType::NoReference, reference_type_2: ReferenceType::NoReference, flags: 0x0 },
            Opcode::SparseSwitchPayload => OpcodeInfo { value: 0x200, format: Format::SparseSwitchPayload, reference_type: ReferenceType::NoReference, reference_type_2: ReferenceType::NoReference, flags: 0x0 },
            Opcode::ArrayPayload => OpcodeInfo { value: 0x300, format: Format::ArrayPayload, reference_type: ReferenceType::NoReference, reference_type_2: ReferenceType::NoReference, flags: 0x0 },
            Opcode::InvokePolymorphic => OpcodeInfo { value: 0xfa, format: Format::Format45cc, reference_type: ReferenceType::Method, reference_type_2: ReferenceType::MethodProto, flags: 0xd },
            Opcode::InvokePolymorphicRange => OpcodeInfo { value: 0xfb, format: Format::Format4rcc, reference_type: ReferenceType::Method, reference_type_2: ReferenceType::MethodProto, flags: 0xd },
            Opcode::InvokeCustom => OpcodeInfo { value: 0xfc, format: Format::Format35c, reference_type: ReferenceType::CallSite, reference_type_2: ReferenceType::NoReference, flags: 0xd },
            Opcode::InvokeCustomRange => OpcodeInfo { value: 0xfd, format: Format::Format3rc, reference_type: ReferenceType::CallSite, reference_type_2: ReferenceType::NoReference, flags: 0xd },
            Opcode::ConstMethodHandle => OpcodeInfo { value: 0xfe, format: Format::Format21c, reference_type: ReferenceType::MethodHandle, reference_type_2: ReferenceType::NoReference, flags: 0x15 },
            Opcode::ConstMethodType => OpcodeInfo { value: 0xff, format: Format::Format21c, reference_type: ReferenceType::MethodProto, reference_type_2: ReferenceType::NoReference, flags: 0x15 },
        }
    }

    /// The numeric value: a byte, or 0x0100, 0x0200, 0x0300 for the payloads.
    pub fn value(&self) -> (r: u16)
        ensures
            r == spec_info(*self).value,
    {
        self.info().value
    }

    /// The instruction format.
    pub fn format(&self) -> (r: Format)
        ensures
            r == spec_info(*self).format,
    {
        self.info().format
    }

    /// The table that the reference operand indexes.
    pub fn reference_type(&self) -> (r: ReferenceType)
        ensures
            r == spec_info(*self).reference_type,
    {
        self.info().reference_type
    }

    /// The table that the second reference operand indexes.
    pub fn reference_type_2(&self) -> (r: ReferenceType)
        ensures
            r == spec_info(*self).reference_type_2,
    {
        self.info().reference_type_2
    }

    /// The flags.
    pub fn flags(&self) -> (r: OpcodeFlags)
        ensures
            r.bits == spec_info(*self).flags,
    {
        OpcodeFlags { bits: self.info().flags }
    }

    /// The mnemonic.
    pub fn name(&self) -> (r: &'static str)
        ensures
            r == spec_name(*self),
    {
        match self {
            Opcode::Nop => "nop",
            Opcode::Move => "move",
            Opcode::MoveFrom16 => "move/from16",
            Opcode::Move16 => "move/16",
            Opcode::MoveWide => "move-wide",
            Opcode::MoveWideFrom16 => "move-wide/from16",
            Opcode::MoveWide16 => "move-wide/16",
            Opcode::MoveObject => "move-object",
            Opcode::MoveObjectFrom16 => "move-object/from16",
            Opcode::MoveObject16 => "move-object/16",
            Opcode::MoveResult => "move-result",
            Opcode::MoveResultWide => "move-result-wide",
            Opcode::MoveResultObject => "move-result-object",
            Opcode::MoveException => "move-exception",
            Opcode::ReturnVoid => "return-void",
            Opcode::Return => "return",
            Opcode::ReturnWide => "return-wide",
            Opcode::ReturnObject => "return-object",
            Opcode::Const4 => "const/4",
            Opcode::Const16 => "const/16",
            Opcode::CONST => "const",
            Opcode::ConstHigh16 => "const/high16",
            Opcode::ConstWide16 => "const-wide/16",
            Opcode::ConstWide32 => "const-wide/32",
            Opcode::ConstWide => "const-wide",
            Opcode::ConstWideHigh16 => "const-wide/high16",
            Opcode::ConstString => "const-string",
            Opcode::ConstStringJumbo => "const-string/jumbo",
            Opcode::ConstClass => "const-class",
            Opcode::MonitorEnter => "monitor-enter",
            Opcode::MonitorExit => "monitor-exit",
            Opcode::CheckCast => "check-cast",
            Opcode::InstanceOf => "instance-of",
            Opcode::ArrayLength => "array-length",
            Opcode::NewInstance => "new-instance",
            Opcode::NewArray => "new-array",
            Opcode::FilledNewArray => "filled-new-array",
            Opcode::FilledNewArrayRange => "filled-new-array/range",
            Opcode::FillArrayData => "fill-array-data",
            Opcode::THROW => "throw",
            Opcode::GOTO => "goto",
            Opcode::Goto16 => "goto/16",
            Opcode::Goto32 => "goto/32",
            Opcode::PackedSwitch => "packed-switch",
            Opcode::SparseSwitch => "sparse-switch",
            Opcode::CmplFloat => "cmpl-float",
            Opcode::CmpgFloat => "cmpg-float",
            Opcode::CmplDouble => "cmpl-double",
            Opcode::CmpgDouble => "cmpg-double",
            Opcode::CmpLong => "cmp-long",
            Opcode::IfEq => "if-eq",
            Opcode::IfNe => "if-ne",
            Opcode::IfLt => "if-lt",
            Opcode::IfGe => "if-ge",
            Opcode::IfGt => "if-gt",
            Opcode::IfLe => "if-le",
            Opcode::IfEqz => "if-eqz",
            Opcode::IfNez => "if-nez",
            Opcode::IfLtz => "if-ltz",
            Opcode::IfGez => "if-gez",
            Opcode::IfGtz => "if-gtz",
            Opcode::IfLez => "if-lez",
            Opcode::AGET => "aget",
            Opcode::AgetWide => "aget-wide",
            Opcode::AgetObject => "aget-object",
            Opcode::AgetBoolean => "aget-boolean",
            Opcode::AgetByte => "aget-byte",
            Opcode::AgetChar => "aget-char",
            Opcode::AgetShort => "aget-short",
            Opcode::APUT => "aput",
            Opcode::AputWide => "aput-wide",
            Opcode::AputObject => "aput-object",
            Opcode::AputBoolean => "aput-boolean",
            Opcode::AputByte => "aput-byte",
            Opcode::AputChar => "aput-char",
            Opcode::AputShort => "aput-short",
            Opcode::IGET => "iget",
            Opcode::IgetWide => "iget-wide",
            Opcode::IgetObject => "iget-object",
            Opcode::IgetBoolean => "iget-boolean",
            Opcode::IgetByte => "iget-byte",
            Opcode::IgetChar => "iget-char",
            Opcode::IgetShort => "iget-short",
            Opcode::IPUT => "iput",
            Opcode::IputWide => "iput-wide",
            Opcode::IputObject => "iput-object",
            Opcode::IputBoolean => "iput-boolean",
            Opcode::IputByte => "iput-byte",
            Opcode::IputChar => "iput-char",
            Opcode::IputShort => "iput-short",
            Opcode::SGET => "sget",
            Opcode::SgetWide => "sget-wide",
            Opcode::SgetObject => "sget-object",
            Opcode::SgetBoolean => "sget-boolean",
            Opcode::SgetByte => "sget-byte",
            Opcode::SgetChar => "sget-char",
            Opcode::SgetShort => "sget-short",
            Opcode::SPUT => "sput",
            Opcode::SputWide => "sput-wide",
            Opcode::SputObject => "sput-object",
            Opcode::SputBoolean => "sput-boolean",
            Opcode::SputByte => "sput-byte",
            Opcode::SputChar => "sput-char",
            Opcode::SputShort => "sput-short",
            Opcode::InvokeVirtual => "invoke-virtual",
            Opcode::InvokeSuper => "invoke-super",
            Opcode::InvokeDirect => "invoke-direct",
            Opcode::InvokeStatic => "invoke-static",
            Opcode::InvokeInterface => "invoke-interface",
            Opcode::InvokeVirtualRange => "invoke-virtual/range",
            Opcode::InvokeSuperRange => "invoke-super/range",
            Opcode::InvokeDirectRange => "invoke-direct/range",
            Opcode::InvokeStaticRange => "invoke-static/range",
            Opcode::InvokeInterfaceRange => "invoke-interface/range",
            Opcode::NegInt => "neg-int",
            Opcode::NotInt => "not-int",
            Opcode::NegLong => "neg-long",
            Opcode::NotLong => "not-long",
            Opcode::NegFloat => "neg-float",
            Opcode::NegDouble => "neg-double",
            Opcode::IntToLong => "int-to-long",
            Opcode::IntToFloat => "int-to-float",
            Opcode::IntToDouble => "int-to-double",
            Opcode::LongToInt => "long-to-int",
            Opcode::LongToFloat => "long-to-float",
            Opcode::LongToDouble => "long-to-double",
            Opcode::FloatToInt => "float-to-int",
            Opcode::FloatToLong => "float-to-long",
            Opcode::FloatToDouble => "float-to-double",
            Opcode::DoubleToInt => "double-to-int",
            Opcode::DoubleToLong => "double-to-long",
            Opcode::DoubleToFloat => "double-to-float",
            Opcode::IntToByte => "int-to-byte",
            Opcode::IntToChar => "int-to-char",
            Opcode::IntToShort => "int-to-short",
            Opcode::AddInt => "add-int",
            Opcode::SubInt => "sub-int",
            Opcode::MulInt => "mul-int",
            Opcode::DivInt => "div-int",
            Opcode::RemInt => "rem-int",
            Opcode::AndInt => "and-int",
            Opcode::OrInt => "or-int",
            Opcode::XorInt => "xor-int",
            Opcode::ShlInt => "shl-int",
            Opcode::ShrInt => "shr-int",
            Opcode::UshrInt => "ushr-int",
            Opcode::AddLong => "add-long",
            Opcode::SubLong => "sub-long",
            Opcode::MulLong => "mul-long",
            Opcode::DivLong => "div-long",
            Opcode::RemLong => "rem-long",
            Opcode::AndLong => "and-long",
            Opcode::OrLong => "or-long",
            Opcode::XorLong => "xor-long",
            Opcode::ShlLong => "shl-long",
            Opcode::ShrLong => "shr-long",
            Opcode::UshrLong => "ushr-long",
            Opcode::AddFloat => "add-float",
            Opcode::SubFloat => "sub-float",
            Opcode::MulFloat => "mul-float",
            Opcode::DivFloat => "div-float",
            Opcode::RemFloat => "rem-float",
            Opcode::AddDouble => "add-double",
            Opcode::SubDouble => "sub-double",
            Opcode::MulDouble => "mul-double",
            Opcode::DivDouble => "div-double",
            Opcode::RemDouble => "rem-double",
            Opcode::AddInt2addr => "add-int/2addr",
            Opcode::SubInt2addr => "sub-int/2addr",
            Opcode::MulInt2addr => "mul-int/2addr",
            Opcode::DivInt2addr => "div-int/2addr",
            Opcode::RemInt2addr => "rem-int/2addr",
            Opcode::AndInt2addr => "and-int/2addr",
            Opcode::OrInt2addr => "or-int/2addr",
            Opcode::XorInt2addr => "xor-int/2addr",
            Opcode::ShlInt2addr => "shl-int/2addr",
            Opcode::ShrInt2addr => "shr-int/2addr",
            Opcode::UshrInt2addr => "ushr-int/2addr",
            Opcode::AddLong2addr => "add-long/2addr",
            Opcode::SubLong2addr => "sub-long/2addr",
            Opcode::MulLong2addr => "mul-long/2addr",
            Opcode::DivLong2addr => "div-long/2addr",
            Opcode::RemLong2addr => "rem-long/2addr",
            Opcode::AndLong2addr => "and-long/2addr",
            Opcode::OrLong2addr => "or-long/2addr",
            Opcode::XorLong2addr => "xor-long/2addr",
            Opcode::ShlLong2addr => "shl-long/2addr",
            Opcode::ShrLong2addr => "shr-long/2addr",
            Opcode::UshrLong2addr => "ushr-long/2addr",
            Opcode::AddFloat2addr => "add-float/2addr",
            Opcode::SubFloat2addr => "sub-float/2addr",
            Opcode::MulFloat2addr => "mul-float/2addr",
            Opcode::DivFloat2addr => "div-float/2addr",
            Opcode::RemFloat2addr => "rem-float/2addr",
            Opcode::AddDouble2addr => "add-double/2addr",
            Opcode::SubDouble2addr => "sub-double/2addr",
            Opcode::MulDouble2addr => "mul-double/2addr",
            Opcode::DivDouble2addr => "div-double/2addr",
            Opcode::RemDouble2addr => "rem-double/2addr",
            Opcode::AddIntLit16 => "add-int/lit16",
            Opcode::RsubInt => "rsub-int",
            Opcode::MulIntLit16 => "mul-int/lit16",
            Opcode::DivIntLit16 => "div-int/lit16",
            Opcode::RemIntLit16 => "rem-int/lit16",
            Opcode::AndIntLit16 => "and-int/lit16",
            Opcode::OrIntLit16 => "or-int/lit16",
            Opcode::XorIntLit16 => "xor-int/lit16",
            Opcode::AddIntLit8 => "add-int/lit8",
            Opcode::RsubIntLit8 => "rsub-int/lit8",
            Opcode::MulIntLit8 => "mul-int/lit8",
            Opcode::DivIntLit8 => "div-int/lit8",
            Opcode::RemIntLit8 => "rem-int/lit8",
            Opcode::AndIntLit8 => "and-int/lit8",
            Opcode::OrIntLit8 => "or-int/lit8",
            Opcode::XorIntLit8 => "xor-int/lit8",
            Opcode::ShlIntLit8 => "shl-int/lit8",
            Opcode::ShrIntLit8 => "shr-int/lit8",
            Opcode::UshrIntLit8 => "ushr-int/lit8",
            Opcode::IgetVolatile => "iget-volatile",
            Opcode::IputVolatile => "iput-volatile",
            Opcode::SgetVolatile => "sget-volatile",
            Opcode::SputVolatile => "sput-volatile",
            Opcode::IgetObjectVolatile => "iget-object-volatile",
            Opcode::IgetWideVolatile => "iget-wide-volatile",
            Opcode::IputWideVolatile => "iput-wide-volatile",
            Opcode::SgetWideVolatile => "sget-wide-volatile",
            Opcode::SputWideVolatile => "sput-wide-volatile",
            Opcode::ThrowVerificationError => "throw-verification-error",
            Opcode::ExecuteInline => "execute-inline",
            Opcode::ExecuteInlineRange => "execute-inline/range",
            Opcode::InvokeObjectInitRange => "invoke-object-init/range",
            Opcode::ReturnVoidNoBarrier => "return-void-no-barrier",
            Opcode::InvokeSuperQuick => "invoke-super-quick",
            Opcode::InvokeSuperQuickRange => "invoke-super-quick/range",
            Opcode::IputObjectVolatile => "iput-object-volatile",
            Opcode::SgetObjectVolatile => "sget-object-volatile",
            Opcode::SputObjectVolatile => "sput-object-volatile",
            Opcode::PackedSwitchPayload => "packed-switch-payload",
            Opcode::SparseSwitchPayload => "sparse-switch-payload",
            Opcode::ArrayPayload => "array-payload",
            Opcode::InvokePolymorphic => "invoke-polymorphic",
            Opcode::InvokePolymorphicRange => "invoke-polymorphic/range",
            Opcode::InvokeCustom => "invoke-custom",
            Opcode::InvokeCustomRange => "invoke-custom/range",
            Opcode::ConstMethodHandle => "const-method-handle",
            Opcode::ConstMethodType => "const-method-type",
        }
    }

    /// The opcode that `value` names in the given mode; see [`spec_from_value`].
    pub fn from_value(value: u16, odex: bool) -> (r: Option<Opcode>)
        ensures
            r == spec_from_value(value, odex),
    {
        match value {
            0x0 => Option::Some(Opcode::Nop),
            0x1 => Option::Some(Opcode::Move),
            0x2 => Option::Some(Opcode::MoveFrom16),
            0x3 => Option::Some(Opcode::Move16),
            0x4 => Option::Some(Opcode::MoveWide),
            0x5 => Option::Some(Opcode::MoveWideFrom16),
            0x6 => Option::Some(Opcode::MoveWide16),
            0x7 => Option::Some(Opcode::MoveObject),
            0x8 => Option::Some(Opcode::MoveObjectFrom16),
            0x9 => Option::Some(Opcode::MoveObject16),
            0xa => Option::Some(Opcode::MoveResult),
            0xb => Option::Some(Opcode::MoveResultWide),
            0xc => Option::Some(Opcode::MoveResultObject),
            0xd => Option::Some(Opcode::MoveException),
            0xe => Option::Some(Opcode::ReturnVoid),
            0xf => Option::Some(Opcode::Return),
            0x10 => Option::Some(Opcode::ReturnWide),
            0x11 => Option::Some(Opcode::ReturnObject),
            0x12 => Option::Some(Opcode::Const4),
            0x13 => Option::Some(Opcode::Const16),
            0x14 => Option::Some(Opcode::CONST),
            0x15 => Option::Some(Opcode::ConstHigh16),
            0x16 => Option::Some(Opcode::ConstWide16),
            0x17 => Option::Some(Opcode::ConstWide32),
            0x18 => Option::Some(Opcode::ConstWide),
            0x19 => Option::Some(Opcode::ConstWideHigh16),
            0x1a => Option::Some(Opcode::ConstString),
            0x1b => Option::Some(Opcode::ConstStringJumbo),
            0x1c => Option::Some(Opcode::ConstClass),
            0x1d => Option::Some(Opcode::MonitorEnter),
            0x1e => Option::Some(Opcode::MonitorExit),
            0x1f => Option::Some(Opcode::CheckCast),
            0x20 => Option::Some(Opcode::InstanceOf),
            0x21 => Option::Some(Opcode::ArrayLength),
            0x22 => Option::Some(Opcode::NewInstance),
            0x23 => Option::Some(Opcode::NewArray),
            0x24 => Option::Some(Opcode::FilledNewArray),
            0x25 => Option::Some(Opcode::FilledNewArrayRange),
            0x26 => Option::Some(Opcode::FillArrayData),
            0x27 => Option::Some(Opcode::THROW),
            0x28 => Option::Some(Opcode::GOTO),
            0x29 => Option::Some(Opcode::Goto16),
            0x2a => Option::Some(Opcode::Goto32),
            0x2b => Option::Some(Opcode::PackedSwitch),
            0x2c => Option::Some(Opcode::SparseSwitch),
            0x2d => Option::Some(Opcode::CmplFloat),
            0x2e => Option::Some(Opcode::CmpgFloat),
            0x2f => Option::Some(Opcode::CmplDouble),
            0x30 => Option::Some(Opcode::CmpgDouble),
            0x31 => Option::Some(Opcode::CmpLong),
            0x32 => Option::Some(Opcode::IfEq),
            0x33 => Option::Some(Opcode::IfNe),
            0x34 => Option::Some(Opcode::IfLt),
            0x35 => Option::Some(Opcode::IfGe),
            0x36 => Option::Some(Opcode::IfGt),
            0x37 => Option::Some(Opcode::IfLe),
            0x38 => Option::Some(Opcode::IfEqz),
            0x39 => Option::Some(Opcode::IfNez),
            0x3a => Option::Some(Opcode::IfLtz),
            0x3b => Option::Some(Opcode::IfGez),
            0x3c => Option::Some(Opcode::IfGtz),
            0x3d => Option::Some(Opcode::IfLez),
            0x44 => Option::Some(Opcode::AGET),
            0x45 => Option::Some(Opcode::AgetWide),
            0x46 => Option::Some(Opcode::AgetObject),
            0x47 => Option::Some(Opcode::AgetBoolean),
            0x48 => Option::Some(Opcode::AgetByte),
            0x49 => Option::Some(Opcode::AgetChar),
            0x4a => Option::Some(Opcode::AgetShort),
            0x4b => Option::Some(Opcode::APUT),
            0x4c => Option::Some(Opcode::AputWide),
            0x4d => Option::Some(Opcode::AputObject),
            0x4e => Option::Some(Opcode::AputBoolean),
            0x4f => Option::Some(Opcode::AputByte),
            0x50 => Option::Some(Opcode::AputChar),
            0x51 => Option::Some(Opcode::AputShort),
            0x52 => Option::Some(Opcode::IGET),
            0x53 => Option::Some(Opcode::IgetWide),
            0x54 => Option::Some(Opcode::IgetObject),
            0x55 => Option::Some(Opcode::IgetBoolean),
            0x56 => Option::Some(Opcode::IgetByte),
            0x57 => Option::Some(Opcode::IgetChar),
            0x58 => Option::Some(Opcode::IgetShort),
            0x59 => Option::Some(Opcode::IPUT),
            0x5a => Option::Some(Opcode::IputWide),
            0x5b => Option::Some(Opcode::IputObject),
            0x5c => Option::Some(Opcode::IputBoolean),
            0x5d => Option::Some(Opcode::IputByte),
            0x5e => Option::Some(Opcode::IputChar),
            0x5f => Option::Some(Opcode::IputShort),
            0x60 => Option::Some(Opcode::SGET),
            0x61 => Option::Some(Opcode::SgetWide),
            0x62 => Option::Some(Opcode::SgetObject),
            0x63 => Option::Some(Opcode::SgetBoolean),
            0x64 => Option::Some(Opcode::SgetByte),
            0x65 => Option::Some(Opcode::SgetChar),
            0x66 => Option::Some(Opcode::SgetShort),
            0x67 => Option::Some(Opcode::SPUT),
            0x68 => Option::Some(Opcode::SputWide),
            0x69 => Option::Some(Opcode::SputObject),
            0x6a => Option::Some(Opcode::SputBoolean),
            0x6b => Option::Some(Opcode::SputByte),
            0x6c => Option::Some(Opcode::SputChar),
            0x6d => Option::Some(Opcode::SputShort),
            0x6e => Option::Some(Opcode::InvokeVirtual),
            0x6f => Option::Some(Opcode::InvokeSuper),
            0x70 => Option::Some(Opcode::InvokeDirect),
            0x71 => Option::Some(Opcode::InvokeStatic),
            0x72 => Option::Some(Opcode::InvokeInterface),
            0x73 => if odex { Option::Some(Opcode::ReturnVoidNoBarrier) } else { Option::None },
            0x74 => Option::Some(Opcode::InvokeVirtualRange),
            0x75 => Option::Some(Opcode::InvokeSuperRange),
            0x76 => Option::Some(Opcode::InvokeDirectRange),
            0x77 => Option::Some(Opcode::InvokeStaticRange),
            0x78 => Option::Some(Opcode::InvokeInterfaceRange),
            0x7b => Option::Some(Opcode::NegInt),
            0x7c => Option::Some(Opcode::NotInt),
            0x7d => Option::Some(Opcode::NegLong),
            0x7e => Option::Some(Opcode::NotLong),
            0x7f => Option::Some(Opcode::NegFloat),
            0x80 => Option::Some(Opcode::NegDouble),
            0x81 => Option::Some(Opcode::IntToLong),
            0x82 => Option::Some(Opcode::IntToFloat),
            0x83 => Option::Some(Opcode::IntToDouble),
            0x84 => Option::Some(Opcode::LongToInt),
            0x85 => Option::Some(Opcode::LongToFloat),
            0x86 => Option::Some(Opcode::LongToDouble),
            0x87 => Option::Some(Opcode::FloatToInt),
            0x88 => Option::Some(Opcode::FloatToLong),
            0x89 => Option::Some(Opcode::FloatToDouble),
            0x8a => Option::Some(Opcode::DoubleToInt),
            0x8b => Option::Some(Opcode::DoubleToLong),
            0x8c => Option::Some(Opcode::DoubleToFloat),
            0x8d => Option::Some(Opcode::IntToByte),
            0x8e => Option::Some(Opcode::IntToChar),
            0x8f => Option::Some(Opcode::IntToShort),
            0x90 => Option::Some(Opcode::AddInt),
            0x91 => Option::Some(Opcode::SubInt),
            0x92 => Option::Some(Opcode::MulInt),
            0x93 => Option::Some(Opcode::DivInt),
            0x94 => Option::Some(Opcode::RemInt),
            0x95 => Option::Some(Opcode::AndInt),
            0x96 => Option::Some(Opcode::OrInt),
            0x97 => Option::Some(Opcode::XorInt),
            0x98 => Option::Some(Opcode::ShlInt),
            0x99 => Option::Some(Opcode::ShrInt),
            0x9a => Option::Some(Opcode::UshrInt),
            0x9b => Option::Some(Opcode::AddLong),
            0x9c => Option::Some(Opcode::SubLong),
            0x9d => Option::Some(Opcode::MulLong),
            0x9e => Option::Some(Opcode::DivLong),
            0x9f => Option::Some(Opcode::RemLong),
            0xa0 => Option::Some(Opcode::AndLong),
            0xa1 => Option::Some(Opcode::OrLong),
            0xa2 => Option::Some(Opcode::XorLong),
            0xa3 => Option::Some(Opcode::ShlLong),
            0xa4 => Option::Some(Opcode::ShrLong),
            0xa5 => Option::Some(Opcode::UshrLong),
            0xa6 => Option::Some(Opcode::AddFloat),
            0xa7 => Option::Some(Opcode::SubFloat),
            0xa8 => Option::Some(Opcode::MulFloat),
            0xa9 => Option::Some(Opcode::DivFloat),
            0xaa => Option::Some(Opcode::RemFloat),
            0xab => Option::Some(Opcode::AddDouble),
            0xac => Option::Some(Opcode::SubDouble),
            0xad => Option::Some(Opcode::MulDouble),
            0xae => Option::Some(Opcode::DivDouble),
            0xaf => Option::Some(Opcode::RemDouble),
            0xb0 => Option::Some(Opcode::AddInt2addr),
            0xb1 => Option::Some(Opcode::SubInt2addr),
            0xb2 => Option::Some(Opcode::MulInt2addr),
            0xb3 => Option::Some(Opcode::DivInt2addr),
            0xb4 => Option::Some(Opcode::RemInt2addr),
            0xb5 => Option::Some(Opcode::AndInt2addr),
            0xb6 => Option::Some(Opcode::OrInt2addr),
            0xb7 => Option::Some(Opcode::XorInt2addr),
            0xb8 => Option::Some(Opcode::ShlInt2addr),
            0xb9 => Option::Some(Opcode::ShrInt2addr),
            0xba => Option::Some(Opcode::UshrInt2addr),
            0xbb => Option::Some(Opcode::AddLong2addr),
            0xbc => Option::Some(Opcode::SubLong2addr),
            0xbd => Option::Some(Opcode::MulLong2addr),
            0xbe => Option::Some(Opcode::DivLong2addr),
            0xbf => Option::Some(Opcode::RemLong2addr),
            0xc0 => Option::Some(Opcode::AndLong2addr),
            0xc1 => Option::Some(Opcode::OrLong2addr),
            0xc2 => Option::Some(Opcode::XorLong2addr),
            0xc3 => Option::Some(Opcode::ShlLong2addr),
            0xc4 => Option::Some(Opcode::ShrLong2addr),
            0xc5 => Option::Some(Opcode::UshrLong2addr),
            0xc6 => Option::Some(Opcode::AddFloat2addr),
            0xc7 => Option::Some(Opcode::SubFloat2addr),
            0xc8 => Option::Some(Opcode::MulFloat2addr),
            0xc9 => Option::Some(Opcode::DivFloat2addr),
            0xca => Option::Some(Opcode::RemFloat2addr),
            0xcb => Option::Some(Opcode::AddDouble2addr),
            0xcc => Option::Some(Opcode::SubDouble2addr),
            0xcd => Option::Some(Opcode::MulDouble2addr),
            0xce => Option::Some(Opcode::DivDouble2addr),
            0xcf => Option::Some(Opcode::RemDouble2addr),
            0xd0 => Option::Some(Opcode::AddIntLit16),
            0xd1 => Option::Some(Opcode::RsubInt),
            0xd2 => Option::Some(Opcode::MulIntLit16),
            0xd3 => Option::Some(Opcode::DivIntLit16),
            0xd4 => Option::Some(Opcode::RemIntLit16),
            0xd5 => Option::Some(Opcode::AndIntLit16),
            0xd6 => Option::Some(Opcode::OrIntLit16),
            0xd7 => Option::Some(Opcode::XorIntLit16),
            0xd8 => Option::Some(Opcode::AddIntLit8),
            0xd9 => Option::Some(Opcode::RsubIntLit8),
            0xda => Option::Some(Opcode::MulIntLit8),
            0xdb => Option::Some(Opcode::DivIntLit8),
            0xdc => Option::Some(Opcode::RemIntLit8),
            0xdd => Option::Some(Opcode::AndIntLit8),
            0xde => Option::Some(Opcode::OrIntLit8),
            0xdf => Option::Some(Opcode::XorIntLit8),
            0xe0 => Option::Some(Opcode::ShlIntLit8),
            0xe1 => Option::Some(Opcode::ShrIntLit8),
            0xe2 => Option::Some(Opcode::UshrIntLit8),
            0xe3 => if odex { Option::Some(Opcode::IgetVolatile) } else { Option::None },
            0xe4 => if odex { Option::Some(Opcode::IputVolatile) } else { Option::None },
            0xe5 => if odex { Option::Some(Opcode::SgetVolatile) } else { Option::None },
            0xe6 => if odex { Option::Some(Opcode::SputVolatile) } else { Option::None },
            0xe7 => if odex { Option::Some(Opcode::IgetObjectVolatile) } else { Option::None },
            0xe8 => if odex { Option::Some(Opcode::IgetWideVolatile) } else { Option::None },
            0xe9 => if odex { Option::Some(Opcode::IputWideVolatile) } else { Option::None },
            0xea => if odex { Option::Some(Opcode::SgetWideVolatile) } else { Option::None },
            0xeb => if odex { Option::Some(Opcode::SputWideVolatile) } else { Option::None },
            0xed => if odex { Option::Some(Opcode::ThrowVerificationError) } else { Option::None },
            0xee => if odex { Option::Some(Opcode::ExecuteInline) } else { Option::None },
            0xef => if odex { Option::Some(Opcode::ExecuteInlineRange) } else { Option::None },
            0xf0 => if odex { Option::Some(Opcode::InvokeObjectInitRange) } else { Option::None },
            0xfa => if odex { Option::Some(Opcode::InvokeSuperQuick) } else { Option::Some(Opcode::InvokePolymorphic) },
            0xfb => if odex { Option::Some(Opcode::InvokeSuperQuickRange) } else { Option::Some(Opcode::InvokePolymorphicRange) },
            0xfc => if odex { Option::Some(Opcode::IputObjectVolatile) } else { Option::Some(Opcode::InvokeCustom) },
            0xfd => if odex { Option::Some(Opcode::SgetObjectVolatile) } else { Option::Some(Opcode::InvokeCustomRange) },
            0xfe => if odex { Option::Some(Opcode::SputObjectVolatile) } else { Option::Some(Opcode::ConstMethodHandle) },
            0xff => Option::Some(Opcode::ConstMethodType),
            0x100 => Option::Some(Opcode::PackedSwitchPayload),
            0x200 => Option::Some(Opcode::SparseSwitchPayload),
            0x300 => Option::Some(Opcode::ArrayPayload),
            _ => Option::None,
        }
    }
}

/// The opcode at index `i` of the catalogue.
pub open spec fn spec_opcode_at(i: usize) -> Opcode {
    match i {
        0 => Opcode::Nop,
        1 => Opcode::Move,
        2 => Opcode::MoveFrom16,
        3 => Opcode::Move16,
        4 => Opcode::MoveWide,
        5 => Opcode::MoveWideFrom16,
        6 => Opcode::MoveWide16,
        7 => Opcode::MoveObject,
        8 => Opcode::MoveObjectFrom16,
        9 => Opcode::MoveObject16,
        10 => Opcode::MoveResult,
        11 => Opcode::MoveResultWide,
        12 => Opcode::MoveResultObject,
        13 => Opcode::MoveException,
        14 => Opcode::ReturnVoid,
        15 => Opcode::Return,
        16 => Opcode::ReturnWide,
        17 => Opcode::ReturnObject,
        18 => Opcode::Const4,
        19 => Opcode::Const16,
        20 => Opcode::CONST,
        21 => Opcode::ConstHigh16,
        22 => Opcode::ConstWide16,
        23 => Opcode::ConstWide32,
        24 => Opcode::ConstWide,
        25 => Opcode::ConstWideHigh16,
        26 => Opcode::ConstString,
        27 => Opcode::ConstStringJumbo,
        28 => Opcode::ConstClass,
        29 => Opcode::MonitorEnter,
        30 => Opcode::MonitorExit,
        31 => Opcode::CheckCast,
        32 => Opcode::InstanceOf,
        33 => Opcode::ArrayLength,
        34 => Opcode::NewInstance,
        35 => Opcode::NewArray,
        36 => Opcode::FilledNewArray,
        37 => Opcode::FilledNewArrayRange,
        38 => Opcode::FillArrayData,
        39 => Opcode::THROW,
        40 => Opcode::GOTO,
        41 => Opcode::Goto16,
        42 => Opcode::Goto32,
        43 => Opcode::PackedSwitch,
        44 => Opcode::SparseSwitch,
        45 => Opcode::CmplFloat,
        46 => Opcode::CmpgFloat,
        47 => Opcode::CmplDouble,
        48 => Opcode::CmpgDouble,
        49 => Opcode::CmpLong,
        50 => Opcode::IfEq,
        51 => Opcode::IfNe,
        52 => Opcode::IfLt,
        53 => Opcode::IfGe,
        54 => Opcode::IfGt,
        55 => Opcode::IfLe,
        56 => Opcode::IfEqz,
        57 => Opcode::IfNez,
        58 => Opcode::IfLtz,
        59 => Opcode::IfGez,
        60 => Opcode::IfGtz,
        61 => Opcode::IfLez,
        62 => Opcode::AGET,
        63 => Opcode::AgetWide,
        64 => Opcode::AgetObject,
        65 => Opcode::AgetBoolean,
        66 => Opcode::AgetByte,
        67 => Opcode::AgetChar,
        68 => Opcode::AgetShort,
        69 => Opcode::APUT,
        70 => Opcode::AputWide,
        71 => Opcode::AputObject,
        72 => Opcode::AputBoolean,
        73 => Opcode::AputByte,
        74 => Opcode::AputChar,
        75 => Opcode::AputShort,
        76 => Opcode::IGET,
        77 => Opcode::IgetWide,
        78 => Opcode::IgetObject,
        79 => Opcode::IgetBoolean,
        80 => Opcode::IgetByte,
        81 => Opcode::IgetChar,
        82 => Opcode::IgetShort,
        83 => Opcode::IPUT,
        84 => Opcode::IputWide,
        85 => Opcode::IputObject,
        86 => Opcode::IputBoolean,
        87 => Opcode::IputByte,
        88 => Opcode::IputChar,
        89 => Opcode::IputShort,
        90 => Opcode::SGET,
        91 => Opcode::SgetWide,
        92 => Opcode::SgetObject,
        93 => Opcode::SgetBoolean,
        94 => Opcode::SgetByte,
        95 => Opcode::SgetChar,
        96 => Opcode::SgetShort,
        97 => Opcode::SPUT,
        98 => Opcode::SputWide,
        99 => Opcode::SputObject,
        100 => Opcode::SputBoolean,
        101 => Opcode::SputByte,
        102 => Opcode::SputChar,
        103 => Opcode::SputShort,
        104 => Opcode::InvokeVirtual,
        105 => Opcode::InvokeSuper,
        106 => Opcode::InvokeDirect,
        107 => Opcode::InvokeStatic,
        108 => Opcode::InvokeInterface,
        109 => Opcode::InvokeVirtualRange,
        110 => Opcode::InvokeSuperRange,
        111 => Opcode::InvokeDirectRange,
        112 => Opcode::InvokeStaticRange,
        113 => Opcode::InvokeInterfaceRange,
        114 => Opcode::NegInt,
        115 => Opcode::NotInt,
        116 => Opcode::NegLong,
        117 => Opcode::NotLong,
        118 => Opcode::NegFloat,
        119 => Opcode::NegDouble,
        120 => Opcode::IntToLong,
        121 => Opcode::IntToFloat,
        122 => Opcode::IntToDouble,
        123 => Opcode::LongToInt,
        124 => Opcode::LongToFloat,
        125 => Opcode::LongToDouble,
        126 => Opcode::FloatToInt,
        127 => Opcode::FloatToLong,
        128 => Opcode::FloatToDouble,
        129 => Opcode::DoubleToInt,
        130 => Opcode::DoubleToLong,
        131 => Opcode::DoubleToFloat,
        132 => Opcode::IntToByte,
        133 => Opcode::IntToChar,
        134 => Opcode::IntToShort,
        135 => Opcode::AddInt,
        136 => Opcode::SubInt,
        137 => Opcode::MulInt,
        138 => Opcode::DivInt,
        139 => Opcode::RemInt,
        140 => Opcode::AndInt,
        141 => Opcode::OrInt,
        142 => Opcode::XorInt,
        143 => Opcode::ShlInt,
        144 => Opcode::ShrInt,
        145 => Opcode::UshrInt,
        146 => Opcode::AddLong,
        147 => Opcode::SubLong,
        148 => Opcode::MulLong,
        149 => Opcode::DivLong,
        150 => Opcode::RemLong,
        151 => Opcode::AndLong,
        152 => Opcode::OrLong,
        153 => Opcode::XorLong,
        154 => Opcode::ShlLong,
        155 => Opcode::ShrLong,
        156 => Opcode::UshrLong,
        157 => Opcode::AddFloat,
        158 => Opcode::SubFloat,
        159 => Opcode::MulFloat,
        160 => Opcode::DivFloat,
        161 => Opcode::RemFloat,
        162 => Opcode::AddDouble,
        163 => Opcode::SubDouble,
        164 => Opcode::MulDouble,
        165 => Opcode::DivDouble,
        166 => Opcode::RemDouble,
        167 => Opcode::AddInt2addr,
        168 => Opcode::SubInt2addr,
        169 => Opcode::MulInt2addr,
        170 => Opcode::DivInt2addr,
        171 => Opcode::RemInt2addr,
        172 => Opcode::AndInt2addr,
        173 => Opcode::OrInt2addr,
        174 => Opcode::XorInt2addr,
        175 => Opcode::ShlInt2addr,
        176 => Opcode::ShrInt2addr,
        177 => Opcode::UshrInt2addr,
        178 => Opcode::AddLong2addr,
        179 => Opcode::SubLong2addr,
        180 => Opcode::MulLong2addr,
        181 => Opcode::DivLong2addr,
        182 => Opcode::RemLong2addr,
        183 => Opcode::AndLong2addr,
        184 => Opcode::OrLong2addr,
        185 => Opcode::XorLong2addr,
        186 => Opcode::ShlLong2addr,
        187 => Opcode::ShrLong2addr,
        188 => Opcode::UshrLong2addr,
        189 => Opcode::AddFloat2addr,
        190 => Opcode::SubFloat2addr,
        191 => Opcode::MulFloat2addr,
        192 => Opcode::DivFloat2addr,
        193 => Opcode::RemFloat2addr,
        194 => Opcode::AddDouble2addr,
        195 => Opcode::SubDouble2addr,
        196 => Opcode::MulDouble2addr,
        197 => Opcode::DivDouble2addr,
        198 => Opcode::RemDouble2addr,
        199 => Opcode::AddIntLit16,
        200 => Opcode::RsubInt,
        201 => Opcode::MulIntLit16,
        202 => Opcode::DivIntLit16,
        203 => Opcode::RemIntLit16,
        204 => Opcode::AndIntLit16,
        205 => Opcode::OrIntLit16,
        206 => Opcode::XorIntLit16,
        207 => Opcode::AddIntLit8,
        208 => Opcode::RsubIntLit8,
        209 => Opcode::MulIntLit8,
        210 => Opcode::DivIntLit8,
        211 => Opcode::RemIntLit8,
        212 => Opcode::AndIntLit8,
        213 => Opcode::OrIntLit8,
        214 => Opcode::XorIntLit8,
        215 => Opcode::ShlIntLit8,
        216 => Opcode::ShrIntLit8,
        217 => Opcode::UshrIntLit8,
        218 => Opcode::IgetVolatile,
        219 => Opcode::IputVolatile,
        220 => Opcode::SgetVolatile,
        221 => Opcode::SputVolatile,
        222 => Opcode::IgetObjectVolatile,
        223 => Opcode::IgetWideVolatile,
        224 => Opcode::IputWideVolatile,
        225 => Opcode::SgetWideVolatile,
        226 => Opcode::SputWideVolatile,
        227 => Opcode::ThrowVerificationError,
        228 => Opcode::ExecuteInline,
        229 => Opcode::ExecuteInlineRange,
        230 => Opcode::InvokeObjectInitRange,
        231 => Opcode::ReturnVoidNoBarrier,
        232 => Opcode::InvokeSuperQuick,
        233 => Opcode::InvokeSuperQuickRange,
        234 => Opcode::IputObjectVolatile,
        235 => Opcode::SgetObjectVolatile,
        236 => Opcode::SputObjectVolatile,
        237 => Opcode::PackedSwitchPayload,
        238 => Opcode::SparseSwitchPayload,
        239 => Opcode::ArrayPayload,
        240 => Opcode::InvokePolymorphic,
        241 => Opcode::InvokePolymorphicRange,
        242 => Opcode::InvokeCustom,
        243 => Opcode::InvokeCustomRange,
        244 => Opcode::ConstMethodHandle,
        _ => Opcode::ConstMethodType,
    }
}

/// Every opcode, in table order.
pub open spec fn spec_all() -> Seq<Opcode> {
    Seq::new(OPCODE_COUNT as nat, |i: int| spec_opcode_at(i as usize))
}

/// The opcode at index `i` of the catalogue.
fn opcode_at(i: usize) -> (r: Opcode)
    ensures
        r == spec_opcode_at(i),
{
    match i {
        0 => Opcode::Nop,
        1 => Opcode::Move,
        2 => Opcode::MoveFrom16,
        3 => Opcode::Move16,
        4 => Opcode::MoveWide,
        5 => Opcode::MoveWideFrom16,
        6 => Opcode::MoveWide16,
        7 => Opcode::MoveObject,
        8 => Opcode::MoveObjectFrom16,
        9 => Opcode::MoveObject16,
        10 => Opcode::MoveResult,
        11 => Opcode::MoveResultWide,
        12 => Opcode::MoveResultObject,
        13 => Opcode::MoveException,
        14 => Opcode::ReturnVoid,
        15 => Opcode::Return,
        16 => Opcode::ReturnWide,
        17 => Opcode::ReturnObject,
        18 => Opcode::Const4,
        19 => Opcode::Const16,
        20 => Opcode::CONST,
        21 => Opcode::ConstHigh16,
        22 => Opcode::ConstWide16,
        23 => Opcode::ConstWide32,
        24 => Opcode::ConstWide,
        25 => Opcode::ConstWideHigh16,
        26 => Opcode::ConstString,
        27 => Opcode::ConstStringJumbo,
        28 => Opcode::ConstClass,
        29 => Opcode::MonitorEnter,
        30 => Opcode::MonitorExit,
        31 => Opcode::CheckCast,
        32 => Opcode::InstanceOf,
        33 => Opcode::ArrayLength,
        34 => Opcode::NewInstance,
        35 => Opcode::NewArray,
        36 => Opcode::FilledNewArray,
        37 => Opcode::FilledNewArrayRange,
        38 => Opcode::FillArrayData,
        39 => Opcode::THROW,
        40 => Opcode::GOTO,
        41 => Opcode::Goto16,
        42 => Opcode::Goto32,
        43 => Opcode::PackedSwitch,
        44 => Opcode::SparseSwitch,
        45 => Opcode::CmplFloat,
        46 => Opcode::CmpgFloat,
        47 => Opcode::CmplDouble,
        48 => Opcode::CmpgDouble,
        49 => Opcode::CmpLong,
        50 => Opcode::IfEq,
        51 => Opcode::IfNe,
        52 => Opcode::IfLt,
        53 => Opcode::IfGe,
        54 => Opcode::IfGt,
        55 => Opcode::IfLe,
        56 => Opcode::IfEqz,
        57 => Opcode::IfNez,
        58 => Opcode::IfLtz,
        59 => Opcode::IfGez,
        60 => Opcode::IfGtz,
        61 => Opcode::IfLez,
        62 => Opcode::AGET,
        63 => Opcode::AgetWide,
        64 => Opcode::AgetObject,
        65 => Opcode::AgetBoolean,
        66 => Opcode::AgetByte,
        67 => Opcode::AgetChar,
        68 => Opcode::AgetShort,
        69 => Opcode::APUT,
        70 => Opcode::AputWide,
        71 => Opcode::AputObject,
        72 => Opcode::AputBoolean,
        73 => Opcode::AputByte,
        74 => Opcode::AputChar,
        75 => Opcode::AputShort,
        76 => Opcode::IGET,
        77 => Opcode::IgetWide,
        78 => Opcode::IgetObject,
        79 => Opcode::IgetBoolean,
        80 => Opcode::IgetByte,
        81 => Opcode::IgetChar,
        82 => Opcode::IgetShort,
        83 => Opcode::IPUT,
        84 => Opcode::IputWide,
        85 => Opcode::IputObject,
        86 => Opcode::IputBoolean,
        87 => Opcode::IputByte,
        88 => Opcode::IputChar,
        89 => Opcode::IputShort,
        90 => Opcode::SGET,
        91 => Opcode::SgetWide,
        92 => Opcode::SgetObject,
        93 => Opcode::SgetBoolean,
        94 => Opcode::SgetByte,
        95 => Opcode::SgetChar,
        96 => Opcode::SgetShort,
        97 => Opcode::SPUT,
        98 => Opcode::SputWide,
        99 => Opcode::SputObject,
        100 => Opcode::SputBoolean,
        101 => Opcode::SputByte,
        102 => Opcode::SputChar,
        103 => Opcode::SputShort,
        104 => Opcode::InvokeVirtual,
        105 => Opcode::InvokeSuper,
        106 => Opcode::InvokeDirect,
        107 => Opcode::InvokeStatic,
        108 => Opcode::InvokeInterface,
        109 => Opcode::InvokeVirtualRange,
        110 => Opcode::InvokeSuperRange,
        111 => Opcode::InvokeDirectRange,
        112 => Opcode::InvokeStaticRange,
        113 => Opcode::InvokeInterfaceRange,
        114 => Opcode::NegInt,
        115 => Opcode::NotInt,
        116 => Opcode::NegLong,
        117 => Opcode::NotLong,
        118 => Opcode::NegFloat,
        119 => Opcode::NegDouble,
        120 => Opcode::IntToLong,
        121 => Opcode::IntToFloat,
        122 => Opcode::IntToDouble,
        123 => Opcode::LongToInt,
        124 => Opcode::LongToFloat,
        125 => Opcode::LongToDouble,
        126 => Opcode::FloatToInt,
        127 => Opcode::FloatToLong,
        128 => Opcode::FloatToDouble,
        129 => Opcode::DoubleToInt,
        130 => Opcode::DoubleToLong,
        131 => Opcode::DoubleToFloat,
        132 => Opcode::IntToByte,
        133 => Opcode::IntToChar,
        134 => Opcode::IntToShort,
        135 => Opcode::AddInt,
        136 => Opcode::SubInt,
        137 => Opcode::MulInt,
        138 => Opcode::DivInt,
        139 => Opcode::RemInt,
        140 => Opcode::AndInt,
        141 => Opcode::OrInt,
        142 => Opcode::XorInt,
        143 => Opcode::ShlInt,
        144 => Opcode::ShrInt,
        145 => Opcode::UshrInt,
        146 => Opcode::AddLong,
        147 => Opcode::SubLong,
        148 => Opcode::MulLong,
        149 => Opcode::DivLong,
        150 => Opcode::RemLong,
        151 => Opcode::AndLong,
        152 => Opcode::OrLong,
        153 => Opcode::XorLong,
        154 => Opcode::ShlLong,
        155 => Opcode::ShrLong,
        156 => Opcode::UshrLong,
        157 => Opcode::AddFloat,
        158 => Opcode::SubFloat,
        159 => Opcode::MulFloat,
        160 => Opcode::DivFloat,
        161 => Opcode::RemFloat,
        162 => Opcode::AddDouble,
        163 => Opcode::SubDouble,
        164 => Opcode::MulDouble,
        165 => Opcode::DivDouble,
        166 => Opcode::RemDouble,
        167 => Opcode::AddInt2addr,
        168 => Opcode::SubInt2addr,
        169 => Opcode::MulInt2addr,
        170 => Opcode::DivInt2addr,
        171 => Opcode::RemInt2addr,
        172 => Opcode::AndInt2addr,
        173 => Opcode::OrInt2addr,
        174 => Opcode::XorInt2addr,
        175 => Opcode::ShlInt2addr,
        176 => Opcode::ShrInt2addr,
        177 => Opcode::UshrInt2addr,
        178 => Opcode::AddLong2addr,
        179 => Opcode::SubLong2addr,
        180 => Opcode::MulLong2addr,
        181 => Opcode::DivLong2addr,
        182 => Opcode::RemLong2addr,
        183 => Opcode::AndLong2addr,
        184 => Opcode::OrLong2addr,
        185 => Opcode::XorLong2addr,
        186 => Opcode::ShlLong2addr,
        187 => Opcode::ShrLong2addr,
        188 => Opcode::UshrLong2addr,
        189 => Opcode::AddFloat2addr,
        190 => Opcode::SubFloat2addr,
        191 => Opcode::MulFloat2addr,
        192 => Opcode::DivFloat2addr,
        193 => Opcode::RemFloat2addr,
        194 => Opcode::AddDouble2addr,
        195 => Opcode::SubDouble2addr,
        196 => Opcode::MulDouble2addr,
        197 => Opcode::DivDouble2addr,
        198 => Opcode::RemDouble2addr,
        199 => Opcode::AddIntLit16,
        200 => Opcode::RsubInt,
        201 => Opcode::MulIntLit16,
        202 => Opcode::DivIntLit16,
        203 => Opcode::RemIntLit16,
        204 => Opcode::AndIntLit16,
        205 => Opcode::OrIntLit16,
        206 => Opcode::XorIntLit16,
        207 => Opcode::AddIntLit8,
        208 => Opcode::RsubIntLit8,
        209 => Opcode::MulIntLit8,
        210 => Opcode::DivIntLit8,
        211 => Opcode::RemIntLit8,
        212 => Opcode::AndIntLit8,
        213 => Opcode::OrIntLit8,
        214 => Opcode::XorIntLit8,
        215 => Opcode::ShlIntLit8,
        216 => Opcode::ShrIntLit8,
        217 => Opcode::UshrIntLit8,
        218 => Opcode::IgetVolatile,
        219 => Opcode::IputVolatile,
        220 => Opcode::SgetVolatile,
        221 => Opcode::SputVolatile,
        222 => Opcode::IgetObjectVolatile,
        223 => Opcode::IgetWideVolatile,
        224 => Opcode::IputWideVolatile,
        225 => Opcode::SgetWideVolatile,
        226 => Opcode::SputWideVolatile,
        227 => Opcode::ThrowVerificationError,
        228 => Opcode::ExecuteInline,
        229 => Opcode::ExecuteInlineRange,
        230 => Opcode::InvokeObjectInitRange,
        231 => Opcode::ReturnVoidNoBarrier,
        232 => Opcode::InvokeSuperQuick,
        233 => Opcode::InvokeSuperQuickRange,
        234 => Opcode::IputObjectVolatile,
        235 => Opcode::SgetObjectVolatile,
        236 => Opcode::SputObjectVolatile,
        237 => Opcode::PackedSwitchPayload,
        238 => Opcode::SparseSwitchPayload,
        239 => Opcode::ArrayPayload,
        240 => Opcode::InvokePolymorphic,
        241 => Opcode::InvokePolymorphicRange,
        242 => Opcode::InvokeCustom,
        243 => Opcode::InvokeCustomRange,
        244 => Opcode::ConstMethodHandle,
        _ => Opcode::ConstMethodType,
    }
}

impl Opcode {
    /// Every opcode, in table order.
    pub fn all() -> (r: Vec<Opcode>)
        ensures
            r@ == spec_all(),
    {
        let mut v: Vec<Opcode> = Vec::new();
        let mut i: usize = 0;
        while i < OPCODE_COUNT
            invariant
                i <= OPCODE_COUNT,
                v@ =~= Seq::new(i as nat, |j: int| spec_opcode_at(j as usize)),
            decreases OPCODE_COUNT - i,
        {
            v.push(opcode_at(i));
            i = i + 1;
        }
        v
    }
}


/// Looking an opcode's value up in the mode it belongs to (ODEX for the
/// optimized opcodes, standard DEX for the rest) gives the opcode back.
#[verifier::rlimit(100)]
pub proof fn lemma_value_lookup_round_trip(op: Opcode)
    ensures
        spec_from_value(spec_info(op).value, spec_odex_only(op)) == Some(op),
{
    match op {
        Opcode::Nop => {},
        Opcode::Move => {},
        Opcode::MoveFrom16 => {},
        Opcode::Move16 => {},
        Opcode::MoveWide => {},
        Opcode::MoveWideFrom16 => {},
        Opcode::MoveWide16 => {},
        Opcode::MoveObject => {},
        Opcode::MoveObjectFrom16 => {},
        Opcode::MoveObject16 => {},
        Opcode::MoveResult => {},
        Opcode::MoveResultWide => {},
        Opcode::MoveResultObject => {},
        Opcode::MoveException => {},
        Opcode::ReturnVoid => {},
        Opcode::Return => {},
        Opcode::ReturnWide => {},
        Opcode::ReturnObject => {},
        Opcode::Const4 => {},
        Opcode::Const16 => {},
        Opcode::CONST => {},
        Opcode::ConstHigh16 => {},
        Opcode::ConstWide16 => {},
        Opcode::ConstWide32 => {},
        Opcode::ConstWide => {},
        Opcode::ConstWideHigh16 => {},
        Opcode::ConstString => {},
        Opcode::ConstStringJumbo => {},
        Opcode::ConstClass => {},
        Opcode::MonitorEnter => {},
        Opcode::MonitorExit => {},
        Opcode::CheckCast => {},
        Opcode::InstanceOf => {},
        Opcode::ArrayLength => {},
        Opcode::NewInstance => {},
        Opcode::NewArray => {},
        Opcode::FilledNewArray => {},
        Opcode::FilledNewArrayRange => {},
        Opcode::FillArrayData => {},
        Opcode::THROW => {},
        Opcode::GOTO => {},
        Opcode::Goto16 => {},
        Opcode::Goto32 => {},
        Opcode::PackedSwitch => {},
        Opcode::SparseSwitch => {},
        Opcode::CmplFloat => {},
        Opcode::CmpgFloat => {},
        Opcode::CmplDouble => {},
        Opcode::CmpgDouble => {},
        Opcode::CmpLong => {},
        Opcode::IfEq => {},
        Opcode::IfNe => {},
        Opcode::IfLt => {},
        Opcode::IfGe => {},
        Opcode::IfGt => {},
        Opcode::IfLe => {},
        Opcode::IfEqz => {},
        Opcode::IfNez => {},
        Opcode::IfLtz => {},
        Opcode::IfGez => {},
        Opcode::IfGtz => {},
        Opcode::IfLez => {},
        Opcode::AGET => {},
        Opcode::AgetWide => {},
        Opcode::AgetObject => {},
        Opcode::AgetBoolean => {},
        Opcode::AgetByte => {},
        Opcode::AgetChar => {},
        Opcode::AgetShort => {},
        Opcode::APUT => {},
        Opcode::AputWide => {},
        Opcode::AputObject => {},
        Opcode::AputBoolean => {},
        Opcode::AputByte => {},
        Opcode::AputChar => {},
        Opcode::AputShort => {},
        Opcode::IGET => {},
        Opcode::IgetWide => {},
        Opcode::IgetObject => {},
        Opcode::IgetBoolean => {},
        Opcode::IgetByte => {},
        Opcode::IgetChar => {},
        Opcode::IgetShort => {},
        Opcode::IPUT => {},
        Opcode::IputWide => {},
        Opcode::IputObject => {},
        Opcode::IputBoolean => {},
        Opcode::IputByte => {},
        Opcode::IputChar => {},
        Opcode::IputShort => {},
        Opcode::SGET => {},
        Opcode::SgetWide => {},
        Opcode::SgetObject => {},
        Opcode::SgetBoolean => {},
        Opcode::SgetByte => {},
        Opcode::SgetChar => {},
        Opcode::SgetShort => {},
        Opcode::SPUT => {},
        Opcode::SputWide => {},
        Opcode::SputObject => {},
        Opcode::SputBoolean => {},
        Opcode::SputByte => {},
        Opcode::SputChar => {},
        Opcode::SputShort => {},
        Opcode::InvokeVirtual => {},
        Opcode::InvokeSuper => {},
        Opcode::InvokeDirect => {},
        Opcode::InvokeStatic => {},
        Opcode::InvokeInterface => {},
        Opcode::InvokeVirtualRange => {},
        Opcode::InvokeSuperRange => {},
        Opcode::InvokeDirectRange => {},
        Opcode::InvokeStaticRange => {},
        Opcode::InvokeInterfaceRange => {},
        Opcode::NegInt => {},
        Opcode::NotInt => {},
        Opcode::NegLong => {},
        Opcode::NotLong => {},
        Opcode::NegFloat => {},
        Opcode::NegDouble => {},
        Opcode::IntToLong => {},
        Opcode::IntToFloat => {},
        Opcode::IntToDouble => {},
        Opcode::LongToInt => {},
        Opcode::LongToFloat => {},
        Opcode::LongToDouble => {},
        Opcode::FloatToInt => {},
        Opcode::FloatToLong => {},
        Opcode::FloatToDouble => {},
        Opcode::DoubleToInt => {},
        Opcode::DoubleToLong => {},
        Opcode::DoubleToFloat => {},
        Opcode::IntToByte => {},
        Opcode::IntToChar => {},
        Opcode::IntToShort => {},
        Opcode::AddInt => {},
        Opcode::SubInt => {},
        Opcode::MulInt => {},
        Opcode::DivInt => {},
        Opcode::RemInt => {},
        Opcode::AndInt => {},
        Opcode::OrInt => {},
        Opcode::XorInt => {},
        Opcode::ShlInt => {},
        Opcode::ShrInt => {},
        Opcode::UshrInt => {},
        Opcode::AddLong => {},
        Opcode::SubLong => {},
        Opcode::MulLong => {},
        Opcode::DivLong => {},
        Opcode::RemLong => {},
        Opcode::AndLong => {},
        Opcode::OrLong => {},
        Opcode::XorLong => {},
        Opcode::ShlLong => {},
        Opcode::ShrLong => {},
        Opcode::UshrLong => {},
        Opcode::AddFloat => {},
        Opcode::SubFloat => {},
        Opcode::MulFloat => {},
        Opcode::DivFloat => {},
        Opcode::RemFloat => {},
        Opcode::AddDouble => {},
        Opcode::SubDouble => {},
        Opcode::MulDouble => {},
        Opcode::DivDouble => {},
        Opcode::RemDouble => {},
        Opcode::AddInt2addr => {},
        Opcode::SubInt2addr => {},
        Opcode::MulInt2addr => {},
        Opcode::DivInt2addr => {},
        Opcode::RemInt2addr => {},
        Opcode::AndInt2addr => {},
        Opcode::OrInt2addr => {},
        Opcode::XorInt2addr => {},
        Opcode::ShlInt2addr => {},
        Opcode::ShrInt2addr => {},
        Opcode::UshrInt2addr => {},
        Opcode::AddLong2addr => {},
        Opcode::SubLong2addr => {},
        Opcode::MulLong2addr => {},
        Opcode::DivLong2addr => {},
        Opcode::RemLong2addr => {},
        Opcode::AndLong2addr => {},
        Opcode::OrLong2addr => {},
        Opcode::XorLong2addr => {},
        Opcode::ShlLong2addr => {},
        Opcode::ShrLong2addr => {},
        Opcode::UshrLong2addr => {},
        Opcode::AddFloat2addr => {},
        Opcode::SubFloat2addr => {},
        Opcode::MulFloat2addr => {},
        Opcode::DivFloat2addr => {},
        Opcode::RemFloat2addr => {},
        Opcode::AddDouble2addr => {},
        Opcode::SubDouble2addr => {},
        Opcode::MulDouble2addr => {},
        Opcode::DivDouble2addr => {},
        Opcode::RemDouble2addr => {},
        Opcode::AddIntLit16 => {},
        Opcode::RsubInt => {},
        Opcode::MulIntLit16 => {},
        Opcode::DivIntLit16 => {},
        Opcode::RemIntLit16 => {},
        Opcode::AndIntLit16 => {},
        Opcode::OrIntLit16 => {},
        Opcode::XorIntLit16 => {},
        Opcode::AddIntLit8 => {},
        Opcode::RsubIntLit8 => {},
        Opcode::MulIntLit8 => {},
        Opcode::DivIntLit8 => {},
        Opcode::RemIntLit8 => {},
        Opcode::AndIntLit8 => {},
        Opcode::OrIntLit8 => {},
        Opcode::XorIntLit8 => {},
        Opcode::ShlIntLit8 => {},
        Opcode::ShrIntLit8 => {},
        Opcode::UshrIntLit8 => {},
        Opcode::IgetVolatile => {},
        Opcode::IputVolatile => {},
        Opcode::SgetVolatile => {},
        Opcode::SputVolatile => {},
        Opcode::IgetObjectVolatile => {},
        Opcode::IgetWideVolatile => {},
        Opcode::IputWideVolatile => {},
        Opcode::SgetWideVolatile => {},
        Opcode::SputWideVolatile => {},
        Opcode::ThrowVerificationError => {},
        Opcode::ExecuteInline => {},
        Opcode::ExecuteInlineRange => {},
        Opcode::InvokeObjectInitRange => {},
        Opcode::ReturnVoidNoBarrier => {},
        Opcode::InvokeSuperQuick => {},
        Opcode::InvokeSuperQuickRange => {},
        Opcode::IputObjectVolatile => {},
        Opcode::SgetObjectVolatile => {},
        Opcode::SputObjectVolatile => {},
        Opcode::PackedSwitchPayload => {},
        Opcode::SparseSwitchPayload => {},
        Opcode::ArrayPayload => {},
        Opcode::InvokePolymorphic => {},
        Opcode::InvokePolymorphicRange => {},
        Opcode::InvokeCustom => {},
        Opcode::InvokeCustomRange => {},
        Opcode::ConstMethodHandle => {},
        Opcode::ConstMethodType => {},
    }
}

/// A lookup only gives an opcode with the value looked up, and in standard
/// mode never an optimized one.
#[verifier::rlimit(100)]
pub proof fn lemma_lookup_sound(value: u16, odex: bool)
    ensures
        spec_from_value(value, odex) matches Some(op) ==> spec_info(op).value == value && (
        spec_odex_only(op) ==> odex),
{
}

} // verus!
