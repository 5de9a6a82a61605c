//! Decoding one instruction from a method body's code units.

use vstd::prelude::*;

use crate::bytecode::format::Format;
use crate::bytecode::opcode::{spec_from_value, spec_info, Opcode};
use crate::parser::parse::{spec_parse_list, Parse};
use crate::bytecode::opcode::lemma_lookup_sound;
use crate::bytecode::value_map::lemma_payload_iff_wide;
use crate::parser::{fits, le16, le16_at, le32, le32_at, le64, parsed, spec_i32, twos, DecodeMode, FileParser, ParseError};

verus! {

/// A decoded instruction: the opcode with the operands of its format, or one
/// of the three payloads that sit in the code stream.
///
/// Operand letters follow the Dalvik format descriptions; a nibble pair
/// `(x, y)` holds the low nibble first.
#[derive(Debug, PartialEq, Eq)]
pub enum Instruction {
    /// `ØØ|op`
    Instruction10x(Opcode),
    /// `B|A|op`: `op vA, vB`
    Instruction12x(Opcode, (u8, u8)),
    /// `B|A|op`: `op vA, #+B`
    Instruction11n(Opcode, (u8, u8)),
    /// `AA|op`: `op vAA`
    Instruction11x(Opcode, (u8,)),
    /// `AA|op`: `op +AA`
    Instruction10t(Opcode, (u8,)),
    /// `ØØ|op AAAA`: `op +AAAA`
    Instruction20t(Opcode, (u16,)),
    /// `AA|op BBBB`: `op AA, kind@BBBB`
    Instruction20bc(Opcode, (u8, u16)),
    /// `AA|op BBBB`: `op vAA, vBBBB`
    Instruction22x(Opcode, (u8, u16)),
    /// `AA|op BBBB`: `op vAA, +BBBB`
    Instruction21t(Opcode, (u8, u16)),
    /// `AA|op BBBB`: `op vAA, #+BBBB`
    Instruction21s(Opcode, (u8, u16)),
    /// `AA|op BBBB`: `op vAA, #+BBBB0000`; the raw operand and the 32-bit
    /// constant it stands for.
    Instruction21ih(Opcode, (u8, u16, i32)),
    /// `AA|op BBBB`: `op vAA, #+BBBB000000000000`; the raw operand and the
    /// 64-bit constant it stands for.
    Instruction21lh(Opcode, (u8, u16, i64)),
    /// `AA|op BBBB`: `op vAA, kind@BBBB`
    Instruction21c(Opcode, (u8, u16)),
    /// `AA|op CC|BB`: `op vAA, vBB, vCC`
    Instruction23x(Opcode, (u8, u8, u8)),
    /// `AA|op CC|BB`: `op vAA, vBB, #+CC`
    Instruction22b(Opcode, (u8, u8, u8)),
    /// `B|A|op CCCC`: `op vA, vB, +CCCC`
    Instruction22t(Opcode, (u8, u8, u16)),
    /// `B|A|op CCCC`: `op vA, vB, #+CCCC`
    Instruction22s(Opcode, (u8, u8, u16)),
    /// `B|A|op CCCC`: `op vA, vB, kind@CCCC`
    Instruction22c(Opcode, (u8, u8, u16)),
    /// `B|A|op CCCC`: `op vA, vB, fieldoff@CCCC`
    Instruction22cs(Opcode, (u8, u8, u16)),
    /// `ØØ|op AAAAlo AAAAhi`: `op +AAAAAAAA`
    Instruction30t(Opcode, (u32,)),
    /// `ØØ|op AAAA BBBB`: `op vAAAA, vBBBB`
    Instruction32x(Opcode, (u16, u16)),
    /// `AA|op BBBBlo BBBBhi`: `op vAA, #+BBBBBBBB`
    Instruction31i(Opcode, (u8, u32)),
    /// `AA|op BBBBlo BBBBhi`: `op vAA, +BBBBBBBB`
    Instruction31t(Opcode, (u8, u32)),
    /// `AA|op BBBBlo BBBBhi`: `op vAA, string@BBBBBBBB`
    Instruction31c(Opcode, (u8, u32)),
    /// `A|G|op BBBB F|E|D|C`: `op {vC, vD, vE, vF, vG}, kind@BBBB`
    Instruction35c(Opcode, (u8, u8, u16, u8, u8, u8, u8)),
    /// `A|G|op BBBB F|E|D|C`: `op {vC, vD, vE, vF, vG}, vtaboff@BBBB`
    Instruction35ms(Opcode, (u8, u8, u16, u8, u8, u8, u8)),
    /// `A|G|op BBBB F|E|D|C`: `op {vC, vD, vE, vF, vG}, inline@BBBB`
    Instruction35mi(Opcode, (u8, u8, u16, u8, u8, u8, u8)),
    /// `AA|op BBBB CCCC`: `op {vCCCC .. vNNNN}, kind@BBBB`
    Instruction3rc(Opcode, (u8, u16, u16)),
    /// `AA|op BBBB CCCC`: `op {vCCCC .. vNNNN}, vtaboff@BBBB`
    Instruction3rms(Opcode, (u8, u16, u16)),
    /// `AA|op BBBB CCCC`: `op {vCCCC .. vNNNN}, inline@BBBB`
    Instruction3rmi(Opcode, (u8, u16, u16)),
    /// `A|G|op BBBB F|E|D|C HHHH`: `op {vC .. vG}, meth@BBBB, proto@HHHH`
    Instruction45cc(Opcode, (u8, u8, u16, u8, u8, u8, u8, u16)),
    /// `AA|op BBBB CCCC HHHH`: `op {vCCCC .. vNNNN}, meth@BBBB, proto@HHHH`
    Instruction4rcc(Opcode, (u8, u16, u16, u16)),
    /// `AA|op BBBBlo BBBB BBBB BBBBhi`: `op vAA, #+BBBBBBBBBBBBBBBB`
    Instruction51l(Opcode, (u8, u64)),
    /// The targets of a `packed-switch`, for consecutive keys from `first_key`.
    PackedSwitchPayload { size: u16, first_key: i32, targets: Vec<i32> },
    /// The keys and targets of a `sparse-switch`.
    SparseSwitchPayload { size: u16, keys: Vec<i32>, targets: Vec<i32> },
    /// The data of a `fill-array-data`: `size` elements of `element_width` bytes.
    FillArrayDataPayload { element_width: u16, size: u32, data: Vec<u8> },
}

/// The opcode at `pos`: one byte, or, after a zero byte, a nonzero byte
/// that names a payload by its high byte; two zero bytes are a `nop`, whose
/// second zero is its unused operand byte.
pub open spec fn spec_opcode(mode: DecodeMode, s: Seq<u8>, pos: int) -> Result<(Opcode, int), ParseError> {
    if !fits(s, pos, 1) {
        Err(ParseError::Truncation)
    } else if s[pos] != 0 {
        lookup(mode, s[pos] as u16, pos + 1)
    } else if !fits(s, pos, 2) {
        Err(ParseError::Truncation)
    } else if s[pos + 1] != 0 {
        lookup(mode, (s[pos + 1] * 256) as u16, pos + 2)
    } else {
        lookup(mode, 0, pos + 1)
    }
}

/// The opcode named `value`, continuing at `next`.
pub open spec fn lookup(mode: DecodeMode, value: u16, next: int) -> Result<(Opcode, int), ParseError> {
    match spec_from_value(value, mode.odex) {
        Some(op) => Ok((op, next)),
        None => Err(ParseError::UnknownOpcode(value)),
    }
}

/// The 32-bit constant `BBBB0000`.
pub open spec fn high16_i32(b: u16) -> i32 {
    twos(b * 0x1_0000, 32) as i32
}

/// The 64-bit constant `BBBB000000000000`.
pub open spec fn high16_i64(b: u16) -> i64 {
    twos(b * 0x1_0000_0000_0000, 64) as i64
}

/// Formats whose operand byte is reserved as zero.
pub open spec fn has_unused_byte(f: Format) -> bool {
    f is Format10x || f is Format20t || f is Format30t || f is Format32x
}

/// The instruction of fixed format whose opcode byte is at `pos`: operand
/// byte at `pos + 1`, then code units.
pub open spec fn spec_operands(op: Opcode, s: Seq<u8>, pos: int) -> Instruction {
    let a = s[pos + 1];
    let (lo, hi) = (a % 16, a / 16);
    let w1 = le16(s, pos + 2) as u16;
    let w2 = le16(s, pos + 4) as u16;
    let w3 = le16(s, pos + 6) as u16;
    let d1 = le32(s, pos + 2) as u32;
    let (f, e) = (s[pos + 4] % 16, s[pos + 4] / 16);
    let (d, c) = (s[pos + 5] % 16, s[pos + 5] / 16);
    match spec_info(op).format {
        Format::Format10x => Instruction::Instruction10x(op),
        Format::Format12x => Instruction::Instruction12x(op, (lo, hi)),
        Format::Format11n => Instruction::Instruction11n(op, (lo, hi)),
        Format::Format11x => Instruction::Instruction11x(op, (a,)),
        Format::Format10t => Instruction::Instruction10t(op, (a,)),
        Format::Format20t => Instruction::Instruction20t(op, (w1,)),
        Format::Format20bc => Instruction::Instruction20bc(op, (a, w1)),
        Format::Format22x => Instruction::Instruction22x(op, (a, w1)),
        Format::Format21t => Instruction::Instruction21t(op, (a, w1)),
        Format::Format21s => Instruction::Instruction21s(op, (a, w1)),
        Format::Format21ih => Instruction::Instruction21ih(op, (a, w1, high16_i32(w1))),
        Format::Format21lh => Instruction::Instruction21lh(op, (a, w1, high16_i64(w1))),
        Format::Format21c => Instruction::Instruction21c(op, (a, w1)),
        Format::Format23x => Instruction::Instruction23x(op, (a, s[pos + 2], s[pos + 3])),
        Format::Format22b => Instruction::Instruction22b(op, (a, s[pos + 2], s[pos + 3])),
        Format::Format22t => Instruction::Instruction22t(op, (lo, hi, w1)),
        Format::Format22s => Instruction::Instruction22s(op, (lo, hi, w1)),
        Format::Format22c => Instruction::Instruction22c(op, (lo, hi, w1)),
        Format::Format22cs => Instruction::Instruction22cs(op, (lo, hi, w1)),
        Format::Format30t => Instruction::Instruction30t(op, (d1,)),
        Format::Format32x => Instruction::Instruction32x(op, (w1, w2)),
        Format::Format31i => Instruction::Instruction31i(op, (a, d1)),
        Format::Format31t => Instruction::Instruction31t(op, (a, d1)),
        Format::Format31c => Instruction::Instruction31c(op, (a, d1)),
        Format::Format35c => Instruction::Instruction35c(op, (lo, hi, w1, f, e, d, c)),
        Format::Format35ms => Instruction::Instruction35ms(op, (lo, hi, w1, f, e, d, c)),
        Format::Format35mi => Instruction::Instruction35mi(op, (lo, hi, w1, f, e, d, c)),
        Format::Format3rc => Instruction::Instruction3rc(op, (a, w1, w2)),
        Format::Format3rms => Instruction::Instruction3rms(op, (a, w1, w2)),
        Format::Format3rmi => Instruction::Instruction3rmi(op, (a, w1, w2)),
        Format::Format45cc => Instruction::Instruction45cc(op, (lo, hi, w1, f, e, d, c, w3)),
        Format::Format4rcc => Instruction::Instruction4rcc(op, (a, w1, w2, w3)),
        _ => Instruction::Instruction51l(op, (a, le64(s, pos + 2) as u64)),
    }
}

/// Where decoding the instruction at `pos` ends, or why it fails. A
/// fixed-format instruction takes its format's code units; a payload states
/// its size.
pub open spec fn spec_decode(mode: DecodeMode, s: Seq<u8>, pos: int) -> Result<int, ParseError> {
    match spec_opcode(mode, s, pos) {
        Err(e) => Err(e),
        Ok((op, _)) => {
            let fmt = spec_info(op).format;
            if fmt is UnresolvedOdexInstruction {
                Err(ParseError::UnknownFormat)
            } else if fmt.spec_payload() {
                spec_payload_end(mode, fmt, s, pos)
            } else if !fits(s, pos, 2 * fmt.spec_size()) {
                Err(ParseError::Truncation)
            } else if has_unused_byte(fmt) && s[pos + 1] != 0 && mode.strict_unused {
                Err(ParseError::UnusedNonZero)
            } else {
                Ok(pos + 2 * fmt.spec_size())
            }
        },
    }
}

/// The `i32` list of `n` entries at `pos`.
pub open spec fn i32_list(mode: DecodeMode, s: Seq<u8>, pos: int, n: nat) -> Result<(Seq<i32>, int), ParseError> {
    spec_parse_list::<i32>(mode, s, pos, n)
}

/// Where the payload at `pos` ends: its two identifying bytes, its header,
/// its entries, and for array data a pad byte after an odd byte count.
pub open spec fn spec_payload_end(mode: DecodeMode, fmt: Format, s: Seq<u8>, pos: int) -> Result<int, ParseError> {
    if fmt is PackedSwitchPayload {
        if !fits(s, pos, 8) {
            Err(ParseError::Truncation)
        } else {
            match i32_list(mode, s, pos + 8, le16(s, pos + 2)) {
                Ok((_, end)) => Ok(end),
                Err(e) => Err(e),
            }
        }
    } else if fmt is SparseSwitchPayload {
        if !fits(s, pos, 4) {
            Err(ParseError::Truncation)
        } else {
            match i32_list(mode, s, pos + 4, le16(s, pos + 2)) {
                Ok((_, mid)) => match i32_list(mode, s, mid, le16(s, pos + 2)) {
                    Ok((_, end)) => Ok(end),
                    Err(e) => Err(e),
                },
                Err(e) => Err(e),
            }
        }
    } else {
        let n: int = (le16(s, pos + 2) * le32(s, pos + 4)) as int;
        if !fits(s, pos, 8) || !fits(s, pos + 8, n) || (n % 2 == 1 && !fits(s, pos + 8, n + 1)) {
            Err(ParseError::Truncation)
        } else {
            Ok(pos + 8 + n + n % 2)
        }
    }
}

/// `ins` is the instruction at `pos`, given that it decodes.
pub open spec fn spec_decoded(mode: DecodeMode, s: Seq<u8>, pos: int, ins: Instruction) -> bool {
    let op = spec_opcode(mode, s, pos)->Ok_0.0;
    let fmt = spec_info(op).format;
    if fmt is PackedSwitchPayload {
        ins matches Instruction::PackedSwitchPayload { size, first_key, targets }
            && size == le16(s, pos + 2)
            && first_key == spec_i32(s, pos + 4)->Ok_0.0
            && targets@ == i32_list(mode, s, pos + 8, size as nat)->Ok_0.0
    } else if fmt is SparseSwitchPayload {
        ins matches Instruction::SparseSwitchPayload { size, keys, targets }
            && size == le16(s, pos + 2)
            && keys@ == i32_list(mode, s, pos + 4, size as nat)->Ok_0.0
            && targets@ == i32_list(mode, s, i32_list(mode, s, pos + 4, size as nat)->Ok_0.1, size as nat)->Ok_0.0
    } else if fmt is ArrayPayload {
        ins matches Instruction::FillArrayDataPayload { element_width, size, data }
            && element_width == le16(s, pos + 2)
            && size == le32(s, pos + 4)
            && data@ == s.subrange(pos + 8, pos + 8 + element_width * size)
    } else {
        ins == spec_operands(op, s, pos)
    }
}

impl Instruction {
    /// Size in 16-bit code units: the format's, or what a payload states.
    pub open spec fn spec_code_units(&self) -> int {
        match self {
            Instruction::PackedSwitchPayload { size, .. } => 4 + 2 * (*size as int),
            Instruction::SparseSwitchPayload { size, .. } => 2 + 4 * (*size as int),
            Instruction::FillArrayDataPayload { element_width, size, .. } => 4 + ((*element_width as int) * (*size as int) + 1) / 2,
            _ => spec_info(self.spec_opcode()).format.spec_size(),
        }
    }

    /// The opcode; the payloads carry theirs implicitly.
    pub open spec fn spec_opcode(&self) -> Opcode {
        match self {
            Instruction::Instruction10x(op) => *op,
            Instruction::Instruction12x(op, _) => *op,
            Instruction::Instruction11n(op, _) => *op,
            Instruction::Instruction11x(op, _) => *op,
            Instruction::Instruction10t(op, _) => *op,
            Instruction::Instruction20t(op, _) => *op,
            Instruction::Instruction20bc(op, _) => *op,
            Instruction::Instruction22x(op, _) => *op,
            Instruction::Instruction21t(op, _) => *op,
            Instruction::Instruction21s(op, _) => *op,
            Instruction::Instruction21ih(op, _) => *op,
            Instruction::Instruction21lh(op, _) => *op,
            Instruction::Instruction21c(op, _) => *op,
            Instruction::Instruction23x(op, _) => *op,
            Instruction::Instruction22b(op, _) => *op,
            Instruction::Instruction22t(op, _) => *op,
            Instruction::Instruction22s(op, _) => *op,
            Instruction::Instruction22c(op, _) => *op,
            Instruction::Instruction22cs(op, _) => *op,
            Instruction::Instruction30t(op, _) => *op,
            Instruction::Instruction32x(op, _) => *op,
            Instruction::Instruction31i(op, _) => *op,
            Instruction::Instruction31t(op, _) => *op,
            Instruction::Instruction31c(op, _) => *op,
            Instruction::Instruction35c(op, _) => *op,
            Instruction::Instruction35ms(op, _) => *op,
            Instruction::Instruction35mi(op, _) => *op,
            Instruction::Instruction3rc(op, _) => *op,
            Instruction::Instruction3rms(op, _) => *op,
            Instruction::Instruction3rmi(op, _) => *op,
            Instruction::Instruction45cc(op, _) => *op,
            Instruction::Instruction4rcc(op, _) => *op,
            Instruction::Instruction51l(op, _) => *op,
            Instruction::PackedSwitchPayload { .. } => Opcode::PackedSwitchPayload,
            Instruction::SparseSwitchPayload { .. } => Opcode::SparseSwitchPayload,
            Instruction::FillArrayDataPayload { .. } => Opcode::ArrayPayload,
        }
    }
}

/// The little-endian u64 at `i` of `b`.
fn le64_at(b: &Vec<u8>, i: usize) -> (r: u64)
    requires
        i + 7 < b.len(),
    ensures
        r == le64(b@, i as int),
{
    le32_at(b, i) as u64 + 0x1_0000_0000 * (le32_at(b, i + 4) as u64)
}

/// The 32-bit constant `BBBB0000`.
fn high16_to_i32(b: u16) -> (r: i32)
    ensures
        r == high16_i32(b),
{
    proof {
        vstd::arithmetic::power2::lemma2_to64();
    }
    if b >= 0x8000 {
        ((b - 0x8000) as i32) * 0x1_0000 - 0x4000_0000 - 0x4000_0000
    } else {
        (b as i32) * 0x1_0000
    }
}

/// The 64-bit constant `BBBB000000000000`.
fn high16_to_i64(b: u16) -> (r: i64)
    ensures
        r == high16_i64(b),
{
    proof {
        vstd::arithmetic::power2::lemma2_to64();
        vstd::arithmetic::power2::lemma2_to64_rest();
    }
    if b >= 0x8000 {
        ((b - 0x8000) as i64) * 0x1_0000_0000_0000 - 0x4000_0000_0000_0000 - 0x4000_0000_0000_0000
    } else {
        (b as i64) * 0x1_0000_0000_0000
    }
}

/// The instruction of fixed format for `op`, from `b`: its bytes after the
/// opcode byte.
fn operands(op: Opcode, b: &Vec<u8>) -> (r: Instruction)
    requires
        !spec_info(op).format.spec_payload(),
        !(spec_info(op).format is UnresolvedOdexInstruction),
        b@.len() == 2 * spec_info(op).format.spec_size() - 1,
    ensures
        forall|s: Seq<u8>, pos: int|
            0 <= pos && pos + 2 * spec_info(op).format.spec_size() <= s.len()
            && #[trigger] s.subrange(pos + 1, pos + 2 * spec_info(op).format.spec_size()) == b@
            ==> r == spec_operands(op, s, pos),
{
    let a = b[0];
    let lo = a % 16;
    let hi = a / 16;
    let r = match op.format() {
        Format::Format10x => Instruction::Instruction10x(op),
        Format::Format12x => Instruction::Instruction12x(op, (lo, hi)),
        Format::Format11n => Instruction::Instruction11n(op, (lo, hi)),
        Format::Format11x => Instruction::Instruction11x(op, (a,)),
        Format::Format10t => Instruction::Instruction10t(op, (a,)),
        Format::Format20t => Instruction::Instruction20t(op, (le16_at(b, 1),)),
        Format::Format20bc => Instruction::Instruction20bc(op, (a, le16_at(b, 1))),
        Format::Format22x => Instruction::Instruction22x(op, (a, le16_at(b, 1))),
        Format::Format21t => Instruction::Instruction21t(op, (a, le16_at(b, 1))),
        Format::Format21s => Instruction::Instruction21s(op, (a, le16_at(b, 1))),
        Format::Format21ih => {
            let w = le16_at(b, 1);
            Instruction::Instruction21ih(op, (a, w, high16_to_i32(w)))
        },
        Format::Format21lh => {
            let w = le16_at(b, 1);
            Instruction::Instruction21lh(op, (a, w, high16_to_i64(w)))
        },
        Format::Format21c => Instruction::Instruction21c(op, (a, le16_at(b, 1))),
        Format::Format23x => Instruction::Instruction23x(op, (a, b[1], b[2])),
        Format::Format22b => Instruction::Instruction22b(op, (a, b[1], b[2])),
        Format::Format22t => Instruction::Instruction22t(op, (lo, hi, le16_at(b, 1))),
        Format::Format22s => Instruction::Instruction22s(op, (lo, hi, le16_at(b, 1))),
        Format::Format22c => Instruction::Instruction22c(op, (lo, hi, le16_at(b, 1))),
        Format::Format22cs => Instruction::Instruction22cs(op, (lo, hi, le16_at(b, 1))),
        Format::Format30t => Instruction::Instruction30t(op, (le32_at(b, 1),)),
        Format::Format32x => Instruction::Instruction32x(op, (le16_at(b, 1), le16_at(b, 3))),
        Format::Format31i => Instruction::Instruction31i(op, (a, le32_at(b, 1))),
        Format::Format31t => Instruction::Instruction31t(op, (a, le32_at(b, 1))),
        Format::Format31c => Instruction::Instruction31c(op, (a, le32_at(b, 1))),
        Format::Format35c => Instruction::Instruction35c(
            op,
            (lo, hi, le16_at(b, 1), b[3] % 16, b[3] / 16, b[4] % 16, b[4] / 16),
        ),
        Format::Format35ms => Instruction::Instruction35ms(
            op,
            (lo, hi, le16_at(b, 1), b[3] % 16, b[3] / 16, b[4] % 16, b[4] / 16),
        ),
        Format::Format35mi => Instruction::Instruction35mi(
            op,
            (lo, hi, le16_at(b, 1), b[3] % 16, b[3] / 16, b[4] % 16, b[4] / 16),
        ),
        Format::Format3rc => Instruction::Instruction3rc(op, (a, le16_at(b, 1), le16_at(b, 3))),
        Format::Format3rms => Instruction::Instruction3rms(op, (a, le16_at(b, 1), le16_at(b, 3))),
        Format::Format3rmi => Instruction::Instruction3rmi(op, (a, le16_at(b, 1), le16_at(b, 3))),
        Format::Format45cc => Instruction::Instruction45cc(
            op,
            (lo, hi, le16_at(b, 1), b[3] % 16, b[3] / 16, b[4] % 16, b[4] / 16, le16_at(b, 5)),
        ),
        Format::Format4rcc => Instruction::Instruction4rcc(
            op,
            (a, le16_at(b, 1), le16_at(b, 3), le16_at(b, 5)),
        ),
        _ => Instruction::Instruction51l(op, (a, le64_at(b, 1))),
    };
    proof {
        assert forall|s: Seq<u8>, pos: int|
            0 <= pos && pos + 2 * spec_info(op).format.spec_size() <= s.len()
            && #[trigger] s.subrange(pos + 1, pos + 2 * spec_info(op).format.spec_size()) == b@
            implies r == spec_operands(op, s, pos) by {
            assert(forall|k: int| 0 <= k < b@.len() ==> s[pos + 1 + k] == b@[k]);
        }
    }
    r
}

/// A payload's opcode takes two bytes, any other opcode one.
proof fn lemma_opcode_width(mode: DecodeMode, s: Seq<u8>, pos: int)
    requires
        spec_opcode(mode, s, pos) is Ok,
    ensures
        ({
            let (op, next) = spec_opcode(mode, s, pos)->Ok_0;
            &&& spec_info(op).format.spec_payload() ==> next == pos + 2
            &&& !spec_info(op).format.spec_payload() ==> next == pos + 1
            &&& !(spec_info(op).format is UnresolvedOdexInstruction)
        }),
{
    let (op, next) = spec_opcode(mode, s, pos)->Ok_0;
    lemma_payload_iff_wide(op);
    if s[pos] != 0 {
        lemma_lookup_sound(s[pos] as u16, mode.odex);
    } else if s[pos + 1] != 0 {
        lemma_lookup_sound((s[pos + 1] * 256) as u16, mode.odex);
    } else {
        lemma_lookup_sound(0, mode.odex);
    }
}

/// Reads the opcode at the cursor.
fn read_opcode(p: &mut FileParser) -> (r: Result<Opcode, ParseError>)
    requires
        old(p).wf(),
    ensures
        parsed(r, *old(p), *final(p), spec_opcode(old(p).mode(), old(p).bytes(), old(p).pos())),
{
    let mode = p.decode_mode();
    let b0 = match p.read_u8() {
        Ok(b) => b,
        Err(e) => {
            return Err(e);
        },
    };
    let value: u16 = if b0 != 0 {
        b0 as u16
    } else {
        let b1 = match p.read_u8() {
            Ok(b) => b,
            Err(e) => {
                return Err(e);
            },
        };
        if b1 != 0 {
            b1 as u16 * 256
        } else {
            let back = p.get_offset() - 1;
            let _ = p.set_offset(back);
            0
        }
    };
    match Opcode::from_value(value, mode.odex) {
        Some(op) => Ok(op),
        None => Err(ParseError::UnknownOpcode(value)),
    }
}

/// The result of decoding the instruction at `pos`, as [`Instruction::parse`]
/// promises it.
#[verifier::opaque]
pub open spec fn decoded_as(r: Result<Instruction, ParseError>, after: FileParser, mode: DecodeMode, s: Seq<u8>, pos: int) -> bool {
    &&& after.wf()
    &&& after.bytes() == s
    &&& after.mode() == mode
    &&& match spec_decode(mode, s, pos) {
        Ok(end) => r is Ok && after.pos() == end && spec_decoded(mode, s, pos, r->Ok_0),
        Err(e) => r == Err::<Instruction, ParseError>(e),
    }
}

/// Reads a packed-switch payload whose two identifying bytes end at the cursor.
fn parse_packed(p: &mut FileParser, start: usize) -> (r: Result<Instruction, ParseError>)
    requires
        old(p).wf(),
        old(p).pos() == start + 2,
        spec_opcode(old(p).mode(), old(p).bytes(), start as int) == Ok::<(Opcode, int), ParseError>((Opcode::PackedSwitchPayload, old(p).pos())),
    ensures
        decoded_as(r, *final(p), old(p).mode(), old(p).bytes(), start as int),
{
    reveal(decoded_as);
    let size = match p.read_u16() {
        Ok(v) => v,
        Err(e) => {
            return Err(e);
        },
    };
    let first_key = match p.read_i32() {
        Ok(v) => v,
        Err(e) => {
            return Err(e);
        },
    };
    let targets = match p.parse_list::<i32>(size as u32) {
        Ok(v) => v,
        Err(e) => {
            return Err(e);
        },
    };
    Ok(Instruction::PackedSwitchPayload { size, first_key, targets })
}

/// Reads a sparse-switch payload whose two identifying bytes end at the cursor.
fn parse_sparse(p: &mut FileParser, start: usize) -> (r: Result<Instruction, ParseError>)
    requires
        old(p).wf(),
        old(p).pos() == start + 2,
        spec_opcode(old(p).mode(), old(p).bytes(), start as int) == Ok::<(Opcode, int), ParseError>((Opcode::SparseSwitchPayload, old(p).pos())),
    ensures
        decoded_as(r, *final(p), old(p).mode(), old(p).bytes(), start as int),
{
    reveal(decoded_as);
    let size = match p.read_u16() {
        Ok(v) => v,
        Err(e) => {
            return Err(e);
        },
    };
    let keys = match p.parse_list::<i32>(size as u32) {
        Ok(v) => v,
        Err(e) => {
            return Err(e);
        },
    };
    let targets = match p.parse_list::<i32>(size as u32) {
        Ok(v) => v,
        Err(e) => {
            return Err(e);
        },
    };
    Ok(Instruction::SparseSwitchPayload { size, keys, targets })
}

/// Reads an array-data payload whose two identifying bytes end at the cursor.
fn parse_array(p: &mut FileParser, start: usize) -> (r: Result<Instruction, ParseError>)
    requires
        old(p).wf(),
        old(p).pos() == start + 2,
        spec_opcode(old(p).mode(), old(p).bytes(), start as int) == Ok::<(Opcode, int), ParseError>((Opcode::ArrayPayload, old(p).pos())),
    ensures
        decoded_as(r, *final(p), old(p).mode(), old(p).bytes(), start as int),
{
    reveal(decoded_as);
    let element_width = match p.read_u16() {
        Ok(v) => v,
        Err(e) => {
            return Err(e);
        },
    };
    let size = match p.read_u32() {
        Ok(v) => v,
        Err(e) => {
            return Err(e);
        },
    };
    assert(element_width as u64 * size as u64 <= 0xffff * 0xffff_ffff) by (nonlinear_arith)
        requires element_width <= 0xffff, size <= 0xffff_ffff;
    let n: u64 = element_width as u64 * size as u64;
    if n > (p.len() - p.get_offset()) as u64 {
        return Err(ParseError::Truncation);
    }
    let data = match p.read_bytes(n as usize) {
        Ok(v) => v,
        Err(e) => {
            return Err(e);
        },
    };
    if n % 2 == 1 {
        match p.read_u8() {
            Ok(_) => {},
            Err(e) => {
                return Err(e);
            },
        }
    }
    Ok(Instruction::FillArrayDataPayload { element_width, size, data })
}

/// Reads the operands of a fixed-format instruction whose opcode `op` starts
/// at `start`.
#[verifier::rlimit(50)]
fn parse_fixed(p: &mut FileParser, op: Opcode, start: usize) -> (r: Result<Instruction, ParseError>)
    requires
        old(p).wf(),
        spec_opcode(old(p).mode(), old(p).bytes(), start as int) == Ok::<(Opcode, int), ParseError>((op, old(p).pos())),
        !spec_info(op).format.spec_payload(),
        !(spec_info(op).format is UnresolvedOdexInstruction),
    ensures
        decoded_as(r, *final(p), old(p).mode(), old(p).bytes(), start as int),
{
    reveal(decoded_as);
    let mode = p.decode_mode();
    let fmt = op.format();
    let units = fmt.size() as usize;
    if p.len() - start < 2 * units {
        return Err(ParseError::Truncation);
    }
    let _ = p.set_offset(start + 1);
    let b = match p.read_bytes(2 * units - 1) {
        Ok(v) => v,
        Err(e) => {
            return Err(e);
        },
    };
    let unused = match fmt {
        Format::Format10x | Format::Format20t | Format::Format30t | Format::Format32x => true,
        _ => false,
    };
    if unused && b[0] != 0 && mode.strict_unused {
        return Err(ParseError::UnusedNonZero);
    }
    let r = operands(op, &b);
    proof {
        let s = p.bytes();
        assert(s.subrange(start + 1, start + 2 * fmt.spec_size()) == b@);
    }
    Ok(r)
}

impl Instruction {
    /// Decodes the instruction at the cursor and leaves the cursor after it.
    pub fn parse(p: &mut FileParser) -> (r: Result<Instruction, ParseError>)
        requires
            old(p).wf(),
        ensures
            decoded_as(r, *final(p), old(p).mode(), old(p).bytes(), old(p).pos()),
    {
        let start = p.get_offset();
        let op = match read_opcode(p) {
            Ok(op) => op,
            Err(e) => {
                proof {
                    reveal(decoded_as);
                }
                return Err(e);
            },
        };
        proof {
            lemma_opcode_width(p.mode(), p.bytes(), start as int);
        }
        match op.format() {
            Format::UnresolvedOdexInstruction => Err(ParseError::UnknownFormat),
            Format::PackedSwitchPayload => parse_packed(p, start),
            Format::SparseSwitchPayload => parse_sparse(p, start),
            Format::ArrayPayload => parse_array(p, start),
            _ => parse_fixed(p, op, start),
        }
    }
}

impl Instruction {
    /// The opcode; a payload gives its pseudo-opcode.
    pub fn opcode(&self) -> (r: Opcode)
        ensures
            r == self.spec_opcode(),
    {
        match self {
            Instruction::Instruction10x(op) => *op,
            Instruction::Instruction12x(op, _) => *op,
            Instruction::Instruction11n(op, _) => *op,
            Instruction::Instruction11x(op, _) => *op,
            Instruction::Instruction10t(op, _) => *op,
            Instruction::Instruction20t(op, _) => *op,
            Instruction::Instruction20bc(op, _) => *op,
            Instruction::Instruction22x(op, _) => *op,
            Instruction::Instruction21t(op, _) => *op,
            Instruction::Instruction21s(op, _) => *op,
            Instruction::Instruction21ih(op, _) => *op,
            Instruction::Instruction21lh(op, _) => *op,
            Instruction::Instruction21c(op, _) => *op,
            Instruction::Instruction23x(op, _) => *op,
            Instruction::Instruction22b(op, _) => *op,
            Instruction::Instruction22t(op, _) => *op,
            Instruction::Instruction22s(op, _) => *op,
            Instruction::Instruction22c(op, _) => *op,
            Instruction::Instruction22cs(op, _) => *op,
            Instruction::Instruction30t(op, _) => *op,
            Instruction::Instruction32x(op, _) => *op,
            Instruction::Instruction31i(op, _) => *op,
            Instruction::Instruction31t(op, _) => *op,
            Instruction::Instruction31c(op, _) => *op,
            Instruction::Instruction35c(op, _) => *op,
            Instruction::Instruction35ms(op, _) => *op,
            Instruction::Instruction35mi(op, _) => *op,
            Instruction::Instruction3rc(op, _) => *op,
            Instruction::Instruction3rms(op, _) => *op,
            Instruction::Instruction3rmi(op, _) => *op,
            Instruction::Instruction45cc(op, _) => *op,
            Instruction::Instruction4rcc(op, _) => *op,
            Instruction::Instruction51l(op, _) => *op,
            Instruction::PackedSwitchPayload { .. } => Opcode::PackedSwitchPayload,
            Instruction::SparseSwitchPayload { .. } => Opcode::SparseSwitchPayload,
            Instruction::FillArrayDataPayload { .. } => Opcode::ArrayPayload,
        }
    }

    /// Size in 16-bit code units: the format's, or what a payload states.
    pub fn code_units(&self) -> (r: i64)
        ensures
            r == self.spec_code_units(),
    {
        match self {
            Instruction::PackedSwitchPayload { size, .. } => 4 + 2 * (*size as i64),
            Instruction::SparseSwitchPayload { size, .. } => 2 + 4 * (*size as i64),
            Instruction::FillArrayDataPayload { element_width, size, .. } => {
                assert((*element_width as int) * (*size as int) <= 0xffff * 0xffff_ffff) by (nonlinear_arith)
                    requires *element_width <= 0xffff, *size <= 0xffff_ffff;
                4 + ((*element_width as i64) * (*size as i64) + 1) / 2
            },
            _ => self.opcode().format().size() as i64,
        }
    }
}

/// A list of `n` 32-bit entries takes `4 * n` bytes.
proof fn lemma_i32_list(mode: DecodeMode, s: Seq<u8>, q: int, n: nat)
    ensures
        i32_list(mode, s, q, n) matches Ok((vs, e)) ==> e == q + 4 * n && vs.len() == n,
    decreases n,
{
    if n > 0 {
        lemma_i32_list(mode, s, q + 4, (n - 1) as nat);
    }
}

/// Decoding advances the cursor by exactly the instruction's size: two bytes
/// per code unit of its format, or of the size that a payload states.
pub proof fn lemma_decode_advance(mode: DecodeMode, s: Seq<u8>, pos: int, ins: Instruction)
    requires
        spec_decode(mode, s, pos) is Ok,
        spec_decoded(mode, s, pos, ins),
    ensures
        spec_decode(mode, s, pos)->Ok_0 == pos + 2 * ins.spec_code_units(),
{
    lemma_opcode_width(mode, s, pos);
    let (op, next) = spec_opcode(mode, s, pos)->Ok_0;
    let fmt = spec_info(op).format;
    if fmt is PackedSwitchPayload {
        lemma_i32_list(mode, s, pos + 8, le16(s, pos + 2));
    } else if fmt is SparseSwitchPayload {
        lemma_i32_list(mode, s, pos + 4, le16(s, pos + 2));
        let mid = i32_list(mode, s, pos + 4, le16(s, pos + 2))->Ok_0.1;
        lemma_i32_list(mode, s, mid, le16(s, pos + 2));
    } else if fmt is ArrayPayload {
    } else {
        lemma_operands_units(op, s, pos);
    }
}

/// A fixed-format instruction takes its format's code units.
#[verifier::rlimit(50)]
proof fn lemma_operands_units(op: Opcode, s: Seq<u8>, pos: int)
    requires
        !spec_info(op).format.spec_payload(),
        !(spec_info(op).format is UnresolvedOdexInstruction),
    ensures
        spec_operands(op, s, pos).spec_code_units() == spec_info(op).format.spec_size(),
{
    let ins = spec_operands(op, s, pos);
    assert(ins.spec_opcode() == op);
    assert(!(ins is PackedSwitchPayload) && !(ins is SparseSwitchPayload) && !(ins is FillArrayDataPayload));
}

/// Decoding moves forward: a decoded instruction takes at least one byte.
pub proof fn lemma_decode_progress(mode: DecodeMode, s: Seq<u8>, pos: int)
    ensures
        spec_decode(mode, s, pos) matches Ok(end) ==> end > pos,
{
    if spec_decode(mode, s, pos) is Ok {
        lemma_opcode_width(mode, s, pos);
        let (op, next) = spec_opcode(mode, s, pos)->Ok_0;
        let fmt = spec_info(op).format;
        if fmt is PackedSwitchPayload {
            lemma_i32_list(mode, s, pos + 8, le16(s, pos + 2));
        } else if fmt is SparseSwitchPayload {
            lemma_i32_list(mode, s, pos + 4, le16(s, pos + 2));
            let mid = i32_list(mode, s, pos + 4, le16(s, pos + 2))->Ok_0.1;
            lemma_i32_list(mode, s, mid, le16(s, pos + 2));
        }
    }
}

} // verus!
