//! Encoded values: the tagged constants of annotations and static field
//! initializers, with nested arrays and annotations.

use vstd::prelude::*;

use crate::parser::parse::{spec_uleb128, lemma_uleb_advances, Uleb128};
use crate::parser::{fits, parsed, DecodeMode, FileParser, ParseError};
use crate::types::id::StringIdItem;
use crate::types::refs::Idx;

verus! {

/// One encoded value.
#[derive(Debug, PartialEq)]
pub enum EncodedValue {
    /// A signed byte.
    Byte(i8),
    /// A short, sign-extended from its stored bytes.
    Short(i16),
    /// A char, zero-extended from its stored bytes.
    Char(u16),
    /// An int, sign-extended from its stored bytes.
    Int(i32),
    /// A long, sign-extended from its stored bytes.
    Long(i64),
    /// The IEEE 754 bits of a float; the stored bytes are its low bytes.
    Float(u32),
    /// The IEEE 754 bits of a double; the stored bytes are its low bytes.
    Double(u64),
    /// Index into the prototype table.
    MethodType(u32),
    /// Index into the method handle table.
    MethodHandle(u32),
    /// Index into the string table.
    Str(u32),
    /// Index into the type table.
    Type(u32),
    /// Index into the field table.
    Field(u32),
    /// Index into the method table.
    Method(u32),
    /// Index into the field table, of an enum constant.
    Enum(u32),
    /// A nested array of values.
    Array(EncodedArray),
    /// A nested annotation.
    Annotation(EncodedAnnotation),
    /// The null reference.
    Null,
    /// A boolean, stored in the argument bits.
    Boolean(bool),
}

/// A counted list of values.
#[derive(Debug, PartialEq)]
pub struct EncodedArray {
    pub size: Uleb128,
    pub values: Vec<EncodedValue>,
}

/// An annotation: its type and its named elements.
#[derive(Debug, PartialEq)]
pub struct EncodedAnnotation {
    pub type_idx: Uleb128,
    pub size: Uleb128,
    pub elements: Vec<AnnotationElement>,
}

/// A named element of an annotation.
#[derive(Debug, PartialEq)]
pub struct AnnotationElement {
    pub name_idx: Idx<StringIdItem>,
    pub value: EncodedValue,
}

/// `256^n`.
pub open spec fn pow256(n: nat) -> nat
    decreases n,
{
    if n == 0 {
        1
    } else {
        256 * pow256((n - 1) as nat)
    }
}

/// The little-endian value of the `n` bytes at `q`.
pub open spec fn le_var(s: Seq<u8>, q: int, n: nat) -> nat
    decreases n,
{
    if n == 0 {
        0
    } else {
        (s[q] + 256 * le_var(s, q + 1, (n - 1) as nat)) as nat
    }
}

/// `v`, an `n`-byte two's complement number, sign-extended.
pub open spec fn sext(v: nat, n: nat) -> int {
    if 2 * v >= pow256(n) {
        v - pow256(n)
    } else {
        v as int
    }
}

/// The argument `a` is allowed for the value type `t`; unknown types allow none.
pub open spec fn arg_ok(t: u8, a: u8) -> bool {
    if t == 0x00 || t == 0x1c || t == 0x1d || t == 0x1e {
        a == 0
    } else if t == 0x02 || t == 0x03 || t == 0x1f {
        a <= 1
    } else if t == 0x04 || t == 0x10 || (0x15 <= t <= 0x1b) {
        a <= 3
    } else if t == 0x06 || t == 0x11 {
        a <= 7
    } else {
        false
    }
}

/// The value types whose payload is `a + 1` little-endian bytes.
pub open spec fn is_numeric(t: u8) -> bool {
    t < 0x1c
}

/// The value of numeric type `t` stored in the `a + 1` bytes at `q`.
pub open spec fn spec_scalar(t: u8, a: u8, s: Seq<u8>, q: int) -> EncodedValue {
    let v = le_var(s, q, (a + 1) as nat);
    let x = sext(v, (a + 1) as nat);
    if t == 0x00 {
        EncodedValue::Byte(x as i8)
    } else if t == 0x02 {
        EncodedValue::Short(x as i16)
    } else if t == 0x03 {
        EncodedValue::Char(v as u16)
    } else if t == 0x04 {
        EncodedValue::Int(x as i32)
    } else if t == 0x06 {
        EncodedValue::Long(x as i64)
    } else if t == 0x10 {
        EncodedValue::Float(v as u32)
    } else if t == 0x11 {
        EncodedValue::Double(v as u64)
    } else if t == 0x15 {
        EncodedValue::MethodType(v as u32)
    } else if t == 0x16 {
        EncodedValue::MethodHandle(v as u32)
    } else if t == 0x17 {
        EncodedValue::Str(v as u32)
    } else if t == 0x18 {
        EncodedValue::Type(v as u32)
    } else if t == 0x19 {
        EncodedValue::Field(v as u32)
    } else if t == 0x1a {
        EncodedValue::Method(v as u32)
    } else {
        EncodedValue::Enum(v as u32)
    }
}

/// Bytes left from `pos` to the end.
pub open spec fn rem(s: Seq<u8>, pos: int) -> nat {
    if pos < s.len() {
        (s.len() - pos) as nat
    } else {
        0
    }
}

/// Adds `d` bytes in front of a decoded length.
pub open spec fn plus(d: int, r: Result<nat, ParseError>) -> Result<nat, ParseError> {
    match r {
        Ok(k) => Ok((d + k) as nat),
        Err(e) => Err(e),
    }
}

/// How many bytes the encoded value at `pos` takes, or why it fails: a
/// header byte with the type in its low five bits and the argument in its
/// high three, then the payload.
pub open spec fn spec_value_len(s: Seq<u8>, pos: int) -> Result<nat, ParseError>
    decreases rem(s, pos), 0nat,
{
    if !fits(s, pos, 1) {
        Err(ParseError::Truncation)
    } else {
        let t = s[pos] % 32;
        let a = s[pos] / 32;
        if !arg_ok(t, a) {
            Err(ParseError::BadEncodedValue { value_type: t, value_arg: a })
        } else if is_numeric(t) {
            if fits(s, pos + 1, a + 1) {
                Ok((a + 2) as nat)
            } else {
                Err(ParseError::Truncation)
            }
        } else if t == 0x1c {
            proof {
                lemma_uleb_advances(s, pos + 1);
            }
            match spec_uleb128(s, pos + 1) {
                Ok((size, q)) => plus(q - pos, spec_values_len(s, q, size.0 as nat)),
                Err(e) => Err(e),
            }
        } else if t == 0x1d {
            proof {
                lemma_uleb_advances(s, pos + 1);
            }
            match spec_uleb128(s, pos + 1) {
                Ok((_, q1)) => {
                    proof {
                        lemma_uleb_advances(s, q1);
                    }
                    match spec_uleb128(s, q1) {
                        Ok((size, q2)) => plus(q2 - pos, spec_elements_len(s, q2, size.0 as nat)),
                        Err(e) => Err(e),
                    }
                },
                Err(e) => Err(e),
            }
        } else {
            Ok(1)
        }
    }
}

/// How many bytes `n` consecutive encoded values at `pos` take.
pub open spec fn spec_values_len(s: Seq<u8>, pos: int, n: nat) -> Result<nat, ParseError>
    decreases rem(s, pos), n + 1,
{
    if n == 0 {
        Ok(0)
    } else {
        match spec_value_len(s, pos) {
            Ok(k) => plus(k as int, spec_values_len(s, pos + k, (n - 1) as nat)),
            Err(e) => Err(e),
        }
    }
}

/// How many bytes `n` consecutive annotation elements at `pos` take: each a
/// name index in unsigned LEB128, then a value.
pub open spec fn spec_elements_len(s: Seq<u8>, pos: int, n: nat) -> Result<nat, ParseError>
    decreases rem(s, pos), n + 1,
{
    if n == 0 {
        Ok(0)
    } else {
        proof {
            lemma_uleb_advances(s, pos);
        }
        match spec_uleb128(s, pos) {
            Ok((_, q)) => match spec_value_len(s, q) {
                Ok(k) => plus(q - pos + k, spec_elements_len(s, q + k, (n - 1) as nat)),
                Err(e) => Err(e),
            },
            Err(e) => Err(e),
        }
    }
}

/// `v` is the encoded value at `pos`, given that it decodes.
pub open spec fn value_at(s: Seq<u8>, pos: int, v: EncodedValue) -> bool
    decreases rem(s, pos), 0nat,
{
    if !fits(s, pos, 1) {
        false
    } else {
        let t = s[pos] % 32;
        let a = s[pos] / 32;
        if is_numeric(t) {
            v == spec_scalar(t, a, s, pos + 1)
        } else if t == 0x1c {
            proof {
                lemma_uleb_advances(s, pos + 1);
            }
            match spec_uleb128(s, pos + 1) {
                Ok((size, q)) => v matches EncodedValue::Array(arr) && arr.size == size
                    && values_at(s, q, arr.values@, size.0 as nat),
                Err(_) => false,
            }
        } else if t == 0x1d {
            proof {
                lemma_uleb_advances(s, pos + 1);
            }
            match spec_uleb128(s, pos + 1) {
                Ok((ty, q1)) => {
                    proof {
                        lemma_uleb_advances(s, q1);
                    }
                    match spec_uleb128(s, q1) {
                        Ok((size, q2)) => v matches EncodedValue::Annotation(ann) && ann.type_idx == ty
                            && ann.size == size && elements_at(s, q2, ann.elements@, size.0 as nat),
                        Err(_) => false,
                    }
                },
                Err(_) => false,
            }
        } else if t == 0x1e {
            v == EncodedValue::Null
        } else {
            v == EncodedValue::Boolean(a == 1)
        }
    }
}

/// `vs` are the `n` consecutive encoded values at `pos`.
pub open spec fn values_at(s: Seq<u8>, pos: int, vs: Seq<EncodedValue>, n: nat) -> bool
    decreases rem(s, pos), n + 1,
{
    if n == 0 {
        vs.len() == 0
    } else {
        vs.len() == n && value_at(s, pos, vs[0])
            && values_at(s, pos + spec_value_len(s, pos)->Ok_0, vs.drop_first(), (n - 1) as nat)
    }
}

/// `es` are the `n` consecutive annotation elements at `pos`.
pub open spec fn elements_at(s: Seq<u8>, pos: int, es: Seq<AnnotationElement>, n: nat) -> bool
    decreases rem(s, pos), n + 1,
{
    if n == 0 {
        es.len() == 0
    } else {
        proof {
            lemma_uleb_advances(s, pos);
        }
        match spec_uleb128(s, pos) {
            Ok((name, q)) => es.len() == n && es[0].name_idx.idx == name.0 && value_at(s, q, es[0].value)
                && elements_at(s, q + spec_value_len(s, q)->Ok_0, es.drop_first(), (n - 1) as nat),
            Err(_) => false,
        }
    }
}

/// Every decoded value obeys the argument table: its header's argument is
/// allowed for its type; a numeric value is its `a + 1` payload bytes read
/// little-endian and widened (sign-extended for byte, short, int and long,
/// zero-extended otherwise), and takes exactly those bytes.
pub proof fn lemma_decoded_arg_ok(s: Seq<u8>, pos: int, v: EncodedValue)
    requires
        spec_value_len(s, pos) is Ok,
        value_at(s, pos, v),
    ensures
        fits(s, pos, 1),
        arg_ok(s[pos] % 32, s[pos] / 32),
        is_numeric(s[pos] % 32) ==> v == spec_scalar(s[pos] % 32, s[pos] / 32, s, pos + 1)
            && spec_value_len(s, pos) == Ok::<nat, ParseError>((s[pos] / 32 + 2) as nat),
        s[pos] % 32 == 0x00 ==> v == EncodedValue::Byte(sext(le_var(s, pos + 1, 1), 1) as i8),
        s[pos] % 32 == 0x02 ==> v == EncodedValue::Short(sext(le_var(s, pos + 1, (s[pos] / 32 + 1) as nat), (s[pos] / 32 + 1) as nat) as i16),
        s[pos] % 32 == 0x04 ==> v == EncodedValue::Int(sext(le_var(s, pos + 1, (s[pos] / 32 + 1) as nat), (s[pos] / 32 + 1) as nat) as i32),
        s[pos] % 32 == 0x06 ==> v == EncodedValue::Long(sext(le_var(s, pos + 1, (s[pos] / 32 + 1) as nat), (s[pos] / 32 + 1) as nat) as i64),
        s[pos] % 32 == 0x03 ==> v == EncodedValue::Char(le_var(s, pos + 1, (s[pos] / 32 + 1) as nat) as u16),
{
}

proof fn lemma_pow256_small()
    ensures
        pow256(1) == 0x100,
        pow256(2) == 0x1_0000,
        pow256(3) == 0x100_0000,
        pow256(4) == 0x1_0000_0000,
        pow256(5) == 0x100_0000_0000,
        pow256(6) == 0x1_0000_0000_0000,
        pow256(7) == 0x100_0000_0000_0000,
        pow256(8) == 0x1_0000_0000_0000_0000,
{
    reveal_with_fuel(pow256, 9);
}

proof fn lemma_le_var_step(s: Seq<u8>, q: int, i: nat)
    ensures
        le_var(s, q, i + 1) == le_var(s, q, i) + s[q + i] * pow256(i),
    decreases i,
{
    if i > 0 {
        let j = (i - 1) as nat;
        lemma_le_var_step(s, q + 1, j);
        let x = le_var(s, q + 1, j);
        let b = s[q + 1 + j];
        let w = pow256(j);
        assert(le_var(s, q + 1, j + 1) == x + b * w);
        assert(le_var(s, q, i + 1) == s[q] + 256 * le_var(s, q + 1, i));
        assert(le_var(s, q, i) == s[q] + 256 * x);
        assert(pow256(i) == 256 * w);
        assert(256 * (x + b * w) == 256 * x + b * (256 * w)) by (nonlinear_arith);
    } else {
        assert(le_var(s, q + 1, 0) == 0);
        assert(le_var(s, q, 1) == s[q] + 256 * le_var(s, q + 1, 0));
        assert(pow256(0) == 1);
    }
}

proof fn lemma_le_var_bound(s: Seq<u8>, q: int, i: nat)
    ensures
        le_var(s, q, i) < pow256(i),
    decreases i,
{
    if i > 0 {
        lemma_le_var_bound(s, q + 1, (i - 1) as nat);
        let x = le_var(s, q + 1, (i - 1) as nat);
        let b = s[q];
        assert(b + 256 * x < 256 * pow256((i - 1) as nat)) by (nonlinear_arith)
            requires x < pow256((i - 1) as nat), 0 <= b < 256;
    }
}

impl FileParser {
    /// Reads `n` bytes as a little-endian unsigned number.
    fn read_le(&mut self, n: usize) -> (r: Result<u64, ParseError>)
        requires
            old(self).wf(),
            1 <= n <= 8,
        ensures
            parsed(r, *old(self), *final(self), if fits(old(self).bytes(), old(self).pos(), n as int) {
                Ok::<(u64, int), ParseError>((le_var(old(self).bytes(), old(self).pos(), n as nat) as u64, old(self).pos() + n))
            } else {
                Err::<(u64, int), ParseError>(ParseError::Truncation)
            }),
    {
        if self.remaining() < n {
            return Err(ParseError::Truncation);
        }
        let ghost s = self.bytes();
        let ghost q = self.pos();
        proof {
            lemma_pow256_small();
            lemma_le_var_bound(s, q, n as nat);
            lemma_pow256_monotone(n as nat, 8);
        }
        let mut acc: u128 = 0;
        let mut mul: u128 = 1;
        let mut i: usize = 0;
        while i < n
            invariant
                self.wf(),
                self.bytes() == s,
                self.mode() == old(self).mode(),
                s == old(self).bytes(),
                q == old(self).pos(),
                self.pos() == q + i,
                q + n <= s.len(),
                1 <= n <= 8,
                i <= n,
                acc == le_var(s, q, i as nat),
                mul == pow256(i as nat),
                pow256(8) == 0x1_0000_0000_0000_0000,
            decreases n - i,
        {
            let b = match self.read_u8() {
                Ok(b) => b,
                Err(e) => {
                    return Err(e);
                },
            };
            proof {
                lemma_le_var_step(s, q, i as nat);
                lemma_le_var_bound(s, q, (i + 1) as nat);
                lemma_pow256_monotone((i + 1) as nat, 8);
            }
            acc = acc + (b as u128) * mul;
            mul = mul * 256;
            i = i + 1;
        }
        Ok(acc as u64)
    }
}

proof fn lemma_pow256_monotone(i: nat, j: nat)
    requires
        i <= j,
    ensures
        pow256(i) <= pow256(j),
    decreases j - i,
{
    if i < j {
        lemma_pow256_monotone(i, (j - 1) as nat);
    }
}

/// `v`, an `n`-byte two's complement number, sign-extended.
fn sign_extend(v: u64, n: usize) -> (r: i64)
    requires
        1 <= n <= 8,
        v < pow256(n as nat),
    ensures
        r == sext(v as nat, n as nat),
{
    proof {
        lemma_pow256_small();
    }
    if n == 8 {
        if v >= 0x8000_0000_0000_0000 {
            ((v - 0x8000_0000_0000_0000) as i64) - 0x4000_0000_0000_0000 - 0x4000_0000_0000_0000
        } else {
            v as i64
        }
    } else {
        let m: u64 = match n {
            1 => 0x100,
            2 => 0x1_0000,
            3 => 0x100_0000,
            4 => 0x1_0000_0000,
            5 => 0x100_0000_0000,
            6 => 0x1_0000_0000_0000,
            _ => 0x100_0000_0000_0000,
        };
        if v >= m / 2 + m % 2 && 2 * (v as u128) >= m as u128 {
            v as i64 - m as i64
        } else {
            v as i64
        }
    }
}

/// The argument `a` is allowed for the value type `t`.
fn arg_allowed(t: u8, a: u8) -> (r: bool)
    ensures
        r == arg_ok(t, a),
{
    if t == 0x00 || t == 0x1c || t == 0x1d || t == 0x1e {
        a == 0
    } else if t == 0x02 || t == 0x03 || t == 0x1f {
        a <= 1
    } else if t == 0x04 || t == 0x10 || (0x15 <= t && t <= 0x1b) {
        a <= 3
    } else if t == 0x06 || t == 0x11 {
        a <= 7
    } else {
        false
    }
}

/// The result of decoding a value at `pos`.
pub open spec fn value_parsed(r: Result<EncodedValue, ParseError>, before: FileParser, after: FileParser) -> bool {
    &&& after.wf()
    &&& after.bytes() == before.bytes()
    &&& after.mode() == before.mode()
    &&& match spec_value_len(before.bytes(), before.pos()) {
        Ok(k) => r is Ok && after.pos() == before.pos() + k && value_at(before.bytes(), before.pos(), r->Ok_0),
        Err(e) => r == Err::<EncodedValue, ParseError>(e),
    }
}

/// The result of decoding `n` values at `pos`.
pub open spec fn values_parsed(r: Result<Vec<EncodedValue>, ParseError>, before: FileParser, after: FileParser, n: nat) -> bool {
    &&& after.wf()
    &&& after.bytes() == before.bytes()
    &&& after.mode() == before.mode()
    &&& match spec_values_len(before.bytes(), before.pos(), n) {
        Ok(k) => r is Ok && after.pos() == before.pos() + k && values_at(before.bytes(), before.pos(), r->Ok_0@, n),
        Err(e) => r == Err::<Vec<EncodedValue>, ParseError>(e),
    }
}

/// The result of decoding `n` annotation elements at `pos`.
pub open spec fn elements_parsed(r: Result<Vec<AnnotationElement>, ParseError>, before: FileParser, after: FileParser, n: nat) -> bool {
    &&& after.wf()
    &&& after.bytes() == before.bytes()
    &&& after.mode() == before.mode()
    &&& match spec_elements_len(before.bytes(), before.pos(), n) {
        Ok(k) => r is Ok && after.pos() == before.pos() + k && elements_at(before.bytes(), before.pos(), r->Ok_0@, n),
        Err(e) => r == Err::<Vec<AnnotationElement>, ParseError>(e),
    }
}

impl EncodedValue {
    /// Decodes the encoded value at the cursor.
    pub fn parse(p: &mut FileParser) -> (r: Result<EncodedValue, ParseError>)
        requires
            old(p).wf(),
        ensures
            value_parsed(r, *old(p), *final(p)),
        decreases rem(old(p).bytes(), old(p).pos()), 0nat,
    {
        let ghost s = p.bytes();
        let ghost pos = p.pos();
        let h = match p.read_u8() {
            Ok(h) => h,
            Err(e) => {
                return Err(e);
            },
        };
        let t = h % 32;
        let a = h / 32;
        if !arg_allowed(t, a) {
            return Err(ParseError::BadEncodedValue { value_type: t, value_arg: a });
        }
        if t < 0x1c {
            let n = (a + 1) as usize;
            let v = match p.read_le(n) {
                Ok(v) => v,
                Err(e) => {
                    return Err(e);
                },
            };
            proof {
                lemma_le_var_bound(s, pos + 1, n as nat);
                lemma_pow256_small();
            }
            let r = if t == 0x00 {
                EncodedValue::Byte(sign_extend(v, n) as i8)
            } else if t == 0x02 {
                EncodedValue::Short(sign_extend(v, n) as i16)
            } else if t == 0x03 {
                EncodedValue::Char(v as u16)
            } else if t == 0x04 {
                EncodedValue::Int(sign_extend(v, n) as i32)
            } else if t == 0x06 {
                EncodedValue::Long(sign_extend(v, n))
            } else if t == 0x10 {
                EncodedValue::Float(v as u32)
            } else if t == 0x11 {
                EncodedValue::Double(v)
            } else if t == 0x15 {
                EncodedValue::MethodType(v as u32)
            } else if t == 0x16 {
                EncodedValue::MethodHandle(v as u32)
            } else if t == 0x17 {
                EncodedValue::Str(v as u32)
            } else if t == 0x18 {
                EncodedValue::Type(v as u32)
            } else if t == 0x19 {
                EncodedValue::Field(v as u32)
            } else if t == 0x1a {
                EncodedValue::Method(v as u32)
            } else {
                EncodedValue::Enum(v as u32)
            };
            Ok(r)
        } else if t == 0x1c {
            proof {
                lemma_uleb_advances(s, pos + 1);
            }
            match EncodedArray::parse(p) {
                Ok(arr) => Ok(EncodedValue::Array(arr)),
                Err(e) => Err(e),
            }
        } else if t == 0x1d {
            proof {
                lemma_uleb_advances(s, pos + 1);
                match spec_uleb128(s, pos + 1) {
                    Ok((_, q1)) => lemma_uleb_advances(s, q1),
                    Err(_) => {},
                }
            }
            match EncodedAnnotation::parse(p) {
                Ok(ann) => Ok(EncodedValue::Annotation(ann)),
                Err(e) => Err(e),
            }
        } else if t == 0x1e {
            Ok(EncodedValue::Null)
        } else {
            Ok(EncodedValue::Boolean(a == 1))
        }
    }
}

impl EncodedArray {
    /// Decodes a counted list of values at the cursor.
    pub fn parse(p: &mut FileParser) -> (r: Result<EncodedArray, ParseError>)
        requires
            old(p).wf(),
        ensures
            final(p).wf(),
            final(p).bytes() == old(p).bytes(),
            final(p).mode() == old(p).mode(),
            match spec_uleb128(old(p).bytes(), old(p).pos()) {
                Ok((size, q)) => match spec_values_len(old(p).bytes(), q, size.0 as nat) {
                    Ok(k) => r is Ok && final(p).pos() == q + k && r->Ok_0.size == size
                        && values_at(old(p).bytes(), q, r->Ok_0.values@, size.0 as nat),
                    Err(e) => r == Err::<EncodedArray, ParseError>(e),
                },
                Err(e) => r == Err::<EncodedArray, ParseError>(e),
            },
        decreases rem(old(p).bytes(), old(p).pos()), 1nat,
    {
        proof {
            lemma_uleb_advances(p.bytes(), p.pos());
        }
        let size = match p.uleb128() {
            Ok(v) => v,
            Err(e) => {
                return Err(e);
            },
        };
        match parse_values(p, size.0) {
            Ok(values) => Ok(EncodedArray { size, values }),
            Err(e) => Err(e),
        }
    }
}

impl EncodedAnnotation {
    /// Decodes an annotation at the cursor: type index, element count, elements.
    pub fn parse(p: &mut FileParser) -> (r: Result<EncodedAnnotation, ParseError>)
        requires
            old(p).wf(),
        ensures
            final(p).wf(),
            final(p).bytes() == old(p).bytes(),
            final(p).mode() == old(p).mode(),
            match spec_uleb128(old(p).bytes(), old(p).pos()) {
                Ok((ty, q1)) => match spec_uleb128(old(p).bytes(), q1) {
                    Ok((size, q2)) => match spec_elements_len(old(p).bytes(), q2, size.0 as nat) {
                        Ok(k) => r is Ok && final(p).pos() == q2 + k && r->Ok_0.type_idx == ty
                            && r->Ok_0.size == size
                            && elements_at(old(p).bytes(), q2, r->Ok_0.elements@, size.0 as nat),
                        Err(e) => r == Err::<EncodedAnnotation, ParseError>(e),
                    },
                    Err(e) => r == Err::<EncodedAnnotation, ParseError>(e),
                },
                Err(e) => r == Err::<EncodedAnnotation, ParseError>(e),
            },
        decreases rem(old(p).bytes(), old(p).pos()), 1nat,
    {
        proof {
            lemma_uleb_advances(p.bytes(), p.pos());
        }
        let type_idx = match p.uleb128() {
            Ok(v) => v,
            Err(e) => {
                return Err(e);
            },
        };
        proof {
            lemma_uleb_advances(p.bytes(), p.pos());
        }
        let size = match p.uleb128() {
            Ok(v) => v,
            Err(e) => {
                return Err(e);
            },
        };
        match parse_elements(p, size.0) {
            Ok(elements) => Ok(EncodedAnnotation { type_idx, size, elements }),
            Err(e) => Err(e),
        }
    }
}

/// Decodes `n` consecutive values.
fn parse_values(p: &mut FileParser, n: u32) -> (r: Result<Vec<EncodedValue>, ParseError>)
    requires
        old(p).wf(),
    ensures
        values_parsed(r, *old(p), *final(p), n as nat),
    decreases rem(old(p).bytes(), old(p).pos()), 2nat,
{
    let ghost s = p.bytes();
    let ghost start = p.pos();
    let mut out: Vec<EncodedValue> = Vec::new();
    let mut i: u32 = 0;
    while i < n
        invariant
            p.wf(),
            p.bytes() == s,
            p.mode() == old(p).mode(),
            s == old(p).bytes(),
            start == old(p).pos(),
            start <= p.pos(),
            i <= n,
            out@.len() == i,
            spec_values_len(s, start, n as nat) == plus(p.pos() - start, spec_values_len(s, p.pos(), (n - i) as nat)),
            forall|rest: Seq<EncodedValue>| #[trigger] values_at(s, p.pos(), rest, (n - i) as nat)
                ==> values_at(s, start, out@ + rest, n as nat),
        decreases n - i,
    {
        let ghost here = p.pos();
        let ghost before = out@;
        let v = match EncodedValue::parse(p) {
            Ok(v) => v,
            Err(e) => {
                return Err(e);
            },
        };
        let ghost k = spec_value_len(s, here)->Ok_0;
        out.push(v);
        i = i + 1;
        proof {
            assert forall|rest: Seq<EncodedValue>| #[trigger] values_at(s, p.pos(), rest, (n - i) as nat)
                implies values_at(s, start, out@ + rest, n as nat) by {
                let whole = seq![v] + rest;
                assert(whole[0] == v);
                assert(whole.drop_first() =~= rest);
                assert(values_at(s, here, whole, (n - i + 1) as nat));
                assert(before + whole =~= out@ + rest);
            }
        }
    }
    proof {
        assert(values_at(s, p.pos(), Seq::<EncodedValue>::empty(), 0));
        assert(out@ + Seq::<EncodedValue>::empty() =~= out@);
    }
    Ok(out)
}

/// Decodes `n` consecutive annotation elements.
fn parse_elements(p: &mut FileParser, n: u32) -> (r: Result<Vec<AnnotationElement>, ParseError>)
    requires
        old(p).wf(),
    ensures
        elements_parsed(r, *old(p), *final(p), n as nat),
    decreases rem(old(p).bytes(), old(p).pos()), 2nat,
{
    let ghost s = p.bytes();
    let ghost start = p.pos();
    let mut out: Vec<AnnotationElement> = Vec::new();
    let mut i: u32 = 0;
    while i < n
        invariant
            p.wf(),
            p.bytes() == s,
            p.mode() == old(p).mode(),
            s == old(p).bytes(),
            start == old(p).pos(),
            start <= p.pos(),
            i <= n,
            out@.len() == i,
            spec_elements_len(s, start, n as nat) == plus(p.pos() - start, spec_elements_len(s, p.pos(), (n - i) as nat)),
            forall|rest: Seq<AnnotationElement>| #[trigger] elements_at(s, p.pos(), rest, (n - i) as nat)
                ==> elements_at(s, start, out@ + rest, n as nat),
        decreases n - i,
    {
        let ghost here = p.pos();
        let ghost before = out@;
        proof {
            lemma_uleb_advances(s, here);
        }
        let name = match p.uleb128() {
            Ok(v) => v,
            Err(e) => {
                return Err(e);
            },
        };
        let value = match EncodedValue::parse(p) {
            Ok(v) => v,
            Err(e) => {
                return Err(e);
            },
        };
        let e = AnnotationElement { name_idx: Idx::new(name.0 as usize), value };
        out.push(e);
        i = i + 1;
        proof {
            assert forall|rest: Seq<AnnotationElement>| #[trigger] elements_at(s, p.pos(), rest, (n - i) as nat)
                implies elements_at(s, start, out@ + rest, n as nat) by {
                let whole = seq![e] + rest;
                assert(whole[0] == e);
                assert(whole.drop_first() =~= rest);
                assert(elements_at(s, here, whole, (n - i + 1) as nat));
                assert(before + whole =~= out@ + rest);
            }
        }
    }
    proof {
        assert(elements_at(s, p.pos(), Seq::<AnnotationElement>::empty(), 0));
        assert(out@ + Seq::<AnnotationElement>::empty() =~= out@);
    }
    Ok(out)
}

} // verus!
