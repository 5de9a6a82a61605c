//! The byte cursor that every decoder reads through, and the decoding errors.

use vstd::prelude::*;

pub mod parse;

verus! {

/// Size of the fixed file header; no data section starts below it.
pub const HEADER_SIZE: u32 = 0x70;

/// Why decoding stopped.
#[derive(Debug, Clone, PartialEq, Eq)]
pub enum ParseError {
    /// A failure described only by its message.
    GenericError(String),
    /// The file does not start with `dex\n`.
    BadMagic,
    /// The version digits of the magic are not three ASCII digits.
    BadVersion,
    /// The endian tag is neither of the two allowed constants.
    BadEndianTag,
    /// A modified UTF-8 string broke one of its structural rules; `offset` is
    /// the index of `value` within the string's bytes.
    BadUtf8 { value: u16, offset: usize },
    /// The bytes ended inside a structured read.
    Truncation,
    /// An offset below the header, an index past its table, or a declared size
    /// that the bytes cannot hold.
    OutOfBounds,
    /// The opcode value names no instruction in the current mode.
    UnknownOpcode(u16),
    /// The opcode's format has no operand layout.
    UnknownFormat,
    /// An encoded value's argument is out of range for its type, or the type
    /// is unknown.
    BadEncodedValue { value_type: u8, value_arg: u8 },
    /// A byte that the format reserves as zero was not zero.
    UnusedNonZero,
    /// A map item carries an unknown type code.
    BadTypeCode(u16),
    /// A method handle item carries an unknown handle type.
    BadMethodHandleType(u16),
    /// A required section is not in the map list; carries its type code.
    MissingSection(u16),
    /// The map list lacks its single header or map list entry, or places
    /// one of them elsewhere.
    BadMapList,
    /// A class data list repeats an index: a difference after the first is zero.
    BadIndexOrder,
    /// A LEB128 number runs longer than five bytes or does not fit 32 bits.
    Leb128Overflow,
}

impl ParseError {
    /// An error described by a message.
    pub fn generic(msg: String) -> (r: ParseError)
        ensures
            r == ParseError::GenericError(msg),
    {
        ParseError::GenericError(msg)
    }

    /// A modified UTF-8 violation at `offset` within the string.
    pub fn bad_utf8(value: u16, offset: usize) -> (r: ParseError)
        ensures
            r == (ParseError::BadUtf8 { value, offset }),
    {
        ParseError::BadUtf8 { value, offset }
    }
}

/// How instruction streams are read.
#[derive(Debug, Clone, Copy, PartialEq, Eq)]
pub struct DecodeMode {
    /// Opcode values are read as the optimized (ODEX) instruction set, where
    /// the quick and volatile variants take the values that standard DEX gives
    /// to the later invoke and constant instructions.
    pub odex: bool,
    /// A nonzero byte where a format reserves zero is an error; otherwise it
    /// is accepted and ignored.
    pub strict_unused: bool,
}

impl DecodeMode {
    /// Standard DEX opcodes, reserved bytes checked.
    pub fn standard() -> (r: DecodeMode)
        ensures
            !r.odex,
            r.strict_unused,
    {
        DecodeMode { odex: false, strict_unused: true }
    }
}

/// A cursor over the bytes of a DEX file.
pub struct FileParser {
    data: Vec<u8>,
    pos: usize,
    mode: DecodeMode,
}

/// The value of the byte at `pos`, and the position after it.
pub open spec fn spec_u8(s: Seq<u8>, pos: int) -> Result<(u8, int), ParseError> {
    if 0 <= pos && pos + 1 <= s.len() {
        Ok((s[pos], pos + 1))
    } else {
        Err(ParseError::Truncation)
    }
}

/// The little-endian value of the two bytes at `i`.
pub open spec fn le16(s: Seq<u8>, i: int) -> nat {
    (s[i] + 256 * s[i + 1]) as nat
}

/// The little-endian value of the four bytes at `i`.
pub open spec fn le32(s: Seq<u8>, i: int) -> nat {
    le16(s, i) + 0x1_0000 * le16(s, i + 2)
}

/// The little-endian value of the eight bytes at `i`.
pub open spec fn le64(s: Seq<u8>, i: int) -> nat {
    le32(s, i) + 0x1_0000_0000 * le32(s, i + 4)
}

/// `n` bytes are available at `pos`.
pub open spec fn fits(s: Seq<u8>, pos: int, n: int) -> bool {
    0 <= pos && pos + n <= s.len()
}

/// The unsigned 16-bit value at `pos`.
pub open spec fn spec_u16(s: Seq<u8>, pos: int) -> Result<(u16, int), ParseError> {
    if fits(s, pos, 2) {
        Ok((le16(s, pos) as u16, pos + 2))
    } else {
        Err(ParseError::Truncation)
    }
}

/// The unsigned 32-bit value at `pos`.
pub open spec fn spec_u32(s: Seq<u8>, pos: int) -> Result<(u32, int), ParseError> {
    if fits(s, pos, 4) {
        Ok((le32(s, pos) as u32, pos + 4))
    } else {
        Err(ParseError::Truncation)
    }
}

/// The unsigned 64-bit value at `pos`.
pub open spec fn spec_u64(s: Seq<u8>, pos: int) -> Result<(u64, int), ParseError> {
    if fits(s, pos, 8) {
        Ok((le64(s, pos) as u64, pos + 8))
    } else {
        Err(ParseError::Truncation)
    }
}

/// `v`, read as an `n`-bit two's complement number.
pub open spec fn twos(v: int, bits: nat) -> int {
    if v >= vstd::arithmetic::power2::pow2((bits - 1) as nat) {
        v - vstd::arithmetic::power2::pow2(bits)
    } else {
        v
    }
}

/// The signed 16-bit value at `pos`.
pub open spec fn spec_i16(s: Seq<u8>, pos: int) -> Result<(i16, int), ParseError> {
    if fits(s, pos, 2) {
        Ok((twos(le16(s, pos) as int, 16) as i16, pos + 2))
    } else {
        Err(ParseError::Truncation)
    }
}

/// The signed 32-bit value at `pos`.
pub open spec fn spec_i32(s: Seq<u8>, pos: int) -> Result<(i32, int), ParseError> {
    if fits(s, pos, 4) {
        Ok((twos(le32(s, pos) as int, 32) as i32, pos + 4))
    } else {
        Err(ParseError::Truncation)
    }
}

/// The signed 64-bit value at `pos`.
pub open spec fn spec_i64(s: Seq<u8>, pos: int) -> Result<(i64, int), ParseError> {
    if fits(s, pos, 8) {
        Ok((twos(le64(s, pos) as int, 64) as i64, pos + 8))
    } else {
        Err(ParseError::Truncation)
    }
}

/// The byte at `pos` split into its low and high nibble.
pub open spec fn spec_split_u8(s: Seq<u8>, pos: int) -> Result<((u8, u8), int), ParseError> {
    match spec_u8(s, pos) {
        Ok((b, n)) => Ok(((b % 16, b / 16), n)),
        Err(e) => Err(e),
    }
}

/// The `n` bytes at `pos`.
pub open spec fn spec_bytes(s: Seq<u8>, pos: int, n: int) -> Result<(Seq<u8>, int), ParseError> {
    if fits(s, pos, n) {
        Ok((s.subrange(pos, pos + n), pos + n))
    } else {
        Err(ParseError::Truncation)
    }
}

/// The first multiple of `n` at or after `pos`.
pub open spec fn align_up(pos: int, n: int) -> int {
    if pos % n == 0 {
        pos
    } else {
        pos - pos % n + n
    }
}

/// The little-endian u16 at `i` of `b`.
pub fn le16_at(b: &Vec<u8>, i: usize) -> (r: u16)
    requires
        i + 1 < b.len(),
    ensures
        r == le16(b@, i as int),
{
    b[i] as u16 + 256 * (b[i + 1] as u16)
}

/// The little-endian u32 at `i` of `b`.
pub fn le32_at(b: &Vec<u8>, i: usize) -> (r: u32)
    requires
        i + 3 < b.len(),
    ensures
        r == le32(b@, i as int),
{
    le16_at(b, i) as u32 + 0x1_0000 * (le16_at(b, i + 2) as u32)
}

/// Where a block of `k` bytes at `pos` starts, after aligning to four bytes
/// when `aligned`; fails when the block does not fit.
pub open spec fn block_start(s: Seq<u8>, pos: int, k: int, aligned: bool) -> Result<int, ParseError> {
    let a = if aligned { align_up(pos, 4) } else { pos };
    if fits(s, a, k) {
        Ok(a)
    } else {
        Err(ParseError::Truncation)
    }
}

/// `r` is what a read of `spec` from `before` returns, and `after` is where it
/// leaves the cursor: past the value on success, anywhere on the same bytes
/// on failure.
pub open spec fn parsed<T>(
    r: Result<T, ParseError>,
    before: FileParser,
    after: FileParser,
    spec: Result<(T, int), ParseError>,
) -> bool {
    &&& after.wf()
    &&& after.bytes() == before.bytes()
    &&& after.mode() == before.mode()
    &&& match spec {
        Ok((v, n)) => r == Ok::<T, ParseError>(v) && after.pos() == n,
        Err(e) => r == Err::<T, ParseError>(e),
    }
}

impl FileParser {
    /// The file's bytes.
    pub closed spec fn bytes(&self) -> Seq<u8> {
        self.data@
    }

    /// The cursor position.
    pub closed spec fn pos(&self) -> int {
        self.pos as int
    }

    /// How instruction streams are read.
    pub closed spec fn mode(&self) -> DecodeMode {
        self.mode
    }

    /// The cursor lies within the bytes (or just past the last one).
    pub open spec fn wf(&self) -> bool {
        0 <= self.pos() <= self.bytes().len()
    }

    /// A cursor at the start of `data`, reading standard DEX strictly.
    pub fn new(data: Vec<u8>) -> (r: FileParser)
        ensures
            r.wf(),
            r.bytes() == data@,
            r.pos() == 0,
            r.mode() == (DecodeMode { odex: false, strict_unused: true }),
    {
        FileParser { data, pos: 0, mode: DecodeMode::standard() }
    }

    /// A cursor at the start of `data`, reading in `mode`.
    pub fn with_mode(data: Vec<u8>, mode: DecodeMode) -> (r: FileParser)
        ensures
            r.wf(),
            r.bytes() == data@,
            r.pos() == 0,
            r.mode() == mode,
    {
        FileParser { data, pos: 0, mode }
    }

    /// How instruction streams are read.
    pub fn decode_mode(&self) -> (r: DecodeMode)
        ensures
            r == self.mode(),
    {
        self.mode
    }

    /// Number of bytes in the file.
    pub fn len(&self) -> (r: usize)
        ensures
            r == self.bytes().len(),
    {
        self.data.len()
    }

    /// Number of bytes from the cursor to the end.
    pub fn remaining(&self) -> (r: usize)
        requires
            self.wf(),
        ensures
            r == self.bytes().len() - self.pos(),
    {
        self.data.len() - self.pos
    }

    /// The cursor position.
    pub fn get_offset(&self) -> (r: usize)
        requires
            self.wf(),
        ensures
            r == self.pos(),
    {
        self.pos
    }

    /// Moves the cursor to `offset`; fails when that lies past the end.
    pub fn set_offset(&mut self, offset: usize) -> (r: Result<(), ParseError>)
        requires
            old(self).wf(),
        ensures
            final(self).wf(),
            final(self).bytes() == old(self).bytes(),
            final(self).mode() == old(self).mode(),
            offset <= old(self).bytes().len() ==> r is Ok && final(self).pos() == offset,
            offset > old(self).bytes().len() ==> r == Err::<(), ParseError>(ParseError::Truncation)
                && final(self).pos() == old(self).pos(),
    {
        if offset <= self.data.len() {
            self.pos = offset;
            Ok(())
        } else {
            Err(ParseError::Truncation)
        }
    }

    /// Reads one byte.
    pub fn read_u8(&mut self) -> (r: Result<u8, ParseError>)
        requires
            old(self).wf(),
        ensures
            parsed(r, *old(self), *final(self), spec_u8(old(self).bytes(), old(self).pos())),
    {
        if self.pos < self.data.len() {
            let b = self.data[self.pos];
            self.pos = self.pos + 1;
            Ok(b)
        } else {
            Err(ParseError::Truncation)
        }
    }

    /// Reads a little-endian u16.
    pub fn read_u16(&mut self) -> (r: Result<u16, ParseError>)
        requires
            old(self).wf(),
        ensures
            parsed(r, *old(self), *final(self), spec_u16(old(self).bytes(), old(self).pos())),
    {
        if self.data.len() - self.pos >= 2 {
            let p = self.pos;
            let v = self.data[p] as u16 + 256 * (self.data[p + 1] as u16);
            self.pos = p + 2;
            Ok(v)
        } else {
            Err(ParseError::Truncation)
        }
    }

    /// Reads a little-endian u32.
    pub fn read_u32(&mut self) -> (r: Result<u32, ParseError>)
        requires
            old(self).wf(),
        ensures
            parsed(r, *old(self), *final(self), spec_u32(old(self).bytes(), old(self).pos())),
    {
        if self.data.len() - self.pos >= 4 {
            let p = self.pos;
            let lo = self.data[p] as u32 + 256 * (self.data[p + 1] as u32);
            let hi = self.data[p + 2] as u32 + 256 * (self.data[p + 3] as u32);
            self.pos = p + 4;
            Ok(lo + 0x1_0000 * hi)
        } else {
            Err(ParseError::Truncation)
        }
    }

    /// Reads a little-endian u64.
    pub fn read_u64(&mut self) -> (r: Result<u64, ParseError>)
        requires
            old(self).wf(),
        ensures
            parsed(r, *old(self), *final(self), spec_u64(old(self).bytes(), old(self).pos())),
    {
        if self.data.len() - self.pos >= 8 {
            let lo = self.read_u32();
            let hi = self.read_u32();
            match (lo, hi) {
                (Ok(lo), Ok(hi)) => Ok(lo as u64 + 0x1_0000_0000 * (hi as u64)),
                _ => Err(ParseError::Truncation),
            }
        } else {
            Err(ParseError::Truncation)
        }
    }

    /// Reads a little-endian i16.
    pub fn read_i16(&mut self) -> (r: Result<i16, ParseError>)
        requires
            old(self).wf(),
        ensures
            parsed(r, *old(self), *final(self), spec_i16(old(self).bytes(), old(self).pos())),
    {
        proof {
            vstd::arithmetic::power2::lemma2_to64();
        }
        match self.read_u16() {
            Ok(v) => if v >= 0x8000 {
                Ok(((v - 0x8000) as i16) - 0x4000 - 0x4000)
            } else {
                Ok(v as i16)
            },
            Err(e) => Err(e),
        }
    }

    /// Reads a little-endian i32.
    pub fn read_i32(&mut self) -> (r: Result<i32, ParseError>)
        requires
            old(self).wf(),
        ensures
            parsed(r, *old(self), *final(self), spec_i32(old(self).bytes(), old(self).pos())),
    {
        proof {
            vstd::arithmetic::power2::lemma2_to64();
        }
        match self.read_u32() {
            Ok(v) => if v >= 0x8000_0000 {
                Ok(((v - 0x8000_0000) as i32) - 0x4000_0000 - 0x4000_0000)
            } else {
                Ok(v as i32)
            },
            Err(e) => Err(e),
        }
    }

    /// Reads a little-endian i64.
    pub fn read_i64(&mut self) -> (r: Result<i64, ParseError>)
        requires
            old(self).wf(),
        ensures
            parsed(r, *old(self), *final(self), spec_i64(old(self).bytes(), old(self).pos())),
    {
        proof {
            vstd::arithmetic::power2::lemma2_to64();
            vstd::arithmetic::power2::lemma2_to64_rest();
        }
        match self.read_u64() {
            Ok(v) => if v >= 0x8000_0000_0000_0000 {
                Ok(((v - 0x8000_0000_0000_0000) as i64) - 0x4000_0000_0000_0000 - 0x4000_0000_0000_0000)
            } else {
                Ok(v as i64)
            },
            Err(e) => Err(e),
        }
    }

    /// Reads one byte and splits it into (low nibble, high nibble).
    pub fn split_u8(&mut self) -> (r: Result<(u8, u8), ParseError>)
        requires
            old(self).wf(),
        ensures
            parsed(r, *old(self), *final(self), spec_split_u8(old(self).bytes(), old(self).pos())),
    {
        match self.read_u8() {
            Ok(b) => Ok((b % 16, b / 16)),
            Err(e) => Err(e),
        }
    }

    /// Reads `n` bytes.
    pub fn read_bytes(&mut self, n: usize) -> (r: Result<Vec<u8>, ParseError>)
        requires
            old(self).wf(),
        ensures
            parsed(
                match r { Ok(v) => Ok(v@), Err(e) => Err(e) },
                *old(self),
                *final(self),
                spec_bytes(old(self).bytes(), old(self).pos(), n as int),
            ),
    {
        if self.data.len() - self.pos >= n {
            let start = self.pos;
            let mut out: Vec<u8> = Vec::new();
            let mut i: usize = 0;
            while i < n
                invariant
                    start + n <= self.data.len(),
                    i <= n,
                    out@ == self.data@.subrange(start as int, start + i),
                decreases n - i,
            {
                out.push(self.data[start + i]);
                i = i + 1;
                assert(out@ =~= self.data@.subrange(start as int, start + i));
            }
            self.pos = start + n;
            Ok(out)
        } else {
            Err(ParseError::Truncation)
        }
    }

    /// Moves the cursor to the next multiple of `n`; stays put when already
    /// there; fails when that lies past the end.
    pub fn align(&mut self, n: usize) -> (r: Result<(), ParseError>)
        requires
            old(self).wf(),
            n > 0,
        ensures
            final(self).wf(),
            final(self).bytes() == old(self).bytes(),
            final(self).mode() == old(self).mode(),
            align_up(old(self).pos(), n as int) <= old(self).bytes().len() ==> r is Ok
                && final(self).pos() == align_up(old(self).pos(), n as int),
            align_up(old(self).pos(), n as int) > old(self).bytes().len() ==> r
                == Err::<(), ParseError>(ParseError::Truncation),
    {
        let rem = self.pos % n;
        if rem == 0 {
            Ok(())
        } else if n - rem <= self.data.len() - self.pos {
            self.pos = self.pos + (n - rem);
            Ok(())
        } else {
            Err(ParseError::Truncation)
        }
    }
}

/// One UTF-16 code unit in modified UTF-8 at `pos`, in a string whose bytes
/// start at `start`. A lone zero byte, a two-byte form of a value in
/// 1..0x80, a three-byte form of a value below 0x800, a continuation byte
/// that lacks its `10` top bits, and a lead byte of four or more bytes are
/// refused, naming the byte and its index within the string.
pub open spec fn spec_mutf8_unit(s: Seq<u8>, pos: int, start: int) -> Result<(u16, int), ParseError> {
    if !fits(s, pos, 1) {
        Err(ParseError::Truncation)
    } else if s[pos] < 0x80 {
        if s[pos] == 0 {
            Err(ParseError::BadUtf8 { value: 0, offset: (pos - start) as usize })
        } else {
            Ok((s[pos] as u16, pos + 1))
        }
    } else if 0xc0 <= s[pos] < 0xe0 {
        if !fits(s, pos, 2) {
            Err(ParseError::Truncation)
        } else if s[pos + 1] / 64 != 2 {
            Err(ParseError::BadUtf8 { value: s[pos + 1] as u16, offset: (pos + 1 - start) as usize })
        } else {
            let v = (s[pos] % 32) * 64 + s[pos + 1] % 64;
            if v != 0 && v < 0x80 {
                Err(ParseError::BadUtf8 { value: s[pos + 1] as u16, offset: (pos + 1 - start) as usize })
            } else {
                Ok((v as u16, pos + 2))
            }
        }
    } else if 0xe0 <= s[pos] < 0xf0 {
        if !fits(s, pos, 2) {
            Err(ParseError::Truncation)
        } else if s[pos + 1] / 64 != 2 {
            Err(ParseError::BadUtf8 { value: s[pos + 1] as u16, offset: (pos + 1 - start) as usize })
        } else if !fits(s, pos, 3) {
            Err(ParseError::Truncation)
        } else if s[pos + 2] / 64 != 2 {
            Err(ParseError::BadUtf8 { value: s[pos + 2] as u16, offset: (pos + 2 - start) as usize })
        } else {
            let v = (s[pos] % 16) * 4096 + (s[pos + 1] % 64) * 64 + s[pos + 2] % 64;
            if v < 0x800 {
                Err(ParseError::BadUtf8 { value: s[pos + 2] as u16, offset: (pos + 2 - start) as usize })
            } else {
                Ok((v as u16, pos + 3))
            }
        }
    } else {
        Err(ParseError::BadUtf8 { value: s[pos] as u16, offset: (pos - start) as usize })
    }
}

/// Puts `prefix` in front of the code units of a decoded tail.
pub open spec fn glue_units(prefix: Seq<u16>, r: Result<(Seq<u16>, int), ParseError>) -> Result<(Seq<u16>, int), ParseError> {
    match r {
        Ok((vs, n)) => Ok((prefix + vs, n)),
        Err(e) => Err(e),
    }
}

/// Exactly `n` UTF-16 code units in modified UTF-8 at `pos`, in a string whose
/// bytes start at `start`.
pub open spec fn spec_mutf8(s: Seq<u8>, pos: int, start: int, n: nat) -> Result<(Seq<u16>, int), ParseError>
    decreases n,
{
    if n == 0 {
        Ok((Seq::empty(), pos))
    } else {
        match spec_mutf8_unit(s, pos, start) {
            Ok((u, next)) => glue_units(seq![u], spec_mutf8(s, next, start, (n - 1) as nat)),
            Err(e) => Err(e),
        }
    }
}

/// The modified UTF-8 form of one code unit: zero and values from 0x80 take
/// two bytes, values from 0x800 three.
pub open spec fn mutf8_encode_unit(u: u16) -> Seq<u8> {
    if 1 <= u < 0x80 {
        seq![u as u8]
    } else if u < 0x800 {
        seq![(0xc0 + u / 64) as u8, (0x80 + u % 64) as u8]
    } else {
        seq![(0xe0 + u / 4096) as u8, (0x80 + (u / 64) % 64) as u8, (0x80 + u % 64) as u8]
    }
}

/// The modified UTF-8 form of a sequence of code units.
pub open spec fn mutf8_encode(units: Seq<u16>) -> Seq<u8>
    decreases units.len(),
{
    if units.len() == 0 {
        Seq::empty()
    } else {
        mutf8_encode_unit(units[0]) + mutf8_encode(units.drop_first())
    }
}

proof fn lemma_mutf8_unit_round_trip(s: Seq<u8>, pos: int, start: int)
    requires
        spec_mutf8_unit(s, pos, start) is Ok,
    ensures
        ({
            let (u, next) = spec_mutf8_unit(s, pos, start)->Ok_0;
            &&& pos < next <= s.len()
            &&& mutf8_encode_unit(u) =~= s.subrange(pos, next)
        }),
{
    let b0 = s[pos];
    if b0 < 0x80 {
    } else if 0xc0 <= b0 < 0xe0 {
        let b1 = s[pos + 1];
        let v = (b0 % 32) * 64 + b1 % 64;
        assert(v / 64 == b0 % 32 && v % 64 == b1 % 64) by (nonlinear_arith)
            requires v == (b0 % 32) * 64 + b1 % 64, 0 <= b1 % 64 < 64;
    } else {
        let b1 = s[pos + 1];
        let b2 = s[pos + 2];
        let v = (b0 % 16) * 4096 + (b1 % 64) * 64 + b2 % 64;
        assert(v / 4096 == b0 % 16 && (v / 64) % 64 == b1 % 64 && v % 64 == b2 % 64) by (nonlinear_arith)
            requires v == (b0 % 16) * 4096 + (b1 % 64) * 64 + b2 % 64, 0 <= b1 % 64 < 64, 0 <= b2 % 64 < 64;
    }
}

/// Modified UTF-8 round trip: when `n` code units decode from the bytes at
/// `pos`, encoding those units again gives back exactly the bytes consumed.
pub proof fn lemma_mutf8_round_trip(s: Seq<u8>, pos: int, start: int, n: nat)
    requires
        0 <= pos <= s.len(),
        spec_mutf8(s, pos, start, n) is Ok,
    ensures
        ({
            let (units, end) = spec_mutf8(s, pos, start, n)->Ok_0;
            &&& pos <= end <= s.len()
            &&& mutf8_encode(units) == s.subrange(pos, end)
        }),
    decreases n,
{
    if n > 0 {
        lemma_mutf8_unit_round_trip(s, pos, start);
        let (u, next) = spec_mutf8_unit(s, pos, start)->Ok_0;
        lemma_mutf8_round_trip(s, next, start, (n - 1) as nat);
        let (rest, end) = spec_mutf8(s, next, start, (n - 1) as nat)->Ok_0;
        let units = seq![u] + rest;
        assert(units.drop_first() =~= rest);
        assert(s.subrange(pos, end) =~= s.subrange(pos, next) + s.subrange(next, end));
    } else {
        assert(s.subrange(pos, pos) =~= Seq::<u8>::empty());
    }
}

/// What `String::from_utf16_lossy` makes of a sequence of code units.
pub uninterp spec fn utf16_lossy(units: Seq<u16>) -> Seq<char>;

/// Relies on `String::from_utf16_lossy`: the string depends on the code units
/// alone, and no units give the empty string.
#[verifier::external_body]
fn string_from_utf16_lossy(units: &Vec<u16>) -> (r: String)
    ensures
        r@ == utf16_lossy(units@),
        units@.len() == 0 ==> r@.len() == 0,
{
    String::from_utf16_lossy(units)
}

impl FileParser {
    /// Reads one code unit of a modified UTF-8 string whose bytes start at
    /// `start`.
    fn mutf8_unit(&mut self, start: usize) -> (r: Result<u16, ParseError>)
        requires
            old(self).wf(),
            start <= old(self).pos(),
        ensures
            parsed(r, *old(self), *final(self), spec_mutf8_unit(old(self).bytes(), old(self).pos(), start as int)),
    {
        let at = self.pos - start;
        let b0 = match self.read_u8() {
            Ok(b) => b,
            Err(e) => {
                return Err(e);
            },
        };
        if b0 < 0x80 {
            if b0 == 0 {
                Err(ParseError::BadUtf8 { value: 0, offset: at })
            } else {
                Ok(b0 as u16)
            }
        } else if 0xc0 <= b0 && b0 < 0xe0 {
            let b1 = match self.read_u8() {
                Ok(b) => b,
                Err(e) => {
                    return Err(e);
                },
            };
            if b1 / 64 != 2 {
                return Err(ParseError::BadUtf8 { value: b1 as u16, offset: at + 1 });
            }
            let v: u16 = (b0 % 32) as u16 * 64 + (b1 % 64) as u16;
            if v != 0 && v < 0x80 {
                Err(ParseError::BadUtf8 { value: b1 as u16, offset: at + 1 })
            } else {
                Ok(v)
            }
        } else if 0xe0 <= b0 && b0 < 0xf0 {
            let b1 = match self.read_u8() {
                Ok(b) => b,
                Err(e) => {
                    return Err(e);
                },
            };
            if b1 / 64 != 2 {
                return Err(ParseError::BadUtf8 { value: b1 as u16, offset: at + 1 });
            }
            let b2 = match self.read_u8() {
                Ok(b) => b,
                Err(e) => {
                    return Err(e);
                },
            };
            if b2 / 64 != 2 {
                return Err(ParseError::BadUtf8 { value: b2 as u16, offset: at + 2 });
            }
            let v: u16 = (b0 % 16) as u16 * 4096 + (b1 % 64) as u16 * 64 + (b2 % 64) as u16;
            if v < 0x800 {
                Err(ParseError::BadUtf8 { value: b2 as u16, offset: at + 2 })
            } else {
                Ok(v)
            }
        } else {
            Err(ParseError::BadUtf8 { value: b0 as u16, offset: at })
        }
    }

    /// Reads exactly `len` UTF-16 code units of modified UTF-8.
    pub fn parse_mutf8(&mut self, len: u32) -> (r: Result<Vec<u16>, ParseError>)
        requires
            old(self).wf(),
        ensures
            parsed(match r { Ok(v) => Ok(v@), Err(e) => Err(e) }, *old(self), *final(self),
                spec_mutf8(old(self).bytes(), old(self).pos(), old(self).pos(), len as nat)),
    {
        let ghost s = self.bytes();
        let start = self.pos;
        let mut units: Vec<u16> = Vec::new();
        let mut i: u32 = 0;
        while i < len
            invariant
                self.wf(),
                self.bytes() == s,
                self.mode() == old(self).mode(),
                s == old(self).bytes(),
                start == old(self).pos(),
                start <= self.pos(),
                i <= len,
                spec_mutf8(s, start as int, start as int, len as nat)
                    == glue_units(units@, spec_mutf8(s, self.pos(), start as int, (len - i) as nat)),
            decreases len - i,
        {
            let ghost before = units@;
            let u = match self.mutf8_unit(start) {
                Ok(u) => u,
                Err(e) => {
                    return Err(e);
                },
            };
            units.push(u);
            i = i + 1;
            proof {
                match spec_mutf8(s, self.pos(), start as int, (len - i) as nat) {
                    Ok((vs, m)) => {
                        assert(before + (seq![u] + vs) =~= units@ + vs);
                    },
                    Err(_) => {},
                }
            }
        }
        proof {
            assert(units@ + Seq::<u16>::empty() =~= units@);
        }
        Ok(units)
    }

    /// Reads a modified UTF-8 string of exactly `len` UTF-16 code units; gives
    /// the bytes it consumed and the string they spell.
    pub fn parse_string(&mut self, len: u32) -> (r: Result<(Vec<u8>, String), ParseError>)
        requires
            old(self).wf(),
        ensures
            final(self).wf(),
            final(self).bytes() == old(self).bytes(),
            final(self).mode() == old(self).mode(),
            match spec_mutf8(old(self).bytes(), old(self).pos(), old(self).pos(), len as nat) {
                Ok((units, end)) => r is Ok && final(self).pos() == end
                    && r->Ok_0.0@ == old(self).bytes().subrange(old(self).pos(), end)
                    && r->Ok_0.1@ == utf16_lossy(units),
                Err(e) => r == Err::<(Vec<u8>, String), ParseError>(e),
            },
    {
        let start = self.pos;
        let units = match self.parse_mutf8(len) {
            Ok(u) => u,
            Err(e) => {
                return Err(e);
            },
        };
        let end = self.pos;
        proof {
            lemma_mutf8_round_trip(self.bytes(), start as int, start as int, len as nat);
        }
        let string = string_from_utf16_lossy(&units);
        let _ = self.set_offset(start);
        let raw = match self.read_bytes(end - start) {
            Ok(b) => b,
            Err(e) => {
                return Err(e);
            },
        };
        Ok((raw, string))
    }
}

impl FileParser {
    /// Reads a block of `k` bytes, first aligning the cursor to four bytes
    /// when `aligned`.
    pub fn read_block(&mut self, k: usize, aligned: bool) -> (r: Result<Vec<u8>, ParseError>)
        requires
            old(self).wf(),
        ensures
            final(self).wf(),
            final(self).bytes() == old(self).bytes(),
            final(self).mode() == old(self).mode(),
            match block_start(old(self).bytes(), old(self).pos(), k as int, aligned) {
                Ok(a) => r is Ok && r->Ok_0@ == old(self).bytes().subrange(a, a + k) && final(self).pos() == a + k,
                Err(e) => r == Err::<Vec<u8>, ParseError>(e),
            },
    {
        if aligned {
            match self.align(4) {
                Ok(()) => {},
                Err(e) => {
                    return Err(e);
                },
            }
        }
        self.read_bytes(k)
    }
}

} // verus!
