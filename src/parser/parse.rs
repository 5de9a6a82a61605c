//! Variable-length integers and the uniform "parse a value here" contract.

use vstd::prelude::*;

use crate::parser::{block_start, le32, parsed, DecodeMode, FileParser, ParseError, HEADER_SIZE};
use crate::parser::{spec_i32, spec_u16, spec_u32, spec_u8};

verus! {

/// An unsigned LEB128 number that fits 32 bits.
#[derive(Debug, Clone, Copy, PartialEq, Eq, PartialOrd, Ord)]
pub struct Uleb128(pub u32);

/// A signed LEB128 number that fits 32 bits.
#[derive(Debug, Clone, Copy, PartialEq, Eq, PartialOrd, Ord)]
pub struct Sleb128(pub i32);

impl Uleb128 {
    /// The number.
    pub fn value(&self) -> (r: u32)
        ensures
            r == self.0,
    {
        self.0
    }
}

impl Sleb128 {
    /// The number.
    pub fn value(&self) -> (r: i32)
        ensures
            r == self.0,
    {
        self.0
    }
}

/// Puts the low groups `acc` (worth `mul` per unit of what follows) in front
/// of a decoded tail.
pub open spec fn lift(acc: int, mul: int, r: Result<(int, int), ParseError>) -> Result<(int, int), ParseError> {
    match r {
        Ok((v, n)) => Ok((acc + mul * v, n)),
        Err(e) => Err(e),
    }
}

/// An unsigned LEB128 number at `pos` of at most `budget` bytes: each byte
/// gives seven bits, low groups first, and a clear top bit ends the number.
pub open spec fn uleb_from(s: Seq<u8>, pos: int, budget: nat) -> Result<(int, int), ParseError>
    decreases budget,
{
    if budget == 0 {
        Err(ParseError::Leb128Overflow)
    } else if !(0 <= pos < s.len()) {
        Err(ParseError::Truncation)
    } else if s[pos] < 0x80 {
        Ok((s[pos] as int, pos + 1))
    } else {
        lift(s[pos] - 0x80, 0x80, uleb_from(s, pos + 1, (budget - 1) as nat))
    }
}

/// A signed LEB128 number at `pos` of at most `budget` bytes: as unsigned,
/// except that the last byte's seven bits are two's complement.
pub open spec fn sleb_from(s: Seq<u8>, pos: int, budget: nat) -> Result<(int, int), ParseError>
    decreases budget,
{
    if budget == 0 {
        Err(ParseError::Leb128Overflow)
    } else if !(0 <= pos < s.len()) {
        Err(ParseError::Truncation)
    } else if s[pos] < 0x40 {
        Ok((s[pos] as int, pos + 1))
    } else if s[pos] < 0x80 {
        Ok((s[pos] - 0x80, pos + 1))
    } else {
        lift(s[pos] - 0x80, 0x80, sleb_from(s, pos + 1, (budget - 1) as nat))
    }
}

proof fn lemma_uleb_from_advances(s: Seq<u8>, pos: int, budget: nat)
    ensures
        uleb_from(s, pos, budget) matches Ok((_, n)) ==> pos < n <= s.len(),
    decreases budget,
{
    if budget > 0 && 0 <= pos < s.len() && s[pos] >= 0x80 {
        lemma_uleb_from_advances(s, pos + 1, (budget - 1) as nat);
    }
}

/// A decoded unsigned LEB128 number takes at least one byte, within the bytes.
pub proof fn lemma_uleb_advances(s: Seq<u8>, pos: int)
    ensures
        spec_uleb128(s, pos) matches Ok((_, n)) ==> pos < n <= s.len(),
{
    lemma_uleb_from_advances(s, pos, 5);
}

proof fn lemma_sleb_from_advances(s: Seq<u8>, pos: int, budget: nat)
    ensures
        sleb_from(s, pos, budget) matches Ok((_, n)) ==> pos < n <= s.len(),
    decreases budget,
{
    if budget > 0 && 0 <= pos < s.len() && s[pos] >= 0x80 {
        lemma_sleb_from_advances(s, pos + 1, (budget - 1) as nat);
    }
}

/// A decoded signed LEB128 number takes at least one byte, within the bytes.
pub proof fn lemma_sleb_advances(s: Seq<u8>, pos: int)
    ensures
        spec_sleb128(s, pos) matches Ok((_, n)) ==> pos < n <= s.len(),
{
    lemma_sleb_from_advances(s, pos, 5);
}

/// The 32-bit unsigned LEB128 number at `pos`: at most five bytes.
pub open spec fn spec_uleb128(s: Seq<u8>, pos: int) -> Result<(Uleb128, int), ParseError> {
    match uleb_from(s, pos, 5) {
        Ok((v, n)) => if v <= u32::MAX {
            Ok((Uleb128(v as u32), n))
        } else {
            Err(ParseError::Leb128Overflow)
        },
        Err(e) => Err(e),
    }
}

/// The 32-bit signed LEB128 number at `pos`: at most five bytes.
pub open spec fn spec_sleb128(s: Seq<u8>, pos: int) -> Result<(Sleb128, int), ParseError> {
    match sleb_from(s, pos, 5) {
        Ok((v, n)) => if i32::MIN <= v <= i32::MAX {
            Ok((Sleb128(v as i32), n))
        } else {
            Err(ParseError::Leb128Overflow)
        },
        Err(e) => Err(e),
    }
}

proof fn lemma_lift_lift(acc: int, mul: int, d: int, r: Result<(int, int), ParseError>)
    ensures
        lift(acc, mul, lift(d, 0x80, r)) == lift(acc + mul * d, mul * 0x80, r),
{
    match r {
        Ok((v, n)) => {
            assert(acc + mul * (d + 0x80 * v) == acc + mul * d + mul * 0x80 * v) by (nonlinear_arith);
        },
        Err(_) => {},
    }
}

/// Step of the group weights: 1, 128, 128^2, ...
spec fn weight_at(i: int, mul: int) -> bool {
    &&& i == 0 ==> mul == 1
    &&& i == 1 ==> mul == 0x80
    &&& i == 2 ==> mul == 0x4000
    &&& i == 3 ==> mul == 0x20_0000
    &&& i == 4 ==> mul == 0x1000_0000
}

impl FileParser {
    /// Reads an unsigned LEB128 number of at most five bytes that fits 32 bits.
    pub fn uleb128(&mut self) -> (r: Result<Uleb128, ParseError>)
        requires
            old(self).wf(),
        ensures
            parsed(r, *old(self), *final(self), spec_uleb128(old(self).bytes(), old(self).pos())),
    {
        let ghost s = self.bytes();
        let ghost start = self.pos();
        let mut acc: u64 = 0;
        let mut mul: u64 = 1;
        let mut i: usize = 0;
        while i < 5
            invariant
                self.wf(),
                self.bytes() == s,
                self.mode() == old(self).mode(),
                s == old(self).bytes(),
                start == old(self).pos(),
                i <= 5,
                weight_at(i as int, mul as int),
                acc < mul,
                uleb_from(s, start, 5) == lift(acc as int, mul as int, uleb_from(s, self.pos(), (5 - i) as nat)),
            decreases 5 - i,
        {
            let ghost here = self.pos();
            let b = match self.read_u8() {
                Ok(b) => b,
                Err(e) => {
                    return Err(e);
                },
            };
            if b < 0x80 {
                let v = acc + mul * (b as u64);
                if v <= 0xffff_ffff {
                    return Ok(Uleb128(v as u32));
                } else {
                    return Err(ParseError::Leb128Overflow);
                }
            }
            proof {
                lemma_lift_lift(acc as int, mul as int, b - 0x80, uleb_from(s, here + 1, (5 - i - 1) as nat));
            }
            acc = acc + mul * ((b - 0x80) as u64);
            mul = mul * 0x80;
            i = i + 1;
        }
        Err(ParseError::Leb128Overflow)
    }

    /// Reads a signed LEB128 number of at most five bytes that fits 32 bits.
    pub fn sleb128(&mut self) -> (r: Result<Sleb128, ParseError>)
        requires
            old(self).wf(),
        ensures
            parsed(r, *old(self), *final(self), spec_sleb128(old(self).bytes(), old(self).pos())),
    {
        let ghost s = self.bytes();
        let ghost start = self.pos();
        let mut acc: i64 = 0;
        let mut mul: i64 = 1;
        let mut i: usize = 0;
        while i < 5
            invariant
                self.wf(),
                self.bytes() == s,
                self.mode() == old(self).mode(),
                s == old(self).bytes(),
                start == old(self).pos(),
                i <= 5,
                weight_at(i as int, mul as int),
                0 <= acc < mul,
                sleb_from(s, start, 5) == lift(acc as int, mul as int, sleb_from(s, self.pos(), (5 - i) as nat)),
            decreases 5 - i,
        {
            let ghost here = self.pos();
            let b = match self.read_u8() {
                Ok(b) => b,
                Err(e) => {
                    return Err(e);
                },
            };
            if b < 0x80 {
                let top: i64 = if b < 0x40 { b as i64 } else { b as i64 - 0x80 };
                let v = acc + mul * top;
                if -0x8000_0000 <= v && v <= 0x7fff_ffff {
                    return Ok(Sleb128(v as i32));
                } else {
                    return Err(ParseError::Leb128Overflow);
                }
            }
            proof {
                lemma_lift_lift(acc as int, mul as int, b - 0x80, sleb_from(s, here + 1, (5 - i - 1) as nat));
            }
            acc = acc + mul * ((b - 0x80) as i64);
            mul = mul * 0x80;
            i = i + 1;
        }
        Err(ParseError::Leb128Overflow)
    }
}

/// A value that can be read at the cursor.
pub trait Parse: Sized {
    /// What reading a value at `pos` of `s` gives: the value and the position
    /// after it, or why it fails.
    spec fn spec_parse(mode: DecodeMode, s: Seq<u8>, pos: int) -> Result<(Self, int), ParseError>;

    /// Reads a value at the cursor.
    fn parse(p: &mut FileParser) -> (r: Result<Self, ParseError>)
        requires
            old(p).wf(),
        ensures
            parsed(r, *old(p), *final(p), Self::spec_parse(old(p).mode(), old(p).bytes(), old(p).pos())),
    ;
}

impl Parse for u8 {
    open spec fn spec_parse(mode: DecodeMode, s: Seq<u8>, pos: int) -> Result<(u8, int), ParseError> {
        spec_u8(s, pos)
    }

    fn parse(p: &mut FileParser) -> (r: Result<u8, ParseError>) {
        p.read_u8()
    }
}

impl Parse for u16 {
    open spec fn spec_parse(mode: DecodeMode, s: Seq<u8>, pos: int) -> Result<(u16, int), ParseError> {
        spec_u16(s, pos)
    }

    fn parse(p: &mut FileParser) -> (r: Result<u16, ParseError>) {
        p.read_u16()
    }
}

impl Parse for u32 {
    open spec fn spec_parse(mode: DecodeMode, s: Seq<u8>, pos: int) -> Result<(u32, int), ParseError> {
        spec_u32(s, pos)
    }

    fn parse(p: &mut FileParser) -> (r: Result<u32, ParseError>) {
        p.read_u32()
    }
}

impl Parse for i32 {
    open spec fn spec_parse(mode: DecodeMode, s: Seq<u8>, pos: int) -> Result<(i32, int), ParseError> {
        spec_i32(s, pos)
    }

    fn parse(p: &mut FileParser) -> (r: Result<i32, ParseError>) {
        p.read_i32()
    }
}

impl Parse for Uleb128 {
    open spec fn spec_parse(mode: DecodeMode, s: Seq<u8>, pos: int) -> Result<(Uleb128, int), ParseError> {
        spec_uleb128(s, pos)
    }

    fn parse(p: &mut FileParser) -> (r: Result<Uleb128, ParseError>) {
        p.uleb128()
    }
}

impl Parse for Sleb128 {
    open spec fn spec_parse(mode: DecodeMode, s: Seq<u8>, pos: int) -> Result<(Sleb128, int), ParseError> {
        spec_sleb128(s, pos)
    }

    fn parse(p: &mut FileParser) -> (r: Result<Sleb128, ParseError>) {
        p.sleb128()
    }
}

/// Puts `prefix` in front of the values of a decoded tail.
pub open spec fn glue<T>(prefix: Seq<T>, r: Result<(Seq<T>, int), ParseError>) -> Result<(Seq<T>, int), ParseError> {
    match r {
        Ok((vs, n)) => Ok((prefix + vs, n)),
        Err(e) => Err(e),
    }
}

/// `n` consecutive values at `pos`, with no bytes between them.
pub open spec fn spec_parse_list<T: Parse>(mode: DecodeMode, s: Seq<u8>, pos: int, n: nat) -> Result<(Seq<T>, int), ParseError>
    decreases n,
{
    if n == 0 {
        Ok((Seq::empty(), pos))
    } else {
        match T::spec_parse(mode, s, pos) {
            Ok((v, next)) => glue(seq![v], spec_parse_list::<T>(mode, s, next, (n - 1) as nat)),
            Err(e) => Err(e),
        }
    }
}

/// The values of a decoded list, as a sequence.
pub open spec fn list_view<T>(r: Result<Vec<T>, ParseError>) -> Result<Seq<T>, ParseError> {
    match r {
        Ok(v) => Ok(v@),
        Err(e) => Err(e),
    }
}

impl FileParser {
    /// Reads `n` consecutive values.
    pub fn parse_list<T: Parse>(&mut self, n: u32) -> (r: Result<Vec<T>, ParseError>)
        requires
            old(self).wf(),
        ensures
            parsed(list_view(r), *old(self), *final(self),
                spec_parse_list::<T>(old(self).mode(), old(self).bytes(), old(self).pos(), n as nat)),
    {
        let ghost s = self.bytes();
        let ghost start = self.pos();
        let mut out: Vec<T> = Vec::new();
        let mut i: u32 = 0;
        while i < n
            invariant
                self.wf(),
                self.bytes() == s,
                self.mode() == old(self).mode(),
                s == old(self).bytes(),
                start == old(self).pos(),
                i <= n,
                spec_parse_list::<T>(self.mode(), s, start, n as nat)
                    == glue(out@, spec_parse_list::<T>(self.mode(), s, self.pos(), (n - i) as nat)),
            decreases n - i,
        {
            let ghost before = out@;
            let ghost here = self.pos();
            let v = match T::parse(self) {
                Ok(v) => v,
                Err(e) => {
                    return Err(e);
                },
            };
            out.push(v);
            i = i + 1;
            proof {
                let rest = spec_parse_list::<T>(self.mode(), s, self.pos(), (n - i) as nat);
                match rest {
                    Ok((vs, m)) => {
                        assert(before + (seq![v] + vs) =~= out@ + vs);
                    },
                    Err(_) => {},
                }
            }
        }
        proof {
            assert(out@ + Seq::<T>::empty() =~= out@);
        }
        Ok(out)
    }
}

/// What reading a value at the file offset `off` gives, seen from a cursor at
/// `pos`: nothing when `off` is zero, an error when it points into the
/// header; the cursor comes back to `pos` whatever the outcome.
pub open spec fn spec_parse_at<T: Parse>(mode: DecodeMode, s: Seq<u8>, pos: int, off: u32) -> Result<(Option<T>, int), ParseError> {
    if off == 0 {
        Ok((None, pos))
    } else if off < HEADER_SIZE {
        Err(ParseError::OutOfBounds)
    } else if off > s.len() {
        Err(ParseError::Truncation)
    } else {
        match T::spec_parse(mode, s, off as int) {
            Ok((v, _)) => Ok((Some(v), pos)),
            Err(e) => Err(e),
        }
    }
}

/// What reading `n` values at the file offset `off` gives, seen from a cursor
/// at `pos`; as [`spec_parse_at`] for a single value.
pub open spec fn spec_parse_list_at<T: Parse>(mode: DecodeMode, s: Seq<u8>, pos: int, n: u32, off: u32) -> Result<(Option<Seq<T>>, int), ParseError> {
    if off == 0 {
        Ok((None, pos))
    } else if off < HEADER_SIZE {
        Err(ParseError::OutOfBounds)
    } else if off > s.len() {
        Err(ParseError::Truncation)
    } else {
        match spec_parse_list::<T>(mode, s, off as int, n as nat) {
            Ok((vs, _)) => Ok((Some(vs), pos)),
            Err(e) => Err(e),
        }
    }
}

/// The values of an optional decoded list, as a sequence.
pub open spec fn opt_list_view<T>(r: Result<Option<Vec<T>>, ParseError>) -> Result<Option<Seq<T>>, ParseError> {
    match r {
        Ok(Some(v)) => Ok(Some(v@)),
        Ok(None) => Ok(None),
        Err(e) => Err(e),
    }
}

impl FileParser {
    /// Reads a value at the file offset `off` and puts the cursor back; an
    /// offset of zero means the value is absent.
    pub fn parse_with_offset<T: Parse>(&mut self, off: u32) -> (r: Result<Option<T>, ParseError>)
        requires
            old(self).wf(),
        ensures
            parsed(r, *old(self), *final(self),
                spec_parse_at::<T>(old(self).mode(), old(self).bytes(), old(self).pos(), off)),
            final(self).pos() == old(self).pos(),
    {
        if off == 0 {
            return Ok(None);
        }
        if off < HEADER_SIZE {
            return Err(ParseError::OutOfBounds);
        }
        let back = self.get_offset();
        match self.set_offset(off as usize) {
            Ok(()) => {},
            Err(e) => {
                return Err(e);
            },
        }
        let v = T::parse(self);
        let _ = self.set_offset(back);
        match v {
            Ok(v) => Ok(Some(v)),
            Err(e) => Err(e),
        }
    }

    /// Reads `n` values at the file offset `off` and puts the cursor back; an
    /// offset of zero means the list is absent.
    pub fn parse_list_with_offset<T: Parse>(&mut self, n: u32, off: u32) -> (r: Result<Option<Vec<T>>, ParseError>)
        requires
            old(self).wf(),
        ensures
            parsed(opt_list_view(r), *old(self), *final(self),
                spec_parse_list_at::<T>(old(self).mode(), old(self).bytes(), old(self).pos(), n, off)),
            final(self).pos() == old(self).pos(),
    {
        if off == 0 {
            return Ok(None);
        }
        if off < HEADER_SIZE {
            return Err(ParseError::OutOfBounds);
        }
        let back = self.get_offset();
        match self.set_offset(off as usize) {
            Ok(()) => {},
            Err(e) => {
                return Err(e);
            },
        }
        let v = self.parse_list::<T>(n);
        let _ = self.set_offset(back);
        match v {
            Ok(v) => Ok(Some(v)),
            Err(e) => Err(e),
        }
    }
}

/// A record that may hold lists: what decoding gives is described by where it
/// ends and by a predicate on the value.
pub trait Decode: Sized {
    /// Where the record at `pos` ends, or why it fails.
    spec fn spec_end(mode: DecodeMode, s: Seq<u8>, pos: int) -> Result<int, ParseError>;

    /// `v` is the record at `pos`, given that it decodes.
    spec fn spec_at(mode: DecodeMode, s: Seq<u8>, pos: int, v: Self) -> bool;

    /// Decodes the record at the cursor.
    fn decode(p: &mut FileParser) -> (r: Result<Self, ParseError>)
        requires
            old(p).wf(),
        ensures
            final(p).wf(),
            final(p).bytes() == old(p).bytes(),
            final(p).mode() == old(p).mode(),
            match Self::spec_end(old(p).mode(), old(p).bytes(), old(p).pos()) {
                Ok(end) => r is Ok && final(p).pos() == end
                    && Self::spec_at(old(p).mode(), old(p).bytes(), old(p).pos(), r->Ok_0),
                Err(e) => r == Err::<Self, ParseError>(e),
            },
    ;
}

/// `r` is what decoding a `T` at the cursor of `before` gives, and `after` is
/// where it leaves the cursor.
pub open spec fn decoded<T: Decode>(r: Result<T, ParseError>, before: FileParser, after: FileParser) -> bool {
    &&& after.wf()
    &&& after.bytes() == before.bytes()
    &&& after.mode() == before.mode()
    &&& match T::spec_end(before.mode(), before.bytes(), before.pos()) {
        Ok(end) => r is Ok && after.pos() == end && T::spec_at(before.mode(), before.bytes(), before.pos(), r->Ok_0),
        Err(e) => r == Err::<T, ParseError>(e),
    }
}

/// Where `n` consecutive records at `pos` end.
pub open spec fn items_end<T: Decode>(mode: DecodeMode, s: Seq<u8>, pos: int, n: nat) -> Result<int, ParseError>
    decreases n,
{
    if n == 0 {
        Ok(pos)
    } else {
        match T::spec_end(mode, s, pos) {
            Ok(e) => items_end::<T>(mode, s, e, (n - 1) as nat),
            Err(e) => Err(e),
        }
    }
}

/// `vs` are the `n` consecutive records at `pos`.
pub open spec fn items_at<T: Decode>(mode: DecodeMode, s: Seq<u8>, pos: int, vs: Seq<T>, n: nat) -> bool
    decreases n,
{
    if n == 0 {
        vs.len() == 0
    } else {
        vs.len() == n && T::spec_at(mode, s, pos, vs[0])
            && items_at::<T>(mode, s, T::spec_end(mode, s, pos)->Ok_0, vs.drop_first(), (n - 1) as nat)
    }
}

/// The result of decoding `n` records at the cursor of `before`.
pub open spec fn items_decoded<T: Decode>(r: Result<Vec<T>, ParseError>, before: FileParser, after: FileParser, n: nat) -> bool {
    &&& after.wf()
    &&& after.bytes() == before.bytes()
    &&& after.mode() == before.mode()
    &&& match items_end::<T>(before.mode(), before.bytes(), before.pos(), n) {
        Ok(end) => r is Ok && after.pos() == end && items_at::<T>(before.mode(), before.bytes(), before.pos(), r->Ok_0@, n),
        Err(e) => r == Err::<Vec<T>, ParseError>(e),
    }
}

impl FileParser {
    /// Decodes `n` consecutive records.
    pub fn decode_list<T: Decode>(&mut self, n: u32) -> (r: Result<Vec<T>, ParseError>)
        requires
            old(self).wf(),
        ensures
            items_decoded(r, *old(self), *final(self), n as nat),
    {
        let ghost s = self.bytes();
        let ghost mode = self.mode();
        let ghost start = self.pos();
        let mut out: Vec<T> = Vec::new();
        let mut i: u32 = 0;
        while i < n
            invariant
                self.wf(),
                self.bytes() == s,
                self.mode() == mode,
                s == old(self).bytes(),
                mode == old(self).mode(),
                start == old(self).pos(),
                i <= n,
                out@.len() == i,
                items_end::<T>(mode, s, start, n as nat) == items_end::<T>(mode, s, self.pos(), (n - i) as nat),
                forall|rest: Seq<T>| #[trigger] items_at::<T>(mode, s, self.pos(), rest, (n - i) as nat)
                    ==> items_at::<T>(mode, s, start, out@ + rest, n as nat),
            decreases n - i,
        {
            let ghost here = self.pos();
            let ghost before = out@;
            let v = match T::decode(self) {
                Ok(v) => v,
                Err(e) => {
                    return Err(e);
                },
            };
            out.push(v);
            i = i + 1;
            proof {
                assert forall|rest: Seq<T>| #[trigger] items_at::<T>(mode, s, self.pos(), rest, (n - i) as nat)
                    implies items_at::<T>(mode, s, start, out@ + rest, n as nat) by {
                    let whole = seq![v] + rest;
                    assert(whole[0] == v);
                    assert(whole.drop_first() =~= rest);
                    assert(items_at::<T>(mode, s, here, whole, (n - i + 1) as nat));
                    assert(before + whole =~= out@ + rest);
                }
            }
        }
        proof {
            assert(items_at::<T>(mode, s, self.pos(), Seq::<T>::empty(), 0));
            assert(out@ + Seq::<T>::empty() =~= out@);
        }
        Ok(out)
    }
}

/// A list counted by a u32 at a four-byte aligned position: the count, the
/// values, and where they end.
pub open spec fn spec_counted<T: Parse>(mode: DecodeMode, s: Seq<u8>, pos: int) -> Result<(u32, Seq<T>, int), ParseError> {
    match block_start(s, pos, 4, true) {
        Ok(a) => match spec_parse_list::<T>(mode, s, a + 4, le32(s, a)) {
            Ok((vs, e)) => Ok((le32(s, a) as u32, vs, e)),
            Err(e) => Err(e),
        },
        Err(e) => Err(e),
    }
}

impl FileParser {
    /// Reads a four-byte aligned u32 count and that many values.
    pub fn parse_counted<T: Parse>(&mut self) -> (r: Result<(u32, Vec<T>), ParseError>)
        requires
            old(self).wf(),
        ensures
            final(self).wf(),
            final(self).bytes() == old(self).bytes(),
            final(self).mode() == old(self).mode(),
            match spec_counted::<T>(old(self).mode(), old(self).bytes(), old(self).pos()) {
                Ok((n, vs, e)) => r is Ok && r->Ok_0.0 == n && r->Ok_0.1@ == vs && final(self).pos() == e,
                Err(e) => r == Err::<(u32, Vec<T>), ParseError>(e),
            },
    {
        let b = match self.read_block(4, true) {
            Ok(b) => b,
            Err(e) => {
                return Err(e);
            },
        };
        let n = crate::parser::le32_at(&b, 0);
        match self.parse_list::<T>(n) {
            Ok(vs) => Ok((n, vs)),
            Err(e) => Err(e),
        }
    }
}

} // verus!
