//! Method bodies: registers, the decoded instruction stream, and the
//! exception tables.

use vstd::prelude::*;

use crate::bytecode::instruction::{
    decoded_as, lemma_decode_advance, lemma_decode_progress, spec_decode, spec_decoded, Instruction,
};
use crate::parser::parse::{spec_parse_list, Decode};
use crate::parser::{align_up, block_start, fits, le16, le16_at, le32, le32_at, DecodeMode, FileParser, ParseError};
use crate::types::id::{DebugInfoItem, EncodedCatchHandlerList, TryItem};
use crate::types::refs::Ref;

verus! {

/// A method body.
#[derive(Debug, PartialEq, Eq)]
pub struct CodeItem {
    pub registers_size: u16,
    pub ins_size: u16,
    pub outs_size: u16,
    pub tries_size: u16,
    pub debug_info_off: Ref<DebugInfoItem>,
    pub insns_size: u32,
    pub insns: Vec<Instruction>,
    pub padding: Option<u16>,
    pub tries: Option<Vec<TryItem>>,
    pub handlers: Option<EncodedCatchHandlerList>,
}

/// Bytes from `pos` up to `end`, or zero past it.
pub open spec fn gap(pos: int, end: int) -> nat {
    if pos < end {
        (end - pos) as nat
    } else {
        0
    }
}

/// Where the instructions from `pos` end when they must fill the stream up to
/// exactly `end`: an instruction that runs past `end` is an error.
pub open spec fn spec_insns_end(mode: DecodeMode, s: Seq<u8>, pos: int, end: int) -> Result<int, ParseError>
    decreases gap(pos, end),
{
    if pos >= end {
        if pos == end {
            Ok(end)
        } else {
            Err(ParseError::OutOfBounds)
        }
    } else {
        proof {
            lemma_decode_progress(mode, s, pos);
        }
        match spec_decode(mode, s, pos) {
            Ok(n) => spec_insns_end(mode, s, n, end),
            Err(e) => Err(e),
        }
    }
}

/// `vs` are the instructions from `pos` up to `end`.
pub open spec fn insns_at(mode: DecodeMode, s: Seq<u8>, pos: int, end: int, vs: Seq<Instruction>) -> bool
    decreases gap(pos, end),
{
    if pos >= end {
        vs.len() == 0
    } else {
        proof {
            lemma_decode_progress(mode, s, pos);
        }
        vs.len() > 0 && spec_decode(mode, s, pos) is Ok && spec_decoded(mode, s, pos, vs[0])
            && insns_at(mode, s, spec_decode(mode, s, pos)->Ok_0, end, vs.drop_first())
    }
}

/// The total size of `vs` in code units.
pub open spec fn units_sum(vs: Seq<Instruction>) -> int
    decreases vs.len(),
{
    if vs.len() == 0 {
        0
    } else {
        vs[0].spec_code_units() + units_sum(vs.drop_first())
    }
}

/// A decoded instruction stream is exactly as long as its instructions:
/// twice their code units in bytes.
pub proof fn lemma_insns_units(mode: DecodeMode, s: Seq<u8>, pos: int, end: int, vs: Seq<Instruction>)
    requires
        spec_insns_end(mode, s, pos, end) is Ok,
        insns_at(mode, s, pos, end, vs),
    ensures
        2 * units_sum(vs) == end - pos,
    decreases gap(pos, end),
{
    lemma_decode_progress(mode, s, pos);
    if pos < end {
        lemma_decode_advance(mode, s, pos, vs[0]);
        lemma_insns_units(mode, s, spec_decode(mode, s, pos)->Ok_0, end, vs.drop_first());
    }
}

/// What follows the instructions of a body: with tries, a pad u16 after an
/// odd instruction count, the tries, the handlers; then alignment to four.
/// Gives the pad, the tries, where the handlers start, and the end.
pub open spec fn spec_code_tail(mode: DecodeMode, s: Seq<u8>, pos: int, tries: u16, odd: bool) -> Result<(
    Option<u16>,
    Option<Seq<TryItem>>,
    int,
    int,
), ParseError> {
    if tries == 0 {
        if align_up(pos, 4) <= s.len() {
            Ok((None, None, pos, align_up(pos, 4)))
        } else {
            Err(ParseError::Truncation)
        }
    } else {
        let pad_end = if odd { pos + 2 } else { pos };
        if odd && !fits(s, pos, 2) {
            Err(ParseError::Truncation)
        } else {
            match spec_parse_list::<TryItem>(mode, s, pad_end, tries as nat) {
                Ok((ts, q)) => match EncodedCatchHandlerList::spec_end(mode, s, q) {
                    Ok(h) => if align_up(h, 4) <= s.len() {
                        Ok((if odd { Some(le16(s, pos) as u16) } else { None }, Some(ts), q, align_up(h, 4)))
                    } else {
                        Err(ParseError::Truncation)
                    },
                    Err(e) => Err(e),
                },
                Err(e) => Err(e),
            }
        }
    }
}

/// The tail of a body at `pos`, as [`spec_code_tail`] describes it.
pub open spec fn tail_at(
    mode: DecodeMode,
    s: Seq<u8>,
    pos: int,
    tries_size: u16,
    odd: bool,
    padding: Option<u16>,
    tries: Option<Vec<TryItem>>,
    handlers: Option<EncodedCatchHandlerList>,
) -> bool {
    match spec_code_tail(mode, s, pos, tries_size, odd) {
        Ok((pad, ts, hpos, _)) => padding == pad && (match tries {
            Some(t) => ts == Some(t@),
            None => ts is None,
        }) && (match handlers {
            Some(h) => tries_size != 0 && EncodedCatchHandlerList::spec_at(mode, s, hpos, h),
            None => tries_size == 0,
        }),
        Err(_) => false,
    }
}

/// Decodes what follows the instructions of a body; see [`spec_code_tail`].
fn decode_tail(p: &mut FileParser, tries_size: u16, odd: bool) -> (r: Result<
    (Option<u16>, Option<Vec<TryItem>>, Option<EncodedCatchHandlerList>),
    ParseError,
>)
    requires
        old(p).wf(),
    ensures
        final(p).wf(),
        final(p).bytes() == old(p).bytes(),
        final(p).mode() == old(p).mode(),
        match spec_code_tail(old(p).mode(), old(p).bytes(), old(p).pos(), tries_size, odd) {
            Ok((_, _, _, end)) => r is Ok && final(p).pos() == end
                && tail_at(old(p).mode(), old(p).bytes(), old(p).pos(), tries_size, odd, r->Ok_0.0, r->Ok_0.1, r->Ok_0.2),
            Err(e) => r == Err::<(Option<u16>, Option<Vec<TryItem>>, Option<EncodedCatchHandlerList>), ParseError>(e),
        },
{
    let (padding, tries, handlers) = if tries_size != 0 {
        let padding = if odd {
            match p.read_u16() {
                Ok(v) => Some(v),
                Err(e) => {
                    return Err(e);
                },
            }
        } else {
            None
        };
        let tries = match p.parse_list::<TryItem>(tries_size as u32) {
            Ok(v) => v,
            Err(e) => {
                return Err(e);
            },
        };
        let handlers = match EncodedCatchHandlerList::decode(p) {
            Ok(v) => v,
            Err(e) => {
                return Err(e);
            },
        };
        (padding, Some(tries), Some(handlers))
    } else {
        (None, None, None)
    };
    match p.align(4) {
        Ok(()) => Ok((padding, tries, handlers)),
        Err(e) => Err(e),
    }
}

/// Where the instruction stream of the body whose header starts at `a` ends.
pub open spec fn stream_end(s: Seq<u8>, a: int) -> int {
    a + 16 + 2 * le32(s, a + 12)
}

impl Decode for CodeItem {
    open spec fn spec_end(mode: DecodeMode, s: Seq<u8>, pos: int) -> Result<int, ParseError> {
        match block_start(s, pos, 16, true) {
            Ok(a) => match spec_insns_end(mode, s, a + 16, stream_end(s, a)) {
                Ok(e) => match spec_code_tail(mode, s, e, le16(s, a + 6) as u16, le32(s, a + 12) % 2 == 1) {
                    Ok((_, _, _, end)) => Ok(end),
                    Err(e) => Err(e),
                },
                Err(e) => Err(e),
            },
            Err(e) => Err(e),
        }
    }

    open spec fn spec_at(mode: DecodeMode, s: Seq<u8>, pos: int, v: CodeItem) -> bool {
        match block_start(s, pos, 16, true) {
            Ok(a) => {
                &&& v.registers_size == le16(s, a)
                &&& v.ins_size == le16(s, a + 2)
                &&& v.outs_size == le16(s, a + 4)
                &&& v.tries_size == le16(s, a + 6)
                &&& v.debug_info_off.offset == le32(s, a + 8)
                &&& v.insns_size == le32(s, a + 12)
                &&& insns_at(mode, s, a + 16, stream_end(s, a), v.insns@)
                &&& tail_at(mode, s, stream_end(s, a), v.tries_size, v.insns_size % 2 == 1, v.padding, v.tries, v.handlers)
            },
            Err(_) => false,
        }
    }

    #[verifier::rlimit(80)]
    fn decode(p: &mut FileParser) -> (r: Result<CodeItem, ParseError>) {
        let ghost s = p.bytes();
        let ghost mode = p.mode();
        let b = match p.read_block(16, true) {
            Ok(b) => b,
            Err(e) => {
                return Err(e);
            },
        };
        let ghost a = p.pos() - 16;
        proof {
            assert(forall|k: int| 0 <= k < 16 ==> b@[k] == s[a + k]);
            assert(le16(b@, 0) == le16(s, a) && le16(b@, 2) == le16(s, a + 2) && le16(b@, 4) == le16(s, a + 4)
                && le16(b@, 6) == le16(s, a + 6));
            assert(le32(b@, 8) == le32(s, a + 8) && le32(b@, 12) == le32(s, a + 12));
        }
        let registers_size = le16_at(&b, 0);
        let ins_size = le16_at(&b, 2);
        let outs_size = le16_at(&b, 4);
        let tries_size = le16_at(&b, 6);
        let debug_info_off = Ref::new(le32_at(&b, 8));
        let insns_size = le32_at(&b, 12);
        assert(p.pos() == a + 16);
        assert(block_start(s, old(p).pos(), 16, true) == Ok::<int, ParseError>(a));
        assert(insns_size == le32(s, a + 12));
        assert(stream_end(s, a) == p.pos() + 2 * insns_size);
        let insns = match decode_stream(p, insns_size) {
            Ok(v) => v,
            Err(e) => {
                return Err(e);
            },
        };
        assert(insns_at(mode, s, a + 16, stream_end(s, a), insns@));
        let ghost e = p.pos();
        assert(e == stream_end(s, a));
        let (padding, tries, handlers) = match decode_tail(p, tries_size, insns_size % 2 != 0) {
            Ok(t) => t,
            Err(e) => {
                return Err(e);
            },
        };
        assert(tail_at(mode, s, e, tries_size, insns_size % 2 == 1, padding, tries, handlers));
        Ok(CodeItem {
            registers_size,
            ins_size,
            outs_size,
            tries_size,
            debug_info_off,
            insns_size,
            insns,
            padding,
            tries,
            handlers,
        })
    }
}

/// Decodes the instructions of a stream of `insns_size` code units that
/// starts at the cursor.
fn decode_stream(p: &mut FileParser, insns_size: u32) -> (r: Result<Vec<Instruction>, ParseError>)
    requires
        old(p).wf(),
    ensures
        final(p).wf(),
        final(p).bytes() == old(p).bytes(),
        final(p).mode() == old(p).mode(),
        match spec_insns_end(old(p).mode(), old(p).bytes(), old(p).pos(), old(p).pos() + 2 * insns_size) {
            Ok(e) => r is Ok && final(p).pos() == e && e == old(p).pos() + 2 * insns_size
                && insns_at(old(p).mode(), old(p).bytes(), old(p).pos(), e, r->Ok_0@),
            Err(e) => r == Err::<Vec<Instruction>, ParseError>(e),
        },
{
    let ghost s = p.bytes();
    let ghost mode = p.mode();
    let ghost start = p.pos();
    let end: u128 = p.get_offset() as u128 + 2 * (insns_size as u128);
    let mut out: Vec<Instruction> = Vec::new();
    while (p.get_offset() as u128) < end
        invariant
            p.wf(),
            p.bytes() == s,
            p.mode() == mode,
            s == old(p).bytes(),
            mode == old(p).mode(),
            start == old(p).pos(),
            end == start + 2 * insns_size,
            spec_insns_end(mode, s, start, end as int) == spec_insns_end(mode, s, p.pos(), end as int),
            forall|rest: Seq<Instruction>| #[trigger] insns_at(mode, s, p.pos(), end as int, rest)
                ==> insns_at(mode, s, start, end as int, out@ + rest),
        decreases gap(p.pos(), end as int),
    {
        let ghost here = p.pos();
        let ghost before = out@;
        proof {
            lemma_decode_progress(mode, s, here);
        }
        let ins = match Instruction::parse(p) {
            Ok(i) => i,
            Err(e) => {
                proof {
                    reveal(decoded_as);
                }
                return Err(e);
            },
        };
        proof {
            reveal(decoded_as);
        }
        out.push(ins);
        proof {
            assert forall|rest: Seq<Instruction>| #[trigger] insns_at(mode, s, p.pos(), end as int, rest)
                implies insns_at(mode, s, start, end as int, out@ + rest) by {
                let whole = seq![ins] + rest;
                assert(whole[0] == ins);
                assert(whole.drop_first() =~= rest);
                assert(insns_at(mode, s, here, end as int, whole));
                assert(before + whole =~= out@ + rest);
            }
        }
    }
    if p.get_offset() as u128 != end {
        return Err(ParseError::OutOfBounds);
    }
    proof {
        assert(insns_at(mode, s, p.pos(), end as int, Seq::<Instruction>::empty()));
        assert(out@ + Seq::<Instruction>::empty() =~= out@);
    }
    Ok(out)
}

/// Every decoded method body's instructions add up to its declared size.
pub proof fn lemma_code_item_units(mode: DecodeMode, s: Seq<u8>, pos: int, v: CodeItem)
    requires
        CodeItem::spec_end(mode, s, pos) is Ok,
        CodeItem::spec_at(mode, s, pos, v),
    ensures
        units_sum(v.insns@) == v.insns_size,
{
    let a = block_start(s, pos, 16, true)->Ok_0;
    lemma_insns_units(mode, s, a + 16, stream_end(s, a), v.insns@);
}

} // verus!
