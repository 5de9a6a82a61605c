//! The fixed file header.

use vstd::prelude::*;

use crate::parser::parse::{decoded, Decode};
use crate::parser::{block_start, fits, le32, le32_at, parsed, DecodeMode, FileParser, ParseError};

verus! {

/// The byte order tag of a little-endian file.
pub const ENDIAN_CONSTANT: u32 = 0x1234_5678;

/// The byte order tag of a byte-swapped file.
pub const REVERSE_ENDIAN_CONSTANT: u32 = 0x7856_3412;

/// Which byte order tag the header carries.
#[derive(Debug, Clone, Copy, PartialEq, Eq, Structural)]
pub enum EndianConstant {
    EndianConstant,
    ReverseEndianConstant,
}

/// The byte order tag that `v` is, if any.
pub open spec fn spec_endian(v: u32) -> Option<EndianConstant> {
    if v == ENDIAN_CONSTANT {
        Some(EndianConstant::EndianConstant)
    } else if v == REVERSE_ENDIAN_CONSTANT {
        Some(EndianConstant::ReverseEndianConstant)
    } else {
        None
    }
}

impl EndianConstant {
    /// The byte order tag `value`; any other value is refused.
    pub fn try_from(value: u32) -> (r: Result<EndianConstant, ParseError>)
        ensures
            match spec_endian(value) {
                Some(c) => r == Ok::<EndianConstant, ParseError>(c),
                None => r == Err::<EndianConstant, ParseError>(ParseError::BadEndianTag),
            },
    {
        if value == ENDIAN_CONSTANT {
            Ok(EndianConstant::EndianConstant)
        } else if value == REVERSE_ENDIAN_CONSTANT {
            Ok(EndianConstant::ReverseEndianConstant)
        } else {
            Err(ParseError::BadEndianTag)
        }
    }
}

/// The file header: format version, checksum, signature, and the sizes and
/// offsets of the tables.
#[derive(Debug, PartialEq, Eq)]
pub struct Header {
    pub format_version: u32,
    pub checksum: u32,
    pub signature: Vec<u8>,
    pub file_size: u32,
    pub header_size: u32,
    pub endian_tag: EndianConstant,
    pub link_size: u32,
    pub link_off: u32,
    pub map_off: u32,
    pub string_ids_size: u32,
    pub string_ids_off: u32,
    pub type_ids_size: u32,
    pub type_ids_off: u32,
    pub proto_ids_size: u32,
    pub proto_ids_off: u32,
    pub field_ids_size: u32,
    pub field_ids_off: u32,
    pub method_ids_size: u32,
    pub method_ids_off: u32,
    pub class_defs_size: u32,
    pub class_defs_off: u32,
    pub data_size: u32,
    pub data_off: u32,
}

/// An ASCII decimal digit.
pub open spec fn is_digit(b: u8) -> bool {
    0x30 <= b <= 0x39
}

/// The eight magic bytes at `pos`: `dex\n`, three ASCII digits of the
/// version, and a zero; gives the version and the position after them.
pub open spec fn spec_version(s: Seq<u8>, pos: int) -> Result<(u32, int), ParseError> {
    match block_start(s, pos, 8, true) {
        Ok(a) => if !(s[a] == 0x64 && s[a + 1] == 0x65 && s[a + 2] == 0x78 && s[a + 3] == 0x0a && s[a + 7] == 0) {
            Err(ParseError::BadMagic)
        } else if !(is_digit(s[a + 4]) && is_digit(s[a + 5]) && is_digit(s[a + 6])) {
            Err(ParseError::BadVersion)
        } else {
            Ok((((s[a + 4] - 0x30) * 100 + (s[a + 5] - 0x30) * 10 + (s[a + 6] - 0x30)) as u32, a + 8))
        },
        Err(e) => Err(e),
    }
}

impl Header {
    /// Reads and checks the magic bytes; gives the format version.
    pub fn verify_header(p: &mut FileParser) -> (r: Result<u32, ParseError>)
        requires
            old(p).wf(),
        ensures
            parsed(r, *old(p), *final(p), spec_version(old(p).bytes(), old(p).pos())),
    {
        let m = match p.read_block(8, true) {
            Ok(m) => m,
            Err(e) => {
                return Err(e);
            },
        };
        if !(m[0] == 0x64 && m[1] == 0x65 && m[2] == 0x78 && m[3] == 0x0a && m[7] == 0) {
            return Err(ParseError::BadMagic);
        }
        if !(0x30 <= m[4] && m[4] <= 0x39 && 0x30 <= m[5] && m[5] <= 0x39 && 0x30 <= m[6] && m[6] <= 0x39) {
            return Err(ParseError::BadVersion);
        }
        Ok((m[4] - 0x30) as u32 * 100 + (m[5] - 0x30) as u32 * 10 + (m[6] - 0x30) as u32)
    }
}

impl Decode for Header {
    open spec fn spec_end(mode: DecodeMode, s: Seq<u8>, pos: int) -> Result<int, ParseError> {
        match spec_version(s, pos) {
            Ok((_, q)) => if !fits(s, q, 104) {
                Err(ParseError::Truncation)
            } else if spec_endian(le32(s, q + 32) as u32) is None {
                Err(ParseError::BadEndianTag)
            } else {
                Ok(q + 104)
            },
            Err(e) => Err(e),
        }
    }

    open spec fn spec_at(mode: DecodeMode, s: Seq<u8>, pos: int, v: Header) -> bool {
        match spec_version(s, pos) {
            Ok((version, q)) => {
                let a = q - 8;
                &&& v.format_version == version
                &&& v.signature@ == s.subrange(a + 12, a + 32)
                &&& Some(v.endian_tag) == spec_endian(le32(s, a + 40) as u32)
                &&& v.checksum == le32(s, a + 8)
                &&& v.file_size == le32(s, a + 32)
                &&& v.header_size == le32(s, a + 36)
                &&& v.link_size == le32(s, a + 44)
                &&& v.link_off == le32(s, a + 48)
                &&& v.map_off == le32(s, a + 52)
                &&& v.string_ids_size == le32(s, a + 56)
                &&& v.string_ids_off == le32(s, a + 60)
                &&& v.type_ids_size == le32(s, a + 64)
                &&& v.type_ids_off == le32(s, a + 68)
                &&& v.proto_ids_size == le32(s, a + 72)
                &&& v.proto_ids_off == le32(s, a + 76)
                &&& v.field_ids_size == le32(s, a + 80)
                &&& v.field_ids_off == le32(s, a + 84)
                &&& v.method_ids_size == le32(s, a + 88)
                &&& v.method_ids_off == le32(s, a + 92)
                &&& v.class_defs_size == le32(s, a + 96)
                &&& v.class_defs_off == le32(s, a + 100)
                &&& v.data_size == le32(s, a + 104)
                &&& v.data_off == le32(s, a + 108)
            },
            Err(_) => false,
        }
    }

    fn decode(p: &mut FileParser) -> (r: Result<Header, ParseError>) {
        let ghost s = p.bytes();
        let format_version = match Header::verify_header(p) {
            Ok(v) => v,
            Err(e) => {
                return Err(e);
            },
        };
        let ghost q = p.pos();
        let b = match p.read_block(104, false) {
            Ok(b) => b,
            Err(e) => {
                return Err(e);
            },
        };
        proof {
            assert(forall|k: int| 0 <= k < 104 ==> b@[k] == s[q + k]);
        }
        let endian_tag = match EndianConstant::try_from(le32_at(&b, 32)) {
            Ok(t) => t,
            Err(e) => {
                return Err(e);
            },
        };
        let mut signature: Vec<u8> = Vec::new();
        let mut i: usize = 4;
        while i < 24
            invariant
                4 <= i <= 24,
                b@.len() == 104,
                signature@ == b@.subrange(4, i as int),
            decreases 24 - i,
        {
            signature.push(b[i]);
            i = i + 1;
            assert(signature@ =~= b@.subrange(4, i as int));
        }
        proof {
            assert(signature@ =~= s.subrange(q + 4, q + 24));
            assert(le32(b@, 0) == le32(s, q + 0));
            assert(le32(b@, 24) == le32(s, q + 24));
            assert(le32(b@, 28) == le32(s, q + 28));
            assert(le32(b@, 36) == le32(s, q + 36));
            assert(le32(b@, 40) == le32(s, q + 40));
            assert(le32(b@, 44) == le32(s, q + 44));
            assert(le32(b@, 48) == le32(s, q + 48));
            assert(le32(b@, 52) == le32(s, q + 52));
            assert(le32(b@, 56) == le32(s, q + 56));
            assert(le32(b@, 60) == le32(s, q + 60));
            assert(le32(b@, 64) == le32(s, q + 64));
            assert(le32(b@, 68) == le32(s, q + 68));
            assert(le32(b@, 72) == le32(s, q + 72));
            assert(le32(b@, 76) == le32(s, q + 76));
            assert(le32(b@, 80) == le32(s, q + 80));
            assert(le32(b@, 84) == le32(s, q + 84));
            assert(le32(b@, 88) == le32(s, q + 88));
            assert(le32(b@, 92) == le32(s, q + 92));
            assert(le32(b@, 96) == le32(s, q + 96));
            assert(le32(b@, 100) == le32(s, q + 100));
        }
        Ok(Header {
            format_version,
            signature,
            endian_tag,
            checksum: le32_at(&b, 0),
            file_size: le32_at(&b, 24),
            header_size: le32_at(&b, 28),
            link_size: le32_at(&b, 36),
            link_off: le32_at(&b, 40),
            map_off: le32_at(&b, 44),
            string_ids_size: le32_at(&b, 48),
            string_ids_off: le32_at(&b, 52),
            type_ids_size: le32_at(&b, 56),
            type_ids_off: le32_at(&b, 60),
            proto_ids_size: le32_at(&b, 64),
            proto_ids_off: le32_at(&b, 68),
            field_ids_size: le32_at(&b, 72),
            field_ids_off: le32_at(&b, 76),
            method_ids_size: le32_at(&b, 80),
            method_ids_off: le32_at(&b, 84),
            class_defs_size: le32_at(&b, 88),
            class_defs_off: le32_at(&b, 92),
            data_size: le32_at(&b, 96),
            data_off: le32_at(&b, 100),
        })
    }
}

impl Header {
    /// Decodes the header at the cursor, aligned to four bytes.
    pub fn parse(p: &mut FileParser) -> (r: Result<Header, ParseError>)
        requires
            old(p).wf(),
        ensures
            decoded::<Header>(r, *old(p), *final(p)),
    {
        Header::decode(p)
    }
}

} // verus!
