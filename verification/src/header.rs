//! The decoded ELF identification header and its field-by-field decoder.

use vstd::prelude::*;

use crate::reader::Reader;
use crate::reader::word16;
use crate::reader::word32;
use crate::reader::word64;

verus! {

/// Whether the file is in 32- or 64-bit format (field `e_ident[EI_CLASS]`).
#[derive(Clone, Copy, Debug, PartialEq, Eq, Structural)]
pub enum WordSize {
    Bits32,
    Bits64,
}

/// A width-tagged address; the width always matches the file's word size.
#[derive(Clone, Copy, Debug, PartialEq, Eq, Structural)]
pub enum Address {
    Bits32(u32),
    Bits64(u64),
}

/// The byte order used for the file's multi-byte fields (field `e_ident[EI_DATA]`).
#[derive(Clone, Copy, Debug, PartialEq, Eq, Structural)]
pub enum Endianness {
    Big,
    Little,
}

/// The target operating system ABI (field `e_ident[EI_OSABI]`).
#[derive(Clone, Copy, Debug, PartialEq, Eq, Structural)]
pub enum Abi {
    SystemV,
    HPUX,
    NetBSD,
    Linux,
    GNUHurd,
    Solaris,
    AIX,
    IRIX,
    FreeBSD,
    Tru64,
    NovellModesto,
    OpenBSD,
    OpenVMS,
    NonStopKernel,
    AROS,
    FenixOS,
    NuxiCloudABI,
    OpenVOS,
}

/// The object file type (field `e_type`); the reserved ranges keep their raw code.
#[derive(Clone, Copy, Debug, PartialEq, Eq, Structural)]
pub enum Type {
    Unknown,
    Relocatable,
    Executable,
    SharedObject,
    Core,
    Other(u16),
}

/// Why a decode failed. Every variant but [`DecodeError::EndiannessNotResolved`]
/// reports malformed input data; that last one reports a misuse of the reader's
/// low-level interface (a multi-byte read before the endianness was resolved),
/// which the header decode protocol itself never commits.
#[derive(Clone, Copy, Debug, PartialEq, Eq, Structural)]
pub enum DecodeError {
    /// The first four bytes were not the ELF magic sequence.
    NotAnElfFile,
    /// The word-size byte was neither 1 (32-bit) nor 2 (64-bit).
    InvalidWordSize(u8),
    /// The endianness byte was neither 1 (little) nor 2 (big).
    InvalidEndianness(u8),
    /// The identifier-version byte was not 1.
    InvalidIdentifierVersion(u8),
    /// The ABI byte named no known operating system ABI.
    InvalidAbi(u8),
    /// The object-type field was neither a known type nor a reserved code.
    InvalidObjectType(u16),
    /// The input ended before the field could be read in full.
    Truncated,
    /// A multi-byte numeric read was attempted before the endianness was set.
    EndiannessNotResolved,
}

/// Does the byte name a word size?
pub open spec fn word_size_valid(b: u8) -> bool {
    b == 1 || b == 2
}

/// The word size a valid byte names (1 is 32-bit, 2 is 64-bit).
pub open spec fn word_size_of(b: u8) -> WordSize
    recommends
        word_size_valid(b),
{
    if b == 1 {
        WordSize::Bits32
    } else {
        WordSize::Bits64
    }
}

/// Does the byte name an endianness?
pub open spec fn endianness_valid(b: u8) -> bool {
    b == 1 || b == 2
}

/// The endianness a valid byte names (1 is little, 2 is big).
pub open spec fn endianness_of(b: u8) -> Endianness
    recommends
        endianness_valid(b),
{
    if b == 1 {
        Endianness::Little
    } else {
        Endianness::Big
    }
}

/// Does the byte name a known ABI? The documented values are 0x00 through
/// 0x12 with a gap at 0x05.
pub open spec fn abi_valid(b: u8) -> bool {
    b <= 0x12 && b != 0x05
}

/// The ABI a valid byte names.
pub open spec fn abi_of(b: u8) -> Abi
    recommends
        abi_valid(b),
{
    match b {
        0x00 => Abi::SystemV,
        0x01 => Abi::HPUX,
        0x02 => Abi::NetBSD,
        0x03 => Abi::Linux,
        0x04 => Abi::GNUHurd,
        0x06 => Abi::Solaris,
        0x07 => Abi::AIX,
        0x08 => Abi::IRIX,
        0x09 => Abi::FreeBSD,
        0x0A => Abi::Tru64,
        0x0B => Abi::NovellModesto,
        0x0C => Abi::OpenBSD,
        0x0D => Abi::OpenVMS,
        0x0E => Abi::NonStopKernel,
        0x0F => Abi::AROS,
        0x10 => Abi::FenixOS,
        0x11 => Abi::NuxiCloudABI,
        _ => Abi::OpenVOS,
    }
}

/// Does the code name an object type? The known types are 0 through 4; the
/// four reserved range markers 0xFE00, 0xFEFF, 0xFF00 and 0xFFFF are kept
/// with their raw code.
pub open spec fn object_type_valid(v: u16) -> bool {
    v <= 4 || v == 0xFE00 || v == 0xFEFF || v == 0xFF00 || v == 0xFFFF
}

/// The object type a valid code names.
pub open spec fn object_type_of(v: u16) -> Type
    recommends
        object_type_valid(v),
{
    if v == 0 {
        Type::Unknown
    } else if v == 1 {
        Type::Relocatable
    } else if v == 2 {
        Type::Executable
    } else if v == 3 {
        Type::SharedObject
    } else if v == 4 {
        Type::Core
    } else {
        Type::Other(v)
    }
}

impl WordSize {
    /// Maps the word-size byte of the identification record to its meaning,
    /// rejecting every byte outside the closed set {1, 2}.
    pub fn from_byte(b: u8) -> (r: Result<WordSize, DecodeError>)
        ensures
            match r {
                Ok(w) => word_size_valid(b) && w == word_size_of(b),
                Err(e) => !word_size_valid(b) && e == DecodeError::InvalidWordSize(b),
            },
    {
        match b {
            1 => Ok(WordSize::Bits32),
            2 => Ok(WordSize::Bits64),
            _ => Err(DecodeError::InvalidWordSize(b)),
        }
    }
}

impl Endianness {
    /// Maps the endianness byte of the identification record to its meaning,
    /// rejecting every byte outside the closed set {1, 2}.
    pub fn from_byte(b: u8) -> (r: Result<Endianness, DecodeError>)
        ensures
            match r {
                Ok(e) => endianness_valid(b) && e == endianness_of(b),
                Err(e) => !endianness_valid(b) && e == DecodeError::InvalidEndianness(b),
            },
    {
        match b {
            1 => Ok(Endianness::Little),
            2 => Ok(Endianness::Big),
            _ => Err(DecodeError::InvalidEndianness(b)),
        }
    }
}

impl Abi {
    /// Maps the ABI byte of the identification record to its meaning,
    /// rejecting 0x05 and everything above 0x12.
    pub fn from_byte(b: u8) -> (r: Result<Abi, DecodeError>)
        ensures
            match r {
                Ok(a) => abi_valid(b) && a == abi_of(b),
                Err(e) => !abi_valid(b) && e == DecodeError::InvalidAbi(b),
            },
    {
        match b {
            0x00 => Ok(Abi::SystemV),
            0x01 => Ok(Abi::HPUX),
            0x02 => Ok(Abi::NetBSD),
            0x03 => Ok(Abi::Linux),
            0x04 => Ok(Abi::GNUHurd),
            0x06 => Ok(Abi::Solaris),
            0x07 => Ok(Abi::AIX),
            0x08 => Ok(Abi::IRIX),
            0x09 => Ok(Abi::FreeBSD),
            0x0A => Ok(Abi::Tru64),
            0x0B => Ok(Abi::NovellModesto),
            0x0C => Ok(Abi::OpenBSD),
            0x0D => Ok(Abi::OpenVMS),
            0x0E => Ok(Abi::NonStopKernel),
            0x0F => Ok(Abi::AROS),
            0x10 => Ok(Abi::FenixOS),
            0x11 => Ok(Abi::NuxiCloudABI),
            0x12 => Ok(Abi::OpenVOS),
            _ => Err(DecodeError::InvalidAbi(b)),
        }
    }
}

impl Type {
    /// Maps the object-type code to its meaning: the five known types, the
    /// four reserved range markers kept verbatim, and a failure for the rest.
    pub fn from_code(v: u16) -> (r: Result<Type, DecodeError>)
        ensures
            match r {
                Ok(t) => object_type_valid(v) && t == object_type_of(v),
                Err(e) => !object_type_valid(v) && e == DecodeError::InvalidObjectType(v),
            },
    {
        match v {
            0x00 => Ok(Type::Unknown),
            0x01 => Ok(Type::Relocatable),
            0x02 => Ok(Type::Executable),
            0x03 => Ok(Type::SharedObject),
            0x04 => Ok(Type::Core),
            0xFE00 | 0xFEFF | 0xFF00 | 0xFFFF => Ok(Type::Other(v)),
            _ => Err(DecodeError::InvalidObjectType(v)),
        }
    }
}

/// Is the four-byte ELF magic sequence `0x7F 'E' 'L' 'F'` in place?
pub open spec fn magic_ok(s: Seq<u8>) -> bool
    recommends
        s.len() >= 4,
{
    s[0] == 0x7F && s[1] == 0x45 && s[2] == 0x4C && s[3] == 0x46
}

/// How many bytes one address occupies under the given word size.
pub open spec fn addr_width(ws: WordSize) -> int {
    match ws {
        WordSize::Bits32 => 4,
        WordSize::Bits64 => 8,
    }
}

/// The total size in bytes of a header with the given word size: the 16-byte
/// identification record, the fixed scalar fields, and three addresses.
pub open spec fn header_len(ws: WordSize) -> int {
    40 + 3 * addr_width(ws)
}

/// The width-tagged address encoded at byte offset `off`, read with the width
/// the word size dictates.
pub open spec fn spec_address(s: Seq<u8>, off: int, ws: WordSize, e: Endianness) -> Address
    recommends
        0 <= off,
        off + addr_width(ws) <= s.len(),
{
    match ws {
        WordSize::Bits32 => Address::Bits32(
            word32(s[off], s[off + 1], s[off + 2], s[off + 3], e),
        ),
        WordSize::Bits64 => Address::Bits64(
            word64(
                s[off],
                s[off + 1],
                s[off + 2],
                s[off + 3],
                s[off + 4],
                s[off + 5],
                s[off + 6],
                s[off + 7],
                e,
            ),
        ),
    }
}

/// The header assembled from a byte sequence that passed every validation,
/// with the given word size and endianness already resolved from bytes 4 and 5.
pub open spec fn spec_fields(s: Seq<u8>, ws: WordSize, e: Endianness) -> Header
    recommends
        header_len(ws) <= s.len(),
{
    let w = addr_width(ws);
    Header {
        word_size: ws,
        endianness: e,
        abi: abi_of(s[7]),
        abi_version: s[8],
        type_: object_type_of(word16(s[16], s[17], e)),
        machine: word16(s[18], s[19], e),
        version: word32(s[20], s[21], s[22], s[23], e),
        entry_point: spec_address(s, 24, ws, e),
        program_header_address: spec_address(s, 24 + w, ws, e),
        section_header_address: spec_address(s, 24 + 2 * w, ws, e),
        flags: word32(s[24 + 3 * w], s[25 + 3 * w], s[26 + 3 * w], s[27 + 3 * w], e),
        header_size: word16(s[28 + 3 * w], s[29 + 3 * w], e),
        program_header_entry_size: word16(s[30 + 3 * w], s[31 + 3 * w], e),
        program_header_entry_count: word16(s[32 + 3 * w], s[33 + 3 * w], e),
        section_header_entry_size: word16(s[34 + 3 * w], s[35 + 3 * w], e),
        section_header_entry_count: word16(s[36 + 3 * w], s[37 + 3 * w], e),
        section_header_name_entry_idx: word16(s[38 + 3 * w], s[39 + 3 * w], e),
    }
}

/// Does the byte sequence satisfy every fixed invariant of the format, so
/// that decoding it yields a header?
pub open spec fn valid_header_bytes(s: Seq<u8>) -> bool {
    &&& s.len() >= header_len(word_size_of(s[4]))
    &&& magic_ok(s)
    &&& word_size_valid(s[4])
    &&& endianness_valid(s[5])
    &&& s[6] == 1
    &&& abi_valid(s[7])
    &&& object_type_valid(word16(s[16], s[17], endianness_of(s[5])))
}

/// The specification-level decoder: what decoding a byte sequence must yield,
/// field checks applied in stream order. [`Header::read`] is proved to return
/// exactly this on the bytes remaining in its reader.
pub open spec fn spec_read(s: Seq<u8>) -> Result<Header, DecodeError> {
    if s.len() < 4 {
        Err(DecodeError::Truncated)
    } else if !magic_ok(s) {
        Err(DecodeError::NotAnElfFile)
    } else if s.len() < 5 {
        Err(DecodeError::Truncated)
    } else if !word_size_valid(s[4]) {
        Err(DecodeError::InvalidWordSize(s[4]))
    } else if s.len() < 6 {
        Err(DecodeError::Truncated)
    } else if !endianness_valid(s[5]) {
        Err(DecodeError::InvalidEndianness(s[5]))
    } else if s.len() < 7 {
        Err(DecodeError::Truncated)
    } else if s[6] != 1 {
        Err(DecodeError::InvalidIdentifierVersion(s[6]))
    } else if s.len() < 8 {
        Err(DecodeError::Truncated)
    } else if !abi_valid(s[7]) {
        Err(DecodeError::InvalidAbi(s[7]))
    } else if s.len() < 18 {
        Err(DecodeError::Truncated)
    } else if !object_type_valid(word16(s[16], s[17], endianness_of(s[5]))) {
        Err(DecodeError::InvalidObjectType(word16(s[16], s[17], endianness_of(s[5]))))
    } else if s.len() < header_len(word_size_of(s[4])) {
        Err(DecodeError::Truncated)
    } else {
        Ok(spec_fields(s, word_size_of(s[4]), endianness_of(s[5])))
    }
}

/// The fully validated header record. Either every field decodes and
/// validates, and the record is returned whole, or decoding fails with a
/// typed error and no record exists at all.
#[derive(Clone, Copy, Debug, PartialEq, Eq, Structural)]
pub struct Header {
    /// Whether the file is in 32- or 64-bit format (`e_ident[EI_CLASS]`).
    pub word_size: WordSize,
    /// Whether the file uses little or big endianness (`e_ident[EI_DATA]`).
    pub endianness: Endianness,
    /// The target operating system ABI (`e_ident[EI_OSABI]`).
    pub abi: Abi,
    /// The target operating system ABI version (`e_ident[EI_ABIVERSION]`).
    pub abi_version: u8,
    /// The object file type (`e_type`).
    pub type_: Type,
    /// The target instruction set architecture, stored opaquely (`e_machine`).
    pub machine: u16,
    /// The ELF version, stored opaquely (`e_version`).
    pub version: u32,
    /// The memory address of the process entry point (`e_entry`).
    pub entry_point: Address,
    /// The start of the program header table (`e_phoff`).
    pub program_header_address: Address,
    /// The start of the section header table (`e_shoff`).
    pub section_header_address: Address,
    /// Architecture-dependent flags, stored opaquely (`e_flags`).
    pub flags: u32,
    /// The size of this header (`e_ehsize`).
    pub header_size: u16,
    /// The size of entries in the program header table (`e_phentsize`).
    pub program_header_entry_size: u16,
    /// The number of entries in the program header table (`e_phnum`).
    pub program_header_entry_count: u16,
    /// The size of entries in the section header table (`e_shentsize`).
    pub section_header_entry_size: u16,
    /// The number of entries in the section header table (`e_shnum`).
    pub section_header_entry_count: u16,
    /// The index of the section header table entry defining section names
    /// (`e_shstrndx`).
    pub section_header_name_entry_idx: u16,
}

impl Header {
    /// Decodes one header from the bytes remaining in the reader, consuming
    /// them as it goes: exactly [`spec_read`] of those bytes, with the
    /// reader's endianness resolved from the endianness byte and the cursor
    /// left just past the last byte read.
    pub fn read(reader: &mut Reader) -> (r: Result<Header, DecodeError>)
        requires
            old(reader).wf(),
        ensures
            final(reader).wf(),
            final(reader)@.data == old(reader)@.data,
            match r {
                Ok(h) => spec_read(old(reader).remaining()) == Ok::<Header, DecodeError>(h)
                    && final(reader)@.pos == old(reader)@.pos + header_len(h.word_size) && final(reader)@.endianness == Some(h.endianness),
                Err(e) => spec_read(old(reader).remaining()) == Err::<Header, DecodeError>(e)
                    && match e {
                    DecodeError::NotAnElfFile => final(reader)@.pos == old(reader)@.pos + 4,
                    DecodeError::InvalidWordSize(_) => final(reader)@.pos == old(reader)@.pos + 5,
                    DecodeError::InvalidEndianness(_) => final(reader)@.pos == old(reader)@.pos + 6,
                    DecodeError::InvalidIdentifierVersion(_) => final(reader)@.pos == old(reader)@.pos + 7,
                    DecodeError::InvalidAbi(_) => final(reader)@.pos == old(reader)@.pos + 8,
                    DecodeError::InvalidObjectType(_) => final(reader)@.pos == old(reader)@.pos
                        + 18,
                    DecodeError::Truncated => old(reader)@.pos <= final(reader)@.pos && final(reader)@.pos < old(reader)@.pos + 64,
                    DecodeError::EndiannessNotResolved => false,
                },
            },
            (r matches Err(e) && (e is NotAnElfFile || e is InvalidWordSize
                || e is InvalidEndianness)) ==> final(reader)@.endianness == old(reader)@.endianness,
    {
        let ghost rest = old(reader).remaining();
        let ghost pos0 = old(reader)@.pos as int;
        proof {
            assert(forall|i: int|
                0 <= i < rest.len() ==> rest[i] == old(reader)@.data[pos0 + i]);
        }

        let magic_bytes = reader.bytes_dynamic(4)?;
        if !(magic_bytes[0] == 0x7F && magic_bytes[1] == 0x45 && magic_bytes[2] == 0x4C
            && magic_bytes[3] == 0x46) {
            return Err(DecodeError::NotAnElfFile);
        }

        let word_size = WordSize::from_byte(reader.byte()?)?;
        let endianness = Endianness::from_byte(reader.byte()?)?;

        // Every later multi-byte read depends on the byte order just decoded.
        reader.set_endianness(endianness);

        let ident_version = reader.byte()?;
        if ident_version != 1 {
            return Err(DecodeError::InvalidIdentifierVersion(ident_version));
        }

        let abi = Abi::from_byte(reader.byte()?)?;
        let abi_version = reader.byte()?;

        // The format reserves seven bytes of padding at the end of the
        // identification record; their contents are never validated.
        let _ = reader.bytes_dynamic(7)?;

        let type_ = Type::from_code(reader.u16()?)?;
        let machine = reader.u16()?;
        let version = reader.u32()?;

        // The only branch point of the whole decode: the three addresses are
        // read with the width the word size dictates.
        let (entry_point, program_header_address, section_header_address) = match word_size {
            WordSize::Bits32 => (
                Address::Bits32(reader.u32()?),
                Address::Bits32(reader.u32()?),
                Address::Bits32(reader.u32()?),
            ),
            WordSize::Bits64 => (
                Address::Bits64(reader.u64()?),
                Address::Bits64(reader.u64()?),
                Address::Bits64(reader.u64()?),
            ),
        };

        let flags = reader.u32()?;
        let header_size = reader.u16()?;
        let program_header_entry_size = reader.u16()?;
        let program_header_entry_count = reader.u16()?;
        let section_header_entry_size = reader.u16()?;
        let section_header_entry_count = reader.u16()?;
        let section_header_name_entry_idx = reader.u16()?;

        Ok(
            Header {
                word_size,
                endianness,
                abi,
                abi_version,
                type_,
                machine,
                version,
                entry_point,
                program_header_address,
                section_header_address,
                flags,
                header_size,
                program_header_entry_size,
                program_header_entry_count,
                section_header_entry_size,
                section_header_entry_count,
                section_header_name_entry_idx,
            },
        )
    }
}

/// Decoding succeeds exactly on the byte sequences that satisfy every fixed
/// invariant of the format, and then yields the header assembled from those
/// bytes under the word size and endianness the sequence itself names.
pub proof fn lemma_read_ok_iff(s: Seq<u8>)
    ensures
        spec_read(s) is Ok <==> valid_header_bytes(s),
        valid_header_bytes(s) ==> spec_read(s) == Ok::<Header, DecodeError>(
            spec_fields(s, word_size_of(s[4]), endianness_of(s[5])),
        ),
{
}

/// Any input of at least four bytes whose prefix is not the ELF magic
/// sequence is rejected as not an ELF file, whatever the later bytes hold.
pub proof fn lemma_bad_magic(s: Seq<u8>)
    requires
        s.len() >= 4,
        !magic_ok(s),
    ensures
        spec_read(s) == Err::<Header, DecodeError>(DecodeError::NotAnElfFile),
{
}

/// With the magic sequence in place, a word-size byte of 1 or 2 never fails
/// the word-size check, and any other value fails identifying exactly that
/// offending byte.
pub proof fn lemma_word_size_gate(s: Seq<u8>)
    requires
        s.len() >= 5,
        magic_ok(s),
    ensures
        !word_size_valid(s[4]) ==> spec_read(s) == Err::<Header, DecodeError>(
            DecodeError::InvalidWordSize(s[4]),
        ),
        word_size_valid(s[4]) ==> !(spec_read(s) matches Err(DecodeError::InvalidWordSize(_))),
        spec_read(s) matches Ok(h) ==> h.word_size == word_size_of(s[4]),
{
}

/// With magic and word size in place, an endianness byte of 1 or 2 never
/// fails the endianness check, and a successful decode carries exactly the
/// byte order that byte names; any other value fails identifying that byte.
pub proof fn lemma_endianness_gate(s: Seq<u8>)
    requires
        s.len() >= 6,
        magic_ok(s),
        word_size_valid(s[4]),
    ensures
        !endianness_valid(s[5]) ==> spec_read(s) == Err::<Header, DecodeError>(
            DecodeError::InvalidEndianness(s[5]),
        ),
        endianness_valid(s[5]) ==> !(spec_read(s) matches Err(DecodeError::InvalidEndianness(_))),
        spec_read(s) matches Ok(h) ==> h.endianness == endianness_of(s[5]),
{
}

/// An identifier-version byte other than 1 fails the decode at that field,
/// regardless of what every later byte holds: nothing past index 6 is
/// assumed here.
pub proof fn lemma_identifier_version_gate(s: Seq<u8>)
    requires
        s.len() >= 7,
        magic_ok(s),
        word_size_valid(s[4]),
        endianness_valid(s[5]),
        s[6] != 1,
    ensures
        spec_read(s) == Err::<Header, DecodeError>(DecodeError::InvalidIdentifierVersion(s[6])),
{
}

/// With the identification prefix valid so far, each documented ABI byte
/// decodes to exactly its tag, and every other byte — the 0x05 gap and
/// everything above 0x12 — fails identifying that byte.
pub proof fn lemma_abi_gate(s: Seq<u8>)
    requires
        s.len() >= 8,
        magic_ok(s),
        word_size_valid(s[4]),
        endianness_valid(s[5]),
        s[6] == 1,
    ensures
        !abi_valid(s[7]) ==> spec_read(s) == Err::<Header, DecodeError>(
            DecodeError::InvalidAbi(s[7]),
        ),
        abi_valid(s[7]) ==> !(spec_read(s) matches Err(DecodeError::InvalidAbi(_))),
        spec_read(s) matches Ok(h) ==> h.abi == abi_of(s[7]),
{
}

/// With the whole identification record valid, an object-type code of 0
/// through 4 decodes to its named type, each of the four reserved codes is
/// kept verbatim in the other/reserved variant, and every remaining code
/// fails identifying that exact value.
pub proof fn lemma_object_type_gate(s: Seq<u8>)
    requires
        s.len() >= 18,
        magic_ok(s),
        word_size_valid(s[4]),
        endianness_valid(s[5]),
        s[6] == 1,
        abi_valid(s[7]),
    ensures
        !object_type_valid(word16(s[16], s[17], endianness_of(s[5]))) ==> spec_read(s)
            == Err::<Header, DecodeError>(
            DecodeError::InvalidObjectType(word16(s[16], s[17], endianness_of(s[5]))),
        ),
        object_type_valid(word16(s[16], s[17], endianness_of(s[5]))) ==> !(spec_read(
            s,
        ) matches Err(DecodeError::InvalidObjectType(_))),
        spec_read(s) matches Ok(h) ==> h.type_ == object_type_of(
            word16(s[16], s[17], endianness_of(s[5])),
        ),
{
}

/// A successful decode determines every field of the record from the input
/// bytes alone, every multi-byte field interpreted in the byte order the
/// endianness byte names, and the three addresses read with the width the
/// word-size byte names. The record is well formed, so encoding it again is
/// meaningful.
pub proof fn lemma_decoded_fields(s: Seq<u8>, h: Header)
    requires
        spec_read(s) == Ok::<Header, DecodeError>(h),
    ensures
        valid_header_bytes(s),
        h == spec_fields(s, word_size_of(s[4]), endianness_of(s[5])),
        header_wf(h),
{
}

/// The width tag of each of the three decoded addresses always matches the
/// record's word size: no address is ever 32-bit while the word size is
/// 64-bit, nor the other way round.
pub proof fn lemma_address_width_matches(s: Seq<u8>, h: Header)
    requires
        spec_read(s) == Ok::<Header, DecodeError>(h),
    ensures
        h.word_size is Bits32 <==> h.entry_point is Bits32,
        h.word_size is Bits32 <==> h.program_header_address is Bits32,
        h.word_size is Bits32 <==> h.section_header_address is Bits32,
        h.word_size is Bits64 <==> h.entry_point is Bits64,
        h.word_size is Bits64 <==> h.program_header_address is Bits64,
        h.word_size is Bits64 <==> h.section_header_address is Bits64,
{
}

/// The byte that encodes a word size.
pub open spec fn word_size_byte(ws: WordSize) -> u8 {
    match ws {
        WordSize::Bits32 => 1,
        WordSize::Bits64 => 2,
    }
}

/// The byte that encodes an endianness.
pub open spec fn endianness_byte(e: Endianness) -> u8 {
    match e {
        Endianness::Little => 1,
        Endianness::Big => 2,
    }
}

/// The byte that encodes an ABI tag.
pub open spec fn abi_byte(a: Abi) -> u8 {
    match a {
        Abi::SystemV => 0x00,
        Abi::HPUX => 0x01,
        Abi::NetBSD => 0x02,
        Abi::Linux => 0x03,
        Abi::GNUHurd => 0x04,
        Abi::Solaris => 0x06,
        Abi::AIX => 0x07,
        Abi::IRIX => 0x08,
        Abi::FreeBSD => 0x09,
        Abi::Tru64 => 0x0A,
        Abi::NovellModesto => 0x0B,
        Abi::OpenBSD => 0x0C,
        Abi::OpenVMS => 0x0D,
        Abi::NonStopKernel => 0x0E,
        Abi::AROS => 0x0F,
        Abi::FenixOS => 0x10,
        Abi::NuxiCloudABI => 0x11,
        Abi::OpenVOS => 0x12,
    }
}

/// The raw code that encodes an object type.
pub open spec fn object_type_code(t: Type) -> u16 {
    match t {
        Type::Unknown => 0x00,
        Type::Relocatable => 0x01,
        Type::Executable => 0x02,
        Type::SharedObject => 0x03,
        Type::Core => 0x04,
        Type::Other(v) => v,
    }
}

/// Byte `k` of the two-byte encoding of `v` in the given byte order.
pub open spec fn byte16(v: u16, k: int, e: Endianness) -> u8
    recommends
        0 <= k < 2,
{
    let j = match e {
        Endianness::Little => k,
        Endianness::Big => 1 - k,
    };
    if j == 0 {
        v as u8
    } else {
        (v >> 8) as u8
    }
}

/// Byte `k` of the four-byte encoding of `v` in the given byte order.
pub open spec fn byte32(v: u32, k: int, e: Endianness) -> u8
    recommends
        0 <= k < 4,
{
    let j = match e {
        Endianness::Little => k,
        Endianness::Big => 3 - k,
    };
    if j == 0 {
        v as u8
    } else if j == 1 {
        (v >> 8) as u8
    } else if j == 2 {
        (v >> 16) as u8
    } else {
        (v >> 24) as u8
    }
}

/// Byte `k` of the eight-byte encoding of `v` in the given byte order.
pub open spec fn byte64(v: u64, k: int, e: Endianness) -> u8
    recommends
        0 <= k < 8,
{
    let j = match e {
        Endianness::Little => k,
        Endianness::Big => 7 - k,
    };
    if j == 0 {
        v as u8
    } else if j == 1 {
        (v >> 8) as u8
    } else if j == 2 {
        (v >> 16) as u8
    } else if j == 3 {
        (v >> 24) as u8
    } else if j == 4 {
        (v >> 32) as u8
    } else if j == 5 {
        (v >> 40) as u8
    } else if j == 6 {
        (v >> 48) as u8
    } else {
        (v >> 56) as u8
    }
}

/// Byte `k` of the encoding of an address, at the width its tag names.
pub open spec fn address_byte(a: Address, k: int, e: Endianness) -> u8 {
    match a {
        Address::Bits32(v) => byte32(v, k, e),
        Address::Bits64(v) => byte64(v, k, e),
    }
}

/// A record as a decode could have produced it: each address carries the
/// width of the record's word size, and an other/reserved object type
/// carries one of the four reserved codes.
pub open spec fn header_wf(h: Header) -> bool {
    &&& (h.entry_point is Bits32 <==> h.word_size is Bits32)
    &&& (h.program_header_address is Bits32 <==> h.word_size is Bits32)
    &&& (h.section_header_address is Bits32 <==> h.word_size is Bits32)
    &&& (h.type_ matches Type::Other(v) ==> v == 0xFE00 || v == 0xFEFF || v == 0xFF00 || v
        == 0xFFFF)
}

/// Byte `i` of the canonical encoding of a header.
pub open spec fn encoded_byte(h: Header, i: int) -> u8
    recommends
        0 <= i < header_len(h.word_size),
{
    let e = h.endianness;
    let w = addr_width(h.word_size);
    if i == 0 {
        0x7F
    } else if i == 1 {
        0x45
    } else if i == 2 {
        0x4C
    } else if i == 3 {
        0x46
    } else if i == 4 {
        word_size_byte(h.word_size)
    } else if i == 5 {
        endianness_byte(h.endianness)
    } else if i == 6 {
        1
    } else if i == 7 {
        abi_byte(h.abi)
    } else if i == 8 {
        h.abi_version
    } else if i < 16 {
        0
    } else if i < 18 {
        byte16(object_type_code(h.type_), i - 16, e)
    } else if i < 20 {
        byte16(h.machine, i - 18, e)
    } else if i < 24 {
        byte32(h.version, i - 20, e)
    } else if i < 24 + w {
        address_byte(h.entry_point, i - 24, e)
    } else if i < 24 + 2 * w {
        address_byte(h.program_header_address, i - 24 - w, e)
    } else if i < 24 + 3 * w {
        address_byte(h.section_header_address, i - 24 - 2 * w, e)
    } else if i < 28 + 3 * w {
        byte32(h.flags, i - 24 - 3 * w, e)
    } else if i < 30 + 3 * w {
        byte16(h.header_size, i - 28 - 3 * w, e)
    } else if i < 32 + 3 * w {
        byte16(h.program_header_entry_size, i - 30 - 3 * w, e)
    } else if i < 34 + 3 * w {
        byte16(h.program_header_entry_count, i - 32 - 3 * w, e)
    } else if i < 36 + 3 * w {
        byte16(h.section_header_entry_size, i - 34 - 3 * w, e)
    } else if i < 38 + 3 * w {
        byte16(h.section_header_entry_count, i - 36 - 3 * w, e)
    } else {
        byte16(h.section_header_name_entry_idx, i - 38 - 3 * w, e)
    }
}

/// The canonical encoding of a header: the one byte sequence of exactly the
/// header's length whose decode yields the header back, with identifier
/// version 1 and zeroed padding.
pub open spec fn spec_encode(h: Header) -> Seq<u8> {
    Seq::new(header_len(h.word_size) as nat, |i: int| encoded_byte(h, i))
}

/// Splitting a 16-bit value into two bytes and recombining them in the same
/// byte order gives the value back.
proof fn lemma_word16_roundtrip(v: u16, e: Endianness)
    ensures
        word16(byte16(v, 0, e), byte16(v, 1, e), e) == v,
{
    assert((((v as u8) + 0x100 * ((v >> 8) as u8)) as u16) == v) by (bit_vector);
}

/// Splitting a 32-bit value into four bytes and recombining them in the same
/// byte order gives the value back.
proof fn lemma_word32_roundtrip(v: u32, e: Endianness)
    ensures
        word32(byte32(v, 0, e), byte32(v, 1, e), byte32(v, 2, e), byte32(v, 3, e), e) == v,
{
    assert((((v as u8) + 0x100 * ((v >> 8) as u8) + 0x1_0000 * ((v >> 16) as u8) + 0x100_0000 * ((v
        >> 24) as u8)) as u32) == v) by (bit_vector);
}

/// Splitting a 64-bit value into eight bytes and recombining them in the same
/// byte order gives the value back.
proof fn lemma_word64_roundtrip(v: u64, e: Endianness)
    ensures
        word64(
            byte64(v, 0, e),
            byte64(v, 1, e),
            byte64(v, 2, e),
            byte64(v, 3, e),
            byte64(v, 4, e),
            byte64(v, 5, e),
            byte64(v, 6, e),
            byte64(v, 7, e),
            e,
        ) == v,
{
    assert((((v as u8) + 0x100 * ((v >> 8) as u8) + 0x1_0000 * ((v >> 16) as u8) + 0x100_0000 * ((
    v >> 24) as u8) + 0x1_0000_0000 * ((v >> 32) as u8) + 0x100_0000_0000 * ((v >> 40) as u8)
        + 0x1_0000_0000_0000 * ((v >> 48) as u8) + 0x100_0000_0000_0000 * ((v >> 56) as u8)) as u64)
        == v) by (bit_vector);
}

/// Recombining an address's encoded bytes at its own width gives the address
/// back.
proof fn lemma_address_roundtrip(s: Seq<u8>, off: int, a: Address, ws: WordSize, e: Endianness)
    requires
        (a is Bits32 <==> ws is Bits32),
        0 <= off,
        off + addr_width(ws) <= s.len(),
        forall|k: int| 0 <= k < addr_width(ws) ==> #[trigger] s[off + k] == address_byte(a, k, e),
    ensures
        spec_address(s, off, ws, e) == a,
{
    match a {
        Address::Bits32(v) => {
            assert(forall|k: int| 0 <= k < 4 ==> s[off + k] == byte32(v, k, e));
            assert(s[off] == byte32(v, 0, e));
            lemma_word32_roundtrip(v, e);
        },
        Address::Bits64(v) => {
            assert(forall|k: int| 0 <= k < 8 ==> s[off + k] == byte64(v, k, e));
            assert(s[off] == byte64(v, 0, e));
            lemma_word64_roundtrip(v, e);
        },
    }
}

/// Round trip: decoding the canonical encoding of any well-formed header
/// reproduces the header exactly — every field, under either endianness and
/// either word size.
pub proof fn lemma_encode_decode_roundtrip(h: Header)
    requires
        header_wf(h),
    ensures
        spec_read(spec_encode(h)) == Ok::<Header, DecodeError>(h),
{
    let s = spec_encode(h);
    let e = h.endianness;
    let w = addr_width(h.word_size);
    assert(s.len() == header_len(h.word_size));
    assert(endianness_of(s[5]) == e);
    assert(word_size_of(s[4]) == h.word_size);
    lemma_word16_roundtrip(object_type_code(h.type_), e);
    assert(word16(s[16], s[17], e) == object_type_code(h.type_));
    assert(object_type_of(object_type_code(h.type_)) == h.type_);
    lemma_word16_roundtrip(h.machine, e);
    assert(word16(s[18], s[19], e) == h.machine);
    lemma_word32_roundtrip(h.version, e);
    assert(word32(s[20], s[21], s[22], s[23], e) == h.version);
    assert(forall|k: int| 0 <= k < w ==> s[24 + k] == address_byte(h.entry_point, k, e));
    lemma_address_roundtrip(s, 24, h.entry_point, h.word_size, e);
    assert(forall|k: int|
        0 <= k < w ==> s[24 + w + k] == address_byte(h.program_header_address, k, e));
    lemma_address_roundtrip(s, 24 + w, h.program_header_address, h.word_size, e);
    assert(forall|k: int|
        0 <= k < w ==> s[24 + 2 * w + k] == address_byte(h.section_header_address, k, e));
    lemma_address_roundtrip(s, 24 + 2 * w, h.section_header_address, h.word_size, e);
    lemma_word32_roundtrip(h.flags, e);
    assert(word32(s[24 + 3 * w], s[25 + 3 * w], s[26 + 3 * w], s[27 + 3 * w], e) == h.flags);
    lemma_word16_roundtrip(h.header_size, e);
    assert(word16(s[28 + 3 * w], s[29 + 3 * w], e) == h.header_size);
    lemma_word16_roundtrip(h.program_header_entry_size, e);
    assert(word16(s[30 + 3 * w], s[31 + 3 * w], e) == h.program_header_entry_size);
    lemma_word16_roundtrip(h.program_header_entry_count, e);
    assert(word16(s[32 + 3 * w], s[33 + 3 * w], e) == h.program_header_entry_count);
    lemma_word16_roundtrip(h.section_header_entry_size, e);
    assert(word16(s[34 + 3 * w], s[35 + 3 * w], e) == h.section_header_entry_size);
    lemma_word16_roundtrip(h.section_header_entry_count, e);
    assert(word16(s[36 + 3 * w], s[37 + 3 * w], e) == h.section_header_entry_count);
    lemma_word16_roundtrip(h.section_header_name_entry_idx, e);
    assert(word16(s[38 + 3 * w], s[39 + 3 * w], e) == h.section_header_name_entry_idx);
    assert(spec_fields(s, h.word_size, e) == h);
}

} // verus!

