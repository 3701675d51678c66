use elf::header::Abi;
use elf::header::Address;
use elf::header::DecodeError;
use elf::header::Endianness;
use elf::header::Header;
use elf::header::Type;
use elf::header::WordSize;
use elf::reader::Reader;

fn decode(bytes: Vec<u8>) -> Result<Header, DecodeError> {
    let mut reader = Reader::new(bytes);
    Header::read(&mut reader)
}

fn decode_with_position(bytes: Vec<u8>) -> (Result<Header, DecodeError>, usize) {
    let mut reader = Reader::new(bytes);
    let r = Header::read(&mut reader);
    let pos = reader.position();
    (r, pos)
}

fn put16(v: &mut Vec<u8>, val: u16, little: bool) {
    if little {
        v.extend(val.to_le_bytes());
    } else {
        v.extend(val.to_be_bytes());
    }
}

fn put32(v: &mut Vec<u8>, val: u32, little: bool) {
    if little {
        v.extend(val.to_le_bytes());
    } else {
        v.extend(val.to_be_bytes());
    }
}

fn put64(v: &mut Vec<u8>, val: u64, little: bool) {
    if little {
        v.extend(val.to_le_bytes());
    } else {
        v.extend(val.to_be_bytes());
    }
}

struct Synthetic {
    class: u8,
    data: u8,
    ident_version: u8,
    abi: u8,
    abi_version: u8,
    type_code: u16,
    machine: u16,
    version: u32,
    entry: u64,
    ph_address: u64,
    sh_address: u64,
    flags: u32,
    header_size: u16,
    ph_entry_size: u16,
    ph_entry_count: u16,
    sh_entry_size: u16,
    sh_entry_count: u16,
    sh_name_idx: u16,
}

impl Synthetic {
    fn valid_64_little() -> Synthetic {
        Synthetic {
            class: 2,
            data: 1,
            ident_version: 1,
            abi: 0x03,
            abi_version: 7,
            type_code: 2,
            machine: 0x3E,
            version: 1,
            entry: 0x1122_3344_5566_7788,
            ph_address: 0x0000_0000_0000_0040,
            sh_address: 0xFFEE_DDCC_BBAA_9988,
            flags: 0xDEAD_BEEF,
            header_size: 64,
            ph_entry_size: 56,
            ph_entry_count: 9,
            sh_entry_size: 64,
            sh_entry_count: 30,
            sh_name_idx: 29,
        }
    }

    fn encode(&self) -> Vec<u8> {
        let little = self.data == 1;
        let mut v = vec![0x7F, 0x45, 0x4C, 0x46];
        v.push(self.class);
        v.push(self.data);
        v.push(self.ident_version);
        v.push(self.abi);
        v.push(self.abi_version);
        v.extend([0u8; 7]);
        put16(&mut v, self.type_code, little);
        put16(&mut v, self.machine, little);
        put32(&mut v, self.version, little);
        if self.class == 1 {
            put32(&mut v, self.entry as u32, little);
            put32(&mut v, self.ph_address as u32, little);
            put32(&mut v, self.sh_address as u32, little);
        } else {
            put64(&mut v, self.entry, little);
            put64(&mut v, self.ph_address, little);
            put64(&mut v, self.sh_address, little);
        }
        put32(&mut v, self.flags, little);
        put16(&mut v, self.header_size, little);
        put16(&mut v, self.ph_entry_size, little);
        put16(&mut v, self.ph_entry_count, little);
        put16(&mut v, self.sh_entry_size, little);
        put16(&mut v, self.sh_entry_count, little);
        put16(&mut v, self.sh_name_idx, little);
        v
    }
}

#[test]
fn wrong_magic_is_not_an_elf_file() {
    let mut bytes = Synthetic::valid_64_little().encode();
    bytes[0] = 0x7E;
    let (r, pos) = decode_with_position(bytes);
    assert_eq!(r, Err(DecodeError::NotAnElfFile));
    assert_eq!(pos, 4);

    let mut bytes = Synthetic::valid_64_little().encode();
    bytes[3] = 0x47;
    let (r, pos) = decode_with_position(bytes);
    assert_eq!(r, Err(DecodeError::NotAnElfFile));
    assert_eq!(pos, 4);

    let (r, pos) = decode_with_position(vec![0x00, 0x00, 0x00, 0x00]);
    assert_eq!(r, Err(DecodeError::NotAnElfFile));
    assert_eq!(pos, 4);
}

#[test]
fn three_byte_stream_is_truncated() {
    let (r, pos) = decode_with_position(vec![0x7F, 0x45, 0x4C]);
    assert_eq!(r, Err(DecodeError::Truncated));
    assert_eq!(pos, 0);
}

#[test]
fn empty_stream_is_truncated() {
    let (r, pos) = decode_with_position(Vec::new());
    assert_eq!(r, Err(DecodeError::Truncated));
    assert_eq!(pos, 0);
}

#[test]
fn word_size_three_fails_before_endianness() {
    let (r, pos) = decode_with_position(vec![0x7F, 0x45, 0x4C, 0x46, 3, 1, 1, 0]);
    assert_eq!(r, Err(DecodeError::InvalidWordSize(3)));
    // The word-size byte itself was consumed; the endianness byte was not.
    assert_eq!(pos, 5);
}

#[test]
fn word_size_other_values_fail_with_that_value() {
    for bad in [0u8, 4, 0x20, 0xFF] {
        let mut s = Synthetic::valid_64_little();
        s.class = bad;
        assert_eq!(decode(s.encode()), Err(DecodeError::InvalidWordSize(bad)));
    }
}

#[test]
fn word_sizes_one_and_two_proceed() {
    let mut s = Synthetic::valid_64_little();
    s.class = 1;
    let h = decode(s.encode()).unwrap();
    assert_eq!(h.word_size, WordSize::Bits32);

    let mut s = Synthetic::valid_64_little();
    s.class = 2;
    let h = decode(s.encode()).unwrap();
    assert_eq!(h.word_size, WordSize::Bits64);
}

#[test]
fn endianness_invalid_fails_before_multi_byte_fields() {
    for bad in [0u8, 3, 0xFF] {
        let mut bytes = Synthetic::valid_64_little().encode();
        bytes[5] = bad;
        let (r, pos) = decode_with_position(bytes);
        assert_eq!(r, Err(DecodeError::InvalidEndianness(bad)));
        // Failure comes right after the endianness byte, before any
        // multi-byte field is read.
        assert_eq!(pos, 6);
    }
}

#[test]
fn multi_byte_fields_follow_the_endianness_byte() {
    // The same stream bytes for the machine field mean different values
    // under the two byte orders.
    let mut little = Synthetic::valid_64_little();
    little.machine = 0x3412;
    let bytes_little = little.encode();
    assert_eq!(bytes_little[18], 0x12);
    assert_eq!(bytes_little[19], 0x34);
    let h = decode(bytes_little).unwrap();
    assert_eq!(h.endianness, Endianness::Little);
    assert_eq!(h.machine, 0x3412);

    let mut big = Synthetic::valid_64_little();
    big.data = 2;
    big.machine = 0x1234;
    let bytes_big = big.encode();
    assert_eq!(bytes_big[18], 0x12);
    assert_eq!(bytes_big[19], 0x34);
    let h = decode(bytes_big).unwrap();
    assert_eq!(h.endianness, Endianness::Big);
    assert_eq!(h.machine, 0x1234);
}

#[test]
fn identifier_version_other_than_one_fails() {
    for bad in [0u8, 2, 0xFF] {
        let mut s = Synthetic::valid_64_little();
        s.ident_version = bad;
        let (r, pos) = decode_with_position(s.encode());
        assert_eq!(r, Err(DecodeError::InvalidIdentifierVersion(bad)));
        assert_eq!(pos, 7);
    }
}

#[test]
fn identifier_version_fails_even_with_garbage_after_it() {
    let bytes = vec![0x7F, 0x45, 0x4C, 0x46, 2, 1, 9];
    let r = decode(bytes);
    assert_eq!(r, Err(DecodeError::InvalidIdentifierVersion(9)));
}

#[test]
fn each_documented_abi_decodes_to_its_tag() {
    let cases: [(u8, Abi); 18] = [
        (0x00, Abi::SystemV),
        (0x01, Abi::HPUX),
        (0x02, Abi::NetBSD),
        (0x03, Abi::Linux),
        (0x04, Abi::GNUHurd),
        (0x06, Abi::Solaris),
        (0x07, Abi::AIX),
        (0x08, Abi::IRIX),
        (0x09, Abi::FreeBSD),
        (0x0A, Abi::Tru64),
        (0x0B, Abi::NovellModesto),
        (0x0C, Abi::OpenBSD),
        (0x0D, Abi::OpenVMS),
        (0x0E, Abi::NonStopKernel),
        (0x0F, Abi::AROS),
        (0x10, Abi::FenixOS),
        (0x11, Abi::NuxiCloudABI),
        (0x12, Abi::OpenVOS),
    ];
    for (byte, expected) in cases {
        let mut s = Synthetic::valid_64_little();
        s.abi = byte;
        let h = decode(s.encode()).unwrap();
        assert_eq!(h.abi, expected);
    }
}

#[test]
fn abi_gap_and_values_above_the_range_fail() {
    for bad in [0x05u8, 0x13, 0x80, 0xFF] {
        let mut s = Synthetic::valid_64_little();
        s.abi = bad;
        let (r, pos) = decode_with_position(s.encode());
        assert_eq!(r, Err(DecodeError::InvalidAbi(bad)));
        assert_eq!(pos, 8);
    }
}

#[test]
fn abi_version_is_stored_verbatim() {
    let mut s = Synthetic::valid_64_little();
    s.abi_version = 0xAB;
    let h = decode(s.encode()).unwrap();
    assert_eq!(h.abi_version, 0xAB);
}

#[test]
fn padding_contents_are_ignored() {
    let mut bytes = Synthetic::valid_64_little().encode();
    for i in 9..16 {
        bytes[i] = 0xEE;
    }
    let expected = decode(Synthetic::valid_64_little().encode()).unwrap();
    assert_eq!(decode(bytes).unwrap(), expected);
}

#[test]
fn known_object_types_decode_to_their_variant() {
    let cases: [(u16, Type); 5] = [
        (0, Type::Unknown),
        (1, Type::Relocatable),
        (2, Type::Executable),
        (3, Type::SharedObject),
        (4, Type::Core),
    ];
    for (code, expected) in cases {
        let mut s = Synthetic::valid_64_little();
        s.type_code = code;
        let h = decode(s.encode()).unwrap();
        assert_eq!(h.type_, expected);
    }
}

#[test]
fn reserved_object_type_codes_keep_their_value() {
    for code in [0xFE00u16, 0xFEFF, 0xFF00, 0xFFFF] {
        let mut s = Synthetic::valid_64_little();
        s.type_code = code;
        let h = decode(s.encode()).unwrap();
        assert_eq!(h.type_, Type::Other(code));
    }
}

#[test]
fn other_object_type_codes_fail_with_that_value() {
    for bad in [5u16, 0x0100, 0x1234, 0xFDFF, 0xFE01, 0xFF01] {
        let mut s = Synthetic::valid_64_little();
        s.type_code = bad;
        let (r, pos) = decode_with_position(s.encode());
        assert_eq!(r, Err(DecodeError::InvalidObjectType(bad)));
        assert_eq!(pos, 18);
    }
}

fn check_all_fields(s: &Synthetic, h: &Header) {
    assert_eq!(h.abi_version, s.abi_version);
    assert_eq!(h.machine, s.machine);
    assert_eq!(h.version, s.version);
    if s.class == 1 {
        assert_eq!(h.word_size, WordSize::Bits32);
        assert_eq!(h.entry_point, Address::Bits32(s.entry as u32));
        assert_eq!(h.program_header_address, Address::Bits32(s.ph_address as u32));
        assert_eq!(h.section_header_address, Address::Bits32(s.sh_address as u32));
    } else {
        assert_eq!(h.word_size, WordSize::Bits64);
        assert_eq!(h.entry_point, Address::Bits64(s.entry));
        assert_eq!(h.program_header_address, Address::Bits64(s.ph_address));
        assert_eq!(h.section_header_address, Address::Bits64(s.sh_address));
    }
    assert_eq!(h.flags, s.flags);
    assert_eq!(h.header_size, s.header_size);
    assert_eq!(h.program_header_entry_size, s.ph_entry_size);
    assert_eq!(h.program_header_entry_count, s.ph_entry_count);
    assert_eq!(h.section_header_entry_size, s.sh_entry_size);
    assert_eq!(h.section_header_entry_count, s.sh_entry_count);
    assert_eq!(h.section_header_name_entry_idx, s.sh_name_idx);
}

#[test]
fn round_trip_64_little() {
    let s = Synthetic::valid_64_little();
    let (r, pos) = decode_with_position(s.encode());
    let h = r.unwrap();
    assert_eq!(h.endianness, Endianness::Little);
    check_all_fields(&s, &h);
    assert_eq!(pos, 64);
}

#[test]
fn round_trip_64_big() {
    let mut s = Synthetic::valid_64_little();
    s.data = 2;
    let (r, pos) = decode_with_position(s.encode());
    let h = r.unwrap();
    assert_eq!(h.endianness, Endianness::Big);
    check_all_fields(&s, &h);
    assert_eq!(pos, 64);
}

#[test]
fn round_trip_32_little() {
    let mut s = Synthetic::valid_64_little();
    s.class = 1;
    s.entry = 0x1122_3344;
    s.ph_address = 0x34;
    s.sh_address = 0xFFEE_DDCC;
    let (r, pos) = decode_with_position(s.encode());
    let h = r.unwrap();
    assert_eq!(h.endianness, Endianness::Little);
    check_all_fields(&s, &h);
    assert_eq!(pos, 52);
}

#[test]
fn round_trip_32_big() {
    let mut s = Synthetic::valid_64_little();
    s.class = 1;
    s.data = 2;
    s.entry = 0x1122_3344;
    s.ph_address = 0x34;
    s.sh_address = 0xFFEE_DDCC;
    let (r, pos) = decode_with_position(s.encode());
    let h = r.unwrap();
    assert_eq!(h.endianness, Endianness::Big);
    check_all_fields(&s, &h);
    assert_eq!(pos, 52);
}

#[test]
fn executable_x86_64_little_endian_scenario() {
    let mut bytes = vec![
        0x7F, 0x45, 0x4C, 0x46, 0x02, 0x01, 0x01, 0x00, 0x00, 0x00, 0x00, 0x00, 0x00, 0x00, 0x00,
        0x00, 0x02, 0x00, 0x3E, 0x00, 0x01, 0x00, 0x00, 0x00,
    ];
    // The next 24 bytes hold the three addresses as 8-byte little-endian values.
    bytes.extend(0x0000_0000_0040_1000u64.to_le_bytes());
    bytes.extend(0x0000_0000_0000_0040u64.to_le_bytes());
    bytes.extend(0x0000_0000_0001_2345u64.to_le_bytes());
    bytes.extend(0u32.to_le_bytes());
    for field in [64u16, 56, 2, 64, 5, 4] {
        bytes.extend(field.to_le_bytes());
    }
    let h = decode(bytes).unwrap();
    assert_eq!(h.word_size, WordSize::Bits64);
    assert_eq!(h.endianness, Endianness::Little);
    assert_eq!(h.abi, Abi::SystemV);
    assert_eq!(h.type_, Type::Executable);
    assert_eq!(h.machine, 0x3E);
    assert_eq!(h.version, 1);
    assert_eq!(h.entry_point, Address::Bits64(0x0000_0000_0040_1000));
    assert_eq!(h.program_header_address, Address::Bits64(0x0000_0000_0000_0040));
    assert_eq!(h.section_header_address, Address::Bits64(0x0000_0000_0001_2345));
}

#[test]
fn truncation_inside_the_header_fails() {
    let bytes = Synthetic::valid_64_little().encode();
    for cut in [5usize, 10, 17, 20, 30, 50, 63] {
        let r = decode(bytes[..cut].to_vec());
        assert_eq!(r, Err(DecodeError::Truncated), "cut at {cut}");
    }
    // A 32-bit header needs only 52 bytes.
    let mut s = Synthetic::valid_64_little();
    s.class = 1;
    s.entry = 0;
    s.ph_address = 0;
    s.sh_address = 0;
    let bytes32 = s.encode();
    assert_eq!(bytes32.len(), 52);
    assert_eq!(decode(bytes32[..51].to_vec()), Err(DecodeError::Truncated));
}

#[test]
fn trailing_bytes_are_left_unread() {
    let mut bytes = Synthetic::valid_64_little().encode();
    bytes.extend([0xAA; 100]);
    let (r, pos) = decode_with_position(bytes);
    assert!(r.is_ok());
    assert_eq!(pos, 64);
}

#[test]
fn word_size_from_byte_maps_the_closed_set() {
    assert_eq!(WordSize::from_byte(1), Ok(WordSize::Bits32));
    assert_eq!(WordSize::from_byte(2), Ok(WordSize::Bits64));
    assert_eq!(WordSize::from_byte(0), Err(DecodeError::InvalidWordSize(0)));
    assert_eq!(WordSize::from_byte(3), Err(DecodeError::InvalidWordSize(3)));
}

#[test]
fn endianness_from_byte_maps_the_closed_set() {
    assert_eq!(Endianness::from_byte(1), Ok(Endianness::Little));
    assert_eq!(Endianness::from_byte(2), Ok(Endianness::Big));
    assert_eq!(Endianness::from_byte(0), Err(DecodeError::InvalidEndianness(0)));
}

#[test]
fn abi_from_byte_rejects_the_gap() {
    assert_eq!(Abi::from_byte(0x00), Ok(Abi::SystemV));
    assert_eq!(Abi::from_byte(0x05), Err(DecodeError::InvalidAbi(0x05)));
    assert_eq!(Abi::from_byte(0x12), Ok(Abi::OpenVOS));
    assert_eq!(Abi::from_byte(0x13), Err(DecodeError::InvalidAbi(0x13)));
}

#[test]
fn type_from_code_keeps_reserved_codes() {
    assert_eq!(Type::from_code(0), Ok(Type::Unknown));
    assert_eq!(Type::from_code(4), Ok(Type::Core));
    assert_eq!(Type::from_code(0xFE00), Ok(Type::Other(0xFE00)));
    assert_eq!(Type::from_code(5), Err(DecodeError::InvalidObjectType(5)));
}
