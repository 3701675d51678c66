use elf::header::DecodeError;
use elf::header::Endianness;
use elf::reader::Reader;

#[test]
fn bytes_come_out_in_stream_order() {
    let mut r = Reader::new(vec![10, 20, 30]);
    assert_eq!(r.position(), 0);
    assert_eq!(r.byte(), Ok(10));
    assert_eq!(r.byte(), Ok(20));
    assert_eq!(r.position(), 2);
    assert_eq!(r.byte(), Ok(30));
    assert_eq!(r.byte(), Err(DecodeError::Truncated));
    assert_eq!(r.position(), 3);
}

#[test]
fn fixed_size_reads_fill_the_whole_array_or_nothing() {
    let mut r = Reader::new(vec![1, 2, 3, 4]);
    assert_eq!(r.bytes::<3>(), Ok([1, 2, 3]));
    assert_eq!(r.position(), 3);
    assert_eq!(r.bytes::<2>(), Err(DecodeError::Truncated));
    assert_eq!(r.position(), 3);
    assert_eq!(r.bytes::<1>(), Ok([4]));
    assert_eq!(r.position(), 4);
}

#[test]
fn bytes_dynamic_returns_exactly_the_requested_bytes() {
    let mut r = Reader::new(vec![1, 2, 3, 4, 5]);
    assert_eq!(r.bytes_dynamic(3), Ok(vec![1, 2, 3]));
    assert_eq!(r.position(), 3);
    assert_eq!(r.bytes_dynamic(0), Ok(Vec::new()));
    assert_eq!(r.position(), 3);
    assert_eq!(r.bytes_dynamic(2), Ok(vec![4, 5]));
    assert_eq!(r.position(), 5);
}

#[test]
fn bytes_dynamic_past_the_end_consumes_nothing() {
    let mut r = Reader::new(vec![1, 2, 3]);
    assert_eq!(r.bytes_dynamic(4), Err(DecodeError::Truncated));
    assert_eq!(r.position(), 0);
    assert_eq!(r.bytes_dynamic(3), Ok(vec![1, 2, 3]));
}

#[test]
fn multi_byte_reads_need_a_resolved_endianness() {
    let mut r = Reader::new(vec![1, 2, 3, 4, 5, 6, 7, 8]);
    assert_eq!(r.u16(), Err(DecodeError::EndiannessNotResolved));
    assert_eq!(r.u32(), Err(DecodeError::EndiannessNotResolved));
    assert_eq!(r.u64(), Err(DecodeError::EndiannessNotResolved));
    assert_eq!(r.position(), 0);
}

#[test]
fn little_endian_reads_put_the_first_byte_lowest() {
    let mut r = Reader::new(vec![0x01, 0x02, 0x01, 0x02, 0x03, 0x04, 0x01, 0x02, 0x03, 0x04, 0x05,
        0x06, 0x07, 0x08]);
    r.set_endianness(Endianness::Little);
    assert_eq!(r.u16(), Ok(0x0201));
    assert_eq!(r.u32(), Ok(0x04030201));
    assert_eq!(r.u64(), Ok(0x0807060504030201));
    assert_eq!(r.position(), 14);
}

#[test]
fn big_endian_reads_put_the_first_byte_highest() {
    let mut r = Reader::new(vec![0x01, 0x02, 0x01, 0x02, 0x03, 0x04, 0x01, 0x02, 0x03, 0x04, 0x05,
        0x06, 0x07, 0x08]);
    r.set_endianness(Endianness::Big);
    assert_eq!(r.u16(), Ok(0x0102));
    assert_eq!(r.u32(), Ok(0x01020304));
    assert_eq!(r.u64(), Ok(0x0102030405060708));
}

#[test]
fn truncated_numeric_reads_consume_nothing() {
    let mut r = Reader::new(vec![0xAA]);
    r.set_endianness(Endianness::Little);
    assert_eq!(r.u16(), Err(DecodeError::Truncated));
    assert_eq!(r.u32(), Err(DecodeError::Truncated));
    assert_eq!(r.u64(), Err(DecodeError::Truncated));
    assert_eq!(r.position(), 0);
    assert_eq!(r.byte(), Ok(0xAA));
}
