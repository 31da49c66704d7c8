//! Cursor behaviour: bounds, little-endian reads, terminated reads and
//! the compressed-unsigned codec.

use cli_toolkit::cursor::{encode_compressed_uint, ByteStream};
use cli_toolkit::error::Error;

#[test]
fn new_cursor_starts_at_zero() {
    let data: Vec<u8> = vec![1, 2, 3];
    let c = ByteStream::new(&data);
    assert_eq!(c.position(), 0);
    assert_eq!(c.remaining(), 3);
    assert_eq!(c.bytes(), &[1, 2, 3]);
}

#[test]
fn seek_within_and_past_end() {
    let data: Vec<u8> = vec![0; 8];
    let mut c = ByteStream::new(&data);
    assert_eq!(c.seek(8), Ok(0));
    assert_eq!(c.position(), 8);
    assert_eq!(c.seek(9), Err(Error::OffsetOutOfBounds(9)));
    assert_eq!(c.position(), 8);
    assert_eq!(c.seek(2), Ok(8));
    assert_eq!(c.position(), 2);
}

#[test]
fn skip_reports_previous_position() {
    let data: Vec<u8> = vec![0; 4];
    let mut c = ByteStream::new(&data);
    assert_eq!(c.skip(3), Ok(0));
    assert_eq!(c.skip(2), Err(Error::UnexpectedEndOfStream(4)));
    assert_eq!(c.position(), 3);
}

#[test]
fn little_endian_primitive_reads() {
    let data: Vec<u8> = vec![0x78, 0x56, 0x34, 0x12, 0xEF, 0xCD, 0xAB, 0x89, 0x67, 0x45, 0x23, 0x01];
    let mut c = ByteStream::new(&data);
    assert_eq!(c.read_u32(), Ok(0x12345678));
    assert_eq!(c.read_u16(), Ok(0xCDEF));
    assert_eq!(c.read_u8(), Ok(0xAB));
    assert_eq!(c.position(), 7);
    let mut c2 = ByteStream::new(&data);
    assert_eq!(c2.read_u64(), Ok(0x89ABCDEF12345678));
}

// Cursor bounds: a slice read succeeds exactly when it fits, returns
// exactly those bytes, and a failing read leaves the position unchanged.
#[test]
fn read_slice_in_bounds_returns_exact_bytes() {
    let data: Vec<u8> = vec![10, 11, 12, 13, 14];
    let mut c = ByteStream::new(&data);
    assert_eq!(c.seek(1), Ok(0));
    let s = c.read_slice(3).unwrap();
    assert_eq!(s, &[11, 12, 13]);
    assert_eq!(c.position(), 4);
}

#[test]
fn read_slice_past_end_fails_without_moving() {
    let data: Vec<u8> = vec![10, 11, 12, 13, 14];
    let mut c = ByteStream::new(&data);
    assert_eq!(c.seek(3), Ok(0));
    assert_eq!(c.read_slice(3), Err(Error::UnexpectedEndOfStream(5)));
    assert_eq!(c.position(), 3);
    // an exact fit still succeeds
    assert_eq!(c.read_slice(2).unwrap(), &[13, 14]);
}

#[test]
fn read_until_includes_terminator() {
    let data: Vec<u8> = vec![b'a', b'b', 0, b'c'];
    let mut c = ByteStream::new(&data);
    let s = c.read_u8_slice_until(0).unwrap();
    assert_eq!(s, &[b'a', b'b', 0]);
    assert_eq!(c.position(), 3);
}

#[test]
fn read_until_missing_terminator_fails_at_end() {
    let data: Vec<u8> = vec![1, 2, 3];
    let mut c = ByteStream::new(&data);
    assert_eq!(c.read_u8_slice_until(9), Err(Error::UnexpectedEndOfStream(3)));
    assert_eq!(c.position(), 3);
}

#[test]
fn read_null_terminated_str_decodes_utf8() {
    let data: Vec<u8> = vec![b'v', b'4', 0, 0xFF];
    let mut c = ByteStream::new(&data);
    assert_eq!(c.read_null_terminated_str(), Ok("v4"));
    assert_eq!(c.position(), 3);
}

#[test]
fn read_null_terminated_str_rejects_bad_utf8() {
    let data: Vec<u8> = vec![0xFF, 0xFE, 0, 1];
    let mut c = ByteStream::new(&data);
    assert_eq!(c.read_null_terminated_str(), Err(Error::InvalidData(0, None)));
}

// Compressed-uint round-trip over the boundary values of each width.
#[test]
fn compressed_uint_round_trip() {
    let values: Vec<u32> = vec![0, 0x7F, 0x80, 0x3FFF, 0x4000, 0x1FFFFFFF];
    for v in values {
        let enc = encode_compressed_uint(v).unwrap();
        let mut c = ByteStream::new(&enc);
        assert_eq!(c.read_compressed_uint(), Ok(v));
        assert_eq!(c.position(), enc.len());
    }
}

#[test]
fn compressed_uint_encoding_widths() {
    assert_eq!(encode_compressed_uint(0).unwrap(), vec![0x00]);
    assert_eq!(encode_compressed_uint(0x7F).unwrap(), vec![0x7F]);
    assert_eq!(encode_compressed_uint(0x80).unwrap(), vec![0x80, 0x80]);
    assert_eq!(encode_compressed_uint(0x3FFF).unwrap(), vec![0xBF, 0xFF]);
    assert_eq!(encode_compressed_uint(0x4000).unwrap(), vec![0xC0, 0x00, 0x40, 0x00]);
    assert_eq!(
        encode_compressed_uint(0x1FFFFFFF).unwrap(),
        vec![0xDF, 0xFF, 0xFF, 0xFF]
    );
    assert_eq!(encode_compressed_uint(0x20000000), None);
}

// A first byte of 0xE0..=0xFF is an invalid length prefix.
#[test]
fn compressed_uint_invalid_lead_bytes() {
    for b in 0xE0u8..=0xFFu8 {
        let data: Vec<u8> = vec![b, 0, 0, 0];
        let mut c = ByteStream::new(&data);
        assert_eq!(c.read_compressed_uint(), Err(Error::InvalidData(0, None)));
        assert_eq!(c.position(), 0);
    }
}

#[test]
fn compressed_uint_truncated_fails() {
    let data: Vec<u8> = vec![0x80];
    let mut c = ByteStream::new(&data);
    assert_eq!(c.read_compressed_uint(), Err(Error::UnexpectedEndOfStream(1)));
    let data4: Vec<u8> = vec![0xC0, 1, 2];
    let mut c4 = ByteStream::new(&data4);
    assert_eq!(c4.read_compressed_uint(), Err(Error::UnexpectedEndOfStream(3)));
}
