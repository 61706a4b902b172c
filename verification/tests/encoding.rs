use protozero::encoding::{decode_32, decode_64, read_varint};
use protozero::Error;
use std::ptr;

#[test]
fn read_varint_ok() {
    for (input, (expected_value, len)) in [
        (&b"\x00"[..], (0u64, 1usize)),
        (&b"\x01"[..], (1u64, 1usize)),
        (&b"\x7f"[..], (127u64, 1usize)),
        (&b"\xa2\x74"[..], (14882u64, 2usize)),
        (&b"\xbe\xf7\x92\x84\x0b"[..], (2961488830u64, 5usize)),
        (&b"\xbe\xf7\x92\x84\x1b"[..], (7256456126u64, 5usize)),
        (
            &b"\x80\xe6\xeb\x9c\xc3\xc9\xa4\x49"[..],
            (41256202580718336u64, 8usize),
        ),
        (
            &b"\x9b\xa8\xf9\xc2\xbb\xd6\x80\x85\xa6\x01"[..],
            (11964378330978735131u64, 10usize),
        ),
        (
            &b"\xff\xff\xff\xff\xff\xff\xff\xff\xff\x01"[..],
            (0xffffffffffffffffu64, 10usize),
        ),
    ] {
        let (buf, value) = read_varint(input).unwrap();
        assert!(ptr::eq(buf, &input[len..]));
        assert_eq!(value, expected_value);
    }
}

#[test]
fn read_varint_invalid() {
    assert_eq!(read_varint(&b""[..]), Err(Error));
    assert_eq!(read_varint(&b"\xf0\xab"[..]), Err(Error));
    assert_eq!(read_varint(&b"\xf0\xab\xc9\x9a\xf8\xb2"[..]), Err(Error));
}

#[test]
fn read_varint_overflow() {
    assert_eq!(
        read_varint(&b"\xff\xff\xff\xff\xff\xff\xff\xff\xff\x02"[..]),
        Err(Error)
    );
}

#[test]
fn read_varint_too_many_bytes() {
    assert_eq!(
        read_varint(&b"\xff\xff\xff\xff\xff\xff\xff\xff\xff\x80\x00"[..]),
        Err(Error)
    );
}

#[test]
fn zigzag_decode_32() {
    assert_eq!(decode_32(0), 0);
    assert_eq!(decode_32(1), -1);
    assert_eq!(decode_32(2), 1);
    assert_eq!(decode_32(3), -2);
    assert_eq!(decode_32(0x7FFFFFFE), 0x3FFFFFFF_u32 as i32);
    assert_eq!(decode_32(0x7FFFFFFF), 0xC0000000_u32 as i32);
    assert_eq!(decode_32(0xFFFFFFFE), 0x7FFFFFFF_u32 as i32);
    assert_eq!(decode_32(0xFFFFFFFF), 0x80000000_u32 as i32);
}

#[test]
fn zigzag_decode_64() {
    assert_eq!(decode_64(0), 0);
    assert_eq!(decode_64(1), -1);
    assert_eq!(decode_64(2), 1);
    assert_eq!(decode_64(3), -2);
    assert_eq!(
        decode_64(0x000000007FFFFFFE),
        0x000000003FFFFFFF_u64 as i64
    );
    assert_eq!(
        decode_64(0x000000007FFFFFFF),
        0xFFFFFFFFC0000000_u64 as i64
    );
    assert_eq!(
        decode_64(0x00000000FFFFFFFE),
        0x000000007FFFFFFF_u64 as i64
    );
    assert_eq!(
        decode_64(0x00000000FFFFFFFF),
        0xFFFFFFFF80000000_u64 as i64
    );
    assert_eq!(
        decode_64(0xFFFFFFFFFFFFFFFE),
        0x7FFFFFFFFFFFFFFF_u64 as i64
    );
    assert_eq!(
        decode_64(0xFFFFFFFFFFFFFFFF),
        0x8000000000000000_u64 as i64
    );
}

#[test]
fn read_varint_leaves_remainder() {
    let input = &b"\xa2\x74\x05\x06"[..];
    let (rest, value) = read_varint(input).unwrap();
    assert_eq!(value, 14882);
    assert_eq!(rest, &b"\x05\x06"[..]);
}
