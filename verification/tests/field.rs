use protozero::field::{FieldValue, PackedInt32, Repeated};
use protozero::message::Message;
use protozero::Error;

fn single_field(buf: &[u8]) -> protozero::field::Field<'_> {
    Message::new(buf).fields().next().unwrap().unwrap()
}

#[test]
fn repeated_value() {
    let mut iter = Repeated::<i32, PackedInt32>::Value(Some(137_i32));
    assert_eq!(iter.next(), Some(Ok(137_i32)));
    assert_eq!(iter.next(), None);
    assert_eq!(iter.next(), None);
}

#[test]
fn varint() {
    let message = Message::new(&b"\x08\x01"[..]);
    let field = message.fields().next().unwrap().unwrap();
    assert_eq!(field.number, 1);
    match field.value {
        FieldValue::Varint(v) => assert_eq!(v.get_uint64(), 1),
        _ => panic!("expected a varint value"),
    }
}

#[test]
fn varint_reinterpretations() {
    // The varint encoding of u64::MAX.
    let field = single_field(&b"\x08\xff\xff\xff\xff\xff\xff\xff\xff\xff\x01"[..]);
    assert_eq!(field.value.get_uint64(), Ok(u64::MAX));
    assert_eq!(field.value.get_uint32(), Ok(u32::MAX));
    assert_eq!(field.value.get_int64(), Ok(-1));
    assert_eq!(field.value.get_int32(), Ok(-1));
    assert_eq!(field.value.get_enum(), Ok(-1));
    assert_eq!(field.value.get_sint64(), Ok(i64::MIN));
    assert_eq!(field.value.get_sint32(), Ok(i32::MIN));
    assert_eq!(field.value.get_bool(), Ok(true));
}

#[test]
fn varint_small_values() {
    let field = single_field(&b"\x08\x00"[..]);
    assert_eq!(field.value.get_bool(), Ok(false));
    assert_eq!(field.value.get_int32(), Ok(0));
    let field = single_field(&b"\x08\x03"[..]);
    assert_eq!(field.value.get_sint32(), Ok(-2));
    assert_eq!(field.value.get_sint64(), Ok(-2));
    assert_eq!(field.value.get_uint64(), Ok(3));
}

#[test]
fn fixed64_reinterpretations() {
    let field = single_field(&b"\x09\xf0\xde\xbc\x9a\x78\x56\x34\x12"[..]);
    assert_eq!(field.value.get_fixed64(), Ok(0x123456789abcdef0));
    assert_eq!(field.value.get_sfixed64(), Ok(0x123456789abcdef0_i64));
    let field = single_field(&b"\x09\xff\xff\xff\xff\xff\xff\xff\xff"[..]);
    assert_eq!(field.value.get_fixed64(), Ok(u64::MAX));
    assert_eq!(field.value.get_sfixed64(), Ok(-1));
}

#[test]
fn fixed32_reinterpretations() {
    let field = single_field(&b"\x0d\x78\x56\x34\x12"[..]);
    assert_eq!(field.value.get_fixed32(), Ok(0x12345678));
    assert_eq!(field.value.get_sfixed32(), Ok(0x12345678_i32));
    let field = single_field(&b"\x0d\xff\xff\xff\xff"[..]);
    assert_eq!(field.value.get_fixed32(), Ok(u32::MAX));
    assert_eq!(field.value.get_sfixed32(), Ok(-1));
}

#[test]
fn accessor_wire_type_mismatch() {
    let varint_field = single_field(&b"\x08\x01"[..]);
    assert_eq!(varint_field.value.get_fixed32(), Err(Error));
    assert_eq!(varint_field.value.get_fixed64(), Err(Error));
    assert_eq!(varint_field.value.get_string(), Err(Error));
    assert!(varint_field.value.get_bytes().is_err());
    assert!(varint_field.value.get_message().is_err());
    let delimited_field = single_field(&b"\x0a\x01\x05"[..]);
    assert_eq!(delimited_field.value.get_bool(), Err(Error));
    assert_eq!(delimited_field.value.get_uint64(), Err(Error));
    assert_eq!(delimited_field.value.get_fixed64(), Err(Error));
    let fixed_field = single_field(&b"\x0d\x01\x02\x03\x04"[..]);
    assert_eq!(fixed_field.value.get_uint32(), Err(Error));
    assert_eq!(fixed_field.value.get_fixed64(), Err(Error));
    assert!(fixed_field.value.get_repeated_bool().is_err());
}

#[test]
fn packed_varints() {
    let field = single_field(&b"\x0a\x03\x01\xa2\x74"[..]);
    let value = field.value;
    let mut iter = match value {
        FieldValue::LengthDelimited(f) => f.get_packed_uint64(),
        _ => panic!("expected a length-delimited value"),
    };
    assert_eq!(iter.next(), Some(Ok(1)));
    assert_eq!(iter.next(), Some(Ok(14882)));
    assert_eq!(iter.next(), None);
}

#[test]
fn packed_varint_error_position() {
    // The second element is a continuation byte with no follow-up.
    let field = single_field(&b"\x0a\x02\x05\x80"[..]);
    let mut iter = match field.value {
        FieldValue::LengthDelimited(f) => f.get_packed_int32(),
        _ => panic!("expected a length-delimited value"),
    };
    assert_eq!(iter.next(), Some(Ok(5)));
    assert_eq!(iter.next(), Some(Err(Error)));
}

#[test]
fn packed_empty_run() {
    let field = single_field(&b"\x0a\x00"[..]);
    let mut bools = match field.value {
        FieldValue::LengthDelimited(f) => f.get_packed_bool(),
        _ => panic!("expected a length-delimited value"),
    };
    assert_eq!(bools.next(), None);
    let mut fixeds = match field.value {
        FieldValue::LengthDelimited(f) => f.get_packed_fixed64(),
        _ => panic!("expected a length-delimited value"),
    };
    assert_eq!(fixeds.next(), None);
}

#[test]
fn packed_fixed_widths() {
    let field = single_field(&b"\x0a\x08\x01\x00\x00\x00\x02\x00\x00\x00"[..]);
    let mut iter = match field.value {
        FieldValue::LengthDelimited(f) => f.get_packed_fixed32(),
        _ => panic!("expected a length-delimited value"),
    };
    assert_eq!(iter.next(), Some(Ok(1)));
    assert_eq!(iter.next(), Some(Ok(2)));
    assert_eq!(iter.next(), None);
    let field = single_field(&b"\x0a\x08\xfe\xff\xff\xff\xff\xff\xff\xff"[..]);
    let mut iter = match field.value {
        FieldValue::LengthDelimited(f) => f.get_packed_sfixed64(),
        _ => panic!("expected a length-delimited value"),
    };
    assert_eq!(iter.next(), Some(Ok(-2)));
    assert_eq!(iter.next(), None);
}

#[test]
fn packed_fixed_truncated_element() {
    // Nine bytes: one whole 8-byte element, then a one-byte remainder.
    let field = single_field(&b"\x0a\x09\x01\x00\x00\x00\x00\x00\x00\x00\x07"[..]);
    let mut iter = match field.value {
        FieldValue::LengthDelimited(f) => f.get_packed_fixed64(),
        _ => panic!("expected a length-delimited value"),
    };
    assert_eq!(iter.next(), Some(Ok(1)));
    assert_eq!(iter.next(), Some(Err(Error)));
    let field = single_field(&b"\x0a\x03\x01\x00\x00"[..]);
    let mut iter = match field.value {
        FieldValue::LengthDelimited(f) => f.get_packed_sfixed32(),
        _ => panic!("expected a length-delimited value"),
    };
    assert_eq!(iter.next(), Some(Err(Error)));
}

#[test]
fn packed_bits_iterators() {
    let field = single_field(&b"\x0a\x04\x00\x00\x80\x3f"[..]);
    let mut iter = match field.value {
        FieldValue::LengthDelimited(f) => f.get_packed_float(),
        _ => panic!("expected a length-delimited value"),
    };
    assert_eq!(iter.next_bits(), Some(Ok(0x3f800000)));
    assert_eq!(iter.next_bits(), None);
    let field = single_field(&b"\x0a\x08\x00\x00\x00\x00\x00\x00\xf0\x3f"[..]);
    let mut iter = match field.value {
        FieldValue::LengthDelimited(f) => f.get_packed_double(),
        _ => panic!("expected a length-delimited value"),
    };
    assert_eq!(iter.next_bits(), Some(Ok(0x3ff0000000000000)));
    assert_eq!(iter.next_bits(), None);
}

#[test]
fn repeated_packed_and_nonpacked_agree() {
    // The value 14882 once as a non-packed varint occurrence, once as a
    // packed run of a single element: the adapter yields the same
    // one-element sequence.
    let nonpacked = single_field(&b"\x08\xa2\x74"[..]);
    let packed = single_field(&b"\x0a\x02\xa2\x74"[..]);
    let mut a = nonpacked.value.get_repeated_uint32().unwrap();
    let mut b = packed.value.get_repeated_uint32().unwrap();
    assert_eq!(a.next(), Some(Ok(14882)));
    assert_eq!(b.next(), Some(Ok(14882)));
    assert_eq!(a.next(), None);
    assert_eq!(b.next(), None);
}

#[test]
fn repeated_sint_and_fixed_adapters() {
    let nonpacked = single_field(&b"\x08\x03"[..]);
    let packed = single_field(&b"\x0a\x01\x03"[..]);
    let mut a = nonpacked.value.get_repeated_sint32().unwrap();
    let mut b = packed.value.get_repeated_sint32().unwrap();
    assert_eq!(a.next(), Some(Ok(-2)));
    assert_eq!(b.next(), Some(Ok(-2)));
    assert_eq!(a.next(), None);
    assert_eq!(b.next(), None);
    let nonpacked = single_field(&b"\x0d\x2a\x00\x00\x00"[..]);
    let packed = single_field(&b"\x0a\x04\x2a\x00\x00\x00"[..]);
    let mut a = nonpacked.value.get_repeated_fixed32().unwrap();
    let mut b = packed.value.get_repeated_fixed32().unwrap();
    assert_eq!(a.next(), Some(Ok(42)));
    assert_eq!(b.next(), Some(Ok(42)));
    assert_eq!(a.next(), None);
    assert_eq!(b.next(), None);
    let nonpacked = single_field(&b"\x09\x2b\x00\x00\x00\x00\x00\x00\x00"[..]);
    let mut a = nonpacked.value.get_repeated_fixed64().unwrap();
    assert_eq!(a.next(), Some(Ok(43)));
    assert_eq!(a.next(), None);
    let mut b = nonpacked.value.get_repeated_sfixed64().unwrap();
    assert_eq!(b.next(), Some(Ok(43)));
    assert_eq!(b.next(), None);
}

#[test]
fn repeated_wrong_wire_type() {
    let fixed_field = single_field(&b"\x0d\x01\x02\x03\x04"[..]);
    assert!(fixed_field.value.get_repeated_uint64().is_err());
    let varint_field = single_field(&b"\x08\x01"[..]);
    assert!(varint_field.value.get_repeated_fixed32().is_err());
}
