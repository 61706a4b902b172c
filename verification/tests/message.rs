use protozero::field::FieldValue;
use protozero::message::Message;
use protozero::Error;

#[test]
fn empty_message() {
    let message = Message::new(&b""[..]);
    let mut fields = message.fields();
    assert!(fields.next().is_none());
    assert_eq!(fields.try_next().map(|f| f.is_none()), Ok(true));
}

#[test]
fn two_varint_fields() {
    // Field 1, varint, value 1; field 2, varint, value 2.
    let message = Message::new(&b"\x08\x01\x10\x02"[..]);
    let mut fields = message.fields();
    let first = fields.next().unwrap().unwrap();
    assert_eq!(first.number, 1);
    match first.value {
        FieldValue::Varint(v) => assert_eq!(v.get_uint64(), 1),
        _ => panic!("expected a varint value"),
    }
    let second = fields.next().unwrap().unwrap();
    assert_eq!(second.number, 2);
    match second.value {
        FieldValue::Varint(v) => assert_eq!(v.get_uint64(), 2),
        _ => panic!("expected a varint value"),
    }
    assert!(fields.next().is_none());
}

#[test]
fn field_number_zero_rejected() {
    let message = Message::new(&b"\x00\x01"[..]);
    assert_eq!(
        message.fields().next().map(|r| r.map(|_| ())),
        Some(Err(Error))
    );
}

#[test]
fn wire_types_six_and_seven_fail() {
    for input in [&b"\x0e"[..], &b"\x0f"[..], &b"\x0e\x01\x02"[..], &b"\x0f\x01\x02"[..]] {
        let message = Message::new(input);
        assert!(matches!(message.fields().next(), Some(Err(Error))));
    }
}

#[test]
fn wire_types_zero_to_five_dispatch() {
    let field = Message::new(&b"\x08\x05"[..]).fields().next().unwrap().unwrap();
    assert!(matches!(field.value, FieldValue::Varint(_)));
    let field = Message::new(&b"\x09\x01\x02\x03\x04\x05\x06\x07\x08"[..])
        .fields()
        .next()
        .unwrap()
        .unwrap();
    assert!(matches!(field.value, FieldValue::Fixed64(_)));
    assert_eq!(field.value.get_fixed64(), Ok(0x0807060504030201));
    let field = Message::new(&b"\x0a\x03abc"[..]).fields().next().unwrap().unwrap();
    assert!(matches!(field.value, FieldValue::LengthDelimited(_)));
    assert_eq!(field.value.get_bytes(), Ok(&b"abc"[..]));
    let field = Message::new(&b"\x0b"[..]).fields().next().unwrap().unwrap();
    assert!(matches!(field.value, FieldValue::StartGroup));
    let field = Message::new(&b"\x0c"[..]).fields().next().unwrap().unwrap();
    assert!(matches!(field.value, FieldValue::EndGroup));
    let field = Message::new(&b"\x0d\x01\x02\x03\x04"[..]).fields().next().unwrap().unwrap();
    assert!(matches!(field.value, FieldValue::Fixed32(_)));
    assert_eq!(field.value.get_fixed32(), Ok(0x04030201));
}

#[test]
fn group_markers_consume_no_payload() {
    // Start-group, a varint field, end-group: the markers are zero-width.
    let message = Message::new(&b"\x0b\x08\x07\x0c"[..]);
    let mut fields = message.fields();
    assert!(matches!(
        fields.next().unwrap().unwrap().value,
        FieldValue::StartGroup
    ));
    let inner = fields.next().unwrap().unwrap();
    assert_eq!(inner.number, 1);
    assert_eq!(inner.value.get_uint64(), Ok(7));
    assert!(matches!(
        fields.next().unwrap().unwrap().value,
        FieldValue::EndGroup
    ));
    assert!(fields.next().is_none());
}

#[test]
fn length_delimited_truncation_fails() {
    // Declared length 5, but only three payload bytes remain.
    let message = Message::new(&b"\x0a\x05abc"[..]);
    assert!(matches!(message.fields().next(), Some(Err(Error))));
    // A huge declared length fails the same way.
    let message = Message::new(&b"\x0a\xff\xff\xff\xff\xff\xff\xff\xff\xff\x01abc"[..]);
    assert!(matches!(message.fields().next(), Some(Err(Error))));
}

#[test]
fn truncated_fixed_payloads_fail() {
    assert!(matches!(
        Message::new(&b"\x09\x01\x02\x03"[..]).fields().next(),
        Some(Err(Error))
    ));
    assert!(matches!(
        Message::new(&b"\x0d\x01"[..]).fields().next(),
        Some(Err(Error))
    ));
    assert!(matches!(
        Message::new(&b"\x08"[..]).fields().next(),
        Some(Err(Error))
    ));
}

#[test]
fn error_is_terminal_position() {
    // Fields before the failure point remain usable.
    let message = Message::new(&b"\x08\x2a\x0e"[..]);
    let mut fields = message.fields();
    let first = fields.next().unwrap().unwrap();
    assert_eq!(first.value.get_uint64(), Ok(42));
    assert!(matches!(fields.next(), Some(Err(Error))));
}

#[test]
fn nested_message_matches_top_level() {
    // Field 2, length-delimited, holding the two-field message
    // 0x08 0x01 0x10 0x02.
    let outer = Message::new(&b"\x12\x04\x08\x01\x10\x02"[..]);
    let field = outer.fields().next().unwrap().unwrap();
    assert_eq!(field.number, 2);
    let nested = field.value.get_message().unwrap();
    let direct = Message::new(&b"\x08\x01\x10\x02"[..]);
    let mut nested_fields = nested.fields();
    let mut direct_fields = direct.fields();
    for _ in 0..2 {
        let a = nested_fields.next().unwrap().unwrap();
        let b = direct_fields.next().unwrap().unwrap();
        assert_eq!(a.number, b.number);
        assert_eq!(a.value.get_uint64().unwrap(), b.value.get_uint64().unwrap());
    }
    assert!(nested_fields.next().is_none());
    assert!(direct_fields.next().is_none());
}

#[test]
fn string_accessor_validates_utf8() {
    let message = Message::new(&b"\x0a\x05hello"[..]);
    let field = message.fields().next().unwrap().unwrap();
    assert_eq!(field.value.get_string(), Ok("hello"));
    assert_eq!(field.value.get_string().unwrap().len(), 5);
    // One byte replaced with a lone continuation byte: the string
    // accessor fails while the raw bytes remain readable.
    let message = Message::new(&b"\x0a\x05he\x80lo"[..]);
    let field = message.fields().next().unwrap().unwrap();
    assert_eq!(field.value.get_string(), Err(Error));
    assert_eq!(field.value.get_bytes(), Ok(&b"he\x80lo"[..]));
}

#[test]
fn multibyte_string_field() {
    let message = Message::new(&b"\x0a\x04\xc3\xa9\xc3\xa0"[..]);
    let field = message.fields().next().unwrap().unwrap();
    assert_eq!(field.value.get_string(), Ok("\u{e9}\u{e0}"));
}
