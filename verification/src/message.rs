//! The message layer: the tag/wire-type dispatcher that walks a buffer and
//! yields one `(field number, typed value)` pair at a time.

use crate::encoding::{lemma_varint_size_bounds, read_varint, varint_ok, varint_size, varint_value};
use crate::field::{length_delimited_of, take4, take8, varint_of, Field, FieldModel, FieldValue,
    FieldValueModel};
use crate::Error;
use vstd::prelude::*;
use vstd::slice::slice_subrange;

verus! {

/// The field at the start of `s`, with the number of bytes it occupies;
/// `None` when the bytes do not start with one well-formed field.
///
/// A field is a tag varint — field number in the high bits, wire type in
/// the low three — followed by the payload the wire type dictates. Field
/// number zero is illegal; wire types six and seven are invalid; every
/// payload must fit in the remaining bytes.
pub open spec fn parse_field(s: Seq<u8>) -> Option<(FieldModel, int)> {
    if !varint_ok(s) {
        None
    } else {
        let tag = varint_value(s);
        let header = varint_size(s);
        let rest = s.skip(header);
        let number = tag >> 3;
        let wire_type = tag & 7;
        if number == 0 {
            None
        } else if wire_type == 0 {
            if varint_ok(rest) {
                Some(
                    (
                        FieldModel { number, value: FieldValueModel::Varint(varint_value(rest)) },
                        header + varint_size(rest),
                    ),
                )
            } else {
                None
            }
        } else if wire_type == 1 {
            if rest.len() >= 8 {
                Some(
                    (
                        FieldModel { number, value: FieldValueModel::Fixed64(rest.take(8)) },
                        header + 8,
                    ),
                )
            } else {
                None
            }
        } else if wire_type == 2 {
            if varint_ok(rest) {
                let len = varint_value(rest) as int;
                let body = rest.skip(varint_size(rest));
                if len <= body.len() {
                    Some(
                        (
                            FieldModel {
                                number,
                                value: FieldValueModel::LengthDelimited(body.take(len)),
                            },
                            header + varint_size(rest) + len,
                        ),
                    )
                } else {
                    None
                }
            } else {
                None
            }
        } else if wire_type == 3 {
            Some((FieldModel { number, value: FieldValueModel::StartGroup }, header))
        } else if wire_type == 4 {
            Some((FieldModel { number, value: FieldValueModel::EndGroup }, header))
        } else if wire_type == 5 {
            if rest.len() >= 4 {
                Some(
                    (
                        FieldModel { number, value: FieldValueModel::Fixed32(rest.take(4)) },
                        header + 4,
                    ),
                )
            } else {
                None
            }
        } else {
            None
        }
    }
}

/// A protobuf message: a borrowed byte buffer read as a sequence of
/// fields. It may be built from any byte slice, including one sliced out
/// of another message's field.
#[derive(Clone, Copy, Debug)]
pub struct Message<'a> {
    buf: &'a [u8],
}

impl<'a> View for Message<'a> {
    type V = Seq<u8>;

    closed spec fn view(&self) -> Seq<u8> {
        self.buf@
    }
}

impl<'a> Message<'a> {
    /// Creates a new [`Message`] from a byte slice.
    pub fn new(buf: &'a [u8]) -> (r: Self)
        ensures
            r@ == buf@,
    {
        Self { buf }
    }

    /// Returns a cursor over the fields of the message.
    pub fn fields(&self) -> (r: Fields<'a>)
        ensures
            r@ == self@,
    {
        Fields { buf: self.buf }
    }
}

/// A cursor over the fields of a message.
///
/// This struct is returned from the [`fields`][Message::fields] method of
/// [`Message`]. It scans forward only; a fresh cursor restarts the scan.
#[derive(Clone, Copy, Debug)]
pub struct Fields<'a> {
    buf: &'a [u8],
}

impl<'a> View for Fields<'a> {
    type V = Seq<u8>;

    closed spec fn view(&self) -> Seq<u8> {
        self.buf@
    }
}

impl<'a> Fields<'a> {
    /// Decodes the field at the cursor and advances past it. A clean end
    /// of the message is `Ok(None)`; a malformed field is `Err`, and the
    /// cursor then stays where it was.
    pub fn try_next(&mut self) -> (r: Result<Option<Field<'a>>, Error>)
        ensures
            old(self)@.len() == 0 ==> (r matches Ok(f) && f is None) && final(self)@ == old(self)@,
            old(self)@.len() > 0 && parse_field(old(self)@) is None ==> r is Err && final(self)@
                == old(self)@,
            old(self)@.len() > 0 ==> (parse_field(old(self)@) matches Some((f, n)) ==> {
                &&& r matches Ok(item)
                &&& item matches Some(field)
                &&& field@ == f
                &&& final(self)@ == old(self)@.skip(n)
            }),
    {
        let ghost s = self.buf@;
        if self.buf.is_empty() {
            return Ok(None);
        }
        let (buf, tag) = match read_varint(self.buf) {
            Ok(p) => p,
            Err(e) => {
                return Err(e);
            },
        };
        let ghost header = varint_size(s);
        proof {
            lemma_varint_size_bounds(s);
        }
        let number = tag >> 3;
        if number == 0 {
            // Field number 0 is illegal.
            return Err(Error);
        }
        let wire_type = tag & 0x7;
        let (buf, value) = match wire_type {
            0 => {
                let (buf, value) = match read_varint(buf) {
                    Ok(p) => p,
                    Err(e) => {
                        return Err(e);
                    },
                };
                proof {
                    lemma_varint_size_bounds(s.skip(header));
                    lemma_skip_skip(s, header, varint_size(s.skip(header)));
                }
                (buf, FieldValue::Varint(varint_of(value)))
            },
            1 => {
                if buf.len() < 8 {
                    return Err(Error);
                }
                let len = buf.len();
                proof {
                    lemma_skip_skip(s, header, 8);
                    assert(buf@.take(8) =~= buf@.subrange(0, 8));
                }
                (
                    slice_subrange(buf, 8, len),
                    FieldValue::Fixed64(take8(buf)),
                )
            },
            2 => {
                let (buf, len64) = match read_varint(buf) {
                    Ok(p) => p,
                    Err(e) => {
                        return Err(e);
                    },
                };
                if len64 > buf.len() as u64 {
                    return Err(Error);
                }
                let len = len64 as usize;
                let total = buf.len();
                proof {
                    lemma_varint_size_bounds(s.skip(header));
                    lemma_skip_skip(s, header, varint_size(s.skip(header)));
                    lemma_skip_skip(s, header + varint_size(s.skip(header)), len as int);
                    assert(buf@.take(len as int) =~= buf@.subrange(0, len as int));
                    assert(buf@.skip(len as int) =~= buf@.subrange(len as int, buf@.len() as int));
                }
                (
                    slice_subrange(buf, len, total),
                    FieldValue::LengthDelimited(length_delimited_of(slice_subrange(buf, 0, len))),
                )
            },
            3 => (buf, FieldValue::StartGroup),
            4 => (buf, FieldValue::EndGroup),
            5 => {
                if buf.len() < 4 {
                    return Err(Error);
                }
                let len = buf.len();
                proof {
                    lemma_skip_skip(s, header, 4);
                    assert(buf@.take(4) =~= buf@.subrange(0, 4));
                }
                (
                    slice_subrange(buf, 4, len),
                    FieldValue::Fixed32(take4(buf)),
                )
            },
            _ => {
                return Err(Error);
            },
        };
        self.buf = buf;
        Ok(Some(Field { number, value }))
    }

    /// Decodes the field at the cursor as an iteration step: `None` at the
    /// clean end of the message, otherwise the decoded field or the error.
    pub fn next(&mut self) -> (r: Option<Result<Field<'a>, Error>>)
        ensures
            old(self)@.len() == 0 ==> r is None && final(self)@ == old(self)@,
            old(self)@.len() > 0 && parse_field(old(self)@) is None ==> (r matches Some(item)
                && item is Err) && final(self)@ == old(self)@,
            old(self)@.len() > 0 ==> (parse_field(old(self)@) matches Some((f, n)) ==> {
                &&& r matches Some(item)
                &&& item matches Ok(field)
                &&& field@ == f
                &&& final(self)@ == old(self)@.skip(n)
            }),
    {
        match self.try_next() {
            Ok(Some(field)) => Some(Ok(field)),
            Ok(None) => None,
            Err(e) => Some(Err(e)),
        }
    }
}

/// A decoded field occupies at least one byte and no more than the buffer
/// holds.
pub proof fn lemma_parse_field_consumes(s: Seq<u8>)
    ensures
        parse_field(s) matches Some((f, n)) ==> 1 <= n <= s.len(),
{
    if parse_field(s) is Some {
        lemma_varint_size_bounds(s);
        let rest = s.skip(varint_size(s));
        let wire_type = varint_value(s) & 7;
        if (wire_type == 0 || wire_type == 2) && varint_ok(rest) {
            lemma_varint_size_bounds(rest);
        }
    }
}

/// The full field sequence of a message: every field of `s` in order, or
/// `None` where any decode step fails. The empty buffer is the empty
/// message, not an error.
pub open spec fn parse_message(s: Seq<u8>) -> Option<Seq<FieldModel>>
    decreases s.len(),
{
    if s.len() == 0 {
        Some(Seq::empty())
    } else {
        match parse_field(s) {
            None => None,
            Some((f, n)) => {
                if 1 <= n <= s.len() {
                    match parse_message(s.skip(n)) {
                        None => None,
                        Some(tail) => Some(seq![f] + tail),
                    }
                } else {
                    None
                }
            },
        }
    }
}

/// One decode step agrees with the whole-message parse: on a non-empty
/// buffer whose message parses, the first field is the head of the
/// sequence and the bytes after it parse to the tail.
pub proof fn lemma_parse_message_step(s: Seq<u8>)
    requires
        s.len() > 0,
        parse_message(s) is Some,
    ensures
        parse_field(s) is Some,
        parse_field(s) matches Some((f, n)) ==> {
            &&& parse_message(s.skip(n)) is Some
            &&& parse_message(s) == Some(seq![f] + parse_message(s.skip(n))->Some_0)
        },
{
}

/// Field number zero is illegal: a field whose tag carries number zero
/// never decodes.
pub proof fn lemma_field_number_zero_rejected(s: Seq<u8>)
    requires
        varint_ok(s),
        varint_value(s) >> 3 == 0,
    ensures
        parse_field(s) is None,
{
}

/// Wire-type dispatch is exhaustive: codes six and seven always fail, the
/// zero-width group markers always decode, and every decoded field's
/// variant is the one its wire-type code documents.
pub proof fn lemma_wire_type_dispatch(s: Seq<u8>)
    requires
        varint_ok(s),
    ensures
        varint_value(s) & 7 == 6 || varint_value(s) & 7 == 7 ==> parse_field(s) is None,
        varint_value(s) >> 3 != 0 && (varint_value(s) & 7 == 3 || varint_value(s) & 7 == 4)
            ==> parse_field(s) is Some,
        parse_field(s) matches Some((f, n)) ==> {
            let wire_type = varint_value(s) & 7;
            &&& (wire_type == 0 <==> f.value is Varint)
            &&& (wire_type == 1 <==> f.value is Fixed64)
            &&& (wire_type == 2 <==> f.value is LengthDelimited)
            &&& (wire_type == 3 <==> f.value is StartGroup)
            &&& (wire_type == 4 <==> f.value is EndGroup)
            &&& (wire_type == 5 <==> f.value is Fixed32)
        },
{
    let tag = varint_value(s);
    assert(tag & 7 < 8) by (bit_vector);
}

/// A length-delimited field whose declared length exceeds the remaining
/// bytes fails to decode.
pub proof fn lemma_length_delimited_truncation(s: Seq<u8>)
    requires
        varint_ok(s),
        varint_value(s) & 7 == 2,
        varint_ok(s.skip(varint_size(s))),
        varint_value(s.skip(varint_size(s))) > s.skip(varint_size(s)).len() - varint_size(
            s.skip(varint_size(s)),
        ),
    ensures
        parse_field(s) is None,
{
}

/// Re-parsing a length-delimited field's bytes as a nested message yields
/// the same field sequence as decoding those bytes as the top-level
/// input: the decoded fields are a function of the bytes alone.
pub proof fn lemma_nested_message_fields<'a, 'b>(nested: Message<'a>, top: Message<'b>)
    requires
        nested@ == top@,
    ensures
        parse_message(nested@) == parse_message(top@),
{
}

proof fn lemma_skip_skip(s: Seq<u8>, a: int, b: int)
    requires
        0 <= a,
        0 <= b,
        a + b <= s.len(),
    ensures
        s.skip(a).skip(b) == s.skip(a + b),
        s.skip(a).subrange(b, s.skip(a).len() as int) == s.skip(a + b),
{
    assert(s.skip(a).skip(b) =~= s.skip(a + b));
    assert(s.skip(a).subrange(b, s.skip(a).len() as int) =~= s.skip(a + b));
}

} // verus!
