//! The value layer: typed carriers for the four wire-type families, the
//! packed-repeated iterators, and the repeated-value adapter.

use crate::encoding::{
    decode_32, decode_64, read_varint, varint_ok, varint_size, varint_value, zigzag_decode32,
    zigzag_decode64,
};
use crate::message::Message;
use crate::Error;
use vstd::prelude::*;
use vstd::slice::slice_subrange;
use vstd::utf8::{decode_utf8, valid_utf8};

verus! {

/// Model of a field value: the decoded payload of each wire-type family,
/// free of the borrowed carriers. Used only in specifications.
pub enum FieldValueModel {
    Varint(u64),
    Fixed64(Seq<u8>),
    LengthDelimited(Seq<u8>),
    StartGroup,
    EndGroup,
    Fixed32(Seq<u8>),
}

/// Model of a field: its number and the model of its value. Used only in
/// specifications.
pub struct FieldModel {
    pub number: u64,
    pub value: FieldValueModel,
}

/// Instance of a message field.
///
/// A protobuf message is a series of key-value pairs; `Field` is a single
/// pair: a field number, never zero, and a typed value.
#[derive(Debug)]
pub struct Field<'a> {
    /// The field number.
    pub number: u64,
    /// The field value.
    pub value: FieldValue<'a>,
}

impl<'a> View for Field<'a> {
    type V = FieldModel;

    open spec fn view(&self) -> FieldModel {
        FieldModel { number: self.number, value: self.value@ }
    }
}

/// Value of a field.
///
/// Each variant corresponds to one wire type; the variant is fully
/// determined by the low three bits of the field's tag, and no value
/// escapes its wire-type category.
#[derive(Debug)]
pub enum FieldValue<'a> {
    /// A varint value.
    Varint(Varint),
    /// A non-varint 64-bit number.
    Fixed64(Fixed64),
    /// A length-delimited value.
    LengthDelimited(LengthDelimited<'a>),
    /// Start of a group: a zero-width marker, carried through uninterpreted.
    StartGroup,
    /// End of a group: a zero-width marker, carried through uninterpreted.
    EndGroup,
    /// A non-varint 32-bit number.
    Fixed32(Fixed32),
}

impl<'a> View for FieldValue<'a> {
    type V = FieldValueModel;

    open spec fn view(&self) -> FieldValueModel {
        match self {
            FieldValue::Varint(f) => FieldValueModel::Varint(f@),
            FieldValue::Fixed64(f) => FieldValueModel::Fixed64(f@),
            FieldValue::LengthDelimited(f) => FieldValueModel::LengthDelimited(f@),
            FieldValue::StartGroup => FieldValueModel::StartGroup,
            FieldValue::EndGroup => FieldValueModel::EndGroup,
            FieldValue::Fixed32(f) => FieldValueModel::Fixed32(f@),
        }
    }
}

/// Low 32 bits of a varint payload.
pub open spec fn truncate32(v: u64) -> u32 {
    (v % 0x1_0000_0000) as u32
}

/// Two's-complement reading of the low 32 bits of a varint payload.
pub open spec fn as_int32(v: u64) -> i32 {
    if v % 0x1_0000_0000 < 0x8000_0000 {
        (v % 0x1_0000_0000) as i32
    } else {
        (v % 0x1_0000_0000 - 0x1_0000_0000) as i32
    }
}

/// Two's-complement reading of a varint payload.
pub open spec fn as_int64(v: u64) -> i64 {
    if v < 0x8000_0000_0000_0000 {
        v as i64
    } else {
        (v - 0x1_0000_0000_0000_0000) as i64
    }
}

/// Zigzag reading of the low 32 bits of a varint payload.
pub open spec fn as_sint32(v: u64) -> i32 {
    zigzag_decode32(truncate32(v)) as i32
}

/// Zigzag reading of a varint payload.
pub open spec fn as_sint64(v: u64) -> i64 {
    zigzag_decode64(v) as i64
}

/// Unsigned value of the four little-endian bytes at the front of `s`.
pub open spec fn le32(s: Seq<u8>) -> int
    recommends
        s.len() >= 4,
{
    s[0] + 0x100 * s[1] + 0x1_0000 * s[2] + 0x100_0000 * s[3]
}

/// Two's-complement value of the four little-endian bytes at the front of `s`.
pub open spec fn le32_signed(s: Seq<u8>) -> int
    recommends
        s.len() >= 4,
{
    if le32(s) < 0x8000_0000 {
        le32(s)
    } else {
        le32(s) - 0x1_0000_0000
    }
}

/// Unsigned value of the eight little-endian bytes at the front of `s`.
pub open spec fn le64(s: Seq<u8>) -> int
    recommends
        s.len() >= 8,
{
    s[0] + 0x100 * s[1] + 0x1_0000 * s[2] + 0x100_0000 * s[3] + 0x1_0000_0000 * s[4]
        + 0x100_0000_0000 * s[5] + 0x1_0000_0000_0000 * s[6] + 0x100_0000_0000_0000 * s[7]
}

/// Two's-complement value of the eight little-endian bytes at the front of `s`.
pub open spec fn le64_signed(s: Seq<u8>) -> int
    recommends
        s.len() >= 8,
{
    if le64(s) < 0x8000_0000_0000_0000 {
        le64(s)
    } else {
        le64(s) - 0x1_0000_0000_0000_0000
    }
}

/// Reads a 32-bit unsigned value as the same-width two's-complement value.
fn reinterpret_i32(u: u32) -> (r: i32)
    ensures
        r as int == if u < 0x8000_0000 { u as int } else { u - 0x1_0000_0000 },
{
    if u < 0x8000_0000 {
        u as i32
    } else {
        -((0xffff_ffffu32 - u) as i32) - 1
    }
}

/// Reads a 64-bit unsigned value as the same-width two's-complement value.
fn reinterpret_i64(u: u64) -> (r: i64)
    ensures
        r as int == if u < 0x8000_0000_0000_0000 { u as int } else { u - 0x1_0000_0000_0000_0000 },
{
    if u < 0x8000_0000_0000_0000 {
        u as i64
    } else {
        -((0xffff_ffff_ffff_ffffu64 - u) as i64) - 1
    }
}

/// A varint value.
///
/// Varints are values encoded as base-128 variable-length integers; the
/// carrier stores the raw decoded 64-bit payload, which its methods
/// reinterpret as each varint-sourced scalar type.
#[derive(Clone, Copy, Debug)]
pub struct Varint {
    pub(crate) value: u64,
}

impl View for Varint {
    type V = u64;

    closed spec fn view(&self) -> u64 {
        self.value
    }
}

impl Varint {
    /// Returns the value of a `bool` field: any nonzero payload is true.
    pub fn get_bool(&self) -> (r: bool)
        ensures
            r == (self@ != 0),
    {
        self.value != 0
    }

    /// Returns the value of an `enum` field.
    pub fn get_enum(&self) -> (r: i32)
        ensures
            r == as_int32(self@),
    {
        reinterpret_i32((self.value % 0x1_0000_0000) as u32)
    }

    /// Returns the value of an `int32` field.
    pub fn get_int32(&self) -> (r: i32)
        ensures
            r == as_int32(self@),
    {
        reinterpret_i32((self.value % 0x1_0000_0000) as u32)
    }

    /// Returns the value of an `int64` field.
    pub fn get_int64(&self) -> (r: i64)
        ensures
            r == as_int64(self@),
    {
        reinterpret_i64(self.value)
    }

    /// Returns the value of a `sint32` field.
    pub fn get_sint32(&self) -> (r: i32)
        ensures
            r == as_sint32(self@),
    {
        decode_32((self.value % 0x1_0000_0000) as u32)
    }

    /// Returns the value of a `sint64` field.
    pub fn get_sint64(&self) -> (r: i64)
        ensures
            r == as_sint64(self@),
    {
        decode_64(self.value)
    }

    /// Returns the value of a `uint32` field.
    pub fn get_uint32(&self) -> (r: u32)
        ensures
            r == truncate32(self@),
    {
        (self.value % 0x1_0000_0000) as u32
    }

    /// Returns the value of a `uint64` field.
    pub fn get_uint64(&self) -> (r: u64)
        ensures
            r == self@,
    {
        self.value
    }
}

/// A non-varint 32-bit number: exactly four raw bytes in little-endian
/// order, reinterpreted bit for bit by the accessors.
#[derive(Clone, Copy, Debug)]
pub struct Fixed32 {
    pub(crate) bytes: [u8; 4],
}

impl View for Fixed32 {
    type V = Seq<u8>;

    closed spec fn view(&self) -> Seq<u8> {
        self.bytes@
    }
}

impl Fixed32 {
    /// Returns the value of a `fixed32` field.
    pub fn get_fixed32(&self) -> (r: u32)
        ensures
            r == le32(self@),
    {
        (self.bytes[0] as u32) + 0x100 * (self.bytes[1] as u32) + 0x1_0000 * (self.bytes[2] as u32)
            + 0x100_0000 * (self.bytes[3] as u32)
    }

    /// Returns the value of a `sfixed32` field.
    pub fn get_sfixed32(&self) -> (r: i32)
        ensures
            r == le32_signed(self@),
    {
        reinterpret_i32(self.get_fixed32())
    }
}

/// A non-varint 64-bit number: exactly eight raw bytes in little-endian
/// order, reinterpreted bit for bit by the accessors.
#[derive(Clone, Copy, Debug)]
pub struct Fixed64 {
    pub(crate) bytes: [u8; 8],
}

impl View for Fixed64 {
    type V = Seq<u8>;

    closed spec fn view(&self) -> Seq<u8> {
        self.bytes@
    }
}

impl Fixed64 {
    /// Returns the value of a `fixed64` field.
    pub fn get_fixed64(&self) -> (r: u64)
        ensures
            r == le64(self@),
    {
        (self.bytes[0] as u64) + 0x100 * (self.bytes[1] as u64) + 0x1_0000 * (self.bytes[2] as u64)
            + 0x100_0000 * (self.bytes[3] as u64) + 0x1_0000_0000 * (self.bytes[4] as u64)
            + 0x100_0000_0000 * (self.bytes[5] as u64) + 0x1_0000_0000_0000 * (self.bytes[6] as u64)
            + 0x100_0000_0000_0000 * (self.bytes[7] as u64)
    }

    /// Returns the value of a `sfixed64` field.
    pub fn get_sfixed64(&self) -> (r: i64)
        ensures
            r == le64_signed(self@),
    {
        reinterpret_i64(self.get_fixed64())
    }
}

/// Reads the four bytes at the front of a slice as a [`Fixed32`].
pub(crate) fn take4(buf: &[u8]) -> (r: Fixed32)
    requires
        buf@.len() >= 4,
    ensures
        r@ == buf@.subrange(0, 4),
{
    let r = Fixed32 { bytes: [buf[0], buf[1], buf[2], buf[3]] };
    proof {
        assert(r@ =~= buf@.subrange(0, 4));
    }
    r
}

/// Reads the eight bytes at the front of a slice as a [`Fixed64`].
pub(crate) fn take8(buf: &[u8]) -> (r: Fixed64)
    requires
        buf@.len() >= 8,
    ensures
        r@ == buf@.subrange(0, 8),
{
    let r = Fixed64 {
        bytes: [buf[0], buf[1], buf[2], buf[3], buf[4], buf[5], buf[6], buf[7]],
    };
    proof {
        assert(r@ =~= buf@.subrange(0, 8));
    }
    r
}

/// Wraps a decoded varint payload.
pub(crate) fn varint_of(value: u64) -> (r: Varint)
    ensures
        r@ == value,
{
    Varint { value }
}

/// Wraps a borrowed byte range as a length-delimited value.
pub(crate) fn length_delimited_of<'a>(buf: &'a [u8]) -> (r: LengthDelimited<'a>)
    ensures
        r@ == buf@,
{
    LengthDelimited { buf }
}

/// Relies on `core::str::from_utf8`: it succeeds exactly on valid UTF-8
/// input and reinterprets the bytes, borrowing them as a string slice.
#[verifier::external_body]
fn bytes_as_str(buf: &[u8]) -> (r: Option<&str>)
    ensures
        r is Some <==> valid_utf8(buf@),
        r matches Some(s) ==> s@ == decode_utf8(buf@),
{
    core::str::from_utf8(buf).ok()
}

/// A length-delimited value: a borrowed view of the declared number of
/// bytes, reinterpretable as raw bytes, a UTF-8 string, a nested message,
/// or a packed run of any scalar type.
#[derive(Clone, Copy, Debug)]
pub struct LengthDelimited<'a> {
    pub(crate) buf: &'a [u8],
}

impl<'a> View for LengthDelimited<'a> {
    type V = Seq<u8>;

    closed spec fn view(&self) -> Seq<u8> {
        self.buf@
    }
}

impl<'a> LengthDelimited<'a> {
    /// Returns the value of a `bytes` field: the view itself.
    pub fn get_bytes(&self) -> (r: &'a [u8])
        ensures
            r@ == self@,
    {
        self.buf
    }

    /// Returns the value of a `message` field: the same bytes re-entered
    /// as a nested message.
    pub fn get_message(&self) -> (r: Message<'a>)
        ensures
            r@ == self@,
    {
        Message::new(self.buf)
    }

    /// Returns the value of a `string` field.
    ///
    /// If the bytes are not valid UTF-8, `Err` is returned.
    pub fn get_string(&self) -> (r: Result<&'a str, Error>)
        ensures
            r is Ok <==> valid_utf8(self@),
            r matches Ok(s) ==> s@ == decode_utf8(self@),
    {
        match bytes_as_str(self.buf) {
            Some(s) => Ok(s),
            None => Err(Error),
        }
    }

    /// Returns an iterator over packed repeated `bool`s.
    pub fn get_packed_bool(&self) -> (r: PackedBool<'a>)
        ensures
            r@ == self@,
    {
        PackedBool { buf: self.buf }
    }

    /// Returns an iterator over packed repeated `enum`s.
    pub fn get_packed_enum(&self) -> (r: PackedEnum<'a>)
        ensures
            r@ == self@,
    {
        PackedEnum { buf: self.buf }
    }

    /// Returns an iterator over packed repeated `int32`s.
    pub fn get_packed_int32(&self) -> (r: PackedInt32<'a>)
        ensures
            r@ == self@,
    {
        PackedInt32 { buf: self.buf }
    }

    /// Returns an iterator over packed repeated `int64`s.
    pub fn get_packed_int64(&self) -> (r: PackedInt64<'a>)
        ensures
            r@ == self@,
    {
        PackedInt64 { buf: self.buf }
    }

    /// Returns an iterator over packed repeated `sint32`s.
    pub fn get_packed_sint32(&self) -> (r: PackedSint32<'a>)
        ensures
            r@ == self@,
    {
        PackedSint32 { buf: self.buf }
    }

    /// Returns an iterator over packed repeated `sint64`s.
    pub fn get_packed_sint64(&self) -> (r: PackedSint64<'a>)
        ensures
            r@ == self@,
    {
        PackedSint64 { buf: self.buf }
    }

    /// Returns an iterator over packed repeated `uint32`s.
    pub fn get_packed_uint32(&self) -> (r: PackedUint32<'a>)
        ensures
            r@ == self@,
    {
        PackedUint32 { buf: self.buf }
    }

    /// Returns an iterator over packed repeated `uint64`s.
    pub fn get_packed_uint64(&self) -> (r: PackedUint64<'a>)
        ensures
            r@ == self@,
    {
        PackedUint64 { buf: self.buf }
    }

    /// Returns an iterator over packed repeated `fixed64`s.
    pub fn get_packed_fixed64(&self) -> (r: PackedFixed64<'a>)
        ensures
            r@ == self@,
    {
        PackedFixed64 { buf: self.buf }
    }

    /// Returns an iterator over packed repeated `sfixed64`s.
    pub fn get_packed_sfixed64(&self) -> (r: PackedSfixed64<'a>)
        ensures
            r@ == self@,
    {
        PackedSfixed64 { buf: self.buf }
    }

    /// Returns an iterator over packed repeated `double`s.
    pub fn get_packed_double(&self) -> (r: PackedDouble<'a>)
        ensures
            r@ == self@,
    {
        PackedDouble { buf: self.buf }
    }

    /// Returns an iterator over packed repeated `fixed32`s.
    pub fn get_packed_fixed32(&self) -> (r: PackedFixed32<'a>)
        ensures
            r@ == self@,
    {
        PackedFixed32 { buf: self.buf }
    }

    /// Returns an iterator over packed repeated `sfixed32`s.
    pub fn get_packed_sfixed32(&self) -> (r: PackedSfixed32<'a>)
        ensures
            r@ == self@,
    {
        PackedSfixed32 { buf: self.buf }
    }

    /// Returns an iterator over packed repeated `float`s.
    pub fn get_packed_float(&self) -> (r: PackedFloat<'a>)
        ensures
            r@ == self@,
    {
        PackedFloat { buf: self.buf }
    }
}

/// One step of a packed varint run: no item once the run is empty, the
/// decoded varint otherwise, an error where the remaining bytes do not
/// start with a well-formed varint.
pub open spec fn varint_run_next(s: Seq<u8>) -> Option<Result<u64, Error>> {
    if s.len() == 0 {
        None
    } else if varint_ok(s) {
        Some(Ok(varint_value(s)))
    } else {
        Some(Err(Error))
    }
}

/// The bytes a packed varint run leaves behind after one step.
pub open spec fn varint_run_rest(s: Seq<u8>) -> Seq<u8> {
    if s.len() > 0 && varint_ok(s) {
        s.skip(varint_size(s))
    } else {
        s
    }
}

/// One step of a packed fixed-width run of element width `w`: no item
/// once the run is empty, the next `w` bytes otherwise, an error where a
/// nonzero remainder is shorter than `w`.
pub open spec fn fixed_run_next(s: Seq<u8>, w: int) -> Option<Result<Seq<u8>, Error>> {
    if s.len() == 0 {
        None
    } else if s.len() < w {
        Some(Err(Error))
    } else {
        Some(Ok(s.take(w)))
    }
}

/// The bytes a packed fixed-width run of element width `w` leaves behind
/// after one step.
pub open spec fn fixed_run_rest(s: Seq<u8>, w: int) -> Seq<u8> {
    if 0 < w <= s.len() {
        s.skip(w)
    } else {
        s
    }
}

/// An iterator over values of a packed `bool` field.
///
/// This struct is returned from the [`get_packed_bool`][LengthDelimited::get_packed_bool]
/// method of [`LengthDelimited`].
#[derive(Clone, Copy, Debug)]
pub struct PackedBool<'a> {
    buf: &'a [u8],
}

impl<'a> View for PackedBool<'a> {
    type V = Seq<u8>;

    closed spec fn view(&self) -> Seq<u8> {
        self.buf@
    }
}

impl<'a> PackedBool<'a> {
    /// Decodes the next element of the run; `None` once it is finished.
    pub fn next(&mut self) -> (r: Option<Result<bool, Error>>)
        ensures
            final(self)@ == varint_run_rest(old(self)@),
            r == (match varint_run_next(old(self)@) {
                None => None,
                Some(Ok(v)) => Some(Ok::<bool, Error>(v != 0)),
                Some(Err(e)) => Some(Err::<bool, Error>(e)),
            }),
    {
        if self.buf.is_empty() {
            return None;
        }
        match read_varint(self.buf) {
            Ok((rest, value)) => {
                self.buf = rest;
                Some(Ok(Varint { value }.get_bool()))
            }
            Err(e) => Some(Err(e)),
        }
    }
}

/// An iterator over values of a packed `enum` field.
///
/// This struct is returned from the [`get_packed_enum`][LengthDelimited::get_packed_enum]
/// method of [`LengthDelimited`].
#[derive(Clone, Copy, Debug)]
pub struct PackedEnum<'a> {
    buf: &'a [u8],
}

impl<'a> View for PackedEnum<'a> {
    type V = Seq<u8>;

    closed spec fn view(&self) -> Seq<u8> {
        self.buf@
    }
}

impl<'a> PackedEnum<'a> {
    /// Decodes the next element of the run; `None` once it is finished.
    pub fn next(&mut self) -> (r: Option<Result<i32, Error>>)
        ensures
            final(self)@ == varint_run_rest(old(self)@),
            r == (match varint_run_next(old(self)@) {
                None => None,
                Some(Ok(v)) => Some(Ok::<i32, Error>(as_int32(v))),
                Some(Err(e)) => Some(Err::<i32, Error>(e)),
            }),
    {
        if self.buf.is_empty() {
            return None;
        }
        match read_varint(self.buf) {
            Ok((rest, value)) => {
                self.buf = rest;
                Some(Ok(Varint { value }.get_enum()))
            }
            Err(e) => Some(Err(e)),
        }
    }
}

/// An iterator over values of a packed `int32` field.
///
/// This struct is returned from the [`get_packed_int32`][LengthDelimited::get_packed_int32]
/// method of [`LengthDelimited`].
#[derive(Clone, Copy, Debug)]
pub struct PackedInt32<'a> {
    buf: &'a [u8],
}

impl<'a> View for PackedInt32<'a> {
    type V = Seq<u8>;

    closed spec fn view(&self) -> Seq<u8> {
        self.buf@
    }
}

impl<'a> PackedInt32<'a> {
    /// Decodes the next element of the run; `None` once it is finished.
    pub fn next(&mut self) -> (r: Option<Result<i32, Error>>)
        ensures
            final(self)@ == varint_run_rest(old(self)@),
            r == (match varint_run_next(old(self)@) {
                None => None,
                Some(Ok(v)) => Some(Ok::<i32, Error>(as_int32(v))),
                Some(Err(e)) => Some(Err::<i32, Error>(e)),
            }),
    {
        if self.buf.is_empty() {
            return None;
        }
        match read_varint(self.buf) {
            Ok((rest, value)) => {
                self.buf = rest;
                Some(Ok(Varint { value }.get_int32()))
            }
            Err(e) => Some(Err(e)),
        }
    }
}

/// An iterator over values of a packed `int64` field.
///
/// This struct is returned from the [`get_packed_int64`][LengthDelimited::get_packed_int64]
/// method of [`LengthDelimited`].
#[derive(Clone, Copy, Debug)]
pub struct PackedInt64<'a> {
    buf: &'a [u8],
}

impl<'a> View for PackedInt64<'a> {
    type V = Seq<u8>;

    closed spec fn view(&self) -> Seq<u8> {
        self.buf@
    }
}

impl<'a> PackedInt64<'a> {
    /// Decodes the next element of the run; `None` once it is finished.
    pub fn next(&mut self) -> (r: Option<Result<i64, Error>>)
        ensures
            final(self)@ == varint_run_rest(old(self)@),
            r == (match varint_run_next(old(self)@) {
                None => None,
                Some(Ok(v)) => Some(Ok::<i64, Error>(as_int64(v))),
                Some(Err(e)) => Some(Err::<i64, Error>(e)),
            }),
    {
        if self.buf.is_empty() {
            return None;
        }
        match read_varint(self.buf) {
            Ok((rest, value)) => {
                self.buf = rest;
                Some(Ok(Varint { value }.get_int64()))
            }
            Err(e) => Some(Err(e)),
        }
    }
}

/// An iterator over values of a packed `sint32` field.
///
/// This struct is returned from the [`get_packed_sint32`][LengthDelimited::get_packed_sint32]
/// method of [`LengthDelimited`].
#[derive(Clone, Copy, Debug)]
pub struct PackedSint32<'a> {
    buf: &'a [u8],
}

impl<'a> View for PackedSint32<'a> {
    type V = Seq<u8>;

    closed spec fn view(&self) -> Seq<u8> {
        self.buf@
    }
}

impl<'a> PackedSint32<'a> {
    /// Decodes the next element of the run; `None` once it is finished.
    pub fn next(&mut self) -> (r: Option<Result<i32, Error>>)
        ensures
            final(self)@ == varint_run_rest(old(self)@),
            r == (match varint_run_next(old(self)@) {
                None => None,
                Some(Ok(v)) => Some(Ok::<i32, Error>(as_sint32(v))),
                Some(Err(e)) => Some(Err::<i32, Error>(e)),
            }),
    {
        if self.buf.is_empty() {
            return None;
        }
        match read_varint(self.buf) {
            Ok((rest, value)) => {
                self.buf = rest;
                Some(Ok(Varint { value }.get_sint32()))
            }
            Err(e) => Some(Err(e)),
        }
    }
}

/// An iterator over values of a packed `sint64` field.
///
/// This struct is returned from the [`get_packed_sint64`][LengthDelimited::get_packed_sint64]
/// method of [`LengthDelimited`].
#[derive(Clone, Copy, Debug)]
pub struct PackedSint64<'a> {
    buf: &'a [u8],
}

impl<'a> View for PackedSint64<'a> {
    type V = Seq<u8>;

    closed spec fn view(&self) -> Seq<u8> {
        self.buf@
    }
}

impl<'a> PackedSint64<'a> {
    /// Decodes the next element of the run; `None` once it is finished.
    pub fn next(&mut self) -> (r: Option<Result<i64, Error>>)
        ensures
            final(self)@ == varint_run_rest(old(self)@),
            r == (match varint_run_next(old(self)@) {
                None => None,
                Some(Ok(v)) => Some(Ok::<i64, Error>(as_sint64(v))),
                Some(Err(e)) => Some(Err::<i64, Error>(e)),
            }),
    {
        if self.buf.is_empty() {
            return None;
        }
        match read_varint(self.buf) {
            Ok((rest, value)) => {
                self.buf = rest;
                Some(Ok(Varint { value }.get_sint64()))
            }
            Err(e) => Some(Err(e)),
        }
    }
}

/// An iterator over values of a packed `uint32` field.
///
/// This struct is returned from the [`get_packed_uint32`][LengthDelimited::get_packed_uint32]
/// method of [`LengthDelimited`].
#[derive(Clone, Copy, Debug)]
pub struct PackedUint32<'a> {
    buf: &'a [u8],
}

impl<'a> View for PackedUint32<'a> {
    type V = Seq<u8>;

    closed spec fn view(&self) -> Seq<u8> {
        self.buf@
    }
}

impl<'a> PackedUint32<'a> {
    /// Decodes the next element of the run; `None` once it is finished.
    pub fn next(&mut self) -> (r: Option<Result<u32, Error>>)
        ensures
            final(self)@ == varint_run_rest(old(self)@),
            r == (match varint_run_next(old(self)@) {
                None => None,
                Some(Ok(v)) => Some(Ok::<u32, Error>(truncate32(v))),
                Some(Err(e)) => Some(Err::<u32, Error>(e)),
            }),
    {
        if self.buf.is_empty() {
            return None;
        }
        match read_varint(self.buf) {
            Ok((rest, value)) => {
                self.buf = rest;
                Some(Ok(Varint { value }.get_uint32()))
            }
            Err(e) => Some(Err(e)),
        }
    }
}

/// An iterator over values of a packed `uint64` field.
///
/// This struct is returned from the [`get_packed_uint64`][LengthDelimited::get_packed_uint64]
/// method of [`LengthDelimited`].
#[derive(Clone, Copy, Debug)]
pub struct PackedUint64<'a> {
    buf: &'a [u8],
}

impl<'a> View for PackedUint64<'a> {
    type V = Seq<u8>;

    closed spec fn view(&self) -> Seq<u8> {
        self.buf@
    }
}

impl<'a> PackedUint64<'a> {
    /// Decodes the next element of the run; `None` once it is finished.
    pub fn next(&mut self) -> (r: Option<Result<u64, Error>>)
        ensures
            final(self)@ == varint_run_rest(old(self)@),
            r == (match varint_run_next(old(self)@) {
                None => None,
                Some(Ok(v)) => Some(Ok::<u64, Error>(v)),
                Some(Err(e)) => Some(Err::<u64, Error>(e)),
            }),
    {
        if self.buf.is_empty() {
            return None;
        }
        match read_varint(self.buf) {
            Ok((rest, value)) => {
                self.buf = rest;
                Some(Ok(Varint { value }.get_uint64()))
            }
            Err(e) => Some(Err(e)),
        }
    }
}

/// An iterator over values of a packed `fixed64` field.
///
/// This struct is returned from the [`get_packed_fixed64`][LengthDelimited::get_packed_fixed64]
/// method of [`LengthDelimited`].
#[derive(Clone, Copy, Debug)]
pub struct PackedFixed64<'a> {
    buf: &'a [u8],
}

impl<'a> View for PackedFixed64<'a> {
    type V = Seq<u8>;

    closed spec fn view(&self) -> Seq<u8> {
        self.buf@
    }
}

impl<'a> PackedFixed64<'a> {
    /// Decodes the next element of the run; `None` once it is finished.
    pub fn next(&mut self) -> (r: Option<Result<u64, Error>>)
        ensures
            final(self)@ == fixed_run_rest(old(self)@, 8),
            r == (match fixed_run_next(old(self)@, 8) {
                None => None,
                Some(Ok(b)) => Some(Ok::<u64, Error>(le64(b) as u64)),
                Some(Err(e)) => Some(Err::<u64, Error>(e)),
            }),
    {
        if self.buf.is_empty() {
            return None;
        }
        if self.buf.len() < 8 {
            return Some(Err(Error));
        }
        let f = take8(self.buf);
        let len = self.buf.len();
        self.buf = slice_subrange(self.buf, 8, len);
        proof {
            assert(old(self)@.skip(8) =~= old(self)@.subrange(8, old(self)@.len() as int));
            assert(old(self)@.take(8) =~= old(self)@.subrange(0, 8));
        }
        Some(Ok(f.get_fixed64()))
    }
}

/// An iterator over values of a packed `sfixed64` field.
///
/// This struct is returned from the [`get_packed_sfixed64`][LengthDelimited::get_packed_sfixed64]
/// method of [`LengthDelimited`].
#[derive(Clone, Copy, Debug)]
pub struct PackedSfixed64<'a> {
    buf: &'a [u8],
}

impl<'a> View for PackedSfixed64<'a> {
    type V = Seq<u8>;

    closed spec fn view(&self) -> Seq<u8> {
        self.buf@
    }
}

impl<'a> PackedSfixed64<'a> {
    /// Decodes the next element of the run; `None` once it is finished.
    pub fn next(&mut self) -> (r: Option<Result<i64, Error>>)
        ensures
            final(self)@ == fixed_run_rest(old(self)@, 8),
            r == (match fixed_run_next(old(self)@, 8) {
                None => None,
                Some(Ok(b)) => Some(Ok::<i64, Error>(le64_signed(b) as i64)),
                Some(Err(e)) => Some(Err::<i64, Error>(e)),
            }),
    {
        if self.buf.is_empty() {
            return None;
        }
        if self.buf.len() < 8 {
            return Some(Err(Error));
        }
        let f = take8(self.buf);
        let len = self.buf.len();
        self.buf = slice_subrange(self.buf, 8, len);
        proof {
            assert(old(self)@.skip(8) =~= old(self)@.subrange(8, old(self)@.len() as int));
            assert(old(self)@.take(8) =~= old(self)@.subrange(0, 8));
        }
        Some(Ok(f.get_sfixed64()))
    }
}

/// An iterator over values of a packed `double` field.
///
/// This struct is returned from the [`get_packed_double`][LengthDelimited::get_packed_double]
/// method of [`LengthDelimited`].
#[derive(Clone, Copy, Debug)]
pub struct PackedDouble<'a> {
    buf: &'a [u8],
}

impl<'a> View for PackedDouble<'a> {
    type V = Seq<u8>;

    closed spec fn view(&self) -> Seq<u8> {
        self.buf@
    }
}

impl<'a> PackedDouble<'a> {
    /// Reads the bit pattern of the next element of the run; `None` once
    /// it is finished. Interpreting the pattern as an IEEE-754 number is
    /// left to the caller.
    pub fn next_bits(&mut self) -> (r: Option<Result<u64, Error>>)
        ensures
            final(self)@ == fixed_run_rest(old(self)@, 8),
            r == (match fixed_run_next(old(self)@, 8) {
                None => None,
                Some(Ok(b)) => Some(Ok::<u64, Error>(le64(b) as u64)),
                Some(Err(e)) => Some(Err::<u64, Error>(e)),
            }),
    {
        if self.buf.is_empty() {
            return None;
        }
        if self.buf.len() < 8 {
            return Some(Err(Error));
        }
        let f = take8(self.buf);
        let len = self.buf.len();
        self.buf = slice_subrange(self.buf, 8, len);
        proof {
            assert(old(self)@.skip(8) =~= old(self)@.subrange(8, old(self)@.len() as int));
            assert(old(self)@.take(8) =~= old(self)@.subrange(0, 8));
        }
        Some(Ok(f.get_fixed64()))
    }
}

/// An iterator over values of a packed `fixed32` field.
///
/// This struct is returned from the [`get_packed_fixed32`][LengthDelimited::get_packed_fixed32]
/// method of [`LengthDelimited`].
#[derive(Clone, Copy, Debug)]
pub struct PackedFixed32<'a> {
    buf: &'a [u8],
}

impl<'a> View for PackedFixed32<'a> {
    type V = Seq<u8>;

    closed spec fn view(&self) -> Seq<u8> {
        self.buf@
    }
}

impl<'a> PackedFixed32<'a> {
    /// Decodes the next element of the run; `None` once it is finished.
    pub fn next(&mut self) -> (r: Option<Result<u32, Error>>)
        ensures
            final(self)@ == fixed_run_rest(old(self)@, 4),
            r == (match fixed_run_next(old(self)@, 4) {
                None => None,
                Some(Ok(b)) => Some(Ok::<u32, Error>(le32(b) as u32)),
                Some(Err(e)) => Some(Err::<u32, Error>(e)),
            }),
    {
        if self.buf.is_empty() {
            return None;
        }
        if self.buf.len() < 4 {
            return Some(Err(Error));
        }
        let f = take4(self.buf);
        let len = self.buf.len();
        self.buf = slice_subrange(self.buf, 4, len);
        proof {
            assert(old(self)@.skip(4) =~= old(self)@.subrange(4, old(self)@.len() as int));
            assert(old(self)@.take(4) =~= old(self)@.subrange(0, 4));
        }
        Some(Ok(f.get_fixed32()))
    }
}

/// An iterator over values of a packed `sfixed32` field.
///
/// This struct is returned from the [`get_packed_sfixed32`][LengthDelimited::get_packed_sfixed32]
/// method of [`LengthDelimited`].
#[derive(Clone, Copy, Debug)]
pub struct PackedSfixed32<'a> {
    buf: &'a [u8],
}

impl<'a> View for PackedSfixed32<'a> {
    type V = Seq<u8>;

    closed spec fn view(&self) -> Seq<u8> {
        self.buf@
    }
}

impl<'a> PackedSfixed32<'a> {
    /// Decodes the next element of the run; `None` once it is finished.
    pub fn next(&mut self) -> (r: Option<Result<i32, Error>>)
        ensures
            final(self)@ == fixed_run_rest(old(self)@, 4),
            r == (match fixed_run_next(old(self)@, 4) {
                None => None,
                Some(Ok(b)) => Some(Ok::<i32, Error>(le32_signed(b) as i32)),
                Some(Err(e)) => Some(Err::<i32, Error>(e)),
            }),
    {
        if self.buf.is_empty() {
            return None;
        }
        if self.buf.len() < 4 {
            return Some(Err(Error));
        }
        let f = take4(self.buf);
        let len = self.buf.len();
        self.buf = slice_subrange(self.buf, 4, len);
        proof {
            assert(old(self)@.skip(4) =~= old(self)@.subrange(4, old(self)@.len() as int));
            assert(old(self)@.take(4) =~= old(self)@.subrange(0, 4));
        }
        Some(Ok(f.get_sfixed32()))
    }
}

/// An iterator over values of a packed `float` field.
///
/// This struct is returned from the [`get_packed_float`][LengthDelimited::get_packed_float]
/// method of [`LengthDelimited`].
#[derive(Clone, Copy, Debug)]
pub struct PackedFloat<'a> {
    buf: &'a [u8],
}

impl<'a> View for PackedFloat<'a> {
    type V = Seq<u8>;

    closed spec fn view(&self) -> Seq<u8> {
        self.buf@
    }
}

impl<'a> PackedFloat<'a> {
    /// Reads the bit pattern of the next element of the run; `None` once
    /// it is finished. Interpreting the pattern as an IEEE-754 number is
    /// left to the caller.
    pub fn next_bits(&mut self) -> (r: Option<Result<u32, Error>>)
        ensures
            final(self)@ == fixed_run_rest(old(self)@, 4),
            r == (match fixed_run_next(old(self)@, 4) {
                None => None,
                Some(Ok(b)) => Some(Ok::<u32, Error>(le32(b) as u32)),
                Some(Err(e)) => Some(Err::<u32, Error>(e)),
            }),
    {
        if self.buf.is_empty() {
            return None;
        }
        if self.buf.len() < 4 {
            return Some(Err(Error));
        }
        let f = take4(self.buf);
        let len = self.buf.len();
        self.buf = slice_subrange(self.buf, 4, len);
        proof {
            assert(old(self)@.skip(4) =~= old(self)@.subrange(4, old(self)@.len() as int));
            assert(old(self)@.take(4) =~= old(self)@.subrange(0, 4));
        }
        Some(Ok(f.get_fixed32()))
    }
}

impl<'a> FieldValue<'a> {
    /// Returns the value of a `bool` field.
    ///
    /// If the wire type is not compatible, `Err` is returned.
    pub fn get_bool(&self) -> (r: Result<bool, Error>)
        ensures
            r is Ok <==> self@ is Varint,
            self@ matches FieldValueModel::Varint(v) ==> r == Ok::<bool, Error>(v != 0),
    {
        match self {
            FieldValue::Varint(f) => Ok(f.get_bool()),
            _ => Err(Error),
        }
    }

    /// Returns the value of an `enum` field.
    ///
    /// If the wire type is not compatible, `Err` is returned.
    pub fn get_enum(&self) -> (r: Result<i32, Error>)
        ensures
            r is Ok <==> self@ is Varint,
            self@ matches FieldValueModel::Varint(v) ==> r == Ok::<i32, Error>(as_int32(v)),
    {
        match self {
            FieldValue::Varint(f) => Ok(f.get_enum()),
            _ => Err(Error),
        }
    }

    /// Returns the value of an `int32` field.
    ///
    /// If the wire type is not compatible, `Err` is returned.
    pub fn get_int32(&self) -> (r: Result<i32, Error>)
        ensures
            r is Ok <==> self@ is Varint,
            self@ matches FieldValueModel::Varint(v) ==> r == Ok::<i32, Error>(as_int32(v)),
    {
        match self {
            FieldValue::Varint(f) => Ok(f.get_int32()),
            _ => Err(Error),
        }
    }

    /// Returns the value of an `int64` field.
    ///
    /// If the wire type is not compatible, `Err` is returned.
    pub fn get_int64(&self) -> (r: Result<i64, Error>)
        ensures
            r is Ok <==> self@ is Varint,
            self@ matches FieldValueModel::Varint(v) ==> r == Ok::<i64, Error>(as_int64(v)),
    {
        match self {
            FieldValue::Varint(f) => Ok(f.get_int64()),
            _ => Err(Error),
        }
    }

    /// Returns the value of a `sint32` field.
    ///
    /// If the wire type is not compatible, `Err` is returned.
    pub fn get_sint32(&self) -> (r: Result<i32, Error>)
        ensures
            r is Ok <==> self@ is Varint,
            self@ matches FieldValueModel::Varint(v) ==> r == Ok::<i32, Error>(as_sint32(v)),
    {
        match self {
            FieldValue::Varint(f) => Ok(f.get_sint32()),
            _ => Err(Error),
        }
    }

    /// Returns the value of a `sint64` field.
    ///
    /// If the wire type is not compatible, `Err` is returned.
    pub fn get_sint64(&self) -> (r: Result<i64, Error>)
        ensures
            r is Ok <==> self@ is Varint,
            self@ matches FieldValueModel::Varint(v) ==> r == Ok::<i64, Error>(as_sint64(v)),
    {
        match self {
            FieldValue::Varint(f) => Ok(f.get_sint64()),
            _ => Err(Error),
        }
    }

    /// Returns the value of a `uint32` field.
    ///
    /// If the wire type is not compatible, `Err` is returned.
    pub fn get_uint32(&self) -> (r: Result<u32, Error>)
        ensures
            r is Ok <==> self@ is Varint,
            self@ matches FieldValueModel::Varint(v) ==> r == Ok::<u32, Error>(truncate32(v)),
    {
        match self {
            FieldValue::Varint(f) => Ok(f.get_uint32()),
            _ => Err(Error),
        }
    }

    /// Returns the value of a `uint64` field.
    ///
    /// If the wire type is not compatible, `Err` is returned.
    pub fn get_uint64(&self) -> (r: Result<u64, Error>)
        ensures
            r is Ok <==> self@ is Varint,
            self@ matches FieldValueModel::Varint(v) ==> r == Ok::<u64, Error>(v),
    {
        match self {
            FieldValue::Varint(f) => Ok(f.get_uint64()),
            _ => Err(Error),
        }
    }

    /// Returns the value of a `fixed64` field.
    ///
    /// If the wire type is not compatible, `Err` is returned.
    pub fn get_fixed64(&self) -> (r: Result<u64, Error>)
        ensures
            r is Ok <==> self@ is Fixed64,
            self@ matches FieldValueModel::Fixed64(b) ==> r == Ok::<u64, Error>(le64(b) as u64),
    {
        match self {
            FieldValue::Fixed64(f) => Ok(f.get_fixed64()),
            _ => Err(Error),
        }
    }

    /// Returns the value of a `sfixed64` field.
    ///
    /// If the wire type is not compatible, `Err` is returned.
    pub fn get_sfixed64(&self) -> (r: Result<i64, Error>)
        ensures
            r is Ok <==> self@ is Fixed64,
            self@ matches FieldValueModel::Fixed64(b) ==> r == Ok::<i64, Error>(le64_signed(b) as i64),
    {
        match self {
            FieldValue::Fixed64(f) => Ok(f.get_sfixed64()),
            _ => Err(Error),
        }
    }

    /// Returns the value of a `bytes` field.
    ///
    /// If the wire type is not compatible, `Err` is returned.
    pub fn get_bytes(&self) -> (r: Result<&'a [u8], Error>)
        ensures
            r is Ok <==> self@ is LengthDelimited,
            self@ matches FieldValueModel::LengthDelimited(b) ==> (r matches Ok(x) && x@ == b),
    {
        match self {
            FieldValue::LengthDelimited(f) => Ok(f.get_bytes()),
            _ => Err(Error),
        }
    }

    /// Returns the value of a `message` field.
    ///
    /// If the wire type is not compatible, `Err` is returned.
    pub fn get_message(&self) -> (r: Result<Message<'a>, Error>)
        ensures
            r is Ok <==> self@ is LengthDelimited,
            self@ matches FieldValueModel::LengthDelimited(b) ==> (r matches Ok(m) && m@ == b),
    {
        match self {
            FieldValue::LengthDelimited(f) => Ok(f.get_message()),
            _ => Err(Error),
        }
    }

    /// Returns the value of a `string` field.
    ///
    /// If the wire type is not compatible, or the bytes are not valid
    /// UTF-8, `Err` is returned.
    pub fn get_string(&self) -> (r: Result<&'a str, Error>)
        ensures
            self@ matches FieldValueModel::LengthDelimited(b) ==> {
                &&& r is Ok <==> valid_utf8(b)
                &&& r matches Ok(s) ==> s@ == decode_utf8(b)
            },
            !(self@ is LengthDelimited) ==> r is Err,
    {
        match self {
            FieldValue::LengthDelimited(f) => f.get_string(),
            _ => Err(Error),
        }
    }

    /// Returns the value of a `fixed32` field.
    ///
    /// If the wire type is not compatible, `Err` is returned.
    pub fn get_fixed32(&self) -> (r: Result<u32, Error>)
        ensures
            r is Ok <==> self@ is Fixed32,
            self@ matches FieldValueModel::Fixed32(b) ==> r == Ok::<u32, Error>(le32(b) as u32),
    {
        match self {
            FieldValue::Fixed32(f) => Ok(f.get_fixed32()),
            _ => Err(Error),
        }
    }

    /// Returns the value of a `sfixed32` field.
    ///
    /// If the wire type is not compatible, `Err` is returned.
    pub fn get_sfixed32(&self) -> (r: Result<i32, Error>)
        ensures
            r is Ok <==> self@ is Fixed32,
            self@ matches FieldValueModel::Fixed32(b) ==> r == Ok::<i32, Error>(le32_signed(b) as i32),
    {
        match self {
            FieldValue::Fixed32(f) => Ok(f.get_sfixed32()),
            _ => Err(Error),
        }
    }

    /// Returns an iterator over values of a repeated `bool` field,
    /// covering both the non-packed and the packed encoding.
    ///
    /// If the wire type is not compatible, `Err` is returned.
    pub fn get_repeated_bool(&self) -> (r: Result<Repeated<bool, PackedBool<'a>>, Error>)
        ensures
            r is Ok <==> (self@ is Varint || self@ is LengthDelimited),
            self@ matches FieldValueModel::Varint(v) ==> r == Ok::<Repeated<bool, PackedBool<'a>>, Error>(
                Repeated::Value(Some(v != 0)),
            ),
            self@ matches FieldValueModel::LengthDelimited(b) ==> (r matches Ok(rep)
                && rep matches Repeated::Packed(p) && p@ == b),
    {
        match self {
            FieldValue::Varint(f) => Ok(Repeated::Value(Some(f.get_bool()))),
            FieldValue::LengthDelimited(f) => Ok(Repeated::Packed(f.get_packed_bool())),
            _ => Err(Error),
        }
    }

    /// Returns an iterator over values of a repeated `enum` field,
    /// covering both the non-packed and the packed encoding.
    ///
    /// If the wire type is not compatible, `Err` is returned.
    pub fn get_repeated_enum(&self) -> (r: Result<Repeated<i32, PackedEnum<'a>>, Error>)
        ensures
            r is Ok <==> (self@ is Varint || self@ is LengthDelimited),
            self@ matches FieldValueModel::Varint(v) ==> r == Ok::<Repeated<i32, PackedEnum<'a>>, Error>(
                Repeated::Value(Some(as_int32(v))),
            ),
            self@ matches FieldValueModel::LengthDelimited(b) ==> (r matches Ok(rep)
                && rep matches Repeated::Packed(p) && p@ == b),
    {
        match self {
            FieldValue::Varint(f) => Ok(Repeated::Value(Some(f.get_enum()))),
            FieldValue::LengthDelimited(f) => Ok(Repeated::Packed(f.get_packed_enum())),
            _ => Err(Error),
        }
    }

    /// Returns an iterator over values of a repeated `int32` field,
    /// covering both the non-packed and the packed encoding.
    ///
    /// If the wire type is not compatible, `Err` is returned.
    pub fn get_repeated_int32(&self) -> (r: Result<Repeated<i32, PackedInt32<'a>>, Error>)
        ensures
            r is Ok <==> (self@ is Varint || self@ is LengthDelimited),
            self@ matches FieldValueModel::Varint(v) ==> r == Ok::<Repeated<i32, PackedInt32<'a>>, Error>(
                Repeated::Value(Some(as_int32(v))),
            ),
            self@ matches FieldValueModel::LengthDelimited(b) ==> (r matches Ok(rep)
                && rep matches Repeated::Packed(p) && p@ == b),
    {
        match self {
            FieldValue::Varint(f) => Ok(Repeated::Value(Some(f.get_int32()))),
            FieldValue::LengthDelimited(f) => Ok(Repeated::Packed(f.get_packed_int32())),
            _ => Err(Error),
        }
    }

    /// Returns an iterator over values of a repeated `int64` field,
    /// covering both the non-packed and the packed encoding.
    ///
    /// If the wire type is not compatible, `Err` is returned.
    pub fn get_repeated_int64(&self) -> (r: Result<Repeated<i64, PackedInt64<'a>>, Error>)
        ensures
            r is Ok <==> (self@ is Varint || self@ is LengthDelimited),
            self@ matches FieldValueModel::Varint(v) ==> r == Ok::<Repeated<i64, PackedInt64<'a>>, Error>(
                Repeated::Value(Some(as_int64(v))),
            ),
            self@ matches FieldValueModel::LengthDelimited(b) ==> (r matches Ok(rep)
                && rep matches Repeated::Packed(p) && p@ == b),
    {
        match self {
            FieldValue::Varint(f) => Ok(Repeated::Value(Some(f.get_int64()))),
            FieldValue::LengthDelimited(f) => Ok(Repeated::Packed(f.get_packed_int64())),
            _ => Err(Error),
        }
    }

    /// Returns an iterator over values of a repeated `sint32` field,
    /// covering both the non-packed and the packed encoding.
    ///
    /// If the wire type is not compatible, `Err` is returned.
    pub fn get_repeated_sint32(&self) -> (r: Result<Repeated<i32, PackedSint32<'a>>, Error>)
        ensures
            r is Ok <==> (self@ is Varint || self@ is LengthDelimited),
            self@ matches FieldValueModel::Varint(v) ==> r == Ok::<Repeated<i32, PackedSint32<'a>>, Error>(
                Repeated::Value(Some(as_sint32(v))),
            ),
            self@ matches FieldValueModel::LengthDelimited(b) ==> (r matches Ok(rep)
                && rep matches Repeated::Packed(p) && p@ == b),
    {
        match self {
            FieldValue::Varint(f) => Ok(Repeated::Value(Some(f.get_sint32()))),
            FieldValue::LengthDelimited(f) => Ok(Repeated::Packed(f.get_packed_sint32())),
            _ => Err(Error),
        }
    }

    /// Returns an iterator over values of a repeated `sint64` field,
    /// covering both the non-packed and the packed encoding.
    ///
    /// If the wire type is not compatible, `Err` is returned.
    pub fn get_repeated_sint64(&self) -> (r: Result<Repeated<i64, PackedSint64<'a>>, Error>)
        ensures
            r is Ok <==> (self@ is Varint || self@ is LengthDelimited),
            self@ matches FieldValueModel::Varint(v) ==> r == Ok::<Repeated<i64, PackedSint64<'a>>, Error>(
                Repeated::Value(Some(as_sint64(v))),
            ),
            self@ matches FieldValueModel::LengthDelimited(b) ==> (r matches Ok(rep)
                && rep matches Repeated::Packed(p) && p@ == b),
    {
        match self {
            FieldValue::Varint(f) => Ok(Repeated::Value(Some(f.get_sint64()))),
            FieldValue::LengthDelimited(f) => Ok(Repeated::Packed(f.get_packed_sint64())),
            _ => Err(Error),
        }
    }

    /// Returns an iterator over values of a repeated `uint32` field,
    /// covering both the non-packed and the packed encoding.
    ///
    /// If the wire type is not compatible, `Err` is returned.
    pub fn get_repeated_uint32(&self) -> (r: Result<Repeated<u32, PackedUint32<'a>>, Error>)
        ensures
            r is Ok <==> (self@ is Varint || self@ is LengthDelimited),
            self@ matches FieldValueModel::Varint(v) ==> r == Ok::<Repeated<u32, PackedUint32<'a>>, Error>(
                Repeated::Value(Some(truncate32(v))),
            ),
            self@ matches FieldValueModel::LengthDelimited(b) ==> (r matches Ok(rep)
                && rep matches Repeated::Packed(p) && p@ == b),
    {
        match self {
            FieldValue::Varint(f) => Ok(Repeated::Value(Some(f.get_uint32()))),
            FieldValue::LengthDelimited(f) => Ok(Repeated::Packed(f.get_packed_uint32())),
            _ => Err(Error),
        }
    }

    /// Returns an iterator over values of a repeated `uint64` field,
    /// covering both the non-packed and the packed encoding.
    ///
    /// If the wire type is not compatible, `Err` is returned.
    pub fn get_repeated_uint64(&self) -> (r: Result<Repeated<u64, PackedUint64<'a>>, Error>)
        ensures
            r is Ok <==> (self@ is Varint || self@ is LengthDelimited),
            self@ matches FieldValueModel::Varint(v) ==> r == Ok::<Repeated<u64, PackedUint64<'a>>, Error>(
                Repeated::Value(Some(v)),
            ),
            self@ matches FieldValueModel::LengthDelimited(b) ==> (r matches Ok(rep)
                && rep matches Repeated::Packed(p) && p@ == b),
    {
        match self {
            FieldValue::Varint(f) => Ok(Repeated::Value(Some(f.get_uint64()))),
            FieldValue::LengthDelimited(f) => Ok(Repeated::Packed(f.get_packed_uint64())),
            _ => Err(Error),
        }
    }

    /// Returns an iterator over values of a repeated `fixed64` field,
    /// covering both the non-packed and the packed encoding.
    ///
    /// If the wire type is not compatible, `Err` is returned.
    pub fn get_repeated_fixed64(&self) -> (r: Result<Repeated<u64, PackedFixed64<'a>>, Error>)
        ensures
            r is Ok <==> (self@ is Fixed64 || self@ is LengthDelimited),
            self@ matches FieldValueModel::Fixed64(b) ==> r == Ok::<Repeated<u64, PackedFixed64<'a>>, Error>(
                Repeated::Value(Some(le64(b) as u64)),
            ),
            self@ matches FieldValueModel::LengthDelimited(b) ==> (r matches Ok(rep)
                && rep matches Repeated::Packed(p) && p@ == b),
    {
        match self {
            FieldValue::Fixed64(f) => Ok(Repeated::Value(Some(f.get_fixed64()))),
            FieldValue::LengthDelimited(f) => Ok(Repeated::Packed(f.get_packed_fixed64())),
            _ => Err(Error),
        }
    }

    /// Returns an iterator over values of a repeated `sfixed64` field,
    /// covering both the non-packed and the packed encoding.
    ///
    /// If the wire type is not compatible, `Err` is returned.
    pub fn get_repeated_sfixed64(&self) -> (r: Result<Repeated<i64, PackedSfixed64<'a>>, Error>)
        ensures
            r is Ok <==> (self@ is Fixed64 || self@ is LengthDelimited),
            self@ matches FieldValueModel::Fixed64(b) ==> r == Ok::<Repeated<i64, PackedSfixed64<'a>>, Error>(
                Repeated::Value(Some(le64_signed(b) as i64)),
            ),
            self@ matches FieldValueModel::LengthDelimited(b) ==> (r matches Ok(rep)
                && rep matches Repeated::Packed(p) && p@ == b),
    {
        match self {
            FieldValue::Fixed64(f) => Ok(Repeated::Value(Some(f.get_sfixed64()))),
            FieldValue::LengthDelimited(f) => Ok(Repeated::Packed(f.get_packed_sfixed64())),
            _ => Err(Error),
        }
    }

    /// Returns an iterator over values of a repeated `fixed32` field,
    /// covering both the non-packed and the packed encoding.
    ///
    /// If the wire type is not compatible, `Err` is returned.
    pub fn get_repeated_fixed32(&self) -> (r: Result<Repeated<u32, PackedFixed32<'a>>, Error>)
        ensures
            r is Ok <==> (self@ is Fixed32 || self@ is LengthDelimited),
            self@ matches FieldValueModel::Fixed32(b) ==> r == Ok::<Repeated<u32, PackedFixed32<'a>>, Error>(
                Repeated::Value(Some(le32(b) as u32)),
            ),
            self@ matches FieldValueModel::LengthDelimited(b) ==> (r matches Ok(rep)
                && rep matches Repeated::Packed(p) && p@ == b),
    {
        match self {
            FieldValue::Fixed32(f) => Ok(Repeated::Value(Some(f.get_fixed32()))),
            FieldValue::LengthDelimited(f) => Ok(Repeated::Packed(f.get_packed_fixed32())),
            _ => Err(Error),
        }
    }

    /// Returns an iterator over values of a repeated `sfixed32` field,
    /// covering both the non-packed and the packed encoding.
    ///
    /// If the wire type is not compatible, `Err` is returned.
    pub fn get_repeated_sfixed32(&self) -> (r: Result<Repeated<i32, PackedSfixed32<'a>>, Error>)
        ensures
            r is Ok <==> (self@ is Fixed32 || self@ is LengthDelimited),
            self@ matches FieldValueModel::Fixed32(b) ==> r == Ok::<Repeated<i32, PackedSfixed32<'a>>, Error>(
                Repeated::Value(Some(le32_signed(b) as i32)),
            ),
            self@ matches FieldValueModel::LengthDelimited(b) ==> (r matches Ok(rep)
                && rep matches Repeated::Packed(p) && p@ == b),
    {
        match self {
            FieldValue::Fixed32(f) => Ok(Repeated::Value(Some(f.get_sfixed32()))),
            FieldValue::LengthDelimited(f) => Ok(Repeated::Packed(f.get_packed_sfixed32())),
            _ => Err(Error),
        }
    }

}

/// An iterator over repeated values of a field: either a single non-packed
/// occurrence, yielded exactly once, or a packed run decoded element by
/// element, behind one interface.
#[derive(Clone, Copy, Debug)]
pub enum Repeated<T, P> {
    /// A single already-decoded value from a non-packed occurrence.
    Value(Option<T>),
    /// A packed run of values.
    Packed(P),
}

impl<'a> Repeated<bool, PackedBool<'a>> {
    /// Steps the adapter: a single value is yielded exactly once; a packed
    /// run is decoded element by element.
    pub fn next(&mut self) -> (r: Option<Result<bool, Error>>)
        ensures
            *old(self) matches Repeated::Value(v) ==> {
                &&& r == (match v { Some(x) => Some(Ok::<bool, Error>(x)), None => None })
                &&& *final(self) == Repeated::<bool, PackedBool<'a>>::Value(None)
            },
            *old(self) matches Repeated::Packed(p) ==> (*final(self) matches Repeated::Packed(q) && {
                &&& q@ == varint_run_rest(p@)
                &&& r == (match varint_run_next(p@) {
                    None => None,
                    Some(Ok(v)) => Some(Ok::<bool, Error>(v != 0)),
                    Some(Err(e)) => Some(Err::<bool, Error>(e)),
                })
            }),
    {
        match *self {
            Repeated::Value(v) => {
                *self = Repeated::Value(None);
                match v {
                    Some(x) => Some(Ok(x)),
                    None => None,
                }
            }
            Repeated::Packed(mut p) => {
                let r = p.next();
                *self = Repeated::Packed(p);
                r
            }
        }
    }
}

impl<'a> Repeated<i32, PackedEnum<'a>> {
    /// Steps the adapter: a single value is yielded exactly once; a packed
    /// run is decoded element by element.
    pub fn next(&mut self) -> (r: Option<Result<i32, Error>>)
        ensures
            *old(self) matches Repeated::Value(v) ==> {
                &&& r == (match v { Some(x) => Some(Ok::<i32, Error>(x)), None => None })
                &&& *final(self) == Repeated::<i32, PackedEnum<'a>>::Value(None)
            },
            *old(self) matches Repeated::Packed(p) ==> (*final(self) matches Repeated::Packed(q) && {
                &&& q@ == varint_run_rest(p@)
                &&& r == (match varint_run_next(p@) {
                    None => None,
                    Some(Ok(v)) => Some(Ok::<i32, Error>(as_int32(v))),
                    Some(Err(e)) => Some(Err::<i32, Error>(e)),
                })
            }),
    {
        match *self {
            Repeated::Value(v) => {
                *self = Repeated::Value(None);
                match v {
                    Some(x) => Some(Ok(x)),
                    None => None,
                }
            }
            Repeated::Packed(mut p) => {
                let r = p.next();
                *self = Repeated::Packed(p);
                r
            }
        }
    }
}

impl<'a> Repeated<i32, PackedInt32<'a>> {
    /// Steps the adapter: a single value is yielded exactly once; a packed
    /// run is decoded element by element.
    pub fn next(&mut self) -> (r: Option<Result<i32, Error>>)
        ensures
            *old(self) matches Repeated::Value(v) ==> {
                &&& r == (match v { Some(x) => Some(Ok::<i32, Error>(x)), None => None })
                &&& *final(self) == Repeated::<i32, PackedInt32<'a>>::Value(None)
            },
            *old(self) matches Repeated::Packed(p) ==> (*final(self) matches Repeated::Packed(q) && {
                &&& q@ == varint_run_rest(p@)
                &&& r == (match varint_run_next(p@) {
                    None => None,
                    Some(Ok(v)) => Some(Ok::<i32, Error>(as_int32(v))),
                    Some(Err(e)) => Some(Err::<i32, Error>(e)),
                })
            }),
    {
        match *self {
            Repeated::Value(v) => {
                *self = Repeated::Value(None);
                match v {
                    Some(x) => Some(Ok(x)),
                    None => None,
                }
            }
            Repeated::Packed(mut p) => {
                let r = p.next();
                *self = Repeated::Packed(p);
                r
            }
        }
    }
}

impl<'a> Repeated<i64, PackedInt64<'a>> {
    /// Steps the adapter: a single value is yielded exactly once; a packed
    /// run is decoded element by element.
    pub fn next(&mut self) -> (r: Option<Result<i64, Error>>)
        ensures
            *old(self) matches Repeated::Value(v) ==> {
                &&& r == (match v { Some(x) => Some(Ok::<i64, Error>(x)), None => None })
                &&& *final(self) == Repeated::<i64, PackedInt64<'a>>::Value(None)
            },
            *old(self) matches Repeated::Packed(p) ==> (*final(self) matches Repeated::Packed(q) && {
                &&& q@ == varint_run_rest(p@)
                &&& r == (match varint_run_next(p@) {
                    None => None,
                    Some(Ok(v)) => Some(Ok::<i64, Error>(as_int64(v))),
                    Some(Err(e)) => Some(Err::<i64, Error>(e)),
                })
            }),
    {
        match *self {
            Repeated::Value(v) => {
                *self = Repeated::Value(None);
                match v {
                    Some(x) => Some(Ok(x)),
                    None => None,
                }
            }
            Repeated::Packed(mut p) => {
                let r = p.next();
                *self = Repeated::Packed(p);
                r
            }
        }
    }
}

impl<'a> Repeated<i32, PackedSint32<'a>> {
    /// Steps the adapter: a single value is yielded exactly once; a packed
    /// run is decoded element by element.
    pub fn next(&mut self) -> (r: Option<Result<i32, Error>>)
        ensures
            *old(self) matches Repeated::Value(v) ==> {
                &&& r == (match v { Some(x) => Some(Ok::<i32, Error>(x)), None => None })
                &&& *final(self) == Repeated::<i32, PackedSint32<'a>>::Value(None)
            },
            *old(self) matches Repeated::Packed(p) ==> (*final(self) matches Repeated::Packed(q) && {
                &&& q@ == varint_run_rest(p@)
                &&& r == (match varint_run_next(p@) {
                    None => None,
                    Some(Ok(v)) => Some(Ok::<i32, Error>(as_sint32(v))),
                    Some(Err(e)) => Some(Err::<i32, Error>(e)),
                })
            }),
    {
        match *self {
            Repeated::Value(v) => {
                *self = Repeated::Value(None);
                match v {
                    Some(x) => Some(Ok(x)),
                    None => None,
                }
            }
            Repeated::Packed(mut p) => {
                let r = p.next();
                *self = Repeated::Packed(p);
                r
            }
        }
    }
}

impl<'a> Repeated<i64, PackedSint64<'a>> {
    /// Steps the adapter: a single value is yielded exactly once; a packed
    /// run is decoded element by element.
    pub fn next(&mut self) -> (r: Option<Result<i64, Error>>)
        ensures
            *old(self) matches Repeated::Value(v) ==> {
                &&& r == (match v { Some(x) => Some(Ok::<i64, Error>(x)), None => None })
                &&& *final(self) == Repeated::<i64, PackedSint64<'a>>::Value(None)
            },
            *old(self) matches Repeated::Packed(p) ==> (*final(self) matches Repeated::Packed(q) && {
                &&& q@ == varint_run_rest(p@)
                &&& r == (match varint_run_next(p@) {
                    None => None,
                    Some(Ok(v)) => Some(Ok::<i64, Error>(as_sint64(v))),
                    Some(Err(e)) => Some(Err::<i64, Error>(e)),
                })
            }),
    {
        match *self {
            Repeated::Value(v) => {
                *self = Repeated::Value(None);
                match v {
                    Some(x) => Some(Ok(x)),
                    None => None,
                }
            }
            Repeated::Packed(mut p) => {
                let r = p.next();
                *self = Repeated::Packed(p);
                r
            }
        }
    }
}

impl<'a> Repeated<u32, PackedUint32<'a>> {
    /// Steps the adapter: a single value is yielded exactly once; a packed
    /// run is decoded element by element.
    pub fn next(&mut self) -> (r: Option<Result<u32, Error>>)
        ensures
            *old(self) matches Repeated::Value(v) ==> {
                &&& r == (match v { Some(x) => Some(Ok::<u32, Error>(x)), None => None })
                &&& *final(self) == Repeated::<u32, PackedUint32<'a>>::Value(None)
            },
            *old(self) matches Repeated::Packed(p) ==> (*final(self) matches Repeated::Packed(q) && {
                &&& q@ == varint_run_rest(p@)
                &&& r == (match varint_run_next(p@) {
                    None => None,
                    Some(Ok(v)) => Some(Ok::<u32, Error>(truncate32(v))),
                    Some(Err(e)) => Some(Err::<u32, Error>(e)),
                })
            }),
    {
        match *self {
            Repeated::Value(v) => {
                *self = Repeated::Value(None);
                match v {
                    Some(x) => Some(Ok(x)),
                    None => None,
                }
            }
            Repeated::Packed(mut p) => {
                let r = p.next();
                *self = Repeated::Packed(p);
                r
            }
        }
    }
}

impl<'a> Repeated<u64, PackedUint64<'a>> {
    /// Steps the adapter: a single value is yielded exactly once; a packed
    /// run is decoded element by element.
    pub fn next(&mut self) -> (r: Option<Result<u64, Error>>)
        ensures
            *old(self) matches Repeated::Value(v) ==> {
                &&& r == (match v { Some(x) => Some(Ok::<u64, Error>(x)), None => None })
                &&& *final(self) == Repeated::<u64, PackedUint64<'a>>::Value(None)
            },
            *old(self) matches Repeated::Packed(p) ==> (*final(self) matches Repeated::Packed(q) && {
                &&& q@ == varint_run_rest(p@)
                &&& r == (match varint_run_next(p@) {
                    None => None,
                    Some(Ok(v)) => Some(Ok::<u64, Error>(v)),
                    Some(Err(e)) => Some(Err::<u64, Error>(e)),
                })
            }),
    {
        match *self {
            Repeated::Value(v) => {
                *self = Repeated::Value(None);
                match v {
                    Some(x) => Some(Ok(x)),
                    None => None,
                }
            }
            Repeated::Packed(mut p) => {
                let r = p.next();
                *self = Repeated::Packed(p);
                r
            }
        }
    }
}

impl<'a> Repeated<u64, PackedFixed64<'a>> {
    /// Steps the adapter: a single value is yielded exactly once; a packed
    /// run is decoded element by element.
    pub fn next(&mut self) -> (r: Option<Result<u64, Error>>)
        ensures
            *old(self) matches Repeated::Value(v) ==> {
                &&& r == (match v { Some(x) => Some(Ok::<u64, Error>(x)), None => None })
                &&& *final(self) == Repeated::<u64, PackedFixed64<'a>>::Value(None)
            },
            *old(self) matches Repeated::Packed(p) ==> (*final(self) matches Repeated::Packed(q) && {
                &&& q@ == fixed_run_rest(p@, 8)
                &&& r == (match fixed_run_next(p@, 8) {
                    None => None,
                    Some(Ok(b)) => Some(Ok::<u64, Error>(le64(b) as u64)),
                    Some(Err(e)) => Some(Err::<u64, Error>(e)),
                })
            }),
    {
        match *self {
            Repeated::Value(v) => {
                *self = Repeated::Value(None);
                match v {
                    Some(x) => Some(Ok(x)),
                    None => None,
                }
            }
            Repeated::Packed(mut p) => {
                let r = p.next();
                *self = Repeated::Packed(p);
                r
            }
        }
    }
}

impl<'a> Repeated<i64, PackedSfixed64<'a>> {
    /// Steps the adapter: a single value is yielded exactly once; a packed
    /// run is decoded element by element.
    pub fn next(&mut self) -> (r: Option<Result<i64, Error>>)
        ensures
            *old(self) matches Repeated::Value(v) ==> {
                &&& r == (match v { Some(x) => Some(Ok::<i64, Error>(x)), None => None })
                &&& *final(self) == Repeated::<i64, PackedSfixed64<'a>>::Value(None)
            },
            *old(self) matches Repeated::Packed(p) ==> (*final(self) matches Repeated::Packed(q) && {
                &&& q@ == fixed_run_rest(p@, 8)
                &&& r == (match fixed_run_next(p@, 8) {
                    None => None,
                    Some(Ok(b)) => Some(Ok::<i64, Error>(le64_signed(b) as i64)),
                    Some(Err(e)) => Some(Err::<i64, Error>(e)),
                })
            }),
    {
        match *self {
            Repeated::Value(v) => {
                *self = Repeated::Value(None);
                match v {
                    Some(x) => Some(Ok(x)),
                    None => None,
                }
            }
            Repeated::Packed(mut p) => {
                let r = p.next();
                *self = Repeated::Packed(p);
                r
            }
        }
    }
}

impl<'a> Repeated<u32, PackedFixed32<'a>> {
    /// Steps the adapter: a single value is yielded exactly once; a packed
    /// run is decoded element by element.
    pub fn next(&mut self) -> (r: Option<Result<u32, Error>>)
        ensures
            *old(self) matches Repeated::Value(v) ==> {
                &&& r == (match v { Some(x) => Some(Ok::<u32, Error>(x)), None => None })
                &&& *final(self) == Repeated::<u32, PackedFixed32<'a>>::Value(None)
            },
            *old(self) matches Repeated::Packed(p) ==> (*final(self) matches Repeated::Packed(q) && {
                &&& q@ == fixed_run_rest(p@, 4)
                &&& r == (match fixed_run_next(p@, 4) {
                    None => None,
                    Some(Ok(b)) => Some(Ok::<u32, Error>(le32(b) as u32)),
                    Some(Err(e)) => Some(Err::<u32, Error>(e)),
                })
            }),
    {
        match *self {
            Repeated::Value(v) => {
                *self = Repeated::Value(None);
                match v {
                    Some(x) => Some(Ok(x)),
                    None => None,
                }
            }
            Repeated::Packed(mut p) => {
                let r = p.next();
                *self = Repeated::Packed(p);
                r
            }
        }
    }
}

impl<'a> Repeated<i32, PackedSfixed32<'a>> {
    /// Steps the adapter: a single value is yielded exactly once; a packed
    /// run is decoded element by element.
    pub fn next(&mut self) -> (r: Option<Result<i32, Error>>)
        ensures
            *old(self) matches Repeated::Value(v) ==> {
                &&& r == (match v { Some(x) => Some(Ok::<i32, Error>(x)), None => None })
                &&& *final(self) == Repeated::<i32, PackedSfixed32<'a>>::Value(None)
            },
            *old(self) matches Repeated::Packed(p) ==> (*final(self) matches Repeated::Packed(q) && {
                &&& q@ == fixed_run_rest(p@, 4)
                &&& r == (match fixed_run_next(p@, 4) {
                    None => None,
                    Some(Ok(b)) => Some(Ok::<i32, Error>(le32_signed(b) as i32)),
                    Some(Err(e)) => Some(Err::<i32, Error>(e)),
                })
            }),
    {
        match *self {
            Repeated::Value(v) => {
                *self = Repeated::Value(None);
                match v {
                    Some(x) => Some(Ok(x)),
                    None => None,
                }
            }
            Repeated::Packed(mut p) => {
                let r = p.next();
                *self = Repeated::Packed(p);
                r
            }
        }
    }
}

/// A packed varint run holding exactly one element yields that one value
/// and is then finished: through the adapter it produces the same
/// one-element sequence as a single non-packed occurrence of the value.
pub proof fn lemma_packed_single_varint(s: Seq<u8>)
    requires
        varint_ok(s),
        varint_size(s) == s.len(),
    ensures
        varint_run_next(s) == Some(Ok::<u64, Error>(varint_value(s))),
        varint_run_rest(s).len() == 0,
        varint_run_next(varint_run_rest(s)) is None,
{
}

/// A packed fixed-width run holding exactly one element yields that
/// element's bytes and is then finished: through the adapter it produces
/// the same one-element sequence as a single non-packed occurrence.
pub proof fn lemma_packed_single_fixed(s: Seq<u8>, w: int)
    requires
        0 < w,
        w == s.len(),
    ensures
        fixed_run_next(s, w) == Some(Ok::<Seq<u8>, Error>(s)),
        fixed_run_rest(s, w).len() == 0,
        fixed_run_next(fixed_run_rest(s, w), w) is None,
{
    assert(s.take(w) =~= s);
}

} // verus!
