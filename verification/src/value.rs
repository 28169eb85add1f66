//! The dynamic value: a closed tagged union with strict conversions to and
//! from native scalar types.

use vstd::prelude::*;
use vstd::string::StringExecFns;
use crate::error::{res_view, Error, ErrorView};

verus! {

/// The discrete tag of a dynamic value's active variant, for callers that
/// branch on type without destructuring.
#[derive(Debug, Clone, Copy, PartialEq, Eq, Structural)]
pub enum DataType {
    String,
    Integer,
    Number,
    Boolean,
    Bytes,
    Nil,
}

/// A dynamic value. Exactly one variant is active at a time.
///
/// `Number` stands for a 64-bit floating-point value and holds its IEEE 754
/// bit pattern. Producing that pattern from a float, and rendering or
/// reading the float it denotes, is floating-point work left to the caller;
/// inside this crate the payload is carried as a plain integer, and two
/// `Number`s are equal exactly when their bit patterns are.
#[derive(Debug, Clone, PartialEq, Eq)]
pub enum Value {
    String(String),
    Integer(i64),
    Number(u64),
    Boolean(bool),
    Bytes(Vec<u8>),
    Nil,
}

/// The mathematical model of a [`Value`]: text as a sequence of characters,
/// bytes as a sequence of bytes.
pub enum ValueView {
    String(Seq<char>),
    Integer(i64),
    Number(u64),
    Boolean(bool),
    Bytes(Seq<u8>),
    Nil,
}

impl View for Value {
    type V = ValueView;

    open spec fn view(&self) -> ValueView {
        match self {
            Value::String(text) => ValueView::String(text@),
            Value::Integer(v) => ValueView::Integer(*v),
            Value::Number(bits) => ValueView::Number(*bits),
            Value::Boolean(v) => ValueView::Boolean(*v),
            Value::Bytes(bytes) => ValueView::Bytes(bytes@),
            Value::Nil => ValueView::Nil,
        }
    }
}

/// The tag of a modelled value; [`Value::get_type`] returns exactly this.
pub open spec fn kind_of(v: ValueView) -> DataType {
    match v {
        ValueView::String(_) => DataType::String,
        ValueView::Integer(_) => DataType::Integer,
        ValueView::Number(_) => DataType::Number,
        ValueView::Boolean(_) => DataType::Boolean,
        ValueView::Bytes(_) => DataType::Bytes,
        ValueView::Nil => DataType::Nil,
    }
}

/// What coercion into `i64` yields: the stored integer, or an invalid-type
/// error naming the expected type and carrying the offending value.
pub open spec fn spec_to_i64(v: ValueView) -> Result<i64, ErrorView> {
    match v {
        ValueView::Integer(i) => Ok(i),
        _ => Err(ErrorView::InvalidType("i64"@, v)),
    }
}

/// What coercion into `i32` yields: the stored integer truncated to 32
/// bits, or an invalid-type error.
pub open spec fn spec_to_i32(v: ValueView) -> Result<i32, ErrorView> {
    match v {
        ValueView::Integer(i) => Ok(i as i32),
        _ => Err(ErrorView::InvalidType("i32"@, v)),
    }
}

/// What coercion into `i16` yields: the stored integer truncated to 16
/// bits, or an invalid-type error.
pub open spec fn spec_to_i16(v: ValueView) -> Result<i16, ErrorView> {
    match v {
        ValueView::Integer(i) => Ok(i as i16),
        _ => Err(ErrorView::InvalidType("i16"@, v)),
    }
}

/// What coercion into `i8` yields: the stored integer truncated to 8 bits,
/// or an invalid-type error.
pub open spec fn spec_to_i8(v: ValueView) -> Result<i8, ErrorView> {
    match v {
        ValueView::Integer(i) => Ok(i as i8),
        _ => Err(ErrorView::InvalidType("i8"@, v)),
    }
}

/// What coercion into `u32` yields: the stored integer truncated to 32
/// unsigned bits, or an invalid-type error.
pub open spec fn spec_to_u32(v: ValueView) -> Result<u32, ErrorView> {
    match v {
        ValueView::Integer(i) => Ok(i as u32),
        _ => Err(ErrorView::InvalidType("u32"@, v)),
    }
}

/// What coercion into `u16` yields: the stored integer truncated to 16
/// unsigned bits, or an invalid-type error.
pub open spec fn spec_to_u16(v: ValueView) -> Result<u16, ErrorView> {
    match v {
        ValueView::Integer(i) => Ok(i as u16),
        _ => Err(ErrorView::InvalidType("u16"@, v)),
    }
}

/// What coercion into `u8` yields: the stored integer truncated to 8
/// unsigned bits, or an invalid-type error.
pub open spec fn spec_to_u8(v: ValueView) -> Result<u8, ErrorView> {
    match v {
        ValueView::Integer(i) => Ok(i as u8),
        _ => Err(ErrorView::InvalidType("u8"@, v)),
    }
}

/// What coercion into a 64-bit floating-point bit pattern yields: the
/// stored pattern, or an invalid-type error.
pub open spec fn spec_to_number_bits(v: ValueView) -> Result<u64, ErrorView> {
    match v {
        ValueView::Number(bits) => Ok(bits),
        _ => Err(ErrorView::InvalidType("number"@, v)),
    }
}

/// What coercion into `bool` yields: the stored boolean, or an
/// invalid-type error.
pub open spec fn spec_to_bool(v: ValueView) -> Result<bool, ErrorView> {
    match v {
        ValueView::Boolean(b) => Ok(b),
        _ => Err(ErrorView::InvalidType("bool"@, v)),
    }
}

/// What coercion into a byte sequence yields: the stored bytes, or an
/// invalid-type error.
pub open spec fn spec_to_bytes(v: ValueView) -> Result<Seq<u8>, ErrorView> {
    match v {
        ValueView::Bytes(bytes) => Ok(bytes),
        _ => Err(ErrorView::InvalidType("bytes"@, v)),
    }
}

/// What strict coercion into text yields: the stored text, or an
/// invalid-type error. Deliberately no cross-variant rendering here: the
/// total rendering is a separate, transport-level operation.
pub open spec fn spec_to_text(v: ValueView) -> Result<Seq<char>, ErrorView> {
    match v {
        ValueView::String(text) => Ok(text),
        _ => Err(ErrorView::InvalidType("string"@, v)),
    }
}

impl Value {
    /// The variant tag of this value.
    pub fn get_type(&self) -> (t: DataType)
        ensures
            t == kind_of(self@),
    {
        match self {
            Value::String(_) => DataType::String,
            Value::Integer(_) => DataType::Integer,
            Value::Number(_) => DataType::Number,
            Value::Boolean(_) => DataType::Boolean,
            Value::Bytes(_) => DataType::Bytes,
            Value::Nil => DataType::Nil,
        }
    }

    /// True exactly on the `Nil` variant.
    pub fn is_nil(&self) -> (r: bool)
        ensures
            r == (self@ is Nil),
    {
        match self {
            Value::Nil => true,
            _ => false,
        }
    }

    /// Converts a native 64-bit signed integer into a dynamic value.
    pub fn from_i64(v: i64) -> (r: Value)
        ensures
            r@ == ValueView::Integer(v),
    {
        Value::Integer(v)
    }

    /// Converts a native 32-bit signed integer into a dynamic value.
    pub fn from_i32(v: i32) -> (r: Value)
        ensures
            r@ == ValueView::Integer(v as i64),
    {
        Value::Integer(v as i64)
    }

    /// Converts a native 16-bit signed integer into a dynamic value.
    pub fn from_i16(v: i16) -> (r: Value)
        ensures
            r@ == ValueView::Integer(v as i64),
    {
        Value::Integer(v as i64)
    }

    /// Converts a native 8-bit signed integer into a dynamic value.
    pub fn from_i8(v: i8) -> (r: Value)
        ensures
            r@ == ValueView::Integer(v as i64),
    {
        Value::Integer(v as i64)
    }

    /// Converts a native 32-bit unsigned integer into a dynamic value.
    pub fn from_u32(v: u32) -> (r: Value)
        ensures
            r@ == ValueView::Integer(v as i64),
    {
        Value::Integer(v as i64)
    }

    /// Converts a native 16-bit unsigned integer into a dynamic value.
    pub fn from_u16(v: u16) -> (r: Value)
        ensures
            r@ == ValueView::Integer(v as i64),
    {
        Value::Integer(v as i64)
    }

    /// Converts a native 8-bit unsigned integer into a dynamic value.
    pub fn from_u8(v: u8) -> (r: Value)
        ensures
            r@ == ValueView::Integer(v as i64),
    {
        Value::Integer(v as i64)
    }

    /// Wraps the bit pattern of a native 64-bit floating-point value.
    pub fn from_number_bits(bits: u64) -> (r: Value)
        ensures
            r@ == ValueView::Number(bits),
    {
        Value::Number(bits)
    }

    /// Converts a native boolean into a dynamic value.
    pub fn from_bool(v: bool) -> (r: Value)
        ensures
            r@ == ValueView::Boolean(v),
    {
        Value::Boolean(v)
    }

    /// Converts owned native text into a dynamic value.
    pub fn from_string(text: String) -> (r: Value)
        ensures
            r@ == ValueView::String(text@),
    {
        Value::String(text)
    }

    /// Converts borrowed native text into a dynamic value.
    pub fn from_text(text: &str) -> (r: Value)
        ensures
            r@ == ValueView::String(text@),
    {
        Value::String(text.to_owned())
    }

    /// Converts a native byte sequence into a dynamic value.
    pub fn from_bytes(bytes: Vec<u8>) -> (r: Value)
        ensures
            r@ == ValueView::Bytes(bytes@),
    {
        Value::Bytes(bytes)
    }

    /// Converts the empty (unit) value into a dynamic value: `Nil`.
    pub fn from_unit() -> (r: Value)
        ensures
            r@ == ValueView::Nil,
    {
        Value::Nil
    }

    /// Coerces into a native `i64`; only the `Integer` variant succeeds.
    pub fn to_i64(self) -> (r: Result<i64, Error>)
        ensures
            res_view(r) == spec_to_i64(self@),
    {
        match self {
            Value::Integer(v) => Ok(v),
            other => Err(Error::InvalidType(String::from_str("i64"), other)),
        }
    }

    /// Coerces into a native `i32` by a truncating cast of the stored
    /// 64-bit integer; only the `Integer` variant succeeds.
    pub fn to_i32(self) -> (r: Result<i32, Error>)
        ensures
            res_view(r) == spec_to_i32(self@),
    {
        match self {
            Value::Integer(v) => Ok(#[verifier::truncate] (v as i32)),
            other => Err(Error::InvalidType(String::from_str("i32"), other)),
        }
    }

    /// Coerces into a native `i16` by a truncating cast of the stored
    /// 64-bit integer; only the `Integer` variant succeeds.
    pub fn to_i16(self) -> (r: Result<i16, Error>)
        ensures
            res_view(r) == spec_to_i16(self@),
    {
        match self {
            Value::Integer(v) => Ok(#[verifier::truncate] (v as i16)),
            other => Err(Error::InvalidType(String::from_str("i16"), other)),
        }
    }

    /// Coerces into a native `i8` by a truncating cast of the stored
    /// 64-bit integer; only the `Integer` variant succeeds.
    pub fn to_i8(self) -> (r: Result<i8, Error>)
        ensures
            res_view(r) == spec_to_i8(self@),
    {
        match self {
            Value::Integer(v) => Ok(#[verifier::truncate] (v as i8)),
            other => Err(Error::InvalidType(String::from_str("i8"), other)),
        }
    }

    /// Coerces into a native `u32` by a truncating cast of the stored
    /// 64-bit integer; only the `Integer` variant succeeds.
    pub fn to_u32(self) -> (r: Result<u32, Error>)
        ensures
            res_view(r) == spec_to_u32(self@),
    {
        match self {
            Value::Integer(v) => Ok(#[verifier::truncate] (v as u32)),
            other => Err(Error::InvalidType(String::from_str("u32"), other)),
        }
    }

    /// Coerces into a native `u16` by a truncating cast of the stored
    /// 64-bit integer; only the `Integer` variant succeeds.
    pub fn to_u16(self) -> (r: Result<u16, Error>)
        ensures
            res_view(r) == spec_to_u16(self@),
    {
        match self {
            Value::Integer(v) => Ok(#[verifier::truncate] (v as u16)),
            other => Err(Error::InvalidType(String::from_str("u16"), other)),
        }
    }

    /// Coerces into a native `u8` by a truncating cast of the stored
    /// 64-bit integer; only the `Integer` variant succeeds.
    pub fn to_u8(self) -> (r: Result<u8, Error>)
        ensures
            res_view(r) == spec_to_u8(self@),
    {
        match self {
            Value::Integer(v) => Ok(#[verifier::truncate] (v as u8)),
            other => Err(Error::InvalidType(String::from_str("u8"), other)),
        }
    }

    /// Coerces into the bit pattern of a native 64-bit floating-point
    /// value; only the `Number` variant succeeds.
    pub fn to_number_bits(self) -> (r: Result<u64, Error>)
        ensures
            res_view(r) == spec_to_number_bits(self@),
    {
        match self {
            Value::Number(bits) => Ok(bits),
            other => Err(Error::InvalidType(String::from_str("number"), other)),
        }
    }

    /// Coerces into a native boolean; only the `Boolean` variant succeeds.
    pub fn to_bool(self) -> (r: Result<bool, Error>)
        ensures
            res_view(r) == spec_to_bool(self@),
    {
        match self {
            Value::Boolean(v) => Ok(v),
            other => Err(Error::InvalidType(String::from_str("bool"), other)),
        }
    }

    /// Coerces into a native byte sequence; only the `Bytes` variant
    /// succeeds.
    pub fn to_bytes(self) -> (r: Result<Vec<u8>, Error>)
        ensures
            match spec_to_bytes(self@) {
                Ok(b) => r matches Ok(bytes) && bytes@ == b,
                Err(e) => r matches Err(err) && err@ == e,
            },
    {
        match self {
            Value::Bytes(bytes) => Ok(bytes),
            other => Err(Error::InvalidType(String::from_str("bytes"), other)),
        }
    }

    /// Coerces into owned native text under the strict policy of argument
    /// extraction: only the `String` variant succeeds. The total,
    /// transport-level rendering is [`Value::into_text_with`].
    pub fn to_text(self) -> (r: Result<String, Error>)
        ensures
            match spec_to_text(self@) {
                Ok(t) => r matches Ok(text) && text@ == t,
                Err(e) => r matches Err(err) && err@ == e,
            },
    {
        match self {
            Value::String(text) => Ok(text),
            other => Err(Error::InvalidType(String::from_str("string"), other)),
        }
    }

    /// A copy with the same modelled value.
    pub fn dup(&self) -> (r: Value)
        ensures
            r@ == self@,
    {
        match self {
            Value::String(text) => Value::String(text.clone()),
            Value::Integer(v) => Value::Integer(*v),
            Value::Number(bits) => Value::Number(*bits),
            Value::Boolean(v) => Value::Boolean(*v),
            Value::Bytes(bytes) => {
                let copy = bytes.clone();
                proof {
                    assert(copy@ =~= bytes@);
                }
                Value::Bytes(copy)
            },
            Value::Nil => Value::Nil,
        }
    }
}

/// Round trip: a native `i64` put into a dynamic value comes back
/// unchanged from the matching coercion.
pub proof fn lemma_round_trip_i64(v: i64)
    ensures
        spec_to_i64(ValueView::Integer(v)) == Ok::<i64, ErrorView>(v),
{
}

/// Round trip: a native `i32` put into a dynamic value comes back
/// unchanged from the matching coercion.
pub proof fn lemma_round_trip_i32(v: i32)
    ensures
        spec_to_i32(ValueView::Integer(v as i64)) == Ok::<i32, ErrorView>(v),
{
}

/// Round trip: a native `i16` put into a dynamic value comes back
/// unchanged from the matching coercion.
pub proof fn lemma_round_trip_i16(v: i16)
    ensures
        spec_to_i16(ValueView::Integer(v as i64)) == Ok::<i16, ErrorView>(v),
{
}

/// Round trip: a native `i8` put into a dynamic value comes back
/// unchanged from the matching coercion.
pub proof fn lemma_round_trip_i8(v: i8)
    ensures
        spec_to_i8(ValueView::Integer(v as i64)) == Ok::<i8, ErrorView>(v),
{
}

/// Round trip: a native `u32` put into a dynamic value comes back
/// unchanged from the matching coercion.
pub proof fn lemma_round_trip_u32(v: u32)
    ensures
        spec_to_u32(ValueView::Integer(v as i64)) == Ok::<u32, ErrorView>(v),
{
}

/// Round trip: a native `u16` put into a dynamic value comes back
/// unchanged from the matching coercion.
pub proof fn lemma_round_trip_u16(v: u16)
    ensures
        spec_to_u16(ValueView::Integer(v as i64)) == Ok::<u16, ErrorView>(v),
{
}

/// Round trip: a native `u8` put into a dynamic value comes back
/// unchanged from the matching coercion.
pub proof fn lemma_round_trip_u8(v: u8)
    ensures
        spec_to_u8(ValueView::Integer(v as i64)) == Ok::<u8, ErrorView>(v),
{
}

/// Round trip: a 64-bit floating-point bit pattern put into a dynamic
/// value comes back unchanged from the matching coercion.
pub proof fn lemma_round_trip_number_bits(bits: u64)
    ensures
        spec_to_number_bits(ValueView::Number(bits)) == Ok::<u64, ErrorView>(bits),
{
}

/// Round trip: a native boolean put into a dynamic value comes back
/// unchanged from the matching coercion.
pub proof fn lemma_round_trip_bool(v: bool)
    ensures
        spec_to_bool(ValueView::Boolean(v)) == Ok::<bool, ErrorView>(v),
{
}

/// Round trip: native text put into a dynamic value comes back unchanged
/// from the matching coercion.
pub proof fn lemma_round_trip_text(text: Seq<char>)
    ensures
        spec_to_text(ValueView::String(text)) == Ok::<Seq<char>, ErrorView>(text),
{
}

/// Round trip: a native byte sequence put into a dynamic value comes back
/// unchanged from the matching coercion.
pub proof fn lemma_round_trip_bytes(bytes: Seq<u8>)
    ensures
        spec_to_bytes(ValueView::Bytes(bytes)) == Ok::<Seq<u8>, ErrorView>(bytes),
{
}

/// Strict coercion: a value whose active variant is not the one a native
/// type expects never coerces into that type — the coercion always fails
/// with an invalid-type error naming the expected type and carrying the
/// offending value, for every target type alike. In particular a `Number`
/// never truncates silently into an integer, nor an `Integer` into a
/// floating-point bit pattern.
pub proof fn lemma_strict_coercion(v: ValueView)
    ensures
        !(v is Integer) ==> spec_to_i64(v) == Err::<i64, ErrorView>(
            ErrorView::InvalidType("i64"@, v),
        ),
        !(v is Integer) ==> spec_to_i32(v) == Err::<i32, ErrorView>(
            ErrorView::InvalidType("i32"@, v),
        ),
        !(v is Integer) ==> spec_to_i16(v) == Err::<i16, ErrorView>(
            ErrorView::InvalidType("i16"@, v),
        ),
        !(v is Integer) ==> spec_to_i8(v) == Err::<i8, ErrorView>(
            ErrorView::InvalidType("i8"@, v),
        ),
        !(v is Integer) ==> spec_to_u32(v) == Err::<u32, ErrorView>(
            ErrorView::InvalidType("u32"@, v),
        ),
        !(v is Integer) ==> spec_to_u16(v) == Err::<u16, ErrorView>(
            ErrorView::InvalidType("u16"@, v),
        ),
        !(v is Integer) ==> spec_to_u8(v) == Err::<u8, ErrorView>(
            ErrorView::InvalidType("u8"@, v),
        ),
        !(v is Number) ==> spec_to_number_bits(v) == Err::<u64, ErrorView>(
            ErrorView::InvalidType("number"@, v),
        ),
        !(v is Boolean) ==> spec_to_bool(v) == Err::<bool, ErrorView>(
            ErrorView::InvalidType("bool"@, v),
        ),
        !(v is Bytes) ==> spec_to_bytes(v) == Err::<Seq<u8>, ErrorView>(
            ErrorView::InvalidType("bytes"@, v),
        ),
        !(v is String) ==> spec_to_text(v) == Err::<Seq<char>, ErrorView>(
            ErrorView::InvalidType("string"@, v),
        ),
{
}

/// `Nil` is the one variant whose tag is the nil tag: the nil test holds
/// on it and on no other variant.
pub proof fn lemma_nil_unique(v: ValueView)
    ensures
        (v is Nil) <==> kind_of(v) == DataType::Nil,
{
}

} // verus!
