//! Rendering a dynamic value as text: the canonical display form, and the
//! total conversion into native text that only invalid byte sequences can
//! fail.

use vstd::prelude::*;
use vstd::string::{StringExecFns, StrSliceExecFns};
use vstd::utf8::{decode_utf8, valid_utf8};
use crate::error::{Error, ErrorView};
use crate::text::{i64_to_decimal, spec_i64_decimal};
use crate::value::{Value, ValueView};

verus! {

/// The rendering of a boolean: the spelling the standard library uses.
pub open spec fn spec_bool_text(b: bool) -> Seq<char> {
    if b {
        "true"@
    } else {
        "false"@
    }
}

/// The debug-style dump of the byte values between one pair of brackets,
/// in decimal, separated by comma and space.
pub open spec fn spec_bytes_debug_items(bytes: Seq<u8>) -> Seq<char>
    decreases bytes.len(),
{
    if bytes.len() == 0 {
        Seq::empty()
    } else if bytes.len() == 1 {
        spec_i64_decimal(bytes[0] as i64)
    } else {
        spec_bytes_debug_items(bytes.drop_last()) + ", "@ + spec_i64_decimal(bytes.last() as i64)
    }
}

/// The debug-style dump of a byte sequence, as the standard library
/// renders a vector of bytes.
pub open spec fn spec_bytes_debug(bytes: Seq<u8>) -> Seq<char> {
    "["@ + spec_bytes_debug_items(bytes) + "]"@
}

/// The canonical display rendering of a value, given `number_text`, the
/// caller-rendered decimal text of the `Number` payload: text stands for
/// itself, integers and booleans render canonically, bytes render as a
/// debug-style dump, and `Nil` renders as the literal text `Nil`. Total.
pub open spec fn spec_display(v: ValueView, number_text: Seq<char>) -> Seq<char> {
    match v {
        ValueView::String(text) => text,
        ValueView::Integer(i) => spec_i64_decimal(i),
        ValueView::Number(_) => number_text,
        ValueView::Boolean(b) => spec_bool_text(b),
        ValueView::Bytes(bytes) => spec_bytes_debug(bytes),
        ValueView::Nil => "Nil"@,
    }
}

/// The conversion of a value into native text, given `number_text` as in
/// [`spec_display`]: as the display rendering, except that a byte sequence
/// is decoded as UTF-8 and fails with a decode error when it is not valid.
pub open spec fn spec_into_text(v: ValueView, number_text: Seq<char>) -> Result<
    Seq<char>,
    ErrorView,
> {
    match v {
        ValueView::String(text) => Ok(text),
        ValueView::Integer(i) => Ok(spec_i64_decimal(i)),
        ValueView::Number(_) => Ok(number_text),
        ValueView::Boolean(b) => Ok(spec_bool_text(b)),
        ValueView::Bytes(bytes) => if valid_utf8(bytes) {
            Ok(decode_utf8(bytes))
        } else {
            Err(ErrorView::DecodeError)
        },
        ValueView::Nil => Ok("Nil"@),
    }
}

/// Relies on String::from_utf8: it succeeds exactly on valid UTF-8 input
/// and returns the text those bytes encode.
#[verifier::external_body]
fn bytes_to_text(bytes: Vec<u8>) -> (r: Option<String>)
    ensures
        match r {
            Some(text) => valid_utf8(bytes@) && text@ == decode_utf8(bytes@),
            None => !valid_utf8(bytes@),
        },
{
    match String::from_utf8(bytes) {
        Ok(text) => Some(text),
        Err(_) => None,
    }
}

/// The debug-style dump of a byte sequence as owned text.
fn bytes_debug(bytes: &Vec<u8>) -> (r: String)
    ensures
        r@ == spec_bytes_debug(bytes@),
{
    let mut out = String::from_str("[");
    let mut i: usize = 0;
    while i < bytes.len()
        invariant
            i <= bytes@.len(),
            out@ == "["@ + spec_bytes_debug_items(bytes@.subrange(0, i as int)),
        decreases bytes@.len() - i,
    {
        if i > 0 {
            out.append(", ");
        }
        let digits = i64_to_decimal(bytes[i] as i64);
        out.append(digits.as_str());
        proof {
            let prefix = bytes@.subrange(0, i + 1);
            assert(prefix.drop_last() =~= bytes@.subrange(0, i as int));
            assert(prefix.last() == bytes@[i as int]);
            assert(out@ =~= "["@ + spec_bytes_debug_items(prefix));
        }
        i = i + 1;
    }
    proof {
        assert(bytes@.subrange(0, bytes@.len() as int) =~= bytes@);
    }
    out.append("]");
    out
}

impl Value {
    /// Renders this value as display text; see [`spec_display`].
    ///
    /// Rendering the 64-bit floating-point value that a `Number` payload
    /// denotes is work this crate leaves to its caller: `number_text` is
    /// the caller's rendering of the payload's bit pattern, and it is
    /// consulted only when the value is a `Number`.
    pub fn display_with(&self, number_text: &str) -> (r: String)
        ensures
            r@ == spec_display(self@, number_text@),
    {
        match self {
            Value::String(text) => text.clone(),
            Value::Integer(v) => i64_to_decimal(*v),
            Value::Number(_) => number_text.to_owned(),
            Value::Boolean(v) => if *v {
                String::from_str("true")
            } else {
                String::from_str("false")
            },
            Value::Bytes(bytes) => bytes_debug(bytes),
            Value::Nil => String::from_str("Nil"),
        }
    }

    /// Converts this value into native text, with `number_text` as in
    /// [`Value::display_with`]; only an invalid byte sequence fails, with
    /// a decode error. See [`spec_into_text`].
    pub fn into_text_with(self, number_text: &str) -> (r: Result<String, Error>)
        ensures
            match spec_into_text(self@, number_text@) {
                Ok(t) => r matches Ok(text) && text@ == t,
                Err(e) => r matches Err(err) && err@ == e,
            },
    {
        match self {
            Value::String(text) => Ok(text),
            Value::Integer(v) => Ok(i64_to_decimal(v)),
            Value::Number(_) => Ok(number_text.to_owned()),
            Value::Boolean(v) => Ok(
                if v {
                    String::from_str("true")
                } else {
                    String::from_str("false")
                },
            ),
            Value::Bytes(bytes) => match bytes_to_text(bytes) {
                Some(text) => Ok(text),
                None => Err(Error::DecodeError),
            },
            Value::Nil => Ok(String::from_str("Nil")),
        }
    }
}

} // verus!
