//! Textual parsing with type inference: free-form text becomes the dynamic
//! value it most plausibly denotes, and degrades to plain text when every
//! attempted reading fails. The parse is total.

use vstd::prelude::*;
use crate::text::{
    contains_char, contains_sub, parse_i64, seq_contains_char, seq_contains_sub, spec_parse_bool,
    spec_parse_i64, parse_bool, str_eq,
};
use crate::value::{Value, ValueView};

verus! {

/// Whether the text is the word `null` in any casing of its four letters.
pub open spec fn is_null_ignore_case(s: Seq<char>) -> bool {
    &&& s.len() == 4
    &&& (s[0] == 'n' || s[0] == 'N')
    &&& (s[1] == 'u' || s[1] == 'U')
    &&& (s[2] == 'l' || s[2] == 'L')
    &&& (s[3] == 'l' || s[3] == 'L')
}

/// Whether the text denotes the absent value: `null` case-insensitively,
/// or exactly `nil` or `Nil`.
pub open spec fn is_nil_spelling(s: Seq<char>) -> bool {
    is_null_ignore_case(s) || s == "nil"@ || s == "Nil"@
}

/// Tests the text against the word `null`, ignoring the case of each of
/// its four letters.
fn null_ignore_case(s: &str) -> (r: bool)
    ensures
        r == is_null_ignore_case(s@),
{
    if s.unicode_len() != 4 {
        return false;
    }
    let c0 = s.get_char(0);
    let c1 = s.get_char(1);
    let c2 = s.get_char(2);
    let c3 = s.get_char(3);
    (c0 == 'n' || c0 == 'N') && (c1 == 'u' || c1 == 'U') && (c2 == 'l' || c2 == 'L') && (c3 == 'l'
        || c3 == 'L')
}

/// The value that free-form text denotes, given `number_bits`, the outcome
/// of attempting to read the text as a 64-bit floating-point value (the
/// bit pattern on success). The priority order: text containing `false` or
/// `true` is tried as a boolean; otherwise text containing `.` is tried as
/// a floating-point number; otherwise a null spelling — `null` in any
/// casing, or exactly `nil`/`Nil` — becomes `Nil`; otherwise the text is
/// tried as a 64-bit integer. A failed attempt degrades to the `String`
/// variant holding the text verbatim, so the parse never fails.
pub open spec fn spec_from_str(s: Seq<char>, number_bits: Option<u64>) -> ValueView {
    if seq_contains_sub(s, "false"@) || seq_contains_sub(s, "true"@) {
        match spec_parse_bool(s) {
            Some(b) => ValueView::Boolean(b),
            None => ValueView::String(s),
        }
    } else if seq_contains_char(s, '.') {
        match number_bits {
            Some(bits) => ValueView::Number(bits),
            None => ValueView::String(s),
        }
    } else if is_nil_spelling(s) {
        ValueView::Nil
    } else {
        match spec_parse_i64(s) {
            Some(v) => ValueView::Integer(v),
            None => ValueView::String(s),
        }
    }
}

/// The floating-point outcome is consulted only in the decimal branch: on
/// text that holds a boolean spelling or no `.` at all, the parse does not
/// depend on it.
pub proof fn lemma_from_str_number_independent(s: Seq<char>, a: Option<u64>, b: Option<u64>)
    requires
        !seq_contains_char(s, '.') || seq_contains_sub(s, "false"@) || seq_contains_sub(
            s,
            "true"@,
        ),
    ensures
        spec_from_str(s, a) == spec_from_str(s, b),
{
}

impl Value {
    /// Parses free-form text into a dynamic value, with type inference and
    /// total fallback to the `String` variant; see [`spec_from_str`].
    ///
    /// Reading a decimal text as a 64-bit floating-point value is work this
    /// crate leaves to its caller: `number_bits` is the outcome of the
    /// caller's attempt to parse `s` as such a value — the bit pattern on
    /// success — and it is consulted only when `s` contains a `.` and no
    /// boolean spelling.
    pub fn from_str(s: &str, number_bits: Option<u64>) -> (r: Value)
        ensures
            r@ == spec_from_str(s@, number_bits),
    {
        if contains_sub(s, "false") || contains_sub(s, "true") {
            match parse_bool(s) {
                Some(b) => Value::Boolean(b),
                None => Value::String(s.to_owned()),
            }
        } else if contains_char(s, '.') {
            match number_bits {
                Some(bits) => Value::Number(bits),
                None => Value::String(s.to_owned()),
            }
        } else if null_ignore_case(s) || str_eq(s, "nil") || str_eq(s, "Nil") {
            Value::Nil
        } else {
            match parse_i64(s) {
                Some(v) => Value::Integer(v),
                None => Value::String(s.to_owned()),
            }
        }
    }
}

} // verus!
