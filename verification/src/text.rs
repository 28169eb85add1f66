//! Verified text helpers, and the decimal reading and rendering of 64-bit
//! integers that the standard library performs.

use vstd::prelude::*;
use vstd::string::StrSliceExecFns;

verus! {

/// Whether the pattern `p` occurs in `s` starting at position `k`.
pub open spec fn match_at(s: Seq<char>, p: Seq<char>, k: int) -> bool {
    &&& 0 <= k
    &&& k + p.len() <= s.len()
    &&& forall|j: int| 0 <= j < p.len() ==> s[k + j] == p[j]
}

/// Whether the pattern `p` occurs anywhere in `s`.
pub open spec fn seq_contains_sub(s: Seq<char>, p: Seq<char>) -> bool {
    exists|k: int| match_at(s, p, k)
}

/// Whether the character `c` occurs in `s`.
pub open spec fn seq_contains_char(s: Seq<char>, c: char) -> bool {
    exists|i: int| 0 <= i < s.len() && s[i] == c
}

/// Character-for-character equality of two text slices.
pub fn str_eq(a: &str, b: &str) -> (r: bool)
    ensures
        r == (a@ == b@),
{
    let a_len = a.unicode_len();
    let b_len = b.unicode_len();
    if a_len != b_len {
        return false;
    }
    let mut i: usize = 0;
    while i < a_len
        invariant
            i <= a_len,
            a_len == a@.len(),
            a@.len() == b@.len(),
            forall|j: int| 0 <= j < i ==> a@[j] == b@[j],
        decreases a_len - i,
    {
        if a.get_char(i) != b.get_char(i) {
            return false;
        }
        i = i + 1;
    }
    proof {
        assert(a@ =~= b@);
    }
    true
}

/// Whether the character `c` occurs in `s`.
pub fn contains_char(s: &str, c: char) -> (r: bool)
    ensures
        r == seq_contains_char(s@, c),
{
    let len = s.unicode_len();
    let mut i: usize = 0;
    while i < len
        invariant
            i <= len,
            len == s@.len(),
            forall|j: int| 0 <= j < i ==> s@[j] != c,
        decreases len - i,
    {
        if s.get_char(i) == c {
            assert(s@[i as int] == c);
            return true;
        }
        i = i + 1;
    }
    false
}

/// Whether the pattern `p` occurs as a contiguous run anywhere in `s`.
pub fn contains_sub(s: &str, p: &str) -> (r: bool)
    ensures
        r == seq_contains_sub(s@, p@),
{
    let s_len = s.unicode_len();
    let p_len = p.unicode_len();
    if p_len > s_len {
        assert(forall|k: int| !match_at(s@, p@, k));
        return false;
    }
    let mut k: usize = 0;
    while k <= s_len - p_len
        invariant
            p_len <= s_len,
            k <= s_len - p_len + 1,
            s_len == s@.len(),
            p_len == p@.len(),
            forall|k2: int| 0 <= k2 < k ==> !match_at(s@, p@, k2),
        decreases s_len - p_len + 1 - k,
    {
        let mut j: usize = 0;
        let mut mismatch = false;
        while j < p_len
            invariant_except_break
                k + p_len <= s_len,
                j <= p_len,
                s_len == s@.len(),
                p_len == p@.len(),
                !mismatch,
                forall|j2: int| 0 <= j2 < j ==> s@[k + j2] == p@[j2],
            ensures
                mismatch ==> !match_at(s@, p@, k as int),
                !mismatch ==> match_at(s@, p@, k as int),
            decreases p_len - j,
        {
            if s.get_char(k + j) != p.get_char(j) {
                assert(s@[k + j] != p@[j as int]);
                mismatch = true;
                break;
            }
            j = j + 1;
        }
        if !mismatch {
            return true;
        }
        k = k + 1;
    }
    assert forall|k2: int| !match_at(s@, p@, k2) by {
        if 0 <= k2 < k {
        } else if k2 >= k {
            assert(k2 + p@.len() > s@.len());
        }
    }
    false
}

/// What the standard boolean parser yields: `true` and `false` exactly,
/// nothing else.
pub open spec fn spec_parse_bool(s: Seq<char>) -> Option<bool> {
    if s == "true"@ {
        Some(true)
    } else if s == "false"@ {
        Some(false)
    } else {
        None
    }
}

/// Reads a boolean the way the standard parser does: only the exact texts
/// `true` and `false` are accepted.
pub fn parse_bool(s: &str) -> (r: Option<bool>)
    ensures
        r == spec_parse_bool(s@),
{
    if str_eq(s, "true") {
        Some(true)
    } else if str_eq(s, "false") {
        Some(false)
    } else {
        None
    }
}

/// Whether `c` is one of the decimal digits `0` through `9`.
pub open spec fn is_ascii_digit(c: char) -> bool {
    48 <= c as int <= 57
}

/// Whether every character of `s` is a decimal digit.
pub open spec fn all_digits(s: Seq<char>) -> bool {
    forall|i: int| 0 <= i < s.len() ==> is_ascii_digit(s[i])
}

/// The non-negative integer that a run of decimal digits denotes, the most
/// significant digit first.
pub open spec fn digits_value(s: Seq<char>) -> int
    decreases s.len(),
{
    if s.len() == 0 {
        0
    } else {
        digits_value(s.drop_last()) * 10 + (s.last() as int - 48)
    }
}

/// What the standard 64-bit signed integer parser yields on a text: an
/// optional sign, then one or more decimal digits, and the denoted value
/// when it lies within the type's range; nothing otherwise.
pub open spec fn spec_parse_i64(s: Seq<char>) -> Option<i64> {
    let signed = s.len() > 0 && (s[0] == '-' || s[0] == '+');
    let negative = s.len() > 0 && s[0] == '-';
    let digits = if signed {
        s.subrange(1, s.len() as int)
    } else {
        s
    };
    if digits.len() == 0 || !all_digits(digits) {
        None
    } else {
        let value = if negative {
            -digits_value(digits)
        } else {
            digits_value(digits)
        };
        if i64::MIN <= value <= i64::MAX {
            Some(value as i64)
        } else {
            None
        }
    }
}

/// The digits of the non-negative integer `n` in decimal, the most
/// significant first; empty when `n` is zero.
pub open spec fn decimal_digits(n: int) -> Seq<char>
    decreases n,
{
    if n <= 0 {
        Seq::empty()
    } else {
        decimal_digits(n / 10).push(((n % 10 + 48) as u8) as char)
    }
}

/// The decimal rendering of a 64-bit signed integer: a leading `-` for
/// negative values, then the digits of the magnitude, and `0` for zero.
pub open spec fn spec_i64_decimal(v: i64) -> Seq<char> {
    if v == 0 {
        seq!['0']
    } else if v < 0 {
        seq!['-'] + decimal_digits(-(v as int))
    } else {
        decimal_digits(v as int)
    }
}

/// A run of decimal digits denotes a non-negative value.
proof fn lemma_digits_value_nonneg(s: Seq<char>)
    requires
        all_digits(s),
    ensures
        digits_value(s) >= 0,
    decreases s.len(),
{
    if s.len() > 0 {
        assert(all_digits(s.drop_last()));
        lemma_digits_value_nonneg(s.drop_last());
    }
}

/// Reading more digits never shrinks the denoted value: every prefix of a
/// digit run denotes at most what the whole run denotes.
proof fn lemma_digits_value_prefix(s: Seq<char>, k: int)
    requires
        all_digits(s),
        0 <= k <= s.len(),
    ensures
        digits_value(s.subrange(0, k)) <= digits_value(s),
    decreases s.len() - k,
{
    if k == s.len() {
        assert(s.subrange(0, k) =~= s);
    } else {
        let longer = s.subrange(0, k + 1);
        assert(longer.drop_last() =~= s.subrange(0, k));
        assert(all_digits(s.subrange(0, k)));
        lemma_digits_value_nonneg(s.subrange(0, k));
        assert(digits_value(s.subrange(0, k)) <= digits_value(longer));
        lemma_digits_value_prefix(s, k + 1);
    }
}

/// Reads a 64-bit signed integer the way the standard parser does: an
/// optional sign, then one or more decimal digits, rejecting any other
/// text and any value outside the type's range. See [`spec_parse_i64`].
pub fn parse_i64(s: &str) -> (r: Option<i64>)
    ensures
        r == spec_parse_i64(s@),
{
    let len = s.unicode_len();
    if len == 0 {
        return None;
    }
    let first = s.get_char(0);
    let negative = first == '-';
    let signed = first == '-' || first == '+';
    let start: usize = if signed {
        1
    } else {
        0
    };
    let ghost digits = if signed {
        s@.subrange(1, s@.len() as int)
    } else {
        s@
    };
    proof {
        if !signed {
            assert(s@.subrange(0, s@.len() as int) =~= s@);
        }
        assert(digits =~= s@.subrange(start as int, s@.len() as int));
    }
    if start >= len {
        return None;
    }
    // The largest magnitude the result may reach: one more for a negative
    // value, whose lower bound is one farther from zero.
    let bound: u64 = if negative {
        9223372036854775808
    } else {
        9223372036854775807
    };
    let mut acc: u64 = 0;
    let mut i: usize = start;
    proof {
        assert(s@.subrange(start as int, start as int) =~= Seq::<char>::empty());
    }
    while i < len
        invariant
            start <= i <= len,
            len == s@.len(),
            start == 1 <==> signed,
            start <= 1,
            signed <==> s@.len() > 0 && (s@[0] == '-' || s@[0] == '+'),
            negative <==> s@.len() > 0 && s@[0] == '-',
            digits == s@.subrange(start as int, s@.len() as int),
            bound as int == if negative {
                0x8000_0000_0000_0000int
            } else {
                0x7fff_ffff_ffff_ffffint
            },
            all_digits(s@.subrange(start as int, i as int)),
            acc as int == digits_value(s@.subrange(start as int, i as int)),
            acc <= bound,
        decreases len - i,
    {
        let c = s.get_char(i);
        let code = c as u32;
        let ghost prefix = s@.subrange(start as int, i as int);
        let ghost extended = s@.subrange(start as int, i + 1);
        proof {
            assert(extended.drop_last() =~= prefix);
            assert(extended.last() == s@[i as int]);
            assert(extended =~= digits.subrange(0, i + 1 - start));
        }
        if code < 48 || code > 57 {
            proof {
                assert(c as int == code as int);
                assert(digits[i as int - start as int] == s@[i as int]);
                assert(!is_ascii_digit(digits[i as int - start as int]));
                assert(!all_digits(digits));
            }
            return None;
        }
        let d = (code - 48) as u64;
        if acc > (bound - d) / 10 {
            proof {
                assert(digits_value(extended) == acc as int * 10 + d);
                vstd::arithmetic::div_mod::lemma_fundamental_div_mod(
                    bound as int - d as int,
                    10,
                );
                assert(acc as int * 10 + d > bound as int);
                if all_digits(digits) {
                    lemma_digits_value_prefix(digits, i + 1 - start as int);
                    assert(digits_value(digits) > bound as int);
                    // The denoted magnitude already exceeds what the sign
                    // admits, so the denoted value lies outside the range
                    // and the whole text denotes nothing.
                    let sp_digits = if signed {
                        s@.subrange(1, s@.len() as int)
                    } else {
                        s@
                    };
                    assert(sp_digits == digits);
                    let sp_value = if negative {
                        -digits_value(sp_digits)
                    } else {
                        digits_value(sp_digits)
                    };
                    assert(!(i64::MIN <= sp_value <= i64::MAX));
                    assert(spec_parse_i64(s@) is None);
                } else {
                    assert(spec_parse_i64(s@) is None);
                }
            }
            return None;
        }
        proof {
            vstd::arithmetic::div_mod::lemma_fundamental_div_mod(bound as int - d as int, 10);
            assert(acc as int * 10 + d <= bound as int);
            assert(digits_value(extended) == acc as int * 10 + d);
        }
        acc = acc * 10 + d;
        i = i + 1;
    }
    proof {
        assert(s@.subrange(start as int, i as int) =~= digits);
        lemma_digits_value_nonneg(digits);
    }
    if negative {
        Some((-(acc as i128)) as i64)
    } else {
        Some(acc as i64)
    }
}

/// Relies on String::push: it appends exactly the one character.
#[verifier::external_body]
fn push_char(out: &mut String, c: char)
    ensures
        final(out)@ == old(out)@.push(c),
{
    out.push(c);
}

/// Renders a 64-bit signed integer in decimal, as the standard library
/// displays it. See [`spec_i64_decimal`].
pub fn i64_to_decimal(v: i64) -> (r: String)
    ensures
        r@ == spec_i64_decimal(v),
{
    if v == 0 {
        proof {
            reveal_strlit("0");
            assert("0"@ =~= seq!['0']);
        }
        return String::from_str("0");
    }
    let negative = v < 0;
    let mut m: u64 = if v < 0 {
        (-(v as i128)) as u64
    } else {
        v as u64
    };
    let ghost magnitude = m as int;
    proof {
        if v < 0 {
            assert(magnitude == -(v as int));
        }
    }
    // Collect the digits of the magnitude, least significant first.
    let mut rev: Vec<char> = Vec::new();
    while m > 0
        invariant
            decimal_digits(magnitude) =~= decimal_digits(m as int) + Seq::new(
                rev@.len(),
                |k: int| rev@[rev@.len() - 1 - k],
            ),
        decreases m,
    {
        let ghost rev_before = rev@;
        let digit = (m % 10) as u8;
        let c = (digit + 48) as char;
        proof {
            assert(c == ((m as int % 10 + 48) as u8) as char);
        }
        rev.push(c);
        proof {
            let n = rev_before.len();
            assert(decimal_digits(m as int) == decimal_digits(m as int / 10).push(c));
            assert(Seq::new(rev@.len(), |k: int| rev@[rev@.len() - 1 - k]) =~= seq![c]
                + Seq::new(n, |k: int| rev_before[n - 1 - k]));
            assert(decimal_digits(m as int) + Seq::new(n, |k: int| rev_before[n - 1 - k])
                =~= decimal_digits(m as int / 10) + (seq![c] + Seq::new(
                n,
                |k: int| rev_before[n - 1 - k],
            )));
        }
        m = m / 10;
    }
    let ghost digits = decimal_digits(magnitude);
    proof {
        assert(digits =~= Seq::new(rev@.len(), |k: int| rev@[rev@.len() - 1 - k]));
    }
    // Emit the sign, then the digits, most significant first.
    let mut out = if negative {
        proof {
            reveal_strlit("-");
        }
        String::from_str("-")
    } else {
        String::new()
    };
    let ghost head = out@;
    proof {
        if negative {
            assert(head =~= seq!['-']);
        }
    }
    let total = rev.len();
    let mut i: usize = total;
    proof {
        assert(out@ =~= head + digits.subrange(0, 0));
    }
    while i > 0
        invariant
            i <= total,
            total == rev@.len(),
            digits =~= Seq::new(rev@.len(), |k: int| rev@[rev@.len() - 1 - k]),
            out@ =~= head + digits.subrange(0, total - i),
        decreases i,
    {
        push_char(&mut out, rev[i - 1]);
        proof {
            assert(digits[total - i] == rev@[i - 1]);
            assert(digits.subrange(0, total - i + 1) =~= digits.subrange(0, total - i).push(
                rev@[i - 1],
            ));
        }
        i = i - 1;
    }
    proof {
        assert(digits.subrange(0, total as int) =~= digits);
        if negative {
            assert(out@ =~= spec_i64_decimal(v));
        } else {
            assert(head + digits =~= digits);
        }
    }
    out
}

} // verus!
