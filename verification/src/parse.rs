//! Parsing of unsigned decimal integers and booleans, with the results and
//! error kinds of the standard library's `FromStr` for `u64` and `bool`.

use vstd::prelude::*;
use vstd::string::StringExecFns;

verus! {

/// Why text is not an unsigned integer.
#[derive(Debug, Clone, Copy, PartialEq, Eq, Structural)]
pub enum IntErrorKind {
    /// The text is empty
    Empty,
    /// The text holds a character that is not a digit
    InvalidDigit,
    /// The number does not fit in 64 bits
    PosOverflow,
}

/// The value of a digit character.
pub open spec fn digit_value(c: char) -> int {
    c as int - '0' as int
}

/// Whether a character is an ASCII decimal digit.
pub open spec fn is_digit(c: char) -> bool {
    '0' <= c <= '9'
}

/// The value of a string of digits.
pub open spec fn digits_value(s: Seq<char>) -> int
    decreases s.len(),
{
    if s.len() == 0 {
        0
    } else {
        digits_value(s.drop_last()) * 10 + digit_value(s.last())
    }
}

/// The digits of a number text: the text without its leading `+`, if any.
pub open spec fn unsigned_digits(s: Seq<char>) -> Seq<char> {
    if s.len() > 0 && s[0] == '+' { s.drop_first() } else { s }
}

/// The result of parsing text as a `u64`.
pub open spec fn parse_u64_spec(s: Seq<char>) -> Result<u64, IntErrorKind> {
    let d = unsigned_digits(s);
    if s.len() == 0 {
        Err(IntErrorKind::Empty)
    } else if d.len() == 0 || exists|i: int| 0 <= i < d.len() && !is_digit(#[trigger] d[i]) {
        Err(IntErrorKind::InvalidDigit)
    } else if digits_value(d) > u64::MAX {
        Err(IntErrorKind::PosOverflow)
    } else {
        Ok(digits_value(d) as u64)
    }
}

/// The message the standard library gives for each kind of parse error.
pub open spec fn int_error_message(k: IntErrorKind) -> Seq<char> {
    match k {
        IntErrorKind::Empty => "cannot parse integer from empty string"@,
        IntErrorKind::InvalidDigit => "invalid digit found in string"@,
        IntErrorKind::PosOverflow => "number too large to fit in target type"@,
    }
}

/// The result of parsing text as a `bool`.
pub open spec fn parse_bool_spec(s: Seq<char>) -> Option<bool> {
    if s == "true"@ { Some(true) } else if s == "false"@ { Some(false) } else { None }
}

proof fn lemma_digits_value_nonneg(s: Seq<char>)
    requires
        forall|i: int| 0 <= i < s.len() ==> is_digit(#[trigger] s[i]),
    ensures
        digits_value(s) >= 0,
    decreases s.len(),
{
    if s.len() > 0 {
        lemma_digits_value_nonneg(s.drop_last());
    }
}

proof fn lemma_digits_value_monotone(s: Seq<char>, n: int)
    requires
        0 <= n <= s.len(),
        forall|i: int| 0 <= i < s.len() ==> is_digit(#[trigger] s[i]),
    ensures
        digits_value(s.take(n)) <= digits_value(s) || n == s.len(),
        n < s.len() ==> digits_value(s) >= digits_value(s.take(n + 1)),
    decreases s.len() - n,
{
    if n < s.len() {
        if n + 1 < s.len() {
            lemma_digits_value_monotone(s, n + 1);
            lemma_digits_value_nonneg(s.take(n + 1));
            assert(s.take(n + 2).drop_last() =~= s.take(n + 1));
            let t = s.take(n + 2);
            assert(digits_value(t) == digits_value(s.take(n + 1)) * 10 + digit_value(t.last()));
            assert(digits_value(s.take(n + 1)) <= digits_value(s.take(n + 2)));
        } else {
            assert(s.take(n + 1) =~= s);
        }
        lemma_digits_value_nonneg(s.take(n));
        assert(s.take(n + 1).drop_last() =~= s.take(n));
    }
}

/// Parse text as a `u64`, as `str::parse::<u64>` does.
pub fn parse_u64(s: &str) -> (r: Result<u64, IntErrorKind>)
    ensures
        r == parse_u64_spec(s@),
{
    let n = crate::text::char_count(s);
    let ghost v = s@;
    if n == 0 {
        return Err(IntErrorKind::Empty);
    }
    let start: usize = if crate::text::char_at(s, 0) == '+' { 1 } else { 0 };
    let ghost d = unsigned_digits(v);
    assert(d =~= v.subrange(start as int, v.len() as int));
    if start == n {
        assert(d.len() == 0);
        return Err(IntErrorKind::InvalidDigit);
    }
    let mut acc: u64 = 0;
    let mut overflow = false;
    let mut i: usize = start;
    while i < n
        invariant
            start <= i <= n,
            n == v.len(),
            d == v.subrange(start as int, n as int),
            d == unsigned_digits(v),
            forall|k: int| 0 <= k < i - start ==> is_digit(#[trigger] d[k]),
            !overflow ==> acc == digits_value(d.take(i - start)),
            overflow ==> digits_value(d.take(i - start)) > u64::MAX,
            s@ == v,
        decreases n - i,
    {
        let c = crate::text::char_at(s, i);
        assert(c == d[i - start]);
        if !('0' <= c && c <= '9') {
            assert(!is_digit(d[i - start]));
            return Err(IntErrorKind::InvalidDigit);
        }
        let dv = (c as u64) - ('0' as u64);
        proof {
            let t = d.take(i - start + 1);
            assert(t.drop_last() =~= d.take(i - start));
            assert(t.last() == c);
            lemma_digits_value_nonneg(d.take(i - start));
        }
        if !overflow {
            if acc > (u64::MAX - dv) / 10 {
                overflow = true;
            } else {
                acc = acc * 10 + dv;
            }
        }
        i = i + 1;
    }
    assert(d.take(d.len() as int) =~= d);
    if overflow {
        Err(IntErrorKind::PosOverflow)
    } else {
        Ok(acc)
    }
}

/// Parse text as a `bool`, as `str::parse::<bool>` does.
pub fn parse_bool(s: &str) -> (r: Option<bool>)
    ensures
        r == parse_bool_spec(s@),
{
    if crate::text::str_eq(s, "true") {
        Some(true)
    } else if crate::text::str_eq(s, "false") {
        Some(false)
    } else {
        None
    }
}

/// The message of a parse error kind.
pub fn int_error_text(k: IntErrorKind) -> (r: String)
    ensures
        r@ == int_error_message(k),
{
    match k {
        IntErrorKind::Empty => String::from_str("cannot parse integer from empty string"),
        IntErrorKind::InvalidDigit => String::from_str("invalid digit found in string"),
        IntErrorKind::PosOverflow => String::from_str("number too large to fit in target type"),
    }
}

} // verus!
