//! Decimal integers in text: reading them as `i32::from_str` does and
//! writing them as `i32::to_string` does.

use vstd::prelude::*;

verus! {

/// An ASCII decimal digit.
pub open spec fn is_digit(c: char) -> bool {
    '0' <= c && c <= '9'
}

/// The value of an ASCII decimal digit.
pub open spec fn digit_value(c: char) -> int {
    c as int - '0' as int
}

/// The value of a run of decimal digits.
pub open spec fn digits_value(s: Seq<char>) -> int
    decreases s.len(),
{
    if s.len() == 0 {
        0
    } else {
        digits_value(s.drop_last()) * 10 + digit_value(s.last())
    }
}

/// Whether `s` holds ASCII digits only.
pub open spec fn all_digits(s: Seq<char>) -> bool {
    forall|i: int| 0 <= i < s.len() ==> is_digit(#[trigger] s[i])
}

/// The length of the sign in front of a number: one for `+` or `-`.
pub open spec fn sign_len(s: Seq<char>) -> int {
    if s.len() > 0 && (s[0] == '-' || s[0] == '+') {
        1
    } else {
        0
    }
}

/// What `i32::from_str` gives for `s`: an optional `+` or `-`, then one or
/// more ASCII digits, whose value must fit an `i32`; anything else is an
/// error.
pub open spec fn parse_i32_spec(s: Seq<char>) -> Option<i32> {
    let body = s.skip(sign_len(s));
    let v = if s.len() > 0 && s[0] == '-' {
        -digits_value(body)
    } else {
        digits_value(body)
    };
    if body.len() == 0 || !all_digits(body) {
        None
    } else if i32::MIN <= v <= i32::MAX {
        Some(v as i32)
    } else {
        None
    }
}

proof fn lemma_digits_value_nonneg(s: Seq<char>)
    requires
        forall|i: int| 0 <= i < s.len() ==> is_digit(#[trigger] s[i]),
    ensures
        digits_value(s) >= 0,
    decreases s.len(),
{
    if s.len() > 0 {
        lemma_digits_value_nonneg(s.drop_last());
        assert(is_digit(s[s.len() - 1]));
    }
}

/// Reads a decimal `i32` as `i32::from_str` does; none where it errs.
pub fn parse_i32(s: &str) -> (r: Option<i32>)
    ensures
        r == parse_i32_spec(s@),
{
    let n = s.unicode_len();
    let ghost text = s@;
    let mut start: usize = 0;
    let mut neg = false;
    if n > 0 {
        let c0 = s.get_char(0);
        if c0 == '-' {
            neg = true;
            start = 1;
        } else if c0 == '+' {
            start = 1;
        }
    }
    let ghost body = text.skip(start as int);
    assert(start == sign_len(text));
    if start == n {
        return None;
    }
    // The value so far, capped once it passes any `i32`.
    let limit: i64 = 2147483648;
    let mut value: i64 = 0;
    let mut over = false;
    let mut i: usize = start;
    while i < n
        invariant
            n == text.len(),
            text == s@,
            start <= i <= n,
            body == text.skip(start as int),
            start as int == sign_len(text),
            neg == (text.len() > 0 && text[0] == '-'),
            forall|j: int| start <= j < i ==> is_digit(#[trigger] text[j]),
            !over ==> value == digits_value(text.subrange(start as int, i as int)),
            !over ==> 0 <= value <= limit,
            over ==> digits_value(text.subrange(start as int, i as int)) > limit,
            limit == 2147483648,
        decreases n - i,
    {
        let c = s.get_char(i);
        if !('0' <= c && c <= '9') {
            assert(body[i - start] == c);
            assert(!is_digit(body[i - start]));
            assert(!all_digits(body));
            return None;
        }
        let ghost prev = text.subrange(start as int, i as int);
        let ghost next = text.subrange(start as int, i + 1);
        assert(next.drop_last() =~= prev);
        assert(next.last() == c);
        proof {
            assert forall|j: int| 0 <= j < prev.len() implies is_digit(#[trigger] prev[j]) by {
                assert(prev[j] == text[start + j]);
            }
            lemma_digits_value_nonneg(prev);
        }
        let d: i64 = (c as u32 - '0' as u32) as i64;
        if !over {
            let nv = value * 10 + d;
            if nv > limit {
                over = true;
            } else {
                value = nv;
            }
        }
        i = i + 1;
    }
    proof {
        assert(text.subrange(start as int, n as int) =~= body);
        assert forall|j: int| 0 <= j < body.len() implies is_digit(#[trigger] body[j]) by {
            assert(body[j] == text[start + j]);
        }
    }
    if over {
        return None;
    }
    if neg {
        if value > limit {
            None
        } else {
            Some((-value) as i32)
        }
    } else {
        if value > 2147483647 {
            None
        } else {
            Some(value as i32)
        }
    }
}

/// The ASCII digit for `d`, which is below 10.
pub open spec fn digit_char(d: int) -> char {
    (d + '0' as int) as char
}

/// The decimal digits of a natural number, without leading zeros.
pub open spec fn decimal_digits(n: nat) -> Seq<char>
    decreases n,
{
    if n < 10 {
        seq![digit_char(n as int)]
    } else {
        decimal_digits(n / 10) + seq![digit_char((n % 10) as int)]
    }
}

/// `n` as `i32::to_string` writes it: a `-` for negatives, then its digits.
pub open spec fn decimal_text(n: int) -> Seq<char> {
    if n < 0 {
        seq!['-'] + decimal_digits((-n) as nat)
    } else {
        decimal_digits(n as nat)
    }
}

fn digit_to_char(d: u32) -> (c: char)
    requires
        d < 10,
    ensures
        c == digit_char(d as int),
{
    if d == 0 {
        '0'
    } else if d == 1 {
        '1'
    } else if d == 2 {
        '2'
    } else if d == 3 {
        '3'
    } else if d == 4 {
        '4'
    } else if d == 5 {
        '5'
    } else if d == 6 {
        '6'
    } else if d == 7 {
        '7'
    } else if d == 8 {
        '8'
    } else {
        '9'
    }
}

/// The digits of `n`, most significant first.
fn digits_of(n: u64) -> (r: Vec<char>)
    ensures
        r@ == decimal_digits(n as nat),
    decreases n,
{
    if n < 10 {
        let mut r = Vec::new();
        r.push(digit_to_char(n as u32));
        r
    } else {
        let mut r = digits_of(n / 10);
        r.push(digit_to_char((n % 10) as u32));
        r
    }
}

/// `n` in decimal, as `i32::to_string` writes it.
pub fn i32_to_text(n: i32) -> (r: Vec<char>)
    ensures
        r@ == decimal_text(n as int),
{
    if n < 0 {
        let m: i64 = -(n as i64);
        let digits = digits_of(m as u64);
        let mut r = Vec::new();
        r.push('-');
        let mut i: usize = 0;
        while i < digits.len()
            invariant
                i <= digits.len(),
                r@ == seq!['-'] + digits@.take(i as int),
            decreases digits.len() - i,
        {
            r.push(digits[i]);
            i = i + 1;
            assert(r@ =~= seq!['-'] + digits@.take(i as int));
        }
        assert(digits@.take(digits.len() as int) =~= digits@);
        r
    } else {
        digits_of(n as u64)
    }
}

} // verus!
