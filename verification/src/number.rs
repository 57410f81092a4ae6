//! Numbers as they travel on the wire: the decimal literal that carries a
//! price, and the decimal rendering of a signed integer.

use crate::text::{find_from, first_index};
use vstd::prelude::*;
use vstd::string::*;

verus! {

/// A decimal digit.
pub open spec fn is_digit(c: char) -> bool {
    '0' <= c <= '9'
}

/// Nothing but decimal digits.
pub open spec fn all_digits(s: Seq<char>) -> bool {
    forall|i: int| 0 <= i < s.len() ==> is_digit(#[trigger] s[i])
}

/// A plus or a minus.
pub open spec fn is_sign(c: char) -> bool {
    c == '+' || c == '-'
}

/// `s` without its leading sign, if it has one.
pub open spec fn unsigned_part(s: Seq<char>) -> Seq<char> {
    if s.len() > 0 && is_sign(s[0]) {
        s.drop_first()
    } else {
        s
    }
}

/// The letter that opens an exponent, in either case.
pub open spec fn is_exponent_mark(c: char) -> bool {
    c == 'e' || c == 'E'
}

/// Position of the first exponent mark in `s`, or `s.len()`.
pub open spec fn exponent_index(s: Seq<char>) -> int
    decreases s.len(),
{
    if s.len() == 0 || is_exponent_mark(s[0]) {
        0
    } else {
        1 + exponent_index(s.drop_first())
    }
}

/// Digits with at most one point among them, and at least one digit.
pub open spec fn is_mantissa(s: Seq<char>) -> bool {
    let dot = first_index(s, '.');
    if dot < s.len() {
        s.len() > 1 && all_digits(s.subrange(0, dot)) && all_digits(
            s.subrange(dot + 1, s.len() as int),
        )
    } else {
        s.len() > 0 && all_digits(s)
    }
}

/// A mantissa, optionally followed by an exponent mark, an optional sign and
/// at least one digit.
pub open spec fn is_number(s: Seq<char>) -> bool {
    let mark = exponent_index(s);
    if mark < s.len() {
        let exponent = unsigned_part(s.subrange(mark + 1, s.len() as int));
        is_mantissa(s.subrange(0, mark)) && exponent.len() > 0 && all_digits(exponent)
    } else {
        is_mantissa(s)
    }
}

/// One letter, in either case.
pub open spec fn is_letter(c: char, lower: char, upper: char) -> bool {
    c == lower || c == upper
}

/// `inf`, `infinity` or `nan`, in any mix of upper and lower case.
pub open spec fn is_special(s: Seq<char>) -> bool {
    ||| s.len() == 3 && is_letter(s[0], 'i', 'I') && is_letter(s[1], 'n', 'N') && is_letter(
        s[2],
        'f',
        'F',
    )
    ||| s.len() == 3 && is_letter(s[0], 'n', 'N') && is_letter(s[1], 'a', 'A') && is_letter(
        s[2],
        'n',
        'N',
    )
    ||| s.len() == 8 && is_letter(s[0], 'i', 'I') && is_letter(s[1], 'n', 'N') && is_letter(
        s[2],
        'f',
        'F',
    ) && is_letter(s[3], 'i', 'I') && is_letter(s[4], 'n', 'N') && is_letter(s[5], 'i', 'I')
        && is_letter(s[6], 't', 'T') && is_letter(s[7], 'y', 'Y')
}

/// The texts that the standard library reads as a floating-point number: an
/// optional sign, then either a number or one of the special words.
pub open spec fn is_float_literal(s: Seq<char>) -> bool {
    let body = unsigned_part(s);
    is_special(body) || is_number(body)
}

/// `exponent_index` is the least position holding an exponent mark, and
/// stays in bounds.
pub proof fn lemma_exponent_index(s: Seq<char>)
    ensures
        0 <= exponent_index(s) <= s.len(),
        exponent_index(s) < s.len() ==> is_exponent_mark(s[exponent_index(s)]),
        forall|i: int| 0 <= i < exponent_index(s) ==> !is_exponent_mark(s[i]),
    decreases s.len(),
{
    if s.len() == 0 || is_exponent_mark(s[0]) {
    } else {
        let t = s.drop_first();
        lemma_exponent_index(t);
        assert forall|i: int| 0 <= i < exponent_index(s) implies !is_exponent_mark(s[i]) by {
            if i > 0 {
                assert(s[i] == t[i - 1]);
            }
        }
    }
}

/// A position `k` that holds an exponent mark with none before it is the
/// exponent index.
pub proof fn lemma_exponent_index_is(s: Seq<char>, k: int)
    requires
        0 <= k <= s.len(),
        k < s.len() ==> is_exponent_mark(s[k]),
        forall|i: int| 0 <= i < k ==> !is_exponent_mark(s[i]),
    ensures
        exponent_index(s) == k,
{
    lemma_exponent_index(s);
    let f = exponent_index(s);
    if f < k {
        assert(!is_exponent_mark(s[f]));
    } else if f > k {
        assert(!is_exponent_mark(s[k]));
    }
}

/// Whether `s` holds nothing but digits.
fn check_digits(s: &str) -> (r: bool)
    ensures
        r == all_digits(s@),
{
    let n = s.unicode_len();
    let mut i: usize = 0;
    while i < n
        invariant
            n == s@.len(),
            i <= n,
            forall|j: int| 0 <= j < i ==> is_digit(#[trigger] s@[j]),
        decreases n - i,
    {
        let c = s.get_char(i);
        if !('0' <= c && c <= '9') {
            return false;
        }
        i += 1;
    }
    true
}

/// Whether `s` is a mantissa.
fn check_mantissa(s: &str) -> (r: bool)
    ensures
        r == is_mantissa(s@),
{
    let n = s.unicode_len();
    let dot = find_from(s, '.', 0);
    proof {
        assert(s@.subrange(0, n as int) == s@);
    }
    if dot < n {
        n > 1 && check_digits(s.substring_char(0, dot)) && check_digits(
            s.substring_char(dot + 1, n),
        )
    } else {
        n > 0 && check_digits(s)
    }
}

/// Position of the first exponent mark of `s`, or its length.
fn find_exponent(s: &str) -> (k: usize)
    ensures
        k == exponent_index(s@),
        k <= s@.len(),
{
    let n = s.unicode_len();
    let mut k: usize = 0;
    while k < n && s.get_char(k) != 'e' && s.get_char(k) != 'E'
        invariant
            n == s@.len(),
            k <= n,
            forall|i: int| 0 <= i < k ==> !is_exponent_mark(s@[i]),
        decreases n - k,
    {
        k += 1;
    }
    proof {
        lemma_exponent_index_is(s@, k as int);
    }
    k
}

/// `s` without its leading sign, if it has one.
fn strip_sign<'a>(s: &'a str) -> (r: &'a str)
    ensures
        r@ == unsigned_part(s@),
{
    let n = s.unicode_len();
    if n > 0 {
        let c = s.get_char(0);
        if c == '+' || c == '-' {
            return s.substring_char(1, n);
        }
    }
    s
}

/// Whether `s` is a number.
fn check_number(s: &str) -> (r: bool)
    ensures
        r == is_number(s@),
{
    let n = s.unicode_len();
    let mark = find_exponent(s);
    if mark < n {
        let exponent = strip_sign(s.substring_char(mark + 1, n));
        check_mantissa(s.substring_char(0, mark)) && exponent.unicode_len() > 0 && check_digits(
            exponent,
        )
    } else {
        check_mantissa(s)
    }
}

/// Whether `s` holds the letter at `i`, in either case.
fn check_letter(s: &str, i: usize, lower: char, upper: char) -> (r: bool)
    requires
        i < s@.len(),
    ensures
        r == is_letter(s@[i as int], lower, upper),
{
    let c = s.get_char(i);
    c == lower || c == upper
}

/// Whether `s` is one of the special words.
fn check_special(s: &str) -> (r: bool)
    ensures
        r == is_special(s@),
{
    let n = s.unicode_len();
    if n == 3 {
        (check_letter(s, 0, 'i', 'I') && check_letter(s, 1, 'n', 'N') && check_letter(
            s,
            2,
            'f',
            'F',
        )) || (check_letter(s, 0, 'n', 'N') && check_letter(s, 1, 'a', 'A') && check_letter(
            s,
            2,
            'n',
            'N',
        ))
    } else if n == 8 {
        check_letter(s, 0, 'i', 'I') && check_letter(s, 1, 'n', 'N') && check_letter(s, 2, 'f', 'F')
            && check_letter(s, 3, 'i', 'I') && check_letter(s, 4, 'n', 'N') && check_letter(
            s,
            5,
            'i',
            'I',
        ) && check_letter(s, 6, 't', 'T') && check_letter(s, 7, 'y', 'Y')
    } else {
        false
    }
}

/// Whether `s` is a literal of a floating-point number.
pub fn check_float_literal(s: &str) -> (r: bool)
    ensures
        r == is_float_literal(s@),
{
    let body = strip_sign(s);
    check_special(body) || check_number(body)
}

/// The character of the decimal digit `d`.
pub open spec fn digit_char(d: int) -> char {
    if d == 0 {
        '0'
    } else if d == 1 {
        '1'
    } else if d == 2 {
        '2'
    } else if d == 3 {
        '3'
    } else if d == 4 {
        '4'
    } else if d == 5 {
        '5'
    } else if d == 6 {
        '6'
    } else if d == 7 {
        '7'
    } else if d == 8 {
        '8'
    } else {
        '9'
    }
}

/// The decimal digits of `n`, most significant first, without leading zeros.
pub open spec fn digits(n: nat) -> Seq<char>
    decreases n,
{
    if n < 10 {
        seq![digit_char(n as int)]
    } else {
        digits(n / 10).push(digit_char((n % 10) as int))
    }
}

/// The decimal form of `n`: a minus sign for a negative number, then the
/// digits of its magnitude.
pub open spec fn decimal(n: int) -> Seq<char> {
    if n < 0 {
        seq!['-'] + digits((-n) as nat)
    } else {
        digits(n as nat)
    }
}

/// The digit `d` as a text.
fn digit_text(d: u64) -> (r: &'static str)
    requires
        d < 10,
    ensures
        r@ == seq![digit_char(d as int)],
{
    proof {
        reveal_strlit("0");
        reveal_strlit("1");
        reveal_strlit("2");
        reveal_strlit("3");
        reveal_strlit("4");
        reveal_strlit("5");
        reveal_strlit("6");
        reveal_strlit("7");
        reveal_strlit("8");
        reveal_strlit("9");
    }
    if d == 0 {
        "0"
    } else if d == 1 {
        "1"
    } else if d == 2 {
        "2"
    } else if d == 3 {
        "3"
    } else if d == 4 {
        "4"
    } else if d == 5 {
        "5"
    } else if d == 6 {
        "6"
    } else if d == 7 {
        "7"
    } else if d == 8 {
        "8"
    } else {
        "9"
    }
}

/// Writes `n` in decimal.
pub fn render_i32(n: i32) -> (r: String)
    ensures
        r@ == decimal(n as int),
{
    let magnitude: u64 = if n < 0 {
        (-(n as i64)) as u64
    } else {
        n as u64
    };
    let mut rest: u64 = magnitude / 10;
    let mut text = String::from_str(digit_text(magnitude % 10));
    while rest > 0
        invariant
            rest > 0 ==> digits(magnitude as nat) == digits(rest as nat) + text@,
            rest == 0 ==> digits(magnitude as nat) == text@,
        decreases rest,
    {
        let ghost before = text@;
        let ghost shown = rest;
        text = String::from_str(digit_text(rest % 10)).concat(text.as_str());
        rest = rest / 10;
        proof {
            let d = seq![digit_char((shown % 10) as int)];
            if shown >= 10 {
                assert((digits(rest as nat) + d) + before == digits(rest as nat) + (d + before));
            }
        }
    }
    if n < 0 {
        proof {
            reveal_strlit("-");
        }
        String::from_str("-").concat(text.as_str())
    } else {
        text
    }
}

} // verus!
