//! Small string utilities shared by the whole crate: equality of string
//! slices, decimal rendering of integers, and the character classes that the
//! request builder accepts in path segments, query values and body fields.

use vstd::prelude::*;
use vstd::string::StrSliceExecFns;
use vstd::string::StringExecFns;

verus! {

/// Relies on std's `String::push`: appends exactly one character at the end.
#[verifier::external_body]
pub(crate) fn string_push(s: &mut String, c: char)
    ensures
        final(s)@ == old(s)@.push(c),
{
    s.push(c);
}

/// Compares two byte vectors element by element.
pub fn bytes_eq(a: &Vec<u8>, b: &Vec<u8>) -> (r: bool)
    ensures
        r == (a@ == b@),
{
    if a.len() != b.len() {
        return false;
    }
    let n = a.len();
    let mut i: usize = 0;
    while i < n
        invariant
            i <= n,
            n == a@.len(),
            n == b@.len(),
            forall|j: int| 0 <= j < i ==> a@[j] == b@[j],
        decreases n - i,
    {
        if a[i] != b[i] {
            return false;
        }
        i += 1;
    }
    proof {
        assert(a@ =~= b@);
    }
    true
}

/// Compares two string slices by their characters.
pub fn str_eq(a: &str, b: &str) -> (r: bool)
    ensures
        r == (a@ == b@),
{
    let av = a.as_bytes_vec();
    let bv = b.as_bytes_vec();
    let r = bytes_eq(&av, &bv);
    proof {
        if av@ == bv@ {
            vstd::utf8::encode_utf8_decode_utf8(a@);
            vstd::utf8::encode_utf8_decode_utf8(b@);
        }
    }
    r
}

/// The character that writes the decimal digit `d`.
pub open spec fn dec_digit(d: nat) -> char {
    if d == 0 {
        '0'
    } else if d == 1 {
        '1'
    } else if d == 2 {
        '2'
    } else if d == 3 {
        '3'
    } else if d == 4 {
        '4'
    } else if d == 5 {
        '5'
    } else if d == 6 {
        '6'
    } else if d == 7 {
        '7'
    } else if d == 8 {
        '8'
    } else {
        '9'
    }
}

/// The decimal rendering of a natural number, most significant digit first,
/// without leading zeros (except for the number zero itself).
pub open spec fn dec_str_of(n: nat) -> Seq<char>
    decreases n,
{
    if n < 10 {
        seq![dec_digit(n)]
    } else {
        dec_str_of(n / 10) + seq![dec_digit(n % 10)]
    }
}

/// The decimal rendering of a signed number: a `-` sign for negative values,
/// then the rendering of the magnitude.
pub open spec fn dec_str_of_int(n: int) -> Seq<char> {
    if n < 0 {
        seq!['-'] + dec_str_of((-n) as nat)
    } else {
        dec_str_of(n as nat)
    }
}

fn digit_char(d: u64) -> (r: char)
    requires
        d < 10,
    ensures
        r == dec_digit(d as nat),
{
    match d {
        0 => '0',
        1 => '1',
        2 => '2',
        3 => '3',
        4 => '4',
        5 => '5',
        6 => '6',
        7 => '7',
        8 => '8',
        _ => '9',
    }
}

/// Writes `n` in decimal.
pub fn u64_to_dec(n: u64) -> (r: String)
    ensures
        r@ == dec_str_of(n as nat),
    decreases n,
{
    if n < 10 {
        let mut s = String::new();
        string_push(&mut s, digit_char(n));
        s
    } else {
        let mut s = u64_to_dec(n / 10);
        string_push(&mut s, digit_char(n % 10));
        s
    }
}

/// Writes `n` in decimal, with a leading `-` when it is negative.
pub fn i64_to_dec(n: i64) -> (r: String)
    ensures
        r@ == dec_str_of_int(n as int),
{
    if n >= 0 {
        u64_to_dec(n as u64)
    } else {
        let wide: i128 = n as i128;
        let magnitude: u64 = (-wide) as u64;
        let mut s = String::new();
        s.append("-");
        let digits = u64_to_dec(magnitude);
        let r = s.concat(digits.as_str());
        proof {
            reveal_strlit("-");
            assert(r@ =~= dec_str_of_int(n as int));
        }
        r
    }
}

/// A decimal digit.
pub open spec fn is_dec_digit_char(c: char) -> bool {
    '0' <= c && c <= '9'
}

/// A decimal number as the wire protocol writes it: digits with at most one
/// dot, starting and ending with a digit. Numeric fields travel as such
/// strings, never as native floating point, to avoid precision loss.
pub open spec fn is_decimal_str(s: Seq<char>) -> bool {
    &&& s.len() > 0
    &&& is_dec_digit_char(s[0])
    &&& is_dec_digit_char(s[s.len() - 1])
    &&& (forall|i: int| 0 <= i < s.len() ==> is_dec_digit_char(s[i]) || s[i] == '.')
    &&& (forall|i: int, j: int|
        0 <= i < s.len() && 0 <= j < s.len() && s[i] == '.' && s[j] == '.' ==> i == j)
}

/// Decides whether `s` is a wire decimal string.
pub fn is_decimal_string(s: &str) -> (r: bool)
    ensures
        r == is_decimal_str(s@),
{
    let len = s.unicode_len();
    if len == 0 {
        return false;
    }
    let first = s.get_char(0);
    if !('0' <= first && first <= '9') {
        return false;
    }
    let last = s.get_char(len - 1);
    if !('0' <= last && last <= '9') {
        return false;
    }
    let mut dot: Option<usize> = None;
    let mut i: usize = 0;
    while i < len
        invariant
            i <= len,
            len == s@.len(),
            forall|j: int| 0 <= j < i ==> is_dec_digit_char(s@[j]) || s@[j] == '.',
            match dot {
                Some(k) => k < i && s@[k as int] == '.' && (forall|j: int|
                    0 <= j < i && s@[j] == '.' ==> j == k as int),
                None => forall|j: int| 0 <= j < i ==> s@[j] != '.',
            },
        decreases len - i,
    {
        let c = s.get_char(i);
        if c == '.' {
            match dot {
                Some(_) => {
                    return false;
                },
                None => {
                    dot = Some(i);
                },
            }
        } else if !('0' <= c && c <= '9') {
            return false;
        }
        i += 1;
    }
    true
}

/// A character a JSON string can carry verbatim, with no escape: anything
/// but the quote, the backslash and the control range.
pub open spec fn is_json_plain_char(c: char) -> bool {
    c != '"' && c != '\\' && ' ' <= c
}

/// A string a JSON document can carry verbatim between quotes.
pub open spec fn json_plain(s: Seq<char>) -> bool {
    forall|i: int| 0 <= i < s.len() ==> is_json_plain_char(s[i])
}

/// Decides whether `s` can stand verbatim in a JSON string.
pub fn is_json_plain_string(s: &str) -> (r: bool)
    ensures
        r == json_plain(s@),
{
    let len = s.unicode_len();
    let mut i: usize = 0;
    while i < len
        invariant
            i <= len,
            len == s@.len(),
            forall|j: int| 0 <= j < i ==> is_json_plain_char(s@[j]),
        decreases len - i,
    {
        let c = s.get_char(i);
        if c == '"' || c == '\\' || !(' ' <= c) {
            return false;
        }
        i += 1;
    }
    true
}

/// Relies on std's `String::from_utf8`: it succeeds exactly on valid UTF-8
/// input and returns the string those bytes spell.
#[verifier::external_body]
pub fn string_from_utf8(bytes: Vec<u8>) -> (r: Option<String>)
    ensures
        r is Some <==> vstd::utf8::valid_utf8(bytes@),
        r matches Some(s) ==> s@ == vstd::utf8::decode_utf8(bytes@),
{
    String::from_utf8(bytes).ok()
}

} // verus!
