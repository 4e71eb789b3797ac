//! Resolution of a feature identifier into a VCP code string.

use vstd::prelude::*;

verus! {

/// An ASCII hexadecimal digit, in either case.
pub open spec fn is_hex_char(c: char) -> bool {
    ('0' <= c && c <= '9') || ('a' <= c && c <= 'f') || ('A' <= c && c <= 'F')
}

/// Every character of `s` is an ASCII hexadecimal digit.
pub open spec fn all_hex(s: Seq<char>) -> bool {
    forall|i: int| 0 <= i < s.len() ==> #[trigger] is_hex_char(s[i])
}

/// Whether `c` is an ASCII hexadecimal digit.
pub fn is_hex_digit(c: char) -> (r: bool)
    ensures
        r == is_hex_char(c),
{
    ('0' <= c && c <= '9') || ('a' <= c && c <= 'f') || ('A' <= c && c <= 'F')
}

/// Whether the characters of `s` from position `start` on are all hex digits.
pub fn hex_from(s: &str, start: usize) -> (r: bool)
    requires
        start <= s@.len(),
    ensures
        r == all_hex(s@.subrange(start as int, s@.len() as int)),
{
    let n = s.unicode_len();
    let mut i: usize = start;
    while i < n
        invariant
            n == s@.len(),
            start <= i <= n,
            all_hex(s@.subrange(start as int, i as int)),
        decreases n - i,
    {
        let c = s.get_char(i);
        if !is_hex_digit(c) {
            assert(s@.subrange(start as int, n as int)[i - start] == c);
            return false;
        }
        assert(forall|k: int| start <= k <= i ==> s@.subrange(start as int, i as int + 1)[k - start] == s@[k]);
        i = i + 1;
    }
    true
}

/// Whether `a` and `b` hold the same characters.
pub fn same_text(a: &str, b: &str) -> (r: bool)
    ensures
        r == (a@ == b@),
{
    let n = a.unicode_len();
    if n != b.unicode_len() {
        return false;
    }
    let mut i: usize = 0;
    while i < n
        invariant
            n == a@.len(),
            n == b@.len(),
            i <= n,
            forall|k: int| 0 <= k < i ==> a@[k] == b@[k],
        decreases n - i,
    {
        if a.get_char(i) != b.get_char(i) {
            return false;
        }
        i = i + 1;
    }
    assert(a@ =~= b@);
    true
}

/// The uppercase form of an ASCII lowercase letter; any other character is kept.
pub open spec fn ascii_upper(c: char) -> char {
    if 'a' <= c && c <= 'z' {
        ((c as int) - 32) as char
    } else {
        c
    }
}

/// `s` with every ASCII lowercase letter made uppercase.
pub open spec fn upper(s: Seq<char>) -> Seq<char> {
    s.map_values(|c: char| ascii_upper(c))
}

/// Relies on `str::to_ascii_uppercase`: ASCII letters 'a' to 'z' become 'A' to 'Z',
/// all other characters are copied unchanged.
#[verifier::external_body]
fn to_upper(s: &str) -> (r: String)
    ensures
        r@ == upper(s@),
{
    s.to_ascii_uppercase()
}

/// The uppercase hexadecimal digit for `n` in `0..16`.
pub open spec fn hex_digit(n: int) -> char {
    if n < 10 {
        ('0' as int + n) as char
    } else {
        ('A' as int + n - 10) as char
    }
}

/// `b` as two uppercase hexadecimal digits, the high one first.
pub open spec fn byte_hex(b: u8) -> Seq<char> {
    seq![hex_digit(b as int / 16), hex_digit(b as int % 16)]
}

/// Relies on the `{:02X}` format of `u8`: uppercase hexadecimal, padded with
/// zeros to two digits (a `u8` never needs more).
#[verifier::external_body]
fn byte_to_hex(b: u8) -> (r: String)
    ensures
        r@ == byte_hex(b),
{
    format!("{:02X}", b)
}

/// An ASCII decimal digit.
pub open spec fn is_dec_char(c: char) -> bool {
    '0' <= c && c <= '9'
}

/// Every character of `s` is an ASCII decimal digit.
pub open spec fn all_dec(s: Seq<char>) -> bool {
    forall|i: int| 0 <= i < s.len() ==> #[trigger] is_dec_char(s[i])
}

/// The value of a string of decimal digits, most significant first.
pub open spec fn dec_value(s: Seq<char>) -> nat
    decreases s.len(),
{
    if s.len() == 0 {
        0
    } else {
        dec_value(s.drop_last()) * 10 + ((s.last() as int) - ('0' as int)) as nat
    }
}

/// The digits of an unsigned numeral: `s` without a leading '+', if it has one.
pub open spec fn unsigned_digits(s: Seq<char>) -> Seq<char> {
    if s.len() > 0 && s[0] == '+' {
        s.drop_first()
    } else {
        s
    }
}

/// The byte that `s` denotes as a decimal numeral: an optional '+', then one
/// or more decimal digits, of value at most 255.
pub open spec fn decimal_byte(s: Seq<char>) -> Option<u8> {
    let d = unsigned_digits(s);
    if d.len() > 0 && all_dec(d) && dec_value(d) <= 255 {
        Some(dec_value(d) as u8)
    } else {
        None
    }
}

/// Relies on `u8`'s `FromStr`: it accepts an optional '+' followed by one or
/// more decimal digits whose value fits in a `u8`, and is an error otherwise.
#[verifier::external_body]
fn parse_byte(s: &str) -> (r: Option<u8>)
    ensures
        r == decimal_byte(s@),
{
    s.parse::<u8>().ok()
}

/// The code that a feature name stands for, if it is a known one.
pub open spec fn named_code(s: Seq<char>) -> Option<Seq<char>> {
    if s == "brightness"@ {
        Some("10"@)
    } else if s == "contrast"@ {
        Some("12"@)
    } else {
        None
    }
}

/// Looks `name` up in the table of known feature names (case-sensitive).
pub fn known_name(name: &str) -> (r: Option<String>)
    ensures
        match r {
            Some(v) => named_code(name@) == Some(v@),
            None => named_code(name@) is None,
        },
{
    if same_text(name, "brightness") {
        Some("10".to_owned())
    } else if same_text(name, "contrast") {
        Some("12".to_owned())
    } else {
        None
    }
}

/// The resolved code of a feature identifier; the first rule that applies wins.
pub open spec fn resolve(s: Seq<char>) -> Option<Seq<char>> {
    if 1 <= s.len() <= 2 && all_hex(s) {
        Some(upper(s))
    } else if s.len() >= 2 && s[0] == '0' && s[1] == 'x' && all_hex(s.subrange(2, s.len() as int)) {
        Some(upper(s.subrange(2, s.len() as int)))
    } else if decimal_byte(s) is Some {
        Some(byte_hex(decimal_byte(s)->0))
    } else {
        named_code(s)
    }
}

/// Converts a feature name or code into the VCP code string that the display
/// utility expects, or `None` when no rule applies.
pub fn get_vcp_code(code: &str) -> (r: Option<String>)
    ensures
        match r {
            Some(v) => resolve(code@) == Some(v@),
            None => resolve(code@) is None,
        },
{
    let n = code.unicode_len();
    if 1 <= n && n <= 2 && hex_from(code, 0) {
        assert(code@.subrange(0, n as int) =~= code@);
        return Some(to_upper(code));
    }
    if n >= 2 && code.get_char(0) == '0' && code.get_char(1) == 'x' {
        let rest = code.substring_char(2, n);
        if hex_from(rest, 0) {
            assert(rest@.subrange(0, rest@.len() as int) =~= rest@);
            return Some(to_upper(rest));
        }
        assert(rest@.subrange(0, rest@.len() as int) =~= rest@);
    }
    if let Some(b) = parse_byte(code) {
        return Some(byte_to_hex(b));
    }
    known_name(code)
}

/// A single hexadecimal digit resolves to itself made uppercase, without padding.
pub proof fn lemma_single_hex_digit(s: Seq<char>)
    requires
        s.len() == 1,
        is_hex_char(s[0]),
    ensures
        resolve(s) == Some(seq![ascii_upper(s[0])]),
{
    assert(all_hex(s));
    assert(upper(s) =~= seq![ascii_upper(s[0])]);
}

/// Two hexadecimal digits resolve to the same two digits made uppercase.
pub proof fn lemma_two_hex_digits(s: Seq<char>)
    requires
        s.len() == 2,
        all_hex(s),
    ensures
        resolve(s) == Some(upper(s)),
        upper(s).len() == 2,
{
}

/// "0x" followed by hexadecimal digits resolves to those digits made
/// uppercase, of the same length.
pub proof fn lemma_prefixed_hex(d: Seq<char>)
    requires
        all_hex(d),
    ensures
        resolve(seq!['0', 'x'] + d) == Some(upper(d)),
        upper(d).len() == d.len(),
{
    let s = seq!['0', 'x'] + d;
    assert(!is_hex_char(s[1]));
    assert(s.subrange(2, s.len() as int) =~= d);
}

/// Every result of `byte_hex` is two uppercase hexadecimal digits.
pub proof fn lemma_byte_hex_is_code(b: u8)
    ensures
        byte_hex(b).len() == 2,
        all_hex(byte_hex(b)),
        upper(byte_hex(b)) == byte_hex(b),
{
    assert(upper(byte_hex(b)) =~= byte_hex(b));
}

/// A decimal numeral of three or more digits with value at most 255 resolves
/// to its value as two uppercase hexadecimal digits. Shorter numerals are
/// taken as raw hexadecimal by the first rule instead.
pub proof fn lemma_decimal_numeral(s: Seq<char>)
    requires
        s.len() >= 3,
        all_dec(s),
        dec_value(s) <= 255,
    ensures
        resolve(s) == Some(byte_hex(dec_value(s) as u8)),
        byte_hex(dec_value(s) as u8).len() == 2,
        all_hex(byte_hex(dec_value(s) as u8)),
{
    assert(is_dec_char(s[0]) && is_dec_char(s[1]));
    assert(unsigned_digits(s) == s);
    lemma_byte_hex_is_code(dec_value(s) as u8);
}

} // verus!
