//! Text: building strings from characters, decoding bytes, and writing
//! numbers in decimal and in hexadecimal.

use vstd::prelude::*;
use vstd::utf8::{decode_utf8, valid_utf8};

verus! {

/// `String::push`: the character is appended to the end of the string.
#[verifier::external_body]
fn string_push(s: &mut String, c: char)
    ensures
        final(s)@ == old(s)@.push(c),
{
    s.push(c);
}

/// The string that holds exactly the characters of `chars`, in order.
pub fn string_of_chars(chars: &Vec<char>) -> (s: String)
    ensures
        s@ == chars@,
{
    let mut s = String::new();
    let mut i: usize = 0;
    while i < chars.len()
        invariant
            i <= chars@.len(),
            s@ == chars@.take(i as int),
        decreases chars@.len() - i,
    {
        string_push(&mut s, chars[i]);
        assert(s@ =~= chars@.take(i + 1));
        i += 1;
    }
    assert(chars@.take(chars@.len() as int) =~= chars@);
    s
}

/// `std::str::from_utf8`, with the text copied out: `Some` exactly for valid
/// UTF-8, and then the text that the bytes encode.
#[verifier::external_body]
pub(crate) fn utf8_to_string(bytes: &[u8]) -> (r: Option<String>)
    ensures
        valid_utf8(bytes@) ==> r is Some && r->0@ == decode_utf8(bytes@),
        !valid_utf8(bytes@) ==> r is None,
{
    match std::str::from_utf8(bytes) {
        Ok(s) => Some(s.to_owned()),
        Err(_) => None,
    }
}

/// The text that a run of UTF-16 code units encodes, `None` when the run is
/// not valid UTF-16.
pub uninterp spec fn utf16_text(units: Seq<u16>) -> Option<Seq<char>>;

/// `String::from_utf16`: the text of the code units, or nothing when they
/// hold an unpaired surrogate. The same units always decode alike.
#[verifier::external_body]
pub(crate) fn utf16_to_string(units: &Vec<u16>) -> (r: Option<String>)
    ensures
        r is Some <==> utf16_text(units@) is Some,
        r is Some ==> r->0@ == utf16_text(units@)->0,
{
    match String::from_utf16(units) {
        Ok(s) => Some(s),
        Err(_) => None,
    }
}

/// Whether `needle` occurs in `hay` as a run of adjacent characters.
pub open spec fn is_subtext(hay: Seq<char>, needle: Seq<char>) -> bool {
    exists|i: int|
        0 <= i <= hay.len() - needle.len() && #[trigger] hay.subrange(i, i + needle.len())
            == needle
}

/// `str::contains` with a string pattern: whether the pattern matches a
/// sub-slice of the text.
#[verifier::external_body]
pub(crate) fn str_contains(hay: &str, needle: &str) -> (r: bool)
    ensures
        r == is_subtext(hay@, needle@),
{
    hay.contains(needle)
}

/// The text without the white space at its two ends.
pub uninterp spec fn trimmed(text: Seq<char>) -> Seq<char>;

/// `str::trim`: the text with leading and trailing white space removed. The
/// same text is always trimmed alike.
#[verifier::external_body]
pub(crate) fn str_trim(s: &str) -> (r: &str)
    ensures
        r@ == trimmed(s@),
{
    s.trim()
}

/// The text in lower case.
pub uninterp spec fn lowercase(text: Seq<char>) -> Seq<char>;

/// `str::to_lowercase`: the lower-case equivalent of the text. The same text
/// always has the same lower-case form.
#[verifier::external_body]
pub(crate) fn str_to_lowercase(s: &str) -> (r: String)
    ensures
        r@ == lowercase(s@),
{
    s.to_lowercase()
}

/// Appends the characters of `word` to `out`.
pub fn push_text(out: &mut Vec<char>, word: &str)
    ensures
        final(out)@ == old(out)@ + word@,
{
    let n = word.unicode_len();
    let mut i: usize = 0;
    while i < n
        invariant
            i <= n,
            n == word@.len(),
            out@ == old(out)@ + word@.take(i as int),
        decreases n - i,
    {
        out.push(word.get_char(i));
        assert(out@ =~= old(out)@ + word@.take(i + 1));
        i += 1;
    }
    assert(word@.take(n as int) =~= word@);
}

/// The character of the decimal digit `d`.
pub open spec fn digit_char(d: nat) -> char {
    (48 + d) as char
}

/// `v` in decimal, without leading zeros.
pub open spec fn spec_decimal(v: nat) -> Seq<char>
    decreases v,
{
    if v < 10 {
        seq![digit_char(v)]
    } else {
        spec_decimal(v / 10).push(digit_char(v % 10))
    }
}

/// `v` in decimal, with a minus sign when it is negative.
pub open spec fn spec_decimal_int(v: int) -> Seq<char> {
    if v < 0 {
        seq!['-'] + spec_decimal((-v) as nat)
    } else {
        spec_decimal(v as nat)
    }
}

/// The digits of `v`, most significant first.
pub fn decimal_digits(v: u64) -> (out: Vec<char>)
    ensures
        out@ == spec_decimal(v as nat),
{
    let mut low_first: Vec<char> = Vec::new();
    let mut rest = v;
    while rest >= 10
        invariant
            spec_decimal(v as nat) == spec_decimal(rest as nat) + low_first@.reverse(),
        decreases rest,
    {
        let d = (rest % 10) as u8;
        let ghost before = low_first@;
        low_first.push((48 + d) as char);
        proof {
            assert(low_first@.reverse() =~= seq![digit_char((rest % 10) as nat)]
                + before.reverse());
            assert(spec_decimal((rest / 10) as nat).push(digit_char((rest % 10) as nat))
                + before.reverse() =~= spec_decimal((rest / 10) as nat) + low_first@.reverse());
        }
        rest = rest / 10;
    }
    let mut out: Vec<char> = Vec::new();
    out.push((48 + rest as u8) as char);
    let mut i: usize = low_first.len();
    while i > 0
        invariant
            i <= low_first@.len(),
            out@ == spec_decimal(rest as nat) + low_first@.reverse().take(low_first@.len() - i),
            rest < 10,
        decreases i,
    {
        i -= 1;
        out.push(low_first[i]);
        proof {
            let r = low_first@.reverse();
            let k = low_first@.len() - i;
            assert(r.take(k) =~= r.take(k - 1).push(low_first@[i as int]));
            assert(out@ =~= spec_decimal(rest as nat) + r.take(k));
        }
    }
    proof {
        let r = low_first@.reverse();
        assert(r.take(low_first@.len() as int) =~= r);
    }
    out
}

/// `v` in decimal.
pub fn decimal_u64(v: u64) -> (s: String)
    ensures
        s@ == spec_decimal(v as nat),
{
    let digits = decimal_digits(v);
    string_of_chars(&digits)
}

/// `v` in decimal, with a minus sign when it is negative.
pub fn decimal_i64(v: i64) -> (s: String)
    ensures
        s@ == spec_decimal_int(v as int),
{
    if v < 0 {
        let magnitude: u64 = (-(v + 1)) as u64 + 1;
        let digits = decimal_digits(magnitude);
        let mut out: Vec<char> = Vec::new();
        out.push('-');
        let mut i: usize = 0;
        while i < digits.len()
            invariant
                i <= digits@.len(),
                out@ == seq!['-'] + digits@.take(i as int),
            decreases digits@.len() - i,
        {
            out.push(digits[i]);
            assert(out@ =~= seq!['-'] + digits@.take(i + 1));
            i += 1;
        }
        assert(digits@.take(digits@.len() as int) =~= digits@);
        string_of_chars(&out)
    } else {
        decimal_u64(v as u64)
    }
}

/// The upper-case hexadecimal digit of `d`.
pub open spec fn hex_char(d: nat) -> char {
    if d < 10 {
        (48 + d) as char
    } else {
        (55 + d) as char
    }
}

/// The two upper-case hexadecimal digits of a byte.
pub open spec fn spec_hex_byte(b: u8) -> Seq<char> {
    seq![hex_char((b / 16) as nat), hex_char((b % 16) as nat)]
}

/// The upper-case hexadecimal digit of `d`.
pub fn hex_digit(d: u8) -> (c: char)
    requires
        d < 16,
    ensures
        c == hex_char(d as nat),
{
    if d < 10 {
        (48 + d) as char
    } else {
        (55 + d) as char
    }
}

/// The character of a byte below 128.
pub open spec fn ascii_char(b: u8) -> char {
    b as char
}

/// The text of bytes that are all below 128, one character for each byte.
pub open spec fn ascii_text(bytes: Seq<u8>) -> Seq<char> {
    bytes.map_values(|b: u8| ascii_char(b))
}

} // verus!
