//! Character classification and text conversions used by the tokenizer
//! and the field decoders.

use vstd::prelude::*;
use vstd::string::StrSliceExecFns;

verus! {

/// Whether a character above the ASCII range has the Unicode
/// `White_Space` property; left unspecified, the classification below
/// pins it to `char::is_whitespace`.
pub uninterp spec fn nonascii_whitespace(c: char) -> bool;

/// Whether a character above the ASCII range has the Unicode
/// `Alphabetic` property; left unspecified, the classification below
/// pins it to `char::is_alphabetic`.
pub uninterp spec fn nonascii_alphabetic(c: char) -> bool;

/// The `White_Space` property. Below the ASCII boundary it holds for
/// exactly space, tab, line feed, vertical tab, form feed and
/// carriage return.
pub open spec fn is_ws(c: char) -> bool {
    if (c as u32) < 128 {
        c == ' ' || c == '\t' || c == '\n' || c == '\r' || c as u32 == 11 || c as u32 == 12
    } else {
        nonascii_whitespace(c)
    }
}

/// The `Alphabetic` property. Below the ASCII boundary it holds for
/// exactly the upper- and lower-case letters.
pub open spec fn is_alpha(c: char) -> bool {
    if (c as u32) < 128 {
        (97 <= c as u32 && c as u32 <= 122) || (65 <= c as u32 && c as u32 <= 90)
    } else {
        nonascii_alphabetic(c)
    }
}

/// Relies on char::is_whitespace: it decides the Unicode `White_Space`
/// property, whose members below code point 128 are exactly space,
/// tab, line feed, vertical tab, form feed and carriage return.
#[verifier::external_body]
pub fn char_is_whitespace(c: char) -> (r: bool)
    ensures
        r == is_ws(c),
        (c as u32) >= 128 ==> r == nonascii_whitespace(c),
{
    c.is_whitespace()
}

/// Relies on char::is_alphabetic: it decides the Unicode `Alphabetic`
/// property, whose members below code point 128 are exactly the
/// ASCII letters.
#[verifier::external_body]
pub fn char_is_alphabetic(c: char) -> (r: bool)
    ensures
        r == is_alpha(c),
        (c as u32) >= 128 ==> r == nonascii_alphabetic(c),
{
    c.is_alphabetic()
}

/// Relies on String::from_utf8: it succeeds exactly on valid UTF-8
/// input and returns the text that the bytes encode.
#[verifier::external_body]
pub fn utf8_to_string(v: Vec<u8>) -> (r: Option<String>)
    ensures
        r is Some <==> vstd::utf8::valid_utf8(v@),
        r matches Some(s) ==> s@ == vstd::utf8::decode_utf8(v@),
{
    String::from_utf8(v).ok()
}

/// Relies on String's FromIterator over characters: collecting yields
/// the string of exactly those characters in order.
#[verifier::external_body]
pub fn chars_to_string(v: &Vec<char>) -> (r: String)
    ensures
        r@ == v@,
{
    v.iter().collect()
}

/// The characters of a string slice, as a vector.
pub fn str_chars(s: &str) -> (r: Vec<char>)
    ensures
        r@ == s@,
{
    let n = s.unicode_len();
    let mut r: Vec<char> = Vec::new();
    let mut i: usize = 0;
    while i < n
        invariant
            i <= n,
            n == s@.len(),
            r@ == s@.subrange(0, i as int),
        decreases n - i,
    {
        r.push(s.get_char(i));
        i = i + 1;
    }
    proof {
        assert(r@ =~= s@);
    }
    r
}

/// String equality over the character sequences.
pub fn str_eq(a: &str, b: &str) -> (r: bool)
    ensures
        r == (a@ == b@),
{
    let sa: String = a.to_owned();
    let sb: String = b.to_owned();
    sa.eq(&sb)
}

} // verus!
