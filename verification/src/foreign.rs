//! Calls into std functions that vstd leaves unspecified and into the
//! outside crates the library builds on. Every item here is trusted: its
//! contract is believed, not proved, and each doc comment says what it
//! claims of the code it calls.

use vstd::prelude::*;
use vstd::utf8::{encode_utf8, decode_utf8, valid_utf8};

verus! {

/// `String::push`: appends one character at the end of the string.
#[verifier::external_body]
pub fn string_push(s: &mut String, c: char)
    ensures
        final(s)@ == old(s)@.push(c),
{
    s.push(c);
}

/// The lowercase mapping of a string, as `str::to_lowercase` computes it
/// (Unicode `Lowercase` mapping, applied to the whole string).
pub uninterp spec fn lowercase(s: Seq<char>) -> Seq<char>;

/// A character in ASCII lowercase: `A` to `Z` become `a` to `z`, every
/// other character stays.
pub open spec fn ascii_lower(c: char) -> char {
    if 'A' <= c && c <= 'Z' { ((c as int) + 32) as char } else { c }
}

/// `str::to_lowercase`. Its result is named `lowercase`. The documentation
/// of `char::to_lowercase` gives the mapping of ASCII characters (letters
/// `A` to `Z` to `a` to `z`, every other ASCII character unchanged), so a
/// string made of ASCII characters is mapped character by character; that
/// is stated. The rest of the Unicode mapping takes tables to write down
/// and is not stated.
#[verifier::external_body]
pub fn to_lowercase(s: &str) -> (r: String)
    ensures
        r@ == lowercase(s@),
        all_ascii(s@) ==> r@ == s@.map_values(|c: char| ascii_lower(c)),
{
    s.to_lowercase()
}

/// Whether `c` is one of the characters that `regex_syntax::is_meta_character`
/// lists as having a special meaning in a regular expression.
pub open spec fn is_regex_meta(c: char) -> bool {
    c == '\\' || c == '.' || c == '+' || c == '*' || c == '?' || c == '(' || c == ')' || c == '|'
        || c == '[' || c == ']' || c == '{' || c == '}' || c == '^' || c == '$' || c == '#'
        || c == '&' || c == '-' || c == '~'
}

/// What compiling `pattern` with `regex::Regex::new` and replacing its
/// leftmost-first match in `text` by the empty string gives: `None` when the
/// pattern does not compile.
pub uninterp spec fn regex_erase_first(pattern: Seq<char>, text: Seq<char>) -> Option<Seq<char>>;

/// `regex::Regex::new(pattern)` followed by `Regex::replace(text, "")`.
/// The result is named `regex_erase_first`. Short facts follow from the
/// regex syntax for a pattern that matches one character `c` literally,
/// written `c` when it is no meta character and `\c` when it is one (the
/// meta characters are exactly those that may be escaped): `c$` compiles
/// and matches `c` only at the very end of the text (`$` without the
/// multi-line flag), and `^c` compiles and matches `c` only at the very
/// start. Nothing else is stated.
#[verifier::external_body]
pub fn regex_erase_first_match(pattern: &str, text: &str) -> (r: Option<String>)
    ensures
        match r {
            Some(s) => regex_erase_first(pattern@, text@) == Some(s@),
            None => regex_erase_first(pattern@, text@) is None,
        },
        pattern@.len() == 2 && pattern@[1] == '$' && !is_regex_meta(pattern@[0]) ==> r is Some
            && r.unwrap()@ == (if text@.len() > 0 && text@.last() == pattern@[0] {
            text@.drop_last()
        } else {
            text@
        }),
        pattern@.len() == 2 && pattern@[0] == '^' && !is_regex_meta(pattern@[1]) ==> r is Some
            && r.unwrap()@ == (if text@.len() > 0 && text@[0] == pattern@[1] {
            text@.drop_first()
        } else {
            text@
        }),
        pattern@.len() == 3 && pattern@[0] == '\\' && pattern@[2] == '$' && is_regex_meta(pattern@[1])
            ==> r is Some && r.unwrap()@ == (if text@.len() > 0 && text@.last() == pattern@[1] {
            text@.drop_last()
        } else {
            text@
        }),
        pattern@.len() == 3 && pattern@[0] == '^' && pattern@[1] == '\\' && is_regex_meta(pattern@[2])
            ==> r is Some && r.unwrap()@ == (if text@.len() > 0 && text@[0] == pattern@[2] {
            text@.drop_first()
        } else {
            text@
        }),
{
    match regex::Regex::new(pattern) {
        Ok(re) => Some(re.replace(text, "").into_owned()),
        Err(_) => None,
    }
}

/// What compiling `pattern` with `regex::Regex::new` and collecting the
/// first capture group of every match of `Regex::captures_iter` over `text`
/// gives: `None` when the pattern does not compile.
pub uninterp spec fn regex_first_groups(pattern: Seq<char>, text: Seq<char>) -> Option<Seq<Seq<char>>>;

/// `regex::Regex::new(pattern)` followed by `Regex::captures_iter(text)`,
/// keeping the text of group 1 of each match. The result is named
/// `regex_first_groups`; nothing more is stated.
#[verifier::external_body]
pub fn regex_capture_first_groups(pattern: &str, text: &str) -> (r: Option<Vec<String>>)
    ensures
        match r {
            Some(v) => regex_first_groups(pattern@, text@) == Some(v@.map_values(|s: String| s@)),
            None => regex_first_groups(pattern@, text@) is None,
        },
{
    match regex::Regex::new(pattern) {
        Ok(re) => Some(
            re.captures_iter(text).map(|c| c.get(1).map_or(String::new(), |m| m.as_str().to_string())).collect(),
        ),
        Err(_) => None,
    }
}

/// What compiling `pattern` with `regex::Regex::new` and testing
/// `Regex::is_match` on `text` gives: `None` when the pattern does not compile.
pub uninterp spec fn regex_matches(pattern: Seq<char>, text: Seq<char>) -> Option<bool>;

/// `regex::Regex::new(pattern)` followed by `Regex::is_match(text)`. The
/// result is named `regex_matches`; nothing more is stated.
#[verifier::external_body]
pub fn regex_is_match(pattern: &str, text: &str) -> (r: Option<bool>)
    ensures
        r == regex_matches(pattern@, text@),
{
    match regex::Regex::new(pattern) {
        Ok(re) => Some(re.is_match(text)),
        Err(_) => None,
    }
}

/// What `diacritics::remove_diacritics` gives for a string: each character
/// that the crate maps replaced by its plain counterpart (one or more
/// characters), every other character kept as it is.
pub uninterp spec fn without_diacritics(s: Seq<char>) -> Seq<char>;

/// Whether every character of `s` is ASCII.
pub open spec fn all_ascii(s: Seq<char>) -> bool {
    forall|i: int| 0 <= i < s.len() ==> (#[trigger] s[i] as u32) < 128
}

/// `diacritics::remove_diacritics`. Its result is named `without_diacritics`.
/// The crate maps characters one by one and maps every ASCII character to
/// itself, so a string made of ASCII characters comes back unchanged; that
/// is stated, nothing else.
#[verifier::external_body]
pub fn remove_diacritics(s: &str) -> (r: String)
    ensures
        r@ == without_diacritics(s@),
        all_ascii(s@) ==> r@ == s@,
{
    diacritics::remove_diacritics(s)
}

/// `num_cpus::get`: the number of logical CPUs available. It depends on the
/// machine, so only what its documentation promises is stated: at least one.
#[verifier::external_body]
pub fn cpu_count() -> (r: usize)
    ensures
        r >= 1,
{
    num_cpus::get()
}

/// The value of a hexadecimal digit byte (`0`-`9`, `A`-`F`, `a`-`f`).
pub open spec fn hex_value(b: u8) -> Option<u8> {
    if 48 <= b && b <= 57 {
        Some((b - 48) as u8)
    } else if 65 <= b && b <= 70 {
        Some((b - 55) as u8)
    } else if 97 <= b && b <= 102 {
        Some((b - 87) as u8)
    } else {
        None
    }
}

/// Bytes with every `%` followed by two hexadecimal digits replaced by the
/// byte they write, scanning from the left; any other byte, a lone `%`
/// among them, is kept.
pub open spec fn percent_decoded(b: Seq<u8>) -> Seq<u8>
    decreases b.len(),
{
    if b.len() == 0 {
        Seq::empty()
    } else if b[0] == 37 && b.len() >= 3 && hex_value(b[1]) is Some && hex_value(b[2]) is Some {
        seq![(hex_value(b[1]).unwrap() * 16 + hex_value(b[2]).unwrap()) as u8] + percent_decoded(b.skip(3))
    } else {
        seq![b[0]] + percent_decoded(b.skip(1))
    }
}

/// What `urlencoding::decode` gives for a string: its UTF-8 bytes
/// percent-decoded, read back as UTF-8; `None` when they are not UTF-8.
/// `+` stays as it is.
pub open spec fn url_decoded(s: Seq<char>) -> Option<Seq<char>> {
    let b = percent_decoded(encode_utf8(s));
    if valid_utf8(b) { Some(decode_utf8(b)) } else { None }
}

/// `urlencoding::decode`: it percent-decodes the bytes of the string (a
/// string without `%` is returned as it is, which the same rule gives) and
/// reads them back with `String::from_utf8`. That is stated as
/// `url_decoded`.
#[verifier::external_body]
pub fn url_decode(s: &str) -> (r: Option<String>)
    ensures
        match r {
            Some(d) => url_decoded(s@) == Some(d@),
            None => url_decoded(s@) is None,
        },
{
    match urlencoding::decode(s) {
        Ok(d) => Some(d.into_owned()),
        Err(_) => None,
    }
}

/// The lowercase hexadecimal SHA-256 digest of the UTF-8 bytes of a string.
pub uninterp spec fn sha256_hex(s: Seq<char>) -> Seq<char>;

/// `sha256::digest` on a string slice. Its result is named `sha256_hex`;
/// the crate hex-encodes the 32 digest bytes, so the result has 64
/// characters, and that is stated.
#[verifier::external_body]
pub fn sha256_digest(s: &str) -> (r: String)
    ensures
        r@ == sha256_hex(s@),
        r@.len() == 64,
{
    sha256::digest(s)
}

} // verus!
