//! Construction of the upstream advanced-search URL.
//!
//! The search term is percent-encoded as an `application/x-www-form-urlencoded`
//! query component and appended to the fixed base path, followed by the fixed
//! suffix that asks the archive for JSON-formatted results.

use vstd::prelude::*;
use vstd::string::StringExecFns;
use vstd::utf8::encode_utf8;

verus! {

/// A byte that the form-urlencoded byte serializer passes through unchanged:
/// an ASCII alphanumeric, or one of `*`, `-`, `.`, `_`.
pub open spec fn url_unchanged_byte(b: u8) -> bool {
    ||| b == 0x2A
    ||| b == 0x2D
    ||| b == 0x2E
    ||| b == 0x5F
    ||| 0x30 <= b <= 0x39
    ||| 0x41 <= b <= 0x5A
    ||| 0x61 <= b <= 0x7A
}

/// The upper-case hexadecimal digit for a value below sixteen.
pub open spec fn upper_hex_digit(d: u8) -> char {
    if d == 0 {
        '0'
    } else if d == 1 {
        '1'
    } else if d == 2 {
        '2'
    } else if d == 3 {
        '3'
    } else if d == 4 {
        '4'
    } else if d == 5 {
        '5'
    } else if d == 6 {
        '6'
    } else if d == 7 {
        '7'
    } else if d == 8 {
        '8'
    } else if d == 9 {
        '9'
    } else if d == 10 {
        'A'
    } else if d == 11 {
        'B'
    } else if d == 12 {
        'C'
    } else if d == 13 {
        'D'
    } else if d == 14 {
        'E'
    } else {
        'F'
    }
}

/// How one byte is serialized: unchanged where safe, `+` for a space, and
/// `%XX` with upper-case hex digits for everything else.
pub open spec fn url_encoded_byte(b: u8) -> Seq<char> {
    if b == 0x20 {
        seq!['+']
    } else if url_unchanged_byte(b) {
        seq![b as char]
    } else {
        seq!['%', upper_hex_digit(b / 16), upper_hex_digit(b % 16)]
    }
}

/// The form-urlencoded serialization of a byte sequence.
pub open spec fn url_encoded_bytes(bytes: Seq<u8>) -> Seq<char>
    decreases bytes.len(),
{
    if bytes.len() == 0 {
        Seq::<char>::empty()
    } else {
        url_encoded_bytes(bytes.drop_last()) + url_encoded_byte(bytes.last())
    }
}

/// The form-urlencoded serialization of a search term: its UTF-8 bytes,
/// serialized byte by byte.
pub open spec fn url_encoded_term(term: Seq<char>) -> Seq<char> {
    url_encoded_bytes(encode_utf8(term))
}

/// The full upstream search URL for a term: the fixed advanced-search base,
/// the encoded term, and the fixed suffix requesting JSON output.
pub open spec fn search_url_of(term: Seq<char>) -> Seq<char> {
    "https://archive.org/advancedsearch.php?q="@ + url_encoded_term(term) + "&output=json"@
}

/// Relies on `url::form_urlencoded::byte_serialize` over the term's UTF-8
/// bytes (`str::as_bytes`): it keeps ASCII alphanumerics and `*-._`
/// unchanged, turns a space into `+`, and percent-encodes every other byte
/// as `%XX` with upper-case hex digits.
#[verifier::external_body]
fn form_urlencode(term: &str) -> (r: String)
    ensures
        r@ == url_encoded_term(term@),
{
    url::form_urlencoded::byte_serialize(term.as_bytes()).collect()
}

/// Builds the fully-encoded upstream search URL for a term.
pub fn build_search_url(term: &str) -> (r: String)
    ensures
        r@ == search_url_of(term@),
{
    let mut r = "https://archive.org/advancedsearch.php?q=".to_owned();
    let encoded = form_urlencode(term);
    r.append(encoded.as_str());
    r.append("&output=json");
    r
}

} // verus!
