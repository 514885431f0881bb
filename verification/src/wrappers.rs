//! Trusted wrappers around calls into std and outside crates. Each one makes
//! a single call and states what its documentation promises.
use vstd::prelude::*;
use vstd::utf8::{decode_utf8, valid_utf8};

verus! {

/// Calls `std::str::from_utf8` and copies the text out. Trusted claim: the
/// call succeeds exactly on valid UTF-8, and then the text is the decoding
/// of the bytes.
#[verifier::external_body]
pub(crate) fn utf8_to_string(bytes: &[u8]) -> (r: Option<String>)
    ensures
        r is Some <==> valid_utf8(bytes@),
        r matches Some(s) ==> s@ == decode_utf8(bytes@),
{
    std::str::from_utf8(bytes).ok().map(|s| s.to_string())
}

} // verus!

verus! {

/// The text that `str::to_lowercase` returns for a text.
pub uninterp spec fn lowercase_text(s: Seq<char>) -> Seq<char>;

/// The text that `str::to_uppercase` returns for a text.
pub uninterp spec fn uppercase_text(s: Seq<char>) -> Seq<char>;

/// Every character of the text is ASCII.
pub open spec fn is_ascii_text(s: Seq<char>) -> bool {
    forall|i: int| 0 <= i < s.len() ==> (#[trigger] s[i] as u32) < 128
}

/// ASCII letters A-Z mapped to a-z, every other character kept.
pub open spec fn ascii_lower(s: Seq<char>) -> Seq<char> {
    Seq::new(s.len(), |i: int| if 'A' <= s[i] <= 'Z' { ((s[i] as u32) + 32) as char } else { s[i] })
}

/// ASCII letters a-z mapped to A-Z, every other character kept.
pub open spec fn ascii_upper(s: Seq<char>) -> Seq<char> {
    Seq::new(s.len(), |i: int| if 'a' <= s[i] <= 'z' { ((s[i] as u32) - 32) as char } else { s[i] })
}

/// What `str::to_lowercase` gives: on ASCII text the ASCII mapping, on
/// other text the Unicode lower-case mapping, which is left unnamed here.
pub open spec fn lowercase_of(s: Seq<char>) -> Seq<char> {
    if is_ascii_text(s) {
        ascii_lower(s)
    } else {
        lowercase_text(s)
    }
}

/// What `str::to_uppercase` gives, as `lowercase_of` for the upper case.
pub open spec fn uppercase_of(s: Seq<char>) -> Seq<char> {
    if is_ascii_text(s) {
        ascii_upper(s)
    } else {
        uppercase_text(s)
    }
}

/// Calls `str::to_lowercase`. Trusted claim: the result depends on the text
/// alone; on ASCII text it is the text with A-Z mapped to a-z (the Unicode
/// lower case of an ASCII character is its ASCII lower case). The Unicode
/// mapping of other characters is not stated.
#[verifier::external_body]
pub(crate) fn to_lowercase_text(s: &str) -> (r: String)
    ensures
        r@ == lowercase_of(s@),
        !is_ascii_text(s@) ==> r@ == lowercase_text(s@),
{
    s.to_lowercase()
}

/// Calls `str::to_uppercase`. Trusted claim: the result depends on the text
/// alone; on ASCII text it is the text with a-z mapped to A-Z. The Unicode
/// mapping of other characters is not stated.
#[verifier::external_body]
pub(crate) fn to_uppercase_text(s: &str) -> (r: String)
    ensures
        r@ == uppercase_of(s@),
        !is_ascii_text(s@) ==> r@ == uppercase_text(s@),
{
    s.to_uppercase()
}

} // verus!

verus! {

/// The lower-case hexadecimal BLAKE3 digest that `blake3::hash(..).to_hex()` gives for some bytes.
pub uninterp spec fn blake3_hex_of(data: Seq<u8>) -> Seq<char>;

/// Calls `blake3::hash` and renders the digest with `to_hex`. Trusted claim:
/// the text is the digest of exactly these bytes, and (32-byte digest in hex)
/// it is 64 characters long.
#[verifier::external_body]
pub(crate) fn blake3_hex(data: &[u8]) -> (r: String)
    ensures
        r@ == blake3_hex_of(data@),
        r@.len() == 64,
{
    blake3::hash(data).to_hex().to_string()
}

} // verus!

verus! {

/// Collects characters into a `String` with `FromIterator`. Trusted claim: the
/// text holds exactly these characters in order.
#[verifier::external_body]
pub(crate) fn chars_to_string(chars: &Vec<char>) -> (r: String)
    ensures
        r@ == chars@,
{
    chars.iter().collect()
}

} // verus!

verus! {

/// Calls `num_cpus::get`. Trusted claim, from its documentation: the number
/// of available CPUs is always at least 1. It depends on the machine and the
/// process, so nothing else is stated.
#[verifier::external_body]
pub(crate) fn available_cpus() -> (r: usize)
    ensures
        r >= 1,
{
    num_cpus::get()
}

} // verus!
