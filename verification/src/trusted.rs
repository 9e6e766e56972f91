use base64::Engine;
use vstd::prelude::*;

verus! {

/// Relies on String::push: appends one character to the end of the string.
#[verifier::external_body]
pub fn push_char(s: &mut String, c: char)
    ensures
        final(s)@ == old(s)@ + seq![c],
{
    s.push(c)
}

/// What str::to_lowercase returns: a function of the characters alone.
pub uninterp spec fn lower_of(s: Seq<char>) -> Seq<char>;

/// Relies on str::to_lowercase: the result depends on the characters alone,
/// and an empty string stays empty.
#[verifier::external_body]
pub fn lowercase(s: &str) -> (r: String)
    ensures
        r@ == lower_of(s@),
        s@.len() == 0 ==> r@.len() == 0,
{
    s.to_lowercase()
}

/// The path component that url::Url::parse extracts from an absolute URL
/// string, or None where the string does not parse as a URL. A function of
/// the input characters alone.
pub uninterp spec fn url_path_of(s: Seq<char>) -> Option<Seq<char>>;

/// Relies on url::Url::parse and url::Url::path: parse the string as a URL
/// and return its path component.
#[verifier::external_body]
pub fn url_path(s: &str) -> (r: Option<String>)
    ensures
        match r {
            Some(p) => url_path_of(s@) == Some(p@),
            None => url_path_of(s@) is None,
        },
{
    match url::Url::parse(s) {
        Ok(u) => Some(u.path().to_string()),
        Err(_) => None,
    }
}

/// The host name that url::Url::parse extracts from an absolute URL string,
/// or None where the string does not parse or has no host. A function of the
/// input characters alone.
pub uninterp spec fn url_host_of(s: Seq<char>) -> Option<Seq<char>>;

/// Relies on url::Url::parse and url::Url::host_str: parse the string as a
/// URL and return its host, when it has one.
#[verifier::external_body]
pub fn url_host(s: &str) -> (r: Option<String>)
    ensures
        match r {
            Some(h) => url_host_of(s@) == Some(h@),
            None => url_host_of(s@) is None,
        },
{
    match url::Url::parse(s) {
        Ok(u) => u.host_str().map(|h| h.to_string()),
        Err(_) => None,
    }
}

/// The standard base64 encoding (with padding) of a byte sequence.
pub uninterp spec fn b64_of(b: Seq<u8>) -> Seq<char>;

/// Relies on base64::engine::general_purpose::STANDARD.encode: standard
/// alphabet, padded; a function of the input bytes alone, and empty input
/// encodes to an empty string. The length bound keeps the library away from
/// the input sizes on which the encoder's buffer arithmetic overflows.
#[verifier::external_body]
pub fn b64_encode(b: &[u8]) -> (r: String)
    requires
        (b@.len() + 2) / 3 * 4 <= usize::MAX,
    ensures
        r@ == b64_of(b@),
        b@.len() == 0 ==> r@.len() == 0,
{
    base64::engine::general_purpose::STANDARD.encode(b)
}

/// What the standard base64 decoder yields for a string: the decoded bytes,
/// or None where the input is not valid padded base64. A function of the
/// input characters alone.
pub uninterp spec fn b64_decode_of(s: Seq<char>) -> Option<Seq<u8>>;

/// Relies on base64::engine::general_purpose::STANDARD.decode: standard
/// alphabet, padding required, rejects invalid input with an error.
#[verifier::external_body]
pub fn b64_decode(s: &str) -> (r: Option<Vec<u8>>)
    ensures
        match r {
            Some(b) => b64_decode_of(s@) == Some(b@),
            None => b64_decode_of(s@) is None,
        },
{
    base64::engine::general_purpose::STANDARD.decode(s.as_bytes()).ok()
}

/// What String::from_utf8 yields for a byte sequence: the decoded characters
/// when the bytes are valid UTF-8, None otherwise. A function of the bytes
/// alone.
pub uninterp spec fn utf8_of(b: Seq<u8>) -> Option<Seq<char>>;

/// Relies on String::from_utf8: succeeds exactly on valid UTF-8 input.
#[verifier::external_body]
pub fn utf8_string(b: &Vec<u8>) -> (r: Option<String>)
    ensures
        match r {
            Some(s) => utf8_of(b@) == Some(s@),
            None => utf8_of(b@) is None,
        },
{
    String::from_utf8(b.clone()).ok()
}

} // verus!
