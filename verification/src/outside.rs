//! Calls into outside crates, each with the contract that the crate's
//! source or documentation shows for it.
use base64::Engine;
use sha2::Digest;
use vstd::prelude::*;

verus! {

pub open spec fn is_lower_hex_digit(c: char) -> bool {
    ('0' <= c <= '9') || ('a' <= c <= 'f')
}

/// `uuid::Uuid::new_v4().simple()` rendered as a string. The identifier is
/// random; what holds of every outcome is that the simple format writes its
/// 16 bytes as 32 lowercase hexadecimal digits.
#[verifier::external_body]
pub(crate) fn fresh_uuid_hex() -> (res: String)
    ensures
        res@.len() == 32,
        forall|i: int| 0 <= i < 32 ==> is_lower_hex_digit(#[trigger] res@[i]),
{
    uuid::Uuid::new_v4().simple().to_string()
}

/// `chrono::Utc::now().to_rfc3339()`: the current time; nothing is stated of
/// its text, which depends on the clock.
#[verifier::external_body]
pub(crate) fn now_rfc3339() -> (res: String) {
    chrono::Utc::now().to_rfc3339()
}

pub open spec fn opt_chars(s: Option<String>) -> Option<Seq<char>> {
    match s {
        Some(t) => Some(t@),
        None => None,
    }
}

/// What `json_member_text` returns for a body and a member name.
pub uninterp spec fn json_member_text_of(body: Seq<char>, field: Seq<char>) -> Option<Seq<char>>;

/// `serde_json::from_str::<serde_json::Value>(body)` and then `Value::get(field)`:
/// the text of a string member, the compact JSON rendering (`Display`) of any
/// other member but `null`; nothing when `body` is no JSON, is no object, or
/// lacks the member, or the member is `null`. The result depends on the two
/// arguments alone.
#[verifier::external_body]
pub(crate) fn json_member_text(body: &str, field: &str) -> (res: Option<String>)
    ensures
        opt_chars(res) == json_member_text_of(body@, field@),
{
    match serde_json::from_str::<serde_json::Value>(body) {
        Err(_) => None,
        Ok(value) => match value.get(field) {
            None => None,
            Some(serde_json::Value::Null) => None,
            Some(serde_json::Value::String(text)) => Some(text.clone()),
            Some(other) => Some(other.to_string()),
        },
    }
}

/// What SHA-256 makes of a byte sequence.
pub uninterp spec fn sha256_of(bytes: Seq<u8>) -> Seq<u8>;

/// `sha2::Sha256::digest(bytes)`: the 32-byte SHA-256 digest of `bytes`.
#[verifier::external_body]
pub(crate) fn sha256_digest(bytes: &[u8]) -> (res: Vec<u8>)
    ensures
        res@ == sha256_of(bytes@),
        res@.len() == 32,
{
    sha2::Sha256::digest(bytes).to_vec()
}

pub open spec fn hex_digit(n: u8) -> char {
    if n < 10 {
        (('0' as u8) + n) as char
    } else {
        (('a' as u8) + n - 10) as char
    }
}

/// Lowercase hexadecimal: two digits per byte, high nibble first.
pub open spec fn hex_lower(bytes: Seq<u8>) -> Seq<char>
    decreases bytes.len(),
{
    if bytes.len() == 0 {
        Seq::empty()
    } else {
        hex_lower(bytes.drop_last()) + seq![
            hex_digit(bytes.last() / 16),
            hex_digit(bytes.last() % 16),
        ]
    }
}

/// `hex::encode(bytes)`: lowercase hexadecimal, two digits per byte, high nibble first.
#[verifier::external_body]
pub(crate) fn hex_encode(bytes: &[u8]) -> (res: String)
    ensures
        res@ == hex_lower(bytes@),
{
    hex::encode(bytes)
}

/// What the standard Base64 alphabet, with padding, makes of a byte sequence.
pub uninterp spec fn base64_encoded(bytes: Seq<u8>) -> Seq<char>;

/// The bytes that a text decodes to in standard padded Base64, if it is such a text.
pub uninterp spec fn base64_decoded(text: Seq<char>) -> Option<Seq<u8>>;

/// `base64::engine::general_purpose::STANDARD.encode(bytes)`. The same
/// engine decodes the text back to the bytes (the crate's round-trip tests
/// check exactly this for the standard engine).
#[verifier::external_body]
pub(crate) fn base64_encode(bytes: &[u8]) -> (res: String)
    ensures
        res@ == base64_encoded(bytes@),
        base64_decoded(res@) == Some(bytes@),
{
    base64::engine::general_purpose::STANDARD.encode(bytes)
}

/// `base64::engine::general_purpose::STANDARD.decode(text)`; the error is
/// handed back as its display text, of which nothing is stated.
#[verifier::external_body]
pub(crate) fn base64_decode(text: &str) -> (res: Result<Vec<u8>, String>)
    ensures
        match res {
            Ok(b) => base64_decoded(text@) == Some(b@),
            Err(_) => base64_decoded(text@) is None,
        },
{
    match base64::engine::general_purpose::STANDARD.decode(text) {
        Ok(bytes) => Ok(bytes),
        Err(error) => Err(error.to_string()),
    }
}

/// `String::from_utf8(bytes)`: the text when the bytes are valid UTF-8; the
/// error is handed back as its display text, of which nothing is stated.
#[verifier::external_body]
pub(crate) fn utf8_text(bytes: Vec<u8>) -> (res: Result<String, String>)
    ensures
        res is Ok <==> vstd::utf8::valid_utf8(bytes@),
        res matches Ok(s) ==> s@ == vstd::utf8::decode_utf8(bytes@),
{
    match String::from_utf8(bytes) {
        Ok(text) => Ok(text),
        Err(error) => Err(error.to_string()),
    }
}

/// What `String::from_utf8_lossy` makes of a byte sequence.
pub uninterp spec fn utf8_lossy_of(bytes: Seq<u8>) -> Seq<char>;

/// `String::from_utf8_lossy(bytes)`: valid UTF-8 is decoded as it is;
/// invalid sequences become U+FFFD.
#[verifier::external_body]
pub(crate) fn utf8_lossy(bytes: &[u8]) -> (res: String)
    ensures
        res@ == utf8_lossy_of(bytes@),
        vstd::utf8::valid_utf8(bytes@) ==> res@ == vstd::utf8::decode_utf8(bytes@),
{
    String::from_utf8_lossy(bytes).to_string()
}

/// What `reqwest::Url::parse(base)` followed by `set_path(path)`,
/// `set_query(None)` and the URL's serialization gives; `None` when `base`
/// does not parse.
pub uninterp spec fn url_path_replaced(base: Seq<char>, path: Seq<char>) -> Option<Seq<char>>;

/// `reqwest::Url::parse(base)`, then `set_path(path)` and `set_query(None)`,
/// serialized. The result depends on the two arguments alone.
#[verifier::external_body]
pub(crate) fn replace_url_path(base: &str, path: &str) -> (res: Option<String>)
    ensures
        opt_chars(res) == url_path_replaced(base@, path@),
{
    let mut url = reqwest::Url::parse(base).ok()?;
    url.set_path(path);
    url.set_query(None);
    Some(url.to_string())
}

/// The scheme `reqwest::Url::parse(s)` finds; `None` when `s` does not parse.
pub uninterp spec fn url_scheme_of(s: Seq<char>) -> Option<Seq<char>>;

/// `reqwest::Url::parse(s)` and then `Url::scheme`: the scheme, lower-cased,
/// without the `:`. The result depends on `s` alone.
#[verifier::external_body]
pub(crate) fn url_scheme(s: &str) -> (res: Option<String>)
    ensures
        opt_chars(res) == url_scheme_of(s@),
{
    let url = reqwest::Url::parse(s).ok()?;
    Some(url.scheme().to_string())
}

/// What `reqwest::Url::parse(base)` followed by `set_scheme(scheme)` (its
/// refusal ignored), `set_path(path)`, `set_query(None)` and the URL's
/// serialization gives; `None` when `base` does not parse.
pub uninterp spec fn url_rebased(base: Seq<char>, scheme: Seq<char>, path: Seq<char>) -> Option<
    Seq<char>,
>;

/// `reqwest::Url::parse(base)`, then `set_scheme(scheme)` (a refused scheme
/// leaves the URL as it was), `set_path(path)` and `set_query(None)`,
/// serialized. The result depends on the three arguments alone.
#[verifier::external_body]
pub(crate) fn rebase_url(base: &str, scheme: &str, path: &str) -> (res: Option<String>)
    ensures
        opt_chars(res) == url_rebased(base@, scheme@, path@),
{
    let mut url = reqwest::Url::parse(base).ok()?;
    let _ = url.set_scheme(scheme);
    url.set_path(path);
    url.set_query(None);
    Some(url.to_string())
}

/// The reason phrase the HTTP standard gives a status code.
pub uninterp spec fn status_reason_of(code: u16) -> Option<Seq<char>>;

/// `reqwest::StatusCode::from_u16(code)` and then `canonical_reason()`: the
/// standard reason phrase of a known status; `None` for an unknown or
/// invalid one. The result depends on `code` alone.
#[verifier::external_body]
pub(crate) fn status_reason(code: u16) -> (res: Option<String>)
    ensures
        opt_chars(res) == status_reason_of(code),
{
    match reqwest::StatusCode::from_u16(code) {
        Ok(status) => match status.canonical_reason() {
            Some(reason) => Some(reason.to_string()),
            None => None,
        },
        Err(_) => None,
    }
}

} // verus!
