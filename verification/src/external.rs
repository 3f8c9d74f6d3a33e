//! The calls into other crates that request construction relies on, each
//! with the contract that the called code is trusted to meet.

use vstd::prelude::*;
use vstd::utf8::encode_utf8;
use crate::options::instant_in_range;
use crate::query::join;
use oauth2::basic::BasicClient;
use oauth2::{AuthUrl, ClientId, ClientSecret, CsrfToken, RedirectUrl, ResponseType, Scope, TokenUrl};

verus! {

/// The lowercase hexadecimal digit of `d` (`d < 16`).
pub open spec fn hex_digit_lower(d: u8) -> char {
    if d < 10 {
        (48 + d) as char
    } else {
        (87 + d) as char
    }
}

/// The uppercase hexadecimal digit of `d` (`d < 16`).
pub open spec fn hex_digit_upper(d: u8) -> char {
    if d < 10 {
        (48 + d) as char
    } else {
        (55 + d) as char
    }
}

/// Two lowercase hexadecimal digits per byte, high half first.
pub open spec fn hex_lower(data: Seq<u8>) -> Seq<char>
    decreases data.len(),
{
    if data.len() == 0 {
        Seq::empty()
    } else {
        seq![hex_digit_lower(data[0] / 16), hex_digit_lower(data[0] % 16)] + hex_lower(data.drop_first())
    }
}

/// Bytes that percent-encoding leaves as they are: ASCII letters, digits and
/// `-`, `.`, `_`, `~`.
pub open spec fn is_unreserved(b: u8) -> bool {
    ||| 48 <= b <= 57
    ||| 65 <= b <= 90
    ||| 97 <= b <= 122
    ||| b == 45
    ||| b == 46
    ||| b == 95
    ||| b == 126
}

/// One byte, percent-encoded.
pub open spec fn percent_encode_byte(b: u8) -> Seq<char> {
    if is_unreserved(b) {
        seq![b as char]
    } else {
        seq!['%', hex_digit_upper(b / 16), hex_digit_upper(b % 16)]
    }
}

/// Bytes, percent-encoded one after the other.
pub open spec fn percent_encoded(bytes: Seq<u8>) -> Seq<char>
    decreases bytes.len(),
{
    if bytes.len() == 0 {
        Seq::empty()
    } else {
        percent_encode_byte(bytes[0]) + percent_encoded(bytes.drop_first())
    }
}

/// The text `s` percent-encoded over its UTF-8 bytes.
pub open spec fn url_encoded(s: Seq<char>) -> Seq<char> {
    percent_encoded(encode_utf8(s))
}

/// One character inside a JSON string literal, escaped as serde_json's
/// compact writer escapes it.
pub open spec fn json_escape_char(c: char) -> Seq<char> {
    if c == '"' {
        seq!['\\', '"']
    } else if c == '\\' {
        seq!['\\', '\\']
    } else if c == '\u{8}' {
        seq!['\\', 'b']
    } else if c == '\t' {
        seq!['\\', 't']
    } else if c == '\n' {
        seq!['\\', 'n']
    } else if c == '\u{c}' {
        seq!['\\', 'f']
    } else if c == '\r' {
        seq!['\\', 'r']
    } else if (c as u32) < 32 {
        seq!['\\', 'u', '0', '0', hex_digit_lower(((c as u32) / 16) as u8), hex_digit_lower(((c as u32) % 16) as u8)]
    } else {
        seq![c]
    }
}

/// The characters of `s`, each escaped.
pub open spec fn json_escaped(s: Seq<char>) -> Seq<char>
    decreases s.len(),
{
    if s.len() == 0 {
        Seq::empty()
    } else {
        json_escape_char(s[0]) + json_escaped(s.drop_first())
    }
}

/// `s` as a JSON string literal.
pub open spec fn json_string(s: Seq<char>) -> Seq<char> {
    seq!['"'] + json_escaped(s) + seq!['"']
}

/// A JSON array of the given (already encoded) values, without spaces.
pub open spec fn json_array(values: Seq<Seq<char>>) -> Seq<char> {
    seq!['['] + join(values, seq![',']) + seq![']']
}

/// A list of texts as a JSON array of strings.
pub open spec fn json_string_list(items: Seq<Seq<char>>) -> Seq<char> {
    json_array(items.map_values(|s: Seq<char>| json_string(s)))
}

/// A list of numbers as a JSON array.
pub open spec fn json_number_list(items: Seq<u32>) -> Seq<char> {
    json_array(items.map_values(|n: u32| crate::text::decimal(n as nat)))
}

/// The texts of a vector of strings.
pub open spec fn strings_view(v: Seq<String>) -> Seq<Seq<char>> {
    v.map_values(|s: String| s@)
}

/// The SHA-1 digest of `data`.
pub uninterp spec fn sha1_digest(data: Seq<u8>) -> Seq<u8>;

/// Whether `url` parses as an absolute URL.
pub uninterp spec fn url_parses(url: Seq<char>) -> bool;

/// The authorization URL that oauth2 builds for the authorize endpoint
/// `auth_url`, the client `client_id`, the redirect URI `redirect_uri`, the
/// scopes `scopes` (joined by spaces), the response type `response_type` and
/// the CSRF state `state`.
pub uninterp spec fn authorize_url_text(auth_url: Seq<char>, client_id: Seq<char>, redirect_uri: Seq<char>, scopes: Seq<Seq<char>>, response_type: Seq<char>, state: Seq<char>) -> Seq<char>;

/// The RFC 3339 text of the UTC instant `secs` seconds and `nanos`
/// nanoseconds after the Unix epoch.
pub uninterp spec fn rfc3339_text(secs: i64, nanos: u32) -> Seq<char>;

/// Calls `<sha1::Sha1 as sha1::Digest>::digest`. Trusted to return the SHA-1
/// digest of `data`, which is 20 bytes long; the digest itself is only named.
#[verifier::external_body]
pub(crate) fn sha1(data: &[u8]) -> (r: Vec<u8>)
    ensures
        r@ == sha1_digest(data@),
        r@.len() == 20,
{
    <sha1::Sha1 as sha1::Digest>::digest(data).to_vec()
}

/// Calls `hex::encode`. Trusted to write each byte as two lowercase
/// hexadecimal digits, high half first.
#[verifier::external_body]
pub(crate) fn hex_encode(data: &[u8]) -> (r: String)
    ensures
        r@ == hex_lower(data@),
{
    hex::encode(data)
}

/// Calls `urlencoding::encode`. Trusted to percent-encode every UTF-8 byte of
/// `s` except ASCII letters, digits and `-`, `.`, `_`, `~`, with uppercase
/// hexadecimal digits.
#[verifier::external_body]
pub(crate) fn url_encode(s: &str) -> (r: String)
    ensures
        r@ == url_encoded(s@),
{
    urlencoding::encode(s).into_owned()
}

/// Calls `serde_json::to_string` on a vector of strings. Trusted to write a
/// JSON array of string literals without spaces, escaping as
/// [`json_escape_char`] says; for this type serde_json cannot fail.
#[verifier::external_body]
pub(crate) fn json_strings(items: &Vec<String>) -> (r: String)
    ensures
        r@ == json_string_list(strings_view(items@)),
{
    match serde_json::to_string(items) {
        Ok(s) => s,
        Err(_) => String::new(),
    }
}

/// Calls `serde_json::to_string` on a vector of `u32`. Trusted to write a
/// JSON array of decimal numbers without spaces; for this type serde_json
/// cannot fail.
#[verifier::external_body]
pub(crate) fn json_numbers(items: &Vec<u32>) -> (r: String)
    ensures
        r@ == json_number_list(items@),
{
    match serde_json::to_string(items) {
        Ok(s) => s,
        Err(_) => String::new(),
    }
}

/// Calls `chrono::DateTime::<chrono::Utc>::from_timestamp` and then
/// `to_rfc3339`. Trusted to return the RFC 3339 text of the instant when
/// chrono accepts it, which it does for every instant whose date lies in the
/// years -262143 to 262142 and whose `nanos` stay below one second, or below
/// two in a second ending in :59 (a leap second); the text itself is only
/// named.
#[verifier::external_body]
pub(crate) fn rfc3339(secs: i64, nanos: u32) -> (r: Option<String>)
    ensures
        r matches Some(s) ==> s@ == rfc3339_text(secs, nanos),
        instant_in_range(secs, nanos) ==> r is Some,
{
    match chrono::DateTime::<chrono::Utc>::from_timestamp(secs, nanos) {
        Some(d) => Some(d.to_rfc3339()),
        None => None,
    }
}

/// The error of `url::Url::parse`, as oauth2 re-exports it.
#[verifier::external_type_specification]
#[verifier::external_body]
pub struct ExUrlParseError(oauth2::url::ParseError);

/// Calls oauth2's `BasicClient::new` (after `AuthUrl::new`, `TokenUrl::new`
/// and `RedirectUrl::new`), then `authorize_url` with a random CSRF state,
/// `add_scopes`, `set_response_type` and `url`. Trusted to fail exactly when
/// one of the three URLs does not parse, and otherwise to return the URL
/// that [`authorize_url_text`] names for the authorize endpoint, client id,
/// redirect URI, scopes and response type given, with some CSRF state. The
/// state is random, so which one is left unsaid; the secret and the token
/// endpoint do not appear in the URL.
#[verifier::external_body]
pub(crate) fn oauth_authorize_url(auth_url: String, token_url: String, client_id: String, client_secret: String, redirect_uri: String, scopes: Vec<String>, response_type: String) -> (r: Result<String, oauth2::url::ParseError>)
    ensures
        r.is_ok() == (url_parses(auth_url@) && url_parses(token_url@) && url_parses(redirect_uri@)),
        r matches Ok(u) ==> exists|st: Seq<char>| u@ == authorize_url_text(auth_url@, client_id@, redirect_uri@, strings_view(scopes@), response_type@, st),
{
    let secret = Some(ClientSecret::new(client_secret));
    let client = BasicClient::new(ClientId::new(client_id), secret, AuthUrl::new(auth_url)?, Some(TokenUrl::new(token_url)?));
    let client = client.set_redirect_uri(RedirectUrl::new(redirect_uri)?);
    let (url, _) = client.authorize_url(CsrfToken::new_random)
        .add_scopes(scopes.into_iter().map(Scope::new))
        .set_response_type(&ResponseType::new(response_type))
        .url();
    Ok(url.to_string())
}

} // verus!
