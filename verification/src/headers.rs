//! The headers that authenticate a request, kept in `reqwest`'s header map.

use crate::error::ConfigError;
use reqwest::header::{HeaderMap, HeaderName, HeaderValue, InvalidHeaderValue};
use vstd::prelude::*;
use vstd::utf8::*;

verus! {

/// A byte that may stand in a header value: a tab, or anything from the
/// space upwards but the delete character.
pub open spec fn permitted_byte(byte: u8) -> bool {
    byte >= 32 && byte != 127 || byte == 9
}

/// A character that may stand in a header value: a tab, or anything from the
/// space upwards but the delete character.
pub open spec fn permitted_char(c: char) -> bool {
    c >= ' ' && c != '\u{7f}' || c == '\t'
}

/// A text is a legal header value when every byte of its UTF-8 form is
/// permitted.
pub open spec fn legal_header_value(text: Seq<char>) -> bool {
    forall|i: int| 0 <= i < encode_utf8(text).len() ==> permitted_byte(#[trigger] encode_utf8(text)[i])
}

/// `reqwest::header::HeaderMap`, the collection that holds a request's
/// headers.
#[verifier::external_type_specification]
#[verifier::external_body]
#[verifier::reject_recursive_types(T)]
pub struct ExHeaderMap<T>(HeaderMap<T>);

/// `reqwest::header::HeaderName`.
#[verifier::external_type_specification]
#[verifier::external_body]
pub struct ExHeaderName(HeaderName);

/// `reqwest::header::HeaderValue`.
#[verifier::external_type_specification]
#[verifier::external_body]
pub struct ExHeaderValue(HeaderValue);

/// `reqwest::header::InvalidHeaderValue`.
#[verifier::external_type_specification]
#[verifier::external_body]
pub struct ExInvalidHeaderValue(InvalidHeaderValue);

/// What a header map holds: under each name, in lower case, the bytes of the
/// first value stored under it.
pub uninterp spec fn header_entries(map: HeaderMap) -> Map<Seq<char>, Seq<u8>>;

/// The name of a header, in lower case, as `HeaderName::as_str` gives it.
pub uninterp spec fn header_name_text(name: HeaderName) -> Seq<char>;

/// The bytes of a header value, as `HeaderValue::as_bytes` gives them.
pub uninterp spec fn header_value_bytes(value: HeaderValue) -> Seq<u8>;

/// The content of a map without headers.
pub open spec fn no_headers() -> Map<Seq<char>, Seq<u8>> {
    Map::empty()
}

/// The most names that a map may hold when a header is put into it here.
pub const MAX_NAMES: usize = 4096;

/// Calls `HeaderValue::from_str`, which accepts a text exactly when each of
/// its bytes is a tab, or at least 32 and not 127, and then holds a copy of
/// the text's bytes.
#[verifier::external_body]
fn header_value(text: &str) -> (made: Result<HeaderValue, InvalidHeaderValue>)
    ensures
        made is Ok <==> legal_header_value(text@),
        made matches Ok(value) ==> header_value_bytes(value) == encode_utf8(text@),
{
    HeaderValue::from_str(text)
}

/// `reqwest::header::AUTHORIZATION`, the standard name `authorization`.
#[verifier::external_body]
fn authorization_name() -> (name: HeaderName)
    ensures
        header_name_text(name) == "authorization"@,
{
    reqwest::header::AUTHORIZATION
}

/// `reqwest::header::CONTENT_TYPE`, the standard name `content-type`.
#[verifier::external_body]
fn content_type_name() -> (name: HeaderName)
    ensures
        header_name_text(name) == "content-type"@,
{
    reqwest::header::CONTENT_TYPE
}

/// Calls `HeaderMap::new`, which makes a map that holds nothing.
#[verifier::external_body]
fn new_header_map() -> (headers: HeaderMap)
    ensures
        header_entries(headers) == no_headers(),
{
    HeaderMap::new()
}

/// Calls `HeaderMap::insert`, which puts the value under the name in place
/// of every value that stood there. The call panics only where the map's
/// table would have to grow beyond 32768 slots; that takes thousands of
/// names more than the [`MAX_NAMES`] admitted here.
#[verifier::external_body]
fn insert_header(map: &mut HeaderMap, name: HeaderName, value: HeaderValue)
    requires
        header_entries(*old(map)).dom().finite(),
        header_entries(*old(map)).dom().len() < MAX_NAMES,
    ensures
        header_entries(*final(map)) == (header_entries(*old(map)).insert(
            header_name_text(name),
            header_value_bytes(value),
        )),
{
    map.insert(name, value);
}

/// The value of the authorization header for an API key.
pub open spec fn bearer(api_key: Seq<char>) -> Seq<char> {
    "Bearer "@ + api_key
}

/// The headers of a request made with an API key: the credentials, and the
/// announcement of a JSON body.
pub open spec fn request_headers(api_key: Seq<char>) -> Map<Seq<char>, Seq<u8>> {
    no_headers().insert("authorization"@, encode_utf8(bearer(api_key))).insert(
        "content-type"@,
        encode_utf8("application/json"@),
    )
}

/// The headers for an API key, or the refusal of a key that cannot stand in a
/// header value.
pub open spec fn headers_for(api_key: Seq<char>) -> Result<Map<Seq<char>, Seq<u8>>, ConfigError> {
    if legal_header_value(bearer(api_key)) {
        Ok(request_headers(api_key))
    } else {
        Err(ConfigError::InvalidCredential)
    }
}

/// The content of a header map that was built, or the error.
pub open spec fn built_view(built: Result<HeaderMap, ConfigError>) -> Result<
    Map<Seq<char>, Seq<u8>>,
    ConfigError,
> {
    match built {
        Ok(headers) => Ok(header_entries(headers)),
        Err(error) => Err(error),
    }
}

/// Builds the headers that authenticate a request and announce a JSON body.
pub fn get_headers(api_key: &str) -> (built: Result<HeaderMap, ConfigError>)
    ensures
        built_view(built) == headers_for(api_key@),
{
    let credential = "Bearer ".to_owned().concat(api_key);
    proof {
        lemma_json_type_is_legal();
    }
    match (header_value(credential.as_str()), header_value("application/json")) {
        (Ok(credential), Ok(json)) => {
            let mut headers = new_header_map();
            insert_header(&mut headers, authorization_name(), credential);
            insert_header(&mut headers, content_type_name(), json);
            Ok(headers)
        },
        _ => Err(ConfigError::InvalidCredential),
    }
}

/// The bytes that encode one character are all permitted exactly when the
/// character is.
proof fn lemma_scalar_permitted(c: char)
    ensures
        encode_scalar(c as u32).len() > 0,
        permitted_char(c) <==> forall|k: int|
            0 <= k < encode_scalar(c as u32).len() ==> permitted_byte(
                #[trigger] encode_scalar(c as u32)[k],
            ),
{
    let s = c as u32;
    char_is_scalar(c);
    if has_width_1_encoding(s) {
        assert((s & 0x7F) as u8 == s) by (bit_vector)
            requires
                s <= 0x7F,
        ;
        assert(encode_scalar(s)[0] == s);
    } else {
        assert((0xC0 | ((s >> 6) & 0x1F) as u8) >= 0x80) by (bit_vector);
        assert((0xE0 | ((s >> 12) & 0x0F) as u8) >= 0x80) by (bit_vector);
        assert((0xF0 | ((s >> 18) & 0x7) as u8) >= 0x80) by (bit_vector);
        assert((0x80 | (s & 0x3F) as u8) >= 0x80) by (bit_vector);
        assert((0x80 | ((s >> 6) & 0x3F) as u8) >= 0x80) by (bit_vector);
        assert((0x80 | ((s >> 12) & 0x3F) as u8) >= 0x80) by (bit_vector);
        assert(s >= 0x80);
    }
}

/// A text is a legal header value exactly when each of its characters is
/// permitted: a character beyond ASCII is encoded in bytes of 128 and more.
pub proof fn lemma_legal_by_chars(text: Seq<char>)
    ensures
        legal_header_value(text) <==> forall|i: int|
            0 <= i < text.len() ==> permitted_char(#[trigger] text[i]),
    decreases text.len(),
{
    if text.len() > 0 {
        let head = encode_scalar(text[0] as u32);
        let rest = text.drop_first();
        let tail = encode_utf8(rest);
        lemma_scalar_permitted(text[0]);
        lemma_legal_by_chars(rest);
        assert(encode_utf8(text) == head + tail);
        if legal_header_value(text) {
            assert forall|k: int| 0 <= k < head.len() implies permitted_byte(
                #[trigger] head[k],
            ) by {
                assert(encode_utf8(text)[k] == head[k]);
            }
            assert forall|k: int| 0 <= k < tail.len() implies permitted_byte(
                #[trigger] tail[k],
            ) by {
                assert(encode_utf8(text)[head.len() + k] == tail[k]);
            }
            assert forall|i: int| 0 <= i < text.len() implies permitted_char(
                #[trigger] text[i],
            ) by {
                if i > 0 {
                    assert(text[i] == rest[i - 1]);
                }
            }
        }
        if forall|i: int| 0 <= i < text.len() ==> permitted_char(#[trigger] text[i]) {
            assert(permitted_char(text[0]));
            assert forall|i: int| 0 <= i < rest.len() implies permitted_char(
                #[trigger] rest[i],
            ) by {
                assert(rest[i] == text[i + 1]);
            }
            assert forall|k: int| 0 <= k < encode_utf8(text).len() implies permitted_byte(
                #[trigger] encode_utf8(text)[k],
            ) by {
                if k < head.len() {
                    assert(encode_utf8(text)[k] == head[k]);
                } else {
                    assert(encode_utf8(text)[k] == tail[k - head.len()]);
                }
            }
        }
    }
}

/// The authorization value for a key is legal exactly when each character of
/// the key is permitted.
pub proof fn lemma_bearer_legal(api_key: Seq<char>)
    ensures
        legal_header_value(bearer(api_key)) <==> forall|i: int|
            0 <= i < api_key.len() ==> permitted_char(#[trigger] api_key[i]),
{
    reveal_strlit("Bearer ");
    let value = bearer(api_key);
    lemma_legal_by_chars(value);
    if forall|i: int| 0 <= i < value.len() ==> permitted_char(#[trigger] value[i]) {
        assert forall|i: int| 0 <= i < api_key.len() implies permitted_char(
            #[trigger] api_key[i],
        ) by {
            assert(value[i + 7] == api_key[i]);
        }
    }
    if forall|i: int| 0 <= i < api_key.len() ==> permitted_char(#[trigger] api_key[i]) {
        assert forall|i: int| 0 <= i < value.len() implies permitted_char(
            #[trigger] value[i],
        ) by {
            if i >= 7 {
                assert(value[i] == api_key[i - 7]);
            }
        }
    }
}

/// The content type of the body is a legal header value.
proof fn lemma_json_type_is_legal()
    ensures
        legal_header_value("application/json"@),
{
    reveal_strlit("application/json");
    lemma_legal_by_chars("application/json"@);
}

/// A key that holds a character which no header value may hold, such as a
/// line feed or a null character, is refused as an invalid credential.
pub proof fn lemma_unsafe_key_refused(api_key: Seq<char>, at: int)
    requires
        0 <= at < api_key.len(),
        !permitted_char(api_key[at]),
    ensures
        headers_for(api_key) == Err::<Map<Seq<char>, Seq<u8>>, ConfigError>(
            ConfigError::InvalidCredential,
        ),
{
    lemma_bearer_legal(api_key);
}

} // verus!
