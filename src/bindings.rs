//! The calls this library makes into other crates and into the system clock,
//! each with the contract that the rest of the library relies on.
use base64::Engine;
use std::str::FromStr;
use vstd::prelude::*;

use crate::claims::{claim_list_view, ClaimValue};
use crate::registry::{KeyModel, VerificationKey};

verus! {

#[verifier::external_type_specification]
#[verifier::external_body]
pub struct ExJwtError(jsonwebtoken::errors::Error);

#[verifier::external_type_specification]
#[verifier::external_body]
pub struct ExUrlParseError(url::ParseError);

/// The bytes that `text` encodes in URL-safe base64 without padding, if it is such an encoding.
pub uninterp spec fn base64url_decoded(text: Seq<char>) -> Option<Seq<u8>>;

/// The string member `name` of the JSON object `document`.
pub uninterp spec fn json_text_member(document: Seq<u8>, name: Seq<char>) -> Option<Seq<char>>;

/// The member `name` of the JSON object `document`, when it is an integer that fits a `u64`.
pub uninterp spec fn json_unsigned_member(document: Seq<u8>, name: Seq<char>) -> Option<u64>;

/// The member `name` of the JSON object `document`, when it is an integer that fits an `i64`.
pub uninterp spec fn json_signed_member(document: Seq<u8>, name: Seq<char>) -> Option<i64>;

/// The member `name` of the JSON object `document`, when it is an array of strings.
pub uninterp spec fn json_text_list_member(document: Seq<u8>, name: Seq<char>) -> Option<
    Seq<Seq<char>>,
>;

/// Whether `token` carries a valid signature by `key` under the algorithm named
/// `algorithm` and, when it has an audience claim, names `audience` in it.
pub uninterp spec fn jwt_accepted(
    token: Seq<char>,
    key: KeyModel,
    algorithm: Seq<char>,
    audience: Seq<char>,
) -> bool;

/// The token that signs the claim object `claims` with HMAC-SHA256 under `secret`.
pub uninterp spec fn hs256_encoding(
    claims: Seq<(Seq<char>, crate::claims::ClaimValueModel)>,
    secret: Seq<char>,
) -> Option<Seq<char>>;

/// `base` with the query pairs `pairs` appended, form-urlencoded, if `base` is an absolute URL.
pub uninterp spec fn url_with_query(base: Seq<char>, pairs: Seq<(Seq<char>, Seq<char>)>) -> Option<
    Seq<char>,
>;

pub open spec fn text_option_view(r: Option<String>) -> Option<Seq<char>> {
    match r {
        Some(s) => Some(s@),
        None => None,
    }
}

pub open spec fn pair_list_view(pairs: Seq<(String, String)>) -> Seq<(Seq<char>, Seq<char>)> {
    pairs.map_values(|p: (String, String)| (p.0@, p.1@))
}

/// Relies on base64's `URL_SAFE_NO_PAD` engine (`Engine::decode`), whose result
/// depends on the text alone.
#[verifier::external_body]
pub(crate) fn decode_base64url(text: &str) -> (r: Option<Vec<u8>>)
    ensures
        r matches Some(bytes) ==> base64url_decoded(text@) == Some(bytes@),
        r is None ==> base64url_decoded(text@) is None,
{
    base64::engine::general_purpose::URL_SAFE_NO_PAD.decode(text).ok()
}

/// Relies on serde_json's `from_slice` into an object, `Map::get` and `Value::as_str`.
#[verifier::external_body]
pub(crate) fn json_text(document: &[u8], name: &str) -> (r: Option<String>)
    ensures
        text_option_view(r) == json_text_member(document@, name@),
{
    let object = serde_json::from_slice::<serde_json::Map<String, serde_json::Value>>(document);
    object.ok()?.get(name)?.as_str().map(String::from)
}

/// Relies on serde_json's `from_slice` into an object, `Map::get` and `Value::as_u64`.
#[verifier::external_body]
pub(crate) fn json_unsigned(document: &[u8], name: &str) -> (r: Option<u64>)
    ensures
        r == json_unsigned_member(document@, name@),
{
    let object = serde_json::from_slice::<serde_json::Map<String, serde_json::Value>>(document);
    object.ok()?.get(name)?.as_u64()
}

/// Relies on serde_json's `from_slice` into an object, `Map::get` and `Value::as_i64`.
#[verifier::external_body]
pub(crate) fn json_signed(document: &[u8], name: &str) -> (r: Option<i64>)
    ensures
        r == json_signed_member(document@, name@),
{
    let object = serde_json::from_slice::<serde_json::Map<String, serde_json::Value>>(document);
    object.ok()?.get(name)?.as_i64()
}

/// Relies on serde_json's `from_slice` into an object, `Map::remove` and
/// `from_value` into a list of strings.
#[verifier::external_body]
pub(crate) fn json_text_list(document: &[u8], name: &str) -> (r: Option<Vec<String>>)
    ensures
        r matches Some(items) ==> json_text_list_member(document@, name@) == Some(
            items@.map_values(|s: String| s@),
        ),
        r is None ==> json_text_list_member(document@, name@) is None,
{
    let object = serde_json::from_slice::<serde_json::Map<String, serde_json::Value>>(document);
    serde_json::from_value::<Vec<String>>(object.ok()?.remove(name)?).ok()
}

/// Relies on jsonwebtoken's `decode` for the signature and audience checks (the key
/// from `DecodingKey::from_secret` or `DecodingKey::from_rsa_components`, the algorithm
/// from `Algorithm::from_str`). Its own expiry check is switched off, since it reads
/// the clock; the caller checks expiry against the time it is given. The outcome
/// then depends on the arguments alone.
#[verifier::external_body]
pub(crate) fn token_accepted(token: &str, key: &VerificationKey, algorithm: &str, audience: &str) -> (r: bool)
    ensures
        r == jwt_accepted(token@, key@, algorithm@, audience@),
{
    let decoding_key = match key {
        VerificationKey::Secret(secret) => jsonwebtoken::DecodingKey::from_secret(secret.as_bytes()),
        VerificationKey::RsaComponents(n, e) => match jsonwebtoken::DecodingKey::from_rsa_components(n, e) {
            Ok(k) => k,
            Err(_) => return false,
        },
    };
    let Ok(algorithm) = jsonwebtoken::Algorithm::from_str(algorithm) else { return false };
    let mut validation = jsonwebtoken::Validation::new(algorithm);
    validation.validate_exp = false;
    validation.set_audience(&[audience]);
    jsonwebtoken::decode::<serde::de::IgnoredAny>(token, &decoding_key, &validation).is_ok()
}

/// Relies on jsonwebtoken's `encode` with the default header (HS256) and
/// `EncodingKey::from_secret`, the claims given as a serde_json object.
#[verifier::external_body]
pub(crate) fn encode_hs256(claims: &Vec<(String, ClaimValue)>, secret: &str) -> (r: Result<String, jsonwebtoken::errors::Error>)
    ensures
        r matches Ok(token) ==> hs256_encoding(claim_list_view(claims@), secret@) == Some(token@),
        r is Err ==> hs256_encoding(claim_list_view(claims@), secret@) is None,
{
    let mut object = serde_json::Map::new();
    for (name, value) in claims.iter() {
        let value = match value {
            ClaimValue::Text(s) => serde_json::Value::from(s.clone()),
            ClaimValue::Unsigned(n) => serde_json::Value::from(*n),
            ClaimValue::Signed(n) => serde_json::Value::from(*n),
            ClaimValue::TextList(items) => serde_json::Value::from(items.clone()),
        };
        object.insert(name.clone(), value);
    }
    let key = jsonwebtoken::EncodingKey::from_secret(secret.as_bytes());
    jsonwebtoken::encode(&jsonwebtoken::Header::default(), &object, &key)
}

/// Relies on textnonce's `TextNonce::sized`: it refuses a length under 16 or not
/// divisible by 4, and otherwise gives that many base64 characters (time, then randomness).
#[verifier::external_body]
pub(crate) fn text_nonce(length: usize) -> (r: Result<String, String>)
    ensures
        length < 16 || length % 4 != 0 ==> r is Err,
        r matches Ok(nonce) ==> nonce@.len() == length,
{
    textnonce::TextNonce::sized(length).map(|nonce| nonce.0)
}

/// Relies on url's `Url::parse_with_params` and its conversion into `String`.
#[verifier::external_body]
pub(crate) fn parse_with_params(base: &str, pairs: &Vec<(String, String)>) -> (r: Result<String, url::ParseError>)
    ensures
        r matches Ok(url) ==> url_with_query(base@, pair_list_view(pairs@)) == Some(url@),
        r is Err ==> url_with_query(base@, pair_list_view(pairs@)) is None,
{
    url::Url::parse_with_params(base, pairs.iter()).map(String::from)
}

/// Relies on `SystemTime::now` and `duration_since(UNIX_EPOCH)`: whole seconds
/// since the epoch, or nothing when the clock reads earlier than that.
#[verifier::external_body]
pub(crate) fn seconds_since_epoch() -> (r: Option<u64>)
{
    std::time::SystemTime::now().duration_since(std::time::UNIX_EPOCH).ok().map(|d| d.as_secs())
}

} // verus!
