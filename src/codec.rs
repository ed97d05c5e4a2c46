//! Token decoding and verification: the header's declared algorithm, key
//! resolution, signature and audience checks, expiry, and the claim shape.
use vstd::prelude::*;

use crate::algorithm::{algorithm_from_name, algorithm_name, algorithm_named, algorithm_to_str, Algorithm};
use crate::bindings::{
    base64url_decoded, decode_base64url, json_text, json_text_member, jwt_accepted, token_accepted,
};
use crate::claims::TokenClaims;
use crate::registry::{same_text, KeyModel, KeyRegistry, VerificationKey};

verus! {

/// Why a token was not accepted.
#[derive(Clone, Copy, Debug, PartialEq, Eq, Structural)]
pub enum VerificationError {
    /// The token has no `.` separating its header.
    InvalidJwtFormat,
    /// The header declares an algorithm that is unknown or not allowed for this token.
    UnknownAlgorithm,
    /// A segment is not valid base64.
    Base64DecodeError,
    /// The header or payload is not the JSON that was expected.
    JsonParseError,
    /// The signature, the audience or the expiry did not check out.
    InvalidSignature,
}

/// Seconds of clock skew tolerated when checking expiry.
pub const EXPIRY_LEEWAY: u64 = 60;

/// Whether a token expiring at `exp` has expired at time `now`, allowing for clock skew.
pub open spec fn expired(exp: u64, now: u64) -> bool {
    exp + EXPIRY_LEEWAY < now
}

pub open spec fn has_dot(s: Seq<char>) -> bool {
    exists|i: int| 0 <= i < s.len() && s[i] == '.'
}

pub open spec fn is_first_dot(s: Seq<char>, i: int) -> bool {
    &&& 0 <= i < s.len()
    &&& s[i] == '.'
    &&& forall|j: int| 0 <= j < i ==> s[j] != '.'
}

pub open spec fn first_dot(s: Seq<char>) -> int {
    choose|i: int| is_first_dot(s, i)
}

/// The text before the first `.` of a token.
pub open spec fn header_segment(token: Seq<char>) -> Seq<char> {
    token.subrange(0, first_dot(token))
}

/// The text after the first `.` of a token, up to the next `.` if there is one.
pub open spec fn payload_segment(token: Seq<char>) -> Seq<char> {
    let rest = token.subrange(first_dot(token) + 1, token.len() as int);
    if has_dot(rest) {
        rest.subrange(0, first_dot(rest))
    } else {
        rest
    }
}

/// The algorithm that a token's header declares.
pub open spec fn declared_algorithm(token: Seq<char>) -> Result<Algorithm, VerificationError> {
    if !has_dot(token) {
        Err(VerificationError::InvalidJwtFormat)
    } else {
        match base64url_decoded(header_segment(token)) {
            None => Err(VerificationError::Base64DecodeError),
            Some(header) => match json_text_member(header, "alg"@) {
                None => Err(VerificationError::JsonParseError),
                Some(name) => match algorithm_named(name) {
                    None => Err(VerificationError::UnknownAlgorithm),
                    Some(algorithm) => Ok(algorithm),
                },
            },
        }
    }
}

/// What verification yields for a token whose signature check gave `accepted`:
/// the claims of shape `C` in its payload, provided they name `audience` and have
/// not expired at `now`.
pub open spec fn claims_outcome<C: TokenClaims>(
    token: Seq<char>,
    audience: Seq<char>,
    accepted: bool,
    now: u64,
) -> Result<C::V, VerificationError> {
    if !accepted {
        Err(VerificationError::InvalidSignature)
    } else {
        match base64url_decoded(payload_segment(token)) {
            None => Err(VerificationError::Base64DecodeError),
            Some(document) => match C::claims_in(document) {
                None => Err(VerificationError::JsonParseError),
                Some(claims) => if C::audience_of(claims) != audience || expired(
                    C::expiry_of(claims),
                    now,
                ) {
                    Err(VerificationError::InvalidSignature)
                } else {
                    Ok(claims)
                },
            },
        }
    }
}

/// The outcome of verifying a token signed with the shared secret `secret`: only
/// HS256 is allowed on such tokens.
pub open spec fn hmac_outcome<C: TokenClaims>(
    token: Seq<char>,
    audience: Seq<char>,
    secret: Seq<char>,
    now: u64,
) -> Result<C::V, VerificationError> {
    match declared_algorithm(token) {
        Err(e) => Err(e),
        Ok(algorithm) => if algorithm != Algorithm::HS256 {
            Err(VerificationError::UnknownAlgorithm)
        } else {
            claims_outcome::<C>(
                token,
                audience,
                jwt_accepted(token, KeyModel::Secret(secret), algorithm_name(algorithm), audience),
                now,
            )
        },
    }
}

/// The outcome of verifying a token against the key that `registry` holds for its
/// declared algorithm.
pub open spec fn registry_outcome<C: TokenClaims>(
    token: Seq<char>,
    audience: Seq<char>,
    registry: Map<Seq<char>, crate::registry::JWKCertificate>,
    now: u64,
) -> Result<C::V, VerificationError> {
    match declared_algorithm(token) {
        Err(e) => Err(e),
        Ok(algorithm) => if !registry.contains_key(algorithm_name(algorithm)) {
            Err(VerificationError::UnknownAlgorithm)
        } else {
            let certificate = registry[algorithm_name(algorithm)];
            claims_outcome::<C>(
                token,
                audience,
                jwt_accepted(
                    token,
                    KeyModel::RsaComponents(certificate.n@, certificate.e@),
                    algorithm_name(algorithm),
                    audience,
                ),
                now,
            )
        },
    }
}

pub open spec fn outcome_view<C: View>(r: Result<C, VerificationError>) -> Result<C::V, VerificationError> {
    match r {
        Ok(c) => Ok(c@),
        Err(e) => Err(e),
    }
}

fn find_dot(s: &str) -> (r: Option<usize>)
    ensures
        r matches Some(i) ==> is_first_dot(s@, i as int) && first_dot(s@) == i,
        r is None ==> !has_dot(s@),
{
    let n = s.unicode_len();
    let mut i: usize = 0;
    while i < n
        invariant
            i <= n,
            n == s@.len(),
            forall|j: int| 0 <= j < i ==> s@[j] != '.',
        decreases n - i,
    {
        if s.get_char(i) == '.' {
            assert(is_first_dot(s@, i as int));
            let ghost f = first_dot(s@);
            assert(is_first_dot(s@, f));
            assert(f == i as int);
            return Some(i);
        }
        i += 1;
    }
    None
}

fn payload_of(token: &str, dot: usize) -> (r: &str)
    requires
        is_first_dot(token@, dot as int),
        first_dot(token@) == dot,
    ensures
        r@ == payload_segment(token@),
{
    let n = token.unicode_len();
    let rest = token.substring_char(dot + 1, n);
    match find_dot(rest) {
        Some(end) => rest.substring_char(0, end),
        None => rest,
    }
}

/// The algorithm that the header of `jwt` declares.
pub fn parse_header(jwt: &str) -> (r: Result<Algorithm, VerificationError>)
    ensures
        r == declared_algorithm(jwt@),
{
    let dot = match find_dot(jwt) {
        Some(dot) => dot,
        None => return Err(VerificationError::InvalidJwtFormat),
    };
    let header = match decode_base64url(jwt.substring_char(0, dot)) {
        Some(header) => header,
        None => return Err(VerificationError::Base64DecodeError),
    };
    let name = match json_text(header.as_slice(), "alg") {
        Some(name) => name,
        None => return Err(VerificationError::JsonParseError),
    };
    match algorithm_from_name(name.as_str()) {
        Some(algorithm) => Ok(algorithm),
        None => Err(VerificationError::UnknownAlgorithm),
    }
}

fn checked_claims<C: TokenClaims>(jwt: &str, audience: &str, accepted: bool, now: u64) -> (r: Result<C, VerificationError>)
    requires
        has_dot(jwt@),
    ensures
        outcome_view(r) == claims_outcome::<C>(jwt@, audience@, accepted, now),
{
    if !accepted {
        return Err(VerificationError::InvalidSignature);
    }
    let dot = match find_dot(jwt) {
        Some(dot) => dot,
        None => return Err(VerificationError::InvalidJwtFormat),
    };
    let document = match decode_base64url(payload_of(jwt, dot)) {
        Some(document) => document,
        None => return Err(VerificationError::Base64DecodeError),
    };
    let claims = match C::from_document(document.as_slice()) {
        Some(claims) => claims,
        None => return Err(VerificationError::JsonParseError),
    };
    let exp = claims.expires_at();
    if !same_text(claims.audience(), audience) || (exp as u128) + (EXPIRY_LEEWAY as u128) < now as u128 {
        return Err(VerificationError::InvalidSignature);
    }
    Ok(claims)
}

/// Verifies `jwt` as a token of this application signed with the shared secret
/// `hmac`, for `audience`, at time `now`, and reads its claims of shape `C`.
pub fn verfy_jwt_hmac<C: TokenClaims>(jwt: &str, audience: &str, hmac: &str, now: u64) -> (r: Result<C, VerificationError>)
    ensures
        outcome_view(r) == hmac_outcome::<C>(jwt@, audience@, hmac@, now),
        // A token under any algorithm but HS256 is refused as such.
        declared_algorithm(jwt@) matches Ok(a) && a != Algorithm::HS256 ==> r == Err::<C, VerificationError>(VerificationError::UnknownAlgorithm),
        // Claims are only handed out for the expected audience.
        r matches Ok(c) ==> C::audience_of(c@) == audience@,
{
    let algorithm = match parse_header(jwt) {
        Ok(algorithm) => algorithm,
        Err(e) => return Err(e),
    };
    if algorithm != Algorithm::HS256 {
        return Err(VerificationError::UnknownAlgorithm);
    }
    let key = VerificationKey::Secret(hmac.to_owned());
    let accepted = token_accepted(jwt, &key, algorithm_to_str(&algorithm), audience);
    checked_claims::<C>(jwt, audience, accepted, now)
}

/// Verifies `jwt` as a token of the identity provider against the key that `jwks`
/// holds for its declared algorithm, for `audience`, at time `now`, and reads its
/// claims of shape `C`.
pub fn verify_jwt<C: TokenClaims>(jwt: &str, audience: &str, jwks: &KeyRegistry, now: u64) -> (r: Result<C, VerificationError>)
    ensures
        outcome_view(r) == registry_outcome::<C>(jwt@, audience@, jwks@, now),
        // A token under an algorithm the registry holds no key for is refused as such.
        declared_algorithm(jwt@) matches Ok(a) && !jwks@.contains_key(algorithm_name(a)) ==> r == Err::<C, VerificationError>(VerificationError::UnknownAlgorithm),
        r matches Ok(c) ==> C::audience_of(c@) == audience@,
{
    let algorithm = match parse_header(jwt) {
        Ok(algorithm) => algorithm,
        Err(e) => return Err(e),
    };
    let certificate = match jwks.get(algorithm_to_str(&algorithm)) {
        Some(certificate) => certificate,
        None => return Err(VerificationError::UnknownAlgorithm),
    };
    let key = VerificationKey::RsaComponents(certificate.n.clone(), certificate.e.clone());
    let accepted = token_accepted(jwt, &key, algorithm_to_str(&algorithm), audience);
    checked_claims::<C>(jwt, audience, accepted, now)
}

} // verus!
