use base64::Engine;
use water_of_life::{
    algorithm_from_name, algorithm_to_str, generate_access_and_refresh_tokens, issue_token_pair,
    parse_header, verfy_jwt_hmac, verify_jwt, AccessTokenClaims, Algorithm, JWKCertificate,
    KeyRegistry, KeycloakIDClaims, RefreshTokenClaims, VerificationError,
};

const SECRET: &str = "access-secret";
const REFRESH_SECRET: &str = "refresh-secret";
const CLIENT: &str = "water-of-life";

/// A 2048-bit RSA key for tests, built from two primes given as small offsets
/// from fixed powers of two, so no key material is stored.
struct TestRsaKey {
    der: Vec<u8>,
    modulus: String,
    exponent: String,
}

fn der_length(len: usize) -> Vec<u8> {
    if len < 128 {
        vec![len as u8]
    } else if len < 256 {
        vec![0x81, len as u8]
    } else {
        vec![0x82, (len >> 8) as u8, len as u8]
    }
}

fn der_integer(value: &num_bigint::BigUint) -> Vec<u8> {
    let mut bytes = value.to_bytes_be();
    if bytes[0] & 0x80 != 0 {
        bytes.insert(0, 0);
    }
    let mut out = vec![0x02];
    out.extend(der_length(bytes.len()));
    out.extend(bytes);
    out
}

fn test_rsa_key() -> TestRsaKey {
    let one = num_bigint::BigUint::from(1u32);
    let p = (num_bigint::BigUint::from(1u32) << 1023usize) + (num_bigint::BigUint::from(1u32) << 1022usize)
        + (num_bigint::BigUint::from(1u32) << 1021usize) + num_bigint::BigUint::from(309u32);
    let q = (num_bigint::BigUint::from(1u32) << 1023usize) + (num_bigint::BigUint::from(1u32) << 1022usize) + num_bigint::BigUint::from(1037u32);
    let e = num_bigint::BigUint::from(65537u32);
    let n = &p * &q;
    let phi = (&p - &one) * (&q - &one);
    let d = e.modinv(&phi).unwrap();
    let fields = [
        num_bigint::BigUint::from(0u32),
        n.clone(),
        e.clone(),
        d.clone(),
        p.clone(),
        q.clone(),
        &d % (&p - &one),
        &d % (&q - &one),
        q.modinv(&p).unwrap(),
    ];
    let body: Vec<u8> = fields.iter().flat_map(der_integer).collect();
    let mut der = vec![0x30];
    der.extend(der_length(body.len()));
    der.extend(body);
    let engine = base64::engine::general_purpose::URL_SAFE_NO_PAD;
    TestRsaKey { der, modulus: engine.encode(n.to_bytes_be()), exponent: engine.encode(e.to_bytes_be()) }
}

fn now() -> u64 {
    std::time::SystemTime::now().duration_since(std::time::UNIX_EPOCH).unwrap().as_secs()
}

fn certificate(alg: &str, kid: &str, n: &str, e: &str) -> JWKCertificate {
    JWKCertificate {
        kid: kid.to_string(),
        kty: "RSA".to_string(),
        alg: alg.to_string(),
        used_for: "sig".to_string(),
        n: n.to_string(),
        e: e.to_string(),
        x5c: vec![],
        x5t: String::new(),
        x5t_hash: String::new(),
    }
}

fn text(s: &str) -> serde_json::Value {
    serde_json::Value::from(s)
}

fn sign(alg: jsonwebtoken::Algorithm, claims: &serde_json::Map<String, serde_json::Value>, key: &jsonwebtoken::EncodingKey) -> String {
    jsonwebtoken::encode(&jsonwebtoken::Header::new(alg), claims, key).unwrap()
}

fn identity_claims(aud: &str, nonce: &str, exp: u64) -> serde_json::Map<String, serde_json::Value> {
    let mut m = serde_json::Map::new();
    m.insert("exp".to_string(), serde_json::Value::from(exp));
    m.insert("iat".to_string(), serde_json::Value::from(exp - 300));
    m.insert("auth_time".to_string(), serde_json::Value::from(exp - 300));
    m.insert("iss".to_string(), text("https://sso.example.com/realms/main"));
    m.insert("aud".to_string(), text(aud));
    m.insert("sub".to_string(), text("user-42"));
    m.insert("azp".to_string(), text(aud));
    m.insert("nonce".to_string(), text(nonce));
    m.insert("sid".to_string(), text("session-7"));
    m.insert("preferred_username".to_string(), text("ada"));
    m.insert("email".to_string(), text("ada@example.com"));
    m
}

fn rsa_key() -> jsonwebtoken::EncodingKey {
    jsonwebtoken::EncodingKey::from_rsa_der(&test_rsa_key().der)
}

fn b64(s: &str) -> String {
    base64::engine::general_purpose::URL_SAFE_NO_PAD.encode(s)
}

#[test]
fn issued_access_token_round_trips() {
    let t = 1_700_000_000;
    let (access, _) = issue_token_pair(SECRET, REFRESH_SECRET, CLIENT, "user-42", "admin", t).unwrap();
    let claims = verfy_jwt_hmac::<AccessTokenClaims>(&access, CLIENT, SECRET, t).unwrap();
    assert_eq!(claims.common.sub, "user-42");
    assert_eq!(claims.role, "admin");
    assert!(claims.additional_scopes.is_empty());
    assert_eq!(claims.common.aud, CLIENT);
    assert_eq!(claims.common.iss, "http://localhost:3000");
    assert_eq!(claims.common.iat, t);
    assert_eq!(claims.common.exp, t + 1800);
}

#[test]
fn issued_refresh_token_round_trips() {
    let t = 1_700_000_000;
    let (_, refresh) = issue_token_pair(SECRET, REFRESH_SECRET, CLIENT, "user-42", "user", t).unwrap();
    let claims = verfy_jwt_hmac::<RefreshTokenClaims>(&refresh, CLIENT, REFRESH_SECRET, t).unwrap();
    assert_eq!(claims.common.sub, "user-42");
    assert_eq!(claims.version, 1);
    assert_eq!(claims.common.exp, t + 60 * 60 * 24 * 30);
}

#[test]
fn generated_pair_verifies_now() {
    let (access, refresh) = generate_access_and_refresh_tokens(SECRET, REFRESH_SECRET, CLIENT, "user-1", "user").unwrap();
    let claims = verfy_jwt_hmac::<AccessTokenClaims>(&access, CLIENT, SECRET, now()).unwrap();
    assert_eq!(claims.common.sub, "user-1");
    assert_eq!(claims.role, "user");
    assert!(verfy_jwt_hmac::<RefreshTokenClaims>(&refresh, CLIENT, REFRESH_SECRET, now()).is_ok());
}

#[test]
fn access_and_refresh_secrets_are_not_interchangeable() {
    let t = 1_700_000_000;
    let (access, refresh) = issue_token_pair(SECRET, REFRESH_SECRET, CLIENT, "user-42", "user", t).unwrap();
    assert_eq!(
        verfy_jwt_hmac::<AccessTokenClaims>(&access, CLIENT, REFRESH_SECRET, t).unwrap_err(),
        VerificationError::InvalidSignature
    );
    assert_eq!(
        verfy_jwt_hmac::<RefreshTokenClaims>(&refresh, CLIENT, SECRET, t).unwrap_err(),
        VerificationError::InvalidSignature
    );
}

#[test]
fn other_hmac_algorithm_is_unknown() {
    let t = 1_700_000_000;
    let mut m = serde_json::Map::new();
    m.insert("aud".to_string(), text(CLIENT));
    m.insert("exp".to_string(), serde_json::Value::from(t + 100));
    let token = sign(jsonwebtoken::Algorithm::HS384, &m, &jsonwebtoken::EncodingKey::from_secret(SECRET.as_bytes()));
    assert_eq!(
        verfy_jwt_hmac::<AccessTokenClaims>(&token, CLIENT, SECRET, t).unwrap_err(),
        VerificationError::UnknownAlgorithm
    );
}

#[test]
fn unlisted_algorithm_name_is_unknown() {
    let token = format!("{}.{}.c2ln", b64("{\"alg\":\"XY999\",\"typ\":\"JWT\"}"), b64("{}"));
    assert_eq!(parse_header(&token), Err(VerificationError::UnknownAlgorithm));
    assert_eq!(
        verfy_jwt_hmac::<AccessTokenClaims>(&token, CLIENT, SECRET, 0).unwrap_err(),
        VerificationError::UnknownAlgorithm
    );
    assert_eq!(
        verify_jwt::<KeycloakIDClaims>(&token, CLIENT, &KeyRegistry::new(), 0).unwrap_err(),
        VerificationError::UnknownAlgorithm
    );
}

#[test]
fn algorithm_missing_from_registry_is_unknown() {
    let t = 1_700_000_000;
    let token = sign(jsonwebtoken::Algorithm::RS256, &identity_claims(CLIENT, "n", t + 100), &rsa_key());
    let registry = KeyRegistry::from_certificates(vec![certificate("RS512", "k1", &test_rsa_key().modulus, &test_rsa_key().exponent)]);
    assert_eq!(
        verify_jwt::<KeycloakIDClaims>(&token, CLIENT, &registry, t).unwrap_err(),
        VerificationError::UnknownAlgorithm
    );
}

#[test]
fn provider_token_verifies_against_registry() {
    let t = 1_700_000_000;
    let token = sign(jsonwebtoken::Algorithm::RS256, &identity_claims(CLIENT, "nonce-1", t + 100), &rsa_key());
    let registry = KeyRegistry::from_certificates(vec![certificate("RS256", "k1", &test_rsa_key().modulus, &test_rsa_key().exponent)]);
    let claims = verify_jwt::<KeycloakIDClaims>(&token, CLIENT, &registry, t).unwrap();
    assert_eq!(claims.sub, "user-42");
    assert_eq!(claims.nonce, "nonce-1");
    assert_eq!(claims.preferred_username, "ada");
    assert_eq!(claims.email, "ada@example.com");
    assert_eq!(claims.exp, t + 100);
}

#[test]
fn provider_token_with_wrong_key_is_rejected() {
    let t = 1_700_000_000;
    let token = sign(jsonwebtoken::Algorithm::RS256, &identity_claims(CLIENT, "n", t + 100), &rsa_key());
    // the exponent 3 gives another public key
    let registry = KeyRegistry::from_certificates(vec![certificate("RS256", "k1", &test_rsa_key().modulus, "Aw")]);
    assert_eq!(
        verify_jwt::<KeycloakIDClaims>(&token, CLIENT, &registry, t).unwrap_err(),
        VerificationError::InvalidSignature
    );
}

#[test]
fn other_audience_is_rejected_with_valid_signature() {
    let t = 1_700_000_000;
    let (access, _) = issue_token_pair(SECRET, REFRESH_SECRET, "another-client", "user-42", "user", t).unwrap();
    assert!(verfy_jwt_hmac::<AccessTokenClaims>(&access, "another-client", SECRET, t).is_ok());
    assert_eq!(
        verfy_jwt_hmac::<AccessTokenClaims>(&access, CLIENT, SECRET, t).unwrap_err(),
        VerificationError::InvalidSignature
    );
    let token = sign(jsonwebtoken::Algorithm::RS256, &identity_claims("another-client", "n", t + 100), &rsa_key());
    let registry = KeyRegistry::from_certificates(vec![certificate("RS256", "k1", &test_rsa_key().modulus, &test_rsa_key().exponent)]);
    assert_eq!(
        verify_jwt::<KeycloakIDClaims>(&token, CLIENT, &registry, t).unwrap_err(),
        VerificationError::InvalidSignature
    );
}

#[test]
fn flipped_signature_bit_is_a_signature_error() {
    let t = 1_700_000_000;
    let (access, _) = issue_token_pair(SECRET, REFRESH_SECRET, CLIENT, "user-42", "user", t).unwrap();
    let cut = access.rfind('.').unwrap();
    let engine = base64::engine::general_purpose::URL_SAFE_NO_PAD;
    let mut signature = engine.decode(&access[cut + 1..]).unwrap();
    signature[0] ^= 1;
    let tampered = format!("{}.{}", &access[..cut], engine.encode(&signature));
    assert_ne!(tampered, access);
    assert_eq!(
        verfy_jwt_hmac::<AccessTokenClaims>(&tampered, CLIENT, SECRET, t).unwrap_err(),
        VerificationError::InvalidSignature
    );
}

#[test]
fn expiry_allows_a_minute_of_skew() {
    let t = 1_700_000_000;
    let (access, _) = issue_token_pair(SECRET, REFRESH_SECRET, CLIENT, "user-42", "user", t).unwrap();
    let exp = t + 1800;
    assert!(verfy_jwt_hmac::<AccessTokenClaims>(&access, CLIENT, SECRET, exp + 60).is_ok());
    assert_eq!(
        verfy_jwt_hmac::<AccessTokenClaims>(&access, CLIENT, SECRET, exp + 61).unwrap_err(),
        VerificationError::InvalidSignature
    );
}

#[test]
fn token_without_separator_is_malformed() {
    assert_eq!(parse_header("abcdef"), Err(VerificationError::InvalidJwtFormat));
    assert_eq!(
        verfy_jwt_hmac::<AccessTokenClaims>("abcdef", CLIENT, SECRET, 0).unwrap_err(),
        VerificationError::InvalidJwtFormat
    );
    assert_eq!(
        verfy_jwt_hmac::<AccessTokenClaims>("", CLIENT, SECRET, 0).unwrap_err(),
        VerificationError::InvalidJwtFormat
    );
}

#[test]
fn header_that_is_not_base64_is_a_decode_error() {
    assert_eq!(parse_header("@@@.e30.c2ln"), Err(VerificationError::Base64DecodeError));
}

#[test]
fn header_that_is_not_json_is_a_parse_error() {
    let token = format!("{}.e30.c2ln", b64("not json"));
    assert_eq!(parse_header(&token), Err(VerificationError::JsonParseError));
    let token = format!("{}.e30.c2ln", b64("{\"typ\":\"JWT\"}"));
    assert_eq!(parse_header(&token), Err(VerificationError::JsonParseError));
}

#[test]
fn issued_token_declares_hs256() {
    let (access, _) = issue_token_pair(SECRET, REFRESH_SECRET, CLIENT, "u", "user", 1_700_000_000).unwrap();
    assert_eq!(parse_header(&access), Ok(Algorithm::HS256));
}

#[test]
fn signed_token_missing_a_claim_is_a_parse_error() {
    let t = 1_700_000_000;
    let mut m = serde_json::Map::new();
    m.insert("aud".to_string(), text(CLIENT));
    m.insert("exp".to_string(), serde_json::Value::from(t + 100));
    m.insert("iat".to_string(), serde_json::Value::from(t));
    m.insert("iss".to_string(), text("http://localhost:3000"));
    m.insert("sub".to_string(), text("user-42"));
    let token = sign(jsonwebtoken::Algorithm::HS256, &m, &jsonwebtoken::EncodingKey::from_secret(SECRET.as_bytes()));
    assert_eq!(
        verfy_jwt_hmac::<AccessTokenClaims>(&token, CLIENT, SECRET, t).unwrap_err(),
        VerificationError::JsonParseError
    );
    m.insert("version".to_string(), serde_json::Value::from(3i64));
    let token = sign(jsonwebtoken::Algorithm::HS256, &m, &jsonwebtoken::EncodingKey::from_secret(SECRET.as_bytes()));
    let claims = verfy_jwt_hmac::<RefreshTokenClaims>(&token, CLIENT, SECRET, t).unwrap();
    assert_eq!(claims.version, 3);
}

#[test]
fn algorithm_names_round_trip() {
    let all = [
        Algorithm::HS256, Algorithm::HS384, Algorithm::HS512, Algorithm::ES256, Algorithm::ES384,
        Algorithm::RS256, Algorithm::RS384, Algorithm::PS256, Algorithm::PS384, Algorithm::PS512,
        Algorithm::RS512, Algorithm::EdDSA,
    ];
    for a in all {
        assert_eq!(algorithm_from_name(algorithm_to_str(&a)), Some(a));
    }
    assert_eq!(algorithm_to_str(&Algorithm::PS384), "PS384");
    assert_eq!(algorithm_from_name("hs256"), None);
    assert_eq!(algorithm_from_name("none"), None);
}

#[test]
fn registry_keeps_the_last_key_per_algorithm() {
    let registry = KeyRegistry::from_certificates(vec![
        certificate("RS256", "first", "n1", "e1"),
        certificate("RS512", "other", "n2", "e2"),
        certificate("RS256", "second", "n3", "e3"),
    ]);
    assert_eq!(registry.get("RS256").unwrap().kid, "second");
    assert_eq!(registry.get("RS512").unwrap().kid, "other");
    assert!(registry.get("ES256").is_none());
}

#[test]
fn registry_insert_replaces() {
    let mut registry = KeyRegistry::new();
    assert!(registry.get("RS256").is_none());
    registry.insert(certificate("RS256", "a", "n", "e"));
    registry.insert(certificate("RS256", "b", "n", "e"));
    assert_eq!(registry.get("RS256").unwrap().kid, "b");
}
