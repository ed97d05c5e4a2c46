//! Issuance of the application's access/refresh token pair.
use vstd::prelude::*;

use crate::bindings::{encode_hs256, hs256_encoding, seconds_since_epoch};
use crate::claims::{
    access_claim_list, refresh_claim_list, AccessTokenClaims, AccessTokenClaimsModel, CommonClaims,
    JWTExpiration, RefreshTokenClaims, RefreshTokenClaimsModel, APP_ISSUER,
    INITIAL_REFRESH_VERSION,
};

verus! {

/// Lifetime of an access token: 30 minutes.
pub const ACCESS_TOKEN_LIFETIME: u64 = 1800;

/// Lifetime of a refresh token: 30 days.
pub const REFRESH_TOKEN_LIFETIME: u64 = 2592000;

/// The instants of a token issued at `now` that lives `expires_in` seconds; when the
/// expiry does not fit the clock's range the token expires at issue.
pub open spec fn expiration_at(now: u64, expires_in: u64) -> JWTExpiration<u64> {
    JWTExpiration {
        issued_at: now,
        expires_at: if now + expires_in <= u64::MAX {
            (now + expires_in) as u64
        } else {
            now
        },
    }
}

/// The instants of a token issued at `now` that lives `expires_in` seconds.
pub fn expiration_from(now: u64, expires_in: u64) -> (r: JWTExpiration<u64>)
    ensures
        r == expiration_at(now, expires_in),
{
    let expires_at = match now.checked_add(expires_in) {
        Some(t) => t,
        None => now,
    };
    JWTExpiration { issued_at: now, expires_at }
}

/// The instants of a token issued now that lives `expires_in` seconds; nothing
/// when the clock reads before the Unix epoch.
pub fn calculate_expiration(expires_in: u64) -> (r: Option<JWTExpiration<u64>>)
    ensures
        r matches Some(e) ==> e == expiration_at(e.issued_at, expires_in),
{
    match seconds_since_epoch() {
        Some(now) => Some(expiration_from(now, expires_in)),
        None => None,
    }
}

/// The claims of the access token issued at `now` to `subject` with `role`.
pub open spec fn access_claims_at(
    client_id: Seq<char>,
    subject: Seq<char>,
    role: Seq<char>,
    now: u64,
) -> AccessTokenClaimsModel {
    AccessTokenClaimsModel {
        common: CommonClaims::new_spec(client_id, subject, expiration_at(now, ACCESS_TOKEN_LIFETIME)),
        role,
        additional_scopes: Seq::empty(),
    }
}

/// The claims of the refresh token issued at `now` to `subject`.
pub open spec fn refresh_claims_at(client_id: Seq<char>, subject: Seq<char>, now: u64) -> RefreshTokenClaimsModel {
    RefreshTokenClaimsModel {
        common: CommonClaims::new_spec(client_id, subject, expiration_at(now, REFRESH_TOKEN_LIFETIME)),
        version: INITIAL_REFRESH_VERSION,
    }
}

/// The token pair issued at `now`: both tokens, or neither.
pub open spec fn token_pair_at(
    access_token_secret: Seq<char>,
    refresh_token_secret: Seq<char>,
    client_id: Seq<char>,
    subject: Seq<char>,
    role: Seq<char>,
    now: u64,
) -> Option<(Seq<char>, Seq<char>)> {
    match (
        hs256_encoding(access_claim_list(access_claims_at(client_id, subject, role, now)), access_token_secret),
        hs256_encoding(refresh_claim_list(refresh_claims_at(client_id, subject, now)), refresh_token_secret),
    ) {
        (Some(access), Some(refresh)) => Some((access, refresh)),
        _ => None,
    }
}

pub open spec fn pair_view(r: Option<(String, String)>) -> Option<(Seq<char>, Seq<char>)> {
    match r {
        Some((a, b)) => Some((a@, b@)),
        None => None,
    }
}

/// Signs the access and refresh tokens for `subject` with `role`, issued at `now`.
pub fn issue_token_pair(
    access_token_secret: &str,
    refresh_token_secret: &str,
    client_id: &str,
    subject: &str,
    role: &str,
    now: u64,
) -> (r: Option<(String, String)>)
    ensures
        pair_view(r) == token_pair_at(
            access_token_secret@,
            refresh_token_secret@,
            client_id@,
            subject@,
            role@,
            now,
        ),
{
    let access_claims = AccessTokenClaims::new(
        client_id,
        subject,
        role,
        expiration_from(now, ACCESS_TOKEN_LIFETIME),
    );
    let refresh_claims = RefreshTokenClaims::new(
        client_id,
        subject,
        expiration_from(now, REFRESH_TOKEN_LIFETIME),
    );
    assert(access_claims@ == access_claims_at(client_id@, subject@, role@, now));
    assert(refresh_claims@ == refresh_claims_at(client_id@, subject@, now));
    let access = encode_hs256(&access_claims.claim_list(), access_token_secret);
    let refresh = encode_hs256(&refresh_claims.claim_list(), refresh_token_secret);
    match (access, refresh) {
        (Ok(access), Ok(refresh)) => Some((access, refresh)),
        _ => None,
    }
}

/// Signs the access and refresh tokens for `subject` with `role`, issued now;
/// nothing when the clock reads before the Unix epoch or signing fails.
pub fn generate_access_and_refresh_tokens(
    access_token_secret: &str,
    refresh_token_secret: &str,
    client_id: &str,
    subject: &str,
    role: &str,
) -> (r: Option<(String, String)>)
    ensures
        r is Some ==> exists|now: u64|
            pair_view(r) == token_pair_at(
                access_token_secret@,
                refresh_token_secret@,
                client_id@,
                subject@,
                role@,
                now,
            ),
{
    match seconds_since_epoch() {
        Some(now) => issue_token_pair(
            access_token_secret,
            refresh_token_secret,
            client_id,
            subject,
            role,
            now,
        ),
        None => None,
    }
}

/// Claims of a single application identity token (an earlier token format).
#[derive(Debug)]
pub struct AppIDClaims {
    pub aud: String,
    pub exp: u64,
    pub iat: u64,
    pub iss: String,
    pub sub: String,
}

impl AppIDClaims {
    /// Claims for `sub` with audience `aud`, issued now by this application and
    /// valid for the access-token lifetime; nothing when the clock reads before the epoch.
    pub fn new(aud: &str, sub: &str) -> (r: Option<AppIDClaims>)
        ensures
            r matches Some(c) ==> {
                &&& c.aud@ == aud@
                &&& c.sub@ == sub@
                &&& c.iss@ == APP_ISSUER@
                &&& c.exp == expiration_at(c.iat, ACCESS_TOKEN_LIFETIME).expires_at
            },
    {
        match calculate_expiration(ACCESS_TOKEN_LIFETIME) {
            Some(expiration) => Some(
                AppIDClaims {
                    aud: aud.to_owned(),
                    exp: expiration.expires_at,
                    iat: expiration.issued_at,
                    iss: APP_ISSUER.to_owned(),
                    sub: sub.to_owned(),
                },
            ),
            None => None,
        }
    }
}

} // verus!
