//! The per-request authentication decision over an access token and a refresh
//! token, with the persisted refresh-token version as the revocation mechanism.
use vstd::prelude::*;

use crate::claims::{AccessTokenClaims, RefreshTokenClaims};
use crate::codec::{hmac_outcome, verfy_jwt_hmac};
use crate::exchange::PROTECTED_PREFIX;
use crate::registry::same_text;

verus! {

/// A persisted user record.
#[derive(Clone, Debug)]
pub struct User {
    pub user_id: String,
    pub preferred_username: String,
    pub email: String,
    /// A refresh token is honoured only when it carries exactly this version.
    pub refresh_token_version: i64,
    pub role: String,
}

/// The outcome of an authentication check.
#[derive(Debug)]
pub enum TokenState {
    /// The access token is valid for this subject.
    Valid(String),
    /// Neither token authenticates the caller.
    Invalid,
    /// The access token is not valid but the refresh token is: the caller must
    /// issue a new pair for this subject and user.
    RequiresRefresh(String, User),
}

/// The configuration that application tokens are checked against.
pub struct TokenConfig {
    /// The audience of application tokens.
    pub client_id: String,
    pub access_token_hmac_secret: String,
    pub refresh_token_hmac_secret: String,
}

/// Where an authentication check stands after the tokens have been verified.
#[derive(Debug)]
pub enum AuthStep {
    /// The access token is valid for this subject.
    Valid(String),
    /// Neither token verifies.
    Invalid,
    /// Only the refresh token verifies: the subject's persisted user record decides.
    FetchUser { subject: String, version: i64 },
}

/// The mathematical value of an [`AuthStep`].
pub enum AuthStepModel {
    Valid(Seq<char>),
    Invalid,
    FetchUser(Seq<char>, i64),
}

impl View for AuthStep {
    type V = AuthStepModel;

    open spec fn view(&self) -> AuthStepModel {
        match self {
            AuthStep::Valid(s) => AuthStepModel::Valid(s@),
            AuthStep::Invalid => AuthStepModel::Invalid,
            AuthStep::FetchUser { subject, version } => AuthStepModel::FetchUser(subject@, *version),
        }
    }
}

/// The mathematical value of a [`TokenState`].
pub enum TokenStateModel {
    Valid(Seq<char>),
    Invalid,
    RequiresRefresh(Seq<char>, User),
}

impl View for TokenState {
    type V = TokenStateModel;

    open spec fn view(&self) -> TokenStateModel {
        match self {
            TokenState::Valid(s) => TokenStateModel::Valid(s@),
            TokenState::Invalid => TokenStateModel::Invalid,
            TokenState::RequiresRefresh(s, u) => TokenStateModel::RequiresRefresh(s@, *u),
        }
    }
}

/// What the tokens decide at time `now`: the access token first; only when it
/// fails, the refresh token.
pub open spec fn token_step(access_token: Seq<char>, refresh_token: Seq<char>, config: TokenConfig, now: u64) -> AuthStepModel {
    match hmac_outcome::<AccessTokenClaims>(access_token, config.client_id@, config.access_token_hmac_secret@, now) {
        Ok(claims) => AuthStepModel::Valid(claims.common.sub),
        Err(_) => match hmac_outcome::<RefreshTokenClaims>(
            refresh_token,
            config.client_id@,
            config.refresh_token_hmac_secret@,
            now,
        ) {
            Ok(claims) => AuthStepModel::FetchUser(claims.common.sub, claims.version),
            Err(_) => AuthStepModel::Invalid,
        },
    }
}

/// What the subject's persisted record (`stored`, nothing when the lookup failed)
/// decides of a refresh token carrying `version`.
pub open spec fn refresh_state(subject: Seq<char>, version: i64, stored: Option<User>) -> TokenStateModel {
    match stored {
        Some(user) => if user.refresh_token_version == version {
            TokenStateModel::RequiresRefresh(subject, user)
        } else {
            TokenStateModel::Invalid
        },
        None => TokenStateModel::Invalid,
    }
}

/// The whole decision, given what the user store returns for the subject of the
/// refresh token.
pub open spec fn authentication_state(
    access_token: Seq<char>,
    refresh_token: Seq<char>,
    config: TokenConfig,
    now: u64,
    stored: Option<User>,
) -> TokenStateModel {
    match token_step(access_token, refresh_token, config, now) {
        AuthStepModel::Valid(subject) => TokenStateModel::Valid(subject),
        AuthStepModel::Invalid => TokenStateModel::Invalid,
        AuthStepModel::FetchUser(subject, version) => refresh_state(subject, version, stored),
    }
}

/// Verifies the access token and, only when it fails, the refresh token, at time `now`.
pub fn verify_tokens(access_token: &str, refresh_token: &str, config: &TokenConfig, now: u64) -> (r: AuthStep)
    ensures
        r@ == token_step(access_token@, refresh_token@, *config, now),
{
    let access = verfy_jwt_hmac::<AccessTokenClaims>(
        access_token,
        config.client_id.as_str(),
        config.access_token_hmac_secret.as_str(),
        now,
    );
    if let Ok(claims) = access {
        return AuthStep::Valid(claims.common.sub);
    }
    let refresh = verfy_jwt_hmac::<RefreshTokenClaims>(
        refresh_token,
        config.client_id.as_str(),
        config.refresh_token_hmac_secret.as_str(),
        now,
    );
    match refresh {
        Ok(claims) => AuthStep::FetchUser { subject: claims.common.sub, version: claims.version },
        Err(_) => AuthStep::Invalid,
    }
}

/// Decides a verified refresh token for `subject` carrying `version`, given the
/// subject's persisted record (`stored`; nothing when the lookup failed).
pub fn check_refresh(subject: String, version: i64, stored: Option<User>) -> (r: TokenState)
    ensures
        r@ == refresh_state(subject@, version, stored),
{
    match stored {
        Some(user) => if user.refresh_token_version == version {
            TokenState::RequiresRefresh(subject, user)
        } else {
            TokenState::Invalid
        },
        None => TokenState::Invalid,
    }
}

/// Whether a request for `path` must be authenticated.
pub open spec fn is_protected(path: Seq<char>) -> bool {
    path.len() >= PROTECTED_PREFIX@.len() && path.subrange(0, PROTECTED_PREFIX@.len() as int)
        == PROTECTED_PREFIX@
}

/// Whether a request for `path` must be authenticated: it lies under the protected prefix.
pub fn requires_authentication(path: &str) -> (r: bool)
    ensures
        r == is_protected(path@),
{
    let prefix_length = PROTECTED_PREFIX.unicode_len();
    if path.unicode_len() < prefix_length {
        return false;
    }
    same_text(path.substring_char(0, prefix_length), PROTECTED_PREFIX)
}

/// Checks the token cookies of a protected request at time `now`: a missing cookie
/// is reported by name, otherwise the tokens are verified.
pub fn validate_cookies(
    access_token: Option<&str>,
    refresh_token: Option<&str>,
    config: &TokenConfig,
    now: u64,
) -> (r: Result<AuthStep, String>)
    ensures
        access_token is None ==> r is Err,
        access_token is Some && refresh_token is None ==> r is Err,
        (access_token, refresh_token) matches (Some(a), Some(b)) ==> r matches Ok(step) && step@
            == token_step(a@, b@, *config, now),
{
    let access = match access_token {
        Some(a) => a,
        None => return Err(String::from_str("Could not find access token.")),
    };
    let refresh = match refresh_token {
        Some(b) => b,
        None => return Err(String::from_str("Could not find refresh token.")),
    };
    Ok(verify_tokens(access, refresh, config, now))
}

/// A valid access token decides the check on its own: whatever refresh token
/// accompanies it, the caller is authenticated as the access token's subject.
pub proof fn lemma_valid_access_ignores_refresh(
    access_token: Seq<char>,
    refresh_a: Seq<char>,
    refresh_b: Seq<char>,
    config: TokenConfig,
    now: u64,
    stored_a: Option<User>,
    stored_b: Option<User>,
)
    requires
        hmac_outcome::<AccessTokenClaims>(access_token, config.client_id@, config.access_token_hmac_secret@, now) is Ok,
    ensures
        authentication_state(access_token, refresh_a, config, now, stored_a) == authentication_state(
            access_token,
            refresh_b,
            config,
            now,
            stored_b,
        ),
        authentication_state(access_token, refresh_a, config, now, stored_a) == TokenStateModel::Valid(
            hmac_outcome::<AccessTokenClaims>(access_token, config.client_id@, config.access_token_hmac_secret@, now)->Ok_0.common.sub,
        ),
{
}

/// When the access token fails and the refresh token verifies, the persisted
/// version decides: an equal version asks for a refresh, any other is refused.
pub proof fn lemma_refresh_requires_current_version(
    access_token: Seq<char>,
    refresh_token: Seq<char>,
    config: TokenConfig,
    now: u64,
    user: User,
)
    requires
        hmac_outcome::<AccessTokenClaims>(access_token, config.client_id@, config.access_token_hmac_secret@, now) is Err,
        hmac_outcome::<RefreshTokenClaims>(refresh_token, config.client_id@, config.refresh_token_hmac_secret@, now) is Ok,
    ensures
        ({
            let claims = hmac_outcome::<RefreshTokenClaims>(
                refresh_token,
                config.client_id@,
                config.refresh_token_hmac_secret@,
                now,
            )->Ok_0;
            &&& user.refresh_token_version == claims.version ==> authentication_state(
                access_token,
                refresh_token,
                config,
                now,
                Some(user),
            ) == TokenStateModel::RequiresRefresh(claims.common.sub, user)
            &&& user.refresh_token_version != claims.version ==> authentication_state(
                access_token,
                refresh_token,
                config,
                now,
                Some(user),
            ) == TokenStateModel::Invalid
            &&& authentication_state(access_token, refresh_token, config, now, None)
                == TokenStateModel::Invalid
        }),
{
}

} // verus!
