//! The authorization-code exchange with the identity provider: the login
//! redirect, the single-use nonce kept in the browser session, the callback's
//! identity-token checks, the role derivation and the grant of application tokens.
use vstd::prelude::*;

use crate::bindings::{
    pair_list_view, parse_with_params, text_nonce, text_option_view, url_with_query,
};
use crate::claims::{text_list_view, KeycloakIDClaims, KeycloakIDClaimsModel, INITIAL_REFRESH_VERSION};
use crate::codec::{outcome_view, registry_outcome, verify_jwt, VerificationError};
use crate::issuer::{issue_token_pair, pair_view, token_pair_at};
use crate::registry::{same_text, JWKCertificate, KeyRegistry};
use crate::session::{TokenConfig, User};

verus! {

/// Characters in a login nonce.
pub const NONCE_LENGTH: usize = 32;

/// Where the identity provider sends the browser back to.
pub const REDIRECT_URI: &'static str = "http://localhost:3000/oidc/token";

/// The provider-side role that makes a user an administrator of this application.
pub const KEYCLOAK_ADMIN_ROLE: &'static str = "wol-admin";

pub const APP_ADMIN_ROLE: &'static str = "admin";

pub const APP_USER_ROLE: &'static str = "user";

/// Name of the cookie that carries the access token.
pub const ACCESS_TOKEN_COOKIE: &'static str = "wl_id";

/// Name of the cookie that carries the refresh token.
pub const REFRESH_TOKEN_COOKIE: &'static str = "wl_rid";

/// Paths under this prefix require authentication.
pub const PROTECTED_PREFIX: &'static str = "/api";

/// The endpoints that the identity provider's discovery document announces.
#[derive(Clone, Debug)]
pub struct OpenidConfiguration {
    pub issuer: String,
    pub authorization_endpoint: String,
    pub token_endpoint: String,
    pub userinfo_endpoint: String,
    pub end_session_endpoint: String,
    pub jwks_uri: String,
}

/// The query of the provider's callback.
#[derive(Clone, Debug)]
pub struct AuthCode {
    pub session_state: String,
    pub iss: String,
    pub code: String,
}

/// The login nonce held in one browser session: stored at login, consumed at callback.
pub struct NonceSlot {
    nonce: Option<String>,
}

impl NonceSlot {
    pub closed spec fn view(&self) -> Option<Seq<char>> {
        text_option_view(self.nonce)
    }

    /// A slot holding `nonce`, or nothing.
    pub fn new(nonce: Option<String>) -> (r: NonceSlot)
        ensures
            r@ == text_option_view(nonce),
    {
        NonceSlot { nonce }
    }

    /// The nonce held, left in place.
    pub fn stored(&self) -> (r: Option<String>)
        ensures
            text_option_view(r) == self@,
    {
        match &self.nonce {
            Some(n) => Some(n.clone()),
            None => None,
        }
    }

    pub fn store(&mut self, nonce: String)
        ensures
            final(self)@ == Some(nonce@),
    {
        self.nonce = Some(nonce);
    }

    /// The nonce held; the slot is empty afterwards.
    pub fn take(&mut self) -> (r: Option<String>)
        ensures
            text_option_view(r) == old(self)@,
            final(self)@ is None,
    {
        let r = self.nonce.take();
        r
    }
}

/// Why a login redirect could not be produced.
#[derive(Clone, Copy, Debug, PartialEq, Eq, Structural)]
pub enum LoginError {
    /// No nonce could be generated.
    NonceUnavailable,
    /// The authorization endpoint is not an absolute URL.
    InvalidAuthorizationEndpoint,
}

/// The query of the authorization request.
pub open spec fn login_query(client_id: Seq<char>, nonce: Seq<char>) -> Seq<(Seq<char>, Seq<char>)> {
    seq![
        ("client_id"@, client_id),
        ("redirect_uri"@, REDIRECT_URI@),
        ("response_type"@, "code"@),
        ("scope"@, "openid roles"@),
        ("nonce"@, nonce),
    ]
}

fn text_pair(name: &str, value: &str) -> (r: (String, String))
    ensures
        r.0@ == name@,
        r.1@ == value@,
{
    (name.to_owned(), value.to_owned())
}

/// The query pairs of the authorization request.
pub fn login_params(client_id: &str, nonce: &str) -> (r: Vec<(String, String)>)
    ensures
        pair_list_view(r@) == login_query(client_id@, nonce@),
{
    let mut r: Vec<(String, String)> = Vec::new();
    r.push(text_pair("client_id", client_id));
    r.push(text_pair("redirect_uri", REDIRECT_URI));
    r.push(text_pair("response_type", "code"));
    r.push(text_pair("scope", "openid roles"));
    r.push(text_pair("nonce", nonce));
    assert(pair_list_view(r@) =~= login_query(client_id@, nonce@));
    r
}

/// Login with the outcome `generated` of nonce generation: the nonce is stored in
/// the session's slot and the provider's authorization URL carrying it is returned.
pub fn login_with_nonce(
    slot: &mut NonceSlot,
    generated: Result<String, String>,
    authorization_endpoint: &str,
    client_id: &str,
) -> (r: Result<String, LoginError>)
    ensures
        generated is Err ==> r == Err::<String, LoginError>(LoginError::NonceUnavailable) && final(slot)@ == old(slot)@,
        generated matches Ok(nonce) ==> {
            &&& final(slot)@ == Some(nonce@)
            &&& r matches Ok(url) ==> url_with_query(authorization_endpoint@, login_query(client_id@, nonce@)) == Some(url@)
            &&& r is Err <==> url_with_query(authorization_endpoint@, login_query(client_id@, nonce@)) is None
            &&& r is Err ==> r == Err::<String, LoginError>(LoginError::InvalidAuthorizationEndpoint)
        },
{
    let nonce = match generated {
        Ok(nonce) => nonce,
        Err(_) => return Err(LoginError::NonceUnavailable),
    };
    let params = login_params(client_id, nonce.as_str());
    slot.store(nonce);
    match parse_with_params(authorization_endpoint, &params) {
        Ok(url) => Ok(url),
        Err(_) => Err(LoginError::InvalidAuthorizationEndpoint),
    }
}

/// Login: generates a fresh nonce, stores it in the session's slot and returns the
/// provider's authorization URL carrying it.
pub fn login(slot: &mut NonceSlot, authorization_endpoint: &str, client_id: &str) -> (r: Result<String, LoginError>)
    ensures
        r matches Ok(url) ==> exists|nonce: Seq<char>|
            final(slot)@ == Some(nonce) && nonce.len() == NONCE_LENGTH
                && url_with_query(authorization_endpoint@, login_query(client_id@, nonce)) == Some(url@),
{
    let generated = text_nonce(NONCE_LENGTH);
    login_with_nonce(slot, generated, authorization_endpoint, client_id)
}

/// Why a provider callback did not authenticate the user.
#[derive(Clone, Copy, Debug, PartialEq, Eq, Structural)]
pub enum CallbackError {
    /// The session holds no nonce: no login is pending, or it was already used.
    NonceNotFound,
    /// The identity token did not verify.
    Verification(VerificationError),
    /// The identity token carries another nonce than the session's.
    NonceMismatch,
}

/// What a callback presenting `id_token` yields when the session held `stored`.
pub open spec fn callback_result(
    stored: Option<Seq<char>>,
    id_token: Seq<char>,
    client_id: Seq<char>,
    registry: Map<Seq<char>, JWKCertificate>,
    now: u64,
) -> Result<KeycloakIDClaimsModel, CallbackError> {
    match stored {
        None => Err(CallbackError::NonceNotFound),
        Some(nonce) => match registry_outcome::<KeycloakIDClaims>(id_token, client_id, registry, now) {
            Err(e) => Err(CallbackError::Verification(e)),
            Ok(claims) => if claims.nonce == nonce {
                Ok(claims)
            } else {
                Err(CallbackError::NonceMismatch)
            },
        },
    }
}

pub open spec fn callback_view(r: Result<KeycloakIDClaims, CallbackError>) -> Result<KeycloakIDClaimsModel, CallbackError> {
    match r {
        Ok(c) => Ok(c@),
        Err(e) => Err(e),
    }
}

/// The callback's checks: consumes the session's nonce, verifies the identity token
/// against the key registry for audience `client_id` at time `now`, and requires it
/// to carry the consumed nonce.
pub fn verify_callback(
    slot: &mut NonceSlot,
    id_token: &str,
    client_id: &str,
    registry: &KeyRegistry,
    now: u64,
) -> (r: Result<KeycloakIDClaims, CallbackError>)
    ensures
        final(slot)@ is None,
        callback_view(r) == callback_result(old(slot)@, id_token@, client_id@, registry@, now),
{
    let nonce = match slot.take() {
        Some(nonce) => nonce,
        None => return Err(CallbackError::NonceNotFound),
    };
    let verified = verify_jwt::<KeycloakIDClaims>(id_token, client_id, registry, now);
    assert(outcome_view(verified) == registry_outcome::<KeycloakIDClaims>(id_token@, client_id@, registry@, now));
    match verified {
        Err(e) => Err(CallbackError::Verification(e)),
        Ok(claims) => if same_text(claims.nonce.as_str(), nonce.as_str()) {
            Ok(claims)
        } else {
            Err(CallbackError::NonceMismatch)
        },
    }
}

/// The index of the first entry under `key`.
pub open spec fn is_first_entry<V>(entries: Seq<(String, V)>, key: Seq<char>, i: int) -> bool {
    &&& 0 <= i < entries.len()
    &&& entries[i].0@ == key
    &&& forall|j: int| 0 <= j < i ==> entries[j].0@ != key
}

/// The value of the first entry under `key`.
pub open spec fn entry_for<V>(entries: Seq<(String, V)>, key: Seq<char>) -> Option<V> {
    if exists|i: int| 0 <= i < entries.len() && entries[i].0@ == key {
        Some(entries[choose|i: int| is_first_entry(entries, key, i)].1)
    } else {
        None
    }
}

fn take_entry<V>(entries: Vec<(String, V)>, key: &str) -> (r: Option<V>)
    ensures
        r == entry_for(entries@, key@),
{
    let ghost initial = entries@;
    let mut remaining = entries;
    let mut i: usize = 0;
    while i < remaining.len()
        invariant
            remaining@ == initial,
            initial == entries@,
            i <= remaining@.len(),
            forall|j: int| 0 <= j < i ==> remaining@[j].0@ != key@,
        decreases remaining@.len() - i,
    {
        if same_text(remaining[i].0.as_str(), key) {
            proof {
                assert(is_first_entry(initial, key@, i as int));
                let f = choose|k: int| is_first_entry(initial, key@, k);
                assert(is_first_entry(initial, key@, f));
                assert(f == i as int);
                assert(0 <= i < initial.len() && initial[i as int].0@ == key@);
            }
            let entry = remaining.remove(i);
            assert(entry == initial[i as int]);
            let (_, value) = entry;
            return Some(value);
        }
        i += 1;
    }
    None
}

/// The provider-side roles that `resources` (resource name to role kind to roles,
/// as in the provider's `resource_access` claim) grant on this client.
pub open spec fn client_roles(resources: Seq<(String, Vec<(String, Vec<String>)>)>, client_id: Seq<char>) -> Option<Vec<String>> {
    match entry_for(resources, client_id) {
        Some(role_map) => entry_for(role_map@, "roles"@),
        None => None,
    }
}

/// The roles that `resources` grant on the client `client_id`.
pub fn extract_roles(resources: Vec<(String, Vec<(String, Vec<String>)>)>, client_id: &str) -> (r: Option<Vec<String>>)
    ensures
        r == client_roles(resources@, client_id@),
{
    match take_entry(resources, client_id) {
        Some(role_map) => take_entry(role_map, "roles"),
        None => None,
    }
}

/// The application role of a user with the provider-side roles `provider_roles`
/// (nothing when they could not be fetched).
pub open spec fn role_for(provider_roles: Option<Seq<Seq<char>>>) -> Seq<char> {
    match provider_roles {
        Some(roles) => if roles.contains(KEYCLOAK_ADMIN_ROLE@) {
            APP_ADMIN_ROLE@
        } else {
            APP_USER_ROLE@
        },
        None => APP_USER_ROLE@,
    }
}

pub open spec fn roles_view(provider_roles: Option<Vec<String>>) -> Option<Seq<Seq<char>>> {
    match provider_roles {
        Some(roles) => Some(text_list_view(roles@)),
        None => None,
    }
}

fn role_among(roles: &Vec<String>) -> (r: &'static str)
    ensures
        r@ == role_for(Some(text_list_view(roles@))),
{
    let mut i: usize = 0;
    while i < roles.len()
        invariant
            i <= roles@.len(),
            forall|j: int| 0 <= j < i ==> roles@[j]@ != KEYCLOAK_ADMIN_ROLE@,
        decreases roles@.len() - i,
    {
        if same_text(roles[i].as_str(), KEYCLOAK_ADMIN_ROLE) {
            assert(text_list_view(roles@)[i as int] == KEYCLOAK_ADMIN_ROLE@);
            return APP_ADMIN_ROLE;
        }
        i += 1;
    }
    assert(!text_list_view(roles@).contains(KEYCLOAK_ADMIN_ROLE@));
    APP_USER_ROLE
}

/// The application role derived from the provider-side roles.
pub fn app_role(provider_roles: &Option<Vec<String>>) -> (r: &'static str)
    ensures
        r@ == role_for(roles_view(*provider_roles)),
{
    match provider_roles {
        Some(roles) => role_among(roles),
        None => APP_USER_ROLE,
    }
}

/// What a successful login grants: the application token pair and the user record
/// to persist.
#[derive(Debug)]
pub struct LoginGrant {
    pub access_token: String,
    pub refresh_token: String,
    pub user: User,
}

/// Completes a login whose identity token verified as `claims`: derives the role,
/// issues the token pair at `now` and describes the user record; nothing when
/// issuance fails.
pub fn complete_login(
    claims: &KeycloakIDClaims,
    provider_roles: &Option<Vec<String>>,
    config: &TokenConfig,
    now: u64,
) -> (r: Option<LoginGrant>)
    ensures
        r is None <==> token_pair_at(
            config.access_token_hmac_secret@,
            config.refresh_token_hmac_secret@,
            config.client_id@,
            claims.sub@,
            role_for(roles_view(*provider_roles)),
            now,
        ) is None,
        r matches Some(grant) ==> {
            &&& token_pair_at(
                config.access_token_hmac_secret@,
                config.refresh_token_hmac_secret@,
                config.client_id@,
                claims.sub@,
                role_for(roles_view(*provider_roles)),
                now,
            ) == Some((grant.access_token@, grant.refresh_token@))
            &&& grant.user.user_id@ == claims.sub@
            &&& grant.user.preferred_username@ == claims.preferred_username@
            &&& grant.user.email@ == claims.email@
            &&& grant.user.refresh_token_version == INITIAL_REFRESH_VERSION
            &&& grant.user.role@ == role_for(roles_view(*provider_roles))
        },
{
    let role = app_role(provider_roles);
    let pair = issue_token_pair(
        config.access_token_hmac_secret.as_str(),
        config.refresh_token_hmac_secret.as_str(),
        config.client_id.as_str(),
        claims.sub.as_str(),
        role,
        now,
    );
    match pair {
        Some((access_token, refresh_token)) => Some(
            LoginGrant {
                access_token,
                refresh_token,
                user: User {
                    user_id: claims.sub.clone(),
                    preferred_username: claims.preferred_username.clone(),
                    email: claims.email.clone(),
                    refresh_token_version: INITIAL_REFRESH_VERSION,
                    role: role.to_owned(),
                },
            },
        ),
        None => None,
    }
}

/// Where the browser is sent after the provider's callback.
#[derive(Clone, Copy, Debug, PartialEq, Eq, Structural)]
pub enum Redirect {
    /// The application's home page.
    Home,
    /// The login page.
    Login,
}

impl Redirect {
    pub open spec fn path_spec(self) -> Seq<char> {
        match self {
            Redirect::Home => "/"@,
            Redirect::Login => "/login"@,
        }
    }

    pub fn path(&self) -> (r: &'static str)
        ensures
            r@ == self.path_spec(),
    {
        match self {
            Redirect::Home => "/",
            Redirect::Login => "/login",
        }
    }
}

/// The destination after a callback: home only when the identity token passed
/// every check and the application tokens were issued.
pub open spec fn callback_destination(verified: bool, granted: bool) -> Redirect {
    if verified && granted {
        Redirect::Home
    } else {
        Redirect::Login
    }
}

/// Where to send the browser after a callback that yielded `verified` and, if it
/// verified, `grant`.
pub fn callback_redirect(verified: &Result<KeycloakIDClaims, CallbackError>, grant: &Option<LoginGrant>) -> (r: Redirect)
    ensures
        r == callback_destination(verified is Ok, grant is Some),
{
    if verified.is_ok() && grant.is_some() {
        Redirect::Home
    } else {
        Redirect::Login
    }
}

/// The SameSite attribute of a cookie.
#[derive(Clone, Copy, Debug, PartialEq, Eq, Structural)]
pub enum SameSite {
    Strict,
    Lax,
}

/// A cookie to set on the response.
#[derive(Debug)]
pub struct TokenCookie {
    pub name: String,
    pub value: String,
    pub path: String,
    pub secure: bool,
    pub http_only: bool,
    pub same_site: SameSite,
}

/// The cookie named `key` that carries `token`: for the whole site, sent over
/// secure connections only, hidden from scripts, and withheld from cross-site
/// subrequests.
pub fn create_token_cookie(key: &str, token: String) -> (r: TokenCookie)
    ensures
        r.name@ == key@,
        r.value == token,
        r.path@ == "/"@,
        r.secure,
        r.http_only,
        r.same_site == SameSite::Lax,
{
    TokenCookie {
        name: key.to_owned(),
        value: token,
        path: "/".to_owned(),
        secure: true,
        http_only: true,
        same_site: SameSite::Lax,
    }
}

/// A nonce admits at most one callback: the first callback consumes it, whatever
/// it presents, and a second callback finds no nonce and is refused.
pub proof fn lemma_nonce_admits_one_callback(
    stored: Option<Seq<char>>,
    second_token: Seq<char>,
    client_id: Seq<char>,
    registry: Map<Seq<char>, JWKCertificate>,
    now: u64,
)
    ensures
        callback_result(None, second_token, client_id, registry, now) == Err::<
            KeycloakIDClaimsModel,
            CallbackError,
        >(CallbackError::NonceNotFound),
        callback_destination(
            callback_result(None, second_token, client_id, registry, now) is Ok,
            true,
        ) == Redirect::Login,
{
}

/// A callback whose identity token verifies but carries another nonce than the
/// one the login stored is refused and sent to the login page.
pub proof fn lemma_forged_nonce_redirects_to_login(
    stored: Seq<char>,
    id_token: Seq<char>,
    client_id: Seq<char>,
    registry: Map<Seq<char>, JWKCertificate>,
    now: u64,
    granted: bool,
)
    requires
        registry_outcome::<KeycloakIDClaims>(id_token, client_id, registry, now) matches Ok(claims)
            && claims.nonce != stored,
    ensures
        callback_result(Some(stored), id_token, client_id, registry, now) == Err::<
            KeycloakIDClaimsModel,
            CallbackError,
        >(CallbackError::NonceMismatch),
        callback_destination(
            callback_result(Some(stored), id_token, client_id, registry, now) is Ok,
            granted,
        ) == Redirect::Login,
{
}

} // verus!
