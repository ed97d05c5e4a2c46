//! Authentication core: verification of provider identity tokens, issuance of
//! application token pairs, the per-request authentication decision and the
//! authorization-code exchange with the identity provider.
//!
//! Token verification never reads the clock: callers pass the current time, so
//! every verification outcome is a function of its arguments.
mod algorithm;
mod bindings;
mod claims;
mod codec;
mod exchange;
mod issuer;
mod registry;
mod session;

pub use algorithm::{algorithm_from_name, algorithm_to_str, Algorithm};
pub use claims::{
    AccessTokenClaims, ClaimValue, CommonClaims, JWTExpiration, KeycloakIDClaims,
    RefreshTokenClaims, TokenClaims,
};
pub use codec::{parse_header, verfy_jwt_hmac, verify_jwt, VerificationError, EXPIRY_LEEWAY};
pub use exchange::{
    app_role, callback_redirect, complete_login, create_token_cookie, extract_roles,
    lemma_forged_nonce_redirects_to_login, lemma_nonce_admits_one_callback, login, login_params,
    login_with_nonce, verify_callback, AuthCode, CallbackError, LoginError, LoginGrant, NonceSlot,
    OpenidConfiguration, Redirect, SameSite, TokenCookie, ACCESS_TOKEN_COOKIE, APP_ADMIN_ROLE,
    APP_USER_ROLE, KEYCLOAK_ADMIN_ROLE, NONCE_LENGTH, PROTECTED_PREFIX, REDIRECT_URI,
    REFRESH_TOKEN_COOKIE,
};
pub use issuer::{
    calculate_expiration, expiration_from, generate_access_and_refresh_tokens, issue_token_pair,
    AppIDClaims, ACCESS_TOKEN_LIFETIME, REFRESH_TOKEN_LIFETIME,
};
pub use registry::{registry_of, same_text, JWKCertificate, KeyRegistry, VerificationKey};
pub use session::{
    check_refresh, lemma_refresh_requires_current_version, lemma_valid_access_ignores_refresh,
    requires_authentication, validate_cookies, verify_tokens, AuthStep, TokenConfig, TokenState,
    User,
};
