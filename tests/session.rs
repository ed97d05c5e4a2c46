use water_of_life::{
    check_refresh, issue_token_pair, requires_authentication, validate_cookies, verify_tokens, AuthStep,
    TokenConfig, TokenState, User,
};

const SECRET: &str = "access-secret";
const REFRESH_SECRET: &str = "refresh-secret";
const CLIENT: &str = "water-of-life";

fn config() -> TokenConfig {
    TokenConfig {
        client_id: CLIENT.to_string(),
        access_token_hmac_secret: SECRET.to_string(),
        refresh_token_hmac_secret: REFRESH_SECRET.to_string(),
    }
}

fn user(version: i64) -> User {
    User {
        user_id: "user-42".to_string(),
        preferred_username: "ada".to_string(),
        email: "ada@example.com".to_string(),
        refresh_token_version: version,
        role: "admin".to_string(),
    }
}

#[test]
fn valid_access_token_decides_alone() {
    let t = 1_700_000_000;
    let (access, _) = issue_token_pair(SECRET, REFRESH_SECRET, CLIENT, "user-42", "user", t).unwrap();
    let (_, other_refresh) = issue_token_pair(SECRET, REFRESH_SECRET, CLIENT, "someone-else", "user", t).unwrap();
    for refresh in ["", "garbage", "a.b.c", other_refresh.as_str()] {
        match verify_tokens(&access, refresh, &config(), t) {
            AuthStep::Valid(subject) => assert_eq!(subject, "user-42"),
            other => panic!("unexpected {:?}", other),
        }
    }
}

#[test]
fn expired_access_with_valid_refresh_asks_for_the_user() {
    let t = 1_700_000_000;
    let (access, refresh) = issue_token_pair(SECRET, REFRESH_SECRET, CLIENT, "user-42", "user", t).unwrap();
    let later = t + 1800 + 61;
    match verify_tokens(&access, &refresh, &config(), later) {
        AuthStep::FetchUser { subject, version } => {
            assert_eq!(subject, "user-42");
            assert_eq!(version, 1);
            match check_refresh(subject, version, Some(user(1))) {
                TokenState::RequiresRefresh(s, u) => {
                    assert_eq!(s, "user-42");
                    assert_eq!(u.refresh_token_version, 1);
                    assert_eq!(u.role, "admin");
                }
                other => panic!("unexpected {:?}", other),
            }
        }
        other => panic!("unexpected {:?}", other),
    }
}

#[test]
fn superseded_refresh_version_is_invalid() {
    assert!(matches!(check_refresh("user-42".to_string(), 1, Some(user(2))), TokenState::Invalid));
    assert!(matches!(check_refresh("user-42".to_string(), 1, None), TokenState::Invalid));
    assert!(matches!(check_refresh("user-42".to_string(), 7, Some(user(7))), TokenState::RequiresRefresh(_, _)));
}

#[test]
fn both_tokens_invalid_is_invalid() {
    let t = 1_700_000_000;
    assert!(matches!(verify_tokens("x", "y", &config(), t), AuthStep::Invalid));
    let (access, refresh) = issue_token_pair(SECRET, REFRESH_SECRET, CLIENT, "user-42", "user", t).unwrap();
    let much_later = t + 60 * 60 * 24 * 31;
    assert!(matches!(verify_tokens(&access, &refresh, &config(), much_later), AuthStep::Invalid));
    // a refresh token presented as an access token does not authenticate
    assert!(matches!(verify_tokens(&refresh, "y", &config(), t), AuthStep::Invalid));
}

#[test]
fn missing_cookies_are_reported() {
    let t = 1_700_000_000;
    assert_eq!(validate_cookies(None, Some("x"), &config(), t).unwrap_err(), "Could not find access token.");
    assert_eq!(validate_cookies(Some("x"), None, &config(), t).unwrap_err(), "Could not find refresh token.");
    assert!(matches!(validate_cookies(Some("x"), Some("y"), &config(), t), Ok(AuthStep::Invalid)));
}

#[test]
fn only_api_paths_are_protected() {
    assert!(requires_authentication("/api/spirit"));
    assert!(requires_authentication("/api"));
    assert!(!requires_authentication("/ap"));
    assert!(!requires_authentication("/oidc/login"));
    assert!(!requires_authentication(""));
    assert!(!requires_authentication("/static/api"));
}
