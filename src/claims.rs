//! Claim structures carried by tokens, and their encoding as claim lists.
use vstd::prelude::*;

use crate::bindings::{
    json_signed, json_signed_member, json_text, json_text_list, json_text_list_member,
    json_text_member, json_unsigned, json_unsigned_member,
};

verus! {

/// A claim value as it is written into a token payload.
#[derive(Clone, Debug)]
pub enum ClaimValue {
    Text(String),
    Unsigned(u64),
    Signed(i64),
    TextList(Vec<String>),
}

/// The mathematical value of a [`ClaimValue`].
pub enum ClaimValueModel {
    Text(Seq<char>),
    Unsigned(u64),
    Signed(i64),
    TextList(Seq<Seq<char>>),
}

impl View for ClaimValue {
    type V = ClaimValueModel;

    open spec fn view(&self) -> ClaimValueModel {
        match self {
            ClaimValue::Text(s) => ClaimValueModel::Text(s@),
            ClaimValue::Unsigned(n) => ClaimValueModel::Unsigned(*n),
            ClaimValue::Signed(n) => ClaimValueModel::Signed(*n),
            ClaimValue::TextList(items) => ClaimValueModel::TextList(items@.map_values(|s: String| s@)),
        }
    }
}

pub open spec fn claim_list_view(claims: Seq<(String, ClaimValue)>) -> Seq<(Seq<char>, ClaimValueModel)> {
    claims.map_values(|p: (String, ClaimValue)| (p.0@, p.1@))
}


pub open spec fn text_list_view(items: Seq<String>) -> Seq<Seq<char>> {
    items.map_values(|s: String| s@)
}

/// Issuer written into every token this application issues.
pub const APP_ISSUER: &'static str = "http://localhost:3000";

/// Issue and expiry instants of a token, in seconds since the Unix epoch.
#[derive(Clone, Copy, Debug)]
pub struct JWTExpiration<T> {
    pub issued_at: T,
    pub expires_at: T,
}

/// A claim shape that a verified token payload can be read into.
pub trait TokenClaims: Sized + View {
    /// The claims of this shape that the payload document holds, if it holds them all.
    spec fn claims_in(document: Seq<u8>) -> Option<Self::V>;

    spec fn audience_of(claims: Self::V) -> Seq<char>;

    spec fn expiry_of(claims: Self::V) -> u64;

    fn from_document(document: &[u8]) -> (r: Option<Self>)
        ensures
            r matches Some(c) ==> Self::claims_in(document@) == Some(c@),
            r is None ==> Self::claims_in(document@) is None,
    ;

    fn audience(&self) -> (r: &str)
        ensures
            r@ == Self::audience_of(self@),
    ;

    fn expires_at(&self) -> (r: u64)
        ensures
            r == Self::expiry_of(self@),
    ;
}

/// The envelope shared by the tokens this application issues.
#[derive(Debug)]
pub struct CommonClaims {
    pub aud: String,
    pub exp: u64,
    pub iat: u64,
    pub iss: String,
    pub sub: String,
}

pub struct CommonClaimsModel {
    pub aud: Seq<char>,
    pub exp: u64,
    pub iat: u64,
    pub iss: Seq<char>,
    pub sub: Seq<char>,
}

impl View for CommonClaims {
    type V = CommonClaimsModel;

    open spec fn view(&self) -> CommonClaimsModel {
        CommonClaimsModel { aud: self.aud@, exp: self.exp, iat: self.iat, iss: self.iss@, sub: self.sub@ }
    }
}

pub open spec fn common_claims_in(document: Seq<u8>) -> Option<CommonClaimsModel> {
    match (
        json_text_member(document, "aud"@),
        json_unsigned_member(document, "exp"@),
        json_unsigned_member(document, "iat"@),
        json_text_member(document, "iss"@),
        json_text_member(document, "sub"@),
    ) {
        (Some(aud), Some(exp), Some(iat), Some(iss), Some(sub)) => Some(
            CommonClaimsModel { aud, exp, iat, iss, sub },
        ),
        _ => None,
    }
}

pub open spec fn common_claim_list(c: CommonClaimsModel) -> Seq<(Seq<char>, ClaimValueModel)> {
    seq![
        ("aud"@, ClaimValueModel::Text(c.aud)),
        ("exp"@, ClaimValueModel::Unsigned(c.exp)),
        ("iat"@, ClaimValueModel::Unsigned(c.iat)),
        ("iss"@, ClaimValueModel::Text(c.iss)),
        ("sub"@, ClaimValueModel::Text(c.sub)),
    ]
}

impl CommonClaims {
    pub open spec fn new_spec(aud: Seq<char>, sub: Seq<char>, expiration: JWTExpiration<u64>) -> CommonClaimsModel {
        CommonClaimsModel {
            aud,
            exp: expiration.expires_at,
            iat: expiration.issued_at,
            iss: APP_ISSUER@,
            sub,
        }
    }

    /// The envelope for `sub` with audience `aud`, issued by this application at
    /// the instants of `expiration`.
    pub fn new(aud: &str, sub: &str, expiration: JWTExpiration<u64>) -> (r: CommonClaims)
        ensures
            r@ == CommonClaims::new_spec(aud@, sub@, expiration),
    {
        CommonClaims {
            aud: aud.to_owned(),
            exp: expiration.expires_at,
            iat: expiration.issued_at,
            iss: APP_ISSUER.to_owned(),
            sub: sub.to_owned(),
        }
    }

    pub fn from_document(document: &[u8]) -> (r: Option<CommonClaims>)
        ensures
            r matches Some(c) ==> common_claims_in(document@) == Some(c@),
            r is None ==> common_claims_in(document@) is None,
    {
        let aud = json_text(document, "aud");
        let exp = json_unsigned(document, "exp");
        let iat = json_unsigned(document, "iat");
        let iss = json_text(document, "iss");
        let sub = json_text(document, "sub");
        match (aud, exp, iat, iss, sub) {
            (Some(aud), Some(exp), Some(iat), Some(iss), Some(sub)) => Some(
                CommonClaims { aud, exp, iat, iss, sub },
            ),
            _ => None,
        }
    }

    /// The envelope as the claim list written into a token payload.
    pub fn claim_list(&self) -> (r: Vec<(String, ClaimValue)>)
        ensures
            claim_list_view(r@) == common_claim_list(self@),
    {
        let mut r: Vec<(String, ClaimValue)> = Vec::new();
        r.push((String::from_str("aud"), ClaimValue::Text(self.aud.clone())));
        r.push((String::from_str("exp"), ClaimValue::Unsigned(self.exp)));
        r.push((String::from_str("iat"), ClaimValue::Unsigned(self.iat)));
        r.push((String::from_str("iss"), ClaimValue::Text(self.iss.clone())));
        r.push((String::from_str("sub"), ClaimValue::Text(self.sub.clone())));
        assert(claim_list_view(r@) =~= common_claim_list(self@));
        r
    }
}

/// Claims of an application access token.
#[derive(Debug)]
pub struct AccessTokenClaims {
    pub common: CommonClaims,
    /// The caller's application role.
    pub role: String,
    /// Reserved; always empty.
    pub additional_scopes: Vec<String>,
}

pub struct AccessTokenClaimsModel {
    pub common: CommonClaimsModel,
    pub role: Seq<char>,
    pub additional_scopes: Seq<Seq<char>>,
}

impl View for AccessTokenClaims {
    type V = AccessTokenClaimsModel;

    open spec fn view(&self) -> AccessTokenClaimsModel {
        AccessTokenClaimsModel {
            common: self.common@,
            role: self.role@,
            additional_scopes: text_list_view(self.additional_scopes@),
        }
    }
}

pub open spec fn access_claims_in(document: Seq<u8>) -> Option<AccessTokenClaimsModel> {
    match (
        common_claims_in(document),
        json_text_member(document, "role"@),
        json_text_list_member(document, "additional_scopes"@),
    ) {
        (Some(common), Some(role), Some(additional_scopes)) => Some(
            AccessTokenClaimsModel { common, role, additional_scopes },
        ),
        _ => None,
    }
}

pub open spec fn access_claim_list(c: AccessTokenClaimsModel) -> Seq<(Seq<char>, ClaimValueModel)> {
    common_claim_list(c.common) + seq![
        ("role"@, ClaimValueModel::Text(c.role)),
        ("additional_scopes"@, ClaimValueModel::TextList(c.additional_scopes)),
    ]
}

impl AccessTokenClaims {
    /// Access claims for `sub` with role `role` and no additional scopes.
    pub fn new(aud: &str, sub: &str, role: &str, expiration: JWTExpiration<u64>) -> (r: AccessTokenClaims)
        ensures
            r@.common == CommonClaims::new_spec(aud@, sub@, expiration),
            r@.role == role@,
            r@.additional_scopes == Seq::<Seq<char>>::empty(),
    {
        let r = AccessTokenClaims {
            common: CommonClaims::new(aud, sub, expiration),
            role: role.to_owned(),
            additional_scopes: Vec::new(),
        };
        assert(r@.additional_scopes =~= Seq::<Seq<char>>::empty());
        r
    }

    /// The claims as the claim list written into a token payload.
    pub fn claim_list(&self) -> (r: Vec<(String, ClaimValue)>)
        ensures
            claim_list_view(r@) == access_claim_list(self@),
    {
        let mut r = self.common.claim_list();
        r.push((String::from_str("role"), ClaimValue::Text(self.role.clone())));
        r.push((String::from_str("additional_scopes"), ClaimValue::TextList(clone_texts(&self.additional_scopes))));
        assert(claim_list_view(r@) =~= access_claim_list(self@));
        r
    }
}

impl TokenClaims for AccessTokenClaims {
    open spec fn claims_in(document: Seq<u8>) -> Option<AccessTokenClaimsModel> {
        access_claims_in(document)
    }

    open spec fn audience_of(claims: AccessTokenClaimsModel) -> Seq<char> {
        claims.common.aud
    }

    open spec fn expiry_of(claims: AccessTokenClaimsModel) -> u64 {
        claims.common.exp
    }

    fn from_document(document: &[u8]) -> (r: Option<AccessTokenClaims>) {
        let common = CommonClaims::from_document(document);
        let role = json_text(document, "role");
        let additional_scopes = json_text_list(document, "additional_scopes");
        match (common, role, additional_scopes) {
            (Some(common), Some(role), Some(additional_scopes)) => Some(
                AccessTokenClaims { common, role, additional_scopes },
            ),
            _ => None,
        }
    }

    fn audience(&self) -> (r: &str) {
        self.common.aud.as_str()
    }

    fn expires_at(&self) -> (r: u64) {
        self.common.exp
    }
}

/// Claims of an application refresh token.
#[derive(Debug)]
pub struct RefreshTokenClaims {
    pub common: CommonClaims,
    /// Must equal the subject's persisted refresh-token version for the token to be honoured.
    pub version: i64,
}

pub struct RefreshTokenClaimsModel {
    pub common: CommonClaimsModel,
    pub version: i64,
}

impl View for RefreshTokenClaims {
    type V = RefreshTokenClaimsModel;

    open spec fn view(&self) -> RefreshTokenClaimsModel {
        RefreshTokenClaimsModel { common: self.common@, version: self.version }
    }
}

pub open spec fn refresh_claims_in(document: Seq<u8>) -> Option<RefreshTokenClaimsModel> {
    match (common_claims_in(document), json_signed_member(document, "version"@)) {
        (Some(common), Some(version)) => Some(RefreshTokenClaimsModel { common, version }),
        _ => None,
    }
}

pub open spec fn refresh_claim_list(c: RefreshTokenClaimsModel) -> Seq<(Seq<char>, ClaimValueModel)> {
    common_claim_list(c.common) + seq![("version"@, ClaimValueModel::Signed(c.version))]
}

/// The refresh-token version of a freshly authenticated session.
pub const INITIAL_REFRESH_VERSION: i64 = 1;

impl RefreshTokenClaims {
    /// Refresh claims for `sub`, carrying the initial refresh-token version.
    pub fn new(aud: &str, sub: &str, expiration: JWTExpiration<u64>) -> (r: RefreshTokenClaims)
        ensures
            r@.common == CommonClaims::new_spec(aud@, sub@, expiration),
            r@.version == INITIAL_REFRESH_VERSION,
    {
        RefreshTokenClaims { common: CommonClaims::new(aud, sub, expiration), version: INITIAL_REFRESH_VERSION }
    }

    /// The claims as the claim list written into a token payload.
    pub fn claim_list(&self) -> (r: Vec<(String, ClaimValue)>)
        ensures
            claim_list_view(r@) == refresh_claim_list(self@),
    {
        let mut r = self.common.claim_list();
        r.push((String::from_str("version"), ClaimValue::Signed(self.version)));
        assert(claim_list_view(r@) =~= refresh_claim_list(self@));
        r
    }
}

impl TokenClaims for RefreshTokenClaims {
    open spec fn claims_in(document: Seq<u8>) -> Option<RefreshTokenClaimsModel> {
        refresh_claims_in(document)
    }

    open spec fn audience_of(claims: RefreshTokenClaimsModel) -> Seq<char> {
        claims.common.aud
    }

    open spec fn expiry_of(claims: RefreshTokenClaimsModel) -> u64 {
        claims.common.exp
    }

    fn from_document(document: &[u8]) -> (r: Option<RefreshTokenClaims>) {
        let common = CommonClaims::from_document(document);
        let version = json_signed(document, "version");
        match (common, version) {
            (Some(common), Some(version)) => Some(RefreshTokenClaims { common, version }),
            _ => None,
        }
    }

    fn audience(&self) -> (r: &str) {
        self.common.aud.as_str()
    }

    fn expires_at(&self) -> (r: u64) {
        self.common.exp
    }
}

/// Claims of an identity token issued by the identity provider.
#[derive(Debug)]
pub struct KeycloakIDClaims {
    pub exp: u64,
    pub iat: u64,
    /// When the end user authenticated.
    pub auth_time: u64,
    pub iss: String,
    pub aud: String,
    /// The provider's identifier of the end user.
    pub sub: String,
    /// The authorized party: the client the token was issued to.
    pub azp: String,
    /// The nonce sent with the authorization request.
    pub nonce: String,
    /// The provider's session identifier.
    pub sid: String,
    pub preferred_username: String,
    pub email: String,
}

pub struct KeycloakIDClaimsModel {
    pub exp: u64,
    pub iat: u64,
    pub auth_time: u64,
    pub iss: Seq<char>,
    pub aud: Seq<char>,
    pub sub: Seq<char>,
    pub azp: Seq<char>,
    pub nonce: Seq<char>,
    pub sid: Seq<char>,
    pub preferred_username: Seq<char>,
    pub email: Seq<char>,
}

impl View for KeycloakIDClaims {
    type V = KeycloakIDClaimsModel;

    open spec fn view(&self) -> KeycloakIDClaimsModel {
        KeycloakIDClaimsModel {
            exp: self.exp,
            iat: self.iat,
            auth_time: self.auth_time,
            iss: self.iss@,
            aud: self.aud@,
            sub: self.sub@,
            azp: self.azp@,
            nonce: self.nonce@,
            sid: self.sid@,
            preferred_username: self.preferred_username@,
            email: self.email@,
        }
    }
}

pub open spec fn identity_claims_in(document: Seq<u8>) -> Option<KeycloakIDClaimsModel> {
    match (
        json_unsigned_member(document, "exp"@),
        json_unsigned_member(document, "iat"@),
        json_unsigned_member(document, "auth_time"@),
        json_text_member(document, "iss"@),
        json_text_member(document, "aud"@),
        json_text_member(document, "sub"@),
    ) {
        (Some(exp), Some(iat), Some(auth_time), Some(iss), Some(aud), Some(sub)) => match (
            json_text_member(document, "azp"@),
            json_text_member(document, "nonce"@),
            json_text_member(document, "sid"@),
            json_text_member(document, "preferred_username"@),
            json_text_member(document, "email"@),
        ) {
            (Some(azp), Some(nonce), Some(sid), Some(preferred_username), Some(email)) => Some(
                KeycloakIDClaimsModel {
                    exp,
                    iat,
                    auth_time,
                    iss,
                    aud,
                    sub,
                    azp,
                    nonce,
                    sid,
                    preferred_username,
                    email,
                },
            ),
            _ => None,
        },
        _ => None,
    }
}

impl TokenClaims for KeycloakIDClaims {
    open spec fn claims_in(document: Seq<u8>) -> Option<KeycloakIDClaimsModel> {
        identity_claims_in(document)
    }

    open spec fn audience_of(claims: KeycloakIDClaimsModel) -> Seq<char> {
        claims.aud
    }

    open spec fn expiry_of(claims: KeycloakIDClaimsModel) -> u64 {
        claims.exp
    }

    fn from_document(document: &[u8]) -> (r: Option<KeycloakIDClaims>) {
        let exp = json_unsigned(document, "exp");
        let iat = json_unsigned(document, "iat");
        let auth_time = json_unsigned(document, "auth_time");
        let iss = json_text(document, "iss");
        let aud = json_text(document, "aud");
        let sub = json_text(document, "sub");
        match (exp, iat, auth_time, iss, aud, sub) {
            (Some(exp), Some(iat), Some(auth_time), Some(iss), Some(aud), Some(sub)) => {
                let azp = json_text(document, "azp");
                let nonce = json_text(document, "nonce");
                let sid = json_text(document, "sid");
                let preferred_username = json_text(document, "preferred_username");
                let email = json_text(document, "email");
                match (azp, nonce, sid, preferred_username, email) {
                    (Some(azp), Some(nonce), Some(sid), Some(preferred_username), Some(email)) => {
                        Some(
                            KeycloakIDClaims {
                                exp,
                                iat,
                                auth_time,
                                iss,
                                aud,
                                sub,
                                azp,
                                nonce,
                                sid,
                                preferred_username,
                                email,
                            },
                        )
                    },
                    _ => None,
                }
            },
            _ => None,
        }
    }

    fn audience(&self) -> (r: &str) {
        self.aud.as_str()
    }

    fn expires_at(&self) -> (r: u64) {
        self.exp
    }
}

fn clone_texts(items: &Vec<String>) -> (r: Vec<String>)
    ensures
        text_list_view(r@) == text_list_view(items@),
{
    let mut r: Vec<String> = Vec::new();
    let mut i: usize = 0;
    while i < items.len()
        invariant
            i <= items@.len(),
            r@.len() == i,
            forall|k: int| 0 <= k < i ==> r@[k]@ == items@[k]@,
        decreases items@.len() - i,
    {
        let item = items[i].clone();
        r.push(item);
        i += 1;
    }
    assert(text_list_view(r@) =~= text_list_view(items@));
    r
}

} // verus!
