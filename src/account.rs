//! Accounts and authentication results, as plain values taken over from
//! the authentication library.
use vstd::prelude::*;
use crate::settings::{opt_text, texts};
use crate::claims::{decode_bag, ClaimValue, MismatchPolicy, TokenClaim, TokenClaims};

verus! {

/// An account known to the client application.
#[derive(Clone, Debug, PartialEq)]
pub struct AccountInfo {
    home_account_id: String,
    environment: String,
    tenant_id: String,
    username: String,
}

pub struct AccountInfoView {
    pub home_account_id: Seq<char>,
    pub environment: Seq<char>,
    pub tenant_id: Seq<char>,
    pub username: Seq<char>,
}

impl View for AccountInfo {
    type V = AccountInfoView;

    closed spec fn view(&self) -> AccountInfoView {
        AccountInfoView {
            home_account_id: self.home_account_id@,
            environment: self.environment@,
            tenant_id: self.tenant_id@,
            username: self.username@,
        }
    }
}

impl AccountInfo {
    pub fn new(home_account_id: String, environment: String, tenant_id: String, username: String) -> (r: AccountInfo)
        ensures
            r@ == (AccountInfoView {
                home_account_id: home_account_id@,
                environment: environment@,
                tenant_id: tenant_id@,
                username: username@,
            }),
    {
        AccountInfo { home_account_id, environment, tenant_id, username }
    }

    pub fn home_account_id(&self) -> (r: &str)
        ensures
            r@ == self@.home_account_id,
    {
        self.home_account_id.as_str()
    }

    pub fn environment(&self) -> (r: &str)
        ensures
            r@ == self@.environment,
    {
        self.environment.as_str()
    }

    pub fn tenant_id(&self) -> (r: &str)
        ensures
            r@ == self@.tenant_id,
    {
        self.tenant_id.as_str()
    }

    pub fn username(&self) -> (r: &str)
        ensures
            r@ == self@.username,
    {
        self.username.as_str()
    }
}

/// A point in time as milliseconds since the Unix epoch, as the host's dates
/// count it.
#[derive(Clone, Copy, Debug, PartialEq, Eq, Structural)]
pub struct EpochMillis {
    pub millis: i64,
}

/// An authentication result as the host hands it over, its id-token claims
/// still an undecoded bag.
pub struct RawAuthenticationResult {
    pub unique_id: String,
    pub tenant_id: String,
    pub scopes: Vec<String>,
    pub account: AccountInfo,
    pub id_token: String,
    pub id_token_claims: Vec<(String, ClaimValue)>,
    pub access_token: String,
    pub from_cache: bool,
    pub expires_on: EpochMillis,
    pub ext_expires_on: Option<EpochMillis>,
    pub state: Option<String>,
    pub family_id: Option<String>,
}

/// The result of a completed authentication.
#[derive(Debug, PartialEq)]
pub struct AuthenticationResult {
    unique_id: String,
    tenant_id: String,
    scopes: Vec<String>,
    account: AccountInfo,
    id_token: String,
    id_token_claims: TokenClaims,
    access_token: String,
    from_cache: bool,
    expires_on: EpochMillis,
    ext_expires_on: Option<EpochMillis>,
    state: Option<String>,
    family_id: Option<String>,
}

pub struct AuthenticationResultView {
    pub unique_id: Seq<char>,
    pub tenant_id: Seq<char>,
    pub scopes: Seq<Seq<char>>,
    pub account: AccountInfoView,
    pub id_token: Seq<char>,
    pub id_token_claims: Seq<TokenClaim>,
    pub access_token: Seq<char>,
    pub from_cache: bool,
    pub expires_on: EpochMillis,
    pub ext_expires_on: Option<EpochMillis>,
    pub state: Option<Seq<char>>,
    pub family_id: Option<Seq<char>>,
}

impl View for AuthenticationResult {
    type V = AuthenticationResultView;

    closed spec fn view(&self) -> AuthenticationResultView {
        AuthenticationResultView {
            unique_id: self.unique_id@,
            tenant_id: self.tenant_id@,
            scopes: texts(self.scopes@),
            account: self.account@,
            id_token: self.id_token@,
            id_token_claims: self.id_token_claims.0@,
            access_token: self.access_token@,
            from_cache: self.from_cache,
            expires_on: self.expires_on,
            ext_expires_on: self.ext_expires_on,
            state: opt_text(self.state),
            family_id: opt_text(self.family_id),
        }
    }
}

/// The optional text behind an optional string, borrowed.
fn borrow_text(o: &Option<String>) -> (r: Option<&str>)
    ensures
        r matches Some(s) ==> opt_text(*o) == Some(s@),
        r is None <==> o is None,
{
    match o {
        Some(s) => Some(s.as_str()),
        None => None,
    }
}

impl AuthenticationResult {
    /// The view of the result that a raw result gives, its id-token claims
    /// decoded with `policy`.
    pub open spec fn from_raw_view(raw: RawAuthenticationResult, policy: MismatchPolicy) -> AuthenticationResultView {
        AuthenticationResultView {
            unique_id: raw.unique_id@,
            tenant_id: raw.tenant_id@,
            scopes: texts(raw.scopes@),
            account: raw.account@,
            id_token: raw.id_token@,
            id_token_claims: decode_bag(raw.id_token_claims@, policy),
            access_token: raw.access_token@,
            from_cache: raw.from_cache,
            expires_on: raw.expires_on,
            ext_expires_on: raw.ext_expires_on,
            state: opt_text(raw.state),
            family_id: opt_text(raw.family_id),
        }
    }

    /// Takes over a raw result, decoding its id-token claims with `policy`.
    pub fn from_raw(raw: RawAuthenticationResult, policy: MismatchPolicy) -> (r: AuthenticationResult)
        ensures
            r@ == AuthenticationResult::from_raw_view(raw, policy),
    {
        AuthenticationResult {
            unique_id: raw.unique_id,
            tenant_id: raw.tenant_id,
            scopes: raw.scopes,
            account: raw.account,
            id_token: raw.id_token,
            id_token_claims: TokenClaims::decode(raw.id_token_claims, policy),
            access_token: raw.access_token,
            from_cache: raw.from_cache,
            expires_on: raw.expires_on,
            ext_expires_on: raw.ext_expires_on,
            state: raw.state,
            family_id: raw.family_id,
        }
    }

    pub fn unique_id(&self) -> (r: &str)
        ensures
            r@ == self@.unique_id,
    {
        self.unique_id.as_str()
    }

    pub fn tenant_id(&self) -> (r: &str)
        ensures
            r@ == self@.tenant_id,
    {
        self.tenant_id.as_str()
    }

    pub fn scopes(&self) -> (r: &Vec<String>)
        ensures
            texts(r@) == self@.scopes,
    {
        &self.scopes
    }

    pub fn account(&self) -> (r: &AccountInfo)
        ensures
            r@ == self@.account,
    {
        &self.account
    }

    pub fn id_token(&self) -> (r: &str)
        ensures
            r@ == self@.id_token,
    {
        self.id_token.as_str()
    }

    pub fn id_token_claims(&self) -> (r: &TokenClaims)
        ensures
            r.0@ == self@.id_token_claims,
    {
        &self.id_token_claims
    }

    pub fn access_token(&self) -> (r: &str)
        ensures
            r@ == self@.access_token,
    {
        self.access_token.as_str()
    }

    pub fn from_cache(&self) -> (r: &bool)
        ensures
            *r == self@.from_cache,
    {
        &self.from_cache
    }

    pub fn expires_on(&self) -> (r: &EpochMillis)
        ensures
            *r == self@.expires_on,
    {
        &self.expires_on
    }

    pub fn ext_expires_on(&self) -> (r: Option<&EpochMillis>)
        ensures
            r matches Some(e) ==> self@.ext_expires_on == Some(*e),
            r is None <==> self@.ext_expires_on is None,
    {
        match &self.ext_expires_on {
            Some(e) => Some(e),
            None => None,
        }
    }

    pub fn state(&self) -> (r: Option<&str>)
        ensures
            r matches Some(s) ==> self@.state == Some(s@),
            r is None <==> self@.state is None,
    {
        borrow_text(&self.state)
    }

    pub fn family_id(&self) -> (r: Option<&str>)
        ensures
            r matches Some(s) ==> self@.family_id == Some(s@),
            r is None <==> self@.family_id is None,
    {
        borrow_text(&self.family_id)
    }
}

} // verus!
