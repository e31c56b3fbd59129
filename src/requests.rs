//! The token requests of the interactive, silent and sign-out flows, and the
//! settings each hands to the authentication library.
use vstd::prelude::*;
use crate::account::AccountInfo;
use crate::settings::{
    opt_text, optional, owned_pairs, owned_texts, pairs, pairs_value, push_flag, push_pairs,
    push_text, push_texts, str_pairs, strs, text_value, texts, texts_value, flag_value, views,
    Setting, SettingField, SettingValue, SettingValueView, SettingView,
};

verus! {

/// How the authorization server returns its response.
#[derive(Clone, Copy, Debug, PartialEq, Eq, Structural)]
pub enum ResponseMode {
    Query,
    Fragment,
    FormPost,
}

pub open spec fn response_mode_text(mode: ResponseMode) -> Seq<char> {
    match mode {
        ResponseMode::Query => "query"@,
        ResponseMode::Fragment => "fragment"@,
        ResponseMode::FormPost => "form_post"@,
    }
}

impl ResponseMode {
    /// The name the authentication library uses for the mode.
    pub fn as_str(&self) -> (r: &'static str)
        ensures
            r@ == response_mode_text(*self),
    {
        match self {
            ResponseMode::Query => "query",
            ResponseMode::Fragment => "fragment",
            ResponseMode::FormPost => "form_post",
        }
    }
}

/// The kind of interaction the authorization server asks of the user.
#[derive(Clone, Copy, Debug, PartialEq, Eq, Structural)]
pub enum Prompt {
    Login,
    NoInteraction,
    Consent,
    SelectAccount,
}

pub open spec fn prompt_text(prompt: Prompt) -> Seq<char> {
    match prompt {
        Prompt::Login => "login"@,
        Prompt::NoInteraction => "none"@,
        Prompt::Consent => "consent"@,
        Prompt::SelectAccount => "select_account"@,
    }
}

impl Prompt {
    /// The name the authentication library uses for the prompt.
    pub fn as_str(&self) -> (r: &'static str)
        ensures
            r@ == prompt_text(*self),
    {
        match self {
            Prompt::Login => "login",
            Prompt::NoInteraction => "none",
            Prompt::Consent => "consent",
            Prompt::SelectAccount => "select_account",
        }
    }
}

/// The part that every token request shares. The scopes are given when the
/// request is made; the rest is optional.
#[derive(Clone, Debug, PartialEq)]
pub struct BaseAuthRequest {
    pub scopes: Vec<String>,
    pub authority: Option<String>,
    pub correlation_id: Option<String>,
}

/// The settings of the shared part, in the order they are applied.
pub open spec fn base_settings(b: BaseAuthRequest) -> Seq<SettingView> {
    optional(SettingField::Authority, text_value(b.authority))
        + optional(SettingField::CorrelationId, text_value(b.correlation_id))
}

impl BaseAuthRequest {
    pub fn new(scopes: &[&str]) -> (r: BaseAuthRequest)
        ensures
            texts(r.scopes@) == strs(scopes@),
            r.authority is None,
            r.correlation_id is None,
    {
        BaseAuthRequest { scopes: owned_texts(scopes), authority: None, correlation_id: None }
    }

    /// The optional values that are present, in the order they are applied.
    pub fn settings(&self) -> (r: Vec<Setting>)
        ensures
            views(r@) == base_settings(*self),
    {
        let mut out: Vec<Setting> = Vec::new();
        push_text(&mut out, SettingField::Authority, &self.authority);
        push_text(&mut out, SettingField::CorrelationId, &self.correlation_id);
        proof {
            assert(views(out@) =~= base_settings(*self));
        }
        out
    }
}

/// Setters of the shared part of a request.
pub trait SetBaseAuthrequest: Sized {
    /// The request's shared part.
    spec fn base(&self) -> BaseAuthRequest;

    /// Whether two requests agree outside their shared part.
    spec fn agrees_outside_base(&self, other: &Self) -> bool;

    fn set_authority(self, authority: &str) -> (r: Self)
        ensures
            opt_text(r.base().authority) == Some(authority@),
            r.base() == (BaseAuthRequest { authority: r.base().authority, ..self.base() }),
            r.agrees_outside_base(&self),
    ;

    fn set_correlation_id(self, correlation_id: &str) -> (r: Self)
        ensures
            opt_text(r.base().correlation_id) == Some(correlation_id@),
            r.base() == (BaseAuthRequest { correlation_id: r.base().correlation_id, ..self.base() }),
            r.agrees_outside_base(&self),
    ;
}

/// A request for an authorization url, the request of the interactive and
/// single-sign-on flows.
#[derive(Clone, Debug, PartialEq)]
pub struct AuthorizationUrlRequest {
    pub base_request: BaseAuthRequest,
    pub redirect_uri: Option<String>,
    pub extra_scopes_to_consent: Option<Vec<String>>,
    pub response_mode: Option<ResponseMode>,
    pub code_challenge: Option<String>,
    pub code_challenge_method: Option<String>,
    pub state: Option<String>,
    pub prompt: Option<Prompt>,
    pub login_hint: Option<String>,
    pub domain_hint: Option<String>,
    pub extra_query_parameters: Option<Vec<(String, String)>>,
    pub claims: Option<String>,
    pub nonce: Option<String>,
}

pub open spec fn response_mode_value(o: Option<ResponseMode>) -> Option<SettingValueView> {
    match o {
        Some(m) => Some(SettingValueView::Text(response_mode_text(m))),
        None => None,
    }
}

pub open spec fn prompt_value(o: Option<Prompt>) -> Option<SettingValueView> {
    match o {
        Some(p) => Some(SettingValueView::Text(prompt_text(p))),
        None => None,
    }
}

/// The settings of an authorization-url request, in the order they are
/// applied.
pub open spec fn auth_url_settings(a: AuthorizationUrlRequest) -> Seq<SettingView> {
    base_settings(a.base_request)
        + optional(SettingField::RedirectUri, text_value(a.redirect_uri))
        + optional(SettingField::ExtraScopesToConsent, texts_value(a.extra_scopes_to_consent))
        + optional(SettingField::ResponseMode, response_mode_value(a.response_mode))
        + optional(SettingField::CodeChallenge, text_value(a.code_challenge))
        + optional(SettingField::CodeChallengeMethod, text_value(a.code_challenge_method))
        + optional(SettingField::State, text_value(a.state))
        + optional(SettingField::Prompt, prompt_value(a.prompt))
        + optional(SettingField::LoginHint, text_value(a.login_hint))
        + optional(SettingField::DomainHint, text_value(a.domain_hint))
        + optional(SettingField::ExtraQueryParameters, pairs_value(a.extra_query_parameters))
        + optional(SettingField::Claims, text_value(a.claims))
        + optional(SettingField::Nonce, text_value(a.nonce))
}

fn push_response_mode(out: &mut Vec<Setting>, value: Option<ResponseMode>)
    ensures
        views(final(out)@) == views(old(out)@) + optional(SettingField::ResponseMode, response_mode_value(value)),
{
    match value {
        Some(m) => out.push(Setting { field: SettingField::ResponseMode, value: SettingValue::Text(m.as_str().to_owned()) }),
        None => {},
    }
    proof {
        assert(views(final(out)@) =~= views(old(out)@) + optional(SettingField::ResponseMode, response_mode_value(value)));
    }
}

fn push_prompt(out: &mut Vec<Setting>, value: Option<Prompt>)
    ensures
        views(final(out)@) == views(old(out)@) + optional(SettingField::Prompt, prompt_value(value)),
{
    match value {
        Some(p) => out.push(Setting { field: SettingField::Prompt, value: SettingValue::Text(p.as_str().to_owned()) }),
        None => {},
    }
    proof {
        assert(views(final(out)@) =~= views(old(out)@) + optional(SettingField::Prompt, prompt_value(value)));
    }
}

/// An authorization-url request with the given scopes and nothing else set.
pub open spec fn fresh_auth_url_request(scopes: Vec<String>) -> AuthorizationUrlRequest {
    AuthorizationUrlRequest {
        base_request: BaseAuthRequest { scopes, authority: None, correlation_id: None },
        redirect_uri: None,
        extra_scopes_to_consent: None,
        response_mode: None,
        code_challenge: None,
        code_challenge_method: None,
        state: None,
        prompt: None,
        login_hint: None,
        domain_hint: None,
        extra_query_parameters: None,
        claims: None,
        nonce: None,
    }
}

impl AuthorizationUrlRequest {
    pub fn new(scopes: &[&str]) -> (r: AuthorizationUrlRequest)
        ensures
            texts(r.base_request.scopes@) == strs(scopes@),
            r == fresh_auth_url_request(r.base_request.scopes),
    {
        AuthorizationUrlRequest {
            base_request: BaseAuthRequest::new(scopes),
            redirect_uri: None,
            extra_scopes_to_consent: None,
            response_mode: None,
            code_challenge: None,
            code_challenge_method: None,
            state: None,
            prompt: None,
            login_hint: None,
            domain_hint: None,
            extra_query_parameters: None,
            claims: None,
            nonce: None,
        }
    }

    /// The optional values that are present, in the order they are applied.
    pub fn settings(&self) -> (r: Vec<Setting>)
        ensures
            views(r@) == auth_url_settings(*self),
    {
        let mut out = self.base_request.settings();
        push_text(&mut out, SettingField::RedirectUri, &self.redirect_uri);
        push_texts(&mut out, SettingField::ExtraScopesToConsent, &self.extra_scopes_to_consent);
        push_response_mode(&mut out, self.response_mode);
        push_text(&mut out, SettingField::CodeChallenge, &self.code_challenge);
        push_text(&mut out, SettingField::CodeChallengeMethod, &self.code_challenge_method);
        push_text(&mut out, SettingField::State, &self.state);
        push_prompt(&mut out, self.prompt);
        push_text(&mut out, SettingField::LoginHint, &self.login_hint);
        push_text(&mut out, SettingField::DomainHint, &self.domain_hint);
        push_pairs(&mut out, SettingField::ExtraQueryParameters, &self.extra_query_parameters);
        push_text(&mut out, SettingField::Claims, &self.claims);
        push_text(&mut out, SettingField::Nonce, &self.nonce);
        out
    }
}

impl SetBaseAuthrequest for AuthorizationUrlRequest {
    open spec fn base(&self) -> BaseAuthRequest {
        self.base_request
    }

    open spec fn agrees_outside_base(&self, other: &Self) -> bool {
        (AuthorizationUrlRequest { base_request: other.base_request, ..*self }) == *other
    }

    fn set_authority(self, authority: &str) -> Self {
        let mut r = self;
        r.base_request.authority = Some(authority.to_owned());
        r
    }

    fn set_correlation_id(self, correlation_id: &str) -> Self {
        let mut r = self;
        r.base_request.correlation_id = Some(correlation_id.to_owned());
        r
    }
}

/// A request for the redirect flow: an authorization-url request and the
/// page to come back to.
#[derive(Clone, Debug, PartialEq)]
pub struct RedirectRequest {
    pub auth_url_req: AuthorizationUrlRequest,
    pub redirect_start_page: Option<String>,
}

/// The settings of a redirect request, in the order they are applied.
pub open spec fn redirect_settings(r: RedirectRequest) -> Seq<SettingView> {
    auth_url_settings(r.auth_url_req) + optional(SettingField::RedirectStartPage, text_value(r.redirect_start_page))
}

impl RedirectRequest {
    pub fn new(scopes: &[&str]) -> (r: RedirectRequest)
        ensures
            r.auth_url_req == fresh_auth_url_request(r.auth_url_req.base_request.scopes),
            texts(r.auth_url_req.base_request.scopes@) == strs(scopes@),
            r.redirect_start_page is None,
    {
        RedirectRequest { auth_url_req: AuthorizationUrlRequest::new(scopes), redirect_start_page: None }
    }

    /// The optional values that are present, in the order they are applied.
    pub fn settings(&self) -> (r: Vec<Setting>)
        ensures
            views(r@) == redirect_settings(*self),
    {
        let mut out = self.auth_url_req.settings();
        push_text(&mut out, SettingField::RedirectStartPage, &self.redirect_start_page);
        out
    }
}

impl SetBaseAuthrequest for RedirectRequest {
    open spec fn base(&self) -> BaseAuthRequest {
        self.auth_url_req.base_request
    }

    open spec fn agrees_outside_base(&self, other: &Self) -> bool {
        self.redirect_start_page == other.redirect_start_page
            && self.auth_url_req.agrees_outside_base(&other.auth_url_req)
    }

    fn set_authority(self, authority: &str) -> Self {
        let mut r = self;
        r.auth_url_req.base_request.authority = Some(authority.to_owned());
        r
    }

    fn set_correlation_id(self, correlation_id: &str) -> Self {
        let mut r = self;
        r.auth_url_req.base_request.correlation_id = Some(correlation_id.to_owned());
        r
    }
}

pub trait SetAuthorizationUrlRequest: Sized {
    /// The request's authorization-url part.
    spec fn auth(&self) -> AuthorizationUrlRequest;

    /// Whether two requests agree outside their authorization-url part.
    spec fn agrees_outside_auth(&self, other: &Self) -> bool;

    fn set_redirect_uri(self, redirect_uri: &str) -> (r: Self)
        ensures
            opt_text(r.auth().redirect_uri) == Some(redirect_uri@),
            r.auth() == (AuthorizationUrlRequest { redirect_uri: r.auth().redirect_uri, ..self.auth() }),
            r.agrees_outside_auth(&self),
    ;

    fn set_extra_scopes_to_consent(self, extra_scopes_to_consent: &[&str]) -> (r: Self)
        ensures
            r.auth().extra_scopes_to_consent matches Some(v) && texts(v@) == strs(extra_scopes_to_consent@),
            r.auth() == (AuthorizationUrlRequest { extra_scopes_to_consent: r.auth().extra_scopes_to_consent, ..self.auth() }),
            r.agrees_outside_auth(&self),
    ;

    fn set_response_mode(self, response_mode: ResponseMode) -> (r: Self)
        ensures
            r.auth() == (AuthorizationUrlRequest { response_mode: Some(response_mode), ..self.auth() }),
            r.agrees_outside_auth(&self),
    ;

    fn set_code_challenge(self, code_challenge: &str) -> (r: Self)
        ensures
            opt_text(r.auth().code_challenge) == Some(code_challenge@),
            r.auth() == (AuthorizationUrlRequest { code_challenge: r.auth().code_challenge, ..self.auth() }),
            r.agrees_outside_auth(&self),
    ;

    fn set_code_challenge_method(self, code_challenge_method: &str) -> (r: Self)
        ensures
            opt_text(r.auth().code_challenge_method) == Some(code_challenge_method@),
            r.auth() == (AuthorizationUrlRequest { code_challenge_method: r.auth().code_challenge_method, ..self.auth() }),
            r.agrees_outside_auth(&self),
    ;

    fn set_state(self, state: &str) -> (r: Self)
        ensures
            opt_text(r.auth().state) == Some(state@),
            r.auth() == (AuthorizationUrlRequest { state: r.auth().state, ..self.auth() }),
            r.agrees_outside_auth(&self),
    ;

    fn set_prompt(self, prompt: Prompt) -> (r: Self)
        ensures
            r.auth() == (AuthorizationUrlRequest { prompt: Some(prompt), ..self.auth() }),
            r.agrees_outside_auth(&self),
    ;

    fn set_login_hint(self, login_hint: &str) -> (r: Self)
        ensures
            opt_text(r.auth().login_hint) == Some(login_hint@),
            r.auth() == (AuthorizationUrlRequest { login_hint: r.auth().login_hint, ..self.auth() }),
            r.agrees_outside_auth(&self),
    ;

    fn set_domain_hint(self, domain_hint: &str) -> (r: Self)
        ensures
            opt_text(r.auth().domain_hint) == Some(domain_hint@),
            r.auth() == (AuthorizationUrlRequest { domain_hint: r.auth().domain_hint, ..self.auth() }),
            r.agrees_outside_auth(&self),
    ;

    fn set_extra_query_parameters(self, extra_query_parameters: &[(&str, &str)]) -> (r: Self)
        ensures
            r.auth().extra_query_parameters matches Some(v) && pairs(v@) == str_pairs(extra_query_parameters@),
            r.auth() == (AuthorizationUrlRequest { extra_query_parameters: r.auth().extra_query_parameters, ..self.auth() }),
            r.agrees_outside_auth(&self),
    ;

    fn set_claims(self, claims: &str) -> (r: Self)
        ensures
            opt_text(r.auth().claims) == Some(claims@),
            r.auth() == (AuthorizationUrlRequest { claims: r.auth().claims, ..self.auth() }),
            r.agrees_outside_auth(&self),
    ;

    fn set_nonce(self, nonce: &str) -> (r: Self)
        ensures
            opt_text(r.auth().nonce) == Some(nonce@),
            r.auth() == (AuthorizationUrlRequest { nonce: r.auth().nonce, ..self.auth() }),
            r.agrees_outside_auth(&self),
    ;

}

impl SetAuthorizationUrlRequest for AuthorizationUrlRequest {
    open spec fn auth(&self) -> AuthorizationUrlRequest {
        *self
    }

    open spec fn agrees_outside_auth(&self, other: &Self) -> bool {
        true
    }

    fn set_redirect_uri(self, redirect_uri: &str) -> Self {
        let mut r = self;
        r.redirect_uri = Some(redirect_uri.to_owned());
        r
    }

    fn set_extra_scopes_to_consent(self, extra_scopes_to_consent: &[&str]) -> Self {
        let mut r = self;
        r.extra_scopes_to_consent = Some(owned_texts(extra_scopes_to_consent));
        r
    }

    fn set_response_mode(self, response_mode: ResponseMode) -> Self {
        let mut r = self;
        r.response_mode = Some(response_mode);
        r
    }

    fn set_code_challenge(self, code_challenge: &str) -> Self {
        let mut r = self;
        r.code_challenge = Some(code_challenge.to_owned());
        r
    }

    fn set_code_challenge_method(self, code_challenge_method: &str) -> Self {
        let mut r = self;
        r.code_challenge_method = Some(code_challenge_method.to_owned());
        r
    }

    fn set_state(self, state: &str) -> Self {
        let mut r = self;
        r.state = Some(state.to_owned());
        r
    }

    fn set_prompt(self, prompt: Prompt) -> Self {
        let mut r = self;
        r.prompt = Some(prompt);
        r
    }

    fn set_login_hint(self, login_hint: &str) -> Self {
        let mut r = self;
        r.login_hint = Some(login_hint.to_owned());
        r
    }

    fn set_domain_hint(self, domain_hint: &str) -> Self {
        let mut r = self;
        r.domain_hint = Some(domain_hint.to_owned());
        r
    }

    fn set_extra_query_parameters(self, extra_query_parameters: &[(&str, &str)]) -> Self {
        let mut r = self;
        r.extra_query_parameters = Some(owned_pairs(extra_query_parameters));
        r
    }

    fn set_claims(self, claims: &str) -> Self {
        let mut r = self;
        r.claims = Some(claims.to_owned());
        r
    }

    fn set_nonce(self, nonce: &str) -> Self {
        let mut r = self;
        r.nonce = Some(nonce.to_owned());
        r
    }

}

impl SetAuthorizationUrlRequest for RedirectRequest {
    open spec fn auth(&self) -> AuthorizationUrlRequest {
        self.auth_url_req
    }

    open spec fn agrees_outside_auth(&self, other: &Self) -> bool {
        self.redirect_start_page == other.redirect_start_page
    }

    fn set_redirect_uri(self, redirect_uri: &str) -> Self {
        let mut r = self;
        r.auth_url_req.redirect_uri = Some(redirect_uri.to_owned());
        r
    }

    fn set_extra_scopes_to_consent(self, extra_scopes_to_consent: &[&str]) -> Self {
        let mut r = self;
        r.auth_url_req.extra_scopes_to_consent = Some(owned_texts(extra_scopes_to_consent));
        r
    }

    fn set_response_mode(self, response_mode: ResponseMode) -> Self {
        let mut r = self;
        r.auth_url_req.response_mode = Some(response_mode);
        r
    }

    fn set_code_challenge(self, code_challenge: &str) -> Self {
        let mut r = self;
        r.auth_url_req.code_challenge = Some(code_challenge.to_owned());
        r
    }

    fn set_code_challenge_method(self, code_challenge_method: &str) -> Self {
        let mut r = self;
        r.auth_url_req.code_challenge_method = Some(code_challenge_method.to_owned());
        r
    }

    fn set_state(self, state: &str) -> Self {
        let mut r = self;
        r.auth_url_req.state = Some(state.to_owned());
        r
    }

    fn set_prompt(self, prompt: Prompt) -> Self {
        let mut r = self;
        r.auth_url_req.prompt = Some(prompt);
        r
    }

    fn set_login_hint(self, login_hint: &str) -> Self {
        let mut r = self;
        r.auth_url_req.login_hint = Some(login_hint.to_owned());
        r
    }

    fn set_domain_hint(self, domain_hint: &str) -> Self {
        let mut r = self;
        r.auth_url_req.domain_hint = Some(domain_hint.to_owned());
        r
    }

    fn set_extra_query_parameters(self, extra_query_parameters: &[(&str, &str)]) -> Self {
        let mut r = self;
        r.auth_url_req.extra_query_parameters = Some(owned_pairs(extra_query_parameters));
        r
    }

    fn set_claims(self, claims: &str) -> Self {
        let mut r = self;
        r.auth_url_req.claims = Some(claims.to_owned());
        r
    }

    fn set_nonce(self, nonce: &str) -> Self {
        let mut r = self;
        r.auth_url_req.nonce = Some(nonce.to_owned());
        r
    }

}
/// A request for a token from the cache or by a hidden refresh, for an
/// account already signed in.
#[derive(Clone, Debug, PartialEq)]
pub struct SilentRequest<'a> {
    pub base_request: BaseAuthRequest,
    pub account: &'a AccountInfo,
    pub force_refresh: Option<bool>,
    pub redirect_uri: Option<String>,
}

/// The settings of a silent request, in the order they are applied; the
/// account is given when the library's request is made.
pub open spec fn silent_settings(r: SilentRequest) -> Seq<SettingView> {
    base_settings(r.base_request)
        + optional(SettingField::ForceRefresh, flag_value(r.force_refresh))
        + optional(SettingField::RedirectUri, text_value(r.redirect_uri))
}

impl<'a> SilentRequest<'a> {
    pub fn new(scopes: &[&str], account_info: &'a AccountInfo) -> (r: SilentRequest<'a>)
        ensures
            texts(r.base_request.scopes@) == strs(scopes@),
            r.base_request.authority is None,
            r.base_request.correlation_id is None,
            r.account == account_info,
            r.force_refresh is None,
            r.redirect_uri is None,
    {
        SilentRequest {
            base_request: BaseAuthRequest::new(scopes),
            account: account_info,
            force_refresh: None,
            redirect_uri: None,
        }
    }

    pub fn set_force_refresh(self, force_refresh: bool) -> (r: Self)
        ensures
            r == (SilentRequest { force_refresh: Some(force_refresh), ..self }),
    {
        let mut r = self;
        r.force_refresh = Some(force_refresh);
        r
    }

    pub fn set_redirect_uri(self, redirect_uri: &str) -> (r: Self)
        ensures
            opt_text(r.redirect_uri) == Some(redirect_uri@),
            r == (SilentRequest { redirect_uri: r.redirect_uri, ..self }),
    {
        let mut r = self;
        r.redirect_uri = Some(redirect_uri.to_owned());
        r
    }

    /// The optional values that are present, in the order they are applied.
    pub fn settings(&self) -> (r: Vec<Setting>)
        ensures
            views(r@) == silent_settings(*self),
    {
        let mut out = self.base_request.settings();
        push_flag(&mut out, SettingField::ForceRefresh, self.force_refresh);
        push_text(&mut out, SettingField::RedirectUri, &self.redirect_uri);
        out
    }
}

impl<'a> SetBaseAuthrequest for SilentRequest<'a> {
    open spec fn base(&self) -> BaseAuthRequest {
        self.base_request
    }

    open spec fn agrees_outside_base(&self, other: &Self) -> bool {
        (SilentRequest { base_request: other.base_request, ..*self }) == *other
    }

    fn set_authority(self, authority: &str) -> Self {
        let mut r = self;
        r.base_request.authority = Some(authority.to_owned());
        r
    }

    fn set_correlation_id(self, correlation_id: &str) -> Self {
        let mut r = self;
        r.base_request.correlation_id = Some(correlation_id.to_owned());
        r
    }
}

/// A request to sign out, everything in it optional.
#[derive(Clone, Debug, PartialEq)]
pub struct EndSessionRequest<'a> {
    pub account: Option<&'a AccountInfo>,
    pub post_logout_redirect_uri: Option<String>,
    pub authority: Option<String>,
    pub correlation_id: Option<String>,
}

/// The settings of a sign-out request, in the order they are applied; the
/// account is handed over as an object of its own.
pub open spec fn end_session_settings(r: EndSessionRequest) -> Seq<SettingView> {
    optional(SettingField::PostLogoutRedirectUri, text_value(r.post_logout_redirect_uri))
        + optional(SettingField::Authority, text_value(r.authority))
        + optional(SettingField::CorrelationId, text_value(r.correlation_id))
}

impl<'a> Default for EndSessionRequest<'a> {
    fn default() -> (r: Self)
        ensures
            r == (EndSessionRequest { account: None, post_logout_redirect_uri: None, authority: None, correlation_id: None }),
    {
        EndSessionRequest { account: None, post_logout_redirect_uri: None, authority: None, correlation_id: None }
    }
}

impl<'a> EndSessionRequest<'a> {
    pub fn new() -> (r: Self)
        ensures
            r == (EndSessionRequest { account: None, post_logout_redirect_uri: None, authority: None, correlation_id: None }),
    {
        EndSessionRequest { account: None, post_logout_redirect_uri: None, authority: None, correlation_id: None }
    }

    pub fn set_account(self, account: &'a AccountInfo) -> (r: Self)
        ensures
            r == (EndSessionRequest { account: Some(account), ..self }),
    {
        let mut r = self;
        r.account = Some(account);
        r
    }

    pub fn set_post_logout_redirect_uri(self, post_logout_redirect_uri: &str) -> (r: Self)
        ensures
            opt_text(r.post_logout_redirect_uri) == Some(post_logout_redirect_uri@),
            r == (EndSessionRequest { post_logout_redirect_uri: r.post_logout_redirect_uri, ..self }),
    {
        let mut r = self;
        r.post_logout_redirect_uri = Some(post_logout_redirect_uri.to_owned());
        r
    }

    pub fn set_authority(self, authority: &str) -> (r: Self)
        ensures
            opt_text(r.authority) == Some(authority@),
            r == (EndSessionRequest { authority: r.authority, ..self }),
    {
        let mut r = self;
        r.authority = Some(authority.to_owned());
        r
    }

    pub fn set_correlation_id(self, correlation_id: &str) -> (r: Self)
        ensures
            opt_text(r.correlation_id) == Some(correlation_id@),
            r == (EndSessionRequest { correlation_id: r.correlation_id, ..self }),
    {
        let mut r = self;
        r.correlation_id = Some(correlation_id.to_owned());
        r
    }

    /// The optional values that are present, in the order they are applied.
    pub fn settings(&self) -> (r: Vec<Setting>)
        ensures
            views(r@) == end_session_settings(*self),
    {
        let mut out: Vec<Setting> = Vec::new();
        push_text(&mut out, SettingField::PostLogoutRedirectUri, &self.post_logout_redirect_uri);
        push_text(&mut out, SettingField::Authority, &self.authority);
        push_text(&mut out, SettingField::CorrelationId, &self.correlation_id);
        proof {
            assert(views(out@) =~= end_session_settings(*self));
        }
        out
    }
}

} // verus!
