use msal_browser::account::AccountInfo;
use msal_browser::requests::{
    AuthorizationUrlRequest, EndSessionRequest, Prompt, RedirectRequest, ResponseMode,
    SetAuthorizationUrlRequest, SetBaseAuthrequest, SilentRequest,
};
use msal_browser::settings::{Setting, SettingField, SettingValue};

const SCOPE: &str = "scope";
const AUTHORITY: &str = "authority";
const CORRELATION_ID: &str = "correlation_id";
const POST_LOGOUT_URI: &str = "POST_LOGOUT_URI";
const REDIRECT_URI: &str = "redirect_uri";

fn account() -> AccountInfo {
    AccountInfo::new(
        "home_account_id".to_string(),
        "environment".to_string(),
        "tenant_id".to_string(),
        "username".to_string(),
    )
}

fn text(field: SettingField, s: &str) -> Setting {
    Setting { field, value: SettingValue::Text(s.to_string()) }
}

#[test]
fn response_mode_and_prompt_names() {
    assert_eq!(ResponseMode::Query.as_str(), "query");
    assert_eq!(ResponseMode::Fragment.as_str(), "fragment");
    assert_eq!(ResponseMode::FormPost.as_str(), "form_post");
    assert_eq!(Prompt::Login.as_str(), "login");
    assert_eq!(Prompt::NoInteraction.as_str(), "none");
    assert_eq!(Prompt::Consent.as_str(), "consent");
    assert_eq!(Prompt::SelectAccount.as_str(), "select_account");
}

#[test]
fn mirror_auth_url_request() {
    let req = AuthorizationUrlRequest::new(&[SCOPE][..]);
    assert_eq!(req.base_request.scopes, vec![SCOPE.to_string()]);
    assert!(req.settings().is_empty());
}

#[test]
fn auth_url_request_settings_follow_field_order() {
    let req = AuthorizationUrlRequest::new(&["openid", "profile"][..])
        .set_nonce("n-1")
        .set_prompt(Prompt::SelectAccount)
        .set_extra_query_parameters(&[("dc", "ESTS-PUB-WUS2-AZ1")][..])
        .set_correlation_id(CORRELATION_ID)
        .set_response_mode(ResponseMode::Fragment)
        .set_extra_scopes_to_consent(&["User.Read"][..])
        .set_state("state-1")
        .set_authority(AUTHORITY);
    assert_eq!(req.base_request.scopes, vec!["openid".to_string(), "profile".to_string()]);
    assert_eq!(
        req.settings(),
        vec![
            text(SettingField::Authority, AUTHORITY),
            text(SettingField::CorrelationId, CORRELATION_ID),
            Setting { field: SettingField::ExtraScopesToConsent, value: SettingValue::Texts(vec!["User.Read".to_string()]) },
            text(SettingField::ResponseMode, "fragment"),
            text(SettingField::State, "state-1"),
            text(SettingField::Prompt, "select_account"),
            Setting {
                field: SettingField::ExtraQueryParameters,
                value: SettingValue::Pairs(vec![("dc".to_string(), "ESTS-PUB-WUS2-AZ1".to_string())]),
            },
            text(SettingField::Nonce, "n-1"),
        ]
    );
}

#[test]
fn last_write_wins() {
    let req = AuthorizationUrlRequest::new(&[SCOPE][..]).set_login_hint("a").set_login_hint("b");
    assert_eq!(req.login_hint, Some("b".to_string()));
    assert_eq!(req.settings(), vec![text(SettingField::LoginHint, "b")]);
}

#[test]
fn mirror_redirect_request() {
    let mut req = RedirectRequest::new(&[SCOPE][..])
        .set_redirect_uri(REDIRECT_URI)
        .set_domain_hint("contoso.com")
        .set_code_challenge("challenge")
        .set_code_challenge_method("S256")
        .set_claims("{}")
        .set_authority(AUTHORITY);
    req.redirect_start_page = Some("https://start".to_string());
    assert_eq!(
        req.settings(),
        vec![
            text(SettingField::Authority, AUTHORITY),
            text(SettingField::RedirectUri, REDIRECT_URI),
            text(SettingField::CodeChallenge, "challenge"),
            text(SettingField::CodeChallengeMethod, "S256"),
            text(SettingField::DomainHint, "contoso.com"),
            text(SettingField::Claims, "{}"),
            text(SettingField::RedirectStartPage, "https://start"),
        ]
    );
}

#[test]
fn mirror_silent_request() {
    let account = account();
    let req = SilentRequest::new(&[SCOPE][..], &account)
        .set_force_refresh(true)
        .set_redirect_uri(REDIRECT_URI)
        .set_correlation_id(CORRELATION_ID)
        .set_authority(AUTHORITY);
    assert_eq!(req.base_request.scopes, vec![SCOPE.to_string()]);
    assert_eq!(req.base_request.correlation_id.as_deref(), Some(CORRELATION_ID));
    assert_eq!(req.base_request.authority.as_deref(), Some(AUTHORITY));
    assert_eq!(req.account.home_account_id(), "home_account_id");
    assert_eq!(req.account.environment(), "environment");
    assert_eq!(req.account.tenant_id(), "tenant_id");
    assert_eq!(req.account.username(), "username");
    assert_eq!(req.force_refresh, Some(true));
    assert_eq!(req.redirect_uri.as_deref(), Some(REDIRECT_URI));
    assert_eq!(
        req.settings(),
        vec![
            text(SettingField::Authority, AUTHORITY),
            text(SettingField::CorrelationId, CORRELATION_ID),
            Setting { field: SettingField::ForceRefresh, value: SettingValue::Flag(true) },
            text(SettingField::RedirectUri, REDIRECT_URI),
        ]
    );
}

#[test]
fn mirror_end_session_request() {
    let account = account();
    let req = EndSessionRequest::default()
        .set_account(&account)
        .set_authority(AUTHORITY)
        .set_correlation_id(CORRELATION_ID)
        .set_post_logout_redirect_uri(POST_LOGOUT_URI);
    assert_eq!(req.correlation_id.as_deref(), Some(CORRELATION_ID));
    assert_eq!(req.post_logout_redirect_uri.as_deref(), Some(POST_LOGOUT_URI));
    assert_eq!(req.authority.as_deref(), Some(AUTHORITY));
    assert_eq!(req.account.unwrap().username(), "username");
    assert_eq!(
        req.settings(),
        vec![
            text(SettingField::PostLogoutRedirectUri, POST_LOGOUT_URI),
            text(SettingField::Authority, AUTHORITY),
            text(SettingField::CorrelationId, CORRELATION_ID),
        ]
    );
}

#[test]
fn empty_end_session_request_has_no_settings() {
    let req = EndSessionRequest::new();
    assert!(req.account.is_none());
    assert!(req.settings().is_empty());
}

#[test]
fn setting_fields_name_library_properties() {
    assert_eq!(SettingField::CorrelationId.property(), "correlationId");
    assert_eq!(SettingField::ExtraScopesToConsent.property(), "extraScopesToConsent");
    assert_eq!(SettingField::CloudDiscoveryMetadata.property(), "cloudDiscoveryMetadata");
    assert_eq!(SettingField::NavigateToLoginRequestUrl.property(), "navigateToLoginRequestUrl");
    assert_eq!(SettingField::StoreAuthStateInCookie.property(), "storeAuthStateInCookie");
    assert_eq!(SettingField::TokenRenewalOffsetSeconds.property(), "tokenRenewalOffsetSeconds");
    assert_eq!(SettingField::RedirectStartPage.property(), "redirectStartPage");
}
