use msal_browser::account::{AccountInfo, AuthenticationResult, EpochMillis, RawAuthenticationResult};
use msal_browser::claims::{ClaimValue, MismatchPolicy, TokenClaim};
use msal_browser::redirect::{after_redirect_check, RedirectCheck, RedirectStep};

fn account() -> AccountInfo {
    AccountInfo::new(
        "home_account_id".to_string(),
        "environment".to_string(),
        "tenant_id".to_string(),
        "username".to_string(),
    )
}

fn raw() -> RawAuthenticationResult {
    RawAuthenticationResult {
        unique_id: "unique".to_string(),
        tenant_id: "tenant".to_string(),
        scopes: vec!["openid".to_string(), "profile".to_string()],
        account: account(),
        id_token: "header.payload.signature".to_string(),
        id_token_claims: vec![
            ("alg".to_string(), ClaimValue::Text("RS256".to_string())),
            ("exp".to_string(), ClaimValue::Text("soon".to_string())),
        ],
        access_token: "access".to_string(),
        from_cache: true,
        expires_on: EpochMillis { millis: 1_536_365_311_000 },
        ext_expires_on: None,
        state: Some("state".to_string()),
        family_id: None,
    }
}

#[test]
fn mirror_account_info() {
    let a = account();
    assert_eq!(a.home_account_id(), "home_account_id");
    assert_eq!(a.environment(), "environment");
    assert_eq!(a.tenant_id(), "tenant_id");
    assert_eq!(a.username(), "username");
    assert_eq!(a, account());
}

#[test]
fn authentication_result_keeps_fields_and_decodes_claims() {
    let r = AuthenticationResult::from_raw(raw(), MismatchPolicy::KeepAsCustom);
    assert_eq!(r.unique_id(), "unique");
    assert_eq!(r.tenant_id(), "tenant");
    assert_eq!(r.scopes(), &vec!["openid".to_string(), "profile".to_string()]);
    assert_eq!(r.account(), &account());
    assert_eq!(r.id_token(), "header.payload.signature");
    assert_eq!(r.access_token(), "access");
    assert!(*r.from_cache());
    assert_eq!(r.expires_on().millis, 1_536_365_311_000);
    assert!(r.ext_expires_on().is_none());
    assert_eq!(r.state(), Some("state"));
    assert_eq!(r.family_id(), None);
    assert_eq!(
        r.id_token_claims().0,
        vec![
            TokenClaim::alg("RS256".to_string()),
            TokenClaim::custom("exp".to_string(), ClaimValue::Text("soon".to_string())),
        ]
    );
    let dropped = AuthenticationResult::from_raw(raw(), MismatchPolicy::Drop);
    assert_eq!(dropped.id_token_claims().0, vec![TokenClaim::alg("RS256".to_string())]);
}

#[test]
fn redirect_check_decides_the_next_step() {
    assert!(matches!(after_redirect_check(RedirectCheck::Failed, MismatchPolicy::default()), RedirectStep::Stop));
    assert!(matches!(after_redirect_check(RedirectCheck::NotReturning, MismatchPolicy::default()), RedirectStep::StartLogin));
    match after_redirect_check(RedirectCheck::Returned(raw()), MismatchPolicy::Drop) {
        RedirectStep::Deliver(result) => {
            assert_eq!(result.unique_id(), "unique");
            assert_eq!(result.id_token_claims().0.len(), 1);
        }
        _ => panic!("a returning redirect must deliver its result"),
    }
}
