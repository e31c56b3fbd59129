use msal_browser::options::{
    BrowserAuthOptions, BrowserSystemOptions, CacheLocation, CacheOptions, Configuration, LogLevel,
    LoggerOptions,
};
use msal_browser::settings::{Setting, SettingField, SettingValue};

const CLIENT_ID: &str = "MY_CLIENT_ID";
const REDIRECT_URI: &str = "MY_REDIRECT_URI";
const AUTHORITY: &str = "authority";
const CLOUD_DISCOVERY_METADATA: &str = "CLOUD_DISCOVERY_METADATA";
const KNOWN_AUTHORITIES: [&str; 1] = ["KNOWN_AUTHORITIES"];
const NAVIGATE_TO_LOGIN_REQUEST_URL: bool = true;
const POST_LOGOUT_REDIRECT_URI: &str = "POST_LOGOUT_REDIRECT_URI";

fn text(field: SettingField, s: &str) -> Setting {
    Setting { field, value: SettingValue::Text(s.to_string()) }
}

fn logger_callback(_: LogLevel, _: String, _: bool) {}

#[test]
fn build_browser_auth_options() {
    let b_auth = BrowserAuthOptions::new(CLIENT_ID)
        .set_authority(AUTHORITY)
        .set_cloud_discovery_metadata(CLOUD_DISCOVERY_METADATA)
        .set_known_authorities(&KNOWN_AUTHORITIES[..])
        .set_navigate_to_login_request_url(NAVIGATE_TO_LOGIN_REQUEST_URL)
        .set_post_logout_redirect_uri(POST_LOGOUT_REDIRECT_URI)
        .set_redirect_uri(REDIRECT_URI);
    assert_eq!(b_auth.client_id, CLIENT_ID);
    assert_eq!(
        b_auth.settings(),
        vec![
            text(SettingField::Authority, AUTHORITY),
            Setting { field: SettingField::KnownAuthorities, value: SettingValue::Texts(vec!["KNOWN_AUTHORITIES".to_string()]) },
            text(SettingField::CloudDiscoveryMetadata, CLOUD_DISCOVERY_METADATA),
            text(SettingField::RedirectUri, REDIRECT_URI),
            text(SettingField::PostLogoutRedirectUri, POST_LOGOUT_REDIRECT_URI),
            Setting { field: SettingField::NavigateToLoginRequestUrl, value: SettingValue::Flag(true) },
        ]
    );

    let b_cache = CacheOptions::new()
        .set_cache_location(CacheLocation::Session)
        .set_store_auth_state_in_cookie(true);
    assert_eq!(
        b_cache.settings(),
        vec![
            text(SettingField::CacheLocation, "sessionStorage"),
            Setting { field: SettingField::StoreAuthStateInCookie, value: SettingValue::Flag(true) },
        ]
    );

    let logger_options = LoggerOptions::new()
        .set_log_level(LogLevel::Info)
        .set_pii_logging_enabled(true)
        .set_logger_callback(&logger_callback);
    assert_eq!(
        logger_options.settings(),
        vec![
            Setting { field: SettingField::PiiLoggingEnabled, value: SettingValue::Flag(true) },
            text(SettingField::LogLevel, "Info"),
        ]
    );

    let b_system = BrowserSystemOptions::new()
        .set_token_renewal_offset_seconds(66)
        .set_iframe_hash_timeout(67)
        .set_load_frame_timeout(68)
        .set_window_hash_timeout(69)
        .set_logger_options(logger_options);
    assert_eq!(
        b_system.settings(),
        vec![
            Setting { field: SettingField::TokenRenewalOffsetSeconds, value: SettingValue::Count(66) },
            Setting { field: SettingField::WindowHashTimeout, value: SettingValue::Count(69) },
            Setting { field: SettingField::IframeHashTimeout, value: SettingValue::Count(67) },
            Setting { field: SettingField::LoadFrameTimeout, value: SettingValue::Count(68) },
        ]
    );

    let config = Configuration::new(b_auth).set_cache(b_cache).set_system(b_system);
    assert_eq!(config.auth.client_id, CLIENT_ID);
    assert!(config.cache.is_some());
    let system = config.system.unwrap();
    assert!(system.logger_options.unwrap().logger_callback.is_some());
}

#[test]
fn fresh_options_have_no_settings() {
    assert!(BrowserAuthOptions::new(CLIENT_ID).settings().is_empty());
    assert!(CacheOptions::new().settings().is_empty());
    assert_eq!(CacheOptions::default(), CacheOptions::new());
    assert!(LoggerOptions::new().settings().is_empty());
    assert!(BrowserSystemOptions::new().settings().is_empty());
    let config = Configuration::new(BrowserAuthOptions::new(CLIENT_ID));
    assert!(config.cache.is_none() && config.system.is_none());
}

#[test]
fn cache_location_names() {
    assert_eq!(CacheLocation::Session.as_str(), "sessionStorage");
    assert_eq!(CacheLocation::Local.as_str(), "localStorage");
    assert_eq!(CacheLocation::from_text("localStorage"), Ok(CacheLocation::Local));
    assert_eq!(CacheLocation::from_text("sessionStorage"), Ok(CacheLocation::Session));
    assert_eq!(CacheLocation::from_text("memoryStorage"), Err("Input not valid".to_string()));
    assert_eq!(CacheLocation::from_text(""), Err("Input not valid".to_string()));
}

#[test]
fn log_level_names_and_numbers() {
    for (level, name, index) in [
        (LogLevel::Error, "Error", 0u64),
        (LogLevel::Warning, "Warning", 1),
        (LogLevel::Info, "Info", 2),
        (LogLevel::Verbose, "Verbose", 3),
    ] {
        assert_eq!(level.as_str(), name);
        assert_eq!(LogLevel::from_text(name), Ok(level));
        assert_eq!(LogLevel::from_index(index), Ok(level));
    }
    assert_eq!(LogLevel::from_text("error"), Err(()));
    assert_eq!(LogLevel::from_index(4), Err(()));
}
