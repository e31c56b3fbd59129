//! The configuration of a client application: its auth, cache, logger and
//! system options, and the settings each hands to the authentication library.
use vstd::prelude::*;
use crate::settings::{
    count_value, flag_value, opt_text, optional, owned_texts, push_count, push_flag, push_text,
    push_texts, same_text, strs, text_value, texts, texts_value, views, Setting, SettingField,
    SettingValue, SettingValueView, SettingView,
};

verus! {

/// The options that identify the application to the authentication library.
/// The client id is given when the options are made; the rest is optional.
#[derive(Clone, Debug, PartialEq)]
pub struct BrowserAuthOptions {
    pub client_id: String,
    pub authority: Option<String>,
    pub known_authorities: Option<Vec<String>>,
    pub cloud_discovery_metadata: Option<String>,
    pub redirect_uri: Option<String>,
    pub post_logout_redirect_uri: Option<String>,
    pub navigate_to_login_request_url: Option<bool>,
}

/// The settings of the auth options, in the order they are applied; the
/// client id is given when the library's object is made.
pub open spec fn auth_options_settings(a: BrowserAuthOptions) -> Seq<SettingView> {
    optional(SettingField::Authority, text_value(a.authority))
        + optional(SettingField::KnownAuthorities, texts_value(a.known_authorities))
        + optional(SettingField::CloudDiscoveryMetadata, text_value(a.cloud_discovery_metadata))
        + optional(SettingField::RedirectUri, text_value(a.redirect_uri))
        + optional(SettingField::PostLogoutRedirectUri, text_value(a.post_logout_redirect_uri))
        + optional(SettingField::NavigateToLoginRequestUrl, flag_value(a.navigate_to_login_request_url))
}

impl BrowserAuthOptions {
    pub fn new(client_id: &str) -> (r: BrowserAuthOptions)
        ensures
            r.client_id@ == client_id@,
            r == (BrowserAuthOptions {
                client_id: r.client_id,
                authority: None,
                known_authorities: None,
                cloud_discovery_metadata: None,
                redirect_uri: None,
                post_logout_redirect_uri: None,
                navigate_to_login_request_url: None,
            }),
    {
        BrowserAuthOptions {
            client_id: client_id.to_owned(),
            authority: None,
            known_authorities: None,
            cloud_discovery_metadata: None,
            redirect_uri: None,
            post_logout_redirect_uri: None,
            navigate_to_login_request_url: None,
        }
    }

    pub fn set_authority(self, authority: &str) -> (r: Self)
        ensures
            opt_text(r.authority) == Some(authority@),
            r == (BrowserAuthOptions { authority: r.authority, ..self }),
    {
        let mut r = self;
        r.authority = Some(authority.to_owned());
        r
    }

    pub fn set_known_authorities(self, known_authorities: &[&str]) -> (r: Self)
        ensures
            r.known_authorities matches Some(v) && texts(v@) == strs(known_authorities@),
            r == (BrowserAuthOptions { known_authorities: r.known_authorities, ..self }),
    {
        let mut r = self;
        r.known_authorities = Some(owned_texts(known_authorities));
        r
    }

    pub fn set_cloud_discovery_metadata(self, cloud_discovery_metadata: &str) -> (r: Self)
        ensures
            opt_text(r.cloud_discovery_metadata) == Some(cloud_discovery_metadata@),
            r == (BrowserAuthOptions { cloud_discovery_metadata: r.cloud_discovery_metadata, ..self }),
    {
        let mut r = self;
        r.cloud_discovery_metadata = Some(cloud_discovery_metadata.to_owned());
        r
    }

    pub fn set_redirect_uri(self, redirect_uri: &str) -> (r: Self)
        ensures
            opt_text(r.redirect_uri) == Some(redirect_uri@),
            r == (BrowserAuthOptions { redirect_uri: r.redirect_uri, ..self }),
    {
        let mut r = self;
        r.redirect_uri = Some(redirect_uri.to_owned());
        r
    }

    pub fn set_post_logout_redirect_uri(self, post_logout_redirect_uri: &str) -> (r: Self)
        ensures
            opt_text(r.post_logout_redirect_uri) == Some(post_logout_redirect_uri@),
            r == (BrowserAuthOptions { post_logout_redirect_uri: r.post_logout_redirect_uri, ..self }),
    {
        let mut r = self;
        r.post_logout_redirect_uri = Some(post_logout_redirect_uri.to_owned());
        r
    }

    pub fn set_navigate_to_login_request_url(self, navigate_to_login_request_url: bool) -> (r: Self)
        ensures
            r == (BrowserAuthOptions { navigate_to_login_request_url: Some(navigate_to_login_request_url), ..self }),
    {
        let mut r = self;
        r.navigate_to_login_request_url = Some(navigate_to_login_request_url);
        r
    }

    /// The optional values that are present, in the order they are applied.
    pub fn settings(&self) -> (r: Vec<Setting>)
        ensures
            views(r@) == auth_options_settings(*self),
    {
        let mut out: Vec<Setting> = Vec::new();
        push_text(&mut out, SettingField::Authority, &self.authority);
        push_texts(&mut out, SettingField::KnownAuthorities, &self.known_authorities);
        push_text(&mut out, SettingField::CloudDiscoveryMetadata, &self.cloud_discovery_metadata);
        push_text(&mut out, SettingField::RedirectUri, &self.redirect_uri);
        push_text(&mut out, SettingField::PostLogoutRedirectUri, &self.post_logout_redirect_uri);
        push_flag(&mut out, SettingField::NavigateToLoginRequestUrl, self.navigate_to_login_request_url);
        proof {
            assert(views(out@) =~= auth_options_settings(*self));
        }
        out
    }
}

/// Where the library keeps its token cache.
#[derive(Clone, Copy, Debug, PartialEq, Eq, Structural)]
pub enum CacheLocation {
    Session,
    Local,
}

pub open spec fn cache_location_text(location: CacheLocation) -> Seq<char> {
    match location {
        CacheLocation::Session => "sessionStorage"@,
        CacheLocation::Local => "localStorage"@,
    }
}

impl CacheLocation {
    /// The storage's name in the browser.
    pub fn as_str(&self) -> (r: &'static str)
        ensures
            r@ == cache_location_text(*self),
    {
        match self {
            CacheLocation::Session => "sessionStorage",
            CacheLocation::Local => "localStorage",
        }
    }

    /// The location that a storage name denotes; any other text is refused.
    pub fn from_text(value: &str) -> (r: Result<CacheLocation, String>)
        ensures
            r is Ok <==> (value@ == "localStorage"@ || value@ == "sessionStorage"@),
            r matches Ok(location) ==> cache_location_text(location) == value@,
            r matches Err(message) ==> message@ == "Input not valid"@,
    {
        if same_text(value, "localStorage") {
            Ok(CacheLocation::Local)
        } else if same_text(value, "sessionStorage") {
            Ok(CacheLocation::Session)
        } else {
            Err("Input not valid".to_owned())
        }
    }
}

/// The options of the library's token cache.
#[derive(Clone, Debug, PartialEq)]
pub struct CacheOptions {
    pub cache_location: Option<CacheLocation>,
    pub store_auth_state_in_cookie: Option<bool>,
}

pub open spec fn cache_location_value(o: Option<CacheLocation>) -> Option<SettingValueView> {
    match o {
        Some(l) => Some(SettingValueView::Text(cache_location_text(l))),
        None => None,
    }
}

/// The settings of the cache options, in the order they are applied.
pub open spec fn cache_options_settings(c: CacheOptions) -> Seq<SettingView> {
    optional(SettingField::CacheLocation, cache_location_value(c.cache_location))
        + optional(SettingField::StoreAuthStateInCookie, flag_value(c.store_auth_state_in_cookie))
}

impl Default for CacheOptions {
    fn default() -> (r: Self)
        ensures
            r == (CacheOptions { cache_location: None, store_auth_state_in_cookie: None }),
    {
        CacheOptions { cache_location: None, store_auth_state_in_cookie: None }
    }
}

impl CacheOptions {
    pub fn new() -> (r: Self)
        ensures
            r == (CacheOptions { cache_location: None, store_auth_state_in_cookie: None }),
    {
        CacheOptions { cache_location: None, store_auth_state_in_cookie: None }
    }

    pub fn set_cache_location(self, cache_location: CacheLocation) -> (r: Self)
        ensures
            r == (CacheOptions { cache_location: Some(cache_location), ..self }),
    {
        let mut r = self;
        r.cache_location = Some(cache_location);
        r
    }

    pub fn set_store_auth_state_in_cookie(self, store_auth_state_in_cookie: bool) -> (r: Self)
        ensures
            r == (CacheOptions { store_auth_state_in_cookie: Some(store_auth_state_in_cookie), ..self }),
    {
        let mut r = self;
        r.store_auth_state_in_cookie = Some(store_auth_state_in_cookie);
        r
    }

    /// The optional values that are present, in the order they are applied.
    pub fn settings(&self) -> (r: Vec<Setting>)
        ensures
            views(r@) == cache_options_settings(*self),
    {
        let mut out: Vec<Setting> = Vec::new();
        match self.cache_location {
            Some(l) => out.push(Setting { field: SettingField::CacheLocation, value: SettingValue::Text(l.as_str().to_owned()) }),
            None => {},
        }
        push_flag(&mut out, SettingField::StoreAuthStateInCookie, self.store_auth_state_in_cookie);
        proof {
            assert(views(out@) =~= cache_options_settings(*self));
        }
        out
    }
}

/// The severity of a log message.
#[derive(Clone, Copy, Debug, PartialEq, Eq, Structural)]
pub enum LogLevel {
    Error,
    Warning,
    Info,
    Verbose,
}

pub open spec fn log_level_text(level: LogLevel) -> Seq<char> {
    match level {
        LogLevel::Error => "Error"@,
        LogLevel::Warning => "Warning"@,
        LogLevel::Info => "Info"@,
        LogLevel::Verbose => "Verbose"@,
    }
}

/// The position of a level in the library's own numbering.
pub open spec fn log_level_index(level: LogLevel) -> u64 {
    match level {
        LogLevel::Error => 0,
        LogLevel::Warning => 1,
        LogLevel::Info => 2,
        LogLevel::Verbose => 3,
    }
}

impl LogLevel {
    /// The level's name.
    pub fn as_str(&self) -> (r: &'static str)
        ensures
            r@ == log_level_text(*self),
    {
        match self {
            LogLevel::Error => "Error",
            LogLevel::Warning => "Warning",
            LogLevel::Info => "Info",
            LogLevel::Verbose => "Verbose",
        }
    }

    /// The level that a name denotes; any other text is refused.
    pub fn from_text(value: &str) -> (r: Result<LogLevel, ()>)
        ensures
            r is Ok <==> (value@ == "Error"@ || value@ == "Warning"@ || value@ == "Info"@ || value@ == "Verbose"@),
            r matches Ok(level) ==> log_level_text(level) == value@,
    {
        if same_text(value, "Error") {
            Ok(LogLevel::Error)
        } else if same_text(value, "Warning") {
            Ok(LogLevel::Warning)
        } else if same_text(value, "Info") {
            Ok(LogLevel::Info)
        } else if same_text(value, "Verbose") {
            Ok(LogLevel::Verbose)
        } else {
            Err(())
        }
    }

    /// The level at a position of the library's numbering; any other number
    /// is refused.
    pub fn from_index(value: u64) -> (r: Result<LogLevel, ()>)
        ensures
            r is Ok <==> value <= 3,
            r matches Ok(level) ==> log_level_index(level) == value,
    {
        match value {
            0 => Ok(LogLevel::Error),
            1 => Ok(LogLevel::Warning),
            2 => Ok(LogLevel::Info),
            3 => Ok(LogLevel::Verbose),
            _ => Err(()),
        }
    }
}

/// The type of logger options that have no callback.
#[derive(Clone, Copy, Debug, PartialEq, Eq, Structural)]
pub struct NoCallback;

/// The options of the library's logger; `C` is the type of the callback
/// that receives the messages.
#[derive(Clone, Debug, PartialEq)]
pub struct LoggerOptions<C> {
    pub logger_callback: Option<C>,
    pub pii_logging_enabled: Option<bool>,
    pub log_level: Option<LogLevel>,
}

pub open spec fn log_level_value(o: Option<LogLevel>) -> Option<SettingValueView> {
    match o {
        Some(l) => Some(SettingValueView::Text(log_level_text(l))),
        None => None,
    }
}

/// The settings of the logger options, in the order they are applied; the
/// callback is handed over as a function of its own.
pub open spec fn logger_options_settings<C>(l: LoggerOptions<C>) -> Seq<SettingView> {
    optional(SettingField::PiiLoggingEnabled, flag_value(l.pii_logging_enabled))
        + optional(SettingField::LogLevel, log_level_value(l.log_level))
}

impl LoggerOptions<NoCallback> {
    pub fn new() -> (r: Self)
        ensures
            r == (LoggerOptions::<NoCallback> { logger_callback: None, pii_logging_enabled: None, log_level: None }),
    {
        LoggerOptions { logger_callback: None, pii_logging_enabled: None, log_level: None }
    }
}

impl<C> LoggerOptions<C> {
    /// The same options with `logger_callback` as the callback.
    pub fn set_logger_callback<F>(self, logger_callback: F) -> (r: LoggerOptions<F>)
        ensures
            r == (LoggerOptions {
                logger_callback: Some(logger_callback),
                pii_logging_enabled: self.pii_logging_enabled,
                log_level: self.log_level,
            }),
    {
        LoggerOptions {
            logger_callback: Some(logger_callback),
            pii_logging_enabled: self.pii_logging_enabled,
            log_level: self.log_level,
        }
    }

    pub fn set_pii_logging_enabled(self, pii_logging_enabled: bool) -> (r: Self)
        ensures
            r == (LoggerOptions { pii_logging_enabled: Some(pii_logging_enabled), ..self }),
    {
        let mut r = self;
        r.pii_logging_enabled = Some(pii_logging_enabled);
        r
    }

    pub fn set_log_level(self, log_level: LogLevel) -> (r: Self)
        ensures
            r == (LoggerOptions { log_level: Some(log_level), ..self }),
    {
        let mut r = self;
        r.log_level = Some(log_level);
        r
    }

    /// The optional values that are present, in the order they are applied.
    pub fn settings(&self) -> (r: Vec<Setting>)
        ensures
            views(r@) == logger_options_settings(*self),
    {
        let mut out: Vec<Setting> = Vec::new();
        push_flag(&mut out, SettingField::PiiLoggingEnabled, self.pii_logging_enabled);
        match self.log_level {
            Some(l) => out.push(Setting { field: SettingField::LogLevel, value: SettingValue::Text(l.as_str().to_owned()) }),
            None => {},
        }
        proof {
            assert(views(out@) =~= logger_options_settings(*self));
        }
        out
    }
}

/// The options of the library's own behaviour: its logger and its timeouts
/// in milliseconds.
#[derive(Clone, Debug, PartialEq)]
pub struct BrowserSystemOptions<C> {
    pub token_renewal_offset_seconds: Option<u32>,
    pub logger_options: Option<LoggerOptions<C>>,
    pub window_hash_timeout: Option<u32>,
    pub iframe_hash_timeout: Option<u32>,
    pub load_frame_timeout: Option<u32>,
}

/// The settings of the system options, in the order they are applied; the
/// logger options are handed over as an object of their own.
pub open spec fn system_options_settings<C>(s: BrowserSystemOptions<C>) -> Seq<SettingView> {
    optional(SettingField::TokenRenewalOffsetSeconds, count_value(s.token_renewal_offset_seconds))
        + optional(SettingField::WindowHashTimeout, count_value(s.window_hash_timeout))
        + optional(SettingField::IframeHashTimeout, count_value(s.iframe_hash_timeout))
        + optional(SettingField::LoadFrameTimeout, count_value(s.load_frame_timeout))
}

impl BrowserSystemOptions<NoCallback> {
    pub fn new() -> (r: Self)
        ensures
            r == (BrowserSystemOptions::<NoCallback> {
                token_renewal_offset_seconds: None,
                logger_options: None,
                window_hash_timeout: None,
                iframe_hash_timeout: None,
                load_frame_timeout: None,
            }),
    {
        BrowserSystemOptions {
            token_renewal_offset_seconds: None,
            logger_options: None,
            window_hash_timeout: None,
            iframe_hash_timeout: None,
            load_frame_timeout: None,
        }
    }
}

impl<C> BrowserSystemOptions<C> {
    /// The same options with `logger_options` as the logger's options.
    pub fn set_logger_options<F>(self, logger_options: LoggerOptions<F>) -> (r: BrowserSystemOptions<F>)
        ensures
            r == (BrowserSystemOptions {
                token_renewal_offset_seconds: self.token_renewal_offset_seconds,
                logger_options: Some(logger_options),
                window_hash_timeout: self.window_hash_timeout,
                iframe_hash_timeout: self.iframe_hash_timeout,
                load_frame_timeout: self.load_frame_timeout,
            }),
    {
        BrowserSystemOptions {
            token_renewal_offset_seconds: self.token_renewal_offset_seconds,
            logger_options: Some(logger_options),
            window_hash_timeout: self.window_hash_timeout,
            iframe_hash_timeout: self.iframe_hash_timeout,
            load_frame_timeout: self.load_frame_timeout,
        }
    }

    pub fn set_token_renewal_offset_seconds(self, token_renewal_offset_seconds: u32) -> (r: Self)
        ensures
            r == (BrowserSystemOptions { token_renewal_offset_seconds: Some(token_renewal_offset_seconds), ..self }),
    {
        let mut r = self;
        r.token_renewal_offset_seconds = Some(token_renewal_offset_seconds);
        r
    }

    pub fn set_window_hash_timeout(self, window_hash_timeout: u32) -> (r: Self)
        ensures
            r == (BrowserSystemOptions { window_hash_timeout: Some(window_hash_timeout), ..self }),
    {
        let mut r = self;
        r.window_hash_timeout = Some(window_hash_timeout);
        r
    }

    pub fn set_iframe_hash_timeout(self, iframe_hash_timeout: u32) -> (r: Self)
        ensures
            r == (BrowserSystemOptions { iframe_hash_timeout: Some(iframe_hash_timeout), ..self }),
    {
        let mut r = self;
        r.iframe_hash_timeout = Some(iframe_hash_timeout);
        r
    }

    pub fn set_load_frame_timeout(self, load_frame_timeout: u32) -> (r: Self)
        ensures
            r == (BrowserSystemOptions { load_frame_timeout: Some(load_frame_timeout), ..self }),
    {
        let mut r = self;
        r.load_frame_timeout = Some(load_frame_timeout);
        r
    }

    /// The optional values that are present, in the order they are applied.
    pub fn settings(&self) -> (r: Vec<Setting>)
        ensures
            views(r@) == system_options_settings(*self),
    {
        let mut out: Vec<Setting> = Vec::new();
        push_count(&mut out, SettingField::TokenRenewalOffsetSeconds, self.token_renewal_offset_seconds);
        push_count(&mut out, SettingField::WindowHashTimeout, self.window_hash_timeout);
        push_count(&mut out, SettingField::IframeHashTimeout, self.iframe_hash_timeout);
        push_count(&mut out, SettingField::LoadFrameTimeout, self.load_frame_timeout);
        proof {
            assert(views(out@) =~= system_options_settings(*self));
        }
        out
    }
}

/// The whole configuration of a client application.
#[derive(Clone, Debug, PartialEq)]
pub struct Configuration<C> {
    pub auth: BrowserAuthOptions,
    pub cache: Option<CacheOptions>,
    pub system: Option<BrowserSystemOptions<C>>,
}

impl Configuration<NoCallback> {
    pub fn new(auth: BrowserAuthOptions) -> (r: Self)
        ensures
            r == (Configuration::<NoCallback> { auth, cache: None, system: None }),
    {
        Configuration { auth, cache: None, system: None }
    }
}

impl<C> Configuration<C> {
    pub fn set_cache(self, cache: CacheOptions) -> (r: Self)
        ensures
            r == (Configuration { cache: Some(cache), ..self }),
    {
        let mut r = self;
        r.cache = Some(cache);
        r
    }

    /// The same configuration with `system` as the system options.
    pub fn set_system<F>(self, system: BrowserSystemOptions<F>) -> (r: Configuration<F>)
        ensures
            r == (Configuration { auth: self.auth, cache: self.cache, system: Some(system) }),
    {
        Configuration { auth: self.auth, cache: self.cache, system: Some(system) }
    }
}

} // verus!
