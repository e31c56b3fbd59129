//! Setting plans: the properties, in order, that a configuration or request
//! object of the authentication library receives.
use vstd::prelude::*;

verus! {

/// The texts of a list of strings.
pub open spec fn texts(v: Seq<String>) -> Seq<Seq<char>> {
    v.map_values(|s: String| s@)
}

/// The texts of a list of string slices.
pub open spec fn strs(v: Seq<&str>) -> Seq<Seq<char>> {
    v.map_values(|s: &str| s@)
}

/// The text of an optional string.
pub open spec fn opt_text(o: Option<String>) -> Option<Seq<char>> {
    match o {
        Some(s) => Some(s@),
        None => None,
    }
}

/// A property of a configuration or request object of the authentication
/// library.
#[derive(Clone, Copy, Debug, PartialEq, Eq, Structural)]
pub enum SettingField {
    Authority,
    KnownAuthorities,
    CloudDiscoveryMetadata,
    RedirectUri,
    PostLogoutRedirectUri,
    NavigateToLoginRequestUrl,
    CacheLocation,
    StoreAuthStateInCookie,
    PiiLoggingEnabled,
    LogLevel,
    TokenRenewalOffsetSeconds,
    WindowHashTimeout,
    IframeHashTimeout,
    LoadFrameTimeout,
    CorrelationId,
    ExtraScopesToConsent,
    ResponseMode,
    CodeChallenge,
    CodeChallengeMethod,
    State,
    Prompt,
    LoginHint,
    DomainHint,
    ExtraQueryParameters,
    Claims,
    Nonce,
    RedirectStartPage,
    ForceRefresh,
}

impl SettingField {
    /// The property's name on the library's objects.
    pub fn property(self) -> &'static str {
        match self {
            SettingField::Authority => "authority",
            SettingField::KnownAuthorities => "knownAuthorities",
            SettingField::CloudDiscoveryMetadata => "cloudDiscoveryMetadata",
            SettingField::RedirectUri => "redirectUri",
            SettingField::PostLogoutRedirectUri => "postLogoutRedirectUri",
            SettingField::NavigateToLoginRequestUrl => "navigateToLoginRequestUrl",
            SettingField::CacheLocation => "cacheLocation",
            SettingField::StoreAuthStateInCookie => "storeAuthStateInCookie",
            SettingField::PiiLoggingEnabled => "piiLoggingEnabled",
            SettingField::LogLevel => "logLevel",
            SettingField::TokenRenewalOffsetSeconds => "tokenRenewalOffsetSeconds",
            SettingField::WindowHashTimeout => "windowHashTimeout",
            SettingField::IframeHashTimeout => "iframeHashTimeout",
            SettingField::LoadFrameTimeout => "loadFrameTimeout",
            SettingField::CorrelationId => "correlationId",
            SettingField::ExtraScopesToConsent => "extraScopesToConsent",
            SettingField::ResponseMode => "responseMode",
            SettingField::CodeChallenge => "codeChallenge",
            SettingField::CodeChallengeMethod => "codeChallengeMethod",
            SettingField::State => "state",
            SettingField::Prompt => "prompt",
            SettingField::LoginHint => "loginHint",
            SettingField::DomainHint => "domainHint",
            SettingField::ExtraQueryParameters => "extraQueryParameters",
            SettingField::Claims => "claims",
            SettingField::Nonce => "nonce",
            SettingField::RedirectStartPage => "redirectStartPage",
            SettingField::ForceRefresh => "forceRefresh",
        }
    }
}

/// The value given to a property.
#[derive(Clone, Debug, PartialEq)]
pub enum SettingValue {
    Text(String),
    Texts(Vec<String>),
    Pairs(Vec<(String, String)>),
    Flag(bool),
    Count(u32),
}

pub enum SettingValueView {
    Text(Seq<char>),
    Texts(Seq<Seq<char>>),
    Pairs(Seq<(Seq<char>, Seq<char>)>),
    Flag(bool),
    Count(u32),
}

/// The texts of a list of string pairs.
pub open spec fn pairs(v: Seq<(String, String)>) -> Seq<(Seq<char>, Seq<char>)> {
    v.map_values(|p: (String, String)| (p.0@, p.1@))
}

/// The texts of a list of pairs of string slices.
pub open spec fn str_pairs(v: Seq<(&str, &str)>) -> Seq<(Seq<char>, Seq<char>)> {
    v.map_values(|p: (&str, &str)| (p.0@, p.1@))
}

impl View for SettingValue {
    type V = SettingValueView;

    open spec fn view(&self) -> SettingValueView {
        match self {
            SettingValue::Text(s) => SettingValueView::Text(s@),
            SettingValue::Texts(v) => SettingValueView::Texts(texts(v@)),
            SettingValue::Pairs(v) => SettingValueView::Pairs(pairs(v@)),
            SettingValue::Flag(b) => SettingValueView::Flag(*b),
            SettingValue::Count(n) => SettingValueView::Count(*n),
        }
    }
}

/// One property to set on an object of the authentication library.
#[derive(Clone, Debug, PartialEq)]
pub struct Setting {
    pub field: SettingField,
    pub value: SettingValue,
}

pub struct SettingView {
    pub field: SettingField,
    pub value: SettingValueView,
}

impl View for Setting {
    type V = SettingView;

    open spec fn view(&self) -> SettingView {
        SettingView { field: self.field, value: self.value@ }
    }
}

/// The views of a list of settings.
pub open spec fn views(s: Seq<Setting>) -> Seq<SettingView> {
    s.map_values(|x: Setting| x@)
}

/// The setting that an optional value gives: none when it is absent.
pub open spec fn optional(field: SettingField, value: Option<SettingValueView>) -> Seq<SettingView> {
    match value {
        Some(v) => seq![SettingView { field, value: v }],
        None => seq![],
    }
}

pub open spec fn text_value(o: Option<String>) -> Option<SettingValueView> {
    match o {
        Some(s) => Some(SettingValueView::Text(s@)),
        None => None,
    }
}

pub open spec fn texts_value(o: Option<Vec<String>>) -> Option<SettingValueView> {
    match o {
        Some(v) => Some(SettingValueView::Texts(texts(v@))),
        None => None,
    }
}

pub open spec fn pairs_value(o: Option<Vec<(String, String)>>) -> Option<SettingValueView> {
    match o {
        Some(v) => Some(SettingValueView::Pairs(pairs(v@))),
        None => None,
    }
}

pub open spec fn flag_value(o: Option<bool>) -> Option<SettingValueView> {
    match o {
        Some(b) => Some(SettingValueView::Flag(b)),
        None => None,
    }
}

pub open spec fn count_value(o: Option<u32>) -> Option<SettingValueView> {
    match o {
        Some(n) => Some(SettingValueView::Count(n)),
        None => None,
    }
}

/// Whether two texts are the same.
pub fn same_text(a: &str, b: &str) -> (r: bool)
    ensures
        r == (a@ == b@),
{
    // Equal texts have equal encodings, so texts of other byte lengths differ.
    if a.len() != b.len() {
        return false;
    }
    let a = a.to_owned();
    let b = b.to_owned();
    a.eq(&b)
}

/// Owned copies of string slices.
pub fn owned_texts(items: &[&str]) -> (r: Vec<String>)
    ensures
        texts(r@) == strs(items@),
{
    let mut out: Vec<String> = Vec::new();
    for i in 0..items.len()
        invariant
            out@.len() == i,
            forall|j: int| 0 <= j < i ==> #[trigger] out@[j]@ == items@[j]@,
    {
        out.push(items[i].to_owned());
    }
    proof {
        assert(texts(out@) =~= strs(items@));
    }
    out
}

/// Owned copies of pairs of string slices.
pub fn owned_pairs(items: &[(&str, &str)]) -> (r: Vec<(String, String)>)
    ensures
        pairs(r@) == str_pairs(items@),
{
    let mut out: Vec<(String, String)> = Vec::new();
    for i in 0..items.len()
        invariant
            out@.len() == i,
            forall|j: int| 0 <= j < i ==> (#[trigger] out@[j]).0@ == items@[j].0@ && out@[j].1@ == items@[j].1@,
    {
        let (k, v) = items[i];
        let pair = (k.to_owned(), v.to_owned());
        out.push(pair);
        assert(out@[i as int].0@ == items@[i as int].0@);
    }
    proof {
        assert(pairs(out@) =~= str_pairs(items@));
    }
    out
}

fn copy_texts(v: &Vec<String>) -> (r: Vec<String>)
    ensures
        r@ == v@,
{
    let mut out: Vec<String> = Vec::new();
    for i in 0..v.len()
        invariant
            out@ == v@.take(i as int),
    {
        out.push(v[i].clone());
        proof {
            assert(out@ =~= v@.take(i + 1));
        }
    }
    proof {
        assert(v@.take(v@.len() as int) =~= v@);
    }
    out
}

fn copy_pairs(v: &Vec<(String, String)>) -> (r: Vec<(String, String)>)
    ensures
        r@ == v@,
{
    let mut out: Vec<(String, String)> = Vec::new();
    for i in 0..v.len()
        invariant
            out@ == v@.take(i as int),
    {
        let (k, val) = &v[i];
        out.push((k.clone(), val.clone()));
        proof {
            assert(out@ =~= v@.take(i + 1));
        }
    }
    proof {
        assert(v@.take(v@.len() as int) =~= v@);
    }
    out
}

/// Appends the setting of an optional text.
pub fn push_text(out: &mut Vec<Setting>, field: SettingField, value: &Option<String>)
    ensures
        views(final(out)@) == views(old(out)@) + optional(field, text_value(*value)),
{
    match value {
        Some(s) => out.push(Setting { field, value: SettingValue::Text(s.clone()) }),
        None => {},
    }
    proof {
        assert(views(final(out)@) =~= views(old(out)@) + optional(field, text_value(*value)));
    }
}

/// Appends the setting of an optional list of texts.
pub fn push_texts(out: &mut Vec<Setting>, field: SettingField, value: &Option<Vec<String>>)
    ensures
        views(final(out)@) == views(old(out)@) + optional(field, texts_value(*value)),
{
    match value {
        Some(v) => out.push(Setting { field, value: SettingValue::Texts(copy_texts(v)) }),
        None => {},
    }
    proof {
        assert(views(final(out)@) =~= views(old(out)@) + optional(field, texts_value(*value)));
    }
}

/// Appends the setting of an optional list of key and value pairs.
pub fn push_pairs(out: &mut Vec<Setting>, field: SettingField, value: &Option<Vec<(String, String)>>)
    ensures
        views(final(out)@) == views(old(out)@) + optional(field, pairs_value(*value)),
{
    match value {
        Some(v) => out.push(Setting { field, value: SettingValue::Pairs(copy_pairs(v)) }),
        None => {},
    }
    proof {
        assert(views(final(out)@) =~= views(old(out)@) + optional(field, pairs_value(*value)));
    }
}

/// Appends the setting of an optional flag.
pub fn push_flag(out: &mut Vec<Setting>, field: SettingField, value: Option<bool>)
    ensures
        views(final(out)@) == views(old(out)@) + optional(field, flag_value(value)),
{
    match value {
        Some(b) => out.push(Setting { field, value: SettingValue::Flag(b) }),
        None => {},
    }
    proof {
        assert(views(final(out)@) =~= views(old(out)@) + optional(field, flag_value(value)));
    }
}

/// Appends the setting of an optional count.
pub fn push_count(out: &mut Vec<Setting>, field: SettingField, value: Option<u32>)
    ensures
        views(final(out)@) == views(old(out)@) + optional(field, count_value(value)),
{
    match value {
        Some(n) => out.push(Setting { field, value: SettingValue::Count(n) }),
        None => {},
    }
    proof {
        assert(views(final(out)@) =~= views(old(out)@) + optional(field, count_value(value)));
    }
}

} // verus!
