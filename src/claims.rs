//! Typed token claims: the registry of known claim names and the shapes of
//! their values, coercion of a payload value to a shape, and the decoder
//! that turns a token's claim bag into an ordered claim set.
use vstd::prelude::*;
use crate::settings::same_text;

verus! {

/// A number of the host runtime, held as the bit pattern of its IEEE-754
/// double (`f64::to_bits`); the library never computes with it.
#[derive(Clone, Copy, Debug, PartialEq, Eq, Structural)]
pub struct JsNumber {
    pub bits: u64,
}

/// A value of a decoded token payload as the host runtime hands it over:
/// the JSON domain, with object entries in enumeration order.
#[derive(Debug, PartialEq)]
pub enum ClaimValue {
    Null,
    Bool(bool),
    Number(JsNumber),
    Text(String),
    Array(Vec<ClaimValue>),
    Object(Vec<(String, ClaimValue)>),
}

/// What the host counts as an object: a keyed bag, or an array.
pub open spec fn is_object_like(value: ClaimValue) -> bool {
    value is Object || value is Array
}

/// The value shapes of the registry. `Constant` is the shape of a claim that
/// carries no value and accepts any.
#[derive(Clone, Copy, Debug, PartialEq, Eq, Structural)]
pub enum ClaimShape {
    Constant,
    Text,
    Number,
    Boolean,
    Sequence,
    Object,
}

/// A value coerced to a shape.
#[derive(Debug, PartialEq)]
pub enum ClaimPayload {
    Constant,
    Text(String),
    Number(JsNumber),
    Boolean(bool),
    Sequence(Vec<ClaimValue>),
    Object(ClaimValue),
}

/// The shape of a payload.
pub open spec fn payload_shape(payload: ClaimPayload) -> ClaimShape {
    match payload {
        ClaimPayload::Constant => ClaimShape::Constant,
        ClaimPayload::Text(_) => ClaimShape::Text,
        ClaimPayload::Number(_) => ClaimShape::Number,
        ClaimPayload::Boolean(_) => ClaimShape::Boolean,
        ClaimPayload::Sequence(_) => ClaimShape::Sequence,
        ClaimPayload::Object(_) => ClaimShape::Object,
    }
}

/// Whether a value has the given shape.
pub open spec fn fits(value: ClaimValue, shape: ClaimShape) -> bool {
    match shape {
        ClaimShape::Constant => true,
        ClaimShape::Text => value is Text,
        ClaimShape::Number => value is Number,
        ClaimShape::Boolean => value is Bool,
        ClaimShape::Sequence => value is Array,
        ClaimShape::Object => is_object_like(value),
    }
}

/// Coercion of a value to a shape: the payload on success, else the value
/// itself, unconsumed.
pub open spec fn coerced(value: ClaimValue, shape: ClaimShape) -> Result<ClaimPayload, ClaimValue> {
    if !fits(value, shape) {
        Err(value)
    } else {
        match shape {
            ClaimShape::Constant => Ok(ClaimPayload::Constant),
            ClaimShape::Text => Ok(ClaimPayload::Text(value->Text_0)),
            ClaimShape::Number => Ok(ClaimPayload::Number(value->Number_0)),
            ClaimShape::Boolean => Ok(ClaimPayload::Boolean(value->Bool_0)),
            ClaimShape::Sequence => Ok(ClaimPayload::Sequence(value->Array_0)),
            ClaimShape::Object => Ok(ClaimPayload::Object(value)),
        }
    }
}

/// Coerces a value to a shape; on a mismatch the value comes back unconsumed.
pub fn coerce(value: ClaimValue, shape: ClaimShape) -> (r: Result<ClaimPayload, ClaimValue>)
    ensures
        r == coerced(value, shape),
        r matches Ok(p) ==> payload_shape(p) == shape,
{
    match shape {
        ClaimShape::Constant => Ok(ClaimPayload::Constant),
        ClaimShape::Text => match value {
            ClaimValue::Text(s) => Ok(ClaimPayload::Text(s)),
            other => Err(other),
        },
        ClaimShape::Number => match value {
            ClaimValue::Number(n) => Ok(ClaimPayload::Number(n)),
            other => Err(other),
        },
        ClaimShape::Boolean => match value {
            ClaimValue::Bool(b) => Ok(ClaimPayload::Boolean(b)),
            other => Err(other),
        },
        ClaimShape::Sequence => match value {
            ClaimValue::Array(items) => Ok(ClaimPayload::Sequence(items)),
            other => Err(other),
        },
        ClaimShape::Object => match value {
            ClaimValue::Object(entries) => Ok(ClaimPayload::Object(ClaimValue::Object(entries))),
            ClaimValue::Array(items) => Ok(ClaimPayload::Object(ClaimValue::Array(items))),
            other => Err(other),
        },
    }
}

/// An entry of the claim registry: one known claim name each.
#[derive(Clone, Copy, Debug, PartialEq, Eq, Structural)]
pub enum ClaimKind {
    Typ,
    Nonce,
    Alg,
    Kid,
    X5t,
    Iss,
    Sub,
    Aud,
    Exp,
    Nbf,
    Iat,
    Jti,
    Name,
    GivenName,
    FamilyName,
    MiddleName,
    Nickname,
    PreferredUsername,
    Profile,
    Picture,
    Website,
    Email,
    EmailVerified,
    Gender,
    Birthdate,
    Zoneinfo,
    Locale,
    PhoneNumber,
    PhoneNumberVerified,
    Address,
    UpdatedAt,
    Cnf,
    SipFromTag,
    SipDate,
    SipCallid,
    SipCseqNum,
    SipViaBranch,
    Orig,
    Dest,
    Mky,
    Events,
    Toe,
    Txn,
    Rph,
    Sid,
    Vot,
    Vtm,
    Attest,
    Origid,
    Act,
    Scope,
    ClientId,
    MayAct,
    Jcard,
    AtUseNbr,
    Div,
    Opt,
    Idp,
    Ver,
    Oid,
    Tid,
    Aio,
    Azp,
    Azpacr,
    Rh,
    Scp,
    Uti,
    Appid,
    Roles,
    Wids,
    Groups,
    Hasgroups,
}

/// The value shape that the registry mandates for each known claim.
pub open spec fn shape_of(kind: ClaimKind) -> ClaimShape {
    match kind {
        ClaimKind::Typ => ClaimShape::Constant,
        ClaimKind::Nonce => ClaimShape::Text,
        ClaimKind::Alg => ClaimShape::Text,
        ClaimKind::Kid => ClaimShape::Text,
        ClaimKind::X5t => ClaimShape::Text,
        ClaimKind::Iss => ClaimShape::Text,
        ClaimKind::Sub => ClaimShape::Text,
        ClaimKind::Aud => ClaimShape::Text,
        ClaimKind::Exp => ClaimShape::Number,
        ClaimKind::Nbf => ClaimShape::Number,
        ClaimKind::Iat => ClaimShape::Number,
        ClaimKind::Jti => ClaimShape::Text,
        ClaimKind::Name => ClaimShape::Text,
        ClaimKind::GivenName => ClaimShape::Text,
        ClaimKind::FamilyName => ClaimShape::Text,
        ClaimKind::MiddleName => ClaimShape::Text,
        ClaimKind::Nickname => ClaimShape::Text,
        ClaimKind::PreferredUsername => ClaimShape::Text,
        ClaimKind::Profile => ClaimShape::Text,
        ClaimKind::Picture => ClaimShape::Text,
        ClaimKind::Website => ClaimShape::Text,
        ClaimKind::Email => ClaimShape::Text,
        ClaimKind::EmailVerified => ClaimShape::Boolean,
        ClaimKind::Gender => ClaimShape::Text,
        ClaimKind::Birthdate => ClaimShape::Text,
        ClaimKind::Zoneinfo => ClaimShape::Text,
        ClaimKind::Locale => ClaimShape::Text,
        ClaimKind::PhoneNumber => ClaimShape::Text,
        ClaimKind::PhoneNumberVerified => ClaimShape::Boolean,
        ClaimKind::Address => ClaimShape::Object,
        ClaimKind::UpdatedAt => ClaimShape::Number,
        ClaimKind::Cnf => ClaimShape::Object,
        ClaimKind::SipFromTag => ClaimShape::Text,
        ClaimKind::SipDate => ClaimShape::Number,
        ClaimKind::SipCallid => ClaimShape::Text,
        ClaimKind::SipCseqNum => ClaimShape::Text,
        ClaimKind::SipViaBranch => ClaimShape::Text,
        ClaimKind::Orig => ClaimShape::Object,
        ClaimKind::Dest => ClaimShape::Object,
        ClaimKind::Mky => ClaimShape::Object,
        ClaimKind::Events => ClaimShape::Object,
        ClaimKind::Toe => ClaimShape::Number,
        ClaimKind::Txn => ClaimShape::Text,
        ClaimKind::Rph => ClaimShape::Object,
        ClaimKind::Sid => ClaimShape::Text,
        ClaimKind::Vot => ClaimShape::Text,
        ClaimKind::Vtm => ClaimShape::Text,
        ClaimKind::Attest => ClaimShape::Text,
        ClaimKind::Origid => ClaimShape::Text,
        ClaimKind::Act => ClaimShape::Object,
        ClaimKind::Scope => ClaimShape::Text,
        ClaimKind::ClientId => ClaimShape::Text,
        ClaimKind::MayAct => ClaimShape::Object,
        ClaimKind::Jcard => ClaimShape::Object,
        ClaimKind::AtUseNbr => ClaimShape::Number,
        ClaimKind::Div => ClaimShape::Object,
        ClaimKind::Opt => ClaimShape::Text,
        ClaimKind::Idp => ClaimShape::Text,
        ClaimKind::Ver => ClaimShape::Text,
        ClaimKind::Oid => ClaimShape::Text,
        ClaimKind::Tid => ClaimShape::Text,
        ClaimKind::Aio => ClaimShape::Text,
        ClaimKind::Azp => ClaimShape::Text,
        ClaimKind::Azpacr => ClaimShape::Text,
        ClaimKind::Rh => ClaimShape::Text,
        ClaimKind::Scp => ClaimShape::Text,
        ClaimKind::Uti => ClaimShape::Text,
        ClaimKind::Appid => ClaimShape::Text,
        ClaimKind::Roles => ClaimShape::Sequence,
        ClaimKind::Wids => ClaimShape::Sequence,
        ClaimKind::Groups => ClaimShape::Sequence,
        ClaimKind::Hasgroups => ClaimShape::Boolean,
    }
}

impl ClaimKind {
    /// The shape that the claim's value must have.
    pub fn shape(self) -> (r: ClaimShape)
        ensures
            r == shape_of(self),
    {
        match self {
            ClaimKind::Typ => ClaimShape::Constant,
            ClaimKind::Nonce => ClaimShape::Text,
            ClaimKind::Alg => ClaimShape::Text,
            ClaimKind::Kid => ClaimShape::Text,
            ClaimKind::X5t => ClaimShape::Text,
            ClaimKind::Iss => ClaimShape::Text,
            ClaimKind::Sub => ClaimShape::Text,
            ClaimKind::Aud => ClaimShape::Text,
            ClaimKind::Exp => ClaimShape::Number,
            ClaimKind::Nbf => ClaimShape::Number,
            ClaimKind::Iat => ClaimShape::Number,
            ClaimKind::Jti => ClaimShape::Text,
            ClaimKind::Name => ClaimShape::Text,
            ClaimKind::GivenName => ClaimShape::Text,
            ClaimKind::FamilyName => ClaimShape::Text,
            ClaimKind::MiddleName => ClaimShape::Text,
            ClaimKind::Nickname => ClaimShape::Text,
            ClaimKind::PreferredUsername => ClaimShape::Text,
            ClaimKind::Profile => ClaimShape::Text,
            ClaimKind::Picture => ClaimShape::Text,
            ClaimKind::Website => ClaimShape::Text,
            ClaimKind::Email => ClaimShape::Text,
            ClaimKind::EmailVerified => ClaimShape::Boolean,
            ClaimKind::Gender => ClaimShape::Text,
            ClaimKind::Birthdate => ClaimShape::Text,
            ClaimKind::Zoneinfo => ClaimShape::Text,
            ClaimKind::Locale => ClaimShape::Text,
            ClaimKind::PhoneNumber => ClaimShape::Text,
            ClaimKind::PhoneNumberVerified => ClaimShape::Boolean,
            ClaimKind::Address => ClaimShape::Object,
            ClaimKind::UpdatedAt => ClaimShape::Number,
            ClaimKind::Cnf => ClaimShape::Object,
            ClaimKind::SipFromTag => ClaimShape::Text,
            ClaimKind::SipDate => ClaimShape::Number,
            ClaimKind::SipCallid => ClaimShape::Text,
            ClaimKind::SipCseqNum => ClaimShape::Text,
            ClaimKind::SipViaBranch => ClaimShape::Text,
            ClaimKind::Orig => ClaimShape::Object,
            ClaimKind::Dest => ClaimShape::Object,
            ClaimKind::Mky => ClaimShape::Object,
            ClaimKind::Events => ClaimShape::Object,
            ClaimKind::Toe => ClaimShape::Number,
            ClaimKind::Txn => ClaimShape::Text,
            ClaimKind::Rph => ClaimShape::Object,
            ClaimKind::Sid => ClaimShape::Text,
            ClaimKind::Vot => ClaimShape::Text,
            ClaimKind::Vtm => ClaimShape::Text,
            ClaimKind::Attest => ClaimShape::Text,
            ClaimKind::Origid => ClaimShape::Text,
            ClaimKind::Act => ClaimShape::Object,
            ClaimKind::Scope => ClaimShape::Text,
            ClaimKind::ClientId => ClaimShape::Text,
            ClaimKind::MayAct => ClaimShape::Object,
            ClaimKind::Jcard => ClaimShape::Object,
            ClaimKind::AtUseNbr => ClaimShape::Number,
            ClaimKind::Div => ClaimShape::Object,
            ClaimKind::Opt => ClaimShape::Text,
            ClaimKind::Idp => ClaimShape::Text,
            ClaimKind::Ver => ClaimShape::Text,
            ClaimKind::Oid => ClaimShape::Text,
            ClaimKind::Tid => ClaimShape::Text,
            ClaimKind::Aio => ClaimShape::Text,
            ClaimKind::Azp => ClaimShape::Text,
            ClaimKind::Azpacr => ClaimShape::Text,
            ClaimKind::Rh => ClaimShape::Text,
            ClaimKind::Scp => ClaimShape::Text,
            ClaimKind::Uti => ClaimShape::Text,
            ClaimKind::Appid => ClaimShape::Text,
            ClaimKind::Roles => ClaimShape::Sequence,
            ClaimKind::Wids => ClaimShape::Sequence,
            ClaimKind::Groups => ClaimShape::Sequence,
            ClaimKind::Hasgroups => ClaimShape::Boolean,
        }
    }
}

/// The registry: which known claim, if any, a claim name denotes.
pub open spec fn registered(key: Seq<char>) -> Option<ClaimKind> {
    if key == "typ"@ {
        Some(ClaimKind::Typ)
    } else if key == "nonce"@ {
        Some(ClaimKind::Nonce)
    } else if key == "alg"@ {
        Some(ClaimKind::Alg)
    } else if key == "kid"@ {
        Some(ClaimKind::Kid)
    } else if key == "x5t"@ {
        Some(ClaimKind::X5t)
    } else if key == "iss"@ {
        Some(ClaimKind::Iss)
    } else if key == "sub"@ {
        Some(ClaimKind::Sub)
    } else if key == "aud"@ {
        Some(ClaimKind::Aud)
    } else if key == "exp"@ {
        Some(ClaimKind::Exp)
    } else if key == "nbf"@ {
        Some(ClaimKind::Nbf)
    } else if key == "iat"@ {
        Some(ClaimKind::Iat)
    } else if key == "jti"@ {
        Some(ClaimKind::Jti)
    } else if key == "name"@ {
        Some(ClaimKind::Name)
    } else if key == "given_name"@ {
        Some(ClaimKind::GivenName)
    } else if key == "family_name"@ {
        Some(ClaimKind::FamilyName)
    } else if key == "middle_name"@ {
        Some(ClaimKind::MiddleName)
    } else if key == "nickname"@ {
        Some(ClaimKind::Nickname)
    } else if key == "preferred_username"@ {
        Some(ClaimKind::PreferredUsername)
    } else if key == "profile"@ {
        Some(ClaimKind::Profile)
    } else if key == "picture"@ {
        Some(ClaimKind::Picture)
    } else if key == "website"@ {
        Some(ClaimKind::Website)
    } else if key == "email"@ {
        Some(ClaimKind::Email)
    } else if key == "email_verified"@ {
        Some(ClaimKind::EmailVerified)
    } else if key == "gender"@ {
        Some(ClaimKind::Gender)
    } else if key == "birthdate"@ {
        Some(ClaimKind::Birthdate)
    } else if key == "zoneinfo"@ {
        Some(ClaimKind::Zoneinfo)
    } else if key == "locale"@ {
        Some(ClaimKind::Locale)
    } else if key == "phone_number"@ {
        Some(ClaimKind::PhoneNumber)
    } else if key == "phone_number_verified"@ {
        Some(ClaimKind::PhoneNumberVerified)
    } else if key == "address"@ {
        Some(ClaimKind::Address)
    } else if key == "updated_at"@ {
        Some(ClaimKind::UpdatedAt)
    } else if key == "cnf"@ {
        Some(ClaimKind::Cnf)
    } else if key == "sip_from_tag"@ {
        Some(ClaimKind::SipFromTag)
    } else if key == "sip_date"@ {
        Some(ClaimKind::SipDate)
    } else if key == "sip_callid"@ {
        Some(ClaimKind::SipCallid)
    } else if key == "sip_cseq_num"@ {
        Some(ClaimKind::SipCseqNum)
    } else if key == "sip_via_branch"@ {
        Some(ClaimKind::SipViaBranch)
    } else if key == "orig"@ {
        Some(ClaimKind::Orig)
    } else if key == "dest"@ {
        Some(ClaimKind::Dest)
    } else if key == "mky"@ {
        Some(ClaimKind::Mky)
    } else if key == "events"@ {
        Some(ClaimKind::Events)
    } else if key == "toe"@ {
        Some(ClaimKind::Toe)
    } else if key == "txn"@ {
        Some(ClaimKind::Txn)
    } else if key == "rph"@ {
        Some(ClaimKind::Rph)
    } else if key == "sid"@ {
        Some(ClaimKind::Sid)
    } else if key == "vot"@ {
        Some(ClaimKind::Vot)
    } else if key == "vtm"@ {
        Some(ClaimKind::Vtm)
    } else if key == "attest"@ {
        Some(ClaimKind::Attest)
    } else if key == "origid"@ {
        Some(ClaimKind::Origid)
    } else if key == "act"@ {
        Some(ClaimKind::Act)
    } else if key == "scope"@ {
        Some(ClaimKind::Scope)
    } else if key == "client_id"@ {
        Some(ClaimKind::ClientId)
    } else if key == "may_act"@ {
        Some(ClaimKind::MayAct)
    } else if key == "jcard"@ {
        Some(ClaimKind::Jcard)
    } else if key == "at_use_nbr"@ {
        Some(ClaimKind::AtUseNbr)
    } else if key == "div"@ {
        Some(ClaimKind::Div)
    } else if key == "opt"@ {
        Some(ClaimKind::Opt)
    } else if key == "idp"@ {
        Some(ClaimKind::Idp)
    } else if key == "ver"@ {
        Some(ClaimKind::Ver)
    } else if key == "oid"@ {
        Some(ClaimKind::Oid)
    } else if key == "tid"@ {
        Some(ClaimKind::Tid)
    } else if key == "aio"@ {
        Some(ClaimKind::Aio)
    } else if key == "azp"@ {
        Some(ClaimKind::Azp)
    } else if key == "azpacr"@ {
        Some(ClaimKind::Azpacr)
    } else if key == "rh"@ {
        Some(ClaimKind::Rh)
    } else if key == "scp"@ {
        Some(ClaimKind::Scp)
    } else if key == "uti"@ {
        Some(ClaimKind::Uti)
    } else if key == "appid"@ {
        Some(ClaimKind::Appid)
    } else if key == "roles"@ {
        Some(ClaimKind::Roles)
    } else if key == "wids"@ {
        Some(ClaimKind::Wids)
    } else if key == "groups"@ {
        Some(ClaimKind::Groups)
    } else if key == "hasgroups"@ {
        Some(ClaimKind::Hasgroups)
    } else {
        None
    }
}

/// Looks a claim name up in the registry.
pub fn lookup(key: &str) -> (r: Option<ClaimKind>)
    ensures
        r == registered(key@),
{
    if same_text(key, "typ") {
        Some(ClaimKind::Typ)
    } else if same_text(key, "nonce") {
        Some(ClaimKind::Nonce)
    } else if same_text(key, "alg") {
        Some(ClaimKind::Alg)
    } else if same_text(key, "kid") {
        Some(ClaimKind::Kid)
    } else if same_text(key, "x5t") {
        Some(ClaimKind::X5t)
    } else if same_text(key, "iss") {
        Some(ClaimKind::Iss)
    } else if same_text(key, "sub") {
        Some(ClaimKind::Sub)
    } else if same_text(key, "aud") {
        Some(ClaimKind::Aud)
    } else if same_text(key, "exp") {
        Some(ClaimKind::Exp)
    } else if same_text(key, "nbf") {
        Some(ClaimKind::Nbf)
    } else if same_text(key, "iat") {
        Some(ClaimKind::Iat)
    } else if same_text(key, "jti") {
        Some(ClaimKind::Jti)
    } else if same_text(key, "name") {
        Some(ClaimKind::Name)
    } else if same_text(key, "given_name") {
        Some(ClaimKind::GivenName)
    } else if same_text(key, "family_name") {
        Some(ClaimKind::FamilyName)
    } else if same_text(key, "middle_name") {
        Some(ClaimKind::MiddleName)
    } else if same_text(key, "nickname") {
        Some(ClaimKind::Nickname)
    } else if same_text(key, "preferred_username") {
        Some(ClaimKind::PreferredUsername)
    } else if same_text(key, "profile") {
        Some(ClaimKind::Profile)
    } else if same_text(key, "picture") {
        Some(ClaimKind::Picture)
    } else if same_text(key, "website") {
        Some(ClaimKind::Website)
    } else if same_text(key, "email") {
        Some(ClaimKind::Email)
    } else if same_text(key, "email_verified") {
        Some(ClaimKind::EmailVerified)
    } else if same_text(key, "gender") {
        Some(ClaimKind::Gender)
    } else if same_text(key, "birthdate") {
        Some(ClaimKind::Birthdate)
    } else if same_text(key, "zoneinfo") {
        Some(ClaimKind::Zoneinfo)
    } else if same_text(key, "locale") {
        Some(ClaimKind::Locale)
    } else if same_text(key, "phone_number") {
        Some(ClaimKind::PhoneNumber)
    } else if same_text(key, "phone_number_verified") {
        Some(ClaimKind::PhoneNumberVerified)
    } else if same_text(key, "address") {
        Some(ClaimKind::Address)
    } else if same_text(key, "updated_at") {
        Some(ClaimKind::UpdatedAt)
    } else if same_text(key, "cnf") {
        Some(ClaimKind::Cnf)
    } else if same_text(key, "sip_from_tag") {
        Some(ClaimKind::SipFromTag)
    } else if same_text(key, "sip_date") {
        Some(ClaimKind::SipDate)
    } else if same_text(key, "sip_callid") {
        Some(ClaimKind::SipCallid)
    } else if same_text(key, "sip_cseq_num") {
        Some(ClaimKind::SipCseqNum)
    } else if same_text(key, "sip_via_branch") {
        Some(ClaimKind::SipViaBranch)
    } else if same_text(key, "orig") {
        Some(ClaimKind::Orig)
    } else if same_text(key, "dest") {
        Some(ClaimKind::Dest)
    } else if same_text(key, "mky") {
        Some(ClaimKind::Mky)
    } else if same_text(key, "events") {
        Some(ClaimKind::Events)
    } else if same_text(key, "toe") {
        Some(ClaimKind::Toe)
    } else if same_text(key, "txn") {
        Some(ClaimKind::Txn)
    } else if same_text(key, "rph") {
        Some(ClaimKind::Rph)
    } else if same_text(key, "sid") {
        Some(ClaimKind::Sid)
    } else if same_text(key, "vot") {
        Some(ClaimKind::Vot)
    } else if same_text(key, "vtm") {
        Some(ClaimKind::Vtm)
    } else if same_text(key, "attest") {
        Some(ClaimKind::Attest)
    } else if same_text(key, "origid") {
        Some(ClaimKind::Origid)
    } else if same_text(key, "act") {
        Some(ClaimKind::Act)
    } else if same_text(key, "scope") {
        Some(ClaimKind::Scope)
    } else if same_text(key, "client_id") {
        Some(ClaimKind::ClientId)
    } else if same_text(key, "may_act") {
        Some(ClaimKind::MayAct)
    } else if same_text(key, "jcard") {
        Some(ClaimKind::Jcard)
    } else if same_text(key, "at_use_nbr") {
        Some(ClaimKind::AtUseNbr)
    } else if same_text(key, "div") {
        Some(ClaimKind::Div)
    } else if same_text(key, "opt") {
        Some(ClaimKind::Opt)
    } else if same_text(key, "idp") {
        Some(ClaimKind::Idp)
    } else if same_text(key, "ver") {
        Some(ClaimKind::Ver)
    } else if same_text(key, "oid") {
        Some(ClaimKind::Oid)
    } else if same_text(key, "tid") {
        Some(ClaimKind::Tid)
    } else if same_text(key, "aio") {
        Some(ClaimKind::Aio)
    } else if same_text(key, "azp") {
        Some(ClaimKind::Azp)
    } else if same_text(key, "azpacr") {
        Some(ClaimKind::Azpacr)
    } else if same_text(key, "rh") {
        Some(ClaimKind::Rh)
    } else if same_text(key, "scp") {
        Some(ClaimKind::Scp)
    } else if same_text(key, "uti") {
        Some(ClaimKind::Uti)
    } else if same_text(key, "appid") {
        Some(ClaimKind::Appid)
    } else if same_text(key, "roles") {
        Some(ClaimKind::Roles)
    } else if same_text(key, "wids") {
        Some(ClaimKind::Wids)
    } else if same_text(key, "groups") {
        Some(ClaimKind::Groups)
    } else if same_text(key, "hasgroups") {
        Some(ClaimKind::Hasgroups)
    } else {
        None
    }
}

/// One decoded entry of a token's claim set. The known claims carry their
/// coerced value; `custom` keeps a name outside the registry with its value.
#[derive(Debug, PartialEq)]
#[allow(non_camel_case_types)]
pub enum TokenClaim {
    typ,
    nonce(String),
    alg(String),
    kid(String),
    x5t(String),
    iss(String),
    subject(String),
    aud(String),
    exp(JsNumber),
    nbf(JsNumber),
    iat(JsNumber),
    jti(String),
    name(String),
    given_name(String),
    family_name(String),
    middle_name(String),
    nickname(String),
    preferred_username(String),
    profile(String),
    picture(String),
    website(String),
    email(String),
    email_verified(bool),
    gender(String),
    birthdate(String),
    zoneinfo(String),
    locale(String),
    phone_number(String),
    phone_number_verified(bool),
    address(ClaimValue),
    updated_at(JsNumber),
    cnf(ClaimValue),
    sip_from_tag(String),
    sip_date(JsNumber),
    sip_callid(String),
    sip_cseq_num(String),
    sip_via_branch(String),
    orig(ClaimValue),
    dest(ClaimValue),
    mky(ClaimValue),
    events(ClaimValue),
    toe(JsNumber),
    txn(String),
    rph(ClaimValue),
    sid(String),
    vot(String),
    vtm(String),
    attest(String),
    origid(String),
    act(ClaimValue),
    scope(String),
    client_id(String),
    may_act(ClaimValue),
    jcard(ClaimValue),
    at_use_nbr(JsNumber),
    div(ClaimValue),
    opt(String),
    idp(String),
    ver(String),
    oid(String),
    tid(String),
    aio(String),
    azp(String),
    azpacr(String),
    rh(String),
    scp(String),
    uti(String),
    appid(String),
    roles(Vec<ClaimValue>),
    wids(Vec<ClaimValue>),
    groups(Vec<ClaimValue>),
    hasgroups(bool),
    custom(String, ClaimValue),
}

/// The claim that a known registry entry forms from a payload of its shape.
pub open spec fn known_claim(kind: ClaimKind, payload: ClaimPayload) -> TokenClaim {
    match kind {
        ClaimKind::Typ => TokenClaim::typ,
        ClaimKind::Nonce => TokenClaim::nonce(payload->Text_0),
        ClaimKind::Alg => TokenClaim::alg(payload->Text_0),
        ClaimKind::Kid => TokenClaim::kid(payload->Text_0),
        ClaimKind::X5t => TokenClaim::x5t(payload->Text_0),
        ClaimKind::Iss => TokenClaim::iss(payload->Text_0),
        ClaimKind::Sub => TokenClaim::subject(payload->Text_0),
        ClaimKind::Aud => TokenClaim::aud(payload->Text_0),
        ClaimKind::Exp => TokenClaim::exp(payload->Number_0),
        ClaimKind::Nbf => TokenClaim::nbf(payload->Number_0),
        ClaimKind::Iat => TokenClaim::iat(payload->Number_0),
        ClaimKind::Jti => TokenClaim::jti(payload->Text_0),
        ClaimKind::Name => TokenClaim::name(payload->Text_0),
        ClaimKind::GivenName => TokenClaim::given_name(payload->Text_0),
        ClaimKind::FamilyName => TokenClaim::family_name(payload->Text_0),
        ClaimKind::MiddleName => TokenClaim::middle_name(payload->Text_0),
        ClaimKind::Nickname => TokenClaim::nickname(payload->Text_0),
        ClaimKind::PreferredUsername => TokenClaim::preferred_username(payload->Text_0),
        ClaimKind::Profile => TokenClaim::profile(payload->Text_0),
        ClaimKind::Picture => TokenClaim::picture(payload->Text_0),
        ClaimKind::Website => TokenClaim::website(payload->Text_0),
        ClaimKind::Email => TokenClaim::email(payload->Text_0),
        ClaimKind::EmailVerified => TokenClaim::email_verified(payload->Boolean_0),
        ClaimKind::Gender => TokenClaim::gender(payload->Text_0),
        ClaimKind::Birthdate => TokenClaim::birthdate(payload->Text_0),
        ClaimKind::Zoneinfo => TokenClaim::zoneinfo(payload->Text_0),
        ClaimKind::Locale => TokenClaim::locale(payload->Text_0),
        ClaimKind::PhoneNumber => TokenClaim::phone_number(payload->Text_0),
        ClaimKind::PhoneNumberVerified => TokenClaim::phone_number_verified(payload->Boolean_0),
        ClaimKind::Address => TokenClaim::address(payload->Object_0),
        ClaimKind::UpdatedAt => TokenClaim::updated_at(payload->Number_0),
        ClaimKind::Cnf => TokenClaim::cnf(payload->Object_0),
        ClaimKind::SipFromTag => TokenClaim::sip_from_tag(payload->Text_0),
        ClaimKind::SipDate => TokenClaim::sip_date(payload->Number_0),
        ClaimKind::SipCallid => TokenClaim::sip_callid(payload->Text_0),
        ClaimKind::SipCseqNum => TokenClaim::sip_cseq_num(payload->Text_0),
        ClaimKind::SipViaBranch => TokenClaim::sip_via_branch(payload->Text_0),
        ClaimKind::Orig => TokenClaim::orig(payload->Object_0),
        ClaimKind::Dest => TokenClaim::dest(payload->Object_0),
        ClaimKind::Mky => TokenClaim::mky(payload->Object_0),
        ClaimKind::Events => TokenClaim::events(payload->Object_0),
        ClaimKind::Toe => TokenClaim::toe(payload->Number_0),
        ClaimKind::Txn => TokenClaim::txn(payload->Text_0),
        ClaimKind::Rph => TokenClaim::rph(payload->Object_0),
        ClaimKind::Sid => TokenClaim::sid(payload->Text_0),
        ClaimKind::Vot => TokenClaim::vot(payload->Text_0),
        ClaimKind::Vtm => TokenClaim::vtm(payload->Text_0),
        ClaimKind::Attest => TokenClaim::attest(payload->Text_0),
        ClaimKind::Origid => TokenClaim::origid(payload->Text_0),
        ClaimKind::Act => TokenClaim::act(payload->Object_0),
        ClaimKind::Scope => TokenClaim::scope(payload->Text_0),
        ClaimKind::ClientId => TokenClaim::client_id(payload->Text_0),
        ClaimKind::MayAct => TokenClaim::may_act(payload->Object_0),
        ClaimKind::Jcard => TokenClaim::jcard(payload->Object_0),
        ClaimKind::AtUseNbr => TokenClaim::at_use_nbr(payload->Number_0),
        ClaimKind::Div => TokenClaim::div(payload->Object_0),
        ClaimKind::Opt => TokenClaim::opt(payload->Text_0),
        ClaimKind::Idp => TokenClaim::idp(payload->Text_0),
        ClaimKind::Ver => TokenClaim::ver(payload->Text_0),
        ClaimKind::Oid => TokenClaim::oid(payload->Text_0),
        ClaimKind::Tid => TokenClaim::tid(payload->Text_0),
        ClaimKind::Aio => TokenClaim::aio(payload->Text_0),
        ClaimKind::Azp => TokenClaim::azp(payload->Text_0),
        ClaimKind::Azpacr => TokenClaim::azpacr(payload->Text_0),
        ClaimKind::Rh => TokenClaim::rh(payload->Text_0),
        ClaimKind::Scp => TokenClaim::scp(payload->Text_0),
        ClaimKind::Uti => TokenClaim::uti(payload->Text_0),
        ClaimKind::Appid => TokenClaim::appid(payload->Text_0),
        ClaimKind::Roles => TokenClaim::roles(payload->Sequence_0),
        ClaimKind::Wids => TokenClaim::wids(payload->Sequence_0),
        ClaimKind::Groups => TokenClaim::groups(payload->Sequence_0),
        ClaimKind::Hasgroups => TokenClaim::hasgroups(payload->Boolean_0),
    }
}

impl TokenClaim {
    /// Forms the claim of a known registry entry from a payload of its shape.
    pub fn known(kind: ClaimKind, payload: ClaimPayload) -> (r: TokenClaim)
        requires
            payload_shape(payload) == shape_of(kind),
        ensures
            r == known_claim(kind, payload),
    {
        match payload {
            ClaimPayload::Constant => match kind {
                ClaimKind::Typ => TokenClaim::typ,
                _ => unreached(),
            },
            ClaimPayload::Text(v) => match kind {
                ClaimKind::Nonce => TokenClaim::nonce(v),
                ClaimKind::Alg => TokenClaim::alg(v),
                ClaimKind::Kid => TokenClaim::kid(v),
                ClaimKind::X5t => TokenClaim::x5t(v),
                ClaimKind::Iss => TokenClaim::iss(v),
                ClaimKind::Sub => TokenClaim::subject(v),
                ClaimKind::Aud => TokenClaim::aud(v),
                ClaimKind::Jti => TokenClaim::jti(v),
                ClaimKind::Name => TokenClaim::name(v),
                ClaimKind::GivenName => TokenClaim::given_name(v),
                ClaimKind::FamilyName => TokenClaim::family_name(v),
                ClaimKind::MiddleName => TokenClaim::middle_name(v),
                ClaimKind::Nickname => TokenClaim::nickname(v),
                ClaimKind::PreferredUsername => TokenClaim::preferred_username(v),
                ClaimKind::Profile => TokenClaim::profile(v),
                ClaimKind::Picture => TokenClaim::picture(v),
                ClaimKind::Website => TokenClaim::website(v),
                ClaimKind::Email => TokenClaim::email(v),
                ClaimKind::Gender => TokenClaim::gender(v),
                ClaimKind::Birthdate => TokenClaim::birthdate(v),
                ClaimKind::Zoneinfo => TokenClaim::zoneinfo(v),
                ClaimKind::Locale => TokenClaim::locale(v),
                ClaimKind::PhoneNumber => TokenClaim::phone_number(v),
                ClaimKind::SipFromTag => TokenClaim::sip_from_tag(v),
                ClaimKind::SipCallid => TokenClaim::sip_callid(v),
                ClaimKind::SipCseqNum => TokenClaim::sip_cseq_num(v),
                ClaimKind::SipViaBranch => TokenClaim::sip_via_branch(v),
                ClaimKind::Txn => TokenClaim::txn(v),
                ClaimKind::Sid => TokenClaim::sid(v),
                ClaimKind::Vot => TokenClaim::vot(v),
                ClaimKind::Vtm => TokenClaim::vtm(v),
                ClaimKind::Attest => TokenClaim::attest(v),
                ClaimKind::Origid => TokenClaim::origid(v),
                ClaimKind::Scope => TokenClaim::scope(v),
                ClaimKind::ClientId => TokenClaim::client_id(v),
                ClaimKind::Opt => TokenClaim::opt(v),
                ClaimKind::Idp => TokenClaim::idp(v),
                ClaimKind::Ver => TokenClaim::ver(v),
                ClaimKind::Oid => TokenClaim::oid(v),
                ClaimKind::Tid => TokenClaim::tid(v),
                ClaimKind::Aio => TokenClaim::aio(v),
                ClaimKind::Azp => TokenClaim::azp(v),
                ClaimKind::Azpacr => TokenClaim::azpacr(v),
                ClaimKind::Rh => TokenClaim::rh(v),
                ClaimKind::Scp => TokenClaim::scp(v),
                ClaimKind::Uti => TokenClaim::uti(v),
                ClaimKind::Appid => TokenClaim::appid(v),
                _ => unreached(),
            },
            ClaimPayload::Number(v) => match kind {
                ClaimKind::Exp => TokenClaim::exp(v),
                ClaimKind::Nbf => TokenClaim::nbf(v),
                ClaimKind::Iat => TokenClaim::iat(v),
                ClaimKind::UpdatedAt => TokenClaim::updated_at(v),
                ClaimKind::SipDate => TokenClaim::sip_date(v),
                ClaimKind::Toe => TokenClaim::toe(v),
                ClaimKind::AtUseNbr => TokenClaim::at_use_nbr(v),
                _ => unreached(),
            },
            ClaimPayload::Boolean(v) => match kind {
                ClaimKind::EmailVerified => TokenClaim::email_verified(v),
                ClaimKind::PhoneNumberVerified => TokenClaim::phone_number_verified(v),
                ClaimKind::Hasgroups => TokenClaim::hasgroups(v),
                _ => unreached(),
            },
            ClaimPayload::Sequence(v) => match kind {
                ClaimKind::Roles => TokenClaim::roles(v),
                ClaimKind::Wids => TokenClaim::wids(v),
                ClaimKind::Groups => TokenClaim::groups(v),
                _ => unreached(),
            },
            ClaimPayload::Object(v) => match kind {
                ClaimKind::Address => TokenClaim::address(v),
                ClaimKind::Cnf => TokenClaim::cnf(v),
                ClaimKind::Orig => TokenClaim::orig(v),
                ClaimKind::Dest => TokenClaim::dest(v),
                ClaimKind::Mky => TokenClaim::mky(v),
                ClaimKind::Events => TokenClaim::events(v),
                ClaimKind::Rph => TokenClaim::rph(v),
                ClaimKind::Act => TokenClaim::act(v),
                ClaimKind::MayAct => TokenClaim::may_act(v),
                ClaimKind::Jcard => TokenClaim::jcard(v),
                ClaimKind::Div => TokenClaim::div(v),
                _ => unreached(),
            },
        }
    }
}

/// The name under which a claim stands in a claim set.
pub open spec fn claim_key(claim: TokenClaim) -> Seq<char> {
    match claim {
        TokenClaim::typ => "typ"@,
        TokenClaim::nonce(_) => "nonce"@,
        TokenClaim::alg(_) => "alg"@,
        TokenClaim::kid(_) => "kid"@,
        TokenClaim::x5t(_) => "x5t"@,
        TokenClaim::iss(_) => "iss"@,
        TokenClaim::subject(_) => "sub"@,
        TokenClaim::aud(_) => "aud"@,
        TokenClaim::exp(_) => "exp"@,
        TokenClaim::nbf(_) => "nbf"@,
        TokenClaim::iat(_) => "iat"@,
        TokenClaim::jti(_) => "jti"@,
        TokenClaim::name(_) => "name"@,
        TokenClaim::given_name(_) => "given_name"@,
        TokenClaim::family_name(_) => "family_name"@,
        TokenClaim::middle_name(_) => "middle_name"@,
        TokenClaim::nickname(_) => "nickname"@,
        TokenClaim::preferred_username(_) => "preferred_username"@,
        TokenClaim::profile(_) => "profile"@,
        TokenClaim::picture(_) => "picture"@,
        TokenClaim::website(_) => "website"@,
        TokenClaim::email(_) => "email"@,
        TokenClaim::email_verified(_) => "email_verified"@,
        TokenClaim::gender(_) => "gender"@,
        TokenClaim::birthdate(_) => "birthdate"@,
        TokenClaim::zoneinfo(_) => "zoneinfo"@,
        TokenClaim::locale(_) => "locale"@,
        TokenClaim::phone_number(_) => "phone_number"@,
        TokenClaim::phone_number_verified(_) => "phone_number_verified"@,
        TokenClaim::address(_) => "address"@,
        TokenClaim::updated_at(_) => "updated_at"@,
        TokenClaim::cnf(_) => "cnf"@,
        TokenClaim::sip_from_tag(_) => "sip_from_tag"@,
        TokenClaim::sip_date(_) => "sip_date"@,
        TokenClaim::sip_callid(_) => "sip_callid"@,
        TokenClaim::sip_cseq_num(_) => "sip_cseq_num"@,
        TokenClaim::sip_via_branch(_) => "sip_via_branch"@,
        TokenClaim::orig(_) => "orig"@,
        TokenClaim::dest(_) => "dest"@,
        TokenClaim::mky(_) => "mky"@,
        TokenClaim::events(_) => "events"@,
        TokenClaim::toe(_) => "toe"@,
        TokenClaim::txn(_) => "txn"@,
        TokenClaim::rph(_) => "rph"@,
        TokenClaim::sid(_) => "sid"@,
        TokenClaim::vot(_) => "vot"@,
        TokenClaim::vtm(_) => "vtm"@,
        TokenClaim::attest(_) => "attest"@,
        TokenClaim::origid(_) => "origid"@,
        TokenClaim::act(_) => "act"@,
        TokenClaim::scope(_) => "scope"@,
        TokenClaim::client_id(_) => "client_id"@,
        TokenClaim::may_act(_) => "may_act"@,
        TokenClaim::jcard(_) => "jcard"@,
        TokenClaim::at_use_nbr(_) => "at_use_nbr"@,
        TokenClaim::div(_) => "div"@,
        TokenClaim::opt(_) => "opt"@,
        TokenClaim::idp(_) => "idp"@,
        TokenClaim::ver(_) => "ver"@,
        TokenClaim::oid(_) => "oid"@,
        TokenClaim::tid(_) => "tid"@,
        TokenClaim::aio(_) => "aio"@,
        TokenClaim::azp(_) => "azp"@,
        TokenClaim::azpacr(_) => "azpacr"@,
        TokenClaim::rh(_) => "rh"@,
        TokenClaim::scp(_) => "scp"@,
        TokenClaim::uti(_) => "uti"@,
        TokenClaim::appid(_) => "appid"@,
        TokenClaim::roles(_) => "roles"@,
        TokenClaim::wids(_) => "wids"@,
        TokenClaim::groups(_) => "groups"@,
        TokenClaim::hasgroups(_) => "hasgroups"@,
        TokenClaim::custom(key, _) => key@,
    }
}

/// The value that a claim carries, written back as a payload value; the
/// constant `typ` claim carries none.
pub open spec fn claim_value(claim: TokenClaim) -> Option<ClaimValue> {
    match claim {
        TokenClaim::typ => None,
        TokenClaim::nonce(v) => Some(ClaimValue::Text(v)),
        TokenClaim::alg(v) => Some(ClaimValue::Text(v)),
        TokenClaim::kid(v) => Some(ClaimValue::Text(v)),
        TokenClaim::x5t(v) => Some(ClaimValue::Text(v)),
        TokenClaim::iss(v) => Some(ClaimValue::Text(v)),
        TokenClaim::subject(v) => Some(ClaimValue::Text(v)),
        TokenClaim::aud(v) => Some(ClaimValue::Text(v)),
        TokenClaim::exp(v) => Some(ClaimValue::Number(v)),
        TokenClaim::nbf(v) => Some(ClaimValue::Number(v)),
        TokenClaim::iat(v) => Some(ClaimValue::Number(v)),
        TokenClaim::jti(v) => Some(ClaimValue::Text(v)),
        TokenClaim::name(v) => Some(ClaimValue::Text(v)),
        TokenClaim::given_name(v) => Some(ClaimValue::Text(v)),
        TokenClaim::family_name(v) => Some(ClaimValue::Text(v)),
        TokenClaim::middle_name(v) => Some(ClaimValue::Text(v)),
        TokenClaim::nickname(v) => Some(ClaimValue::Text(v)),
        TokenClaim::preferred_username(v) => Some(ClaimValue::Text(v)),
        TokenClaim::profile(v) => Some(ClaimValue::Text(v)),
        TokenClaim::picture(v) => Some(ClaimValue::Text(v)),
        TokenClaim::website(v) => Some(ClaimValue::Text(v)),
        TokenClaim::email(v) => Some(ClaimValue::Text(v)),
        TokenClaim::email_verified(v) => Some(ClaimValue::Bool(v)),
        TokenClaim::gender(v) => Some(ClaimValue::Text(v)),
        TokenClaim::birthdate(v) => Some(ClaimValue::Text(v)),
        TokenClaim::zoneinfo(v) => Some(ClaimValue::Text(v)),
        TokenClaim::locale(v) => Some(ClaimValue::Text(v)),
        TokenClaim::phone_number(v) => Some(ClaimValue::Text(v)),
        TokenClaim::phone_number_verified(v) => Some(ClaimValue::Bool(v)),
        TokenClaim::address(v) => Some(v),
        TokenClaim::updated_at(v) => Some(ClaimValue::Number(v)),
        TokenClaim::cnf(v) => Some(v),
        TokenClaim::sip_from_tag(v) => Some(ClaimValue::Text(v)),
        TokenClaim::sip_date(v) => Some(ClaimValue::Number(v)),
        TokenClaim::sip_callid(v) => Some(ClaimValue::Text(v)),
        TokenClaim::sip_cseq_num(v) => Some(ClaimValue::Text(v)),
        TokenClaim::sip_via_branch(v) => Some(ClaimValue::Text(v)),
        TokenClaim::orig(v) => Some(v),
        TokenClaim::dest(v) => Some(v),
        TokenClaim::mky(v) => Some(v),
        TokenClaim::events(v) => Some(v),
        TokenClaim::toe(v) => Some(ClaimValue::Number(v)),
        TokenClaim::txn(v) => Some(ClaimValue::Text(v)),
        TokenClaim::rph(v) => Some(v),
        TokenClaim::sid(v) => Some(ClaimValue::Text(v)),
        TokenClaim::vot(v) => Some(ClaimValue::Text(v)),
        TokenClaim::vtm(v) => Some(ClaimValue::Text(v)),
        TokenClaim::attest(v) => Some(ClaimValue::Text(v)),
        TokenClaim::origid(v) => Some(ClaimValue::Text(v)),
        TokenClaim::act(v) => Some(v),
        TokenClaim::scope(v) => Some(ClaimValue::Text(v)),
        TokenClaim::client_id(v) => Some(ClaimValue::Text(v)),
        TokenClaim::may_act(v) => Some(v),
        TokenClaim::jcard(v) => Some(v),
        TokenClaim::at_use_nbr(v) => Some(ClaimValue::Number(v)),
        TokenClaim::div(v) => Some(v),
        TokenClaim::opt(v) => Some(ClaimValue::Text(v)),
        TokenClaim::idp(v) => Some(ClaimValue::Text(v)),
        TokenClaim::ver(v) => Some(ClaimValue::Text(v)),
        TokenClaim::oid(v) => Some(ClaimValue::Text(v)),
        TokenClaim::tid(v) => Some(ClaimValue::Text(v)),
        TokenClaim::aio(v) => Some(ClaimValue::Text(v)),
        TokenClaim::azp(v) => Some(ClaimValue::Text(v)),
        TokenClaim::azpacr(v) => Some(ClaimValue::Text(v)),
        TokenClaim::rh(v) => Some(ClaimValue::Text(v)),
        TokenClaim::scp(v) => Some(ClaimValue::Text(v)),
        TokenClaim::uti(v) => Some(ClaimValue::Text(v)),
        TokenClaim::appid(v) => Some(ClaimValue::Text(v)),
        TokenClaim::roles(v) => Some(ClaimValue::Array(v)),
        TokenClaim::wids(v) => Some(ClaimValue::Array(v)),
        TokenClaim::groups(v) => Some(ClaimValue::Array(v)),
        TokenClaim::hasgroups(v) => Some(ClaimValue::Bool(v)),
        TokenClaim::custom(_, v) => Some(v),
    }
}
/// Decoding of one entry: the known claim when the name is registered and the
/// value has the mandated shape, `custom` when the name is not registered, and
/// the entry handed back when the value does not fit.
pub open spec fn decode_entry(key: String, value: ClaimValue) -> Result<TokenClaim, (String, ClaimValue)> {
    match registered(key@) {
        None => Ok(TokenClaim::custom(key, value)),
        Some(kind) => match coerced(value, shape_of(kind)) {
            Ok(payload) => Ok(known_claim(kind, payload)),
            Err(value) => Err((key, value)),
        },
    }
}

impl TokenClaim {
    /// Decodes one entry of a claim bag; an entry whose value does not have
    /// the shape its name mandates comes back unconsumed.
    pub fn decode(key: String, value: ClaimValue) -> (r: Result<TokenClaim, (String, ClaimValue)>)
        ensures
            r == decode_entry(key, value),
    {
        match lookup(key.as_str()) {
            None => Ok(TokenClaim::custom(key, value)),
            Some(kind) => match coerce(value, kind.shape()) {
                Ok(payload) => Ok(TokenClaim::known(kind, payload)),
                Err(value) => Err((key, value)),
            },
        }
    }
}

/// What becomes of an entry whose value does not have the mandated shape.
#[derive(Clone, Copy, Debug, PartialEq, Eq, Structural)]
pub enum MismatchPolicy {
    /// The entry is left out of the claim set.
    Drop,
    /// The entry is kept as a `custom` claim, so that nothing is lost.
    KeepAsCustom,
}

impl Default for MismatchPolicy {
    fn default() -> (r: MismatchPolicy)
        ensures
            r == MismatchPolicy::KeepAsCustom,
    {
        MismatchPolicy::KeepAsCustom
    }
}

/// The claims that one entry contributes to a claim set.
pub open spec fn entry_claims(key: String, value: ClaimValue, policy: MismatchPolicy) -> Seq<TokenClaim> {
    match decode_entry(key, value) {
        Ok(claim) => seq![claim],
        Err((key, value)) => match policy {
            MismatchPolicy::Drop => seq![],
            MismatchPolicy::KeepAsCustom => seq![TokenClaim::custom(key, value)],
        },
    }
}

/// The claim set of a bag: each entry's claims, in the bag's order.
pub open spec fn decode_bag(bag: Seq<(String, ClaimValue)>, policy: MismatchPolicy) -> Seq<TokenClaim>
    decreases bag.len(),
{
    if bag.len() == 0 {
        seq![]
    } else {
        decode_bag(bag.drop_last(), policy) + entry_claims(bag.last().0, bag.last().1, policy)
    }
}

/// The claim set of a token: its claims in the order of the source payload.
#[derive(Debug, PartialEq)]
pub struct TokenClaims(pub Vec<TokenClaim>);

impl TokenClaims {
    /// Decodes a claim bag, entry by entry in its order, treating entries
    /// whose value does not fit their name as `policy` says.
    pub fn decode(bag: Vec<(String, ClaimValue)>, policy: MismatchPolicy) -> (r: TokenClaims)
        ensures
            r.0@ == decode_bag(bag@, policy),
    {
        let ghost entries = bag@;
        let mut claims: Vec<TokenClaim> = Vec::new();
        for entry in it: bag.into_iter()
            invariant
                it.seq() == entries,
                claims@ == decode_bag(entries.take(it.index() as int), policy),
        {
            proof {
                let i = it.index() as int;
                assert(entries.take(i + 1).drop_last() =~= entries.take(i));
            }
            let (key, value) = entry;
            match TokenClaim::decode(key, value) {
                Ok(claim) => claims.push(claim),
                Err((key, value)) => match policy {
                    MismatchPolicy::Drop => {},
                    MismatchPolicy::KeepAsCustom => claims.push(TokenClaim::custom(key, value)),
                },
            }
        }
        proof {
            assert(entries.take(entries.len() as int) =~= entries);
        }
        TokenClaims(claims)
    }

    /// Decodes a claim bag with the default policy, which keeps mismatched
    /// entries as `custom` claims.
    pub fn from_entries(bag: Vec<(String, ClaimValue)>) -> (r: TokenClaims)
        ensures
            r.0@ == decode_bag(bag@, MismatchPolicy::KeepAsCustom),
    {
        TokenClaims::decode(bag, MismatchPolicy::KeepAsCustom)
    }
}

/// The claim set of a single entry.
pub open spec fn decode_one(key: String, value: ClaimValue, policy: MismatchPolicy) -> Seq<TokenClaim> {
    decode_bag(seq![(key, value)], policy)
}

proof fn lemma_decode_one(key: String, value: ClaimValue, policy: MismatchPolicy)
    ensures
        decode_one(key, value, policy) == entry_claims(key, value, policy),
{
    let bag = seq![(key, value)];
    assert(bag.drop_last() =~= Seq::<(String, ClaimValue)>::empty());
    assert(decode_bag(bag.drop_last(), policy) =~= Seq::<TokenClaim>::empty());
    assert(decode_one(key, value, policy) =~= entry_claims(key, value, policy));
}

/// A registered name paired with a value of the shape it mandates decodes to
/// exactly one claim: the known claim of that name, carrying the value
/// unchanged.
pub proof fn law_registered_value_kept(key: String, value: ClaimValue, policy: MismatchPolicy)
    requires
        registered(key@) is Some,
        shape_of(registered(key@)->0) != ClaimShape::Constant,
        fits(value, shape_of(registered(key@)->0)),
    ensures
        decode_one(key, value, policy).len() == 1,
        !(decode_one(key, value, policy)[0] is custom),
        claim_key(decode_one(key, value, policy)[0]) == key@,
        claim_value(decode_one(key, value, policy)[0]) == Some(value),
{
    lemma_decode_one(key, value, policy);
}

/// A name outside the registry decodes to exactly one `custom` claim that
/// keeps the name and the value unchanged, whatever the value's shape.
pub proof fn law_unregistered_is_custom(key: String, value: ClaimValue, policy: MismatchPolicy)
    requires
        registered(key@) is None,
    ensures
        decode_one(key, value, policy) == seq![TokenClaim::custom(key, value)],
{
    lemma_decode_one(key, value, policy);
}

/// The name `typ` decodes to the constant `typ` claim, whatever its value.
pub proof fn law_typ_is_constant(key: String, value: ClaimValue, policy: MismatchPolicy)
    requires
        key@ == "typ"@,
    ensures
        decode_one(key, value, policy) == seq![TokenClaim::typ],
{
    lemma_decode_one(key, value, policy);
}

/// A registered name paired with a value of another shape is left out of
/// the claim set under `Drop`, and kept as `custom` under `KeepAsCustom`.
pub proof fn law_mismatch(key: String, value: ClaimValue)
    requires
        registered(key@) is Some,
        !fits(value, shape_of(registered(key@)->0)),
    ensures
        decode_one(key, value, MismatchPolicy::Drop) == Seq::<TokenClaim>::empty(),
        decode_one(key, value, MismatchPolicy::KeepAsCustom) == seq![TokenClaim::custom(key, value)],
{
    lemma_decode_one(key, value, MismatchPolicy::Drop);
    lemma_decode_one(key, value, MismatchPolicy::KeepAsCustom);
    assert(entry_claims(key, value, MismatchPolicy::Drop) =~= Seq::<TokenClaim>::empty());
}

/// Decoding keeps order: the claim set of two bags one after the other is
/// the claim set of the first followed by that of the second.
pub proof fn law_decode_concat(
    first: Seq<(String, ClaimValue)>,
    second: Seq<(String, ClaimValue)>,
    policy: MismatchPolicy,
)
    ensures
        decode_bag(first + second, policy) == decode_bag(first, policy) + decode_bag(second, policy),
    decreases second.len(),
{
    if second.len() == 0 {
        assert(first + second =~= first);
        assert(decode_bag(first, policy) + decode_bag(second, policy) =~= decode_bag(first, policy));
    } else {
        let whole = first + second;
        assert(whole.drop_last() =~= first + second.drop_last());
        law_decode_concat(first, second.drop_last(), policy);
        assert(decode_bag(whole, policy) =~= decode_bag(first, policy) + decode_bag(second, policy));
    }
}

/// Decoding is repeatable: equal bags give equal claim sets, claim for claim
/// and in the same order.
pub proof fn law_decode_repeatable(
    first: Seq<(String, ClaimValue)>,
    second: Seq<(String, ClaimValue)>,
    policy: MismatchPolicy,
)
    requires
        first == second,
    ensures
        decode_bag(first, policy) == decode_bag(second, policy),
{
}

/// Under `KeepAsCustom` no entry is lost: the claim set has one claim per
/// entry, and the claim at each position is the one of the entry there.
pub proof fn law_keep_as_custom_is_pointwise(bag: Seq<(String, ClaimValue)>)
    ensures
        decode_bag(bag, MismatchPolicy::KeepAsCustom).len() == bag.len(),
        forall|i: int|
            0 <= i < bag.len() ==> seq![#[trigger] decode_bag(bag, MismatchPolicy::KeepAsCustom)[i]]
                == entry_claims(bag[i].0, bag[i].1, MismatchPolicy::KeepAsCustom),
    decreases bag.len(),
{
    if bag.len() > 0 {
        law_keep_as_custom_is_pointwise(bag.drop_last());
        let last = bag.last();
        let claims = decode_bag(bag, MismatchPolicy::KeepAsCustom);
        let n = bag.len() - 1;
        assert(entry_claims(last.0, last.1, MismatchPolicy::KeepAsCustom).len() == 1);
        assert forall|i: int| 0 <= i < bag.len() implies seq![#[trigger] claims[i]]
            == entry_claims(bag[i].0, bag[i].1, MismatchPolicy::KeepAsCustom) by {
            if i < n {
                assert(bag[i] == bag.drop_last()[i]);
            } else {
                assert(seq![claims[i]] =~= entry_claims(last.0, last.1, MismatchPolicy::KeepAsCustom));
            }
        }
    }
}

} // verus!
