use msal_browser::claims::{ClaimValue, JsNumber, MismatchPolicy, TokenClaim, TokenClaims};

fn text(s: &str) -> ClaimValue {
    ClaimValue::Text(s.to_string())
}

fn num(x: f64) -> ClaimValue {
    ClaimValue::Number(JsNumber { bits: x.to_bits() })
}

fn entry(key: &str, value: ClaimValue) -> (String, ClaimValue) {
    (key.to_string(), value)
}

fn decode_one(key: &str, value: ClaimValue) -> Result<TokenClaim, (String, ClaimValue)> {
    TokenClaim::decode(key.to_string(), value)
}

/// A realistic id-token payload: the registered claims plus Azure ones.
fn id_token_bag() -> Vec<(String, ClaimValue)> {
    vec![
        entry("typ", text("JWT")),
        entry("alg", text("RS256")),
        entry("kid", text("nOo3ZDrODXEK1jKWhXslHR_KXEg")),
        entry("aud", text("6cb04018-a3f5-46a7-b995-940c78f5aef3")),
        entry("iss", text("https://login.microsoftonline.com/b9419818-09af-49c2-b0c3-653adc1f376e/v2.0")),
        entry("iat", num(1536361411.0)),
        entry("nbf", num(1536361411.0)),
        entry("exp", num(1536365311.0)),
        entry("aio", text("AXQAi/8IAAAAqxsuB+R4D2rFQqOETO4YdXbLD9kZ8xfXadeAM0Q2NkNT5izfg3uwbWSXhuSSj6UT5hy2D6WqApB5jKA6ZgZ9k/SU27uV9cetXfLOtpNttgk5DcBtk+LLstz/Jg+gYRmv9bUU4XlphTc6C86Jmj1FCw==")),
        entry("name", text("Abe Lincoln")),
        entry("nonce", text("123523")),
        entry("oid", text("00000000-0000-0000-66f3-3332eca7ea81")),
        entry("preferred_username", text("abeli@microsoft.com")),
        entry("rh", text("I")),
        entry("sub", text("HKZpfaHyWadeOouYlitjrI-KffTm222X5rrV3xDqfKQ")),
        entry("tid", text("3338040d-6c67-4c5b-b112-36a304b66dad")),
        entry("uti", text("fqiBqXLPj0eQa82S-IYFAA")),
        entry("ver", text("2.0")),
        entry("idp", text("https://sts.windows.net/72f988bf-86f1-41af-91ab-2d7cd011db47/")),
        entry("roles", ClaimValue::Array(vec![text("Admin"), text("Reader")])),
        entry("groups", ClaimValue::Array(vec![text("0e5d3c6e-0b32-4b60-8a52-4c4f02ab4b5e")])),
        entry("email_verified", ClaimValue::Bool(true)),
        entry("address", ClaimValue::Object(vec![entry("country", text("US"))])),
    ]
}

#[test]
fn registered_text_claim_keeps_value() {
    assert_eq!(decode_one("alg", text("RS256")), Ok(TokenClaim::alg("RS256".to_string())));
}

#[test]
fn registered_claims_of_each_shape() {
    assert_eq!(decode_one("exp", num(1536365311.0)), Ok(TokenClaim::exp(JsNumber { bits: 1536365311.0f64.to_bits() })));
    assert_eq!(decode_one("email_verified", ClaimValue::Bool(false)), Ok(TokenClaim::email_verified(false)));
    assert_eq!(decode_one("roles", ClaimValue::Array(vec![text("a")])), Ok(TokenClaim::roles(vec![text("a")])));
    let address = ClaimValue::Object(vec![entry("locality", text("Springfield"))]);
    assert_eq!(
        decode_one("address", ClaimValue::Object(vec![entry("locality", text("Springfield"))])),
        Ok(TokenClaim::address(address))
    );
    assert_eq!(decode_one("sub", text("subject")), Ok(TokenClaim::subject("subject".to_string())));
}

#[test]
fn object_claim_accepts_an_array() {
    assert_eq!(
        decode_one("cnf", ClaimValue::Array(vec![num(1.0)])),
        Ok(TokenClaim::cnf(ClaimValue::Array(vec![num(1.0)])))
    );
}

#[test]
fn unregistered_claim_is_custom() {
    assert_eq!(
        decode_one("custom_tenant_flag", ClaimValue::Bool(true)),
        Ok(TokenClaim::custom("custom_tenant_flag".to_string(), ClaimValue::Bool(true)))
    );
    assert_eq!(decode_one("", ClaimValue::Null), Ok(TokenClaim::custom(String::new(), ClaimValue::Null)));
    // Names are matched exactly: case and surrounding text matter.
    assert_eq!(decode_one("ALG", text("RS256")), Ok(TokenClaim::custom("ALG".to_string(), text("RS256"))));
    assert_eq!(decode_one("alg ", text("RS256")), Ok(TokenClaim::custom("alg ".to_string(), text("RS256"))));
}

#[test]
fn typ_is_constant_whatever_its_value() {
    assert_eq!(decode_one("typ", text("JWT")), Ok(TokenClaim::typ));
    assert_eq!(decode_one("typ", num(3.0)), Ok(TokenClaim::typ));
    assert_eq!(decode_one("typ", ClaimValue::Null), Ok(TokenClaim::typ));
    assert_eq!(decode_one("typ", ClaimValue::Array(vec![])), Ok(TokenClaim::typ));
}

#[test]
fn mismatched_value_comes_back_unconsumed() {
    assert_eq!(decode_one("exp", text("not-a-number")), Err(("exp".to_string(), text("not-a-number"))));
    assert_eq!(decode_one("alg", num(256.0)), Err(("alg".to_string(), num(256.0))));
    assert_eq!(decode_one("email_verified", text("true")), Err(("email_verified".to_string(), text("true"))));
    assert_eq!(decode_one("roles", text("Admin")), Err(("roles".to_string(), text("Admin"))));
    assert_eq!(decode_one("address", text("Main St")), Err(("address".to_string(), text("Main St"))));
    assert_eq!(decode_one("address", ClaimValue::Null), Err(("address".to_string(), ClaimValue::Null)));
}

// The two behaviours for a value of the wrong shape differ on purpose: `Drop`
// leaves the entry out, so the claim set is shorter than the bag, while the
// default keeps it as a `custom` claim so that nothing is lost.
#[test]
fn mismatch_policy_drop_loses_the_entry() {
    let bag = vec![entry("exp", text("not-a-number")), entry("alg", text("RS256"))];
    let claims = TokenClaims::decode(bag, MismatchPolicy::Drop);
    assert_eq!(claims.0, vec![TokenClaim::alg("RS256".to_string())]);
}

#[test]
fn mismatch_policy_keep_as_custom_is_the_default() {
    assert_eq!(MismatchPolicy::default(), MismatchPolicy::KeepAsCustom);
    let bag = vec![entry("exp", text("not-a-number")), entry("alg", text("RS256"))];
    let claims = TokenClaims::from_entries(bag);
    assert_eq!(
        claims.0,
        vec![
            TokenClaim::custom("exp".to_string(), text("not-a-number")),
            TokenClaim::alg("RS256".to_string()),
        ]
    );
}

#[test]
fn realistic_id_token_has_no_custom_claims() {
    let bag = id_token_bag();
    let n = bag.len();
    let claims = TokenClaims::decode(bag, MismatchPolicy::Drop);
    assert_eq!(claims.0.len(), n);
    assert!(claims.0.iter().all(|c| !matches!(c, TokenClaim::custom(_, _))));
    let alg = claims.0.iter().find_map(|c| if let TokenClaim::alg(a) = c { Some(a.clone()) } else { None });
    assert_eq!(alg, Some("RS256".to_string()));
}

#[test]
fn decoding_twice_gives_the_same_claims_in_order() {
    let first = TokenClaims::from_entries(id_token_bag());
    let second = TokenClaims::from_entries(id_token_bag());
    assert_eq!(first, second);
    assert_eq!(first.0[0], TokenClaim::typ);
    assert_eq!(first.0[1], TokenClaim::alg("RS256".to_string()));
    assert_eq!(first.0[first.0.len() - 1], TokenClaim::address(ClaimValue::Object(vec![entry("country", text("US"))])));
}

#[test]
fn decoding_keeps_the_order_of_concatenated_bags() {
    let a = vec![entry("zzz", num(1.0)), entry("iss", text("issuer"))];
    let b = vec![entry("exp", text("bad")), entry("hasgroups", ClaimValue::Bool(true))];
    let mut both = vec![entry("zzz", num(1.0)), entry("iss", text("issuer"))];
    both.extend(vec![entry("exp", text("bad")), entry("hasgroups", ClaimValue::Bool(true))]);
    let mut expected = TokenClaims::decode(a, MismatchPolicy::Drop).0;
    expected.extend(TokenClaims::decode(b, MismatchPolicy::Drop).0);
    assert_eq!(TokenClaims::decode(both, MismatchPolicy::Drop).0, expected);
    assert_eq!(
        expected,
        vec![
            TokenClaim::custom("zzz".to_string(), num(1.0)),
            TokenClaim::iss("issuer".to_string()),
            TokenClaim::hasgroups(true),
        ]
    );
}

#[test]
fn empty_bag_gives_empty_claim_set() {
    assert_eq!(TokenClaims::from_entries(vec![]).0, vec![]);
    assert_eq!(TokenClaims::decode(vec![], MismatchPolicy::Drop).0, vec![]);
}

#[test]
fn repeated_names_are_decoded_each_time() {
    let bag = vec![entry("nonce", text("a")), entry("nonce", text("b"))];
    assert_eq!(
        TokenClaims::from_entries(bag).0,
        vec![TokenClaim::nonce("a".to_string()), TokenClaim::nonce("b".to_string())]
    );
}
