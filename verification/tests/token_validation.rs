use jwt_verify::Error;
use jwt_verify::IdPayload;
use jwt_verify::InvalidError;
use jwt_verify::UnverifiedToken;

fn b64u(data: &[u8]) -> String {
    base64::Engine::encode(&base64::engine::general_purpose::URL_SAFE_NO_PAD, data)
}

fn make_token(header: &str, claims: &str, sig: &[u8]) -> String {
    format!(
        "{}.{}.{}",
        b64u(header.as_bytes()),
        b64u(claims.as_bytes()),
        b64u(sig)
    )
}

const HEADER: &str = "{\"alg\":\"RS256\",\"kid\":\"testkey1\"}";
const FAR_FUTURE: u64 = 32503680000;

fn claims_json(aud: &str, iss: &str, exp: u64, iat: u64) -> String {
    format!(
        "{{\"iss\":\"{}\",\"sub\":\"subject1\",\"aud\":\"{}\",\"exp\":{},\"iat\":{}}}",
        iss, aud, exp, iat
    )
}

#[test]
fn missing_payload_segment() {
    let r = UnverifiedToken::<()>::validate("justoneblob", true, "client123");
    assert_eq!(
        r.err().unwrap(),
        Error::InvalidToken(InvalidError::TokenFormat("payload".to_string()))
    );
}

#[test]
fn missing_signature_segment() {
    let r = UnverifiedToken::<()>::validate("abc.def", true, "client123");
    assert_eq!(
        r.err().unwrap(),
        Error::InvalidToken(InvalidError::TokenFormat("signature".to_string()))
    );
}

#[test]
fn bad_base64_header_segment() {
    let token = format!("ab!cd.{}.AAAA", b64u(b"{}"));
    let r = UnverifiedToken::<()>::validate(&token, true, "client123");
    match r.err().unwrap() {
        Error::InvalidToken(InvalidError::Base64(_)) => {}
        other => panic!("expected a base64 rejection, got {:?}", other),
    }
}

#[test]
fn bad_json_header_segment() {
    let claims = claims_json("client123", "https://accounts.google.com", FAR_FUTURE, 1000);
    let token = make_token("not json at all", &claims, b"sig");
    let r = UnverifiedToken::<()>::validate(&token, true, "client123");
    match r.err().unwrap() {
        Error::InvalidToken(InvalidError::Json(_)) => {}
        other => panic!("expected a json rejection, got {:?}", other),
    }
}

#[test]
fn audience_mismatch_rejected_before_any_key_use() {
    let claims = claims_json("someone-else", "https://accounts.google.com", FAR_FUTURE, 1000);
    let token = make_token(HEADER, &claims, b"sig");
    let r = UnverifiedToken::<()>::validate(&token, true, "client123");
    assert_eq!(
        r.err().unwrap(),
        Error::InvalidToken(InvalidError::InvalidClaims("aud".to_string()))
    );
}

#[test]
fn issuer_mismatch_rejected() {
    let claims = claims_json("client123", "https://evil.example.com", FAR_FUTURE, 1000);
    let token = make_token(HEADER, &claims, b"sig");
    let r = UnverifiedToken::<()>::validate(&token, true, "client123");
    assert_eq!(
        r.err().unwrap(),
        Error::InvalidToken(InvalidError::InvalidClaims("iss".to_string()))
    );
}

#[test]
fn bare_issuer_form_accepted() {
    let claims = claims_json("client123", "accounts.google.com", FAR_FUTURE, 1000);
    let token = make_token(HEADER, &claims, b"sig");
    let r = UnverifiedToken::<()>::validate(&token, true, "client123");
    assert!(r.is_ok());
}

#[test]
fn issued_after_expiry_rejected_even_with_future_expiry() {
    let claims = claims_json(
        "client123",
        "https://accounts.google.com",
        FAR_FUTURE,
        FAR_FUTURE + 1,
    );
    let token = make_token(HEADER, &claims, b"sig");
    let r = UnverifiedToken::<()>::validate(&token, true, "client123");
    assert_eq!(
        r.err().unwrap(),
        Error::InvalidToken(InvalidError::InvalidClaims("iat > exp".to_string()))
    );
}

#[test]
fn expired_token_rejected_when_enforced() {
    let claims = claims_json("client123", "https://accounts.google.com", 1000, 500);
    let token = make_token(HEADER, &claims, b"sig");
    let r = UnverifiedToken::<()>::validate(&token, true, "client123");
    assert_eq!(r.err().unwrap(), Error::Expired);
}

#[test]
fn expired_token_passes_claims_checks_when_not_enforced() {
    let claims = claims_json("client123", "https://accounts.google.com", 1000, 500);
    let token = make_token(HEADER, &claims, b"sig");
    let r = UnverifiedToken::<()>::validate(&token, false, "client123");
    assert!(r.is_ok());
}

#[test]
fn expiry_boundary_is_inclusive() {
    let claims = claims_json("client123", "https://accounts.google.com", 5000, 1000);
    let token = make_token(HEADER, &claims, b"sig");
    // Exactly at the expiry instant the token still passes; one second
    // later it does not.
    assert!(UnverifiedToken::<()>::validate_at(&token, true, "client123", 5000).is_ok());
    assert_eq!(
        UnverifiedToken::<()>::validate_at(&token, true, "client123", 5001)
            .err()
            .unwrap(),
        Error::Expired
    );
}

#[test]
fn missing_claim_is_a_json_rejection() {
    let claims = "{\"iss\":\"https://accounts.google.com\",\"aud\":\"client123\"}";
    let token = make_token(HEADER, claims, b"sig");
    let r = UnverifiedToken::<()>::validate(&token, true, "client123");
    match r.err().unwrap() {
        Error::InvalidToken(InvalidError::Json(_)) => {}
        other => panic!("expected a json rejection, got {:?}", other),
    }
}

#[test]
fn claims_and_payload_read_from_same_bytes() {
    let claims = "{\"iss\":\"https://accounts.google.com\",\"sub\":\"subject1\",\
                  \"aud\":\"client123\",\"exp\":32503680000,\"iat\":1000,\
                  \"email\":\"user@example.com\",\"email_verified\":true,\"name\":\"Test User\"}";
    let token = make_token(HEADER, claims, b"sig");
    let u = UnverifiedToken::<IdPayload>::validate(&token, true, "client123").unwrap();
    assert_eq!(u.claims.issuer, "https://accounts.google.com");
    assert_eq!(u.claims.subject, "subject1");
    assert_eq!(u.claims.audience, "client123");
    assert_eq!(u.claims.expires_at, 32503680000);
    assert_eq!(u.claims.issued_at, 1000);
    assert_eq!(u.json_payload.email, Some("user@example.com".to_string()));
    assert_eq!(u.json_payload.email_verified, Some(true));
    assert_eq!(u.json_payload.name, Some("Test User".to_string()));
    assert_eq!(u.json_payload.picture, None);
    assert_eq!(u.json_payload.domain, None);
}

#[test]
fn signed_body_is_the_exact_transmitted_prefix() {
    let claims = claims_json("client123", "https://accounts.google.com", FAR_FUTURE, 1000);
    let token = make_token(HEADER, &claims, b"sig");
    let u = UnverifiedToken::<()>::validate(&token, true, "client123").unwrap();
    let second_dot = token
        .match_indices('.')
        .nth(1)
        .map(|(i, _)| i)
        .unwrap();
    assert_eq!(u.signed_body, token.as_bytes()[..second_dot].to_vec());
    assert_eq!(u.signature, b"sig".to_vec());
}

#[test]
fn extra_segments_are_ignored() {
    let claims = claims_json("client123", "https://accounts.google.com", FAR_FUTURE, 1000);
    let token = format!("{}.extra", make_token(HEADER, &claims, b"sig"));
    let u = UnverifiedToken::<()>::validate(&token, true, "client123").unwrap();
    assert_eq!(u.signature, b"sig".to_vec());
}

#[test]
fn base64_decode_rejects_padding() {
    assert!(jwt_verify::base64_decode("AQAB").is_ok());
    assert!(jwt_verify::base64_decode("AQ==").is_err());
}

#[test]
fn empty_token_is_missing_its_payload_segment() {
    let r = UnverifiedToken::<()>::validate("", true, "client123");
    assert_eq!(
        r.err().unwrap(),
        Error::InvalidToken(InvalidError::TokenFormat("payload".to_string()))
    );
}
