use jwt_claims::Audiences;
use jwt_claims::Claims;
use jwt_claims::Duration;
use jwt_claims::JWTClaims;
use jwt_claims::NoCustomClaims;
use jwt_claims::UnixTimeStamp;
use jwt_claims::VerificationOptions;

#[derive(Clone, Debug, PartialEq, Eq)]
struct CustomPayload {
    department: String,
    admin: bool,
}

#[test]
fn create_at_sets_consistent_window() {
    let t = UnixTimeStamp::from_secs(1_000_000);
    let claims = Claims::create_at(t, Duration::from_secs(3600));
    assert_eq!(claims.issued_at, Some(t));
    assert_eq!(claims.invalid_before, Some(t));
    assert_eq!(claims.expires_at, Some(UnixTimeStamp::from_secs(1_003_600)));
    assert_eq!(claims.issuer, None);
    assert_eq!(claims.subject, None);
    assert_eq!(claims.audience, None);
    assert_eq!(claims.jwt_id, None);
}

#[test]
fn create_at_zero_duration_expires_at_issue_time() {
    let t = UnixTimeStamp::from_secs(42);
    let claims = Claims::create_at(t, Duration::from_secs(0));
    assert_eq!(claims.expires_at, Some(t));
    assert_eq!(claims.issued_at, Some(t));
    assert_eq!(claims.invalid_before, Some(t));
}

#[test]
fn with_custom_claims_at_embeds_payload() {
    let payload = CustomPayload { department: String::from("ops"), admin: true };
    let t = UnixTimeStamp::from_secs(500);
    let claims = Claims::with_custom_claims_at(payload.clone(), t, Duration::from_secs(60));
    assert_eq!(claims.custom, payload);
    assert_eq!(claims.issued_at, Some(t));
    assert_eq!(claims.invalid_before, Some(t));
    assert_eq!(claims.expires_at, Some(UnixTimeStamp::from_secs(560)));
}

#[test]
fn builders_set_their_own_fields() {
    let t = UnixTimeStamp::from_secs(1_000);
    let nbf = UnixTimeStamp::from_secs(2_000);
    let claims = Claims::create_at(t, Duration::from_secs(10))
        .with_issuer(String::from("issuer-1"))
        .with_subject(String::from("subject-1"))
        .with_audience(Audiences::AsString(String::from("audience-1")))
        .with_jwt_id(String::from("id-1"))
        .invalid_before(nbf);
    assert_eq!(claims.issuer, Some(String::from("issuer-1")));
    assert_eq!(claims.subject, Some(String::from("subject-1")));
    assert_eq!(
        claims.audience,
        Some(Audiences::AsString(String::from("audience-1")))
    );
    assert_eq!(claims.jwt_id, Some(String::from("id-1")));
    assert_eq!(claims.invalid_before, Some(nbf));
    assert_eq!(claims.issued_at, Some(t));
    assert_eq!(claims.expires_at, Some(UnixTimeStamp::from_secs(1_010)));
}

#[test]
fn builder_overwrites_only_its_field() {
    let t = UnixTimeStamp::from_secs(7);
    let claims = Claims::create_at(t, Duration::from_secs(1))
        .with_issuer(String::from("first"))
        .with_issuer(String::from("second"));
    assert_eq!(claims.issuer, Some(String::from("second")));
    assert_eq!(claims.subject, None);
    assert_eq!(claims.jwt_id, None);
}

#[test]
fn create_with_real_clock_validates_under_empty_policy() {
    let claims: JWTClaims<NoCustomClaims> = Claims::create(Duration::from_secs(3600));
    assert!(claims.issued_at.is_some());
    assert_eq!(claims.invalid_before, claims.issued_at);
    let options = VerificationOptions::default();
    assert_eq!(claims.validate(&options), Ok(()));
}

#[test]
fn with_custom_claims_real_clock_keeps_payload() {
    let payload = CustomPayload { department: String::from("lab"), admin: false };
    let claims = Claims::with_custom_claims(payload.clone(), Duration::from_secs(60));
    assert_eq!(claims.custom, payload);
    assert_eq!(claims.invalid_before, claims.issued_at);
}
