use jwt_claims::codec::decode_unix_timestamp;
use jwt_claims::codec::encode_unix_timestamp;
use jwt_claims::codec::TimestampWire;
use jwt_claims::Claims;
use jwt_claims::Duration;
use jwt_claims::JWTClaims;
use jwt_claims::JWTError;
use jwt_claims::NoCustomClaims;
use jwt_claims::UnixTimeStamp;
use jwt_claims::VerificationOptions;

fn empty_claims() -> JWTClaims<NoCustomClaims> {
    JWTClaims {
        issued_at: None,
        expires_at: None,
        invalid_before: None,
        issuer: None,
        subject: None,
        audience: None,
        jwt_id: None,
        custom: NoCustomClaims {},
    }
}

#[test]
fn empty_policy_empty_temporal_fields_succeeds() {
    let claims = empty_claims();
    let options = VerificationOptions::default();
    let now = UnixTimeStamp::from_secs(1_000_000);
    assert_eq!(claims.validate_at(&options, now), Ok(()));
}

#[test]
fn expired_one_second_beyond_default_tolerance_fails() {
    let now = UnixTimeStamp::from_secs(1_000_000);
    let mut claims = empty_claims();
    // Default tolerance is 900 s; one second further back must fail.
    claims.expires_at = Some(UnixTimeStamp::from_secs(1_000_000 - 900 - 1));
    let options = VerificationOptions::default();
    assert_eq!(
        claims.validate_at(&options, now),
        Err(JWTError::TokenHasExpired)
    );
}

#[test]
fn expired_exactly_at_default_tolerance_succeeds() {
    let now = UnixTimeStamp::from_secs(1_000_000);
    let mut claims = empty_claims();
    claims.expires_at = Some(UnixTimeStamp::from_secs(1_000_000 - 900));
    let options = VerificationOptions::default();
    assert_eq!(claims.validate_at(&options, now), Ok(()));
}

#[test]
fn required_issuer_missing_fails() {
    let claims = empty_claims();
    let mut options = VerificationOptions::default();
    options.required_issuer = Some(String::from("issuer-a"));
    let now = UnixTimeStamp::from_secs(1);
    assert_eq!(
        claims.validate_at(&options, now),
        Err(JWTError::RequiredIssuerMissing)
    );
}

#[test]
fn required_issuer_mismatch_fails() {
    let claims = empty_claims().with_issuer(String::from("issuer-b"));
    let mut options = VerificationOptions::default();
    options.required_issuer = Some(String::from("issuer-a"));
    let now = UnixTimeStamp::from_secs(1);
    assert_eq!(
        claims.validate_at(&options, now),
        Err(JWTError::RequiredIssuerMismatch)
    );
}

#[test]
fn required_issuer_equal_succeeds() {
    let claims = empty_claims().with_issuer(String::from("issuer-a"));
    let mut options = VerificationOptions::default();
    options.required_issuer = Some(String::from("issuer-a"));
    let now = UnixTimeStamp::from_secs(1);
    assert_eq!(claims.validate_at(&options, now), Ok(()));
}

#[test]
fn required_subject_missing_mismatch_equal() {
    let now = UnixTimeStamp::from_secs(1);
    let mut options = VerificationOptions::default();
    options.required_subject = Some(String::from("subject-a"));

    assert_eq!(
        empty_claims().validate_at(&options, now),
        Err(JWTError::RequiredSubjectMissing)
    );
    assert_eq!(
        empty_claims()
            .with_subject(String::from("subject-b"))
            .validate_at(&options, now),
        Err(JWTError::RequiredSubjectMismatch)
    );
    assert_eq!(
        empty_claims()
            .with_subject(String::from("subject-a"))
            .validate_at(&options, now),
        Ok(())
    );
}

#[test]
fn reject_before_cutoff_fails_after_cutoff() {
    let mut options = VerificationOptions::default();
    options.reject_before = Some(UnixTimeStamp::from_secs(100));
    let claims = empty_claims();
    assert_eq!(
        claims.validate_at(&options, UnixTimeStamp::from_secs(101)),
        Err(JWTError::OldTokenReused)
    );
    assert_eq!(
        claims.validate_at(&options, UnixTimeStamp::from_secs(100)),
        Ok(())
    );
}

#[test]
fn issued_in_the_future_beyond_tolerance_fails() {
    let now = UnixTimeStamp::from_secs(10_000);
    let options = VerificationOptions::default();
    let mut claims = empty_claims();
    claims.issued_at = Some(UnixTimeStamp::from_secs(10_000 + 901));
    assert_eq!(claims.validate_at(&options, now), Err(JWTError::ClockDrift));
    claims.issued_at = Some(UnixTimeStamp::from_secs(10_000 + 900));
    assert_eq!(claims.validate_at(&options, now), Ok(()));
}

#[test]
fn older_than_max_validity_fails() {
    let now = UnixTimeStamp::from_secs(10_000);
    let mut options = VerificationOptions::default();
    options.max_validity = Some(Duration::from_secs(3600));
    let mut claims = empty_claims();
    claims.issued_at = Some(UnixTimeStamp::from_secs(10_000 - 3601));
    assert_eq!(
        claims.validate_at(&options, now),
        Err(JWTError::TokenIsTooOld)
    );
    claims.issued_at = Some(UnixTimeStamp::from_secs(10_000 - 3600));
    assert_eq!(claims.validate_at(&options, now), Ok(()));
}

#[test]
fn not_valid_yet_fails_unless_future_accepted() {
    let now = UnixTimeStamp::from_secs(5_000);
    let mut claims = empty_claims();
    claims.invalid_before = Some(UnixTimeStamp::from_secs(5_001));
    let mut options = VerificationOptions::default();
    assert_eq!(
        claims.validate_at(&options, now),
        Err(JWTError::TokenNotValidYet)
    );
    options.accept_future = true;
    assert_eq!(claims.validate_at(&options, now), Ok(()));
}

#[test]
fn end_to_end_wire_round_trip_then_validate() {
    let t = UnixTimeStamp::from_secs(1_700_000_000);
    let claims = Claims::create_at(t, Duration::from_secs(3600));

    // Encode the temporal fields to their wire form, then decode them back.
    let iat = encode_unix_timestamp(&claims.issued_at.unwrap());
    let exp = encode_unix_timestamp(&claims.expires_at.unwrap());
    let nbf = encode_unix_timestamp(&claims.invalid_before.unwrap());

    let mut received = empty_claims();
    received.issued_at = Some(decode_unix_timestamp(&TimestampWire::Signed(iat)).unwrap());
    received.expires_at = Some(decode_unix_timestamp(&TimestampWire::Signed(exp)).unwrap());
    received.invalid_before = Some(decode_unix_timestamp(&TimestampWire::Signed(nbf)).unwrap());
    assert_eq!(received.issued_at, claims.issued_at);
    assert_eq!(received.expires_at, claims.expires_at);

    // At issue time, the default policy accepts the claim set.
    let options = VerificationOptions::default();
    assert_eq!(received.validate_at(&options, t), Ok(()));

    // One second past expiry, with an explicit zero tolerance, it is expired.
    let mut strict = VerificationOptions::default();
    strict.time_tolerance = Some(Duration::from_secs(0));
    let late = UnixTimeStamp::from_secs(1_700_000_000 + 3601);
    assert_eq!(
        received.validate_at(&strict, late),
        Err(JWTError::TokenHasExpired)
    );
}
