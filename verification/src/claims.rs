//! The claim set entity, its builder-style setters, the factory that creates
//! fresh claim sets, and the validator that checks a claim set against a
//! caller-supplied policy.
//!
//! Each builder-style setter assigns exactly the field it names and leaves
//! every other field unchanged; its contract says so field by field.

use vstd::prelude::*;
use crate::common::VerificationOptions;
use crate::error::JWTError;
use crate::time::Duration;
use crate::time::UnixTimeStamp;
use crate::time::TICKS_PER_SEC;

verus! {

/// Clock tolerance applied when the policy does not set one, in seconds.
pub const DEFAULT_TIME_TOLERANCE_SECS: u64 = 900;

/// Type representing the fact that no application-defined claims are needed.
#[derive(Clone, Copy, PartialEq, Eq, Structural, Debug)]
pub struct NoCustomClaims {}

/// The audience of a claim set: a single value, or a set of unique values.
///
/// The wire form tells the two apart only by shape (bare string against
/// sequence of strings); see `crate::codec::encode_audiences`.
#[derive(Clone, Debug, PartialEq, Eq)]
pub enum Audiences {
    /// A single audience.
    AsString(String),
    /// A set of audiences; holds no two equal values.
    AsSet(Vec<String>),
}

/// Whether some element of `s` reads `x`.
pub open spec fn contains_str(s: Seq<String>, x: Seq<char>) -> bool {
    exists|i: int| 0 <= i < s.len() && s[i]@ == x
}

/// Whether no two elements of `s` read the same.
pub open spec fn no_dup_views(s: Seq<String>) -> bool {
    forall|i: int, j: int| 0 <= i < j < s.len() ==> s[i]@ != s[j]@
}

impl Audiences {
    /// A set of audiences holds no duplicates; a single audience always
    /// stands well formed.
    pub open spec fn wf(&self) -> bool {
        match self {
            Audiences::AsString(_) => true,
            Audiences::AsSet(v) => no_dup_views(v@),
        }
    }
}

/// Well-formedness of an optional audience field.
pub open spec fn audiences_opt_wf(aud: Option<Audiences>) -> bool {
    match aud {
        None => true,
        Some(a) => a.wf(),
    }
}

/// A set of claims: standard temporal and identity fields, plus an embedded
/// application-defined payload.
///
/// The `CustomClaims` parameter can be set to `NoCustomClaims` if only
/// standard claims are used, or to any application-defined type whose fields
/// are merged into the same flat record on the wire.
#[derive(Clone, Debug, PartialEq, Eq)]
pub struct JWTClaims<CustomClaims> {
    /// Time the claims were created at (`iat` on the wire).
    pub issued_at: Option<UnixTimeStamp>,
    /// Time the claims expire at (`exp` on the wire).
    pub expires_at: Option<UnixTimeStamp>,
    /// Time the claims will be invalid until (`nbf` on the wire).
    pub invalid_before: Option<UnixTimeStamp>,
    /// Issuer (`iss` on the wire) - can be set to anything application-specific.
    pub issuer: Option<String>,
    /// Subject (`sub` on the wire) - can be set to anything application-specific.
    pub subject: Option<String>,
    /// Audience (`aud` on the wire).
    pub audience: Option<Audiences>,
    /// Claim-set identifier (`jti` on the wire).
    ///
    /// That property was originally designed to avoid replay attacks, but
    /// keeping all previously seen identifiers is unrealistic. Replay attacks
    /// are better addressed by keeping only the timestamp of the last valid
    /// claim set per subject, and rejecting anything older.
    pub jwt_id: Option<String>,
    /// Custom (application-defined) claims.
    pub custom: CustomClaims,
}

/// The clock tolerance a policy asks for, in ticks: its own value when set,
/// the default otherwise.
pub open spec fn spec_tolerance_ticks(options: VerificationOptions) -> int {
    match options.time_tolerance {
        Some(d) => d@ as int,
        None => DEFAULT_TIME_TOLERANCE_SECS * TICKS_PER_SEC,
    }
}

/// What validating `claims` against `options` at instant `now` (in ticks
/// since the epoch) returns: the checks in order, each applied only when the
/// corresponding field is present, stopping at the first failure.
pub open spec fn spec_validate<CustomClaims>(
    claims: JWTClaims<CustomClaims>,
    options: VerificationOptions,
    now: int,
) -> Result<(), JWTError> {
    let tol = spec_tolerance_ticks(options);
    if options.reject_before matches Some(rb) && !(now <= rb@) {
        Err(JWTError::OldTokenReused)
    } else if claims.issued_at matches Some(iat) && !(iat@ <= now + tol) {
        Err(JWTError::ClockDrift)
    } else if claims.issued_at matches Some(iat) && options.max_validity matches Some(mv)
        && !(now <= iat@ || now - iat@ <= mv@) {
        Err(JWTError::TokenIsTooOld)
    } else if !options.accept_future && (claims.invalid_before matches Some(nbf) && !(now
        >= nbf@)) {
        Err(JWTError::TokenNotValidYet)
    } else if claims.expires_at matches Some(exp) && !(now - tol <= exp@) {
        Err(JWTError::TokenHasExpired)
    } else if options.required_issuer is Some && claims.issuer is None {
        Err(JWTError::RequiredIssuerMissing)
    } else if options.required_issuer matches Some(ri) && claims.issuer matches Some(iss)
        && iss@ != ri@ {
        Err(JWTError::RequiredIssuerMismatch)
    } else if options.required_subject is Some && claims.subject is None {
        Err(JWTError::RequiredSubjectMissing)
    } else if options.required_subject matches Some(rs) && claims.subject matches Some(sub)
        && sub@ != rs@ {
        Err(JWTError::RequiredSubjectMismatch)
    } else {
        Ok(())
    }
}

impl<CustomClaims> JWTClaims<CustomClaims> {
    /// Check this claim set against `options`, with `now` the single instant
    /// every comparison uses.
    pub fn validate_at(&self, options: &VerificationOptions, now: UnixTimeStamp) -> (r: Result<
        (),
        JWTError,
    >)
        ensures
            r == spec_validate(*self, *options, now@ as int),
    {
        let now_t: u64 = now.as_ticks();
        let tol: u64 = match &options.time_tolerance {
            Some(d) => d.as_ticks(),
            None => DEFAULT_TIME_TOLERANCE_SECS * TICKS_PER_SEC,
        };
        if let Some(rb) = &options.reject_before {
            if !(now_t <= rb.as_ticks()) {
                return Err(JWTError::OldTokenReused);
            }
        }
        if let Some(iat) = &self.issued_at {
            let iat_t: u64 = iat.as_ticks();
            if !((iat_t as u128) <= (now_t as u128) + (tol as u128)) {
                return Err(JWTError::ClockDrift);
            }
            if let Some(mv) = &options.max_validity {
                if !(now_t <= iat_t || now_t - iat_t <= mv.as_ticks()) {
                    return Err(JWTError::TokenIsTooOld);
                }
            }
        }
        if !options.accept_future {
            if let Some(nbf) = &self.invalid_before {
                if !(now_t >= nbf.as_ticks()) {
                    return Err(JWTError::TokenNotValidYet);
                }
            }
        }
        if let Some(exp) = &self.expires_at {
            if !((now_t as u128) <= (exp.as_ticks() as u128) + (tol as u128)) {
                return Err(JWTError::TokenHasExpired);
            }
        }
        if let Some(ri) = &options.required_issuer {
            match &self.issuer {
                Some(iss) => {
                    if !(*iss == *ri) {
                        return Err(JWTError::RequiredIssuerMismatch);
                    }
                },
                None => {
                    return Err(JWTError::RequiredIssuerMissing);
                },
            }
        }
        if let Some(rs) = &options.required_subject {
            match &self.subject {
                Some(sub) => {
                    if !(*sub == *rs) {
                        return Err(JWTError::RequiredSubjectMismatch);
                    }
                },
                None => {
                    return Err(JWTError::RequiredSubjectMissing);
                },
            }
        }
        Ok(())
    }

    /// Check this claim set against `options` at the current time, read once
    /// at the start of the call. The clock decides which instant is used;
    /// whatever it returns, the result is the one `spec_validate` gives for
    /// that instant.
    pub fn validate(&self, options: &VerificationOptions) -> (r: Result<(), JWTError>)
        ensures
            exists|now: int| r == spec_validate(*self, *options, now),
    {
        let now = UnixTimeStamp::now();
        let r = self.validate_at(options, now);
        proof {
            assert(r == spec_validate(*self, *options, now@ as int));
        }
        r
    }

    /// Set the claim set as not being valid until `unix_timestamp`.
    pub fn invalid_before(self, unix_timestamp: UnixTimeStamp) -> (r: Self)
        ensures
            r.invalid_before == Some(unix_timestamp),
            r.issued_at == self.issued_at,
            r.expires_at == self.expires_at,
            r.issuer == self.issuer,
            r.subject == self.subject,
            r.audience == self.audience,
            r.jwt_id == self.jwt_id,
            r.custom == self.custom,
    {
        let mut c = self;
        c.invalid_before = Some(unix_timestamp);
        c
    }

    /// Set the issuer.
    pub fn with_issuer(self, issuer: String) -> (r: Self)
        ensures
            r.issuer == Some(issuer),
            r.issued_at == self.issued_at,
            r.expires_at == self.expires_at,
            r.invalid_before == self.invalid_before,
            r.subject == self.subject,
            r.audience == self.audience,
            r.jwt_id == self.jwt_id,
            r.custom == self.custom,
    {
        let mut c = self;
        c.issuer = Some(issuer);
        c
    }

    /// Set the subject.
    pub fn with_subject(self, subject: String) -> (r: Self)
        ensures
            r.subject == Some(subject),
            r.issued_at == self.issued_at,
            r.expires_at == self.expires_at,
            r.invalid_before == self.invalid_before,
            r.issuer == self.issuer,
            r.audience == self.audience,
            r.jwt_id == self.jwt_id,
            r.custom == self.custom,
    {
        let mut c = self;
        c.subject = Some(subject);
        c
    }

    /// Set the audience.
    pub fn with_audience(self, audience: Audiences) -> (r: Self)
        ensures
            r.audience == Some(audience),
            r.issued_at == self.issued_at,
            r.expires_at == self.expires_at,
            r.invalid_before == self.invalid_before,
            r.issuer == self.issuer,
            r.subject == self.subject,
            r.jwt_id == self.jwt_id,
            r.custom == self.custom,
    {
        let mut c = self;
        c.audience = Some(audience);
        c
    }

    /// Set the claim-set identifier.
    pub fn with_jwt_id(self, jwt_id: String) -> (r: Self)
        ensures
            r.jwt_id == Some(jwt_id),
            r.issued_at == self.issued_at,
            r.expires_at == self.expires_at,
            r.invalid_before == self.invalid_before,
            r.issuer == self.issuer,
            r.subject == self.subject,
            r.audience == self.audience,
            r.custom == self.custom,
    {
        let mut c = self;
        c.jwt_id = Some(jwt_id);
        c
    }
}

/// Factory for fresh claim sets with consistent default timestamps.
pub struct Claims;

impl Claims {
    /// Create a new set of claims, without custom data, issued and valid at
    /// `now` and expiring `valid_for` later.
    pub fn create_at(now: UnixTimeStamp, valid_for: Duration) -> (r: JWTClaims<NoCustomClaims>)
        requires
            now@ + valid_for@ <= u64::MAX,
        ensures
            r.issued_at == Some(now),
            r.invalid_before == Some(now),
            r.expires_at matches Some(exp) && exp@ == now@ + valid_for@,
            r.issuer is None,
            r.subject is None,
            r.audience is None,
            r.jwt_id is None,
            r.custom == (NoCustomClaims {}),
    {
        Claims::with_custom_claims_at(NoCustomClaims {}, now, valid_for)
    }

    /// Create a new set of claims, with custom data, issued and valid at
    /// `now` and expiring `valid_for` later.
    pub fn with_custom_claims_at<CustomClaims>(
        custom_claims: CustomClaims,
        now: UnixTimeStamp,
        valid_for: Duration,
    ) -> (r: JWTClaims<CustomClaims>)
        requires
            now@ + valid_for@ <= u64::MAX,
        ensures
            r.issued_at == Some(now),
            r.invalid_before == Some(now),
            r.expires_at matches Some(exp) && exp@ == now@ + valid_for@,
            r.issuer is None,
            r.subject is None,
            r.audience is None,
            r.jwt_id is None,
            r.custom == custom_claims,
    {
        JWTClaims {
            issued_at: Some(now),
            expires_at: Some(now.saturating_add(valid_for)),
            invalid_before: Some(now),
            audience: None,
            issuer: None,
            jwt_id: None,
            subject: None,
            custom: custom_claims,
        }
    }

    /// Create a new set of claims, without custom data, expiring in
    /// `valid_for`. The clock decides the issue instant; the expiry clamps
    /// to the representable range.
    pub fn create(valid_for: Duration) -> (r: JWTClaims<NoCustomClaims>)
        ensures
            r.invalid_before == r.issued_at,
            r.issued_at matches Some(t) && r.expires_at matches Some(exp) && exp@ == if t@
                + valid_for@ <= u64::MAX {
                t@ + valid_for@
            } else {
                u64::MAX as int
            },
            r.issuer is None,
            r.subject is None,
            r.audience is None,
            r.jwt_id is None,
            r.custom == (NoCustomClaims {}),
    {
        Claims::with_custom_claims(NoCustomClaims {}, valid_for)
    }

    /// Create a new set of claims, with custom data, expiring in `valid_for`.
    /// The clock decides the issue instant; the expiry clamps to the
    /// representable range.
    pub fn with_custom_claims<CustomClaims>(
        custom_claims: CustomClaims,
        valid_for: Duration,
    ) -> (r: JWTClaims<CustomClaims>)
        ensures
            r.invalid_before == r.issued_at,
            r.issued_at matches Some(t) && r.expires_at matches Some(exp) && exp@ == if t@
                + valid_for@ <= u64::MAX {
                t@ + valid_for@
            } else {
                u64::MAX as int
            },
            r.issuer is None,
            r.subject is None,
            r.audience is None,
            r.jwt_id is None,
            r.custom == custom_claims,
    {
        let now = UnixTimeStamp::now();
        JWTClaims {
            issued_at: Some(now),
            expires_at: Some(now.saturating_add(valid_for)),
            invalid_before: Some(now),
            audience: None,
            issuer: None,
            jwt_id: None,
            subject: None,
            custom: custom_claims,
        }
    }
}

/// Law: the empty policy accepts a claim set whose temporal fields are all
/// absent, at any instant.
pub proof fn lemma_validate_empty_policy<CustomClaims>(
    claims: JWTClaims<CustomClaims>,
    options: VerificationOptions,
    now: int,
)
    requires
        options.reject_before is None,
        options.time_tolerance is None,
        options.max_validity is None,
        options.required_issuer is None,
        options.required_subject is None,
        !options.accept_future,
        claims.issued_at is None,
        claims.expires_at is None,
        claims.invalid_before is None,
    ensures
        spec_validate(claims, options, now) == Ok::<(), JWTError>(()),
{
}

/// Law: under the empty policy with its default tolerance, a claim set that
/// carries only an expiry fails with `TokenHasExpired` exactly when the
/// expiry lies before `now` minus the tolerance, and passes at or after
/// that bound.
pub proof fn lemma_validate_expiry<CustomClaims>(
    claims: JWTClaims<CustomClaims>,
    options: VerificationOptions,
    now: int,
    exp: UnixTimeStamp,
)
    requires
        options.reject_before is None,
        options.time_tolerance is None,
        options.max_validity is None,
        options.required_issuer is None,
        options.required_subject is None,
        !options.accept_future,
        claims.issued_at is None,
        claims.invalid_before is None,
        claims.expires_at == Some(exp),
    ensures
        exp@ < now - DEFAULT_TIME_TOLERANCE_SECS * TICKS_PER_SEC ==> spec_validate(
            claims,
            options,
            now,
        ) == Err::<(), JWTError>(JWTError::TokenHasExpired),
        exp@ >= now - DEFAULT_TIME_TOLERANCE_SECS * TICKS_PER_SEC ==> spec_validate(
            claims,
            options,
            now,
        ) == Ok::<(), JWTError>(()),
{
}

/// Law: when the policy requires an issuer and no other check applies, a
/// claim set without an issuer fails with `RequiredIssuerMissing`, one with
/// a different issuer fails with `RequiredIssuerMismatch`, and one with the
/// required issuer passes.
pub proof fn lemma_validate_required_issuer<CustomClaims>(
    claims: JWTClaims<CustomClaims>,
    options: VerificationOptions,
    now: int,
    ri: String,
)
    requires
        options.reject_before is None,
        options.max_validity is None,
        options.required_subject is None,
        options.required_issuer == Some(ri),
        claims.issued_at is None,
        claims.invalid_before is None,
        claims.expires_at is None,
    ensures
        claims.issuer is None ==> spec_validate(claims, options, now) == Err::<(), JWTError>(
            JWTError::RequiredIssuerMissing,
        ),
        claims.issuer matches Some(iss) && iss@ != ri@ ==> spec_validate(claims, options, now)
            == Err::<(), JWTError>(JWTError::RequiredIssuerMismatch),
        claims.issuer matches Some(iss) && iss@ == ri@ ==> spec_validate(claims, options, now)
            == Ok::<(), JWTError>(()),
{
}

} // verus!
