//! Error taxonomy: the enumerated validation-failure kinds, and the separate
//! decoding-error kind raised by the field codecs.

use vstd::prelude::*;

verus! {

/// Why a claim set was rejected by the validator.
#[derive(Clone, Copy, PartialEq, Eq, Structural, Debug)]
pub enum JWTError {
    /// The policy's reject-before cutoff has passed.
    OldTokenReused,
    /// The claim set was issued further in the future than the clock
    /// tolerance allows.
    ClockDrift,
    /// The claim set is older than the policy's maximum validity.
    TokenIsTooOld,
    /// The claim set is not valid yet.
    TokenNotValidYet,
    /// The claim set has expired.
    TokenHasExpired,
    /// The policy requires an issuer and the claim set names another.
    RequiredIssuerMismatch,
    /// The policy requires an issuer and the claim set names none.
    RequiredIssuerMissing,
    /// The policy requires a subject and the claim set names another.
    RequiredSubjectMismatch,
    /// The policy requires a subject and the claim set names none.
    RequiredSubjectMissing,
}

/// Why a wire value could not be decoded.
#[derive(Clone, Copy, PartialEq, Eq, Structural, Debug)]
pub enum DecodeError {
    /// The wire value has a shape the codec does not accept.
    UnsupportedShape,
}

} // verus!
