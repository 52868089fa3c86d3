//! The verification policy a caller hands to the validator.

use vstd::prelude::*;
use crate::time::Duration;
use crate::time::UnixTimeStamp;

verus! {

/// What the validator is asked to enforce. Every check is applied only when
/// the corresponding field is present (or, for `accept_future`, set).
#[derive(Clone, Debug)]
pub struct VerificationOptions {
    /// Reject any claim set seen after this cutoff, whatever it says.
    pub reject_before: Option<UnixTimeStamp>,
    /// Slack absorbed when comparing timestamps, to tolerate clock skew
    /// between issuer and verifier. When absent, the validator uses
    /// `crate::claims::DEFAULT_TIME_TOLERANCE_SECS` seconds.
    pub time_tolerance: Option<Duration>,
    /// Reject claim sets issued longer ago than this.
    pub max_validity: Option<Duration>,
    /// Accept claim sets whose validity has not started yet.
    pub accept_future: bool,
    /// The issuer the claim set must name.
    pub required_issuer: Option<String>,
    /// The subject the claim set must name.
    pub required_subject: Option<String>,
}

impl Default for VerificationOptions {
    /// The empty policy: no cutoff, default tolerance, no maximum validity,
    /// not-yet-valid claim sets rejected, no required identities.
    fn default() -> (r: Self)
        ensures
            r.reject_before is None,
            r.time_tolerance is None,
            r.max_validity is None,
            !r.accept_future,
            r.required_issuer is None,
            r.required_subject is None,
    {
        VerificationOptions {
            reject_before: None,
            time_tolerance: None,
            max_validity: None,
            accept_future: false,
            required_issuer: None,
            required_subject: None,
        }
    }
}

} // verus!
