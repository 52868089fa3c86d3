//! A verified model of the claim set of a signed security token, together
//! with the factory that builds fresh claim sets, the validator that checks a
//! claim set against a caller-supplied policy, and the two field codecs with
//! real edge-case behaviour: the Unix-epoch timestamp codec and the
//! "single value or set" audience codec.
//!
//! Signing, key management and the compact wire format are outside this
//! crate: collaborators hand it a decoded claim set to validate, or take a
//! claim set from it to sign.

pub mod claims;
pub mod codec;
pub mod common;
pub mod error;
pub mod time;

pub use claims::Audiences;
pub use claims::Claims;
pub use claims::JWTClaims;
pub use claims::NoCustomClaims;
pub use claims::DEFAULT_TIME_TOLERANCE_SECS;
pub use common::VerificationOptions;
pub use error::DecodeError;
pub use error::JWTError;
pub use time::Duration;
pub use time::UnixTimeStamp;
pub use time::TICKS_PER_SEC;
