//! The ways in which loading keys, issuing a token or checking one can fail.

use vstd::prelude::*;

verus! {

/// Why an operation on keys or tokens was refused.
#[derive(Clone, Copy, Debug, PartialEq, Eq, Structural)]
pub enum AuthError {
    /// Key text that is not base64url, or that does not hold a usable
    /// 32-byte key.
    KeyFormat,
    /// A token was to be issued with keys that cannot sign.
    MissingSigningKey,
    /// A token with the wrong prefix, the wrong number of segments, or a
    /// segment that is not base64url.
    TokenFormat,
    /// A signature of the wrong length, or one that the verification key
    /// does not accept.
    Signature,
    /// An authentic payload that is not a claims record, or whose expiry
    /// is not a timestamp.
    ClaimsFormat,
    /// An authentic token whose expiry has passed.
    ExpiredToken,
}

} // verus!
