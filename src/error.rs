//! Typed failures of trust and verification operations.

use vstd::prelude::*;

verus! {

/// Why a trust or verification operation did not go through. None of them
/// leaves anything trusted that was not trusted before.
#[derive(Debug, Clone, Copy, PartialEq, Eq, Structural)]
pub enum TrustError {
    /// A verification record or signature does not match the observed keys.
    SignatureInvalid,
    /// The two parties of a verification share no method.
    NoCommonMethod,
    /// Signing needs a private key that this device does not hold.
    MissingPrivateKey,
    /// No identity is known for the user.
    IdentityNotFound,
    /// An in-room verification was asked for without a room or an event.
    RoomContextRequired,
}

} // verus!
