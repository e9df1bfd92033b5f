//! Cross-signing key state shared by both kinds of identity, devices, and
//! the records that verification produces.

use vstd::prelude::*;

verus! {

/// Keys and local trust state of a cross-signing identity. Keys are given by
/// their fingerprints.
#[derive(Debug, Clone, Copy, PartialEq, Eq, Structural)]
pub struct TrustState {
    /// The master key last observed from the server.
    pub master_key: u64,
    /// The self-signing key last observed from the server.
    pub self_signing_key: u64,
    /// The master key that the local user explicitly verified, if any.
    pub verified_master_key: Option<u64>,
    /// Latch: set on verification, cleared only by a withdrawal.
    pub previously_verified: bool,
    /// The master key that the local user last accepted.
    pub pinned_master_key: u64,
}

impl TrustState {
    /// An explicit verification record exists for the current master key.
    pub open spec fn verified_by_record(self) -> bool {
        self.verified_master_key == Some(self.master_key)
    }

    /// The current master key is not the one that was accepted.
    pub open spec fn pin_changed(self) -> bool {
        self.pinned_master_key != self.master_key
    }

    /// State of an identity seen for the first time: the observed master key
    /// is pinned, nothing is verified.
    pub open spec fn first_observation_spec(master_key: u64, self_signing_key: u64) -> TrustState {
        TrustState {
            master_key,
            self_signing_key,
            verified_master_key: None,
            previously_verified: false,
            pinned_master_key: master_key,
        }
    }

    pub fn first_observation(master_key: u64, self_signing_key: u64) -> (r: TrustState)
        ensures
            r == TrustState::first_observation_spec(master_key, self_signing_key),
    {
        TrustState {
            master_key,
            self_signing_key,
            verified_master_key: None,
            previously_verified: false,
            pinned_master_key: master_key,
        }
    }
}

/// How a fresh observation of an identity's keys relates to what was stored.
#[derive(Debug, Clone, Copy, PartialEq, Eq, Structural)]
pub enum UpsertResult {
    /// The same keys as before.
    Unchanged,
    /// No identity was known for the user.
    FirstObservation,
    /// The master key differs from the pinned one and is not verified.
    ChangedFromPinned,
    /// The keys changed, but the master key is the pinned one or carries a
    /// verification record for its exact fingerprint.
    ChangedButReverifiedOrRepinned,
}

/// The outcome of the observation of `master_key` and `self_signing_key`
/// over the stored state `s`.
pub open spec fn observe_result(s: TrustState, master_key: u64, self_signing_key: u64) -> UpsertResult {
    if s.master_key == master_key && s.self_signing_key == self_signing_key {
        UpsertResult::Unchanged
    } else if master_key != s.pinned_master_key && s.verified_master_key != Some(master_key) {
        UpsertResult::ChangedFromPinned
    } else {
        UpsertResult::ChangedButReverifiedOrRepinned
    }
}

/// The stored state after that observation: new keys, and a pin that follows
/// a master key verified for its exact fingerprint.
pub open spec fn observe_state(s: TrustState, master_key: u64, self_signing_key: u64) -> TrustState {
    TrustState {
        master_key,
        self_signing_key,
        pinned_master_key: if s.verified_master_key == Some(master_key) {
            master_key
        } else {
            s.pinned_master_key
        },
        ..s
    }
}

/// Records a fresh observation of an identity's keys in `s`.
pub fn observe_keys(s: &mut TrustState, master_key: u64, self_signing_key: u64) -> (r: UpsertResult)
    ensures
        r == observe_result(*old(s), master_key, self_signing_key),
        *final(s) == observe_state(*old(s), master_key, self_signing_key),
{
    let r = if s.master_key == master_key && s.self_signing_key == self_signing_key {
        UpsertResult::Unchanged
    } else if master_key != s.pinned_master_key && s.verified_master_key != Some(master_key) {
        UpsertResult::ChangedFromPinned
    } else {
        UpsertResult::ChangedButReverifiedOrRepinned
    };
    if s.verified_master_key == Some(master_key) {
        s.pinned_master_key = master_key;
    }
    s.master_key = master_key;
    s.self_signing_key = self_signing_key;
    r
}

/// Marks the current master key as explicitly verified and pinned.
pub open spec fn verified_state(s: TrustState) -> TrustState {
    TrustState {
        verified_master_key: Some(s.master_key),
        previously_verified: true,
        pinned_master_key: s.master_key,
        ..s
    }
}

/// Drops the verification record and the latch, and accepts the current key.
pub open spec fn withdrawn_state(s: TrustState) -> TrustState {
    TrustState {
        verified_master_key: None,
        previously_verified: false,
        pinned_master_key: s.master_key,
        ..s
    }
}

/// Withdrawing a second time changes nothing, and a withdrawn state keeps
/// neither the latch nor a changed pin.
pub proof fn lemma_withdraw_idempotent(s: TrustState)
    ensures
        withdrawn_state(withdrawn_state(s)) == withdrawn_state(s),
        !withdrawn_state(s).previously_verified,
        !withdrawn_state(s).pin_changed(),
{
}

/// After the current master key is pinned, observing that same key again
/// never reports a change from the pin and leaves the pin unchanged.
pub proof fn lemma_pin_then_same_key(s: TrustState, self_signing_key: u64)
    ensures
        ({
            let p = TrustState { pinned_master_key: s.master_key, ..s };
            &&& observe_result(p, p.master_key, self_signing_key) != UpsertResult::ChangedFromPinned
            &&& !observe_state(p, p.master_key, self_signing_key).pin_changed()
        }),
{
}

/// A device of a user as the store knows it.
#[derive(Debug, Clone)]
pub struct Device {
    pub user_id: u64,
    pub device_id: u64,
    /// The keys whose signatures over this device's keys the crypto layer
    /// found valid.
    pub signatures: Vec<u64>,
    /// Marked as trusted by the local user, or verified interactively.
    pub locally_trusted: bool,
    /// This is the device the library runs on.
    pub is_own_device: bool,
}

/// Names a device: its owner and its id.
#[derive(Debug, Clone, Copy, PartialEq, Eq, Structural)]
pub struct DeviceKey {
    pub user_id: u64,
    pub device_id: u64,
}

impl Device {
    pub open spec fn signed_by_spec(&self, key: u64) -> bool {
        self.signatures@.contains(key)
    }

    pub open spec fn key_spec(&self) -> DeviceKey {
        DeviceKey { user_id: self.user_id, device_id: self.device_id }
    }

    /// Does the device carry a valid signature made with `key`?
    pub fn signed_by(&self, key: u64) -> (r: bool)
        ensures
            r == self.signed_by_spec(key),
    {
        let mut i: usize = 0;
        while i < self.signatures.len()
            invariant
                i <= self.signatures@.len(),
                forall|j: int| 0 <= j < i ==> self.signatures@[j] != key,
            decreases self.signatures@.len() - i,
        {
            if self.signatures[i] == key {
                return true;
            }
            i = i + 1;
        }
        false
    }

    pub fn key(&self) -> (r: DeviceKey)
        ensures
            r == self.key_spec(),
    {
        DeviceKey { user_id: self.user_id, device_id: self.device_id }
    }
}

/// What a finished verification hands to the trust state: the user and the
/// exact master key that was verified.
#[derive(Debug, Clone, Copy, PartialEq, Eq, Structural)]
pub struct VerificationRecord {
    pub user_id: u64,
    pub master_key: u64,
}

/// A signature that has to be uploaded: `signer` signs `signed_key` of
/// `user_id`.
#[derive(Debug, Clone, Copy, PartialEq, Eq, Structural)]
pub struct SignatureUploadRequest {
    pub signer: u64,
    pub user_id: u64,
    pub signed_key: u64,
}

/// The keys that this device holds privately.
#[derive(Debug, Clone, Copy, PartialEq, Eq, Structural)]
pub struct LocalKeys {
    pub device_id: u64,
    /// The device's own signing key.
    pub device_key: u64,
    /// The private user-signing key, where this device holds it.
    pub user_signing_key: Option<u64>,
}

} // verus!
