//! Cross-signing identities: our own, and those of other users.

use vstd::prelude::*;
use crate::error::TrustError;
use crate::keys::{
    observe_keys, observe_result, observe_state, verified_state, withdrawn_state, Device, LocalKeys,
    SignatureUploadRequest, TrustState, UpsertResult, VerificationRecord,
};
use crate::verification::{
    copy_methods, methods_or_all, offered_methods, FlowContext, FlowView, VerificationMethod, VerificationPhase,
    VerificationRequest,
};

verus! {

/// The cross-signing identity of the local user. Besides the master and
/// self-signing keys it holds the user-signing key, and it is also verified
/// when the local device has signed its master key.
#[derive(Debug, Clone, Copy)]
pub struct OwnUserIdentity {
    user_id: u64,
    state: TrustState,
    user_signing_key: Option<u64>,
    signed_by_local_device: bool,
}

/// The cross-signing identity of another user: a master key and a
/// self-signing key, so that only device signatures can be checked with it.
#[derive(Debug, Clone, Copy)]
pub struct UserIdentity {
    user_id: u64,
    state: TrustState,
}

/// A verification request to send: from our device `from_device` to the
/// user `to`, offering `methods`. For another user it goes into a room
/// shared with them; for our own user, to our other devices.
#[derive(Debug)]
pub struct VerificationRequestContent {
    pub to: u64,
    pub from_device: u64,
    pub methods: Vec<VerificationMethod>,
}

impl OwnUserIdentity {
    pub closed spec fn user(&self) -> u64 {
        self.user_id
    }

    pub closed spec fn trust(&self) -> TrustState {
        self.state
    }

    pub closed spec fn usk(&self) -> Option<u64> {
        self.user_signing_key
    }

    /// The local device has signed the current master key.
    pub closed spec fn device_signed(&self) -> bool {
        self.signed_by_local_device
    }

    pub open spec fn verified(&self) -> bool {
        self.device_signed() || self.trust().verified_by_record()
    }

    /// Verified at some point, and now holding a master key that is neither
    /// verified nor accepted since.
    pub open spec fn violation(&self) -> bool {
        self.trust().previously_verified && !self.verified() && self.trust().pin_changed()
    }

    /// Our identity as first observed from the server.
    pub fn new(user_id: u64, master_key: u64, self_signing_key: u64, user_signing_key: Option<u64>) -> (r: OwnUserIdentity)
        ensures
            r.user() == user_id,
            r.trust() == TrustState::first_observation_spec(master_key, self_signing_key),
            r.usk() == user_signing_key,
            !r.device_signed(),
    {
        OwnUserIdentity {
            user_id,
            state: TrustState::first_observation(master_key, self_signing_key),
            user_signing_key,
            signed_by_local_device: false,
        }
    }

    pub fn user_id(&self) -> (r: u64)
        ensures
            r == self.user(),
    {
        self.user_id
    }

    /// The keys and local trust state.
    pub fn trust_state(&self) -> (r: TrustState)
        ensures
            r == self.trust(),
    {
        self.state
    }

    /// Accepts the current master key as the pinned one.
    pub fn pin_current_master_key(&mut self)
        ensures
            final(self).user() == old(self).user(),
            final(self).trust() == (TrustState {
                pinned_master_key: old(self).trust().master_key,
                ..old(self).trust()
            }),
            final(self).usk() == old(self).usk(),
            final(self).device_signed() == old(self).device_signed(),
            !final(self).violation(),
    {
        self.state.pinned_master_key = self.state.master_key;
    }

    /// Is this user identity verified?
    pub fn is_verified(&self) -> (r: bool)
        ensures
            r == self.verified(),
    {
        self.signed_by_local_device || self.state.verified_master_key == Some(self.state.master_key)
    }

    /// Marks our identity as verified and signs its master key with the
    /// local device; the signature still has to be uploaded.
    pub fn verify(&mut self, local: &LocalKeys) -> (r: SignatureUploadRequest)
        ensures
            final(self).user() == old(self).user(),
            final(self).trust() == verified_state(old(self).trust()),
            final(self).usk() == old(self).usk(),
            final(self).device_signed(),
            r == (SignatureUploadRequest {
                signer: local.device_key,
                user_id: old(self).user(),
                signed_key: old(self).trust().master_key,
            }),
    {
        self.state = TrustState {
            verified_master_key: Some(self.state.master_key),
            previously_verified: true,
            pinned_master_key: self.state.master_key,
            ..self.state
        };
        self.signed_by_local_device = true;
        SignatureUploadRequest {
            signer: local.device_key,
            user_id: self.user_id,
            signed_key: self.state.master_key,
        }
    }

    /// A verification flow with our other devices, offering `methods`, or
    /// every method where none are given, together with the request that our
    /// device sends to those devices.
    pub fn request_verification(&self, local: &LocalKeys, methods: Option<Vec<VerificationMethod>>) -> (r: (
        VerificationRequest,
        VerificationRequestContent,
    ))
        ensures
            r.1.to == self.user(),
            r.1.from_device == local.device_id,
            r.1.methods@ == offered_methods(methods),
            r.0@ == (FlowView {
                other_user_id: self.user(),
                master_key: self.trust().master_key,
                flow: FlowContext::ToDevice,
                our_methods: offered_methods(methods),
                common_methods: Seq::empty(),
                phase: VerificationPhase::Requested,
                cancel_reason: None,
            }),
    {
        let offered = methods_or_all(methods);
        let content = VerificationRequestContent {
            to: self.user_id,
            from_device: local.device_id,
            methods: copy_methods(&offered),
        };
        (VerificationRequest::new(self.user_id, self.state.master_key, FlowContext::ToDevice, offered), content)
    }

    /// Does our identity trust `device`, that is: is it our own device,
    /// signed with our self-signing key?
    pub fn trusts_our_own_device(&self, device: &Device) -> (r: bool)
        ensures
            r == (device.is_own_device && device.user_id == self.user() && device.signed_by_spec(
                self.trust().self_signing_key,
            )),
    {
        device.is_own_device && device.user_id == self.user_id && device.signed_by(self.state.self_signing_key)
    }

    pub fn master_key(&self) -> (r: u64)
        ensures
            r == self.trust().master_key,
    {
        self.state.master_key
    }

    pub fn self_signing_key(&self) -> (r: u64)
        ensures
            r == self.trust().self_signing_key,
    {
        self.state.self_signing_key
    }

    /// The user-signing key, which only our own identity has.
    pub fn user_signing_key(&self) -> (r: Option<u64>)
        ensures
            r == self.usk(),
    {
        self.user_signing_key
    }

    /// True if we verified our own identity at some point in the past.
    pub fn was_previously_verified(&self) -> (r: bool)
        ensures
            r == self.trust().previously_verified,
    {
        self.state.previously_verified
    }

    /// Removes the requirement for this identity to be verified: the
    /// verification record, the local device's signature and the latch are
    /// dropped, and the current master key is accepted.
    pub fn withdraw_verification(&mut self)
        ensures
            final(self).user() == old(self).user(),
            final(self).trust() == withdrawn_state(old(self).trust()),
            final(self).usk() == old(self).usk(),
            !final(self).device_signed(),
            !final(self).violation(),
    {
        self.state = TrustState {
            verified_master_key: None,
            previously_verified: false,
            pinned_master_key: self.state.master_key,
            ..self.state
        };
        self.signed_by_local_device = false;
    }

    /// Was this identity verified since initial observation and is not any
    /// longer?
    pub fn has_verification_violation(&self) -> (r: bool)
        ensures
            r == self.violation(),
    {
        self.state.previously_verified && !self.is_verified()
            && self.state.pinned_master_key != self.state.master_key
    }

    /// Records freshly observed keys. A new master key loses the local
    /// device's signature, which was made over the old one.
    pub fn observe(&mut self, master_key: u64, self_signing_key: u64, user_signing_key: Option<u64>) -> (r: UpsertResult)
        ensures
            r == observe_result(old(self).trust(), master_key, self_signing_key),
            final(self).trust() == observe_state(old(self).trust(), master_key, self_signing_key),
            final(self).user() == old(self).user(),
            final(self).usk() == user_signing_key,
            final(self).device_signed() == (old(self).device_signed() && master_key == old(
                self,
            ).trust().master_key),
    {
        let same_master = master_key == self.state.master_key;
        let r = observe_keys(&mut self.state, master_key, self_signing_key);
        self.user_signing_key = user_signing_key;
        self.signed_by_local_device = self.signed_by_local_device && same_master;
        r
    }

    /// Applies what a finished verification vouches for: only a record of
    /// the current master key marks the identity verified.
    pub fn apply_verification(&mut self, record: &VerificationRecord) -> (r: Result<(), TrustError>)
        ensures
            record.master_key == old(self).trust().master_key ==> r is Ok && final(self).trust()
                == verified_state(old(self).trust()),
            record.master_key != old(self).trust().master_key ==> r == Err::<(), TrustError>(
                TrustError::SignatureInvalid,
            ) && final(self).trust() == old(self).trust(),
            final(self).user() == old(self).user(),
            final(self).usk() == old(self).usk(),
            final(self).device_signed() == old(self).device_signed(),
    {
        if record.master_key == self.state.master_key {
            self.state = TrustState {
                verified_master_key: Some(self.state.master_key),
                previously_verified: true,
                pinned_master_key: self.state.master_key,
                ..self.state
            };
            Ok(())
        } else {
            Err(TrustError::SignatureInvalid)
        }
    }
}

impl UserIdentity {
    pub closed spec fn user(&self) -> u64 {
        self.user_id
    }

    pub closed spec fn trust(&self) -> TrustState {
        self.state
    }

    pub open spec fn verified(&self) -> bool {
        self.trust().verified_by_record()
    }

    /// The master key changed since it was pinned and is not verified.
    pub open spec fn needs_approval(&self) -> bool {
        self.trust().pin_changed() && !self.verified()
    }

    /// Verified at some point, and now holding a master key that is neither
    /// verified nor accepted since.
    pub open spec fn verification_violated(&self) -> bool {
        self.trust().previously_verified && !self.verified() && self.trust().pin_changed()
    }

    pub open spec fn violation(&self) -> bool {
        self.needs_approval() || self.verification_violated()
    }

    /// Another user's identity as first observed: its master key is pinned.
    pub fn new(user_id: u64, master_key: u64, self_signing_key: u64) -> (r: UserIdentity)
        ensures
            r.user() == user_id,
            r.trust() == TrustState::first_observation_spec(master_key, self_signing_key),
    {
        UserIdentity { user_id, state: TrustState::first_observation(master_key, self_signing_key) }
    }

    pub fn user_id(&self) -> (r: u64)
        ensures
            r == self.user(),
    {
        self.user_id
    }

    /// The keys and local trust state.
    pub fn trust_state(&self) -> (r: TrustState)
        ensures
            r == self.trust(),
    {
        self.state
    }

    /// Is this user identity verified?
    pub fn is_verified(&self) -> (r: bool)
        ensures
            r == self.verified(),
    {
        self.state.verified_master_key == Some(self.state.master_key)
    }

    /// The signature that marks this user verified once uploaded: our
    /// user-signing key over their master key. Without the private
    /// user-signing key there is nothing to sign with.
    pub fn verify(&self, local: &LocalKeys) -> (r: Result<SignatureUploadRequest, TrustError>)
        ensures
            local.user_signing_key.is_none() ==> r == Err::<SignatureUploadRequest, TrustError>(
                TrustError::MissingPrivateKey,
            ),
            local.user_signing_key.is_some() ==> r == Ok::<SignatureUploadRequest, TrustError>(
                SignatureUploadRequest {
                    signer: local.user_signing_key.unwrap(),
                    user_id: self.user(),
                    signed_key: self.trust().master_key,
                },
            ),
    {
        match local.user_signing_key {
            Some(k) => Ok(
                SignatureUploadRequest {
                    signer: k,
                    user_id: self.user_id,
                    signed_key: self.state.master_key,
                },
            ),
            None => Err(TrustError::MissingPrivateKey),
        }
    }

    /// A verification flow in a room, started by the request event; both the
    /// room and the event are needed.
    pub fn request_verification(
        &self,
        room_id: Option<u64>,
        request_event_id: Option<u64>,
        methods: Option<Vec<VerificationMethod>>,
    ) -> (r: Result<VerificationRequest, TrustError>)
        ensures
            (room_id.is_none() || request_event_id.is_none()) <==> r == Err::<
                VerificationRequest,
                TrustError,
            >(TrustError::RoomContextRequired),
            room_id.is_some() && request_event_id.is_some() ==> r is Ok,
            r matches Ok(q) ==> q@ == (FlowView {
                other_user_id: self.user(),
                master_key: self.trust().master_key,
                flow: FlowContext::InRoom {
                    room_id: room_id.unwrap(),
                    event_id: request_event_id.unwrap(),
                },
                our_methods: offered_methods(methods),
                common_methods: Seq::empty(),
                phase: VerificationPhase::Requested,
                cancel_reason: None,
            }),
    {
        match (room_id, request_event_id) {
            (Some(room_id), Some(event_id)) => Ok(
                VerificationRequest::new(
                    self.user_id,
                    self.state.master_key,
                    FlowContext::InRoom { room_id, event_id },
                    methods_or_all(methods),
                ),
            ),
            _ => Err(TrustError::RoomContextRequired),
        }
    }

    /// The request content that our device sends into a room shared with
    /// this user.
    pub fn verification_request_content(&self, local: &LocalKeys, methods: Option<Vec<VerificationMethod>>) -> (r: VerificationRequestContent)
        ensures
            r.to == self.user(),
            r.from_device == local.device_id,
            r.methods@ == offered_methods(methods),
    {
        VerificationRequestContent { to: self.user_id, from_device: local.device_id, methods: methods_or_all(methods) }
    }

    pub fn master_key(&self) -> (r: u64)
        ensures
            r == self.trust().master_key,
    {
        self.state.master_key
    }

    pub fn self_signing_key(&self) -> (r: u64)
        ensures
            r == self.trust().self_signing_key,
    {
        self.state.self_signing_key
    }

    /// Accepts the current master key as the pinned one, without a
    /// verification, which resolves any violation.
    pub fn pin_current_master_key(&mut self)
        ensures
            final(self).user() == old(self).user(),
            final(self).trust() == (TrustState {
                pinned_master_key: old(self).trust().master_key,
                ..old(self).trust()
            }),
            !final(self).needs_approval(),
            !final(self).violation(),
    {
        self.state.pinned_master_key = self.state.master_key;
    }

    /// Has the identity changed, since it was pinned, in a way that needs the
    /// user's approval?
    pub fn identity_needs_user_approval(&self) -> (r: bool)
        ensures
            r == self.needs_approval(),
    {
        self.state.pinned_master_key != self.state.master_key && !self.is_verified()
    }

    /// True if we verified this identity at some point.
    pub fn was_previously_verified(&self) -> (r: bool)
        ensures
            r == self.trust().previously_verified,
    {
        self.state.previously_verified
    }

    /// Removes the requirement for this identity to be verified: the record
    /// and the latch are dropped, and the current master key is accepted.
    pub fn withdraw_verification(&mut self)
        ensures
            final(self).user() == old(self).user(),
            final(self).trust() == withdrawn_state(old(self).trust()),
            !final(self).violation(),
    {
        self.state = TrustState {
            verified_master_key: None,
            previously_verified: false,
            pinned_master_key: self.state.master_key,
            ..self.state
        };
    }

    /// Was this identity verified since initial observation and is not any
    /// longer?
    pub fn has_verification_violation(&self) -> (r: bool)
        ensures
            r == self.verification_violated(),
    {
        self.state.previously_verified && !self.is_verified()
            && self.state.pinned_master_key != self.state.master_key
    }

    /// Records freshly observed keys of this user.
    pub fn observe(&mut self, master_key: u64, self_signing_key: u64) -> (r: UpsertResult)
        ensures
            r == observe_result(old(self).trust(), master_key, self_signing_key),
            final(self).trust() == observe_state(old(self).trust(), master_key, self_signing_key),
            final(self).user() == old(self).user(),
    {
        observe_keys(&mut self.state, master_key, self_signing_key)
    }

    /// Applies what a finished verification vouches for: only a record of
    /// the current master key marks the identity verified.
    pub fn apply_verification(&mut self, record: &VerificationRecord) -> (r: Result<(), TrustError>)
        ensures
            record.master_key == old(self).trust().master_key ==> r is Ok && final(self).trust()
                == verified_state(old(self).trust()),
            record.master_key != old(self).trust().master_key ==> r == Err::<(), TrustError>(
                TrustError::SignatureInvalid,
            ) && final(self).trust() == old(self).trust(),
            final(self).user() == old(self).user(),
    {
        if record.master_key == self.state.master_key {
            self.state = TrustState {
                verified_master_key: Some(self.state.master_key),
                previously_verified: true,
                pinned_master_key: self.state.master_key,
                ..self.state
            };
            Ok(())
        } else {
            Err(TrustError::SignatureInvalid)
        }
    }
}

} // verus!
