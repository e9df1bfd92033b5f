use crypto_trust::encryption::{
    CollectStrategy, EncryptionAlgorithm, EncryptionSettings, HistoryVisibility, ShieldColor,
    ShieldReason, ShieldState,
};
use crypto_trust::error::TrustError;
use crypto_trust::identities::{OwnUserIdentity, UserIdentity};
use crypto_trust::keys::{Device, DeviceKey, LocalKeys, UpsertResult, VerificationRecord};
use crypto_trust::store::{IdentityStore, UserIdentities};
use crypto_trust::verification::{VerificationEvent, VerificationMethod, VerificationPhase};

fn device(user_id: u64, device_id: u64, signatures: Vec<u64>) -> Device {
    Device { user_id, device_id, signatures, locally_trusted: false, is_own_device: false }
}

fn other(store: &IdentityStore, user: u64) -> UserIdentity {
    match store.get_identity(user) {
        Some(UserIdentities::Other(u)) => u,
        _ => panic!("no identity of another user"),
    }
}

#[test]
fn changed_master_key_is_red_until_pinned() {
    let mut store = IdentityStore::new(1);
    assert_eq!(store.upsert_identity(2, 100, 200, None), UpsertResult::FirstObservation);
    assert_eq!(store.upsert_identity(2, 101, 201, None), UpsertResult::ChangedFromPinned);
    let a = store.get_identity(2).unwrap();
    assert!(a.has_violation());
    assert!(other(&store, 2).identity_needs_user_approval());
    assert_eq!(a.shield().color, ShieldColor::Red);
    assert_eq!(a.shield().reason, Some(ShieldReason::IdentityChanged));
    assert_eq!(store.pin_current_master_key(2), Ok(()));
    let a = store.get_identity(2).unwrap();
    assert!(!a.has_violation());
    assert_eq!(a.shield().color, ShieldColor::Clear);
    assert_eq!(a.shield().message(), None);
}

#[test]
fn disjoint_methods_cancel_without_record() {
    let u = UserIdentity::new(2, 100, 200);
    let mut req = u.request_verification(Some(7), Some(8), Some(vec![VerificationMethod::SasV1])).unwrap();
    assert_eq!(req.phase(), VerificationPhase::Requested);
    assert_eq!(req.accept(&vec![VerificationMethod::QrCodeScanV1]), Err(TrustError::NoCommonMethod));
    assert_eq!(req.phase(), VerificationPhase::Cancelled);
    assert_eq!(req.cancel_reason(), Some(TrustError::NoCommonMethod));
    req.start();
    assert_eq!(req.complete(), None);
    assert_eq!(req.phase(), VerificationPhase::Cancelled);
}

#[test]
fn rotation_after_message_count() {
    let s = EncryptionSettings { rotation_period_messages: 2, ..EncryptionSettings::new() };
    assert!(!s.should_rotate(0, 1));
    assert!(s.should_rotate(0, 2));
    assert!(s.should_rotate(0, 3));
}

#[test]
fn rotation_after_time() {
    let s = EncryptionSettings { rotation_period: 1_000, ..EncryptionSettings::new() };
    assert!(!s.should_rotate(999, 0));
    assert!(s.should_rotate(1_000, 0));
}

#[test]
fn identity_based_excludes_users_without_identity() {
    let mut store = IdentityStore::new(1);
    store.upsert_identity(2, 100, 200, None);
    store.add_device(device(2, 20, vec![200]));
    store.add_device(device(2, 21, vec![]));
    store.add_device(device(3, 30, vec![300]));
    store.add_device(device(3, 31, vec![]));
    let r = store.collect_recipients(&vec![2, 3], CollectStrategy::IdentityBasedStrategy);
    assert_eq!(r, vec![DeviceKey { user_id: 2, device_id: 20 }]);
    assert_eq!(r.len(), 1);
}

#[test]
fn only_trusted_needs_verified_owner() {
    let mut store = IdentityStore::new(1);
    store.upsert_identity(2, 100, 200, None);
    store.add_device(device(2, 20, vec![200]));
    let mut marked = device(2, 21, vec![]);
    marked.locally_trusted = true;
    store.add_device(marked);
    let members = vec![2];
    let r = store.collect_recipients(&members, CollectStrategy::DeviceBasedStrategyOnlyTrustedDevices);
    assert_eq!(r, vec![DeviceKey { user_id: 2, device_id: 21 }]);
    let rec = VerificationRecord { user_id: 2, master_key: 100 };
    assert_eq!(store.apply_verification_record(&rec), Ok(()));
    let r = store.collect_recipients(&members, CollectStrategy::DeviceBasedStrategyOnlyTrustedDevices);
    assert_eq!(r.len(), 2);
    for k in r.iter() {
        let d = store.devices().iter().find(|d| d.user_id == k.user_id && d.device_id == k.device_id).unwrap();
        assert!(store.is_device_trusted(d));
    }
}

#[test]
fn all_devices_of_members_only() {
    let mut store = IdentityStore::new(1);
    store.add_device(device(2, 20, vec![]));
    store.add_device(device(3, 30, vec![]));
    store.add_device(device(2, 22, vec![]));
    let r = store.collect_recipients(&vec![2], CollectStrategy::DeviceBasedStrategyAllDevices);
    assert_eq!(r, vec![DeviceKey { user_id: 2, device_id: 20 }, DeviceKey { user_id: 2, device_id: 22 }]);
    assert!(store.collect_recipients(&vec![], CollectStrategy::DeviceBasedStrategyAllDevices).is_empty());
}

#[test]
fn add_device_replaces_same_key() {
    let mut store = IdentityStore::new(1);
    store.add_device(device(2, 20, vec![]));
    store.add_device(device(2, 20, vec![5]));
    assert_eq!(store.devices().len(), 1);
    assert_eq!(store.devices()[0].signatures, vec![5]);
}

#[test]
fn withdraw_twice_same_as_once() {
    let mut store = IdentityStore::new(1);
    store.upsert_identity(2, 100, 200, None);
    store.apply_verification_record(&VerificationRecord { user_id: 2, master_key: 100 }).unwrap();
    store.upsert_identity(2, 101, 201, None);
    assert!(other(&store, 2).has_verification_violation());
    assert_eq!(store.get_identity(2).unwrap().shield().reason, Some(ShieldReason::PreviouslyVerified));
    store.withdraw_verification(2).unwrap();
    let once = other(&store, 2);
    store.withdraw_verification(2).unwrap();
    let twice = other(&store, 2);
    assert_eq!(once.trust_state(), twice.trust_state());
    assert!(!twice.has_verification_violation());
    assert!(!twice.identity_needs_user_approval());
    assert!(!twice.was_previously_verified());
}

#[test]
fn pin_then_same_key_is_unchanged() {
    let mut store = IdentityStore::new(1);
    store.upsert_identity(2, 100, 200, None);
    store.upsert_identity(2, 101, 201, None);
    store.pin_current_master_key(2).unwrap();
    assert_eq!(store.upsert_identity(2, 101, 201, None), UpsertResult::Unchanged);
    assert_eq!(store.upsert_identity(2, 101, 202, None), UpsertResult::ChangedButReverifiedOrRepinned);
    assert!(!store.get_identity(2).unwrap().has_violation());
}

#[test]
fn verified_new_key_keeps_pin_in_step() {
    let mut store = IdentityStore::new(1);
    store.upsert_identity(2, 100, 200, None);
    store.upsert_identity(2, 101, 201, None);
    store.apply_verification_record(&VerificationRecord { user_id: 2, master_key: 101 }).unwrap();
    assert!(store.get_identity(2).unwrap().is_verified());
    assert_eq!(store.upsert_identity(2, 100, 200, None), UpsertResult::ChangedFromPinned);
    assert_eq!(store.upsert_identity(2, 101, 201, None), UpsertResult::ChangedButReverifiedOrRepinned);
    assert!(store.get_identity(2).unwrap().is_verified());
}

#[test]
fn store_errors() {
    let mut store = IdentityStore::new(1);
    assert_eq!(store.pin_current_master_key(9), Err(TrustError::IdentityNotFound));
    assert_eq!(store.withdraw_verification(9), Err(TrustError::IdentityNotFound));
    let rec = VerificationRecord { user_id: 9, master_key: 1 };
    assert_eq!(store.apply_verification_record(&rec), Err(TrustError::IdentityNotFound));
    store.upsert_identity(9, 1, 2, None);
    let stale = VerificationRecord { user_id: 9, master_key: 3 };
    assert_eq!(store.apply_verification_record(&stale), Err(TrustError::SignatureInvalid));
    assert!(!store.get_identity(9).unwrap().is_verified());
}

#[test]
fn other_verify_needs_user_signing_key() {
    let u = UserIdentity::new(2, 100, 200);
    let without = LocalKeys { device_id: 1, device_key: 50, user_signing_key: None };
    assert_eq!(u.verify(&without), Err(TrustError::MissingPrivateKey));
    let with = LocalKeys { user_signing_key: Some(60), ..without };
    let req = u.verify(&with).unwrap();
    assert_eq!((req.signer, req.user_id, req.signed_key), (60, 2, 100));
}

#[test]
fn in_room_request_needs_room_and_event() {
    let u = UserIdentity::new(2, 100, 200);
    assert_eq!(u.request_verification(None, Some(8), None).err(), Some(TrustError::RoomContextRequired));
    assert_eq!(u.request_verification(Some(7), None, None).err(), Some(TrustError::RoomContextRequired));
    let req = u.request_verification(Some(7), Some(8), None).unwrap();
    assert_eq!(req.our_methods().len(), 4);
    let local = LocalKeys { device_id: 4, device_key: 44, user_signing_key: None };
    let content = u.verification_request_content(&local, Some(vec![VerificationMethod::SasV1]));
    assert_eq!(content.to, 2);
    assert_eq!(content.from_device, 4);
    assert_eq!(content.methods, vec![VerificationMethod::SasV1]);
}

#[test]
fn successful_flow_emits_record() {
    let u = UserIdentity::new(2, 100, 200);
    let mut req = u.request_verification(Some(7), Some(8), None).unwrap();
    req.accept(&vec![VerificationMethod::QrCodeShowV1, VerificationMethod::SasV1]).unwrap();
    assert_eq!(*req.common_methods(), vec![VerificationMethod::SasV1, VerificationMethod::QrCodeShowV1]);
    assert_eq!(req.phase(), VerificationPhase::Ready);
    assert_eq!(req.complete(), None);
    req.start();
    assert_eq!(req.phase(), VerificationPhase::InProgress);
    assert_eq!(req.complete(), Some(VerificationRecord { user_id: 2, master_key: 100 }));
    assert_eq!(req.phase(), VerificationPhase::Done);
}

#[test]
fn cancel_twice_is_no_error() {
    let own = OwnUserIdentity::new(1, 10, 11, Some(12));
    let (mut req, _) = own.request_verification(&LocalKeys { device_id: 5, device_key: 55, user_signing_key: None }, None);
    req.cancel(TrustError::NoCommonMethod);
    assert_eq!(req.phase(), VerificationPhase::Cancelled);
    req.cancel(TrustError::MissingPrivateKey);
    assert_eq!(req.phase(), VerificationPhase::Cancelled);
    assert_eq!(req.cancel_reason(), Some(TrustError::NoCommonMethod));
    req.time_out();
    assert_eq!(req.phase(), VerificationPhase::Cancelled);
}

#[test]
fn time_out_ends_open_flow() {
    let own = OwnUserIdentity::new(1, 10, 11, None);
    let (mut req, _) = own.request_verification(&LocalKeys { device_id: 5, device_key: 55, user_signing_key: None }, Some(vec![VerificationMethod::SasV1]));
    req.time_out();
    assert_eq!(req.phase(), VerificationPhase::TimedOut);
    assert_eq!(req.complete(), None);
}

#[test]
fn own_identity_verify_and_withdraw() {
    let mut own = OwnUserIdentity::new(1, 10, 11, Some(12));
    assert!(!own.is_verified());
    let local = LocalKeys { device_id: 5, device_key: 55, user_signing_key: Some(12) };
    let up = own.verify(&local);
    assert_eq!((up.signer, up.user_id, up.signed_key), (55, 1, 10));
    assert!(own.is_verified());
    assert!(own.was_previously_verified());
    assert_eq!(own.observe(20, 21, Some(22)), UpsertResult::ChangedFromPinned);
    assert!(own.has_verification_violation());
    assert_eq!(own.user_signing_key(), Some(22));
    own.withdraw_verification();
    assert!(!own.has_verification_violation());
    assert!(!own.was_previously_verified());
    assert_eq!(own.master_key(), 20);
    assert_eq!(own.self_signing_key(), 21);
}

#[test]
fn trusts_our_own_device_needs_self_signature() {
    let own = OwnUserIdentity::new(1, 10, 11, None);
    let mut d = device(1, 5, vec![11]);
    assert!(!own.trusts_our_own_device(&d));
    d.is_own_device = true;
    assert!(own.trusts_our_own_device(&d));
    d.signatures = vec![99];
    assert!(!own.trusts_our_own_device(&d));
}

#[test]
fn own_store_entry_is_own_variant() {
    let mut store = IdentityStore::new(1);
    store.upsert_identity(1, 10, 11, Some(12));
    match store.get_identity(1) {
        Some(UserIdentities::Own(o)) => assert_eq!(o.user_signing_key(), Some(12)),
        _ => panic!("expected our own identity"),
    }
}

#[test]
fn device_shields() {
    let mut store = IdentityStore::new(1);
    let mut local = device(1, 5, vec![]);
    local.is_own_device = true;
    assert_eq!(store.device_shield(&local).color, ShieldColor::Clear);
    let stranger = device(3, 30, vec![]);
    assert_eq!(store.device_shield(&stranger).reason, Some(ShieldReason::NoIdentity));
    assert_eq!(store.device_shield(&stranger).color, ShieldColor::Grey);
    store.upsert_identity(2, 100, 200, None);
    let signed = device(2, 20, vec![200]);
    let unsigned = device(2, 21, vec![]);
    assert_eq!(store.device_shield(&signed).color, ShieldColor::Grey);
    assert_eq!(store.device_shield(&signed).reason, Some(ShieldReason::UnverifiedIdentity));
    assert_eq!(store.device_shield(&unsigned).color, ShieldColor::Red);
    assert_eq!(store.device_shield(&unsigned).reason, Some(ShieldReason::UnsignedDevice));
    store.apply_verification_record(&VerificationRecord { user_id: 2, master_key: 100 }).unwrap();
    assert_eq!(store.device_shield(&signed).color, ShieldColor::Clear);
    store.upsert_identity(2, 101, 201, None);
    assert_eq!(store.device_shield(&signed).color, ShieldColor::Red);
    let mut marked = device(2, 22, vec![]);
    marked.locally_trusted = true;
    assert_eq!(store.device_shield(&marked).color, ShieldColor::Red);
}

#[test]
fn shield_messages() {
    let s = ShieldState { color: ShieldColor::Red, reason: Some(ShieldReason::UnsignedDevice) };
    assert_eq!(s.message(), Some("This device is not verified by its owner.".to_string()));
    let s = ShieldState { color: ShieldColor::Grey, reason: Some(ShieldReason::NoIdentity) };
    assert_eq!(s.message(), Some("This user has no cross-signing identity.".to_string()));
}

#[test]
fn default_settings() {
    let s = EncryptionSettings::new();
    assert_eq!(s.algorithm, EncryptionAlgorithm::MegolmV1AesSha2);
    assert_eq!(s.rotation_period, 604_800_000_000);
    assert_eq!(s.rotation_period_messages, 100);
    assert_eq!(s.history_visibility, HistoryVisibility::Shared);
    assert_eq!(s.sharing_strategy, CollectStrategy::DeviceBasedStrategyAllDevices);
    assert_eq!(EncryptionSettings::default(), s);
    assert!(!s.should_rotate(0, 99));
    assert!(s.should_rotate(604_800_000_000, 0));
}

#[test]
fn events_drive_the_flow() {
    let own = OwnUserIdentity::new(1, 10, 11, None);
    let (mut req, _) = own.request_verification(&LocalKeys { device_id: 5, device_key: 55, user_signing_key: None }, None);
    assert_eq!(req.handle(VerificationEvent::Completed), None);
    assert_eq!(req.handle(VerificationEvent::Accepted(vec![VerificationMethod::ReciprocateV1])), None);
    assert_eq!(req.phase(), VerificationPhase::Ready);
    assert_eq!(req.handle(VerificationEvent::Started), None);
    assert_eq!(req.handle(VerificationEvent::Completed), Some(VerificationRecord { user_id: 1, master_key: 10 }));
    assert_eq!(req.handle(VerificationEvent::Cancelled(TrustError::NoCommonMethod)), None);
    assert_eq!(req.phase(), VerificationPhase::Done);
    assert_eq!(req.cancel_reason(), None);
}

#[test]
fn pin_resolves_violation_of_previously_verified_user() {
    let mut store = IdentityStore::new(1);
    store.upsert_identity(2, 100, 200, None);
    store.apply_verification_record(&VerificationRecord { user_id: 2, master_key: 100 }).unwrap();
    assert_eq!(store.upsert_identity(2, 101, 201, None), UpsertResult::ChangedFromPinned);
    assert_eq!(store.get_identity(2).unwrap().shield().color, ShieldColor::Red);
    assert_eq!(store.pin_current_master_key(2), Ok(()));
    let a = other(&store, 2);
    assert!(!a.has_verification_violation());
    assert!(!a.identity_needs_user_approval());
    assert!(a.was_previously_verified());
    let shield = store.get_identity(2).unwrap().shield();
    assert_eq!(shield.color, ShieldColor::Clear);
    assert_eq!(shield.message(), None);
}

#[test]
fn own_request_goes_to_our_other_devices() {
    let own = OwnUserIdentity::new(1, 10, 11, None);
    let local = LocalKeys { device_id: 5, device_key: 55, user_signing_key: None };
    let (req, outgoing) = own.request_verification(&local, Some(vec![VerificationMethod::SasV1]));
    assert_eq!(req.phase(), VerificationPhase::Requested);
    assert_eq!(req.other_user_id(), 1);
    assert_eq!(outgoing.to, 1);
    assert_eq!(outgoing.from_device, 5);
    assert_eq!(outgoing.methods, vec![VerificationMethod::SasV1]);
    assert_eq!(*req.our_methods(), outgoing.methods);
}

#[test]
fn room_request_disjoint_methods_leaves_identity_untouched() {
    let u = UserIdentity::new(2, 100, 200);
    let before = u.trust_state();
    let mut req = u.request_verification(Some(7), Some(8), Some(vec![VerificationMethod::SasV1])).unwrap();
    let theirs = vec![VerificationMethod::QrCodeScanV1, VerificationMethod::QrCodeShowV1];
    assert_eq!(req.handle(VerificationEvent::Accepted(theirs)), None);
    assert_eq!(req.phase(), VerificationPhase::Cancelled);
    assert_eq!(req.handle(VerificationEvent::Started), None);
    assert_eq!(req.handle(VerificationEvent::Completed), None);
    assert_eq!(u.trust_state(), before);
    assert!(!u.is_verified());
    assert!(!u.was_previously_verified());
    assert!(!u.identity_needs_user_approval());
}
