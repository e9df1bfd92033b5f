//! The identity store: one identity and any number of devices per user,
//! keyed by user id, with the trust evaluation, the recipient selection for
//! room keys, and the warning shields that are derived from them.

use vstd::prelude::*;
use crate::encryption::{CollectStrategy, ShieldColor, ShieldReason, ShieldState};
use crate::error::TrustError;
use crate::identities::{OwnUserIdentity, UserIdentity};
use crate::keys::{
    observe_result, observe_state, verified_state, withdrawn_state, Device, DeviceKey, TrustState,
    UpsertResult, VerificationRecord,
};

verus! {

/// The identity of a user: our own, or another user's.
#[derive(Debug, Clone, Copy)]
pub enum UserIdentities {
    Own(OwnUserIdentity),
    Other(UserIdentity),
}

impl UserIdentities {
    pub open spec fn user_spec(self) -> u64 {
        match self {
            UserIdentities::Own(o) => o.user(),
            UserIdentities::Other(u) => u.user(),
        }
    }

    pub open spec fn trust_spec(self) -> TrustState {
        match self {
            UserIdentities::Own(o) => o.trust(),
            UserIdentities::Other(u) => u.trust(),
        }
    }

    pub open spec fn verified_spec(self) -> bool {
        match self {
            UserIdentities::Own(o) => o.verified(),
            UserIdentities::Other(u) => u.verified(),
        }
    }

    /// The identity needs the user's attention: it changed since it was
    /// pinned, or it was verified and is not any longer.
    pub open spec fn violation_spec(self) -> bool {
        match self {
            UserIdentities::Own(o) => o.violation(),
            UserIdentities::Other(u) => u.violation(),
        }
    }

    pub fn user_id(&self) -> (r: u64)
        ensures
            r == self.user_spec(),
    {
        match self {
            UserIdentities::Own(o) => o.user_id(),
            UserIdentities::Other(u) => u.user_id(),
        }
    }

    pub fn trust_state(&self) -> (r: TrustState)
        ensures
            r == self.trust_spec(),
    {
        match self {
            UserIdentities::Own(o) => o.trust_state(),
            UserIdentities::Other(u) => u.trust_state(),
        }
    }

    pub fn is_verified(&self) -> (r: bool)
        ensures
            r == self.verified_spec(),
    {
        match self {
            UserIdentities::Own(o) => o.is_verified(),
            UserIdentities::Other(u) => u.is_verified(),
        }
    }

    pub fn has_violation(&self) -> (r: bool)
        ensures
            r == self.violation_spec(),
    {
        match self {
            UserIdentities::Own(o) => o.has_verification_violation(),
            UserIdentities::Other(u) => u.identity_needs_user_approval() || u.has_verification_violation(),
        }
    }

    /// The warning shown for this identity: red while it is in violation.
    /// An unverified identity whose key is pinned has been accepted.
    pub fn shield(&self) -> (r: ShieldState)
        ensures
            r == identity_shield(*self),
    {
        if self.has_violation() {
            ShieldState { color: ShieldColor::Red, reason: Some(violation_reason(self)) }
        } else {
            ShieldState { color: ShieldColor::Clear, reason: None }
        }
    }
}

/// The reason given for a violation of `i`.
pub open spec fn violation_reason_spec(i: UserIdentities) -> ShieldReason {
    if i.trust_spec().previously_verified && !i.verified_spec() {
        ShieldReason::PreviouslyVerified
    } else {
        ShieldReason::IdentityChanged
    }
}

fn violation_reason(i: &UserIdentities) -> (r: ShieldReason)
    ensures
        r == violation_reason_spec(*i),
{
    if i.trust_state().previously_verified && !i.is_verified() {
        ShieldReason::PreviouslyVerified
    } else {
        ShieldReason::IdentityChanged
    }
}

pub open spec fn identity_shield(i: UserIdentities) -> ShieldState {
    if i.violation_spec() {
        ShieldState { color: ShieldColor::Red, reason: Some(violation_reason_spec(i)) }
    } else {
        ShieldState { color: ShieldColor::Clear, reason: None }
    }
}

/// `d` carries a valid signature of the self-signing key of `i`, an
/// identity of its owner whose master key is the pinned one.
pub open spec fn owner_signed(d: Device, i: UserIdentities) -> bool {
    &&& d.user_id == i.user_spec()
    &&& !i.trust_spec().pin_changed()
    &&& d.signed_by_spec(i.trust_spec().self_signing_key)
}

/// A device is trusted when it is the local device, when the local user
/// marked or verified it, or when its verified owner identity signed it.
pub open spec fn device_trusted(d: Device, owner: Option<UserIdentities>) -> bool {
    ||| d.is_own_device
    ||| d.locally_trusted
    ||| (owner is Some && owner_signed(d, owner.unwrap()) && owner.unwrap().verified_spec())
}

/// Whether `strategy` hands the room key to `d`, whose owner has `owner`.
pub open spec fn selected(strategy: CollectStrategy, d: Device, owner: Option<UserIdentities>) -> bool {
    match strategy {
        CollectStrategy::DeviceBasedStrategyOnlyTrustedDevices => device_trusted(d, owner),
        CollectStrategy::DeviceBasedStrategyAllDevices => true,
        CollectStrategy::IdentityBasedStrategy => owner is Some && owner_signed(d, owner.unwrap()),
    }
}

/// The warning shown for a device whose owner has `owner`.
pub open spec fn device_shield(d: Device, owner: Option<UserIdentities>) -> ShieldState {
    if owner is Some && owner.unwrap().violation_spec() {
        ShieldState { color: ShieldColor::Red, reason: Some(violation_reason_spec(owner.unwrap())) }
    } else if device_trusted(d, owner) {
        ShieldState { color: ShieldColor::Clear, reason: None }
    } else if owner is None {
        ShieldState { color: ShieldColor::Grey, reason: Some(ShieldReason::NoIdentity) }
    } else if !owner_signed(d, owner.unwrap()) {
        ShieldState { color: ShieldColor::Red, reason: Some(ShieldReason::UnsignedDevice) }
    } else {
        ShieldState { color: ShieldColor::Grey, reason: Some(ShieldReason::UnverifiedIdentity) }
    }
}

/// Position of the last identity of `user` among the first `n` of `s`, or -1.
pub open spec fn index_in(s: Seq<UserIdentities>, user: u64, n: int) -> int
    decreases n,
{
    if n <= 0 {
        -1
    } else if s[n - 1].user_spec() == user {
        n - 1
    } else {
        index_in(s, user, n - 1)
    }
}

/// The identity stored for `user`.
pub open spec fn lookup(s: Seq<UserIdentities>, user: u64) -> Option<UserIdentities> {
    let i = index_in(s, user, s.len() as int);
    if i >= 0 {
        Some(s[i])
    } else {
        None
    }
}

/// Position of the last device named `key` among the first `n` of `s`, or -1.
pub open spec fn device_index(s: Seq<Device>, key: DeviceKey, n: int) -> int
    decreases n,
{
    if n <= 0 {
        -1
    } else if s[n - 1].key_spec() == key {
        n - 1
    } else {
        device_index(s, key, n - 1)
    }
}

/// The devices of `devs` that go to a member of `members` under `strategy`,
/// in store order.
pub open spec fn recipients(
    devs: Seq<Device>,
    idents: Seq<UserIdentities>,
    members: Seq<u64>,
    strategy: CollectStrategy,
) -> Seq<DeviceKey>
    decreases devs.len(),
{
    if devs.len() == 0 {
        Seq::empty()
    } else {
        let rest = recipients(devs.drop_last(), idents, members, strategy);
        let d = devs.last();
        if members.contains(d.user_id) && selected(strategy, d, lookup(idents, d.user_id)) {
            rest.push(d.key_spec())
        } else {
            rest
        }
    }
}

proof fn lemma_index_bounds(s: Seq<UserIdentities>, user: u64, n: int)
    requires
        0 <= n <= s.len(),
    ensures
        -1 <= index_in(s, user, n) < n,
        index_in(s, user, n) >= 0 ==> s[index_in(s, user, n)].user_spec() == user,
    decreases n,
{
    if n > 0 {
        lemma_index_bounds(s, user, n - 1);
    }
}

proof fn lemma_index_same_users(s: Seq<UserIdentities>, t: Seq<UserIdentities>, user: u64, n: int)
    requires
        s.len() == t.len(),
        0 <= n <= s.len(),
        forall|k: int| 0 <= k < s.len() ==> s[k].user_spec() == t[k].user_spec(),
    ensures
        index_in(s, user, n) == index_in(t, user, n),
    decreases n,
{
    if n > 0 {
        lemma_index_same_users(s, t, user, n - 1);
    }
}

proof fn lemma_index_push(s: Seq<UserIdentities>, x: UserIdentities, user: u64, n: int)
    requires
        0 <= n <= s.len(),
    ensures
        index_in(s.push(x), user, n) == index_in(s, user, n),
    decreases n,
{
    if n > 0 {
        lemma_index_push(s, x, user, n - 1);
    }
}

/// Replacing the identity that `lookup` finds for its user changes what is
/// found for that user, and nothing else.
proof fn lemma_lookup_update(s: Seq<UserIdentities>, i: int, v: UserIdentities)
    requires
        0 <= i < s.len(),
        i == index_in(s, v.user_spec(), s.len() as int),
    ensures
        lookup(s.update(i, v), v.user_spec()) == Some(v),
        forall|w: u64| w != v.user_spec() ==> lookup(s.update(i, v), w) == lookup(s, w),
{
    let t = s.update(i, v);
    lemma_index_bounds(s, v.user_spec(), s.len() as int);
    assert forall|k: int| 0 <= k < s.len() implies s[k].user_spec() == t[k].user_spec() by {}
    lemma_index_same_users(s, t, v.user_spec(), s.len() as int);
    assert forall|w: u64| w != v.user_spec() implies lookup(t, w) == lookup(s, w) by {
        lemma_index_same_users(s, t, w, s.len() as int);
        lemma_index_bounds(s, w, s.len() as int);
    }
}

/// Adding an identity for a user without one changes only what is found
/// for that user.
proof fn lemma_lookup_push(s: Seq<UserIdentities>, v: UserIdentities)
    requires
        index_in(s, v.user_spec(), s.len() as int) == -1,
    ensures
        lookup(s.push(v), v.user_spec()) == Some(v),
        forall|w: u64| w != v.user_spec() ==> lookup(s.push(v), w) == lookup(s, w),
{
    assert forall|w: u64| w != v.user_spec() implies lookup(s.push(v), w) == lookup(s, w) by {
        lemma_index_push(s, v, w, s.len() as int);
        lemma_index_bounds(s, w, s.len() as int);
    }
}

fn contains_user(members: &Vec<u64>, user: u64) -> (r: bool)
    ensures
        r == members@.contains(user),
{
    let mut i: usize = 0;
    while i < members.len()
        invariant
            i <= members@.len(),
            forall|j: int| 0 <= j < i ==> members@[j] != user,
        decreases members@.len() - i,
    {
        if members[i] == user {
            assert(members@[i as int] == user);
            return true;
        }
        i = i + 1;
    }
    false
}

fn owner_signs(d: &Device, i: &UserIdentities) -> (r: bool)
    ensures
        r == owner_signed(*d, *i),
{
    let t = i.trust_state();
    d.user_id == i.user_id() && t.pinned_master_key == t.master_key && d.signed_by(t.self_signing_key)
}

/// Identities and devices of all users that the local user knows, keyed by
/// user id.
#[derive(Debug)]
pub struct IdentityStore {
    own_user_id: u64,
    identities: Vec<UserIdentities>,
    devices: Vec<Device>,
}

impl IdentityStore {
    pub closed spec fn own_user(&self) -> u64 {
        self.own_user_id
    }

    pub closed spec fn idents(&self) -> Seq<UserIdentities> {
        self.identities@
    }

    pub closed spec fn devs(&self) -> Seq<Device> {
        self.devices@
    }

    /// The identity that the store holds for `user`.
    pub open spec fn identity_of(&self, user: u64) -> Option<UserIdentities> {
        lookup(self.idents(), user)
    }

    /// What is stored for every user but `user` is as in `before`.
    pub open spec fn others_kept(&self, before: &IdentityStore, user: u64) -> bool {
        &&& self.own_user() == before.own_user()
        &&& self.devs() == before.devs()
        &&& forall|w: u64| w != user ==> #[trigger] self.identity_of(w) == before.identity_of(w)
    }

    /// An empty store for the local user `own_user_id`.
    pub fn new(own_user_id: u64) -> (r: IdentityStore)
        ensures
            r.own_user() == own_user_id,
            r.idents().len() == 0,
            r.devs().len() == 0,
    {
        IdentityStore { own_user_id, identities: Vec::new(), devices: Vec::new() }
    }

    fn find(&self, user: u64) -> (r: Option<usize>)
        ensures
            match r {
                Some(i) => i as int == index_in(self.idents(), user, self.idents().len() as int)
                    && i < self.idents().len(),
                None => index_in(self.idents(), user, self.idents().len() as int) == -1,
            },
    {
        let mut j: usize = self.identities.len();
        while j > 0
            invariant
                j <= self.identities@.len(),
                index_in(self.identities@, user, self.identities@.len() as int) == index_in(
                    self.identities@,
                    user,
                    j as int,
                ),
            decreases j,
        {
            if self.identities[j - 1].user_id() == user {
                return Some(j - 1);
            }
            j = j - 1;
        }
        None
    }

    /// The identity of `user`, if one was observed.
    pub fn get_identity(&self, user: u64) -> (r: Option<UserIdentities>)
        ensures
            r == self.identity_of(user),
    {
        match self.find(user) {
            Some(i) => Some(self.identities[i]),
            None => None,
        }
    }

    fn replace(&mut self, i: usize, v: UserIdentities)
        requires
            i < old(self).idents().len(),
            i as int == index_in(old(self).idents(), v.user_spec(), old(self).idents().len() as int),
        ensures
            final(self).identity_of(v.user_spec()) == Some(v),
            final(self).others_kept(old(self), v.user_spec()),
    {
        proof {
            lemma_lookup_update(self.identities@, i as int, v);
        }
        self.identities.set(i, v);
    }

    /// Records the keys of `user` as observed from the server. The store
    /// keeps the new keys; whether they are trusted is decided elsewhere.
    pub fn upsert_identity(
        &mut self,
        user: u64,
        master_key: u64,
        self_signing_key: u64,
        user_signing_key: Option<u64>,
    ) -> (r: UpsertResult)
        ensures
            final(self).others_kept(old(self), user),
            match old(self).identity_of(user) {
                None => {
                    &&& r == UpsertResult::FirstObservation
                    &&& final(self).identity_of(user) matches Some(j)
                    &&& j.user_spec() == user
                    &&& j.trust_spec() == TrustState::first_observation_spec(master_key, self_signing_key)
                    &&& (j is Own <==> user == old(self).own_user())
                },
                Some(i) => {
                    &&& r == observe_result(i.trust_spec(), master_key, self_signing_key)
                    &&& final(self).identity_of(user) matches Some(j)
                    &&& j.user_spec() == user
                    &&& j.trust_spec() == observe_state(i.trust_spec(), master_key, self_signing_key)
                    &&& (j is Own <==> i is Own)
                },
            },
    {
        proof {
            lemma_index_bounds(self.identities@, user, self.identities@.len() as int);
        }
        match self.find(user) {
            Some(i) => {
                let (e, r) = match self.identities[i] {
                    UserIdentities::Own(o) => {
                        let mut o = o;
                        let r = o.observe(master_key, self_signing_key, user_signing_key);
                        (UserIdentities::Own(o), r)
                    },
                    UserIdentities::Other(u) => {
                        let mut u = u;
                        let r = u.observe(master_key, self_signing_key);
                        (UserIdentities::Other(u), r)
                    },
                };
                self.replace(i, e);
                r
            },
            None => {
                let e = if user == self.own_user_id {
                    UserIdentities::Own(OwnUserIdentity::new(user, master_key, self_signing_key, user_signing_key))
                } else {
                    UserIdentities::Other(UserIdentity::new(user, master_key, self_signing_key))
                };
                proof {
                    lemma_lookup_push(self.identities@, e);
                }
                self.identities.push(e);
                UpsertResult::FirstObservation
            },
        }
    }

    /// Accepts the current master key of `user` as pinned, which resolves any
    /// violation.
    pub fn pin_current_master_key(&mut self, user: u64) -> (r: Result<(), TrustError>)
        ensures
            final(self).others_kept(old(self), user),
            old(self).identity_of(user) is None <==> r == Err::<(), TrustError>(
                TrustError::IdentityNotFound,
            ),
            r is Ok <==> old(self).identity_of(user) is Some,
            old(self).identity_of(user) is None ==> final(self).identity_of(user) is None,
            old(self).identity_of(user) matches Some(i) ==> {
                &&& final(self).identity_of(user) matches Some(j)
                &&& j.user_spec() == user
                &&& j.trust_spec() == (TrustState {
                    pinned_master_key: i.trust_spec().master_key,
                    ..i.trust_spec()
                })
                &&& !j.violation_spec()
                &&& (j is Own <==> i is Own)
            },
    {
        proof {
            lemma_index_bounds(self.identities@, user, self.identities@.len() as int);
        }
        match self.find(user) {
            Some(i) => {
                let e = match self.identities[i] {
                    UserIdentities::Own(o) => {
                        let mut o = o;
                        o.pin_current_master_key();
                        UserIdentities::Own(o)
                    },
                    UserIdentities::Other(u) => {
                        let mut u = u;
                        u.pin_current_master_key();
                        UserIdentities::Other(u)
                    },
                };
                self.replace(i, e);
                Ok(())
            },
            None => Err(TrustError::IdentityNotFound),
        }
    }

    /// Withdraws the verification of `user`: a deliberate downgrade that
    /// also clears any violation.
    pub fn withdraw_verification(&mut self, user: u64) -> (r: Result<(), TrustError>)
        ensures
            final(self).others_kept(old(self), user),
            old(self).identity_of(user) is None <==> r == Err::<(), TrustError>(
                TrustError::IdentityNotFound,
            ),
            r is Ok <==> old(self).identity_of(user) is Some,
            old(self).identity_of(user) is None ==> final(self).identity_of(user) is None,
            old(self).identity_of(user) matches Some(i) ==> {
                &&& final(self).identity_of(user) matches Some(j)
                &&& j.user_spec() == user
                &&& j.trust_spec() == withdrawn_state(i.trust_spec())
                &&& !j.violation_spec()
                &&& (j is Own <==> i is Own)
            },
    {
        proof {
            lemma_index_bounds(self.identities@, user, self.identities@.len() as int);
        }
        match self.find(user) {
            Some(i) => {
                let e = match self.identities[i] {
                    UserIdentities::Own(o) => {
                        let mut o = o;
                        o.withdraw_verification();
                        UserIdentities::Own(o)
                    },
                    UserIdentities::Other(u) => {
                        let mut u = u;
                        u.withdraw_verification();
                        UserIdentities::Other(u)
                    },
                };
                self.replace(i, e);
                Ok(())
            },
            None => Err(TrustError::IdentityNotFound),
        }
    }

    /// Applies the record of a finished verification. It marks the identity
    /// verified only where it vouches for the master key now stored.
    pub fn apply_verification_record(&mut self, record: &VerificationRecord) -> (r: Result<(), TrustError>)
        ensures
            final(self).others_kept(old(self), record.user_id),
            match old(self).identity_of(record.user_id) {
                None => r == Err::<(), TrustError>(TrustError::IdentityNotFound)
                    && final(self).identity_of(record.user_id) is None,
                Some(i) => if record.master_key == i.trust_spec().master_key {
                    &&& r is Ok
                    &&& final(self).identity_of(record.user_id) matches Some(j)
                    &&& j.user_spec() == record.user_id
                    &&& j.trust_spec() == verified_state(i.trust_spec())
                    &&& (j is Own <==> i is Own)
                } else {
                    &&& r == Err::<(), TrustError>(TrustError::SignatureInvalid)
                    &&& final(self).identity_of(record.user_id) == Some(i)
                },
            },
    {
        let user = record.user_id;
        proof {
            lemma_index_bounds(self.identities@, user, self.identities@.len() as int);
        }
        match self.find(user) {
            Some(i) => {
                let cur = self.identities[i];
                if record.master_key != cur.trust_state().master_key {
                    return Err(TrustError::SignatureInvalid);
                }
                let e = match cur {
                    UserIdentities::Own(o) => {
                        let mut o = o;
                        let _ = o.apply_verification(record);
                        UserIdentities::Own(o)
                    },
                    UserIdentities::Other(u) => {
                        let mut u = u;
                        let _ = u.apply_verification(record);
                        UserIdentities::Other(u)
                    },
                };
                self.replace(i, e);
                Ok(())
            },
            None => Err(TrustError::IdentityNotFound),
        }
    }

    /// Stores `device`, in place of a stored device of the same owner and
    /// id if there is one.
    pub fn add_device(&mut self, device: Device)
        ensures
            final(self).own_user() == old(self).own_user(),
            final(self).idents() == old(self).idents(),
            ({
                let k = device_index(old(self).devs(), device.key_spec(), old(self).devs().len() as int);
                final(self).devs() == if k >= 0 {
                    old(self).devs().update(k, device)
                } else {
                    old(self).devs().push(device)
                }
            }),
    {
        let key = device.key();
        let mut j: usize = self.devices.len();
        while j > 0
            invariant
                j <= self.devices@.len(),
                self.devices@ == old(self).devices@,
                self.identities@ == old(self).identities@,
                self.own_user_id == old(self).own_user_id,
                key == device.key_spec(),
                device_index(self.devices@, key, self.devices@.len() as int) == device_index(
                    self.devices@,
                    key,
                    j as int,
                ),
            decreases j,
        {
            if self.devices[j - 1].user_id == key.user_id && self.devices[j - 1].device_id == key.device_id {
                self.devices.set(j - 1, device);
                return;
            }
            j = j - 1;
        }
        self.devices.push(device);
    }

    /// The stored devices, in the order they were first added.
    pub fn devices(&self) -> (r: &Vec<Device>)
        ensures
            r@ == self.devs(),
    {
        &self.devices
    }

    /// Is `device` trusted, given what the store holds about its owner?
    pub fn is_device_trusted(&self, device: &Device) -> (r: bool)
        ensures
            r == device_trusted(*device, self.identity_of(device.user_id)),
    {
        if device.is_own_device || device.locally_trusted {
            return true;
        }
        match self.get_identity(device.user_id) {
            Some(i) => owner_signs(device, &i) && i.is_verified(),
            None => false,
        }
    }

    /// The warning to show for `device`.
    pub fn device_shield(&self, device: &Device) -> (r: ShieldState)
        ensures
            r == device_shield(*device, self.identity_of(device.user_id)),
    {
        let owner = self.get_identity(device.user_id);
        match owner {
            Some(i) => {
                if i.has_violation() {
                    ShieldState { color: ShieldColor::Red, reason: Some(violation_reason(&i)) }
                } else if self.is_device_trusted(device) {
                    ShieldState { color: ShieldColor::Clear, reason: None }
                } else if !owner_signs(device, &i) {
                    ShieldState { color: ShieldColor::Red, reason: Some(ShieldReason::UnsignedDevice) }
                } else {
                    ShieldState { color: ShieldColor::Grey, reason: Some(ShieldReason::UnverifiedIdentity) }
                }
            },
            None => {
                if self.is_device_trusted(device) {
                    ShieldState { color: ShieldColor::Clear, reason: None }
                } else {
                    ShieldState { color: ShieldColor::Grey, reason: Some(ShieldReason::NoIdentity) }
                }
            },
        }
    }

    fn selects(&self, strategy: CollectStrategy, device: &Device) -> (r: bool)
        ensures
            r == selected(strategy, *device, self.identity_of(device.user_id)),
    {
        match strategy {
            CollectStrategy::DeviceBasedStrategyOnlyTrustedDevices => self.is_device_trusted(device),
            CollectStrategy::DeviceBasedStrategyAllDevices => true,
            CollectStrategy::IdentityBasedStrategy => match self.get_identity(device.user_id) {
                Some(i) => owner_signs(device, &i),
                None => false,
            },
        }
    }

    /// The devices that receive a room key for a room with `members`, under
    /// `strategy`, computed afresh from the state of the store.
    pub fn collect_recipients(&self, members: &Vec<u64>, strategy: CollectStrategy) -> (r: Vec<DeviceKey>)
        ensures
            r@ == recipients(self.devs(), self.idents(), members@, strategy),
    {
        let mut r: Vec<DeviceKey> = Vec::new();
        let mut i: usize = 0;
        while i < self.devices.len()
            invariant
                i <= self.devices@.len(),
                r@ == recipients(self.devices@.subrange(0, i as int), self.identities@, members@, strategy),
            decreases self.devices@.len() - i,
        {
            let d = &self.devices[i];
            assert(self.devices@.subrange(0, i + 1).drop_last() =~= self.devices@.subrange(0, i as int));
            assert(self.devices@.subrange(0, i + 1).last() == *d);
            if contains_user(members, d.user_id) && self.selects(strategy, d) {
                r.push(d.key());
            }
            i = i + 1;
        }
        assert(self.devices@.subrange(0, self.devices@.len() as int) =~= self.devices@);
        r
    }
}

/// An identity in violation is never an explicitly verified one.
pub proof fn lemma_violation_not_verified(i: UserIdentities)
    ensures
        i.violation_spec() ==> !i.verified_spec(),
{
}

/// While an identity is in violation, no device of its owner and not the
/// identity itself is shown without a warning.
pub proof fn lemma_violation_always_warns(d: Device, i: UserIdentities)
    requires
        i.violation_spec(),
    ensures
        device_shield(d, Some(i)).color != ShieldColor::Clear,
        identity_shield(i).color == ShieldColor::Red,
{
}

/// Under the strategy of trusted devices only, every recipient is a trusted
/// device of a room member.
pub proof fn lemma_only_trusted_recipients(devs: Seq<Device>, idents: Seq<UserIdentities>, members: Seq<u64>)
    ensures
        forall|k: DeviceKey| #[trigger]
            recipients(devs, idents, members, CollectStrategy::DeviceBasedStrategyOnlyTrustedDevices).contains(k)
                ==> exists|j: int|
                0 <= j < devs.len() && #[trigger] devs[j].key_spec() == k && members.contains(devs[j].user_id)
                    && device_trusted(devs[j], lookup(idents, devs[j].user_id)),
    decreases devs.len(),
{
    let strategy = CollectStrategy::DeviceBasedStrategyOnlyTrustedDevices;
    if devs.len() > 0 {
        let rest = devs.drop_last();
        lemma_only_trusted_recipients(rest, idents, members);
        assert forall|k: DeviceKey| #[trigger]
            recipients(devs, idents, members, strategy).contains(k) implies exists|j: int|
            0 <= j < devs.len() && #[trigger] devs[j].key_spec() == k && members.contains(devs[j].user_id)
                && device_trusted(devs[j], lookup(idents, devs[j].user_id)) by {
            let prev = recipients(rest, idents, members, strategy);
            if prev.contains(k) {
                let j = choose|j: int|
                    0 <= j < rest.len() && #[trigger] rest[j].key_spec() == k && members.contains(rest[j].user_id)
                        && device_trusted(rest[j], lookup(idents, rest[j].user_id));
                assert(devs[j] == rest[j]);
            } else {
                let n = devs.len() - 1;
                assert(devs[n] == devs.last());
                assert(devs[n].key_spec() == k);
            }
        }
    }
}

} // verus!
