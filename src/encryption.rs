//! Room encryption settings, key-sharing strategies and warning shields.

use vstd::prelude::*;
use vstd::string::*;
use matrix_sdk_crypto::olm::EncryptionSettings as OlmSettings;

verus! {

/// One week, in microseconds.
pub const DEFAULT_ROTATION_PERIOD: u64 = 604_800_000_000;

/// Number of messages after which a session is replaced by default.
pub const DEFAULT_ROTATION_MESSAGES: u64 = 100;

/// An encryption algorithm to be used to encrypt messages sent to a room.
#[derive(Debug, Clone, Copy, PartialEq, Eq, Structural)]
pub enum EncryptionAlgorithm {
    /// Olm version 1 using Curve25519, AES-256, and SHA-256.
    OlmV1Curve25519AesSha2,
    /// Megolm version 1 using AES-256 and SHA-256.
    MegolmV1AesSha2,
    /// Unsupported algorithm: never to be set, ignored when received.
    Unknown,
}

/// Who could read the room's history when a session was created.
#[derive(Debug, Clone, Copy, PartialEq, Eq, Structural)]
pub enum HistoryVisibility {
    Invited,
    Joined,
    Shared,
    WorldReadable,
}

/// Strategy to collect the devices that should receive room keys.
#[derive(Debug, Clone, Copy, PartialEq, Eq, Structural)]
pub enum CollectStrategy {
    /// Device based sharing, excluding devices that are not trusted.
    DeviceBasedStrategyOnlyTrustedDevices,
    /// Device based sharing, including all devices.
    DeviceBasedStrategyAllDevices,
    /// Only devices cross-signed by a published identity of their owner.
    IdentityBasedStrategy,
}

/// Settings of a group session: algorithm, rotation thresholds, the history
/// visibility at creation time and the sharing strategy.
#[derive(Debug, Clone, Copy, PartialEq, Eq, Structural)]
pub struct EncryptionSettings {
    pub algorithm: EncryptionAlgorithm,
    /// How long the session is used before it is replaced, in microseconds.
    pub rotation_period: u64,
    /// How many messages are sent before the session is replaced.
    pub rotation_period_messages: u64,
    pub history_visibility: HistoryVisibility,
    pub sharing_strategy: CollectStrategy,
}

/// Relies on `matrix_sdk_crypto::olm::EncryptionSettings::default` for the
/// rotation thresholds of a group session: one week, in microseconds, and
/// 100 messages.
#[verifier::external_body]
fn olm_default_rotation() -> (r: (u64, u64))
    ensures
        r == (DEFAULT_ROTATION_PERIOD, DEFAULT_ROTATION_MESSAGES),
{
    let d = OlmSettings::default();
    (d.rotation_period.as_micros() as u64, d.rotation_period_msgs)
}

/// Settings with the crypto layer's rotation thresholds, Megolm, shared
/// history, and every device of the room's members.
fn default_settings() -> (r: EncryptionSettings)
    ensures
        r.algorithm == EncryptionAlgorithm::MegolmV1AesSha2,
        r.rotation_period == DEFAULT_ROTATION_PERIOD,
        r.rotation_period_messages == DEFAULT_ROTATION_MESSAGES,
        r.history_visibility == HistoryVisibility::Shared,
        r.sharing_strategy == CollectStrategy::DeviceBasedStrategyAllDevices,
{
    let (rotation_period, rotation_period_messages) = olm_default_rotation();
    EncryptionSettings {
        algorithm: EncryptionAlgorithm::MegolmV1AesSha2,
        rotation_period,
        rotation_period_messages,
        history_visibility: HistoryVisibility::Shared,
        sharing_strategy: CollectStrategy::DeviceBasedStrategyAllDevices,
    }
}

/// Whether a session used for `elapsed` microseconds with `messages_sent`
/// messages has crossed either rotation threshold of `s`.
pub open spec fn rotation_due(s: EncryptionSettings, elapsed: u64, messages_sent: u64) -> bool {
    elapsed >= s.rotation_period || messages_sent >= s.rotation_period_messages
}

impl EncryptionSettings {
    /// Settings with the default values of the crypto layer.
    pub fn new() -> (r: EncryptionSettings)
        ensures
            r.algorithm == EncryptionAlgorithm::MegolmV1AesSha2,
            r.rotation_period == DEFAULT_ROTATION_PERIOD,
            r.rotation_period_messages == DEFAULT_ROTATION_MESSAGES,
            r.history_visibility == HistoryVisibility::Shared,
            r.sharing_strategy == CollectStrategy::DeviceBasedStrategyAllDevices,
    {
        default_settings()
    }

    /// Is a session that has been used for `elapsed` microseconds and has
    /// encrypted `messages_sent` messages due to be replaced? The two
    /// thresholds are independent: crossing either one is enough.
    pub fn should_rotate(&self, elapsed: u64, messages_sent: u64) -> (r: bool)
        ensures
            r == rotation_due(*self, elapsed, messages_sent),
    {
        elapsed >= self.rotation_period || messages_sent >= self.rotation_period_messages
    }
}

impl Default for EncryptionSettings {
    fn default() -> (r: EncryptionSettings)
        ensures
            r.algorithm == EncryptionAlgorithm::MegolmV1AesSha2,
            r.rotation_period == DEFAULT_ROTATION_PERIOD,
            r.rotation_period_messages == DEFAULT_ROTATION_MESSAGES,
            r.history_visibility == HistoryVisibility::Shared,
            r.sharing_strategy == CollectStrategy::DeviceBasedStrategyAllDevices,
    {
        default_settings()
    }
}

/// How strong a warning is.
#[derive(Debug, Clone, Copy, PartialEq, Eq, Structural)]
pub enum ShieldColor {
    /// Important warning.
    Red,
    /// Low warning.
    Grey,
    /// No warning.
    Clear,
}

/// Why a warning is shown.
#[derive(Debug, Clone, Copy, PartialEq, Eq, Structural)]
pub enum ShieldReason {
    /// The owner's identity changed since it was pinned.
    IdentityChanged,
    /// The owner's identity was verified and is not any longer.
    PreviouslyVerified,
    /// The device is not signed by its owner's identity.
    UnsignedDevice,
    /// The owner's identity is not verified.
    UnverifiedIdentity,
    /// The owner has published no identity.
    NoIdentity,
}

/// The text shown for `reason`.
pub open spec fn reason_text(reason: ShieldReason) -> Seq<char> {
    match reason {
        ShieldReason::IdentityChanged => "The identity of this user changed."@,
        ShieldReason::PreviouslyVerified => "This user was verified and is not any longer."@,
        ShieldReason::UnsignedDevice => "This device is not verified by its owner."@,
        ShieldReason::UnverifiedIdentity => "The identity of this user is not verified."@,
        ShieldReason::NoIdentity => "This user has no cross-signing identity."@,
    }
}

/// A warning level with its explanation, derived on demand from trust state
/// and never stored.
#[derive(Debug, Clone, Copy, PartialEq, Eq, Structural)]
pub struct ShieldState {
    pub color: ShieldColor,
    pub reason: Option<ShieldReason>,
}

impl ShieldState {
    /// The explanation that can be displayed as a tooltip.
    pub fn message(&self) -> (r: Option<String>)
        ensures
            r.is_some() == self.reason.is_some(),
            r matches Some(t) ==> t@ == reason_text(self.reason.unwrap()),
    {
        match self.reason {
            Some(ShieldReason::IdentityChanged) => Some(String::from_str("The identity of this user changed.")),
            Some(ShieldReason::PreviouslyVerified) => Some(String::from_str("This user was verified and is not any longer.")),
            Some(ShieldReason::UnsignedDevice) => Some(String::from_str("This device is not verified by its owner.")),
            Some(ShieldReason::UnverifiedIdentity) => Some(String::from_str("The identity of this user is not verified.")),
            Some(ShieldReason::NoIdentity) => Some(String::from_str("This user has no cross-signing identity.")),
            None => None,
        }
    }
}

} // verus!
