//! Trust and key-sharing decisions for end-to-end encrypted messaging:
//! cross-signing identities and their pins, device trust, interactive
//! verification flows, recipient selection for room keys, and the warning
//! shields derived from all of it.

pub mod encryption;
pub mod error;
pub mod keys;
pub mod verification;
pub mod identities;
pub mod store;
