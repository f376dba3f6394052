//! Device-bound identity and locally verified licensing.
//!
//! The crate keeps one Ed25519 identity per installation, binds it to a
//! fingerprint of the machine, and issues, signs and validates entitlement
//! records against that identity.
//!
//! Nothing here touches the outside world but for drawing random bytes. All
//! persistent state lives in a [`store::SecretStore`] value that the caller
//! owns; the machine and the clock reach the managers as plain values. Every
//! operation that changes state takes the store by exclusive reference, so
//! two operations on one store never overlap.
//!
//! Each operation is specified by a function on mathematical values, and the
//! module [`laws`] proves what holds across operations: an identity is
//! created once, a trial is granted once, a tampered or expired license and
//! a license on another device are never valid.

pub mod device;
pub mod digest;
pub mod encoding;
pub mod identity;
pub mod laws;
pub mod license;
pub mod records;
pub mod signing;
pub mod store;
pub mod tiers;

pub use device::{DeviceAttributes, NetworkInterface, Processor};
pub use encoding::{decode_transport, encode_transport, TransportError};
pub use identity::{IdentityError, IdentityManager};
pub use license::{LicenseError, LicenseManager};
pub use records::{
    IdentityProof, ImmutableIdentity, License, LicenseFeatures, LicenseKey, LicenseType,
    PublicIdentity,
};
pub use store::{Secret, SecretStore, StoreEntry};
