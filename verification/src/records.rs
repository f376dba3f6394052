//! The records that the secret store keeps: identities, licenses and license
//! keys, each with its mathematical view.

use vstd::prelude::*;

verus! {

/// The public part of the one identity of an installation. The private key
/// is never part of it: that lives in the secret store alone.
#[derive(Debug)]
pub struct ImmutableIdentity {
    pub user_id: String,
    pub public_key: Vec<u8>,
    pub created_at: i64,
    pub device_fingerprint: String,
    pub version: u32,
}

/// The mathematical view of an [`ImmutableIdentity`]: texts are sequences of characters, byte
/// strings are sequences of bytes.
pub struct IdentityView {
    pub user_id: Seq<char>,
    pub public_key: Seq<u8>,
    pub created_at: i64,
    pub device_fingerprint: Seq<char>,
    pub version: u32,
}

impl View for ImmutableIdentity {
    type V = IdentityView;

    open spec fn view(&self) -> IdentityView {
        IdentityView {
            user_id: self.user_id@,
            public_key: self.public_key@,
            created_at: self.created_at,
            device_fingerprint: self.device_fingerprint@,
            version: self.version,
        }
    }
}

impl Clone for ImmutableIdentity {
    fn clone(&self) -> (copy: Self)
        ensures
            copy@ == self@,
    {
        let public_key = self.public_key.clone();
        assert(public_key@ =~= self.public_key@);
        ImmutableIdentity {
            user_id: self.user_id.clone(),
            public_key,
            created_at: self.created_at,
            device_fingerprint: self.device_fingerprint.clone(),
            version: self.version,
        }
    }
}

/// What an identity shows to others: the user id, the public key in
/// hexadecimal, the time of creation and the schema version. It has no room
/// for private key material.
#[derive(Debug)]
pub struct PublicIdentity {
    pub user_id: String,
    pub public_key: String,
    pub created_at: i64,
    pub version: u32,
}

/// The mathematical view of a [`PublicIdentity`]: texts are sequences of characters, byte
/// strings are sequences of bytes.
pub struct PublicIdentityView {
    pub user_id: Seq<char>,
    pub public_key: Seq<char>,
    pub created_at: i64,
    pub version: u32,
}

impl View for PublicIdentity {
    type V = PublicIdentityView;

    open spec fn view(&self) -> PublicIdentityView {
        PublicIdentityView {
            user_id: self.user_id@,
            public_key: self.public_key@,
            created_at: self.created_at,
            version: self.version,
        }
    }
}

/// A one-time proof that the holder has the private key of an identity: a
/// signature over the user id, a timestamp and a random nonce.
#[derive(Debug)]
pub struct IdentityProof {
    pub user_id: String,
    pub timestamp: i64,
    pub nonce: Vec<u8>,
    pub signature: Vec<u8>,
}

/// The mathematical view of an [`IdentityProof`]: texts are sequences of characters, byte
/// strings are sequences of bytes.
pub struct ProofView {
    pub user_id: Seq<char>,
    pub timestamp: i64,
    pub nonce: Seq<u8>,
    pub signature: Seq<u8>,
}

impl View for IdentityProof {
    type V = ProofView;

    open spec fn view(&self) -> ProofView {
        ProofView {
            user_id: self.user_id@,
            timestamp: self.timestamp,
            nonce: self.nonce@,
            signature: self.signature@,
        }
    }
}

/// The tier of an entitlement.
#[derive(Clone, Copy, Debug, PartialEq, Eq, Structural)]
pub enum LicenseType {
    Trial,
    Personal,
    Professional,
    Enterprise,
    Lifetime,
}

/// What a tier allows. A limit of `None` means unlimited.
#[derive(Clone, Copy, Debug, PartialEq, Eq, Structural)]
pub struct LicenseFeatures {
    pub max_storage_gb: Option<u64>,
    pub max_folders: Option<u32>,
    pub max_files: Option<u32>,
    pub max_connections: u32,
    pub parallel_uploads: u32,
    pub parallel_downloads: u32,
    pub encryption_enabled: bool,
    pub private_shares: bool,
    pub password_shares: bool,
    pub auto_resume: bool,
    pub scheduled_sync: bool,
    pub api_access: bool,
    pub priority_support: bool,
}

/// An entitlement bound to one identity and one device. Times are seconds
/// since the epoch.
#[derive(Debug)]
pub struct License {
    pub license_id: String,
    pub user_id: String,
    pub license_type: LicenseType,
    pub activated_at: i64,
    pub expires_at: Option<i64>,
    pub device_fingerprint: String,
    pub features: LicenseFeatures,
    pub signature: String,
    pub is_active: bool,
    pub activation_count: u32,
    pub max_activations: u32,
}

/// The mathematical view of a [`License`]: texts are sequences of characters, byte
/// strings are sequences of bytes.
pub struct LicenseView {
    pub license_id: Seq<char>,
    pub user_id: Seq<char>,
    pub license_type: LicenseType,
    pub activated_at: i64,
    pub expires_at: Option<i64>,
    pub device_fingerprint: Seq<char>,
    pub features: LicenseFeatures,
    pub signature: Seq<char>,
    pub is_active: bool,
    pub activation_count: u32,
    pub max_activations: u32,
}

impl View for License {
    type V = LicenseView;

    open spec fn view(&self) -> LicenseView {
        LicenseView {
            license_id: self.license_id@,
            user_id: self.user_id@,
            license_type: self.license_type,
            activated_at: self.activated_at,
            expires_at: self.expires_at,
            device_fingerprint: self.device_fingerprint@,
            features: self.features,
            signature: self.signature@,
            is_active: self.is_active,
            activation_count: self.activation_count,
            max_activations: self.max_activations,
        }
    }
}

impl Clone for License {
    fn clone(&self) -> (copy: Self)
        ensures
            copy@ == self@,
    {
        License {
            license_id: self.license_id.clone(),
            user_id: self.user_id.clone(),
            license_type: self.license_type,
            activated_at: self.activated_at,
            expires_at: self.expires_at,
            device_fingerprint: self.device_fingerprint.clone(),
            features: self.features,
            signature: self.signature.clone(),
            is_active: self.is_active,
            activation_count: self.activation_count,
            max_activations: self.max_activations,
        }
    }
}

/// A credential issued out of band, redeemed for a license. The price is
/// held in cents.
#[derive(Debug)]
pub struct LicenseKey {
    pub key: String,
    pub license_type: LicenseType,
    pub duration_days: Option<i64>,
    pub price_cents: u64,
    pub max_activations: u32,
    pub features: LicenseFeatures,
}

/// The mathematical view of a [`LicenseKey`]: texts are sequences of characters, byte
/// strings are sequences of bytes.
pub struct LicenseKeyView {
    pub key: Seq<char>,
    pub license_type: LicenseType,
    pub duration_days: Option<i64>,
    pub price_cents: u64,
    pub max_activations: u32,
    pub features: LicenseFeatures,
}

impl View for LicenseKey {
    type V = LicenseKeyView;

    open spec fn view(&self) -> LicenseKeyView {
        LicenseKeyView {
            key: self.key@,
            license_type: self.license_type,
            duration_days: self.duration_days,
            price_cents: self.price_cents,
            max_activations: self.max_activations,
            features: self.features,
        }
    }
}

} // verus!
