//! The identity manager: one Ed25519 identity per installation, created on
//! first use, bound to the machine it was created on, and never recreated
//! while the secret store still holds it.

use crate::device::{device_fingerprint, DeviceAttributes, DeviceView, FINGERPRINT_LEN};
use crate::digest::{sha3_256, sha3_256_digest};
use crate::encoding::{append_i64, append_text, hex_encode, hex_text};
use crate::records::{
    IdentityProof, IdentityView, ImmutableIdentity, PublicIdentity, PublicIdentityView,
};
use crate::signing::{
    ed25519_is_public_key, ed25519_public_key, ed25519_signature, ed25519_verifies, public_key_of,
    random_bytes, sign_with, verify_with, KEY_LEN, SIGNATURE_LEN,
};
use crate::store::{lookup, Secret, SecretStore, SecretView, StoreContents};
use vstd::bytes::spec_u64_to_le_bytes;
use vstd::prelude::*;
use vstd::slice::slice_subrange;
use vstd::string::*;
use vstd::utf8::encode_utf8;

verus! {

/// Why an operation on the identity failed.
#[derive(Clone, Copy, Debug, PartialEq, Eq, Structural)]
pub enum IdentityError {
    /// The store holds something else where the identity record belongs, or
    /// where a private key belongs.
    CorruptRecord,
    /// The store no longer holds the private key of the identity.
    KeyNotFound,
    /// Key material does not have the form of an Ed25519 key.
    InvalidKey,
    /// The operating system gave no random bytes.
    RandomSource,
}

/// What an error says to the user.
pub open spec fn identity_error_text(error: IdentityError) -> Seq<char> {
    match error {
        IdentityError::CorruptRecord => "The secret store holds a record that cannot be read"@,
        IdentityError::KeyNotFound => "The private key is no longer in the secret store"@,
        IdentityError::InvalidKey => "The key material is not an Ed25519 key"@,
        IdentityError::RandomSource => "The operating system gave no random bytes"@,
    }
}

impl IdentityError {
    /// What the error says to the user.
    pub fn message(&self) -> (text: &'static str)
        ensures
            text@ == identity_error_text(*self),
    {
        match self {
            IdentityError::CorruptRecord => "The secret store holds a record that cannot be read",
            IdentityError::KeyNotFound => "The private key is no longer in the secret store",
            IdentityError::InvalidKey => "The key material is not an Ed25519 key",
            IdentityError::RandomSource => "The operating system gave no random bytes",
        }
    }
}

/// Number of digest bytes that appear in a user id.
pub const USER_ID_DIGEST_LEN: usize = 16;

/// Number of characters in a user id: the prefix and two digits for each
/// digest byte.
pub const USER_ID_LEN: usize = 36;

/// Number of random bytes in an identity proof.
pub const NONCE_LEN: usize = 32;

/// Schema version of the identities that this crate creates.
pub const IDENTITY_VERSION: u32 = 1;

/// The name of the entry that keeps the private key of a user.
pub open spec fn private_key_entry(user_id: Seq<char>) -> Seq<char> {
    user_id + "_private"@
}

/// The user id that belongs to a public key on a device: `USN-` and the
/// first sixteen bytes, in hexadecimal, of the digest of key and fingerprint.
pub open spec fn user_id_of(public_key: Seq<u8>, fingerprint: Seq<char>) -> Seq<char> {
    "USN-"@ + hex_text(
        sha3_256(public_key + encode_utf8(fingerprint)).take(USER_ID_DIGEST_LEN as int),
    )
}

/// The identity that a public key gets on `device` at time `now`.
pub open spec fn fresh_identity(public_key: Seq<u8>, device: DeviceView, now: i64) -> IdentityView {
    IdentityView {
        user_id: user_id_of(public_key, device_fingerprint(device)),
        public_key,
        created_at: now,
        device_fingerprint: device_fingerprint(device),
        version: IDENTITY_VERSION,
    }
}

/// The outcome of initialization: what is returned and what the store holds
/// afterwards.
pub struct Initialization {
    pub result: Result<(IdentityView, bool), IdentityError>,
    pub store: StoreContents,
}

/// Initialization as a function: an identity found under `entry` is returned
/// as it is; anything else found there is an error; where nothing is found,
/// the identity of `secret` is created and stored with its private key.
pub open spec fn initialization(
    entry: Seq<char>,
    store: StoreContents,
    device: DeviceView,
    now: i64,
    secret: Seq<u8>,
) -> Initialization {
    match lookup(store, entry) {
        Some(SecretView::Identity(found)) => Initialization { result: Ok((found, false)), store },
        Some(_) => Initialization { result: Err(IdentityError::CorruptRecord), store },
        None => if secret.len() != KEY_LEN {
            Initialization { result: Err(IdentityError::InvalidKey), store }
        } else {
            let identity = fresh_identity(ed25519_public_key(secret), device, now);
            Initialization {
                result: Ok((identity, true)),
                store: store.insert(
                    private_key_entry(identity.user_id),
                    SecretView::PrivateKey(secret),
                ).insert(entry, SecretView::Identity(identity)),
            }
        },
    }
}

/// Whether `result` and the store `after` are what initialization may give
/// from a store that holds `store`: either the outcome for some fresh 32-byte
/// secret key, or, where a key was needed and the operating system gave no
/// random bytes, an error with the store untouched.
pub open spec fn initialization_obtained(
    entry: Seq<char>,
    store: StoreContents,
    device: DeviceView,
    now: i64,
    result: Result<(IdentityView, bool), IdentityError>,
    after: StoreContents,
) -> bool {
    ||| {
        &&& result == Err::<(IdentityView, bool), IdentityError>(IdentityError::RandomSource)
        &&& after == store
        &&& lookup(store, entry) is None
    }
    ||| exists|secret: Seq<u8>|
        secret.len() == KEY_LEN && Initialization { result, store: after }
            == #[trigger] initialization(entry, store, device, now, secret)
}

/// The view of what initialization returns.
pub open spec fn initialized_view(
    r: Result<(ImmutableIdentity, bool), IdentityError>,
) -> Result<(IdentityView, bool), IdentityError> {
    match r {
        Ok((identity, created)) => Ok((identity@, created)),
        Err(e) => Err(e),
    }
}

/// The view of a fallible identity.
pub open spec fn identity_view(r: Result<ImmutableIdentity, IdentityError>) -> Result<
    IdentityView,
    IdentityError,
> {
    match r {
        Ok(identity) => Ok(identity@),
        Err(e) => Err(e),
    }
}

/// The outcome of asking for the current identity: what is returned and
/// what the store holds afterwards.
pub struct IdentityAccess {
    pub result: Result<IdentityView, IdentityError>,
    pub store: StoreContents,
}

/// Access to the current identity as a function: a remembered identity is
/// returned without a look at the store; otherwise the identity is
/// initialized, with `secret` as the secret key of a new one.
pub open spec fn identity_access(
    cached: Option<IdentityView>,
    entry: Seq<char>,
    store: StoreContents,
    device: DeviceView,
    now: i64,
    secret: Seq<u8>,
) -> IdentityAccess {
    match cached {
        Some(identity) => IdentityAccess { result: Ok(identity), store },
        None => {
            let first = initialization(entry, store, device, now, secret);
            IdentityAccess {
                result: match first.result {
                    Ok((identity, _)) => Ok(identity),
                    Err(e) => Err(e),
                },
                store: first.store,
            }
        },
    }
}

/// Whether `result` and the store `after` are what asking for the current
/// identity may give, from a manager that remembers `cached` and a store
/// that holds `store`: either the outcome for some fresh 32-byte secret key,
/// or, where a key was needed and the operating system gave no random bytes,
/// an error with the store untouched.
pub open spec fn identity_obtained(
    cached: Option<IdentityView>,
    entry: Seq<char>,
    store: StoreContents,
    device: DeviceView,
    now: i64,
    result: Result<IdentityView, IdentityError>,
    after: StoreContents,
) -> bool {
    ||| {
        &&& result == Err::<IdentityView, IdentityError>(IdentityError::RandomSource)
        &&& after == store
        &&& cached is None
        &&& lookup(store, entry) is None
    }
    ||| exists|secret: Seq<u8>|
        secret.len() == KEY_LEN && IdentityAccess { result, store: after }
            == #[trigger] identity_access(cached, entry, store, device, now, secret)
}

/// Whether asking for the identity has to create one: the manager remembers
/// none and the store has nothing on record.
pub open spec fn creates(cached: Option<IdentityView>, entry: Seq<char>, store: StoreContents) -> bool {
    cached is None && lookup(store, entry) is None
}

/// What a manager remembers after it was asked for the identity: the
/// identity that it returned, or what it remembered before.
pub open spec fn remembered(
    before: Option<IdentityView>,
    result: Result<IdentityView, IdentityError>,
) -> Option<IdentityView> {
    match result {
        Ok(identity) => Some(identity),
        Err(_) => before,
    }
}

/// What destroying the identity leaves in the store: the record is gone, and
/// with it the private key of the identity that was remembered or, failing
/// that, recorded.
pub open spec fn destruction(cached: Option<IdentityView>, entry: Seq<char>, store: StoreContents) -> StoreContents {
    match cached {
        Some(identity) => store.remove(private_key_entry(identity.user_id)).remove(entry),
        None => match lookup(store, entry) {
            Some(SecretView::Identity(identity)) => store.remove(
                private_key_entry(identity.user_id),
            ).remove(entry),
            _ => store.remove(entry),
        },
    }
}

/// The public part of an identity, with the key in hexadecimal.
pub open spec fn public_identity(identity: IdentityView) -> PublicIdentityView {
    PublicIdentityView {
        user_id: identity.user_id,
        public_key: hex_text(identity.public_key),
        created_at: identity.created_at,
        version: identity.version,
    }
}

/// The message that an identity proof signs: user id, timestamp in
/// little-endian order, nonce.
pub open spec fn proof_message(user_id: Seq<char>, timestamp: i64, nonce: Seq<u8>) -> Seq<u8> {
    encode_utf8(user_id) + spec_u64_to_le_bytes(timestamp as u64) + nonce
}

/// What signing `data` as `identity` gives, by what the store holds under
/// the name of the identity's private key.
pub open spec fn signing(store: StoreContents, identity: IdentityView, data: Seq<u8>) -> Result<
    Seq<u8>,
    IdentityError,
> {
    match lookup(store, private_key_entry(identity.user_id)) {
        Some(SecretView::PrivateKey(secret)) => if secret.len() == KEY_LEN && ed25519_is_public_key(
            identity.public_key,
        ) {
            Ok(ed25519_signature(secret, identity.public_key, data))
        } else {
            Err(IdentityError::InvalidKey)
        },
        Some(_) => Err(IdentityError::CorruptRecord),
        None => Err(IdentityError::KeyNotFound),
    }
}

/// The view of a fallible byte string.
pub open spec fn bytes_view(r: Result<Vec<u8>, IdentityError>) -> Result<Seq<u8>, IdentityError> {
    match r {
        Ok(bytes) => Ok(bytes@),
        Err(e) => Err(e),
    }
}

/// What holds of every identity that was just created, beyond the function
/// that gives its fields: its public key is 32 bytes long and decodes, and
/// its user id is the prefix and 32 digits.
pub open spec fn created_in_order(identity: IdentityView) -> bool {
    &&& identity.public_key.len() == KEY_LEN
    &&& ed25519_is_public_key(identity.public_key)
    &&& identity.user_id.len() == USER_ID_LEN
}

/// Whether the store holds, for `identity`, the secret key that its public
/// key belongs to.
pub open spec fn holds_key_pair(store: StoreContents, identity: IdentityView) -> bool {
    lookup(store, private_key_entry(identity.user_id)) matches Some(SecretView::PrivateKey(secret))
        && secret.len() == KEY_LEN && identity.public_key == ed25519_public_key(secret)
}

/// Builds the name of the entry that keeps the private key of `user_id`.
pub fn private_key_entry_name(user_id: &str) -> (name: String)
    ensures
        name@ == private_key_entry(user_id@),
{
    String::from_str(user_id).concat("_private")
}

/// Derives the user id of a public key on the device with `fingerprint`.
pub fn derive_user_id(public_key: &[u8], fingerprint: &str) -> (user_id: String)
    ensures
        user_id@ == user_id_of(public_key@, fingerprint@),
        user_id@.len() == USER_ID_LEN,
{
    proof {
        reveal_strlit("USN-");
    }
    let mut material: Vec<u8> = Vec::new();
    material.extend_from_slice(public_key);
    append_text(&mut material, fingerprint);
    assert(material@ =~= public_key@ + encode_utf8(fingerprint@));
    let digest = sha3_256_digest(material.as_slice());
    let head = slice_subrange(digest.as_slice(), 0, USER_ID_DIGEST_LEN);
    assert(head@ =~= digest@.take(USER_ID_DIGEST_LEN as int));
    let digits = hex_encode(head);
    String::from_str("USN-").concat(digits.as_str())
}

/// Owns the identity of an installation and everything built on it.
#[derive(Debug)]
pub struct IdentityManager {
    keyring_service: String,
    keyring_user: String,
    identity_cache: Option<ImmutableIdentity>,
}

impl IdentityManager {
    /// The namespace under which the entries of this manager are kept.
    pub closed spec fn service_name(&self) -> Seq<char> {
        self.keyring_service@
    }

    /// The name of the entry that keeps the identity record.
    pub closed spec fn record_entry(&self) -> Seq<char> {
        self.keyring_user@
    }

    /// The identity that the manager remembers, if any.
    pub closed spec fn cached(&self) -> Option<IdentityView> {
        match self.identity_cache {
            Some(identity) => Some(identity@),
            None => None,
        }
    }

    /// Whether `after` is this manager once it was asked for the identity
    /// with `result`, the store holding `store` before and `stored`
    /// afterwards.
    pub open spec fn obtains(
        &self,
        after: IdentityManager,
        store: StoreContents,
        device: DeviceView,
        now: i64,
        result: Result<IdentityView, IdentityError>,
        stored: StoreContents,
    ) -> bool {
        &&& after.service_name() == self.service_name()
        &&& after.record_entry() == self.record_entry()
        &&& after.cached() == remembered(self.cached(), result)
        &&& identity_obtained(self.cached(), self.record_entry(), store, device, now, result, stored)
    }

    /// A manager that remembers no identity yet.
    pub fn new() -> (manager: Self)
        ensures
            manager.service_name() == "UsenetSync"@,
            manager.record_entry() == "Identity"@,
            manager.cached() is None,
    {
        IdentityManager {
            keyring_service: String::from_str("UsenetSync"),
            keyring_user: String::from_str("Identity"),
            identity_cache: None,
        }
    }

    /// The namespace under which the entries of this manager are kept.
    pub fn service(&self) -> (name: &str)
        ensures
            name@ == self.service_name(),
    {
        self.keyring_service.as_str()
    }

    /// The name of the entry that keeps the identity record.
    pub fn identity_entry(&self) -> (name: &str)
        ensures
            name@ == self.record_entry(),
    {
        self.keyring_user.as_str()
    }

    /// The identity that the manager remembers, if any.
    pub fn cached_identity(&self) -> (identity: Option<&ImmutableIdentity>)
        ensures
            match identity {
                Some(found) => self.cached() == Some(found@),
                None => self.cached() is None,
            },
    {
        self.identity_cache.as_ref()
    }

    /// Initializes the identity, with `secret` as the secret key to use
    /// where a new identity has to be created.
    pub fn initialize_identity_from(
        &mut self,
        store: &mut SecretStore,
        device: &DeviceAttributes,
        now: i64,
        secret: Vec<u8>,
    ) -> (r: Result<(ImmutableIdentity, bool), IdentityError>)
        ensures
            final(self).service_name() == old(self).service_name(),
            final(self).record_entry() == old(self).record_entry(),
            initialized_view(r) == initialization(
                old(self).record_entry(),
                old(store)@,
                device@,
                now,
                secret@,
            ).result,
            final(store)@ == initialization(
                old(self).record_entry(),
                old(store)@,
                device@,
                now,
                secret@,
            ).store,
            final(self).cached() == match initialized_view(r) {
                Ok((identity, _)) => Some(identity),
                Err(_) => old(self).cached(),
            },
            r matches Ok((identity, true)) ==> created_in_order(identity@),
    {
        if store.contains(self.keyring_user.as_str()) {
            return self.read_identity(store);
        }
        let public_key = match public_key_of(secret.as_slice()) {
            Ok(public_key) => public_key,
            Err(_) => {
                return Err(IdentityError::InvalidKey);
            },
        };
        let fingerprint = device.fingerprint();
        let user_id = derive_user_id(public_key.as_slice(), fingerprint.as_str());
        let identity = ImmutableIdentity {
            user_id,
            public_key,
            created_at: now,
            device_fingerprint: fingerprint,
            version: IDENTITY_VERSION,
        };
        store.set(private_key_entry_name(identity.user_id.as_str()), Secret::PrivateKey(secret));
        store.set(self.keyring_user.clone(), Secret::Identity(identity.clone()));
        self.identity_cache = Some(identity.clone());
        Ok((identity, true))
    }

    /// Returns the identity that the store holds, or creates one from fresh
    /// random bytes where it holds none. The flag says whether one was
    /// created.
    pub fn initialize_identity(
        &mut self,
        store: &mut SecretStore,
        device: &DeviceAttributes,
        now: i64,
    ) -> (r: Result<(ImmutableIdentity, bool), IdentityError>)
        ensures
            final(self).service_name() == old(self).service_name(),
            final(self).record_entry() == old(self).record_entry(),
            initialization_obtained(
                old(self).record_entry(),
                old(store)@,
                device@,
                now,
                initialized_view(r),
                final(store)@,
            ),
            final(self).cached() == match initialized_view(r) {
                Ok((identity, _)) => Some(identity),
                Err(_) => old(self).cached(),
            },
            r matches Ok((identity, true)) ==> created_in_order(identity@),
    {
        if store.contains(self.keyring_user.as_str()) {
            // Nothing will be created: any key stands for the one not drawn.
            let ghost unused = Seq::new(KEY_LEN as nat, |i: int| 0u8);
            let r = self.read_identity(store);
            proof {
                let step = Initialization { result: initialized_view(r), store: store@ };
                assert(step == initialization(
                    old(self).record_entry(),
                    old(store)@,
                    device@,
                    now,
                    unused,
                ));
            }
            return r;
        }
        let secret = match random_bytes(KEY_LEN) {
            Ok(bytes) => bytes,
            Err(_) => {
                return Err(IdentityError::RandomSource);
            },
        };
        let ghost drawn = secret@;
        let r = self.initialize_identity_from(store, device, now, secret);
        proof {
            let step = Initialization { result: initialized_view(r), store: store@ };
            assert(step == initialization(
                old(self).record_entry(),
                old(store)@,
                device@,
                now,
                drawn,
            ));
        }
        r
    }

    /// Reads the identity record and remembers the identity it holds.
    fn read_identity(&mut self, store: &SecretStore) -> (r: Result<(ImmutableIdentity, bool), IdentityError>)
        requires
            store@.contains_key(old(self).record_entry()),
        ensures
            final(self).service_name() == old(self).service_name(),
            final(self).record_entry() == old(self).record_entry(),
            initialized_view(r) == match store@[old(self).record_entry()] {
                SecretView::Identity(found) => Ok((found, false)),
                _ => Err(IdentityError::CorruptRecord),
            },
            final(self).cached() == match initialized_view(r) {
                Ok((identity, _)) => Some(identity),
                Err(_) => old(self).cached(),
            },
    {
        match store.get(self.keyring_user.as_str()) {
            Some(Secret::Identity(found)) => {
                let identity = found.clone();
                self.identity_cache = Some(identity.clone());
                Ok((identity, false))
            },
            _ => Err(IdentityError::CorruptRecord),
        }
    }

    /// Returns the identity, with `secret` as the secret key to use where a
    /// new identity has to be created.
    pub fn get_current_identity_from(
        &mut self,
        store: &mut SecretStore,
        device: &DeviceAttributes,
        now: i64,
        secret: Vec<u8>,
    ) -> (r: Result<ImmutableIdentity, IdentityError>)
        ensures
            final(self).service_name() == old(self).service_name(),
            final(self).record_entry() == old(self).record_entry(),
            identity_view(r) == identity_access(
                old(self).cached(),
                old(self).record_entry(),
                old(store)@,
                device@,
                now,
                secret@,
            ).result,
            final(store)@ == identity_access(
                old(self).cached(),
                old(self).record_entry(),
                old(store)@,
                device@,
                now,
                secret@,
            ).store,
            final(self).cached() == remembered(old(self).cached(), identity_view(r)),
            r matches Ok(identity) ==> (creates(old(self).cached(), old(self).record_entry(), old(store)@)
                ==> created_in_order(identity@)),
    {
        match &self.identity_cache {
            Some(identity) => {
                return Ok(identity.clone());
            },
            None => {},
        }
        match self.initialize_identity_from(store, device, now, secret) {
            Ok((identity, _)) => Ok(identity),
            Err(e) => Err(e),
        }
    }

    /// Returns the identity of this installation: the one remembered, else
    /// the one in the store, else a new one.
    pub fn get_current_identity(
        &mut self,
        store: &mut SecretStore,
        device: &DeviceAttributes,
        now: i64,
    ) -> (r: Result<ImmutableIdentity, IdentityError>)
        ensures
            old(self).obtains(*final(self), old(store)@, device@, now, identity_view(r), final(store)@),
            r matches Ok(identity) ==> (creates(old(self).cached(), old(self).record_entry(), old(store)@)
                ==> created_in_order(identity@)),
    {
        match &self.identity_cache {
            Some(identity) => {
                // Nothing will be created: any key stands for the one not drawn.
                let ghost unused = Seq::new(KEY_LEN as nat, |i: int| 0u8);
                let r = Ok(identity.clone());
                proof {
                    let access = IdentityAccess { result: identity_view(r), store: store@ };
                    assert(access == identity_access(
                        old(self).cached(),
                        old(self).record_entry(),
                        old(store)@,
                        device@,
                        now,
                        unused,
                    ));
                }
                return r;
            },
            None => {},
        }
        let initialized = self.initialize_identity(store, device, now);
        let r = match &initialized {
            Ok((identity, _)) => Ok(identity.clone()),
            Err(e) => Err(*e),
        };
        proof {
            let first = Initialization { result: initialized_view(initialized), store: store@ };
            if first.result != Err::<(IdentityView, bool), IdentityError>(IdentityError::RandomSource) {
                let secret = choose|secret: Seq<u8>|
                    secret.len() == KEY_LEN && first == #[trigger] initialization(
                        old(self).record_entry(),
                        old(store)@,
                        device@,
                        now,
                        secret,
                    );
                let access = IdentityAccess { result: identity_view(r), store: store@ };
                assert(access == identity_access(
                    None,
                    old(self).record_entry(),
                    old(store)@,
                    device@,
                    now,
                    secret,
                ));
            }
        }
        r
    }

    /// Computes the fingerprint of the machine described by `device`.
    pub fn generate_device_fingerprint(&self, device: &DeviceAttributes) -> (text: String)
        ensures
            text@ == device_fingerprint(device@),
            text@.len() == FINGERPRINT_LEN,
    {
        device.fingerprint()
    }

    /// Whether `identity` was created on the machine described by `device`.
    pub fn verify_device(&self, identity: &ImmutableIdentity, device: &DeviceAttributes) -> (same: bool)
        ensures
            same == (device_fingerprint(device@) == identity@.device_fingerprint),
    {
        let current = device.fingerprint();
        current == identity.device_fingerprint
    }

    /// Signs `data` with the private key that the store keeps for
    /// `identity`.
    pub fn sign_data(&self, store: &SecretStore, identity: &ImmutableIdentity, data: &[u8]) -> (r:
        Result<Vec<u8>, IdentityError>)
        ensures
            bytes_view(r) == signing(store@, identity@, data@),
            r matches Ok(signature) ==> signature@.len() == SIGNATURE_LEN,
            r is Ok ==> identity@.public_key.len() == KEY_LEN,
            r matches Ok(signature) ==> (holds_key_pair(store@, identity@) ==> ed25519_verifies(
                identity@.public_key,
                data@,
                signature@,
            )),
    {
        let name = private_key_entry_name(identity.user_id.as_str());
        match store.get(name.as_str()) {
            Some(Secret::PrivateKey(secret)) => {
                match sign_with(secret.as_slice(), identity.public_key.as_slice(), data) {
                    Ok(signature) => Ok(signature),
                    Err(_) => Err(IdentityError::InvalidKey),
                }
            },
            Some(_) => Err(IdentityError::CorruptRecord),
            None => Err(IdentityError::KeyNotFound),
        }
    }

    /// Whether `signature` is a signature on `data` under the public key of
    /// `identity`. Malformed keys and signatures give `false`.
    pub fn verify_signature(&self, identity: &ImmutableIdentity, data: &[u8], signature: &[u8]) -> (accepted:
        bool)
        ensures
            accepted == ed25519_verifies(identity@.public_key, data@, signature@),
            !ed25519_is_public_key(identity@.public_key) ==> !accepted,
            identity@.public_key.len() != KEY_LEN ==> !accepted,
            signature@.len() != SIGNATURE_LEN ==> !accepted,
    {
        verify_with(identity.public_key.as_slice(), data, signature)
    }

    /// Builds the proof of possession that carries `nonce`.
    pub fn create_identity_proof_from(
        &self,
        store: &SecretStore,
        identity: &ImmutableIdentity,
        now: i64,
        nonce: Vec<u8>,
    ) -> (r: Result<IdentityProof, IdentityError>)
        ensures
            match r {
                Ok(proof) => {
                    &&& proof@.user_id == identity@.user_id
                    &&& proof@.timestamp == now
                    &&& proof@.nonce == nonce@
                    &&& Ok::<Seq<u8>, IdentityError>(proof@.signature) == signing(
                        store@,
                        identity@,
                        proof_message(identity@.user_id, now, nonce@),
                    )
                    &&& holds_key_pair(store@, identity@) ==> ed25519_verifies(
                        identity@.public_key,
                        proof_message(identity@.user_id, now, nonce@),
                        proof@.signature,
                    )
                },
                Err(e) => Err::<Seq<u8>, IdentityError>(e) == signing(
                    store@,
                    identity@,
                    proof_message(identity@.user_id, now, nonce@),
                ),
            },
    {
        let mut message: Vec<u8> = Vec::new();
        append_text(&mut message, identity.user_id.as_str());
        append_i64(&mut message, now);
        message.extend_from_slice(nonce.as_slice());
        assert(message@ =~= proof_message(identity@.user_id, now, nonce@));
        match self.sign_data(store, identity, message.as_slice()) {
            Ok(signature) => Ok(
                IdentityProof { user_id: identity.user_id.clone(), timestamp: now, nonce, signature },
            ),
            Err(e) => Err(e),
        }
    }

    /// Builds a proof of possession of the private key of `identity`: a
    /// signature over the user id, `now` and 32 fresh random bytes.
    pub fn create_identity_proof(&self, store: &SecretStore, identity: &ImmutableIdentity, now: i64) -> (r:
        Result<IdentityProof, IdentityError>)
        ensures
            match r {
                Ok(proof) => {
                    &&& proof@.user_id == identity@.user_id
                    &&& proof@.timestamp == now
                    &&& proof@.nonce.len() == NONCE_LEN
                    &&& Ok::<Seq<u8>, IdentityError>(proof@.signature) == signing(
                        store@,
                        identity@,
                        proof_message(identity@.user_id, now, proof@.nonce),
                    )
                    &&& holds_key_pair(store@, identity@) ==> ed25519_verifies(
                        identity@.public_key,
                        proof_message(identity@.user_id, now, proof@.nonce),
                        proof@.signature,
                    )
                },
                Err(e) => e == IdentityError::RandomSource || exists|nonce: Seq<u8>|
                    nonce.len() == NONCE_LEN && Err::<Seq<u8>, IdentityError>(e) == signing(
                        store@,
                        identity@,
                        #[trigger] proof_message(identity@.user_id, now, nonce),
                    ),
            },
    {
        match random_bytes(NONCE_LEN) {
            Ok(nonce) => self.create_identity_proof_from(store, identity, now, nonce),
            Err(_) => Err(IdentityError::RandomSource),
        }
    }

    /// Selects what of `identity` may be shown to others.
    pub fn export_public_identity(&self, identity: &ImmutableIdentity) -> (public: PublicIdentity)
        ensures
            public@ == public_identity(identity@),
    {
        PublicIdentity {
            user_id: identity.user_id.clone(),
            public_key: hex_encode(identity.public_key.as_slice()),
            created_at: identity.created_at,
            version: identity.version,
        }
    }

    /// Destroys the identity for good: removes its record and its private
    /// key from the store and forgets it. Nothing can bring it back.
    pub fn destroy_identity(&mut self, store: &mut SecretStore)
        ensures
            final(self).service_name() == old(self).service_name(),
            final(self).record_entry() == old(self).record_entry(),
            final(self).cached() is None,
            final(store)@ == destruction(old(self).cached(), old(self).record_entry(), old(store)@),
    {
        let user_id: Option<String> = match &self.identity_cache {
            Some(identity) => Some(identity.user_id.clone()),
            None => match store.get(self.keyring_user.as_str()) {
                Some(Secret::Identity(identity)) => Some(identity.user_id.clone()),
                _ => None,
            },
        };
        match user_id {
            Some(user_id) => {
                store.delete(private_key_entry_name(user_id.as_str()).as_str());
            },
            None => {},
        }
        store.delete(self.keyring_user.as_str());
        self.identity_cache = None;
    }
}

} // verus!
