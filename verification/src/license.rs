//! The license manager: issues, signs, validates and revokes entitlements
//! bound to the identity and the device of an installation.
//!
//! The signature on a license is a hash over its id, its user and a fixed
//! string. It makes local tampering evident; it is no proof of purchase,
//! since everything that goes into it is known to whoever has the program.

use crate::device::{device_fingerprint, DeviceAttributes, DeviceView};
use crate::digest::{sha3_256, sha3_256_digest};
use crate::encoding::{
    append_i64, append_text, decode_transport, hex_encode, hex_text, transport_payload,
};
use crate::identity::{identity_error_text, identity_view, IdentityError, IdentityManager};
use crate::records::{
    IdentityView, ImmutableIdentity, License, LicenseFeatures, LicenseKey, LicenseKeyView,
    LicenseType, LicenseView,
};
use crate::signing::random_bytes;
use crate::tiers::{features_of, license_type_label, trial_features};
use crate::store::{lookup, Secret, SecretStore, SecretView, StoreContents};
use vstd::bytes::spec_u64_to_le_bytes;
use vstd::prelude::*;
use vstd::slice::slice_subrange;
use vstd::string::*;
use vstd::utf8::encode_utf8;

verus! {

/// Seconds in a day.
pub const SECONDS_PER_DAY: i64 = 86400;

/// Days that a trial lasts.
pub const TRIAL_DAYS: i64 = 30;

/// Number of digest bytes that appear in a license id.
pub const LICENSE_ID_DIGEST_LEN: usize = 12;

/// Number of characters in a license id: the prefix and two digits for each
/// digest byte.
pub const LICENSE_ID_LEN: usize = 28;

/// Number of hexadecimal digits in the signature of a license.
pub const LICENSE_SIGNATURE_LEN: usize = 64;

/// The price of a paid license in cents: 29.99.
pub const LICENSE_PRICE_CENTS: u64 = 2999;

/// Least number of bytes in the token of a license key.
pub const MIN_KEY_LEN: usize = 32;

/// Number of random bytes in the token of a generated license key.
pub const KEY_TOKEN_LEN: usize = 32;

/// The id of the license of `license_type` issued to `user_id` at `now`:
/// `LIC-` and the first twelve bytes, in hexadecimal, of the digest of user,
/// tier name and time.
pub open spec fn license_id_of(user_id: Seq<char>, license_type: LicenseType, now: i64) -> Seq<char> {
    "LIC-"@ + hex_text(
        sha3_256(
            encode_utf8(user_id) + encode_utf8(license_type_label(license_type))
                + spec_u64_to_le_bytes(now as u64),
        ).take(LICENSE_ID_DIGEST_LEN as int),
    )
}

/// The string that separates license signatures from other digests.
pub open spec fn signature_domain() -> Seq<char> {
    "UsenetSync-License-v1"@
}

/// The signature of a license: the digest, in hexadecimal, of license id,
/// user id and the domain string.
pub open spec fn license_signature(license_id: Seq<char>, user_id: Seq<char>) -> Seq<char> {
    hex_text(
        sha3_256(encode_utf8(license_id) + encode_utf8(user_id) + encode_utf8(signature_domain())),
    )
}

/// The name of the entry that keeps the license of a user.
pub open spec fn license_entry(user_id: Seq<char>) -> Seq<char> {
    "license_"@ + user_id
}

/// The name of the entry that marks the trial of a user as used.
pub open spec fn trial_entry(user_id: Seq<char>) -> Seq<char> {
    "trial_used_"@ + user_id
}

/// The name of the entry that counts the activations of a license key.
pub open spec fn activations_entry(key: Seq<char>) -> Seq<char> {
    "activations_"@ + key
}

/// The decimal digit of a number below ten.
pub open spec fn decimal_digit(d: nat) -> char {
    seq!['0', '1', '2', '3', '4', '5', '6', '7', '8', '9'][d as int]
}

/// A number in decimal notation, without leading zeros.
pub open spec fn decimal_text(n: nat) -> Seq<char>
    decreases n,
{
    if n < 10 {
        seq![decimal_digit(n)]
    } else {
        decimal_text(n / 10).push(decimal_digit(n % 10))
    }
}

/// The name of the entry that records who made activation number `ordinal`
/// of a license key.
pub open spec fn activation_entry(key: Seq<char>, ordinal: nat) -> Seq<char> {
    "activation_"@ + key + "_"@ + decimal_text(ordinal)
}

/// Builds the name of the entry that keeps the license of `user_id`.
pub fn license_entry_name(user_id: &str) -> (name: String)
    ensures
        name@ == license_entry(user_id@),
{
    String::from_str("license_").concat(user_id)
}

/// Builds the name of the entry that marks the trial of `user_id` as used.
pub fn trial_entry_name(user_id: &str) -> (name: String)
    ensures
        name@ == trial_entry(user_id@),
{
    String::from_str("trial_used_").concat(user_id)
}

/// Builds the name of the entry that counts the activations of `key`.
pub fn activations_entry_name(key: &str) -> (name: String)
    ensures
        name@ == activations_entry(key@),
{
    String::from_str("activations_").concat(key)
}

/// The text of a single decimal digit.
fn digit_text(d: u32) -> (text: &'static str)
    requires
        d < 10,
    ensures
        text@ == seq![decimal_digit(d as nat)],
{
    proof {
        reveal_strlit("0");
        reveal_strlit("1");
        reveal_strlit("2");
        reveal_strlit("3");
        reveal_strlit("4");
        reveal_strlit("5");
        reveal_strlit("6");
        reveal_strlit("7");
        reveal_strlit("8");
        reveal_strlit("9");
    }
    let text = if d == 0 {
        "0"
    } else if d == 1 {
        "1"
    } else if d == 2 {
        "2"
    } else if d == 3 {
        "3"
    } else if d == 4 {
        "4"
    } else if d == 5 {
        "5"
    } else if d == 6 {
        "6"
    } else if d == 7 {
        "7"
    } else if d == 8 {
        "8"
    } else {
        "9"
    };
    assert(text@ =~= seq![decimal_digit(d as nat)]);
    text
}

/// Writes `n` in decimal notation.
pub fn decimal(n: u32) -> (text: String)
    ensures
        text@ == decimal_text(n as nat),
    decreases n,
{
    if n < 10 {
        String::from_str(digit_text(n))
    } else {
        let text = decimal(n / 10).concat(digit_text(n % 10));
        assert(text@ =~= decimal_text(n as nat));
        text
    }
}

/// Builds the name of the entry that records who made activation number
/// `ordinal` of `key`.
pub fn activation_entry_name(key: &str, ordinal: u32) -> (name: String)
    ensures
        name@ == activation_entry(key@, ordinal as nat),
{
    let digits = decimal(ordinal);
    String::from_str("activation_").concat(key).concat("_").concat(digits.as_str())
}

/// Derives the id of the license of `license_type` issued to `user_id` at
/// `now`.
pub fn generate_license_id(user_id: &str, license_type: LicenseType, now: i64) -> (id: String)
    ensures
        id@ == license_id_of(user_id@, license_type, now),
        id@.len() == LICENSE_ID_LEN,
{
    proof {
        reveal_strlit("LIC-");
    }
    let mut material: Vec<u8> = Vec::new();
    append_text(&mut material, user_id);
    append_text(&mut material, license_type.label());
    append_i64(&mut material, now);
    let digest = sha3_256_digest(material.as_slice());
    let head = slice_subrange(digest.as_slice(), 0, LICENSE_ID_DIGEST_LEN);
    assert(head@ =~= digest@.take(LICENSE_ID_DIGEST_LEN as int));
    let digits = hex_encode(head);
    String::from_str("LIC-").concat(digits.as_str())
}

/// Computes the signature of the license `license_id` of `user_id`.
pub fn sign_license(license_id: &str, user_id: &str) -> (signature: String)
    ensures
        signature@ == license_signature(license_id@, user_id@),
        signature@.len() == LICENSE_SIGNATURE_LEN,
{
    let mut material: Vec<u8> = Vec::new();
    append_text(&mut material, license_id);
    append_text(&mut material, user_id);
    append_text(&mut material, "UsenetSync-License-v1");
    let digest = sha3_256_digest(material.as_slice());
    hex_encode(digest.as_slice())
}

/// Why an operation on licenses failed.
#[derive(Clone, Copy, Debug, PartialEq, Eq, Structural)]
pub enum LicenseError {
    /// The identity could not be obtained.
    Identity(IdentityError),
    /// The trial of this identity was used before.
    TrialAlreadyUsed,
    /// The identity was created on another device.
    DeviceVerificationFailed,
    /// The license key does not have the form of a key.
    InvalidLicenseKey,
    /// The license key has been activated as often as it allows.
    ActivationLimitReached,
    /// The time at which the license would expire cannot be represented.
    TimeOutOfRange,
    /// The store holds no license for the identity.
    LicenseNotFound,
    /// The store holds something else where the license belongs.
    CorruptRecord,
    /// The operating system gave no random bytes.
    RandomSource,
    /// The text of a license key is not the encoding of a payload.
    KeyEncoding,
}

/// What an error says to the user. Each policy failure names its reason.
pub open spec fn license_error_text(error: LicenseError) -> Seq<char> {
    match error {
        LicenseError::Identity(e) => identity_error_text(e),
        LicenseError::TrialAlreadyUsed => "Trial already used for this identity"@,
        LicenseError::DeviceVerificationFailed => "Device verification failed"@,
        LicenseError::InvalidLicenseKey => "Invalid license key format"@,
        LicenseError::ActivationLimitReached => "License activation limit reached"@,
        LicenseError::TimeOutOfRange => "The expiry of the license cannot be represented"@,
        LicenseError::LicenseNotFound => "No license is stored for this identity"@,
        LicenseError::CorruptRecord => "The stored license cannot be read"@,
        LicenseError::RandomSource => "The operating system gave no random bytes"@,
        LicenseError::KeyEncoding => "The license key cannot be decoded"@,
    }
}

impl LicenseError {
    /// What the error says to the user.
    pub fn message(&self) -> (text: &'static str)
        ensures
            text@ == license_error_text(*self),
    {
        match self {
            LicenseError::Identity(e) => e.message(),
            LicenseError::TrialAlreadyUsed => "Trial already used for this identity",
            LicenseError::DeviceVerificationFailed => "Device verification failed",
            LicenseError::InvalidLicenseKey => "Invalid license key format",
            LicenseError::ActivationLimitReached => "License activation limit reached",
            LicenseError::TimeOutOfRange => "The expiry of the license cannot be represented",
            LicenseError::LicenseNotFound => "No license is stored for this identity",
            LicenseError::CorruptRecord => "The stored license cannot be read",
            LicenseError::RandomSource => "The operating system gave no random bytes",
            LicenseError::KeyEncoding => "The license key cannot be decoded",
        }
    }
}

/// The payload of a license key in transport encoding.
pub open spec fn key_payload(text: Seq<char>) -> Result<Seq<u8>, LicenseError> {
    match transport_payload(text) {
        Ok(payload) => Ok(payload),
        Err(_) => Err(LicenseError::KeyEncoding),
    }
}

/// The outcome of an activation: what is returned and what the store holds
/// afterwards.
pub struct Activation {
    pub result: Result<LicenseView, LicenseError>,
    pub store: StoreContents,
}

/// The outcome of a deactivation.
pub struct Deactivation {
    pub result: Result<(), LicenseError>,
    pub store: StoreContents,
}

/// The time `days` days after `now`, where it can be represented.
pub open spec fn expiry_after(now: i64, days: i64) -> Option<i64> {
    let at = now + days * SECONDS_PER_DAY;
    if i64::MIN <= at <= i64::MAX {
        Some(at as i64)
    } else {
        None
    }
}

/// The license that is issued to `identity` at `now`: active, bound to the
/// user and the device of the identity, and signed.
pub open spec fn issued_license(
    identity: IdentityView,
    license_type: LicenseType,
    features: LicenseFeatures,
    now: i64,
    expires_at: Option<i64>,
    activation_count: u32,
    max_activations: u32,
) -> LicenseView {
    let license_id = license_id_of(identity.user_id, license_type, now);
    LicenseView {
        license_id,
        user_id: identity.user_id,
        license_type,
        activated_at: now,
        expires_at,
        device_fingerprint: identity.device_fingerprint,
        features,
        signature: license_signature(license_id, identity.user_id),
        is_active: true,
        activation_count,
        max_activations,
    }
}

/// Trial activation as a function. It fails where the trial marker of the
/// user exists, where the device is not the one of the identity, and where
/// thirty days from `now` cannot be represented. Otherwise it stores the
/// trial license and sets the marker.
pub open spec fn trial_activation(
    identity: IdentityView,
    store: StoreContents,
    device: DeviceView,
    now: i64,
) -> Activation {
    if store.contains_key(trial_entry(identity.user_id)) {
        Activation { result: Err(LicenseError::TrialAlreadyUsed), store }
    } else if device_fingerprint(device) != identity.device_fingerprint {
        Activation { result: Err(LicenseError::DeviceVerificationFailed), store }
    } else {
        match expiry_after(now, TRIAL_DAYS) {
            None => Activation { result: Err(LicenseError::TimeOutOfRange), store },
            Some(expires_at) => {
                let license = issued_license(
                    identity,
                    LicenseType::Trial,
                    trial_features(),
                    now,
                    Some(expires_at),
                    1,
                    1,
                );
                Activation {
                    result: Ok(license),
                    store: store.insert(
                        license_entry(identity.user_id),
                        SecretView::License(license),
                    ).insert(trial_entry(identity.user_id), SecretView::Marker),
                }
            },
        }
    }
}

/// How often `key` has been activated, by what the store holds. Anything
/// but a counter counts as zero.
pub open spec fn activation_count(store: StoreContents, key: Seq<char>) -> u32 {
    match lookup(store, activations_entry(key)) {
        Some(SecretView::Counter(count)) => count,
        _ => 0,
    }
}

/// Whether a license key has the form of a key: a token of at least 32
/// bytes, the price of a paid license, and the feature set of its tier.
pub open spec fn key_well_formed(key: LicenseKeyView) -> bool {
    &&& encode_utf8(key.key).len() >= MIN_KEY_LEN
    &&& key.price_cents == LICENSE_PRICE_CENTS
    &&& key.features == features_of(key.license_type)
}

/// When a license redeemed with `key` at `now` expires: never where the key
/// names no duration. The outer `None` says that the time cannot be
/// represented.
pub open spec fn key_expiry(key: LicenseKeyView, now: i64) -> Option<Option<i64>> {
    match key.duration_days {
        None => Some(None),
        Some(days) => match expiry_after(now, days) {
            Some(at) => Some(Some(at)),
            None => None,
        },
    }
}

/// Activation with a license key as a function. It fails where the key is
/// malformed or does not carry the price, where the device is not the one of the identity, where the key
/// has no activation left, and where the expiry cannot be represented.
/// Otherwise it stores the license, counts the activation and records who
/// made it.
pub open spec fn paid_activation(
    identity: IdentityView,
    store: StoreContents,
    key: LicenseKeyView,
    device: DeviceView,
    now: i64,
) -> Activation {
    let used = activation_count(store, key.key);
    if !key_well_formed(key) {
        Activation { result: Err(LicenseError::InvalidLicenseKey), store }
    } else if device_fingerprint(device) != identity.device_fingerprint {
        Activation { result: Err(LicenseError::DeviceVerificationFailed), store }
    } else if used >= key.max_activations {
        Activation { result: Err(LicenseError::ActivationLimitReached), store }
    } else {
        match key_expiry(key, now) {
            None => Activation { result: Err(LicenseError::TimeOutOfRange), store },
            Some(expires_at) => {
                let license = issued_license(
                    identity,
                    key.license_type,
                    key.features,
                    now,
                    expires_at,
                    (used + 1) as u32,
                    key.max_activations,
                );
                Activation {
                    result: Ok(license),
                    store: store.insert(
                        license_entry(identity.user_id),
                        SecretView::License(license),
                    ).insert(
                        activations_entry(key.key),
                        SecretView::Counter((used + 1) as u32),
                    ).insert(
                        activation_entry(key.key, (used + 1) as nat),
                        SecretView::Owner(identity.user_id),
                    ),
                }
            },
        }
    }
}

/// Whether `license` entitles `identity` on `device` at `now`: it names the
/// user and the device of the identity, the device is the present one, its
/// expiry, where it has one, lies in the future, its signature is the one of
/// its id and user, and it has not been deactivated.
pub open spec fn license_valid(
    license: LicenseView,
    identity: IdentityView,
    device: DeviceView,
    now: i64,
) -> bool {
    &&& license.user_id == identity.user_id
    &&& license.device_fingerprint == identity.device_fingerprint
    &&& license.device_fingerprint == device_fingerprint(device)
    &&& (license.expires_at matches Some(at) ==> now < at)
    &&& license.signature == license_signature(license.license_id, license.user_id)
    &&& license.is_active
}

/// Validation as a function: the stored license of the identity where it is
/// valid, nothing in every other case.
pub open spec fn validation(
    identity: IdentityView,
    store: StoreContents,
    device: DeviceView,
    now: i64,
) -> Option<LicenseView> {
    match lookup(store, license_entry(identity.user_id)) {
        Some(SecretView::License(license)) => if license_valid(license, identity, device, now) {
            Some(license)
        } else {
            None
        },
        _ => None,
    }
}

/// Deactivation as a function: the stored license of the identity stays
/// where it is, marked inactive.
pub open spec fn deactivation(identity: IdentityView, store: StoreContents) -> Deactivation {
    match lookup(store, license_entry(identity.user_id)) {
        Some(SecretView::License(license)) => Deactivation {
            result: Ok(()),
            store: store.insert(
                license_entry(identity.user_id),
                SecretView::License(LicenseView { is_active: false, ..license }),
            ),
        },
        Some(_) => Deactivation { result: Err(LicenseError::CorruptRecord), store },
        None => Deactivation { result: Err(LicenseError::LicenseNotFound), store },
    }
}

/// Trial activation for whatever asking for the identity gave.
pub open spec fn trial_outcome(
    identity: Result<IdentityView, IdentityError>,
    store: StoreContents,
    device: DeviceView,
    now: i64,
) -> Activation {
    match identity {
        Ok(identity) => trial_activation(identity, store, device, now),
        Err(e) => Activation { result: Err(LicenseError::Identity(e)), store },
    }
}

/// Activation with a license key for whatever asking for the identity gave.
pub open spec fn paid_outcome(
    identity: Result<IdentityView, IdentityError>,
    store: StoreContents,
    key: LicenseKeyView,
    device: DeviceView,
    now: i64,
) -> Activation {
    match identity {
        Ok(identity) => paid_activation(identity, store, key, device, now),
        Err(e) => Activation { result: Err(LicenseError::Identity(e)), store },
    }
}

/// Validation for whatever asking for the identity gave: without an
/// identity there is no valid license.
pub open spec fn validation_outcome(
    identity: Result<IdentityView, IdentityError>,
    store: StoreContents,
    device: DeviceView,
    now: i64,
) -> Option<LicenseView> {
    match identity {
        Ok(identity) => validation(identity, store, device, now),
        Err(_) => None,
    }
}

/// Deactivation for whatever asking for the identity gave.
pub open spec fn deactivation_outcome(
    identity: Result<IdentityView, IdentityError>,
    store: StoreContents,
) -> Deactivation {
    match identity {
        Ok(identity) => deactivation(identity, store),
        Err(e) => Deactivation { result: Err(LicenseError::Identity(e)), store },
    }
}

/// Whole days from `now` until `expires_at`, rounded towards zero; negative
/// once the time has passed.
pub open spec fn days_between(now: i64, expires_at: i64) -> int {
    if expires_at >= now {
        (expires_at - now) / (SECONDS_PER_DAY as int)
    } else {
        -((now - expires_at) / (SECONDS_PER_DAY as int))
    }
}

/// The license key that carries the token `token` in hexadecimal, at the
/// price of a paid license and with the feature set of its tier.
pub open spec fn license_key_of(
    token: Seq<u8>,
    license_type: LicenseType,
    duration_days: Option<i64>,
    max_activations: u32,
) -> LicenseKeyView {
    LicenseKeyView {
        key: hex_text(token),
        license_type,
        duration_days,
        price_cents: LICENSE_PRICE_CENTS,
        max_activations,
        features: features_of(license_type),
    }
}

/// The view of a fallible license.
pub open spec fn license_view(r: Result<License, LicenseError>) -> Result<LicenseView, LicenseError> {
    match r {
        Ok(license) => Ok(license@),
        Err(e) => Err(e),
    }
}

/// The view of an optional license.
pub open spec fn optional_license_view(license: Option<License>) -> Option<LicenseView> {
    match license {
        Some(license) => Some(license@),
        None => None,
    }
}

/// Computes the time `days` days after `now`.
pub fn expiry(now: i64, days: i64) -> (at: Option<i64>)
    ensures
        at == expiry_after(now, days),
{
    let at: i128 = now as i128 + days as i128 * 86400;
    if at < i64::MIN as i128 || at > i64::MAX as i128 {
        None
    } else {
        Some(at as i64)
    }
}

/// Owns the licenses of an installation.
#[derive(Debug)]
pub struct LicenseManager {
    identity_manager: IdentityManager,
    keyring_service: String,
}

impl LicenseManager {
    /// The identity manager that this manager holds.
    pub closed spec fn identity(&self) -> IdentityManager {
        self.identity_manager
    }

    /// The namespace under which the entries of this manager are kept.
    pub closed spec fn service_name(&self) -> Seq<char> {
        self.keyring_service@
    }

    /// A license manager on top of `identity_manager`.
    pub fn new(identity_manager: IdentityManager) -> (manager: Self)
        ensures
            manager.identity() == identity_manager,
            manager.service_name() == "UsenetSync"@,
    {
        LicenseManager { identity_manager, keyring_service: String::from_str("UsenetSync") }
    }

    /// The namespace under which the entries of this manager are kept.
    pub fn service(&self) -> (name: &str)
        ensures
            name@ == self.service_name(),
    {
        self.keyring_service.as_str()
    }

    /// The identity manager that this manager holds.
    pub fn identity_manager(&self) -> (manager: &IdentityManager)
        ensures
            *manager == self.identity(),
    {
        &self.identity_manager
    }

    /// Whether the trial of `user_id` has been used.
    pub fn has_used_trial(&self, store: &SecretStore, user_id: &str) -> (used: bool)
        ensures
            used == store@.contains_key(trial_entry(user_id@)),
    {
        store.contains(trial_entry_name(user_id).as_str())
    }

    /// How often `key` has been activated.
    pub fn get_activation_count(&self, store: &SecretStore, key: &str) -> (count: u32)
        ensures
            count == activation_count(store@, key@),
    {
        match store.get(activations_entry_name(key).as_str()) {
            Some(Secret::Counter(count)) => *count,
            _ => 0,
        }
    }

    /// Activates the trial of `identity`.
    pub fn activate_trial_for(
        &self,
        identity: &ImmutableIdentity,
        store: &mut SecretStore,
        device: &DeviceAttributes,
        now: i64,
    ) -> (r: Result<License, LicenseError>)
        ensures
            license_view(r) == trial_activation(identity@, old(store)@, device@, now).result,
            final(store)@ == trial_activation(identity@, old(store)@, device@, now).store,
    {
        if self.has_used_trial(store, identity.user_id.as_str()) {
            return Err(LicenseError::TrialAlreadyUsed);
        }
        if !self.identity_manager.verify_device(identity, device) {
            return Err(LicenseError::DeviceVerificationFailed);
        }
        let expires_at = match expiry(now, TRIAL_DAYS) {
            Some(at) => at,
            None => {
                return Err(LicenseError::TimeOutOfRange);
            },
        };
        let license_id = generate_license_id(identity.user_id.as_str(), LicenseType::Trial, now);
        let signature = sign_license(license_id.as_str(), identity.user_id.as_str());
        let license = License {
            license_id,
            user_id: identity.user_id.clone(),
            license_type: LicenseType::Trial,
            activated_at: now,
            expires_at: Some(expires_at),
            device_fingerprint: identity.device_fingerprint.clone(),
            features: LicenseFeatures::trial(),
            signature,
            is_active: true,
            activation_count: 1,
            max_activations: 1,
        };
        store.set(license_entry_name(license.user_id.as_str()), Secret::License(license.clone()));
        store.set(trial_entry_name(identity.user_id.as_str()), Secret::Marker);
        Ok(license)
    }

    /// Redeems `key` for a license of `identity`.
    pub fn activate_paid_license_for(
        &self,
        identity: &ImmutableIdentity,
        store: &mut SecretStore,
        key: &LicenseKey,
        device: &DeviceAttributes,
        now: i64,
    ) -> (r: Result<License, LicenseError>)
        ensures
            license_view(r) == paid_activation(identity@, old(store)@, key@, device@, now).result,
            final(store)@ == paid_activation(identity@, old(store)@, key@, device@, now).store,
    {
        match self.check_license_key(key) {
            Ok(()) => {},
            Err(e) => {
                return Err(e);
            },
        }
        if !self.identity_manager.verify_device(identity, device) {
            return Err(LicenseError::DeviceVerificationFailed);
        }
        let used = self.get_activation_count(store, key.key.as_str());
        if used >= key.max_activations {
            return Err(LicenseError::ActivationLimitReached);
        }
        let expires_at = match key.duration_days {
            None => None,
            Some(days) => match expiry(now, days) {
                Some(at) => Some(at),
                None => {
                    return Err(LicenseError::TimeOutOfRange);
                },
            },
        };
        let license_id = generate_license_id(identity.user_id.as_str(), key.license_type, now);
        let signature = sign_license(license_id.as_str(), identity.user_id.as_str());
        let license = License {
            license_id,
            user_id: identity.user_id.clone(),
            license_type: key.license_type,
            activated_at: now,
            expires_at,
            device_fingerprint: identity.device_fingerprint.clone(),
            features: key.features,
            signature,
            is_active: true,
            activation_count: used + 1,
            max_activations: key.max_activations,
        };
        store.set(license_entry_name(license.user_id.as_str()), Secret::License(license.clone()));
        store.set(activations_entry_name(key.key.as_str()), Secret::Counter(used + 1));
        store.set(
            activation_entry_name(key.key.as_str(), used + 1),
            Secret::Owner(identity.user_id.clone()),
        );
        Ok(license)
    }

    /// Decides whether `license` carries the signature of its id and user.
    pub fn verify_license_signature(&self, license: &License) -> (genuine: bool)
        ensures
            genuine == (license@.signature == license_signature(
                license@.license_id,
                license@.user_id,
            )),
    {
        let expected = sign_license(license.license_id.as_str(), license.user_id.as_str());
        license.signature == expected
    }

    /// Looks up the license of `identity` and returns it where it is valid.
    /// Every way in which it can fail to be valid gives the same answer.
    pub fn validate_license_for(
        &self,
        identity: &ImmutableIdentity,
        store: &SecretStore,
        device: &DeviceAttributes,
        now: i64,
    ) -> (r: (bool, Option<License>))
        ensures
            r.0 == r.1.is_some(),
            optional_license_view(r.1) == validation(identity@, store@, device@, now),
    {
        let license = match store.get(license_entry_name(identity.user_id.as_str()).as_str()) {
            Some(Secret::License(license)) => license,
            _ => {
                return (false, None);
            },
        };
        if license.user_id != identity.user_id {
            return (false, None);
        }
        if license.device_fingerprint != identity.device_fingerprint {
            return (false, None);
        }
        if !self.identity_manager.verify_device(identity, device) {
            return (false, None);
        }
        match license.expires_at {
            Some(at) => {
                if now >= at {
                    return (false, None);
                }
            },
            None => {},
        }
        if !self.verify_license_signature(license) {
            return (false, None);
        }
        if !license.is_active {
            return (false, None);
        }
        (true, Some(license.clone()))
    }

    /// Marks the stored license of `identity` inactive. The record stays.
    pub fn deactivate_license_for(&self, identity: &ImmutableIdentity, store: &mut SecretStore) -> (r:
        Result<(), LicenseError>)
        ensures
            r == deactivation(identity@, old(store)@).result,
            final(store)@ == deactivation(identity@, old(store)@).store,
    {
        let name = license_entry_name(identity.user_id.as_str());
        let mut license = match store.get(name.as_str()) {
            Some(Secret::License(license)) => license.clone(),
            Some(_) => {
                return Err(LicenseError::CorruptRecord);
            },
            None => {
                return Err(LicenseError::LicenseNotFound);
            },
        };
        license.is_active = false;
        store.set(name, Secret::License(license));
        Ok(())
    }

    /// Whole days until `license` expires, counted from `now` and rounded
    /// towards zero. `None` for a license that does not expire.
    pub fn get_remaining_days(&self, license: &License, now: i64) -> (days: Option<i64>)
        ensures
            match license@.expires_at {
                Some(at) => days matches Some(d) && d == days_between(now, at),
                None => days is None,
            },
    {
        match license.expires_at {
            Some(at) => {
                if at >= now {
                    let span: u128 = (at as i128 - now as i128) as u128;
                    Some((span / 86400) as i64)
                } else {
                    let span: u128 = (now as i128 - at as i128) as u128;
                    Some(-((span / 86400) as i64))
                }
            },
            None => None,
        }
    }

    /// Unwraps the transport encoding of a license key. What comes out is
    /// the serialized key.
    pub fn decode_license_key(&self, text: &str) -> (r: Result<Vec<u8>, LicenseError>)
        ensures
            match r {
                Ok(payload) => key_payload(text@) == Ok::<Seq<u8>, LicenseError>(payload@),
                Err(e) => key_payload(text@) == Err::<Seq<u8>, LicenseError>(e),
            },
    {
        match decode_transport(text) {
            Ok(payload) => Ok(payload),
            Err(_) => Err(LicenseError::KeyEncoding),
        }
    }

    /// Decides whether `key` has the form of a key.
    pub fn check_license_key(&self, key: &LicenseKey) -> (r: Result<(), LicenseError>)
        ensures
            r == if key_well_formed(key@) {
                Ok::<(), LicenseError>(())
            } else {
                Err::<(), LicenseError>(LicenseError::InvalidLicenseKey)
            },
    {
        if key.key.as_str().as_bytes().len() < MIN_KEY_LEN {
            Err(LicenseError::InvalidLicenseKey)
        } else if key.price_cents != LICENSE_PRICE_CENTS {
            Err(LicenseError::InvalidLicenseKey)
        } else if key.features != LicenseFeatures::for_type(key.license_type) {
            Err(LicenseError::InvalidLicenseKey)
        } else {
            Ok(())
        }
    }

    /// Builds the license key that carries `token` in hexadecimal.
    pub fn license_key_from(
        &self,
        token: &[u8],
        license_type: LicenseType,
        duration_days: Option<i64>,
        max_activations: u32,
    ) -> (key: LicenseKey)
        ensures
            key@ == license_key_of(token@, license_type, duration_days, max_activations),
    {
        LicenseKey {
            key: hex_encode(token),
            license_type,
            duration_days,
            price_cents: LICENSE_PRICE_CENTS,
            max_activations,
            features: LicenseFeatures::for_type(license_type),
        }
    }

    /// Generates a license key with a token of 32 fresh random bytes.
    pub fn generate_license_key(
        &self,
        license_type: LicenseType,
        duration_days: Option<i64>,
        max_activations: u32,
    ) -> (r: Result<LicenseKey, LicenseError>)
        ensures
            match r {
                Ok(key) => exists|token: Seq<u8>|
                    token.len() == KEY_TOKEN_LEN && key@ == #[trigger] license_key_of(
                        token,
                        license_type,
                        duration_days,
                        max_activations,
                    ),
                Err(e) => e == LicenseError::RandomSource,
            },
    {
        match random_bytes(KEY_TOKEN_LEN) {
            Ok(token) => Ok(
                self.license_key_from(token.as_slice(), license_type, duration_days, max_activations),
            ),
            Err(_) => Err(LicenseError::RandomSource),
        }
    }
    /// Activates the trial of this installation: thirty days of the trial
    /// tier, once per identity.
    pub fn activate_trial(&mut self, store: &mut SecretStore, device: &DeviceAttributes, now: i64) -> (r:
        Result<License, LicenseError>)
        ensures
            final(self).service_name() == old(self).service_name(),
            exists|identity: Result<IdentityView, IdentityError>, mid: StoreContents|
                {
                    &&& #[trigger] old(self).identity().obtains(
                        final(self).identity(),
                        old(store)@,
                        device@,
                        now,
                        identity,
                        mid,
                    )
                    &&& license_view(r) == trial_outcome(identity, mid, device@, now).result
                    &&& final(store)@ == trial_outcome(identity, mid, device@, now).store
                },
    {
        let obtained = self.identity_manager.get_current_identity(store, device, now);
        let ghost mid = store@;
        let r = match &obtained {
            Ok(identity) => self.activate_trial_for(identity, store, device, now),
            Err(e) => Err(LicenseError::Identity(*e)),
        };
        proof {
            assert(old(self).identity().obtains(
                self.identity(),
                old(store)@,
                device@,
                now,
                identity_view(obtained),
                mid,
            ));
        }
        r
    }

    /// Redeems `key` for a license of this installation.
    pub fn activate_paid_license(
        &mut self,
        store: &mut SecretStore,
        key: &LicenseKey,
        device: &DeviceAttributes,
        now: i64,
    ) -> (r: Result<License, LicenseError>)
        ensures
            final(self).service_name() == old(self).service_name(),
            exists|identity: Result<IdentityView, IdentityError>, mid: StoreContents|
                {
                    &&& #[trigger] old(self).identity().obtains(
                        final(self).identity(),
                        old(store)@,
                        device@,
                        now,
                        identity,
                        mid,
                    )
                    &&& license_view(r) == paid_outcome(identity, mid, key@, device@, now).result
                    &&& final(store)@ == paid_outcome(identity, mid, key@, device@, now).store
                },
    {
        let obtained = self.identity_manager.get_current_identity(store, device, now);
        let ghost mid = store@;
        let r = match &obtained {
            Ok(identity) => self.activate_paid_license_for(identity, store, key, device, now),
            Err(e) => Err(LicenseError::Identity(*e)),
        };
        proof {
            assert(old(self).identity().obtains(
                self.identity(),
                old(store)@,
                device@,
                now,
                identity_view(obtained),
                mid,
            ));
        }
        r
    }

    /// Says whether this installation is entitled right now, and by which
    /// license. Never fails: whatever stands in the way gives `(false,
    /// None)`.
    pub fn validate_current_license(
        &mut self,
        store: &mut SecretStore,
        device: &DeviceAttributes,
        now: i64,
    ) -> (r: (bool, Option<License>))
        ensures
            final(self).service_name() == old(self).service_name(),
            r.0 == r.1.is_some(),
            exists|identity: Result<IdentityView, IdentityError>|
                {
                    &&& #[trigger] old(self).identity().obtains(
                        final(self).identity(),
                        old(store)@,
                        device@,
                        now,
                        identity,
                        final(store)@,
                    )
                    &&& optional_license_view(r.1) == validation_outcome(
                        identity,
                        final(store)@,
                        device@,
                        now,
                    )
                },
    {
        let obtained = self.identity_manager.get_current_identity(store, device, now);
        let r = match &obtained {
            Ok(identity) => self.validate_license_for(identity, store, device, now),
            Err(_) => (false, None),
        };
        proof {
            assert(old(self).identity().obtains(
                self.identity(),
                old(store)@,
                device@,
                now,
                identity_view(obtained),
                store@,
            ));
        }
        r
    }

    /// Marks the license of this installation inactive. The record stays in
    /// the store.
    pub fn deactivate_license(&mut self, store: &mut SecretStore, device: &DeviceAttributes, now: i64) -> (r:
        Result<(), LicenseError>)
        ensures
            final(self).service_name() == old(self).service_name(),
            exists|identity: Result<IdentityView, IdentityError>, mid: StoreContents|
                {
                    &&& #[trigger] old(self).identity().obtains(
                        final(self).identity(),
                        old(store)@,
                        device@,
                        now,
                        identity,
                        mid,
                    )
                    &&& r == deactivation_outcome(identity, mid).result
                    &&& final(store)@ == deactivation_outcome(identity, mid).store
                },
    {
        let obtained = self.identity_manager.get_current_identity(store, device, now);
        let ghost mid = store@;
        let r = match &obtained {
            Ok(identity) => self.deactivate_license_for(identity, store),
            Err(e) => Err(LicenseError::Identity(*e)),
        };
        proof {
            assert(old(self).identity().obtains(
                self.identity(),
                old(store)@,
                device@,
                now,
                identity_view(obtained),
                mid,
            ));
        }
        r
    }
}

} // verus!
