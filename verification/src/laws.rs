//! What holds of the identity and license managers across calls.
//!
//! Each law is stated over the functions that the contracts of the managers
//! are stated over, so it holds of every run of the managers themselves.

use crate::device::{
    device_fingerprint, interface_order, lemma_interface_order_is_total, sorted_interfaces,
    DeviceAttributes, DeviceView,
};
use crate::digest::sha3_256;
use crate::encoding::{hex_alphabet, hex_digit_at, hex_text};
use crate::identity::{
    fresh_identity, holds_key_pair, identity_access, initialization, private_key_entry,
    remembered, user_id_of, IdentityError,
};
use crate::license::{
    activation_count, activation_entry, activations_entry, deactivation, license_entry,
    license_signature, license_valid, paid_activation, signature_domain, trial_activation,
    trial_entry, trial_outcome, validation, validation_outcome, LicenseError,
    LICENSE_PRICE_CENTS, SECONDS_PER_DAY, TRIAL_DAYS,
};
use crate::records::{IdentityView, LicenseKeyView, LicenseType, LicenseView};
use crate::signing::{ed25519_public_key, KEY_LEN};
use crate::store::{lookup, SecretView, StoreContents};
use crate::tiers::{features_of, trial_features};
use vstd::prelude::*;
use vstd::seq_lib::lemma_sorted_unique;
use vstd::utf8::encode_utf8;

verus! {

/// An identity is stable within a process. Once a manager has handed out an
/// identity, it remembers it and hands out the same one at every later
/// call, whatever the store, the device, the time and fresh key material
/// are by then, and without touching the store.
pub proof fn law_identity_is_stable_within_a_process(
    cached: Option<IdentityView>,
    entry: Seq<char>,
    store: StoreContents,
    device: DeviceView,
    now: i64,
    secret: Seq<u8>,
    later_store: StoreContents,
    later_device: DeviceView,
    later: i64,
    later_secret: Seq<u8>,
)
    ensures
        ({
            let first = identity_access(cached, entry, store, device, now, secret);
            let second = identity_access(
                remembered(cached, first.result),
                entry,
                later_store,
                later_device,
                later,
                later_secret,
            );
            first.result is Ok ==> second.result == first.result && second.store == later_store
        }),
{
}

/// An identity is stable across restarts. Whatever identity a manager
/// without memory hands out, a manager without memory that later works on
/// the same store hands out the same one and leaves the store as it is,
/// whatever the device, the time and fresh key material are by then.
pub proof fn law_identity_is_stable_across_restarts(
    entry: Seq<char>,
    store: StoreContents,
    device: DeviceView,
    now: i64,
    secret: Seq<u8>,
    later_device: DeviceView,
    later: i64,
    later_secret: Seq<u8>,
)
    ensures
        ({
            let first = identity_access(None, entry, store, device, now, secret);
            let second = identity_access(
                None,
                entry,
                first.store,
                later_device,
                later,
                later_secret,
            );
            first.result is Ok ==> second.result == first.result && second.store == first.store
        }),
{
}

/// While the store holds an identity record, initialization returns that
/// record, creates nothing and leaves the store as it is.
pub proof fn law_identity_is_never_regenerated(
    entry: Seq<char>,
    store: StoreContents,
    device: DeviceView,
    now: i64,
    secret: Seq<u8>,
    identity: IdentityView,
)
    requires
        lookup(store, entry) == Some(SecretView::Identity(identity)),
    ensures
        initialization(entry, store, device, now, secret).result == Ok::<
            (IdentityView, bool),
            IdentityError,
        >((identity, false)),
        initialization(entry, store, device, now, secret).store == store,
{
}

/// The name of a private key entry is never the name under which a new
/// manager keeps the identity record.
pub proof fn lemma_private_key_entry_is_no_record_entry(public_key: Seq<u8>, fingerprint: Seq<char>)
    ensures
        private_key_entry(user_id_of(public_key, fingerprint)) != "Identity"@,
{
    reveal_strlit("USN-");
    reveal_strlit("Identity");
    assert(private_key_entry(user_id_of(public_key, fingerprint))[0] == 'U');
    assert("Identity"@[0] == 'I');
}

/// An identity that was just created has its key pair in the store: the
/// private key on record is the one that its public key belongs to. Every
/// signature made for it therefore verifies under it.
pub proof fn law_created_identity_holds_its_key_pair(
    store: StoreContents,
    device: DeviceView,
    now: i64,
    secret: Seq<u8>,
)
    ensures
        ({
            let first = initialization("Identity"@, store, device, now, secret);
            first.result matches Ok((identity, true)) ==> holds_key_pair(first.store, identity)
        }),
{
    lemma_private_key_entry_is_no_record_entry(
        ed25519_public_key(secret),
        device_fingerprint(device),
    );
}

/// The fingerprint is a function of what the attributes say: two readings
/// of the machine that say the same have the same fingerprint.
pub proof fn law_fingerprint_is_deterministic(first: DeviceAttributes, second: DeviceAttributes)
    requires
        first@ == second@,
    ensures
        device_fingerprint(first@) == device_fingerprint(second@),
{
}

/// The fingerprint does not depend on the order in which the interfaces of
/// the machine are listed.
pub proof fn law_fingerprint_ignores_listing_order(first: DeviceView, second: DeviceView)
    requires
        first.interfaces.to_multiset() == second.interfaces.to_multiset(),
        second == (DeviceView { interfaces: second.interfaces, ..first }),
    ensures
        device_fingerprint(first) == device_fingerprint(second),
{
    lemma_interface_order_is_total();
    first.interfaces.lemma_sort_by_ensures(interface_order());
    second.interfaces.lemma_sort_by_ensures(interface_order());
    lemma_sorted_unique(
        sorted_interfaces(first.interfaces),
        sorted_interfaces(second.interfaces),
        interface_order(),
    );
}

/// The name of a license entry is never the name of a trial marker.
pub proof fn lemma_license_entry_is_no_trial_entry(user_id: Seq<char>, other: Seq<char>)
    ensures
        license_entry(user_id) != trial_entry(other),
{
    reveal_strlit("license_");
    reveal_strlit("trial_used_");
    assert(license_entry(user_id)[0] == 'l');
    assert(trial_entry(other)[0] == 't');
}

/// The first trial succeeds. For an identity whose trial marker is not set,
/// on the device it was created on, and at a time from which thirty days can
/// be counted, activation returns a license of the trial tier with the
/// features of that tier, active from `now` for thirty days. It stores that
/// license, sets the marker, and the license is valid on the same device at
/// every time before its expiry.
pub proof fn law_first_trial_succeeds(
    identity: IdentityView,
    store: StoreContents,
    device: DeviceView,
    now: i64,
    later: i64,
)
    requires
        !store.contains_key(trial_entry(identity.user_id)),
        device_fingerprint(device) == identity.device_fingerprint,
        now + TRIAL_DAYS * SECONDS_PER_DAY <= i64::MAX,
    ensures
        ({
            let first = trial_activation(identity, store, device, now);
            &&& first.result matches Ok(license)
            &&& license.license_type == LicenseType::Trial
            &&& license.user_id == identity.user_id
            &&& license.activated_at == now
            &&& license.expires_at == Some((now + TRIAL_DAYS * SECONDS_PER_DAY) as i64)
            &&& license.features == trial_features()
            &&& license.features.max_storage_gb == Some(10u64)
            &&& license.is_active
            &&& first.store.contains_key(trial_entry(identity.user_id))
            &&& lookup(first.store, license_entry(identity.user_id)) == Some(
                SecretView::License(license),
            )
            &&& now <= later < now + TRIAL_DAYS * SECONDS_PER_DAY ==> validation(
                identity,
                first.store,
                device,
                later,
            ) == Some(license)
        }),
{
    lemma_license_entry_is_no_trial_entry(identity.user_id, identity.user_id);
}

/// On a fresh store the first trial succeeds. A manager without memory that
/// works on an empty store creates the identity of the key it draws, and
/// the trial activated for it at a time from which thirty days can be
/// counted is a license of the trial tier, with ten gigabytes of storage,
/// that expires thirty days later and is valid on the same device at every
/// time before that.
pub proof fn law_fresh_store_trial_succeeds(
    device: DeviceView,
    now: i64,
    secret: Seq<u8>,
    later: i64,
)
    requires
        secret.len() == KEY_LEN,
        now + TRIAL_DAYS * SECONDS_PER_DAY <= i64::MAX,
    ensures
        ({
            let access = identity_access(None, "Identity"@, Map::empty(), device, now, secret);
            let first = trial_outcome(access.result, access.store, device, now);
            &&& access.result is Ok
            &&& first.result matches Ok(license)
            &&& license.license_type == LicenseType::Trial
            &&& license.activated_at == now
            &&& license.expires_at == Some((now + TRIAL_DAYS * SECONDS_PER_DAY) as i64)
            &&& license.features == trial_features()
            &&& license.features.max_storage_gb == Some(10u64)
            &&& now <= later < now + TRIAL_DAYS * SECONDS_PER_DAY ==> validation_outcome(
                access.result,
                first.store,
                device,
                later,
            ) == Some(license)
        }),
{
    let access = identity_access(None, "Identity"@, Map::empty(), device, now, secret);
    let identity = fresh_identity(ed25519_public_key(secret), device, now);
    assert(access.result == Ok::<IdentityView, IdentityError>(identity));
    assert(!access.store.contains_key(trial_entry(identity.user_id))) by {
        reveal_strlit("trial_used_");
        reveal_strlit("USN-");
        reveal_strlit("Identity");
        assert(trial_entry(identity.user_id)[0] == 't');
        assert(private_key_entry(identity.user_id)[0] == 'U');
        assert("Identity"@[0] == 'I');
    }
    law_first_trial_succeeds(identity, access.store, device, now, later);
}

/// A trial can be activated once. After an activation that succeeded, every
/// further activation for the same identity fails because the trial was
/// used, whatever the device and the time, and leaves the store as it is.
pub proof fn law_trial_is_single_use(
    identity: IdentityView,
    store: StoreContents,
    device: DeviceView,
    now: i64,
    later_device: DeviceView,
    later: i64,
)
    ensures
        ({
            let first = trial_activation(identity, store, device, now);
            let second = trial_activation(identity, first.store, later_device, later);
            first.result is Ok ==> {
                &&& second.result == Err::<LicenseView, LicenseError>(LicenseError::TrialAlreadyUsed)
                &&& second.store == first.store
            }
        }),
{
}

/// A trial that was just activated is valid on the same device at the same
/// time.
pub proof fn law_fresh_trial_is_valid(
    identity: IdentityView,
    store: StoreContents,
    device: DeviceView,
    now: i64,
)
    ensures
        ({
            let first = trial_activation(identity, store, device, now);
            first.result matches Ok(license) ==> validation(identity, first.store, device, now)
                == Some(license)
        }),
{
    lemma_license_entry_is_no_trial_entry(identity.user_id, identity.user_id);
    let first = trial_activation(identity, store, device, now);
    if first.result is Ok {
        assert(now <= now + 30 * 86400);
    }
}

/// An activation that fails changes nothing: no license is stored, no marker
/// set, no activation counted.
pub proof fn law_failed_activation_changes_nothing(
    identity: IdentityView,
    store: StoreContents,
    key: LicenseKeyView,
    device: DeviceView,
    now: i64,
)
    ensures
        trial_activation(identity, store, device, now).result is Err ==> trial_activation(
            identity,
            store,
            device,
            now,
        ).store == store,
        paid_activation(identity, store, key, device, now).result is Err ==> paid_activation(
            identity,
            store,
            key,
            device,
            now,
        ).store == store,
{
}

/// A license key that does not carry the price of a paid license is refused
/// as invalid, whatever else holds of it, and nothing is persisted: the
/// store is as it was.
pub proof fn law_wrong_price_is_refused(
    identity: IdentityView,
    store: StoreContents,
    key: LicenseKeyView,
    device: DeviceView,
    now: i64,
)
    requires
        key.price_cents != LICENSE_PRICE_CENTS,
    ensures
        paid_activation(identity, store, key, device, now).result == Err::<
            LicenseView,
            LicenseError,
        >(LicenseError::InvalidLicenseKey),
        paid_activation(identity, store, key, device, now).store == store,
{
}

/// What a license allows is decided by its tier alone: every license that
/// is issued carries the feature set of its tier.
pub proof fn law_features_follow_the_tier(
    identity: IdentityView,
    store: StoreContents,
    key: LicenseKeyView,
    device: DeviceView,
    now: i64,
)
    ensures
        trial_activation(identity, store, device, now).result matches Ok(license)
            ==> license.features == features_of(license.license_type),
        paid_activation(identity, store, key, device, now).result matches Ok(license)
            ==> license.features == features_of(license.license_type),
{
}

/// The entry that counts the activations of a key is neither a license
/// entry nor the record of a single activation, and no such record is a
/// license entry.
pub proof fn lemma_activations_entry_is_apart(key: Seq<char>, user_id: Seq<char>, ordinal: nat)
    ensures
        activations_entry(key) != license_entry(user_id),
        activations_entry(key) != activation_entry(key, ordinal),
        activation_entry(key, ordinal) != license_entry(user_id),
{
    reveal_strlit("activations_");
    reveal_strlit("activation_");
    reveal_strlit("license_");
    reveal_strlit("_");
    assert(activations_entry(key)[0] == 'a');
    assert(license_entry(user_id)[0] == 'l');
    assert(activations_entry(key)[10] == 's');
    assert(activation_entry(key, ordinal)[10] == '_');
    assert(activation_entry(key, ordinal)[0] == 'a');
}

/// A license that was just redeemed is valid on the same device at the same
/// time, where its key gives it no duration or a duration of at least one
/// day.
pub proof fn law_fresh_license_is_valid(
    identity: IdentityView,
    store: StoreContents,
    key: LicenseKeyView,
    device: DeviceView,
    now: i64,
)
    requires
        key.duration_days matches Some(days) ==> days > 0,
    ensures
        ({
            let first = paid_activation(identity, store, key, device, now);
            first.result matches Ok(license) ==> validation(identity, first.store, device, now)
                == Some(license)
        }),
{
    let used = activation_count(store, key.key);
    lemma_activations_entry_is_apart(key.key, identity.user_id, (used + 1) as nat);
}

/// Every redemption of a license key uses up one of its activations, and a
/// key that has none left is refused, whoever asks and whenever.
pub proof fn law_activations_are_counted(
    identity: IdentityView,
    store: StoreContents,
    key: LicenseKeyView,
    device: DeviceView,
    now: i64,
    later_identity: IdentityView,
    later_device: DeviceView,
    later: i64,
)
    ensures
        ({
            let first = paid_activation(identity, store, key, device, now);
            let second = paid_activation(later_identity, first.store, key, later_device, later);
            first.result matches Ok(license) ==> {
                &&& license.activation_count == activation_count(store, key.key) + 1
                &&& activation_count(first.store, key.key) == activation_count(store, key.key) + 1
                &&& activation_count(first.store, key.key) >= key.max_activations ==> second.result
                    is Err
            }
        }),
{
    let used = activation_count(store, key.key);
    lemma_activations_entry_is_apart(key.key, identity.user_id, (used + 1) as nat);
}

/// The hexadecimal digits are pairwise distinct.
pub proof fn lemma_hex_digits_differ(a: int, b: int)
    requires
        0 <= a < 16,
        0 <= b < 16,
        hex_alphabet()[a] == hex_alphabet()[b],
    ensures
        a == b,
{
}

/// Hexadecimal text determines the bytes it was made from.
pub proof fn lemma_hex_text_is_injective(a: Seq<u8>, b: Seq<u8>)
    requires
        hex_text(a) == hex_text(b),
    ensures
        a == b,
{
    assert(hex_text(a).len() == 2 * a.len());
    assert(hex_text(b).len() == 2 * b.len());
    assert(a.len() == b.len());
    assert forall|k: int| 0 <= k < a.len() implies a[k] == b[k] by {
        assert(hex_text(a)[2 * k] == hex_digit_at(a, 2 * k));
        assert(hex_text(b)[2 * k] == hex_digit_at(b, 2 * k));
        assert(hex_text(a)[2 * k + 1] == hex_digit_at(a, 2 * k + 1));
        assert(hex_text(b)[2 * k + 1] == hex_digit_at(b, 2 * k + 1));
        lemma_hex_digits_differ(a[k] as int / 16, b[k] as int / 16);
        lemma_hex_digits_differ(a[k] as int % 16, b[k] as int % 16);
    }
    assert(a =~= b);
}

/// The bytes that are hashed into the signature of a license.
pub open spec fn signature_material(license_id: Seq<char>, user_id: Seq<char>) -> Seq<u8> {
    encode_utf8(license_id) + encode_utf8(user_id) + encode_utf8(signature_domain())
}

/// A stored license whose user id was changed is not valid.
pub proof fn law_changed_user_is_detected(
    identity: IdentityView,
    store: StoreContents,
    device: DeviceView,
    now: i64,
    license: LicenseView,
    user_id: Seq<char>,
)
    requires
        validation(identity, store, device, now) == Some(license),
        user_id != license.user_id,
    ensures
        validation(
            identity,
            store.insert(
                license_entry(identity.user_id),
                SecretView::License(LicenseView { user_id, ..license }),
            ),
            device,
            now,
        ) is None,
{
}

/// A stored license whose id was changed is not valid, unless the digest of
/// the changed license collides with the digest of the license as it was issued.
pub proof fn law_changed_id_is_detected(
    identity: IdentityView,
    store: StoreContents,
    device: DeviceView,
    now: i64,
    license: LicenseView,
    license_id: Seq<char>,
)
    requires
        validation(identity, store, device, now) == Some(license),
        sha3_256(signature_material(license_id, license.user_id)) != sha3_256(
            signature_material(license.license_id, license.user_id),
        ),
    ensures
        validation(
            identity,
            store.insert(
                license_entry(identity.user_id),
                SecretView::License(LicenseView { license_id, ..license }),
            ),
            device,
            now,
        ) is None,
{
    if license_signature(license_id, license.user_id) == license.signature {
        lemma_hex_text_is_injective(
            sha3_256(signature_material(license_id, license.user_id)),
            sha3_256(signature_material(license.license_id, license.user_id)),
        );
    }
}

/// A stored license whose signature was changed is not valid.
pub proof fn law_changed_signature_is_detected(
    identity: IdentityView,
    store: StoreContents,
    device: DeviceView,
    now: i64,
    license: LicenseView,
    signature: Seq<char>,
)
    requires
        validation(identity, store, device, now) == Some(license),
        signature != license.signature,
    ensures
        validation(
            identity,
            store.insert(
                license_entry(identity.user_id),
                SecretView::License(LicenseView { signature, ..license }),
            ),
            device,
            now,
        ) is None,
{
}

/// Expiry is sharp. A license that is valid but for its expiry is valid as
/// long as the expiry lies in the future, be it by one second, and is not
/// valid in the second in which it expires, nor later.
pub proof fn law_expiry_is_sharp(
    license: LicenseView,
    identity: IdentityView,
    device: DeviceView,
    now: i64,
)
    requires
        license_valid(LicenseView { expires_at: None, ..license }, identity, device, now),
    ensures
        !license_valid(LicenseView { expires_at: Some(now), ..license }, identity, device, now),
        now < i64::MAX ==> license_valid(
            LicenseView { expires_at: Some((now + 1) as i64), ..license },
            identity,
            device,
            now,
        ),
        now > i64::MIN ==> !license_valid(
            LicenseView { expires_at: Some((now - 1) as i64), ..license },
            identity,
            device,
            now,
        ),
{
}

/// A license is bound to its device: on a device with another fingerprint
/// it is not valid, however good its signature and its expiry are.
pub proof fn law_license_is_bound_to_device(
    identity: IdentityView,
    store: StoreContents,
    device: DeviceView,
    other: DeviceView,
    now: i64,
)
    requires
        validation(identity, store, device, now) is Some,
        device_fingerprint(other) != device_fingerprint(device),
    ensures
        validation(identity, store, other, now) is None,
{
}

/// Deactivation is soft and final: the record stays in the store, marked
/// inactive, and is not valid on any device at any time.
pub proof fn law_deactivated_license_is_invalid(
    identity: IdentityView,
    store: StoreContents,
    device: DeviceView,
    now: i64,
)
    ensures
        ({
            let after = deactivation(identity, store);
            after.result is Ok ==> {
                &&& lookup(after.store, license_entry(identity.user_id)) matches Some(
                    SecretView::License(license),
                )
                &&& !license.is_active
                &&& validation(identity, after.store, device, now) is None
            }
        }),
{
}

} // verus!
