use usenetsync::identity::{derive_user_id, private_key_entry_name};
use usenetsync::{
    DeviceAttributes, IdentityError, IdentityManager, ImmutableIdentity, NetworkInterface,
    Processor, Secret, SecretStore,
};

const NOW: i64 = 1_700_000_000;

const FINGERPRINT: &str = "933218a6db4d2d7ac44dbf892628c326353e71c8079cd5ce47fba551a32d83e0";

const USER_ID: &str = "USN-c7d49955c40efe92061bd8d02542189a";

fn workstation() -> DeviceAttributes {
    DeviceAttributes {
        processor: Some(Processor { brand: "Test CPU".to_string(), frequency: 3200 }),
        total_memory: 17_179_869_184,
        host_name: Some("workstation".to_string()),
        interfaces: vec![
            NetworkInterface { name: "eth0".to_string(), mac_address: "00:11:22:33:44:55".to_string() },
            NetworkInterface { name: "wlan0".to_string(), mac_address: "66:77:88:99:aa:bb".to_string() },
        ],
        os_name: Some("Linux".to_string()),
        kernel_version: Some("6.1.0".to_string()),
    }
}

fn unhex(text: &str) -> Vec<u8> {
    hex::decode(text).unwrap()
}

fn known_secret() -> Vec<u8> {
    unhex("9d61b19deffd5a60ba844af492ec2cc44449c5697b326919703bac031cae7f60")
}

fn known_public() -> Vec<u8> {
    unhex("d75a980182b10ab7d54bfed3c964073a0ee172f3daa62325af021a68f707511a")
}

fn known_identity(store: &mut SecretStore) -> (IdentityManager, ImmutableIdentity) {
    let mut manager = IdentityManager::new();
    let (identity, created) = manager
        .initialize_identity_from(store, &workstation(), NOW, known_secret())
        .unwrap();
    assert!(created);
    (manager, identity)
}

#[test]
fn test_identity_generation() {
    let mut store = SecretStore::new();
    let device = workstation();
    let mut manager = IdentityManager::new();
    let result = manager.initialize_identity(&mut store, &device, NOW);
    assert!(result.is_ok());

    let (identity, is_new) = result.unwrap();
    assert!(identity.user_id.starts_with("USN-"));
    assert_eq!(identity.public_key.len(), 32);
    assert!(is_new);

    // Second call should return existing identity
    let result2 = manager.initialize_identity(&mut store, &device, NOW);
    assert!(result2.is_ok());
    let (identity2, is_new2) = result2.unwrap();
    assert_eq!(identity.user_id, identity2.user_id);
    assert!(!is_new2);
}

#[test]
fn test_device_verification() {
    let manager = IdentityManager::new();
    let device = workstation();
    let fingerprint1 = manager.generate_device_fingerprint(&device);
    let fingerprint2 = manager.generate_device_fingerprint(&device);
    assert_eq!(fingerprint1, fingerprint2);
}

#[test]
fn new_manager_names_its_entries() {
    let manager = IdentityManager::new();
    assert_eq!(manager.service(), "UsenetSync");
    assert_eq!(manager.identity_entry(), "Identity");
    assert!(manager.cached_identity().is_none());
}

#[test]
fn identity_from_known_secret_has_known_fields() {
    let mut store = SecretStore::new();
    let (manager, identity) = known_identity(&mut store);
    assert_eq!(identity.public_key, known_public());
    assert_eq!(identity.device_fingerprint, FINGERPRINT);
    assert_eq!(identity.user_id, USER_ID);
    assert_eq!(identity.created_at, NOW);
    assert_eq!(identity.version, 1);
    assert_eq!(manager.cached_identity().unwrap().user_id, USER_ID);
}

#[test]
fn initialization_stores_record_and_private_key() {
    let mut store = SecretStore::new();
    let (_, identity) = known_identity(&mut store);
    match store.get("Identity") {
        Some(Secret::Identity(found)) => {
            assert_eq!(found.user_id, identity.user_id);
            assert_eq!(found.public_key, identity.public_key);
        }
        _ => panic!("no identity record"),
    }
    match store.get("USN-c7d49955c40efe92061bd8d02542189a_private") {
        Some(Secret::PrivateKey(secret)) => assert_eq!(secret, &known_secret()),
        _ => panic!("no private key"),
    }
    assert_eq!(store.names().len(), 2);
}

#[test]
fn initialization_rejects_a_secret_of_wrong_length() {
    let mut store = SecretStore::new();
    let mut manager = IdentityManager::new();
    let r = manager.initialize_identity_from(&mut store, &workstation(), NOW, vec![7u8; 31]);
    assert_eq!(r.unwrap_err(), IdentityError::InvalidKey);
    assert!(store.names().is_empty());
    assert!(manager.cached_identity().is_none());
}

#[test]
fn initialization_reports_a_corrupt_record() {
    let mut store = SecretStore::new();
    store.set("Identity".to_string(), Secret::Unreadable);
    let mut manager = IdentityManager::new();
    let r = manager.initialize_identity(&mut store, &workstation(), NOW);
    assert_eq!(r.unwrap_err(), IdentityError::CorruptRecord);
    let again = manager.get_current_identity(&mut store, &workstation(), NOW);
    assert_eq!(again.unwrap_err(), IdentityError::CorruptRecord);
    assert_eq!(store.names().len(), 1);
}

#[test]
fn existing_identity_is_never_regenerated() {
    let mut store = SecretStore::new();
    let (_, first) = known_identity(&mut store);
    let mut manager = IdentityManager::new();
    let other_secret = vec![9u8; 32];
    let (second, created) = manager
        .initialize_identity_from(&mut store, &workstation(), NOW + 100, other_secret)
        .unwrap();
    assert!(!created);
    assert_eq!(second.user_id, first.user_id);
    assert_eq!(second.public_key, first.public_key);
    assert_eq!(second.created_at, NOW);
}

#[test]
fn current_identity_is_stable_within_a_process() {
    let mut store = SecretStore::new();
    let device = workstation();
    let mut manager = IdentityManager::new();
    let first = manager.get_current_identity(&mut store, &device, NOW).unwrap();
    let second = manager.get_current_identity(&mut store, &device, NOW + 5).unwrap();
    let third = manager.get_current_identity(&mut store, &device, NOW + 10).unwrap();
    assert_eq!(first.user_id, second.user_id);
    assert_eq!(first.user_id, third.user_id);
    assert_eq!(first.public_key, third.public_key);
}

#[test]
fn current_identity_is_stable_across_restarts() {
    let mut store = SecretStore::new();
    let device = workstation();
    let first = IdentityManager::new().get_current_identity(&mut store, &device, NOW).unwrap();
    let second = IdentityManager::new().get_current_identity(&mut store, &device, NOW + 86400).unwrap();
    assert_eq!(first.user_id, second.user_id);
    assert_eq!(first.created_at, second.created_at);
}

#[test]
fn current_identity_is_stable_when_the_device_changes() {
    let mut store = SecretStore::new();
    let first = IdentityManager::new().get_current_identity(&mut store, &workstation(), NOW).unwrap();
    let mut moved = workstation();
    moved.host_name = Some("laptop".to_string());
    let second = IdentityManager::new().get_current_identity(&mut store, &moved, NOW).unwrap();
    assert_eq!(first.user_id, second.user_id);
    assert_eq!(second.device_fingerprint, FINGERPRINT);
}

#[test]
fn remembered_identity_is_returned_without_the_store() {
    let mut store = SecretStore::new();
    let (mut manager, identity) = known_identity(&mut store);
    let mut empty = SecretStore::new();
    let again = manager.get_current_identity(&mut empty, &workstation(), NOW).unwrap();
    assert_eq!(again.user_id, identity.user_id);
    assert!(empty.names().is_empty());
}

#[test]
fn user_id_is_prefix_and_sixteen_digest_bytes() {
    assert_eq!(derive_user_id(&[1, 2, 3], "ff"), "USN-bbc34e1d5c77f33cafb8e5a1088b3f59");
    assert_eq!(derive_user_id(&known_public(), FINGERPRINT), USER_ID);
}

#[test]
fn private_key_entry_is_user_id_and_suffix() {
    assert_eq!(private_key_entry_name("USN-abc"), "USN-abc_private");
    assert_eq!(private_key_entry_name(""), "_private");
}

#[test]
fn verify_device_compares_fingerprints() {
    let mut store = SecretStore::new();
    let (manager, identity) = known_identity(&mut store);
    assert!(manager.verify_device(&identity, &workstation()));
    let mut moved = workstation();
    moved.host_name = Some("laptop".to_string());
    assert!(!manager.verify_device(&identity, &moved));
}

#[test]
fn signature_verifies_for_all_kinds_of_data() {
    let mut store = SecretStore::new();
    let (manager, identity) = known_identity(&mut store);
    let samples: Vec<Vec<u8>> = vec![vec![], b"hello".to_vec(), vec![0u8; 1000], (0..=255).collect()];
    for data in samples {
        let signature = manager.sign_data(&store, &identity, &data).unwrap();
        assert_eq!(signature.len(), 64);
        assert!(manager.verify_signature(&identity, &data, &signature));
    }
}

#[test]
fn signature_is_the_known_one() {
    let mut store = SecretStore::new();
    let (manager, identity) = known_identity(&mut store);
    let signature = manager.sign_data(&store, &identity, b"hello").unwrap();
    assert_eq!(
        signature,
        unhex("511ca497c4d4270b098b1afd5ae4e3b951a5da2c9da6e9c0528f5761883676e7df6e4c0f0e1b5a0a4444f4298b1882dd822fb1133cbd49abfb996c87cd5b8506")
    );
    let empty = manager.sign_data(&store, &identity, b"").unwrap();
    assert_eq!(
        empty,
        unhex("e5564300c360ac729086e2cc806e828a84877f1eb8e5d974d873e065224901555fb8821590a33bacc61e39701cf9b46bd25bf5f0595bbe24655141438e7a100b")
    );
}

#[test]
fn flipped_bit_in_signature_is_rejected() {
    let mut store = SecretStore::new();
    let (manager, identity) = known_identity(&mut store);
    let signature = manager.sign_data(&store, &identity, b"hello").unwrap();
    for position in [0usize, 17, 31, 32, 40, 63] {
        for bit in [0u8, 3, 7] {
            let mut forged = signature.clone();
            forged[position] ^= 1 << bit;
            assert!(!manager.verify_signature(&identity, b"hello", &forged));
        }
    }
}

#[test]
fn signature_on_other_data_is_rejected() {
    let mut store = SecretStore::new();
    let (manager, identity) = known_identity(&mut store);
    let signature = manager.sign_data(&store, &identity, b"hello").unwrap();
    assert!(!manager.verify_signature(&identity, b"hellp", &signature));
    assert!(!manager.verify_signature(&identity, b"", &signature));
}

#[test]
fn malformed_signature_or_key_gives_false() {
    let mut store = SecretStore::new();
    let (manager, mut identity) = known_identity(&mut store);
    let signature = manager.sign_data(&store, &identity, b"hello").unwrap();
    assert!(!manager.verify_signature(&identity, b"hello", &[]));
    assert!(!manager.verify_signature(&identity, b"hello", &signature[..63]));
    assert!(!manager.verify_signature(&identity, b"hello", &[0xffu8; 64]));
    identity.public_key = vec![1, 2, 3];
    assert!(!manager.verify_signature(&identity, b"hello", &signature));
    identity.public_key = Vec::new();
    assert!(!manager.verify_signature(&identity, b"hello", &signature));
}

#[test]
fn signing_without_private_key_fails() {
    let mut store = SecretStore::new();
    let (manager, identity) = known_identity(&mut store);
    assert!(store.delete("USN-c7d49955c40efe92061bd8d02542189a_private"));
    let r = manager.sign_data(&store, &identity, b"hello");
    assert_eq!(r.unwrap_err(), IdentityError::KeyNotFound);
}

#[test]
fn signing_with_corrupt_private_key_entry_fails() {
    let mut store = SecretStore::new();
    let (manager, identity) = known_identity(&mut store);
    store.set(private_key_entry_name(&identity.user_id), Secret::Marker);
    let r = manager.sign_data(&store, &identity, b"hello");
    assert_eq!(r.unwrap_err(), IdentityError::CorruptRecord);
}

#[test]
fn signing_with_malformed_keys_fails() {
    let mut store = SecretStore::new();
    let (manager, mut identity) = known_identity(&mut store);
    store.set(private_key_entry_name(&identity.user_id), Secret::PrivateKey(vec![1u8; 16]));
    assert_eq!(manager.sign_data(&store, &identity, b"x").unwrap_err(), IdentityError::InvalidKey);
    store.set(private_key_entry_name(&identity.user_id), Secret::PrivateKey(known_secret()));
    identity.public_key = vec![0u8; 5];
    assert_eq!(manager.sign_data(&store, &identity, b"x").unwrap_err(), IdentityError::InvalidKey);
}

#[test]
fn identity_proof_carries_a_verifiable_signature() {
    let mut store = SecretStore::new();
    let (manager, identity) = known_identity(&mut store);
    let proof = manager.create_identity_proof(&store, &identity, NOW).unwrap();
    assert_eq!(proof.user_id, identity.user_id);
    assert_eq!(proof.timestamp, NOW);
    assert_eq!(proof.nonce.len(), 32);
    let mut message = identity.user_id.as_bytes().to_vec();
    message.extend_from_slice(&NOW.to_le_bytes());
    message.extend_from_slice(&proof.nonce);
    assert!(manager.verify_signature(&identity, &message, &proof.signature));
}

#[test]
fn identity_proofs_differ_in_their_nonce() {
    let mut store = SecretStore::new();
    let (manager, identity) = known_identity(&mut store);
    let first = manager.create_identity_proof(&store, &identity, NOW).unwrap();
    let second = manager.create_identity_proof(&store, &identity, NOW).unwrap();
    assert_ne!(first.nonce, second.nonce);
}

#[test]
fn identity_proof_from_known_nonce_is_the_known_one() {
    let mut store = SecretStore::new();
    let (manager, identity) = known_identity(&mut store);
    let nonce: Vec<u8> = (0u8..32).collect();
    let proof = manager.create_identity_proof_from(&store, &identity, NOW, nonce.clone()).unwrap();
    assert_eq!(proof.nonce, nonce);
    assert_eq!(
        proof.signature,
        unhex("259591007ad8e45cd0ac0795e20e2565afa132a89221874c20e27945a88c0cf50eac2297703e2a2e508ce9b1230c8a2519de4456581eec215de77883cdba8901")
    );
}

#[test]
fn identity_proof_needs_the_private_key() {
    let mut store = SecretStore::new();
    let (manager, identity) = known_identity(&mut store);
    store.delete(&private_key_entry_name(&identity.user_id));
    let r = manager.create_identity_proof(&store, &identity, NOW);
    assert_eq!(r.unwrap_err(), IdentityError::KeyNotFound);
}

#[test]
fn export_holds_public_fields_only() {
    let mut store = SecretStore::new();
    let (manager, identity) = known_identity(&mut store);
    let public = manager.export_public_identity(&identity);
    assert_eq!(public.user_id, USER_ID);
    assert_eq!(public.public_key, "d75a980182b10ab7d54bfed3c964073a0ee172f3daa62325af021a68f707511a");
    assert_eq!(public.created_at, NOW);
    assert_eq!(public.version, 1);
    let shown = format!("{:?}", public);
    assert!(!shown.contains("9d61b19d"));
}

#[test]
fn destroy_removes_record_and_private_key() {
    let mut store = SecretStore::new();
    let (mut manager, identity) = known_identity(&mut store);
    store.set("unrelated".to_string(), Secret::Marker);
    manager.destroy_identity(&mut store);
    assert!(manager.cached_identity().is_none());
    assert!(!store.contains("Identity"));
    assert!(!store.contains(&private_key_entry_name(&identity.user_id)));
    assert!(store.contains("unrelated"));
}

#[test]
fn destroy_works_after_a_restart() {
    let mut store = SecretStore::new();
    let (_, identity) = known_identity(&mut store);
    let mut manager = IdentityManager::new();
    manager.destroy_identity(&mut store);
    assert!(!store.contains("Identity"));
    assert!(!store.contains(&private_key_entry_name(&identity.user_id)));
    assert!(store.names().is_empty());
}

#[test]
fn destroy_on_an_empty_store_changes_nothing() {
    let mut store = SecretStore::new();
    let mut manager = IdentityManager::new();
    manager.destroy_identity(&mut store);
    assert!(store.names().is_empty());
}

#[test]
fn identity_after_destruction_is_a_new_one() {
    let mut store = SecretStore::new();
    let (mut manager, first) = known_identity(&mut store);
    manager.destroy_identity(&mut store);
    let second = manager.get_current_identity(&mut store, &workstation(), NOW).unwrap();
    assert_ne!(first.user_id, second.user_id);
    assert_ne!(first.public_key, second.public_key);
}

#[test]
fn created_identity_has_a_key_of_32_bytes_and_an_id_of_36_characters() {
    let mut store = SecretStore::new();
    let mut manager = IdentityManager::new();
    let identity = manager.get_current_identity(&mut store, &workstation(), NOW).unwrap();
    assert_eq!(identity.public_key.len(), 32);
    assert_eq!(identity.user_id.len(), 36);
    assert!(identity.user_id[4..].chars().all(|c| matches!(c, '0'..='9' | 'a'..='f')));
}

#[test]
fn key_of_any_other_length_verifies_nothing() {
    let mut store = SecretStore::new();
    let (manager, mut identity) = known_identity(&mut store);
    let signature = manager.sign_data(&store, &identity, b"hello").unwrap();
    for length in [0usize, 1, 31, 33, 64] {
        identity.public_key = known_public().into_iter().cycle().take(length).collect();
        assert!(!manager.verify_signature(&identity, b"hello", &signature));
        assert!(!manager.verify_signature(&identity, b"hello", &[]));
    }
}

#[test]
fn identity_errors_name_their_reason() {
    assert_eq!(IdentityError::KeyNotFound.message(), "The private key is no longer in the secret store");
    assert_eq!(IdentityError::CorruptRecord.message(), "The secret store holds a record that cannot be read");
    assert_eq!(IdentityError::InvalidKey.message(), "The key material is not an Ed25519 key");
    assert_eq!(IdentityError::RandomSource.message(), "The operating system gave no random bytes");
}
