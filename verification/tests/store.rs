use usenetsync::{License, LicenseFeatures, LicenseType, Secret, SecretStore};

fn sample_license() -> License {
    License {
        license_id: "LIC-1".to_string(),
        user_id: "USN-1".to_string(),
        license_type: LicenseType::Personal,
        activated_at: 5,
        expires_at: None,
        device_fingerprint: "ab".to_string(),
        features: LicenseFeatures::personal(),
        signature: "cd".to_string(),
        is_active: true,
        activation_count: 1,
        max_activations: 2,
    }
}

#[test]
fn new_store_is_empty() {
    let store = SecretStore::new();
    assert!(store.names().is_empty());
    assert!(!store.contains("Identity"));
    assert!(store.get("Identity").is_none());
}

#[test]
fn set_then_get_returns_the_secret() {
    let mut store = SecretStore::new();
    store.set("a".to_string(), Secret::Counter(7));
    store.set("b".to_string(), Secret::Owner("USN-1".to_string()));
    store.set("c".to_string(), Secret::PrivateKey(vec![1, 2, 3]));
    assert!(matches!(store.get("a"), Some(Secret::Counter(7))));
    match store.get("b") {
        Some(Secret::Owner(user)) => assert_eq!(user, "USN-1"),
        _ => panic!("unexpected secret"),
    }
    match store.get("c") {
        Some(Secret::PrivateKey(bytes)) => assert_eq!(bytes, &vec![1, 2, 3]),
        _ => panic!("unexpected secret"),
    }
    assert!(store.get("d").is_none());
    assert!(store.contains("a") && store.contains("b") && store.contains("c"));
    assert!(!store.contains("A"));
}

#[test]
fn set_replaces_what_was_bound() {
    let mut store = SecretStore::new();
    store.set("a".to_string(), Secret::Counter(1));
    store.set("b".to_string(), Secret::Marker);
    store.set("a".to_string(), Secret::Counter(2));
    assert!(matches!(store.get("a"), Some(Secret::Counter(2))));
    assert!(matches!(store.get("b"), Some(Secret::Marker)));
    assert_eq!(store.names().len(), 2);
}

#[test]
fn delete_removes_one_entry() {
    let mut store = SecretStore::new();
    store.set("a".to_string(), Secret::Marker);
    store.set("b".to_string(), Secret::Counter(3));
    store.set("c".to_string(), Secret::Unreadable);
    assert!(store.delete("b"));
    assert!(!store.contains("b"));
    assert!(store.contains("a") && store.contains("c"));
    assert!(!store.delete("b"));
    assert!(!store.delete("never"));
    assert_eq!(store.names().len(), 2);
    assert!(store.delete("a"));
    assert!(store.delete("c"));
    assert!(store.names().is_empty());
}

#[test]
fn names_lists_every_entry_once() {
    let mut store = SecretStore::new();
    for name in ["x", "y", "z", "x", "y"] {
        store.set(name.to_string(), Secret::Marker);
    }
    let mut names = store.names();
    names.sort();
    assert_eq!(names, vec!["x".to_string(), "y".to_string(), "z".to_string()]);
}

#[test]
fn names_are_compared_by_their_characters() {
    let mut store = SecretStore::new();
    store.set("é".to_string(), Secret::Counter(1));
    store.set("e\u{301}".to_string(), Secret::Counter(2));
    store.set("".to_string(), Secret::Counter(3));
    assert!(matches!(store.get("é"), Some(Secret::Counter(1))));
    assert!(matches!(store.get("e\u{301}"), Some(Secret::Counter(2))));
    assert!(matches!(store.get(""), Some(Secret::Counter(3))));
    assert_eq!(store.names().len(), 3);
}

#[test]
fn cloned_secrets_hold_the_same_values() {
    let license = Secret::License(sample_license());
    match license.clone() {
        Secret::License(copy) => {
            assert_eq!(copy.license_id, "LIC-1");
            assert_eq!(copy.user_id, "USN-1");
            assert_eq!(copy.license_type, LicenseType::Personal);
            assert_eq!(copy.max_activations, 2);
            assert!(copy.is_active);
        }
        _ => panic!("unexpected secret"),
    }
    assert!(matches!(Secret::PrivateKey(vec![9; 32]).clone(), Secret::PrivateKey(bytes) if bytes == vec![9; 32]));
    assert!(matches!(Secret::Marker.clone(), Secret::Marker));
    assert!(matches!(Secret::Unreadable.clone(), Secret::Unreadable));
}
