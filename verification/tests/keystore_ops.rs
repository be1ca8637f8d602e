//! Keystore ledger behaviour: identifiers, secret kinds, and the exact
//! error for each refused operation.

use hc_core::error::HolochainError;
use hc_core::keystore::{KeyBundle, Keystore, Seed, SeedContext};

fn seed_of(byte: u8) -> Seed {
    Seed {
        bytes: vec![byte; 32],
    }
}

#[test]
fn test_keystore_new() {
    let keystore = Keystore::new();
    assert!(keystore.list().is_empty());
}

#[test]
fn test_keystore_add_root_seed() {
    let mut keystore = Keystore::new();

    assert_eq!(keystore.add_root_seed("my_root_seed", seed_of(1)), Ok(()));
    assert_eq!(keystore.list(), vec!["my_root_seed".to_string()]);
    assert_eq!(
        keystore.add_root_seed("my_root_seed", seed_of(2)),
        Err(HolochainError::ErrorGeneric(
            "identifier already exists".to_string()
        ))
    );
}

#[test]
fn test_keystore_add_seed_from_seed() {
    let mut keystore = Keystore::new();

    let context = SeedContext::new(*b"SOMECTXT");

    assert_eq!(
        keystore.add_seed_from_seed("my_root_seed", "my_second_seed", &context, 1),
        Err(HolochainError::ErrorGeneric(
            "unknown source identifier".to_string()
        ))
    );

    let _ = keystore.add_root_seed("my_root_seed", seed_of(1));

    assert_eq!(
        keystore.add_seed_from_seed("my_root_seed", "my_second_seed", &context, 1),
        Ok(())
    );

    assert!(keystore.list().contains(&"my_root_seed".to_string()));
    assert!(keystore.list().contains(&"my_second_seed".to_string()));

    assert_eq!(
        keystore.add_seed_from_seed("my_root_seed", "my_second_seed", &context, 1),
        Err(HolochainError::ErrorGeneric(
            "identifier already exists".to_string()
        ))
    );
}

#[test]
fn test_keystore_derived_seed_is_no_root() {
    // a seed derived from a root cannot itself be derived from
    let mut keystore = Keystore::new();
    let context = SeedContext::new(*b"SOMECTXT");
    let _ = keystore.add_root_seed("my_root_seed", seed_of(1));
    let _ = keystore.add_seed_from_seed("my_root_seed", "my_second_seed", &context, 1);
    assert_eq!(
        keystore.add_seed_from_seed("my_second_seed", "my_third_seed", &context, 2),
        Err(HolochainError::ErrorGeneric(
            "source secret is not a root seed".to_string()
        ))
    );
}

#[test]
fn test_keystore_add_key_bundle() {
    let mut keystore = Keystore::new();
    let bundle = KeyBundle {
        public_key: "HcKeyPairPub".to_string(),
    };

    assert_eq!(
        keystore.add_key_bundle("my_root_seed", "my_keypair", bundle.clone()),
        Err(HolochainError::ErrorGeneric(
            "unknown source identifier".to_string()
        ))
    );

    let _ = keystore.add_root_seed("my_root_seed", seed_of(1));

    assert_eq!(
        keystore.add_key_bundle("my_root_seed", "my_keypair", bundle.clone()),
        Ok("HcKeyPairPub".to_string())
    );

    assert_eq!(
        keystore.add_key_bundle("my_root_seed", "my_keypair", bundle.clone()),
        Err(HolochainError::ErrorGeneric(
            "identifier already exists".to_string()
        ))
    );

    // a keypair is not a seed to derive another key from
    assert_eq!(
        keystore.add_key_bundle("my_keypair", "my_other_keypair", bundle),
        Err(HolochainError::ErrorGeneric(
            "source secret is not a seed".to_string()
        ))
    );
}

#[test]
fn test_keystore_signing_key_bundle() {
    let mut keystore = Keystore::new();
    let _ = keystore.add_root_seed("my_root_seed", seed_of(1));

    assert_eq!(
        keystore.signing_key_bundle("my_keypair").map(|b| b.public_key),
        Err(HolochainError::ErrorGeneric(
            "unknown source identifier".to_string()
        ))
    );

    assert_eq!(
        keystore.signing_key_bundle("my_root_seed").map(|b| b.public_key),
        Err(HolochainError::ErrorGeneric(
            "source secret is not a key".to_string()
        ))
    );

    let bundle = KeyBundle {
        public_key: "HcKeyPairPub".to_string(),
    };
    let _ = keystore.add_key_bundle("my_root_seed", "my_keypair", bundle);
    assert_eq!(
        keystore.signing_key_bundle("my_keypair").map(|b| b.public_key),
        Ok("HcKeyPairPub".to_string())
    );
}
