use dkms_wasm::error::WasmError;
use dkms_wasm::inception::prepare_inception;
use dkms_wasm::keys::KeysConfig;
use keri_core::keys::PublicKey;
use keri_core::prefix::{BasicPrefix, SeedPrefix};

#[test]
fn fresh_keys_give_an_inception_event() {
    let event = prepare_inception(&KeysConfig::default()).ok().expect("event generated");
    assert!(event.starts_with("{\"v\":\"KERI10JSON"));
    assert!(event.contains("\"t\":\"icp\""));
}

#[test]
fn same_seeds_give_same_event() {
    let keys = KeysConfig { current: vec![7u8; 32], next: vec![9u8; 32] };
    let a = prepare_inception(&keys).ok().unwrap();
    let b = prepare_inception(&keys).ok().unwrap();
    assert_eq!(a, b);
}

#[test]
fn short_next_seed_is_signing_error() {
    let keys = KeysConfig { current: vec![7u8; 32], next: vec![9u8; 3] };
    match prepare_inception(&keys) {
        Err(e @ WasmError::Signing(_)) => {
            assert!(e.message().starts_with("signing failed: failed to derive keys: "))
        }
        _ => panic!("expected a signing error"),
    }
}

#[test]
fn short_current_seed_is_signing_error() {
    let keys = KeysConfig { current: vec![7u8; 3], next: vec![9u8; 32] };
    match prepare_inception(&keys) {
        Err(WasmError::Signing(s)) => assert!(!s.starts_with("failed to derive keys")),
        _ => panic!("expected a signing error"),
    }
}

#[test]
fn event_commits_current_key_transferable_and_next_key_non_transferable() {
    let current = vec![7u8; 32];
    let next = vec![9u8; 32];
    let keys = KeysConfig { current: current.clone(), next: next.clone() };
    let event = prepare_inception(&keys).ok().unwrap();

    let key = |seed: Vec<u8>| -> PublicKey {
        SeedPrefix::RandomSeed256Ed25519(seed).derive_key_pair().ok().unwrap().0
    };
    let expected = keri_core::actor::event_generator::incept(
        vec![BasicPrefix::Ed25519(key(current.clone()))],
        vec![BasicPrefix::Ed25519NT(key(next.clone()))],
        vec![],
        0,
        None,
    )
    .ok()
    .unwrap();
    assert_eq!(event, expected);

    let swapped = keri_core::actor::event_generator::incept(
        vec![BasicPrefix::Ed25519(key(current))],
        vec![BasicPrefix::Ed25519(key(next))],
        vec![],
        0,
        None,
    )
    .ok()
    .unwrap();
    assert_ne!(event, swapped);
    assert!(event.contains("\"k\":[\"D"));
    assert!(event.contains("\"b\":[]"));
}
