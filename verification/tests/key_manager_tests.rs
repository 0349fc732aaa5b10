use drone_mesh::crypto::key_manager::{DeviceInfo, KeyManager, KeyStore};

fn device(name: &str, byte: u8) -> DeviceInfo {
    DeviceInfo { kyber_public: vec![byte; 4], dilithium_verification: vec![byte; 2], connected: true, name: name.to_string() }
}

#[test]
fn new_manager_is_empty() {
    let km = KeyManager::new("drone_central");
    assert_eq!(km.device_count(), 0);
    assert!(km.get_kyber_public().is_empty());
    assert!(km.get_all_devices().is_empty());
    assert_eq!(km.get_keys_path(), "keys/drone_central.json");
}

#[test]
fn added_device_is_found() {
    let mut km = KeyManager::new("x");
    km.add_device("a", "Alpha", vec![1, 2], vec![3]);
    let d = km.get_device("a").unwrap();
    assert_eq!(d.name, "Alpha");
    assert_eq!(d.kyber_public, vec![1, 2]);
    assert_eq!(d.dilithium_verification, vec![3]);
    assert!(d.connected);
    assert!(km.get_device("b").is_none());
    assert_eq!(km.device_count(), 1);
}

#[test]
fn adding_again_replaces() {
    let mut km = KeyManager::new("x");
    km.add_device("a", "Alpha", vec![1], vec![1]);
    km.add_device("b", "Beta", vec![2], vec![2]);
    km.add_device("a", "Alpha2", vec![9], vec![9]);
    assert_eq!(km.device_count(), 2);
    assert_eq!(km.get_device("a").unwrap().name, "Alpha2");
    assert_eq!(km.get_device("b").unwrap().name, "Beta");
}

#[test]
fn removed_device_is_gone() {
    let mut km = KeyManager::new("x");
    km.add_device("a", "Alpha", vec![1], vec![1]);
    km.add_device("b", "Beta", vec![2], vec![2]);
    km.remove_device("a");
    km.remove_device("zzz");
    assert!(km.get_device("a").is_none());
    assert_eq!(km.device_count(), 1);
    let all = km.get_all_devices();
    assert_eq!(all.len(), 1);
    assert_eq!(all[0].0, "b");
}

#[test]
fn restore_keeps_later_entry() {
    let mut km = KeyManager::new("x");
    let store = KeyStore {
        kyber_public: vec![1],
        kyber_secret: vec![2],
        dilithium_signing: vec![3],
        dilithium_verification: vec![4],
        devices: vec![("a".to_string(), device("first", 1)), ("b".to_string(), device("B", 2)), ("a".to_string(), device("second", 3))],
    };
    km.restore(store);
    assert_eq!(km.device_count(), 2);
    assert_eq!(km.get_device("a").unwrap().name, "second");
    assert_eq!(km.get_kyber_secret(), &[2]);
    assert_eq!(km.get_dilithium_signing(), &[3]);
    assert_eq!(km.get_dilithium_verification(), &[4]);
    assert_eq!(km.keystore().kyber_public, vec![1]);
}

#[test]
fn public_keys_for_exchange_are_hex() {
    let mut km = KeyManager::new("x");
    km.restore(KeyStore {
        kyber_public: vec![0xab, 0x01],
        kyber_secret: vec![],
        dilithium_signing: vec![],
        dilithium_verification: vec![0xff],
        devices: vec![],
    });
    let keys = km.get_public_keys_for_exchange();
    assert_eq!(keys, vec![("kyber".to_string(), "ab01".to_string()), ("dilithium".to_string(), "ff".to_string())]);
}

#[test]
fn generated_keys_have_their_sizes() {
    let mut km = KeyManager::new("x");
    km.add_device("a", "Alpha", vec![1], vec![1]);
    km.generate_keys().unwrap();
    assert_eq!(km.get_kyber_public().len(), 1568);
    assert_eq!(km.get_kyber_secret().len(), 3168);
    assert_eq!(km.get_dilithium_signing().len(), 3873);
    assert_eq!(km.get_dilithium_verification().len(), 1312);
    assert_eq!(km.device_count(), 1);
}

#[test]
fn device_duplicate_is_equal() {
    let d = device("n", 5);
    let e = d.duplicate();
    assert_eq!(e.name, d.name);
    assert_eq!(e.kyber_public, d.kyber_public);
}

#[test]
fn cloned_manager_keeps_keys_and_devices() {
    let mut km = KeyManager::new("drone_central");
    km.generate_keys().unwrap();
    km.add_device("d1", "One", vec![1, 2], vec![3]);
    let c = km.clone();
    assert_eq!(c.get_keys_path(), "keys/drone_central.json");
    assert_eq!(c.get_kyber_secret(), km.get_kyber_secret());
    assert_eq!(c.get_dilithium_signing(), km.get_dilithium_signing());
    assert_eq!(c.device_count(), 1);
    assert_eq!(c.get_device("d1").unwrap().name, "One");
}
