use ark_firmware::crypto::{
    derive_key_from_password, generate_salt, timing_safe_string_eq, KeyType, SecureKey,
};
use sha3::Digest;

#[test]
fn test_secure_key_creation() {
    let key_bytes = [1u8; 32];
    let key = SecureKey::new(key_bytes, KeyType::Symmetric);

    assert_eq!(key.key_type(), KeyType::Symmetric);
    assert_eq!(key.bytes(), &key_bytes);
    assert_eq!(key.key_id().len(), 16);
}

#[test]
fn key_id_is_blake3_prefix() {
    let key_bytes = [7u8; 32];
    let key = SecureKey::new(key_bytes, KeyType::SigningPrivate);
    let digest = blake3::hash(&key_bytes);
    assert_eq!(&key.key_id()[..], &digest.as_bytes()[..16]);
    assert_ne!(&key.key_id()[..], &key_bytes[..16]);
}

#[test]
fn test_key_derivation() {
    let master_key = SecureKey::new([0u8; 32], KeyType::Symmetric);
    let child_key = master_key.derive_child(b"test").ok().unwrap();

    assert_ne!(master_key.bytes(), child_key.bytes());
}

#[test]
fn derived_child_is_sha3_of_key_and_info() {
    let master_key = SecureKey::new([3u8; 32], KeyType::PostQuantumKyber);
    let child_key = master_key.derive_child(b"SIGNING_KEY_V1").ok().unwrap();
    let mut h = sha3::Sha3_256::new();
    h.update([3u8; 32]);
    h.update(b"SIGNING_KEY_V1");
    let expected: [u8; 32] = h.finalize().into();
    assert_eq!(child_key.bytes(), &expected);
    assert_eq!(child_key.key_type(), KeyType::PostQuantumKyber);
}

#[test]
fn password_key_is_sha3_of_password_and_salt() {
    let key = derive_key_from_password(b"hunter2", b"salty").ok().unwrap();
    let expected: [u8; 32] = sha3::Sha3_256::digest(b"hunter2salty").into();
    assert_eq!(key, expected);
}

#[test]
fn salt_is_sixteen_zero_bytes() {
    assert_eq!(generate_salt(), [0u8; 16]);
}

#[test]
fn test_constant_time_comparison() {
    let data1 = b"test_data_1";
    let data2 = b"test_data_2";
    let data3 = b"test_data_1";

    assert!(!constant_time_eq::constant_time_eq(data1, data2));
    assert!(constant_time_eq::constant_time_eq(data1, data3));
}

#[test]
fn timing_safe_string_comparison() {
    assert!(timing_safe_string_eq("token", "token"));
    assert!(!timing_safe_string_eq("token", "tokem"));
    assert!(!timing_safe_string_eq("token", "token!"));
    assert!(timing_safe_string_eq("", ""));
}
