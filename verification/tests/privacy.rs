use brain_coordinator::privacy::{
    backup_file_name, backups_to_remove, decrypt_stored, decrypt_with_key, encrypt_stored,
    encrypt_with_key, encryption_status_from, key_from_bytes, latest_backup, EncryptionStatus,
};

fn key() -> Vec<u8> {
    (0u8..32).collect()
}

#[test]
fn test_encrypt_decrypt_roundtrip() {
    let k = key();
    let plaintext = b"This is sensitive companion data.";
    let encrypted = encrypt_stored(Some(&k), plaintext).unwrap();
    assert_ne!(encrypted, plaintext.to_vec());
    assert_eq!(encrypted.len(), 12 + plaintext.len() + 16);
    let decrypted = decrypt_stored(Some(&k), &encrypted).unwrap();
    assert_eq!(decrypted, plaintext.to_vec());
}

#[test]
fn test_encrypt_without_key_passthrough() {
    let data = b"hello";
    let result = encrypt_stored(None, data).unwrap();
    assert_eq!(result, data.to_vec());
}

#[test]
fn test_encryption_status() {
    assert_eq!(encryption_status_from(false, None), EncryptionStatus::Disabled);
    assert_eq!(encryption_status_from(true, Some(32)), EncryptionStatus::Enabled);
    assert_eq!(encryption_status_from(false, None), EncryptionStatus::Disabled);
}

#[test]
fn broken_key_status() {
    assert_eq!(encryption_status_from(true, Some(16)), EncryptionStatus::Broken);
    assert_eq!(encryption_status_from(true, None), EncryptionStatus::Broken);
}

#[test]
fn ciphertext_carries_nonce_and_tag() {
    let k = key();
    let c = encrypt_with_key(&k, b"abc").unwrap();
    assert_eq!(c.len(), 12 + 3 + 16);
    assert_eq!(decrypt_with_key(&k, &c).unwrap(), b"abc".to_vec());
}

#[test]
fn tampered_or_short_data_is_refused() {
    let k = key();
    let mut c = encrypt_with_key(&k, b"abc").unwrap();
    let last = c.len() - 1;
    c[last] ^= 1;
    assert!(decrypt_with_key(&k, &c).is_err());
    assert!(decrypt_with_key(&k, &[1, 2, 3]).is_err());
}

#[test]
fn key_length_checked() {
    assert!(key_from_bytes(vec![0; 31]).is_err());
    assert_eq!(key_from_bytes(vec![7; 32]).unwrap().len(), 32);
}

#[test]
fn backup_names_and_rotation() {
    assert_eq!(backup_file_name("wm", "json", "20240101"), "wm-20240101.json.bak");
    assert_eq!(backup_file_name("wm", "", "20240101"), "wm-20240101.bak");
    assert_eq!(backups_to_remove(5, 3), 2);
    assert_eq!(backups_to_remove(2, 3), 0);
    let names = vec!["wm-1.json.bak".to_string(), "other".to_string(), "wm-3.json.bak".to_string()];
    assert_eq!(latest_backup(&names, "wm"), Some(2));
}
