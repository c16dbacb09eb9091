use base64::Engine;
use zephyr_vault::crypto::{decrypt_vault, derive_key, encrypt_vault, seal_vault, EncryptedVault};
use zephyr_vault::error::VaultError;
use zephyr_vault::repository::VaultRepository;

#[test]
fn encrypt_then_decrypt_gives_plaintext_back() {
    let plaintext = br#"{"entries":[]}"#;
    let sealed = encrypt_vault(plaintext, "correct horse").unwrap();
    let opened = decrypt_vault(&sealed, "correct horse").unwrap();
    assert_eq!(opened, plaintext.to_vec());
}

#[test]
fn wrong_master_password_is_refused() {
    let sealed = encrypt_vault(b"secret data", "right").unwrap();
    assert_eq!(decrypt_vault(&sealed, "wrong"), Err(VaultError::Decryption));
}

#[test]
fn sealing_draws_fresh_salt_and_nonce() {
    let a = encrypt_vault(b"same", "pw").unwrap();
    let b = encrypt_vault(b"same", "pw").unwrap();
    // 16 salt bytes and 12 nonce bytes in padded Base64.
    assert_eq!(a.salt.len(), 24);
    assert_eq!(a.nonce.len(), 16);
    assert!(a.salt != b.salt || a.nonce != b.nonce);
}

#[test]
fn seal_vault_encodes_salt_nonce_and_tagged_ciphertext() {
    let salt = [7u8; 16];
    let nonce = [1u8; 12];
    let sealed = seal_vault(b"abc", "pw", &salt, &nonce).unwrap();
    assert_eq!(sealed.salt, "BwcHBwcHBwcHBwcHBwcHBw==");
    assert_eq!(sealed.nonce, "AQEBAQEBAQEBAQEB");
    // 3 plaintext bytes + 16 tag bytes = 19 bytes, 28 Base64 characters.
    assert_eq!(sealed.ciphertext.len(), 28);
    // Same inputs, same output: nothing random inside.
    let again = seal_vault(b"abc", "pw", &salt, &nonce).unwrap();
    assert_eq!(sealed.ciphertext, again.ciphertext);
    assert_eq!(decrypt_vault(&sealed, "pw").unwrap(), b"abc".to_vec());
}

#[test]
fn short_salt_fails_key_derivation() {
    let salt = [0u8; 7];
    let nonce = [0u8; 12];
    assert!(matches!(seal_vault(b"x", "pw", &salt, &nonce), Err(VaultError::KeyDerivation)));
}

#[test]
fn invalid_base64_fields_are_reported_in_order() {
    let good = encrypt_vault(b"x", "pw").unwrap();
    let bad_salt = EncryptedVault { salt: "***".to_string(), nonce: "***".to_string(), ciphertext: good.ciphertext.clone() };
    assert_eq!(decrypt_vault(&bad_salt, "pw"), Err(VaultError::InvalidSalt));
    let bad_nonce = EncryptedVault { salt: good.salt.clone(), nonce: "@@".to_string(), ciphertext: good.ciphertext.clone() };
    assert_eq!(decrypt_vault(&bad_nonce, "pw"), Err(VaultError::InvalidNonce));
    let bad_ct = EncryptedVault { salt: good.salt.clone(), nonce: good.nonce.clone(), ciphertext: "!".to_string() };
    assert_eq!(decrypt_vault(&bad_ct, "pw"), Err(VaultError::InvalidCiphertext));
}

#[test]
fn nonce_of_wrong_length_is_refused() {
    let good = encrypt_vault(b"x", "pw").unwrap();
    // "AAAA" decodes to 3 bytes.
    let ev = EncryptedVault { salt: good.salt.clone(), nonce: "AAAA".to_string(), ciphertext: good.ciphertext.clone() };
    assert_eq!(decrypt_vault(&ev, "pw"), Err(VaultError::NonceLength));
}

#[test]
fn short_stored_salt_fails_key_derivation_on_open() {
    let good = encrypt_vault(b"x", "pw").unwrap();
    // "AAAA" decodes to 3 bytes, shorter than Argon2's minimum of 8.
    let ev = EncryptedVault { salt: "AAAA".to_string(), nonce: good.nonce.clone(), ciphertext: good.ciphertext.clone() };
    assert_eq!(decrypt_vault(&ev, "pw"), Err(VaultError::KeyDerivation));
}

#[test]
fn tampered_ciphertext_is_refused() {
    let good = encrypt_vault(b"payload", "pw").unwrap();
    let mut chars: Vec<char> = good.ciphertext.chars().collect();
    chars[0] = if chars[0] == 'A' { 'B' } else { 'A' };
    let ev = EncryptedVault { salt: good.salt.clone(), nonce: good.nonce.clone(), ciphertext: chars.into_iter().collect() };
    assert_eq!(decrypt_vault(&ev, "pw"), Err(VaultError::Decryption));
}

#[test]
fn repository_load_without_file_gives_new_vault() {
    assert_eq!(VaultRepository::load(None, "pw"), Ok(None));
}

#[test]
fn repository_save_then_load_round_trips() {
    let stored = VaultRepository::save(b"{\"entries\":[]}", "m").unwrap();
    let loaded = VaultRepository::load(Some(&stored), "m").unwrap();
    assert_eq!(loaded, Some(b"{\"entries\":[]}".to_vec()));
    assert_eq!(VaultRepository::load(Some(&stored), "n"), Err(VaultError::Decryption));
}

#[test]
fn unicode_master_password_round_trips() {
    let sealed = encrypt_vault(b"data", "mot de passe chiffr\u{e9}").unwrap();
    assert_eq!(decrypt_vault(&sealed, "mot de passe chiffr\u{e9}").unwrap(), b"data".to_vec());
    assert_eq!(decrypt_vault(&sealed, "mot de passe chiffre"), Err(VaultError::Decryption));
}

#[test]
fn salt_field_is_standard_padded_base64() {
    let nonce = [0u8; 12];
    let cases: [(&[u8], &str); 3] = [
        (b"foobarfo", "Zm9vYmFyZm8="),
        (b"foobarfoo", "Zm9vYmFyZm9v"),
        (b"foobarfoob", "Zm9vYmFyZm9vYg=="),
    ];
    for (salt, expected) in cases {
        let sealed = seal_vault(b"", "pw", salt, &nonce).unwrap();
        assert_eq!(sealed.salt, expected);
        assert_eq!(sealed.nonce, "AAAAAAAAAAAAAAAA");
        // The empty plaintext still carries its 16-byte tag.
        assert_eq!(sealed.ciphertext.len(), 24);
        assert_eq!(decrypt_vault(&sealed, "pw").unwrap(), Vec::<u8>::new());
    }
}

#[test]
fn stored_fields_decode_to_expected_lengths() {
    let plaintext = br#"{"entries":[{"service":"github"}]}"#;
    let sealed = encrypt_vault(plaintext, "pw").unwrap();
    let engine = base64::engine::general_purpose::STANDARD;
    assert_eq!(engine.decode(&sealed.salt).unwrap().len(), 16);
    assert_eq!(engine.decode(&sealed.nonce).unwrap().len(), 12);
    assert_eq!(engine.decode(&sealed.ciphertext).unwrap().len(), plaintext.len() + 16);
}

#[test]
fn derive_key_is_deterministic() {
    let salt = [3u8; 16];
    let a = derive_key("master", &salt).unwrap();
    let b = derive_key("master", &salt).unwrap();
    assert_eq!(a.len(), 32);
    assert_eq!(a, b);
    assert_ne!(a, derive_key("master", &[4u8; 16]).unwrap());
    assert_ne!(a, derive_key("other", &salt).unwrap());
    assert_eq!(derive_key("master", &[0u8; 7]), Err(VaultError::KeyDerivation));
}
