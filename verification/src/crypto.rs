//! Sealing and opening the serialized vault: Argon2id key derivation,
//! AES-256-GCM, and Base64 text for the three stored fields.
use crate::error::VaultError;
use crate::primitives::{
    aes256gcm_decrypt, aes256gcm_encrypt, aes256gcm_open, aes256gcm_seal, aes_gcm_max_plaintext,
    argon2_hash_password_into, argon2_max_len, argon2_min_salt_len, argon2id_hash, base64_decode,
    base64_decode_text, base64_encode, base64_encode_bytes, os_fill_bytes,
};
use vstd::prelude::*;
use vstd::utf8::encode_utf8;

verus! {

/// Length in bytes of the AES-GCM nonce.
pub const AES_NONCE_SIZE: usize = 12;

/// Length in bytes of the Argon2 salt drawn for each sealing.
pub const SALT_SIZE: usize = 16;

/// Length in bytes of the derived AES-256 key.
pub const KEY_SIZE: usize = 32;

/// The stored form of a vault: salt, nonce and ciphertext, each in Base64.
pub struct EncryptedVault {
    pub salt: String,
    pub nonce: String,
    pub ciphertext: String,
}

impl View for EncryptedVault {
    type V = (Seq<char>, Seq<char>, Seq<char>);

    open spec fn view(&self) -> (Seq<char>, Seq<char>, Seq<char>) {
        (self.salt@, self.nonce@, self.ciphertext@)
    }
}

/// The key that Argon2id derives from the UTF-8 bytes of a master password
/// and a salt, or `None` where Argon2 refuses them.
pub open spec fn derived_key(password: Seq<char>, salt: Seq<u8>) -> Option<Seq<u8>> {
    let pwd = encode_utf8(password);
    if pwd.len() <= argon2_max_len() && argon2_min_salt_len() <= salt.len() <= argon2_max_len() {
        Some(argon2id_hash(pwd, salt, KEY_SIZE as nat))
    } else {
        None
    }
}

/// The key that opens and seals a vault is Argon2id, with a 32-byte output,
/// of the password's UTF-8 bytes and the whole salt as given; Argon2 refuses
/// only a password over `0xFFFF_FFFF` bytes and a salt outside 8 to
/// `0xFFFF_FFFF` bytes. Salts that differ anywhere are distinct Argon2 inputs.
pub proof fn lemma_key_is_argon2id_of_whole_salt(password: Seq<char>, salt: Seq<u8>)
    ensures
        derived_key(password, salt) is Some <==> (encode_utf8(password).len() <= 0xFFFF_FFFF && 8 <= salt.len()
            <= 0xFFFF_FFFF),
        derived_key(password, salt) matches Some(key) ==> key == argon2id_hash(encode_utf8(password), salt, 32),
{
}

/// What sealing a plaintext under a password, with a given salt and nonce,
/// produces: the three Base64 fields, or the error met on the way.
pub open spec fn sealed_vault(plaintext: Seq<u8>, password: Seq<char>, salt: Seq<u8>, nonce: Seq<u8>)
    -> Result<(Seq<char>, Seq<char>, Seq<char>), VaultError>
{
    match derived_key(password, salt) {
        None => Err(VaultError::KeyDerivation),
        Some(key) => if plaintext.len() > aes_gcm_max_plaintext() {
            Err(VaultError::Encryption)
        } else {
            Ok((base64_encode(salt), base64_encode(nonce), base64_encode(aes256gcm_seal(key, nonce, plaintext))))
        },
    }
}

/// What opening stored fields with a password gives, checked in this order:
/// the three Base64 decodings, the nonce length, the key derivation, and the
/// authenticated decryption.
pub open spec fn opened_vault(stored: (Seq<char>, Seq<char>, Seq<char>), password: Seq<char>)
    -> Result<Seq<u8>, VaultError>
{
    match base64_decode(stored.0) {
        None => Err(VaultError::InvalidSalt),
        Some(salt) => match base64_decode(stored.1) {
            None => Err(VaultError::InvalidNonce),
            Some(nonce) => match base64_decode(stored.2) {
                None => Err(VaultError::InvalidCiphertext),
                Some(ct) => if nonce.len() != AES_NONCE_SIZE {
                    Err(VaultError::NonceLength)
                } else {
                    match derived_key(password, salt) {
                        None => Err(VaultError::KeyDerivation),
                        Some(key) => match aes256gcm_open(key, nonce, ct) {
                            None => Err(VaultError::Decryption),
                            Some(pt) => Ok(pt),
                        },
                    }
                },
            },
        },
    }
}

/// Derives the 32-byte key from the master password and a salt with Argon2id
/// (version 0x13, m = 19456 KiB, t = 2, p = 1) over the password's UTF-8
/// bytes. The key depends on the password and the salt alone; Argon2 refuses
/// a password over `0xFFFF_FFFF` bytes and a salt shorter than 8 bytes.
pub fn derive_key(master_password: &str, salt: &[u8]) -> (res: Result<Vec<u8>, VaultError>)
    ensures
        match res {
            Ok(key) => derived_key(master_password@, salt@) == Some(key@) && key@.len() == KEY_SIZE,
            Err(e) => e == VaultError::KeyDerivation && derived_key(master_password@, salt@) is None,
        },
        res is Ok <==> (encode_utf8(master_password@).len() <= argon2_max_len() && argon2_min_salt_len()
            <= salt@.len() <= argon2_max_len()),
        res matches Ok(key) ==> key@ == argon2id_hash(encode_utf8(master_password@), salt@, 32),
{
    let mut key: Vec<u8> = vec![0u8; KEY_SIZE];
    match argon2_hash_password_into(master_password.as_bytes(), salt, &mut key) {
        Ok(()) => Ok(key),
        Err(_) => Err(VaultError::KeyDerivation),
    }
}

/// Seals a plaintext under a master password with the given salt and nonce.
/// What it returns is opened again, by the same password, to the plaintext.
pub fn seal_vault(plaintext: &[u8], master_password: &str, salt: &[u8], nonce: &[u8]) -> (res: Result<EncryptedVault, VaultError>)
    requires
        nonce@.len() == AES_NONCE_SIZE,
    ensures
        match res {
            Ok(ev) => sealed_vault(plaintext@, master_password@, salt@, nonce@) == Ok::<_, VaultError>(ev@),
            Err(e) => sealed_vault(plaintext@, master_password@, salt@, nonce@) == Err::<(Seq<char>, Seq<char>, Seq<char>), _>(e),
        },
        res matches Ok(ev) ==> opened_vault(ev@, master_password@) == Ok::<_, VaultError>(plaintext@),
        res matches Ok(ev) ==> base64_decode(ev.salt@) == Some(salt@) && base64_decode(ev.nonce@) == Some(nonce@)
            && (base64_decode(ev.ciphertext@) matches Some(ct) && ct.len() == plaintext@.len() + 16),
{
    let key = match derive_key(master_password, salt) {
        Ok(k) => k,
        Err(e) => return Err(e),
    };
    let ciphertext = match aes256gcm_encrypt(key.as_slice(), nonce, plaintext) {
        Ok(c) => c,
        Err(_) => return Err(VaultError::Encryption),
    };
    let ev = EncryptedVault {
        salt: base64_encode_bytes(salt),
        nonce: base64_encode_bytes(nonce),
        ciphertext: base64_encode_bytes(ciphertext.as_slice()),
    };
    Ok(ev)
}

/// Seals the serialized vault under the master password, with a fresh
/// 16-byte salt and a fresh 12-byte nonce, both from the operating system's
/// generator. The stored salt and nonce decode to 16 and 12 bytes, and the
/// stored ciphertext to the plaintext's length plus the 16-byte tag.
///
/// It fails exactly when Argon2 refuses the password (more than `0xFFFF_FFFF`
/// bytes) or AES-GCM refuses the plaintext (more than `P_MAX` bytes), and what
/// it returns opens, with the same password, to the plaintext.
pub fn encrypt_vault(plaintext: &[u8], master_password: &str) -> (res: Result<EncryptedVault, VaultError>)
    ensures
        res is Ok <==> (encode_utf8(master_password@).len() <= argon2_max_len()
            && plaintext@.len() <= aes_gcm_max_plaintext()),
        res matches Err(e) ==> e == (if encode_utf8(master_password@).len() > argon2_max_len() {
            VaultError::KeyDerivation
        } else {
            VaultError::Encryption
        }),
        res matches Ok(ev) ==> exists|salt: Seq<u8>, nonce: Seq<u8>|
            salt.len() == SALT_SIZE && nonce.len() == AES_NONCE_SIZE
            && base64_decode(ev.salt@) == Some(salt) && base64_decode(ev.nonce@) == Some(nonce)
            && #[trigger] sealed_vault(plaintext@, master_password@, salt, nonce) == Ok::<_, VaultError>(ev@),
        res matches Ok(ev) ==> (base64_decode(ev.ciphertext@) matches Some(ct)
            && ct.len() == plaintext@.len() + 16),
        res matches Ok(ev) ==> opened_vault(ev@, master_password@) == Ok::<_, VaultError>(plaintext@),
{
    let mut salt: Vec<u8> = vec![0u8; SALT_SIZE];
    os_fill_bytes(&mut salt);
    let mut nonce: Vec<u8> = vec![0u8; AES_NONCE_SIZE];
    os_fill_bytes(&mut nonce);
    seal_vault(plaintext, master_password, salt.as_slice(), nonce.as_slice())
}

/// Opens stored fields with the master password and returns the serialized
/// vault, or the first check that fails: Base64 of salt, nonce and
/// ciphertext, nonce length, key derivation, authenticated decryption.
pub fn decrypt_vault(encrypted: &EncryptedVault, master_password: &str) -> (res: Result<Vec<u8>, VaultError>)
    ensures
        match res {
            Ok(pt) => opened_vault(encrypted@, master_password@) == Ok::<_, VaultError>(pt@),
            Err(e) => opened_vault(encrypted@, master_password@) == Err::<Seq<u8>, _>(e),
        },
{
    let salt = match base64_decode_text(encrypted.salt.as_str()) {
        Ok(b) => b,
        Err(_) => return Err(VaultError::InvalidSalt),
    };
    let nonce = match base64_decode_text(encrypted.nonce.as_str()) {
        Ok(b) => b,
        Err(_) => return Err(VaultError::InvalidNonce),
    };
    let ciphertext = match base64_decode_text(encrypted.ciphertext.as_str()) {
        Ok(b) => b,
        Err(_) => return Err(VaultError::InvalidCiphertext),
    };
    if nonce.len() != AES_NONCE_SIZE {
        return Err(VaultError::NonceLength);
    }
    let key = match derive_key(master_password, salt.as_slice()) {
        Ok(k) => k,
        Err(e) => return Err(e),
    };
    match aes256gcm_decrypt(key.as_slice(), nonce.as_slice(), ciphertext.as_slice()) {
        Ok(pt) => Ok(pt),
        Err(_) => Err(VaultError::Decryption),
    }
}

} // verus!
