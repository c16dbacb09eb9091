//! What loading and saving the vault file decide, apart from the file itself.
use crate::crypto::{decrypt_vault, encrypt_vault, opened_vault, sealed_vault, AES_NONCE_SIZE, SALT_SIZE};
use crate::crypto::EncryptedVault;
use crate::error::VaultError;
use crate::primitives::{aes_gcm_max_plaintext, argon2_max_len, base64_decode};
use vstd::prelude::*;
use vstd::utf8::encode_utf8;

verus! {

/// The vault file's loading and saving.
pub struct VaultRepository;

impl VaultRepository {
    /// What loading gives: with no stored vault, `None` (a new, empty vault);
    /// otherwise the opened plaintext, or why it could not be opened.
    pub fn load(stored: Option<&EncryptedVault>, master_password: &str) -> (res: Result<Option<Vec<u8>>, VaultError>)
        ensures
            stored is None ==> res matches Ok(None),
            stored matches Some(ev) ==> match res {
                Ok(Some(pt)) => opened_vault(ev@, master_password@) == Ok::<_, VaultError>(pt@),
                Ok(None) => false,
                Err(e) => opened_vault(ev@, master_password@) == Err::<Seq<u8>, _>(e),
            },
    {
        match stored {
            None => Ok(None),
            Some(ev) => match decrypt_vault(ev, master_password) {
                Ok(pt) => Ok(Some(pt)),
                Err(e) => Err(e),
            },
        }
    }

    /// What saving stores: the plaintext sealed under the master password,
    /// which loading with that password opens again to the plaintext.
    pub fn save(plaintext: &[u8], master_password: &str) -> (res: Result<EncryptedVault, VaultError>)
        ensures
            res is Ok <==> (encode_utf8(master_password@).len() <= argon2_max_len()
                && plaintext@.len() <= aes_gcm_max_plaintext()),
            res matches Err(e) ==> e == (if encode_utf8(master_password@).len() > argon2_max_len() {
                VaultError::KeyDerivation
            } else {
                VaultError::Encryption
            }),
            res matches Ok(ev) ==> exists|salt: Seq<u8>, nonce: Seq<u8>|
                salt.len() == SALT_SIZE && nonce.len() == AES_NONCE_SIZE
                && base64_decode(ev.salt@) == Some(salt) && base64_decode(ev.nonce@) == Some(nonce)
                && #[trigger] sealed_vault(plaintext@, master_password@, salt, nonce) == Ok::<_, VaultError>(ev@),
            res matches Ok(ev) ==> (base64_decode(ev.ciphertext@) matches Some(ct)
                && ct.len() == plaintext@.len() + 16),
            res matches Ok(ev) ==> opened_vault(ev@, master_password@) == Ok::<_, VaultError>(plaintext@),
    {
        encrypt_vault(plaintext, master_password)
    }
}

} // verus!
