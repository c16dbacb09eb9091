//! The errors of the vault's own logic.
use vstd::prelude::*;

verus! {

/// Why an operation on the vault was refused.
#[derive(Debug, Clone, Copy, PartialEq, Eq, Structural)]
pub enum VaultError {
    /// The stored salt is not valid Base64.
    InvalidSalt,
    /// The stored nonce is not valid Base64.
    InvalidNonce,
    /// The stored ciphertext is not valid Base64.
    InvalidCiphertext,
    /// The decoded nonce does not have the AES-GCM nonce length.
    NonceLength,
    /// Argon2 refused the password or the salt.
    KeyDerivation,
    /// AES-GCM refused to encrypt the plaintext.
    Encryption,
    /// The master password is wrong or the data were altered.
    Decryption,
    /// A password (of an account or a new master password) is empty.
    EmptyPassword,
    /// The new master password and its confirmation differ.
    PasswordMismatch,
    /// No account stands at the given index.
    InvalidIndex,
}

} // verus!
