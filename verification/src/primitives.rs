//! The calls into the cryptographic and random-number crates, each with
//! the contract that the library relies on.
use aes_gcm::aead::{Aead, KeyInit};
use aes_gcm::{Aes256Gcm, Nonce};
use argon2::Argon2;
use base64::Engine;
use rand::seq::SliceRandom;
use rand::RngCore;
use vstd::prelude::*;

verus! {

#[verifier::external_type_specification]
#[verifier::external_body]
pub struct ExAeadError(aes_gcm::Error);

#[verifier::external_type_specification]
#[verifier::external_body]
pub struct ExArgon2Error(argon2::Error);

#[verifier::external_type_specification]
#[verifier::external_body]
pub struct ExDecodeError(base64::DecodeError);

#[verifier::external_type_specification]
#[verifier::external_body]
pub struct ExThreadRng(rand::rngs::ThreadRng);

// ---------------------------------------------------------------- Base64

/// The character of a 6-bit value in the standard Base64 alphabet.
pub open spec fn base64_symbol(v: int) -> char {
    if v < 26 {
        (65 + v) as char
    } else if v < 52 {
        (97 + (v - 26)) as char
    } else if v < 62 {
        (48 + (v - 52)) as char
    } else if v == 62 {
        '+'
    } else {
        '/'
    }
}

/// Standard Base64 (RFC 4648 alphabet, `=` padding), three bytes to four
/// characters at a time.
pub open spec fn base64_encode(b: Seq<u8>) -> Seq<char>
    decreases b.len(),
{
    if b.len() == 0 {
        seq![]
    } else if b.len() == 1 {
        seq![base64_symbol((b[0] / 4) as int), base64_symbol((b[0] % 4) * 16), '=', '=']
    } else if b.len() == 2 {
        seq![
            base64_symbol((b[0] / 4) as int),
            base64_symbol((b[0] % 4) * 16 + b[1] / 16),
            base64_symbol((b[1] % 16) * 4),
            '=',
        ]
    } else {
        seq![
            base64_symbol((b[0] / 4) as int),
            base64_symbol((b[0] % 4) * 16 + b[1] / 16),
            base64_symbol((b[1] % 16) * 4 + b[2] / 64),
            base64_symbol((b[2] % 64) as int),
        ] + base64_encode(b.subrange(3, b.len() as int))
    }
}

/// Name for what `base64::engine::general_purpose::STANDARD.decode` gives
/// for a text: the decoded bytes, or `None` where it reports an error.
pub uninterp spec fn base64_decode(text: Seq<char>) -> Option<Seq<u8>>;

/// Calls `Engine::encode` of `base64::engine::general_purpose::STANDARD`.
/// Claimed: the text is the padded standard Base64 of the bytes, and the same
/// engine decodes it back to those bytes.
#[verifier::external_body]
pub(crate) fn base64_encode_bytes(bytes: &[u8]) -> (text: String)
    ensures
        text@ == base64_encode(bytes@),
        base64_decode(text@) == Some(bytes@),
{
    base64::engine::general_purpose::STANDARD.encode(bytes)
}

/// Calls `Engine::decode` of `base64::engine::general_purpose::STANDARD` on
/// the bytes of `text`. Claimed: the result is the named decoding of the text.
#[verifier::external_body]
pub(crate) fn base64_decode_text(text: &str) -> (res: Result<Vec<u8>, base64::DecodeError>)
    ensures
        match res {
            Ok(bytes) => base64_decode(text@) == Some(bytes@),
            Err(_) => base64_decode(text@) is None,
        },
{
    base64::engine::general_purpose::STANDARD.decode(text)
}

// ---------------------------------------------------------------- Argon2

/// The largest password and salt lengths that Argon2 accepts, in bytes.
pub open spec fn argon2_max_len() -> int {
    0xFFFF_FFFF
}

/// The shortest salt that Argon2 accepts, in bytes.
pub open spec fn argon2_min_salt_len() -> int {
    8
}

/// Name for the output of Argon2id (version 0x13, default costs m = 19456 KiB,
/// t = 2, p = 1) on a password and a salt, for an output of `out_len` bytes.
pub uninterp spec fn argon2id_hash(password: Seq<u8>, salt: Seq<u8>, out_len: nat) -> Seq<u8>;

/// Calls `Argon2::default().hash_password_into`. Claimed: it fails exactly when
/// the password is longer than `0xFFFF_FFFF` bytes or the salt is shorter than
/// 8 or longer than `0xFFFF_FFFF` bytes (the output length is in range); else
/// it fills `out` with the named hash.
#[verifier::external_body]
pub(crate) fn argon2_hash_password_into(pwd: &[u8], salt: &[u8], out: &mut Vec<u8>) -> (res: Result<(), argon2::Error>)
    requires
        4 <= old(out)@.len() <= argon2_max_len(),
    ensures
        final(out)@.len() == old(out)@.len(),
        res is Ok <==> (pwd@.len() <= argon2_max_len() && argon2_min_salt_len() <= salt@.len()
            <= argon2_max_len()),
        res is Ok ==> final(out)@ == argon2id_hash(pwd@, salt@, old(out)@.len()),
{
    Argon2::default().hash_password_into(pwd, salt, out.as_mut_slice())
}

// ---------------------------------------------------------------- AES-256-GCM

/// The longest plaintext that AES-GCM encrypts, in bytes (`P_MAX`).
pub open spec fn aes_gcm_max_plaintext() -> int {
    0x10_0000_0000
}

/// Name for the AES-256-GCM ciphertext (with its 16-byte tag appended) of a
/// plaintext under a key and a nonce, with no associated data.
pub uninterp spec fn aes256gcm_seal(key: Seq<u8>, nonce: Seq<u8>, plaintext: Seq<u8>) -> Seq<u8>;

/// Name for the AES-256-GCM decryption of a ciphertext (tag appended) under a
/// key and a nonce: the plaintext, or `None` where authentication fails.
pub uninterp spec fn aes256gcm_open(key: Seq<u8>, nonce: Seq<u8>, ciphertext: Seq<u8>) -> Option<Seq<u8>>;

/// Calls `Aead::encrypt` of an `Aes256Gcm` built from `key`. Claimed: it
/// fails exactly when the plaintext exceeds `P_MAX`; the ciphertext is the
/// named one, 16 bytes longer than the plaintext, and decrypting it with the
/// same key and nonce gives the plaintext back.
#[verifier::external_body]
pub(crate) fn aes256gcm_encrypt(key: &[u8], nonce: &[u8], plaintext: &[u8]) -> (res: Result<Vec<u8>, aes_gcm::Error>)
    requires
        key@.len() == 32,
        nonce@.len() == 12,
    ensures
        res is Ok <==> plaintext@.len() <= aes_gcm_max_plaintext(),
        res matches Ok(ct) ==> ct@ == aes256gcm_seal(key@, nonce@, plaintext@),
        res matches Ok(ct) ==> ct@.len() == plaintext@.len() + 16,
        res matches Ok(ct) ==> aes256gcm_open(key@, nonce@, ct@) == Some(plaintext@),
{
    Aes256Gcm::new(key.into()).encrypt(Nonce::from_slice(nonce), plaintext)
}

/// Calls `Aead::decrypt` of an `Aes256Gcm` built from `key`. Claimed: it
/// succeeds exactly when the named decryption does, with that plaintext.
#[verifier::external_body]
pub(crate) fn aes256gcm_decrypt(key: &[u8], nonce: &[u8], ciphertext: &[u8]) -> (res: Result<Vec<u8>, aes_gcm::Error>)
    requires
        key@.len() == 32,
        nonce@.len() == 12,
    ensures
        match res {
            Ok(pt) => aes256gcm_open(key@, nonce@, ciphertext@) == Some(pt@),
            Err(_) => aes256gcm_open(key@, nonce@, ciphertext@) is None,
        },
{
    Aes256Gcm::new(key.into()).decrypt(Nonce::from_slice(nonce), ciphertext)
}

// ---------------------------------------------------------------- randomness

/// Calls `RngCore::fill_bytes` on `OsRng`: the buffer keeps its length and
/// receives bytes from the operating system, of which nothing is claimed.
/// (It panics if the operating system reports an error.)
#[verifier::external_body]
pub(crate) fn os_fill_bytes(buf: &mut Vec<u8>)
    ensures
        final(buf)@.len() == old(buf)@.len(),
{
    rand::rngs::OsRng.fill_bytes(buf.as_mut_slice())
}

/// Calls `rand::thread_rng()`. (It panics if the operating system cannot
/// seed the generator.)
#[verifier::external_body]
pub(crate) fn thread_rng() -> rand::rngs::ThreadRng {
    rand::thread_rng()
}

/// Calls `SliceRandom::choose` on a non-empty slice: the chosen byte is one of
/// its elements; which one is left to the generator.
#[verifier::external_body]
pub(crate) fn choose_byte(choices: &[u8], rng: &mut rand::rngs::ThreadRng) -> (b: u8)
    requires
        choices@.len() > 0,
    ensures
        choices@.contains(b),
{
    *choices.choose(rng).unwrap()
}

} // verus!
