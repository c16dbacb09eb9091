//! A local password vault: accounts stored in a file sealed with AES-256-GCM
//! under a key derived from a master password with Argon2id.
pub mod error;
pub mod primitives;
pub mod text;
pub mod crypto;
pub mod vault;
pub mod utils;
pub mod commands;
pub mod repository;
pub mod tailwind;
