//! Cryptographic core of a local secret store: hashing, authenticated
//! encryption, password-based key derivation and the vault record codec.

pub mod bytes;
pub mod configuration;
pub mod cryptography;
pub mod language;
pub mod storage;
pub mod text;
pub mod ui;
