//! Pluggable primitives: digests, authenticated encryption, key derivation.

pub mod encryption;
pub mod hashing;
pub mod key_derivation;

pub use encryption::EncryptionAlgorithm;
pub use encryption::EncryptionError;
pub use encryption::EncryptionStruct;
pub use hashing::HashAlgorithm;
pub use hashing::HashStruct;
pub use key_derivation::DynPasswordHasher;
pub use key_derivation::KeyDerivationAlgorithm;
pub use key_derivation::KeyDerivationError;
pub use key_derivation::PasswordHasherBuilder;
