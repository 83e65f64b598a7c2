//! The vault codec: sealing a plaintext under a password into a record
//! that describes itself, and opening such a record again.
//!
//! A record carries the names of the three algorithms it was made with, the
//! stored parameters of the key derivation, the salt, the nonce, a digest of
//! the ciphertext and the ciphertext. Nothing but the password is needed
//! besides the record to open it.

pub mod format;

use vstd::prelude::*;

use self::format::storable;
use crate::bytes::same_bytes;
use crate::cryptography::encryption::{can_be_opened, opened, os_random_bytes, scrub, sealed};
use crate::cryptography::hashing::digest_of;
use crate::cryptography::key_derivation::argon::{
    fill_accepted, fill_reason, key_material,
};
use crate::cryptography::key_derivation::{
    rebuilt, DynPasswordHasher, KeyDerivationAlgorithm, KeyDerivationError, KeyDerivationFailure,
    PasswordHasherBuilder,
};
use crate::cryptography::{
    EncryptionAlgorithm, EncryptionError, EncryptionStruct, HashAlgorithm, HashStruct,
};
use crate::text::text_of;

verus! {

/// Bytes in the salt drawn for every record.
pub const SALT_SIZE: usize = 16;

/// What a record says of how it was made.
#[derive(Debug)]
pub struct VaultHeader {
    pub encryption_algorithm: EncryptionAlgorithm,
    pub hash_algorithm: HashAlgorithm,
    pub key_derivation_algorithm: KeyDerivationAlgorithm,
    pub key_derivation_parameter_bytes: Vec<u8>,
    pub salt: Vec<u8>,
    pub nonce: Vec<u8>,
    pub integrity_digest: Vec<u8>,
}

/// A sealed vault: the header and the ciphertext, tag included.
#[derive(Debug)]
pub struct SaveFile {
    pub header: VaultHeader,
    pub encrypted_payload: Vec<u8>,
}

/// A [`VaultHeader`] with the bytes of its fields.
pub struct VaultHeaderView {
    pub encryption_algorithm: EncryptionAlgorithm,
    pub hash_algorithm: HashAlgorithm,
    pub key_derivation_algorithm: KeyDerivationAlgorithm,
    pub key_derivation_parameter_bytes: Seq<u8>,
    pub salt: Seq<u8>,
    pub nonce: Seq<u8>,
    pub integrity_digest: Seq<u8>,
}

/// A [`SaveFile`] with the bytes of its fields.
pub struct SaveFileView {
    pub header: VaultHeaderView,
    pub encrypted_payload: Seq<u8>,
}

impl View for VaultHeader {
    type V = VaultHeaderView;

    open spec fn view(&self) -> VaultHeaderView {
        VaultHeaderView {
            encryption_algorithm: self.encryption_algorithm,
            hash_algorithm: self.hash_algorithm,
            key_derivation_algorithm: self.key_derivation_algorithm,
            key_derivation_parameter_bytes: self.key_derivation_parameter_bytes@,
            salt: self.salt@,
            nonce: self.nonce@,
            integrity_digest: self.integrity_digest@,
        }
    }
}

impl View for SaveFile {
    type V = SaveFileView;

    open spec fn view(&self) -> SaveFileView {
        SaveFileView { header: self.header@, encrypted_payload: self.encrypted_payload@ }
    }
}

/// Why a vault cannot be sealed or opened.
#[derive(Debug)]
pub enum VaultError {
    /// The key derivation could not be rebuilt or refused its input.
    KeyDerivation(KeyDerivationError),
    /// The derived key is not one the cipher takes.
    Encryption(EncryptionError),
    /// The digest in the header is not that of the ciphertext.
    Corrupted,
    /// The cipher does not authenticate the ciphertext: the password is
    /// wrong, or the record has been changed.
    WrongPasswordOrCorrupted,
}

/// A [`VaultError`] with the characters of its descriptions.
pub enum VaultFailure {
    KeyDerivation(KeyDerivationFailure),
    Encryption(EncryptionError),
    Corrupted,
    WrongPasswordOrCorrupted,
}

impl View for VaultError {
    type V = VaultFailure;

    open spec fn view(&self) -> VaultFailure {
        match self {
            VaultError::KeyDerivation(error) => VaultFailure::KeyDerivation(error@),
            VaultError::Encryption(error) => VaultFailure::Encryption(*error),
            VaultError::Corrupted => VaultFailure::Corrupted,
            VaultError::WrongPasswordOrCorrupted => VaultFailure::WrongPasswordOrCorrupted,
        }
    }
}

impl VaultFailure {
    /// The text shown for this failure.
    pub open spec fn text(self) -> Seq<char> {
        match self {
            VaultFailure::KeyDerivation(failure) => failure.text(),
            VaultFailure::Encryption(
                EncryptionError::InvalidKeyLength { .. },
            ) => "The derived key does not have the length that the cipher takes."@,
            VaultFailure::Encryption(
                EncryptionError::AuthenticationFailure,
            ) => "Cannot open vault: wrong password or corrupted file."@,
            VaultFailure::Corrupted => "Cannot open vault: the file is corrupted."@,
            VaultFailure::WrongPasswordOrCorrupted => "Cannot open vault: wrong password or corrupted file."@,
        }
    }
}

impl VaultError {
    /// The text shown for this error.
    pub fn to_string(&self) -> (text: String)
        ensures
            text@ == self@.text(),
    {
        match self {
            VaultError::KeyDerivation(error) => error.to_string(),
            VaultError::Encryption(EncryptionError::InvalidKeyLength { .. }) => text_of(
                "The derived key does not have the length that the cipher takes.",
            ),
            VaultError::Encryption(EncryptionError::AuthenticationFailure) => text_of(
                "Cannot open vault: wrong password or corrupted file.",
            ),
            VaultError::Corrupted => text_of("Cannot open vault: the file is corrupted."),
            VaultError::WrongPasswordOrCorrupted => text_of(
                "Cannot open vault: wrong password or corrupted file.",
            ),
        }
    }
}

/// The key that the record's header and `password` lead to, or the failure
/// that deriving it ends in.
pub open spec fn record_key(header: VaultHeaderView, password: Seq<u8>) -> Result<
    Seq<u8>,
    VaultFailure,
> {
    match rebuilt(header.key_derivation_algorithm, header.key_derivation_parameter_bytes) {
        Err(failure) => Err(VaultFailure::KeyDerivation(failure)),
        Ok(options) => if fill_accepted(password.len(), header.salt.len(), 32) {
            Ok(key_material(options, password, header.salt, 32))
        } else {
            Err(
                VaultFailure::KeyDerivation(
                    KeyDerivationFailure::HashingError(
                        fill_reason(password.len(), header.salt.len(), 32),
                    ),
                ),
            )
        },
    }
}

/// Whether the digest in the header is that of the ciphertext.
pub open spec fn digest_matches(record: SaveFileView) -> bool {
    record.header.integrity_digest == digest_of(
        record.header.hash_algorithm,
        record.encrypted_payload,
    )
}

/// What opening `record` with `password` comes to. The key is derived as
/// the header says; then the digest is compared, and a mismatch is
/// `Corrupted`; then the cipher opens the ciphertext, and its refusal, a
/// nonce that is not of the cipher's size, or a ciphertext too long to be
/// one that the cipher sealed, is `WrongPasswordOrCorrupted`.
pub open spec fn opened_record(record: SaveFileView, password: Seq<u8>) -> Result<
    Seq<u8>,
    VaultFailure,
> {
    match record_key(record.header, password) {
        Err(failure) => Err(failure),
        Ok(key) => if !digest_matches(record) {
            Err(VaultFailure::Corrupted)
        } else if record.header.nonce.len()
            != record.header.encryption_algorithm.spec_nonce_size() {
            Err(VaultFailure::WrongPasswordOrCorrupted)
        } else if !can_be_opened(
            record.header.encryption_algorithm,
            record.encrypted_payload.len(),
        ) {
            Err(VaultFailure::WrongPasswordOrCorrupted)
        } else {
            match opened(
                record.header.encryption_algorithm,
                key,
                record.header.nonce,
                record.encrypted_payload,
            ) {
                Some(plaintext) => Ok(plaintext),
                None => Err(VaultFailure::WrongPasswordOrCorrupted),
            }
        },
    }
}

/// Compares the digest a record carries with the digest of its ciphertext.
pub fn check_integrity(carried: &[u8], computed: &[u8]) -> (checked: Result<(), VaultError>)
    ensures
        checked is Ok <==> carried@ == computed@,
        checked matches Err(error) ==> error@ == VaultFailure::Corrupted,
{
    if same_bytes(carried, computed) {
        Ok(())
    } else {
        Err(VaultError::Corrupted)
    }
}

/// What the vault makes of the cipher's answer: the plaintext, or
/// `WrongPasswordOrCorrupted` where the cipher did not authenticate.
pub fn authenticated(answer: Result<Vec<u8>, EncryptionError>) -> (plain: Result<
    Vec<u8>,
    VaultError,
>)
    ensures
        answer matches Ok(data) ==> plain matches Ok(same) && same@ == data@,
        answer matches Err(EncryptionError::AuthenticationFailure) ==> plain matches Err(error)
            && error@ == VaultFailure::WrongPasswordOrCorrupted,
        answer matches Err(EncryptionError::InvalidKeyLength { provided, required })
            ==> plain matches Err(error) && error@ == VaultFailure::Encryption(
            EncryptionError::InvalidKeyLength { provided, required },
        ),
{
    match answer {
        Ok(data) => Ok(data),
        Err(EncryptionError::AuthenticationFailure) => Err(VaultError::WrongPasswordOrCorrupted),
        Err(error) => Err(VaultError::Encryption(error)),
    }
}

/// Seals `database` under `password` with a salt and a nonce that the
/// caller has drawn, and scrubs `database`.
fn seal_database<H: DynPasswordHasher>(
    database: &mut Vec<u8>,
    password: &[u8],
    hash_algorithm: &mut HashStruct,
    key_deriver: &H,
    encryption_algorithm: EncryptionAlgorithm,
    salt: Vec<u8>,
    nonce: Vec<u8>,
) -> (outcome: Result<SaveFile, VaultError>)
    requires
        old(database)@.len() <= encryption_algorithm.spec_max_plaintext_len(),
        old(hash_algorithm).absorbed() == Seq::<u8>::empty(),
        nonce@.len() == encryption_algorithm.spec_nonce_size(),
    ensures
        final(database)@ == Seq::<u8>::empty(),
        final(hash_algorithm).absorbed() == Seq::<u8>::empty(),
        final(hash_algorithm).spec_algorithm() == old(hash_algorithm).spec_algorithm(),
        outcome is Ok <==> fill_accepted(password@.len(), salt@.len(), 32),
        outcome matches Ok(record) ==> {
            &&& record@.header.encryption_algorithm == encryption_algorithm
            &&& record@.header.hash_algorithm == old(hash_algorithm).spec_algorithm()
            &&& record@.header.key_derivation_algorithm == key_deriver.spec_algorithm()
            &&& record@.header.key_derivation_parameter_bytes == key_deriver.spec_option_bytes()
            &&& record@.header.salt == salt@
            &&& record@.header.nonce == nonce@
            &&& record@.encrypted_payload == sealed(
                encryption_algorithm,
                key_deriver.derived(password@, salt@, 32),
                nonce@,
                old(database)@,
            )
            &&& record@.encrypted_payload.len() == old(database)@.len()
                + encryption_algorithm.spec_tag_size()
            &&& record@.header.integrity_digest.len() == old(
                hash_algorithm,
            ).spec_algorithm().spec_digest_len()
            &&& digest_matches(record@)
            &&& storable(record@)
            &&& opened_record(record@, password@) == Ok::<Seq<u8>, VaultFailure>(old(database)@)
        },
        outcome matches Err(error) ==> error@ == VaultFailure::KeyDerivation(
            KeyDerivationFailure::HashingError(fill_reason(password@.len(), salt@.len(), 32)),
        ),
{
    let key_derivation_algorithm = key_deriver.algorithm();
    proof {
        key_deriver.lemma_rebuilt();
    }
    let mut key = match key_deriver.hash_password(password, salt.as_slice()) {
        Ok(key) => key,
        Err(error) => {
            scrub(database);
            return Err(VaultError::KeyDerivation(error));
        },
    };
    let encryptor = match EncryptionStruct::new(encryption_algorithm, key.as_slice()) {
        Ok(encryptor) => encryptor,
        Err(error) => {
            scrub(&mut key);
            scrub(database);
            return Err(VaultError::Encryption(error));
        },
    };
    let ghost key_bytes = key@;
    scrub(&mut key);
    let encrypted_payload = encryptor.encrypt_with_nonce(nonce.as_slice(), database.as_slice());
    scrub(database);
    encryptor.dispose();
    hash_algorithm.update(encrypted_payload.as_slice());
    let integrity_digest = hash_algorithm.finalize();
    let header = VaultHeader {
        encryption_algorithm,
        hash_algorithm: hash_algorithm.algorithm(),
        key_derivation_algorithm,
        key_derivation_parameter_bytes: key_deriver.option_bytes(),
        salt,
        nonce,
        integrity_digest,
    };
    let record = SaveFile { header, encrypted_payload };
    proof {
        broadcast use vstd::std_specs::vec::axiom_spec_len;

        assert(record.header.key_derivation_parameter_bytes.len() <= usize::MAX);
        assert(record.header.salt.len() <= usize::MAX);
        assert(record.encrypted_payload.len() <= usize::MAX);
        assert(old(hash_algorithm).absorbed() + record.encrypted_payload@
            =~= record.encrypted_payload@);
        assert(record_key(record@.header, password@) == Ok::<Seq<u8>, VaultFailure>(key_bytes));
    }
    Ok(record)
}

/// Seals `database` under `password`: a key is derived with `key_deriver`
/// from the password and a fresh random salt, the plaintext is encrypted
/// under a fresh random nonce, and the ciphertext is digested with
/// `hash_algorithm`. The plaintext buffer is scrubbed on every way out.
/// Whatever `hash_algorithm` has absorbed before is discarded.
///
/// The record that comes back can be stored, and opens to the plaintext
/// under the same password. Sealing fails only where the password is longer
/// than the key derivation takes.
pub fn encrypt_database<H: DynPasswordHasher>(
    database: &mut Vec<u8>,
    password: &[u8],
    hash_algorithm: HashStruct,
    key_deriver: &H,
    encryption_algorithm: EncryptionAlgorithm,
) -> (outcome: Result<SaveFile, VaultError>)
    requires
        old(database)@.len() <= encryption_algorithm.spec_max_plaintext_len(),
    ensures
        final(database)@ == Seq::<u8>::empty(),
        outcome is Ok <==> password@.len() <= 0xffff_ffff,
        outcome matches Ok(record) ==> {
            &&& record@.header.encryption_algorithm == encryption_algorithm
            &&& record@.header.hash_algorithm == hash_algorithm.spec_algorithm()
            &&& record@.header.key_derivation_algorithm == key_deriver.spec_algorithm()
            &&& record@.header.key_derivation_parameter_bytes == key_deriver.spec_option_bytes()
            &&& record@.header.salt.len() == SALT_SIZE
            &&& record@.header.nonce.len() == encryption_algorithm.spec_nonce_size()
            &&& record@.encrypted_payload == sealed(
                encryption_algorithm,
                key_deriver.derived(password@, record@.header.salt, 32),
                record@.header.nonce,
                old(database)@,
            )
            &&& record@.encrypted_payload.len() == old(database)@.len()
                + encryption_algorithm.spec_tag_size()
            &&& record@.header.integrity_digest.len()
                == hash_algorithm.spec_algorithm().spec_digest_len()
            &&& digest_matches(record@)
            &&& storable(record@)
            &&& opened_record(record@, password@) == Ok::<Seq<u8>, VaultFailure>(old(database)@)
        },
        outcome matches Err(error) ==> error@ == VaultFailure::KeyDerivation(
            KeyDerivationFailure::HashingError(fill_reason(password@.len(), SALT_SIZE as nat, 32)),
        ),
{
    let mut hash_algorithm = hash_algorithm;
    let _ = hash_algorithm.finalize();
    let salt = os_random_bytes(SALT_SIZE);
    let nonce = os_random_bytes(encryption_algorithm.nonce_size());
    seal_database(
        database,
        password,
        &mut hash_algorithm,
        key_deriver,
        encryption_algorithm,
        salt,
        nonce,
    )
}

/// Opens `record` with `password`: the key derivation is rebuilt from the
/// header, the key is derived from the password and the stored salt, the
/// digest of the ciphertext is compared with the one in the header, and the
/// cipher opens the ciphertext.
pub fn decrypt_database(record: &SaveFile, password: &[u8]) -> (outcome: Result<
    Vec<u8>,
    VaultError,
>)
    ensures
        outcome matches Ok(plaintext) ==> opened_record(record@, password@) == Ok::<
            Seq<u8>,
            VaultFailure,
        >(plaintext@),
        outcome matches Err(error) ==> opened_record(record@, password@) == Err::<
            Seq<u8>,
            VaultFailure,
        >(error@),
{
    let key_deriver = match record.header.key_derivation_algorithm.build(
        record.header.key_derivation_parameter_bytes.as_slice(),
    ) {
        Ok(key_deriver) => key_deriver,
        Err(error) => {
            return Err(VaultError::KeyDerivation(error));
        },
    };
    let mut key = match key_deriver.hash_password(password, record.header.salt.as_slice()) {
        Ok(key) => key,
        Err(error) => {
            return Err(VaultError::KeyDerivation(error));
        },
    };
    let mut hash_algorithm = HashStruct::new(record.header.hash_algorithm);
    hash_algorithm.update(record.encrypted_payload.as_slice());
    let computed = hash_algorithm.finalize();
    assert(Seq::<u8>::empty() + record.encrypted_payload@ =~= record.encrypted_payload@);
    match check_integrity(record.header.integrity_digest.as_slice(), computed.as_slice()) {
        Ok(()) => {},
        Err(error) => {
            scrub(&mut key);
            return Err(error);
        },
    }
    let made = EncryptionStruct::new(record.header.encryption_algorithm, key.as_slice());
    let ghost key_bytes = key@;
    scrub(&mut key);
    let encryptor = match made {
        Ok(encryptor) => encryptor,
        Err(error) => {
            return Err(VaultError::Encryption(error));
        },
    };
    let answer = encryptor.decrypt(
        record.encrypted_payload.as_slice(),
        record.header.nonce.as_slice(),
    );
    encryptor.dispose();
    authenticated(answer)
}

/// A record opens to a plaintext only where its digest matches and the
/// cipher, under the key that the header and the password lead to,
/// authenticates its ciphertext as that plaintext. Where the digest does not
/// match, opening ends in `Corrupted`; where the cipher does not
/// authenticate, in `WrongPasswordOrCorrupted`.
pub proof fn lemma_opening_is_authenticated(record: SaveFileView, password: Seq<u8>)
    ensures
        match opened_record(record, password) {
            Ok(plaintext) => record_key(record.header, password) matches Ok(key) && digest_matches(
                record,
            ) && opened(
                record.header.encryption_algorithm,
                key,
                record.header.nonce,
                record.encrypted_payload,
            ) == Some(plaintext),
            Err(VaultFailure::Corrupted) => record_key(record.header, password) is Ok
                && !digest_matches(record),
            Err(VaultFailure::WrongPasswordOrCorrupted) => record_key(
                record.header,
                password,
            ) matches Ok(key) && digest_matches(record) && (record.header.nonce.len()
                != record.header.encryption_algorithm.spec_nonce_size() || opened(
                record.header.encryption_algorithm,
                key,
                record.header.nonce,
                record.encrypted_payload,
            ) is None),
            Err(VaultFailure::KeyDerivation(failure)) => record_key(record.header, password) == Err::<
                Seq<u8>,
                VaultFailure,
            >(VaultFailure::KeyDerivation(failure)),
            Err(VaultFailure::Encryption(_)) => false,
        },
{
}

/// A record whose ciphertext has been changed to one with another digest
/// does not open: where its key can be derived, opening ends in
/// `Corrupted`, whatever the password.
pub proof fn lemma_changed_payload_is_corrupted(
    record: SaveFileView,
    changed: Seq<u8>,
    password: Seq<u8>,
)
    requires
        digest_matches(record),
        digest_of(record.header.hash_algorithm, changed) != digest_of(
            record.header.hash_algorithm,
            record.encrypted_payload,
        ),
        record_key(record.header, password) is Ok,
    ensures
        opened_record(
            SaveFileView { header: record.header, encrypted_payload: changed },
            password,
        ) == Err::<Seq<u8>, VaultFailure>(VaultFailure::Corrupted),
{
}

} // verus!
