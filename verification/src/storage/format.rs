//! The stored form of a record.
//!
//! A record is stored as one byte for the version of the form, one byte
//! each for the encryption, hash and key derivation algorithm, the stored
//! parameters of the key derivation behind their length, the nonce, the
//! digest, the salt behind its length and the ciphertext behind its length.
//! A length is eight bytes, lowest first. Nonce and digest have the length
//! that the algorithms give them and are stored without it.

use vstd::bytes::{
    lemma_auto_spec_u64_to_from_le_bytes, spec_u64_from_le_bytes, spec_u64_to_le_bytes,
    u64_from_le_bytes, u64_to_le_bytes,
};
use vstd::prelude::*;
use vstd::slice::slice_subrange;

use super::{SaveFile, SaveFileView, VaultError, VaultFailure, VaultHeader, VaultHeaderView};
use crate::bytes::{bytes_of, push_all};
use crate::cryptography::{EncryptionAlgorithm, HashAlgorithm, KeyDerivationAlgorithm};

verus! {

/// The version of the stored form that this module writes and reads.
pub const FORMAT_VERSION: u8 = 1;

/// The number that stands for a key derivation algorithm in a record.
pub open spec fn key_derivation_tag(algorithm: KeyDerivationAlgorithm) -> u8 {
    match algorithm {
        KeyDerivationAlgorithm::Argon2id => 0,
        KeyDerivationAlgorithm::Argon2i => 1,
    }
}

/// The key derivation algorithm that `tag` stands for in a record, if any.
pub open spec fn key_derivation_of_tag(tag: u8) -> Option<KeyDerivationAlgorithm> {
    if tag == 0 {
        Some(KeyDerivationAlgorithm::Argon2id)
    } else if tag == 1 {
        Some(KeyDerivationAlgorithm::Argon2i)
    } else {
        None
    }
}

/// `field` behind its length.
pub open spec fn length_prefixed(field: Seq<u8>) -> Seq<u8> {
    spec_u64_to_le_bytes(field.len() as u64) + field
}

/// The first `len` of `bytes` and the bytes after them.
pub open spec fn fixed_read(bytes: Seq<u8>, len: nat) -> Option<(Seq<u8>, Seq<u8>)> {
    if bytes.len() < len {
        None
    } else {
        Some((bytes.take(len as int), bytes.skip(len as int)))
    }
}

/// The field that `bytes` start with behind its length, and the bytes
/// after it.
pub open spec fn length_prefixed_read(bytes: Seq<u8>) -> Option<(Seq<u8>, Seq<u8>)> {
    match fixed_read(bytes, 8) {
        None => None,
        Some((length, rest)) => fixed_read(rest, spec_u64_from_le_bytes(length) as nat),
    }
}

/// Whether a record can be stored: nonce and digest have the length that
/// the algorithms give them, and no field is longer than a length can say.
pub open spec fn storable(record: SaveFileView) -> bool {
    &&& record.header.nonce.len() == record.header.encryption_algorithm.spec_nonce_size()
    &&& record.header.integrity_digest.len() == record.header.hash_algorithm.spec_digest_len()
    &&& record.header.key_derivation_parameter_bytes.len() <= u64::MAX
    &&& record.header.salt.len() <= u64::MAX
    &&& record.encrypted_payload.len() <= u64::MAX
}

/// The stored form of a record.
pub open spec fn stored(record: SaveFileView) -> Seq<u8> {
    seq![
        FORMAT_VERSION,
        record.header.encryption_algorithm.spec_tag(),
        record.header.hash_algorithm.spec_tag(),
        key_derivation_tag(record.header.key_derivation_algorithm),
    ] + length_prefixed(record.header.key_derivation_parameter_bytes) + record.header.nonce
        + record.header.integrity_digest + length_prefixed(record.header.salt) + length_prefixed(
        record.encrypted_payload,
    )
}

/// The record that `bytes` are the stored form of, if they are one's.
pub open spec fn restored(bytes: Seq<u8>) -> Option<SaveFileView> {
    if bytes.len() < 4 || bytes[0] != FORMAT_VERSION {
        None
    } else {
        match (
            EncryptionAlgorithm::spec_from_tag(bytes[1]),
            HashAlgorithm::spec_from_tag(bytes[2]),
            key_derivation_of_tag(bytes[3]),
        ) {
            (
                Some(encryption_algorithm),
                Some(hash_algorithm),
                Some(key_derivation_algorithm),
            ) => match length_prefixed_read(bytes.skip(4)) {
                None => None,
                Some((key_derivation_parameter_bytes, rest)) => match fixed_read(
                    rest,
                    encryption_algorithm.spec_nonce_size(),
                ) {
                    None => None,
                    Some((nonce, rest)) => match fixed_read(
                        rest,
                        hash_algorithm.spec_digest_len(),
                    ) {
                        None => None,
                        Some((integrity_digest, rest)) => match length_prefixed_read(rest) {
                            None => None,
                            Some((salt, rest)) => match length_prefixed_read(rest) {
                                None => None,
                                Some((encrypted_payload, rest)) => if rest.len() == 0 {
                                    Some(
                                        SaveFileView {
                                            header: VaultHeaderView {
                                                encryption_algorithm,
                                                hash_algorithm,
                                                key_derivation_algorithm,
                                                key_derivation_parameter_bytes,
                                                salt,
                                                nonce,
                                                integrity_digest,
                                            },
                                            encrypted_payload,
                                        },
                                    )
                                } else {
                                    None
                                },
                            },
                        },
                    },
                },
            },
            _ => None,
        }
    }
}

/// A field is read back from behind its length, and what follows it is
/// left over.
pub proof fn lemma_length_prefixed_round_trip(field: Seq<u8>, rest: Seq<u8>)
    requires
        field.len() <= u64::MAX,
    ensures
        length_prefixed_read(length_prefixed(field) + rest) == Some((field, rest)),
{
    lemma_auto_spec_u64_to_from_le_bytes();
    let length = spec_u64_to_le_bytes(field.len() as u64);
    let bytes = length_prefixed(field) + rest;
    assert(bytes.take(8) =~= length);
    assert(bytes.skip(8) =~= field + rest);
    assert((field + rest).take(field.len() as int) =~= field);
    assert((field + rest).skip(field.len() as int) =~= rest);
}

/// Bytes of a known length are read back, and what follows them is left
/// over.
pub proof fn lemma_fixed_round_trip(field: Seq<u8>, rest: Seq<u8>)
    ensures
        fixed_read(field + rest, field.len()) == Some((field, rest)),
{
    assert((field + rest).take(field.len() as int) =~= field);
    assert((field + rest).skip(field.len() as int) =~= rest);
}

/// A record that can be stored is read back from its stored form as it is.
pub proof fn lemma_stored_round_trip(record: SaveFileView)
    requires
        storable(record),
    ensures
        restored(stored(record)) == Some(record),
{
    let header = record.header;
    let tags = seq![
        FORMAT_VERSION,
        header.encryption_algorithm.spec_tag(),
        header.hash_algorithm.spec_tag(),
        key_derivation_tag(header.key_derivation_algorithm),
    ];
    let after_salt = length_prefixed(record.encrypted_payload);
    let after_digest = length_prefixed(header.salt) + after_salt;
    let after_nonce = header.integrity_digest + after_digest;
    let after_parameters = header.nonce + after_nonce;
    let after_tags = length_prefixed(header.key_derivation_parameter_bytes) + after_parameters;
    let bytes = stored(record);
    assert(bytes =~= tags + after_tags);
    assert(bytes.skip(4) =~= after_tags);
    lemma_length_prefixed_round_trip(header.key_derivation_parameter_bytes, after_parameters);
    lemma_fixed_round_trip(header.nonce, after_nonce);
    lemma_fixed_round_trip(header.integrity_digest, after_digest);
    lemma_length_prefixed_round_trip(header.salt, after_salt);
    lemma_length_prefixed_round_trip(record.encrypted_payload, Seq::<u8>::empty());
    assert(after_salt + Seq::<u8>::empty() =~= after_salt);
}

fn tag_of_key_derivation(algorithm: KeyDerivationAlgorithm) -> (tag: u8)
    ensures
        tag == key_derivation_tag(algorithm),
{
    match algorithm {
        KeyDerivationAlgorithm::Argon2id => 0,
        KeyDerivationAlgorithm::Argon2i => 1,
    }
}

fn key_derivation_from_tag(tag: u8) -> (found: Option<KeyDerivationAlgorithm>)
    ensures
        found == key_derivation_of_tag(tag),
{
    if tag == 0 {
        Some(KeyDerivationAlgorithm::Argon2id)
    } else if tag == 1 {
        Some(KeyDerivationAlgorithm::Argon2i)
    } else {
        None
    }
}

fn push_length_prefixed(out: &mut Vec<u8>, field: &[u8])
    requires
        field@.len() <= u64::MAX,
    ensures
        final(out)@ == old(out)@ + length_prefixed(field@),
{
    let length = u64_to_le_bytes(field.len() as u64);
    push_all(out, length.as_slice());
    push_all(out, field);
    assert(out@ =~= old(out)@ + length_prefixed(field@));
}

fn read_fixed(bytes: &[u8], position: usize, len: usize) -> (read: Option<(Vec<u8>, usize)>)
    requires
        position <= bytes@.len(),
    ensures
        match fixed_read(bytes@.skip(position as int), len as nat) {
            Some((field, rest)) => read matches Some((found, next)) && found@ == field
                && position <= next <= bytes@.len() && bytes@.skip(next as int) == rest,
            None => read is None,
        },
{
    if bytes.len() - position < len {
        return None;
    }
    let found = bytes_of(slice_subrange(bytes, position, position + len));
    proof {
        let from = bytes@.skip(position as int);
        assert(from.take(len as int) =~= bytes@.subrange(position as int, position + len));
        assert(from.skip(len as int) =~= bytes@.skip(position + len));
    }
    Some((found, position + len))
}

fn read_length_prefixed(bytes: &[u8], position: usize) -> (read: Option<(Vec<u8>, usize)>)
    requires
        position <= bytes@.len(),
    ensures
        match length_prefixed_read(bytes@.skip(position as int)) {
            Some((field, rest)) => read matches Some((found, next)) && found@ == field
                && position <= next <= bytes@.len() && bytes@.skip(next as int) == rest,
            None => read is None,
        },
{
    let (length, position) = match read_fixed(bytes, position, 8) {
        Some(read) => read,
        None => {
            return None;
        },
    };
    let length = u64_from_le_bytes(length.as_slice());
    if length > (bytes.len() - position) as u64 {
        return None;
    }
    read_fixed(bytes, position, length as usize)
}

impl SaveFile {
    /// Whether the record can be stored.
    pub fn is_storable(&self) -> (storable: bool)
        ensures
            storable == self::storable(self@),
    {
        broadcast use vstd::std_specs::vec::axiom_spec_len;

        assert(self.header.key_derivation_parameter_bytes.len() <= usize::MAX);
        assert(self.header.salt.len() <= usize::MAX);
        assert(self.encrypted_payload.len() <= usize::MAX);
        self.header.nonce.len() == self.header.encryption_algorithm.nonce_size()
            && self.header.integrity_digest.len() == self.header.hash_algorithm.digest_len()
    }

    /// The stored form of the record; `None` for a record that cannot be
    /// stored.
    pub fn to_bytes(&self) -> (bytes: Option<Vec<u8>>)
        ensures
            bytes is Some <==> storable(self@),
            bytes matches Some(written) ==> written@ == stored(self@) && restored(written@)
                == Some(self@),
    {
        if !self.is_storable() {
            return None;
        }
        let mut out: Vec<u8> = Vec::new();
        out.push(FORMAT_VERSION);
        out.push(self.header.encryption_algorithm.tag());
        out.push(self.header.hash_algorithm.tag());
        out.push(tag_of_key_derivation(self.header.key_derivation_algorithm));
        push_length_prefixed(&mut out, self.header.key_derivation_parameter_bytes.as_slice());
        push_all(&mut out, self.header.nonce.as_slice());
        push_all(&mut out, self.header.integrity_digest.as_slice());
        push_length_prefixed(&mut out, self.header.salt.as_slice());
        push_length_prefixed(&mut out, self.encrypted_payload.as_slice());
        proof {
            assert(out@ =~= stored(self@));
            lemma_stored_round_trip(self@);
        }
        Some(out)
    }

    /// The record that `bytes` are the stored form of, or `Corrupted` where
    /// they are no record's.
    pub fn from_bytes(bytes: &[u8]) -> (read: Result<SaveFile, VaultError>)
        ensures
            read matches Ok(record) ==> restored(bytes@) == Some(record@),
            read matches Err(error) ==> restored(bytes@) is None && error@
                == VaultFailure::Corrupted,
    {
        if bytes.len() < 4 || bytes[0] != FORMAT_VERSION {
            return Err(VaultError::Corrupted);
        }
        let encryption_algorithm = match EncryptionAlgorithm::from_tag(bytes[1]) {
            Some(algorithm) => algorithm,
            None => {
                return Err(VaultError::Corrupted);
            },
        };
        let hash_algorithm = match HashAlgorithm::from_tag(bytes[2]) {
            Some(algorithm) => algorithm,
            None => {
                return Err(VaultError::Corrupted);
            },
        };
        let key_derivation_algorithm = match key_derivation_from_tag(bytes[3]) {
            Some(algorithm) => algorithm,
            None => {
                return Err(VaultError::Corrupted);
            },
        };
        let (key_derivation_parameter_bytes, position) = match read_length_prefixed(bytes, 4) {
            Some(read) => read,
            None => {
                return Err(VaultError::Corrupted);
            },
        };
        let (nonce, position) = match read_fixed(
            bytes,
            position,
            encryption_algorithm.nonce_size(),
        ) {
            Some(read) => read,
            None => {
                return Err(VaultError::Corrupted);
            },
        };
        let (integrity_digest, position) = match read_fixed(
            bytes,
            position,
            hash_algorithm.digest_len(),
        ) {
            Some(read) => read,
            None => {
                return Err(VaultError::Corrupted);
            },
        };
        let (salt, position) = match read_length_prefixed(bytes, position) {
            Some(read) => read,
            None => {
                return Err(VaultError::Corrupted);
            },
        };
        let (encrypted_payload, position) = match read_length_prefixed(bytes, position) {
            Some(read) => read,
            None => {
                return Err(VaultError::Corrupted);
            },
        };
        if position != bytes.len() {
            return Err(VaultError::Corrupted);
        }
        Ok(
            SaveFile {
                header: VaultHeader {
                    encryption_algorithm,
                    hash_algorithm,
                    key_derivation_algorithm,
                    key_derivation_parameter_bytes,
                    salt,
                    nonce,
                    integrity_digest,
                },
                encrypted_payload,
            },
        )
    }
}

} // verus!
