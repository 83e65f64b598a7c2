use rustypass::cryptography::key_derivation::argon::Argon2Wrapper;
use rustypass::cryptography::{
    EncryptionAlgorithm, HashAlgorithm, HashStruct, KeyDerivationAlgorithm, PasswordHasherBuilder,
};
use rustypass::storage::format::FORMAT_VERSION;
use rustypass::storage::{decrypt_database, encrypt_database, SaveFile, VaultError, VaultHeader};

fn small() -> Argon2Wrapper {
    let mut options = KeyDerivationAlgorithm::Argon2id.builder();
    options.set_option("Memory size", "16").unwrap();
    options.set_option("Iterations", "1").unwrap();
    options.build().unwrap()
}

fn record() -> SaveFile {
    SaveFile {
        header: VaultHeader {
            encryption_algorithm: EncryptionAlgorithm::ChaCha20Poly1305,
            hash_algorithm: HashAlgorithm::Sha256,
            key_derivation_algorithm: KeyDerivationAlgorithm::Argon2i,
            key_derivation_parameter_bytes: vec![0x10, 0x01, 0x01, 0x01],
            salt: vec![0xa0, 0xa1, 0xa2],
            nonce: vec![0xb0; 12],
            integrity_digest: vec![0xc0; 32],
        },
        encrypted_payload: vec![0xd0, 0xd1],
    }
}

fn stored_record() -> Vec<u8> {
    let mut bytes = vec![1, 1, 0, 1];
    bytes.extend_from_slice(&[4, 0, 0, 0, 0, 0, 0, 0, 0x10, 0x01, 0x01, 0x01]);
    bytes.extend_from_slice(&[0xb0; 12]);
    bytes.extend_from_slice(&[0xc0; 32]);
    bytes.extend_from_slice(&[3, 0, 0, 0, 0, 0, 0, 0, 0xa0, 0xa1, 0xa2]);
    bytes.extend_from_slice(&[2, 0, 0, 0, 0, 0, 0, 0, 0xd0, 0xd1]);
    bytes
}

fn same(first: &SaveFile, second: &SaveFile) -> bool {
    first.header.encryption_algorithm == second.header.encryption_algorithm
        && first.header.hash_algorithm == second.header.hash_algorithm
        && first.header.key_derivation_algorithm == second.header.key_derivation_algorithm
        && first.header.key_derivation_parameter_bytes
            == second.header.key_derivation_parameter_bytes
        && first.header.salt == second.header.salt
        && first.header.nonce == second.header.nonce
        && first.header.integrity_digest == second.header.integrity_digest
        && first.encrypted_payload == second.encrypted_payload
}

#[test]
fn the_stored_form_of_a_record() {
    assert_eq!(FORMAT_VERSION, 1);
    assert!(record().is_storable());
    assert_eq!(record().to_bytes().unwrap(), stored_record());
    assert_eq!(stored_record().len(), 4 + 12 + 12 + 32 + 11 + 10);
}

#[test]
fn a_record_is_read_back_from_its_stored_form() {
    let read = SaveFile::from_bytes(&stored_record()).unwrap();
    assert!(same(&read, &record()));
    let mut empty = record();
    empty.header.key_derivation_parameter_bytes.clear();
    empty.header.salt.clear();
    empty.encrypted_payload.clear();
    empty.header.hash_algorithm = HashAlgorithm::Sha512;
    empty.header.integrity_digest = vec![0xc1; 64];
    empty.header.encryption_algorithm = EncryptionAlgorithm::Aes256GcmSiv;
    empty.header.key_derivation_algorithm = KeyDerivationAlgorithm::Argon2id;
    let bytes = empty.to_bytes().unwrap();
    assert_eq!(bytes.len(), 4 + 8 + 12 + 64 + 8 + 8);
    assert_eq!(&bytes[..4], &[1, 0, 1, 0]);
    assert!(same(&SaveFile::from_bytes(&bytes).unwrap(), &empty));
}

#[test]
fn a_record_with_a_nonce_or_digest_of_another_length_is_not_stored() {
    let mut changed = record();
    changed.header.nonce.push(0);
    assert!(!changed.is_storable());
    assert_eq!(changed.to_bytes(), None);
    let mut changed = record();
    changed.header.nonce.clear();
    assert_eq!(changed.to_bytes(), None);
    let mut changed = record();
    changed.header.integrity_digest.pop();
    assert_eq!(changed.to_bytes(), None);
    let mut changed = record();
    changed.header.hash_algorithm = HashAlgorithm::Sha512;
    assert_eq!(changed.to_bytes(), None);
}

#[test]
fn bytes_that_are_no_record_are_corrupted() {
    let stored = stored_record();
    for len in 0..stored.len() {
        assert!(matches!(SaveFile::from_bytes(&stored[..len]), Err(VaultError::Corrupted)));
    }
    let mut longer = stored.clone();
    longer.push(0);
    assert!(matches!(SaveFile::from_bytes(&longer), Err(VaultError::Corrupted)));
    for (position, value) in [(0, 0u8), (0, 2), (1, 2), (2, 2), (3, 2), (3, 0xff)] {
        let mut changed = stored.clone();
        changed[position] = value;
        assert!(matches!(SaveFile::from_bytes(&changed), Err(VaultError::Corrupted)));
    }
    for position in [4, 5, 11, 60, 67, 71, 78] {
        let mut changed = stored.clone();
        changed[position] ^= 0x01;
        assert!(matches!(SaveFile::from_bytes(&changed), Err(VaultError::Corrupted)));
    }
    let mut changed = stored.clone();
    changed[2] = 1;
    assert!(matches!(SaveFile::from_bytes(&changed), Err(VaultError::Corrupted)));
}

#[test]
fn a_length_that_says_more_than_there_is_is_corrupted() {
    let mut bytes = vec![1, 1, 0, 1];
    bytes.extend_from_slice(&[0xff; 8]);
    bytes.extend_from_slice(&[0u8; 100]);
    assert!(matches!(SaveFile::from_bytes(&bytes), Err(VaultError::Corrupted)));
}

#[test]
fn a_sealed_vault_survives_being_stored() {
    let mut database = b"secret-notes".to_vec();
    let record = encrypt_database(
        &mut database,
        b"correct horse",
        HashStruct::new(HashAlgorithm::Sha512),
        &small(),
        EncryptionAlgorithm::Aes256GcmSiv,
    )
    .unwrap();
    let bytes = record.to_bytes().unwrap();
    let read = SaveFile::from_bytes(&bytes).unwrap();
    assert!(same(&read, &record));
    assert_eq!(read.to_bytes().unwrap(), bytes);
    assert_eq!(decrypt_database(&read, b"correct horse").unwrap(), b"secret-notes");
    for position in 0..bytes.len() {
        let mut changed = bytes.clone();
        changed[position] ^= 0x01;
        let opened = match SaveFile::from_bytes(&changed) {
            Ok(read) => decrypt_database(&read, b"correct horse"),
            Err(error) => Err(error),
        };
        assert!(opened.is_err(), "position {}", position);
    }
}
