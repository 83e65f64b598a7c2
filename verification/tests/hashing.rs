use rustypass::cryptography::{HashAlgorithm, HashStruct};

fn hex(bytes: &[u8]) -> String {
    let mut text = String::new();
    for byte in bytes {
        text.push_str(&format!("{:02x}", byte));
    }
    text
}

#[test]
fn sha256_of_abc_is_the_known_digest() {
    let mut engine = HashStruct::new(HashAlgorithm::Sha256);
    engine.update(b"abc");
    assert_eq!(
        hex(&engine.finalize()),
        "ba7816bf8f01cfea414140de5dae2223b00361a396177a9cb410ff61f20015ad"
    );
}

#[test]
fn sha512_of_abc_is_the_known_digest() {
    let mut engine = HashStruct::new(HashAlgorithm::Sha512);
    engine.update(b"abc");
    assert_eq!(
        hex(&engine.finalize()),
        "ddaf35a193617abacc417349ae20413112e6fa4e89a97ea20a9eeee64b55d39a\
         2192992a274fc1a836ba3c23a3feebbd454d4423643ce80e2a9ac94fa54ca49f"
    );
}

#[test]
fn digest_of_nothing_is_the_known_digest() {
    let mut engine = HashStruct::new(HashAlgorithm::Sha256);
    assert_eq!(
        hex(&engine.finalize()),
        "e3b0c44298fc1c149afbf4c8996fb92427ae41e4649b934ca495991b7852b855"
    );
}

#[test]
fn updates_accumulate_in_order() {
    let mut split = HashStruct::new(HashAlgorithm::Sha256);
    split.update(b"a");
    split.update(b"");
    split.update(b"bc");
    let mut whole = HashStruct::new(HashAlgorithm::Sha256);
    whole.update(b"abc");
    let mut swapped = HashStruct::new(HashAlgorithm::Sha256);
    swapped.update(b"bc");
    swapped.update(b"a");
    let digest = whole.finalize();
    assert_eq!(split.finalize(), digest);
    assert_ne!(swapped.finalize(), digest);
}

#[test]
fn finalize_readies_the_engine_for_the_next_message() {
    let mut engine = HashStruct::new(HashAlgorithm::Sha512);
    engine.update(b"first message");
    let first = engine.finalize();
    engine.update(b"abc");
    let second = engine.finalize();
    let mut fresh = HashStruct::new(HashAlgorithm::Sha512);
    fresh.update(b"abc");
    assert_eq!(second, fresh.finalize());
    assert_ne!(first, second);
    assert_eq!(engine.algorithm(), HashAlgorithm::Sha512);
}

#[test]
fn digest_lengths_are_those_of_the_algorithms() {
    for algorithm in HashAlgorithm::variants() {
        let mut engine = HashStruct::new(algorithm);
        engine.update(b"some bytes");
        assert_eq!(engine.finalize().len(), algorithm.digest_len());
    }
    assert_eq!(HashAlgorithm::Sha256.digest_len(), 32);
    assert_eq!(HashAlgorithm::Sha512.digest_len(), 64);
}

#[test]
fn hash_algorithm_names_round_trip() {
    assert_eq!(HashAlgorithm::Sha256.to_string(), "Sha256");
    assert_eq!(HashAlgorithm::Sha512.to_string(), "Sha512");
    for algorithm in HashAlgorithm::variants() {
        assert_eq!(HashAlgorithm::from_name(algorithm.name()), Some(algorithm));
    }
    assert_eq!(HashAlgorithm::from_name("sha256"), None);
    assert_eq!(HashAlgorithm::from_name(""), None);
}
