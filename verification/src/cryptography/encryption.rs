//! Authenticated encryption over a selectable algorithm.
//!
//! An [`EncryptionStruct`] is made from an algorithm and a key of the size
//! that algorithm mandates. Sealing draws a fresh nonce from the operating
//! system for every message; opening fails, without panicking, whenever the
//! authentication tag does not verify. The ciphers are those of the
//! `aes-gcm-siv` and `chacha20poly1305` crates; what they compute is named
//! by the `*_sealed` and `*_opened` functions and not defined here.

use aead::{Aead, KeyInit, KeySizeUser};
use rand::RngCore;
use vstd::prelude::*;
use zeroize::Zeroize;

use crate::bytes::bytes_of;
use crate::text::{same_text, text_of};

verus! {

/// The authenticated ciphers an engine can be created for.
#[derive(Clone, Copy, Debug, PartialEq, Eq, Structural)]
pub enum EncryptionAlgorithm {
    Aes256GcmSiv,
    ChaCha20Poly1305,
}

/// What can go wrong when an engine is made or a message is opened.
#[derive(Debug, PartialEq, Eq, Structural)]
pub enum EncryptionError {
    /// The key does not have the size the algorithm mandates.
    InvalidKeyLength { provided: usize, required: usize },
    /// The tag did not verify: the ciphertext, the key or the nonce is not
    /// the one the message was sealed with.
    AuthenticationFailure,
}

/// The AES-256-GCM-SIV ciphertext, tag included, of `plaintext` under `key`
/// and `nonce` with no associated data, as `aes_gcm_siv::Aes256GcmSiv`
/// computes it.
pub uninterp spec fn aes256_gcm_siv_sealed(key: Seq<u8>, nonce: Seq<u8>, plaintext: Seq<u8>) -> Seq<
    u8,
>;

/// What `aes_gcm_siv::Aes256GcmSiv` recovers from `ciphertext` under `key`
/// and `nonce` with no associated data; `None` where it reports an error.
pub uninterp spec fn aes256_gcm_siv_opened(
    key: Seq<u8>,
    nonce: Seq<u8>,
    ciphertext: Seq<u8>,
) -> Option<Seq<u8>>;

/// The ChaCha20-Poly1305 ciphertext, tag included, of `plaintext` under
/// `key` and `nonce` with no associated data, as
/// `chacha20poly1305::ChaCha20Poly1305` computes it.
pub uninterp spec fn chacha20_poly1305_sealed(
    key: Seq<u8>,
    nonce: Seq<u8>,
    plaintext: Seq<u8>,
) -> Seq<u8>;

/// What `chacha20poly1305::ChaCha20Poly1305` recovers from `ciphertext`
/// under `key` and `nonce` with no associated data; `None` where it reports
/// an error.
pub uninterp spec fn chacha20_poly1305_opened(
    key: Seq<u8>,
    nonce: Seq<u8>,
    ciphertext: Seq<u8>,
) -> Option<Seq<u8>>;

/// The ciphertext of `plaintext` under `algorithm`.
pub open spec fn sealed(
    algorithm: EncryptionAlgorithm,
    key: Seq<u8>,
    nonce: Seq<u8>,
    plaintext: Seq<u8>,
) -> Seq<u8> {
    match algorithm {
        EncryptionAlgorithm::Aes256GcmSiv => aes256_gcm_siv_sealed(key, nonce, plaintext),
        EncryptionAlgorithm::ChaCha20Poly1305 => chacha20_poly1305_sealed(key, nonce, plaintext),
    }
}

/// Whether a ciphertext of `len` bytes, tag included, is short enough to be
/// handed to the cipher. The ChaCha20 keystream ends after the longest
/// plaintext that can be sealed, so a longer ChaCha20-Poly1305 ciphertext
/// is none that was sealed; AES-256-GCM-SIV judges every length itself.
pub open spec fn can_be_opened(algorithm: EncryptionAlgorithm, len: nat) -> bool {
    match algorithm {
        EncryptionAlgorithm::Aes256GcmSiv => true,
        EncryptionAlgorithm::ChaCha20Poly1305 => len <= 0x3f_ffff_ff80 + 16,
    }
}

/// The plaintext that `algorithm` recovers from `ciphertext`, if the
/// ciphertext is short enough to be opened and the tag verifies.
pub open spec fn opened(
    algorithm: EncryptionAlgorithm,
    key: Seq<u8>,
    nonce: Seq<u8>,
    ciphertext: Seq<u8>,
) -> Option<Seq<u8>> {
    if !can_be_opened(algorithm, ciphertext.len()) {
        None
    } else {
        match algorithm {
            EncryptionAlgorithm::Aes256GcmSiv => aes256_gcm_siv_opened(key, nonce, ciphertext),
            EncryptionAlgorithm::ChaCha20Poly1305 => chacha20_poly1305_opened(
                key,
                nonce,
                ciphertext,
            ),
        }
    }
}

/// Bytes in a key of either cipher.
pub const KEY_SIZE: usize = 32;

/// Bytes in a nonce of either cipher.
pub const NONCE_SIZE: usize = 12;

/// Bytes in the authentication tag that either cipher appends.
pub const TAG_SIZE: usize = 16;

impl EncryptionAlgorithm {
    /// Bytes in a key.
    pub open spec fn spec_key_size(self) -> nat {
        32
    }

    /// Bytes in a nonce.
    pub open spec fn spec_nonce_size(self) -> nat {
        12
    }

    /// Bytes in the authentication tag appended to a ciphertext.
    pub open spec fn spec_tag_size(self) -> nat {
        16
    }

    /// The longest plaintext the cipher seals: two to the power of 36
    /// bytes for AES-256-GCM-SIV; for ChaCha20-Poly1305 the keystream that
    /// is left after the block that keys the tag, which is 64 bytes for
    /// each value of a 32-bit block counter but the first and the last.
    pub open spec fn spec_max_plaintext_len(self) -> nat {
        match self {
            EncryptionAlgorithm::Aes256GcmSiv => 0x10_0000_0000,
            EncryptionAlgorithm::ChaCha20Poly1305 => 0x3f_ffff_ff80,
        }
    }

    /// The canonical name, used for persistence and for selection by a user.
    pub open spec fn spec_name(self) -> Seq<char> {
        match self {
            EncryptionAlgorithm::Aes256GcmSiv => "Aes256GcmSiv"@,
            EncryptionAlgorithm::ChaCha20Poly1305 => "ChaCha20Poly1305"@,
        }
    }

    /// The algorithm that `name` is the canonical name of, if any.
    pub open spec fn spec_from_name(name: Seq<char>) -> Option<EncryptionAlgorithm> {
        if name == "Aes256GcmSiv"@ {
            Some(EncryptionAlgorithm::Aes256GcmSiv)
        } else if name == "ChaCha20Poly1305"@ {
            Some(EncryptionAlgorithm::ChaCha20Poly1305)
        } else {
            None
        }
    }

    /// Bytes in a key.
    pub fn key_size(&self) -> (n: usize)
        ensures
            n == self.spec_key_size(),
    {
        KEY_SIZE
    }

    /// Bytes in a nonce.
    pub fn nonce_size(&self) -> (n: usize)
        ensures
            n == self.spec_nonce_size(),
    {
        NONCE_SIZE
    }

    /// Bytes in the authentication tag appended to a ciphertext.
    pub fn tag_size(&self) -> (n: usize)
        ensures
            n == self.spec_tag_size(),
    {
        TAG_SIZE
    }

    /// Whether a plaintext of `len` bytes is short enough to be sealed.
    pub fn can_seal(&self, len: usize) -> (fits: bool)
        ensures
            fits == (len <= self.spec_max_plaintext_len()),
    {
        match self {
            EncryptionAlgorithm::Aes256GcmSiv => len as u64 <= 0x10_0000_0000,
            EncryptionAlgorithm::ChaCha20Poly1305 => len as u64 <= 0x3f_ffff_ff80,
        }
    }

    /// Whether a ciphertext of `len` bytes, tag included, is short enough
    /// to be handed to the cipher.
    pub fn can_open(&self, len: usize) -> (fits: bool)
        ensures
            fits == can_be_opened(*self, len as nat),
    {
        match self {
            EncryptionAlgorithm::Aes256GcmSiv => true,
            EncryptionAlgorithm::ChaCha20Poly1305 => len as u64 <= 0x3f_ffff_ff90,
        }
    }

    /// The canonical name as a string slice.
    pub fn name(&self) -> (s: &'static str)
        ensures
            s@ == self.spec_name(),
    {
        match self {
            EncryptionAlgorithm::Aes256GcmSiv => "Aes256GcmSiv",
            EncryptionAlgorithm::ChaCha20Poly1305 => "ChaCha20Poly1305",
        }
    }

    /// The canonical name as an owned string.
    pub fn to_string(&self) -> (s: String)
        ensures
            s@ == self.spec_name(),
    {
        text_of(self.name())
    }

    /// Looks an algorithm up by its canonical name.
    pub fn from_name(name: &str) -> (found: Option<EncryptionAlgorithm>)
        ensures
            found == Self::spec_from_name(name@),
    {
        if same_text(name, "Aes256GcmSiv") {
            Some(EncryptionAlgorithm::Aes256GcmSiv)
        } else if same_text(name, "ChaCha20Poly1305") {
            Some(EncryptionAlgorithm::ChaCha20Poly1305)
        } else {
            None
        }
    }

    /// The number that stands for the algorithm in a stored record.
    pub open spec fn spec_tag(self) -> u8 {
        match self {
            EncryptionAlgorithm::Aes256GcmSiv => 0,
            EncryptionAlgorithm::ChaCha20Poly1305 => 1,
        }
    }

    /// The algorithm that `tag` stands for, if any.
    pub open spec fn spec_from_tag(tag: u8) -> Option<EncryptionAlgorithm> {
        if tag == 0 {
            Some(EncryptionAlgorithm::Aes256GcmSiv)
        } else if tag == 1 {
            Some(EncryptionAlgorithm::ChaCha20Poly1305)
        } else {
            None
        }
    }

    /// The number that stands for the algorithm in a stored record.
    pub fn tag(&self) -> (tag: u8)
        ensures
            tag == self.spec_tag(),
    {
        match self {
            EncryptionAlgorithm::Aes256GcmSiv => 0,
            EncryptionAlgorithm::ChaCha20Poly1305 => 1,
        }
    }

    /// The algorithm that `tag` stands for, if any.
    pub fn from_tag(tag: u8) -> (found: Option<EncryptionAlgorithm>)
        ensures
            found == Self::spec_from_tag(tag),
    {
        if tag == 0 {
            Some(EncryptionAlgorithm::Aes256GcmSiv)
        } else if tag == 1 {
            Some(EncryptionAlgorithm::ChaCha20Poly1305)
        } else {
            None
        }
    }

    /// Every algorithm, once.
    pub fn variants() -> (all: Vec<EncryptionAlgorithm>)
        ensures
            all@ == seq![EncryptionAlgorithm::Aes256GcmSiv, EncryptionAlgorithm::ChaCha20Poly1305],
    {
        let mut all: Vec<EncryptionAlgorithm> = Vec::new();
        all.push(EncryptionAlgorithm::Aes256GcmSiv);
        all.push(EncryptionAlgorithm::ChaCha20Poly1305);
        all
    }

    /// Every algorithm is found again under its canonical name.
    pub proof fn lemma_name_round_trip(algorithm: EncryptionAlgorithm)
        ensures
            Self::spec_from_name(algorithm.spec_name()) == Some(algorithm),
    {
        reveal_strlit("Aes256GcmSiv");
        reveal_strlit("ChaCha20Poly1305");
        assert("Aes256GcmSiv"@.len() != "ChaCha20Poly1305"@.len());
    }
}

/// `KeyInit::new_from_slice` and `KeySizeUser::key_size` on
/// `aes_gcm_siv::Aes256GcmSiv`: a key is accepted if and only if it has 32
/// bytes, and a refusal comes with that size.
#[verifier::external_body]
fn aes256_gcm_siv_key_check(key: &[u8]) -> (checked: Result<(), usize>)
    ensures
        checked is Ok <==> key@.len() == 32,
        checked matches Err(required) ==> required == 32,
{
    aes_gcm_siv::Aes256GcmSiv::new_from_slice(key).map(|_| ()).map_err(
        |_| aes_gcm_siv::Aes256GcmSiv::key_size(),
    )
}

/// `KeyInit::new_from_slice` and `KeySizeUser::key_size` on
/// `chacha20poly1305::ChaCha20Poly1305`: a key is accepted if and only if it
/// has 32 bytes, and a refusal comes with that size.
#[verifier::external_body]
fn chacha20_poly1305_key_check(key: &[u8]) -> (checked: Result<(), usize>)
    ensures
        checked is Ok <==> key@.len() == 32,
        checked matches Err(required) ==> required == 32,
{
    chacha20poly1305::ChaCha20Poly1305::new_from_slice(key).map(|_| ()).map_err(
        |_| chacha20poly1305::ChaCha20Poly1305::key_size(),
    )
}

/// `Aead::encrypt` on an `aes_gcm_siv::Aes256GcmSiv` made from `key`: the
/// ciphertext is the plaintext's length plus a 16-byte tag long, and the
/// same cipher opens it to the plaintext again.
#[verifier::external_body]
fn aes256_gcm_siv_seal(key: &[u8], nonce: &[u8], plaintext: &[u8]) -> (ciphertext: Vec<u8>)
    requires
        key@.len() == 32,
        nonce@.len() == 12,
        plaintext@.len() <= 0x10_0000_0000,
    ensures
        ciphertext@ == aes256_gcm_siv_sealed(key@, nonce@, plaintext@),
        ciphertext@.len() == plaintext@.len() + 16,
        aes256_gcm_siv_opened(key@, nonce@, ciphertext@) == Some(plaintext@),
{
    let cipher = aes_gcm_siv::Aes256GcmSiv::new_from_slice(key).unwrap();
    cipher.encrypt(aes_gcm_siv::Nonce::from_slice(nonce), plaintext).unwrap()
}

/// `Aead::decrypt` on an `aes_gcm_siv::Aes256GcmSiv` made from `key`; an
/// error of the cipher comes back as `None`.
#[verifier::external_body]
fn aes256_gcm_siv_open(key: &[u8], nonce: &[u8], ciphertext: &[u8]) -> (plaintext: Option<Vec<u8>>)
    requires
        key@.len() == 32,
        nonce@.len() == 12,
    ensures
        plaintext is Some <==> aes256_gcm_siv_opened(key@, nonce@, ciphertext@) is Some,
        plaintext matches Some(p) ==> aes256_gcm_siv_opened(key@, nonce@, ciphertext@) == Some(p@),
{
    let cipher = aes_gcm_siv::Aes256GcmSiv::new_from_slice(key).unwrap();
    cipher.decrypt(aes_gcm_siv::Nonce::from_slice(nonce), ciphertext).ok()
}

/// `Aead::encrypt` on a `chacha20poly1305::ChaCha20Poly1305` made from
/// `key`: the ciphertext is the plaintext's length plus a 16-byte tag long,
/// and the same cipher opens it to the plaintext again. The plaintext is at
/// most 0x3fffffff80 bytes long: the crate stops the process where the
/// keystream ends before the plaintext does.
#[verifier::external_body]
fn chacha20_poly1305_seal(key: &[u8], nonce: &[u8], plaintext: &[u8]) -> (ciphertext: Vec<u8>)
    requires
        key@.len() == 32,
        nonce@.len() == 12,
        plaintext@.len() <= 0x3f_ffff_ff80,
    ensures
        ciphertext@ == chacha20_poly1305_sealed(key@, nonce@, plaintext@),
        ciphertext@.len() == plaintext@.len() + 16,
        chacha20_poly1305_opened(key@, nonce@, ciphertext@) == Some(plaintext@),
{
    let cipher = chacha20poly1305::ChaCha20Poly1305::new_from_slice(key).unwrap();
    cipher.encrypt(chacha20poly1305::Nonce::from_slice(nonce), plaintext).unwrap()
}

/// `Aead::decrypt` on a `chacha20poly1305::ChaCha20Poly1305` made from
/// `key`; an error of the cipher comes back as `None`. The ciphertext is at
/// most 0x3fffffff80 bytes and a 16-byte tag long: the crate stops the
/// process where the tag of a longer one verifies.
#[verifier::external_body]
fn chacha20_poly1305_open(key: &[u8], nonce: &[u8], ciphertext: &[u8]) -> (plaintext: Option<
    Vec<u8>,
>)
    requires
        key@.len() == 32,
        nonce@.len() == 12,
        ciphertext@.len() <= 0x3f_ffff_ff80 + 16,
    ensures
        plaintext is Some <==> chacha20_poly1305_opened(key@, nonce@, ciphertext@) is Some,
        plaintext matches Some(p) ==> chacha20_poly1305_opened(key@, nonce@, ciphertext@) == Some(
            p@,
        ),
{
    let cipher = chacha20poly1305::ChaCha20Poly1305::new_from_slice(key).unwrap();
    cipher.decrypt(chacha20poly1305::Nonce::from_slice(nonce), ciphertext).ok()
}

/// `RngCore::fill_bytes` on `rand::rngs::OsRng`: `len` bytes from the
/// operating system's random source. Nothing is claimed of the bytes; the
/// call stops the process where the source is out of order.
#[verifier::external_body]
pub(crate) fn os_random_bytes(len: usize) -> (bytes: Vec<u8>)
    ensures
        bytes@.len() == len,
{
    let mut bytes = vec![0u8; len];
    rand::rngs::OsRng.fill_bytes(&mut bytes);
    bytes
}

/// `Zeroize::zeroize` on a `Vec<u8>`: the bytes and the spare capacity are
/// overwritten with zeros and the vector is left empty.
#[verifier::external_body]
pub(crate) fn scrub(buffer: &mut Vec<u8>)
    ensures
        final(buffer)@ == Seq::<u8>::empty(),
{
    buffer.zeroize()
}

/// An encryption engine: an algorithm and the key it works under, both
/// fixed when the engine is made.
pub struct EncryptionStruct {
    algorithm: EncryptionAlgorithm,
    key: Vec<u8>,
}

impl EncryptionStruct {
    #[verifier::type_invariant]
    spec fn well_formed(self) -> bool {
        self.key@.len() == 32
    }

    /// The algorithm chosen at creation.
    pub closed spec fn spec_algorithm(&self) -> EncryptionAlgorithm {
        self.algorithm
    }

    /// The key given at creation.
    pub closed spec fn spec_key(&self) -> Seq<u8> {
        self.key@
    }

    /// An engine for `algorithm` under `key`, or `InvalidKeyLength` where
    /// the key does not have the algorithm's key size.
    pub fn new(algorithm: EncryptionAlgorithm, key: &[u8]) -> (made: Result<Self, EncryptionError>)
        ensures
            key@.len() == algorithm.spec_key_size() ==> made is Ok,
            made matches Ok(engine) ==> engine.spec_algorithm() == algorithm && engine.spec_key()
                == key@ && key@.len() == algorithm.spec_key_size(),
            made matches Err(error) ==> key@.len() != algorithm.spec_key_size() && error == (
            EncryptionError::InvalidKeyLength {
                provided: key.len(),
                required: algorithm.spec_key_size() as usize,
            }),
    {
        let checked = match algorithm {
            EncryptionAlgorithm::Aes256GcmSiv => aes256_gcm_siv_key_check(key),
            EncryptionAlgorithm::ChaCha20Poly1305 => chacha20_poly1305_key_check(key),
        };
        match checked {
            Ok(()) => Ok(Self { algorithm, key: bytes_of(key) }),
            Err(required) => Err(
                EncryptionError::InvalidKeyLength { provided: key.len(), required },
            ),
        }
    }

    /// The algorithm chosen at creation.
    pub fn algorithm(&self) -> (algorithm: EncryptionAlgorithm)
        ensures
            algorithm == self.spec_algorithm(),
    {
        self.algorithm
    }

    /// A nonce of the algorithm's size, drawn from the operating system.
    pub fn random_nonce(&self) -> (nonce: Vec<u8>)
        ensures
            nonce@.len() == self.spec_algorithm().spec_nonce_size(),
    {
        os_random_bytes(self.algorithm.nonce_size())
    }

    /// Seals `plain_data` under a nonce that the caller has drawn.
    pub(crate) fn encrypt_with_nonce(&self, nonce: &[u8], plain_data: &[u8]) -> (encrypted_data:
        Vec<u8>)
        requires
            nonce@.len() == self.spec_algorithm().spec_nonce_size(),
            plain_data@.len() <= self.spec_algorithm().spec_max_plaintext_len(),
        ensures
            encrypted_data@ == sealed(
                self.spec_algorithm(),
                self.spec_key(),
                nonce@,
                plain_data@,
            ),
            encrypted_data@.len() == plain_data@.len() + self.spec_algorithm().spec_tag_size(),
            opened(self.spec_algorithm(), self.spec_key(), nonce@, encrypted_data@) == Some(
                plain_data@,
            ),
    {
        proof {
            use_type_invariant(self);
        }
        match self.algorithm {
            EncryptionAlgorithm::Aes256GcmSiv => aes256_gcm_siv_seal(
                self.key.as_slice(),
                nonce,
                plain_data,
            ),
            EncryptionAlgorithm::ChaCha20Poly1305 => chacha20_poly1305_seal(
                self.key.as_slice(),
                nonce,
                plain_data,
            ),
        }
    }

    /// Seals `plain_data` under a fresh random nonce and returns the
    /// ciphertext, tag included, with that nonce.
    pub fn encrypt(&self, plain_data: &[u8]) -> (out: (Vec<u8>, Vec<u8>))
        requires
            plain_data@.len() <= self.spec_algorithm().spec_max_plaintext_len(),
        ensures
            out.1@.len() == self.spec_algorithm().spec_nonce_size(),
            out.0@ == sealed(self.spec_algorithm(), self.spec_key(), out.1@, plain_data@),
            out.0@.len() == plain_data@.len() + self.spec_algorithm().spec_tag_size(),
            opened(self.spec_algorithm(), self.spec_key(), out.1@, out.0@) == Some(plain_data@),
    {
        let nonce = self.random_nonce();
        let encrypted_data = self.encrypt_with_nonce(nonce.as_slice(), plain_data);
        (encrypted_data, nonce)
    }

    /// Opens `encrypted_data`: the plaintext where the nonce has the
    /// algorithm's size, the ciphertext is short enough to be opened and
    /// the tag verifies, `AuthenticationFailure` otherwise.
    pub fn decrypt(&self, encrypted_data: &[u8], nonce: &[u8]) -> (plain: Result<
        Vec<u8>,
        EncryptionError,
    >)
        ensures
            plain is Ok <==> nonce@.len() == self.spec_algorithm().spec_nonce_size() && opened(
                self.spec_algorithm(),
                self.spec_key(),
                nonce@,
                encrypted_data@,
            ) is Some,
            plain matches Ok(data) ==> opened(
                self.spec_algorithm(),
                self.spec_key(),
                nonce@,
                encrypted_data@,
            ) == Some(data@),
            plain matches Err(error) ==> error == EncryptionError::AuthenticationFailure,
    {
        proof {
            use_type_invariant(self);
        }
        if nonce.len() != self.algorithm.nonce_size() {
            return Err(EncryptionError::AuthenticationFailure);
        }
        if !self.algorithm.can_open(encrypted_data.len()) {
            return Err(EncryptionError::AuthenticationFailure);
        }
        let outcome = match self.algorithm {
            EncryptionAlgorithm::Aes256GcmSiv => aes256_gcm_siv_open(
                self.key.as_slice(),
                nonce,
                encrypted_data,
            ),
            EncryptionAlgorithm::ChaCha20Poly1305 => chacha20_poly1305_open(
                self.key.as_slice(),
                nonce,
                encrypted_data,
            ),
        };
        match outcome {
            Some(data) => Ok(data),
            None => Err(EncryptionError::AuthenticationFailure),
        }
    }

    /// Ends the engine's life and overwrites its copy of the key.
    pub fn dispose(self) {
        let mut key = self.key;
        scrub(&mut key);
    }
}

} // verus!
