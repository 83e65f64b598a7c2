//! Streaming digests over a selectable algorithm.
//!
//! A [`HashStruct`] absorbs bytes with [`HashStruct::update`] and hands out
//! the digest of everything absorbed with [`HashStruct::finalize`], which
//! also readies the engine for the next message. The SHA-2 compression
//! functions are the `sha2` crate's; what they compute is named by
//! [`sha256_digest`] and [`sha512_digest`] and not defined here.

use vstd::prelude::*;

use crate::text::{same_text, text_of};

verus! {

/// The digest algorithms an engine can be created for.
#[derive(Clone, Copy, Debug, PartialEq, Eq, Structural)]
pub enum HashAlgorithm {
    Sha256,
    Sha512,
}

/// The SHA-256 digest of `message`, as `sha2::Sha256` computes it.
pub uninterp spec fn sha256_digest(message: Seq<u8>) -> Seq<u8>;

/// The SHA-512 digest of `message`, as `sha2::Sha512` computes it.
pub uninterp spec fn sha512_digest(message: Seq<u8>) -> Seq<u8>;

/// The digest of `message` under `algorithm`.
pub open spec fn digest_of(algorithm: HashAlgorithm, message: Seq<u8>) -> Seq<u8> {
    match algorithm {
        HashAlgorithm::Sha256 => sha256_digest(message),
        HashAlgorithm::Sha512 => sha512_digest(message),
    }
}

impl HashAlgorithm {
    /// Number of bytes in a digest of this algorithm.
    pub open spec fn spec_digest_len(self) -> nat {
        match self {
            HashAlgorithm::Sha256 => 32,
            HashAlgorithm::Sha512 => 64,
        }
    }

    /// The canonical name, used for persistence and for selection by a user.
    pub open spec fn spec_name(self) -> Seq<char> {
        match self {
            HashAlgorithm::Sha256 => "Sha256"@,
            HashAlgorithm::Sha512 => "Sha512"@,
        }
    }

    /// The algorithm that `name` is the canonical name of, if any.
    pub open spec fn spec_from_name(name: Seq<char>) -> Option<HashAlgorithm> {
        if name == "Sha256"@ {
            Some(HashAlgorithm::Sha256)
        } else if name == "Sha512"@ {
            Some(HashAlgorithm::Sha512)
        } else {
            None
        }
    }

    /// Number of bytes in a digest of this algorithm.
    pub fn digest_len(&self) -> (n: usize)
        ensures
            n == self.spec_digest_len(),
    {
        match self {
            HashAlgorithm::Sha256 => 32,
            HashAlgorithm::Sha512 => 64,
        }
    }

    /// The canonical name as a string slice.
    pub fn name(&self) -> (s: &'static str)
        ensures
            s@ == self.spec_name(),
            s.is_ascii(),
    {
        proof {
            reveal_strlit("Sha256");
            reveal_strlit("Sha512");
        }
        match self {
            HashAlgorithm::Sha256 => "Sha256",
            HashAlgorithm::Sha512 => "Sha512",
        }
    }

    /// The canonical name as an owned string.
    pub fn to_string(&self) -> (s: String)
        ensures
            s@ == self.spec_name(),
    {
        text_of(self.name())
    }

    /// Looks an algorithm up by its canonical name.
    pub fn from_name(name: &str) -> (found: Option<HashAlgorithm>)
        ensures
            found == Self::spec_from_name(name@),
    {
        proof {
            reveal_strlit("Sha256");
            reveal_strlit("Sha512");
        }
        if same_text(name, "Sha256") {
            Some(HashAlgorithm::Sha256)
        } else if same_text(name, "Sha512") {
            Some(HashAlgorithm::Sha512)
        } else {
            None
        }
    }

    /// The number that stands for the algorithm in a stored record.
    pub open spec fn spec_tag(self) -> u8 {
        match self {
            HashAlgorithm::Sha256 => 0,
            HashAlgorithm::Sha512 => 1,
        }
    }

    /// The algorithm that `tag` stands for, if any.
    pub open spec fn spec_from_tag(tag: u8) -> Option<HashAlgorithm> {
        if tag == 0 {
            Some(HashAlgorithm::Sha256)
        } else if tag == 1 {
            Some(HashAlgorithm::Sha512)
        } else {
            None
        }
    }

    /// The number that stands for the algorithm in a stored record.
    pub fn tag(&self) -> (tag: u8)
        ensures
            tag == self.spec_tag(),
    {
        match self {
            HashAlgorithm::Sha256 => 0,
            HashAlgorithm::Sha512 => 1,
        }
    }

    /// The algorithm that `tag` stands for, if any.
    pub fn from_tag(tag: u8) -> (found: Option<HashAlgorithm>)
        ensures
            found == Self::spec_from_tag(tag),
    {
        if tag == 0 {
            Some(HashAlgorithm::Sha256)
        } else if tag == 1 {
            Some(HashAlgorithm::Sha512)
        } else {
            None
        }
    }

    /// Every algorithm, once.
    pub fn variants() -> (all: Vec<HashAlgorithm>)
        ensures
            all@ == seq![HashAlgorithm::Sha256, HashAlgorithm::Sha512],
    {
        let mut all: Vec<HashAlgorithm> = Vec::new();
        all.push(HashAlgorithm::Sha256);
        all.push(HashAlgorithm::Sha512);
        all
    }

    /// Every algorithm is found again under its canonical name.
    pub proof fn lemma_name_round_trip(algorithm: HashAlgorithm)
        ensures
            Self::spec_from_name(algorithm.spec_name()) == Some(algorithm),
    {
        reveal_strlit("Sha256");
        reveal_strlit("Sha512");
        assert("Sha256"@[5] != "Sha512"@[5]);
    }
}

/// A running SHA-256 computation: a `sha2::Sha256`, which holds the state
/// of the compression function and the bytes that do not fill a block yet.
/// It is started, fed and finished through the three functions below.
#[verifier::external_body]
pub struct Sha256Machine {
    inner: sha2::Sha256,
}

/// A running SHA-512 computation: a `sha2::Sha512`, which holds the state
/// of the compression function and the bytes that do not fill a block yet.
/// It is started, fed and finished through the three functions below.
#[verifier::external_body]
pub struct Sha512Machine {
    inner: sha2::Sha512,
}

/// The bytes a SHA-256 computation has absorbed since it was started or
/// last finished.
pub uninterp spec fn sha256_absorbed(machine: Sha256Machine) -> Seq<u8>;

/// The bytes a SHA-512 computation has absorbed since it was started or
/// last finished.
pub uninterp spec fn sha512_absorbed(machine: Sha512Machine) -> Seq<u8>;

/// `sha2::Sha256::default()`: a fresh computation that has absorbed nothing.
#[verifier::external_body]
fn sha256_start() -> (machine: Sha256Machine)
    ensures
        sha256_absorbed(machine) == Seq::<u8>::empty(),
{
    Sha256Machine { inner: <sha2::Sha256 as Default>::default() }
}

/// `digest::Update::update` on `sha2::Sha256`: `data` is absorbed after what
/// was absorbed before.
#[verifier::external_body]
fn sha256_absorb(machine: &mut Sha256Machine, data: &[u8])
    ensures
        sha256_absorbed(*final(machine)) == sha256_absorbed(*old(machine)) + data@,
{
    digest::Update::update(&mut machine.inner, data)
}

/// `digest::FixedOutputReset::finalize_fixed_reset` on `sha2::Sha256`: the
/// 32-byte digest of what was absorbed, after which nothing is absorbed.
#[verifier::external_body]
fn sha256_finish(machine: &mut Sha256Machine) -> (digest: Vec<u8>)
    ensures
        digest@ == sha256_digest(sha256_absorbed(*old(machine))),
        digest@.len() == 32,
        sha256_absorbed(*final(machine)) == Seq::<u8>::empty(),
{
    digest::FixedOutputReset::finalize_fixed_reset(&mut machine.inner).to_vec()
}

/// `sha2::Sha512::default()`: a fresh computation that has absorbed nothing.
#[verifier::external_body]
fn sha512_start() -> (machine: Sha512Machine)
    ensures
        sha512_absorbed(machine) == Seq::<u8>::empty(),
{
    Sha512Machine { inner: <sha2::Sha512 as Default>::default() }
}

/// `digest::Update::update` on `sha2::Sha512`: `data` is absorbed after what
/// was absorbed before.
#[verifier::external_body]
fn sha512_absorb(machine: &mut Sha512Machine, data: &[u8])
    ensures
        sha512_absorbed(*final(machine)) == sha512_absorbed(*old(machine)) + data@,
{
    digest::Update::update(&mut machine.inner, data)
}

/// `digest::FixedOutputReset::finalize_fixed_reset` on `sha2::Sha512`: the
/// 64-byte digest of what was absorbed, after which nothing is absorbed.
#[verifier::external_body]
fn sha512_finish(machine: &mut Sha512Machine) -> (digest: Vec<u8>)
    ensures
        digest@ == sha512_digest(sha512_absorbed(*old(machine))),
        digest@.len() == 64,
        sha512_absorbed(*final(machine)) == Seq::<u8>::empty(),
{
    digest::FixedOutputReset::finalize_fixed_reset(&mut machine.inner).to_vec()
}

enum HashMachine {
    Sha256(Sha256Machine),
    Sha512(Sha512Machine),
}

/// A digest engine: its algorithm is fixed when it is created, its running
/// state is the sequence of bytes absorbed since the last digest.
pub struct HashStruct {
    hash_machine: HashMachine,
}

impl HashStruct {
    /// The algorithm chosen at creation.
    pub closed spec fn spec_algorithm(&self) -> HashAlgorithm {
        match self.hash_machine {
            HashMachine::Sha256(_) => HashAlgorithm::Sha256,
            HashMachine::Sha512(_) => HashAlgorithm::Sha512,
        }
    }

    /// The bytes absorbed since creation or since the last digest, in order.
    pub closed spec fn absorbed(&self) -> Seq<u8> {
        match self.hash_machine {
            HashMachine::Sha256(machine) => sha256_absorbed(machine),
            HashMachine::Sha512(machine) => sha512_absorbed(machine),
        }
    }

    /// A fresh engine for `algorithm`.
    pub fn new(algorithm: HashAlgorithm) -> (engine: Self)
        ensures
            engine.spec_algorithm() == algorithm,
            engine.absorbed() == Seq::<u8>::empty(),
    {
        let hash_machine = match algorithm {
            HashAlgorithm::Sha256 => HashMachine::Sha256(sha256_start()),
            HashAlgorithm::Sha512 => HashMachine::Sha512(sha512_start()),
        };
        Self { hash_machine }
    }

    /// Absorbs `data` after everything absorbed so far.
    pub fn update(&mut self, data: &[u8])
        ensures
            final(self).absorbed() == old(self).absorbed() + data@,
            final(self).spec_algorithm() == old(self).spec_algorithm(),
    {
        match &mut self.hash_machine {
            HashMachine::Sha256(machine) => sha256_absorb(machine, data),
            HashMachine::Sha512(machine) => sha512_absorb(machine, data),
        }
    }

    /// The digest of everything absorbed; the engine then starts over.
    pub fn finalize(&mut self) -> (digest: Vec<u8>)
        ensures
            digest@ == digest_of(old(self).spec_algorithm(), old(self).absorbed()),
            digest@.len() == old(self).spec_algorithm().spec_digest_len(),
            final(self).absorbed() == Seq::<u8>::empty(),
            final(self).spec_algorithm() == old(self).spec_algorithm(),
    {
        match &mut self.hash_machine {
            HashMachine::Sha256(machine) => sha256_finish(machine),
            HashMachine::Sha512(machine) => sha512_finish(machine),
        }
    }

    /// The algorithm chosen at creation.
    pub fn algorithm(&self) -> (algorithm: HashAlgorithm)
        ensures
            algorithm == self.spec_algorithm(),
    {
        match &self.hash_machine {
            HashMachine::Sha256(_) => HashAlgorithm::Sha256,
            HashMachine::Sha512(_) => HashAlgorithm::Sha512,
        }
    }
}

} // verus!
