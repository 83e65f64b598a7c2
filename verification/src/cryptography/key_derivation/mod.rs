//! Password-based key derivation with a parameter set that can be
//! inspected, changed by name, stored and rebuilt.
//!
//! Configuring and deriving are kept apart. A [`PasswordHasherBuilder`]
//! holds tunable parameters that are read and set by name, so that one
//! settings screen serves every algorithm. Building freezes them into a
//! [`DynPasswordHasher`], which derives key material and can write its
//! parameters down; an algorithm's `build` makes an equal hasher from those
//! bytes alone.

pub mod argon;
pub mod wire;

use vstd::prelude::*;

use crate::bytes::zeroed;
use crate::text::{same_text, text_of};
use argon::{
    fill_accepted, fill_reason, key_material, stored_hasher, Argon2Options, Argon2Wrapper, Argon2i,
    Argon2id,
};

verus! {

/// What can go wrong while parameters are set or a key is derived.
#[derive(Debug)]
pub enum KeyDerivationError {
    /// The derivation itself refused its input.
    HashingError { description: String },
    /// No parameter has the given name.
    InvalidOptions { description: String },
    /// A value is no number, is outside the accepted range, or does not go
    /// together with the other values.
    InvalidValue { description: String },
    /// Stored parameters cannot be read.
    InvalidConfigFormat,
}

/// A [`KeyDerivationError`] with the characters of its description.
pub enum KeyDerivationFailure {
    HashingError(Seq<char>),
    InvalidOptions(Seq<char>),
    InvalidValue(Seq<char>),
    InvalidConfigFormat,
}

impl View for KeyDerivationError {
    type V = KeyDerivationFailure;

    open spec fn view(&self) -> KeyDerivationFailure {
        match self {
            KeyDerivationError::HashingError { description } => KeyDerivationFailure::HashingError(
                description@,
            ),
            KeyDerivationError::InvalidOptions {
                description,
            } => KeyDerivationFailure::InvalidOptions(description@),
            KeyDerivationError::InvalidValue { description } => KeyDerivationFailure::InvalidValue(
                description@,
            ),
            KeyDerivationError::InvalidConfigFormat => KeyDerivationFailure::InvalidConfigFormat,
        }
    }
}

impl KeyDerivationFailure {
    /// The text shown for this failure.
    pub open spec fn text(self) -> Seq<char> {
        match self {
            KeyDerivationFailure::HashingError(description) => description,
            KeyDerivationFailure::InvalidOptions(description) => description,
            KeyDerivationFailure::InvalidValue(description) => description,
            KeyDerivationFailure::InvalidConfigFormat => "Stored parameters cannot be read."@,
        }
    }
}

impl KeyDerivationError {
    /// The text shown for this error.
    pub fn to_string(&self) -> (text: String)
        ensures
            text@ == self@.text(),
    {
        match self {
            KeyDerivationError::HashingError { description } => description.clone(),
            KeyDerivationError::InvalidOptions { description } => description.clone(),
            KeyDerivationError::InvalidValue { description } => description.clone(),
            KeyDerivationError::InvalidConfigFormat => text_of("Stored parameters cannot be read."),
        }
    }
}

/// The text of the error for a name that is no algorithm's.
pub open spec fn unknown_algorithm_text(name: Seq<char>) -> Seq<char> {
    name + " does not represent KeyDerivationAlgorithm enum."@
}

/// The key derivation algorithms. Their order is the order of their tags in
/// stored parameters.
#[derive(Clone, Copy, Debug, PartialEq, Eq, Structural)]
pub enum KeyDerivationAlgorithm {
    Argon2id,
    Argon2i,
}

impl KeyDerivationAlgorithm {
    /// The canonical name, used for persistence and for selection by a user.
    pub open spec fn spec_name(self) -> Seq<char> {
        match self {
            KeyDerivationAlgorithm::Argon2id => "Argon2id"@,
            KeyDerivationAlgorithm::Argon2i => "Argon2i"@,
        }
    }

    /// The algorithm that `name` is the canonical name of, if any.
    pub open spec fn spec_from_name(name: Seq<char>) -> Option<KeyDerivationAlgorithm> {
        if name == "Argon2id"@ {
            Some(KeyDerivationAlgorithm::Argon2id)
        } else if name == "Argon2i"@ {
            Some(KeyDerivationAlgorithm::Argon2i)
        } else {
            None
        }
    }

    /// The number that stands for the algorithm in stored parameters.
    pub open spec fn spec_tag(self) -> u32 {
        match self {
            KeyDerivationAlgorithm::Argon2id => 0,
            KeyDerivationAlgorithm::Argon2i => 1,
        }
    }

    /// The algorithm that `tag` stands for, if any.
    pub open spec fn spec_from_tag(tag: u32) -> Option<KeyDerivationAlgorithm> {
        if tag == 0 {
            Some(KeyDerivationAlgorithm::Argon2id)
        } else if tag == 1 {
            Some(KeyDerivationAlgorithm::Argon2i)
        } else {
            None
        }
    }

    /// The canonical name as a string slice.
    pub fn name(&self) -> (s: &'static str)
        ensures
            s@ == self.spec_name(),
    {
        match self {
            KeyDerivationAlgorithm::Argon2id => "Argon2id",
            KeyDerivationAlgorithm::Argon2i => "Argon2i",
        }
    }

    /// The canonical name as an owned string.
    pub fn to_string(&self) -> (s: String)
        ensures
            s@ == self.spec_name(),
    {
        text_of(self.name())
    }

    /// Looks an algorithm up by its canonical name; any other text is an
    /// `InvalidValue`.
    pub fn from_name(name: &str) -> (found: Result<KeyDerivationAlgorithm, KeyDerivationError>)
        ensures
            found matches Ok(algorithm) ==> Self::spec_from_name(name@) == Some(algorithm),
            found matches Err(error) ==> Self::spec_from_name(name@) is None && error@
                == KeyDerivationFailure::InvalidValue(unknown_algorithm_text(name@)),
    {
        if same_text(name, "Argon2id") {
            Ok(KeyDerivationAlgorithm::Argon2id)
        } else if same_text(name, "Argon2i") {
            Ok(KeyDerivationAlgorithm::Argon2i)
        } else {
            let mut description = text_of(name);
            description.append(" does not represent KeyDerivationAlgorithm enum.");
            Err(KeyDerivationError::InvalidValue { description })
        }
    }

    /// The number that stands for the algorithm in stored parameters.
    pub fn tag(&self) -> (tag: u32)
        ensures
            tag == self.spec_tag(),
    {
        match self {
            KeyDerivationAlgorithm::Argon2id => 0,
            KeyDerivationAlgorithm::Argon2i => 1,
        }
    }

    /// The algorithm that `tag` stands for, if any.
    pub fn from_tag(tag: u32) -> (found: Option<KeyDerivationAlgorithm>)
        ensures
            found == Self::spec_from_tag(tag),
    {
        if tag == 0 {
            Some(KeyDerivationAlgorithm::Argon2id)
        } else if tag == 1 {
            Some(KeyDerivationAlgorithm::Argon2i)
        } else {
            None
        }
    }

    /// Every algorithm, once, in the order of the tags.
    pub fn variants() -> (all: Vec<KeyDerivationAlgorithm>)
        ensures
            all@ == seq![KeyDerivationAlgorithm::Argon2id, KeyDerivationAlgorithm::Argon2i],
    {
        let mut all: Vec<KeyDerivationAlgorithm> = Vec::new();
        all.push(KeyDerivationAlgorithm::Argon2id);
        all.push(KeyDerivationAlgorithm::Argon2i);
        all
    }

    /// Every algorithm is found again under its canonical name and under
    /// its tag.
    pub proof fn lemma_name_round_trip(algorithm: KeyDerivationAlgorithm)
        ensures
            Self::spec_from_name(algorithm.spec_name()) == Some(algorithm),
            Self::spec_from_tag(algorithm.spec_tag()) == Some(algorithm),
    {
        reveal_strlit("Argon2id");
        reveal_strlit("Argon2i");
        assert("Argon2id"@.len() != "Argon2i"@.len());
    }
}

impl std::str::FromStr for KeyDerivationAlgorithm {
    type Err = KeyDerivationError;

    /// Reads an algorithm from its canonical name, as [`Self::from_name`]
    /// does.
    fn from_str(s: &str) -> (found: Result<Self, Self::Err>)
        ensures
            found matches Ok(algorithm) ==> Self::spec_from_name(s@) == Some(algorithm),
            found matches Err(error) ==> Self::spec_from_name(s@) is None && error@
                == KeyDerivationFailure::InvalidValue(unknown_algorithm_text(s@)),
    {
        Self::from_name(s)
    }
}

/// A key derivation with its parameters frozen.
pub trait DynPasswordHasher {
    /// The length of the key material that [`Self::hash_password`] yields.
    spec fn spec_hash_size(&self) -> nat;

    /// The algorithm in use.
    spec fn spec_algorithm(&self) -> KeyDerivationAlgorithm;

    /// The stored form of the parameters in force.
    spec fn spec_option_bytes(&self) -> Seq<u8>;

    /// Whether key material of `len` bytes can be derived from a password
    /// and a salt of the given lengths.
    spec fn accepts(&self, password_len: nat, salt_len: nat, len: nat) -> bool;

    /// Why key material of `len` bytes cannot be derived from a password and
    /// a salt of the given lengths, where it cannot.
    spec fn refusal(&self, password_len: nat, salt_len: nat, len: nat) -> Seq<char>;

    /// The `len` bytes of key material derived from `password` and `salt`.
    spec fn derived(&self, password: Seq<u8>, salt: Seq<u8>, len: nat) -> Seq<u8>;

    /// What holds of every hasher that there is: its parameters are such
    /// as its algorithm accepts.
    spec fn frozen(&self) -> bool;

    /// The registry rebuilds a hasher from its stored parameters: the
    /// hasher rebuilt under the same algorithm derives the same key material
    /// from the same password and salt, of the same lengths.
    proof fn lemma_rebuilt(&self)
        requires
            self.frozen(),
        ensures
            rebuilt(self.spec_algorithm(), self.spec_option_bytes()) matches Ok(options) && (forall|
                password: Seq<u8>,
                salt: Seq<u8>,
                len: nat,
            |
                key_material(options, password, salt, len) == #[trigger] self.derived(
                    password,
                    salt,
                    len,
                )),
            forall|password_len: nat, salt_len: nat, len: nat| #[trigger]
                self.accepts(password_len, salt_len, len) == fill_accepted(
                    password_len,
                    salt_len,
                    len,
                ),
            forall|password_len: nat, salt_len: nat, len: nat| #[trigger]
                self.refusal(password_len, salt_len, len) == fill_reason(
                    password_len,
                    salt_len,
                    len,
                ),
            self.spec_hash_size() == 32,
    ;

    /// The length of the key material that [`Self::hash_password`] yields.
    fn hash_size(&self) -> (size: usize)
        ensures
            size == self.spec_hash_size(),
    ;

    /// Fills `hash_place` with key material derived from `password` and
    /// `salt`, or leaves it as it is and reports a `HashingError`.
    fn hash_password_into(&self, password: &[u8], salt: &[u8], hash_place: &mut [u8]) -> (outcome:
        Result<(), KeyDerivationError>)
        ensures
            outcome is Ok <==> self.accepts(
                password@.len(),
                salt@.len(),
                old(hash_place)@.len(),
            ),
            outcome is Ok ==> final(hash_place)@ == self.derived(
                password@,
                salt@,
                old(hash_place)@.len(),
            ),
            outcome matches Err(error) ==> error@ == KeyDerivationFailure::HashingError(
                self.refusal(password@.len(), salt@.len(), old(hash_place)@.len()),
            ) && final(hash_place)@ == old(hash_place)@,
            final(hash_place)@.len() == old(hash_place)@.len(),
    ;

    /// Key material of [`Self::hash_size`] bytes derived from `password`
    /// and `salt`.
    fn hash_password(&self, password: &[u8], salt: &[u8]) -> (outcome: Result<
        Vec<u8>,
        KeyDerivationError,
    >)
        ensures
            outcome is Ok <==> self.accepts(password@.len(), salt@.len(), self.spec_hash_size()),
            outcome matches Ok(hash) ==> hash@ == self.derived(
                password@,
                salt@,
                self.spec_hash_size(),
            ) && hash@.len() == self.spec_hash_size(),
            outcome matches Err(error) ==> error@ == KeyDerivationFailure::HashingError(
                self.refusal(password@.len(), salt@.len(), self.spec_hash_size()),
            ),
    {
        let mut hash = zeroed(self.hash_size());
        match self.hash_password_into(password, salt, hash.as_mut_slice()) {
            Ok(()) => Ok(hash),
            Err(error) => Err(error),
        }
    }

    /// The stored form of the parameters in force.
    fn option_bytes(&self) -> (bytes: Vec<u8>)
        ensures
            bytes@ == self.spec_option_bytes(),
    ;

    /// The algorithm in use.
    fn algorithm(&self) -> (algorithm: KeyDerivationAlgorithm)
        ensures
            algorithm == self.spec_algorithm(),
            self.frozen(),
    ;
}

/// The text of the error for a name that is no parameter's.
pub open spec fn unknown_option_text(option: Seq<char>) -> Seq<char> {
    "Field "@ + option + " was not found."@
}

/// A parameter set under configuration: its parameters are listed, read
/// and set by name, and frozen by [`Self::build`].
pub trait PasswordHasherBuilder: Sized {
    /// What [`Self::build`] makes.
    type Hasher: DynPasswordHasher;

    /// The parameters, each with its name and a description for a user.
    spec fn spec_options(&self) -> Seq<(Seq<char>, Seq<char>)>;

    /// Whether `option` names one of the parameters.
    spec fn has_option(&self, option: Seq<char>) -> bool;

    /// The text of the value that the parameter `option` has.
    spec fn option_text(&self, option: Seq<char>) -> Seq<char>;

    /// Whether `value` is a text that the parameter `option` can be set to.
    spec fn takes(&self, option: Seq<char>, value: Seq<char>) -> bool;

    /// The parameter set with `option` set to `value`.
    spec fn with_option(&self, option: Seq<char>, value: Seq<char>) -> Self;

    /// Whether the values go together, so that a hasher can be built.
    spec fn buildable(&self) -> bool;

    /// The stored form of the parameters as they stand.
    spec fn spec_option_bytes(&self) -> Seq<u8>;

    /// Freezes the parameters into a hasher, or reports an `InvalidValue`
    /// where they do not go together.
    fn build(&self) -> (built: Result<Self::Hasher, KeyDerivationError>)
        ensures
            built is Ok <==> self.buildable(),
            built matches Ok(hasher) ==> hasher.spec_option_bytes() == self.spec_option_bytes(),
            built matches Err(error) ==> error@ is InvalidValue,
    ;

    /// The parameters, each with its name and a description for a user.
    fn options(&self) -> (listed: Vec<(&'static str, &'static str)>)
        ensures
            listed@.len() == self.spec_options().len(),
            forall|i: int|
                0 <= i < listed@.len() ==> (#[trigger] listed@[i]).0@ == self.spec_options()[i].0
                    && listed@[i].1@ == self.spec_options()[i].1,
    ;

    /// Sets the parameter `option` to `value`. An unknown name is an
    /// `InvalidOptions`, a value that the parameter does not take an
    /// `InvalidValue`; either leaves the parameters as they are.
    fn set_option(&mut self, option: &str, value: &str) -> (outcome: Result<
        (),
        KeyDerivationError,
    >)
        ensures
            outcome is Ok <==> old(self).has_option(option@) && old(self).takes(option@, value@),
            outcome is Ok ==> *final(self) == old(self).with_option(option@, value@),
            outcome matches Err(error) ==> *final(self) == *old(self) && if old(self).has_option(
                option@,
            ) {
                error@ is InvalidValue
            } else {
                error@ == KeyDerivationFailure::InvalidOptions(unknown_option_text(option@))
            },
    ;

    /// The text of the value that the parameter `option` has, or an
    /// `InvalidOptions` for an unknown name.
    fn get_option(&self, option: &str) -> (outcome: Result<String, KeyDerivationError>)
        ensures
            outcome is Ok <==> self.has_option(option@),
            outcome matches Ok(text) ==> text@ == self.option_text(option@),
            outcome matches Err(error) ==> error@ == KeyDerivationFailure::InvalidOptions(
                unknown_option_text(option@),
            ),
    ;
}

/// The text of the error for stored parameters of another algorithm than
/// the one they are stored for.
pub open spec fn other_algorithm_text(
    stored: KeyDerivationAlgorithm,
    wanted: KeyDerivationAlgorithm,
) -> Seq<char> {
    "Stored parameters are those of "@ + stored.spec_name() + ", not of "@ + wanted.spec_name()
}

/// The parameters in force in the hasher that `algorithm` rebuilds from
/// `bytes`, or the failure that rebuilding ends in: that of building from
/// the bytes, or `InvalidValue` where they are another algorithm's.
pub open spec fn rebuilt(algorithm: KeyDerivationAlgorithm, bytes: Seq<u8>) -> Result<
    Argon2Options,
    KeyDerivationFailure,
> {
    match stored_hasher(bytes) {
        Err(failure) => Err(failure),
        Ok(options) => if options.spec_algorithm() == algorithm {
            Ok(options)
        } else {
            Err(
                KeyDerivationFailure::InvalidValue(
                    other_algorithm_text(options.spec_algorithm(), algorithm),
                ),
            )
        },
    }
}

impl KeyDerivationAlgorithm {
    /// A parameter set for this algorithm with the algorithm's defaults.
    pub fn builder(&self) -> (builder: Argon2Options)
        ensures
            builder == Argon2Options::spec_new(*self),
            builder.in_range(),
    {
        match self {
            KeyDerivationAlgorithm::Argon2id => Argon2id::options_builder(),
            KeyDerivationAlgorithm::Argon2i => Argon2i::options_builder(),
        }
    }

    /// Rebuilds the hasher of this algorithm from stored parameters.
    pub fn build(&self, options: &[u8]) -> (built: Result<Argon2Wrapper, KeyDerivationError>)
        ensures
            built matches Ok(hasher) ==> rebuilt(*self, options@) == Ok::<
                Argon2Options,
                KeyDerivationFailure,
            >(hasher.spec_params()),
            built matches Err(error) ==> rebuilt(*self, options@) == Err::<
                Argon2Options,
                KeyDerivationFailure,
            >(error@),
    {
        match self {
            KeyDerivationAlgorithm::Argon2id => Argon2id::build(options),
            KeyDerivationAlgorithm::Argon2i => Argon2i::build(options),
        }
    }
}

} // verus!
