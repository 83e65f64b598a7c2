//! Argon2 key derivation: the parameter set, its validation and stored
//! form, and the hasher that a parameter set is frozen into.
//!
//! The `argon2` crate judges the cost parameters and derives the key
//! material; what it derives is named by [`argon2id_output`] and
//! [`argon2i_output`] and not defined here.

use vstd::prelude::*;

use super::wire::{decoded, encoded, lemma_round_trip, postcard_read, postcard_write};
use super::{
    rebuilt, unknown_option_text, DynPasswordHasher, KeyDerivationAlgorithm, KeyDerivationError,
    KeyDerivationFailure, PasswordHasherBuilder,
};
use crate::text::{decimal_string, decimal_text, joined, parse_u32, parsed_u32, same_text};

verus! {

/// Whether `memory_size`, in kibibytes, is within the range of Argon2.
pub open spec fn memory_size_accepted(memory_size: u32) -> bool {
    8 <= memory_size <= 0x0fff_ffff
}

/// Whether `iterations` is within the range of Argon2.
pub open spec fn iterations_accepted(iterations: u32) -> bool {
    1 <= iterations
}

/// Whether `parallelism` is within the range of Argon2.
pub open spec fn parallelism_accepted(parallelism: u32) -> bool {
    1 <= parallelism <= 0xff_ffff
}

/// Whether each of the three costs is within its range.
pub open spec fn costs_in_range(memory_size: u32, iterations: u32, parallelism: u32) -> bool {
    &&& memory_size_accepted(memory_size)
    &&& iterations_accepted(iterations)
    &&& parallelism_accepted(parallelism)
}

/// Whether the three costs are within their ranges and go together: every
/// lane needs eight kibibytes.
pub open spec fn costs_accepted(memory_size: u32, iterations: u32, parallelism: u32) -> bool {
    &&& costs_in_range(memory_size, iterations, parallelism)
    &&& memory_size >= 8 * parallelism
}

/// Why Argon2 refuses a memory size.
pub open spec fn memory_size_reason(memory_size: u32) -> Seq<char> {
    if memory_size < 8 {
        "memory cost is too small"@
    } else {
        "memory cost is too large"@
    }
}

/// Why Argon2 refuses a number of iterations.
pub open spec fn iterations_reason(iterations: u32) -> Seq<char> {
    "time cost is too small"@
}

/// Why Argon2 refuses a degree of parallelism.
pub open spec fn parallelism_reason(parallelism: u32) -> Seq<char> {
    if parallelism < 1 {
        "not enough threads"@
    } else {
        "too many threads"@
    }
}

/// Why Argon2 refuses three costs: the first cost out of its range, or too
/// little memory for the lanes.
pub open spec fn costs_reason(memory_size: u32, iterations: u32, parallelism: u32) -> Seq<char> {
    if !memory_size_accepted(memory_size) {
        memory_size_reason(memory_size)
    } else if !iterations_accepted(iterations) {
        iterations_reason(iterations)
    } else if !parallelism_accepted(parallelism) {
        parallelism_reason(parallelism)
    } else {
        "memory cost is too small"@
    }
}

/// Whether Argon2 derives `len` bytes from a password and a salt of the
/// given lengths.
pub open spec fn fill_accepted(password_len: nat, salt_len: nat, len: nat) -> bool {
    &&& 4 <= len <= 0xffff_ffff
    &&& password_len <= 0xffff_ffff
    &&& 8 <= salt_len <= 0xffff_ffff
}

/// Why Argon2 refuses to derive: the first of the lengths out of its range.
pub open spec fn fill_reason(password_len: nat, salt_len: nat, len: nat) -> Seq<char> {
    if len < 4 {
        "output is too short"@
    } else if len > 0xffff_ffff {
        "output is too long"@
    } else if password_len > 0xffff_ffff {
        "password is too long"@
    } else if salt_len < 8 {
        "salt is too short"@
    } else {
        "salt is too long"@
    }
}

/// The `len` bytes that Argon2id, version 0x13, derives from `password` and
/// `salt` at the given costs, as the `argon2` crate computes them.
pub uninterp spec fn argon2id_output(
    memory_size: u32,
    iterations: u32,
    parallelism: u32,
    password: Seq<u8>,
    salt: Seq<u8>,
    len: nat,
) -> Seq<u8>;

/// The `len` bytes that Argon2i, version 0x13, derives from `password` and
/// `salt` at the given costs, as the `argon2` crate computes them.
pub uninterp spec fn argon2i_output(
    memory_size: u32,
    iterations: u32,
    parallelism: u32,
    password: Seq<u8>,
    salt: Seq<u8>,
    len: nat,
) -> Seq<u8>;

/// `argon2::ParamsBuilder::m_cost` on a new builder: a memory size from 8 to
/// 0x0fffffff is accepted, any other refused with the crate's words.
#[verifier::external_body]
fn argon2_memory_size_check(memory_size: u32) -> (checked: Result<(), String>)
    ensures
        checked is Ok <==> memory_size_accepted(memory_size),
        checked matches Err(reason) ==> reason@ == memory_size_reason(memory_size),
{
    argon2::ParamsBuilder::new().m_cost(memory_size).map(|_| ()).map_err(|e| e.to_string())
}

/// `argon2::ParamsBuilder::t_cost` on a new builder: zero iterations are
/// refused with the crate's words, any other number accepted.
#[verifier::external_body]
fn argon2_iterations_check(iterations: u32) -> (checked: Result<(), String>)
    ensures
        checked is Ok <==> iterations_accepted(iterations),
        checked matches Err(reason) ==> reason@ == iterations_reason(iterations),
{
    argon2::ParamsBuilder::new().t_cost(iterations).map(|_| ()).map_err(|e| e.to_string())
}

/// `argon2::ParamsBuilder::p_cost` on a new builder: a parallelism from 1 to
/// 0xffffff is accepted, any other refused with the crate's words.
#[verifier::external_body]
fn argon2_parallelism_check(parallelism: u32) -> (checked: Result<(), String>)
    ensures
        checked is Ok <==> parallelism_accepted(parallelism),
        checked matches Err(reason) ==> reason@ == parallelism_reason(parallelism),
{
    argon2::ParamsBuilder::new().p_cost(parallelism).map(|_| ()).map_err(|e| e.to_string())
}

/// `argon2::Params::new` without an output length: the costs are accepted
/// where each is in its range and the memory size is at least eight times
/// the parallelism, and refused with the crate's words otherwise.
#[verifier::external_body]
fn argon2_costs_check(memory_size: u32, iterations: u32, parallelism: u32) -> (checked: Result<
    (),
    String,
>)
    ensures
        checked is Ok <==> costs_accepted(memory_size, iterations, parallelism),
        checked matches Err(reason) ==> reason@ == costs_reason(
            memory_size,
            iterations,
            parallelism,
        ),
{
    argon2::Params::new(memory_size, iterations, parallelism, None).map(|_| ()).map_err(
        |e| e.to_string(),
    )
}

/// The defaults of `argon2::Params`: memory size, iterations, parallelism
/// and output length.
#[verifier::external_body]
fn argon2_defaults() -> (defaults: (u32, u32, u32, usize))
    ensures
        defaults.0 == 4096,
        defaults.1 == 3,
        defaults.2 == 1,
        defaults.3 == 32,
{
    (
        argon2::Params::DEFAULT_M_COST,
        argon2::Params::DEFAULT_T_COST,
        argon2::Params::DEFAULT_P_COST,
        argon2::Params::DEFAULT_OUTPUT_LEN,
    )
}

/// `argon2::Argon2::hash_password_into` for Argon2id, version 0x13, without
/// a secret: `out` is filled where the lengths are in range and left alone,
/// with the crate's words as the reason, where one is not. The crate takes
/// `memory_size` kibibytes from the allocator for the time of the call.
#[verifier::external_body]
fn argon2id_fill(
    memory_size: u32,
    iterations: u32,
    parallelism: u32,
    password: &[u8],
    salt: &[u8],
    out: &mut [u8],
) -> (outcome: Result<(), String>)
    requires
        costs_accepted(memory_size, iterations, parallelism),
    ensures
        outcome is Ok <==> fill_accepted(password@.len(), salt@.len(), old(out)@.len()),
        outcome is Ok ==> final(out)@ == argon2id_output(
            memory_size,
            iterations,
            parallelism,
            password@,
            salt@,
            old(out)@.len(),
        ),
        outcome matches Err(reason) ==> final(out)@ == old(out)@ && reason@ == fill_reason(
            password@.len(),
            salt@.len(),
            old(out)@.len(),
        ),
        final(out)@.len() == old(out)@.len(),
{
    let params = argon2::Params::new(memory_size, iterations, parallelism, None).unwrap();
    argon2::Argon2::new(argon2::Algorithm::Argon2id, argon2::Version::V0x13, params)
        .hash_password_into(password, salt, out)
        .map_err(|e| e.to_string())
}

/// `argon2::Argon2::hash_password_into` for Argon2i, version 0x13, without
/// a secret: `out` is filled where the lengths are in range and left alone,
/// with the crate's words as the reason, where one is not. The crate takes
/// `memory_size` kibibytes from the allocator for the time of the call.
#[verifier::external_body]
fn argon2i_fill(
    memory_size: u32,
    iterations: u32,
    parallelism: u32,
    password: &[u8],
    salt: &[u8],
    out: &mut [u8],
) -> (outcome: Result<(), String>)
    requires
        costs_accepted(memory_size, iterations, parallelism),
    ensures
        outcome is Ok <==> fill_accepted(password@.len(), salt@.len(), old(out)@.len()),
        outcome is Ok ==> final(out)@ == argon2i_output(
            memory_size,
            iterations,
            parallelism,
            password@,
            salt@,
            old(out)@.len(),
        ),
        outcome matches Err(reason) ==> final(out)@ == old(out)@ && reason@ == fill_reason(
            password@.len(),
            salt@.len(),
            old(out)@.len(),
        ),
        final(out)@.len() == old(out)@.len(),
{
    let params = argon2::Params::new(memory_size, iterations, parallelism, None).unwrap();
    argon2::Argon2::new(argon2::Algorithm::Argon2i, argon2::Version::V0x13, params)
        .hash_password_into(password, salt, out)
        .map_err(|e| e.to_string())
}

/// The three tunable parameters of Argon2.
#[derive(Clone, Copy, Debug, PartialEq, Eq, Structural)]
pub enum Knob {
    MemorySize,
    Iterations,
    Parallelism,
}

impl Knob {
    /// The name under which the parameter is listed, read and set.
    pub open spec fn spec_name(self) -> Seq<char> {
        match self {
            Knob::MemorySize => "Memory size"@,
            Knob::Iterations => "Iterations"@,
            Knob::Parallelism => "Parallelism"@,
        }
    }

    /// What the parameter is called inside a sentence.
    pub open spec fn spec_label(self) -> Seq<char> {
        match self {
            Knob::MemorySize => "memory size"@,
            Knob::Iterations => "iterations"@,
            Knob::Parallelism => "parallelism"@,
        }
    }

    /// Whether Argon2 accepts `value` for the parameter.
    pub open spec fn accepts(self, value: u32) -> bool {
        match self {
            Knob::MemorySize => memory_size_accepted(value),
            Knob::Iterations => iterations_accepted(value),
            Knob::Parallelism => parallelism_accepted(value),
        }
    }

    /// Why Argon2 refuses `value` for the parameter.
    pub open spec fn reason(self, value: u32) -> Seq<char> {
        match self {
            Knob::MemorySize => memory_size_reason(value),
            Knob::Iterations => iterations_reason(value),
            Knob::Parallelism => parallelism_reason(value),
        }
    }

    /// The parameter that `option` is the name of, letter for letter.
    pub open spec fn named(option: Seq<char>) -> Option<Knob> {
        if option == Knob::MemorySize.spec_name() {
            Some(Knob::MemorySize)
        } else if option == Knob::Iterations.spec_name() {
            Some(Knob::Iterations)
        } else if option == Knob::Parallelism.spec_name() {
            Some(Knob::Parallelism)
        } else {
            None
        }
    }

    /// The parameter that `option` names, if any.
    pub fn find(option: &str) -> (found: Option<Knob>)
        ensures
            found == Self::named(option@),
    {
        if same_text(option, "Memory size") {
            Some(Knob::MemorySize)
        } else if same_text(option, "Iterations") {
            Some(Knob::Iterations)
        } else if same_text(option, "Parallelism") {
            Some(Knob::Parallelism)
        } else {
            None
        }
    }

    /// What the parameter is called inside a sentence.
    pub fn label(&self) -> (label: &'static str)
        ensures
            label@ == self.spec_label(),
    {
        match self {
            Knob::MemorySize => "memory size",
            Knob::Iterations => "iterations",
            Knob::Parallelism => "parallelism",
        }
    }

    /// Asks Argon2 whether it accepts `value` for the parameter; a refusal
    /// comes with the reason.
    pub fn check(&self, value: u32) -> (checked: Result<(), String>)
        ensures
            checked is Ok <==> self.accepts(value),
            checked matches Err(reason) ==> reason@ == self.reason(value),
    {
        match self {
            Knob::MemorySize => argon2_memory_size_check(value),
            Knob::Iterations => argon2_iterations_check(value),
            Knob::Parallelism => argon2_parallelism_check(value),
        }
    }
}

/// The text of the error for a value that Argon2 refuses.
pub open spec fn rejected_text(knob: Knob, value: u32, reason: Seq<char>) -> Seq<char> {
    "Value of "@ + knob.spec_label() + " ("@ + decimal_text(value as nat)
        + ") was not accepted. Error = "@ + reason
}

/// The text of the error for a value that is no number.
pub open spec fn unparsable_text(value: Seq<char>) -> Seq<char> {
    "Unable to parse "@ + value + " into unsigned 32-bit number."@
}

fn rejected(knob: Knob, value: u32, reason: String) -> (error: KeyDerivationError)
    ensures
        error@ == KeyDerivationFailure::InvalidValue(rejected_text(knob, value, reason@)),
{
    let number = decimal_string(value);
    let mut description = joined("Value of ", knob.label(), " (");
    description.append(number.as_str());
    description.append(") was not accepted. Error = ");
    description.append(reason.as_str());
    KeyDerivationError::InvalidValue { description }
}

fn unknown_option(option: &str) -> (error: KeyDerivationError)
    ensures
        error@ == KeyDerivationFailure::InvalidOptions(unknown_option_text(option@)),
{
    KeyDerivationError::InvalidOptions { description: joined("Field ", option, " was not found.") }
}

/// The parameters of Argon2 under configuration. Each cost is within the
/// range of Argon2 at all times; whether the costs go together is judged
/// when a hasher is built.
#[derive(Clone, Copy, Debug)]
pub struct Argon2Options {
    argon_version: KeyDerivationAlgorithm,
    memory_size: u32,
    iterations: u32,
    parallelism: u32,
}

impl Argon2Options {
    #[verifier::type_invariant]
    spec fn well_formed(self) -> bool {
        costs_in_range(self.memory_size, self.iterations, self.parallelism)
    }

    /// Whether each cost is within the range of Argon2, as it is for every
    /// parameter set that this module hands out.
    pub closed spec fn in_range(&self) -> bool {
        costs_in_range(self.memory_size, self.iterations, self.parallelism)
    }

    /// The variant of Argon2.
    pub closed spec fn spec_algorithm(&self) -> KeyDerivationAlgorithm {
        self.argon_version
    }

    /// Memory size in kibibytes.
    pub closed spec fn spec_memory_size(&self) -> u32 {
        self.memory_size
    }

    /// Number of passes.
    pub closed spec fn spec_iterations(&self) -> u32 {
        self.iterations
    }

    /// Number of lanes.
    pub closed spec fn spec_parallelism(&self) -> u32 {
        self.parallelism
    }

    /// The parameter set of the given values.
    pub closed spec fn of(
        argon_version: KeyDerivationAlgorithm,
        memory_size: u32,
        iterations: u32,
        parallelism: u32,
    ) -> Argon2Options {
        Argon2Options { argon_version, memory_size, iterations, parallelism }
    }

    /// The parameter set with the defaults of Argon2.
    pub open spec fn spec_new(argon_version: KeyDerivationAlgorithm) -> Argon2Options {
        Self::of(argon_version, 4096, 3, 1)
    }

    /// The value that the parameter `knob` has.
    pub open spec fn spec_value(&self, knob: Knob) -> u32 {
        match knob {
            Knob::MemorySize => self.spec_memory_size(),
            Knob::Iterations => self.spec_iterations(),
            Knob::Parallelism => self.spec_parallelism(),
        }
    }

    /// The parameter set with `knob` at `value`.
    pub open spec fn with_value(&self, knob: Knob, value: u32) -> Argon2Options {
        match knob {
            Knob::MemorySize => Self::of(
                self.spec_algorithm(),
                value,
                self.spec_iterations(),
                self.spec_parallelism(),
            ),
            Knob::Iterations => Self::of(
                self.spec_algorithm(),
                self.spec_memory_size(),
                value,
                self.spec_parallelism(),
            ),
            Knob::Parallelism => Self::of(
                self.spec_algorithm(),
                self.spec_memory_size(),
                self.spec_iterations(),
                value,
            ),
        }
    }

    /// The four numbers that the parameter set is stored as.
    pub open spec fn spec_fields(&self) -> (u32, u32, u32, u32) {
        (
            self.spec_memory_size(),
            self.spec_iterations(),
            self.spec_parallelism(),
            self.spec_algorithm().spec_tag(),
        )
    }

    /// What [`Self::of`] makes is what it was given, and two parameter sets
    /// of the same values are the same.
    pub proof fn lemma_of(
        argon_version: KeyDerivationAlgorithm,
        memory_size: u32,
        iterations: u32,
        parallelism: u32,
    )
        ensures
            Self::of(argon_version, memory_size, iterations, parallelism).spec_algorithm()
                == argon_version,
            Self::of(argon_version, memory_size, iterations, parallelism).spec_memory_size()
                == memory_size,
            Self::of(argon_version, memory_size, iterations, parallelism).spec_iterations()
                == iterations,
            Self::of(argon_version, memory_size, iterations, parallelism).spec_parallelism()
                == parallelism,
            Self::of(argon_version, memory_size, iterations, parallelism).in_range()
                == costs_in_range(memory_size, iterations, parallelism),
    {
    }

    /// The parameter set with the defaults of Argon2.
    pub fn new(argon_version: KeyDerivationAlgorithm) -> (options: Self)
        ensures
            options == Self::spec_new(argon_version),
            options.in_range(),
    {
        let defaults = argon2_defaults();
        Self {
            argon_version,
            memory_size: defaults.0,
            iterations: defaults.1,
            parallelism: defaults.2,
        }
    }

    /// The variant of Argon2.
    pub fn algorithm(&self) -> (algorithm: KeyDerivationAlgorithm)
        ensures
            algorithm == self.spec_algorithm(),
    {
        self.argon_version
    }

    /// Memory size in kibibytes.
    pub fn memory_size(&self) -> (memory_size: u32)
        ensures
            memory_size == self.spec_memory_size(),
            memory_size_accepted(memory_size),
    {
        proof {
            use_type_invariant(self);
        }
        self.memory_size
    }

    /// Number of passes.
    pub fn iterations(&self) -> (iterations: u32)
        ensures
            iterations == self.spec_iterations(),
            iterations_accepted(iterations),
    {
        proof {
            use_type_invariant(self);
        }
        self.iterations
    }

    /// Number of lanes.
    pub fn parallelism(&self) -> (parallelism: u32)
        ensures
            parallelism == self.spec_parallelism(),
            parallelism_accepted(parallelism),
    {
        proof {
            use_type_invariant(self);
        }
        self.parallelism
    }

    /// The stored form of the parameter set.
    pub fn to_bytes(&self) -> (bytes: Vec<u8>)
        ensures
            bytes@ == encoded(self.spec_fields()),
    {
        postcard_write(
            (self.memory_size, self.iterations, self.parallelism, self.argon_version.tag()),
        )
    }
}

/// What is in force after the parameter `option` of `options` is set to the
/// text `value`, or the failure that the attempt ends in.
pub open spec fn option_set(options: Argon2Options, option: Seq<char>, value: Seq<char>) -> Result<
    Argon2Options,
    KeyDerivationFailure,
> {
    match Knob::named(option) {
        None => Err(KeyDerivationFailure::InvalidOptions(unknown_option_text(option))),
        Some(knob) => match parsed_u32(value) {
            None => Err(KeyDerivationFailure::InvalidValue(unparsable_text(value))),
            Some(number) => if knob.accepts(number) {
                Ok(options.with_value(knob, number))
            } else {
                Err(
                    KeyDerivationFailure::InvalidValue(
                        rejected_text(knob, number, knob.reason(number)),
                    ),
                )
            },
        },
    }
}

/// The algorithm and costs that `bytes` are the stored form of, or the
/// failure that reading them ends in: `InvalidConfigFormat` where the bytes
/// are not four numbers the last of which is an algorithm's tag,
/// `InvalidValue` for the first cost out of its range.
pub open spec fn stored_options(bytes: Seq<u8>) -> Result<Argon2Options, KeyDerivationFailure> {
    match decoded(bytes) {
        None => Err(KeyDerivationFailure::InvalidConfigFormat),
        Some((memory_size, iterations, parallelism, tag)) => match KeyDerivationAlgorithm::spec_from_tag(
            tag,
        ) {
            None => Err(KeyDerivationFailure::InvalidConfigFormat),
            Some(algorithm) => if !memory_size_accepted(memory_size) {
                Err(
                    KeyDerivationFailure::InvalidValue(
                        rejected_text(
                            Knob::MemorySize,
                            memory_size,
                            memory_size_reason(memory_size),
                        ),
                    ),
                )
            } else if !iterations_accepted(iterations) {
                Err(
                    KeyDerivationFailure::InvalidValue(
                        rejected_text(Knob::Iterations, iterations, iterations_reason(iterations)),
                    ),
                )
            } else if !parallelism_accepted(parallelism) {
                Err(
                    KeyDerivationFailure::InvalidValue(
                        rejected_text(
                            Knob::Parallelism,
                            parallelism,
                            parallelism_reason(parallelism),
                        ),
                    ),
                )
            } else {
                Ok(Argon2Options::of(algorithm, memory_size, iterations, parallelism))
            },
        },
    }
}

/// The parameter set that a hasher built from `bytes` has in force, or the
/// failure that building ends in: that of reading the bytes, or
/// `InvalidValue` where the costs do not go together.
pub open spec fn stored_hasher(bytes: Seq<u8>) -> Result<Argon2Options, KeyDerivationFailure> {
    match stored_options(bytes) {
        Err(failure) => Err(failure),
        Ok(options) => if options.spec_memory_size() >= 8 * options.spec_parallelism() {
            Ok(options)
        } else {
            Err(
                KeyDerivationFailure::InvalidValue(
                    costs_reason(
                        options.spec_memory_size(),
                        options.spec_iterations(),
                        options.spec_parallelism(),
                    ),
                ),
            )
        },
    }
}

/// Reads a parameter set from its stored form.
pub fn deserialize_options(bytes: &[u8]) -> (read: Result<Argon2Options, KeyDerivationError>)
    ensures
        read matches Ok(options) ==> stored_options(bytes@) == Ok::<
            Argon2Options,
            KeyDerivationFailure,
        >(options) && options.in_range(),
        read matches Err(error) ==> stored_options(bytes@) == Err::<
            Argon2Options,
            KeyDerivationFailure,
        >(error@),
{
    let (memory_size, iterations, parallelism, tag) = match postcard_read(bytes) {
        Some(fields) => fields,
        None => {
            return Err(KeyDerivationError::InvalidConfigFormat);
        },
    };
    let argon_version = match KeyDerivationAlgorithm::from_tag(tag) {
        Some(algorithm) => algorithm,
        None => {
            return Err(KeyDerivationError::InvalidConfigFormat);
        },
    };
    match argon2_memory_size_check(memory_size) {
        Ok(()) => {},
        Err(reason) => {
            return Err(rejected(Knob::MemorySize, memory_size, reason));
        },
    }
    match argon2_iterations_check(iterations) {
        Ok(()) => {},
        Err(reason) => {
            return Err(rejected(Knob::Iterations, iterations, reason));
        },
    }
    match argon2_parallelism_check(parallelism) {
        Ok(()) => {},
        Err(reason) => {
            return Err(rejected(Knob::Parallelism, parallelism, reason));
        },
    }
    Ok(Argon2Options { argon_version, memory_size, iterations, parallelism })
}

impl PasswordHasherBuilder for Argon2Options {
    type Hasher = Argon2Wrapper;

    open spec fn spec_options(&self) -> Seq<(Seq<char>, Seq<char>)> {
        seq![
            ("Memory size"@, "Determines RAM usage of algorithm"@),
            (
                "Iterations"@,
                "Sets how many passes algorithm does - the more iterations it does, the more time it takes to save/load database"@,
            ),
            ("Parallelism"@, "Configures parallelism of the algorithm"@),
        ]
    }

    open spec fn has_option(&self, option: Seq<char>) -> bool {
        Knob::named(option) is Some
    }

    open spec fn option_text(&self, option: Seq<char>) -> Seq<char> {
        match Knob::named(option) {
            Some(knob) => decimal_text(self.spec_value(knob) as nat),
            None => Seq::empty(),
        }
    }

    open spec fn takes(&self, option: Seq<char>, value: Seq<char>) -> bool {
        option_set(*self, option, value) is Ok
    }

    open spec fn with_option(&self, option: Seq<char>, value: Seq<char>) -> Self {
        match option_set(*self, option, value) {
            Ok(options) => options,
            Err(_) => *self,
        }
    }

    open spec fn buildable(&self) -> bool {
        self.spec_memory_size() >= 8 * self.spec_parallelism()
    }

    open spec fn spec_option_bytes(&self) -> Seq<u8> {
        encoded(self.spec_fields())
    }

    fn build(&self) -> (built: Result<Argon2Wrapper, KeyDerivationError>)
        ensures
            built matches Ok(hasher) ==> hasher.spec_params() == *self,
            built matches Err(error) ==> error@ == KeyDerivationFailure::InvalidValue(
                costs_reason(
                    self.spec_memory_size(),
                    self.spec_iterations(),
                    self.spec_parallelism(),
                ),
            ),
    {
        proof {
            use_type_invariant(self);
        }
        match argon2_costs_check(self.memory_size, self.iterations, self.parallelism) {
            Ok(()) => Ok(Argon2Wrapper::new(*self)),
            Err(description) => Err(KeyDerivationError::InvalidValue { description }),
        }
    }

    fn options(&self) -> (listed: Vec<(&'static str, &'static str)>) {
        let mut listed: Vec<(&'static str, &'static str)> = Vec::new();
        listed.push(("Memory size", "Determines RAM usage of algorithm"));
        listed.push(
            (
                "Iterations",
                "Sets how many passes algorithm does - the more iterations it does, the more time it takes to save/load database",
            ),
        );
        listed.push(("Parallelism", "Configures parallelism of the algorithm"));
        listed
    }

    fn set_option(&mut self, option: &str, value: &str) -> (outcome: Result<
        (),
        KeyDerivationError,
    >)
        ensures
            outcome is Ok ==> option_set(*old(self), option@, value@) == Ok::<
                Argon2Options,
                KeyDerivationFailure,
            >(*final(self)),
            outcome matches Err(error) ==> option_set(*old(self), option@, value@) == Err::<
                Argon2Options,
                KeyDerivationFailure,
            >(error@),
            final(self).in_range(),
    {
        proof {
            use_type_invariant(&*self);
        }
        let knob = match Knob::find(option) {
            Some(knob) => knob,
            None => {
                return Err(unknown_option(option));
            },
        };
        let number = match parse_u32(value) {
            Some(number) => number,
            None => {
                return Err(
                    KeyDerivationError::InvalidValue {
                        description: joined(
                            "Unable to parse ",
                            value,
                            " into unsigned 32-bit number.",
                        ),
                    },
                );
            },
        };
        match knob.check(number) {
            Ok(()) => {},
            Err(reason) => {
                return Err(rejected(knob, number, reason));
            },
        }
        match knob {
            Knob::MemorySize => {
                self.memory_size = number;
            },
            Knob::Iterations => {
                self.iterations = number;
            },
            Knob::Parallelism => {
                self.parallelism = number;
            },
        }
        Ok(())
    }

    fn get_option(&self, option: &str) -> (outcome: Result<String, KeyDerivationError>) {
        match Knob::find(option) {
            Some(Knob::MemorySize) => Ok(decimal_string(self.memory_size)),
            Some(Knob::Iterations) => Ok(decimal_string(self.iterations)),
            Some(Knob::Parallelism) => Ok(decimal_string(self.parallelism)),
            None => Err(unknown_option(option)),
        }
    }
}

/// The `len` bytes of key material that Argon2 derives from `password` and
/// `salt` under `options`.
pub open spec fn key_material(
    options: Argon2Options,
    password: Seq<u8>,
    salt: Seq<u8>,
    len: nat,
) -> Seq<u8> {
    match options.spec_algorithm() {
        KeyDerivationAlgorithm::Argon2id => argon2id_output(
            options.spec_memory_size(),
            options.spec_iterations(),
            options.spec_parallelism(),
            password,
            salt,
            len,
        ),
        KeyDerivationAlgorithm::Argon2i => argon2i_output(
            options.spec_memory_size(),
            options.spec_iterations(),
            options.spec_parallelism(),
            password,
            salt,
            len,
        ),
    }
}

/// A key derivation of Argon2 with its parameters frozen: the costs are in
/// range and go together.
pub struct Argon2Wrapper {
    params: Argon2Options,
}

impl Argon2Wrapper {
    #[verifier::type_invariant]
    spec fn well_formed(self) -> bool {
        costs_accepted(
            self.params.memory_size,
            self.params.iterations,
            self.params.parallelism,
        )
    }

    /// The parameters in force.
    pub closed spec fn spec_params(&self) -> Argon2Options {
        self.params
    }

    fn new(options: Argon2Options) -> (hasher: Self)
        requires
            costs_accepted(options.memory_size, options.iterations, options.parallelism),
        ensures
            hasher.spec_params() == options,
    {
        Self { params: options }
    }

    /// The parameters in force.
    pub fn params(&self) -> (params: Argon2Options)
        ensures
            params == self.spec_params(),
            params.in_range(),
            params.buildable(),
    {
        proof {
            use_type_invariant(self);
        }
        self.params
    }
}

impl DynPasswordHasher for Argon2Wrapper {
    open spec fn spec_hash_size(&self) -> nat {
        32
    }

    open spec fn spec_algorithm(&self) -> KeyDerivationAlgorithm {
        self.spec_params().spec_algorithm()
    }

    open spec fn spec_option_bytes(&self) -> Seq<u8> {
        encoded(self.spec_params().spec_fields())
    }

    open spec fn accepts(&self, password_len: nat, salt_len: nat, len: nat) -> bool {
        fill_accepted(password_len, salt_len, len)
    }

    open spec fn refusal(&self, password_len: nat, salt_len: nat, len: nat) -> Seq<char> {
        fill_reason(password_len, salt_len, len)
    }

    open spec fn derived(&self, password: Seq<u8>, salt: Seq<u8>, len: nat) -> Seq<u8> {
        key_material(self.spec_params(), password, salt, len)
    }

    open spec fn frozen(&self) -> bool {
        self.spec_params().in_range() && self.spec_params().buildable()
    }

    proof fn lemma_rebuilt(&self) {
        lemma_rebuilt_hasher(*self);
    }

    fn hash_size(&self) -> (size: usize) {
        argon2_defaults().3
    }

    fn hash_password_into(&self, password: &[u8], salt: &[u8], hash_place: &mut [u8]) -> (outcome:
        Result<(), KeyDerivationError>)
    {
        proof {
            use_type_invariant(self);
        }
        let filled = match self.params.argon_version {
            KeyDerivationAlgorithm::Argon2id => argon2id_fill(
                self.params.memory_size,
                self.params.iterations,
                self.params.parallelism,
                password,
                salt,
                hash_place,
            ),
            KeyDerivationAlgorithm::Argon2i => argon2i_fill(
                self.params.memory_size,
                self.params.iterations,
                self.params.parallelism,
                password,
                salt,
                hash_place,
            ),
        };
        match filled {
            Ok(()) => Ok(()),
            Err(description) => Err(KeyDerivationError::HashingError { description }),
        }
    }

    fn option_bytes(&self) -> (bytes: Vec<u8>) {
        self.params.to_bytes()
    }

    fn algorithm(&self) -> (algorithm: KeyDerivationAlgorithm) {
        proof {
            use_type_invariant(self);
        }
        self.params.argon_version
    }
}

/// The Argon2id entry of the algorithm registry.
pub struct Argon2id;

/// The Argon2i entry of the algorithm registry.
pub struct Argon2i;

/// Builds the hasher of `algorithm` whose parameters `bytes` are the stored
/// form of; stored parameters of another algorithm are an `InvalidValue`.
fn build_stored(algorithm: KeyDerivationAlgorithm, bytes: &[u8]) -> (built: Result<
    Argon2Wrapper,
    KeyDerivationError,
>)
    ensures
        built matches Ok(hasher) ==> rebuilt(algorithm, bytes@) == Ok::<
            Argon2Options,
            KeyDerivationFailure,
        >(hasher.spec_params()),
        built matches Err(error) ==> rebuilt(algorithm, bytes@) == Err::<
            Argon2Options,
            KeyDerivationFailure,
        >(error@),
{
    let options = match deserialize_options(bytes) {
        Ok(options) => options,
        Err(error) => {
            return Err(error);
        },
    };
    let hasher = match options.build() {
        Ok(hasher) => hasher,
        Err(error) => {
            return Err(error);
        },
    };
    let stored = options.algorithm();
    if stored == algorithm {
        Ok(hasher)
    } else {
        let mut description = joined("Stored parameters are those of ", stored.name(), ", not of ");
        description.append(algorithm.name());
        Err(KeyDerivationError::InvalidValue { description })
    }
}

impl Argon2id {
    /// A parameter set for Argon2id with the defaults of Argon2.
    pub fn options_builder() -> (builder: Argon2Options)
        ensures
            builder == Argon2Options::spec_new(KeyDerivationAlgorithm::Argon2id),
            builder.in_range(),
    {
        Argon2Options::new(KeyDerivationAlgorithm::Argon2id)
    }

    /// Builds the Argon2id hasher whose parameters `options` are the stored
    /// form of. Stored parameters of Argon2i are an `InvalidValue`.
    pub fn build(options: &[u8]) -> (built: Result<Argon2Wrapper, KeyDerivationError>)
        ensures
            built matches Ok(hasher) ==> rebuilt(KeyDerivationAlgorithm::Argon2id, options@) == Ok::<
                Argon2Options,
                KeyDerivationFailure,
            >(hasher.spec_params()),
            built matches Err(error) ==> rebuilt(KeyDerivationAlgorithm::Argon2id, options@)
                == Err::<Argon2Options, KeyDerivationFailure>(error@),
    {
        build_stored(KeyDerivationAlgorithm::Argon2id, options)
    }
}

impl Argon2i {
    /// A parameter set for Argon2i with the defaults of Argon2.
    pub fn options_builder() -> (builder: Argon2Options)
        ensures
            builder == Argon2Options::spec_new(KeyDerivationAlgorithm::Argon2i),
            builder.in_range(),
    {
        Argon2Options::new(KeyDerivationAlgorithm::Argon2i)
    }

    /// Builds the Argon2i hasher whose parameters `options` are the stored
    /// form of. Stored parameters of Argon2id are an `InvalidValue`.
    pub fn build(options: &[u8]) -> (built: Result<Argon2Wrapper, KeyDerivationError>)
        ensures
            built matches Ok(hasher) ==> rebuilt(KeyDerivationAlgorithm::Argon2i, options@) == Ok::<
                Argon2Options,
                KeyDerivationFailure,
            >(hasher.spec_params()),
            built matches Err(error) ==> rebuilt(KeyDerivationAlgorithm::Argon2i, options@)
                == Err::<Argon2Options, KeyDerivationFailure>(error@),
    {
        build_stored(KeyDerivationAlgorithm::Argon2i, options)
    }
}

/// The names that a parameter set knows are the names that it lists, no
/// more and no fewer.
pub proof fn lemma_known_names_are_listed(options: Argon2Options, option: Seq<char>)
    ensures
        options.has_option(option) <==> exists|i: int|
            0 <= i < options.spec_options().len() && (#[trigger] options.spec_options()[i]).0
                == option,
{
    let listed = options.spec_options();
    assert(listed[0].0 == Knob::MemorySize.spec_name());
    assert(listed[1].0 == Knob::Iterations.spec_name());
    assert(listed[2].0 == Knob::Parallelism.spec_name());
}

/// A parameter set whose costs are in range and go together is read back
/// from its stored form as it is, whatever follows the stored form.
pub proof fn lemma_parameters_round_trip(options: Argon2Options, rest: Seq<u8>)
    requires
        options.in_range(),
        options.buildable(),
    ensures
        stored_options(options.spec_option_bytes() + rest) == Ok::<
            Argon2Options,
            KeyDerivationFailure,
        >(options),
        stored_hasher(options.spec_option_bytes() + rest) == Ok::<
            Argon2Options,
            KeyDerivationFailure,
        >(options),
{
    lemma_round_trip(options.spec_fields(), rest);
    KeyDerivationAlgorithm::lemma_name_round_trip(options.spec_algorithm());
}

/// A hasher is rebuilt from its stored parameters with the same parameters
/// in force, by the entry of either variant and by the registry under its
/// own algorithm.
pub proof fn lemma_rebuilt_hasher(hasher: Argon2Wrapper)
    requires
        hasher.spec_params().in_range(),
        hasher.spec_params().buildable(),
    ensures
        stored_hasher(hasher.spec_option_bytes()) == Ok::<Argon2Options, KeyDerivationFailure>(
            hasher.spec_params(),
        ),
        rebuilt(hasher.spec_algorithm(), hasher.spec_option_bytes()) == Ok::<
            Argon2Options,
            KeyDerivationFailure,
        >(hasher.spec_params()),
{
    let options = hasher.spec_params();
    lemma_parameters_round_trip(options, Seq::<u8>::empty());
    assert(options.spec_option_bytes() + Seq::<u8>::empty() =~= options.spec_option_bytes());
}

} // verus!
