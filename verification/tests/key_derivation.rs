use rustypass::cryptography::key_derivation::argon::{
    deserialize_options, Argon2Options, Argon2Wrapper, Argon2i, Argon2id, Knob,
};
use rustypass::cryptography::{
    DynPasswordHasher, KeyDerivationAlgorithm, KeyDerivationError, PasswordHasherBuilder,
};

fn options(
    algorithm: KeyDerivationAlgorithm,
    memory_size: &str,
    iterations: &str,
    parallelism: &str,
) -> Argon2Options {
    let mut options = algorithm.builder();
    options.set_option("Memory size", memory_size).unwrap();
    options.set_option("Iterations", iterations).unwrap();
    options.set_option("Parallelism", parallelism).unwrap();
    options
}

fn small(algorithm: KeyDerivationAlgorithm) -> Argon2Wrapper {
    options(algorithm, "16", "1", "2").build().unwrap()
}

#[test]
fn algorithm_enum_display_from_string() {
    for item in KeyDerivationAlgorithm::variants() {
        assert!(item.to_string().parse::<KeyDerivationAlgorithm>().is_ok());
    }
}

#[test]
fn test_config_serialization() {
    let mut params = argon2::ParamsBuilder::default();
    params.t_cost(123).unwrap();
    params.m_cost(567).unwrap();
    params.p_cost(2).unwrap();

    let config = options(KeyDerivationAlgorithm::Argon2i, "567", "123", "2");

    let bytes = config.to_bytes();

    let options = deserialize_options(&bytes).unwrap();
    assert_eq!(options.algorithm(), KeyDerivationAlgorithm::Argon2i);
    assert_eq!(
        argon2::Params::new(
            options.memory_size(),
            options.iterations(),
            options.parallelism(),
            None
        )
        .unwrap(),
        params.params().unwrap()
    );
    assert_eq!(options.memory_size(), 567);
    assert_eq!(options.iterations(), 123);
    assert_eq!(options.parallelism(), 2);
}

#[test]
fn key_derivation_algorithm_names_and_tags_round_trip() {
    assert_eq!(KeyDerivationAlgorithm::Argon2id.to_string(), "Argon2id");
    assert_eq!(KeyDerivationAlgorithm::Argon2i.to_string(), "Argon2i");
    for algorithm in KeyDerivationAlgorithm::variants() {
        assert_eq!(KeyDerivationAlgorithm::from_name(algorithm.name()).unwrap(), algorithm);
        assert_eq!(algorithm.to_string().parse::<KeyDerivationAlgorithm>().unwrap(), algorithm);
        assert_eq!(KeyDerivationAlgorithm::from_tag(algorithm.tag()), Some(algorithm));
    }
    assert_eq!(KeyDerivationAlgorithm::Argon2id.tag(), 0);
    assert_eq!(KeyDerivationAlgorithm::Argon2i.tag(), 1);
    assert_eq!(KeyDerivationAlgorithm::from_tag(2), None);
}

#[test]
fn an_unknown_algorithm_name_is_an_invalid_value() {
    match "Argon2d".parse::<KeyDerivationAlgorithm>() {
        Err(KeyDerivationError::InvalidValue { description }) => {
            assert_eq!(description, "Argon2d does not represent KeyDerivationAlgorithm enum.")
        }
        other => panic!("{:?}", other),
    }
    assert!(matches!(
        KeyDerivationAlgorithm::from_name("argon2id"),
        Err(KeyDerivationError::InvalidValue { .. })
    ));
}

#[test]
fn the_builder_starts_with_the_defaults_of_argon2() {
    for algorithm in KeyDerivationAlgorithm::variants() {
        let builder = algorithm.builder();
        assert_eq!(builder.algorithm(), algorithm);
        assert_eq!(builder.memory_size(), 4096);
        assert_eq!(builder.iterations(), 3);
        assert_eq!(builder.parallelism(), 1);
        assert_eq!(builder.get_option("Memory size").unwrap(), "4096");
        assert_eq!(builder.get_option("Iterations").unwrap(), "3");
        assert_eq!(builder.get_option("Parallelism").unwrap(), "1");
    }
    assert_eq!(Argon2id::options_builder().algorithm(), KeyDerivationAlgorithm::Argon2id);
    assert_eq!(Argon2i::options_builder().algorithm(), KeyDerivationAlgorithm::Argon2i);
    assert_eq!(argon2::Params::DEFAULT_M_COST, 4096);
    assert_eq!(argon2::Params::DEFAULT_T_COST, 3);
    assert_eq!(argon2::Params::DEFAULT_P_COST, 1);
}

#[test]
fn the_options_are_listed_with_their_descriptions() {
    let listed = KeyDerivationAlgorithm::Argon2id.builder().options();
    assert_eq!(
        listed,
        vec![
            ("Memory size", "Determines RAM usage of algorithm"),
            (
                "Iterations",
                "Sets how many passes algorithm does - the more iterations it does, the more time it takes to save/load database"
            ),
            ("Parallelism", "Configures parallelism of the algorithm"),
        ]
    );
    let builder = KeyDerivationAlgorithm::Argon2id.builder();
    for (name, _) in listed {
        assert!(builder.get_option(name).is_ok());
    }
}

#[test]
fn options_are_set_and_read_by_name() {
    let mut builder = KeyDerivationAlgorithm::Argon2i.builder();
    builder.set_option("Memory size", "567").unwrap();
    builder.set_option("Iterations", "123").unwrap();
    builder.set_option("Parallelism", "+2").unwrap();
    assert_eq!(builder.get_option("Memory size").unwrap(), "567");
    assert_eq!(builder.get_option("Iterations").unwrap(), "123");
    assert_eq!(builder.get_option("Parallelism").unwrap(), "2");
    assert_eq!(builder.memory_size(), 567);
    assert_eq!(builder.iterations(), 123);
    assert_eq!(builder.parallelism(), 2);
    assert_eq!(builder.algorithm(), KeyDerivationAlgorithm::Argon2i);
}

#[test]
fn only_the_listed_names_are_options() {
    let mut builder = KeyDerivationAlgorithm::Argon2id.builder();
    for name in [
        "ITERATIONS",
        "iterations",
        "memory size",
        "Memory Size",
        "PARALLELISM",
        "parallelism",
        "Iterations ",
        " Iterations",
        "Memory",
        "",
    ] {
        match builder.set_option(name, "1") {
            Err(KeyDerivationError::InvalidOptions { description }) => {
                assert_eq!(description, format!("Field {} was not found.", name))
            }
            other => panic!("{:?}", other),
        }
        assert!(matches!(
            builder.get_option(name),
            Err(KeyDerivationError::InvalidOptions { .. })
        ));
    }
    for (name, _) in builder.options() {
        assert!(builder.set_option(name, "16").is_ok());
        assert_eq!(builder.get_option(name).unwrap(), "16");
    }
    assert_eq!(builder.iterations(), 16);
}

#[test]
fn option_validation() {
    let mut builder = KeyDerivationAlgorithm::Argon2id.builder();
    assert!(matches!(
        builder.set_option("Iterations", "-1"),
        Err(KeyDerivationError::InvalidValue { .. })
    ));
    assert!(matches!(
        builder.set_option("Iterations", "not_a_number"),
        Err(KeyDerivationError::InvalidValue { .. })
    ));
    assert!(matches!(
        builder.set_option("Nonexistent", "1"),
        Err(KeyDerivationError::InvalidOptions { .. })
    ));
    assert!(matches!(
        builder.get_option("Nonexistent"),
        Err(KeyDerivationError::InvalidOptions { .. })
    ));
    assert_eq!(builder.memory_size(), 4096);
    assert_eq!(builder.iterations(), 3);
    assert_eq!(builder.parallelism(), 1);
}

#[test]
fn errors_carry_a_reason() {
    let mut builder = KeyDerivationAlgorithm::Argon2id.builder();
    match builder.set_option("Nonexistent", "1") {
        Err(KeyDerivationError::InvalidOptions { description }) => {
            assert_eq!(description, "Field Nonexistent was not found.")
        }
        other => panic!("{:?}", other),
    }
    match builder.get_option("Salt") {
        Err(KeyDerivationError::InvalidOptions { description }) => {
            assert_eq!(description, "Field Salt was not found.")
        }
        other => panic!("{:?}", other),
    }
    match builder.set_option("Iterations", "not_a_number") {
        Err(KeyDerivationError::InvalidValue { description }) => {
            assert_eq!(description, "Unable to parse not_a_number into unsigned 32-bit number.")
        }
        other => panic!("{:?}", other),
    }
    match builder.set_option("Iterations", "0") {
        Err(error) => {
            assert_eq!(
                error.to_string(),
                "Value of iterations (0) was not accepted. Error = time cost is too small"
            )
        }
        other => panic!("{:?}", other),
    }
    assert_eq!(
        KeyDerivationError::InvalidConfigFormat.to_string(),
        "Stored parameters cannot be read."
    );
}

#[test]
fn values_out_of_the_range_of_argon2_are_refused() {
    let mut builder = KeyDerivationAlgorithm::Argon2id.builder();
    let cases = [
        ("Memory size", "7", "Value of memory size (7) was not accepted. Error = memory cost is too small"),
        ("Memory size", "0", "Value of memory size (0) was not accepted. Error = memory cost is too small"),
        (
            "Memory size",
            "268435456",
            "Value of memory size (268435456) was not accepted. Error = memory cost is too large",
        ),
        ("Parallelism", "0", "Value of parallelism (0) was not accepted. Error = not enough threads"),
        (
            "Parallelism",
            "16777216",
            "Value of parallelism (16777216) was not accepted. Error = too many threads",
        ),
    ];
    for (option, value, text) in cases {
        match builder.set_option(option, value) {
            Err(KeyDerivationError::InvalidValue { description }) => assert_eq!(description, text),
            other => panic!("{:?}", other),
        }
    }
    for (option, value) in [
        ("Memory size", "8"),
        ("Memory size", "268435455"),
        ("Iterations", "1"),
        ("Iterations", "4294967295"),
        ("Parallelism", "16777215"),
        ("Parallelism", "1"),
    ] {
        assert!(builder.set_option(option, value).is_ok());
        assert_eq!(builder.get_option(option).unwrap(), value);
    }
}

#[test]
fn the_knobs_ask_argon2() {
    assert_eq!(Knob::find("Memory size"), Some(Knob::MemorySize));
    assert_eq!(Knob::find("Iterations"), Some(Knob::Iterations));
    assert_eq!(Knob::find("Parallelism"), Some(Knob::Parallelism));
    assert_eq!(Knob::find("memory SIZE"), None);
    assert_eq!(Knob::find("parallelism"), None);
    assert_eq!(Knob::find("Memory"), None);
    assert_eq!(Knob::MemorySize.label(), "memory size");
    for value in [0u32, 1, 7, 8, 9, 4096, 0x0fff_ffff, 0x1000_0000, u32::MAX] {
        let mut builder = argon2::ParamsBuilder::new();
        assert_eq!(
            Knob::MemorySize.check(value),
            builder.m_cost(value).map(|_| ()).map_err(|e| e.to_string())
        );
        let mut builder = argon2::ParamsBuilder::new();
        assert_eq!(
            Knob::Iterations.check(value),
            builder.t_cost(value).map(|_| ()).map_err(|e| e.to_string())
        );
        let mut builder = argon2::ParamsBuilder::new();
        assert_eq!(
            Knob::Parallelism.check(value),
            builder.p_cost(value).map(|_| ()).map_err(|e| e.to_string())
        );
    }
    for value in [0x00ff_ffffu32, 0x0100_0000] {
        let mut builder = argon2::ParamsBuilder::new();
        assert_eq!(
            Knob::Parallelism.check(value),
            builder.p_cost(value).map(|_| ()).map_err(|e| e.to_string())
        );
    }
}

#[test]
fn costs_that_do_not_go_together_are_refused_at_build() {
    let options = options(KeyDerivationAlgorithm::Argon2id, "15", "1", "2");
    match options.build() {
        Err(KeyDerivationError::InvalidValue { description }) => {
            assert_eq!(description, "memory cost is too small")
        }
        Err(other) => panic!("{:?}", other),
        Ok(_) => panic!("built"),
    }
    assert!(self::options(KeyDerivationAlgorithm::Argon2id, "16", "1", "2").build().is_ok());
    assert!(self::options(KeyDerivationAlgorithm::Argon2id, "8", "1", "1").build().is_ok());
}

#[test]
fn the_stored_form_is_four_varints() {
    let bytes = options(KeyDerivationAlgorithm::Argon2i, "567", "123", "2").to_bytes();
    assert_eq!(bytes, vec![0xb7, 0x04, 0x7b, 0x02, 0x01]);
    let bytes = KeyDerivationAlgorithm::Argon2id.builder().to_bytes();
    assert_eq!(bytes, vec![0x80, 0x20, 0x03, 0x01, 0x00]);
    let bytes = options(KeyDerivationAlgorithm::Argon2id, "268435455", "4294967295", "127").to_bytes();
    assert_eq!(
        bytes,
        vec![0xff, 0xff, 0xff, 0x7f, 0xff, 0xff, 0xff, 0xff, 0x0f, 0x7f, 0x00]
    );
    assert_eq!(
        bytes,
        postcard::to_allocvec(&(268435455u32, 4294967295u32, 127u32, 0u32)).unwrap()
    );
}

#[test]
fn stored_parameters_are_read_back() {
    for algorithm in KeyDerivationAlgorithm::variants() {
        for (memory_size, iterations, parallelism) in
            [("8", "1", "1"), ("4096", "3", "1"), ("567", "123", "2"), ("268435455", "4294967295", "16777215")]
        {
            let written = options(algorithm, memory_size, iterations, parallelism);
            let read = deserialize_options(&written.to_bytes()).unwrap();
            assert_eq!(read.algorithm(), algorithm);
            assert_eq!(read.get_option("Memory size").unwrap(), memory_size);
            assert_eq!(read.get_option("Iterations").unwrap(), iterations);
            assert_eq!(read.get_option("Parallelism").unwrap(), parallelism);
        }
    }
}

#[test]
fn bytes_after_the_stored_parameters_are_ignored() {
    let read = deserialize_options(&[0xb7, 0x04, 0x7b, 0x02, 0x01, 0xff, 0xff]).unwrap();
    assert_eq!(read.memory_size(), 567);
    assert_eq!(read.algorithm(), KeyDerivationAlgorithm::Argon2i);
    let read = deserialize_options(&[0x88, 0x00, 0x81, 0x80, 0x00, 0x01, 0x80, 0x00]).unwrap();
    assert_eq!(read.memory_size(), 8);
    assert_eq!(read.iterations(), 1);
    assert_eq!(read.parallelism(), 1);
    assert_eq!(read.algorithm(), KeyDerivationAlgorithm::Argon2id);
}

#[test]
fn malformed_bytes_are_an_invalid_config_format() {
    let cases: [&[u8]; 8] = [
        &[],
        &[0xb7],
        &[0xb7, 0x04, 0x7b, 0x02],
        &[0xb7, 0x04, 0x7b, 0x02, 0x02],
        &[0xb7, 0x04, 0x7b, 0x02, 0x80],
        &[0xff, 0xff, 0xff, 0xff, 0x10, 0x01, 0x01, 0x00],
        &[0xff, 0xff, 0xff, 0xff, 0xff, 0x01, 0x01, 0x00],
        &[0x80, 0x80, 0x80, 0x80, 0x80, 0x00, 0x01, 0x01, 0x00],
    ];
    for bytes in cases {
        assert!(matches!(
            deserialize_options(bytes),
            Err(KeyDerivationError::InvalidConfigFormat)
        ));
        assert_eq!(
            postcard::from_bytes::<(u32, u32, u32, u32)>(bytes)
                .ok()
                .filter(|fields| fields.3 < 2),
            None
        );
        assert!(matches!(Argon2id::build(bytes), Err(KeyDerivationError::InvalidConfigFormat)));
    }
}

#[test]
fn well_formed_bytes_with_refused_values_are_an_invalid_value() {
    let cases: [(&[u8], &str); 4] = [
        (
            &[0x07, 0x01, 0x01, 0x00],
            "Value of memory size (7) was not accepted. Error = memory cost is too small",
        ),
        (
            &[0x08, 0x00, 0x01, 0x00],
            "Value of iterations (0) was not accepted. Error = time cost is too small",
        ),
        (
            &[0x08, 0x01, 0x00, 0x01],
            "Value of parallelism (0) was not accepted. Error = not enough threads",
        ),
        (
            &[0x80, 0x80, 0x80, 0x80, 0x01, 0x01, 0x01, 0x01],
            "Value of memory size (268435456) was not accepted. Error = memory cost is too large",
        ),
    ];
    for (bytes, text) in cases {
        match deserialize_options(bytes) {
            Err(KeyDerivationError::InvalidValue { description }) => assert_eq!(description, text),
            other => panic!("{:?}", other),
        }
    }
    match Argon2i::build(&[0x0f, 0x01, 0x02, 0x01]) {
        Err(KeyDerivationError::InvalidValue { description }) => {
            assert_eq!(description, "memory cost is too small")
        }
        Err(other) => panic!("{:?}", other),
        Ok(_) => panic!("built"),
    }
}

#[test]
fn the_registry_rebuilds_only_its_own_algorithm() {
    let bytes = small(KeyDerivationAlgorithm::Argon2i).option_bytes();
    assert!(KeyDerivationAlgorithm::Argon2i.build(&bytes).is_ok());
    match KeyDerivationAlgorithm::Argon2id.build(&bytes) {
        Err(KeyDerivationError::InvalidValue { description }) => {
            assert_eq!(description, "Stored parameters are those of Argon2i, not of Argon2id")
        }
        Err(other) => panic!("{:?}", other),
        Ok(_) => panic!("built"),
    }
}

#[test]
fn a_variant_builds_only_its_own_hasher() {
    let argon2i_defaults = [0x80, 0x20, 0x03, 0x01, 0x01];
    let argon2id_defaults = [0x80, 0x20, 0x03, 0x01, 0x00];
    assert_eq!(KeyDerivationAlgorithm::Argon2i.builder().to_bytes(), argon2i_defaults);
    assert_eq!(KeyDerivationAlgorithm::Argon2id.builder().to_bytes(), argon2id_defaults);

    let hasher = Argon2id::build(&argon2id_defaults).unwrap();
    assert_eq!(hasher.algorithm(), KeyDerivationAlgorithm::Argon2id);
    assert_eq!(hasher.params().memory_size(), 4096);
    let hasher = Argon2i::build(&argon2i_defaults).unwrap();
    assert_eq!(hasher.algorithm(), KeyDerivationAlgorithm::Argon2i);
    assert_eq!(hasher.params().iterations(), 3);

    match Argon2id::build(&argon2i_defaults) {
        Err(KeyDerivationError::InvalidValue { description }) => {
            assert_eq!(description, "Stored parameters are those of Argon2i, not of Argon2id")
        }
        Err(other) => panic!("{:?}", other),
        Ok(_) => panic!("built"),
    }
    match Argon2i::build(&argon2id_defaults) {
        Err(KeyDerivationError::InvalidValue { description }) => {
            assert_eq!(description, "Stored parameters are those of Argon2id, not of Argon2i")
        }
        Err(other) => panic!("{:?}", other),
        Ok(_) => panic!("built"),
    }
}

#[test]
fn the_hasher_derives_what_argon2_derives() {
    for (algorithm, theirs) in [
        (KeyDerivationAlgorithm::Argon2id, argon2::Algorithm::Argon2id),
        (KeyDerivationAlgorithm::Argon2i, argon2::Algorithm::Argon2i),
    ] {
        let hasher = options(algorithm, "32", "2", "3").build().unwrap();
        assert_eq!(hasher.algorithm(), algorithm);
        assert_eq!(hasher.hash_size(), 32);
        let ours = hasher.hash_password(b"correct horse", b"0123456789abcdef").unwrap();
        let mut expected = [0u8; 32];
        argon2::Argon2::new(
            theirs,
            argon2::Version::V0x13,
            argon2::Params::new(32, 2, 3, None).unwrap(),
        )
        .hash_password_into(b"correct horse", b"0123456789abcdef", &mut expected)
        .unwrap();
        assert_eq!(ours, expected);
        assert_ne!(ours, vec![0u8; 32]);

        let mut place = [0u8; 48];
        hasher.hash_password_into(b"correct horse", b"0123456789abcdef", &mut place).unwrap();
        assert_ne!(&place[..32], ours.as_slice());
        assert_ne!(place, [0u8; 48]);
    }
}

#[test]
fn the_derived_key_depends_on_every_input() {
    let hasher = small(KeyDerivationAlgorithm::Argon2id);
    let key = hasher.hash_password(b"correct horse", b"0123456789abcdef").unwrap();
    assert_eq!(key, hasher.hash_password(b"correct horse", b"0123456789abcdef").unwrap());
    assert_ne!(key, hasher.hash_password(b"wrong horse", b"0123456789abcdef").unwrap());
    assert_ne!(key, hasher.hash_password(b"correct horse", b"0123456789abcdeF").unwrap());
    assert_ne!(
        key,
        small(KeyDerivationAlgorithm::Argon2i)
            .hash_password(b"correct horse", b"0123456789abcdef")
            .unwrap()
    );
    assert_ne!(
        key,
        options(KeyDerivationAlgorithm::Argon2id, "16", "2", "2")
            .build()
            .unwrap()
            .hash_password(b"correct horse", b"0123456789abcdef")
            .unwrap()
    );
}

#[test]
fn lengths_that_argon2_does_not_take_are_a_hashing_error() {
    let hasher = small(KeyDerivationAlgorithm::Argon2id);
    match hasher.hash_password(b"correct horse", b"short") {
        Err(KeyDerivationError::HashingError { description }) => {
            assert_eq!(description, "salt is too short")
        }
        other => panic!("{:?}", other),
    }
    let mut place = [9u8; 3];
    match hasher.hash_password_into(b"correct horse", b"0123456789abcdef", &mut place) {
        Err(KeyDerivationError::HashingError { description }) => {
            assert_eq!(description, "output is too short")
        }
        other => panic!("{:?}", other),
    }
    assert_eq!(place, [9u8; 3]);
    let mut place = [9u8; 4];
    assert!(hasher.hash_password_into(b"", b"01234567", &mut place).is_ok());
    assert_ne!(place, [9u8; 4]);
}

#[test]
fn parameter_round_trip() {
    for algorithm in KeyDerivationAlgorithm::variants() {
        let hasher = options(algorithm, "24", "2", "3").build().unwrap();
        let rebuilt = algorithm.build(&hasher.option_bytes()).unwrap();
        assert_eq!(rebuilt.algorithm(), hasher.algorithm());
        assert_eq!(rebuilt.option_bytes(), hasher.option_bytes());
        assert_eq!(rebuilt.params().memory_size(), 24);
        assert_eq!(rebuilt.params().iterations(), 2);
        assert_eq!(rebuilt.params().parallelism(), 3);
        assert_eq!(
            rebuilt.hash_password(b"correct horse", b"0123456789abcdef").unwrap(),
            hasher.hash_password(b"correct horse", b"0123456789abcdef").unwrap()
        );
    }
}
