//! The program's configuration: what it holds and what reading it from
//! disk comes to.

use vstd::prelude::*;

use crate::language::Language;

verus! {

/// The program's configuration.
#[derive(Debug)]
pub struct ProgramConfiguration {
    language: Language,
}

/// Why the configuration or a file that belongs to it cannot be had.
#[derive(Debug)]
pub enum ConfigurationError {
    /// Reading or writing failed; the text says how.
    IOError(String),
    SerializationError,
    DeserializationError,
}

/// What an attempt to read the configuration file ended in.
#[derive(Debug)]
pub enum ConfigurationRead {
    /// There is no such file.
    NotFound,
    /// The file is there and could not be read; the text says why.
    Failed(String),
    /// The file was read and is no configuration.
    Malformed,
    /// The file was read and says this.
    Parsed(Language),
}

impl ProgramConfiguration {
    /// The language chosen.
    pub closed spec fn spec_language(&self) -> Language {
        self.language
    }

    /// A configuration with the given language.
    pub fn new(language: Language) -> (configuration: Self)
        ensures
            configuration.spec_language() == language,
    {
        Self { language }
    }

    /// The language chosen.
    pub fn get_language(&self) -> (language: &Language)
        ensures
            *language == self.spec_language(),
    {
        &self.language
    }

    /// The configuration that an attempt to read the file leads to: the
    /// defaults where there is no file, what the file says where it could
    /// be read, and an error otherwise.
    pub fn load(read: ConfigurationRead) -> (loaded: Result<Self, ConfigurationError>)
        ensures
            match read {
                ConfigurationRead::NotFound => loaded matches Ok(configuration)
                    && configuration.spec_language() == Language::USEnglish,
                ConfigurationRead::Failed(text) => loaded matches Err(
                    ConfigurationError::IOError(same),
                ) && same@ == text@,
                ConfigurationRead::Malformed => loaded matches Err(
                    ConfigurationError::DeserializationError,
                ),
                ConfigurationRead::Parsed(language) => loaded matches Ok(configuration)
                    && configuration.spec_language() == language,
            },
    {
        match read {
            ConfigurationRead::NotFound => Ok(ProgramConfiguration::default()),
            ConfigurationRead::Failed(text) => Err(ConfigurationError::IOError(text)),
            ConfigurationRead::Malformed => Err(ConfigurationError::DeserializationError),
            ConfigurationRead::Parsed(language) => Ok(ProgramConfiguration::new(language)),
        }
    }
}

impl Default for ProgramConfiguration {
    fn default() -> (configuration: Self)
        ensures
            configuration.spec_language() == Language::USEnglish,
    {
        Self { language: Language::default() }
    }
}

} // verus!
