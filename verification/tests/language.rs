use rustypass::configuration::{ConfigurationError, ConfigurationRead, ProgramConfiguration};
use rustypass::language::{
    default_translation, load_translation, required_fields, Language, Translation,
    TRANSLATION_NOT_FOUND,
};

fn pair(key: &str, text: &str) -> (String, String) {
    (key.to_string(), text.to_string())
}

#[test]
fn default_translation_completeness() {
    let default_translation = default_translation();

    let mut uncovered_translations = Vec::new();

    for field in required_fields() {
        if !default_translation.contains_key(field) {
            uncovered_translations.push(field);
        }
    }

    if !uncovered_translations.is_empty() {
        panic!("Following fields are not covered: {:?}", uncovered_translations);
    }
}

#[test]
fn language_tags() {
    assert_eq!("pl-PL", Language::Polish.language_tag());
    assert_eq!("en-US", Language::USEnglish.language_tag());
    assert_eq!(Language::default(), Language::USEnglish);
}

#[test]
fn the_default_translation_holds_the_fallback_and_nothing_else() {
    assert_eq!(TRANSLATION_NOT_FOUND, "TRANSLATION_NOT_FOUND");
    assert_eq!(required_fields(), vec!["TRANSLATION_NOT_FOUND"]);
    let translation = default_translation();
    assert!(translation.contains_key("TRANSLATION_NOT_FOUND"));
    assert!(!translation.contains_key("USER_WRONG_PASSWORD"));
    assert!(!translation.contains_key(""));
    assert_eq!(
        translation.get_translation("TRANSLATION_NOT_FOUND"),
        "Translation for this field was not found. Please report this bug."
    );
    assert_eq!(
        translation.get_translation("USER_WRONG_PASSWORD"),
        "Translation for this field was not found. Please report this bug."
    );
}

#[test]
fn texts_are_found_by_key() {
    let translation = Translation::new(vec![
        pair("USER_WRONG_PASSWORD", "earlier entry"),
        pair("TRANSLATION_NOT_FOUND", "?"),
        pair("USER_WRONG_PASSWORD", "Invalid password"),
        pair("", "empty key"),
    ]);
    assert!(translation.contains_key("USER_WRONG_PASSWORD"));
    assert!(translation.contains_key(""));
    assert!(!translation.contains_key("user_wrong_password"));
    assert_eq!(translation.get_translation("USER_WRONG_PASSWORD"), "Invalid password");
    assert_eq!(translation.get_translation(""), "empty key");
    assert_eq!(translation.get_translation("TRANSLATION_NOT_FOUND"), "?");
    assert_eq!(translation.get_translation("user_wrong_password"), "?");
    assert_eq!(translation.get_translation("MISSING"), "?");
}

#[test]
fn a_translation_holds_what_it_was_given_and_nothing_else() {
    let translation = Translation::new(vec![pair("USER_WRONG_PASSWORD", "Invalid password")]);
    assert!(translation.contains_key("USER_WRONG_PASSWORD"));
    assert!(!translation.contains_key("TRANSLATION_NOT_FOUND"));
    let translation = Translation::new(Vec::new());
    assert!(!translation.contains_key("TRANSLATION_NOT_FOUND"));
    assert!(!translation.contains_key(""));
}

#[test]
fn loading_hands_on_what_was_read() {
    let translation = load_translation(Ok(vec![
        pair("USER_WRONG_PASSWORD", "Nieprawidłowe hasło"),
        pair("TRANSLATION_NOT_FOUND", "Brak tłumaczenia"),
    ]));
    assert_eq!(translation.get_translation("USER_WRONG_PASSWORD"), "Nieprawidłowe hasło");
    assert_eq!(translation.get_translation("MISSING"), "Brak tłumaczenia");
    let translation = load_translation(Ok(vec![pair("USER_WRONG_PASSWORD", "Invalid password")]));
    assert!(translation.contains_key("USER_WRONG_PASSWORD"));
    assert!(!translation.contains_key("TRANSLATION_NOT_FOUND"));
    let translation = load_translation(Ok(Vec::new()));
    assert!(!translation.contains_key("TRANSLATION_NOT_FOUND"));
}

#[test]
fn loading_falls_back_to_the_default_translation() {
    let translation = load_translation(Err(ConfigurationError::IOError("no file".to_string())));
    assert!(translation.contains_key("TRANSLATION_NOT_FOUND"));
    assert!(!translation.contains_key("USER_WRONG_PASSWORD"));
    assert_eq!(
        translation.get_translation("USER_WRONG_PASSWORD"),
        "Translation for this field was not found. Please report this bug."
    );
    let translation = load_translation(Err(ConfigurationError::DeserializationError));
    assert_eq!(
        translation.get_translation("TRANSLATION_NOT_FOUND"),
        "Translation for this field was not found. Please report this bug."
    );
}

#[test]
fn the_configuration_follows_what_was_read() {
    let configuration = ProgramConfiguration::load(ConfigurationRead::NotFound).unwrap();
    assert_eq!(*configuration.get_language(), Language::USEnglish);
    let configuration =
        ProgramConfiguration::load(ConfigurationRead::Parsed(Language::Polish)).unwrap();
    assert_eq!(*configuration.get_language(), Language::Polish);
    match ProgramConfiguration::load(ConfigurationRead::Failed("permission denied".to_string())) {
        Err(ConfigurationError::IOError(text)) => assert_eq!(text, "permission denied"),
        other => panic!("{:?}", other),
    }
    assert!(matches!(
        ProgramConfiguration::load(ConfigurationRead::Malformed),
        Err(ConfigurationError::DeserializationError)
    ));
    assert_eq!(*ProgramConfiguration::default().get_language(), Language::USEnglish);
    assert_eq!(*ProgramConfiguration::new(Language::Polish).get_language(), Language::Polish);
    assert_eq!(
        format!("{:?}", ConfigurationError::SerializationError),
        "SerializationError"
    );
}
