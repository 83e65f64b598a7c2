//! The languages of the program and the texts it shows in them.

use vstd::hash_map::StringHashMap;
use vstd::prelude::*;

use crate::configuration::ConfigurationError;
use crate::text::text_of;

verus! {

/// The key under which a translation holds the text that it shows for a
/// key that it does not have.
pub const TRANSLATION_NOT_FOUND: &'static str = "TRANSLATION_NOT_FOUND";

/// The languages available in the program.
#[derive(Clone, Copy, Debug, PartialEq, Eq, Structural)]
pub enum Language {
    /// Polish language
    Polish,
    /// United States English
    USEnglish,
}

impl Language {
    /// The IETF language tag, which names the file of the language.
    pub open spec fn spec_language_tag(self) -> Seq<char> {
        match self {
            Language::Polish => "pl-PL"@,
            Language::USEnglish => "en-US"@,
        }
    }

    /// The IETF language tag, which names the file of the language.
    pub fn language_tag(&self) -> (tag: &'static str)
        ensures
            tag@ == self.spec_language_tag(),
    {
        match self {
            Language::Polish => "pl-PL",
            Language::USEnglish => "en-US",
        }
    }
}

impl Default for Language {
    fn default() -> (language: Self)
        ensures
            language == Language::USEnglish,
    {
        Language::USEnglish
    }
}

/// The text that `entries` hold for `key`: that of the last entry with the
/// key, as when the entries are put into a map one after another.
pub open spec fn text_for(entries: Seq<(String, String)>, key: Seq<char>) -> Option<Seq<char>>
    decreases entries.len(),
{
    if entries.len() == 0 {
        None
    } else if entries.last().0@ == key {
        Some(entries.last().1@)
    } else {
        text_for(entries.drop_last(), key)
    }
}

/// The text that the default translation shows for every key.
pub open spec fn default_not_found_text() -> Seq<char> {
    "Translation for this field was not found. Please report this bug."@
}

/// The text that `texts` hold for `key`, if any.
spec fn held(texts: Map<Seq<char>, String>, key: Seq<char>) -> Option<Seq<char>> {
    if texts.contains_key(key) {
        Some(texts[key]@)
    } else {
        None
    }
}

/// The texts of the program in one language, by key.
pub struct Translation(StringHashMap<String>);

impl Translation {
    /// The text held for `key`, if any.
    pub closed spec fn spec_text(&self, key: Seq<char>) -> Option<Seq<char>> {
        held(self.0@, key)
    }

    /// The text shown for `key`: the one held for it, or the one held for
    /// [`TRANSLATION_NOT_FOUND`].
    pub open spec fn spec_translation(&self, key: Seq<char>) -> Seq<char> {
        match self.spec_text(key) {
            Some(text) => text,
            None => self.spec_text(TRANSLATION_NOT_FOUND@)->0,
        }
    }

    /// The translation that holds the given entries, and nothing else. Of
    /// two entries with one key the later counts.
    pub fn new(entries: Vec<(String, String)>) -> (translation: Self)
        ensures
            forall|key: Seq<char>| #[trigger]
                translation.spec_text(key) == text_for(entries@, key),
    {
        let mut texts = StringHashMap::<String>::new();
        let mut i: usize = 0;
        while i < entries.len()
            invariant
                i <= entries@.len(),
                forall|key: Seq<char>| #[trigger]
                    held(texts@, key) == text_for(entries@.take(i as int), key),
            decreases entries@.len() - i,
        {
            let key = entries[i].0.clone();
            let text = entries[i].1.clone();
            let ghost before = texts@;
            texts.insert(key, text);
            proof {
                let longer = entries@.take(i + 1);
                assert(longer.last() == entries@[i as int]);
                assert(longer.drop_last() =~= entries@.take(i as int));
                assert forall|key: Seq<char>| #[trigger]
                    held(texts@, key) == text_for(longer, key) by {
                    if key != longer.last().0@ {
                        assert(held(texts@, key) == held(before, key));
                    }
                }
            }
            i += 1;
        }
        assert(entries@.take(i as int) =~= entries@);
        Translation(texts)
    }

    /// Whether the translation holds a text for `key`.
    pub fn contains_key(&self, key: &str) -> (held: bool)
        ensures
            held == (self.spec_text(key@) is Some),
    {
        self.0.contains_key(key)
    }

    /// The text shown for `name_of_translation`: the one held for it, or
    /// the one held for [`TRANSLATION_NOT_FOUND`], which the translation has
    /// to hold.
    pub fn get_translation(&self, name_of_translation: &str) -> (text: &str)
        requires
            self.spec_text(TRANSLATION_NOT_FOUND@) is Some,
        ensures
            text@ == self.spec_translation(name_of_translation@),
    {
        match self.0.get(name_of_translation) {
            Some(text) => text.as_str(),
            None => match self.0.get(TRANSLATION_NOT_FOUND) {
                Some(text) => text.as_str(),
                None => "",
            },
        }
    }
}

/// The keys that every translation has to hold a text for.
pub fn required_fields() -> (fields: Vec<&'static str>)
    ensures
        fields@.len() == 1,
        fields@[0]@ == TRANSLATION_NOT_FOUND@,
{
    let mut fields: Vec<&'static str> = Vec::new();
    fields.push(TRANSLATION_NOT_FOUND);
    fields
}

/// The translation that is used where none can be read. It holds a text
/// for [`TRANSLATION_NOT_FOUND`], the one required field, and for no other
/// key.
pub fn default_translation() -> (translation: Translation)
    ensures
        forall|key: Seq<char>| #[trigger]
            translation.spec_text(key) == if key == TRANSLATION_NOT_FOUND@ {
                Some(default_not_found_text())
            } else {
                None
            },
{
    let mut texts = StringHashMap::<String>::new();
    texts.insert(
        text_of(TRANSLATION_NOT_FOUND),
        text_of("Translation for this field was not found. Please report this bug."),
    );
    Translation(texts)
}

/// The translation that an attempt to read the language's file leads to:
/// the entries read and nothing else, or the default translation where
/// reading failed.
pub fn load_translation(read: Result<Vec<(String, String)>, ConfigurationError>) -> (translation:
    Translation)
    ensures
        read matches Ok(entries) ==> forall|key: Seq<char>| #[trigger]
            translation.spec_text(key) == text_for(entries@, key),
        read is Err ==> forall|key: Seq<char>| #[trigger]
            translation.spec_text(key) == if key == TRANSLATION_NOT_FOUND@ {
                Some(default_not_found_text())
            } else {
                None
            },
{
    match read {
        Err(_) => default_translation(),
        Ok(entries) => Translation::new(entries),
    }
}

} // verus!
