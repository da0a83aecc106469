//! The language registry: ISO 639-1 codes and full names of the supported
//! languages, with case-insensitive lookup by either. The registry is a
//! fixed table, so every lookup result is pinned down exactly.

use vstd::prelude::*;

use crate::strutil::{lower_of, lowercase, str_eq};

verus! {

/// A language, as a code and a display name.
#[derive(Debug)]
pub struct Language {
    pub code: String,
    pub name: String,
}

impl Clone for Language {
    fn clone(&self) -> (r: Self)
        ensures
            r == *self,
    {
        Language { code: self.code.clone(), name: self.name.clone() }
    }
}

impl Language {
    pub fn new(code: &str, name: &str) -> (r: Self)
        ensures
            r.code@ == code@,
            r.name@ == name@,
    {
        Language { code: code.to_owned(), name: name.to_owned() }
    }
}

/// The registry in insertion order: the two primary languages first, then
/// the other supported codes.
pub open spec fn supported_table() -> Seq<(Seq<char>, Seq<char>)> {
    seq![
        ("hr"@, "Croatian"@),
        ("es"@, "Spanish"@),
        ("en"@, "English"@),
        ("fr"@, "French"@),
        ("de"@, "German"@),
        ("it"@, "Italian"@),
        ("pt"@, "Portuguese"@),
        ("ru"@, "Russian"@),
        ("ja"@, "Japanese"@),
        ("ko"@, "Korean"@),
        ("zh"@, "Chinese"@),
        ("ar"@, "Arabic"@),
        ("hi"@, "Hindi"@),
        ("nl"@, "Dutch"@),
        ("pl"@, "Polish"@),
        ("sv"@, "Swedish"@),
        ("no"@, "Norwegian"@),
        ("da"@, "Danish"@),
        ("fi"@, "Finnish"@),
        ("el"@, "Greek"@),
        ("tr"@, "Turkish"@),
    ]
}

/// The display name registered for a code.
pub open spec fn lang_name_of(code: Seq<char>) -> Option<Seq<char>> {
    if code == "hr"@ {
        Some("Croatian"@)
    } else if code == "es"@ {
        Some("Spanish"@)
    } else if code == "en"@ {
        Some("English"@)
    } else if code == "fr"@ {
        Some("French"@)
    } else if code == "de"@ {
        Some("German"@)
    } else if code == "it"@ {
        Some("Italian"@)
    } else if code == "pt"@ {
        Some("Portuguese"@)
    } else if code == "ru"@ {
        Some("Russian"@)
    } else if code == "ja"@ {
        Some("Japanese"@)
    } else if code == "ko"@ {
        Some("Korean"@)
    } else if code == "zh"@ {
        Some("Chinese"@)
    } else if code == "ar"@ {
        Some("Arabic"@)
    } else if code == "hi"@ {
        Some("Hindi"@)
    } else if code == "nl"@ {
        Some("Dutch"@)
    } else if code == "pl"@ {
        Some("Polish"@)
    } else if code == "sv"@ {
        Some("Swedish"@)
    } else if code == "no"@ {
        Some("Norwegian"@)
    } else if code == "da"@ {
        Some("Danish"@)
    } else if code == "fi"@ {
        Some("Finnish"@)
    } else if code == "el"@ {
        Some("Greek"@)
    } else if code == "tr"@ {
        Some("Turkish"@)
    } else {
        None
    }
}

/// The code registered for a lower-cased display name.
pub open spec fn lang_code_of_lower_name(name_lower: Seq<char>) -> Option<Seq<char>> {
    if name_lower == "croatian"@ {
        Some("hr"@)
    } else if name_lower == "spanish"@ {
        Some("es"@)
    } else if name_lower == "english"@ {
        Some("en"@)
    } else if name_lower == "french"@ {
        Some("fr"@)
    } else if name_lower == "german"@ {
        Some("de"@)
    } else if name_lower == "italian"@ {
        Some("it"@)
    } else if name_lower == "portuguese"@ {
        Some("pt"@)
    } else if name_lower == "russian"@ {
        Some("ru"@)
    } else if name_lower == "japanese"@ {
        Some("ja"@)
    } else if name_lower == "korean"@ {
        Some("ko"@)
    } else if name_lower == "chinese"@ {
        Some("zh"@)
    } else if name_lower == "arabic"@ {
        Some("ar"@)
    } else if name_lower == "hindi"@ {
        Some("hi"@)
    } else if name_lower == "dutch"@ {
        Some("nl"@)
    } else if name_lower == "polish"@ {
        Some("pl"@)
    } else if name_lower == "swedish"@ {
        Some("sv"@)
    } else if name_lower == "norwegian"@ {
        Some("no"@)
    } else if name_lower == "danish"@ {
        Some("da"@)
    } else if name_lower == "finnish"@ {
        Some("fi"@)
    } else if name_lower == "greek"@ {
        Some("el"@)
    } else if name_lower == "turkish"@ {
        Some("tr"@)
    } else {
        None
    }
}

/// What `get_language` finds for an input: first the case-folded input is
/// tried as a code (keeping the folded form and the registered name), then
/// as a name (keeping the registered code and the input as given).
pub open spec fn language_for(input: Seq<char>) -> Option<(Seq<char>, Seq<char>)> {
    let low = lower_of(input);
    match lang_name_of(low) {
        Some(nm) => Some((low, nm)),
        None => match lang_code_of_lower_name(low) {
            Some(cd) => Some((cd, input)),
            None => None,
        },
    }
}

/// The display name registered for a code, already lower-cased.
pub fn get_language_name(code: &str) -> (r: Option<&'static str>)
    ensures
        (r is Some) == (lang_name_of(code@) is Some),
        r matches Some(n) ==> lang_name_of(code@) == Some(n@),
{
    if str_eq(code, "hr") {
        Some("Croatian")
    } else if str_eq(code, "es") {
        Some("Spanish")
    } else if str_eq(code, "en") {
        Some("English")
    } else if str_eq(code, "fr") {
        Some("French")
    } else if str_eq(code, "de") {
        Some("German")
    } else if str_eq(code, "it") {
        Some("Italian")
    } else if str_eq(code, "pt") {
        Some("Portuguese")
    } else if str_eq(code, "ru") {
        Some("Russian")
    } else if str_eq(code, "ja") {
        Some("Japanese")
    } else if str_eq(code, "ko") {
        Some("Korean")
    } else if str_eq(code, "zh") {
        Some("Chinese")
    } else if str_eq(code, "ar") {
        Some("Arabic")
    } else if str_eq(code, "hi") {
        Some("Hindi")
    } else if str_eq(code, "nl") {
        Some("Dutch")
    } else if str_eq(code, "pl") {
        Some("Polish")
    } else if str_eq(code, "sv") {
        Some("Swedish")
    } else if str_eq(code, "no") {
        Some("Norwegian")
    } else if str_eq(code, "da") {
        Some("Danish")
    } else if str_eq(code, "fi") {
        Some("Finnish")
    } else if str_eq(code, "el") {
        Some("Greek")
    } else if str_eq(code, "tr") {
        Some("Turkish")
    } else {
        None
    }
}

/// The code registered for an already lower-cased display name.
fn lookup_code_by_lower_name(name_lower: &str) -> (r: Option<&'static str>)
    ensures
        (r is Some) == (lang_code_of_lower_name(name_lower@) is Some),
        r matches Some(c) ==> lang_code_of_lower_name(name_lower@) == Some(c@),
{
    if str_eq(name_lower, "croatian") {
        Some("hr")
    } else if str_eq(name_lower, "spanish") {
        Some("es")
    } else if str_eq(name_lower, "english") {
        Some("en")
    } else if str_eq(name_lower, "french") {
        Some("fr")
    } else if str_eq(name_lower, "german") {
        Some("de")
    } else if str_eq(name_lower, "italian") {
        Some("it")
    } else if str_eq(name_lower, "portuguese") {
        Some("pt")
    } else if str_eq(name_lower, "russian") {
        Some("ru")
    } else if str_eq(name_lower, "japanese") {
        Some("ja")
    } else if str_eq(name_lower, "korean") {
        Some("ko")
    } else if str_eq(name_lower, "chinese") {
        Some("zh")
    } else if str_eq(name_lower, "arabic") {
        Some("ar")
    } else if str_eq(name_lower, "hindi") {
        Some("hi")
    } else if str_eq(name_lower, "dutch") {
        Some("nl")
    } else if str_eq(name_lower, "polish") {
        Some("pl")
    } else if str_eq(name_lower, "swedish") {
        Some("sv")
    } else if str_eq(name_lower, "norwegian") {
        Some("no")
    } else if str_eq(name_lower, "danish") {
        Some("da")
    } else if str_eq(name_lower, "finnish") {
        Some("fi")
    } else if str_eq(name_lower, "greek") {
        Some("el")
    } else if str_eq(name_lower, "turkish") {
        Some("tr")
    } else {
        None
    }
}

/// The registered code for a display name, case-insensitively.
pub fn get_language_code(name: &str) -> (r: Option<&'static str>)
    ensures
        (r is Some) == (lang_code_of_lower_name(lower_of(name@)) is Some),
        r matches Some(c) ==> lang_code_of_lower_name(lower_of(name@)) == Some(c@),
{
    let folded = lowercase(name);
    lookup_code_by_lower_name(folded.as_str())
}

/// Find a language by code or by name, case-insensitively.
pub fn get_language(input: &str) -> (r: Option<Language>)
    ensures
        (r is Some) == (language_for(input@) is Some),
        r matches Some(lang) ==> {
            &&& language_for(input@) matches Some(pair)
            &&& lang.code@ == pair.0
            &&& lang.name@ == pair.1
        },
{
    let folded = lowercase(input);
    match get_language_name(folded.as_str()) {
        Some(name) => Some(Language::new(folded.as_str(), name)),
        None => match lookup_code_by_lower_name(folded.as_str()) {
            Some(code) => Some(Language::new(code, input)),
            None => None,
        },
    }
}

/// Whether an input names a supported language, by code or by name.
pub fn is_supported(code_or_name: &str) -> (r: bool)
    ensures
        r == (language_for(code_or_name@) is Some),
{
    let found = get_language(code_or_name);
    match found {
        Some(_) => true,
        None => false,
    }
}

/// One language list matches one table, entry for entry.
pub open spec fn languages_match(ls: Seq<Language>, tab: Seq<(Seq<char>, Seq<char>)>) -> bool {
    &&& ls.len() == tab.len()
    &&& forall|i: int|
        0 <= i < ls.len() ==> (#[trigger] ls[i]).code@ == tab[i].0 && ls[i].name@ == tab[i].1
}

/// The whole registry, in insertion order.
pub fn get_supported_languages_map() -> (r: Vec<Language>)
    ensures
        languages_match(r@, supported_table()),
{
    let r = vec![
        Language::new("hr", "Croatian"),
        Language::new("es", "Spanish"),
        Language::new("en", "English"),
        Language::new("fr", "French"),
        Language::new("de", "German"),
        Language::new("it", "Italian"),
        Language::new("pt", "Portuguese"),
        Language::new("ru", "Russian"),
        Language::new("ja", "Japanese"),
        Language::new("ko", "Korean"),
        Language::new("zh", "Chinese"),
        Language::new("ar", "Arabic"),
        Language::new("hi", "Hindi"),
        Language::new("nl", "Dutch"),
        Language::new("pl", "Polish"),
        Language::new("sv", "Swedish"),
        Language::new("no", "Norwegian"),
        Language::new("da", "Danish"),
        Language::new("fi", "Finnish"),
        Language::new("el", "Greek"),
        Language::new("tr", "Turkish"),
    ];
    r
}

/// The registry ordered alphabetically by display name, for selection menus.
pub open spec fn name_sorted_table() -> Seq<(Seq<char>, Seq<char>)> {
    seq![
        ("ar"@, "Arabic"@),
        ("zh"@, "Chinese"@),
        ("hr"@, "Croatian"@),
        ("da"@, "Danish"@),
        ("nl"@, "Dutch"@),
        ("en"@, "English"@),
        ("fi"@, "Finnish"@),
        ("fr"@, "French"@),
        ("de"@, "German"@),
        ("el"@, "Greek"@),
        ("hi"@, "Hindi"@),
        ("it"@, "Italian"@),
        ("ja"@, "Japanese"@),
        ("ko"@, "Korean"@),
        ("no"@, "Norwegian"@),
        ("pl"@, "Polish"@),
        ("pt"@, "Portuguese"@),
        ("ru"@, "Russian"@),
        ("es"@, "Spanish"@),
        ("sv"@, "Swedish"@),
        ("tr"@, "Turkish"@),
    ]
}

/// The registry sorted by display name.
pub fn get_supported_languages() -> (r: Vec<Language>)
    ensures
        languages_match(r@, name_sorted_table()),
{
    let r = vec![
        Language::new("ar", "Arabic"),
        Language::new("zh", "Chinese"),
        Language::new("hr", "Croatian"),
        Language::new("da", "Danish"),
        Language::new("nl", "Dutch"),
        Language::new("en", "English"),
        Language::new("fi", "Finnish"),
        Language::new("fr", "French"),
        Language::new("de", "German"),
        Language::new("el", "Greek"),
        Language::new("hi", "Hindi"),
        Language::new("it", "Italian"),
        Language::new("ja", "Japanese"),
        Language::new("ko", "Korean"),
        Language::new("no", "Norwegian"),
        Language::new("pl", "Polish"),
        Language::new("pt", "Portuguese"),
        Language::new("ru", "Russian"),
        Language::new("es", "Spanish"),
        Language::new("sv", "Swedish"),
        Language::new("tr", "Turkish"),
    ];
    r
}

/// The selection order for prompts: the two primary languages, then five
/// common ones, then the rest alphabetically by display name.
pub open spec fn prioritized_table() -> Seq<(Seq<char>, Seq<char>)> {
    seq![
        ("hr"@, "Croatian"@),
        ("es"@, "Spanish"@),
        ("en"@, "English"@),
        ("fr"@, "French"@),
        ("de"@, "German"@),
        ("it"@, "Italian"@),
        ("pt"@, "Portuguese"@),
        ("ar"@, "Arabic"@),
        ("zh"@, "Chinese"@),
        ("da"@, "Danish"@),
        ("nl"@, "Dutch"@),
        ("fi"@, "Finnish"@),
        ("el"@, "Greek"@),
        ("hi"@, "Hindi"@),
        ("ja"@, "Japanese"@),
        ("ko"@, "Korean"@),
        ("no"@, "Norwegian"@),
        ("pl"@, "Polish"@),
        ("ru"@, "Russian"@),
        ("sv"@, "Swedish"@),
        ("tr"@, "Turkish"@),
    ]
}

/// The registry in selection order.
pub fn get_prioritized_languages() -> (r: Vec<Language>)
    ensures
        languages_match(r@, prioritized_table()),
{
    let r = vec![
        Language::new("hr", "Croatian"),
        Language::new("es", "Spanish"),
        Language::new("en", "English"),
        Language::new("fr", "French"),
        Language::new("de", "German"),
        Language::new("it", "Italian"),
        Language::new("pt", "Portuguese"),
        Language::new("ar", "Arabic"),
        Language::new("zh", "Chinese"),
        Language::new("da", "Danish"),
        Language::new("nl", "Dutch"),
        Language::new("fi", "Finnish"),
        Language::new("el", "Greek"),
        Language::new("hi", "Hindi"),
        Language::new("ja", "Japanese"),
        Language::new("ko", "Korean"),
        Language::new("no", "Norwegian"),
        Language::new("pl", "Polish"),
        Language::new("ru", "Russian"),
        Language::new("sv", "Swedish"),
        Language::new("tr", "Turkish"),
    ];
    r
}

} // verus!
