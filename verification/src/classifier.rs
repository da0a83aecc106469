//! Approximate part-of-speech classification for Croatian surface forms.
//!
//! The classifier is a total function over an ordered rule table, evaluated
//! top to bottom with the first match winning: exact-match closed classes
//! (pronouns, prepositions, conjunctions) come before the suffix heuristics,
//! so that a short closed-class word is never caught by a suffix pattern,
//! and everything left falls back to Noun, the most frequent open class.
//! The rules are case-insensitive: the input is folded to lower case first.

use vstd::prelude::*;

use crate::frequency::{all_parts_of_speech, PartOfSpeech};
use crate::strutil::{
    ends_with_spec, lower_of, lowercase, str_ends_with, str_eq, str_utf8_len_exceeds, utf8_len,
};

verus! {

/// Closed class: common Croatian pronouns.
pub open spec fn is_croatian_pronoun(w: Seq<char>) -> bool {
    ||| w == "ja"@
    ||| w == "ti"@
    ||| w == "on"@
    ||| w == "ona"@
    ||| w == "ono"@
    ||| w == "mi"@
    ||| w == "vi"@
    ||| w == "oni"@
    ||| w == "me"@
    ||| w == "te"@
    ||| w == "se"@
}

/// Closed class: common Croatian prepositions.
pub open spec fn is_croatian_preposition(w: Seq<char>) -> bool {
    ||| w == "u"@
    ||| w == "na"@
    ||| w == "za"@
    ||| w == "s"@
    ||| w == "sa"@
    ||| w == "iz"@
    ||| w == "do"@
    ||| w == "od"@
    ||| w == "po"@
    ||| w == "prema"@
    ||| w == "kroz"@
}

/// Closed class: common Croatian conjunctions.
pub open spec fn is_croatian_conjunction(w: Seq<char>) -> bool {
    ||| w == "i"@
    ||| w == "ali"@
    ||| w == "ili"@
    ||| w == "da"@
    ||| w == "ako"@
    ||| w == "jer"@
    ||| w == "kad"@
    ||| w == "dok"@
}

/// Suffix rule: common Croatian verb endings (infinitive and conjugations).
pub open spec fn has_croatian_verb_ending(w: Seq<char>) -> bool {
    ||| ends_with_spec(w, "ti"@)
    ||| ends_with_spec(w, "ći"@)
    ||| ends_with_spec(w, "am"@)
    ||| ends_with_spec(w, "aš"@)
    ||| ends_with_spec(w, "im"@)
    ||| ends_with_spec(w, "iš"@)
}

/// Suffix rule: common Croatian adjective endings.
pub open spec fn has_croatian_adjective_ending(w: Seq<char>) -> bool {
    ||| ends_with_spec(w, "ski"@)
    ||| ends_with_spec(w, "ški"@)
    ||| ends_with_spec(w, "čki"@)
}

/// Suffix rule: common Croatian adverb markers. The length guard on the
/// "je" ending counts UTF-8 bytes, not characters.
pub open spec fn has_croatian_adverb_ending(w: Seq<char>) -> bool {
    ||| ends_with_spec(w, "no"@)
    ||| ends_with_spec(w, "ko"@)
    ||| (ends_with_spec(w, "je"@) && utf8_len(w) > 4)
}

/// The whole rule table on an already lower-cased word, first match wins:
/// closed classes, then suffix heuristics, then the Noun fallback.
pub open spec fn croatian_pos_of(w: Seq<char>) -> PartOfSpeech {
    if is_croatian_pronoun(w) {
        PartOfSpeech::Pronoun
    } else if is_croatian_preposition(w) {
        PartOfSpeech::Preposition
    } else if is_croatian_conjunction(w) {
        PartOfSpeech::Conjunction
    } else if has_croatian_verb_ending(w) {
        PartOfSpeech::Verb
    } else if has_croatian_adjective_ending(w) {
        PartOfSpeech::Adjective
    } else if has_croatian_adverb_ending(w) {
        PartOfSpeech::Adverb
    } else {
        PartOfSpeech::Noun
    }
}

fn matches_croatian_pronoun(w: &str) -> (r: bool)
    ensures
        r == is_croatian_pronoun(w@),
{
    str_eq(w, "ja") || str_eq(w, "ti") || str_eq(w, "on") || str_eq(w, "ona") || str_eq(w, "ono")
        || str_eq(w, "mi") || str_eq(w, "vi") || str_eq(w, "oni") || str_eq(w, "me") || str_eq(
        w,
        "te",
    ) || str_eq(w, "se")
}

fn matches_croatian_preposition(w: &str) -> (r: bool)
    ensures
        r == is_croatian_preposition(w@),
{
    str_eq(w, "u") || str_eq(w, "na") || str_eq(w, "za") || str_eq(w, "s") || str_eq(w, "sa")
        || str_eq(w, "iz") || str_eq(w, "do") || str_eq(w, "od") || str_eq(w, "po") || str_eq(
        w,
        "prema",
    ) || str_eq(w, "kroz")
}

fn matches_croatian_conjunction(w: &str) -> (r: bool)
    ensures
        r == is_croatian_conjunction(w@),
{
    str_eq(w, "i") || str_eq(w, "ali") || str_eq(w, "ili") || str_eq(w, "da") || str_eq(w, "ako")
        || str_eq(w, "jer") || str_eq(w, "kad") || str_eq(w, "dok")
}

/// Classify a word that is already lower-cased. This is the verified heart
/// of the classifier: the result is exactly `croatian_pos_of` of the input.
pub fn guess_croatian_pos_folded(word_lower: &str) -> (r: PartOfSpeech)
    ensures
        r == croatian_pos_of(word_lower@),
{
    if matches_croatian_pronoun(word_lower) {
        PartOfSpeech::Pronoun
    } else if matches_croatian_preposition(word_lower) {
        PartOfSpeech::Preposition
    } else if matches_croatian_conjunction(word_lower) {
        PartOfSpeech::Conjunction
    } else if str_ends_with(word_lower, "ti") || str_ends_with(word_lower, "ći") || str_ends_with(
        word_lower,
        "am",
    ) || str_ends_with(word_lower, "aš") || str_ends_with(word_lower, "im") || str_ends_with(
        word_lower,
        "iš",
    ) {
        PartOfSpeech::Verb
    } else if str_ends_with(word_lower, "ski") || str_ends_with(word_lower, "ški")
        || str_ends_with(word_lower, "čki") {
        PartOfSpeech::Adjective
    } else if str_ends_with(word_lower, "no") || str_ends_with(word_lower, "ko") || (str_ends_with(
        word_lower,
        "je",
    ) && str_utf8_len_exceeds(word_lower, 4)) {
        PartOfSpeech::Adverb
    } else {
        PartOfSpeech::Noun
    }
}

/// Classify any surface form: fold case, then apply the rule table.
pub fn guess_croatian_pos(word: &str) -> (r: PartOfSpeech)
    ensures
        r == croatian_pos_of(lower_of(word@)),
{
    let folded = lowercase(word);
    guess_croatian_pos_folded(folded.as_str())
}

/// Law: the classifier is total — every character sequence, including the
/// empty one and one-character words, is mapped to a category of the fixed
/// eight-element set; there is no "unknown" outcome.
pub proof fn lemma_classifier_total(w: Seq<char>)
    ensures
        all_parts_of_speech().contains(croatian_pos_of(w)),
{
    let aps = all_parts_of_speech();
    assert(aps[0] == PartOfSpeech::Noun);
    assert(aps[1] == PartOfSpeech::Verb);
    assert(aps[2] == PartOfSpeech::Adjective);
    assert(aps[3] == PartOfSpeech::Adverb);
    assert(aps[4] == PartOfSpeech::Preposition);
    assert(aps[5] == PartOfSpeech::Pronoun);
    assert(aps[6] == PartOfSpeech::Conjunction);
    assert(aps[7] == PartOfSpeech::Interjection);
}

} // verus!
