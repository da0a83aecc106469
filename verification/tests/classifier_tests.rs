use anki_deck_builder::classifier::{guess_croatian_pos, guess_croatian_pos_folded};
use anki_deck_builder::frequency::PartOfSpeech;

#[test]
fn test_guess_croatian_pos() {
    assert_eq!(guess_croatian_pos("biti"), PartOfSpeech::Verb);
    assert_eq!(guess_croatian_pos("doći"), PartOfSpeech::Verb);
    assert_eq!(guess_croatian_pos("hrvatski"), PartOfSpeech::Adjective);
    assert_eq!(guess_croatian_pos("u"), PartOfSpeech::Preposition);
    assert_eq!(guess_croatian_pos("ja"), PartOfSpeech::Pronoun);
    assert_eq!(guess_croatian_pos("i"), PartOfSpeech::Conjunction);
    assert_eq!(guess_croatian_pos("dan"), PartOfSpeech::Noun);
    assert_eq!(guess_croatian_pos("kuća"), PartOfSpeech::Noun);
}

#[test]
fn classify_is_total_on_tiny_inputs() {
    // Every input maps into the fixed eight-element set, with no failure:
    // empty strings and sub-two-character strings included.
    let inputs = ["", "a", "š", "xy", "žč", "..", " "];
    for input in inputs {
        let pos = guess_croatian_pos(input);
        let all = PartOfSpeech::all();
        assert!(all.contains(&pos));
    }
}

#[test]
fn classify_folds_case_before_matching() {
    // Would fail if case folding handed its argument back unchanged:
    // "BITI" only ends in "ti" after folding, "NA" only matches the
    // closed preposition set after folding.
    assert_eq!(guess_croatian_pos("BITI"), PartOfSpeech::Verb);
    assert_eq!(guess_croatian_pos("NA"), PartOfSpeech::Preposition);
    assert_eq!(guess_croatian_pos("Hrvatski"), PartOfSpeech::Adjective);
}

#[test]
fn closed_classes_win_over_suffix_rules() {
    // "ti" ends in the verb suffix "ti" but is a pronoun: the exact-match
    // closed classes are checked first.
    assert_eq!(guess_croatian_pos_folded("ti"), PartOfSpeech::Pronoun);
    // "do" is a preposition even though short words default to Noun last.
    assert_eq!(guess_croatian_pos_folded("do"), PartOfSpeech::Preposition);
}

#[test]
fn adverb_rule_needs_length_for_je_suffix() {
    // "je"-final words count as adverbs only beyond four bytes.
    assert_eq!(guess_croatian_pos_folded("sigurnije"), PartOfSpeech::Adverb);
    assert_eq!(guess_croatian_pos_folded("lako"), PartOfSpeech::Adverb);
    assert_eq!(guess_croatian_pos_folded("moje"), PartOfSpeech::Noun);
    // Four characters but five bytes: the multibyte letter tips the guard.
    assert_eq!(guess_croatian_pos_folded("čuje"), PartOfSpeech::Adverb);
}
