use anki_deck_builder::ankiweb::{
    interpret_decks_response, interpret_sink_response, interpret_version_response, Note,
};
use anki_deck_builder::error::AnkiDeckBuilderError;
use anki_deck_builder::frequency::{PartOfSpeech, Word};
use anki_deck_builder::pipeline::{build_cards, validate_language_pair, PipelineResult};

fn word(text: &str, pos: PartOfSpeech, rank: usize) -> Word {
    Word::new(text.to_string(), pos, rank)
}

#[test]
fn partial_failure_keeps_order_and_counts() {
    // Five words; translation fails for word #3; the pipeline keeps going.
    let words = vec![
        word("jedan", PartOfSpeech::Noun, 1),
        word("dva", PartOfSpeech::Noun, 2),
        word("tri", PartOfSpeech::Noun, 3),
        word("četiri", PartOfSpeech::Noun, 4),
        word("pet", PartOfSpeech::Noun, 5),
    ];
    let mut result = PipelineResult::new(words.clone());
    for (index, w) in words.into_iter().enumerate() {
        let outcome = if index == 2 { None } else { Some(format!("t{}", index + 1)) };
        result.record_translation(w, outcome, 1);
    }
    // Four translations, original relative order preserved.
    assert_eq!(result.translations.len(), 4);
    let texts: Vec<&str> = result.translations.iter().map(|(w, _)| w.text.as_str()).collect();
    assert_eq!(texts, ["jedan", "dva", "četiri", "pet"]);
    let outs: Vec<&str> = result.translations.iter().map(|(_, t)| t.as_str()).collect();
    assert_eq!(outs, ["t1", "t2", "t4", "t5"]);
    // Attempted >= failed > 0, and the run was never aborted.
    assert!(result.cards_attempted >= result.cards_failed);
    assert!(result.cards_failed > 0);
}

#[test]
fn end_to_end_card_order_is_forward_before_reverse() {
    let translations = vec![
        (word("dan", PartOfSpeech::Noun, 1), "día".to_string()),
        (word("biti", PartOfSpeech::Verb, 1), "ser".to_string()),
        (word("dobar", PartOfSpeech::Adjective, 1), "bueno".to_string()),
    ];
    let cards = build_cards("Deck", &translations, "hr", "es", true);
    assert_eq!(cards.len(), 6);
    let faces: Vec<(&str, &str)> =
        cards.iter().map(|c| (c.front.as_str(), c.back.as_str())).collect();
    assert_eq!(
        faces,
        [
            ("dan", "día"),
            ("día", "dan"),
            ("biti", "ser"),
            ("ser", "biti"),
            ("dobar", "bueno"),
            ("bueno", "dobar"),
        ]
    );
    // Every card carries the deck, the model and its direction tag.
    for (index, card) in cards.iter().enumerate() {
        assert_eq!(card.deck_name, "Deck");
        assert_eq!(card.model_name, "Basic");
        assert_eq!(card.tags.len(), 2);
        assert_eq!(card.tags[0], "auto-generated");
        if index % 2 == 0 {
            assert_eq!(card.tags[1], "hr-to-es");
        } else {
            assert_eq!(card.tags[1], "es-to-hr");
        }
    }
}

#[test]
fn one_directional_runs_emit_forward_cards_only() {
    let translations = vec![(word("dan", PartOfSpeech::Noun, 1), "día".to_string())];
    let cards = build_cards("Deck", &translations, "hr", "es", false);
    assert_eq!(cards.len(), 1);
    assert_eq!(cards[0].front, "dan");
    assert_eq!(cards[0].back, "día");
    assert_eq!(cards[0].tags[1], "hr-to-es");
}

#[test]
fn card_counters_stay_consistent() {
    let mut result = PipelineResult::new(Vec::new());
    result.record_card_result(true);
    result.record_card_result(false);
    result.record_card_result(true);
    assert_eq!(result.cards_attempted, 3);
    assert_eq!(result.cards_succeeded, 2);
    assert_eq!(result.cards_failed, 1);
    // Zero successes is still a valid, fully reported outcome.
    let mut all_failed = PipelineResult::new(Vec::new());
    all_failed.record_card_result(false);
    all_failed.record_card_result(false);
    assert_eq!(all_failed.cards_attempted, 2);
    assert_eq!(all_failed.cards_succeeded, 0);
    assert_eq!(all_failed.cards_failed, 2);
}

#[test]
fn equal_language_pair_is_rejected() {
    assert!(matches!(
        validate_language_pair("hr", "hr"),
        Err(AnkiDeckBuilderError::ConfigurationError(_))
    ));
    assert!(validate_language_pair("hr", "es").is_ok());
}

#[test]
fn sink_responses_map_to_ids_and_errors() {
    assert_eq!(interpret_sink_response(Some(42), None, "no deck id returned").unwrap(), 42);
    assert!(matches!(
        interpret_sink_response(Some(42), Some("duplicate".to_string()), "no deck id returned"),
        Err(AnkiDeckBuilderError::AnkiConnectError(msg)) if msg == "duplicate"
    ));
    assert!(matches!(
        interpret_sink_response(None, None, "no note id returned"),
        Err(AnkiDeckBuilderError::AnkiConnectError(msg)) if msg == "no note id returned"
    ));
    assert!(interpret_version_response(None).is_ok());
    assert!(matches!(
        interpret_version_response(Some("closed".to_string())),
        Err(AnkiDeckBuilderError::AnkiConnectError(_))
    ));
    let decks = interpret_decks_response(
        Some(vec!["Default".to_string()]),
        None,
        "no deck names returned",
    )
    .unwrap();
    assert_eq!(decks, ["Default"]);
}

#[test]
fn only_sink_connectivity_failures_are_fatal() {
    let unreachable =
        AnkiDeckBuilderError::AnkiConnectNotRunning { url: "http://localhost:8765".to_string() };
    assert!(unreachable.is_fatal_for_run());
    let rejected = AnkiDeckBuilderError::AnkiConnectError("duplicate".to_string());
    assert!(!rejected.is_fatal_for_run());
    let translation = AnkiDeckBuilderError::TranslationError("offline".to_string());
    assert!(!translation.is_fatal_for_run());
}

#[test]
fn notes_carry_default_then_replaced_tags() {
    let note = Note::new("Deck".to_string(), "dan".to_string(), "día".to_string());
    assert_eq!(note.model_name, "Basic");
    assert_eq!(note.tags, ["auto-generated", "language-learning"]);
    let retagged = note.with_tags(vec!["custom".to_string()]);
    assert_eq!(retagged.tags, ["custom"]);
    assert_eq!(retagged.front, "dan");
    assert_eq!(retagged.back, "día");
}
