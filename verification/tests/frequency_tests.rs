use anki_deck_builder::frequency::{FrequencyData, PartOfSpeech, Word};
use anki_deck_builder::frequency_loader::{
    get_cache_file_path, is_fresh, load_croatian_data, load_frequency_data, load_spanish_data,
    CacheSnapshot, FRESHNESS_WINDOW_SECS,
};
use anki_deck_builder::frequency_source::parse_frequency_file;

#[test]
fn test_parse_frequency_file() {
    let sample = "biti 12345\ndan 11000\nhrvatski 9000\nu 8000";
    let data = parse_frequency_file(sample, "hr").unwrap();

    assert_eq!(data.language, "hr");
    assert!(!data.get_top_words(&PartOfSpeech::Verb, 10).is_empty());
    assert!(!data.get_top_words(&PartOfSpeech::Noun, 10).is_empty());
}

#[test]
fn parse_skips_malformed_and_short_words() {
    let sample = "biti 12345\nnoisy-line-without-count\ndan 11000\nu 8000\n\nkuća 5";
    let data = parse_frequency_file(sample, "hr").unwrap();
    // "biti" is a verb; "dan" and "kuća" are nouns; the field-less line,
    // the one-letter word and the empty line are skipped.
    let verbs = data.get_top_words(&PartOfSpeech::Verb, 10);
    let nouns = data.get_top_words(&PartOfSpeech::Noun, 10);
    assert_eq!(verbs.len(), 1);
    assert_eq!(verbs[0].text, "biti");
    assert_eq!(verbs[0].rank, 1);
    assert_eq!(nouns.len(), 2);
    assert_eq!(nouns[0].text, "dan");
    assert_eq!(nouns[0].rank, 3);
    assert_eq!(nouns[1].text, "kuća");
    assert_eq!(nouns[1].rank, 6);
}

#[test]
fn parse_accepts_any_unicode_whitespace_between_fields() {
    // A no-break space and an em space separate fields just like a blank.
    let sample = "dan\u{00A0}11000\nbiti\u{2003}9000";
    let data = parse_frequency_file(sample, "hr").unwrap();
    let nouns = data.get_top_words(&PartOfSpeech::Noun, 10);
    let verbs = data.get_top_words(&PartOfSpeech::Verb, 10);
    assert_eq!(nouns.len(), 1);
    assert_eq!(nouns[0].text, "dan");
    assert_eq!(verbs.len(), 1);
    assert_eq!(verbs[0].text, "biti");
}

#[test]
fn parse_ranks_strictly_increase_within_categories() {
    let sample = "biti 9\nraditi 8\ndan 7\nmisliti 6\nkuća 5\ngrad 4";
    let data = parse_frequency_file(sample, "hr").unwrap();
    for pos in PartOfSpeech::all() {
        let words = data.get_top_words(&pos, 100);
        for pair in words.windows(2) {
            assert!(pair[0].rank < pair[1].rank);
        }
    }
}

#[test]
fn top_words_returns_min_of_count_and_size() {
    let data = load_croatian_data();
    assert_eq!(data.get_top_words(&PartOfSpeech::Noun, 5).len(), 5);
    assert_eq!(data.get_top_words(&PartOfSpeech::Noun, 20).len(), 20);
    assert_eq!(data.get_top_words(&PartOfSpeech::Noun, 1000).len(), 20);
    assert_eq!(data.get_top_words(&PartOfSpeech::Verb, 1000).len(), 15);
    assert_eq!(data.get_top_words(&PartOfSpeech::Adjective, 1000).len(), 10);
    assert_eq!(data.get_top_words(&PartOfSpeech::Interjection, 1000).len(), 0);
    assert_eq!(data.get_top_words(&PartOfSpeech::Noun, 0).len(), 0);
}

#[test]
fn all_top_words_concatenates_categories_in_fixed_order() {
    let data = load_croatian_data();
    let all = data.get_all_top_words(3);
    // Sum of the per-category tops: 3 nouns + 3 verbs + 3 adjectives,
    // the five other categories are empty.
    let mut expected_len = 0;
    for pos in PartOfSpeech::all() {
        expected_len += data.get_top_words(&pos, 3).len();
    }
    assert_eq!(all.len(), expected_len);
    assert_eq!(all.len(), 9);
    // Category segments appear in the fixed order.
    assert_eq!(all[0].text, "dan");
    assert_eq!(all[1].text, "vrijeme");
    assert_eq!(all[2].text, "dio");
    assert_eq!(all[3].text, "biti");
    assert_eq!(all[4].text, "moći");
    assert_eq!(all[5].text, "htjeti");
    assert_eq!(all[6].text, "dobar");
    assert_eq!(all[7].text, "veliki");
    assert_eq!(all[8].text, "mali");
}

#[test]
fn test_load_croatian_data() {
    let data = load_croatian_data();
    assert_eq!(data.language, "hr");

    let nouns = data.get_top_words(&PartOfSpeech::Noun, 10);
    assert!(!nouns.is_empty());
    assert_eq!(nouns[0].text, "dan");
}

#[test]
fn spanish_data_holds_ranked_nouns() {
    let data = load_spanish_data();
    assert_eq!(data.language, "es");
    let nouns = data.get_top_words(&PartOfSpeech::Noun, 100);
    assert_eq!(nouns.len(), 10);
    assert_eq!(nouns[0].text, "día");
    assert_eq!(nouns[0].rank, 1);
    assert_eq!(nouns[9].text, "niño");
    assert_eq!(nouns[9].rank, 10);
}

#[test]
fn frequency_loader_test_caching() {
    // First load: nothing cached, so the strategy runs.
    let (first, fetched_first) = load_frequency_data("hr", None);
    assert!(fetched_first);
    let first_len = first.get_all_top_words(5).len();
    let first_language = first.language.clone();

    // Second load in quick succession: the snapshot is fresh, zero
    // fetches, and the dataset comes back exactly as stored.
    let snapshot = CacheSnapshot { data: first, age_secs: 60 };
    let (second, fetched_second) = load_frequency_data("hr", Some(snapshot));
    assert!(!fetched_second);
    assert_eq!(first_language, second.language);
    assert_eq!(first_len, second.get_all_top_words(5).len());
}

#[test]
fn unknown_language_degrades_to_empty_dataset() {
    let (data, fetched) = load_frequency_data("xx", None);
    assert!(fetched);
    assert_eq!(data.language, "xx");
    assert_eq!(data.get_all_top_words(100).len(), 0);
}

#[test]
fn staleness_boundary_is_inclusive() {
    // Exactly at the freshness-window edge: still fresh.
    assert!(is_fresh(FRESHNESS_WINDOW_SECS));
    // One second past the edge: stale.
    assert!(!is_fresh(FRESHNESS_WINDOW_SECS + 1));
}

#[test]
fn snapshot_at_window_edge_is_used_one_second_past_is_refetched() {
    let (fetched_data, _) = load_frequency_data("hr", None);
    let marker = Word::new("rubni".to_string(), PartOfSpeech::Noun, 99);
    let mut edge_data = fetched_data;
    edge_data.add_word(marker);
    let edge_count = edge_data.get_top_words(&PartOfSpeech::Noun, 100).len();

    // At the edge the snapshot is returned as it is, marker included.
    let snapshot = CacheSnapshot { data: edge_data, age_secs: FRESHNESS_WINDOW_SECS };
    let (loaded, fetched) = load_frequency_data("hr", Some(snapshot));
    assert!(!fetched);
    assert_eq!(loaded.get_top_words(&PartOfSpeech::Noun, 100).len(), edge_count);

    // One second past the edge the snapshot is ignored and the strategy
    // runs again: the marker is gone.
    let snapshot = CacheSnapshot { data: loaded, age_secs: FRESHNESS_WINDOW_SECS + 1 };
    let (reloaded, refetched) = load_frequency_data("hr", Some(snapshot));
    assert!(refetched);
    assert_eq!(reloaded.get_top_words(&PartOfSpeech::Noun, 100).len(), 20);
}

#[test]
fn cache_file_path_is_deterministic() {
    assert_eq!(
        get_cache_file_path("hr", "/tmp/cache"),
        "/tmp/cache/frequency/hr_frequency.json"
    );
}

#[test]
fn dataset_appends_keep_category_order() {
    let mut data = FrequencyData::new("hr".to_string());
    data.add_word(Word::new("dan".to_string(), PartOfSpeech::Noun, 1));
    data.add_word(Word::new("biti".to_string(), PartOfSpeech::Verb, 2));
    data.add_word(Word::new("grad".to_string(), PartOfSpeech::Noun, 3));
    let nouns = data.get_top_words(&PartOfSpeech::Noun, 10);
    assert_eq!(nouns.len(), 2);
    assert_eq!(nouns[0].text, "dan");
    assert_eq!(nouns[1].text, "grad");
    assert!(nouns[0].rank < nouns[1].rank);
    let all = data.get_all_top_words(10);
    assert_eq!(all.len(), 3);
    assert_eq!(all[2].text, "biti");
}
