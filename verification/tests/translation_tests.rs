use anki_deck_builder::error::AnkiDeckBuilderError;
use anki_deck_builder::translation_cache::{translation_cache_file_path, TranslationCache};
use anki_deck_builder::translator::{PacingPolicy, Translator};

#[test]
fn cache_round_trip_returns_the_stored_translation() {
    let mut cache = TranslationCache::new("en", "es");
    cache.insert("test", "prueba");
    assert_eq!(cache.lookup("test"), Some("prueba".to_string()));
    assert_eq!(cache.lookup("absent"), None);
}

#[test]
fn reverse_pair_is_a_distinct_store() {
    let mut forward = TranslationCache::new("en", "es");
    forward.insert("test", "prueba");
    // The reverse direction is its own store: reading the same text there
    // misses.
    let reverse = TranslationCache::new("es", "en");
    assert_eq!(reverse.lookup("test"), None);
    // And the two directions live in two different files.
    let fwd_path = translation_cache_file_path("/tmp/cache", "en", "es");
    let rev_path = translation_cache_file_path("/tmp/cache", "es", "en");
    assert_eq!(fwd_path, "/tmp/cache/translations/en_es.json");
    assert_eq!(rev_path, "/tmp/cache/translations/es_en.json");
    assert_ne!(fwd_path, rev_path);
}

#[test]
fn cache_entries_are_never_overwritten() {
    let mut cache = TranslationCache::new("en", "es");
    cache.insert("test", "prueba");
    cache.insert("test", "ensayo");
    assert_eq!(cache.lookup("test"), Some("prueba".to_string()));
    assert_eq!(cache.len(), 1);
}

#[test]
fn pacing_never_pauses_before_the_first_request() {
    let every_request = PacingPolicy::new(100, 1);
    assert!(!every_request.should_pause_before(0));
    assert!(every_request.should_pause_before(1));
    assert!(every_request.should_pause_before(2));

    let every_tenth = PacingPolicy::new(50, 10);
    assert!(!every_tenth.should_pause_before(0));
    assert!(!every_tenth.should_pause_before(5));
    assert!(every_tenth.should_pause_before(10));
    assert!(every_tenth.should_pause_before(20));

    let disabled = PacingPolicy::new(100, 0);
    assert!(!disabled.should_pause_before(7));
}

struct EchoTranslator {
    fail_on: Option<String>,
}

impl Translator for EchoTranslator {
    fn translate(
        &self,
        text: &str,
        _from: &str,
        _to: &str,
    ) -> Result<String, AnkiDeckBuilderError> {
        match &self.fail_on {
            Some(bad) if bad == text => {
                Err(AnkiDeckBuilderError::TranslationError(format!("no translation for {}", text)))
            }
            _ => Ok(format!("{}!", text)),
        }
    }
}

#[test]
fn batch_translation_preserves_order() {
    let translator = EchoTranslator { fail_on: None };
    let texts = vec!["dan".to_string(), "biti".to_string(), "dobar".to_string()];
    let out = translator.translate_batch(&texts, "hr", "es").unwrap();
    assert_eq!(out, vec!["dan!".to_string(), "biti!".to_string(), "dobar!".to_string()]);
}

#[test]
fn empty_batch_translation_always_succeeds() {
    // Even a translator that rejects everything answers the empty batch:
    // no remote call is made at all.
    let translator = EchoTranslator { fail_on: None };
    let out = translator.translate_batch(&[], "hr", "es").unwrap();
    assert!(out.is_empty());
}

#[test]
fn batch_translation_fails_fast_on_first_error() {
    let translator = EchoTranslator { fail_on: Some("biti".to_string()) };
    let texts = vec!["dan".to_string(), "biti".to_string(), "dobar".to_string()];
    let out = translator.translate_batch(&texts, "hr", "es");
    assert!(matches!(out, Err(AnkiDeckBuilderError::TranslationError(_))));
}
