use anki_deck_builder::cli::{Cli, Commands};
use anki_deck_builder::config::Config;

#[test]
fn cache_directories_hang_off_the_cache_root() {
    let config = Config::new(
        "http://localhost:8765".to_string(),
        None,
        "https://libretranslate.com".to_string(),
        "/tmp/cache".to_string(),
    );
    assert_eq!(config.cache_dir(), "/tmp/cache");
    assert_eq!(config.frequency_cache_dir(), "/tmp/cache/frequency");
    assert_eq!(config.translation_cache_dir(), "/tmp/cache/translations");
    assert_eq!(config.ankiconnect_url, "http://localhost:8765");
    assert!(config.deepl_api_key.is_none());
}

#[test]
fn commands_carry_their_options() {
    let cli = Cli {
        command: Commands::Create {
            target_language: Some("hr".to_string()),
            base_language: Some("es".to_string()),
            words_per_pos: 100,
            deck_name: None,
            dry_run: false,
            bidirectional: true,
        },
    };
    match cli.command {
        Commands::Create { words_per_pos, bidirectional, dry_run, .. } => {
            assert_eq!(words_per_pos, 100);
            assert!(bidirectional);
            assert!(!dry_run);
        }
        _ => panic!("expected the create command"),
    }
}
