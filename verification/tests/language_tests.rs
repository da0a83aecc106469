use anki_deck_builder::languages::{
    get_language, get_language_code, get_language_name, get_prioritized_languages,
    get_supported_languages, get_supported_languages_map, is_supported,
};

#[test]
fn test_get_language_by_code() {
    let lang = get_language("hr").unwrap();
    assert_eq!(lang.code, "hr");
    assert_eq!(lang.name, "Croatian");
}

#[test]
fn test_get_language_by_name() {
    let lang = get_language("Croatian").unwrap();
    assert_eq!(lang.code, "hr");
    assert_eq!(lang.name, "Croatian");
}

#[test]
fn test_case_insensitive() {
    assert!(get_language("CROATIAN").is_some());
    assert!(get_language("croatian").is_some());
    assert!(get_language("HR").is_some());
}

#[test]
fn test_unsupported_language() {
    assert!(get_language("xyz").is_none());
    assert!(get_language("Klingon").is_none());
}

#[test]
fn test_is_supported() {
    assert!(is_supported("hr"));
    assert!(is_supported("Croatian"));
    assert!(is_supported("es"));
    assert!(is_supported("Spanish"));
    assert!(!is_supported("xyz"));
}

#[test]
fn name_and_code_lookups_agree() {
    assert_eq!(get_language_name("es"), Some("Spanish"));
    assert_eq!(get_language_name("xx"), None);
    assert_eq!(get_language_code("Spanish"), Some("es"));
    assert_eq!(get_language_code("SPANISH"), Some("es"));
    assert_eq!(get_language_code("Klingon"), None);
}

#[test]
fn registry_lists_every_language_once() {
    let all = get_supported_languages_map();
    assert_eq!(all.len(), 21);
    assert_eq!(all[0].code, "hr");
    assert_eq!(all[1].code, "es");
    for lang in &all {
        assert_eq!(
            all.iter().filter(|other| other.code == lang.code).count(),
            1
        );
        assert!(is_supported(&lang.code));
        assert!(is_supported(&lang.name));
    }
}

#[test]
fn supported_languages_come_sorted_by_name() {
    let sorted = get_supported_languages();
    assert_eq!(sorted.len(), 21);
    for pair in sorted.windows(2) {
        assert!(pair[0].name < pair[1].name);
    }
}

#[test]
fn prioritized_languages_start_with_the_primary_pair() {
    let prioritized = get_prioritized_languages();
    assert_eq!(prioritized.len(), 21);
    let head: Vec<&str> = prioritized.iter().take(7).map(|l| l.code.as_str()).collect();
    assert_eq!(head, ["hr", "es", "en", "fr", "de", "it", "pt"]);
    // The remainder is alphabetical by name.
    let tail = &prioritized[7..];
    for pair in tail.windows(2) {
        assert!(pair[0].name < pair[1].name);
    }
}
