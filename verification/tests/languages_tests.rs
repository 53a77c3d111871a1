use babello::languages::{
    is_write_supported, languages, sorted_lang_items, write_supported_languages, LanguageMap,
};

#[test]
fn table_has_the_languages() {
    let m = languages();
    assert!(m.contains_key("IT"));
    assert_eq!(m.get("IT"), Some("Italian"));
    assert_eq!(m.get("NB"), Some("Norwegian (bokmål)"));
    assert_eq!(m.get("ZH-HANT"), Some("Chinese (traditional)"));
    assert!(!m.contains_key("XX"));
    assert_eq!(m.get("it"), None);
    assert_eq!(m.get(""), None);
}

#[test]
fn insert_then_get_gives_the_name() {
    let mut m = LanguageMap::new();
    assert_eq!(m.get("AA"), None);
    m.insert("AA", "First");
    m.insert("BB", "Second");
    assert_eq!(m.get("AA"), Some("First"));
    m.insert("AA", "Renamed");
    assert_eq!(m.get("AA"), Some("Renamed"));
    assert_eq!(m.get("BB"), Some("Second"));
    assert_eq!(sorted_lang_items(&m, None, false).len(), 2);
}

#[test]
fn all_languages_sorted_by_code() {
    let items = sorted_lang_items(&languages(), None, false);
    assert_eq!(items.len(), 125);
    assert_eq!(items[0], ("ACE".to_string(), "Acehnese".to_string()));
    assert_eq!(items[124], ("ZU".to_string(), "Zulu".to_string()));
    for w in items.windows(2) {
        assert!(w[0].0 < w[1].0);
    }
}

#[test]
fn auto_entry_comes_first() {
    let items = sorted_lang_items(&languages(), None, true);
    assert_eq!(items.len(), 126);
    assert_eq!(items[0], ("Auto".to_string(), "Detect automatically".to_string()));
    assert_eq!(items[1].0, "ACE");
}

#[test]
fn write_languages_sorted_with_auto() {
    let codes = write_supported_languages();
    let items = sorted_lang_items(&languages(), Some(codes.as_slice()), true);
    let got: Vec<&str> = items.iter().map(|(c, _)| c.as_str()).collect();
    assert_eq!(
        got,
        vec![
            "Auto", "DE", "EN", "EN-GB", "EN-US", "ES", "FR", "IT", "JA", "KO", "PT", "PT-BR",
            "PT-PT", "ZH", "ZH-HANS"
        ]
    );
    assert_eq!(items[4].1, "English (American)");
}

#[test]
fn selection_of_codes_skips_unknown_and_sorts() {
    let codes = ["ZU", "XX", "AF", "ZU"];
    let items = sorted_lang_items(&languages(), Some(&codes), false);
    assert_eq!(
        items,
        vec![
            ("AF".to_string(), "Afrikaans".to_string()),
            ("ZU".to_string(), "Zulu".to_string()),
            ("ZU".to_string(), "Zulu".to_string()),
        ]
    );
}

#[test]
fn write_support() {
    assert!(is_write_supported("EN-US"));
    assert!(is_write_supported("ZH-HANS"));
    assert!(!is_write_supported("ZH-HANT"));
    assert!(!is_write_supported("en-us"));
    assert!(!is_write_supported(""));
}
