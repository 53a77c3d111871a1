use babello::deepl::{usage_report, Babello, DeepLTranslation, DeepLUsageAndLimits, HttpMethod};

fn babello(source: Option<&str>, target: &str) -> Babello {
    Babello::new(
        "SECRET-REDACTED".to_string(),
        vec!["Ciao".to_string(), "Grazie".to_string()],
        source.map(|s| s.to_string()),
        target.to_string(),
    )
}

fn result(detected: &str, text: &str) -> DeepLTranslation {
    DeepLTranslation { detected_source_language: detected.to_string(), text: text.to_string() }
}

#[test]
fn translate_request_shape() {
    let r = babello(None, "EN-US").translate_request();
    assert!(matches!(r.method, HttpMethod::Post));
    assert_eq!(r.url, "https://api.deepl.com/v2/translate");
    assert_eq!(r.authorization, "DeepL-Auth-Key SECRET-REDACTED");
    assert!(r.send_user_agent);
    let body = r.body.unwrap();
    assert_eq!(body.text, vec!["Ciao".to_string(), "Grazie".to_string()]);
    assert_eq!(body.source_lang, Some(String::new()));
    assert_eq!(body.target_lang, Some("EN-US".to_string()));
    let body = babello(Some("IT"), "DE").translate_request().body.unwrap();
    assert_eq!(body.source_lang, Some("IT".to_string()));
}

#[test]
fn improve_request_shape() {
    let r = babello(Some("IT"), "").improve_request();
    assert!(matches!(r.method, HttpMethod::Post));
    assert_eq!(r.url, "https://api.deepl.com/v2/write/correct");
    let body = r.body.unwrap();
    assert_eq!(body.source_lang, None);
    assert_eq!(body.target_lang, None);
    let body = babello(None, "DE").improve_request().body.unwrap();
    assert_eq!(body.target_lang, Some("DE".to_string()));
}

#[test]
fn usage_request_shape() {
    let r = babello(None, "").usage_request();
    assert!(matches!(r.method, HttpMethod::Get));
    assert_eq!(r.url, "https://api.deepl.com/v2/usage");
    assert!(!r.send_user_agent);
    assert!(r.body.is_none());
}

#[test]
fn translation_report_with_detected_language() {
    let lines = babello(None, "EN-US").translation_report(&vec![result("IT", "Hello"), result("IT", "Thanks")]);
    assert_eq!(
        lines,
        vec![
            "Detected source language: IT",
            "Ciao -> Hello",
            "Detected source language: IT",
            "Grazie -> Thanks",
        ]
    );
}

#[test]
fn translation_report_with_given_source_and_fewer_results() {
    let lines = babello(Some("IT"), "EN-US").translation_report(&vec![result("IT", "Hello")]);
    assert_eq!(lines, vec!["Ciao -> Hello"]);
}

#[test]
fn improvement_report() {
    let lines = babello(None, "").improvement_report(&vec![result("IT", "Ciao!"), result("IT", "Grazie!")]);
    assert_eq!(
        lines,
        vec!["Detected source language: IT", "Ciao -> Ciao!", "Detected source language: IT", "Grazie -> Grazie!"]
    );
    let lines = babello(None, "IT").improvement_report(&vec![result("IT", "Ciao!")]);
    assert_eq!(lines, vec!["Ciao -> Ciao!"]);
}

#[test]
fn records_pair_texts_with_results() {
    let r = babello(None, "EN-US").result_records(&vec![result("IT", "Hello"), result("IT", "Thanks"), result("IT", "extra")]);
    assert_eq!(r.len(), 2);
    assert_eq!(r[1].source, "Grazie");
    assert_eq!(r[1].text, "Thanks");
    assert_eq!(r[1].detected_source_language, "IT");
}

#[test]
fn usage_line() {
    let u = DeepLUsageAndLimits { character_count: 1234, character_limit: 500000 };
    assert_eq!(usage_report(&u), "character_count: 1234 - character_limit: 500000");
    let u = DeepLUsageAndLimits { character_count: 0, character_limit: 0 };
    assert_eq!(usage_report(&u), "character_count: 0 - character_limit: 0");
}

#[test]
fn editor_text_gives_one_text_per_line() {
    let b = Babello::for_editor_text("K".to_string(), "uno\r\ndue\n", None, "EN".to_string());
    assert_eq!(b.text, vec!["uno".to_string(), "due".to_string()]);
    let b = Babello::for_editor_text("K".to_string(), "", None, "EN".to_string());
    assert!(b.text.is_empty());
}
