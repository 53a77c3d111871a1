use babello::cli::{plan, request_for, CliOptions, CliPlan, ServiceCall};
use babello::hook::{generate_commit_msg_hook, COMMIT_MSG_HOOK_TEMPLATE};
use babello::languages::languages;

fn options() -> CliOptions {
    CliOptions {
        text: Some(vec!["Ciao".to_string()]),
        from: None,
        to: Some("EN-US".to_string()),
        usage: false,
        languages: false,
        improve: false,
        generate_hook_warn: false,
        generate_hook_block: false,
        json: false,
    }
}

fn err(r: Result<CliPlan, String>) -> String {
    match r {
        Err(e) => e,
        Ok(_) => panic!("expected an error"),
    }
}

fn call(r: Result<CliPlan, String>) -> ServiceCall {
    match r {
        Ok(CliPlan::Call(c)) => c,
        _ => panic!("expected a call"),
    }
}

#[test]
fn hook_for_default_language_warns() {
    let hook = generate_commit_msg_hook(None, false).unwrap();
    assert_eq!(
        hook,
        COMMIT_MSG_HOOK_TEMPLATE
            .replace("__BABELLO_TO__", "EN-US")
            .replace("__BABELLO_EXIT_ON_ISSUE__", "0")
    );
    assert!(hook.contains("BABELLO_TO=\"EN-US\""));
    assert!(hook.contains("EXIT_ON_ISSUE=0"));
    assert!(!hook.contains("__BABELLO_"));
}

#[test]
fn hook_that_blocks() {
    let hook = generate_commit_msg_hook(Some("DE"), true).unwrap();
    assert!(hook.contains("BABELLO_TO=\"DE\""));
    assert!(hook.contains("EXIT_ON_ISSUE=1"));
}

#[test]
fn hook_for_unsupported_language() {
    assert_eq!(
        generate_commit_msg_hook(Some("AR"), false).unwrap_err(),
        "'AR' unsupported language for commit-msg correction"
    );
}

#[test]
fn languages_flag_lists_every_language() {
    let mut o = options();
    o.languages = true;
    o.improve = true;
    match plan(&o, &languages()) {
        Ok(CliPlan::ListLanguages(lines)) => {
            assert_eq!(lines.len(), 125);
            assert_eq!(lines[0], "ACE : Acehnese");
            assert_eq!(lines[124], "ZU : Zulu");
        }
        _ => panic!("expected the list"),
    }
}

#[test]
fn hook_flag_comes_before_language_checks() {
    let mut o = options();
    o.generate_hook_block = true;
    o.from = Some("XX".to_string());
    o.to = None;
    match plan(&o, &languages()) {
        Ok(CliPlan::PrintHook(h)) => assert!(h.contains("EXIT_ON_ISSUE=1")),
        _ => panic!("expected a hook"),
    }
    o.to = Some("RU".to_string());
    assert_eq!(err(plan(&o, &languages())), "'RU' unsupported language for commit-msg correction");
}

#[test]
fn unknown_source_language() {
    let mut o = options();
    o.from = Some("XX".to_string());
    let expected = format!("'XX' unsupported language to translate{}", " from");
    assert_eq!(err(plan(&o, &languages())), expected);
}

#[test]
fn unknown_target_language() {
    let mut o = options();
    o.to = Some("xx".to_string());
    assert_eq!(err(plan(&o, &languages())), "'xx' unsupported language to translate to");
    o.to = None;
    assert_eq!(err(plan(&o, &languages())), "'' unsupported language to translate to");
}

#[test]
fn improvement_language_must_be_write_supported() {
    let mut o = options();
    o.improve = true;
    o.to = Some("AR".to_string());
    assert_eq!(err(plan(&o, &languages())), "'AR' unsupported language for text improvement");
    o.to = None;
    assert_eq!(err(plan(&o, &languages())), "'' unsupported language for text improvement");
    o.to = Some("IT".to_string());
    assert!(call(plan(&o, &languages())) == ServiceCall::Improve);
}

#[test]
fn usage_needs_no_target() {
    let mut o = options();
    o.usage = true;
    o.to = None;
    o.text = None;
    assert!(call(plan(&o, &languages())) == ServiceCall::Usage);
}

#[test]
fn translation_is_the_default() {
    let mut o = options();
    o.from = Some("IT".to_string());
    assert!(call(plan(&o, &languages())) == ServiceCall::Translate);
}

#[test]
fn request_for_takes_the_options() {
    let mut o = options();
    o.text = Some(vec!["a".to_string(), "b".to_string()]);
    o.from = Some("IT".to_string());
    let b = request_for(&o, "KEY".to_string());
    assert_eq!(b.api_key, "KEY");
    assert_eq!(b.text, vec!["a".to_string(), "b".to_string()]);
    assert_eq!(b.source_lang, Some("IT".to_string()));
    assert_eq!(b.target_lang, "EN-US");
    o.text = None;
    o.to = None;
    let b = request_for(&o, "KEY".to_string());
    assert!(b.text.is_empty());
    assert_eq!(b.target_lang, "");
}
