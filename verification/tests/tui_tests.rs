use babello::deepl::DeepLTranslation;
use babello::languages::languages;
use babello::screen::{
    bordered_inner, centered_rect, popup_layout, screen_layout, tab_body_layout, Area,
};
use babello::tui::{
    popup_filter_line, popup_item_lines, popup_title, status_line, tab_header,
    tab_position, entry_matches_lowered, App, KeyCode, KeyInput, KeyOutcome, LangPopup, Mode, PopupKind,
    StatusStyle, Tab, TabState, WorkerMsg, WorkerPoll,
};

fn key(code: KeyCode) -> KeyInput {
    KeyInput { code, ctrl: false }
}

fn ch(c: char) -> KeyInput {
    key(KeyCode::Char(c))
}

fn ctrl(c: char) -> KeyInput {
    KeyInput { code: KeyCode::Char(c), ctrl: true }
}

fn items(codes: &[&str]) -> Vec<(String, String)> {
    codes.iter().map(|c| (c.to_string(), format!("Name of {c}"))).collect()
}

fn result(detected: &str, text: &str) -> DeepLTranslation {
    DeepLTranslation { detected_source_language: detected.to_string(), text: text.to_string() }
}

fn selected_code(app: &App) -> Option<String> {
    app.popup.as_ref().and_then(|p| p.selected().map(|e| e.0.clone()))
}

#[test]
fn new_editor() {
    let app = App::new(languages());
    assert!(app.tab == Tab::Translate);
    assert!(app.mode == Mode::Normal);
    assert_eq!(app.translate.target_lang, Some("EN-US".to_string()));
    assert_eq!(app.translate.input, vec![String::new()]);
    assert_eq!(app.improve.output_title, "Improved text");
    assert_eq!(app.improve.target_lang, None);
    assert!(!app.loading && !app.should_quit && app.popup.is_none());
}

#[test]
fn ctrl_c_quits_even_with_a_list_open() {
    let mut app = App::new(languages());
    app.on_key(ch('t'));
    assert!(app.popup.is_some());
    assert!(matches!(app.on_key(ctrl('c')), KeyOutcome::Nothing));
    assert!(app.should_quit);
}

#[test]
fn q_quits_in_normal_mode_only() {
    let mut app = App::new(languages());
    app.on_key(ch('i'));
    assert!(app.mode == Mode::Editing);
    assert!(matches!(app.on_key(ch('q')), KeyOutcome::EditInput));
    assert!(!app.should_quit);
    app.on_key(key(KeyCode::Esc));
    assert!(app.mode == Mode::Normal);
    app.on_key(ch('q'));
    assert!(app.should_quit);
}

#[test]
fn tab_switches_and_switches_back() {
    let mut app = App::new(languages());
    app.on_key(key(KeyCode::Tab));
    assert!(app.tab == Tab::Improve);
    app.on_key(key(KeyCode::Tab));
    assert!(app.tab == Tab::Translate);
}

#[test]
fn source_list_only_on_translate_tab() {
    let mut app = App::new(languages());
    app.on_key(key(KeyCode::Tab));
    app.on_key(ch('s'));
    assert!(app.popup.is_none());
    app.on_key(key(KeyCode::Tab));
    app.on_key(ch('s'));
    let p = app.popup.as_ref().unwrap();
    assert!(p.kind == PopupKind::SourceLang);
    assert_eq!(p.items.len(), 126);
    assert_eq!(p.items[0].0, "Auto");
}

#[test]
fn choosing_a_target_language_by_filter() {
    let mut app = App::new(languages());
    app.on_key(ch('t'));
    assert_eq!(app.popup.as_ref().unwrap().items.len(), 125);
    for c in "ital".chars() {
        app.on_key(ch(c));
    }
    assert_eq!(popup_filter_line(app.popup.as_ref().unwrap()), "/ital");
    assert_eq!(selected_code(&app), Some("IT".to_string()));
    app.on_key(key(KeyCode::Enter));
    assert!(app.popup.is_none());
    assert_eq!(app.translate.target_lang, Some("IT".to_string()));
}

#[test]
fn filter_is_case_insensitive_and_backspace_widens_it() {
    let mut app = App::new(languages());
    app.on_key(ch('t'));
    for c in "GERMAN".chars() {
        app.on_key(ch(c));
    }
    let lines = popup_item_lines(app.popup.as_ref().unwrap());
    assert_eq!(lines, vec!["DE — German", "DE-CH — German (Swiss)", "DE-DE — German (Germany)"]);
    for _ in 0..6 {
        app.on_key(key(KeyCode::Backspace));
    }
    assert_eq!(app.popup.as_ref().unwrap().filtered.len(), 125);
    app.on_key(key(KeyCode::Backspace));
    assert_eq!(app.popup.as_ref().unwrap().filter, "");
}

#[test]
fn no_match_means_no_selection() {
    let mut app = App::new(languages());
    app.on_key(ch('t'));
    for c in "qqqq".chars() {
        app.on_key(ch(c));
    }
    assert!(app.popup.as_ref().unwrap().filtered.is_empty());
    assert_eq!(app.popup.as_ref().unwrap().selected, None);
    app.on_key(key(KeyCode::Down));
    assert_eq!(app.popup.as_ref().unwrap().selected, None);
    app.on_key(key(KeyCode::Enter));
    assert!(app.popup.is_none());
    assert_eq!(app.translate.target_lang, Some("EN-US".to_string()));
}

#[test]
fn selection_wraps_round() {
    let mut p = LangPopup::new(PopupKind::TargetLang, items(&["A", "B", "C"]));
    assert_eq!(p.selected, Some(0));
    p.select_prev();
    assert_eq!(p.selected, Some(2));
    p.select_next();
    assert_eq!(p.selected, Some(0));
    p.select_next();
    p.select_next();
    assert_eq!(p.selected().unwrap().0, "C");
    p.select_next();
    assert_eq!(p.selected, Some(0));
}

#[test]
fn next_then_previous_restores_the_selection() {
    let mut p = LangPopup::new(PopupKind::TargetLang, items(&["A", "B", "C", "D"]));
    for _ in 0..4 {
        let before = p.selected;
        p.select_next();
        p.select_prev();
        assert_eq!(p.selected, before);
        p.select_prev();
        p.select_next();
        assert_eq!(p.selected, before);
        p.select_next();
    }
}

#[test]
fn empty_list_has_no_selection() {
    let mut p = LangPopup::new(PopupKind::SourceLang, Vec::new());
    assert_eq!(p.selected, None);
    p.select_next();
    p.select_prev();
    assert_eq!(p.selected, None);
    assert!(p.selected().is_none());
}

#[test]
fn ctrl_n_and_ctrl_p_move_the_selection() {
    let mut app = App::new(languages());
    app.on_key(ch('t'));
    app.on_key(ctrl('n'));
    assert_eq!(selected_code(&app), Some("AF".to_string()));
    app.on_key(ctrl('p'));
    app.on_key(ctrl('p'));
    assert_eq!(selected_code(&app), Some("ZU".to_string()));
    assert_eq!(app.popup.as_ref().unwrap().filter, "");
}

#[test]
fn auto_entry_clears_the_language() {
    let mut app = App::new(languages());
    app.on_key(key(KeyCode::Tab));
    app.on_key(ch('t'));
    let p = app.popup.as_ref().unwrap();
    assert_eq!(p.items.len(), 15);
    assert_eq!(p.items[0].0, "Auto");
    app.on_key(key(KeyCode::Down));
    app.on_key(key(KeyCode::Enter));
    assert_eq!(app.improve.target_lang, Some("DE".to_string()));
    app.on_key(ch('t'));
    app.on_key(key(KeyCode::Enter));
    assert_eq!(app.improve.target_lang, None);
}

#[test]
fn choosing_a_source_language_forgets_the_detected_one() {
    let mut app = App::new(languages());
    app.translate.detected = Some("IT".to_string());
    app.on_key(ch('s'));
    app.on_key(key(KeyCode::Down));
    app.on_key(key(KeyCode::Enter));
    assert_eq!(app.translate.source_lang, Some("ACE".to_string()));
    assert_eq!(app.translate.detected, None);
}

#[test]
fn blank_input_is_refused() {
    let mut app = App::new(languages());
    app.active_tab_state().input = vec!["  ".to_string(), "\t".to_string()];
    assert!(matches!(app.on_key(ch('r')), KeyOutcome::Nothing));
    assert_eq!(app.error, Some("Input text is empty".to_string()));
    assert!(!app.loading);
    app.on_key(ch('x'));
    assert_eq!(app.error, None);
}

#[test]
fn translation_needs_a_target_language() {
    let mut app = App::new(languages());
    app.translate.target_lang = None;
    app.active_tab_state().input = vec!["Ciao".to_string()];
    assert!(matches!(app.on_key(ch('r')), KeyOutcome::Nothing));
    assert_eq!(app.error, Some("Choose a target language first (press 't')".to_string()));
}

#[test]
fn translation_request_and_answer() {
    let mut app = App::new(languages());
    app.active_tab_state().input = vec!["Ciao".to_string(), "mondo".to_string()];
    match app.on_key(ch('r')) {
        KeyOutcome::SpawnTranslate { text, source_lang, target_lang } => {
            assert_eq!(text, "Ciao\nmondo");
            assert_eq!(source_lang, None);
            assert_eq!(target_lang, "EN-US");
        }
        _ => panic!("expected a translation"),
    }
    assert!(app.loading && app.awaiting_worker);
    assert!(matches!(app.on_key(ch('r')), KeyOutcome::Nothing));
    app.poll_worker(WorkerPoll::Empty);
    assert!(app.loading);
    app.poll_worker(WorkerPoll::Message(WorkerMsg::Translate(Ok(vec![
        result("IT", "Hello"),
        result("IT", "world"),
    ]))));
    assert!(!app.loading && !app.awaiting_worker);
    assert_eq!(app.translate.output, vec!["Hello".to_string(), "world".to_string()]);
    assert_eq!(app.translate.output_title, "Translation");
    assert_eq!(app.translate.detected, Some("IT".to_string()));
}

#[test]
fn improvement_error_is_shown() {
    let mut app = App::new(languages());
    app.on_key(key(KeyCode::Tab));
    app.active_tab_state().input = vec!["Ciao".to_string()];
    match app.on_key(ch('r')) {
        KeyOutcome::SpawnImprove { text, target_lang } => {
            assert_eq!(text, "Ciao");
            assert_eq!(target_lang, None);
        }
        _ => panic!("expected a correction"),
    }
    app.poll_worker(WorkerPoll::Message(WorkerMsg::Improve(Err("timed out".to_string()))));
    assert_eq!(app.error, Some("timed out".to_string()));
    assert!(!app.loading);
    assert_eq!(status_line(&app).0, "Error: timed out");
}

#[test]
fn disconnected_worker_ends_the_wait() {
    let mut app = App::new(languages());
    app.active_tab_state().input = vec!["Ciao".to_string()];
    app.on_key(ch('r'));
    app.poll_worker(WorkerPoll::Disconnected);
    assert!(!app.loading && !app.awaiting_worker);
    assert_eq!(app.error, None);
}

#[test]
fn answers_without_a_request_are_ignored() {
    let mut app = App::new(languages());
    app.poll_worker(WorkerPoll::Message(WorkerMsg::Translate(Err("late".to_string()))));
    assert_eq!(app.error, None);
}

#[test]
fn output_round_trip() {
    let mut t = TabState::new("In", "Out");
    t.set_output("a\n\nb\n", "Done");
    assert_eq!(t.output, vec!["a".to_string(), String::new(), "b".to_string(), String::new()]);
    assert_eq!(t.output.join("\n"), "a\n\nb\n");
    assert_eq!(t.output_title, "Done");
    t.input = vec!["x".to_string(), "y".to_string()];
    assert_eq!(t.input_text(), "x\ny");
}

#[test]
fn header_and_status_text() {
    let mut app = App::new(languages());
    assert_eq!(tab_header(&app.translate, true), "Source: Auto   Target: EN-US");
    app.translate.detected = Some("IT".to_string());
    assert_eq!(tab_header(&app.translate, true), "Source: Auto   Target: EN-US   (detected: IT)");
    assert_eq!(tab_header(&app.improve, false), "Target: Auto");
    let (text, style) = status_line(&app);
    assert!(style == StatusStyle::Hint);
    assert_eq!(text, "i: edit  s: source lang  t: target lang  r: run  Tab: switch tab  q: quit");
    app.on_key(ch('i'));
    assert_eq!(status_line(&app).0, "Esc: stop editing");
    app.loading = true;
    app.awaiting_worker = true;
    assert!(status_line(&app) == ("Working…".to_string(), StatusStyle::Busy));
    assert_eq!(tab_position(Tab::Improve), 1);
    assert_eq!(popup_title(PopupKind::SourceLang), "Source Language");
}

#[test]
fn centred_area_of_the_list() {
    let r = centered_rect(50, 70, Area { x: 0, y: 0, width: 100, height: 100 });
    assert!(r == Area { x: 25, y: 15, width: 50, height: 70 });
    let r = centered_rect(100, 100, Area { x: 3, y: 4, width: 10, height: 20 });
    assert!(r == Area { x: 3, y: 4, width: 10, height: 20 });
}

fn area(x: u16, y: u16, width: u16, height: u16) -> Area {
    Area { x, y, width, height }
}

#[test]
fn screen_is_tab_bar_body_and_status() {
    let (bar, body, status) = screen_layout(area(0, 0, 80, 24));
    assert!(bar == area(0, 0, 80, 1));
    assert!(body == area(0, 1, 80, 22));
    assert!(status == area(0, 23, 80, 1));
}

#[test]
fn tab_body_is_header_and_two_panes() {
    let (header, input, output) = tab_body_layout(area(0, 1, 80, 22));
    assert!(header == area(0, 1, 80, 1));
    assert!(input == area(0, 2, 40, 21));
    assert!(output == area(40, 2, 40, 21));
}

#[test]
fn list_inside_is_filter_line_and_entries() {
    let (filter, entries) = popup_layout(area(21, 4, 38, 14));
    assert!(filter == area(21, 4, 38, 1));
    assert!(entries == area(21, 5, 38, 13));
}

#[test]
fn inside_of_a_bordered_block() {
    assert!(bordered_inner(area(20, 3, 40, 16)) == area(21, 4, 38, 14));
    assert!(bordered_inner(area(5, 5, 1, 0)) == area(6, 5, 0, 0));
    assert!(bordered_inner(area(5, 5, 0, 0)) == area(5, 5, 0, 0));
    assert!(bordered_inner(area(u16::MAX, 0, 3, 3)) == area(u16::MAX, 1, 1, 1));
}

#[test]
fn inside_of_a_bordered_block_matches_the_widget() {
    for (x, y, w, h) in [(0u16, 0u16, 0u16, 0u16), (1, 2, 3, 4), (10, 10, 1, 1), (65530, 65530, 20, 20), (3, 4, 100, 2)] {
        let inner = ratatui::widgets::Block::bordered().title("Source Language").inner(ratatui::layout::Rect { x, y, width: w, height: h });
        let mine = bordered_inner(area(x, y, w, h));
        assert!(mine == area(inner.x, inner.y, inner.width, inner.height), "{x} {y} {w} {h}");
    }
}

#[test]
fn matching_on_lowercase_forms() {
    assert!(entry_matches_lowered("", "de", "german"));
    assert!(entry_matches_lowered("ger", "de", "german"));
    assert!(entry_matches_lowered("de", "de-ch", "german (swiss)"));
    assert!(!entry_matches_lowered("fr", "de", "german"));
}

#[test]
fn lists_stay_well_formed() {
    let mut app = App::new(languages());
    app.on_key(ch('t'));
    assert!(app.popup.as_ref().unwrap().is_well_formed());
    for c in "zzz".chars() {
        app.on_key(ch(c));
        assert!(app.popup.as_ref().unwrap().is_well_formed());
    }
    app.on_key(key(KeyCode::Backspace));
    app.on_key(key(KeyCode::Backspace));
    app.on_key(key(KeyCode::Up));
    assert!(app.popup.as_ref().unwrap().is_well_formed());
    let mut p = LangPopup::new(PopupKind::TargetLang, items(&["A", "B"]));
    p.selected = Some(2);
    assert!(!p.is_well_formed());
    p.selected = None;
    assert!(!p.is_well_formed());
    p.selected = Some(1);
    p.filtered = vec![0, 5];
    assert!(!p.is_well_formed());
}

#[test]
fn typing_then_backspace_restores_the_list() {
    let mut app = App::new(languages());
    app.on_key(ch('t'));
    for c in "en".chars() {
        app.on_key(ch(c));
    }
    app.on_key(key(KeyCode::Down));
    let before_filtered = app.popup.as_ref().unwrap().filtered.clone();
    app.on_key(ch('g'));
    let narrowed = app.popup.as_ref().unwrap().filtered.clone();
    assert!(narrowed.len() < before_filtered.len());
    assert!(narrowed.iter().all(|i| before_filtered.contains(i)));
    app.on_key(key(KeyCode::Backspace));
    let p = app.popup.as_ref().unwrap();
    assert_eq!(p.filter, "en");
    assert_eq!(p.filtered, before_filtered);
    assert_eq!(p.selected, Some(0));
}

#[test]
fn empty_filter_shows_every_entry() {
    let mut p = LangPopup::new(PopupKind::TargetLang, items(&["A", "B", "C"]));
    p.filter = "b".to_string();
    p.refilter();
    assert_eq!(p.filtered, vec![1]);
    p.filter = String::new();
    p.refilter();
    assert_eq!(p.filtered, vec![0, 1, 2]);
}

#[test]
fn layout_parts_lie_in_their_area() {
    let screen = area(3, 2, 70, 30);
    let (bar, body, status) = screen_layout(screen);
    for part in [bar, body, status] {
        assert!(part.x == 3 && part.width == 70);
        assert!(part.y >= 2 && part.y + part.height <= 32);
    }
    let c = centered_rect(50, 70, screen);
    assert!(c.x >= 3 && c.x + c.width <= 73 && c.y >= 2 && c.y + c.height <= 32);
}

#[test]
fn normal_tab_twice_restores_everything() {
    let mut app = App::new(languages());
    assert!(matches!(app.on_normal_key(key(KeyCode::Tab)), KeyOutcome::Nothing));
    assert!(app.tab == Tab::Improve);
    assert!(app.mode == Mode::Normal && app.popup.is_none() && !app.should_quit);
    app.on_normal_key(key(KeyCode::Tab));
    assert!(app.tab == Tab::Translate);
    assert!(app.mode == Mode::Normal && app.popup.is_none() && !app.loading);
}

#[test]
fn popup_typing_then_backspace_restores_the_list() {
    let mut app = App::new(languages());
    app.on_normal_key(ch('t'));
    app.on_popup_key(ch('g'));
    app.on_popup_key(ch('e'));
    let before = app.popup.as_ref().unwrap().filtered.clone();
    let filter_before = app.popup.as_ref().unwrap().filter.clone();
    app.on_popup_key(ch('r'));
    assert!(app.popup.as_ref().unwrap().filtered.len() <= before.len());
    app.on_popup_key(key(KeyCode::Backspace));
    let p = app.popup.as_ref().unwrap();
    assert_eq!(p.filter, filter_before);
    assert_eq!(p.filtered, before);
    assert_eq!(p.selected, if before.is_empty() { None } else { Some(0) });
}

#[test]
fn popup_key_without_a_list_changes_nothing() {
    let mut app = App::new(languages());
    app.on_popup_key(key(KeyCode::Enter));
    app.on_popup_key(ch('x'));
    assert!(app.popup.is_none());
    assert_eq!(app.translate.target_lang, Some("EN-US".to_string()));
    assert!(app.tab == Tab::Translate && app.mode == Mode::Normal);
}
