use gi_gen::app::{App, PopupFlag, UiEffect, WriteMode};
use gi_gen::input::{Event, KeyCode, KeyEvent, MouseButton, MouseEvent, MouseKind};
use gi_gen::save_option::SaveOptions;

fn key(code: KeyCode) -> KeyEvent {
    KeyEvent { code, ctrl: false }
}

fn ctrl(ch: char) -> KeyEvent {
    KeyEvent { code: KeyCode::Char(ch), ctrl: true }
}

fn left_click(column: u16, row: u16) -> MouseEvent {
    MouseEvent { kind: MouseKind::Up(MouseButton::Left), column, row }
}

fn ready_app(names: &[&str]) -> App {
    let mut app = App::new();
    app.initialize(names.iter().map(|n| n.to_string()).collect());
    app.handle_resize_event(80, 24);
    app
}

fn available(app: &App) -> Vec<String> {
    app.available_pane().templates().clone()
}

fn selected(app: &App) -> Vec<String> {
    app.selected_pane().templates().clone()
}

fn error_message(app: &App) -> Option<String> {
    match app.popup() {
        Some(PopupFlag::Error(msg)) => Some(msg.clone()),
        _ => None,
    }
}

#[test]
fn typing_a_letter_filters_available_list() {
    let mut app = ready_app(&["python", "go", "node"]);
    // Every name containing the typed text stays; "o" occurs in all three,
    // "d" only in "node".
    let eff = app.handle_key_event(key(KeyCode::Char('o')));
    assert!(matches!(eff, UiEffect::Nothing));
    assert_eq!(available(&app), vec!["go", "node", "python"]);
    app.handle_key_event(key(KeyCode::Backspace));
    app.handle_key_event(key(KeyCode::Char('d')));
    assert_eq!(available(&app), vec!["node"]);
    assert_eq!(selected(&app), Vec::<String>::new());
}

#[test]
fn typed_filter_characters_are_lowercased() {
    let mut app = ready_app(&["python", "go", "node"]);
    app.handle_key_event(key(KeyCode::Char('D')));
    assert_eq!(app.filter_text().clone(), vec!['d']);
    assert_eq!(available(&app), vec!["node"]);
}

#[test]
fn backspace_removes_last_filter_character() {
    let mut app = ready_app(&["python", "go", "node"]);
    app.handle_key_event(key(KeyCode::Char('d')));
    assert_eq!(available(&app), vec!["node"]);
    app.handle_key_event(key(KeyCode::Backspace));
    assert_eq!(app.filter_text().len(), 0);
    assert_eq!(available(&app), vec!["go", "node", "python"]);
}

#[test]
fn escape_clears_the_filter() {
    let mut app = ready_app(&["python", "go", "node"]);
    app.handle_key_event(key(KeyCode::Char('o')));
    app.handle_key_event(key(KeyCode::Char('d')));
    assert_eq!(available(&app), vec!["node"]);
    app.handle_key_event(key(KeyCode::Esc));
    assert_eq!(available(&app), vec!["go", "node", "python"]);
}

#[test]
fn filter_cpp_matches_literal_name() {
    let mut app = ready_app(&["c++", "c", "go"]);
    app.handle_key_event(key(KeyCode::Char('c')));
    app.handle_key_event(key(KeyCode::Char('+')));
    app.handle_key_event(key(KeyCode::Char('+')));
    assert_eq!(available(&app), vec!["c++"]);
}

#[test]
fn selecting_go_then_node_partitions_lists() {
    let mut app = ready_app(&["python", "go", "node"]);
    app.handle_event(Event::TemplateSelect("go".to_string()));
    app.handle_event(Event::TemplateSelect("node".to_string()));
    assert_eq!(selected(&app), vec!["go", "node"]);
    assert_eq!(available(&app), vec!["python"]);
}

#[test]
fn enter_on_highlighted_template_selects_it() {
    let mut app = ready_app(&["python", "go", "node"]);
    // The Available pane has focus and its first item, "go", is highlighted.
    let eff = app.handle_key_event(key(KeyCode::Enter));
    assert!(matches!(eff, UiEffect::Nothing));
    assert_eq!(selected(&app), vec!["go"]);
    assert_eq!(available(&app), vec!["node", "python"]);
}

#[test]
fn space_toggles_like_enter() {
    let mut app = ready_app(&["go"]);
    app.handle_key_event(key(KeyCode::Char(' ')));
    assert_eq!(selected(&app), vec!["go"]);
    app.handle_key_event(key(KeyCode::Tab));
    app.handle_key_event(key(KeyCode::Char(' ')));
    assert_eq!(selected(&app), Vec::<String>::new());
    assert_eq!(available(&app), vec!["go"]);
}

#[test]
fn tab_toggles_focus_between_panes() {
    let mut app = ready_app(&["go"]);
    assert!(app.available_pane().has_focus());
    assert!(!app.selected_pane().has_focus());
    app.handle_key_event(key(KeyCode::Tab));
    assert!(!app.available_pane().has_focus());
    assert!(app.selected_pane().has_focus());
    app.handle_key_event(key(KeyCode::Tab));
    assert!(app.available_pane().has_focus());
}

#[test]
fn arrows_move_the_highlight() {
    let mut app = ready_app(&["a", "b", "c"]);
    app.handle_key_event(key(KeyCode::Down));
    assert_eq!(app.available_pane().list_state().selected(), Some(1));
    app.handle_key_event(key(KeyCode::Up));
    assert_eq!(app.available_pane().list_state().selected(), Some(0));
    app.handle_key_event(key(KeyCode::End));
    assert_eq!(app.available_pane().list_state().selected(), Some(2));
    app.handle_key_event(key(KeyCode::Home));
    assert_eq!(app.available_pane().list_state().selected(), Some(0));
}

#[test]
fn ctrl_p_and_ctrl_n_move_like_arrows() {
    let mut app = ready_app(&["a", "b", "c"]);
    app.handle_key_event(ctrl('n'));
    assert_eq!(app.available_pane().list_state().selected(), Some(1));
    app.handle_key_event(ctrl('p'));
    assert_eq!(app.available_pane().list_state().selected(), Some(0));
}

#[test]
fn saving_with_empty_selection_shows_error_and_writes_nothing() {
    let mut app = ready_app(&["go"]);
    let eff = app.handle_key_event(ctrl('s'));
    assert!(matches!(eff, UiEffect::Nothing));
    assert_eq!(
        error_message(&app).as_deref(),
        Some("Select one or more templates and try again."),
    );
    assert!(!app.should_quit());
}

#[test]
fn save_over_existing_file_asks_then_appends() {
    let mut app = ready_app(&["go", "python"]);
    app.handle_event(Event::TemplateSelect("go".to_string()));
    let eff = app.handle_key_event(ctrl('s'));
    match eff {
        UiEffect::FetchTemplates(names) => assert_eq!(names, vec!["go"]),
        UiEffect::Nothing => panic!("expected a fetch"),
    }
    // The fetch succeeded and ./.gitignore already exists: the app must ask.
    assert_eq!(app.save_fetched(true), None);
    assert!(matches!(app.popup(), Some(PopupFlag::SaveOption)));
    // Choosing Append re-runs the save with the sticky flag set.
    let eff = app.handle_key_event(key(KeyCode::Char('a')));
    match eff {
        UiEffect::FetchTemplates(names) => assert_eq!(names, vec!["go"]),
        UiEffect::Nothing => panic!("expected a second fetch"),
    }
    assert_eq!(app.save_fetched(true), Some(WriteMode::Append));
    let message = app.write_succeeded(WriteMode::Append);
    assert!(message.starts_with("Appended templates"));
    assert_eq!(message, "Appended templates to existing .gitignore file.");
    assert!(app.should_quit());
}

#[test]
fn save_to_missing_file_creates_it() {
    let mut app = ready_app(&["go"]);
    app.handle_event(Event::TemplateSelect("go".to_string()));
    let eff = app.handle_key_event(ctrl('s'));
    assert!(matches!(eff, UiEffect::FetchTemplates(_)));
    assert_eq!(app.save_fetched(false), Some(WriteMode::Create));
    let message = app.write_succeeded(WriteMode::Create);
    assert_eq!(message, "Created new .gitingore file.");
    assert!(app.should_quit());
}

#[test]
fn save_decision_escape_cancels() {
    let mut app = ready_app(&["go"]);
    app.handle_event(Event::TemplateSelect("go".to_string()));
    app.handle_key_event(ctrl('s'));
    app.save_fetched(true);
    assert!(matches!(app.popup(), Some(PopupFlag::SaveOption)));
    let eff = app.handle_key_event(key(KeyCode::Esc));
    assert!(matches!(eff, UiEffect::Nothing));
    assert!(app.popup().is_none());
    assert_eq!(selected(&app), vec!["go"]);
}

#[test]
fn save_decision_replace_sets_replace_mode() {
    let mut app = ready_app(&["go"]);
    app.handle_event(Event::TemplateSelect("go".to_string()));
    app.handle_key_event(ctrl('s'));
    app.save_fetched(true);
    let eff = app.handle_save_option(SaveOptions::Replace);
    assert!(matches!(eff, UiEffect::FetchTemplates(_)));
    assert_eq!(app.save_fetched(true), Some(WriteMode::Replace));
    let message = app.write_succeeded(WriteMode::Replace);
    assert_eq!(message, "Replaced contents of existing .gitignore file.");
}

#[test]
fn fetch_failure_surfaces_as_error_popup() {
    let mut app = ready_app(&["go", "node"]);
    app.handle_event(Event::TemplateSelect("go".to_string()));
    app.handle_event(Event::TemplateSelect("node".to_string()));
    app.handle_key_event(ctrl('s'));
    app.save_fetch_failed("connection refused");
    assert_eq!(
        error_message(&app).as_deref(),
        Some("Problem getting .gitignore for \"go node\": connection refused"),
    );
    assert!(!app.should_quit());
}

#[test]
fn write_failure_keeps_selection_for_retry() {
    let mut app = ready_app(&["go"]);
    app.handle_event(Event::TemplateSelect("go".to_string()));
    app.write_failed("permission denied");
    assert_eq!(error_message(&app).as_deref(), Some("permission denied"));
    assert_eq!(selected(&app), vec!["go"]);
    assert!(!app.should_quit());
}

#[test]
fn ctrl_q_quits_from_normal_state() {
    let mut app = ready_app(&["go"]);
    let eff = app.handle_key_event(ctrl('q'));
    assert!(matches!(eff, UiEffect::Nothing));
    assert!(app.should_quit());
}

#[test]
fn ctrl_q_quits_while_help_popup_is_up() {
    let mut app = ready_app(&["go"]);
    app.handle_key_event(key(KeyCode::F(1)));
    assert!(matches!(app.popup(), Some(PopupFlag::Help)));
    let eff = app.handle_key_event(ctrl('q'));
    assert!(matches!(eff, UiEffect::Nothing));
    assert!(app.should_quit());
}

#[test]
fn ctrl_q_quits_while_save_decision_is_up() {
    let mut app = ready_app(&["go"]);
    app.handle_event(Event::TemplateSelect("go".to_string()));
    app.handle_key_event(ctrl('s'));
    app.save_fetched(true);
    assert!(matches!(app.popup(), Some(PopupFlag::SaveOption)));
    let eff = app.handle_key_event(ctrl('q'));
    assert!(matches!(eff, UiEffect::Nothing));
    assert!(app.should_quit());
}

#[test]
fn help_popup_opens_and_swallows_next_key() {
    let mut app = ready_app(&["python", "go"]);
    app.handle_key_event(key(KeyCode::F(1)));
    assert!(matches!(app.popup(), Some(PopupFlag::Help)));
    app.handle_key_event(key(KeyCode::Char('x')));
    assert!(app.popup().is_none());
    // The dismissing key was swallowed: the filter is still empty.
    assert_eq!(app.filter_text().len(), 0);
    assert_eq!(available(&app), vec!["go", "python"]);
}

#[test]
fn about_popup_opens_on_ctrl_a_and_click_dismisses() {
    let mut app = ready_app(&["go"]);
    app.handle_key_event(ctrl('a'));
    assert!(matches!(app.popup(), Some(PopupFlag::About)));
    app.handle_mouse_event(left_click(2, 2));
    assert!(app.popup().is_none());
}

#[test]
fn unknown_keys_change_nothing() {
    let mut app = ready_app(&["go"]);
    let eff = app.handle_event(Event::Key(KeyEvent { code: KeyCode::Other, ctrl: false }));
    assert!(matches!(eff, UiEffect::Nothing));
    assert!(app.popup().is_none());
    assert!(!app.should_quit());
    assert_eq!(available(&app), vec!["go"]);
}

#[test]
fn lifecycle_events_are_ignored() {
    let mut app = ready_app(&["go"]);
    for event in [Event::Init, Event::Error, Event::Tick, Event::Render, Event::FocusGained,
        Event::FocusLost] {
        let eff = app.handle_event(event);
        assert!(matches!(eff, UiEffect::Nothing));
    }
    assert_eq!(available(&app), vec!["go"]);
}

#[test]
fn page_keys_move_by_the_pane_height() {
    let names: Vec<String> = (0..40).map(|i| format!("t{:02}", i)).collect();
    let mut app = App::new();
    app.initialize(names);
    app.handle_resize_event(80, 24);
    // The pane is 22 rows high, so one page is 20 items.
    let eff = app.handle_key_event(key(KeyCode::PageDown));
    assert!(matches!(eff, UiEffect::Nothing));
    assert_eq!(app.available_pane().list_state().selected(), Some(20));
    app.handle_key_event(key(KeyCode::PageUp));
    assert_eq!(app.available_pane().list_state().selected(), Some(0));
}

#[test]
fn navigation_on_an_empty_list_is_a_no_op() {
    let mut app = ready_app(&[]);
    app.handle_key_event(key(KeyCode::Tab));
    for code in [KeyCode::Down, KeyCode::Up, KeyCode::Home, KeyCode::End, KeyCode::Enter] {
        let eff = app.handle_key_event(key(code));
        assert!(matches!(eff, UiEffect::Nothing));
    }
    assert_eq!(app.selected_pane().list_state().selected(), None);
    assert_eq!(selected(&app), Vec::<String>::new());
}

#[test]
fn resize_recomputes_all_regions() {
    let mut app = ready_app(&["go"]);
    app.handle_resize_event(100, 30);
    let frames = app.frame_set();
    assert_eq!(frames.filter.width, 100);
    assert_eq!(frames.available.width, 50);
    assert_eq!(frames.selected.x, 50);
    assert_eq!(frames.task_bar.y, 29);
    assert!(app.available_pane().hit_test(10, 5));
    assert!(!app.available_pane().hit_test(60, 5));
    assert!(app.selected_pane().hit_test(60, 5));
}
