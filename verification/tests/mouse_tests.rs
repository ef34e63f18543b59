use gi_gen::app::{App, PopupFlag, UiEffect};
use gi_gen::input::{Event, MouseButton, MouseEvent, MouseKind};

fn left_click(column: u16, row: u16) -> MouseEvent {
    MouseEvent { kind: MouseKind::Up(MouseButton::Left), column, row }
}

fn ready_app(names: &[&str]) -> App {
    let mut app = App::new();
    app.initialize(names.iter().map(|n| n.to_string()).collect());
    app.handle_resize_event(80, 24);
    app
}

// On an 80 by 24 screen the filter bar is row 0, the Available pane covers
// rows 1..=22 and columns 0..=39, the Selected pane columns 40..=79, and the
// task bar is row 23. Inside a pane, the item with index i sits on screen
// row i + 2 while the viewport is unscrolled.

#[test]
fn click_on_unfocused_pane_switches_focus() {
    let mut app = ready_app(&["go"]);
    assert!(app.available_pane().has_focus());
    app.handle_mouse_event(left_click(50, 2));
    assert!(app.selected_pane().has_focus());
    assert!(!app.available_pane().has_focus());
}

#[test]
fn click_on_other_row_moves_highlight() {
    let mut app = ready_app(&["a", "b", "c"]);
    assert_eq!(app.available_pane().list_state().selected(), Some(0));
    app.handle_mouse_event(left_click(5, 3));
    assert_eq!(app.available_pane().list_state().selected(), Some(1));
    assert_eq!(app.selected_pane().templates().len(), 0);
}

#[test]
fn click_on_highlighted_row_confirms_it() {
    let mut app = ready_app(&["a", "b", "c"]);
    app.handle_mouse_event(left_click(5, 3));
    app.handle_mouse_event(left_click(5, 3));
    assert_eq!(app.selected_pane().templates().clone(), vec!["b"]);
    assert_eq!(app.available_pane().templates().clone(), vec!["a", "c"]);
}

#[test]
fn click_outside_items_does_nothing() {
    let mut app = ready_app(&["a"]);
    app.handle_mouse_event(left_click(5, 20));
    assert_eq!(app.available_pane().list_state().selected(), Some(0));
    assert_eq!(app.selected_pane().templates().len(), 0);
}

#[test]
fn scroll_moves_highlight_by_one() {
    let mut app = ready_app(&["a", "b", "c"]);
    app.handle_mouse_event(MouseEvent { kind: MouseKind::ScrollDown, column: 5, row: 5 });
    assert_eq!(app.available_pane().list_state().selected(), Some(1));
    app.handle_mouse_event(MouseEvent { kind: MouseKind::ScrollUp, column: 5, row: 5 });
    assert_eq!(app.available_pane().list_state().selected(), Some(0));
}

#[test]
fn task_bar_click_runs_the_shortcut() {
    let mut app = ready_app(&["go"]);
    // The third button, "[^S Save]", spans columns 22..=30 of the task bar.
    let eff = app.handle_mouse_event(left_click(22, 23));
    assert!(matches!(eff, UiEffect::Nothing));
    assert!(matches!(app.popup(), Some(PopupFlag::Error(_))));
}

#[test]
fn task_bar_click_in_a_gap_does_nothing() {
    let mut app = ready_app(&["go"]);
    let eff = app.handle_mouse_event(left_click(0, 23));
    assert!(matches!(eff, UiEffect::Nothing));
    assert!(app.popup().is_none());
}

#[test]
fn task_bar_help_button_opens_help() {
    let mut app = ready_app(&["go"]);
    // The first button, "[F1 Help]", spans columns 1..=9.
    app.handle_mouse_event(left_click(1, 23));
    assert!(matches!(app.popup(), Some(PopupFlag::Help)));
}

#[test]
fn right_click_is_ignored() {
    let mut app = ready_app(&["a", "b"]);
    app.handle_mouse_event(MouseEvent {
        kind: MouseKind::Up(MouseButton::Right),
        column: 5,
        row: 3,
    });
    assert_eq!(app.available_pane().list_state().selected(), Some(0));
}

#[test]
fn save_decision_popup_takes_all_clicks() {
    let mut app = ready_app(&["go"]);
    app.handle_event(Event::TemplateSelect("go".to_string()));
    app.handle_key_event(gi_gen::input::KeyEvent {
        code: gi_gen::input::KeyCode::Char('s'),
        ctrl: true,
    });
    app.save_fetched(true);
    assert!(matches!(app.popup(), Some(PopupFlag::SaveOption)));
    // A click inside the popup but on no button does nothing.
    app.handle_mouse_event(left_click(26, 8));
    assert!(matches!(app.popup(), Some(PopupFlag::SaveOption)));
    // The Append button sits at columns 36..=43 of row 13.
    let eff = app.handle_mouse_event(left_click(36, 13));
    assert!(matches!(eff, UiEffect::FetchTemplates(_)));
    assert!(app.popup().is_none());
}

#[test]
fn click_outside_save_decision_popup_cancels() {
    let mut app = ready_app(&["go"]);
    app.handle_event(Event::TemplateSelect("go".to_string()));
    app.handle_key_event(gi_gen::input::KeyEvent {
        code: gi_gen::input::KeyCode::Char('s'),
        ctrl: true,
    });
    app.save_fetched(true);
    let eff = app.handle_mouse_event(left_click(0, 0));
    assert!(matches!(eff, UiEffect::Nothing));
    assert!(app.popup().is_none());
    assert_eq!(app.selected_pane().templates().clone(), vec!["go"]);
}
