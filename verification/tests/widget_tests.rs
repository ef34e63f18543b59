use gi_gen::filter::Filter;
use gi_gen::geom::{calculate_frames, centered_rect, is_in_rect, Rect};
use gi_gen::input::{KeyCode, KeyEvent};
use gi_gen::save_option::{SaveOption, SaveOptions};
use gi_gen::task_bar::TaskBar;
use gi_gen::template_list::TemplateList;

#[test]
fn rect_contains_checks_all_edges() {
    let r = Rect::new(2, 3, 4, 5);
    assert!(r.contains(2, 3));
    assert!(r.contains(5, 7));
    assert!(!r.contains(6, 3));
    assert!(!r.contains(2, 8));
    assert!(!r.contains(1, 3));
    assert!(is_in_rect(3, 4, r));
    assert!(!is_in_rect(0, 0, r));
}

#[test]
fn empty_rect_contains_nothing() {
    let r = Rect::new(5, 5, 0, 0);
    assert!(!r.contains(5, 5));
}

#[test]
fn centered_rect_centers() {
    let r = centered_rect(10, 4, Rect::new(0, 0, 80, 24));
    assert_eq!(r, Rect::new(35, 10, 10, 4));
}

#[test]
fn frames_split_the_screen() {
    let f = calculate_frames(Rect::new(0, 0, 80, 24));
    assert_eq!(f.filter, Rect::new(0, 0, 80, 1));
    assert_eq!(f.available, Rect::new(0, 1, 40, 22));
    assert_eq!(f.selected, Rect::new(40, 1, 40, 22));
    assert_eq!(f.task_bar, Rect::new(0, 23, 80, 1));
}

#[test]
fn frames_give_odd_column_to_right_pane() {
    let f = calculate_frames(Rect::new(0, 0, 81, 24));
    assert_eq!(f.available.width, 40);
    assert_eq!(f.selected.width, 41);
    assert_eq!(f.selected.x, 40);
}

#[test]
fn filter_box_edits() {
    let mut f = Filter::new();
    assert_eq!(f.text().len(), 0);
    f.append('a');
    f.append('B');
    assert_eq!(f.text().clone(), vec!['a', 'B']);
    f.delete_last();
    assert_eq!(f.text().clone(), vec!['a']);
    f.delete_last();
    f.delete_last();
    assert_eq!(f.text().len(), 0);
    f.set_text("go");
    assert_eq!(f.text().clone(), vec!['g', 'o']);
    f.clear();
    assert_eq!(f.text().len(), 0);
}

#[test]
fn task_bar_hit_test_finds_buttons_and_gaps() {
    let mut bar = TaskBar::new();
    bar.add_task(KeyEvent { code: KeyCode::F(1), ctrl: false }, "F1 Help");
    bar.add_task(KeyEvent { code: KeyCode::Char('q'), ctrl: true }, "^Q Quit");
    // "[F1 Help]" covers columns 1..=9, "[^Q Quit]" columns 11..=19.
    assert_eq!(bar.hit_test(0), None);
    assert_eq!(bar.hit_test(1), Some(KeyEvent { code: KeyCode::F(1), ctrl: false }));
    assert_eq!(bar.hit_test(9), Some(KeyEvent { code: KeyCode::F(1), ctrl: false }));
    assert_eq!(bar.hit_test(10), None);
    assert_eq!(bar.hit_test(11), Some(KeyEvent { code: KeyCode::Char('q'), ctrl: true }));
    assert_eq!(bar.hit_test(19), Some(KeyEvent { code: KeyCode::Char('q'), ctrl: true }));
    assert_eq!(bar.hit_test(20), None);
    assert_eq!(bar.buttons().len(), 2);
    assert_eq!(bar.buttons()[0].text(), "F1 Help");
}

#[test]
fn save_option_keys_pick_choices() {
    let popup = SaveOption::new();
    assert!(matches!(popup.key_test('r'), Some(SaveOptions::Replace)));
    assert!(matches!(popup.key_test('a'), Some(SaveOptions::Append)));
    assert!(matches!(popup.key_test('c'), Some(SaveOptions::Cancel)));
    assert!(popup.key_test('x').is_none());
}

#[test]
fn save_option_layout_and_hit_test() {
    let mut popup = SaveOption::new();
    popup.handle_resize_event(Rect::new(0, 0, 80, 24));
    let frames = popup.frame_set();
    assert_eq!(frames.popup, Rect::new(25, 7, 30, 9));
    assert_eq!(frames.replace, Rect::new(35, 12, 9, 1));
    assert_eq!(frames.append, Rect::new(36, 13, 8, 1));
    assert_eq!(frames.cancel, Rect::new(36, 14, 8, 1));
    assert!(matches!(popup.hit_test(35, 12), Some(SaveOptions::Replace)));
    assert!(matches!(popup.hit_test(36, 13), Some(SaveOptions::Append)));
    assert!(matches!(popup.hit_test(36, 14), Some(SaveOptions::Cancel)));
    assert!(matches!(popup.hit_test(0, 0), Some(SaveOptions::Cancel)));
    assert!(popup.hit_test(26, 8).is_none());
}

#[test]
fn pane_set_templates_initializes_cursor() {
    let mut pane = TemplateList::new();
    pane.set_templates(vec!["a".to_string(), "b".to_string()]);
    assert_eq!(pane.list_state().selected(), Some(0));
    assert_eq!(pane.templates().clone(), vec!["a", "b"]);
    pane.set_templates(Vec::new());
    assert_eq!(pane.list_state().selected(), None);
}

#[test]
fn pane_titles_and_focus() {
    let mut pane = TemplateList::new();
    pane.set_title("Available Templates");
    assert_eq!(pane.title(), "Available Templates");
    assert!(!pane.has_focus());
    pane.set_focus(true);
    assert!(pane.has_focus());
}

#[test]
fn pane_index_from_row_uses_area_and_offset() {
    let mut pane = TemplateList::new();
    pane.set_templates(vec!["a".to_string(), "b".to_string(), "c".to_string()]);
    pane.handle_resize_event(Rect::new(0, 1, 40, 22));
    assert_eq!(pane.index_from_row(2), Some(0));
    assert_eq!(pane.index_from_row(4), Some(2));
    assert_eq!(pane.index_from_row(5), None);
    assert_eq!(pane.index_from_row(1), None);
    assert_eq!(pane.index_from_row(0), None);
}

#[test]
fn pane_chosen_template_is_the_highlighted_one() {
    let mut pane = TemplateList::new();
    pane.set_templates(vec!["a".to_string(), "b".to_string()]);
    assert_eq!(pane.chosen_template(), Some("a".to_string()));
    let chosen = pane.handle_key_event(KeyEvent { code: KeyCode::Enter, ctrl: false });
    assert_eq!(chosen, Some("a".to_string()));
}
