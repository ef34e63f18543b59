use gi_gen::list_state_wrapper::ListStateWrapper;

#[test]
fn new_cursor_has_no_selection() {
    let c = ListStateWrapper::new();
    assert_eq!(c.size(), 0);
    assert_eq!(c.selected(), None);
    assert_eq!(c.offset(), 0);
    assert!(!c.wrap());
}

#[test]
fn resize_initializes_selection_to_first() {
    let mut c = ListStateWrapper::new();
    c.set_size(5);
    assert_eq!(c.selected(), Some(0));
}

#[test]
fn resize_to_zero_clears_selection() {
    let mut c = ListStateWrapper::new();
    c.set_size(5);
    c.set_selected(Some(3));
    c.set_size(0);
    assert_eq!(c.selected(), None);
}

#[test]
fn resize_back_to_nonzero_selects_first() {
    let mut c = ListStateWrapper::new();
    c.set_size(5);
    c.set_selected(Some(3));
    c.set_size(0);
    c.set_size(4);
    assert_eq!(c.selected(), Some(0));
}

#[test]
fn resize_clamps_selection_to_last() {
    let mut c = ListStateWrapper::new();
    c.set_size(5);
    c.set_selected(Some(4));
    c.set_size(3);
    assert_eq!(c.selected(), Some(2));
}

#[test]
fn advance_then_recede_returns_without_wrap() {
    let mut c = ListStateWrapper::new();
    c.set_size(10);
    c.set_selected(Some(2));
    c.advance_selected(4);
    assert_eq!(c.selected(), Some(6));
    c.recede_selected(4);
    assert_eq!(c.selected(), Some(2));
}

#[test]
fn advance_clamps_at_end_without_wrap() {
    let mut c = ListStateWrapper::new();
    c.set_size(3);
    c.set_selected(Some(2));
    c.advance_selected(5);
    assert_eq!(c.selected(), Some(2));
}

#[test]
fn advance_wraps_from_last_to_first() {
    let mut c = ListStateWrapper::new();
    c.set_size(3);
    c.set_wrap(true);
    c.set_selected(Some(2));
    c.advance_selected(1);
    assert_eq!(c.selected(), Some(0));
}

#[test]
fn recede_wraps_from_first_to_last() {
    let mut c = ListStateWrapper::new();
    c.set_size(3);
    c.set_wrap(true);
    c.set_selected(Some(0));
    c.recede_selected(1);
    assert_eq!(c.selected(), Some(2));
}

#[test]
fn recede_clamps_at_start_without_wrap() {
    let mut c = ListStateWrapper::new();
    c.set_size(3);
    c.set_selected(Some(1));
    c.recede_selected(5);
    assert_eq!(c.selected(), Some(0));
}

#[test]
fn select_first_and_last_jump() {
    let mut c = ListStateWrapper::new();
    c.set_size(7);
    c.select_last();
    assert_eq!(c.selected(), Some(6));
    assert!(c.is_last_selected());
    c.select_first();
    assert_eq!(c.selected(), Some(0));
    assert!(c.is_first_selected());
}

#[test]
fn offset_moves_clamp_without_wrap() {
    let mut c = ListStateWrapper::new();
    c.set_size(10);
    c.advance_offset(4);
    assert_eq!(c.offset(), 4);
    c.advance_offset(100);
    assert_eq!(c.offset(), 9);
    c.recede_offset(3);
    assert_eq!(c.offset(), 6);
    c.recede_offset(100);
    assert_eq!(c.offset(), 0);
}

#[test]
fn is_in_bounds_checks_range_and_emptiness() {
    let mut c = ListStateWrapper::new();
    assert!(!c.is_in_bounds(0));
    c.set_size(3);
    assert!(c.is_in_bounds(0));
    assert!(c.is_in_bounds(2));
    assert!(!c.is_in_bounds(3));
    assert!(!c.is_in_bounds(-1));
}
