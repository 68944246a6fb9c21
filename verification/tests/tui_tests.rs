use sap_automation::tui::{
    selection_status, visible_offset, App, InputOutcome, InputState, KeyInput, MenuOutcome, PAGE_SIZE,
};

fn items(n: usize) -> Vec<String> {
    (0..n).map(|i| format!("item {i}")).collect()
}

#[test]
fn new_menu_selects_nothing() {
    let app = App::new("T".to_string(), items(3));
    assert_eq!(app.get_selected(), None);
    assert_eq!(app.scroll_offset, 0);
}

#[test]
fn default_menu_selects_default_or_first() {
    assert_eq!(App::with_default("T".to_string(), items(5), Some(3)).get_selected(), Some(3));
    assert_eq!(App::with_default("T".to_string(), items(5), None).get_selected(), Some(0));
}

#[test]
fn next_wraps_from_last_to_first() {
    let mut app = App::with_default("T".to_string(), items(3), Some(2));
    app.next();
    assert_eq!(app.get_selected(), Some(0));
    assert_eq!(app.scroll_offset, 0);
    app.next();
    assert_eq!(app.get_selected(), Some(1));
}

#[test]
fn previous_wraps_from_first_to_last() {
    let mut app = App::with_default("T".to_string(), items(3), Some(0));
    app.previous();
    assert_eq!(app.get_selected(), Some(2));
    assert_eq!(app.scroll_offset, 2);
}

#[test]
fn next_then_previous_returns_to_the_row() {
    for start in 0..4 {
        let mut app = App::with_default("T".to_string(), items(4), Some(start));
        app.next();
        app.previous();
        assert_eq!(app.get_selected(), Some(start));
    }
}

#[test]
fn next_cycles_after_len_steps() {
    let mut app = App::with_default("T".to_string(), items(7), Some(4));
    for _ in 0..7 {
        app.next();
    }
    assert_eq!(app.get_selected(), Some(4));
}

#[test]
fn page_moves_stop_at_the_ends() {
    let mut app = App::with_default("T".to_string(), items(25), Some(3));
    app.page_down();
    assert_eq!(app.get_selected(), Some(3 + PAGE_SIZE));
    app.page_down();
    assert_eq!(app.get_selected(), Some(23));
    app.page_down();
    assert_eq!(app.get_selected(), Some(24));
    app.page_up();
    assert_eq!(app.get_selected(), Some(14));
    app.page_up();
    app.page_up();
    assert_eq!(app.get_selected(), Some(0));
}

#[test]
fn moves_without_selection_go_to_first_row() {
    let mut app = App::new("T".to_string(), items(5));
    app.page_down();
    assert_eq!(app.get_selected(), Some(0));
    let mut app = App::new("T".to_string(), items(5));
    app.previous();
    assert_eq!(app.get_selected(), Some(0));
}

#[test]
fn home_and_end() {
    let mut app = App::with_default("T".to_string(), items(9), Some(4));
    app.go_to_end();
    assert_eq!(app.get_selected(), Some(8));
    assert_eq!(app.scroll_offset, 8);
    app.go_to_home();
    assert_eq!(app.get_selected(), Some(0));
}

#[test]
fn keys_drive_the_menu() {
    let mut app = App::with_default("T".to_string(), items(4), Some(1));
    assert_eq!(app.handle_key(KeyInput::Char('j')), MenuOutcome::Continue);
    assert_eq!(app.get_selected(), Some(2));
    assert_eq!(app.handle_key(KeyInput::Up), MenuOutcome::Continue);
    assert_eq!(app.get_selected(), Some(1));
    assert_eq!(app.handle_key(KeyInput::End), MenuOutcome::Continue);
    assert_eq!(app.handle_key(KeyInput::Enter), MenuOutcome::Chosen(Some(3)));
    assert_eq!(app.handle_key(KeyInput::Char(' ')), MenuOutcome::Chosen(Some(3)));
    assert_eq!(app.handle_key(KeyInput::Char('x')), MenuOutcome::Continue);
    assert_eq!(app.get_selected(), Some(3));
    assert_eq!(app.handle_key(KeyInput::Char('q')), MenuOutcome::Exit);
    assert_eq!(app.handle_key(KeyInput::Esc), MenuOutcome::Exit);
    assert_eq!(app.get_selected(), Some(3));
}

#[test]
fn visible_offset_centres_the_selection() {
    assert_eq!(visible_offset(0, 100, 10), 0);
    assert_eq!(visible_offset(5, 100, 10), 0);
    assert_eq!(visible_offset(20, 100, 10), 15);
    assert_eq!(visible_offset(99, 100, 10), 90);
    assert_eq!(visible_offset(3, 5, 10), 0);
}

#[test]
fn status_is_one_based() {
    assert_eq!(selection_status(0, 12), "1 / 12");
    assert_eq!(selection_status(11, 12), "12 / 12");
}

#[test]
fn input_starts_with_default_and_cursor_at_end() {
    let s = InputState::new(Some("abc"));
    assert_eq!(s.input, vec!['a', 'b', 'c']);
    assert_eq!(s.cursor, 3);
    let e = InputState::new(None);
    assert!(e.input.is_empty());
    assert_eq!(e.cursor, 0);
}

#[test]
fn typing_inserts_at_cursor() {
    let mut s = InputState::new(Some("ac"));
    s.handle_key(KeyInput::Left);
    assert_eq!(s.cursor, 1);
    s.handle_key(KeyInput::Char('b'));
    assert_eq!(s.input, vec!['a', 'b', 'c']);
    assert_eq!(s.cursor, 2);
    s.handle_key(KeyInput::Right);
    s.handle_key(KeyInput::Right);
    assert_eq!(s.cursor, 3);
}

#[test]
fn type_then_backspace_restores_text() {
    let mut s = InputState::new(Some("12345"));
    s.handle_key(KeyInput::Home);
    s.handle_key(KeyInput::Left);
    s.handle_key(KeyInput::Left);
    let before = s.input.clone();
    let cursor = s.cursor;
    s.handle_key(KeyInput::Char('9'));
    s.handle_key(KeyInput::Backspace);
    assert_eq!(s.input, before);
    assert_eq!(s.cursor, cursor);
}

#[test]
fn delete_removes_under_cursor() {
    let mut s = InputState::new(Some("abc"));
    s.handle_key(KeyInput::Left);
    s.handle_key(KeyInput::Left);
    s.handle_key(KeyInput::Delete);
    assert_eq!(s.input, vec!['a', 'c']);
    assert_eq!(s.cursor, 1);
    s.handle_key(KeyInput::Right);
    s.handle_key(KeyInput::Delete);
    assert_eq!(s.input, vec!['a', 'c']);
}

#[test]
fn backspace_at_start_does_nothing() {
    let mut s = InputState::new(None);
    s.handle_key(KeyInput::Backspace);
    assert!(s.input.is_empty());
    assert_eq!(s.cursor, 0);
}

#[test]
fn enter_submits_and_escape_cancels() {
    let mut s = InputState::new(Some("4500"));
    assert!(matches!(s.handle_key(KeyInput::Enter), InputOutcome::Submit(t) if t == "4500"));
    assert!(matches!(s.handle_key(KeyInput::Esc), InputOutcome::Cancel));
    assert!(matches!(s.handle_key(KeyInput::Char('q')), InputOutcome::Cancel));
}
