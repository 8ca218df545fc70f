use red::editor::{Action, Editor, EditorMode, Key};

fn editor(height: usize, width: usize) -> Editor {
    Editor::new(height, width).unwrap()
}

fn type_str(e: &mut Editor, s: &str) -> Vec<Action> {
    let mut all = Vec::new();
    for c in s.chars() {
        all.extend(e.handle_input(Key::Char(c)));
    }
    all
}

#[test]
fn new_starts_in_insert_mode_with_empty_buffers() {
    let e = editor(24, 80);
    assert_eq!(e.get_curr_mode(), EditorMode::Insert);
    assert_eq!(e.get_text_buf(), "");
    assert_eq!(e.get_command_buf(), "");
    assert_eq!(e.get_cursor(), (0, 0));
    assert_eq!(e.get_scroll_origin(), 0);
    assert_eq!(e.get_size(), (24, 80));
}

#[test]
fn new_refuses_an_empty_region() {
    assert!(Editor::new(0, 80).is_none());
    assert!(Editor::new(24, 0).is_none());
    assert!(Editor::new(0, 0).is_none());
    assert!(Editor::new(1, 1).is_some());
}

#[test]
fn can_edit_by_mode() {
    let mut e = editor(24, 80);
    assert!(e.can_edit());
    e.set_curr_mode(EditorMode::Cursor);
    assert!(!e.can_edit());
    assert!(!e.is_command_mode());
    e.set_curr_mode(EditorMode::Command);
    assert!(e.can_edit());
    assert!(e.is_command_mode());
}

#[test]
fn typing_in_insert_mode_fills_the_text_buffer() {
    let mut e = editor(24, 80);
    let actions = type_str(&mut e, "hi");
    assert_eq!(e.get_text_buf(), "hi");
    assert_eq!(e.get_command_buf(), "");
    assert_eq!(e.get_cursor(), (0, 2));
    assert_eq!(
        actions,
        vec![
            Action::DrawChar { row: 0, col: 0, ch: 'h' },
            Action::MoveCursor { row: 0, col: 1 },
            Action::Refresh,
            Action::DrawChar { row: 0, col: 1, ch: 'i' },
            Action::MoveCursor { row: 0, col: 2 },
            Action::Refresh,
        ]
    );
}

#[test]
fn escape_enters_command_mode_with_prompt() {
    let mut e = editor(24, 80);
    let actions = e.handle_input(Key::Escape);
    assert_eq!(e.get_curr_mode(), EditorMode::Command);
    assert_eq!(e.get_cursor(), (23, 1));
    assert_eq!(
        actions,
        vec![
            Action::DrawChar { row: 23, col: 0, ch: ':' },
            Action::MoveCursor { row: 23, col: 1 },
            Action::Refresh,
        ]
    );
}

#[test]
fn typing_in_command_mode_fills_the_command_buffer() {
    let mut e = editor(24, 80);
    type_str(&mut e, "ab");
    e.handle_input(Key::Escape);
    let actions = type_str(&mut e, "q");
    assert_eq!(e.get_command_buf(), "q");
    assert_eq!(e.get_text_buf(), "ab");
    assert_eq!(e.get_cursor(), (23, 2));
    assert_eq!(
        actions,
        vec![
            Action::DrawChar { row: 23, col: 1, ch: 'q' },
            Action::MoveCursor { row: 23, col: 2 },
            Action::Refresh,
        ]
    );
}

#[test]
fn command_char_at_column_zero_goes_after_the_prompt() {
    let mut e = editor(24, 80);
    e.handle_input(Key::Escape);
    e.handle_input(Key::Backspace);
    assert_eq!(e.get_cursor(), (23, 0));
    let actions = e.handle_input(Key::Char('w'));
    assert_eq!(actions[0], Action::DrawChar { row: 23, col: 1, ch: 'w' });
    assert_eq!(e.get_cursor(), (23, 2));
}

#[test]
fn escape_in_command_mode_changes_nothing() {
    let mut e = editor(24, 80);
    e.handle_input(Key::Escape);
    type_str(&mut e, "wq");
    let before = (e.get_cursor(), e.get_scroll_origin());
    let actions = e.handle_input(Key::Escape);
    assert!(actions.is_empty());
    assert_eq!(e.get_curr_mode(), EditorMode::Command);
    assert_eq!(e.get_command_buf(), "wq");
    assert_eq!(e.get_text_buf(), "");
    assert_eq!((e.get_cursor(), e.get_scroll_origin()), before);
}

#[test]
fn up_scrolls_one_row_and_resets_the_column() {
    let mut e = editor(6, 80);
    e.handle_input(Key::Escape);
    e.handle_input(Key::Backspace);
    assert_eq!(e.get_cursor(), (5, 0));
    let actions = e.handle_input(Key::Up);
    // the origin is already on row 0, so it stays there
    assert_eq!(e.get_scroll_origin(), 0);
    assert_eq!(e.get_cursor(), (4, 0));
    assert_eq!(
        actions,
        vec![
            Action::MoveOrigin { row: 0 },
            Action::MoveCursor { row: 4, col: 0 },
            Action::Refresh,
        ]
    );
    assert_eq!(e.get_text_buf(), "");
    assert_eq!(e.get_curr_mode(), EditorMode::Command);
}

#[test]
fn up_from_a_mid_column_resets_the_column() {
    let mut e = editor(6, 80);
    e.handle_input(Key::Escape);
    type_str(&mut e, "ab");
    assert_eq!(e.get_cursor(), (5, 3));
    e.handle_input(Key::Up);
    assert_eq!(e.get_cursor(), (4, 0));
    e.handle_input(Key::Up);
    assert_eq!(e.get_cursor(), (3, 0));
    assert_eq!(e.get_scroll_origin(), 0);
}

#[test]
fn entering_command_mode_twice_changes_nothing() {
    let mut e = editor(24, 80);
    assert_eq!(e.set_curr_mode(EditorMode::Command).len(), 3);
    type_str(&mut e, "wq");
    assert_eq!(e.get_cursor(), (23, 3));
    assert!(e.set_curr_mode(EditorMode::Command).is_empty());
    assert_eq!(e.get_cursor(), (23, 3));
    assert_eq!(e.get_command_buf(), "wq");
}

#[test]
fn control_characters_are_ignored() {
    let mut e = editor(24, 80);
    for c in ['\n', '\t', '\0', '\u{1f}', '\u{85}', '\u{9f}'] {
        assert_eq!(Key::from_char(c), Key::Other);
        assert!(e.handle_input(Key::Char(c)).is_empty());
    }
    assert_eq!(e.get_text_buf(), "");
    assert_eq!(e.get_cursor(), (0, 0));
    e.handle_input(Key::Escape);
    assert!(e.handle_input(Key::Char('\r')).is_empty());
    assert_eq!(e.get_command_buf(), "");
    assert_eq!(Key::from_char(' '), Key::Char(' '));
    assert_eq!(Key::from_char('\u{a0}'), Key::Char('\u{a0}'));
    assert_eq!(Key::from_char('é'), Key::Char('é'));
}

#[test]
fn up_on_the_top_row_changes_nothing() {
    let mut e = editor(24, 80);
    type_str(&mut e, "abc");
    let actions = e.handle_input(Key::Up);
    assert!(actions.is_empty());
    assert_eq!(e.get_cursor(), (0, 3));
    assert_eq!(e.get_scroll_origin(), 0);
}

#[test]
fn other_directions_change_nothing() {
    let mut e = editor(24, 80);
    type_str(&mut e, "abc");
    for k in [Key::Down, Key::Left, Key::Right, Key::Other] {
        assert!(e.handle_input(k).is_empty());
    }
    assert_eq!(e.get_cursor(), (0, 3));
    assert_eq!(e.get_text_buf(), "abc");
}

#[test]
fn backspace_at_column_zero_is_clamped() {
    let mut e = editor(24, 80);
    let actions = e.handle_input(Key::Backspace);
    assert!(actions.is_empty());
    assert_eq!(e.get_cursor(), (0, 0));
}

#[test]
fn backspace_erases_on_screen_only() {
    let mut e = editor(24, 80);
    type_str(&mut e, "hi");
    let actions = e.handle_input(Key::Backspace);
    assert_eq!(
        actions,
        vec![Action::MoveCursor { row: 0, col: 1 }, Action::DeleteChar, Action::Refresh]
    );
    assert_eq!(e.get_cursor(), (0, 1));
    assert_eq!(e.get_text_buf(), "hi");
}

#[test]
fn cursor_mode_ignores_characters() {
    let mut e = editor(24, 80);
    e.set_curr_mode(EditorMode::Cursor);
    let actions = type_str(&mut e, "xyz");
    assert!(actions.is_empty());
    assert_eq!(e.get_text_buf(), "");
    assert_eq!(e.get_command_buf(), "");
    assert_eq!(e.get_cursor(), (0, 0));
}

#[test]
fn cursor_is_held_at_the_right_edge() {
    let mut e = editor(2, 3);
    type_str(&mut e, "abcde");
    assert_eq!(e.get_text_buf(), "abcde");
    assert_eq!(e.get_cursor(), (0, 2));
    let mut n = editor(1, 1);
    n.handle_input(Key::Escape);
    assert_eq!(n.get_cursor(), (0, 0));
    n.handle_input(Key::Char('q'));
    assert_eq!(n.get_cursor(), (0, 0));
    assert_eq!(n.get_command_buf(), "q");
}

#[test]
fn cursor_stays_in_bounds_over_a_mixed_sequence() {
    let mut e = editor(3, 4);
    let keys = [
        Key::Char('a'), Key::Backspace, Key::Backspace, Key::Up, Key::Escape,
        Key::Char('b'), Key::Char('c'), Key::Char('d'), Key::Char('e'), Key::Up,
        Key::Up, Key::Up, Key::Backspace, Key::Escape, Key::Right,
    ];
    for k in keys {
        e.handle_input(k);
        let (row, col) = e.get_cursor();
        assert!(row < 3 && col < 4);
    }
    assert_eq!(e.get_text_buf(), "a");
    assert_eq!(e.get_command_buf(), "bcde");
}

#[test]
fn set_mode_to_insert_draws_nothing() {
    let mut e = editor(24, 80);
    assert!(e.set_curr_mode(EditorMode::Insert).is_empty());
    assert_eq!(e.get_cursor(), (0, 0));
}

#[test]
fn raw_characters_are_classified() {
    assert_eq!(Key::from_char('\x1b'), Key::Escape);
    assert_eq!(Key::from_char('\x7f'), Key::Backspace);
    assert_eq!(Key::from_char('a'), Key::Char('a'));
    assert_eq!(Key::from_char(':'), Key::Char(':'));
}
