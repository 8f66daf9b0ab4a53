use modal_editor::action::{Action, Mode};
use modal_editor::buffer::Buffer;
use modal_editor::editor::Editor;
use modal_editor::input::{
    insert_key_action, leader_action, normal_key_action, InputEvent, KeyCode, KeyPress,
};

fn buffer_of(lines: &[&str]) -> Buffer {
    Buffer::new(None, lines.iter().map(|s| s.to_string()).collect())
}

fn lines_of(e: &Editor) -> Vec<String> {
    let b = e.buffer();
    (0..b.len()).map(|i| b.get(i).unwrap()).collect()
}

fn key(c: char) -> InputEvent {
    InputEvent::Key(KeyPress { code: KeyCode::Char(c), control: false })
}

fn ctrl(code: KeyCode) -> InputEvent {
    InputEvent::Key(KeyPress { code, control: true })
}

fn editor(lines: &[&str], width: u16, height: u16) -> Editor {
    Editor::new(buffer_of(lines), (width, height))
}

#[test]
fn buffer_get_and_len() {
    let b = buffer_of(&["one", "two"]);
    assert_eq!(b.len(), 2);
    assert_eq!(b.get(0), Some("one".to_string()));
    assert_eq!(b.get(1), Some("two".to_string()));
    assert_eq!(b.get(2), None);
    assert_eq!(b.line_len(1), Some(3));
    assert_eq!(b.line_len(5), None);
}

#[test]
fn buffer_keeps_file_name() {
    let b = Buffer::new(Some("notes.txt".to_string()), vec![]);
    assert_eq!(b.file(), &Some("notes.txt".to_string()));
    assert_eq!(b.len(), 0);
}

#[test]
fn buffer_insert_and_remove_chars() {
    let mut b = buffer_of(&["bc"]);
    b.insert(0, 0, 'a');
    assert_eq!(b.get(0), Some("abc".to_string()));
    b.insert(3, 0, 'd');
    assert_eq!(b.get(0), Some("abcd".to_string()));
    b.remove(1, 0);
    assert_eq!(b.get(0), Some("acd".to_string()));
    // rows that do not exist are left alone
    b.insert(0, 4, 'z');
    b.remove(0, 4);
    assert_eq!(b.len(), 1);
    assert_eq!(b.get(0), Some("acd".to_string()));
}

#[test]
fn buffer_multibyte_characters_count_as_one() {
    let mut b = buffer_of(&["héllo"]);
    assert_eq!(b.line_len(0), Some(5));
    b.remove(1, 0);
    assert_eq!(b.get(0), Some("hllo".to_string()));
    b.insert(1, 0, 'ü');
    assert_eq!(b.get(0), Some("hüllo".to_string()));
}

#[test]
fn buffer_line_insert_and_remove() {
    let mut b = buffer_of(&["a", "b", "c"]);
    b.remove_line(1);
    assert_eq!(b.len(), 2);
    assert_eq!(b.get(1), Some("c".to_string()));
    b.remove_line(7);
    assert_eq!(b.len(), 2);
    b.insert_line(1, "b".to_string());
    assert_eq!(b.get(1), Some("b".to_string()));
    assert_eq!(b.len(), 3);
    // appending past the last row is not done
    b.insert_line(3, "d".to_string());
    assert_eq!(b.len(), 3);
}

#[test]
fn new_editor_starts_at_top_left_in_normal_mode() {
    let e = editor(&["x"], 80, 24);
    assert_eq!(e.cursor(), (0, 0));
    assert_eq!(e.scroll_offset(), 0);
    assert_eq!(e.mode(), Mode::Normal);
    assert_eq!(e.waiting_command(), None);
    assert_eq!(e.vwidth(), 80);
    assert_eq!(e.vheight(), 22);
    assert_eq!(e.size(), (80, 24));
    assert_eq!(e.undo_len(), 0);
}

#[test]
fn insert_char_at_line_start() {
    let mut e = editor(&["bc"], 80, 24);
    e.execute(&Action::InsertCharAtCursorPos('x'));
    assert_eq!(lines_of(&e), vec!["xbc".to_string()]);
    assert_eq!(e.cursor(), (1, 0));
}

#[test]
fn insert_char_past_line_end_is_skipped() {
    let mut e = editor(&["bc"], 80, 24);
    for _ in 0..5 {
        e.execute(&Action::MoveRight);
    }
    e.execute(&Action::InsertCharAtCursorPos('x'));
    assert_eq!(lines_of(&e), vec!["bc".to_string()]);
    assert_eq!(e.cursor(), (5, 0));
}

#[test]
fn delete_char_under_cursor() {
    let mut e = editor(&["abc"], 80, 24);
    e.execute(&Action::MoveRight);
    e.execute(&Action::DeleteCharAtCursorPos);
    assert_eq!(lines_of(&e), vec!["ac".to_string()]);
    // on an empty line nothing is removed
    let mut e = editor(&[""], 80, 24);
    e.execute(&Action::DeleteCharAtCursorPos);
    assert_eq!(lines_of(&e), vec!["".to_string()]);
}

#[test]
fn delete_line_then_undo_restores_it() {
    let mut e = editor(&["a", "b", "c"], 80, 24);
    e.execute(&Action::MoveDown);
    e.execute(&Action::DeleteCurrentLine);
    assert_eq!(lines_of(&e), vec!["a".to_string(), "c".to_string()]);
    assert_eq!(e.undo_len(), 1);
    e.execute(&Action::Undo);
    assert_eq!(lines_of(&e), vec!["a".to_string(), "b".to_string(), "c".to_string()]);
    assert_eq!(e.cursor().1, 1);
    assert_eq!(e.undo_len(), 0);
}

#[test]
fn undo_with_empty_stack_does_nothing() {
    let mut e = editor(&["a", "b"], 80, 24);
    e.execute(&Action::MoveDown);
    e.execute(&Action::Undo);
    assert_eq!(lines_of(&e), vec!["a".to_string(), "b".to_string()]);
    assert_eq!(e.cursor(), (0, 1));
}

#[test]
fn undo_of_last_line_delete_cannot_append() {
    let mut e = editor(&["a", "b"], 80, 24);
    e.execute(&Action::MoveDown);
    e.execute(&Action::DeleteCurrentLine);
    e.execute(&Action::Undo);
    assert_eq!(lines_of(&e), vec!["a".to_string()]);
}

#[test]
fn insert_line_at_parks_cursor_on_row() {
    let mut e = editor(&["a", "c"], 80, 24);
    e.execute(&Action::InsertLineAt(1, Some("b".to_string())));
    assert_eq!(lines_of(&e), vec!["a".to_string(), "b".to_string(), "c".to_string()]);
    assert_eq!(e.cursor().1, 1);
    e.execute(&Action::InsertLineAt(0, None));
    assert_eq!(e.buffer().len(), 3);
    assert_eq!(e.cursor().1, 1);
}

#[test]
fn move_up_and_down_scroll_at_edges() {
    // viewport of 2 rows
    let mut e = editor(&["0", "1", "2", "3"], 10, 4);
    e.execute(&Action::MoveDown);
    assert_eq!((e.scroll_offset(), e.cursor().1), (0, 1));
    e.execute(&Action::MoveDown);
    assert_eq!((e.scroll_offset(), e.cursor().1), (1, 1));
    e.execute(&Action::MoveUp);
    assert_eq!((e.scroll_offset(), e.cursor().1), (1, 0));
    e.execute(&Action::MoveUp);
    assert_eq!((e.scroll_offset(), e.cursor().1), (0, 0));
    e.execute(&Action::MoveUp);
    assert_eq!((e.scroll_offset(), e.cursor().1), (0, 0));
}

#[test]
fn move_left_stops_at_zero_and_line_start_end() {
    let mut e = editor(&["hello"], 80, 24);
    e.execute(&Action::MoveLeft);
    assert_eq!(e.cursor().0, 0);
    e.execute(&Action::MoveToLineEnd);
    assert_eq!(e.cursor().0, 4);
    e.execute(&Action::MoveLeft);
    assert_eq!(e.cursor().0, 3);
    e.execute(&Action::MoveToLineStart);
    assert_eq!(e.cursor().0, 0);
}

#[test]
fn move_to_line_end_of_empty_line() {
    let mut e = editor(&[""], 80, 24);
    e.execute(&Action::MoveRight);
    e.execute(&Action::MoveToLineEnd);
    assert_eq!(e.cursor().0, 0);
}

#[test]
fn bounds_pull_row_back_to_last_line() {
    let mut e = editor(&["a", "b", "c"], 80, 24);
    for _ in 0..10 {
        e.execute(&Action::MoveDown);
    }
    assert_eq!(e.cursor().1, 10);
    e.check_bounds();
    assert_eq!(e.scroll_offset() + e.cursor().1 as usize, 2);
}

#[test]
fn bounds_clamp_column_to_line_and_width() {
    let mut e = editor(&["abcdef", "xy"], 4, 24);
    for _ in 0..9 {
        e.execute(&Action::MoveRight);
    }
    e.check_bounds();
    assert_eq!(e.cursor().0, 3);
    e.execute(&Action::MoveDown);
    e.execute(&Action::MoveRight);
    e.execute(&Action::MoveRight);
    e.check_bounds();
    assert_eq!(e.cursor().0, 1);
}

#[test]
fn bounds_on_empty_buffer_park_at_origin() {
    let mut e = editor(&[], 80, 24);
    e.execute(&Action::MoveDown);
    e.execute(&Action::MoveRight);
    e.check_bounds();
    assert_eq!(e.cursor(), (0, 0));
    assert_eq!(e.scroll_offset(), 0);
}

#[test]
fn bounds_after_scrolling_past_end() {
    // viewport of 1 row: moving down scrolls every time
    let mut e = editor(&["a", "b"], 80, 3);
    for _ in 0..5 {
        e.execute(&Action::MoveDown);
    }
    assert_eq!(e.scroll_offset(), 5);
    e.check_bounds();
    assert_eq!(e.scroll_offset() + e.cursor().1 as usize, 1);
}

#[test]
fn vertical_moves_then_bounds_stay_in_buffer() {
    let moves = [
        Action::MoveDown,
        Action::MoveDown,
        Action::MoveUp,
        Action::MoveDown,
        Action::MoveDown,
        Action::MoveDown,
        Action::MoveDown,
    ];
    let mut e = editor(&["a", "b", "c", "d"], 20, 5);
    for m in moves.iter() {
        e.execute(m);
        e.check_bounds();
        let row = e.scroll_offset() + e.cursor().1 as usize;
        assert!(row <= 3);
    }
}

#[test]
fn horizontal_moves_then_bounds_stay_in_line() {
    let mut e = editor(&["abc"], 20, 5);
    for _ in 0..6 {
        e.execute(&Action::MoveRight);
        e.check_bounds();
        assert!(e.cursor().0 <= 2);
    }
    for _ in 0..6 {
        e.execute(&Action::MoveLeft);
        e.check_bounds();
        assert!(e.cursor().0 <= 2);
    }
    assert_eq!(e.cursor().0, 0);
}

#[test]
fn page_down_and_up() {
    let lines: Vec<String> = (0..10).map(|i| i.to_string()).collect();
    let refs: Vec<&str> = lines.iter().map(|s| s.as_str()).collect();
    // viewport of 3 rows
    let mut e = editor(&refs, 10, 5);
    e.execute(&Action::PageDown);
    assert_eq!(e.scroll_offset(), 3);
    e.execute(&Action::PageDown);
    assert_eq!(e.scroll_offset(), 6);
    e.execute(&Action::PageDown);
    assert_eq!(e.scroll_offset(), 9);
    // 10 <= 9 + 3: no-op
    e.execute(&Action::PageDown);
    assert_eq!(e.scroll_offset(), 9);
    e.execute(&Action::PageUp);
    assert_eq!(e.scroll_offset(), 6);
    e.execute(&Action::PageUp);
    e.execute(&Action::PageUp);
    e.execute(&Action::PageUp);
    assert_eq!(e.scroll_offset(), 0);
}

#[test]
fn page_down_no_op_on_short_buffer() {
    let mut e = editor(&["a", "b"], 10, 24);
    e.execute(&Action::PageDown);
    assert_eq!(e.scroll_offset(), 0);
}

#[test]
fn recenter_near_top_of_short_buffer() {
    // viewport of 10 rows, center 5, buffer of 3 lines
    let mut e = editor(&["a", "b", "c"], 10, 12);
    e.execute(&Action::MoveDown);
    e.execute(&Action::MoveLineToViewportCenter);
    assert_eq!(e.scroll_offset(), 0);
    assert_eq!(e.cursor().1, 1);
}

#[test]
fn recenter_cursor_above_center_scrolls_up() {
    let lines: Vec<String> = (0..40).map(|i| i.to_string()).collect();
    let refs: Vec<&str> = lines.iter().map(|s| s.as_str()).collect();
    // viewport of 10 rows, center 5
    let mut e = editor(&refs, 10, 12);
    for _ in 0..3 {
        e.execute(&Action::PageDown);
    }
    assert_eq!(e.scroll_offset(), 30);
    e.execute(&Action::MoveDown);
    e.execute(&Action::MoveLineToViewportCenter);
    // distance 4: offset 26, cursor on row 5 of the viewport
    assert_eq!(e.scroll_offset(), 26);
    assert_eq!(e.cursor().1, 5);
}

#[test]
fn recenter_cursor_below_center() {
    let lines: Vec<String> = (0..40).map(|i| i.to_string()).collect();
    let refs: Vec<&str> = lines.iter().map(|s| s.as_str()).collect();
    let mut e = editor(&refs, 10, 12);
    e.execute(&Action::PageDown);
    for _ in 0..8 {
        e.execute(&Action::MoveDown);
    }
    assert_eq!((e.scroll_offset(), e.cursor().1), (10, 8));
    e.execute(&Action::MoveLineToViewportCenter);
    assert_eq!((e.scroll_offset(), e.cursor().1), (13, 5));
}

#[test]
fn new_line_and_modes() {
    let mut e = editor(&["abc", "def"], 80, 24);
    e.execute(&Action::MoveRight);
    e.execute(&Action::NewLine);
    assert_eq!(e.cursor(), (0, 1));
    assert_eq!(e.buffer().len(), 2);
    e.execute(&Action::EnterMode(Mode::Insert));
    assert_eq!(e.mode(), Mode::Insert);
    e.execute(&Action::EnterMode(Mode::Normal));
    assert_eq!(e.mode(), Mode::Normal);
    e.execute(&Action::SetWaitingCmd('g'));
    assert_eq!(e.waiting_command(), Some('g'));
    e.execute(&Action::Quit);
    assert_eq!(e.cursor(), (0, 1));
}

#[test]
fn viewport_and_current_line() {
    let mut e = editor(&["a", "b", "c"], 10, 4);
    e.execute(&Action::MoveDown);
    e.execute(&Action::MoveDown);
    assert_eq!(e.scroll_offset(), 1);
    assert_eq!(e.viewport_line(0), Some("b".to_string()));
    assert_eq!(e.viewport_line(1), Some("c".to_string()));
    assert_eq!(e.viewport_line(2), None);
    assert_eq!(e.current_line_contents(), Some("c".to_string()));
    assert_eq!(e.buffer_line(), 2);
    assert_eq!(e.line_length(), 1);
}

#[test]
fn navigation_keymap() {
    let k = |c: char| KeyPress { code: KeyCode::Char(c), control: false };
    assert_eq!(normal_key_action(k('q')), Some(Action::Quit));
    assert_eq!(normal_key_action(k('u')), Some(Action::Undo));
    assert_eq!(normal_key_action(k('k')), Some(Action::MoveUp));
    assert_eq!(normal_key_action(k('j')), Some(Action::MoveDown));
    assert_eq!(normal_key_action(k('h')), Some(Action::MoveLeft));
    assert_eq!(normal_key_action(k('l')), Some(Action::MoveRight));
    assert_eq!(normal_key_action(k('i')), Some(Action::EnterMode(Mode::Insert)));
    assert_eq!(normal_key_action(k('0')), Some(Action::MoveToLineStart));
    assert_eq!(normal_key_action(k('$')), Some(Action::MoveToLineEnd));
    assert_eq!(normal_key_action(k('x')), Some(Action::DeleteCharAtCursorPos));
    assert_eq!(normal_key_action(k('d')), Some(Action::SetWaitingCmd('d')));
    assert_eq!(normal_key_action(k('g')), Some(Action::SetWaitingCmd('g')));
    assert_eq!(normal_key_action(k('b')), None);
    assert_eq!(normal_key_action(k('f')), None);
    assert_eq!(normal_key_action(k('z')), None);
    let c = |c: char| KeyPress { code: KeyCode::Char(c), control: true };
    assert_eq!(normal_key_action(c('b')), Some(Action::PageUp));
    assert_eq!(normal_key_action(c('f')), Some(Action::PageDown));
    let p = |code: KeyCode| KeyPress { code, control: false };
    assert_eq!(normal_key_action(p(KeyCode::Up)), Some(Action::MoveUp));
    assert_eq!(normal_key_action(p(KeyCode::Down)), Some(Action::MoveDown));
    assert_eq!(normal_key_action(p(KeyCode::Left)), Some(Action::MoveLeft));
    assert_eq!(normal_key_action(p(KeyCode::Right)), Some(Action::MoveRight));
    assert_eq!(normal_key_action(p(KeyCode::Home)), Some(Action::MoveToLineStart));
    assert_eq!(normal_key_action(p(KeyCode::End)), Some(Action::MoveToLineEnd));
    assert_eq!(normal_key_action(p(KeyCode::PageUp)), None);
    assert_eq!(normal_key_action(KeyPress { code: KeyCode::PageDown, control: true }), Some(Action::PageDown));
    assert_eq!(normal_key_action(p(KeyCode::Esc)), None);
}

#[test]
fn insertion_keymap() {
    let p = |code: KeyCode| KeyPress { code, control: false };
    assert_eq!(insert_key_action(p(KeyCode::Esc)), Some(Action::EnterMode(Mode::Normal)));
    assert_eq!(insert_key_action(p(KeyCode::Enter)), Some(Action::NewLine));
    assert_eq!(insert_key_action(p(KeyCode::Char('q'))), Some(Action::InsertCharAtCursorPos('q')));
    assert_eq!(insert_key_action(p(KeyCode::Up)), None);
}

#[test]
fn leader_resolution() {
    assert_eq!(leader_action('d', key('d')), Some(Action::DeleteCurrentLine));
    assert_eq!(leader_action('g', key('g')), Some(Action::MoveLineToViewportCenter));
    assert_eq!(leader_action('d', key('g')), None);
    assert_eq!(leader_action('g', key('d')), None);
    assert_eq!(leader_action('d', InputEvent::Other), None);
}

#[test]
fn leader_d_then_other_key_is_dropped() {
    let mut e = editor(&["a", "b"], 80, 24);
    assert_eq!(e.handle_event(key('d')), Some(Action::SetWaitingCmd('d')));
    e.execute(&Action::SetWaitingCmd('d'));
    assert_eq!(e.handle_event(key('j')), None);
    assert_eq!(e.waiting_command(), None);
    // the next key is read afresh
    assert_eq!(e.handle_event(key('j')), Some(Action::MoveDown));
}

#[test]
fn leader_d_then_d_deletes_line() {
    let mut e = editor(&["a", "b"], 80, 24);
    e.execute(&Action::SetWaitingCmd('d'));
    assert_eq!(e.handle_event(key('d')), Some(Action::DeleteCurrentLine));
    assert_eq!(e.waiting_command(), None);
}

#[test]
fn insert_mode_events() {
    let mut e = editor(&["a"], 80, 24);
    e.execute(&Action::EnterMode(Mode::Insert));
    assert_eq!(e.handle_event(key('d')), Some(Action::InsertCharAtCursorPos('d')));
    assert_eq!(
        e.handle_event(InputEvent::Key(KeyPress { code: KeyCode::Esc, control: false })),
        Some(Action::EnterMode(Mode::Normal))
    );
    assert_eq!(e.handle_insert_event(InputEvent::Other), None);
}

#[test]
fn resize_updates_size_and_produces_nothing() {
    let mut e = editor(&["a"], 80, 24);
    assert_eq!(e.handle_event(InputEvent::Resize(40, 10)), None);
    assert_eq!(e.size(), (40, 10));
    assert_eq!(e.vheight(), 8);
    assert_eq!(e.handle_event(ctrl(KeyCode::Char('f'))), Some(Action::PageDown));
}

#[test]
fn waiting_command_handler() {
    let e = editor(&["a"], 80, 24);
    assert_eq!(e.handle_waiting_command('g', key('g')), Some(Action::MoveLineToViewportCenter));
    assert_eq!(e.handle_waiting_command('x', key('x')), None);
}
