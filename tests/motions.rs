use heliolisk::buffer::HBuffer;
use heliolisk::editor::{Editor, Key, NavigateMode};
use heliolisk::file_ops::buffer_to_string;
use heliolisk::rope::HeliosRope;

fn editor_on(text: &str) -> Editor<NavigateMode> {
    let mut b = HBuffer::new();
    b.text = HeliosRope::from_str(text);
    Editor::new(vec![b])
}

fn press(ed: &mut Editor<NavigateMode>, keys: &str) {
    for c in keys.chars() {
        ed.handle_input(Key::Char(c));
    }
}

#[test]
fn word_forward_stops_at_next_word_then_next_line() {
    let mut ed = editor_on("ab cd\nef");
    ed.move_word_forward();
    assert_eq!(ed.get_cursor_position(), (3, 0));
    ed.move_word_forward();
    assert_eq!(ed.get_cursor_position(), (0, 1));
    ed.move_word_forward();
    assert_eq!(ed.get_cursor_position(), (2, 1));
    ed.move_word_forward();
    assert_eq!(ed.get_cursor_position(), (2, 1));
}

#[test]
fn word_forward_skips_blank_lines() {
    let mut ed = editor_on("ab\n\n  cd");
    ed.move_word_forward();
    assert_eq!(ed.get_cursor_position(), (2, 2));
}

#[test]
fn word_backward_goes_to_previous_word_start() {
    let mut ed = editor_on("ab cd\nef");
    press(&mut ed, "j");
    assert_eq!(ed.get_cursor_position(), (0, 1));
    ed.move_word_backward();
    assert_eq!(ed.get_cursor_position(), (3, 0));
    ed.move_word_backward();
    assert_eq!(ed.get_cursor_position(), (0, 0));
    ed.move_word_backward();
    assert_eq!(ed.get_cursor_position(), (0, 0));
}

#[test]
fn word_end_stops_on_last_char_of_words() {
    let mut ed = editor_on("ab cd\nef");
    ed.move_word_end_forward();
    assert_eq!(ed.get_cursor_position(), (1, 0));
    ed.move_word_end_forward();
    assert_eq!(ed.get_cursor_position(), (4, 0));
    ed.move_word_end_forward();
    assert_eq!(ed.get_cursor_position(), (1, 1));
    ed.move_word_end_forward();
    assert_eq!(ed.get_cursor_position(), (1, 1));
}

#[test]
fn line_end_stops_before_line_break() {
    let mut ed = editor_on("abc\nxy\r\n\nz");
    ed.move_to_line_end();
    assert_eq!(ed.get_cursor_position(), (2, 0));
    press(&mut ed, "j");
    ed.move_to_line_end();
    assert_eq!(ed.get_cursor_position(), (2, 1));
    press(&mut ed, "j");
    ed.move_to_line_end();
    assert_eq!(ed.get_cursor_position(), (0, 2));
    press(&mut ed, "j");
    ed.move_to_line_end();
    assert_eq!(ed.get_cursor_position(), (0, 3));
}

#[test]
fn line_start_non_whitespace() {
    let mut ed = editor_on("  x\n   \n\n");
    ed.move_to_line_start_non_whitespace();
    assert_eq!(ed.get_cursor_position(), (2, 0));
    press(&mut ed, "j");
    ed.move_to_line_start_non_whitespace();
    assert_eq!(ed.get_cursor_position(), (3, 1));
    press(&mut ed, "j");
    ed.move_to_line_start_non_whitespace();
    assert_eq!(ed.get_cursor_position(), (0, 2));
}

#[test]
fn vertical_motion_clamps_column() {
    let mut ed = editor_on("abcdef\nab\nabcd");
    press(&mut ed, "$");
    assert_eq!(ed.get_cursor_position(), (5, 0));
    press(&mut ed, "j");
    assert_eq!(ed.get_cursor_position(), (3, 1));
    press(&mut ed, "j");
    assert_eq!(ed.get_cursor_position(), (3, 2));
    press(&mut ed, "jj");
    assert_eq!(ed.get_cursor_position(), (3, 2));
    press(&mut ed, "kkk");
    assert_eq!(ed.get_cursor_position(), (3, 0));
}

#[test]
fn left_and_right_stay_within_line() {
    let mut ed = editor_on("ab\ncd");
    press(&mut ed, "h");
    assert_eq!(ed.get_cursor_position(), (0, 0));
    press(&mut ed, "llll");
    assert_eq!(ed.get_cursor_position(), (3, 0));
}

#[test]
fn file_start_and_end() {
    let mut ed = editor_on("one\ntwo\nthree");
    press(&mut ed, "ll");
    press(&mut ed, "G");
    assert_eq!(ed.get_cursor_position(), (0, 2));
    press(&mut ed, "l");
    press(&mut ed, "gg");
    assert_eq!(ed.get_cursor_position(), (0, 0));
}

#[test]
fn pending_key_resets_on_other_key() {
    let mut ed = editor_on("one\ntwo\nthree");
    press(&mut ed, "G");
    press(&mut ed, "gjg");
    assert_eq!(ed.get_cursor_position(), (0, 2));
    press(&mut ed, "dlw");
    assert_eq!(buffer_to_string(ed.get_active_buffer()), "one\ntwo\nthree");
}

#[test]
fn dw_deletes_word_under_cursor() {
    let mut ed = editor_on("foo bar\nbaz");
    press(&mut ed, "dw");
    assert_eq!(buffer_to_string(ed.get_active_buffer()), " bar\nbaz");
    assert_eq!(ed.get_cursor_position(), (0, 0));
    press(&mut ed, "dw");
    assert_eq!(buffer_to_string(ed.get_active_buffer()), "bar\nbaz");
    press(&mut ed, "u");
    assert_eq!(buffer_to_string(ed.get_active_buffer()), " bar\nbaz");
    press(&mut ed, "u");
    assert_eq!(buffer_to_string(ed.get_active_buffer()), "foo bar\nbaz");
    press(&mut ed, "U");
    assert_eq!(buffer_to_string(ed.get_active_buffer()), " bar\nbaz");
}

#[test]
fn dw_stops_at_line_end() {
    let mut ed = editor_on("ab\ncd");
    press(&mut ed, "l");
    press(&mut ed, "dw");
    assert_eq!(buffer_to_string(ed.get_active_buffer()), "a\ncd");
    press(&mut ed, "dw");
    assert_eq!(buffer_to_string(ed.get_active_buffer()), "a\ncd");
}

#[test]
fn undo_clamps_cursor() {
    let mut ed = editor_on("x");
    let mut edit = ed.enter_edit_mode();
    edit.insert_line();
    edit.insert_line();
    assert_eq!(edit.get_cursor_position(), (0, 2));
    let mut nav = edit.enter_navigate_mode();
    nav.undo();
    assert_eq!(buffer_to_string(nav.get_active_buffer()), "x");
    assert_eq!(nav.get_cursor_position(), (0, 0));
    ed = nav;
    ed.redo();
    assert_eq!(buffer_to_string(ed.get_active_buffer()), "\n\nx");
}

#[test]
fn viewport_follows_cursor() {
    let text = "l\n".repeat(19) + "l";
    let mut ed = editor_on(&text);
    ed.update_viewport(10);
    assert_eq!(ed.get_scroll_offset(), 0);
    press(&mut ed, "G");
    ed.update_viewport(10);
    assert_eq!(ed.get_scroll_offset(), 10);
    press(&mut ed, "kkk");
    ed.update_viewport(10);
    assert_eq!(ed.get_scroll_offset(), 10);
    press(&mut ed, "gg");
    ed.update_viewport(10);
    assert_eq!(ed.get_scroll_offset(), 0);
}

#[test]
fn buffer_switch_wraps_and_clamps() {
    let mut a = HBuffer::new();
    a.text = HeliosRope::from_str("long line\nsecond");
    let mut b = HBuffer::new();
    b.text = HeliosRope::from_str("ab");
    let mut ed = Editor::new(vec![a, b]);
    press(&mut ed, "j$");
    assert_eq!(ed.get_cursor_position(), (5, 1));
    ed.handle_input(Key::Tab);
    assert_eq!(buffer_to_string(ed.get_active_buffer()), "ab");
    assert_eq!(ed.get_cursor_position(), (2, 0));
    ed.handle_input(Key::Tab);
    assert_eq!(buffer_to_string(ed.get_active_buffer()), "long line\nsecond");
    ed.handle_input(Key::BackTab);
    assert_eq!(buffer_to_string(ed.get_active_buffer()), "ab");
    ed.buffer_switch_backward();
    assert_eq!(buffer_to_string(ed.get_active_buffer()), "long line\nsecond");
    assert_eq!(ed.get_buffers().len(), 2);
}

#[test]
fn error_line_expires_after_ten_seconds() {
    let mut ed = editor_on("");
    ed.set_error_line("boom".to_string(), 1_000);
    ed.check_error_expiry(10_999);
    assert_eq!(ed.get_error_line(), "boom");
    ed.check_error_expiry(11_000);
    assert_eq!(ed.get_error_line(), "");
}

#[test]
fn active_buffer_can_be_changed_directly() {
    let mut ed = editor_on("abc");
    ed.get_active_buffer_mut().insert_char(0, 0, 'z');
    assert_eq!(buffer_to_string(ed.get_active_buffer()), "zabc");
    assert_eq!(ed.get_cursor_position(), (0, 0));
}

#[test]
fn append_moves_right_before_editing() {
    let mut ed = editor_on("ab");
    let action = ed.handle_input(Key::Char('a'));
    assert_eq!(action, heliolisk::editor::EditorAction::EnterEditMode);
    assert_eq!(ed.get_cursor_position(), (1, 0));
}
