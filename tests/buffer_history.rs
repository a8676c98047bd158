use heliolisk::buffer::HBuffer;
use heliolisk::file_ops::{
    buffer_to_string, save_file_name, save_status_message, temp_file_name, DEFAULT_FILE_NAME,
};
use heliolisk::rope::HeliosRope;

fn buffer_with(text: &str) -> HBuffer {
    let mut b = HBuffer::new();
    b.text = HeliosRope::from_str(text);
    b
}

#[test]
fn new_buffer_is_empty() {
    let b = HBuffer::new();
    assert_eq!(b.char_count(), 0);
    assert_eq!(b.line_count(), 1);
    assert_eq!(b.file_format, ".txt");
    assert!(b.file_path.is_none());
}

#[test]
fn insert_then_delete_restores_text() {
    for (line, col) in [(0, 0), (0, 2), (0, 3), (1, 0), (1, 1), (2, 0)] {
        let mut b = buffer_with("abc\nde\n");
        b.insert_char(line, col, 'Q');
        assert_eq!(b.char_count(), 8);
        b.delete_char(line, col);
        assert_eq!(buffer_to_string(&b), "abc\nde\n");
    }
}

#[test]
fn insert_char_lands_at_line_and_column() {
    let mut b = buffer_with("abc\nde");
    b.insert_char(1, 1, 'X');
    assert_eq!(buffer_to_string(&b), "abc\ndXe");
    b.insert_char(1, 50, 'Y');
    assert_eq!(buffer_to_string(&b), "abc\ndXe");
}

#[test]
fn insert_line_splits_the_line() {
    let mut b = buffer_with("abcd");
    b.insert_line(0, 2);
    assert_eq!(buffer_to_string(&b), "ab\ncd");
    assert_eq!(b.line_count(), 2);
    assert_eq!(b.line_length(0), 3);
    assert_eq!(b.line_length(1), 2);
}

#[test]
fn delete_line_removes_line_and_its_line_feed() {
    let mut b = buffer_with("one\ntwo\nthree");
    b.delete_line(1);
    assert_eq!(buffer_to_string(&b), "one\nthree");
    b.delete_line(1);
    assert_eq!(buffer_to_string(&b), "one\n");
    assert_eq!(b.line_count(), 2);
    b.delete_line(7);
    assert_eq!(buffer_to_string(&b), "one\n");
}

#[test]
fn delete_char_out_of_range_does_nothing() {
    let mut b = buffer_with("ab");
    b.delete_char(0, 2);
    b.delete_char(3, 0);
    assert_eq!(buffer_to_string(&b), "ab");
    b.delete_char(0, 0);
    assert_eq!(buffer_to_string(&b), "b");
}

#[test]
fn undo_restores_snapshot_and_redo_restores_edits() {
    let mut b = buffer_with("hello");
    b.save_snapshot();
    b.insert_char(0, 5, '!');
    b.insert_line(0, 0);
    b.delete_char(1, 0);
    let edited = buffer_to_string(&b);
    assert_eq!(edited, "\nello!");
    b.undo();
    assert_eq!(buffer_to_string(&b), "hello");
    b.redo();
    assert_eq!(buffer_to_string(&b), edited);
}

#[test]
fn snapshot_clears_redo() {
    let mut b = buffer_with("a");
    b.save_snapshot();
    b.insert_char(0, 1, 'b');
    b.undo();
    assert_eq!(b.redo_stack.len(), 1);
    b.save_snapshot();
    assert_eq!(b.redo_stack.len(), 0);
    b.redo();
    assert_eq!(buffer_to_string(&b), "a");
}

#[test]
fn undo_and_redo_on_empty_stacks_do_nothing() {
    let mut b = buffer_with("x");
    b.undo();
    b.redo();
    assert_eq!(buffer_to_string(&b), "x");
    assert!(b.undo_stack.is_empty());
    assert!(b.redo_stack.is_empty());
}

#[test]
fn save_writes_rope_content_through_temp_sibling() {
    let b = buffer_with("hello\nworld\n");
    assert_eq!(buffer_to_string(&b), "hello\nworld\n");
    assert_eq!(temp_file_name("out.txt"), ".out.txt.tmp");
}

#[test]
fn save_name_prefers_argument_then_path_then_default() {
    let mut b = buffer_with("");
    assert_eq!(save_file_name(None, &b), DEFAULT_FILE_NAME);
    b.file_path = Some("notes.md".to_string());
    assert_eq!(save_file_name(None, &b), "notes.md");
    assert_eq!(save_file_name(Some("out.txt".to_string()), &b), "out.txt");
}

#[test]
fn save_status_names_file_or_error() {
    assert_eq!(save_status_message(&Ok("out.txt".to_string())), "Saved... Saved to out.txt");
    assert_eq!(save_status_message(&Err("denied".to_string())), "Error Occurred... denied");
}
