use heliolisk::rope::HeliosRope;

#[test]
fn empty_rope_has_one_line() {
    let r = HeliosRope::new();
    assert_eq!(r.len_chars(), 0);
    assert_eq!(r.len_lines(), 1);
    assert_eq!(r.line_len(0), 0);
    assert_eq!(r.line(0), "");
}

#[test]
fn lines_include_their_line_feed() {
    let r = HeliosRope::from_str("Hello\nworld\n");
    assert_eq!(r.len_lines(), 3);
    assert_eq!(r.len_chars(), 12);
    assert_eq!(r.line(0), "Hello\n");
    assert_eq!(r.line(1), "world\n");
    assert_eq!(r.line(2), "");
    assert_eq!(r.line(7), "");
    assert_eq!(r.line_len(0), 6);
    assert_eq!(r.line_len(2), 0);
    assert_eq!(r.line_len(9), 0);
}

#[test]
fn line_and_char_indices_agree() {
    let r = HeliosRope::from_str("ab\ncd\nef");
    assert_eq!(r.line_to_char(0), 0);
    assert_eq!(r.line_to_char(1), 3);
    assert_eq!(r.line_to_char(2), 6);
    assert_eq!(r.line_to_char(3), 8);
    assert_eq!(r.line_to_char(100), 8);
    assert_eq!(r.char_to_line(0), 0);
    assert_eq!(r.char_to_line(2), 0);
    assert_eq!(r.char_to_line(3), 1);
    assert_eq!(r.char_to_line(8), 2);
    assert_eq!(r.char_to_line(50), 2);
    assert_eq!(r.char_at(4), 'd');
}

#[test]
fn carriage_return_alone_is_no_line_break() {
    let r = HeliosRope::from_str("a\rb\r\nc");
    assert_eq!(r.len_lines(), 2);
    assert_eq!(r.line(0), "a\rb\r\n");
}

#[test]
fn chars_count_not_bytes() {
    let r = HeliosRope::from_str("héllo\nwörld");
    assert_eq!(r.len_chars(), 11);
    assert_eq!(r.line_len(0), 6);
    assert_eq!(r.char_at(1), 'é');
    assert_eq!(r.line(1), "wörld");
}

#[test]
fn insert_and_remove_edit_the_text() {
    let mut r = HeliosRope::from_str("abc");
    r.insert_char(1, 'X');
    assert_eq!(r.to_string(), "aXbc");
    r.insert_char(10, 'Y');
    assert_eq!(r.to_string(), "aXbc");
    r.remove(0..2);
    assert_eq!(r.to_string(), "bc");
    r.remove(1..5);
    assert_eq!(r.to_string(), "bc");
    r.remove(1..2);
    assert_eq!(r.to_string(), "b");
}

#[test]
fn snapshot_is_independent() {
    let mut r = HeliosRope::from_str("abc");
    let copy = r.snapshot();
    r.insert_char(0, 'z');
    assert_eq!(copy.to_string(), "abc");
    assert_eq!(r.to_string(), "zabc");
}
