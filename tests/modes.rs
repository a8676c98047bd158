use heliolisk::buffer::HBuffer;
use heliolisk::editor::{CommandMode, Editor, EditorAction, Key};
use heliolisk::file_ops::buffer_to_string;
use heliolisk::rope::HeliosRope;
use heliolisk::state::EditorState;

fn state_on(text: &str) -> EditorState {
    let mut b = HBuffer::new();
    b.text = HeliosRope::from_str(text);
    EditorState::Navigate(Editor::new(vec![b]))
}

fn feed(state: EditorState, keys: &[Key]) -> (EditorState, EditorAction) {
    let mut st = state;
    let mut last = EditorAction::NoAction;
    for k in keys {
        let (next, action) = st.handle_key(*k);
        st = next;
        last = action;
    }
    (st, last)
}

fn text_of(state: &EditorState) -> String {
    let buffers = match state {
        EditorState::Navigate(e) => e.get_buffers(),
        EditorState::Edit(e) => e.get_buffers(),
        EditorState::Select(e) => e.get_buffers(),
        EditorState::Command(e) => e.get_buffers(),
    };
    buffer_to_string(&buffers[0])
}

fn chars(s: &str) -> Vec<Key> {
    s.chars().map(Key::Char).collect()
}

fn command_editor() -> Editor<CommandMode> {
    let mut b = HBuffer::new();
    b.text = HeliosRope::from_str("text");
    Editor::new(vec![b]).enter_command_mode()
}

#[test]
fn esc_returns_every_mode_to_navigate() {
    for entry in ["", "i", "v", ":"] {
        let (st, _) = feed(state_on("abc"), &chars(entry));
        let (st, _) = feed(st, &[Key::Esc]);
        assert_eq!(st.label(), "Nav");
    }
}

#[test]
fn command_mode_is_not_reachable_from_edit() {
    let (st, _) = feed(state_on("abc"), &chars("i:"));
    assert_eq!(st.label(), "Edi");
    assert_eq!(text_of(&st), ":abc");
    let (st, _) = feed(state_on("abc"), &chars("v:"));
    assert_eq!(st.label(), "Com");
    let (st, _) = feed(state_on("abc"), &chars(":"));
    assert_eq!(st.label(), "Com");
}

#[test]
fn select_mode_moves_and_enters_edit() {
    let (st, _) = feed(state_on("abc"), &chars("vll"));
    assert_eq!(st.label(), "Sel");
    let (st, _) = feed(st, &chars("iX"));
    assert_eq!(st.label(), "Edi");
    assert_eq!(text_of(&st), "abXc");
}

#[test]
fn typing_in_edit_mode_undoes_as_one_gesture() {
    let (st, _) = feed(state_on("abc"), &chars("aXY"));
    assert_eq!(text_of(&st), "aXYbc");
    let (st, _) = feed(st, &[Key::Enter, Key::Char('Z'), Key::Esc]);
    assert_eq!(text_of(&st), "aXY\nZbc");
    let (st, _) = feed(st, &chars("u"));
    assert_eq!(text_of(&st), "abc");
    let (st, _) = feed(st, &chars("U"));
    assert_eq!(text_of(&st), "aXY\nZbc");
}

#[test]
fn open_line_below_then_type() {
    let (st, action) = feed(state_on("ab\ncd"), &chars("o"));
    assert_eq!(action, EditorAction::EnterEditModeInNewLine);
    assert_eq!(st.label(), "Edi");
    let (st, _) = feed(st, &chars("X"));
    assert_eq!(text_of(&st), "ab\nX\ncd");
}

#[test]
fn backspace_joins_lines_at_column_zero() {
    let mut b = HBuffer::new();
    b.text = HeliosRope::from_str("ab\ncd");
    let mut ed = Editor::new(vec![b]);
    ed.handle_input(Key::Char('j'));
    let mut edit = ed.enter_edit_mode();
    edit.handle_input(Key::Backspace);
    assert_eq!(buffer_to_string(edit.get_active_buffer()), "abcd");
    assert_eq!(edit.get_cursor_position(), (2, 0));
    edit.handle_input(Key::Delete);
    assert_eq!(buffer_to_string(edit.get_active_buffer()), "acd");
    assert_eq!(edit.get_cursor_position(), (1, 0));
    edit.handle_input(Key::Home);
    edit.handle_input(Key::Backspace);
    assert_eq!(buffer_to_string(edit.get_active_buffer()), "acd");
}

#[test]
fn edit_delete_line_moves_up() {
    let mut b = HBuffer::new();
    b.text = HeliosRope::from_str("one\ntwo\nthree");
    let mut ed = Editor::new(vec![b]);
    ed.handle_input(Key::Char('j'));
    let mut edit = ed.enter_edit_mode();
    edit.delete_line();
    assert_eq!(buffer_to_string(edit.get_active_buffer()), "one\nthree");
    assert_eq!(edit.get_cursor_position(), (0, 0));
    edit.delete_line();
    assert_eq!(buffer_to_string(edit.get_active_buffer()), "three");
    assert_eq!(edit.get_cursor_position(), (0, 0));
}

#[test]
fn edit_tab_and_arrows() {
    let (st, _) = feed(state_on("ab"), &[Key::Char('i'), Key::Tab, Key::Right, Key::Right, Key::Char('!')]);
    assert_eq!(text_of(&st), "\tab!");
    let (st, _) = feed(st, &[Key::Left, Key::Up, Key::Down, Key::Char('?')]);
    assert_eq!(text_of(&st), "\tab?!");
}

#[test]
fn empty_command_yields_no_action() {
    let mut ed = command_editor();
    assert_eq!(ed.handle_input(Key::Enter), EditorAction::NoAction);
    assert_eq!(ed.execute_command(""), EditorAction::NoAction);
}

#[test]
fn save_and_quit_with_file_name() {
    let mut ed = command_editor();
    for c in "wq out.txt".chars() {
        ed.handle_input(Key::Char(c));
    }
    assert_eq!(ed.get_command_line(), "wq out.txt");
    let action = ed.handle_input(Key::Enter);
    assert_eq!(action, EditorAction::SaveAndQuit(Some("out.txt".to_string())));
    assert_eq!(ed.get_command_line(), "");
}

#[test]
fn command_table() {
    let mut ed = command_editor();
    assert_eq!(ed.execute_command("q"), EditorAction::Quit);
    assert_eq!(ed.execute_command("qa"), EditorAction::QuitAll);
    assert_eq!(ed.execute_command("dla"), EditorAction::DebugPrintLinesToConsole);
    assert_eq!(ed.execute_command("dlc"), EditorAction::DebugPrintCurrentLineToConsole);
    assert_eq!(ed.execute_command("w"), EditorAction::Save(None));
    assert_eq!(ed.execute_command("w notes.md"), EditorAction::Save(Some("notes.md".to_string())));
    assert_eq!(ed.execute_command("w a b"), EditorAction::Save(None));
    assert_eq!(ed.execute_command("wq"), EditorAction::SaveAndQuit(None));
    assert_eq!(ed.execute_command("x"), EditorAction::NoAction);
    assert_eq!(ed.execute_command("qq"), EditorAction::NoAction);
}

#[test]
fn command_backspace_and_exit_clear() {
    let mut ed = command_editor();
    ed.handle_input(Key::Backspace);
    assert_eq!(ed.get_command_line(), "");
    for c in "qx".chars() {
        ed.handle_input(Key::Char(c));
    }
    ed.handle_input(Key::Backspace);
    assert_eq!(ed.get_command_line(), "q");
    assert_eq!(ed.handle_input(Key::Esc), EditorAction::EnterNavigateMode);
    let nav = ed.enter_navigate_mode();
    assert_eq!(nav.get_command_line(), "");
}

#[test]
fn quit_from_command_line_via_state() {
    let (st, action) = feed(state_on("abc"), &[Key::Char(':'), Key::Char('q'), Key::Enter]);
    assert_eq!(action, EditorAction::Quit);
    assert_eq!(st.label(), "Com");
}
