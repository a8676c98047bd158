//! The editor session: buffers, the shared cursor, the command and status
//! lines, and the operations of each mode.
//!
//! The mode is a type parameter (`Editor<NavigateMode>`, ...): each mode
//! offers its own operations, and a transition consumes the session in one
//! mode and returns it in another.
use vstd::prelude::*;
use std::marker::PhantomData;
use crate::buffer::{HBuffer, history_pushed, redo_step, snapshot_step, undo_step};
use crate::motion::{
    clamp_pos, down_target, first_non_whitespace, first_non_ws_col, is_ws, left_target, line_end,
    line_end_col, right_target, run_end, same_kind_run_end, up_target, word_backward,
    word_backward_target, word_end_forward, word_end_target, word_forward, word_forward_target,
};
use crate::text::{delete_at, delete_line_at, insert_at, line_count, line_len, line_start, valid_pos, lemma_line_start_bound, lemma_line_start_mono};

verus! {

/// Navigate mode: cursor movement, buffer switching and entry to every other mode.
pub struct NavigateMode;

/// Edit mode: typing into the focused buffer.
pub struct EditMode;

/// Select mode: cursor movement over a selection.
pub struct SelectMode;

/// Command mode: typing and running a command line.
pub struct CommandMode;

/// A key press, as the mode handlers read it.
#[derive(Clone, Copy, Debug, PartialEq, Eq, Structural)]
pub enum Key {
    Char(char),
    Esc,
    CapsLock,
    Backspace,
    Delete,
    Enter,
    Tab,
    BackTab,
    Up,
    Down,
    Left,
    Right,
    Home,
    Other,
}

/// What the host is asked to do after a key press.
#[derive(Clone, Debug, PartialEq, Eq)]
pub enum EditorAction {
    Quit,
    Save(Option<String>),
    SaveAndQuit(Option<String>),
    QuitAll,
    EnterCommandMode,
    EnterEditMode,
    EnterEditModeInNewLine,
    EnterSelectMode,
    EnterNavigateMode,
    DebugPrintLinesToConsole,
    DebugPrintCurrentLineToConsole,
    NoAction,
}

/// How long a status message stays, in milliseconds.
pub const ERROR_LIFETIME_MS: u64 = 10000;

/// Model of an editor session.
pub struct EditorView {
    pub buffers: Seq<HBuffer>,
    pub focus: nat,
    pub line: nat,
    pub col: nat,
    pub scroll: nat,
    pub command_line: Seq<char>,
    pub error_line: Seq<char>,
    pub error_timestamp: Option<u64>,
    pub pending: Option<char>,
}

impl EditorView {
    /// Text of the focused buffer.
    pub open spec fn text(self) -> Seq<char> {
        self.buffers[self.focus as int].text@
    }

    pub open spec fn buffer(self) -> HBuffer {
        self.buffers[self.focus as int]
    }

    /// There is a focused buffer and the cursor names a valid position in it.
    pub open spec fn wf(self) -> bool {
        &&& self.buffers.len() > 0
        &&& self.focus < self.buffers.len()
        &&& valid_pos(self.text(), self.line, self.col)
    }

    /// The session with the cursor at `p`.
    pub open spec fn at(self, p: (nat, nat)) -> EditorView {
        EditorView { line: p.0, col: p.1, ..self }
    }

    /// `a` is this session with the focused buffer replaced by `a`'s and the
    /// cursor at the valid position nearest to `p` in its text.
    pub open spec fn changed_to(self, a: EditorView, p: (nat, nat)) -> bool {
        &&& a.buffers == self.buffers.update(self.focus as int, a.buffers[self.focus as int])
        &&& a == EditorView {
            buffers: a.buffers,
            line: clamp_pos(a.buffers[self.focus as int].text@, p.0, p.1).0,
            col: clamp_pos(a.buffers[self.focus as int].text@, p.0, p.1).1,
            ..self
        }
    }

    /// `a` is this session after an edit that leaves `new_text` in the
    /// focused buffer and moves the cursor to (or nearest to) `p`.
    pub open spec fn edited_to(self, a: EditorView, new_text: Seq<char>, p: (nat, nat)) -> bool {
        &&& self.changed_to(a, p)
        &&& a.text() == new_text
        &&& a.buffer().keeps_all_but_text(self.buffer())
    }

    /// `a` is this session with focus on buffer `f` and the cursor kept, as
    /// far as that buffer's text allows.
    pub open spec fn focused_to(self, a: EditorView, f: nat) -> bool {
        a == EditorView {
            focus: f,
            line: clamp_pos(self.buffers[f as int].text@, self.line, self.col).0,
            col: clamp_pos(self.buffers[f as int].text@, self.line, self.col).1,
            ..self
        }
    }
}

/// Text left by "dw" at `(line, col)`: the run of same-kind chars under the
/// cursor, up to the line's end, is gone.
pub open spec fn dw_text(s: Seq<char>, line: nat, col: nat) -> Seq<char> {
    if col < line_len(s, line) {
        let g = line_start(s, line) + col;
        s.subrange(0, g as int) + s.subrange(run_end(s, g, is_ws(s[g as int])) as int, s.len() as int)
    } else {
        s
    }
}

/// Scroll offset that keeps `line` within `height` lines from it, moving as
/// little as possible.
pub open spec fn viewport_offset(line: nat, offset: nat, height: nat) -> nat {
    if line < offset {
        line
    } else if line >= offset + height {
        (line + 1 - height) as nat
    } else {
        offset
    }
}

/// Where Backspace in Edit mode deletes, and leaves the cursor: the char
/// before the cursor, or the previous line's line feed at column 0.
pub open spec fn backspace_pos(s: Seq<char>, line: nat, col: nat) -> (nat, nat) {
    if col > 0 {
        (line, (col - 1) as nat)
    } else if line > 0 {
        let plen = line_len(s, (line - 1) as nat);
        ((line - 1) as nat, if plen > 0 {
            (plen - 1) as nat
        } else {
            0
        })
    } else {
        (line, col)
    }
}

/// Text left by Backspace in Edit mode; unchanged at the very start.
pub open spec fn backspace_text(s: Seq<char>, line: nat, col: nat) -> Seq<char> {
    if col == 0 && line == 0 {
        s
    } else {
        delete_at(s, backspace_pos(s, line, col).0, backspace_pos(s, line, col).1)
    }
}

/// Effect of a key in Navigate mode: `b` before, `a` after, `r` returned.
/// A pending "d" or "g" completes "dw" or "gg", and is dropped otherwise
/// before the key is read on its own.
pub open spec fn navigate_effect(b: EditorView, key: Key, a: EditorView, r: EditorAction) -> bool {
    let v = EditorView { pending: None, ..b };
    let s = b.text();
    if b.pending == Some('d') && key == Key::Char('w') {
        &&& r is NoAction
        &&& v.changed_to(a, (b.line, b.col))
        &&& history_pushed(b.buffer(), a.buffer())
        &&& a.text() == dw_text(s, b.line, b.col)
    } else if b.pending == Some('g') && key == Key::Char('g') {
        r is NoAction && a == v.at((0, 0))
    } else {
        match key {
            Key::Char(c) => if c == 'i' {
                r is EnterEditMode && a == v
            } else if c == 'a' {
                r is EnterEditMode && a == v.at(right_target(s, b.line, b.col))
            } else if c == 'o' {
                r is EnterEditModeInNewLine && a == v
            } else if c == 'd' || c == 'g' {
                r is NoAction && a == (EditorView { pending: Some(c), ..b })
            } else if c == ':' {
                r is EnterCommandMode && a == v
            } else if c == 'v' {
                r is EnterSelectMode && a == v
            } else if c == 'u' {
                &&& r is NoAction
                &&& v.changed_to(a, (b.line, b.col))
                &&& undo_step(b.buffer(), a.buffer())
            } else if c == 'U' {
                &&& r is NoAction
                &&& v.changed_to(a, (b.line, b.col))
                &&& redo_step(b.buffer(), a.buffer())
            } else {
                &&& r is NoAction
                &&& a == v.at(
                    if c == 'w' {
                        word_forward_target(s, b.line, b.col)
                    } else if c == 'e' {
                        word_end_target(s, b.line, b.col)
                    } else if c == 'b' {
                        word_backward_target(s, b.line, b.col)
                    } else if c == 'G' {
                        ((line_count(s) - 1) as nat, 0)
                    } else if c == '^' {
                        (b.line, first_non_ws_col(s, b.line))
                    } else if c == '$' {
                        (b.line, line_end_col(s, b.line))
                    } else if c == 'h' {
                        left_target(b.line, b.col)
                    } else if c == 'l' {
                        right_target(s, b.line, b.col)
                    } else if c == 'k' {
                        up_target(s, b.line, b.col)
                    } else if c == 'j' {
                        down_target(s, b.line, b.col)
                    } else {
                        (b.line, b.col)
                    },
                )
            },
            Key::Tab => r is NoAction && v.focused_to(
                a,
                if b.focus + 1 < b.buffers.len() {
                    b.focus + 1
                } else {
                    0
                },
            ),
            Key::BackTab => r is NoAction && v.focused_to(
                a,
                if b.focus > 0 {
                    (b.focus - 1) as nat
                } else {
                    (b.buffers.len() - 1) as nat
                },
            ),
            _ => r is NoAction && a == v,
        }
    }
}

/// Effect of a key in Edit mode.
pub open spec fn edit_effect(b: EditorView, key: Key, a: EditorView, r: EditorAction) -> bool {
    let s = b.text();
    match key {
        Key::Esc | Key::CapsLock => r is EnterNavigateMode && a == b,
        Key::Char(c) => r is NoAction && b.edited_to(a, insert_at(s, b.line, b.col, c), (b.line, b.col + 1)),
        Key::Tab => r is NoAction && b.edited_to(a, insert_at(s, b.line, b.col, '\t'), (b.line, b.col + 1)),
        Key::Enter => r is NoAction && b.edited_to(a, insert_at(s, b.line, b.col, '\n'), (b.line + 1, 0)),
        Key::Backspace | Key::Delete => r is NoAction && b.edited_to(
            a,
            backspace_text(s, b.line, b.col),
            backspace_pos(s, b.line, b.col),
        ),
        Key::Up => r is NoAction && a == b.at(up_target(s, b.line, b.col)),
        Key::Down => r is NoAction && a == b.at(down_target(s, b.line, b.col)),
        Key::Left => r is NoAction && a == b.at(left_target(b.line, b.col)),
        Key::Right => r is NoAction && a == b.at(right_target(s, b.line, b.col)),
        Key::Home => r is NoAction && a == b.at((b.line, 0)),
        _ => r is NoAction && a == b,
    }
}

/// Effect of a key in Select mode.
pub open spec fn select_effect(b: EditorView, key: Key, a: EditorView, r: EditorAction) -> bool {
    let s = b.text();
    match key {
        Key::Esc | Key::CapsLock => r is EnterNavigateMode && a == b,
        Key::Char(c) => if c == 'i' {
            r is EnterEditMode && a == b
        } else if c == ':' {
            r is EnterCommandMode && a == b
        } else {
            &&& r is NoAction
            &&& a == b.at(
                if c == 'h' {
                    left_target(b.line, b.col)
                } else if c == 'l' {
                    right_target(s, b.line, b.col)
                } else if c == 'k' {
                    up_target(s, b.line, b.col)
                } else if c == 'j' {
                    down_target(s, b.line, b.col)
                } else {
                    (b.line, b.col)
                },
            )
        },
        _ => r is NoAction && a == b,
    }
}

/// Number of spaces in `s`.
pub open spec fn space_count(s: Seq<char>) -> nat
    decreases s.len(),
{
    if s.len() == 0 {
        0
    } else {
        (if s[0] == ' ' { 1nat } else { 0nat }) + space_count(s.drop_first())
    }
}

/// What follows the first space of `s`.
pub open spec fn after_first_space(s: Seq<char>) -> Seq<char>
    decreases s.len(),
{
    if s.len() == 0 {
        s
    } else if s[0] == ' ' {
        s.drop_first()
    } else {
        after_first_space(s.drop_first())
    }
}

/// File name of a save command: the second of exactly two space-separated parts.
pub open spec fn save_arg(cmd: Seq<char>) -> Option<Seq<char>> {
    if space_count(cmd) == 1 {
        Some(after_first_space(cmd))
    } else {
        None
    }
}

pub open spec fn names(t: Option<String>, a: Option<Seq<char>>) -> bool {
    match a {
        Some(x) => t is Some && t->0@ == x,
        None => t is None,
    }
}

/// The intent of command line `cmd`.
pub open spec fn command_result(cmd: Seq<char>, r: EditorAction) -> bool {
    if cmd == seq!['q'] {
        r is Quit
    } else if cmd == seq!['q', 'a'] {
        r is QuitAll
    } else if cmd == seq!['d', 'l', 'a'] {
        r is DebugPrintLinesToConsole
    } else if cmd == seq!['d', 'l', 'c'] {
        r is DebugPrintCurrentLineToConsole
    } else if cmd.len() >= 2 && cmd[0] == 'w' && cmd[1] == 'q' {
        match r {
            EditorAction::SaveAndQuit(t) => names(t, save_arg(cmd)),
            _ => false,
        }
    } else if cmd.len() >= 1 && cmd[0] == 'w' {
        match r {
            EditorAction::Save(t) => names(t, save_arg(cmd)),
            _ => false,
        }
    } else {
        r is NoAction
    }
}

/// Effect of a key in Command mode.
pub open spec fn command_effect(b: EditorView, key: Key, a: EditorView, r: EditorAction) -> bool {
    match key {
        Key::Esc | Key::CapsLock => r is EnterNavigateMode && a == b,
        Key::Char(c) => r is NoAction && a == (EditorView { command_line: b.command_line.push(c), ..b }),
        Key::Backspace => r is NoAction && a == (EditorView {
            command_line: if b.command_line.len() > 0 {
                b.command_line.drop_last()
            } else {
                b.command_line
            },
            ..b
        }),
        Key::Enter => command_result(b.command_line, r) && a == (EditorView {
            command_line: Seq::empty(),
            ..b
        }),
        _ => r is NoAction && a == b,
    }
}

/// An instance of the editor in mode `State`.
pub struct Editor<State> {
    buffers: Vec<HBuffer>,
    current_focused_index: usize,
    cursor_col: usize,
    cursor_line: usize,
    scroll_offset: usize,
    command_line: String,
    error_line: String,
    error_timestamp: Option<u64>,
    input_seq: Option<char>,
    state: PhantomData<State>,
}

impl<State> View for Editor<State> {
    type V = EditorView;

    closed spec fn view(&self) -> EditorView {
        EditorView {
            buffers: self.buffers@,
            focus: self.current_focused_index as nat,
            line: self.cursor_line as nat,
            col: self.cursor_col as nat,
            scroll: self.scroll_offset as nat,
            command_line: self.command_line@,
            error_line: self.error_line@,
            error_timestamp: self.error_timestamp,
            pending: self.input_seq,
        }
    }
}

/// Relies on `String::push`: the char is appended.
pub assume_specification[ String::push ](s: &mut String, ch: char)
    ensures
        final(s)@ == old(s)@.push(ch),
;

/// Relies on `String::pop`: the last char is taken off and returned; `None`
/// and no change for an empty string.
pub assume_specification[ String::pop ](s: &mut String) -> (r: Option<char>)
    ensures
        old(s)@.len() == 0 ==> r is None && final(s)@ == old(s)@,
        old(s)@.len() > 0 ==> r == Some(old(s)@.last()) && final(s)@ == old(s)@.drop_last(),
;

impl Editor<NavigateMode> {
    /// A session in Navigate mode on `buffers`, focused on the first.
    pub fn new(buffers: Vec<HBuffer>) -> (r: Self)
        requires
            buffers@.len() > 0,
        ensures
            r@ == (EditorView {
                buffers: buffers@,
                focus: 0,
                line: 0,
                col: 0,
                scroll: 0,
                command_line: Seq::empty(),
                error_line: Seq::empty(),
                error_timestamp: None,
                pending: None,
            }),
            r@.wf(),
    {
        Editor {
            buffers,
            current_focused_index: 0,
            cursor_line: 0,
            cursor_col: 0,
            scroll_offset: 0,
            command_line: String::new(),
            error_line: String::new(),
            error_timestamp: None,
            input_seq: None,
            state: PhantomData,
        }
    }

    /// Focuses the next buffer, wrapping around.
    pub fn buffer_switch_forward(&mut self)
        requires
            old(self)@.wf(),
        ensures
            old(self)@.focused_to(
                final(self)@,
                if old(self)@.focus + 1 < old(self)@.buffers.len() {
                    old(self)@.focus + 1
                } else {
                    0
                },
            ),
            final(self)@.wf(),
    {
        if self.current_focused_index < self.buffers.len() - 1 {
            self.current_focused_index = self.current_focused_index + 1;
        } else {
            self.current_focused_index = 0;
        }
        self.clamp_cursor();
    }

    /// Focuses the previous buffer, wrapping around.
    pub fn buffer_switch_backward(&mut self)
        requires
            old(self)@.wf(),
        ensures
            old(self)@.focused_to(
                final(self)@,
                if old(self)@.focus > 0 {
                    (old(self)@.focus - 1) as nat
                } else {
                    (old(self)@.buffers.len() - 1) as nat
                },
            ),
            final(self)@.wf(),
    {
        if self.current_focused_index > 0 {
            self.current_focused_index = self.current_focused_index - 1;
        } else {
            self.current_focused_index = self.buffers.len() - 1;
        }
        self.clamp_cursor();
    }
}

impl<State> Editor<State> {
    fn transition<NewState>(self) -> (r: Editor<NewState>)
        ensures
            r@ == self@,
    {
        Editor {
            buffers: self.buffers,
            current_focused_index: self.current_focused_index,
            cursor_col: self.cursor_col,
            cursor_line: self.cursor_line,
            scroll_offset: self.scroll_offset,
            command_line: self.command_line,
            error_line: self.error_line,
            error_timestamp: self.error_timestamp,
            input_seq: self.input_seq,
            state: PhantomData,
        }
    }

    /// Moves the cursor to the valid position nearest to it.
    fn clamp_cursor(&mut self)
        requires
            old(self)@.buffers.len() > 0,
            old(self)@.focus < old(self)@.buffers.len(),
        ensures
            final(self)@ == old(self)@.at(clamp_pos(old(self)@.text(), old(self)@.line, old(self)@.col)),
            final(self)@.wf(),
    {
        let f = self.current_focused_index;
        let count = self.buffers[f].line_count();
        if self.cursor_line >= count {
            self.cursor_line = count - 1;
        }
        let len = self.buffers[f].line_length(self.cursor_line);
        if self.cursor_col > len {
            self.cursor_col = len;
        }
    }

    /// Scrolls as little as needed for the cursor's line to be among the
    /// `height` lines shown.
    pub fn update_viewport(&mut self, height: usize)
        requires
            old(self)@.wf(),
        ensures
            final(self)@ == (EditorView {
                scroll: viewport_offset(old(self)@.line, old(self)@.scroll, height as nat),
                ..old(self)@
            }),
    {
        // the line count fits in usize, so the next line index does too
        let _count = self.buffers[self.current_focused_index].line_count();
        if self.cursor_line < self.scroll_offset {
            self.scroll_offset = self.cursor_line;
        } else if self.cursor_line - self.scroll_offset >= height {
            self.scroll_offset = self.cursor_line + 1 - height;
        }
    }

    pub fn get_scroll_offset(&self) -> (r: usize)
        ensures
            r == self@.scroll,
    {
        self.scroll_offset
    }

    /// "h": one column left, not past the line's start.
    pub fn move_cursor_left(&mut self)
        requires
            old(self)@.wf(),
        ensures
            final(self)@ == old(self)@.at(left_target(old(self)@.line, old(self)@.col)),
            final(self)@.wf(),
    {
        if self.cursor_col > 0 {
            self.cursor_col = self.cursor_col - 1;
        }
    }

    /// "l": one column right, up to the line's length.
    pub fn move_cursor_right(&mut self)
        requires
            old(self)@.wf(),
        ensures
            final(self)@ == old(self)@.at(right_target(old(self)@.text(), old(self)@.line, old(self)@.col)),
            final(self)@.wf(),
    {
        let line_len = self.buffers[self.current_focused_index].line_length(self.cursor_line);
        if self.cursor_col < line_len {
            self.cursor_col = self.cursor_col + 1;
        }
    }

    fn move_cursor_up(&mut self)
        requires
            old(self)@.wf(),
        ensures
            final(self)@ == old(self)@.at(up_target(old(self)@.text(), old(self)@.line, old(self)@.col)),
            final(self)@.wf(),
    {
        if self.cursor_line > 0 {
            self.cursor_line = self.cursor_line - 1;
            self.clamp_cursor();
        }
    }

    fn move_cursor_start(&mut self)
        requires
            old(self)@.wf(),
        ensures
            final(self)@ == old(self)@.at((old(self)@.line, 0)),
            final(self)@.wf(),
    {
        self.cursor_col = 0;
    }

    fn move_cursor_down(&mut self)
        requires
            old(self)@.wf(),
        ensures
            final(self)@ == old(self)@.at(down_target(old(self)@.text(), old(self)@.line, old(self)@.col)),
            final(self)@.wf(),
    {
        let count = self.buffers[self.current_focused_index].line_count();
        if self.cursor_line + 1 < count {
            self.cursor_line = self.cursor_line + 1;
            self.clamp_cursor();
        }
    }

    pub fn get_command_line(&self) -> (r: String)
        ensures
            r@ == self@.command_line,
    {
        self.command_line.clone()
    }

    pub fn get_error_line(&self) -> (r: String)
        ensures
            r@ == self@.error_line,
    {
        self.error_line.clone()
    }

    pub fn get_buffers(&self) -> (r: &Vec<HBuffer>)
        ensures
            r@ == self@.buffers,
    {
        &self.buffers
    }

    pub fn get_active_buffer(&self) -> (r: &HBuffer)
        requires
            self@.wf(),
        ensures
            *r == self@.buffer(),
    {
        &self.buffers[self.current_focused_index]
    }

    /// The focused buffer, for changes that the session does not make itself;
    /// the cursor is not adjusted to them.
    pub fn get_active_buffer_mut(&mut self) -> (r: &mut HBuffer)
        requires
            old(self)@.wf(),
        ensures
            *r == old(self)@.buffer(),
            final(self)@ == (EditorView {
                buffers: old(self)@.buffers.update(old(self)@.focus as int, *final(r)),
                ..old(self)@
            }),
    {
        &mut self.buffers[self.current_focused_index]
    }

    /// Shows `error` on the status line from time `now` (in milliseconds).
    pub fn set_error_line(&mut self, error: String, now: u64)
        ensures
            final(self)@ == (EditorView { error_line: error@, error_timestamp: Some(now), ..old(self)@ }),
    {
        self.error_line = error;
        self.error_timestamp = Some(now);
    }

    /// Clears the status line once `ERROR_LIFETIME_MS` have passed since it
    /// was set, `now` being the time in milliseconds.
    pub fn check_error_expiry(&mut self, now: u64)
        ensures
            final(self)@ == if old(self)@.error_timestamp is Some && old(self)@.error_timestamp->0 <= now
                && now - old(self)@.error_timestamp->0 >= ERROR_LIFETIME_MS {
                EditorView { error_line: Seq::empty(), error_timestamp: None, ..old(self)@ }
            } else {
                old(self)@
            },
    {
        if let Some(time) = self.error_timestamp {
            if time <= now && now - time >= ERROR_LIFETIME_MS {
                self.error_line = String::new();
                self.error_timestamp = None;
            }
        }
    }

    /// The cursor as `(column, line)`.
    pub fn get_cursor_position(&self) -> (r: (usize, usize))
        ensures
            r.0 == self@.col,
            r.1 == self@.line,
    {
        (self.cursor_col, self.cursor_line)
    }

    /// Undoes the focused buffer's last edit gesture.
    pub fn undo(&mut self)
        requires
            old(self)@.wf(),
        ensures
            old(self)@.changed_to(final(self)@, (old(self)@.line, old(self)@.col)),
            undo_step(old(self)@.buffer(), final(self)@.buffer()),
            final(self)@.wf(),
    {
        self.buffers[self.current_focused_index].undo();
        self.clamp_cursor();
    }

    /// Redoes the focused buffer's last undone edit gesture.
    pub fn redo(&mut self)
        requires
            old(self)@.wf(),
        ensures
            old(self)@.changed_to(final(self)@, (old(self)@.line, old(self)@.col)),
            redo_step(old(self)@.buffer(), final(self)@.buffer()),
            final(self)@.wf(),
    {
        self.buffers[self.current_focused_index].redo();
        self.clamp_cursor();
    }

    /// "dw": takes a snapshot, then deletes the run of same-kind chars under
    /// the cursor (see `dw_text`); the cursor stays.
    pub fn delete_to_next_whitespace(&mut self)
        requires
            old(self)@.wf(),
        ensures
            old(self)@.changed_to(final(self)@, (old(self)@.line, old(self)@.col)),
            history_pushed(old(self)@.buffer(), final(self)@.buffer()),
            final(self)@.text() == dw_text(old(self)@.text(), old(self)@.line, old(self)@.col),
            final(self)@.wf(),
    {
        let ghost s = self@.text();
        proof {
            lemma_line_start_bound(s, self.cursor_line as nat + 1);
            lemma_line_start_mono(s, self.cursor_line as nat, self.cursor_line as nat + 1);
        }
        let f = self.current_focused_index;
        self.buffers[f].save_snapshot();
        let line_len = self.buffers[f].line_length(self.cursor_line);
        if self.cursor_col < line_len {
            // the length fits in usize, so every offset into the text does too
            let _total = self.buffers[f].char_count();
            let g = self.buffers[f].text.line_to_char(self.cursor_line) + self.cursor_col;
            let e = same_kind_run_end(&self.buffers[f].text, g);
            self.buffers[f].text.remove(g..e);
        }
        assert(self.buffers@ =~= old(self).buffers@.update(f as int, self.buffers@[f as int]));
        self.clamp_cursor();
    }

    /// "w": to the start of the next word.
    pub fn move_word_forward(&mut self)
        requires
            old(self)@.wf(),
        ensures
            final(self)@ == old(self)@.at(word_forward_target(old(self)@.text(), old(self)@.line, old(self)@.col)),
            final(self)@.wf(),
    {
        let (line, col) = word_forward(
            &self.buffers[self.current_focused_index].text,
            self.cursor_line,
            self.cursor_col,
        );
        self.cursor_line = line;
        self.cursor_col = col;
    }

    /// "b": to the start of the previous word.
    pub fn move_word_backward(&mut self)
        requires
            old(self)@.wf(),
        ensures
            final(self)@ == old(self)@.at(word_backward_target(old(self)@.text(), old(self)@.line, old(self)@.col)),
            final(self)@.wf(),
    {
        let (line, col) = word_backward(
            &self.buffers[self.current_focused_index].text,
            self.cursor_line,
            self.cursor_col,
        );
        self.cursor_line = line;
        self.cursor_col = col;
    }

    /// "gg": to the start of the first line.
    pub fn move_to_start_of_file(&mut self)
        requires
            old(self)@.wf(),
        ensures
            final(self)@ == old(self)@.at((0, 0)),
            final(self)@.wf(),
    {
        self.cursor_line = 0;
        self.cursor_col = 0;
    }

    /// "G": to the start of the last line.
    pub fn move_to_end_of_file(&mut self)
        requires
            old(self)@.wf(),
        ensures
            final(self)@ == old(self)@.at(((line_count(old(self)@.text()) - 1) as nat, 0)),
            final(self)@.wf(),
    {
        let count = self.buffers[self.current_focused_index].line_count();
        self.cursor_line = count - 1;
        self.cursor_col = 0;
    }

    /// "e": to the end of the current or next word.
    pub fn move_word_end_forward(&mut self)
        requires
            old(self)@.wf(),
        ensures
            final(self)@ == old(self)@.at(word_end_target(old(self)@.text(), old(self)@.line, old(self)@.col)),
            final(self)@.wf(),
    {
        let (line, col) = word_end_forward(
            &self.buffers[self.current_focused_index].text,
            self.cursor_line,
            self.cursor_col,
        );
        self.cursor_line = line;
        self.cursor_col = col;
    }

    /// "$": to the last char before the line break.
    pub fn move_to_line_end(&mut self)
        requires
            old(self)@.wf(),
        ensures
            final(self)@ == old(self)@.at((old(self)@.line, line_end_col(old(self)@.text(), old(self)@.line))),
            final(self)@.wf(),
    {
        self.cursor_col = line_end(&self.buffers[self.current_focused_index].text, self.cursor_line);
    }

    /// "^": to the first non-whitespace char of the line.
    pub fn move_to_line_start_non_whitespace(&mut self)
        requires
            old(self)@.wf(),
        ensures
            final(self)@ == old(self)@.at((old(self)@.line, first_non_ws_col(old(self)@.text(), old(self)@.line))),
            final(self)@.wf(),
    {
        self.cursor_col = first_non_whitespace(
            &self.buffers[self.current_focused_index].text,
            self.cursor_line,
        );
    }
}


impl Editor<NavigateMode> {
    /// Reads a key in Navigate mode: motions, "dw" and "gg", undo and redo,
    /// buffer switching, and the intents that lead to the other modes.
    pub fn handle_input(&mut self, key: Key) -> (r: EditorAction)
        requires
            old(self)@.wf(),
        ensures
            navigate_effect(old(self)@, key, final(self)@, r),
            final(self)@.wf(),
    {
        let pending = self.input_seq;
        self.input_seq = None;
        if let Some(p) = pending {
            if p == 'd' && key == Key::Char('w') {
                self.delete_to_next_whitespace();
                return EditorAction::NoAction;
            } else if p == 'g' && key == Key::Char('g') {
                self.move_to_start_of_file();
                return EditorAction::NoAction;
            }
        }
        match key {
            Key::Char(c) => {
                if c == 'i' {
                    EditorAction::EnterEditMode
                } else if c == 'a' {
                    self.move_cursor_right();
                    EditorAction::EnterEditMode
                } else if c == 'o' {
                    EditorAction::EnterEditModeInNewLine
                } else if c == 'd' || c == 'g' {
                    self.input_seq = Some(c);
                    EditorAction::NoAction
                } else if c == ':' {
                    EditorAction::EnterCommandMode
                } else if c == 'v' {
                    EditorAction::EnterSelectMode
                } else {
                    if c == 'w' {
                        self.move_word_forward();
                    } else if c == 'e' {
                        self.move_word_end_forward();
                    } else if c == 'b' {
                        self.move_word_backward();
                    } else if c == 'G' {
                        self.move_to_end_of_file();
                    } else if c == '^' {
                        self.move_to_line_start_non_whitespace();
                    } else if c == '$' {
                        self.move_to_line_end();
                    } else if c == 'h' {
                        self.move_cursor_left();
                    } else if c == 'l' {
                        self.move_cursor_right();
                    } else if c == 'k' {
                        self.move_cursor_up();
                    } else if c == 'j' {
                        self.move_cursor_down();
                    } else if c == 'u' {
                        self.undo();
                    } else if c == 'U' {
                        self.redo();
                    }
                    EditorAction::NoAction
                }
            },
            Key::Tab => {
                self.buffer_switch_forward();
                EditorAction::NoAction
            },
            Key::BackTab => {
                self.buffer_switch_backward();
                EditorAction::NoAction
            },
            _ => EditorAction::NoAction,
        }
    }

    /// To Edit mode; the focused buffer takes a snapshot, so that the whole
    /// edit gesture undoes as one.
    pub fn enter_edit_mode(self) -> (r: Editor<EditMode>)
        requires
            self@.wf(),
        ensures
            r@ == (EditorView { buffers: self@.buffers.update(self@.focus as int, r@.buffer()), ..self@ }),
            snapshot_step(self@.buffer(), r@.buffer()),
            r@.wf(),
    {
        let mut ed = self;
        ed.buffers[ed.current_focused_index].save_snapshot();
        ed.transition()
    }

    pub fn enter_command_mode(self) -> (r: Editor<CommandMode>)
        ensures
            r@ == self@,
    {
        self.transition()
    }

    pub fn enter_select_mode(self) -> (r: Editor<SelectMode>)
        ensures
            r@ == self@,
    {
        self.transition()
    }
}

impl Editor<EditMode> {
    pub fn enter_navigate_mode(self) -> (r: Editor<NavigateMode>)
        ensures
            r@ == self@,
    {
        self.transition()
    }

    pub fn enter_select_mode(self) -> (r: Editor<SelectMode>)
        ensures
            r@ == self@,
    {
        self.transition()
    }

    /// Inserts `c` at the cursor and moves past it.
    pub fn insert_char(&mut self, c: char)
        requires
            old(self)@.wf(),
        ensures
            old(self)@.edited_to(
                final(self)@,
                insert_at(old(self)@.text(), old(self)@.line, old(self)@.col, c),
                (old(self)@.line, old(self)@.col + 1),
            ),
            final(self)@.wf(),
    {
        let ghost s = self@.text();
        proof {
            lemma_line_start_bound(s, self.cursor_line as nat + 1);
            lemma_line_start_mono(s, self.cursor_line as nat, self.cursor_line as nat + 1);
        }
        let f = self.current_focused_index;
        self.buffers[f].insert_char(self.cursor_line, self.cursor_col, c);
        // the length fits in usize, so every offset into the text does too
        let _total = self.buffers[f].char_count();
        self.cursor_col = self.cursor_col + 1;
        assert(self.buffers@ =~= old(self).buffers@.update(f as int, self.buffers@[f as int]));
        self.clamp_cursor();
    }

    /// Splits the line at the cursor; the cursor goes to the start of the new line.
    pub fn insert_line(&mut self)
        requires
            old(self)@.wf(),
        ensures
            old(self)@.edited_to(
                final(self)@,
                insert_at(old(self)@.text(), old(self)@.line, old(self)@.col, '\n'),
                (old(self)@.line + 1, 0),
            ),
            final(self)@.wf(),
    {
        let f = self.current_focused_index;
        // the line count fits in usize, so the next line index does too
        let _count = self.buffers[f].line_count();
        self.buffers[f].insert_line(self.cursor_line, self.cursor_col);
        self.cursor_line = self.cursor_line + 1;
        self.cursor_col = 0;
        assert(self.buffers@ =~= old(self).buffers@.update(f as int, self.buffers@[f as int]));
        self.clamp_cursor();
    }

    /// Backspace: deletes the char before the cursor; at column 0 joins the
    /// line to the previous one by deleting that line's line feed.
    pub fn delete_char(&mut self)
        requires
            old(self)@.wf(),
        ensures
            old(self)@.edited_to(
                final(self)@,
                backspace_text(old(self)@.text(), old(self)@.line, old(self)@.col),
                backspace_pos(old(self)@.text(), old(self)@.line, old(self)@.col),
            ),
            final(self)@.wf(),
    {
        let f = self.current_focused_index;
        if self.cursor_col == 0 {
            if self.cursor_line > 0 {
                let prev_line_idx = self.cursor_line - 1;
                let prev_line_len = self.buffers[f].line_length(prev_line_idx);
                let new_cursor_col = if prev_line_len > 0 {
                    prev_line_len - 1
                } else {
                    0
                };
                self.buffers[f].delete_char(prev_line_idx, new_cursor_col);
                self.cursor_line = prev_line_idx;
                self.cursor_col = new_cursor_col;
            }
        } else {
            self.buffers[f].delete_char(self.cursor_line, self.cursor_col - 1);
            self.cursor_col = self.cursor_col - 1;
        }
        assert(self.buffers@ =~= old(self).buffers@.update(f as int, self.buffers@[f as int]));
        self.clamp_cursor();
    }

    /// Deletes the cursor's line; the cursor goes to the line above, if any.
    pub fn delete_line(&mut self)
        requires
            old(self)@.wf(),
        ensures
            old(self)@.edited_to(
                final(self)@,
                delete_line_at(old(self)@.text(), old(self)@.line),
                (if old(self)@.line > 0 {
                    (old(self)@.line - 1) as nat
                } else {
                    0
                }, old(self)@.col),
            ),
            final(self)@.wf(),
    {
        let f = self.current_focused_index;
        let line_to_delete = self.cursor_line;
        if self.cursor_line > 0 {
            self.cursor_line = self.cursor_line - 1;
        }
        self.buffers[f].delete_line(line_to_delete);
        assert(self.buffers@ =~= old(self).buffers@.update(f as int, self.buffers@[f as int]));
        self.clamp_cursor();
    }

    /// Opens an empty line below the cursor's line and moves to it.
    pub fn open_line_below(&mut self)
        requires
            old(self)@.wf(),
        ensures
            old(self)@.edited_to(
                final(self)@,
                insert_at(
                    old(self)@.text(),
                    old(self)@.line,
                    line_len(old(self)@.text(), old(self)@.line),
                    '\n',
                ),
                (old(self)@.line + 1, 0),
            ),
            final(self)@.wf(),
    {
        let f = self.current_focused_index;
        // the line count fits in usize, so the next line index does too
        let _count = self.buffers[f].line_count();
        let len = self.buffers[f].line_length(self.cursor_line);
        self.buffers[f].insert_char(self.cursor_line, len, '\n');
        self.cursor_line = self.cursor_line + 1;
        self.cursor_col = 0;
        assert(self.buffers@ =~= old(self).buffers@.update(f as int, self.buffers@[f as int]));
        self.clamp_cursor();
    }

    /// Reads a key in Edit mode: typing, Backspace, Enter, arrows; Esc or
    /// CapsLock asks to go back to Navigate mode.
    pub fn handle_input(&mut self, key: Key) -> (r: EditorAction)
        requires
            old(self)@.wf(),
        ensures
            edit_effect(old(self)@, key, final(self)@, r),
            final(self)@.wf(),
    {
        match key {
            Key::Esc | Key::CapsLock => EditorAction::EnterNavigateMode,
            Key::Char(c) => {
                self.insert_char(c);
                EditorAction::NoAction
            },
            Key::Backspace | Key::Delete => {
                self.delete_char();
                EditorAction::NoAction
            },
            Key::Up => {
                self.move_cursor_up();
                EditorAction::NoAction
            },
            Key::Left => {
                self.move_cursor_left();
                EditorAction::NoAction
            },
            Key::Right => {
                self.move_cursor_right();
                EditorAction::NoAction
            },
            Key::Down => {
                self.move_cursor_down();
                EditorAction::NoAction
            },
            Key::Enter => {
                self.insert_line();
                EditorAction::NoAction
            },
            Key::Tab => {
                self.insert_char('\t');
                EditorAction::NoAction
            },
            Key::Home => {
                self.move_cursor_start();
                EditorAction::NoAction
            },
            _ => EditorAction::NoAction,
        }
    }
}

impl Editor<SelectMode> {
    pub fn enter_navigate_mode(self) -> (r: Editor<NavigateMode>)
        ensures
            r@ == self@,
    {
        self.transition()
    }

    pub fn enter_command_mode(self) -> (r: Editor<CommandMode>)
        ensures
            r@ == self@,
    {
        self.transition()
    }

    /// To Edit mode; as from Navigate mode, the focused buffer takes a snapshot.
    pub fn enter_edit_mode(self) -> (r: Editor<EditMode>)
        requires
            self@.wf(),
        ensures
            r@ == (EditorView { buffers: self@.buffers.update(self@.focus as int, r@.buffer()), ..self@ }),
            snapshot_step(self@.buffer(), r@.buffer()),
            r@.wf(),
    {
        let mut ed = self;
        ed.buffers[ed.current_focused_index].save_snapshot();
        ed.transition()
    }

    /// Reads a key in Select mode: "h", "l", "k", "j" move; "i" and ":" ask
    /// for Edit and Command mode, Esc or CapsLock for Navigate mode.
    pub fn handle_input(&mut self, key: Key) -> (r: EditorAction)
        requires
            old(self)@.wf(),
        ensures
            select_effect(old(self)@, key, final(self)@, r),
            final(self)@.wf(),
    {
        match key {
            Key::Esc | Key::CapsLock => EditorAction::EnterNavigateMode,
            Key::Char(c) => {
                if c == 'i' {
                    return EditorAction::EnterEditMode;
                } else if c == ':' {
                    return EditorAction::EnterCommandMode;
                } else if c == 'h' {
                    self.move_cursor_left();
                } else if c == 'l' {
                    self.move_cursor_right();
                } else if c == 'k' {
                    self.move_cursor_up();
                } else if c == 'j' {
                    self.move_cursor_down();
                }
                EditorAction::NoAction
            },
            _ => EditorAction::NoAction,
        }
    }
}

impl Editor<CommandMode> {
    /// To Navigate mode; the command line is cleared on the way out.
    pub fn enter_navigate_mode(self) -> (r: Editor<NavigateMode>)
        ensures
            r@ == (EditorView { command_line: Seq::empty(), ..self@ }),
    {
        let mut ed = self;
        ed.clear_command_line();
        ed.transition()
    }

    pub fn clear_command_line(&mut self)
        ensures
            final(self)@ == (EditorView { command_line: Seq::empty(), ..old(self)@ }),
    {
        self.command_line = String::new();
    }

    /// Runs command `cmd`: "q" quits, "qa" quits all, "dla" and "dlc" ask
    /// for debug output, a command that starts with "wq" or "w" saves (and
    /// quits), to the file named after its only space if it has exactly one;
    /// anything else does nothing. The command line is cleared first.
    pub fn execute_command(&mut self, cmd: &str) -> (r: EditorAction)
        ensures
            final(self)@ == (EditorView { command_line: Seq::empty(), ..old(self)@ }),
            command_result(cmd@, r),
    {
        self.clear_command_line();
        let ghost s = cmd@;
        let n = cmd.unicode_len();
        if n == 1 && cmd.get_char(0) == 'q' {
            assert(s =~= seq!['q']);
            return EditorAction::Quit;
        }
        if n == 2 && cmd.get_char(0) == 'q' && cmd.get_char(1) == 'a' {
            assert(s =~= seq!['q', 'a']);
            return EditorAction::QuitAll;
        }
        if n == 3 && cmd.get_char(0) == 'd' && cmd.get_char(1) == 'l' {
            if cmd.get_char(2) == 'a' {
                assert(s =~= seq!['d', 'l', 'a']);
                return EditorAction::DebugPrintLinesToConsole;
            } else if cmd.get_char(2) == 'c' {
                assert(s =~= seq!['d', 'l', 'c']);
                return EditorAction::DebugPrintCurrentLineToConsole;
            }
        }
        if n == 0 || cmd.get_char(0) != 'w' {
            return EditorAction::NoAction;
        }
        let target = save_target(cmd);
        if n >= 2 && cmd.get_char(1) == 'q' {
            EditorAction::SaveAndQuit(target)
        } else {
            EditorAction::Save(target)
        }
    }

    /// Reads a key in Command mode: chars go onto the command line,
    /// Backspace takes the last one off, Enter runs it; Esc or CapsLock asks
    /// for Navigate mode.
    pub fn handle_input(&mut self, key: Key) -> (r: EditorAction)
        ensures
            command_effect(old(self)@, key, final(self)@, r),
    {
        match key {
            Key::Esc | Key::CapsLock => EditorAction::EnterNavigateMode,
            Key::Char(c) => {
                self.command_line.push(c);
                EditorAction::NoAction
            },
            Key::Backspace => {
                self.command_line.pop();
                EditorAction::NoAction
            },
            Key::Enter => {
                let cmd = self.command_line.clone();
                self.execute_command(cmd.as_str())
            },
            _ => EditorAction::NoAction,
        }
    }
}

/// The file name that a save command carries (see `save_arg`).
fn save_target(cmd: &str) -> (r: Option<String>)
    ensures
        names(r, save_arg(cmd@)),
{
    let ghost s = cmd@;
    let n = cmd.unicode_len();
    let mut i: usize = 0;
    let mut spaces: usize = 0;
    let mut first: Option<usize> = None;
    assert(s.subrange(0, n as int) =~= s);
    while i < n
        invariant
            s == cmd@,
            n == s.len(),
            i <= n,
            spaces <= i,
            space_count(s) == spaces + space_count(s.subrange(i as int, n as int)),
            first is None ==> spaces == 0 && after_first_space(s) == after_first_space(
                s.subrange(i as int, n as int),
            ),
            first is Some ==> spaces > 0 && first->0 < i && after_first_space(s) == s.subrange(
                first->0 + 1,
                n as int,
            ),
        decreases n - i,
    {
        let ghost rest = s.subrange(i as int, n as int);
        assert(rest.drop_first() =~= s.subrange(i + 1, n as int));
        if cmd.get_char(i) == ' ' {
            if first.is_none() {
                first = Some(i);
            }
            spaces = spaces + 1;
        }
        i = i + 1;
    }
    assert(s.subrange(n as int, n as int) =~= Seq::<char>::empty());
    if spaces == 1 {
        match first {
            Some(p) => Some(cmd.substring_char(p + 1, n).to_owned()),
            None => None,
        }
    } else {
        None
    }
}

} // verus!
