//! The session in whichever mode is active, and the transitions between modes.
use vstd::prelude::*;
use crate::buffer::snapshot_step;
use crate::editor::{
    command_effect, edit_effect, navigate_effect, select_effect, CommandMode, EditMode, Editor,
    EditorAction, EditorView, Key, NavigateMode, SelectMode,
};
use crate::text::{insert_at, line_len};

verus! {

/// The four modes.
#[derive(Clone, Copy, Debug, PartialEq, Eq, Structural)]
pub enum Mode {
    Navigate,
    Edit,
    Select,
    Command,
}

/// The mode that follows `m` on `key`.
pub open spec fn mode_step(m: Mode, key: Key) -> Mode {
    match key {
        Key::Esc | Key::CapsLock => Mode::Navigate,
        Key::Char(c) => match m {
            Mode::Navigate => if c == 'i' || c == 'a' || c == 'o' {
                Mode::Edit
            } else if c == ':' {
                Mode::Command
            } else if c == 'v' {
                Mode::Select
            } else {
                Mode::Navigate
            },
            Mode::Select => if c == 'i' {
                Mode::Edit
            } else if c == ':' {
                Mode::Command
            } else {
                Mode::Select
            },
            _ => m,
        },
        _ => m,
    }
}

/// From every mode, Esc leads to Navigate mode.
pub proof fn lemma_esc_reaches_navigate(m: Mode)
    ensures
        mode_step(m, Key::Esc) == Mode::Navigate,
{
}

/// Command mode is entered only from Navigate or Select mode, never from Edit mode.
pub proof fn lemma_command_entered_from_navigate_or_select(m: Mode, key: Key)
    requires
        m != Mode::Command,
        mode_step(m, key) == Mode::Command,
    ensures
        m == Mode::Navigate || m == Mode::Select,
        m != Mode::Edit,
{
}

/// `a` is session `b` after its focused buffer took a snapshot.
pub open spec fn snapshot_taken(b: EditorView, a: EditorView) -> bool {
    &&& a == EditorView { buffers: b.buffers.update(b.focus as int, a.buffer()), ..b }
    &&& snapshot_step(b.buffer(), a.buffer())
}

/// What leaving Navigate mode on intent `r` does to session `mid`: Edit mode
/// starts with a snapshot, and for "o" with a new line below the cursor.
pub open spec fn navigate_arrival(mid: EditorView, r: EditorAction, a: EditorView) -> bool {
    match r {
        EditorAction::EnterEditMode => snapshot_taken(mid, a),
        EditorAction::EnterEditModeInNewLine => exists|snap: EditorView|
            #[trigger] snapshot_taken(mid, snap) && snap.edited_to(
                a,
                insert_at(snap.text(), snap.line, line_len(snap.text(), snap.line), '\n'),
                (snap.line + 1, 0),
            ),
        _ => a == mid,
    }
}

/// Session `a` and intent `r` follow from session `b` in mode `m` on `key`:
/// the mode's handler acts, then the mode change that it asks for is made.
pub open spec fn dispatched(m: Mode, b: EditorView, key: Key, a: EditorView, r: EditorAction) -> bool {
    match m {
        Mode::Navigate => exists|mid: EditorView|
            #[trigger] navigate_effect(b, key, mid, r) && navigate_arrival(mid, r, a),
        Mode::Edit => edit_effect(b, key, a, r),
        Mode::Select => if r is EnterEditMode {
            select_effect(b, key, b, r) && snapshot_taken(b, a)
        } else {
            select_effect(b, key, a, r)
        },
        Mode::Command => if r is EnterNavigateMode {
            command_effect(b, key, b, r) && a == (EditorView { command_line: Seq::empty(), ..b })
        } else {
            command_effect(b, key, a, r)
        },
    }
}

/// An editor session in its current mode.
pub enum EditorState {
    Navigate(Editor<NavigateMode>),
    Edit(Editor<EditMode>),
    Select(Editor<SelectMode>),
    Command(Editor<CommandMode>),
}

/// Short name of a mode, as a status bar shows it.
pub open spec fn mode_label(m: Mode) -> Seq<char> {
    match m {
        Mode::Navigate => "Nav"@,
        Mode::Edit => "Edi"@,
        Mode::Select => "Sel"@,
        Mode::Command => "Com"@,
    }
}

impl EditorState {
    pub open spec fn mode(&self) -> Mode {
        match self {
            EditorState::Navigate(_) => Mode::Navigate,
            EditorState::Edit(_) => Mode::Edit,
            EditorState::Select(_) => Mode::Select,
            EditorState::Command(_) => Mode::Command,
        }
    }

    pub open spec fn session(&self) -> EditorView {
        match self {
            EditorState::Navigate(e) => e@,
            EditorState::Edit(e) => e@,
            EditorState::Select(e) => e@,
            EditorState::Command(e) => e@,
        }
    }

    pub fn label(&self) -> (r: &'static str)
        ensures
            r@ == mode_label(self.mode()),
    {
        match self {
            EditorState::Navigate(_) => "Nav",
            EditorState::Edit(_) => "Edi",
            EditorState::Select(_) => "Sel",
            EditorState::Command(_) => "Com",
        }
    }

    /// Hands `key` to the active mode and makes the mode change that it asks
    /// for. Entering Edit mode takes a snapshot of the focused buffer, and
    /// "o" opens a line below the cursor first. The intent is returned for
    /// the host, which performs saving and quitting.
    pub fn handle_key(self, key: Key) -> (r: (EditorState, EditorAction))
        requires
            self.session().wf(),
        ensures
            r.0.mode() == mode_step(self.mode(), key),
            dispatched(self.mode(), self.session(), key, r.0.session(), r.1),
            r.0.session().wf(),
    {
        let ghost b = self.session();
        match self {
            EditorState::Navigate(mut ed) => {
                let action = ed.handle_input(key);
                let ghost mid = ed@;
                assert(navigate_effect(b, key, mid, action));
                match action {
                    EditorAction::EnterEditMode => (EditorState::Edit(ed.enter_edit_mode()), action),
                    EditorAction::EnterEditModeInNewLine => {
                        let mut edit = ed.enter_edit_mode();
                        let ghost snap = edit@;
                        assert(snapshot_taken(mid, snap));
                        edit.open_line_below();
                        (EditorState::Edit(edit), action)
                    },
                    EditorAction::EnterCommandMode => (
                        EditorState::Command(ed.enter_command_mode()),
                        action,
                    ),
                    EditorAction::EnterSelectMode => (
                        EditorState::Select(ed.enter_select_mode()),
                        action,
                    ),
                    _ => (EditorState::Navigate(ed), action),
                }
            },
            EditorState::Edit(mut ed) => {
                let action = ed.handle_input(key);
                match action {
                    EditorAction::EnterNavigateMode => (
                        EditorState::Navigate(ed.enter_navigate_mode()),
                        action,
                    ),
                    _ => (EditorState::Edit(ed), action),
                }
            },
            EditorState::Select(mut ed) => {
                let action = ed.handle_input(key);
                match action {
                    EditorAction::EnterNavigateMode => (
                        EditorState::Navigate(ed.enter_navigate_mode()),
                        action,
                    ),
                    EditorAction::EnterCommandMode => (
                        EditorState::Command(ed.enter_command_mode()),
                        action,
                    ),
                    EditorAction::EnterEditMode => (EditorState::Edit(ed.enter_edit_mode()), action),
                    _ => (EditorState::Select(ed), action),
                }
            },
            EditorState::Command(mut ed) => {
                let action = ed.handle_input(key);
                match action {
                    EditorAction::EnterNavigateMode => (
                        EditorState::Navigate(ed.enter_navigate_mode()),
                        action,
                    ),
                    _ => (EditorState::Command(ed), action),
                }
            },
        }
    }
}

} // verus!
