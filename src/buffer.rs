//! Document buffer: one text store, its file metadata and a snapshot history.
use vstd::prelude::*;
use crate::rope::HeliosRope;
use crate::text::{delete_at, delete_line_at, insert_at, line_count, line_len, line_start, lemma_line_start_bound, lemma_line_start_mono};

verus! {

/// The texts that a stack of snapshots holds, bottom first.
pub open spec fn texts(v: Seq<HeliosRope>) -> Seq<Seq<char>> {
    v.map_values(|r: HeliosRope| r@)
}

/// A single open document.
#[derive(Clone)]
pub struct HBuffer {
    pub text: HeliosRope,
    pub file_format: String,
    pub file_path: Option<String>,
    pub undo_stack: Vec<HeliosRope>,
    pub redo_stack: Vec<HeliosRope>,
}

impl HBuffer {
    pub open spec fn undo_texts(&self) -> Seq<Seq<char>> {
        texts(self.undo_stack@)
    }

    pub open spec fn redo_texts(&self) -> Seq<Seq<char>> {
        texts(self.redo_stack@)
    }

    /// Everything but the text is as in `before`.
    pub open spec fn keeps_all_but_text(&self, before: HBuffer) -> bool {
        &&& self.file_format == before.file_format
        &&& self.file_path == before.file_path
        &&& self.undo_texts() == before.undo_texts()
        &&& self.redo_texts() == before.redo_texts()
    }

    pub fn new() -> (b: Self)
        ensures
            b.text@ == Seq::<char>::empty(),
            b.file_format@ == ".txt"@,
            b.file_path is None,
            b.undo_texts().len() == 0,
            b.redo_texts().len() == 0,
    {
        HBuffer {
            text: HeliosRope::new(),
            file_format: ".txt".to_owned(),
            file_path: None,
            undo_stack: Vec::new(),
            redo_stack: Vec::new(),
        }
    }

    pub fn line_length(&self, line_idx: usize) -> (n: usize)
        ensures
            n == line_len(self.text@, line_idx as nat),
    {
        self.text.line_len(line_idx)
    }

    pub fn line_count(&self) -> (n: usize)
        ensures
            n == line_count(self.text@),
    {
        self.text.len_lines()
    }

    pub fn char_count(&self) -> (n: usize)
        ensures
            n == self.text@.len(),
    {
        self.text.len_chars()
    }

    /// Inserts `c` at column `col_idx` of line `line_idx`; nothing happens
    /// where that offset lies past the end of the text.
    pub fn insert_char(&mut self, line_idx: usize, col_idx: usize, c: char)
        ensures
            final(self).text@ == insert_at(old(self).text@, line_idx as nat, col_idx as nat, c),
            final(self).keeps_all_but_text(*old(self)),
    {
        let len = self.text.len_chars();
        let start = self.text.line_to_char(line_idx);
        if start <= len && col_idx <= len - start {
            self.text.insert_char(start + col_idx, c);
        }
    }

    /// Splits line `line_idx` at column `col_idx` by inserting a line feed.
    pub fn insert_line(&mut self, line_idx: usize, col_idx: usize)
        ensures
            final(self).text@ == insert_at(old(self).text@, line_idx as nat, col_idx as nat, '\n'),
            final(self).keeps_all_but_text(*old(self)),
    {
        self.insert_char(line_idx, col_idx, '\n');
    }

    /// Removes line `line_index` with its line feed; nothing past the last line.
    pub fn delete_line(&mut self, line_index: usize)
        ensures
            final(self).text@ == delete_line_at(old(self).text@, line_index as nat),
            final(self).keeps_all_but_text(*old(self)),
    {
        let ghost s = self.text@;
        proof {
            lemma_line_start_bound(s, line_index as nat);
            lemma_line_start_bound(s, line_index as nat + 1);
            lemma_line_start_mono(s, line_index as nat, line_index as nat + 1);
        }
        if line_index >= self.text.len_lines() {
            assert(delete_line_at(s, line_index as nat) =~= s);
            return;
        }
        let start_char = self.text.line_to_char(line_index);
        let end_char = self.text.line_to_char(line_index + 1);
        self.text.remove(start_char..end_char);
    }

    /// Removes the char at column `col_idx` of line `line_idx`, if there is one.
    pub fn delete_char(&mut self, line_idx: usize, col_idx: usize)
        ensures
            final(self).text@ == delete_at(old(self).text@, line_idx as nat, col_idx as nat),
            final(self).keeps_all_but_text(*old(self)),
    {
        let ghost s = self.text@;
        let len = self.text.len_chars();
        let start = self.text.line_to_char(line_idx);
        if start < len && col_idx < len - start {
            let k = start + col_idx;
            self.text.remove(k..k + 1);
            assert(self.text@ =~= s.remove(k as int));
        }
    }

    /// Pushes a copy of the text onto the undo stack and forgets every redo.
    pub fn save_snapshot(&mut self)
        ensures
            snapshot_step(*old(self), *final(self)),
    {
        let copy = self.text.snapshot();
        self.undo_stack.push(copy);
        self.redo_stack.clear();
        assert(self.undo_texts() =~= old(self).undo_texts().push(old(self).text@));
        assert(self.redo_texts() =~= Seq::<Seq<char>>::empty());
    }

    /// Brings back the latest snapshot, keeping the current text for redo.
    pub fn undo(&mut self)
        ensures
            undo_step(*old(self), *final(self)),
    {
        if let Some(prev_text) = self.undo_stack.pop() {
            let current = self.text.snapshot();
            self.redo_stack.push(current);
            self.text = prev_text;
            assert(self.undo_texts() =~= old(self).undo_texts().drop_last());
            assert(self.redo_texts() =~= old(self).redo_texts().push(old(self).text@));
        }
    }

    /// Brings back the text that the latest undo replaced.
    pub fn redo(&mut self)
        ensures
            redo_step(*old(self), *final(self)),
    {
        if let Some(next_text) = self.redo_stack.pop() {
            let current = self.text.snapshot();
            self.undo_stack.push(current);
            self.text = next_text;
            assert(self.redo_texts() =~= old(self).redo_texts().drop_last());
            assert(self.undo_texts() =~= old(self).undo_texts().push(old(self).text@));
        }
    }
}

/// `a` has `b`'s text pushed onto the undo stack and nothing to redo.
pub open spec fn history_pushed(b: HBuffer, a: HBuffer) -> bool {
    &&& a.undo_texts() == b.undo_texts().push(b.text@)
    &&& a.redo_texts().len() == 0
    &&& a.file_format == b.file_format
    &&& a.file_path == b.file_path
}

/// `a` is `b` after `save_snapshot`.
pub open spec fn snapshot_step(b: HBuffer, a: HBuffer) -> bool {
    &&& a.text@ == b.text@
    &&& history_pushed(b, a)
}

/// `a` is `b` after `undo`.
pub open spec fn undo_step(b: HBuffer, a: HBuffer) -> bool {
    &&& a.file_format == b.file_format
    &&& a.file_path == b.file_path
    &&& if b.undo_texts().len() > 0 {
        &&& a.text@ == b.undo_texts().last()
        &&& a.undo_texts() == b.undo_texts().drop_last()
        &&& a.redo_texts() == b.redo_texts().push(b.text@)
    } else {
        &&& a.text@ == b.text@
        &&& a.undo_texts() == b.undo_texts()
        &&& a.redo_texts() == b.redo_texts()
    }
}

/// `a` is `b` after `redo`.
pub open spec fn redo_step(b: HBuffer, a: HBuffer) -> bool {
    &&& a.file_format == b.file_format
    &&& a.file_path == b.file_path
    &&& if b.redo_texts().len() > 0 {
        &&& a.text@ == b.redo_texts().last()
        &&& a.redo_texts() == b.redo_texts().drop_last()
        &&& a.undo_texts() == b.undo_texts().push(b.text@)
    } else {
        &&& a.text@ == b.text@
        &&& a.undo_texts() == b.undo_texts()
        &&& a.redo_texts() == b.redo_texts()
    }
}

/// A run of edits, each keeping everything but the text, keeps the history.
proof fn lemma_edits_keep_history(edits: Seq<HBuffer>, i: int)
    requires
        0 <= i < edits.len(),
        forall|j: int| 0 <= j < edits.len() - 1 ==> #[trigger] edits[j + 1].keeps_all_but_text(edits[j]),
    ensures
        edits[i].undo_texts() == edits[0].undo_texts(),
        edits[i].redo_texts() == edits[0].redo_texts(),
    decreases i,
{
    if i > 0 {
        lemma_edits_keep_history(edits, i - 1);
        assert(edits[(i - 1) + 1].keeps_all_but_text(edits[i - 1]));
    }
}

/// Undo right after a snapshot and any run of edits brings back the text of
/// the snapshot, redo then brings back the edited text, and a snapshot leaves
/// nothing to redo.
pub proof fn lemma_undo_redo_after_edits(
    before: HBuffer,
    edits: Seq<HBuffer>,
    undone: HBuffer,
    redone: HBuffer,
)
    requires
        edits.len() > 0,
        snapshot_step(before, edits[0]),
        forall|j: int| 0 <= j < edits.len() - 1 ==> #[trigger] edits[j + 1].keeps_all_but_text(edits[j]),
        undo_step(edits.last(), undone),
        redo_step(undone, redone),
    ensures
        edits[0].redo_texts().len() == 0,
        undone.text@ == before.text@,
        redone.text@ == edits.last().text@,
{
    lemma_edits_keep_history(edits, edits.len() - 1);
}

} // verus!
