//! Rope text store: a thin verified layer over `ropey::Rope`.
//!
//! The crate is built without ropey's `cr_lines` and `unicode_lines`
//! features, so the only line break it recognizes is the line feed (a CRLF
//! pair ends in one): its line indexing then agrees with `crate::text`.
use vstd::prelude::*;
use crate::text::{count_nl, line_count, line_len, line_of, line_start, lemma_line_start_bound, lemma_line_start_mono};

verus! {

#[verifier::external_type_specification]
#[verifier::external_body]
pub struct ExRope(ropey::Rope);

/// The chars that a rope holds, in order.
pub uninterp spec fn rope_chars(r: ropey::Rope) -> Seq<char>;

/// Relies on `Rope::new`: an empty rope.
pub assume_specification[ ropey::Rope::new ]() -> (r: ropey::Rope)
    ensures
        rope_chars(r) == Seq::<char>::empty(),
;

/// Relies on `Rope::from_str`: a rope holding the chars of `text`.
pub assume_specification[ ropey::Rope::from_str ](text: &str) -> (r: ropey::Rope)
    ensures
        rope_chars(r) == text@,
;

/// Relies on `Rope::len_chars`: the number of chars.
pub assume_specification[ ropey::Rope::len_chars ](r: &ropey::Rope) -> (n: usize)
    ensures
        n == rope_chars(*r).len(),
;

/// Relies on `Rope::len_lines`: one more than the number of line breaks,
/// which without the `cr_lines` feature are the line feeds.
pub assume_specification[ ropey::Rope::len_lines ](r: &ropey::Rope) -> (n: usize)
    ensures
        n == count_nl(rope_chars(*r)) + 1,
;

/// Relies on `Rope::line_to_char`: the char index at which a line starts,
/// one past the end for `line_idx == len_lines()`; it panics beyond that.
pub assume_specification[ ropey::Rope::line_to_char ](r: &ropey::Rope, line_idx: usize) -> (n: usize)
    requires
        line_idx <= count_nl(rope_chars(*r)) + 1,
    ensures
        n == line_start(rope_chars(*r), line_idx as nat),
;

/// Relies on `Rope::char_to_line`: the number of line breaks before the
/// char; it panics for `char_idx > len_chars()`.
pub assume_specification[ ropey::Rope::char_to_line ](r: &ropey::Rope, char_idx: usize) -> (n: usize)
    requires
        char_idx <= rope_chars(*r).len(),
    ensures
        n == line_of(rope_chars(*r), char_idx as nat),
;

/// Relies on `Rope::char`: the char at an index; it panics out of bounds.
pub assume_specification[ ropey::Rope::char ](r: &ropey::Rope, char_idx: usize) -> (c: char)
    requires
        char_idx < rope_chars(*r).len(),
    ensures
        c == rope_chars(*r)[char_idx as int],
;

/// Relies on `Rope::insert_char`: the char goes in at `char_idx`; it panics
/// for `char_idx > len_chars()`.
pub assume_specification[ ropey::Rope::insert_char ](r: &mut ropey::Rope, char_idx: usize, ch: char)
    requires
        char_idx <= rope_chars(*old(r)).len(),
    ensures
        rope_chars(*final(r)) == rope_chars(*old(r)).insert(char_idx as int, ch),
;

/// Relies on `Rope`'s `Clone`: an independent rope with the same chars.
pub assume_specification[ <ropey::Rope as Clone>::clone ](r: &ropey::Rope) -> (c: ropey::Rope)
    ensures
        rope_chars(c) == rope_chars(*r),
;

/// Relies on `Rope::remove`: the chars of `start..end` are taken out; it
/// panics when `start > end` or `end > len_chars()`.
#[verifier::external_body]
fn rope_remove(r: &mut ropey::Rope, start: usize, end: usize)
    requires
        start <= end <= rope_chars(*old(r)).len(),
    ensures
        rope_chars(*final(r)) == rope_chars(*old(r)).subrange(0, start as int) + rope_chars(
            *old(r),
        ).subrange(end as int, rope_chars(*old(r)).len() as int),
{
    r.remove(start..end)
}

/// Relies on `Rope::line` and `From<RopeSlice> for String`: the chars of a
/// line, its line feed included; `Rope::line` panics for `line_idx >= len_lines()`.
#[verifier::external_body]
fn rope_line_string(r: &ropey::Rope, line_idx: usize) -> (s: String)
    requires
        line_idx <= count_nl(rope_chars(*r)),
    ensures
        s@ == rope_chars(*r).subrange(
            line_start(rope_chars(*r), line_idx as nat) as int,
            line_start(rope_chars(*r), line_idx as nat + 1) as int,
        ),
{
    String::from(r.line(line_idx))
}

/// Relies on `From<&Rope> for String`: the rope's chars as a string.
#[verifier::external_body]
fn rope_to_string(r: &ropey::Rope) -> (s: String)
    ensures
        s@ == rope_chars(*r),
{
    String::from(r)
}

/// A mutable sequence of chars with line and char indexing.
#[derive(Clone)]
pub struct HeliosRope {
    pub inner: ropey::Rope,
}

impl View for HeliosRope {
    type V = Seq<char>;

    open spec fn view(&self) -> Seq<char> {
        rope_chars(self.inner)
    }
}

impl HeliosRope {
    pub fn new() -> (r: Self)
        ensures
            r@ == Seq::<char>::empty(),
    {
        HeliosRope { inner: ropey::Rope::new() }
    }

    pub fn from_str(text: &str) -> (r: Self)
        ensures
            r@ == text@,
    {
        HeliosRope { inner: ropey::Rope::from_str(text) }
    }

    /// An independent copy holding the same text.
    pub fn snapshot(&self) -> (r: Self)
        ensures
            r@ == self@,
    {
        HeliosRope { inner: self.inner.clone() }
    }

    pub fn len_lines(&self) -> (n: usize)
        ensures
            n == line_count(self@),
    {
        self.inner.len_lines()
    }

    pub fn len_chars(&self) -> (n: usize)
        ensures
            n == self@.len(),
    {
        self.inner.len_chars()
    }

    /// The chars of line `line_idx`, its line feed included; empty past the last line.
    pub fn line(&self, line_idx: usize) -> (s: String)
        ensures
            s@ == self@.subrange(
                line_start(self@, line_idx as nat) as int,
                line_start(self@, line_idx as nat + 1) as int,
            ),
    {
        proof {
            lemma_line_start_bound(self@, line_idx as nat);
            lemma_line_start_bound(self@, line_idx as nat + 1);
        }
        if line_idx >= self.len_lines() {
            return String::new();
        }
        rope_line_string(&self.inner, line_idx)
    }

    /// The char at offset `char_idx`.
    pub fn char_at(&self, char_idx: usize) -> (c: char)
        requires
            char_idx < self@.len(),
        ensures
            c == self@[char_idx as int],
    {
        self.inner.char(char_idx)
    }

    /// Inserts `ch` at offset `char_idx`; does nothing past the end.
    pub fn insert_char(&mut self, char_idx: usize, ch: char)
        ensures
            final(self)@ == if char_idx <= old(self)@.len() {
                old(self)@.insert(char_idx as int, ch)
            } else {
                old(self)@
            },
    {
        if char_idx <= self.len_chars() {
            self.inner.insert_char(char_idx, ch);
        }
    }

    /// Removes the chars of `char_range`; does nothing unless it is a range
    /// within the text.
    pub fn remove(&mut self, char_range: std::ops::Range<usize>)
        ensures
            final(self)@ == if char_range.start <= char_range.end <= old(self)@.len() {
                old(self)@.subrange(0, char_range.start as int) + old(self)@.subrange(
                    char_range.end as int,
                    old(self)@.len() as int,
                )
            } else {
                old(self)@
            },
    {
        if char_range.start <= char_range.end && char_range.end <= self.len_chars() {
            rope_remove(&mut self.inner, char_range.start, char_range.end);
        }
    }

    /// Offset at which line `line_idx` starts; the text's length past the last line.
    pub fn line_to_char(&self, line_idx: usize) -> (n: usize)
        ensures
            n == line_start(self@, line_idx as nat),
    {
        proof {
            lemma_line_start_bound(self@, line_idx as nat);
        }
        if line_idx >= self.len_lines() {
            return self.len_chars();
        }
        self.inner.line_to_char(line_idx)
    }

    /// Line on which offset `char_idx` stands; offsets past the end count as the end.
    pub fn char_to_line(&self, char_idx: usize) -> (n: usize)
        ensures
            n == line_of(self@, if char_idx <= self@.len() { char_idx as nat } else { self@.len() }),
    {
        let len = self.len_chars();
        if char_idx > len {
            self.inner.char_to_line(len)
        } else {
            self.inner.char_to_line(char_idx)
        }
    }

    /// Length of line `line_idx` in chars, its line feed included; 0 past the last line.
    pub fn line_len(&self, line_idx: usize) -> (n: usize)
        ensures
            n == line_len(self@, line_idx as nat),
    {
        proof {
            lemma_line_start_bound(self@, line_idx as nat);
            lemma_line_start_bound(self@, line_idx as nat + 1);
            lemma_line_start_mono(self@, line_idx as nat, line_idx as nat + 1);
        }
        if line_idx >= self.len_lines() {
            return 0;
        }
        let start = self.inner.line_to_char(line_idx);
        let end = self.inner.line_to_char(line_idx + 1);
        end - start
    }

    /// The whole text as a string.
    pub fn to_string(&self) -> (s: String)
        ensures
            s@ == self@,
    {
        rope_to_string(&self.inner)
    }
}

} // verus!
