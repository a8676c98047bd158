//! Mathematical model of text as a sequence of chars split into lines.
//!
//! A line is the maximal run of chars up to and including a line feed; the
//! last line has none. A text with `n` line feeds therefore has `n + 1` lines.
use vstd::prelude::*;

verus! {

/// Number of line feeds in `s`.
pub open spec fn count_nl(s: Seq<char>) -> nat
    decreases s.len(),
{
    if s.len() == 0 {
        0
    } else {
        (if s[0] == '\n' { 1nat } else { 0nat }) + count_nl(s.drop_first())
    }
}

/// Number of lines of `s`.
pub open spec fn line_count(s: Seq<char>) -> nat {
    count_nl(s) + 1
}

/// Char offset at which line `i` of `s` starts; the length of `s` for every
/// `i` past the last line.
pub open spec fn line_start(s: Seq<char>, i: nat) -> nat
    decreases s.len(),
{
    if i == 0 {
        0
    } else if s.len() == 0 {
        0
    } else if s[0] == '\n' {
        1 + line_start(s.drop_first(), (i - 1) as nat)
    } else {
        1 + line_start(s.drop_first(), i)
    }
}

/// Length in chars of line `i`, its line feed included; 0 past the last line.
pub open spec fn line_len(s: Seq<char>, i: nat) -> nat {
    (line_start(s, i + 1) - line_start(s, i)) as nat
}

/// Line on which the char at offset `g` stands (the last line for `g == s.len()`).
pub open spec fn line_of(s: Seq<char>, g: nat) -> nat {
    count_nl(s.take(g as int))
}

/// Line and column of char offset `g`.
pub open spec fn pos_of(s: Seq<char>, g: nat) -> (nat, nat) {
    (line_of(s, g), (g - line_start(s, line_of(s, g))) as nat)
}

/// A cursor position that names a line of `s` and stays within its length.
pub open spec fn valid_pos(s: Seq<char>, line: nat, col: nat) -> bool {
    line < line_count(s) && col <= line_len(s, line)
}

pub proof fn lemma_line_start_bound(s: Seq<char>, i: nat)
    ensures
        line_start(s, i) <= s.len(),
        i > count_nl(s) ==> line_start(s, i) == s.len(),
        i > 0 && i <= count_nl(s) ==> line_start(s, i) >= 1 && s[line_start(s, i) - 1] == '\n',
    decreases s.len(),
{
    if i > 0 && s.len() > 0 {
        let t = s.drop_first();
        if s[0] == '\n' {
            lemma_line_start_bound(t, (i - 1) as nat);
        } else {
            lemma_line_start_bound(t, i);
        }
    }
}

pub proof fn lemma_line_start_mono(s: Seq<char>, i: nat, j: nat)
    requires
        i <= j,
    ensures
        line_start(s, i) <= line_start(s, j),
    decreases s.len(),
{
    lemma_line_start_bound(s, j);
    if i > 0 && s.len() > 0 {
        let t = s.drop_first();
        if s[0] == '\n' {
            lemma_line_start_mono(t, (i - 1) as nat, (j - 1) as nat);
        } else {
            lemma_line_start_mono(t, i, j);
        }
    }
}

/// The line of an offset starts at or before it and ends after it.
pub proof fn lemma_line_of(s: Seq<char>, g: nat)
    requires
        g <= s.len(),
    ensures
        line_of(s, g) <= count_nl(s),
        line_start(s, line_of(s, g)) <= g,
        g < line_start(s, line_of(s, g) + 1) || line_of(s, g) == count_nl(s),
        g <= line_start(s, line_of(s, g) + 1),
        valid_pos(s, pos_of(s, g).0, pos_of(s, g).1),
        line_start(s, pos_of(s, g).0) + pos_of(s, g).1 == g,
    decreases s.len(),
{
    lemma_line_start_bound(s, line_of(s, g) + 1);
    if s.len() == 0 {
        assert(s.take(g as int) =~= s);
    } else if g == 0 {
        assert(s.take(0) =~= Seq::<char>::empty());
    } else {
        let t = s.drop_first();
        assert(s.take(g as int).drop_first() =~= t.take(g - 1));
        lemma_line_of(t, (g - 1) as nat);
        lemma_line_start_bound(t, line_of(t, (g - 1) as nat) + 1);
    }
    lemma_line_start_mono(s, line_of(s, g), line_of(s, g) + 1);
}

/// Inserting at or after the start of a line leaves that start in place.
pub proof fn lemma_line_start_insert(s: Seq<char>, i: nat, k: int, c: char)
    requires
        i <= count_nl(s),
        line_start(s, i) <= k <= s.len(),
    ensures
        line_start(s.insert(k, c), i) == line_start(s, i),
    decreases s.len(),
{
    if i > 0 {
        lemma_line_start_bound(s, i);
        let t = s.drop_first();
        assert(s.insert(k, c).drop_first() =~= t.insert(k - 1, c));
        if s[0] == '\n' {
            lemma_line_start_insert(t, (i - 1) as nat, k - 1, c);
        } else {
            lemma_line_start_insert(t, i, k - 1, c);
        }
    }
}


/// Text after inserting `c` at column `col` of line `line`, where that
/// offset lies within the text; the text unchanged otherwise.
pub open spec fn insert_at(s: Seq<char>, line: nat, col: nat, c: char) -> Seq<char> {
    let k = line_start(s, line) + col;
    if k <= s.len() {
        s.insert(k as int, c)
    } else {
        s
    }
}

/// Text after removing the char at column `col` of line `line`, where there
/// is one; the text unchanged otherwise.
pub open spec fn delete_at(s: Seq<char>, line: nat, col: nat) -> Seq<char> {
    let k = line_start(s, line) + col;
    if k < s.len() {
        s.remove(k as int)
    } else {
        s
    }
}

/// Text without the chars of line `i` (its line feed included).
pub open spec fn delete_line_at(s: Seq<char>, i: nat) -> Seq<char> {
    s.subrange(0, line_start(s, i) as int) + s.subrange(line_start(s, i + 1) as int, s.len() as int)
}

/// Inserting a char and then deleting the char at the same line and column
/// gives back the text it started from, wherever the insertion lands in it.
pub proof fn lemma_insert_then_delete(s: Seq<char>, line: nat, col: nat, c: char)
    requires
        line < line_count(s),
        line_start(s, line) + col <= s.len(),
    ensures
        delete_at(insert_at(s, line, col, c), line, col) == s,
{
    let k = line_start(s, line) + col;
    lemma_line_start_insert(s, line, k as int, c);
    assert(s.insert(k as int, c).remove(k as int) =~= s);
}

} // verus!
