//! Cursor motions: pure functions from a text and a cursor position to a new
//! position. Word motions are stated over char offsets into the whole text
//! and turned back into a line and column at the end.
use vstd::prelude::*;
use crate::rope::HeliosRope;
use crate::text::{line_count, line_len, line_start, pos_of, valid_pos, lemma_line_of, lemma_line_start_bound, lemma_line_start_mono};

verus! {

/// Unicode's White_Space property, as `char::is_whitespace` tests it.
pub open spec fn is_ws(c: char) -> bool {
    let u = c as u32;
    (9 <= u <= 13) || u == 32 || u == 0x85 || u == 0xa0 || u == 0x1680 || (0x2000 <= u <= 0x200a)
        || u == 0x2028 || u == 0x2029 || u == 0x202f || u == 0x205f || u == 0x3000
}

pub fn is_whitespace(c: char) -> (r: bool)
    ensures
        r == is_ws(c),
{
    let u = c as u32;
    (9 <= u && u <= 13) || u == 32 || u == 0x85 || u == 0xa0 || u == 0x1680 || (0x2000 <= u && u
        <= 0x200a) || u == 0x2028 || u == 0x2029 || u == 0x202f || u == 0x205f || u == 0x3000
}

/// Offset `g` starts a word: a non-whitespace char right after whitespace.
pub open spec fn is_word_start(s: Seq<char>, g: int) -> bool {
    0 < g < s.len() && is_ws(s[g - 1]) && !is_ws(s[g])
}

/// The first word start at or after offset `g`; the end of the text if none.
pub open spec fn next_word_start(s: Seq<char>, g: nat) -> nat
    decreases s.len() - g,
{
    if g >= s.len() {
        s.len()
    } else if is_word_start(s, g as int) {
        g
    } else {
        next_word_start(s, g + 1)
    }
}

/// The last offset before `g` that starts a word or the text; 0 for `g == 0`.
pub open spec fn prev_word_start(s: Seq<char>, g: nat) -> nat
    decreases g,
{
    if g == 0 {
        0
    } else if g == 1 || is_word_start(s, g - 1) {
        (g - 1) as nat
    } else {
        prev_word_start(s, (g - 1) as nat)
    }
}

/// Where a scan for the end of a word that begins at offset `j` stops: the
/// last char of the first word at or after `j`. A run of whitespace up to
/// the end stops on the last char, or at the very end after a final line feed.
pub open spec fn word_end_from(s: Seq<char>, j: nat) -> nat
    decreases s.len() - j,
{
    if j >= s.len() {
        j
    } else if !is_ws(s[j as int]) {
        if j + 1 >= s.len() || is_ws(s[j + 1 as int]) {
            j
        } else {
            word_end_from(s, j + 1)
        }
    } else if j + 1 < s.len() || s[j as int] == '\n' {
        word_end_from(s, j + 1)
    } else {
        j
    }
}

/// Target of "w": the start of the next word after the cursor's char, in
/// the text as a whole; a cursor past a line's end searches from the next line.
pub open spec fn word_forward_target(s: Seq<char>, line: nat, col: nat) -> (nat, nat) {
    let from = if col < line_len(s, line) {
        line_start(s, line) + col + 1
    } else {
        line_start(s, line + 1)
    };
    pos_of(s, next_word_start(s, from))
}

/// Target of "b": the start of the word before the cursor.
pub open spec fn word_backward_target(s: Seq<char>, line: nat, col: nat) -> (nat, nat) {
    pos_of(s, prev_word_start(s, line_start(s, line) + col))
}

/// Target of "e": one step ahead, then on to the end of the word found there;
/// no move at the end of the last line.
pub open spec fn word_end_target(s: Seq<char>, line: nat, col: nat) -> (nat, nat) {
    if col + 1 < line_len(s, line) {
        pos_of(s, word_end_from(s, line_start(s, line) + col + 1))
    } else if line + 1 < line_count(s) {
        pos_of(s, word_end_from(s, line_start(s, line + 1)))
    } else {
        (line, col)
    }
}

fn starts_word(text: &HeliosRope, g: usize) -> (r: bool)
    requires
        g < text@.len(),
    ensures
        r == is_word_start(text@, g as int),
{
    g > 0 && is_whitespace(text.char_at(g - 1)) && !is_whitespace(text.char_at(g))
}

/// Line and column of offset `g`.
fn position_of(text: &HeliosRope, g: usize) -> (r: (usize, usize))
    requires
        g <= text@.len(),
    ensures
        (r.0 as nat, r.1 as nat) == pos_of(text@, g as nat),
        valid_pos(text@, r.0 as nat, r.1 as nat),
{
    proof {
        lemma_line_of(text@, g as nat);
    }
    let line = text.char_to_line(g);
    let start = text.line_to_char(line);
    (line, g - start)
}

/// Offset one past the cursor's char, or the start of the next line for a
/// cursor at or past its line's end.
fn offset_after(text: &HeliosRope, line: usize, col: usize) -> (g: usize)
    requires
        valid_pos(text@, line as nat, col as nat),
    ensures
        g as int == if col < line_len(text@, line as nat) {
            line_start(text@, line as nat) + col + 1
        } else {
            line_start(text@, line as nat + 1) as int
        },
        g <= text@.len(),
{
    let ghost s = text@;
    proof {
        lemma_line_start_bound(s, line as nat + 1);
        lemma_line_start_mono(s, line as nat, line as nat + 1);
    }
    // the length fits in usize, so every offset into the text does too
    let _total = text.len_chars();
    // the line count fits in usize, so the next line index does too
    let _count = text.len_lines();
    let len = text.line_len(line);
    if col < len {
        text.line_to_char(line) + col + 1
    } else {
        text.line_to_char(line + 1)
    }
}

/// "w": moves to the start of the next word.
pub fn word_forward(text: &HeliosRope, line: usize, col: usize) -> (r: (usize, usize))
    requires
        valid_pos(text@, line as nat, col as nat),
    ensures
        (r.0 as nat, r.1 as nat) == word_forward_target(text@, line as nat, col as nat),
        valid_pos(text@, r.0 as nat, r.1 as nat),
{
    let ghost s = text@;
    let len = text.len_chars();
    let mut g = offset_after(text, line, col);
    let ghost target = next_word_start(s, g as nat);
    while g < len && !starts_word(text, g)
        invariant
            len == s.len(),
            text@ == s,
            g <= len,
            next_word_start(s, g as nat) == target,
        decreases len - g,
    {
        g = g + 1;
    }
    position_of(text, g)
}

/// "b": moves to the start of the previous word.
pub fn word_backward(text: &HeliosRope, line: usize, col: usize) -> (r: (usize, usize))
    requires
        valid_pos(text@, line as nat, col as nat),
    ensures
        (r.0 as nat, r.1 as nat) == word_backward_target(text@, line as nat, col as nat),
        valid_pos(text@, r.0 as nat, r.1 as nat),
{
    let ghost s = text@;
    proof {
        lemma_line_start_bound(s, line as nat + 1);
        lemma_line_start_mono(s, line as nat, line as nat + 1);
    }
    // the length fits in usize, so every offset into the text does too
    let _total = text.len_chars();
    let mut g = text.line_to_char(line) + col;
    let ghost target = prev_word_start(s, g as nat);
    if g > 0 {
        g = g - 1;
        while g > 0 && !starts_word(text, g)
            invariant
                text@ == s,
                g < s.len(),
                prev_word_start(s, g as nat + 1) == target,
            decreases g,
        {
            g = g - 1;
        }
    }
    position_of(text, g)
}

/// "e": moves to the end of the current or next word.
pub fn word_end_forward(text: &HeliosRope, line: usize, col: usize) -> (r: (usize, usize))
    requires
        valid_pos(text@, line as nat, col as nat),
    ensures
        (r.0 as nat, r.1 as nat) == word_end_target(text@, line as nat, col as nat),
        valid_pos(text@, r.0 as nat, r.1 as nat),
{
    let ghost s = text@;
    proof {
        lemma_line_start_bound(s, line as nat + 1);
        lemma_line_start_mono(s, line as nat, line as nat + 1);
    }
    let len = text.len_chars();
    let count = text.len_lines();
    let line_len = text.line_len(line);
    let mut j = if col < line_len && col + 1 < line_len {
        text.line_to_char(line) + col + 1
    } else if line + 1 < count {
        text.line_to_char(line + 1)
    } else {
        return (line, col);
    };
    let ghost target = word_end_from(s, j as nat);
    loop
        invariant
            len == s.len(),
            text@ == s,
            j <= len,
            word_end_from(s, j as nat) == target,
        ensures
            j <= len,
            target == j,
        decreases len - j,
    {
        if j >= len {
            break;
        }
        let c = text.char_at(j);
        if !is_whitespace(c) {
            if j + 1 >= len || is_whitespace(text.char_at(j + 1)) {
                break;
            }
        } else if j + 1 >= len && c != '\n' {
            break;
        }
        j = j + 1;
    }
    position_of(text, j)
}

/// Column of "$": the last char of the line before its line break (a final
/// line feed or carriage return); 0 for an empty line.
pub open spec fn line_end_col(s: Seq<char>, line: nat) -> nat {
    let len = line_len(s, line);
    if len == 0 {
        0
    } else if s[line_start(s, line) + len - 1] == '\n' || s[line_start(s, line) + len - 1] == '\r' {
        if len > 1 {
            (len - 2) as nat
        } else {
            0
        }
    } else {
        (len - 1) as nat
    }
}

/// Number of whitespace chars that offsets `from..to` begin with.
pub open spec fn ws_run(s: Seq<char>, from: nat, to: nat) -> nat
    decreases to - from,
{
    if from >= to {
        0
    } else if is_ws(s[from as int]) {
        1 + ws_run(s, from + 1, to)
    } else {
        0
    }
}

/// Column of "^": the first non-whitespace char of the line, at most the
/// line's last char; 0 for an empty line or a bare line feed.
pub open spec fn first_non_ws_col(s: Seq<char>, line: nat) -> nat {
    let len = line_len(s, line);
    let start = line_start(s, line);
    let idx = ws_run(s, start, start + len);
    if len == 0 || (len == 1 && idx == 1) {
        0
    } else if idx >= len {
        (len - 1) as nat
    } else {
        idx
    }
}

/// End of the run that starts at offset `j`: chars of the same kind
/// (whitespace or not, as `ws` says) up to a line feed or the end of the text.
pub open spec fn run_end(s: Seq<char>, j: nat, ws: bool) -> nat
    decreases s.len() - j,
{
    if j >= s.len() || s[j as int] == '\n' || is_ws(s[j as int]) != ws {
        j
    } else {
        run_end(s, j + 1, ws)
    }
}

/// Nearest valid position: the line capped at the last one, then the column
/// capped at that line's length.
pub open spec fn clamp_pos(s: Seq<char>, line: nat, col: nat) -> (nat, nat) {
    let l = if line < line_count(s) {
        line
    } else {
        (line_count(s) - 1) as nat
    };
    (l, if col <= line_len(s, l) {
        col
    } else {
        line_len(s, l)
    })
}

/// Target of "h".
pub open spec fn left_target(line: nat, col: nat) -> (nat, nat) {
    if col > 0 {
        (line, (col - 1) as nat)
    } else {
        (line, col)
    }
}

/// Target of "l": one column on, up to the line's length.
pub open spec fn right_target(s: Seq<char>, line: nat, col: nat) -> (nat, nat) {
    if col < line_len(s, line) {
        (line, col + 1)
    } else {
        (line, col)
    }
}

/// Target of "k": the line above, the column capped at its length.
pub open spec fn up_target(s: Seq<char>, line: nat, col: nat) -> (nat, nat) {
    if line > 0 {
        clamp_pos(s, (line - 1) as nat, col)
    } else {
        (line, col)
    }
}

/// Target of "j": the line below, the column capped at its length.
pub open spec fn down_target(s: Seq<char>, line: nat, col: nat) -> (nat, nat) {
    if line + 1 < line_count(s) {
        clamp_pos(s, line + 1, col)
    } else {
        (line, col)
    }
}

/// "$": the column of the last char before the line break.
pub fn line_end(text: &HeliosRope, line: usize) -> (col: usize)
    ensures
        col == line_end_col(text@, line as nat),
{
    let ghost s = text@;
    proof {
        lemma_line_start_bound(s, line as nat + 1);
        lemma_line_start_mono(s, line as nat, line as nat + 1);
    }
    // the length fits in usize, so every offset into the text does too
    let _total = text.len_chars();
    let len = text.line_len(line);
    if len == 0 {
        return 0;
    }
    let last = text.char_at(text.line_to_char(line) + len - 1);
    if last == '\n' || last == '\r' {
        if len > 1 {
            len - 2
        } else {
            0
        }
    } else {
        len - 1
    }
}

/// "^": the column of the first non-whitespace char of the line.
pub fn first_non_whitespace(text: &HeliosRope, line: usize) -> (col: usize)
    ensures
        col == first_non_ws_col(text@, line as nat),
{
    let ghost s = text@;
    proof {
        lemma_line_start_bound(s, line as nat + 1);
        lemma_line_start_mono(s, line as nat, line as nat + 1);
    }
    // the length fits in usize, so every offset into the text does too
    let _total = text.len_chars();
    let len = text.line_len(line);
    let start = text.line_to_char(line);
    let end = start + len;
    let mut i = start;
    while i < end && is_whitespace(text.char_at(i))
        invariant
            text@ == s,
            start <= i <= end <= s.len(),
            ws_run(s, start as nat, end as nat) == (i - start) + ws_run(s, i as nat, end as nat),
        decreases end - i,
    {
        i = i + 1;
    }
    let idx = i - start;
    if len == 0 || (len == 1 && idx == 1) {
        0
    } else if idx >= len {
        len - 1
    } else {
        idx
    }
}

/// End of the run of same-kind chars that starts at offset `g` (see `run_end`).
pub fn same_kind_run_end(text: &HeliosRope, g: usize) -> (e: usize)
    requires
        g < text@.len(),
    ensures
        e == run_end(text@, g as nat, is_ws(text@[g as int])),
        g <= e <= text@.len(),
{
    let ghost s = text@;
    let len = text.len_chars();
    let ws = is_whitespace(text.char_at(g));
    let mut j = g;
    while j < len && text.char_at(j) != '\n' && is_whitespace(text.char_at(j)) == ws
        invariant
            text@ == s,
            len == s.len(),
            g <= j <= len,
            run_end(s, j as nat, ws) == run_end(s, g as nat, ws),
        decreases len - j,
    {
        j = j + 1;
    }
    j
}

proof fn lemma_next_word_start_bound(s: Seq<char>, g: nat)
    ensures
        next_word_start(s, g) <= s.len(),
    decreases s.len() - g,
{
    if g < s.len() && !is_word_start(s, g as int) {
        lemma_next_word_start_bound(s, g + 1);
    }
}

proof fn lemma_prev_word_start_bound(s: Seq<char>, g: nat)
    ensures
        prev_word_start(s, g) <= g,
    decreases g,
{
    if g > 1 && !is_word_start(s, g - 1) {
        lemma_prev_word_start_bound(s, (g - 1) as nat);
    }
}

proof fn lemma_word_end_from_bound(s: Seq<char>, j: nat)
    requires
        j <= s.len(),
    ensures
        word_end_from(s, j) <= s.len(),
    decreases s.len() - j,
{
    if j < s.len() {
        if !is_ws(s[j as int]) {
            if j + 1 < s.len() && !is_ws(s[j + 1 as int]) {
                lemma_word_end_from_bound(s, j + 1);
            }
        } else if j + 1 < s.len() || s[j as int] == '\n' {
            lemma_word_end_from_bound(s, j + 1);
        }
    }
}

/// Every motion leads from a valid cursor position to a valid one: its line
/// exists and its column is at most that line's length.
pub proof fn lemma_motions_stay_valid(s: Seq<char>, line: nat, col: nat)
    requires
        valid_pos(s, line, col),
    ensures
        valid_pos(s, word_forward_target(s, line, col).0, word_forward_target(s, line, col).1),
        valid_pos(s, word_backward_target(s, line, col).0, word_backward_target(s, line, col).1),
        valid_pos(s, word_end_target(s, line, col).0, word_end_target(s, line, col).1),
        valid_pos(s, left_target(line, col).0, left_target(line, col).1),
        valid_pos(s, right_target(s, line, col).0, right_target(s, line, col).1),
        valid_pos(s, up_target(s, line, col).0, up_target(s, line, col).1),
        valid_pos(s, down_target(s, line, col).0, down_target(s, line, col).1),
        valid_pos(s, line, line_end_col(s, line)),
        valid_pos(s, line, first_non_ws_col(s, line)),
        valid_pos(s, 0, 0),
        valid_pos(s, (line_count(s) - 1) as nat, 0),
{
    lemma_line_start_bound(s, line + 1);
    lemma_line_start_mono(s, line, line + 1);
    let from = if col < line_len(s, line) {
        line_start(s, line) + col + 1
    } else {
        line_start(s, line + 1)
    };
    lemma_next_word_start_bound(s, from);
    lemma_line_of(s, next_word_start(s, from));
    lemma_prev_word_start_bound(s, line_start(s, line) + col);
    lemma_line_of(s, prev_word_start(s, line_start(s, line) + col));
    if col + 1 < line_len(s, line) {
        lemma_word_end_from_bound(s, line_start(s, line) + col + 1);
        lemma_line_of(s, word_end_from(s, line_start(s, line) + col + 1));
    } else if line + 1 < line_count(s) {
        lemma_line_start_bound(s, line + 1);
        lemma_word_end_from_bound(s, line_start(s, line + 1));
        lemma_line_of(s, word_end_from(s, line_start(s, line + 1)));
    }
}

/// Edits leave the cursor at `clamp_pos` of the new text, which is a valid
/// position whatever the text and the position asked for.
pub proof fn lemma_clamp_is_valid(s: Seq<char>, line: nat, col: nat)
    ensures
        valid_pos(s, clamp_pos(s, line, col).0, clamp_pos(s, line, col).1),
        valid_pos(s, line, col) ==> clamp_pos(s, line, col) == (line, col),
{
}

} // verus!
