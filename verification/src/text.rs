//! The mathematical model of line-structured text: a document is a sequence
//! of characters, partitioned into lines by `'\n'`. `line_count` and
//! `line_start` say how line indices address that sequence, and the lemmas
//! here say how both move under single-character insertion.

use vstd::prelude::*;

verus! {

/// Number of lines in `s`: one more than the number of `'\n'` characters.
/// The empty text has one (empty) line; a text ending in `'\n'` ends with an
/// empty final line.
pub open spec fn line_count(s: Seq<char>) -> int
    decreases s.len(),
{
    if s.len() == 0 {
        1
    } else if s[0] == '\n' {
        1 + line_count(s.skip(1))
    } else {
        line_count(s.skip(1))
    }
}

/// Character index of the start of line `l`: the position right after the
/// `l`-th `'\n'`. For `l == line_count(s)` this saturates to `s.len()`,
/// one past the end.
pub open spec fn line_start(s: Seq<char>, l: int) -> int
    decreases s.len(),
{
    if l <= 0 {
        0
    } else if s.len() == 0 {
        0
    } else if s[0] == '\n' {
        1 + line_start(s.skip(1), l - 1)
    } else {
        1 + line_start(s.skip(1), l)
    }
}

/// Character index one past the last character of line `l`, not counting the
/// `'\n'` that terminates it (the last line is terminated by the end of text).
pub open spec fn line_end(s: Seq<char>, l: int) -> int {
    if l + 1 < line_count(s) {
        line_start(s, l + 1) - 1
    } else {
        s.len() as int
    }
}

/// Characters other than `'\n'` that the rope's line index also treats as
/// line breaks. The document keeps them out, so that `'\n'` alone separates
/// lines and the spec functions above agree with the rope.
pub open spec fn is_exotic_break(c: char) -> bool {
    c == '\u{000B}' || c == '\u{000C}' || c == '\u{000D}' || c == '\u{0085}' || c == '\u{2028}'
        || c == '\u{2029}'
}

/// Text whose only line-break character is `'\n'`.
pub open spec fn clean_text(s: Seq<char>) -> bool {
    forall|k: int| 0 <= k < s.len() ==> !is_exotic_break(#[trigger] s[k])
}

/// There is always at least one line.
pub proof fn lemma_line_count_pos(s: Seq<char>)
    ensures
        line_count(s) >= 1,
    decreases s.len(),
{
    if s.len() > 0 {
        lemma_line_count_pos(s.skip(1));
    }
}

/// A text of `n` characters has at most `n + 1` lines.
pub proof fn lemma_line_count_le(s: Seq<char>)
    ensures
        line_count(s) <= s.len() + 1,
    decreases s.len(),
{
    if s.len() > 0 {
        lemma_line_count_le(s.skip(1));
    }
}

/// A line start is a position within the text (or one past its end).
pub proof fn lemma_line_start_bounds(s: Seq<char>, l: int)
    requires
        0 <= l,
    ensures
        0 <= line_start(s, l) <= s.len(),
    decreases s.len(),
{
    if l > 0 && s.len() > 0 {
        if s[0] == '\n' {
            lemma_line_start_bounds(s.skip(1), l - 1);
        } else {
            lemma_line_start_bounds(s.skip(1), l);
        }
    }
}

/// Between two existing consecutive lines stands at least the terminating
/// `'\n'` of the first: their starts are strictly ordered.
pub proof fn lemma_line_start_strict(s: Seq<char>, l: int)
    requires
        0 <= l,
        l + 1 < line_count(s),
    ensures
        line_start(s, l) + 1 <= line_start(s, l + 1),
    decreases s.len(),
{
    if s.len() > 0 {
        if l == 0 {
            if s[0] == '\n' {
                lemma_line_start_bounds(s.skip(1), 0);
            } else {
                lemma_line_start_bounds(s.skip(1), 1);
            }
        } else {
            if s[0] == '\n' {
                lemma_line_start_strict(s.skip(1), l - 1);
            } else {
                lemma_line_start_strict(s.skip(1), l);
            }
        }
    }
}

/// An existing line spans a well-formed (possibly empty) range.
pub proof fn lemma_line_within(s: Seq<char>, l: int)
    requires
        0 <= l < line_count(s),
    ensures
        line_start(s, l) <= line_end(s, l),
{
    if l + 1 < line_count(s) {
        lemma_line_start_strict(s, l);
    } else {
        lemma_line_start_bounds(s, l);
    }
}

/// Inserting at position `i >= 1` commutes with dropping the first character.
proof fn lemma_insert_skip1(s: Seq<char>, i: int, c: char)
    requires
        1 <= i <= s.len(),
    ensures
        s.insert(i, c).skip(1) =~= s.skip(1).insert(i - 1, c),
        s.insert(i, c)[0] == s[0],
        s.insert(i, c).len() == s.len() + 1,
{
    s.insert_ensures(i, c);
    s.skip(1).insert_ensures(i - 1, c);
}

/// Inserting at the front leaves the rest of the text as it was.
proof fn lemma_insert_front(s: Seq<char>, c: char)
    ensures
        s.insert(0, c)[0] == c,
        s.insert(0, c).skip(1) =~= s,
        s.insert(0, c).len() == s.len() + 1,
{
    s.insert_ensures(0, c);
}

/// Inserting a character that is not `'\n'` does not change the line count.
pub proof fn lemma_insert_plain_count(s: Seq<char>, i: int, c: char)
    requires
        0 <= i <= s.len(),
        c != '\n',
    ensures
        line_count(s.insert(i, c)) == line_count(s),
    decreases s.len(),
{
    if i == 0 {
        lemma_insert_front(s, c);
    } else {
        lemma_insert_skip1(s, i, c);
        lemma_insert_plain_count(s.skip(1), i - 1, c);
    }
}

/// Inserting a character that is not `'\n'` keeps the start of every line
/// that begins at or before the insertion point, and shifts every later
/// line start by one.
pub proof fn lemma_insert_plain_start(s: Seq<char>, i: int, c: char, l: int)
    requires
        0 <= i <= s.len(),
        c != '\n',
        0 <= l < line_count(s),
    ensures
        line_start(s, l) <= i ==> line_start(s.insert(i, c), l) == line_start(s, l),
        line_start(s, l) > i ==> line_start(s.insert(i, c), l) == line_start(s, l) + 1,
    decreases s.len(),
{
    if l == 0 {
    } else {
        lemma_line_count_pos(if s.len() == 0 {
            s
        } else {
            s.skip(1)
        });
        if i == 0 {
            lemma_insert_front(s, c);
            lemma_line_start_bounds(s.skip(1), if s[0] == '\n' {
                l - 1
            } else {
                l
            });
        } else {
            lemma_insert_skip1(s, i, c);
            if s[0] == '\n' {
                lemma_insert_plain_start(s.skip(1), i - 1, c, l - 1);
            } else {
                lemma_insert_plain_start(s.skip(1), i - 1, c, l);
            }
        }
    }
}

/// Inserting `'\n'` inside line `r` adds one line, and the line after `r`
/// then starts right after the inserted break.
pub proof fn lemma_insert_newline(s: Seq<char>, i: int, r: int)
    requires
        0 <= r < line_count(s),
        line_start(s, r) <= i <= line_end(s, r),
    ensures
        line_count(s.insert(i, '\n')) == line_count(s) + 1,
        line_start(s.insert(i, '\n'), r + 1) == i + 1,
    decreases s.len(),
{
    lemma_line_start_bounds(s, r);
    lemma_line_start_bounds(s, r + 1);
    if i == 0 {
        lemma_insert_front(s, '\n');
    } else {
        // i >= 1 puts the insertion strictly inside the text, so s is not
        // empty, and the head of s is not the break that ends line r.
        lemma_insert_skip1(s, i, '\n');
        lemma_line_count_pos(s.skip(1));
        if r == 0 {
            if s[0] == '\n' {
                // Then line 0 ends at position 0, contradicting i >= 1.
                assert(line_start(s, 1) == 1 + line_start(s.skip(1), 0));
                assert(line_end(s, 0) == 0);
                assert(false);
            }
            lemma_insert_newline(s.skip(1), i - 1, 0);
        } else {
            lemma_line_start_bounds(s.skip(1), r);
            if s[0] == '\n' {
                lemma_insert_newline(s.skip(1), i - 1, r - 1);
            } else {
                lemma_insert_newline(s.skip(1), i - 1, r);
            }
        }
    }
}

/// Inserting a character that is not an exotic break keeps the text clean.
pub proof fn lemma_insert_clean(s: Seq<char>, i: int, c: char)
    requires
        0 <= i <= s.len(),
        clean_text(s),
        !is_exotic_break(c),
    ensures
        clean_text(s.insert(i, c)),
{
    s.insert_ensures(i, c);
    assert forall|k: int| 0 <= k < s.insert(i, c).len() implies !is_exotic_break(
        #[trigger] s.insert(i, c)[k],
    ) by {
        if k < i {
            assert(s.insert(i, c)[k] == s[k]);
        } else if k == i {
            assert(s.insert(i, c)[k] == c);
        } else {
            assert(s.insert(i, c)[k] == s[k - 1]);
        }
    }
}

} // verus!
