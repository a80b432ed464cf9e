//! The document: a rope-backed editable text buffer addressed by character
//! and by line. The rope itself comes from the `ropey` crate and is held
//! behind trusted wrappers; everything the editor states about the buffer is
//! said over `rope_chars`, the sequence of characters the rope holds.
//!
//! The document keeps out the characters other than `'\n'` that the rope's
//! line index also treats as line breaks, so that the line arithmetic of
//! [`crate::text`] agrees with the rope's own line addressing.

use vstd::prelude::*;

use crate::text::clean_text;
use crate::text::is_exotic_break;
use crate::text::lemma_insert_clean;
use crate::text::line_count;
use crate::text::line_start;

verus! {

/// Declares ropey::Rope so that it can stand in fields and signatures; its
/// values are opaque here, spoken of only through [`rope_chars`].
#[verifier::external_type_specification]
#[verifier::external_body]
pub struct ExRope(ropey::Rope);

/// The characters a rope holds, in order.
pub uninterp spec fn rope_chars(r: ropey::Rope) -> Seq<char>;

/// Relies on ropey::Rope::new: an empty rope holds no characters.
#[verifier::external_body]
fn rope_new() -> (r: ropey::Rope)
    ensures
        rope_chars(r) == Seq::<char>::empty(),
{
    ropey::Rope::new()
}

/// Relies on ropey::Rope::insert_char: inserts `ch` at char index `char_idx`;
/// panics only when `char_idx` is past the end. A rope cannot hold more
/// characters than fit in a `usize`.
#[verifier::external_body]
fn rope_insert_char(r: &mut ropey::Rope, char_idx: usize, ch: char)
    requires
        char_idx <= rope_chars(*old(r)).len(),
        rope_chars(*old(r)).len() < usize::MAX,
    ensures
        rope_chars(*final (r)) == rope_chars(*old(r)).insert(char_idx as int, ch),
{
    r.insert_char(char_idx, ch)
}

/// Relies on ropey::Rope::insert: inserts `text` at char index `char_idx`;
/// panics only when `char_idx` is past the end. A rope cannot hold more
/// characters than fit in a `usize`.
#[verifier::external_body]
fn rope_insert(r: &mut ropey::Rope, char_idx: usize, text: &str)
    requires
        char_idx <= rope_chars(*old(r)).len(),
        rope_chars(*old(r)).len() + text@.len() <= usize::MAX,
    ensures
        rope_chars(*final (r)) == rope_chars(*old(r)).take(char_idx as int) + text@ + rope_chars(
            *old(r),
        ).skip(char_idx as int),
{
    r.insert(char_idx, text)
}

/// Relies on ropey::Rope::len_chars: the total number of characters.
#[verifier::external_body]
fn rope_len_chars(r: &ropey::Rope) -> (n: usize)
    ensures
        n == rope_chars(*r).len(),
{
    r.len_chars()
}

/// Relies on ropey::Rope::len_lines: one more than the number of line breaks.
/// In text whose only break character is `'\n'`, every break is a `'\n'`.
#[verifier::external_body]
fn rope_len_lines(r: &ropey::Rope) -> (n: usize)
    requires
        clean_text(rope_chars(*r)),
    ensures
        n as int == line_count(rope_chars(*r)),
{
    r.len_lines()
}

/// Relies on ropey::Rope::line_to_char: the char index of the start of the
/// given line, one past the end for the one-past-the-end line index; panics
/// only above that. In text whose only break character is `'\n'`, line starts
/// are the positions right after each `'\n'`.
#[verifier::external_body]
fn rope_line_to_char(r: &ropey::Rope, line_idx: usize) -> (n: usize)
    requires
        clean_text(rope_chars(*r)),
        line_idx as int <= line_count(rope_chars(*r)),
    ensures
        n as int == line_start(rope_chars(*r), line_idx as int),
{
    r.line_to_char(line_idx)
}

/// Relies on ropey's `impl From<&Rope> for String`: the rope's full text.
#[verifier::external_body]
fn rope_to_string(r: &ropey::Rope) -> (out: String)
    ensures
        out@ == rope_chars(*r),
{
    String::from(r)
}

/// Relies on ropey::Rope::clone: a clone shares the same text.
#[verifier::external_body]
fn rope_clone(r: &ropey::Rope) -> (c: ropey::Rope)
    ensures
        rope_chars(c) == rope_chars(*r),
{
    r.clone()
}

/// The editable text buffer. Its view is the sequence of characters it
/// holds; its well-formedness keeps every line break a plain `'\n'`.
pub struct Document {
    rope: ropey::Rope,
}

impl View for Document {
    type V = Seq<char>;

    closed spec fn view(&self) -> Seq<char> {
        rope_chars(self.rope)
    }
}

impl Document {
    /// The only line-break character in the document is `'\n'`.
    pub open spec fn wf(&self) -> bool {
        clean_text(self@)
    }

    /// An empty document: no characters, one empty line.
    pub fn new() -> (d: Document)
        ensures
            d@ == Seq::<char>::empty(),
            d.wf(),
    {
        let d = Document { rope: rope_new() };
        proof {
            assert(clean_text(d@));
        }
        d
    }

    /// Total number of characters.
    pub fn len_chars(&self) -> (n: usize)
        ensures
            n == self@.len(),
    {
        rope_len_chars(&self.rope)
    }

    /// Total number of lines: one more than the number of `'\n'` characters.
    pub fn len_lines(&self) -> (n: usize)
        requires
            self.wf(),
        ensures
            n as int == line_count(self@),
    {
        rope_len_lines(&self.rope)
    }

    /// Character index of the start of line `line_idx`; the one-past-the-end
    /// line index gives the one-past-the-end character index.
    pub fn line_to_char(&self, line_idx: usize) -> (n: usize)
        requires
            self.wf(),
            line_idx as int <= line_count(self@),
        ensures
            n as int == line_start(self@, line_idx as int),
    {
        rope_line_to_char(&self.rope, line_idx)
    }

    /// Inserts one character at character index `char_idx`, shifting the
    /// rest of the text right by one.
    pub fn insert_char(&mut self, char_idx: usize, ch: char)
        requires
            old(self).wf(),
            char_idx <= old(self)@.len(),
            old(self)@.len() < usize::MAX,
            !is_exotic_break(ch),
        ensures
            final (self)@ == old(self)@.insert(char_idx as int, ch),
            final (self).wf(),
    {
        proof {
            lemma_insert_clean(self@, char_idx as int, ch);
        }
        rope_insert_char(&mut self.rope, char_idx, ch)
    }

    /// Inserts `text` at character index `char_idx`, shifting the rest of
    /// the text right by its length.
    pub fn insert(&mut self, char_idx: usize, text: &str)
        requires
            old(self).wf(),
            char_idx <= old(self)@.len(),
            clean_text(text@),
            old(self)@.len() + text@.len() <= usize::MAX,
        ensures
            final (self)@ == old(self)@.take(char_idx as int) + text@ + old(self)@.skip(
                char_idx as int,
            ),
            final (self).wf(),
    {
        rope_insert(&mut self.rope, char_idx, text);
        proof {
            assert forall|k: int| 0 <= k < self@.len() implies !is_exotic_break(
                #[trigger] self@[k],
            ) by {
                if k < char_idx as int {
                    assert(self@[k] == old(self)@[k]);
                } else if k < char_idx as int + text@.len() {
                    assert(self@[k] == text@[k - char_idx as int]);
                } else {
                    assert(self@[k] == old(self)@[k - text@.len()]);
                }
            }
        }
    }

    /// Appends `text` at the end of the document.
    pub fn append(&mut self, text: &str)
        requires
            old(self).wf(),
            clean_text(text@),
            old(self)@.len() + text@.len() <= usize::MAX,
        ensures
            final (self)@ == old(self)@ + text@,
            final (self).wf(),
    {
        let n = rope_len_chars(&self.rope);
        self.insert(n, text);
        proof {
            assert(self@ =~= old(self)@ + text@);
        }
    }

    /// The full text of the document, serialized in order.
    pub fn serialize(&self) -> (out: String)
        ensures
            out@ == self@,
    {
        rope_to_string(&self.rope)
    }

    /// An immutable copy of the document, structurally shared with this one.
    pub fn snapshot(&self) -> (d: Document)
        ensures
            d@ == self@,
            d.wf() == self.wf(),
    {
        Document { rope: rope_clone(&self.rope) }
    }
}

impl Default for Document {
    /// The default document is empty.
    fn default() -> (d: Document)
        ensures
            d@ == Seq::<char>::empty(),
            d.wf(),
    {
        Document::new()
    }
}

} // verus!
