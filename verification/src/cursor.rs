//! The cursor engine: a single-line text buffer that is edited at a
//! character position.
//!
//! Positions count characters (Unicode scalar values), never bytes, so no
//! edit can land inside the encoding of a character. Every edit rebuilds the
//! text from whole characters.

use vstd::prelude::*;
use vstd::string::{StrSliceExecFns, StringExecFns};

verus! {

/// A text under edit together with the cursor: the number of characters
/// that stand before it. The cursor never lies beyond the end of the text.
#[derive(Debug, PartialEq)]
pub struct EditBuffer {
    text: String,
    cursor: usize,
}

/// An `EditBuffer` as a mathematical value.
pub struct EditBufferView {
    pub text: Seq<char>,
    pub cursor: nat,
}

impl EditBufferView {
    /// The cursor lies within the text or right behind it.
    pub open spec fn wf(self) -> bool {
        self.cursor <= self.text.len()
    }

    /// The empty buffer.
    pub open spec fn empty() -> EditBufferView {
        EditBufferView { text: Seq::empty(), cursor: 0 }
    }

    /// The buffer that holds `text`, with the cursor behind its last character.
    pub open spec fn at_end_of(text: Seq<char>) -> EditBufferView {
        EditBufferView { text, cursor: text.len() }
    }

    /// The cursor one character to the left, unless it is at the start.
    pub open spec fn moved_left(self) -> EditBufferView {
        EditBufferView {
            cursor: if self.cursor > 0 {
                (self.cursor - 1) as nat
            } else {
                0
            },
            ..self
        }
    }

    /// The cursor one character to the right, unless it is at the end.
    pub open spec fn moved_right(self) -> EditBufferView {
        EditBufferView {
            cursor: if self.cursor < self.text.len() {
                self.cursor + 1
            } else {
                self.cursor
            },
            ..self
        }
    }

    /// `c` put in at the cursor, and the cursor behind it.
    pub open spec fn inserted(self, c: char) -> EditBufferView {
        EditBufferView {
            text: self.text.subrange(0, self.cursor as int) + seq![c] + self.text.subrange(
                self.cursor as int,
                self.text.len() as int,
            ),
            cursor: self.cursor + 1,
        }
    }

    /// The character left of the cursor taken out, and the cursor where it
    /// stood; nothing changes with the cursor at the start.
    pub open spec fn deleted_before(self) -> EditBufferView {
        if self.cursor == 0 {
            self
        } else {
            EditBufferView {
                text: self.text.subrange(0, self.cursor - 1) + self.text.subrange(
                    self.cursor as int,
                    self.text.len() as int,
                ),
                cursor: (self.cursor - 1) as nat,
            }
        }
    }
}

impl View for EditBuffer {
    type V = EditBufferView;

    closed spec fn view(&self) -> EditBufferView {
        EditBufferView { text: self.text@, cursor: self.cursor as nat }
    }
}

/// Calls `String::push`. Trusted: the character is appended at the end of
/// the text, as std documents.
#[verifier::external_body]
fn push_char(text: &mut String, c: char)
    ensures
        final(text)@ == old(text)@.push(c),
{
    text.push(c)
}

impl EditBuffer {
    #[verifier::type_invariant]
    spec fn cursor_in_text(self) -> bool {
        self.cursor <= self.text@.len()
    }

    /// An empty buffer.
    pub fn new() -> (buffer: EditBuffer)
        ensures
            buffer@ == EditBufferView::empty(),
    {
        EditBuffer { text: String::new(), cursor: 0 }
    }

    /// A buffer that holds `text`, with the cursor behind its last character.
    pub fn from_text(text: &str) -> (buffer: EditBuffer)
        ensures
            buffer@ == EditBufferView::at_end_of(text@),
    {
        EditBuffer { text: String::from_str(text), cursor: text.unicode_len() }
    }

    /// The text of the buffer.
    pub fn text(&self) -> (text: &str)
        ensures
            text@ == self@.text,
    {
        self.text.as_str()
    }

    /// The cursor: how many characters stand before it.
    pub fn cursor(&self) -> (cursor: usize)
        ensures
            cursor == self@.cursor,
            self@.wf(),
    {
        proof {
            use_type_invariant(self);
        }
        self.cursor
    }

    /// Moves the cursor one character to the left; at the start it stays.
    pub fn move_left(&mut self)
        ensures
            final(self)@ == old(self)@.moved_left(),
    {
        proof {
            use_type_invariant(&*self);
        }
        if self.cursor > 0 {
            self.cursor = self.cursor - 1;
        }
    }

    /// Moves the cursor one character to the right; at the end it stays.
    pub fn move_right(&mut self)
        ensures
            final(self)@ == old(self)@.moved_right(),
    {
        proof {
            use_type_invariant(&*self);
        }
        let len: usize = self.text.as_str().unicode_len();
        if self.cursor < len {
            self.cursor = self.cursor + 1;
        }
    }

    /// Puts `c` in at the cursor and moves the cursor behind it.
    pub fn insert(&mut self, c: char)
        ensures
            final(self)@ == old(self)@.inserted(c),
    {
        proof {
            use_type_invariant(&*self);
        }
        let len: usize = self.text.as_str().unicode_len();
        let mut rebuilt = String::from_str(self.text.as_str().substring_char(0, self.cursor));
        push_char(&mut rebuilt, c);
        rebuilt.append(self.text.as_str().substring_char(self.cursor, len));
        let grown: usize = rebuilt.as_str().unicode_len();
        proof {
            assert(rebuilt@ =~= old(self)@.inserted(c).text);
            assert(grown == len + 1);
        }
        self.text = rebuilt;
        self.cursor = self.cursor + 1;
    }

    /// Takes out the character left of the cursor and moves the cursor to
    /// where it stood. With the cursor at the start nothing happens.
    pub fn delete_before(&mut self)
        ensures
            final(self)@ == old(self)@.deleted_before(),
    {
        proof {
            use_type_invariant(&*self);
        }
        if self.cursor > 0 {
            let len: usize = self.text.as_str().unicode_len();
            let mut rebuilt = String::from_str(
                self.text.as_str().substring_char(0, self.cursor - 1),
            );
            rebuilt.append(self.text.as_str().substring_char(self.cursor, len));
            proof {
                assert(rebuilt@ =~= old(self)@.deleted_before().text);
            }
            self.cursor = self.cursor - 1;
            self.text = rebuilt;
        }
    }
}

/// Inserting a character and deleting it again restores the text and the
/// cursor, wherever the cursor stands.
pub proof fn lemma_insert_then_delete(buffer: EditBufferView, c: char)
    requires
        buffer.wf(),
    ensures
        buffer.inserted(c).deleted_before() == buffer,
        buffer.inserted(c).text[buffer.cursor as int] == c,
        buffer.inserted(c).text.len() == buffer.text.len() + 1,
{
    assert(buffer.inserted(c).deleted_before().text =~= buffer.text);
}

/// Every edit keeps the cursor within the text.
pub proof fn lemma_edits_keep_cursor_in_text(buffer: EditBufferView, c: char)
    requires
        buffer.wf(),
    ensures
        buffer.moved_left().wf(),
        buffer.moved_right().wf(),
        buffer.inserted(c).wf(),
        buffer.deleted_before().wf(),
{
}

} // verus!
