//! A single-line text buffer with a cursor, as used by the input fields.
//!
//! The text is a sequence of characters and the cursor sits between two of
//! them; `cursor()` reports its position as a byte offset into the UTF-8
//! encoding of the text, so it always falls on a character boundary.
use vstd::prelude::*;

use crate::text::{
    append_chars, char_width, copy_chars, chars_of, is_alnum, is_ascii_alphanumeric, lemma_utf8_len_bound,
    lemma_utf8_len_take_succ, len_utf8, string_of, sub_chars, utf8_len, utf8_length,
};

verus! {

/// Longest text (in characters) whose UTF-8 encoding is sure to fit in `usize`.
pub open spec fn max_chars() -> nat {
    (usize::MAX / 4) as nat
}

// ───────────────────────── the editing model ─────────────────────────

/// Text after inserting `c` at position `p`.
pub open spec fn inserted(t: Seq<char>, p: nat, c: char) -> Seq<char> {
    t.take(p as int).push(c) + t.skip(p as int)
}

/// Text after removing the characters in `[a, b)`.
pub open spec fn removed(t: Seq<char>, a: nat, b: nat) -> Seq<char> {
    t.take(a as int) + t.skip(b as int)
}

/// Position one character to the left (stays at 0).
pub open spec fn left_of(p: nat) -> nat {
    if p == 0 {
        0
    } else {
        (p - 1) as nat
    }
}

/// Position one character to the right (stays at the end).
pub open spec fn right_of(t: Seq<char>, p: nat) -> nat {
    if p < t.len() {
        p + 1
    } else {
        p
    }
}

/// Moves left over characters that are not ASCII letters or digits.
pub open spec fn skip_left_other(t: Seq<char>, p: nat) -> nat
    decreases p,
{
    if p > 0 && p <= t.len() && !is_alnum(t[p - 1]) {
        skip_left_other(t, (p - 1) as nat)
    } else {
        p
    }
}

/// Moves left over ASCII letters and digits.
pub open spec fn skip_left_word(t: Seq<char>, p: nat) -> nat
    decreases p,
{
    if p > 0 && p <= t.len() && is_alnum(t[p - 1]) {
        skip_left_word(t, (p - 1) as nat)
    } else {
        p
    }
}

/// Moves right over ASCII letters and digits.
pub open spec fn skip_right_word(t: Seq<char>, p: nat) -> nat
    decreases t.len() - p,
{
    if p < t.len() && is_alnum(t[p as int]) {
        skip_right_word(t, p + 1)
    } else {
        p
    }
}

/// Moves right over characters that are not ASCII letters or digits.
pub open spec fn skip_right_other(t: Seq<char>, p: nat) -> nat
    decreases t.len() - p,
{
    if p < t.len() && !is_alnum(t[p as int]) {
        skip_right_other(t, p + 1)
    } else {
        p
    }
}

/// Start of the previous word: one character left, then past any separators,
/// then past the word.
pub open spec fn word_left(t: Seq<char>, p: nat) -> nat {
    if p == 0 {
        0
    } else {
        skip_left_word(t, skip_left_other(t, (p - 1) as nat))
    }
}

/// Start of the next word: one character right, then past the rest of the
/// word, then past any separators.
pub open spec fn word_right(t: Seq<char>, p: nat) -> nat {
    if p >= t.len() {
        p
    } else {
        skip_right_other(t, skip_right_word(t, p + 1))
    }
}

proof fn lemma_skip_left_bounds(t: Seq<char>, p: nat)
    requires
        p <= t.len(),
    ensures
        skip_left_other(t, p) <= p,
        skip_left_word(t, p) <= p,
    decreases p,
{
    if p > 0 {
        lemma_skip_left_bounds(t, (p - 1) as nat);
    }
}

proof fn lemma_skip_right_bounds(t: Seq<char>, p: nat)
    requires
        p <= t.len(),
    ensures
        p <= skip_right_other(t, p) <= t.len(),
        p <= skip_right_word(t, p) <= t.len(),
    decreases t.len() - p,
{
    if p < t.len() {
        lemma_skip_right_bounds(t, p + 1);
    }
}

/// Word movements stay inside the text and move in their direction.
pub proof fn lemma_word_moves_bounded(t: Seq<char>, p: nat)
    requires
        p <= t.len(),
    ensures
        word_left(t, p) <= p,
        p <= word_right(t, p) <= t.len(),
        p < t.len() ==> p < word_right(t, p),
        p > 0 ==> word_left(t, p) < p,
{
    if p > 0 {
        lemma_skip_left_bounds(t, (p - 1) as nat);
        lemma_skip_left_bounds(t, skip_left_other(t, (p - 1) as nat));
    }
    if p < t.len() {
        lemma_skip_right_bounds(t, p + 1);
        lemma_skip_right_bounds(t, skip_right_word(t, p + 1));
    }
}

// ───────────────────────── laws ─────────────────────────

/// Backspace right after typing a character gives back the text and cursor.
pub proof fn lemma_backspace_undoes_insert(t: Seq<char>, p: nat, c: char)
    requires
        p <= t.len(),
    ensures
        removed(inserted(t, p, c), p, p + 1) == t,
        left_of(p + 1) == p,
{
    assert(removed(inserted(t, p, c), p, p + 1) =~= t);
}

/// Delete right after typing a character and stepping back over it gives back the text.
pub proof fn lemma_delete_undoes_insert(t: Seq<char>, p: nat, c: char)
    requires
        p <= t.len(),
    ensures
        left_of(p + 1) == p,
        p < inserted(t, p, c).len(),
        removed(inserted(t, p, c), p, p + 1) == t,
{
    assert(removed(inserted(t, p, c), p, p + 1) =~= t);
}

/// Stepping left and then right returns to the same place when not at the start.
pub proof fn lemma_left_then_right(t: Seq<char>, p: nat)
    requires
        0 < p <= t.len(),
    ensures
        right_of(t, left_of(p)) == p,
{
}

/// Inserting puts the character just before the cursor and keeps the rest.
pub proof fn lemma_inserted_shape(t: Seq<char>, p: nat, c: char)
    requires
        p <= t.len(),
    ensures
        inserted(t, p, c).len() == t.len() + 1,
        inserted(t, p, c)[p as int] == c,
        inserted(t, p, c).take(p as int) == t.take(p as int),
        inserted(t, p, c).skip(p as int + 1) == t.skip(p as int),
{
    assert(inserted(t, p, c).take(p as int) =~= t.take(p as int));
    assert(inserted(t, p, c).skip(p as int + 1) =~= t.skip(p as int));
}

// ───────────────────────── the buffer ─────────────────────────

/// A text input buffer with cursor position tracking.
///
/// Supports cursor movement (left/right/home/end), word-level navigation,
/// insert at cursor, and delete at cursor (backspace/delete).
#[derive(Debug)]
pub struct TextInput {
    content: Vec<char>,
    /// Cursor position, counted in characters from the start.
    cursor: usize,
}

impl TextInput {
    #[verifier::type_invariant]
    spec fn well_formed(self) -> bool {
        &&& self.cursor <= self.content@.len()
        &&& self.content@.len() <= max_chars()
    }

    /// The characters of the buffer.
    pub closed spec fn text(&self) -> Seq<char> {
        self.content@
    }

    /// The cursor position, in characters.
    pub closed spec fn pos(&self) -> nat {
        self.cursor as nat
    }

    /// An empty buffer.
    pub fn new() -> (r: TextInput)
        ensures
            r.text() == Seq::<char>::empty(),
            r.pos() == 0,
    {
        TextInput { content: Vec::new(), cursor: 0 }
    }

    /// The buffer's text.
    pub fn content(&self) -> (r: String)
        ensures
            r@ == self.text(),
    {
        string_of(&self.content)
    }

    /// Byte offset of the cursor in the UTF-8 text.
    pub fn cursor(&self) -> (r: usize)
        ensures
            r == utf8_len(self.text().take(self.pos() as int)),
    {
        proof {
            use_type_invariant(self);
        }
        let prefix = sub_chars(&self.content, 0, self.cursor);
        utf8_length(&prefix)
    }

    /// Whether the text is empty.
    pub fn is_empty(&self) -> (r: bool)
        ensures
            r == (self.text().len() == 0),
    {
        self.content.len() == 0
    }

    /// Length of the text in bytes of UTF-8.
    pub fn len(&self) -> (r: usize)
        ensures
            r == utf8_len(self.text()),
    {
        proof {
            use_type_invariant(self);
        }
        utf8_length(&self.content)
    }

    /// Replaces the text and puts the cursor at its end.
    pub fn set_content(&mut self, text: String)
        requires
            text@.len() <= max_chars(),
        ensures
            final(self).text() == text@,
            final(self).pos() == text@.len(),
    {
        let chars = chars_of(text.as_str());
        let n = chars.len();
        *self = TextInput { content: chars, cursor: n };
    }

    /// Empties the text.
    pub fn clear(&mut self)
        ensures
            final(self).text() == Seq::<char>::empty(),
            final(self).pos() == 0,
    {
        *self = TextInput { content: Vec::new(), cursor: 0 };
    }

    /// Inserts a character at the cursor and moves the cursor past it.
    pub fn insert_char(&mut self, ch: char)
        requires
            old(self).text().len() < max_chars(),
        ensures
            final(self).text() == inserted(old(self).text(), old(self).pos(), ch),
            final(self).pos() == old(self).pos() + 1,
    {
        proof {
            use_type_invariant(&*self);
        }
        let mut content = sub_chars(&self.content, 0, self.cursor);
        content.push(ch);
        let tail = sub_chars(&self.content, self.cursor, self.content.len());
        append_chars(&mut content, &tail);
        proof {
            assert(self.content@.skip(self.cursor as int) =~= tail@);
            assert(self.content@.take(self.cursor as int) =~= self.content@.subrange(
                0,
                self.cursor as int,
            ));
        }
        let c = self.cursor + 1;
        *self = TextInput { content, cursor: c };
    }

    /// Removes the text in `[a, b)` and puts the cursor at `a`.
    fn remove_range(&mut self, a: usize, b: usize)
        requires
            a <= b <= old(self).text().len(),
        ensures
            final(self).text() == removed(old(self).text(), a as nat, b as nat),
            final(self).pos() == a,
    {
        proof {
            use_type_invariant(&*self);
        }
        let mut content = sub_chars(&self.content, 0, a);
        let tail = sub_chars(&self.content, b, self.content.len());
        append_chars(&mut content, &tail);
        proof {
            assert(self.content@.take(a as int) =~= self.content@.subrange(0, a as int));
            assert(self.content@.skip(b as int) =~= tail@);
        }
        *self = TextInput { content, cursor: a };
    }

    /// Deletes the character before the cursor.
    pub fn backspace(&mut self)
        ensures
            old(self).pos() == 0 ==> *final(self) == *old(self),
            old(self).pos() > 0 ==> final(self).text() == removed(
                old(self).text(),
                (old(self).pos() - 1) as nat,
                old(self).pos(),
            ) && final(self).pos() == old(self).pos() - 1,
    {
        proof {
            use_type_invariant(&*self);
        }
        if self.cursor == 0 {
            return;
        }
        let prev = self.cursor - 1;
        let cur = self.cursor;
        self.remove_range(prev, cur);
    }

    /// Deletes the character under the cursor.
    pub fn delete(&mut self)
        ensures
            old(self).pos() >= old(self).text().len() ==> *final(self) == *old(self),
            old(self).pos() < old(self).text().len() ==> final(self).text() == removed(
                old(self).text(),
                old(self).pos(),
                old(self).pos() + 1,
            ) && final(self).pos() == old(self).pos(),
    {
        proof {
            use_type_invariant(&*self);
        }
        if self.cursor >= self.content.len() {
            return;
        }
        let cur = self.cursor;
        self.remove_range(cur, cur + 1);
    }

    /// Moves the cursor one character left.
    pub fn move_left(&mut self)
        ensures
            final(self).text() == old(self).text(),
            final(self).pos() == left_of(old(self).pos()),
    {
        proof {
            use_type_invariant(&*self);
        }
        if self.cursor > 0 {
            self.cursor = self.cursor - 1;
        }
    }

    /// Moves the cursor one character right.
    pub fn move_right(&mut self)
        ensures
            final(self).text() == old(self).text(),
            final(self).pos() == right_of(old(self).text(), old(self).pos()),
    {
        proof {
            use_type_invariant(&*self);
        }
        if self.cursor < self.content.len() {
            self.cursor = self.cursor + 1;
        }
    }

    /// Moves the cursor to the start.
    pub fn move_home(&mut self)
        ensures
            final(self).text() == old(self).text(),
            final(self).pos() == 0,
    {
        proof {
            use_type_invariant(&*self);
        }
        self.cursor = 0;
    }

    /// Moves the cursor to the end.
    pub fn move_end(&mut self)
        ensures
            final(self).text() == old(self).text(),
            final(self).pos() == old(self).text().len(),
    {
        proof {
            use_type_invariant(&*self);
        }
        self.cursor = self.content.len();
    }

    /// Moves the cursor to the start of the previous word.
    pub fn move_word_left(&mut self)
        ensures
            final(self).text() == old(self).text(),
            final(self).pos() == word_left(old(self).text(), old(self).pos()),
    {
        proof {
            use_type_invariant(&*self);
        }
        if self.cursor == 0 {
            return;
        }
        let mut pos = self.cursor - 1;
        while pos > 0 && !is_ascii_alphanumeric(self.content[pos - 1])
            invariant
                pos <= self.content@.len(),
                skip_left_other(self.content@, pos as nat) == skip_left_other(
                    self.content@,
                    (old(self).cursor - 1) as nat,
                ),
                self.content@ == old(self).content@,
                old(self).cursor > 0,
            decreases pos,
        {
            pos = pos - 1;
        }
        let ghost mid = pos;
        while pos > 0 && is_ascii_alphanumeric(self.content[pos - 1])
            invariant
                pos <= self.content@.len(),
                skip_left_word(self.content@, pos as nat) == skip_left_word(
                    self.content@,
                    mid as nat,
                ),
                mid == skip_left_other(self.content@, (old(self).cursor - 1) as nat),
                self.content@ == old(self).content@,
                old(self).cursor > 0,
            decreases pos,
        {
            pos = pos - 1;
        }
        self.cursor = pos;
    }

    /// Moves the cursor to the start of the next word.
    pub fn move_word_right(&mut self)
        ensures
            final(self).text() == old(self).text(),
            final(self).pos() == word_right(old(self).text(), old(self).pos()),
    {
        proof {
            use_type_invariant(&*self);
        }
        let len = self.content.len();
        if self.cursor >= len {
            return;
        }
        let mut pos = self.cursor + 1;
        while pos < len && is_ascii_alphanumeric(self.content[pos])
            invariant
                pos <= len == self.content@.len(),
                skip_right_word(self.content@, pos as nat) == skip_right_word(
                    self.content@,
                    (old(self).cursor + 1) as nat,
                ),
                self.content@ == old(self).content@,
                old(self).cursor < len,
            decreases len - pos,
        {
            pos = pos + 1;
        }
        let ghost mid = pos;
        while pos < len && !is_ascii_alphanumeric(self.content[pos])
            invariant
                pos <= len == self.content@.len(),
                skip_right_other(self.content@, pos as nat) == skip_right_other(
                    self.content@,
                    mid as nat,
                ),
                mid == skip_right_word(self.content@, (old(self).cursor + 1) as nat),
                self.content@ == old(self).content@,
                old(self).cursor < len,
            decreases len - pos,
        {
            pos = pos + 1;
        }
        self.cursor = pos;
    }

    /// Deletes from the start of the previous word up to the cursor.
    pub fn delete_word_back(&mut self)
        ensures
            old(self).pos() == 0 ==> *final(self) == *old(self),
            old(self).pos() > 0 ==> final(self).text() == removed(
                old(self).text(),
                word_left(old(self).text(), old(self).pos()),
                old(self).pos(),
            ) && final(self).pos() == word_left(old(self).text(), old(self).pos()),
    {
        proof {
            use_type_invariant(&*self);
        }
        if self.cursor == 0 {
            return;
        }
        let start = self.cursor;
        self.move_word_left();
        proof {
            use_type_invariant(&*self);
            lemma_word_moves_bounded(old(self).content@, start as nat);
        }
        let to = self.cursor;
        self.remove_range(to, start);
    }

    /// The text before the cursor and the text after it.
    pub fn split_at_cursor(&self) -> (r: (String, String))
        ensures
            r.0@ == self.text().take(self.pos() as int),
            r.1@ == self.text().skip(self.pos() as int),
            r.0@ + r.1@ == self.text(),
    {
        proof {
            use_type_invariant(self);
        }
        let before = sub_chars(&self.content, 0, self.cursor);
        let after = sub_chars(&self.content, self.cursor, self.content.len());
        proof {
            assert(before@ =~= self.content@.take(self.cursor as int));
            assert(after@ =~= self.content@.skip(self.cursor as int));
            assert(before@ + after@ =~= self.content@);
        }
        (string_of(&before), string_of(&after))
    }

    /// Whether the cursor is at the end of the text.
    pub fn cursor_at_end(&self) -> (r: bool)
        ensures
            r == (self.pos() >= self.text().len()),
    {
        self.cursor >= self.content.len()
    }
}

impl Clone for TextInput {
    /// The same text with the cursor at the same place.
    fn clone(&self) -> (r: TextInput)
        ensures
            r.text() == self.text(),
            r.pos() == self.pos(),
    {
        proof {
            use_type_invariant(self);
        }
        TextInput { content: copy_chars(&self.content), cursor: self.cursor }
    }
}

impl Default for TextInput {
    fn default() -> (r: TextInput)
        ensures
            r.text() == Seq::<char>::empty(),
            r.pos() == 0,
    {
        TextInput::new()
    }
}

} // verus!
