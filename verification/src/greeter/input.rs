//! The line of text that the user is typing, and the cursor in it.

use vstd::prelude::*;

verus! {

/// A line of text under edit. The cursor stands before the character at
/// its offset, or behind the last one.
#[derive(Debug, Clone)]
pub struct InputBuffer {
    pub chars: Vec<char>,
    pub cursor: usize,
}

pub struct InputView {
    pub chars: Seq<char>,
    pub cursor: int,
}

impl View for InputBuffer {
    type V = InputView;

    open spec fn view(&self) -> InputView {
        InputView { chars: self.chars@, cursor: self.cursor as int }
    }
}

impl InputView {
    /// The cursor lies within the text or just behind it.
    pub open spec fn wf(self) -> bool {
        0 <= self.cursor <= self.chars.len()
    }

    pub open spec fn empty() -> InputView {
        InputView { chars: Seq::empty(), cursor: 0 }
    }

    /// The line that holds `text`, with the cursor behind it.
    pub open spec fn holding(text: Seq<char>) -> InputView {
        InputView { chars: text, cursor: text.len() as int }
    }

    /// `c` put in at the cursor, which moves behind it.
    pub open spec fn inserted(self, c: char) -> InputView {
        InputView { chars: self.chars.insert(self.cursor, c), cursor: self.cursor + 1 }
    }

    /// The character before the cursor taken out; nothing at the start.
    pub open spec fn backspaced(self) -> InputView {
        if self.cursor > 0 {
            InputView { chars: self.chars.remove(self.cursor - 1), cursor: self.cursor - 1 }
        } else {
            self
        }
    }

    /// The character at the cursor taken out; nothing at the end.
    pub open spec fn deleted(self) -> InputView {
        if self.cursor < self.chars.len() {
            InputView { chars: self.chars.remove(self.cursor), cursor: self.cursor }
        } else {
            self
        }
    }

    /// The cursor one to the left, unless it is at the start.
    pub open spec fn moved_left(self) -> InputView {
        if self.cursor > 0 {
            InputView { cursor: self.cursor - 1, ..self }
        } else {
            self
        }
    }

    /// The cursor one to the right, unless it is at the end.
    pub open spec fn moved_right(self) -> InputView {
        if self.cursor < self.chars.len() {
            InputView { cursor: self.cursor + 1, ..self }
        } else {
            self
        }
    }
}

/// `String::push` of the standard library: the character is appended and
/// nothing else changes.
#[verifier::external_body]
fn push_char(s: &mut String, c: char)
    ensures
        final(s)@ == old(s)@.push(c),
{
    s.push(c)
}

impl InputBuffer {
    /// An empty line.
    pub fn new() -> (r: InputBuffer)
        ensures
            r@ == InputView::empty(),
            r@.wf(),
    {
        InputBuffer { chars: Vec::new(), cursor: 0 }
    }

    /// The line that holds `text`, with the cursor behind it.
    pub fn holding(text: &str) -> (r: InputBuffer)
        ensures
            r@ == InputView::holding(text@),
            r@.wf(),
    {
        let chars = crate::text::chars_of(text);
        let cursor = chars.len();
        InputBuffer { chars, cursor }
    }

    /// Whether the cursor lies within the text or just behind it.
    pub fn is_valid(&self) -> (r: bool)
        ensures
            r == self@.wf(),
    {
        self.cursor <= self.chars.len()
    }

    /// Whether nothing has been typed.
    pub fn is_empty(&self) -> (r: bool)
        ensures
            r == (self@.chars.len() == 0),
    {
        self.chars.len() == 0
    }

    /// Forget the text.
    pub fn clear(&mut self)
        ensures
            final(self)@ == InputView::empty(),
    {
        self.chars = Vec::new();
        self.cursor = 0;
    }

    /// Put `c` in at the cursor. A line that cannot grow stays as it is.
    pub fn insert(&mut self, c: char)
        requires
            old(self)@.wf(),
        ensures
            final(self)@.wf(),
            old(self)@.chars.len() < usize::MAX ==> final(self)@ == old(self)@.inserted(c),
            old(self)@.chars.len() >= usize::MAX ==> final(self)@ == old(self)@,
    {
        if self.chars.len() < usize::MAX {
            self.chars.insert(self.cursor, c);
            self.cursor += 1;
        }
    }

    /// Take out the character before the cursor.
    pub fn backspace(&mut self)
        requires
            old(self)@.wf(),
        ensures
            final(self)@.wf(),
            final(self)@ == old(self)@.backspaced(),
    {
        if self.cursor > 0 {
            self.chars.remove(self.cursor - 1);
            self.cursor -= 1;
        }
    }

    /// Take out the character at the cursor.
    pub fn delete(&mut self)
        requires
            old(self)@.wf(),
        ensures
            final(self)@.wf(),
            final(self)@ == old(self)@.deleted(),
    {
        if self.cursor < self.chars.len() {
            self.chars.remove(self.cursor);
        }
    }

    /// Move the cursor one to the left.
    pub fn left(&mut self)
        requires
            old(self)@.wf(),
        ensures
            final(self)@.wf(),
            final(self)@ == old(self)@.moved_left(),
    {
        if self.cursor > 0 {
            self.cursor -= 1;
        }
    }

    /// Move the cursor one to the right.
    pub fn right(&mut self)
        requires
            old(self)@.wf(),
        ensures
            final(self)@.wf(),
            final(self)@ == old(self)@.moved_right(),
    {
        if self.cursor < self.chars.len() {
            self.cursor += 1;
        }
    }

    /// The text of the line.
    pub fn text(&self) -> (r: String)
        ensures
            r@ == self@.chars,
    {
        let mut r = String::new();
        let mut i: usize = 0;
        while i < self.chars.len()
            invariant
                i <= self.chars.len(),
                r@ == self.chars@.take(i as int),
            decreases self.chars.len() - i,
        {
            push_char(&mut r, self.chars[i]);
            assert(self.chars@.take(i as int).push(self.chars@[i as int]) =~= self.chars@.take(
                i as int + 1,
            ));
            i += 1;
        }
        assert(self.chars@.take(self.chars.len() as int) =~= self.chars@);
        r
    }
}

/// Typing a character and taking it back leaves the line as it was.
pub proof fn lemma_backspace_undoes_insert(line: InputView, c: char)
    requires
        line.wf(),
    ensures
        line.inserted(c).backspaced() == line,
{
    assert(line.chars.insert(line.cursor, c).remove(line.cursor) =~= line.chars);
}

} // verus!
