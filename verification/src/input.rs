//! The editable line: two runs of characters with the cursor between them.

use vstd::prelude::*;
use crate::text::{chars_of, string_of};

verus! {

/// Direction of a one-character cursor move.
#[derive(Clone, Copy, Debug, PartialEq, Eq, Structural)]
pub enum CursorDir {
    Left,
    Right,
}

/// What an `Input` stands for: the characters before the cursor and those after it.
pub struct InputView {
    pub before: Seq<char>,
    pub after: Seq<char>,
}

impl InputView {
    /// The whole line, cursor ignored.
    pub open spec fn text(self) -> Seq<char> {
        self.before + self.after
    }

    /// The empty line.
    pub open spec fn empty() -> InputView {
        InputView { before: Seq::empty(), after: Seq::empty() }
    }

    /// The line `text` with the cursor at its end.
    pub open spec fn at_end(text: Seq<char>) -> InputView {
        InputView { before: text, after: Seq::empty() }
    }

    /// The line after typing `c` at the cursor.
    pub open spec fn insert(self, c: char) -> InputView {
        InputView { before: self.before.push(c), after: self.after }
    }

    /// The line after deleting the character left of the cursor, if there is one.
    pub open spec fn backspace(self) -> InputView {
        if self.before.len() == 0 {
            self
        } else {
            InputView { before: self.before.drop_last(), after: self.after }
        }
    }

    /// The line after moving the cursor one character in direction `dir`;
    /// unchanged where the cursor already stands at that end.
    pub open spec fn shift(self, dir: CursorDir) -> InputView {
        match dir {
            CursorDir::Left => if self.before.len() == 0 {
                self
            } else {
                InputView {
                    before: self.before.drop_last(),
                    after: seq![self.before.last()] + self.after,
                }
            },
            CursorDir::Right => if self.after.len() == 0 {
                self
            } else {
                InputView {
                    before: self.before.push(self.after.first()),
                    after: self.after.drop_first(),
                }
            },
        }
    }
}

/// A single line of text under edit. The cursor is not stored as an index:
/// it is the boundary between the two runs of characters.
#[derive(Debug)]
pub struct Input {
    before: Vec<char>,
    after: Vec<char>,
}

impl View for Input {
    type V = InputView;

    closed spec fn view(&self) -> InputView {
        InputView { before: self.before@, after: self.after@ }
    }
}

impl Default for Input {
    fn default() -> (r: Input)
        ensures
            r@ == InputView::empty(),
    {
        Input { before: Vec::new(), after: Vec::new() }
    }
}

impl Input {
    /// Types `c` at the cursor.
    pub fn insert(&mut self, c: char)
        ensures
            final(self)@ == old(self)@.insert(c),
    {
        self.before.push(c);
    }

    /// Moves the cursor one character; a no-op at the matching end of the line.
    pub fn shift(&mut self, dir: CursorDir)
        ensures
            final(self)@ == old(self)@.shift(dir),
    {
        match dir {
            CursorDir::Left => match self.before.pop() {
                Some(c) => {
                    self.after.insert(0, c);
                    assert(self.after@ =~= seq![c] + old(self).after@);
                },
                None => (),
            },
            CursorDir::Right => {
                if self.after.len() > 0 {
                    let c = self.after.remove(0);
                    self.before.push(c);
                    assert(self.after@ =~= old(self).after@.drop_first());
                }
            },
        }
    }

    /// The whole line as a string.
    pub fn get_text(&self) -> (s: String)
        ensures
            s@ == self@.text(),
    {
        let mut s = string_of(&self.before);
        let mut i: usize = 0;
        while i < self.after.len()
            invariant
                i <= self.after.len(),
                s@ == self.before@ + self.after@.take(i as int),
            decreases self.after.len() - i,
        {
            s.push(self.after[i]);
            assert(self.after@.take(i + 1) =~= self.after@.take(i as int).push(self.after@[i as int]));
            i += 1;
        }
        assert(self.after@.take(self.after@.len() as int) =~= self.after@);
        s
    }

    /// How many characters stand before the cursor and how many after it.
    pub fn get_lens(&self) -> (lens: (usize, usize))
        ensures
            lens.0 == self@.before.len(),
            lens.1 == self@.after.len(),
    {
        (self.before.len(), self.after.len())
    }

    /// Deletes the character left of the cursor, if there is one.
    pub fn backspace(&mut self)
        ensures
            final(self)@ == old(self)@.backspace(),
    {
        let _ = self.before.pop();
    }

    /// Empties the line.
    pub fn reset(&mut self)
        ensures
            final(self)@ == InputView::empty(),
    {
        self.before = Vec::new();
        self.after = Vec::new();
    }

    /// Replaces the line by `new_str` and puts the cursor at its end.
    pub fn replace(&mut self, new_str: String)
        ensures
            final(self)@ == InputView::at_end(new_str@),
    {
        self.after = Vec::new();
        self.before = chars_of(new_str.as_str());
    }
}

} // verus!
