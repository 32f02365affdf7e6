//! The query log: an append-only list of answered queries, a scroll position
//! into it and the line that was under edit when scrolling began.

use vstd::prelude::*;

verus! {

/// Direction of a one-step scroll through the log.
#[derive(Clone, Copy, Debug, PartialEq, Eq, Structural)]
pub enum ScrollDir {
    /// Towards older entries.
    Up,
    /// Towards the live line.
    Down,
}

/// Names one half of an entry, counted from the newest entry, which is number 0.
#[derive(Clone, Copy, Debug, PartialEq, Eq, Structural)]
pub enum HistoryEntry {
    Query(usize),
    Value(usize),
}

/// One answered query: what was asked and what came out.
pub struct EntryView {
    pub query: Seq<char>,
    pub value: Seq<char>,
}

/// What a `Queries` stands for.
pub struct QueriesView {
    /// The entries, oldest first.
    pub entries: Seq<EntryView>,
    /// 0 while the live line is shown; `n > 0` while the `n`-th newest entry is shown.
    pub pos: nat,
    /// The live line as it was when scrolling began.
    pub stash: Option<Seq<char>>,
}

impl QueriesView {
    /// The log with nothing in it, not scrolling.
    pub open spec fn empty() -> QueriesView {
        QueriesView { entries: Seq::empty(), pos: 0, stash: None }
    }

    /// The scroll position lies within the log.
    pub open spec fn wf(self) -> bool {
        self.pos <= self.entries.len()
    }

    /// A stashed line exists only while scrolling.
    pub open spec fn stash_only_while_scrolling(self) -> bool {
        self.stash is Some ==> self.pos > 0
    }

    /// The entry that is `n` steps back from the newest.
    pub open spec fn from_newest(self, n: int) -> EntryView
        recommends
            0 <= n < self.entries.len(),
    {
        self.entries[self.entries.len() - 1 - n]
    }

    /// The position one step in direction `dir`, kept within `0..=entries.len()`.
    pub open spec fn shift(self, dir: ScrollDir) -> QueriesView {
        let pos: nat = match dir {
            ScrollDir::Up => if self.pos < self.entries.len() {
                self.pos + 1
            } else {
                self.entries.len()
            },
            ScrollDir::Down => if self.pos > 0 {
                (self.pos - 1) as nat
            } else {
                0
            },
        };
        QueriesView { pos, ..self }
    }

    /// The query under the scroll position; `None` while not scrolling.
    pub open spec fn current(self) -> Option<Seq<char>> {
        if self.pos == 0 {
            None
        } else {
            Some(self.from_newest(self.pos - 1).query)
        }
    }

    /// Remembers `text` unless a line is remembered already.
    pub open spec fn store(self, text: Seq<char>) -> QueriesView {
        match self.stash {
            None => QueriesView { stash: Some(text), ..self },
            Some(_) => self,
        }
    }

    /// Forgets the remembered line.
    pub open spec fn without_stash(self) -> QueriesView {
        QueriesView { stash: None, ..self }
    }

    /// Back to the live line: position 0, nothing remembered.
    pub open spec fn scroll_reset(self) -> QueriesView {
        QueriesView { pos: 0, stash: None, ..self }
    }

    /// The log with one more entry at its newest end.
    pub open spec fn archive(self, query: Seq<char>, value: Seq<char>) -> QueriesView {
        QueriesView { entries: self.entries.push(EntryView { query, value }), ..self }
    }
}

/// The line that shows one entry: a line break, a space, the query, `" = "`, the value.
pub open spec fn entry_line(e: EntryView) -> Seq<char> {
    seq!['\n', ' '] + e.query + seq![' ', '=', ' '] + e.value
}

/// The answered queries of a session, with the scroll state over them.
#[derive(Debug)]
pub struct Queries {
    contents: Vec<(String, String)>,
    pos: usize,
    temp: Option<String>,
}

impl View for Queries {
    type V = QueriesView;

    closed spec fn view(&self) -> QueriesView {
        QueriesView {
            entries: Seq::new(
                self.contents@.len(),
                |i: int| EntryView { query: self.contents@[i].0@, value: self.contents@[i].1@ },
            ),
            pos: self.pos as nat,
            stash: match self.temp {
                Some(s) => Some(s@),
                None => None,
            },
        }
    }
}

impl Default for Queries {
    fn default() -> (r: Queries)
        ensures
            r@ == QueriesView::empty(),
    {
        let r = Queries { contents: Vec::new(), pos: 0, temp: None };
        assert(r@.entries =~= Seq::empty());
        r
    }
}

impl Queries {
    /// Remembers `s` as the live line, unless one is remembered already.
    pub fn try_store(&mut self, s: String)
        ensures
            final(self)@ == old(self)@.store(s@),
    {
        match self.temp {
            None => self.temp = Some(s),
            Some(_) => (),
        };
    }

    /// Hands out the remembered line and forgets it.
    pub fn try_restore(&mut self) -> (r: Option<String>)
        ensures
            final(self)@ == old(self)@.without_stash(),
            match r {
                Some(s) => old(self)@.stash == Some(s@),
                None => old(self)@.stash is None,
            },
    {
        self.temp.take()
    }

    /// Scrolls one step; stops at the oldest entry and at the live line.
    pub fn shift(&mut self, dir: ScrollDir)
        ensures
            final(self)@ == old(self)@.shift(dir),
            old(self)@.wf() ==> final(self)@.wf(),
    {
        let max_len = self.contents.len();
        self.pos = match dir {
            ScrollDir::Up => if self.pos < max_len {
                self.pos + 1
            } else {
                max_len
            },
            ScrollDir::Down => if self.pos > 0 {
                self.pos - 1
            } else {
                0
            },
        };
    }

    /// Leaves scrolling: position 0 and nothing remembered. The entries stay.
    pub fn scroll_reset(&mut self)
        ensures
            final(self)@ == old(self)@.scroll_reset(),
    {
        self.pos = 0;
        self.temp = None;
    }

    /// The query under the scroll position, or `None` while the live line is shown.
    pub fn curr(&mut self) -> (r: Option<String>)
        requires
            old(self)@.wf(),
        ensures
            final(self)@ == old(self)@,
            match r {
                Some(s) => old(self)@.current() == Some(s@),
                None => old(self)@.current() is None,
            },
    {
        match self.pos {
            0 => None,
            n => Some(self.retrieve(HistoryEntry::Query(n - 1)).clone()),
        }
    }

    /// The index, counted from the oldest entry, of the entry `index` steps back from the newest.
    fn from_end(&self, index: usize) -> (i: usize)
        requires
            index < self@.entries.len(),
        ensures
            i == self@.entries.len() - 1 - index,
    {
        self.contents.len() - index - 1
    }

    /// The chosen half of the entry that `entry` counts back to from the newest.
    pub fn retrieve(&self, entry: HistoryEntry) -> (r: &String)
        requires
            match entry {
                HistoryEntry::Query(n) => n < self@.entries.len(),
                HistoryEntry::Value(n) => n < self@.entries.len(),
            },
        ensures
            match entry {
                HistoryEntry::Query(n) => r@ == self@.from_newest(n as int).query,
                HistoryEntry::Value(n) => r@ == self@.from_newest(n as int).value,
            },
    {
        match entry {
            HistoryEntry::Query(n) => &self.contents[self.from_end(n)].0,
            HistoryEntry::Value(n) => &self.contents[self.from_end(n)].1,
        }
    }

    /// Appends the answered query `input` with its result `output`.
    pub fn archive(&mut self, input: String, output: String)
        ensures
            final(self)@ == old(self)@.archive(input@, output@),
            old(self)@.wf() ==> final(self)@.wf(),
    {
        self.contents.push((input, output));
        assert(self@.entries =~= old(self)@.entries.push(
            EntryView { query: input@, value: output@ },
        ));
    }

    /// One display line per entry, newest first.
    pub fn render_all(&self) -> (lines: Vec<String>)
        ensures
            lines@.len() == self@.entries.len(),
            forall|i: int|
                0 <= i < lines@.len() ==> (#[trigger] lines@[i])@ == entry_line(
                    self@.from_newest(i),
                ),
    {
        let mut lines: Vec<String> = Vec::new();
        let n = self.contents.len();
        let mut k: usize = 0;
        while k < n
            invariant
                n == self.contents@.len(),
                k <= n,
                lines@.len() == k,
                forall|i: int|
                    0 <= i < k ==> (#[trigger] lines@[i])@ == entry_line(self@.from_newest(i)),
            decreases n - k,
        {
            let pair = &self.contents[n - 1 - k];
            let mut line = String::new();
            line.push('\n');
            line.push(' ');
            line.append(pair.0.as_str());
            line.push(' ');
            line.push('=');
            line.push(' ');
            line.append(pair.1.as_str());
            assert(line@ =~= entry_line(self@.from_newest(k as int)));
            lines.push(line);
            k += 1;
        }
        lines
    }

    /// The scroll position: 0 on the live line, `n` on the `n`-th newest entry.
    pub fn get_pos(&self) -> (pos: usize)
        ensures
            pos == self@.pos,
    {
        self.pos
    }
}

} // verus!
