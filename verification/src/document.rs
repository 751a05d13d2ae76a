//! The text that the editor works on: rows of characters and the document that holds them.

use vstd::prelude::*;
use crate::text::{chars_of, string_from, string_of};

verus! {

/// One line of text, addressed by character.
///
/// The view of a row is the sequence of its characters.
#[derive(Debug, PartialEq, Eq)]
pub struct Row {
    chars: Vec<char>,
}

impl View for Row {
    type V = Seq<char>;

    closed spec fn view(&self) -> Seq<char> {
        self.chars@
    }
}

/// The characters of `line` in the half-open range `[start, end)`, with both ends brought
/// back into the line first. A range that ends before it starts is empty.
pub open spec fn visible_part(line: Seq<char>, start: int, end: int) -> Seq<char> {
    let stop = if end < line.len() { end } else { line.len() as int };
    let first = if start < stop { start } else { stop };
    if 0 <= first <= stop {
        line.subrange(first, stop)
    } else {
        Seq::empty()
    }
}

impl Row {
    /// A row without characters.
    pub fn new() -> (row: Row)
        ensures
            row@ == Seq::<char>::empty(),
    {
        Row { chars: Vec::new() }
    }

    /// The row that holds the characters of `text`.
    pub fn from(text: &str) -> (row: Row)
        ensures
            row@ == text@,
    {
        Row { chars: chars_of(text) }
    }

    /// The row that holds `chars`.
    pub fn from_chars(chars: Vec<char>) -> (row: Row)
        ensures
            row@ == chars@,
    {
        Row { chars }
    }

    /// The length of a row fits the machine's word.
    pub proof fn lemma_len_fits(&self)
        ensures
            self@.len() <= usize::MAX,
    {
        assert(self.chars.len() == self.chars@.len());
    }

    /// The number of characters in the row.
    pub fn len(&self) -> (n: usize)
        ensures
            n == self@.len(),
    {
        self.chars.len()
    }

    /// Whether the row holds no character.
    pub fn is_empty(&self) -> (empty: bool)
        ensures
            empty == (self@.len() == 0),
    {
        self.chars.len() == 0
    }

    /// The character in column `index`, if the row is that long.
    pub fn get(&self, index: usize) -> (c: Option<char>)
        ensures
            c == (if index < self@.len() { Some(self@[index as int]) } else { None }),
    {
        if index < self.chars.len() {
            Some(self.chars[index])
        } else {
            None
        }
    }

    /// The whole row as a string.
    pub fn contents(&self) -> (text: String)
        ensures
            text@ == self@,
    {
        string_from(&self.chars)
    }

    /// The part of the row that lies in the columns `[start, end)`.
    pub fn render(&self, start: usize, end: usize) -> (text: String)
        ensures
            text@ == visible_part(self@, start as int, end as int),
    {
        let stop = if end < self.chars.len() { end } else { self.chars.len() };
        let first = if start < stop { start } else { stop };
        string_of(&self.chars, first, stop)
    }
}

impl Clone for Row {
    /// A copy of the row.
    fn clone(&self) -> (row: Row)
        ensures
            row@ == self@,
    {
        let mut chars: Vec<char> = Vec::new();
        let mut i: usize = 0;
        while i < self.chars.len()
            invariant
                i <= self.chars.len(),
                chars@ == self.chars@.take(i as int),
            decreases self.chars.len() - i,
        {
            chars.push(self.chars[i]);
            i += 1;
        }
        Row { chars }
    }
}

impl Default for Row {
    /// A row without characters.
    fn default() -> (row: Row)
        ensures
            row@ == Seq::<char>::empty(),
    {
        Row { chars: Vec::new() }
    }
}

/// The lines of a text, in order.
///
/// The view of a document is the sequence of the views of its rows.
#[derive(Debug, PartialEq, Eq)]
pub struct Document {
    rows: Vec<Row>,
}

impl View for Document {
    type V = Seq<Seq<char>>;

    closed spec fn view(&self) -> Seq<Seq<char>> {
        Seq::new(self.rows@.len(), |i: int| self.rows@[i]@)
    }
}

/// The length of line `y` of `lines`; a line that is not there counts as empty.
pub open spec fn width_at(lines: Seq<Seq<char>>, y: int) -> int {
    if 0 <= y < lines.len() {
        lines[y].len() as int
    } else {
        0
    }
}

impl Clone for Document {
    /// A copy of the document.
    fn clone(&self) -> (document: Document)
        ensures
            document@ == self@,
    {
        let mut rows: Vec<Row> = Vec::new();
        let mut i: usize = 0;
        while i < self.rows.len()
            invariant
                i <= self.rows.len(),
                rows@.len() == i,
                forall|j: int| 0 <= j < i ==> (#[trigger] rows@[j])@ == self.rows@[j]@,
            decreases self.rows.len() - i,
        {
            rows.push(self.rows[i].clone());
            i += 1;
        }
        let document = Document { rows };
        document
    }
}

impl Default for Document {
    /// A document without lines.
    fn default() -> (document: Document)
        ensures
            document@ == Seq::<Seq<char>>::empty(),
    {
        Document::new()
    }
}

impl Document {
    /// A document without lines.
    pub fn new() -> (document: Document)
        ensures
            document@ == Seq::<Seq<char>>::empty(),
    {
        let document = Document { rows: Vec::new() };
        document
    }

    /// Adds `row` as the last line.
    pub fn push(&mut self, row: Row)
        ensures
            final(self)@ == old(self)@.push(row@),
    {
        self.rows.push(row);
    }

    /// The number of lines fits the machine's word.
    pub proof fn lemma_len_fits(&self)
        ensures
            self@.len() <= usize::MAX,
    {
        assert(self.rows.len() == self.rows@.len());
    }

    /// The number of lines.
    pub fn len(&self) -> (n: usize)
        ensures
            n == self@.len(),
    {
        self.rows.len()
    }

    /// Whether the document has no line.
    pub fn is_empty(&self) -> (empty: bool)
        ensures
            empty == (self@.len() == 0),
    {
        self.rows.len() == 0
    }

    /// Line `index`, if the document has one.
    pub fn row(&self, index: usize) -> (row: Option<&Row>)
        ensures
            index < self@.len() ==> row.is_some() && row.unwrap()@ == self@[index as int],
            index >= self@.len() ==> row.is_none(),
    {
        if index < self.rows.len() {
            Some(&self.rows[index])
        } else {
            None
        }
    }

    /// The length of line `y`, or 0 where the document has no such line.
    pub fn width(&self, y: usize) -> (w: usize)
        ensures
            w == width_at(self@, y as int),
    {
        match self.row(y) {
            Some(row) => row.len(),
            None => 0,
        }
    }
}

} // verus!
