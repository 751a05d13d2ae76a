//! Panels: bordered boxes with a list of commands or a line to type into, as rows of text
//! and as steps of painting for a terminal to carry out.

use vstd::prelude::*;
use crate::document::Row;
use crate::editor::Position;
use crate::text::{push_chars, push_repeated, push_str, run_of, string_from};

verus! {

/// One step of painting on the terminal.
#[derive(Debug, PartialEq, Eq)]
pub enum Draw {
    /// Hide the cursor.
    Hide,
    /// Show the cursor.
    Show,
    /// Move the cursor to the given column and row.
    MoveTo(u16, u16),
    /// Print the text where the cursor stands.
    Print(String),
}

/// One step of painting, as mathematical values.
pub enum Stroke {
    Hide,
    Show,
    MoveTo(int, int),
    Print(Seq<char>),
}

impl View for Draw {
    type V = Stroke;

    open spec fn view(&self) -> Stroke {
        match self {
            Draw::Hide => Stroke::Hide,
            Draw::Show => Stroke::Show,
            Draw::MoveTo(x, y) => Stroke::MoveTo(*x as int, *y as int),
            Draw::Print(text) => Stroke::Print(text@),
        }
    }
}

/// The steps `commands` as mathematical values.
pub open spec fn strokes(commands: Seq<Draw>) -> Seq<Stroke> {
    Seq::new(commands.len(), |i: int| commands[i]@)
}

/// The rows `rows` as sequences of characters.
pub open spec fn texts(rows: Seq<Row>) -> Seq<Seq<char>> {
    Seq::new(rows.len(), |i: int| rows[i]@)
}

/// The names of the commands that a panel lists, from the top.
pub open spec fn command_names() -> Seq<Seq<char>> {
    seq!["Save file"@, "Quit"@]
}

/// What line `k` of a panel's list says: the name of command `k`, or nothing where the list
/// has ended.
pub open spec fn entry(k: int) -> Seq<char> {
    if 0 <= k < command_names().len() {
        command_names()[k]
    } else {
        Seq::empty()
    }
}

/// A horizontal border `width` cells wide: dashes between two corners.
pub open spec fn border_line(width: int) -> Seq<char> {
    "+"@ + run_of('-', width - 2) + "+"@
}

/// Line `k` of a list `width` cells wide without its walls: the entry, and blanks up to the
/// right wall.
pub open spec fn open_row(width: int, k: int) -> Seq<char> {
    entry(k) + run_of(' ', width - 2 - entry(k).len())
}

/// Line `k` of a list `width` cells wide between its walls.
pub open spec fn framed_row(width: int, k: int) -> Seq<char> {
    "|"@ + open_row(width, k) + "|"@
}

/// The line of a text box `width` cells wide that holds `text` behind a prompt.
pub open spec fn text_box_line(width: int, text: Seq<char>) -> Seq<char> {
    "|-> "@ + text + run_of(' ', width - 5 - text.len()) + "|"@
}

/// What `string` holds, or nothing.
pub open spec fn typed_text(string: Option<String>) -> Seq<char> {
    match string {
        Some(text) => text@,
        None => Seq::empty(),
    }
}

/// There are two commands, and their names are 9 and 4 characters long.
pub proof fn lemma_command_names()
    ensures
        command_names().len() == 2,
        entry(0).len() == 9,
        entry(1).len() == 4,
        forall|k: int| k < 0 || k >= 2 ==> (#[trigger] entry(k)).len() == 0,
{
    reveal_strlit("Save file");
    reveal_strlit("Quit");
}

/// A rectangular panel on the screen, from column `x1` to column `x2` and from row `y1` to
/// row `y2`, with the rows of text that were painted into it.
#[derive(Debug, PartialEq, Eq)]
pub struct Window {
    /// The panel's title.
    pub name: String,
    /// The column of the left edge.
    pub x1: u16,
    /// The column of the right edge.
    pub x2: u16,
    /// The row of the top edge.
    pub y1: u16,
    /// The row of the bottom edge.
    pub y2: u16,
    /// The lines painted into the panel so far.
    pub rows: Vec<Row>,
    /// Where the user types.
    pub cursor_position: Position,
    /// What the user has typed into the text box, if anything.
    pub string: Option<String>,
    /// Whether the cursor has left the place where the text box put it.
    pub cur_moved: bool,
}

impl Clone for Window {
    /// A copy of the panel, with copies of its rows.
    fn clone(&self) -> (window: Window)
        ensures
            window.same_panel(self),
            texts(window.rows@) == texts(self.rows@),
    {
        let mut rows: Vec<Row> = Vec::new();
        let mut i: usize = 0;
        while i < self.rows.len()
            invariant
                i <= self.rows.len(),
                rows@.len() == i,
                forall|j: int| 0 <= j < i ==> (#[trigger] rows@[j])@ == self.rows@[j]@,
            decreases self.rows.len() - i,
        {
            rows.push(self.rows[i].clone());
            i += 1;
        }
        let string = match &self.string {
            Some(text) => Some(text.clone()),
            None => None,
        };
        Window {
            name: self.name.clone(),
            x1: self.x1,
            x2: self.x2,
            y1: self.y1,
            y2: self.y2,
            rows,
            cursor_position: self.cursor_position,
            string,
            cur_moved: self.cur_moved,
        }
    }
}

impl Default for Window {
    /// A panel without a name, of no extent.
    fn default() -> (window: Window)
        ensures
            window.name@ == Seq::<char>::empty(),
            window.x1 == 0 && window.x2 == 0 && window.y1 == 0 && window.y2 == 0,
            window.rows@.len() == 0,
            window.cursor_position == (Position { x: 0, y: 0 }),
            window.string.is_none(),
            !window.cur_moved,
    {
        Window::new(String::new(), 0, 0, 0, 0)
    }
}

impl Window {
    /// An empty panel called `name` from column `x1` to column `x2` and from row `y1` to
    /// row `y2`.
    pub fn new(name: String, x1: u16, x2: u16, y1: u16, y2: u16) -> (window: Window)
        ensures
            window.name == name,
            window.x1 == x1 && window.x2 == x2 && window.y1 == y1 && window.y2 == y2,
            window.rows@.len() == 0,
            window.cursor_position == (Position { x: 0, y: 0 }),
            window.string.is_none(),
            !window.cur_moved,
    {
        Window {
            name,
            x1,
            x2,
            y1,
            y2,
            rows: Vec::new(),
            cursor_position: Position { x: 0, y: 0 },
            string: None,
            cur_moved: false,
        }
    }

    /// The number of cells from the left edge to the right edge.
    pub open spec fn width(&self) -> int {
        self.x2 - self.x1
    }

    /// The number of lines of the list: the rows between the top border, on row `y1`, and
    /// the bottom border, on row `y2 - 2`.
    pub open spec fn list_lines(&self) -> int {
        if self.y2 - 2 > self.y1 + 1 {
            self.y2 - 2 - (self.y1 + 1)
        } else {
            0
        }
    }

    /// Whether `other` is this panel but for the rows painted into it.
    pub open spec fn same_panel(&self, other: &Window) -> bool {
        &&& self.name == other.name
        &&& self.x1 == other.x1
        &&& self.x2 == other.x2
        &&& self.y1 == other.y1
        &&& self.y2 == other.y2
        &&& self.cursor_position == other.cursor_position
        &&& self.string == other.string
        &&& self.cur_moved == other.cur_moved
    }

    /// Whether the panel has room for a text box: two cells for the corners, five for the
    /// prompt and the walls around the typed text, and a row above the bottom one.
    pub open spec fn holds_text_box(&self) -> bool {
        &&& self.width() >= 5 + typed_text(self.string).len()
        &&& self.y2 >= 1
    }

    /// Whether the panel has room for a list: two cells for the corners, two rows for the
    /// bottom border, a row below the top border, and in every line of the list the entry
    /// between the walls.
    pub open spec fn holds_list(&self) -> bool {
        &&& self.width() >= 2
        &&& self.y2 >= 2
        &&& self.y1 < u16::MAX
        &&& forall|k: int| 0 <= k < self.list_lines() ==> self.width() >= 2 + (#[trigger] entry(k)).len()
    }

    /// The lines of the text box, from its border inwards.
    pub open spec fn text_box_rows(&self) -> Seq<Seq<char>> {
        seq![border_line(self.width()), text_box_line(self.width(), typed_text(self.string))]
    }

    /// The steps that paint the text box and leave the cursor in column `x` of it.
    pub open spec fn text_box_strokes(&self, x: int) -> Seq<Stroke> {
        seq![
            Stroke::Show,
            Stroke::MoveTo(self.x1 as int, self.y2 as int),
            Stroke::Print(border_line(self.width())),
            Stroke::MoveTo(self.x1 as int, self.y2 - 1),
            Stroke::Print(text_box_line(self.width(), typed_text(self.string))),
            Stroke::MoveTo(x, self.y2 - 1),
        ]
    }

    /// The first `k` lines of the list between their walls.
    pub open spec fn framed_rows(&self, k: int) -> Seq<Seq<char>> {
        Seq::new(if k > 0 { k as nat } else { 0 }, |j: int| framed_row(self.width(), j))
    }

    /// The first `k` lines of the list without their walls.
    pub open spec fn open_rows(&self, k: int) -> Seq<Seq<char>> {
        Seq::new(if k > 0 { k as nat } else { 0 }, |j: int| open_row(self.width(), j))
    }

    /// The steps that paint the first `k` lines of the list between their walls.
    pub open spec fn framed_rows_strokes(&self, k: int) -> Seq<Stroke>
        decreases k,
    {
        if k <= 0 {
            Seq::empty()
        } else {
            self.framed_rows_strokes(k - 1) + seq![
                Stroke::MoveTo(self.x1 as int, self.y1 + k),
                Stroke::Print(framed_row(self.width(), k - 1)),
            ]
        }
    }

    /// The steps that paint the first `k` lines of the list, each wall by itself.
    pub open spec fn open_rows_strokes(&self, k: int) -> Seq<Stroke>
        decreases k,
    {
        if k <= 0 {
            Seq::empty()
        } else {
            self.open_rows_strokes(k - 1) + seq![
                Stroke::MoveTo(self.x1 as int, self.y1 + k),
                Stroke::Print("|"@),
                Stroke::MoveTo(self.x1 + 1, self.y1 + k),
                Stroke::Print(open_row(self.width(), k - 1)),
                Stroke::Print("|"@),
            ]
        }
    }

    /// The steps that paint the panel's border and its list: the top and the bottom border
    /// with the cursor hidden, the lines of the list from the top, then the cursor shown.
    pub open spec fn border_strokes(&self) -> Seq<Stroke> {
        seq![
            Stroke::Hide,
            Stroke::MoveTo(self.x1 as int, self.y1 as int),
            Stroke::Print(border_line(self.width())),
            Stroke::MoveTo(self.x1 as int, self.y2 - 2),
            Stroke::Print(border_line(self.width())),
        ] + self.framed_rows_strokes(self.list_lines()) + seq![Stroke::Show]
    }

    /// The steps that paint the command panel: the top border with the cursor hidden, the
    /// cursor sent to the bottom border's row and back, the lines of the list from the top,
    /// then the cursor shown.
    pub open spec fn command_window_strokes(&self) -> Seq<Stroke> {
        seq![
            Stroke::Hide,
            Stroke::MoveTo(self.x1 as int, self.y1 as int),
            Stroke::Print(border_line(self.width())),
            Stroke::MoveTo(self.x1 as int, self.y2 - 2),
            Stroke::MoveTo(self.x1 as int, self.y1 as int),
        ] + self.open_rows_strokes(self.list_lines()) + seq![Stroke::Show]
    }

    /// Whether the panel has room for a text box.
    pub fn fits_text_box(&self) -> (fits: bool)
        ensures
            fits == self.holds_text_box(),
    {
        let typed = match &self.string {
            Some(text) => text.as_str().unicode_len(),
            None => 0,
        };
        self.y2 >= 1 && self.x2 >= self.x1 && (self.x2 - self.x1) as usize >= 5 && (self.x2
            - self.x1) as usize - 5 >= typed
    }

    /// Whether the panel has room for a list.
    pub fn fits_list(&self) -> (fits: bool)
        ensures
            fits == self.holds_list(),
    {
        proof {
            lemma_command_names();
        }
        if self.x2 < self.x1 || self.x2 - self.x1 < 2 || self.y2 < 2 || self.y1 == u16::MAX {
            return false;
        }
        let width = self.x2 - self.x1;
        let lines = if self.y2 - 2 > self.y1 + 1 { self.y2 - 2 - (self.y1 + 1) } else { 0 };
        if lines == 0 {
            true
        } else {
            let longest = match command_name(0) {
                Some(name) => name.unicode_len(),
                None => 0,
            };
            width as usize >= 2 + longest
        }
    }

    /// Paints a text box over the panel's two bottom rows, with the typed text behind a
    /// prompt, and leaves the cursor in column `x` of it, or right behind the prompt where
    /// no column is given. The lines of the box are added to the panel's rows.
    pub fn draw_text_box(&mut self, x: Option<u16>) -> (commands: Vec<Draw>)
        requires
            old(self).holds_text_box(),
        ensures
            final(self).same_panel(old(self)),
            texts(final(self).rows@) == texts(old(self).rows@) + old(self).text_box_rows(),
            strokes(commands@) == old(self).text_box_strokes(
                match x {
                    Some(column) => column as int,
                    None => old(self).x1 + 4,
                },
            ),
    {
        let x1 = self.x1;
        let x2 = self.x2;
        let y2 = self.y2;
        let border = horizontal_border(x2 - x1);
        let mut line: Vec<char> = Vec::new();
        push_str(&mut line, "|-> ");
        match &self.string {
            Some(text) => {
                let typed = text.as_str();
                let len = typed.unicode_len();
                push_str(&mut line, typed);
                push_repeated(&mut line, ' ', (x2 - x1) as usize - len - 5);
            },
            None => {
                push_repeated(&mut line, ' ', (x2 - x1 - 5) as usize);
            },
        }
        push_str(&mut line, "|");
        let column = match x {
            Some(column) => column,
            None => x1 + 4,
        };
        let mut commands: Vec<Draw> = Vec::new();
        commands.push(Draw::Show);
        commands.push(Draw::MoveTo(x1, y2));
        commands.push(Draw::Print(string_from(&border)));
        commands.push(Draw::MoveTo(x1, y2 - 1));
        commands.push(Draw::Print(string_from(&line)));
        commands.push(Draw::MoveTo(column, y2 - 1));
        self.rows.push(Row::from_chars(border));
        self.rows.push(Row::from_chars(line));
        commands
    }

    /// Paints the panel's border and, between the walls, its list of commands. The lines
    /// of the list are added to the panel's rows.
    pub fn draw_border(&mut self) -> (commands: Vec<Draw>)
        requires
            old(self).holds_list(),
        ensures
            final(self).same_panel(old(self)),
            texts(final(self).rows@) == texts(old(self).rows@) + old(self).framed_rows(
                old(self).list_lines(),
            ),
            strokes(commands@) == old(self).border_strokes(),
    {
        let x1 = self.x1;
        let x2 = self.x2;
        let y1 = self.y1;
        let y2 = self.y2;
        let border = horizontal_border(x2 - x1);
        let mut commands: Vec<Draw> = Vec::new();
        commands.push(Draw::Hide);
        commands.push(Draw::MoveTo(x1, y1));
        commands.push(Draw::Print(string_from(&border)));
        commands.push(Draw::MoveTo(x1, y2 - 2));
        commands.push(Draw::Print(string_from(&border)));
        let ghost head = strokes(commands@);
        let mut y: u16 = y1 + 1;
        let mut num: usize = 0;
        while y < y2 - 2
            invariant
                self.same_panel(old(self)),
                old(self).holds_list(),
                x1 == self.x1 && x2 == self.x2 && y1 == self.y1 && y2 == self.y2,
                y == y1 + 1 + num,
                0 <= num <= self.list_lines(),
                y < y2 - 2 ==> num < self.list_lines(),
                texts(self.rows@) == texts(old(self).rows@) + old(self).framed_rows(num as int),
                strokes(commands@) == head + old(self).framed_rows_strokes(num as int),
            decreases y2 - 2 - y,
        {
            let ghost before = commands@;
            let ghost rows_before = self.rows@;
            let text = list_row(x2 - x1, num);
            let mut line: Vec<char> = Vec::new();
            push_str(&mut line, "|");
            push_chars(&mut line, &text);
            push_str(&mut line, "|");
            commands.push(Draw::MoveTo(x1, y));
            commands.push(Draw::Print(string_from(&line)));
            self.rows.push(Row::from_chars(line));
            proof {
                assert(strokes(commands@) =~= strokes(before) + seq![
                    Stroke::MoveTo(x1 as int, y as int),
                    Stroke::Print(framed_row(self.width(), num as int)),
                ]);
                assert(texts(self.rows@) =~= texts(rows_before).push(
                    framed_row(self.width(), num as int),
                ));
            }
            y += 1;
            num += 1;
        }
        commands.push(Draw::Show);
        proof {
            assert(head =~= seq![
                Stroke::Hide,
                Stroke::MoveTo(x1 as int, y1 as int),
                Stroke::Print(border_line(self.width())),
                Stroke::MoveTo(x1 as int, y2 - 2),
                Stroke::Print(border_line(self.width())),
            ]);
        }
        commands
    }

    /// Paints the command panel: its top border and, wall by wall, its list of commands.
    /// The lines of the list are added to the panel's rows, without their walls.
    pub fn draw_command_window(&mut self) -> (commands: Vec<Draw>)
        requires
            old(self).holds_list(),
        ensures
            final(self).same_panel(old(self)),
            texts(final(self).rows@) == texts(old(self).rows@) + old(self).open_rows(
                old(self).list_lines(),
            ),
            strokes(commands@) == old(self).command_window_strokes(),
    {
        let x1 = self.x1;
        let x2 = self.x2;
        let y1 = self.y1;
        let y2 = self.y2;
        let border = horizontal_border(x2 - x1);
        let mut commands: Vec<Draw> = Vec::new();
        commands.push(Draw::Hide);
        commands.push(Draw::MoveTo(x1, y1));
        commands.push(Draw::Print(string_from(&border)));
        commands.push(Draw::MoveTo(x1, y2 - 2));
        commands.push(Draw::MoveTo(x1, y1));
        let ghost head = strokes(commands@);
        let mut y: u16 = y1 + 1;
        let mut num: usize = 0;
        while y < y2 - 2
            invariant
                self.same_panel(old(self)),
                old(self).holds_list(),
                x1 == self.x1 && x2 == self.x2 && y1 == self.y1 && y2 == self.y2,
                y == y1 + 1 + num,
                0 <= num <= self.list_lines(),
                y < y2 - 2 ==> num < self.list_lines(),
                texts(self.rows@) == texts(old(self).rows@) + old(self).open_rows(num as int),
                strokes(commands@) == head + old(self).open_rows_strokes(num as int),
            decreases y2 - 2 - y,
        {
            let ghost before = commands@;
            let ghost rows_before = self.rows@;
            let text = list_row(x2 - x1, num);
            commands.push(Draw::MoveTo(x1, y));
            commands.push(Draw::Print(String::from_str("|")));
            commands.push(Draw::MoveTo(x1 + 1, y));
            commands.push(Draw::Print(string_from(&text)));
            commands.push(Draw::Print(String::from_str("|")));
            self.rows.push(Row::from_chars(text));
            proof {
                assert(strokes(commands@) =~= strokes(before) + seq![
                    Stroke::MoveTo(x1 as int, y as int),
                    Stroke::Print("|"@),
                    Stroke::MoveTo(x1 + 1, y as int),
                    Stroke::Print(open_row(self.width(), num as int)),
                    Stroke::Print("|"@),
                ]);
                assert(texts(self.rows@) =~= texts(rows_before).push(
                    open_row(self.width(), num as int),
                ));
            }
            y += 1;
            num += 1;
        }
        commands.push(Draw::Show);
        proof {
            assert(head =~= seq![
                Stroke::Hide,
                Stroke::MoveTo(x1 as int, y1 as int),
                Stroke::Print(border_line(self.width())),
                Stroke::MoveTo(x1 as int, y2 - 2),
                Stroke::MoveTo(x1 as int, y1 as int),
            ]);
        }
        commands
    }
}

/// The name of command `num` of the list, if the list is that long.
pub fn command_name(num: usize) -> (name: Option<&'static str>)
    ensures
        num < command_names().len() ==> name.is_some() && name.unwrap()@ == entry(num as int),
        num >= command_names().len() ==> name.is_none(),
{
    if num == 0 {
        Some("Save file")
    } else if num == 1 {
        Some("Quit")
    } else {
        None
    }
}

/// A horizontal border `width` cells wide.
pub fn horizontal_border(width: u16) -> (line: Vec<char>)
    requires
        width >= 2,
    ensures
        line@ == border_line(width as int),
{
    let mut line: Vec<char> = Vec::new();
    push_str(&mut line, "+");
    push_repeated(&mut line, '-', (width - 2) as usize);
    push_str(&mut line, "+");
    line
}

/// Line `num` of a list `width` cells wide, without its walls.
pub fn list_row(width: u16, num: usize) -> (line: Vec<char>)
    requires
        width >= 2 + entry(num as int).len(),
    ensures
        line@ == open_row(width as int, num as int),
{
    let mut line: Vec<char> = Vec::new();
    match command_name(num) {
        Some(name) => {
            let len = name.unicode_len();
            push_str(&mut line, name);
            push_repeated(&mut line, ' ', width as usize - len - 2);
        },
        None => {
            push_repeated(&mut line, ' ', (width - 2) as usize);
        },
    }
    line
}

} // verus!
