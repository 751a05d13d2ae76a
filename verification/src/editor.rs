//! The editor's state and what a key press does to it: the modes, the cursor, the part of
//! the text on the screen, and what the screen shows.

use vstd::prelude::*;
use crate::document::{visible_part, width_at, Document, Row};
use crate::key::Key;
use crate::motion::{in_text, lemma_motion_stays_in_text, motion, move_cursor};
use crate::text::{push_chars, push_repeated, push_str, run_of, string_of};
use crate::viewport::{lemma_scroll_contains, scroll_axis, scroll_to};

verus! {

/// The version that the welcome banner shows.
pub const VERSION: &'static str = "0.1.0";

/// How the editor reads the next key.
#[derive(Clone, Copy, Debug, PartialEq, Eq, Structural)]
pub enum Mode {
    /// Keys are text to be inserted.
    Insert,
    /// Keys are motions of the cursor.
    Normal,
    /// Keys spell a command.
    Command,
}

/// A place in a text, as mathematical integers: column `x` of line `y`.
pub struct Point {
    pub x: int,
    pub y: int,
}

/// A place in a text or on the screen: column `x` of line `y`.
#[derive(Clone, Copy, Debug, PartialEq, Eq, Structural)]
pub struct Position {
    pub x: usize,
    pub y: usize,
}

impl View for Position {
    type V = Point;

    open spec fn view(&self) -> Point {
        Point { x: self.x as int, y: self.y as int }
    }
}

impl Position {
    /// The position at column `x` of line `y`.
    pub fn new(x: usize, y: usize) -> (position: Position)
        ensures
            position.x == x,
            position.y == y,
    {
        Position { x, y }
    }
}

impl Default for Position {
    /// The first column of the first line.
    fn default() -> (position: Position)
        ensures
            position.x == 0,
            position.y == 0,
    {
        Position { x: 0, y: 0 }
    }
}

/// The size of the terminal's grid, in character cells.
#[derive(Clone, Copy, Debug, PartialEq, Eq, Structural)]
pub struct Size {
    pub width: u16,
    pub height: u16,
}

/// What the terminal is to show.
#[derive(Debug, PartialEq, Eq)]
pub enum Screen {
    /// Nothing: the session is over and the screen is wiped.
    Cleared,
    /// The visible part of the text, one string for each content row from the top, then the
    /// status line, and the cell in which the cursor blinks.
    Frame { rows: Vec<String>, status: String, cursor: Position },
}

/// The state of an editor, as mathematical values.
pub struct EditorState {
    /// How the next key is read.
    pub mode: Mode,
    /// Where the cursor stands in the text.
    pub cursor: Point,
    /// The place in the text that the screen's top left cell shows.
    pub offset: Point,
    /// Whether the session is to end.
    pub should_quit: bool,
    /// The text, line by line.
    pub lines: Seq<Seq<char>>,
    /// The name of the file that the text came from.
    pub file_name: Seq<char>,
    /// The number of columns of the terminal.
    pub width: int,
    /// The number of rows of the terminal.
    pub height: int,
}

/// The banner that greets the user of an empty document.
pub open spec fn banner() -> Seq<char> {
    "Hecto -- version "@ + VERSION@
}

/// The banner as a screen row `width` cells wide: a tilde, the blanks that centre the
/// banner, the banner itself, and all of it cut to the width of the screen.
pub open spec fn welcome_line(width: int) -> Seq<char> {
    let padding = if width > banner().len() { (width - banner().len()) / 2 } else { 0 };
    let blanks = if padding > 0 { padding - 1 } else { 0 };
    let line = "~"@ + run_of(' ', blanks) + banner();
    if 0 <= width < line.len() {
        line.take(width)
    } else {
        line
    }
}

/// The name under which the status line shows `mode`.
pub open spec fn mode_name(mode: Mode) -> Seq<char> {
    match mode {
        Mode::Normal => "NORMAL"@,
        Mode::Insert => "INSERT"@,
        Mode::Command => "COMMAND"@,
    }
}

impl EditorState {
    /// The state after a change to `mode`.
    pub open spec fn with_mode(self, mode: Mode) -> EditorState {
        EditorState { mode, ..self }
    }

    /// The state after `key` was read as a motion: the cursor has moved, by as many lines as
    /// the terminal has rows where the key asks for a page.
    pub open spec fn moved(self, key: Key) -> EditorState {
        EditorState { cursor: motion(self.lines, self.cursor, key, self.height), ..self }
    }

    /// The state after `key` was read as input to the text: escape leaves for command mode,
    /// no other key has an effect.
    pub open spec fn typed(self, key: Key) -> EditorState {
        if key == Key::Esc {
            self.with_mode(Mode::Command)
        } else {
            self
        }
    }

    /// The state after `key` was handed to the handler of the current mode.
    pub open spec fn handled(self, key: Key) -> EditorState {
        if self.mode == Mode::Normal {
            self.moved(key)
        } else {
            self.typed(key)
        }
    }

    /// The state after the screen has followed the cursor.
    pub open spec fn scrolled(self) -> EditorState {
        EditorState {
            offset: Point {
                x: scroll_axis(self.cursor.x, self.offset.x, self.width),
                y: scroll_axis(self.cursor.y, self.offset.y, self.height),
            },
            ..self
        }
    }

    /// The state after `key` was pressed. Four keys mean the same in every mode and come
    /// first, in this order: control-q asks to quit, escape returns to normal mode, `i`
    /// enters insert mode and `:` enters command mode. Any other key goes to the handler of
    /// the current mode. Then the screen follows the cursor.
    pub open spec fn pressed(self, key: Key) -> EditorState {
        (if key == Key::Ctrl('q') {
            EditorState { should_quit: true, ..self }
        } else if key == Key::Esc {
            self.with_mode(Mode::Normal)
        } else if key == Key::Char('i') {
            self.with_mode(Mode::Insert)
        } else if key == Key::Char(':') {
            self.with_mode(Mode::Command)
        } else {
            self.handled(key)
        }).scrolled()
    }

    /// Whether the cursor stands in the text.
    pub open spec fn cursor_in_text(self) -> bool {
        in_text(self.lines, self.cursor)
    }

    /// Whether the cursor stands in the part of the text that the screen shows.
    pub open spec fn cursor_in_view(self) -> bool {
        &&& self.offset.x <= self.cursor.x < self.offset.x + self.width
        &&& self.offset.y <= self.cursor.y < self.offset.y + self.height
    }

    /// The cell of the screen in which the cursor blinks: its place in the text, counted
    /// from the screen's top left cell, and never before it.
    pub open spec fn screen_cursor(self) -> Point {
        Point {
            x: if self.cursor.x > self.offset.x { self.cursor.x - self.offset.x } else { 0 },
            y: if self.cursor.y > self.offset.y { self.cursor.y - self.offset.y } else { 0 },
        }
    }

    /// The number of screen rows that show text: all but one, which is left to the status
    /// line.
    pub open spec fn content_rows(self) -> int {
        if self.height > 0 {
            self.height - 1
        } else {
            0
        }
    }

    /// What one line of text looks like on the screen: the part of it that stands in the
    /// visible columns.
    pub open spec fn row_text(self, line: Seq<char>) -> Seq<char> {
        visible_part(line, self.offset.x, self.offset.x + self.width)
    }

    /// What content row `r` of the screen shows: the visible part of its line of text; on a
    /// third of the way down an empty document, the welcome banner; else a tilde.
    pub open spec fn content_row(self, r: int) -> Seq<char> {
        if 0 <= r + self.offset.y < self.lines.len() {
            self.row_text(self.lines[r + self.offset.y])
        } else if self.lines.len() == 0 && r == self.height / 3 {
            welcome_line(self.width)
        } else {
            "~"@
        }
    }

    /// The status line: the mode and the name of the file.
    pub open spec fn status_line(self) -> Seq<char> {
        "MODE: "@ + mode_name(self.mode) + " | "@ + self.file_name
    }

    /// Whether `rows` are the content rows of the screen, from the top.
    pub open spec fn shown_as(self, rows: Seq<String>) -> bool {
        &&& rows.len() == self.content_rows()
        &&& forall|r: int| 0 <= r < rows.len() ==> (#[trigger] rows[r])@ == self.content_row(r)
    }
}

/// In every mode `i` leads to insert mode.
pub proof fn lemma_i_enters_insert(s: EditorState)
    ensures
        s.pressed(Key::Char('i')).mode == Mode::Insert,
        s.pressed(Key::Char('i')).cursor == s.cursor,
{
}

/// In every mode escape leads to normal mode.
pub proof fn lemma_escape_enters_normal(s: EditorState)
    ensures
        s.pressed(Key::Esc).mode == Mode::Normal,
        s.pressed(Key::Esc).cursor == s.cursor,
{
}

/// Outside normal mode no key moves the cursor, and none but escape and `:` changes the
/// mode.
pub proof fn lemma_keys_gated_by_mode(s: EditorState, key: Key)
    requires
        s.mode != Mode::Normal,
    ensures
        s.pressed(key).cursor == s.cursor,
        s.pressed(key).lines == s.lines,
        key != Key::Esc && key != Key::Char(':') && key != Key::Char('i') ==> s.pressed(key).mode
            == s.mode,
        s.mode == Mode::Insert && key != Key::Esc && key != Key::Char(':') ==> s.pressed(key).mode
            == Mode::Insert,
{
}

/// Only control-q asks to quit, and nothing takes the request back.
pub proof fn lemma_quit_only_on_request(s: EditorState, key: Key)
    ensures
        s.pressed(key).should_quit == (s.should_quit || key == Key::Ctrl('q')),
{
}

/// A cursor that the screen shows blinks in a cell of the screen, as far from the screen's
/// top left cell as the cursor is from the place that this cell shows.
pub proof fn lemma_screen_cursor_on_screen(s: EditorState)
    requires
        s.cursor_in_view(),
    ensures
        0 <= s.screen_cursor().x < s.width,
        0 <= s.screen_cursor().y < s.height,
        s.screen_cursor().x == s.cursor.x - s.offset.x,
        s.screen_cursor().y == s.cursor.y - s.offset.y,
{
}

/// A key press leaves a cursor that stood in the text in the text.
pub proof fn lemma_pressed_keeps_cursor_in_text(s: EditorState, key: Key)
    requires
        s.cursor_in_text(),
        0 <= s.height,
    ensures
        s.pressed(key).cursor_in_text(),
{
    lemma_motion_stays_in_text(s.lines, s.cursor, key, s.height);
}

/// Once the screen has followed the cursor, a screen of at least one cell shows it.
pub proof fn lemma_scrolled_shows_cursor(s: EditorState)
    requires
        0 <= s.cursor.x <= usize::MAX,
        0 <= s.cursor.y <= usize::MAX,
        0 <= s.offset.x,
        0 <= s.offset.y,
        0 < s.width,
        0 < s.height,
    ensures
        s.scrolled().cursor_in_view(),
        s.scrolled().cursor == s.cursor,
{
    lemma_scroll_contains(s.cursor.x, s.offset.x, s.width);
    lemma_scroll_contains(s.cursor.y, s.offset.y, s.height);
}

/// After a key press a screen of at least one cell shows the cursor.
pub proof fn lemma_pressed_brings_cursor_in_view(s: EditorState, key: Key)
    requires
        s.cursor_in_text(),
        s.lines.len() <= usize::MAX,
        forall|y: int| 0 <= y < s.lines.len() ==> (#[trigger] s.lines[y]).len() <= usize::MAX,
        0 <= s.offset.x,
        0 <= s.offset.y,
        0 < s.width,
        0 < s.height,
    ensures
        s.pressed(key).cursor_in_view(),
{
    lemma_pressed_keeps_cursor_in_text(s, key);
    let t = s.pressed(key);
    lemma_scroll_contains(t.cursor.x, s.offset.x, s.width);
    lemma_scroll_contains(t.cursor.y, s.offset.y, s.height);
}

/// A modal editor's state: the text, the cursor in it, the part of it that the screen
/// shows, and the mode in which keys are read.
///
/// The cursor always stands in the text: on one of its lines or right after the last one,
/// and in a column no further than the end of that line.
#[derive(Debug)]
pub struct Editor {
    mode: Mode,
    file_name: String,
    offset: Position,
    should_quit: bool,
    document: Document,
    terminal_size: Size,
    cursor_position: Position,
}

impl View for Editor {
    type V = EditorState;

    closed spec fn view(&self) -> EditorState {
        EditorState {
            mode: self.mode,
            cursor: self.cursor_position@,
            offset: self.offset@,
            should_quit: self.should_quit,
            lines: self.document@,
            file_name: self.file_name@,
            width: self.terminal_size.width as int,
            height: self.terminal_size.height as int,
        }
    }
}

impl Editor {
    #[verifier::type_invariant]
    spec fn cursor_stands_in_text(&self) -> bool {
        in_text(self.document@, self.cursor_position@)
    }

    /// An editor on `document`, which was read from the file `file_name`, for a terminal of
    /// size `terminal_size`: in normal mode, with the cursor and the screen at the start of
    /// the text.
    pub fn new(document: Document, file_name: String, terminal_size: Size) -> (editor: Editor)
        ensures
            editor@ == (EditorState {
                mode: Mode::Normal,
                cursor: Point { x: 0, y: 0 },
                offset: Point { x: 0, y: 0 },
                should_quit: false,
                lines: document@,
                file_name: file_name@,
                width: terminal_size.width as int,
                height: terminal_size.height as int,
            }),
            editor@.cursor_in_text(),
    {
        Editor {
            mode: Mode::Normal,
            file_name,
            offset: Position { x: 0, y: 0 },
            should_quit: false,
            document,
            terminal_size,
            cursor_position: Position { x: 0, y: 0 },
        }
    }

    /// The mode in which the next key is read.
    pub fn mode(&self) -> (mode: Mode)
        ensures
            mode == self@.mode,
    {
        self.mode
    }

    /// Where the cursor stands in the text.
    pub fn cursor_position(&self) -> (position: Position)
        ensures
            position@ == self@.cursor,
            self@.cursor_in_text(),
    {
        proof {
            use_type_invariant(self);
        }
        self.cursor_position
    }

    /// The place in the text that the screen's top left cell shows.
    pub fn offset(&self) -> (offset: Position)
        ensures
            offset@ == self@.offset,
    {
        self.offset
    }

    /// Whether the session is to end.
    pub fn should_quit(&self) -> (quit: bool)
        ensures
            quit == self@.should_quit,
    {
        self.should_quit
    }

    /// The text.
    pub fn document(&self) -> (document: &Document)
        ensures
            document@ == self@.lines,
    {
        &self.document
    }

    /// The name of the file that the text came from.
    pub fn file_name(&self) -> (name: &str)
        ensures
            name@ == self@.file_name,
    {
        self.file_name.as_str()
    }

    /// The size of the terminal.
    pub fn terminal_size(&self) -> (size: Size)
        ensures
            size.width == self@.width,
            size.height == self@.height,
    {
        self.terminal_size
    }

    /// Reads the next key press: acts on it as the mode asks and lets the screen follow the
    /// cursor.
    pub fn process_keypress(&mut self, key: Key)
        ensures
            final(self)@ == old(self)@.pressed(key),
            final(self)@.cursor_in_text(),
            final(self)@.width > 0 && final(self)@.height > 0 ==> final(self)@.cursor_in_view(),
    {
        proof {
            use_type_invariant(&*self);
        }
        match key {
            Key::Ctrl('q') => {
                self.should_quit = true;
            },
            Key::Esc => {
                self.change_mode(Mode::Normal);
            },
            Key::Char('i') => {
                self.change_mode(Mode::Insert);
            },
            Key::Char(':') => {
                self.change_mode(Mode::Command);
            },
            _ => {
                self.check_mode(key);
            },
        }
        self.scroll();
        proof {
            use_type_invariant(&*self);
        }
    }

    /// Changes the mode to `change_to`.
    pub fn change_mode(&mut self, change_to: Mode)
        ensures
            final(self)@ == old(self)@.with_mode(change_to),
    {
        proof {
            use_type_invariant(&*self);
        }
        self.mode = change_to;
    }

    /// Reads `key` as a motion and moves the cursor.
    pub fn normal_mode(&mut self, key: Key)
        ensures
            final(self)@ == old(self)@.moved(key),
            final(self)@.cursor_in_text(),
    {
        proof {
            use_type_invariant(&*self);
        }
        let terminal_height = self.terminal_size.height as usize;
        let moved = move_cursor(&self.document, self.cursor_position, key, terminal_height);
        self.cursor_position = moved;
    }

    /// Reads `key` as input to the text. Only escape has an effect: it leaves for command
    /// mode.
    pub fn insert_mode(&mut self, key: Key)
        ensures
            final(self)@ == old(self)@.typed(key),
    {
        match key {
            Key::Esc => {
                self.change_mode(Mode::Command);
            },
            _ => {},
        }
    }

    /// Hands `key` to the handler of the current mode.
    pub fn check_mode(&mut self, key: Key)
        ensures
            final(self)@ == old(self)@.handled(key),
            final(self)@.cursor_in_text(),
    {
        if self.mode == Mode::Normal {
            self.normal_mode(key);
        } else {
            self.insert_mode(key);
            proof {
                use_type_invariant(&*self);
            }
        }
    }

    /// Lets the screen follow the cursor: on each axis the screen moves just far enough to
    /// show it.
    pub fn scroll(&mut self)
        ensures
            final(self)@ == old(self)@.scrolled(),
            final(self)@.width > 0 && final(self)@.height > 0 ==> final(self)@.cursor_in_view(),
    {
        proof {
            use_type_invariant(&*self);
        }
        let width = self.terminal_size.width as usize;
        let height = self.terminal_size.height as usize;
        let x = scroll_to(self.cursor_position.x, self.offset.x, width);
        let y = scroll_to(self.cursor_position.y, self.offset.y, height);
        self.offset = Position { x, y };
    }

    /// The cell of the screen in which the cursor is to blink.
    pub fn screen_cursor(&self) -> (cell: Position)
        ensures
            cell@ == self@.screen_cursor(),
    {
        Position {
            x: self.cursor_position.x.saturating_sub(self.offset.x),
            y: self.cursor_position.y.saturating_sub(self.offset.y),
        }
    }

    /// The welcome banner as a screen row.
    pub fn draw_welcome_message(&self) -> (line: String)
        ensures
            line@ == welcome_line(self@.width),
    {
        let width = self.terminal_size.width as usize;
        let mut title: Vec<char> = Vec::new();
        push_str(&mut title, "Hecto -- version ");
        push_str(&mut title, VERSION);
        let padding = width.saturating_sub(title.len()) / 2;
        let mut line: Vec<char> = Vec::new();
        push_str(&mut line, "~");
        push_repeated(&mut line, ' ', padding.saturating_sub(1));
        push_chars(&mut line, &title);
        let end = if width < line.len() { width } else { line.len() };
        string_of(&line, 0, end)
    }

    /// What `row` looks like on the screen: the part of it in the visible columns.
    pub fn draw_row(&self, row: &Row) -> (text: String)
        ensures
            text@ == self@.row_text(row@),
    {
        let width = self.terminal_size.width as usize;
        let start = self.offset.x;
        let end = self.offset.x.saturating_add(width);
        proof {
            row.lemma_len_fits();
        }
        row.render(start, end)
    }

    /// The status line.
    pub fn draw_status_bar(&self) -> (text: String)
        ensures
            text@ == self@.status_line(),
    {
        let mut text = String::from_str("MODE: ");
        match self.mode {
            Mode::Normal => {
                text.append("NORMAL");
            },
            Mode::Insert => {
                text.append("INSERT");
            },
            Mode::Command => {
                text.append("COMMAND");
            },
        }
        text.append(" | ");
        text.append(self.file_name.as_str());
        text
    }

    /// The content rows of the screen, from the top.
    pub fn draw_rows(&self) -> (rows: Vec<String>)
        ensures
            self@.shown_as(rows@),
    {
        let height = self.terminal_size.height;
        let count = height.saturating_sub(1);
        let mut rows: Vec<String> = Vec::new();
        let mut terminal_row: u16 = 0;
        while terminal_row < count
            invariant
                height == self.terminal_size.height,
                count == self@.content_rows(),
                terminal_row <= count,
                rows@.len() == terminal_row,
                forall|r: int| 0 <= r < rows@.len() ==> (#[trigger] rows@[r])@ == self@.content_row(r),
            decreases count - terminal_row,
        {
            let line = match (terminal_row as usize).checked_add(self.offset.y) {
                Some(index) => self.document.row(index),
                None => None,
            };
            proof {
                self.document.lemma_len_fits();
            }
            let text = if let Some(row) = line {
                self.draw_row(row)
            } else if self.document.is_empty() && terminal_row == height / 3 {
                self.draw_welcome_message()
            } else {
                String::from_str("~")
            };
            rows.push(text);
            terminal_row += 1;
        }
        rows
    }

    /// What the terminal is to show now: nothing more once the user has asked to quit, else
    /// the visible part of the text, the status line and the cursor.
    pub fn refresh_screen(&self) -> (screen: Screen)
        ensures
            self@.should_quit ==> screen is Cleared,
            !self@.should_quit ==> (screen matches Screen::Frame { rows, status, cursor }
                && self@.shown_as(rows@) && status@ == self@.status_line() && cursor@
                == self@.screen_cursor()),
    {
        if self.should_quit {
            Screen::Cleared
        } else {
            Screen::Frame {
                rows: self.draw_rows(),
                status: self.draw_status_bar(),
                cursor: self.screen_cursor(),
            }
        }
    }
}

} // verus!
