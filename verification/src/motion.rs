//! The motions of the cursor: where each command character takes it in a text.

use vstd::prelude::*;
use crate::document::{width_at, Document, Row};
use crate::editor::{Point, Position};
use crate::key::Key;

verus! {

/// Whether `c` belongs to a word: an ASCII letter. Every other character is a word boundary.
pub open spec fn is_word_char(c: char) -> bool {
    ('a' <= c && c <= 'z') || ('A' <= c && c <= 'Z')
}

/// The number of word characters that `s` starts with.
pub open spec fn leading_word(s: Seq<char>) -> nat
    decreases s.len(),
{
    if s.len() > 0 && is_word_char(s.first()) {
        1 + leading_word(s.drop_first())
    } else {
        0
    }
}

/// The number of word characters that `s` ends with.
pub open spec fn trailing_word(s: Seq<char>) -> nat
    decreases s.len(),
{
    if s.len() > 0 && is_word_char(s.last()) {
        1 + trailing_word(s.drop_last())
    } else {
        0
    }
}

/// How far the word-back motion goes left when `prefix` is what stands before the cursor:
/// over the word characters that `prefix` ends with and onto the boundary before them, or
/// nowhere if `prefix` holds no boundary.
pub open spec fn back_step(prefix: Seq<char>) -> nat {
    if trailing_word(prefix) == prefix.len() {
        0
    } else {
        trailing_word(prefix) + 1
    }
}

/// Line `y` of `lines`; a line that is not there counts as empty.
pub open spec fn line_at(lines: Seq<Seq<char>>, y: int) -> Seq<char> {
    if 0 <= y < lines.len() {
        lines[y]
    } else {
        Seq::empty()
    }
}

/// What stands in `line` from column `x` on; nothing where the line ends before that column.
pub open spec fn ahead(line: Seq<char>, x: int) -> Seq<char> {
    if 0 <= x <= line.len() {
        line.skip(x)
    } else {
        Seq::empty()
    }
}

/// What stands in `line` before column `x`; nothing where the line ends before that column.
pub open spec fn behind(line: Seq<char>, x: int) -> Seq<char> {
    if 0 <= x <= line.len() {
        line.take(x)
    } else {
        Seq::empty()
    }
}

/// `p` with its column brought back to the end of its line, if it was past it.
pub open spec fn clamp_to_line(lines: Seq<Seq<char>>, p: Point) -> Point {
    Point { x: if p.x > width_at(lines, p.y) { width_at(lines, p.y) } else { p.x }, y: p.y }
}

/// Where the command character `c` takes a cursor at `p`, before the column is brought back
/// into the line. `page` is the number of lines that a page motion covers.
pub open spec fn shift(lines: Seq<Seq<char>>, p: Point, c: char, page: int) -> Point {
    let height = lines.len() as int;
    let width = width_at(lines, p.y);
    if c == 'k' {
        Point { x: p.x, y: if p.y > 0 { p.y - 1 } else { 0 } }
    } else if c == 'j' {
        Point { x: p.x, y: if p.y < height { p.y + 1 } else { p.y } }
    } else if c == 'h' {
        if p.x > 0 {
            Point { x: p.x - 1, y: p.y }
        } else if p.y > 0 {
            Point { x: width_at(lines, p.y - 1), y: p.y - 1 }
        } else {
            p
        }
    } else if c == 'l' {
        if p.x < width {
            Point { x: p.x + 1, y: p.y }
        } else if p.y < height {
            Point { x: 0, y: p.y + 1 }
        } else {
            p
        }
    } else if c == 'b' {
        if p.x == 0 && p.y > 0 {
            Point { x: width_at(lines, p.y - 1), y: p.y - 1 }
        } else if 0 <= p.x <= width {
            Point { x: p.x - back_step(behind(line_at(lines, p.y), p.x)), y: p.y }
        } else {
            p
        }
    } else if c == 'w' {
        if p.x >= width && p.y < height {
            Point { x: 0, y: p.y + 1 }
        } else {
            Point { x: p.x + leading_word(ahead(line_at(lines, p.y), p.x)) + 1, y: p.y }
        }
    } else if c == 'K' {
        Point { x: p.x, y: if p.y > page { p.y - page } else { 0 } }
    } else if c == 'J' {
        Point { x: p.x, y: if p.y + page < height { p.y + page } else { height } }
    } else if c == 'g' {
        Point { x: p.x, y: 0 }
    } else if c == 'S' {
        Point { x: 0, y: p.y }
    } else if c == 's' {
        Point { x: width, y: p.y }
    } else {
        p
    }
}

/// Where `key` takes a cursor at `p` in the text `lines`: the motion that the key stands for,
/// if any, and then the column brought back into the line that the cursor has reached.
pub open spec fn motion(lines: Seq<Seq<char>>, p: Point, key: Key, page: int) -> Point {
    clamp_to_line(
        lines,
        match key {
            Key::Char(c) => shift(lines, p, c, page),
            _ => p,
        },
    )
}

/// A run of word characters at the start of `s` is no longer than `s`, it consists of word
/// characters, and what follows it, if anything, is a boundary.
pub proof fn lemma_leading_word(s: Seq<char>)
    ensures
        leading_word(s) <= s.len(),
        forall|i: int| 0 <= i < leading_word(s) ==> is_word_char(#[trigger] s[i]),
        leading_word(s) < s.len() ==> !is_word_char(s[leading_word(s) as int]),
    decreases s.len(),
{
    if s.len() > 0 && is_word_char(s.first()) {
        let rest = s.drop_first();
        lemma_leading_word(rest);
        assert forall|i: int| 0 <= i < leading_word(s) implies is_word_char(#[trigger] s[i]) by {
            if i > 0 {
                assert(s[i] == rest[i - 1]);
            }
        }
    }
}

/// A run of word characters at the end of `s` is no longer than `s`, it consists of word
/// characters, and what stands before it, if anything, is a boundary.
pub proof fn lemma_trailing_word(s: Seq<char>)
    ensures
        trailing_word(s) <= s.len(),
        forall|i: int| s.len() - trailing_word(s) <= i < s.len() ==> is_word_char(#[trigger] s[i]),
        trailing_word(s) < s.len() ==> !is_word_char(s[s.len() - trailing_word(s) - 1]),
    decreases s.len(),
{
    if s.len() > 0 && is_word_char(s.last()) {
        let rest = s.drop_last();
        lemma_trailing_word(rest);
        assert forall|i: int| s.len() - trailing_word(s) <= i < s.len() implies is_word_char(
            #[trigger] s[i],
        ) by {
            if i < s.len() - 1 {
                assert(s[i] == rest[i]);
            }
        }
    }
}

/// Whether `c` is an ASCII letter.
pub fn is_word(c: char) -> (word: bool)
    ensures
        word == is_word_char(c),
{
    (c >= 'a' && c <= 'z') || (c >= 'A' && c <= 'Z')
}

/// The number of word characters that stand in `row` from column `x` on, up to the first
/// boundary or the end of the row.
pub fn word_ahead(row: &Row, x: usize) -> (n: usize)
    ensures
        n == leading_word(ahead(row@, x as int)),
        x <= row@.len() ==> x + n <= row@.len(),
{
    let len = row.len();
    if x > len {
        return 0;
    }
    let mut i: usize = x;
    loop
        invariant
            len == row@.len(),
            x <= i <= len,
            leading_word(row@.skip(x as int)) == (i - x) + leading_word(row@.skip(i as int)),
        ensures
            x <= i <= len,
            leading_word(row@.skip(x as int)) == i - x,
        decreases len - i,
    {
        match row.get(i) {
            Some(c) => {
                if !is_word(c) {
                    break ;
                }
                proof {
                    assert(row@.skip(i as int).drop_first() =~= row@.skip(i + 1));
                }
                i += 1;
            },
            None => {
                break ;
            },
        }
    }
    i - x
}

/// The number of word characters that stand in `row` right before column `x`, back to the
/// nearest boundary or the start of the row.
pub fn word_behind(row: &Row, x: usize) -> (n: usize)
    ensures
        n == trailing_word(behind(row@, x as int)),
        n <= x,
{
    if x > row.len() {
        return 0;
    }
    let mut i: usize = x;
    loop
        invariant
            i <= x <= row@.len(),
            trailing_word(row@.take(x as int)) == (x - i) + trailing_word(row@.take(i as int)),
        ensures
            i <= x,
            trailing_word(row@.take(x as int)) == x - i,
        decreases i,
    {
        if i == 0 {
            break ;
        }
        match row.get(i - 1) {
            Some(c) => {
                if !is_word(c) {
                    break ;
                }
                proof {
                    assert(row@.take(i as int).drop_last() =~= row@.take(i - 1));
                }
                i -= 1;
            },
            None => {
                break ;
            },
        }
    }
    x - i
}

/// Moves a cursor that stands at `cursor` in `document` as `key` asks.
///
/// `page` is the number of lines that the page motions cover. The column of the result never
/// lies past the end of the line that the cursor has reached, and a cursor that stood in the
/// document or right after its last line still does.
pub fn move_cursor(document: &Document, cursor: Position, key: Key, page: usize) -> (moved:
    Position)
    ensures
        moved@ == motion(document@, cursor@, key, page as int),
        moved.x <= width_at(document@, moved.y as int),
        cursor.y <= document@.len() ==> moved.y <= document@.len(),
{
    let mut x: usize = cursor.x;
    let mut y: usize = cursor.y;
    let height = document.len();
    let width = document.width(y);
    match key {
        Key::Char('k') => {
            y = y.saturating_sub(1);
        },
        Key::Char('j') => {
            if y < height {
                y = y + 1;
            }
        },
        Key::Char('h') => {
            if x > 0 {
                x -= 1;
            } else if y > 0 {
                y -= 1;
                x = document.width(y);
            }
        },
        Key::Char('l') => {
            if x < width {
                x += 1;
            } else if y < height {
                y += 1;
                x = 0;
            }
        },
        Key::Char('b') => {
            if x == 0 && y > 0 {
                y -= 1;
                x = document.width(y);
            } else if x <= width {
                if let Some(row) = document.row(y) {
                    let run = word_behind(row, x);
                    let index = if run == x { 0 } else { run + 1 };
                    x = x - index;
                }
            }
        },
        Key::Char('w') => {
            if x >= width && y < height {
                y += 1;
                x = 0;
            } else {
                let index = match document.row(y) {
                    Some(row) => word_ahead(row, x),
                    None => 0,
                };
                x = x.saturating_add(index).saturating_add(1);
            }
        },
        Key::Char('K') => {
            y = if y > page { y - page } else { 0 };
        },
        Key::Char('J') => {
            y = if y.saturating_add(page) < height { y + page } else { height };
        },
        Key::Char('g') => {
            y = 0;
        },
        Key::Char('S') => {
            x = 0;
        },
        Key::Char('s') => {
            x = width;
        },
        _ => {},
    }
    let width = document.width(y);
    if x > width {
        x = width;
    }
    Position { x, y }
}

/// Whether `p` stands in the text `lines`: on one of its lines or right after the last one,
/// and in a column no further than the end of that line.
pub open spec fn in_text(lines: Seq<Seq<char>>, p: Point) -> bool {
    &&& 0 <= p.y <= lines.len()
    &&& 0 <= p.x <= width_at(lines, p.y)
}

/// Where a cursor at `p` stands after the keys `keys`, pressed in order.
pub open spec fn motions(lines: Seq<Seq<char>>, p: Point, keys: Seq<Key>, page: int) -> Point
    decreases keys.len(),
{
    if keys.len() == 0 {
        p
    } else {
        motions(lines, motion(lines, p, keys.first(), page), keys.drop_first(), page)
    }
}

/// Whatever the key, a motion leaves the cursor in a column of the line it has reached, and
/// a cursor that stood no further down than right after the last line still does.
pub proof fn lemma_motion_stays_in_text(lines: Seq<Seq<char>>, p: Point, key: Key, page: int)
    requires
        0 <= p.x,
        0 <= p.y <= lines.len(),
        0 <= page,
    ensures
        in_text(lines, motion(lines, p, key, page)),
{
    if let Key::Char(c) = key {
        if c == 'b' && 0 <= p.x <= width_at(lines, p.y) {
            lemma_trailing_word(behind(line_at(lines, p.y), p.x));
        }
        if c == 'w' {
            lemma_leading_word(ahead(line_at(lines, p.y), p.x));
        }
    }
}

/// Every place that key presses lead to from a place in the text lies in the text: the
/// column within the line, the line no further down than right after the last one.
pub proof fn lemma_reachable_in_text(lines: Seq<Seq<char>>, p: Point, keys: Seq<Key>, page: int)
    requires
        in_text(lines, p),
        0 <= page,
    ensures
        in_text(lines, motions(lines, p, keys, page)),
    decreases keys.len(),
{
    if keys.len() > 0 {
        lemma_motion_stays_in_text(lines, p, keys.first(), page);
        lemma_reachable_in_text(lines, motion(lines, p, keys.first(), page), keys.drop_first(), page);
    }
}

/// Pressing `k` any number of times on the first line leaves the cursor on the first line.
pub proof fn lemma_up_saturates(lines: Seq<Seq<char>>, p: Point, keys: Seq<Key>, page: int)
    requires
        p.y == 0,
        forall|i: int| 0 <= i < keys.len() ==> keys[i] == Key::Char('k'),
    ensures
        motions(lines, p, keys, page).y == 0,
    decreases keys.len(),
{
    if keys.len() > 0 {
        lemma_up_saturates(lines, motion(lines, p, keys.first(), page), keys.drop_first(), page);
    }
}

/// Pressing `h` any number of times at the start of the text leaves the cursor there.
pub proof fn lemma_left_saturates(lines: Seq<Seq<char>>, keys: Seq<Key>, page: int)
    requires
        forall|i: int| 0 <= i < keys.len() ==> keys[i] == Key::Char('h'),
    ensures
        motions(lines, Point { x: 0, y: 0 }, keys, page) == (Point { x: 0, y: 0 }),
    decreases keys.len(),
{
    if keys.len() > 0 {
        lemma_left_saturates(lines, keys.drop_first(), page);
    }
}

/// A page motion never overshoots: page down ends no further than right after the last
/// line, and page up ends no further down than where it began and never before the first
/// line.
pub proof fn lemma_page_motion_bounds(lines: Seq<Seq<char>>, p: Point, page: int)
    requires
        0 <= p.y,
        0 <= page,
    ensures
        0 <= motion(lines, p, Key::Char('J'), page).y <= lines.len(),
        p.y <= lines.len() ==> motion(lines, p, Key::Char('J'), page).y >= p.y,
        0 <= motion(lines, p, Key::Char('K'), page).y <= p.y,
{
}

} // verus!
