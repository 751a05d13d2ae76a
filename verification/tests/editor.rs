use hecto::document::{Document, Row};
use hecto::editor::{Editor, Mode, Position, Screen, Size};
use hecto::key::Key;

fn text(lines: &[&str]) -> Document {
    let mut document = Document::new();
    for line in lines {
        document.push(Row::from(line));
    }
    document
}

fn editor_on(lines: &[&str], width: u16, height: u16) -> Editor {
    Editor::new(text(lines), String::from("notes.txt"), Size { width, height })
}

fn type_keys(editor: &mut Editor, keys: &str) {
    for c in keys.chars() {
        editor.process_keypress(Key::Char(c));
    }
}

#[test]
fn position_new_and_default() {
    let position = Position::new(3, 7);
    assert_eq!(position.x, 3);
    assert_eq!(position.y, 7);
    assert_eq!(Position::default(), Position::new(0, 0));
}

#[test]
fn new_editor_starts_in_normal_mode_at_the_origin() {
    let editor = editor_on(&["ab", "cd"], 80, 24);
    assert_eq!(editor.mode(), Mode::Normal);
    assert_eq!(editor.cursor_position(), Position::new(0, 0));
    assert_eq!(editor.offset(), Position::new(0, 0));
    assert!(!editor.should_quit());
    assert_eq!(editor.file_name(), "notes.txt");
    assert_eq!(editor.terminal_size(), Size { width: 80, height: 24 });
    assert_eq!(editor.document(), &text(&["ab", "cd"]));
}

#[test]
fn i_enters_insert_mode() {
    let mut editor = editor_on(&["ab", "cd"], 80, 24);
    editor.process_keypress(Key::Char('i'));
    assert_eq!(editor.mode(), Mode::Insert);
    assert_eq!(editor.cursor_position(), Position::new(0, 0));
}

#[test]
fn insert_mode_ignores_motion_keys() {
    let mut editor = editor_on(&["hello world", "cd"], 80, 24);
    type_keys(&mut editor, "lj");
    assert_eq!(editor.cursor_position(), Position::new(1, 1));
    editor.process_keypress(Key::Char('i'));
    for key in [
        Key::Char('k'), Key::Char('j'), Key::Char('h'), Key::Char('l'), Key::Char('b'),
        Key::Char('w'), Key::Char('K'), Key::Char('J'), Key::Char('g'), Key::Char('S'),
        Key::Char('s'), Key::Char('x'), Key::Char('i'), Key::Alt('k'), Key::Ctrl('k'), Key::Other,
    ] {
        editor.process_keypress(key);
        assert_eq!(editor.mode(), Mode::Insert);
        assert_eq!(editor.cursor_position(), Position::new(1, 1));
        assert!(!editor.should_quit());
    }
}

#[test]
fn escape_returns_from_insert_to_normal() {
    let mut editor = editor_on(&["ab", "cd"], 80, 24);
    editor.process_keypress(Key::Char('i'));
    editor.process_keypress(Key::Esc);
    assert_eq!(editor.mode(), Mode::Normal);
    editor.process_keypress(Key::Esc);
    assert_eq!(editor.mode(), Mode::Normal);
}

#[test]
fn colon_enters_command_mode_from_every_mode() {
    let mut editor = editor_on(&["ab", "cd"], 80, 24);
    editor.process_keypress(Key::Char(':'));
    assert_eq!(editor.mode(), Mode::Command);
    editor.process_keypress(Key::Char('i'));
    assert_eq!(editor.mode(), Mode::Insert);
    editor.process_keypress(Key::Char(':'));
    assert_eq!(editor.mode(), Mode::Command);
    editor.process_keypress(Key::Esc);
    assert_eq!(editor.mode(), Mode::Normal);
}

#[test]
fn command_mode_ignores_motion_keys() {
    let mut editor = editor_on(&["ab", "cd"], 80, 24);
    editor.process_keypress(Key::Char('l'));
    editor.process_keypress(Key::Char(':'));
    for c in ['k', 'j', 'h', 'l', 'b', 'w', 'K', 'J', 'g', 'S', 's', 'q'] {
        editor.process_keypress(Key::Char(c));
        assert_eq!(editor.mode(), Mode::Command);
        assert_eq!(editor.cursor_position(), Position::new(1, 0));
    }
}

#[test]
fn insert_handler_sends_escape_to_command_mode() {
    let mut editor = editor_on(&["ab"], 80, 24);
    editor.change_mode(Mode::Insert);
    editor.insert_mode(Key::Char('x'));
    assert_eq!(editor.mode(), Mode::Insert);
    editor.insert_mode(Key::Esc);
    assert_eq!(editor.mode(), Mode::Command);
    assert_eq!(editor.cursor_position(), Position::new(0, 0));
}

#[test]
fn check_mode_picks_the_handler_of_the_mode() {
    let mut editor = editor_on(&["ab", "cd"], 80, 24);
    editor.check_mode(Key::Char('l'));
    assert_eq!(editor.cursor_position(), Position::new(1, 0));
    editor.check_mode(Key::Esc);
    assert_eq!(editor.mode(), Mode::Normal);
    editor.change_mode(Mode::Insert);
    editor.check_mode(Key::Char('l'));
    assert_eq!(editor.cursor_position(), Position::new(1, 0));
    editor.check_mode(Key::Esc);
    assert_eq!(editor.mode(), Mode::Command);
}

#[test]
fn control_q_asks_to_quit_in_every_mode() {
    for mode in [Mode::Normal, Mode::Insert, Mode::Command] {
        let mut editor = editor_on(&["ab"], 80, 24);
        editor.change_mode(mode);
        editor.process_keypress(Key::Char('q'));
        assert!(!editor.should_quit());
        editor.process_keypress(Key::Ctrl('x'));
        assert!(!editor.should_quit());
        editor.process_keypress(Key::Ctrl('q'));
        assert!(editor.should_quit());
        assert_eq!(editor.mode(), mode);
        assert_eq!(editor.refresh_screen(), Screen::Cleared);
        editor.process_keypress(Key::Char('l'));
        assert!(editor.should_quit());
    }
}

#[test]
fn normal_mode_moves_the_cursor() {
    let mut editor = editor_on(&["hello world", "cd"], 80, 24);
    editor.normal_mode(Key::Char('w'));
    assert_eq!(editor.cursor_position(), Position::new(6, 0));
    editor.normal_mode(Key::Char('j'));
    assert_eq!(editor.cursor_position(), Position::new(2, 1));
    editor.normal_mode(Key::Char('l'));
    assert_eq!(editor.cursor_position(), Position::new(0, 2));
    editor.normal_mode(Key::Char('h'));
    assert_eq!(editor.cursor_position(), Position::new(2, 1));
    assert_eq!(editor.mode(), Mode::Normal);
}

#[test]
fn page_motions_cover_the_height_of_the_terminal() {
    let mut lines = Vec::new();
    for _ in 0..100 {
        lines.push("x");
    }
    let mut editor = editor_on(&lines, 80, 20);
    type_keys(&mut editor, "JJJJ");
    assert_eq!(editor.cursor_position().y, 80);
    type_keys(&mut editor, "jjjjj");
    assert_eq!(editor.cursor_position().y, 85);
    type_keys(&mut editor, "J");
    assert_eq!(editor.cursor_position().y, 100);
    type_keys(&mut editor, "J");
    assert_eq!(editor.cursor_position().y, 100);
    type_keys(&mut editor, "K");
    assert_eq!(editor.cursor_position().y, 80);
    type_keys(&mut editor, "KKKK");
    assert_eq!(editor.cursor_position().y, 0);
}

#[test]
fn screen_follows_the_cursor_down_and_up() {
    let mut lines = Vec::new();
    for _ in 0..100 {
        lines.push("x");
    }
    let mut editor = editor_on(&lines, 80, 10);
    type_keys(&mut editor, "jjjjjjjjj");
    assert_eq!(editor.cursor_position().y, 9);
    assert_eq!(editor.offset(), Position::new(0, 0));
    type_keys(&mut editor, "jjj");
    assert_eq!(editor.cursor_position().y, 12);
    assert_eq!(editor.offset(), Position::new(0, 3));
    assert_eq!(editor.screen_cursor(), Position::new(0, 9));
    type_keys(&mut editor, "kk");
    assert_eq!(editor.offset(), Position::new(0, 3));
    assert_eq!(editor.screen_cursor(), Position::new(0, 7));
    type_keys(&mut editor, "g");
    assert_eq!(editor.offset(), Position::new(0, 0));
    assert_eq!(editor.screen_cursor(), Position::new(0, 0));
}

#[test]
fn screen_follows_the_cursor_sideways() {
    let mut editor = editor_on(&["hello world"], 4, 10);
    type_keys(&mut editor, "lll");
    assert_eq!(editor.offset(), Position::new(0, 0));
    type_keys(&mut editor, "l");
    assert_eq!(editor.cursor_position(), Position::new(4, 0));
    assert_eq!(editor.offset(), Position::new(1, 0));
    type_keys(&mut editor, "s");
    assert_eq!(editor.cursor_position(), Position::new(11, 0));
    assert_eq!(editor.offset(), Position::new(8, 0));
    assert_eq!(editor.screen_cursor(), Position::new(3, 0));
    type_keys(&mut editor, "S");
    assert_eq!(editor.offset(), Position::new(0, 0));
}

#[test]
fn cursor_is_on_the_screen_after_every_key() {
    let mut editor = editor_on(&["hello world", "", "a b c", "xyz", "last line here"], 5, 3);
    let keys = "wwjlbJskhwwKSgjjjjlbhssjjwwbbkkl";
    for _ in 0..4 {
        for c in keys.chars() {
            editor.process_keypress(Key::Char(c));
            let cursor = editor.cursor_position();
            let offset = editor.offset();
            assert!(offset.x <= cursor.x && cursor.x < offset.x + 5);
            assert!(offset.y <= cursor.y && cursor.y < offset.y + 3);
            assert!(cursor.y <= editor.document().len());
            assert!(cursor.x <= editor.document().width(cursor.y));
        }
    }
}

#[test]
fn scroll_alone_brings_the_cursor_on_the_screen() {
    let mut editor = editor_on(&["hello world", "b", "c", "d"], 4, 2);
    editor.normal_mode(Key::Char('s'));
    editor.normal_mode(Key::Char('J'));
    editor.normal_mode(Key::Char('J'));
    assert_eq!(editor.cursor_position(), Position::new(0, 4));
    assert_eq!(editor.offset(), Position::new(0, 0));
    editor.scroll();
    assert_eq!(editor.offset(), Position::new(0, 3));
}

#[test]
fn rows_show_the_visible_part_of_the_text() {
    let mut editor = editor_on(&["hello", "world"], 3, 4);
    assert_eq!(editor.draw_rows(), vec!["hel", "wor", "~"]);
    type_keys(&mut editor, "llll");
    assert_eq!(editor.offset(), Position::new(2, 0));
    assert_eq!(editor.draw_rows(), vec!["llo", "rld", "~"]);
    type_keys(&mut editor, "jjj");
    assert_eq!(editor.cursor_position(), Position::new(0, 2));
    assert_eq!(editor.draw_rows(), vec!["hel", "wor", "~"]);
}

#[test]
fn rows_scroll_with_the_offset() {
    let mut editor = editor_on(&["a", "b", "c", "d", "e"], 10, 3);
    assert_eq!(editor.draw_rows(), vec!["a", "b"]);
    type_keys(&mut editor, "jjjj");
    assert_eq!(editor.offset(), Position::new(0, 2));
    assert_eq!(editor.draw_rows(), vec!["c", "d"]);
    type_keys(&mut editor, "j");
    assert_eq!(editor.offset(), Position::new(0, 3));
    assert_eq!(editor.draw_rows(), vec!["d", "e"]);
}

#[test]
fn draw_row_cuts_a_row_to_the_screen() {
    let editor = editor_on(&[], 4, 4);
    assert_eq!(editor.draw_row(&Row::from("hello world")), "hell");
    assert_eq!(editor.draw_row(&Row::from("hi")), "hi");
    assert_eq!(editor.draw_row(&Row::from("")), "");
}

#[test]
fn terminal_without_rows_shows_no_content() {
    assert_eq!(editor_on(&["a"], 10, 0).draw_rows(), Vec::<String>::new());
    assert_eq!(editor_on(&["a"], 10, 1).draw_rows(), Vec::<String>::new());
    assert_eq!(editor_on(&["a"], 10, 2).draw_rows(), vec!["a"]);
}

#[test]
fn empty_document_shows_the_banner_a_third_down() {
    let editor = editor_on(&[], 40, 9);
    let banner = "~        Hecto -- version 0.1.0";
    assert_eq!(editor.draw_welcome_message(), banner);
    assert_eq!(editor.draw_rows(), vec!["~", "~", "~", banner, "~", "~", "~", "~"]);
}

#[test]
fn banner_is_centred_and_cut_to_the_screen() {
    assert_eq!(editor_on(&[], 24, 9).draw_welcome_message(), "~Hecto -- version 0.1.0");
    assert_eq!(editor_on(&[], 26, 9).draw_welcome_message(), "~ Hecto -- version 0.1.0");
    assert_eq!(editor_on(&[], 30, 9).draw_welcome_message(), "~   Hecto -- version 0.1.0");
    assert_eq!(editor_on(&[], 23, 9).draw_welcome_message(), "~Hecto -- version 0.1.0");
    assert_eq!(editor_on(&[], 10, 9).draw_welcome_message(), "~Hecto -- ");
    assert_eq!(editor_on(&[], 1, 9).draw_welcome_message(), "~");
    assert_eq!(editor_on(&[], 0, 9).draw_welcome_message(), "");
}

#[test]
fn document_with_lines_shows_no_banner() {
    let editor = editor_on(&["a"], 40, 9);
    assert_eq!(editor.draw_rows(), vec!["a", "~", "~", "~", "~", "~", "~", "~"]);
}

#[test]
fn status_bar_names_the_mode_and_the_file() {
    let mut editor = editor_on(&["a"], 40, 9);
    assert_eq!(editor.draw_status_bar(), "MODE: NORMAL | notes.txt");
    editor.process_keypress(Key::Char('i'));
    assert_eq!(editor.draw_status_bar(), "MODE: INSERT | notes.txt");
    editor.process_keypress(Key::Char(':'));
    assert_eq!(editor.draw_status_bar(), "MODE: COMMAND | notes.txt");
    let unnamed = Editor::new(Document::new(), String::new(), Size { width: 40, height: 9 });
    assert_eq!(unnamed.draw_status_bar(), "MODE: NORMAL | ");
}

#[test]
fn refresh_screen_gives_rows_status_and_cursor() {
    let mut editor = editor_on(&["hello", "world"], 3, 3);
    type_keys(&mut editor, "jlll");
    let expected = Screen::Frame {
        rows: vec![String::from("ell"), String::from("orl")],
        status: String::from("MODE: NORMAL | notes.txt"),
        cursor: Position::new(2, 1),
    };
    assert_eq!(editor.refresh_screen(), expected);
}
