use hecto::document::Row;
use hecto::editor::Position;
use hecto::window::{command_name, horizontal_border, list_row, Draw, Window};

fn print(text: &str) -> Draw {
    Draw::Print(String::from(text))
}

fn rows(lines: &[&str]) -> Vec<Row> {
    lines.iter().map(|line| Row::from(line)).collect()
}

#[test]
fn new_window_is_empty() {
    let window = Window::new(String::from("commands"), 1, 21, 2, 9);
    assert_eq!(window.name, "commands");
    assert_eq!((window.x1, window.x2, window.y1, window.y2), (1, 21, 2, 9));
    assert!(window.rows.is_empty());
    assert_eq!(window.cursor_position, Position::new(0, 0));
    assert_eq!(window.string, None);
    assert!(!window.cur_moved);
}

#[test]
fn default_window_has_no_extent() {
    let window = Window::default();
    assert_eq!(window, Window::new(String::new(), 0, 0, 0, 0));
}

#[test]
fn commands_of_the_list() {
    assert_eq!(command_name(0), Some("Save file"));
    assert_eq!(command_name(1), Some("Quit"));
    assert_eq!(command_name(2), None);
    assert_eq!(command_name(usize::MAX), None);
}

#[test]
fn horizontal_border_has_two_corners() {
    assert_eq!(horizontal_border(2), vec!['+', '+']);
    assert_eq!(horizontal_border(5), vec!['+', '-', '-', '-', '+']);
}

#[test]
fn list_rows_are_padded_to_the_wall() {
    assert_eq!(list_row(12, 0).iter().collect::<String>(), "Save file ");
    assert_eq!(list_row(11, 0).iter().collect::<String>(), "Save file");
    assert_eq!(list_row(12, 1).iter().collect::<String>(), "Quit      ");
    assert_eq!(list_row(12, 2).iter().collect::<String>(), "          ");
    assert_eq!(list_row(2, 5).iter().collect::<String>(), "");
}

#[test]
fn room_for_a_list() {
    assert!(Window::new(String::new(), 0, 20, 0, 6).fits_list());
    assert!(Window::new(String::new(), 0, 11, 0, 6).fits_list());
    assert!(!Window::new(String::new(), 0, 10, 0, 6).fits_list());
    assert!(Window::new(String::new(), 0, 10, 0, 3).fits_list());
    assert!(Window::new(String::new(), 0, 2, 4, 2).fits_list());
    assert!(!Window::new(String::new(), 0, 1, 0, 3).fits_list());
    assert!(!Window::new(String::new(), 5, 4, 0, 3).fits_list());
    assert!(!Window::new(String::new(), 0, 20, 0, 1).fits_list());
    assert!(!Window::new(String::new(), 0, 20, u16::MAX, 2).fits_list());
}

#[test]
fn room_for_a_text_box() {
    assert!(Window::new(String::new(), 0, 5, 0, 1).fits_text_box());
    assert!(!Window::new(String::new(), 0, 4, 0, 1).fits_text_box());
    assert!(!Window::new(String::new(), 0, 5, 0, 0).fits_text_box());
    assert!(!Window::new(String::new(), 9, 5, 0, 3).fits_text_box());
    let mut window = Window::new(String::new(), 0, 8, 0, 3);
    window.string = Some(String::from("abc"));
    assert!(window.fits_text_box());
    window.string = Some(String::from("abcd"));
    assert!(!window.fits_text_box());
}

#[test]
fn border_frames_the_list() {
    let mut window = Window::new(String::from("commands"), 0, 20, 0, 6);
    let commands = window.draw_border();
    let border = "+------------------+";
    let save = "|Save file         |";
    let quit = "|Quit              |";
    let blank = "|                  |";
    assert_eq!(
        commands,
        vec![
            Draw::Hide,
            Draw::MoveTo(0, 0),
            print(border),
            Draw::MoveTo(0, 4),
            print(border),
            Draw::MoveTo(0, 1),
            print(save),
            Draw::MoveTo(0, 2),
            print(quit),
            Draw::MoveTo(0, 3),
            print(blank),
            Draw::Show,
        ]
    );
    assert_eq!(window.rows, rows(&[save, quit, blank]));
    assert_eq!(window.name, "commands");
    assert_eq!((window.x1, window.x2, window.y1, window.y2), (0, 20, 0, 6));
}

#[test]
fn border_of_a_low_window_has_no_list() {
    let mut window = Window::new(String::new(), 3, 7, 2, 5);
    let commands = window.draw_border();
    assert_eq!(
        commands,
        vec![
            Draw::Hide,
            Draw::MoveTo(3, 2),
            print("+--+"),
            Draw::MoveTo(3, 3),
            print("+--+"),
            Draw::Show,
        ]
    );
    assert!(window.rows.is_empty());
}

#[test]
fn border_adds_to_the_rows_already_there() {
    let mut window = Window::new(String::new(), 2, 13, 1, 5);
    window.rows.push(Row::from("before"));
    let commands = window.draw_border();
    assert_eq!(commands.len(), 8);
    assert_eq!(commands[5], Draw::MoveTo(2, 2));
    assert_eq!(commands[6], print("|Save file|"));
    assert_eq!(window.rows, rows(&["before", "|Save file|"]));
}

#[test]
fn command_window_paints_each_wall_by_itself() {
    let mut window = Window::new(String::from("commands"), 2, 14, 1, 6);
    let commands = window.draw_command_window();
    assert_eq!(
        commands,
        vec![
            Draw::Hide,
            Draw::MoveTo(2, 1),
            print("+----------+"),
            Draw::MoveTo(2, 4),
            Draw::MoveTo(2, 1),
            Draw::MoveTo(2, 2),
            print("|"),
            Draw::MoveTo(3, 2),
            print("Save file "),
            print("|"),
            Draw::MoveTo(2, 3),
            print("|"),
            Draw::MoveTo(3, 3),
            print("Quit      "),
            print("|"),
            Draw::Show,
        ]
    );
    assert_eq!(window.rows, rows(&["Save file ", "Quit      "]));
}

#[test]
fn text_box_without_text() {
    let mut window = Window::new(String::new(), 0, 20, 0, 6);
    let commands = window.draw_text_box(None);
    let border = "+------------------+";
    let entry = "|->                |";
    assert_eq!(
        commands,
        vec![
            Draw::Show,
            Draw::MoveTo(0, 6),
            print(border),
            Draw::MoveTo(0, 5),
            print(entry),
            Draw::MoveTo(4, 5),
        ]
    );
    assert_eq!(window.rows, rows(&[border, entry]));
}

#[test]
fn text_box_with_text_and_a_column() {
    let mut window = Window::new(String::new(), 3, 15, 0, 2);
    window.string = Some(String::from("wq"));
    let commands = window.draw_text_box(Some(9));
    let border = "+----------+";
    let entry = "|-> wq     |";
    assert_eq!(
        commands,
        vec![
            Draw::Show,
            Draw::MoveTo(3, 2),
            print(border),
            Draw::MoveTo(3, 1),
            print(entry),
            Draw::MoveTo(9, 1),
        ]
    );
    assert_eq!(window.rows, rows(&[border, entry]));
    assert_eq!(window.string, Some(String::from("wq")));
}

#[test]
fn text_box_that_the_text_fills() {
    let mut window = Window::new(String::new(), 0, 8, 0, 1);
    window.string = Some(String::from("abc"));
    let commands = window.draw_text_box(None);
    assert_eq!(commands[4], print("|-> abc|"));
    assert_eq!(commands[5], Draw::MoveTo(4, 0));
}
