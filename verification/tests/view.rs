use textview::editorcommand::{Direction, EditorCommand};
use textview::terminal::{Position, Size};
use textview::view::buffer::SaveError;
use textview::view::{Location, Row, View};

fn view_of(text: &str, height: usize, width: usize) -> View {
    let mut view = View::default();
    view.load(text, "dir/text.txt");
    view.handle_command(EditorCommand::Resize(Size { height, width }));
    view
}

fn go(view: &mut View, direction: Direction) {
    view.handle_command(EditorCommand::Move(direction));
}

fn at(line_index: usize, grapheme_index: usize) -> Location {
    Location { grapheme_index, line_index }
}

fn line_texts(view: &View) -> Vec<String> {
    view.buffer().lines.iter().map(|line| line.to_string()).collect()
}

fn row_texts(rows: &[Row]) -> Vec<String> {
    rows.iter().map(|row| row.text.clone()).collect()
}

fn display_position(view: &View) -> Position {
    let location = view.text_location();
    let lines = &view.buffer().lines;
    let col = if location.line_index < lines.len() {
        let line = &lines[location.line_index];
        line.width_until(location.grapheme_index.min(line.grapheme_count()))
    } else {
        0
    };
    Position { col, row: location.line_index }
}

fn cursor_is_visible(view: &View) -> bool {
    let position = display_position(view);
    let offset = view.scroll_offset();
    let size = view.size();
    offset.row <= position.row
        && position.row < offset.row + size.height
        && offset.col <= position.col
        && position.col < offset.col + size.width
}

#[test]
fn default_view_is_empty_at_the_origin() {
    let view = View::default();
    assert!(view.buffer().is_empty());
    assert_eq!(view.text_location(), at(0, 0));
    assert_eq!(view.scroll_offset(), Position { col: 0, row: 0 });
    assert_eq!(view.size(), Size { height: 0, width: 0 });
    assert!(!view.needs_redraw());
    assert_eq!(view.caret_position(), Position { col: 0, row: 0 });
}

#[test]
fn wide_cluster_at_the_window_edge_shows_an_ellipsis() {
    let mut view = view_of("ab\n世界", 5, 3);
    go(&mut view, Direction::Down);
    assert_eq!(view.text_location(), at(1, 0));
    let rows = view.draw(0);
    assert_eq!(rows.len(), 5);
    assert_eq!(rows[0].text, "ab");
    assert_eq!(rows[1].text, "世\u{22EF}");
    assert_eq!(rows[2].text, "~");
    assert_eq!(view.buffer().lines[1].get_visible_graphemes(0..3), "世\u{22EF}");
}

#[test]
fn backspace_in_an_empty_document_does_nothing() {
    let mut view = View::default();
    view.handle_command(EditorCommand::Backspace);
    assert!(view.buffer().is_empty());
    assert_eq!(view.buffer().height(), 0);
    assert!(!view.buffer().dirty);
    assert_eq!(view.text_location(), at(0, 0));
    assert_eq!(view.scroll_offset(), Position { col: 0, row: 0 });
    assert!(!view.needs_redraw());
}

#[test]
fn newline_at_the_end_then_a_character_makes_a_new_line() {
    let mut view = view_of("ab\ncd", 10, 20);
    go(&mut view, Direction::Down);
    go(&mut view, Direction::End);
    assert_eq!(view.text_location(), at(1, 2));
    let before = view.buffer().height();
    view.handle_command(EditorCommand::Enter);
    assert_eq!(view.text_location(), at(2, 0));
    view.handle_command(EditorCommand::Insert('x'));
    assert_eq!(view.buffer().height(), before + 1);
    assert_eq!(line_texts(&view), vec!["ab", "cd", "x"]);
    assert_eq!(view.text_location(), at(2, 1));
    assert!(view.buffer().dirty);
}

#[test]
fn moving_down_onto_a_shorter_line_clamps_the_cursor() {
    let mut view = view_of("hello world\nhi\n", 10, 40);
    go(&mut view, Direction::End);
    assert_eq!(view.text_location(), at(0, 11));
    go(&mut view, Direction::Down);
    assert_eq!(view.text_location(), at(1, 2));
    // and it does not come back on the way up
    go(&mut view, Direction::Up);
    assert_eq!(view.text_location(), at(0, 2));
}

#[test]
fn move_left_and_right_within_a_line() {
    let mut view = view_of("abc", 5, 10);
    go(&mut view, Direction::Right);
    go(&mut view, Direction::Right);
    assert_eq!(view.text_location(), at(0, 2));
    go(&mut view, Direction::Left);
    assert_eq!(view.text_location(), at(0, 1));
}

#[test]
fn move_right_at_the_end_of_a_line_goes_to_the_next() {
    let mut view = view_of("ab\ncd", 5, 10);
    go(&mut view, Direction::End);
    go(&mut view, Direction::Right);
    assert_eq!(view.text_location(), at(1, 0));
    go(&mut view, Direction::End);
    go(&mut view, Direction::Right);
    // right behind the last line
    assert_eq!(view.text_location(), at(2, 0));
    go(&mut view, Direction::Right);
    assert_eq!(view.text_location(), at(2, 0));
}

#[test]
fn move_left_at_the_start_of_a_line_goes_to_the_end_of_the_one_above() {
    let mut view = view_of("abc\nd", 5, 10);
    go(&mut view, Direction::Down);
    assert_eq!(view.text_location(), at(1, 0));
    go(&mut view, Direction::Left);
    assert_eq!(view.text_location(), at(0, 3));
}

#[test]
fn move_left_at_the_start_of_the_document_stays() {
    let mut view = view_of("abc\nd", 5, 10);
    go(&mut view, Direction::Left);
    assert_eq!(view.text_location(), at(0, 0));
}

#[test]
fn move_up_and_down_stop_at_the_ends() {
    let mut view = view_of("a\nb\nc", 5, 10);
    go(&mut view, Direction::Up);
    assert_eq!(view.text_location(), at(0, 0));
    go(&mut view, Direction::Down);
    go(&mut view, Direction::Down);
    go(&mut view, Direction::Down);
    assert_eq!(view.text_location(), at(3, 0));
    go(&mut view, Direction::Down);
    assert_eq!(view.text_location(), at(3, 0));
}

#[test]
fn pages_are_one_row_less_than_the_window() {
    let mut view = view_of("0\n1\n2\n3\n4\n5\n6\n7\n8\n9", 4, 10);
    go(&mut view, Direction::PageDown);
    assert_eq!(view.text_location(), at(3, 0));
    go(&mut view, Direction::PageDown);
    assert_eq!(view.text_location(), at(6, 0));
    go(&mut view, Direction::PageDown);
    go(&mut view, Direction::PageDown);
    assert_eq!(view.text_location(), at(10, 0));
    go(&mut view, Direction::PageUp);
    assert_eq!(view.text_location(), at(7, 0));
    go(&mut view, Direction::PageUp);
    go(&mut view, Direction::PageUp);
    go(&mut view, Direction::PageUp);
    assert_eq!(view.text_location(), at(0, 0));
}

#[test]
fn home_and_end_go_to_the_ends_of_the_line() {
    let mut view = view_of("a世b界", 5, 20);
    go(&mut view, Direction::End);
    assert_eq!(view.text_location(), at(0, 4));
    assert_eq!(view.caret_position(), Position { col: 6, row: 0 });
    go(&mut view, Direction::Home);
    assert_eq!(view.text_location(), at(0, 0));
    assert_eq!(view.caret_position(), Position { col: 0, row: 0 });
}

#[test]
fn window_scrolls_down_by_as_little_as_shows_the_cursor() {
    let mut view = view_of("0\n1\n2\n3\n4\n5\n6\n7\n8\n9", 3, 10);
    view.mark_redraw(false);
    go(&mut view, Direction::Down);
    go(&mut view, Direction::Down);
    assert_eq!(view.scroll_offset(), Position { col: 0, row: 0 });
    assert!(!view.needs_redraw());
    go(&mut view, Direction::Down);
    assert_eq!(view.scroll_offset(), Position { col: 0, row: 1 });
    assert!(view.needs_redraw());
    go(&mut view, Direction::Down);
    go(&mut view, Direction::Down);
    assert_eq!(view.text_location(), at(5, 0));
    assert_eq!(view.scroll_offset(), Position { col: 0, row: 3 });
    assert_eq!(view.caret_position(), Position { col: 0, row: 2 });
}

#[test]
fn window_scrolls_up_to_the_cursor() {
    let mut view = view_of("0\n1\n2\n3\n4\n5\n6\n7\n8\n9", 3, 10);
    let mut k = 0;
    while k < 8 {
        go(&mut view, Direction::Down);
        k += 1;
    }
    assert_eq!(view.scroll_offset(), Position { col: 0, row: 6 });
    go(&mut view, Direction::Up);
    go(&mut view, Direction::Up);
    assert_eq!(view.scroll_offset(), Position { col: 0, row: 6 });
    go(&mut view, Direction::Up);
    assert_eq!(view.text_location(), at(5, 0));
    assert_eq!(view.scroll_offset(), Position { col: 0, row: 5 });
    assert_eq!(view.caret_position(), Position { col: 0, row: 0 });
}

#[test]
fn window_scrolls_sideways_by_display_columns() {
    let mut view = view_of("0123456789", 3, 4);
    go(&mut view, Direction::End);
    assert_eq!(view.scroll_offset(), Position { col: 7, row: 0 });
    assert_eq!(view.caret_position(), Position { col: 3, row: 0 });
    go(&mut view, Direction::Home);
    assert_eq!(view.scroll_offset(), Position { col: 0, row: 0 });
    let mut wide = view_of("世界世界", 3, 4);
    go(&mut wide, Direction::End);
    assert_eq!(wide.text_location(), at(0, 4));
    assert_eq!(wide.scroll_offset(), Position { col: 5, row: 0 });
    assert_eq!(wide.draw(0)[0].text, "\u{22EF}界");
}

#[test]
fn cursor_stays_in_the_window_after_moves_and_resizes() {
    let text = "short\na much longer line of text\n\n世界世界世界世界\nx\nlast line";
    let mut view = view_of(text, 3, 7);
    let commands = [
        EditorCommand::Move(Direction::End),
        EditorCommand::Move(Direction::Down),
        EditorCommand::Move(Direction::End),
        EditorCommand::Move(Direction::Down),
        EditorCommand::Move(Direction::Down),
        EditorCommand::Move(Direction::End),
        EditorCommand::Resize(Size { height: 2, width: 3 }),
        EditorCommand::Move(Direction::PageDown),
        EditorCommand::Move(Direction::PageDown),
        EditorCommand::Move(Direction::Left),
        EditorCommand::Move(Direction::Home),
        EditorCommand::Resize(Size { height: 1, width: 1 }),
        EditorCommand::Move(Direction::PageUp),
        EditorCommand::Move(Direction::Up),
        EditorCommand::Move(Direction::End),
        EditorCommand::Move(Direction::Right),
        EditorCommand::Resize(Size { height: 40, width: 80 }),
        EditorCommand::Move(Direction::Up),
        EditorCommand::Move(Direction::Left),
    ];
    for command in commands {
        view.handle_command(command);
        assert!(cursor_is_visible(&view), "after {command:?}");
        let location = view.text_location();
        assert!(location.line_index <= view.buffer().height());
        if location.line_index < view.buffer().height() {
            let count = view.buffer().lines[location.line_index].grapheme_count();
            assert!(location.grapheme_index <= count);
        } else {
            assert_eq!(location.grapheme_index, 0);
        }
    }
    assert_eq!(line_texts(&view).join("\n"), text);
}

#[test]
fn resize_follows_the_cursor_and_asks_for_a_redraw() {
    let mut view = view_of("0\n1\n2\n3\n4\n5", 6, 10);
    let mut k = 0;
    while k < 5 {
        go(&mut view, Direction::Down);
        k += 1;
    }
    assert_eq!(view.scroll_offset(), Position { col: 0, row: 0 });
    view.mark_redraw(false);
    view.handle_command(EditorCommand::Resize(Size { height: 2, width: 10 }));
    assert_eq!(view.size(), Size { height: 2, width: 10 });
    assert_eq!(view.scroll_offset(), Position { col: 0, row: 4 });
    assert!(view.needs_redraw());
    view.mark_redraw(false);
    view.resize(Size { height: 2, width: 10 });
    assert!(view.needs_redraw());
    view.mark_redraw(false);
    view.set_size(Size { height: 2, width: 10 });
    assert!(!view.needs_redraw());
}

#[test]
fn insert_steps_over_the_new_cluster() {
    let mut view = view_of("ac", 5, 10);
    go(&mut view, Direction::Right);
    view.mark_redraw(false);
    view.handle_command(EditorCommand::Insert('b'));
    assert_eq!(line_texts(&view), vec!["abc"]);
    assert_eq!(view.text_location(), at(0, 2));
    assert!(view.needs_redraw());
    assert!(view.buffer().dirty);
}

#[test]
fn insert_that_joins_a_cluster_leaves_the_cursor() {
    let mut view = view_of("e", 5, 10);
    go(&mut view, Direction::End);
    assert_eq!(view.text_location(), at(0, 1));
    view.handle_command(EditorCommand::Insert('\u{301}'));
    assert_eq!(line_texts(&view), vec!["e\u{301}"]);
    assert_eq!(view.buffer().lines[0].grapheme_count(), 1);
    assert_eq!(view.text_location(), at(0, 1));
}

#[test]
fn insert_into_an_empty_document_starts_its_first_line() {
    let mut view = View::default();
    view.handle_command(EditorCommand::Resize(Size { height: 5, width: 10 }));
    view.handle_command(EditorCommand::Insert('h'));
    view.handle_command(EditorCommand::Insert('i'));
    assert_eq!(line_texts(&view), vec!["hi"]);
    assert_eq!(view.text_location(), at(0, 2));
}

#[test]
fn delete_removes_the_cluster_at_the_cursor() {
    let mut view = view_of("abc\nd", 5, 10);
    go(&mut view, Direction::Right);
    view.mark_redraw(false);
    view.handle_command(EditorCommand::Delete);
    assert_eq!(line_texts(&view), vec!["ac", "d"]);
    assert_eq!(view.text_location(), at(0, 1));
    assert!(view.needs_redraw());
    view.handle_command(EditorCommand::Delete);
    view.handle_command(EditorCommand::Delete);
    assert_eq!(line_texts(&view), vec!["ad"]);
    assert_eq!(view.text_location(), at(0, 1));
}

#[test]
fn backspace_removes_the_cluster_before_the_cursor() {
    let mut view = view_of("a世c", 5, 10);
    go(&mut view, Direction::Right);
    go(&mut view, Direction::Right);
    view.handle_command(EditorCommand::Backspace);
    assert_eq!(line_texts(&view), vec!["ac"]);
    assert_eq!(view.text_location(), at(0, 1));
    assert!(view.buffer().dirty);
}

#[test]
fn backspace_at_the_start_of_a_line_joins_it_to_the_one_above() {
    let mut view = view_of("ab\ncd", 5, 10);
    go(&mut view, Direction::Down);
    view.handle_command(EditorCommand::Backspace);
    assert_eq!(line_texts(&view), vec!["abcd"]);
    assert_eq!(view.text_location(), at(0, 2));
}

#[test]
fn backspace_lets_the_window_follow_the_cursor() {
    let mut view = view_of("0123456789\nab", 1, 4);
    go(&mut view, Direction::Down);
    assert_eq!(view.scroll_offset(), Position { col: 0, row: 1 });
    view.handle_command(EditorCommand::Backspace);
    assert_eq!(view.text_location(), at(0, 10));
    assert_eq!(view.scroll_offset(), Position { col: 7, row: 0 });
    assert!(cursor_is_visible(&view));
}

#[test]
fn enter_splits_the_line_at_the_cursor() {
    let mut view = view_of("abcd", 5, 10);
    go(&mut view, Direction::Right);
    go(&mut view, Direction::Right);
    view.handle_command(EditorCommand::Enter);
    assert_eq!(line_texts(&view), vec!["ab", "cd"]);
    assert_eq!(view.text_location(), at(1, 0));
}

#[test]
fn enter_in_an_empty_document() {
    let mut view = View::default();
    view.handle_command(EditorCommand::Resize(Size { height: 5, width: 10 }));
    view.handle_command(EditorCommand::Enter);
    assert_eq!(line_texts(&view), vec![""]);
    assert_eq!(view.text_location(), at(1, 0));
    view.handle_command(EditorCommand::Insert('x'));
    assert_eq!(line_texts(&view), vec!["", "x"]);
}

#[test]
fn save_and_quit_leave_the_view_alone() {
    let mut view = view_of("ab\ncd", 5, 10);
    go(&mut view, Direction::Down);
    view.mark_redraw(false);
    view.handle_command(EditorCommand::Save);
    view.handle_command(EditorCommand::Quit);
    assert_eq!(line_texts(&view), vec!["ab", "cd"]);
    assert_eq!(view.text_location(), at(1, 0));
    assert!(!view.needs_redraw());
    assert!(!view.buffer().dirty);
}

#[test]
fn load_replaces_the_document_and_keeps_the_cursor() {
    let mut view = view_of("ab\ncd", 5, 10);
    go(&mut view, Direction::Down);
    view.mark_redraw(false);
    view.load("xyz", "other.txt");
    assert_eq!(line_texts(&view), vec!["xyz"]);
    assert_eq!(view.text_location(), at(1, 0));
    assert!(view.needs_redraw());
    assert!(!view.buffer().dirty);
    assert_eq!(view.buffer().file_info.path(), Some(String::from("other.txt")));
}

#[test]
fn view_save_asks_for_the_text() {
    assert!(matches!(View::default().save(), Err(SaveError::NoFileName)));
    let mut view = view_of("ab", 5, 10);
    view.handle_command(EditorCommand::Insert('x'));
    let request = match view.save() {
        Ok(request) => request,
        Err(_) => panic!("a document with a file can be saved"),
    };
    assert_eq!(request.path, "dir/text.txt");
    assert_eq!(request.contents, "xab\n");
    assert!(view.buffer().dirty);
    view.mark_saved();
    assert!(!view.buffer().dirty);
}

#[test]
fn status_tells_of_the_document() {
    let mut view = view_of("a\nb\nc", 5, 10);
    go(&mut view, Direction::Down);
    let status = view.get_status();
    assert_eq!(status.total_lines, 3);
    assert_eq!(status.current_line_index, 1);
    assert_eq!(status.file_name, "text.txt");
    assert!(!status.is_modified);
    view.handle_command(EditorCommand::Insert('x'));
    assert!(view.get_status().is_modified);
    let unnamed = View::default().get_status();
    assert_eq!(unnamed.total_lines, 0);
    assert_eq!(unnamed.file_name, "[No Name]");
}

#[test]
fn draw_gives_every_row_of_the_window() {
    let view = view_of("ab\ncd", 4, 10);
    let rows = view.draw(0);
    assert_eq!(row_texts(&rows), vec!["ab", "cd", "~", "~"]);
    let numbers: Vec<usize> = rows.iter().map(|row| row.row).collect();
    assert_eq!(numbers, vec![0, 1, 2, 3]);
}

#[test]
fn draw_from_another_row_of_the_screen() {
    let view = view_of("ab\ncd\nef", 2, 10);
    let rows = view.draw(7);
    assert_eq!(row_texts(&rows), vec!["ab", "cd"]);
    assert_eq!(rows[0].row, 7);
    assert_eq!(rows[1].row, 8);
    // rows that do not fit below the largest row number are left out
    assert_eq!(view.draw(usize::MAX - 1).len(), 1);
    assert_eq!(view.draw(usize::MAX).len(), 0);
}

#[test]
fn draw_shows_the_scrolled_part() {
    let mut view = view_of("0123456789\nabcdefghij\nxy", 2, 4);
    go(&mut view, Direction::Down);
    go(&mut view, Direction::Down);
    assert_eq!(view.scroll_offset(), Position { col: 0, row: 1 });
    assert_eq!(row_texts(&view.draw(0)), vec!["abcd", "xy"]);
    go(&mut view, Direction::Up);
    go(&mut view, Direction::End);
    assert_eq!(view.scroll_offset(), Position { col: 7, row: 1 });
    assert_eq!(row_texts(&view.draw(0)), vec!["hij", ""]);
}

#[test]
fn empty_document_shows_the_banner_a_third_down() {
    let mut view = View::default();
    view.handle_command(EditorCommand::Resize(Size { height: 9, width: 41 }));
    let rows = view.draw(0);
    assert_eq!(rows.len(), 9);
    let message = "textview editor -- version 0.1.0";
    assert_eq!(rows[3].text, format!("~    {message}    "));
    assert_eq!(rows[3].text, format!("{:<1}{:^40}", "~", message));
    assert_eq!(rows[3].text.chars().count(), 41);
    let mut k = 0;
    while k < 9 {
        if k != 3 {
            assert_eq!(rows[k].text, "~");
        }
        k += 1;
    }
}

#[test]
fn banner_is_centred_with_the_odd_space_on_the_right() {
    let mut view = View::default();
    view.handle_command(EditorCommand::Resize(Size { height: 3, width: 36 }));
    let message = "textview editor -- version 0.1.0";
    assert_eq!(view.draw(0)[1].text, format!("~ {message}  "));
    assert_eq!(view.draw(0)[1].text, format!("{:<1}{:^35}", "~", message));
}

#[test]
fn banner_needs_room() {
    let mut view = View::default();
    view.handle_command(EditorCommand::Resize(Size { height: 3, width: 33 }));
    assert_eq!(view.draw(0)[1].text, "~textview editor -- version 0.1.0");
    view.handle_command(EditorCommand::Resize(Size { height: 3, width: 32 }));
    assert_eq!(view.draw(0)[1].text, "~");
    view.handle_command(EditorCommand::Resize(Size { height: 3, width: 0 }));
    assert_eq!(view.draw(0)[1].text, "");
    assert_eq!(view.draw(0)[0].text, "~");
}

#[test]
fn a_document_of_one_empty_line_shows_no_banner() {
    let view = view_of("\n", 6, 60);
    assert_eq!(row_texts(&view.draw(0)), vec!["", "~", "~", "~", "~", "~"]);
}

#[test]
fn render_draws_only_what_has_changed() {
    let mut view = view_of("ab", 2, 10);
    assert!(view.needs_redraw());
    let rows = match view.render(0) {
        Some(rows) => rows,
        None => panic!("a changed view is drawn"),
    };
    assert_eq!(row_texts(&rows), vec!["ab", "~"]);
    // until it is told that the rows are on screen, the view stays changed
    assert!(view.render(0).is_some());
    view.mark_redraw(false);
    assert!(view.render(0).is_none());
    view.handle_command(EditorCommand::Insert('x'));
    assert!(view.render(0).is_some());
}

#[test]
fn cursor_stays_in_the_window_after_edits() {
    let mut view = view_of("0123456789\nab\n世界世界世界", 2, 5);
    let commands = [
        EditorCommand::Move(Direction::End),
        EditorCommand::Insert('x'),
        EditorCommand::Insert('y'),
        EditorCommand::Enter,
        EditorCommand::Insert('世'),
        EditorCommand::Backspace,
        EditorCommand::Backspace,
        EditorCommand::Backspace,
        EditorCommand::Move(Direction::Down),
        EditorCommand::Delete,
        EditorCommand::Delete,
        EditorCommand::Delete,
        EditorCommand::Move(Direction::End),
        EditorCommand::Enter,
        EditorCommand::Enter,
        EditorCommand::Insert('\u{301}'),
        EditorCommand::Save,
        EditorCommand::Quit,
        EditorCommand::Move(Direction::PageUp),
        EditorCommand::Backspace,
    ];
    for command in commands {
        view.handle_command(command);
        assert!(cursor_is_visible(&view), "after {command:?}");
    }
    assert_eq!(line_texts(&view), vec!["0123456789x", "ab世界世界", "\u{301}"]);
    assert_eq!(view.text_location(), at(1, 6));
}
