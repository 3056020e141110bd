use textview::editor::{banner_string, Editor, NAME, QUIT_TIMES, VERSION};
use textview::editorcommand::{Direction, EditorCommand, InputEvent, Key, KeyKind, Modifiers};
use textview::terminal::{Position, Size};
use textview::view::Location;

const NONE: Modifiers = Modifiers { shift: false, control: false, alt: false, other: false };
const CONTROL: Modifiers = Modifiers { shift: false, control: true, alt: false, other: false };

fn press(code: Key, modifiers: Modifiers) -> InputEvent {
    InputEvent::Key { code, modifiers, kind: KeyKind::Press }
}

fn editor_with(text: &str) -> Editor {
    let mut editor = Editor::new(Size { height: 12, width: 40 });
    editor.load(text, "dir/notes.txt");
    editor.refresh_status();
    editor
}

fn line_texts(editor: &Editor) -> Vec<String> {
    editor.viewport().buffer().lines.iter().map(|line| line.to_string()).collect()
}

#[test]
fn banner_names_the_editor() {
    assert_eq!(NAME, "textview");
    assert_eq!(VERSION, "0.1.0");
    assert_eq!(banner_string(), "textview editor -- version 0.1.0");
}

#[test]
fn new_editor_shows_the_keys() {
    let editor = Editor::new(Size { height: 24, width: 80 });
    assert!(!editor.should_quit());
    assert_eq!(editor.quit_times(), 0);
    assert_eq!(editor.terminal_size(), Size { height: 24, width: 80 });
    assert_eq!(editor.message_bar().message(), "HELP: Ctrl-S = save | Ctrl-D = quit");
    assert!(editor.viewport().buffer().is_empty());
    assert_eq!(editor.viewport().size(), Size { height: 22, width: 80 });
    assert_eq!(editor.status_bar().width(), 80);
}

#[test]
fn default_editor_knows_no_terminal() {
    let editor = Editor::default();
    assert!(!editor.should_quit());
    assert_eq!(editor.terminal_size(), Size { height: 0, width: 0 });
    assert_eq!(editor.message_bar().message(), "");
    assert!(!editor.viewport().needs_redraw());
}

#[test]
fn resize_leaves_two_rows_to_the_bars() {
    let mut editor = Editor::default();
    editor.resize(Size { height: 10, width: 30 });
    assert_eq!(editor.terminal_size(), Size { height: 10, width: 30 });
    assert_eq!(editor.viewport().size(), Size { height: 8, width: 30 });
    assert_eq!(editor.status_bar().width(), 30);
    assert!(editor.viewport().needs_redraw());
    assert!(editor.status_bar().needs_redraw());
    assert!(editor.message_bar().needs_redraw_when(false));
    editor.resize(Size { height: 1, width: 30 });
    assert_eq!(editor.viewport().size(), Size { height: 0, width: 30 });
}

#[test]
fn refresh_status_names_the_title() {
    let mut editor = Editor::new(Size { height: 12, width: 40 });
    let title = editor.refresh_status();
    assert_eq!(title, Some(String::from("[No Name] - textview")));
    // until the terminal has the title, it is asked for again
    assert_eq!(editor.refresh_status(), Some(String::from("[No Name] - textview")));
    editor.title_set(String::from("[No Name] - textview"));
    assert_eq!(editor.refresh_status(), None);
    editor.load("a\nb", "dir/notes.txt");
    assert_eq!(editor.refresh_status(), Some(String::from("notes.txt - textview")));
    assert_eq!(editor.status_bar().draw(), "notes.txt - 2 lines                  1/2");
}

#[test]
fn update_status_tells_the_status_bar() {
    let mut editor = editor_with("a\nb\nc");
    editor.mark_drawn(true, true, true);
    editor.update_status();
    assert!(!editor.status_bar().needs_redraw());
    editor.process_command(EditorCommand::Move(Direction::Down));
    editor.update_status();
    assert!(editor.status_bar().needs_redraw());
    assert_eq!(editor.status_bar().draw(), "notes.txt - 3 lines                  2/3");
}

#[test]
fn load_failure_is_told_and_the_document_stays_empty() {
    let mut editor = Editor::new(Size { height: 12, width: 40 });
    editor.load_failed("missing.txt");
    assert_eq!(editor.message_bar().message(), "ERR: Could not open file: missing.txt");
    assert!(editor.viewport().buffer().is_empty());
    assert_eq!(editor.viewport().buffer().file_info.path(), None);
}

#[test]
fn quitting_an_unchanged_document_ends_at_once() {
    let mut editor = editor_with("a");
    assert_eq!(editor.process_command(EditorCommand::Quit).is_some(), false);
    assert!(editor.should_quit());
    assert_eq!(editor.quit_times(), 0);
}

#[test]
fn quitting_a_changed_document_takes_three_times() {
    assert_eq!(QUIT_TIMES, 3);
    let mut editor = editor_with("a");
    editor.process_command(EditorCommand::Insert('x'));
    editor.handle_quit();
    assert!(!editor.should_quit());
    assert_eq!(editor.quit_times(), 1);
    assert_eq!(
        editor.message_bar().message(),
        "WARNING! File has unsaved changes. Press Ctrl-D 2 more times to quit."
    );
    editor.process_command(EditorCommand::Quit);
    assert!(!editor.should_quit());
    assert_eq!(editor.quit_times(), 2);
    assert_eq!(
        editor.message_bar().message(),
        "WARNING! File has unsaved changes. Press Ctrl-D 1 more times to quit."
    );
    editor.process_command(EditorCommand::Quit);
    assert!(editor.should_quit());
    assert_eq!(editor.quit_times(), 2);
}

#[test]
fn another_command_starts_the_count_again() {
    let mut editor = editor_with("ab");
    editor.process_command(EditorCommand::Insert('x'));
    editor.process_command(EditorCommand::Quit);
    editor.process_command(EditorCommand::Quit);
    assert_eq!(editor.quit_times(), 2);
    editor.process_command(EditorCommand::Move(Direction::Right));
    assert_eq!(editor.quit_times(), 0);
    assert_eq!(editor.message_bar().message(), "");
    editor.process_command(EditorCommand::Quit);
    assert!(!editor.should_quit());
    assert_eq!(editor.quit_times(), 1);
}

#[test]
fn a_resize_does_not_start_the_count_again() {
    let mut editor = editor_with("ab");
    editor.process_command(EditorCommand::Insert('x'));
    editor.process_command(EditorCommand::Quit);
    editor.process_command(EditorCommand::Resize(Size { height: 20, width: 50 }));
    assert_eq!(editor.quit_times(), 1);
    assert_eq!(editor.terminal_size(), Size { height: 20, width: 50 });
    assert_eq!(
        editor.message_bar().message(),
        "WARNING! File has unsaved changes. Press Ctrl-D 2 more times to quit."
    );
}

#[test]
fn reset_quit_times_without_a_count_keeps_the_message() {
    let mut editor = Editor::new(Size { height: 12, width: 40 });
    editor.reset_quit_times();
    assert_eq!(editor.message_bar().message(), "HELP: Ctrl-S = save | Ctrl-D = quit");
}

#[test]
fn commands_reach_the_view() {
    let mut editor = editor_with("ab\ncd");
    editor.process_command(EditorCommand::Move(Direction::Down));
    editor.process_command(EditorCommand::Insert('x'));
    editor.process_command(EditorCommand::Enter);
    editor.process_command(EditorCommand::Backspace);
    editor.process_command(EditorCommand::Move(Direction::Home));
    editor.process_command(EditorCommand::Delete);
    assert_eq!(line_texts(&editor), vec!["ab", "cd"]);
    assert_eq!(
        editor.viewport().text_location(),
        Location { grapheme_index: 0, line_index: 1 }
    );
    assert!(editor.viewport().buffer().dirty);
}

#[test]
fn saving_hands_out_what_to_write() {
    let mut editor = editor_with("ab");
    editor.process_command(EditorCommand::Insert('x'));
    let request = match editor.process_command(EditorCommand::Save) {
        Some(request) => request,
        None => panic!("a document with a file is written"),
    };
    assert_eq!(request.path, "dir/notes.txt");
    assert_eq!(request.contents, "xab\n");
    assert!(editor.viewport().buffer().dirty);
    editor.save_finished(true);
    assert!(!editor.viewport().buffer().dirty);
    assert_eq!(editor.message_bar().message(), "File saved successfully.");
}

#[test]
fn a_failed_write_leaves_the_document_changed() {
    let mut editor = editor_with("ab");
    editor.process_command(EditorCommand::Insert('x'));
    assert!(editor.handle_save().is_some());
    editor.save_finished(false);
    assert!(editor.viewport().buffer().dirty);
    assert_eq!(editor.message_bar().message(), "Error writing file!");
}

#[test]
fn saving_without_a_file_fails() {
    let mut editor = Editor::new(Size { height: 12, width: 40 });
    editor.process_command(EditorCommand::Insert('x'));
    assert!(editor.process_command(EditorCommand::Save).is_none());
    assert_eq!(editor.message_bar().message(), "Error writing file!");
    assert!(editor.viewport().buffer().dirty);
}

#[test]
fn only_pressed_keys_count() {
    let mut editor = editor_with("");
    for kind in [KeyKind::Release, KeyKind::Repeat] {
        let event = InputEvent::Key { code: Key::Char('a'), modifiers: NONE, kind };
        assert!(editor.evaluate_event(event).is_none());
    }
    assert!(editor.viewport().buffer().is_empty());
    editor.evaluate_event(press(Key::Char('a'), NONE));
    assert_eq!(line_texts(&editor), vec!["a"]);
}

#[test]
fn events_become_commands() {
    let mut editor = editor_with("ab");
    editor.evaluate_event(press(Key::End, NONE));
    editor.evaluate_event(press(Key::Char('!'), NONE));
    editor.evaluate_event(press(Key::Other, NONE));
    editor.evaluate_event(InputEvent::Other);
    assert_eq!(line_texts(&editor), vec!["ab!"]);
    editor.evaluate_event(InputEvent::Resize(30, 9));
    assert_eq!(editor.terminal_size(), Size { height: 9, width: 30 });
    let request = editor.evaluate_event(press(Key::Char('s'), CONTROL));
    assert_eq!(request.map(|request| request.contents), Some(String::from("ab!\n")));
    editor.evaluate_event(press(Key::Char('d'), CONTROL));
    assert!(!editor.should_quit());
    assert_eq!(editor.quit_times(), 1);
}

#[test]
fn frame_holds_every_part_that_has_changed() {
    let mut editor = editor_with("ab\ncd");
    let frame = match editor.refresh_screen_when(false) {
        Some(frame) => frame,
        None => panic!("a terminal with rows and columns gets a frame"),
    };
    let message = match frame.message {
        Some(row) => row,
        None => panic!("the message is new"),
    };
    assert_eq!(message.row, 11);
    assert_eq!(message.text, "HELP: Ctrl-S = save | Ctrl-D = quit");
    let status = match frame.status {
        Some(row) => row,
        None => panic!("the status is new"),
    };
    assert_eq!(status.row, 10);
    assert_eq!(status.text, "notes.txt - 2 lines                  1/2");
    let rows = match frame.view {
        Some(rows) => rows,
        None => panic!("the view is new"),
    };
    assert_eq!(rows.len(), 10);
    assert_eq!(rows[0].text, "ab");
    assert_eq!(rows[1].text, "cd");
    assert_eq!(rows[2].text, "~");
    assert_eq!(rows[9].row, 9);
    assert_eq!(frame.caret, Position { col: 0, row: 0 });
}

#[test]
fn frame_leaves_out_what_is_on_screen() {
    let mut editor = editor_with("ab\ncd");
    editor.mark_drawn(true, false, true);
    let frame = match editor.refresh_screen_when(false) {
        Some(frame) => frame,
        None => panic!("a terminal with rows and columns gets a frame"),
    };
    assert!(frame.message.is_none());
    assert!(frame.status.is_some());
    assert!(frame.view.is_none());
    editor.mark_drawn(false, true, false);
    editor.process_command(EditorCommand::Move(Direction::End));
    let frame = match editor.refresh_screen() {
        Some(frame) => frame,
        None => panic!("a terminal with rows and columns gets a frame"),
    };
    assert!(frame.message.is_none());
    assert!(frame.status.is_none());
    assert!(frame.view.is_none());
    assert_eq!(frame.caret, Position { col: 2, row: 0 });
}

#[test]
fn frame_draws_the_message_bar_empty_when_the_message_runs_out() {
    let mut editor = editor_with("ab");
    editor.mark_drawn(true, true, true);
    let frame = match editor.refresh_screen_when(true) {
        Some(frame) => frame,
        None => panic!("a terminal with rows and columns gets a frame"),
    };
    assert_eq!(frame.message.map(|row| row.text), Some(String::new()));
    let again = match editor.refresh_screen_when(true) {
        Some(frame) => frame,
        None => panic!("a terminal with rows and columns gets a frame"),
    };
    assert!(again.message.is_none());
}

#[test]
fn small_terminals_show_fewer_parts() {
    let mut editor = Editor::new(Size { height: 2, width: 40 });
    let frame = match editor.refresh_screen_when(false) {
        Some(frame) => frame,
        None => panic!("a terminal with rows and columns gets a frame"),
    };
    assert_eq!(frame.message.map(|row| row.row), Some(1));
    assert_eq!(frame.status.map(|row| row.row), Some(0));
    assert!(frame.view.is_none());
    let mut one = Editor::new(Size { height: 1, width: 40 });
    let frame = match one.refresh_screen_when(false) {
        Some(frame) => frame,
        None => panic!("a terminal with rows and columns gets a frame"),
    };
    assert_eq!(frame.message.map(|row| row.row), Some(0));
    assert!(frame.status.is_none());
    assert!(frame.view.is_none());
}

#[test]
fn a_terminal_without_rows_or_columns_gets_no_frame() {
    assert!(Editor::new(Size { height: 0, width: 40 }).refresh_screen_when(false).is_none());
    assert!(Editor::new(Size { height: 5, width: 0 }).refresh_screen().is_none());
    let mut editor = Editor::default();
    assert!(editor.refresh_screen_when(true).is_none());
    // nothing was drawn, so the message bar still waits for its turn
    assert!(editor.message_bar().needs_redraw_when(true));
}
