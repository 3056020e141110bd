//! The editor: a view of a document with a status bar and a message bar
//! beneath it, and the commands that drive them.

use crate::editorcommand::{command_of, EditorCommand, InputEvent, KeyKind};
use crate::messagebar::{MessageBar, MessageBarState};
use crate::statusbar::{status_text, Statusbar, StatusbarState};
use crate::terminal::{Position, Size};
use crate::text::{decimal, decimal_string};
use crate::view::buffer::{loaded_lines, saved_text, Document, SaveRequest};
use crate::view::{sat_sub, Row, View, ViewState};
use vstd::prelude::*;
use vstd::view::View as _;

verus! {

/// The name of the editor.
pub const NAME: &'static str = "textview";

/// The version of the editor.
pub const VERSION: &'static str = "0.1.0";

/// How often in a row quitting has to be asked for while the document has
/// unsaved changes.
pub const QUIT_TIMES: u8 = 3;

/// The text of the banner that an empty document shows.
pub open spec fn banner() -> Seq<char> {
    NAME@ + " editor -- version "@ + VERSION@
}

/// Makes the text of the banner.
pub fn banner_string() -> (text: String)
    ensures
        text@ == banner(),
{
    let mut text = String::from_str(NAME);
    text.append(" editor -- version ");
    text.append(VERSION);
    text
}

/// The message that tells the keys.
pub open spec fn help_message() -> Seq<char> {
    "HELP: Ctrl-S = save | Ctrl-D = quit"@
}

/// The message after the document has been written.
pub open spec fn saved_message() -> Seq<char> {
    "File saved successfully."@
}

/// The message after the document could not be written.
pub open spec fn save_failed_message() -> Seq<char> {
    "Error writing file!"@
}

/// The message after the file at `file_name` could not be read.
pub open spec fn load_failed_message(file_name: Seq<char>) -> Seq<char> {
    "ERR: Could not open file: "@ + file_name
}

/// The message that asks for quitting to be confirmed `times` more times.
pub open spec fn quit_warning(times: nat) -> Seq<char> {
    "WARNING! File has unsaved changes. Press Ctrl-D "@ + decimal(times) + " more times to quit."@
}

/// The title of the terminal for a document shown under `file_name`.
pub open spec fn title_of(file_name: Seq<char>) -> Seq<char> {
    file_name + " - "@ + NAME@
}

/// Whether the editor takes an event up at all: a key only when it is
/// pressed, a new size always, nothing else.
pub open spec fn is_processed(event: InputEvent) -> bool {
    match event {
        InputEvent::Key { kind, .. } => kind == KeyKind::Press,
        InputEvent::Resize(_, _) => true,
        InputEvent::Other => false,
    }
}

/// What an `Editor` holds.
pub struct EditorState {
    /// Whether the editor is to end.
    pub should_quit: bool,
    /// The view of the document.
    pub view: ViewState,
    /// The status bar.
    pub status_bar: StatusbarState,
    /// The message bar.
    pub message_bar: MessageBarState,
    /// The size of the terminal.
    pub terminal_size: Size,
    /// The title that the terminal has been given.
    pub title: Seq<char>,
    /// How often in a row quitting has been asked for in vain.
    pub quit_times: u8,
}

impl EditorState {
    /// Whether the state is one that an editor gets into: quitting has been
    /// asked for in vain less often than it takes to quit.
    pub open spec fn wf(self) -> bool {
        self.quit_times < QUIT_TIMES
    }

    /// The editor with another message, which is to be drawn.
    pub open spec fn with_message(self, text: Seq<char>) -> EditorState {
        EditorState {
            message_bar: MessageBarState {
                text,
                needs_redraw: true,
                cleared_after_expiry: false,
            },
            ..self
        }
    }

    /// The editor in a terminal of another size: the view takes all rows
    /// but the last two, the status bar and the message bar one row each,
    /// and all are to be drawn again.
    pub open spec fn resize(self, size: Size) -> EditorState {
        EditorState {
            terminal_size: size,
            view: self.view.resize(Size { height: sat_sub(size.height, 2), width: size.width }),
            message_bar: MessageBarState { needs_redraw: true, ..self.message_bar },
            status_bar: StatusbarState {
                size: Size { height: 1, width: size.width },
                needs_redraw: true,
                ..self.status_bar
            },
            ..self
        }
    }

    /// The editor with the status bar told of the document.
    pub open spec fn update_status(self) -> EditorState {
        EditorState { status_bar: self.status_bar.update_status(self.view.status()), ..self }
    }

    /// The editor after it has been asked to quit. It ends at once while
    /// the document has no unsaved changes, and else at the third time in a
    /// row; before that it warns and counts.
    pub open spec fn handle_quit(self) -> EditorState {
        if !self.view.document.dirty || self.quit_times + 1 == QUIT_TIMES {
            EditorState { should_quit: true, ..self }
        } else {
            EditorState {
                quit_times: (self.quit_times + 1) as u8,
                ..self.with_message(quit_warning((QUIT_TIMES - self.quit_times - 1) as nat))
            }
        }
    }

    /// The editor after a command that neither quits nor resizes: the count
    /// of vain attempts to quit starts again, and a warning goes.
    pub open spec fn reset_quit_times(self) -> EditorState {
        if self.quit_times > 0 {
            EditorState { quit_times: 0, ..self.with_message(Seq::empty()) }
        } else {
            self
        }
    }

    /// The editor after the user has asked to save: waiting for the file to
    /// be written where the document has one, else telling of the failure.
    pub open spec fn handle_save(self) -> EditorState {
        if self.view.document.file.path is Some {
            self
        } else {
            self.with_message(save_failed_message())
        }
    }

    /// The editor after the file has or has not been written.
    pub open spec fn save_finished(self, written: bool) -> EditorState {
        if written {
            (EditorState {
                view: self.view.with_document(Document { dirty: false, ..self.view.document }),
                ..self
            }).with_message(saved_message())
        } else {
            self.with_message(save_failed_message())
        }
    }

    /// The editor after a command.
    pub open spec fn process_command(self, command: EditorCommand) -> EditorState {
        match command {
            EditorCommand::Quit => self.handle_quit(),
            EditorCommand::Resize(size) => self.resize(size),
            EditorCommand::Save => self.reset_quit_times().handle_save(),
            _ => {
                let reset = self.reset_quit_times();
                EditorState { view: reset.view.handle_command(command), ..reset }
            },
        }
    }

    /// Whether a command asks for the document to be written.
    pub open spec fn asks_to_write(self, command: EditorCommand) -> bool {
        command is Save && self.view.document.file.path is Some
    }

    /// The editor after an event.
    pub open spec fn evaluate_event(self, event: InputEvent) -> EditorState {
        if is_processed(event) && command_of(event) is Ok {
            self.process_command(command_of(event)->Ok_0)
        } else {
            self
        }
    }
}

impl EditorState {
    /// The editor after a frame has been made for the screen, given whether
    /// the message has had its time: a message bar that was drawn knows so.
    pub open spec fn refresh_screen_when(self, expired: bool) -> EditorState {
        if self.terminal_size.height == 0 || self.terminal_size.width == 0
            || !self.message_bar.needs_redraw_when(expired) {
            self
        } else {
            EditorState { message_bar: self.message_bar.drawn_when(expired), ..self }
        }
    }

    /// Whether `frame` is what is to be put on screen, given whether the
    /// message has had its time. The message bar takes the last row, the
    /// status bar the row above it where the terminal has two rows, the view
    /// the rows from the first on where it has more. Each part is in the
    /// frame if and only if it is to be drawn again.
    pub open spec fn shows(self, expired: bool, frame: Frame) -> bool {
        let height = self.terminal_size.height;
        &&& match frame.message {
            Some(row) => {
                &&& self.message_bar.needs_redraw_when(expired)
                &&& row.row == height - 1
                &&& row.text@ == self.message_bar.text_when(expired)
            },
            None => !self.message_bar.needs_redraw_when(expired),
        }
        &&& match frame.status {
            Some(row) => {
                &&& height > 1 && self.status_bar.needs_redraw
                &&& row.row == height - 2
                &&& row.text@ == status_text(
                    self.status_bar.current_status,
                    self.status_bar.size.width,
                )
            },
            None => !(height > 1 && self.status_bar.needs_redraw),
        }
        &&& match frame.view {
            Some(rows) => {
                &&& height > 2 && self.view.needs_redraw
                &&& rows@.len() == self.view.size.height
                &&& forall|k: int|
                    0 <= k < rows@.len() ==> (#[trigger] rows@[k]).row == k && rows@[k].text@
                        == self.view.row_text(0, k as usize)
            },
            None => !(height > 2 && self.view.needs_redraw),
        }
        &&& frame.caret == self.view.position().spec_saturating_sub(self.view.scroll_offset)
    }

    /// The editor after the parts named have been put on screen: they need
    /// not be drawn again.
    pub open spec fn mark_drawn(self, message: bool, status: bool, view: bool) -> EditorState {
        EditorState {
            message_bar: if message {
                MessageBarState { needs_redraw: false, ..self.message_bar }
            } else {
                self.message_bar
            },
            status_bar: if status {
                StatusbarState { needs_redraw: false, ..self.status_bar }
            } else {
                self.status_bar
            },
            view: if view {
                ViewState { needs_redraw: false, ..self.view }
            } else {
                self.view
            },
            ..self
        }
    }
}

/// What is to be put on screen: the rows of the parts that have changed,
/// and the cell of the cursor.
pub struct Frame {
    /// The message bar, in the last row of the terminal.
    pub message: Option<Row>,
    /// The status bar, in the row above, to be printed inverted.
    pub status: Option<Row>,
    /// The rows of the view, from the first row of the terminal on.
    pub view: Option<Vec<Row>>,
    /// Where the cursor is to be put.
    pub caret: Position,
}

/// The editor.
pub struct Editor {
    should_quit: bool,
    view: View,
    status_bar: Statusbar,
    message_bar: MessageBar,
    terminal_size: Size,
    title: String,
    quit_times: u8,
}

impl vstd::view::View for Editor {
    type V = EditorState;

    closed spec fn view(&self) -> EditorState {
        EditorState {
            should_quit: self.should_quit,
            view: self.view@,
            status_bar: self.status_bar@,
            message_bar: self.message_bar@,
            terminal_size: self.terminal_size,
            title: self.title@,
            quit_times: self.quit_times,
        }
    }
}

impl Editor {
    /// The editor in a terminal of the size `size`: an empty document, and
    /// a message that tells the keys.
    pub fn new(size: Size) -> (editor: Editor)
        ensures
            editor@.wf(),
            !editor@.should_quit,
            editor@.quit_times == 0,
            editor@.terminal_size == size,
            editor@.title == Seq::<char>::empty(),
            editor@.message_bar.text == help_message(),
            editor@.view.document.lines.len() == 0,
            editor@.view.document.file.path is None,
            !editor@.view.document.dirty,
            editor@.view.size == (Size { height: sat_sub(size.height, 2), width: size.width }),
            editor@.status_bar.size == (Size { height: 1, width: size.width }),
    {
        let mut editor = Editor::default();
        editor.resize(size);
        editor.message_bar.update_message("HELP: Ctrl-S = save | Ctrl-D = quit");
        editor
    }

    /// Shows the document that the text `contents` of the file at
    /// `file_name` makes.
    pub fn load(&mut self, contents: &str, file_name: &str)
        ensures
            final(self)@.view.document.lines == loaded_lines(contents@),
            final(self)@.view.document.file.path == Some(file_name@),
            !final(self)@.view.document.dirty,
            final(self)@ == (EditorState {
                view: old(self)@.view.with_document(final(self)@.view.document).marked(),
                ..old(self)@
            }),
    {
        self.view.load(contents, file_name);
    }

    /// Tells the user that the file at `file_name` could not be read. The
    /// document stays as it is.
    pub fn load_failed(&mut self, file_name: &str)
        ensures
            final(self)@ == old(self)@.with_message(load_failed_message(file_name@)),
    {
        let mut message = String::from_str("ERR: Could not open file: ");
        message.append(file_name);
        self.message_bar.update_message(message.as_str());
    }

    /// What is to be put on screen, for a message that has or has not had
    /// its time: nothing in a terminal without rows or columns, else the
    /// parts that are to be drawn again and the cell of the cursor. Once a
    /// part is on screen, `mark_drawn` tells the editor so.
    pub fn refresh_screen_when(&mut self, expired: bool) -> (frame: Option<Frame>)
        ensures
            final(self)@ == old(self)@.refresh_screen_when(expired),
            frame is None == (old(self)@.terminal_size.height == 0 || old(
                self,
            )@.terminal_size.width == 0),
            frame matches Some(frame) ==> old(self)@.shows(expired, frame),
    {
        if self.terminal_size.height == 0 || self.terminal_size.width == 0 {
            return None;
        }
        let height = self.terminal_size.height;
        let message = match self.message_bar.render_when(expired) {
            Some(text) => Some(Row { row: height.saturating_sub(1), text }),
            None => None,
        };
        let status = if height > 1 {
            match self.status_bar.render() {
                Some(text) => Some(Row { row: height.saturating_sub(2), text }),
                None => None,
            }
        } else {
            None
        };
        let view = if height > 2 {
            self.view.render(0)
        } else {
            None
        };
        let caret = self.view.caret_position();
        Some(Frame { message, status, view, caret })
    }

    /// What is to be put on screen, by the clock.
    pub fn refresh_screen(&mut self) -> (frame: Option<Frame>)
        ensures
            exists|expired: bool|
                {
                    &&& final(self)@ == old(self)@.refresh_screen_when(expired)
                    &&& frame matches Some(frame) ==> old(self)@.shows(expired, frame)
                },
            frame is None == (old(self)@.terminal_size.height == 0 || old(
                self,
            )@.terminal_size.width == 0),
    {
        let expired = self.message_bar.is_expired();
        self.refresh_screen_when(expired)
    }

    /// Takes note of the parts of a frame that have been put on screen.
    pub fn mark_drawn(&mut self, message: bool, status: bool, view: bool)
        ensures
            final(self)@ == old(self)@.mark_drawn(message, status, view),
    {
        if message {
            self.message_bar.set_needs_redraw(false);
        }
        if status {
            self.status_bar.set_needs_redraw(false);
        }
        if view {
            self.view.mark_redraw(false);
        }
    }

    /// The view of the document.
    pub fn viewport(&self) -> (view: &View)
        ensures
            view@ == self@.view,
    {
        &self.view
    }

    /// The status bar.
    pub fn status_bar(&self) -> (bar: &Statusbar)
        ensures
            bar@ == self@.status_bar,
    {
        &self.status_bar
    }

    /// The message bar.
    pub fn message_bar(&self) -> (bar: &MessageBar)
        ensures
            bar@ == self@.message_bar,
    {
        &self.message_bar
    }

    /// The size of the terminal.
    pub fn terminal_size(&self) -> (size: Size)
        ensures
            size == self@.terminal_size,
    {
        self.terminal_size
    }

    /// How often in a row quitting has been asked for in vain.
    pub fn quit_times(&self) -> (times: u8)
        ensures
            times == self@.quit_times,
    {
        self.quit_times
    }

    /// Whether the editor is to end.
    pub fn should_quit(&self) -> (value: bool)
        ensures
            value == self@.should_quit,
    {
        self.should_quit
    }

    /// Gives the editor a terminal of another size.
    pub fn resize(&mut self, size: Size)
        ensures
            final(self)@ == old(self)@.resize(size),
    {
        self.terminal_size = size;
        self.view.resize(Size { height: size.height.saturating_sub(2), width: size.width });
        self.message_bar.resize(Size { height: 1, width: size.width });
        self.status_bar.resize(Size { height: 1, width: size.width });
    }

    /// Tells the status bar of the document.
    pub fn update_status(&mut self)
        ensures
            final(self)@ == old(self)@.update_status(),
    {
        let status = self.view.get_status();
        self.status_bar.update_status(status);
    }

    /// Tells the status bar of the document and hands back the title that
    /// the terminal is to get, where it differs from the title it has.
    /// Once the terminal has it, `title_set` tells the editor so.
    pub fn refresh_status(&mut self) -> (title: Option<String>)
        ensures
            final(self)@ == old(self)@.update_status(),
            match title {
                Some(title) => title@ == title_of(old(self)@.view.status().file_name) && title@
                    != old(self)@.title,
                None => title_of(old(self)@.view.status().file_name) == old(self)@.title,
            },
    {
        let status = self.view.get_status();
        let mut title = status.file_name.clone();
        title.append(" - ");
        title.append(NAME);
        self.status_bar.update_status(status);
        if title != self.title {
            Some(title)
        } else {
            None
        }
    }

    /// Takes note of the title that the terminal has been given.
    pub fn title_set(&mut self, title: String)
        ensures
            final(self)@ == (EditorState { title: title@, ..old(self)@ }),
    {
        self.title = title;
    }

    /// Reads an event and carries out the command that it gives, if any. A
    /// key counts when it is pressed, not when it repeats or is let go.
    /// Hands back what is to be written where the command asks for the
    /// document to be saved; `save_finished` then takes the outcome.
    pub fn evaluate_event(&mut self, event: InputEvent) -> (request: Option<SaveRequest>)
        requires
            old(self)@.wf(),
        ensures
            final(self)@ == old(self)@.evaluate_event(event),
            final(self)@.wf(),
            request is Some == (is_processed(event) && command_of(event) is Ok && old(
                self,
            )@.asks_to_write(command_of(event)->Ok_0)),
            request matches Some(request) ==> {
                &&& old(self)@.view.document.file.path == Some(request.path@)
                &&& request.contents@ == saved_text(old(self)@.view.document.lines)
            },
    {
        let should_process = match &event {
            InputEvent::Key { kind, .. } => match kind {
                KeyKind::Press => true,
                _ => false,
            },
            InputEvent::Resize(_, _) => true,
            _ => false,
        };
        if should_process {
            match EditorCommand::try_from(event) {
                Ok(command) => self.process_command(command),
                Err(_) => None,
            }
        } else {
            None
        }
    }

    /// Carries out a command. Hands back what is to be written where the
    /// command asks for the document to be saved; `save_finished` then takes
    /// the outcome.
    pub fn process_command(&mut self, command: EditorCommand) -> (request: Option<SaveRequest>)
        requires
            old(self)@.wf(),
        ensures
            final(self)@ == old(self)@.process_command(command),
            final(self)@.wf(),
            request is Some == old(self)@.asks_to_write(command),
            request matches Some(request) ==> {
                &&& old(self)@.view.document.file.path == Some(request.path@)
                &&& request.contents@ == saved_text(old(self)@.view.document.lines)
            },
    {
        match command {
            EditorCommand::Quit => self.handle_quit(),
            EditorCommand::Resize(size) => self.resize(size),
            _ => self.reset_quit_times(),
        }
        match command {
            EditorCommand::Quit | EditorCommand::Resize(_) => None,
            EditorCommand::Save => self.handle_save(),
            _ => {
                self.view.handle_command(command);
                None
            },
        }
    }

    /// Begins to save the document: hands back what is to be written, or
    /// tells the user that the document cannot be saved.
    pub fn handle_save(&mut self) -> (request: Option<SaveRequest>)
        ensures
            final(self)@ == old(self)@.handle_save(),
            request is Some == old(self)@.view.document.file.path is Some,
            request matches Some(request) ==> {
                &&& old(self)@.view.document.file.path == Some(request.path@)
                &&& request.contents@ == saved_text(old(self)@.view.document.lines)
            },
    {
        match self.view.save() {
            Ok(request) => Some(request),
            Err(_) => {
                self.message_bar.update_message("Error writing file!");
                None
            },
        }
    }

    /// Ends saving the document: a document that has been written is no
    /// longer changed, and the user is told how it went.
    pub fn save_finished(&mut self, written: bool)
        ensures
            final(self)@ == old(self)@.save_finished(written),
    {
        if written {
            self.view.mark_saved();
            self.message_bar.update_message("File saved successfully.");
        } else {
            self.message_bar.update_message("Error writing file!");
        }
    }

    /// Takes a request to quit.
    pub fn handle_quit(&mut self)
        requires
            old(self)@.wf(),
        ensures
            final(self)@ == old(self)@.handle_quit(),
            final(self)@.wf(),
    {
        let modified = self.view.get_status().is_modified;
        if !modified || self.quit_times + 1 == QUIT_TIMES {
            self.should_quit = true;
        } else if modified {
            let mut message = String::from_str("WARNING! File has unsaved changes. Press Ctrl-D ");
            let times: u8 = QUIT_TIMES - self.quit_times - 1;
            message.append(decimal_string(times as usize).as_str());
            message.append(" more times to quit.");
            self.message_bar.update_message(message.as_str());
            self.quit_times += 1;
        }
    }

    /// Forgets earlier requests to quit.
    pub fn reset_quit_times(&mut self)
        ensures
            final(self)@ == old(self)@.reset_quit_times(),
    {
        if self.quit_times > 0 {
            self.quit_times = 0;
            proof {
                reveal_strlit("");
                assert(""@ =~= Seq::<char>::empty());
            }
            self.message_bar.update_message("");
        }
    }
}

impl Default for Editor {
    /// The editor before it knows its terminal: an empty document in a
    /// window without rows or columns, no message and no title.
    fn default() -> (editor: Editor)
        ensures
            editor@.wf(),
            !editor@.should_quit,
            editor@.quit_times == 0,
            editor@.terminal_size == (Size { height: 0, width: 0 }),
            editor@.title == Seq::<char>::empty(),
            editor@.message_bar == (MessageBarState {
                text: Seq::empty(),
                needs_redraw: false,
                cleared_after_expiry: false,
            }),
            editor@.view.document.lines.len() == 0,
            editor@.view.document.file.path is None,
            editor@.view.document.file.name is None,
            !editor@.view.document.dirty,
            !editor@.view.needs_redraw,
            editor@.view.size == (Size { height: 0, width: 0 }),
    {
        Editor {
            should_quit: false,
            view: View::default(),
            status_bar: Statusbar::default(),
            message_bar: MessageBar::default(),
            terminal_size: Size { height: 0, width: 0 },
            title: String::new(),
            quit_times: 0,
        }
    }
}

} // verus!
