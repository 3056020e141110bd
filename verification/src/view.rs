//! The cursor and the window through which a document is seen.

use crate::documentstatus::{DocumentStatus, Status};
use crate::editor::{banner, banner_string};
use crate::editorcommand::{Direction, EditorCommand};
use crate::line::{columns_until, saturate, visible_text};
use crate::terminal::{Position, Size};
use crate::text::{spaces, spaces_string};
use crate::view::buffer::{loaded_lines, saved_text, Buffer, Document, SaveError, SaveRequest};
use vstd::prelude::*;
use vstd::view::View as _;

pub mod buffer;

verus! {

/// A place in the text: before which cluster of which line.
#[derive(Clone, Copy, Default, PartialEq, Eq, Structural, Debug)]
pub struct Location {
    pub grapheme_index: usize,
    pub line_index: usize,
}

/// `a + b`, stopping at the largest `usize`.
pub open spec fn sat_add(a: usize, b: usize) -> usize {
    if a + b > usize::MAX {
        usize::MAX
    } else {
        (a + b) as usize
    }
}

/// `a - b`, stopping at zero.
pub open spec fn sat_sub(a: usize, b: usize) -> usize {
    if a < b {
        0
    } else {
        (a - b) as usize
    }
}

/// The smaller of two numbers.
pub open spec fn least(a: int, b: int) -> int {
    if a < b {
        a
    } else {
        b
    }
}

/// Where a window of `extent` cells that begins at `offset` has to begin so
/// that it holds the cell `to`: where it is if it holds the cell already,
/// else moved by as little as brings the cell in.
pub open spec fn scrolled(offset: usize, to: usize, extent: usize) -> usize {
    if to < offset {
        to
    } else if to >= sat_add(offset, extent) {
        sat_add(sat_sub(to, extent), 1)
    } else {
        offset
    }
}

/// Whether a window of `extent` cells that begins at `offset` has to move to
/// hold the cell `to`.
pub open spec fn scrolls(offset: usize, to: usize, extent: usize) -> bool {
    to < offset || to >= sat_add(offset, extent)
}

/// What a `View` holds: the document, the cursor and the window on them.
pub struct ViewState {
    /// The document being edited.
    pub document: Document,
    /// Whether what is on screen no longer shows this state.
    pub needs_redraw: bool,
    /// The rows and columns of the window.
    pub size: Size,
    /// The cursor, in the text.
    pub text_location: Location,
    /// The display coordinate of the window's top left cell.
    pub scroll_offset: Position,
}

impl ViewState {
    /// The number of clusters of line `line_index`, or zero where the
    /// document has no such line.
    pub open spec fn line_len(self, line_index: usize) -> int {
        if line_index < self.document.lines.len() {
            self.document.lines[line_index as int].len() as int
        } else {
            0
        }
    }

    /// Whether the cursor stands in the text: on a line or right behind the
    /// last, and on that line before a cluster or right behind the last.
    pub open spec fn cursor_in_text(self) -> bool {
        &&& self.text_location.line_index <= self.document.lines.len()
        &&& self.text_location.grapheme_index <= self.line_len(self.text_location.line_index)
    }

    /// The display coordinate of the cursor: its line, and the columns that
    /// the clusters before it take, as far as a `usize` counts. A cursor
    /// past the end of its line counts as standing at the end, one on no
    /// line as standing in the first column.
    pub open spec fn position(self) -> Position {
        let row = self.text_location.line_index;
        if row < self.document.lines.len() {
            let line = self.document.lines[row as int];
            let k = least(self.text_location.grapheme_index as int, line.len() as int);
            Position { col: saturate(columns_until(line, k)) as usize, row }
        } else {
            Position { col: 0, row }
        }
    }

    /// Whether the window shows the cell of the cursor.
    pub open spec fn cursor_visible(self) -> bool {
        let at = self.position();
        &&& self.scroll_offset.row <= at.row < self.scroll_offset.row + self.size.height
        &&& self.scroll_offset.col <= at.col < self.scroll_offset.col + self.size.width
    }

    /// The state with the cursor at `text_location`.
    pub open spec fn at(self, text_location: Location) -> ViewState {
        ViewState { text_location, ..self }
    }

    /// The state once the window has followed the cursor, on each axis by as
    /// little as shows it. A window that moved is to be drawn again.
    pub open spec fn scroll_into_view(self) -> ViewState {
        let at = self.position();
        let offset = self.scroll_offset;
        ViewState {
            scroll_offset: Position {
                row: scrolled(offset.row, at.row, self.size.height),
                col: scrolled(offset.col, at.col, self.size.width),
            },
            needs_redraw: self.needs_redraw || scrolls(offset.row, at.row, self.size.height)
                || scrolls(offset.col, at.col, self.size.width),
            ..self
        }
    }

    /// The cursor on its line, no further right than the line's end.
    pub open spec fn snap_to_valid_grapheme(self) -> ViewState {
        let at = self.text_location;
        self.at(
            Location {
                grapheme_index: least(
                    self.line_len(at.line_index),
                    at.grapheme_index as int,
                ) as usize,
                ..at
            },
        )
    }

    /// The cursor no further down than right behind the last line.
    pub open spec fn snap_to_valid_line(self) -> ViewState {
        let at = self.text_location;
        self.at(
            Location {
                line_index: least(at.line_index as int, self.document.lines.len() as int) as usize,
                ..at
            },
        )
    }

    /// The cursor `step` lines up, at most to the first line, and there no
    /// further right than the line's end.
    pub open spec fn move_up(self, step: usize) -> ViewState {
        let at = self.text_location;
        self.at(
            Location { line_index: sat_sub(at.line_index, step), ..at },
        ).snap_to_valid_grapheme()
    }

    /// The cursor `step` lines down, at most to right behind the last line,
    /// and there no further right than the line's end.
    pub open spec fn move_down(self, step: usize) -> ViewState {
        let at = self.text_location;
        self.at(
            Location { line_index: sat_add(at.line_index, step), ..at },
        ).snap_to_valid_grapheme().snap_to_valid_line()
    }

    /// The cursor at the start of its line.
    pub open spec fn move_to_start_of_line(self) -> ViewState {
        self.at(Location { grapheme_index: 0, ..self.text_location })
    }

    /// The cursor at the end of its line.
    pub open spec fn move_to_end_of_line(self) -> ViewState {
        let at = self.text_location;
        self.at(Location { grapheme_index: self.line_len(at.line_index) as usize, ..at })
    }

    /// The cursor one cluster to the right, or at the start of the next line
    /// where it stood at the end of its line.
    pub open spec fn move_right(self) -> ViewState {
        let at = self.text_location;
        if at.grapheme_index < self.line_len(at.line_index) {
            self.at(Location { grapheme_index: (at.grapheme_index + 1) as usize, ..at })
        } else {
            self.move_to_start_of_line().move_down(1)
        }
    }

    /// The cursor one cluster to the left, or at the end of the line above
    /// where it stood at the start of its line. At the start of the document
    /// it stays.
    pub open spec fn move_left(self) -> ViewState {
        let at = self.text_location;
        if at.grapheme_index > 0 {
            self.at(Location { grapheme_index: (at.grapheme_index - 1) as usize, ..at })
        } else if at.line_index > 0 {
            self.move_up(1).move_to_end_of_line()
        } else {
            self
        }
    }

    /// The cursor moved in `direction`, before the window follows it. A page
    /// is one row less than the window has.
    pub open spec fn moved(self, direction: Direction) -> ViewState {
        match direction {
            Direction::Up => self.move_up(1),
            Direction::Down => self.move_down(1),
            Direction::Left => self.move_left(),
            Direction::Right => self.move_right(),
            Direction::PageUp => self.move_up(sat_sub(self.size.height, 1)),
            Direction::PageDown => self.move_down(sat_sub(self.size.height, 1)),
            Direction::Home => self.move_to_start_of_line(),
            Direction::End => self.move_to_end_of_line(),
        }
    }

    /// The state after a move: the cursor moved and the window following.
    pub open spec fn move_text_location(self, direction: Direction) -> ViewState {
        self.moved(direction).scroll_into_view()
    }
}

/// The banner row of an empty document: a tilde, then the banner in the
/// middle of the columns that are left. A window too narrow for the banner
/// shows the tilde alone, a window without columns nothing.
pub open spec fn welcome_message(width: usize) -> Seq<char> {
    let message = banner();
    if width == 0 {
        Seq::empty()
    } else if width - 1 < message.len() {
        seq!['~']
    } else {
        let padding = width - 1 - message.len();
        seq!['~'] + spaces(padding / 2) + message + spaces(padding - padding / 2)
    }
}

/// Whether a command only moves the cursor or the window.
pub open spec fn is_motion(command: EditorCommand) -> bool {
    command is Move || command is Resize
}

impl ViewState {
    /// The state with another document.
    pub open spec fn with_document(self, document: Document) -> ViewState {
        ViewState { document, ..self }
    }

    /// The state marked as to be drawn again.
    pub open spec fn marked(self) -> ViewState {
        ViewState { needs_redraw: true, ..self }
    }

    /// The state in a window of another size, which follows the cursor.
    pub open spec fn set_size(self, size: Size) -> ViewState {
        (ViewState { size, ..self }).scroll_into_view()
    }

    /// The state after the window has been resized: it follows the cursor
    /// and is to be drawn again.
    pub open spec fn resize(self, size: Size) -> ViewState {
        self.set_size(size).marked()
    }

    /// The state after `c` has been typed at the cursor. The cursor steps
    /// over the character if the line has a cluster more than before, and
    /// stays where the character joined a cluster that was there. The window
    /// follows.
    pub open spec fn insert_char(self, c: char) -> ViewState {
        let at = self.text_location;
        let edited = self.with_document(self.document.insert_char(c, at));
        if edited.line_len(at.line_index) > self.line_len(at.line_index) {
            edited.move_right().scroll_into_view().marked()
        } else {
            edited.scroll_into_view().marked()
        }
    }

    /// The state after a line break has been typed at the cursor, which then
    /// stands at the start of the new line. The window follows.
    pub open spec fn insert_newline(self) -> ViewState {
        self.with_document(
            self.document.insert_newline(self.text_location),
        ).move_right().scroll_into_view().marked()
    }

    /// The state after the cluster at the cursor has been deleted. The
    /// window follows the cursor, which the clusters before it may have
    /// moved on screen.
    pub open spec fn delete(self) -> ViewState {
        self.with_document(self.document.delete(self.text_location)).scroll_into_view().marked()
    }

    /// The state after the cluster before the cursor has been deleted: the
    /// cursor steps left, what it then stands on is deleted, and the window
    /// follows. Unchanged at the start of the document.
    pub open spec fn delete_backward(self) -> ViewState {
        if self.text_location.line_index != 0 || self.text_location.grapheme_index != 0 {
            self.move_left().delete()
        } else {
            self
        }
    }

    /// The state after a command. Saving and quitting are not the view's to
    /// do and leave it as it is.
    pub open spec fn handle_command(self, command: EditorCommand) -> ViewState {
        match command {
            EditorCommand::Resize(size) => self.resize(size),
            EditorCommand::Quit => self,
            EditorCommand::Move(direction) => self.move_text_location(direction),
            EditorCommand::Insert(character) => self.insert_char(character),
            EditorCommand::Delete => self.delete(),
            EditorCommand::Backspace => self.delete_backward(),
            EditorCommand::Enter => self.insert_newline(),
            EditorCommand::Save => self,
        }
    }

    /// The state after a sequence of commands.
    pub open spec fn run(self, commands: Seq<EditorCommand>) -> ViewState
        decreases commands.len(),
    {
        if commands.len() == 0 {
            self
        } else {
            self.run(commands.drop_last()).handle_command(commands.last())
        }
    }

    /// What the status bar tells of the document.
    pub open spec fn status(self) -> Status {
        Status {
            total_lines: self.document.lines.len() as usize,
            current_line_index: self.text_location.line_index,
            is_modified: self.document.dirty,
            file_name: self.document.file.display_name(),
        }
    }

    /// The text of the screen row `current_row` when the view is drawn from
    /// the row `origin_y` on: the visible part of the line that falls on the
    /// row, or past the end of the document a tilde, or the banner in the
    /// row a third down the window of an empty document.
    pub open spec fn row_text(self, origin_y: usize, current_row: usize) -> Seq<char> {
        let line_idx = sat_add(sat_sub(current_row, origin_y), self.scroll_offset.row);
        if line_idx < self.document.lines.len() {
            visible_text(
                self.document.lines[line_idx as int],
                self.scroll_offset.col as int,
                sat_add(self.scroll_offset.col, self.size.width) as int,
            )
        } else if current_row == self.size.height / 3 && self.document.lines.len() == 0 {
            welcome_message(self.size.width)
        } else {
            seq!['~']
        }
    }
}

/// The text to print in one row of the screen.
pub struct Row {
    pub row: usize,
    pub text: String,
}

/// The cursor of a document and the window that shows a part of it.
pub struct View {
    buffer: Buffer,
    needs_redraw: bool,
    size: Size,
    text_location: Location,
    scroll_offset: Position,
}

impl vstd::view::View for View {
    type V = ViewState;

    closed spec fn view(&self) -> ViewState {
        ViewState {
            document: self.buffer@,
            needs_redraw: self.needs_redraw,
            size: self.size,
            text_location: self.text_location,
            scroll_offset: self.scroll_offset,
        }
    }
}

impl View {
    /// The number of clusters of the line that the cursor is on, or zero
    /// where it is on none.
    fn current_line_len(&self) -> (count: usize)
        ensures
            count == self@.line_len(self@.text_location.line_index),
    {
        if self.text_location.line_index < self.buffer.lines.len() {
            self.buffer.lines[self.text_location.line_index].grapheme_count()
        } else {
            0
        }
    }

    /// The document that the view shows.
    pub fn buffer(&self) -> (buffer: &Buffer)
        ensures
            buffer@ == self@.document,
    {
        &self.buffer
    }

    /// Where the cursor stands in the text.
    pub fn text_location(&self) -> (at: Location)
        ensures
            at == self@.text_location,
    {
        self.text_location
    }

    /// The display coordinate of the window's top left cell.
    pub fn scroll_offset(&self) -> (offset: Position)
        ensures
            offset == self@.scroll_offset,
    {
        self.scroll_offset
    }

    /// The rows and columns of the window.
    pub fn size(&self) -> (size: Size)
        ensures
            size == self@.size,
    {
        self.size
    }

    /// What a view holds fits in it.
    pub proof fn lemma_fits(&self)
        ensures
            self@.document.fits(),
    {
        self.buffer.lemma_fits();
    }

    /// Tells whether the view is to be drawn again.
    pub fn mark_redraw(&mut self, value: bool)
        ensures
            final(self)@ == (ViewState { needs_redraw: value, ..old(self)@ }),
    {
        self.needs_redraw = value;
    }

    /// Whether the view is to be drawn again.
    pub fn needs_redraw(&self) -> (value: bool)
        ensures
            value == self@.needs_redraw,
    {
        self.needs_redraw
    }

    /// Moves the cursor up.
    fn move_up(&mut self, step: usize)
        ensures
            final(self)@ == old(self)@.move_up(step),
    {
        self.text_location.line_index = self.text_location.line_index.saturating_sub(step);
        self.snap_to_valid_grapheme();
    }

    /// Moves the cursor down.
    fn move_down(&mut self, step: usize)
        ensures
            final(self)@ == old(self)@.move_down(step),
    {
        self.text_location.line_index = self.text_location.line_index.saturating_add(step);
        self.snap_to_valid_grapheme();
        self.snap_to_valid_line();
    }

    /// Moves the cursor right.
    fn move_right(&mut self)
        ensures
            final(self)@ == old(self)@.move_right(),
    {
        let line_width = self.current_line_len();
        if self.text_location.grapheme_index < line_width {
            self.text_location.grapheme_index += 1;
        } else {
            self.move_to_start_of_line();
            self.move_down(1);
        }
    }

    /// Moves the cursor left.
    fn move_left(&mut self)
        ensures
            final(self)@ == old(self)@.move_left(),
    {
        if self.text_location.grapheme_index > 0 {
            self.text_location.grapheme_index -= 1;
        } else if self.text_location.line_index > 0 {
            self.move_up(1);
            self.move_to_end_of_line();
        }
    }

    /// Moves the cursor to the start of its line.
    fn move_to_start_of_line(&mut self)
        ensures
            final(self)@ == old(self)@.move_to_start_of_line(),
    {
        self.text_location.grapheme_index = 0;
    }

    /// Moves the cursor to the end of its line.
    fn move_to_end_of_line(&mut self)
        ensures
            final(self)@ == old(self)@.move_to_end_of_line(),
    {
        self.text_location.grapheme_index = self.current_line_len();
    }

    /// Brings the cursor back onto its line.
    fn snap_to_valid_grapheme(&mut self)
        ensures
            final(self)@ == old(self)@.snap_to_valid_grapheme(),
    {
        let count = self.current_line_len();
        self.text_location.grapheme_index = if count < self.text_location.grapheme_index {
            count
        } else {
            self.text_location.grapheme_index
        };
    }

    /// Brings the cursor back into the document.
    fn snap_to_valid_line(&mut self)
        ensures
            final(self)@ == old(self)@.snap_to_valid_line(),
    {
        let height = self.buffer.height();
        self.text_location.line_index = if self.text_location.line_index < height {
            self.text_location.line_index
        } else {
            height
        };
    }

    /// The display coordinate of the cursor.
    fn text_location_to_position(&self) -> (at: Position)
        ensures
            at == self@.position(),
    {
        let row = self.text_location.line_index;
        let col = if row < self.buffer.lines.len() {
            let line = &self.buffer.lines[row];
            let count = line.grapheme_count();
            let k = if self.text_location.grapheme_index < count {
                self.text_location.grapheme_index
            } else {
                count
            };
            line.width_until(k)
        } else {
            0
        };
        Position { col, row }
    }

    /// The cell of the window that the cursor is drawn in.
    pub fn caret_position(&self) -> (at: Position)
        ensures
            at == self@.position().spec_saturating_sub(self@.scroll_offset),
    {
        self.text_location_to_position().saturating_sub(self.scroll_offset)
    }

    /// Moves the window up or down to the row `to`.
    fn scroll_vertically(&mut self, to: usize)
        ensures
            final(self)@ == (ViewState {
                scroll_offset: Position {
                    row: scrolled(old(self)@.scroll_offset.row, to, old(self)@.size.height),
                    ..old(self)@.scroll_offset
                },
                needs_redraw: old(self)@.needs_redraw || scrolls(
                    old(self)@.scroll_offset.row,
                    to,
                    old(self)@.size.height,
                ),
                ..old(self)@
            }),
    {
        let height = self.size.height;
        let offset_changed = if to < self.scroll_offset.row {
            self.scroll_offset.row = to;
            true
        } else if to >= self.scroll_offset.row.saturating_add(height) {
            self.scroll_offset.row = to.saturating_sub(height).saturating_add(1);
            true
        } else {
            false
        };
        if offset_changed {
            self.mark_redraw(true);
        }
    }

    /// Moves the window left or right to the column `to`.
    fn scroll_horizontally(&mut self, to: usize)
        ensures
            final(self)@ == (ViewState {
                scroll_offset: Position {
                    col: scrolled(old(self)@.scroll_offset.col, to, old(self)@.size.width),
                    ..old(self)@.scroll_offset
                },
                needs_redraw: old(self)@.needs_redraw || scrolls(
                    old(self)@.scroll_offset.col,
                    to,
                    old(self)@.size.width,
                ),
                ..old(self)@
            }),
    {
        let width = self.size.width;
        let offset_changed = if to < self.scroll_offset.col {
            self.scroll_offset.col = to;
            true
        } else if to >= self.scroll_offset.col.saturating_add(width) {
            self.scroll_offset.col = to.saturating_sub(width).saturating_add(1);
            true
        } else {
            false
        };
        if offset_changed {
            self.mark_redraw(true);
        }
    }

    /// Lets the window follow the cursor.
    fn scroll_text_location_into_view(&mut self)
        ensures
            final(self)@ == old(self)@.scroll_into_view(),
    {
        let at = self.text_location_to_position();
        self.scroll_vertically(at.row);
        self.scroll_horizontally(at.col);
    }

    /// Moves the cursor and lets the window follow it.
    fn move_text_location(&mut self, direction: Direction)
        ensures
            final(self)@ == old(self)@.move_text_location(direction),
    {
        let height = self.size.height;
        match direction {
            Direction::Up => self.move_up(1),
            Direction::Down => self.move_down(1),
            Direction::Left => self.move_left(),
            Direction::Right => self.move_right(),
            Direction::PageUp => self.move_up(height.saturating_sub(1)),
            Direction::PageDown => self.move_down(height.saturating_sub(1)),
            Direction::Home => self.move_to_start_of_line(),
            Direction::End => self.move_to_end_of_line(),
        }
        self.scroll_text_location_into_view();
    }

    /// Makes the banner row of an empty document.
    fn build_welcome_message(width: usize) -> (text: String)
        ensures
            text@ == welcome_message(width),
    {
        if width == 0 {
            return String::new();
        }
        let message = banner_string();
        let len = message.as_str().unicode_len();
        let remaining_width = width.saturating_sub(1);
        if remaining_width < len {
            let mut tilde = String::new();
            tilde.push('~');
            return tilde;
        }
        let padding = remaining_width - len;
        let mut text = String::new();
        text.push('~');
        text.append(spaces_string(padding / 2).as_str());
        text.append(message.as_str());
        text.append(spaces_string(padding - padding / 2).as_str());
        text
    }

    /// What the status bar is to tell of the document.
    pub fn get_status(&self) -> (status: DocumentStatus)
        ensures
            status@ == self@.status(),
    {
        DocumentStatus {
            total_lines: self.buffer.height(),
            current_line_index: self.text_location.line_index,
            file_name: self.buffer.file_info.to_string(),
            is_modified: self.buffer.dirty,
        }
    }

    /// Carries out a command on the cursor, the window and the text.
    pub fn handle_command(&mut self, command: EditorCommand)
        ensures
            final(self)@ == old(self)@.handle_command(command),
    {
        match command {
            EditorCommand::Resize(size) => self.resize(size),
            EditorCommand::Quit => {},
            EditorCommand::Move(direction) => self.move_text_location(direction),
            EditorCommand::Insert(character) => self.insert_char(character),
            EditorCommand::Delete => self.delete(),
            EditorCommand::Backspace => self.delete_backward(),
            EditorCommand::Enter => self.insert_newline(),
            EditorCommand::Save => {},
        }
    }

    /// Shows the document that the text `contents` of the file at
    /// `file_name` makes. The cursor and the window stay where they are.
    pub fn load(&mut self, contents: &str, file_name: &str)
        ensures
            final(self)@.document.lines == loaded_lines(contents@),
            final(self)@.document.file.path == Some(file_name@),
            !final(self)@.document.dirty,
            final(self)@ == old(self)@.with_document(final(self)@.document).marked(),
    {
        self.buffer = Buffer::load(contents, file_name);
        self.mark_redraw(true);
    }

    /// What saving the document asks for: the path to write to and the text
    /// to write there, or the reason why it cannot be saved.
    pub fn save(&self) -> (request: Result<SaveRequest, SaveError>)
        ensures
            match request {
                Ok(request) => {
                    &&& self@.document.file.path == Some(request.path@)
                    &&& request.contents@ == saved_text(self@.document.lines)
                },
                Err(error) => self@.document.file.path is None && error == SaveError::NoFileName,
            },
    {
        self.buffer.save()
    }

    /// Takes note that the document has been written.
    pub fn mark_saved(&mut self)
        ensures
            final(self)@ == old(self)@.with_document(
                Document { dirty: false, ..old(self)@.document },
            ),
    {
        self.buffer.mark_saved();
    }

    /// Types a character at the cursor.
    fn insert_char(&mut self, character: char)
        ensures
            final(self)@ == old(self)@.insert_char(character),
    {
        let old_len = self.current_line_len();
        self.buffer.insert_char(character, self.text_location);
        let new_len = self.current_line_len();
        let grapheme_delta = new_len.saturating_sub(old_len);
        if grapheme_delta > 0 {
            self.move_right();
        }
        self.scroll_text_location_into_view();
        self.mark_redraw(true);
    }

    /// Types a line break at the cursor.
    fn insert_newline(&mut self)
        ensures
            final(self)@ == old(self)@.insert_newline(),
    {
        self.buffer.insert_newline(self.text_location);
        self.move_text_location(Direction::Right);
        self.mark_redraw(true);
    }

    /// Deletes the cluster before the cursor.
    fn delete_backward(&mut self)
        ensures
            final(self)@ == old(self)@.delete_backward(),
    {
        if self.text_location.line_index != 0 || self.text_location.grapheme_index != 0 {
            self.move_left();
            self.delete();
        }
    }

    /// Deletes the cluster at the cursor.
    fn delete(&mut self)
        ensures
            final(self)@ == old(self)@.delete(),
    {
        self.buffer.delete(self.text_location);
        self.scroll_text_location_into_view();
        self.mark_redraw(true);
    }

    /// Gives the window another size and lets it follow the cursor.
    pub fn set_size(&mut self, size: Size)
        ensures
            final(self)@ == old(self)@.set_size(size),
    {
        self.size = size;
        self.scroll_text_location_into_view();
    }

    /// Gives the window another size; the view is then to be drawn again.
    pub fn resize(&mut self, size: Size)
        ensures
            final(self)@ == old(self)@.resize(size),
    {
        self.set_size(size);
        self.mark_redraw(true);
    }

    /// The text of every row of the window, for the rows of the screen from
    /// `origin_y` on.
    pub fn draw(&self, origin_y: usize) -> (rows: Vec<Row>)
        ensures
            rows@.len() == sat_add(origin_y, self@.size.height) - origin_y,
            forall|k: int|
                0 <= k < rows@.len() ==> (#[trigger] rows@[k]).row == origin_y + k
                    && rows@[k].text@ == self@.row_text(origin_y, (origin_y + k) as usize),
    {
        let width = self.size.width;
        let height = self.size.height;
        let end_y = origin_y.saturating_add(height);
        let top_third = height / 3;
        let scroll_top = self.scroll_offset.row;
        let mut rows: Vec<Row> = Vec::new();
        let mut current_row: usize = origin_y;
        while current_row < end_y
            invariant
                origin_y <= current_row <= end_y,
                end_y == sat_add(origin_y, self@.size.height),
                width == self@.size.width,
                height == self@.size.height,
                top_third == height / 3,
                scroll_top == self@.scroll_offset.row,
                rows@.len() == current_row - origin_y,
                forall|k: int|
                    0 <= k < rows@.len() ==> (#[trigger] rows@[k]).row == origin_y + k
                        && rows@[k].text@ == self@.row_text(origin_y, (origin_y + k) as usize),
            decreases end_y - current_row,
        {
            let line_idx = current_row.saturating_sub(origin_y).saturating_add(scroll_top);
            let text = if line_idx < self.buffer.lines.len() {
                let left = self.scroll_offset.col;
                let right = self.scroll_offset.col.saturating_add(width);
                self.buffer.lines[line_idx].get_visible_graphemes(left..right)
            } else if current_row == top_third && self.buffer.is_empty() {
                Self::build_welcome_message(width)
            } else {
                let mut tilde = String::new();
                tilde.push('~');
                assert(tilde@ =~= seq!['~']);
                tilde
            };
            rows.push(Row { row: current_row, text });
            current_row += 1;
        }
        rows
    }

    /// What is to be printed to bring the screen up to date: nothing while
    /// the view has not changed since it was last drawn, else every row of
    /// the window. Once the rows are on screen, `mark_redraw(false)` tells
    /// the view so.
    pub fn render(&self, origin_y: usize) -> (rows: Option<Vec<Row>>)
        ensures
            rows is Some == self@.needs_redraw,
            rows matches Some(rows) ==> {
                &&& rows@.len() == sat_add(origin_y, self@.size.height) - origin_y
                &&& forall|k: int|
                    0 <= k < rows@.len() ==> (#[trigger] rows@[k]).row == origin_y + k
                        && rows@[k].text@ == self@.row_text(origin_y, (origin_y + k) as usize)
            },
    {
        if self.needs_redraw {
            Some(self.draw(origin_y))
        } else {
            None
        }
    }
}

impl Default for View {
    /// A view of the empty document, with the cursor at its start, in a
    /// window without rows or columns.
    fn default() -> (view: View)
        ensures
            view@.document.lines.len() == 0,
            view@.document.file.path is None,
            view@.document.file.name is None,
            !view@.document.dirty,
            !view@.needs_redraw,
            view@.size == (Size { height: 0, width: 0 }),
            view@.text_location == (Location { grapheme_index: 0, line_index: 0 }),
            view@.scroll_offset == (Position { col: 0, row: 0 }),
    {
        View {
            buffer: Buffer::default(),
            needs_redraw: false,
            size: Size { height: 0, width: 0 },
            text_location: Location { grapheme_index: 0, line_index: 0 },
            scroll_offset: Position { col: 0, row: 0 },
        }
    }
}

/// A window with rows and columns shows the cursor once it has followed it.
pub proof fn lemma_scroll_shows_cursor(state: ViewState)
    requires
        state.size.height > 0,
        state.size.width > 0,
    ensures
        state.scroll_into_view().cursor_visible(),
{
}

/// After a command the window shows the cursor, provided that it has rows
/// and columns then. Saving and quitting, which leave the view as it is,
/// leave the cursor in a window that showed it.
pub proof fn lemma_command_shows_cursor(state: ViewState, command: EditorCommand)
    requires
        state.handle_command(command).size.height > 0,
        state.handle_command(command).size.width > 0,
        command is Quit || command is Save || (command is Backspace
            && state.text_location == Location { grapheme_index: 0, line_index: 0 })
            ==> state.cursor_visible(),
    ensures
        state.handle_command(command).cursor_visible(),
{
    match command {
        EditorCommand::Move(direction) => {
            lemma_scroll_shows_cursor(state.moved(direction));
        },
        EditorCommand::Resize(size) => {
            lemma_scroll_shows_cursor(ViewState { size, ..state });
        },
        EditorCommand::Insert(c) => {
            let edited = state.with_document(state.document.insert_char(c, state.text_location));
            lemma_scroll_shows_cursor(edited);
            lemma_scroll_shows_cursor(edited.move_right());
        },
        EditorCommand::Enter => {
            lemma_scroll_shows_cursor(
                state.with_document(
                    state.document.insert_newline(state.text_location),
                ).move_right(),
            );
        },
        EditorCommand::Delete => {
            lemma_scroll_shows_cursor(
                state.with_document(state.document.delete(state.text_location)),
            );
        },
        EditorCommand::Backspace => {
            let left = state.move_left();
            lemma_scroll_shows_cursor(left.with_document(left.document.delete(left.text_location)));
        },
        _ => {},
    }
}

/// After any sequence of moves and resizes the window shows the cursor,
/// provided that it has rows and columns then. (Of no moves at all the same
/// holds for a window that showed the cursor before.)
pub proof fn lemma_cursor_stays_visible(state: ViewState, commands: Seq<EditorCommand>)
    requires
        forall|i: int| 0 <= i < commands.len() ==> is_motion(#[trigger] commands[i]),
        state.run(commands).size.height > 0,
        state.run(commands).size.width > 0,
        commands.len() > 0 || state.cursor_visible(),
    ensures
        state.run(commands).cursor_visible(),
{
    if commands.len() > 0 {
        lemma_command_shows_cursor(state.run(commands.drop_last()), commands.last());
    }
}

/// Moves and resizes keep the cursor in the text and leave the document as
/// it is.
pub proof fn lemma_motion_keeps_cursor_in_text(state: ViewState, commands: Seq<EditorCommand>)
    requires
        state.document.fits(),
        state.cursor_in_text(),
        forall|i: int| 0 <= i < commands.len() ==> is_motion(#[trigger] commands[i]),
    ensures
        state.run(commands).cursor_in_text(),
        state.run(commands).document == state.document,
    decreases commands.len(),
{
    if commands.len() > 0 {
        lemma_motion_keeps_cursor_in_text(state, commands.drop_last());
        let before = state.run(commands.drop_last());
        match commands.last() {
            EditorCommand::Move(direction) => {
                lemma_move_keeps_cursor_in_text(before, direction);
            },
            _ => {},
        }
    }
}

/// A move keeps the cursor in the text.
proof fn lemma_move_keeps_cursor_in_text(state: ViewState, direction: Direction)
    requires
        state.document.fits(),
        state.cursor_in_text(),
    ensures
        state.moved(direction).cursor_in_text(),
        state.moved(direction).document == state.document,
{
    let step = sat_sub(state.size.height, 1);
}

} // verus!
