//! The status bar: one row that tells of the document.

use crate::documentstatus::{DocumentStatus, Status};
use crate::terminal::Size;
use crate::text::{spaces, spaces_string};
use vstd::prelude::*;
use vstd::utf8::encode_utf8;

verus! {

/// The number of bytes that a text takes.
pub open spec fn byte_len(text: Seq<char>) -> int {
    encode_utf8(text).len() as int
}

/// The left part of the status row: the name of the file, the number of
/// lines and the mark of unsaved changes.
pub open spec fn status_beginning(status: Status) -> Seq<char> {
    status.file_name + " - "@ + status.line_count() + " "@ + status.modified_indicator()
}

/// The status row before it is held against the width: the left part, and
/// the position of the cursor pushed to the right edge by spaces.
pub open spec fn status_row(status: Status, width: usize) -> Seq<char> {
    let beginning = status_beginning(status);
    let position = status.position_indicator();
    let remainder = if byte_len(beginning) < width {
        width - byte_len(beginning)
    } else {
        0
    };
    beginning + spaces(remainder - position.len()) + position
}

/// The text of the status row in a bar `width` columns wide: the status row
/// if it is no longer than the bar, else nothing.
pub open spec fn status_text(status: Status, width: usize) -> Seq<char> {
    let row = status_row(status, width);
    if byte_len(row) <= width {
        row
    } else {
        Seq::empty()
    }
}

/// What a `Statusbar` holds.
pub struct StatusbarState {
    pub current_status: Status,
    pub needs_redraw: bool,
    pub size: Size,
}

impl StatusbarState {
    /// The bar once it has been told a status: one that differs from what
    /// the bar shows takes its place, and the bar is to be drawn again.
    pub open spec fn update_status(self, new_status: Status) -> StatusbarState {
        if self.current_status != new_status {
            StatusbarState { current_status: new_status, needs_redraw: true, ..self }
        } else {
            self
        }
    }
}

/// The bar that shows the status of the document.
pub struct Statusbar {
    current_status: DocumentStatus,
    needs_redraw: bool,
    size: Size,
}

impl View for Statusbar {
    type V = StatusbarState;

    closed spec fn view(&self) -> StatusbarState {
        StatusbarState {
            current_status: self.current_status@,
            needs_redraw: self.needs_redraw,
            size: self.size,
        }
    }
}

impl Statusbar {
    /// Tells the bar the status of the document.
    pub fn update_status(&mut self, new_status: DocumentStatus)
        ensures
            final(self)@ == old(self)@.update_status(new_status@),
    {
        if self.current_status != new_status {
            self.current_status = new_status;
            self.set_needs_redraw(true);
        }
    }

    /// The width of the bar.
    pub fn width(&self) -> (width: usize)
        ensures
            width == self@.size.width,
    {
        self.size.width
    }

    /// Tells whether the bar is to be drawn again.
    pub fn set_needs_redraw(&mut self, value: bool)
        ensures
            final(self)@ == (StatusbarState { needs_redraw: value, ..old(self)@ }),
    {
        self.needs_redraw = value;
    }

    /// Whether the bar is to be drawn again.
    pub fn needs_redraw(&self) -> (value: bool)
        ensures
            value == self@.needs_redraw,
    {
        self.needs_redraw
    }

    /// Gives the bar another size.
    pub fn set_size(&mut self, size: Size)
        ensures
            final(self)@ == (StatusbarState { size, ..old(self)@ }),
    {
        self.size = size;
    }

    /// Gives the bar another size; it is then to be drawn again.
    pub fn resize(&mut self, size: Size)
        ensures
            final(self)@ == (StatusbarState { size, needs_redraw: true, ..old(self)@ }),
    {
        self.set_size(size);
        self.set_needs_redraw(true);
    }

    /// The text of the bar.
    pub fn draw(&self) -> (text: String)
        ensures
            text@ == status_text(self@.current_status, self@.size.width),
    {
        let line_count = self.current_status.line_count_to_string();
        let modified_indicator = self.current_status.modified_indicator_to_string();
        let mut beginning = self.current_status.file_name.clone();
        beginning.append(" - ");
        beginning.append(line_count.as_str());
        beginning.append(" ");
        beginning.append(modified_indicator.as_str());
        let position_indicator = self.current_status.position_indicator_to_string();
        let remainder_len = self.size.width.saturating_sub(beginning.as_str().as_bytes().len());
        let padding = remainder_len.saturating_sub(position_indicator.as_str().unicode_len());
        let mut status = beginning;
        status.append(spaces_string(padding).as_str());
        status.append(position_indicator.as_str());
        if status.as_str().as_bytes().len() <= self.size.width {
            status
        } else {
            String::new()
        }
    }

    /// What is to be printed to bring the bar up to date: nothing while it
    /// has not changed since it was last drawn, else its text. Once the text
    /// is on screen, `set_needs_redraw(false)` tells the bar so.
    pub fn render(&self) -> (text: Option<String>)
        ensures
            text is Some == self@.needs_redraw,
            text matches Some(text) ==> text@ == status_text(
                self@.current_status,
                self@.size.width,
            ),
    {
        if self.needs_redraw {
            Some(self.draw())
        } else {
            None
        }
    }
}

impl Default for Statusbar {
    /// A bar without width that shows the status of an empty document.
    fn default() -> (bar: Statusbar)
        ensures
            bar@ == (StatusbarState {
                current_status: Status {
                    total_lines: 0,
                    current_line_index: 0,
                    is_modified: false,
                    file_name: Seq::empty(),
                },
                needs_redraw: false,
                size: Size { height: 0, width: 0 },
            }),
    {
        Statusbar {
            current_status: DocumentStatus::default(),
            needs_redraw: false,
            size: Size { height: 0, width: 0 },
        }
    }
}

} // verus!
