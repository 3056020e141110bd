//! What the status bar tells of a document.

use crate::text::{decimal, decimal_string};
use crate::view::sat_add;
use vstd::prelude::*;
use vstd::std_specs::cmp::PartialEqSpecImpl;

verus! {

/// What a `DocumentStatus` holds.
pub struct Status {
    pub total_lines: usize,
    pub current_line_index: usize,
    pub is_modified: bool,
    pub file_name: Seq<char>,
}

impl Status {
    /// The mark of a document with unsaved changes.
    pub open spec fn modified_indicator(self) -> Seq<char> {
        if self.is_modified {
            "(modified)"@
        } else {
            Seq::empty()
        }
    }

    /// The number of lines, in words.
    pub open spec fn line_count(self) -> Seq<char> {
        decimal(self.total_lines as nat) + " lines"@
    }

    /// The line of the cursor, counted from one, and the number of lines.
    pub open spec fn position_indicator(self) -> Seq<char> {
        decimal(sat_add(self.current_line_index, 1) as nat) + "/"@ + decimal(
            self.total_lines as nat,
        )
    }
}

/// The state of a document as far as the status bar shows it.
#[derive(Debug)]
pub struct DocumentStatus {
    pub total_lines: usize,
    pub current_line_index: usize,
    pub is_modified: bool,
    pub file_name: String,
}

impl View for DocumentStatus {
    type V = Status;

    open spec fn view(&self) -> Status {
        Status {
            total_lines: self.total_lines,
            current_line_index: self.current_line_index,
            is_modified: self.is_modified,
            file_name: self.file_name@,
        }
    }
}

impl PartialEq for DocumentStatus {
    fn eq(&self, other: &DocumentStatus) -> (equal: bool) {
        self.total_lines == other.total_lines && self.current_line_index
            == other.current_line_index && self.is_modified == other.is_modified && self.file_name
            == other.file_name
    }
}

impl PartialEqSpecImpl for DocumentStatus {
    open spec fn obeys_eq_spec() -> bool {
        true
    }

    open spec fn eq_spec(&self, other: &DocumentStatus) -> bool {
        self.total_lines == other.total_lines && self.current_line_index
            == other.current_line_index && self.is_modified == other.is_modified
            && self.file_name@ == other.file_name@
    }
}

impl Default for DocumentStatus {
    /// The status of an empty document without a name.
    fn default() -> (status: DocumentStatus)
        ensures
            status@ == (Status {
                total_lines: 0,
                current_line_index: 0,
                is_modified: false,
                file_name: Seq::empty(),
            }),
    {
        DocumentStatus {
            total_lines: 0,
            current_line_index: 0,
            is_modified: false,
            file_name: String::new(),
        }
    }
}

impl DocumentStatus {
    /// "(modified)" for a document with unsaved changes, nothing otherwise.
    pub fn modified_indicator_to_string(&self) -> (text: String)
        ensures
            text@ == self@.modified_indicator(),
    {
        if self.is_modified {
            String::from_str("(modified)")
        } else {
            String::new()
        }
    }

    /// The number of lines followed by " lines".
    pub fn line_count_to_string(&self) -> (text: String)
        ensures
            text@ == self@.line_count(),
    {
        let mut text = decimal_string(self.total_lines);
        text.append(" lines");
        text
    }

    /// The line of the cursor, counted from one, a slash and the number of
    /// lines.
    pub fn position_indicator_to_string(&self) -> (text: String)
        ensures
            text@ == self@.position_indicator(),
    {
        let mut text = decimal_string(self.current_line_index.saturating_add(1));
        text.append("/");
        let total = decimal_string(self.total_lines);
        text.append(total.as_str());
        text
    }
}

} // verus!
