//! The document: lines of text, the file they belong to, and whether they
//! have changed since they were last written.

use crate::fileinfo::{FileIdentity, FileInfo};
use crate::line::{
    appended, deleted, fragments_of, inserted, split_head, split_tail, text_of, Fragment, Line,
};
use crate::text::{
    ends_with_cr, is_plain_line, joined_lines, lemma_text_lines_hold_no_newline,
    lemma_text_lines_of_joined, lines, text_lines,
};
use crate::unicode::texts;
use crate::view::Location;
use vstd::prelude::*;

verus! {

/// What a `Buffer` holds.
pub struct Document {
    /// The lines in file order.
    pub lines: Seq<Seq<Fragment>>,
    /// The file the document belongs to.
    pub file: FileIdentity,
    /// Whether the text has changed since it was loaded or saved.
    pub dirty: bool,
}

/// The lines that a text is read as.
pub open spec fn loaded_lines(contents: Seq<char>) -> Seq<Seq<Fragment>> {
    text_lines(contents).map_values(|line: Seq<char>| fragments_of(line))
}

/// The text that lines are written as: the canonical text of each line
/// followed by a line feed, the last line too.
pub open spec fn saved_text(lines: Seq<Seq<Fragment>>) -> Seq<char> {
    joined_lines(lines.map_values(|line: Seq<Fragment>| text_of(line)))
}

impl Document {
    /// Whether the document is of a size that a `Buffer` can hold: the
    /// number of its lines and of the clusters of each fit in a `usize`.
    pub open spec fn fits(self) -> bool {
        &&& self.lines.len() <= usize::MAX
        &&& forall|i: int|
            0 <= i < self.lines.len() ==> (#[trigger] self.lines[i]).len() <= usize::MAX
    }

    /// The document after `c` has been typed at `at`: a new line of that one
    /// character behind the last line, or the character in the line at `at`;
    /// unchanged where `at` lies further down.
    pub open spec fn insert_char(self, c: char, at: Location) -> Document {
        if at.line_index == self.lines.len() {
            Document { lines: self.lines.push(fragments_of(seq![c])), dirty: true, ..self }
        } else if at.line_index < self.lines.len() {
            let line = self.lines[at.line_index as int];
            Document {
                lines: self.lines.update(
                    at.line_index as int,
                    inserted(line, c, at.grapheme_index as int),
                ),
                dirty: true,
                ..self
            }
        } else {
            self
        }
    }

    /// The document after the cluster at `at` has been deleted. At or past
    /// the end of a line that another follows, the two lines become one.
    /// Unchanged where there is neither a cluster nor a next line.
    pub open spec fn delete(self, at: Location) -> Document {
        if at.line_index < self.lines.len() {
            let line = self.lines[at.line_index as int];
            if at.grapheme_index >= line.len() && at.line_index + 1 < self.lines.len() {
                let next = self.lines[at.line_index + 1];
                Document {
                    lines: self.lines.update(at.line_index as int, appended(line, next)).remove(
                        at.line_index + 1,
                    ),
                    dirty: true,
                    ..self
                }
            } else if at.grapheme_index < line.len() {
                Document {
                    lines: self.lines.update(
                        at.line_index as int,
                        deleted(line, at.grapheme_index as int),
                    ),
                    dirty: true,
                    ..self
                }
            } else {
                self
            }
        } else {
            self
        }
    }

    /// The document after a line break has been put at `at`: an empty line
    /// behind the last line, or the line at `at` cut in two there; unchanged
    /// where `at` lies further down.
    pub open spec fn insert_newline(self, at: Location) -> Document {
        if at.line_index == self.lines.len() {
            Document { lines: self.lines.push(Seq::empty()), dirty: true, ..self }
        } else if at.line_index < self.lines.len() {
            let line = self.lines[at.line_index as int];
            Document {
                lines: self.lines.update(
                    at.line_index as int,
                    split_head(line, at.grapheme_index as int),
                ).insert(at.line_index + 1, split_tail(line, at.grapheme_index as int)),
                dirty: true,
                ..self
            }
        } else {
            self
        }
    }
}

/// Text held for editing.
pub struct Buffer {
    pub lines: Vec<Line>,
    pub file_info: FileInfo,
    pub dirty: bool,
}

/// The lines that a vector of them stands for.
pub open spec fn line_views(lines: Seq<Line>) -> Seq<Seq<Fragment>> {
    lines.map_values(|line: Line| line@)
}

impl View for Buffer {
    type V = Document;

    open spec fn view(&self) -> Document {
        Document { lines: line_views(self.lines@), file: self.file_info@, dirty: self.dirty }
    }
}

impl Buffer {
    /// The document that the text of the file at `file_name` makes: one line
    /// for each line of `contents`, unchanged so far.
    pub fn load(contents: &str, file_name: &str) -> (buffer: Buffer)
        ensures
            buffer@.lines == loaded_lines(contents@),
            buffer@.file.path == Some(file_name@),
            !buffer@.dirty,
    {
        let rows = lines(contents);
        let mut lines: Vec<Line> = Vec::new();
        let mut i: usize = 0;
        while i < rows.len()
            invariant
                i <= rows.len(),
                texts(rows@) == text_lines(contents@),
                line_views(lines@) =~= loaded_lines(contents@).take(i as int),
            decreases rows.len() - i,
        {
            let line = Line::from(rows[i].as_str());
            proof {
                assert(line_views(lines@.push(line)) =~= line_views(lines@).push(line@));
            }
            lines.push(line);
            i += 1;
        }
        Buffer { lines, file_info: FileInfo::from(file_name), dirty: false }
    }

    /// What a buffer holds fits in it.
    pub proof fn lemma_fits(&self)
        ensures
            self@.fits(),
    {
        assert(self@.lines.len() == self.lines.len());
        assert forall|i: int| 0 <= i < self@.lines.len() implies (#[trigger] self@.lines[i]).len()
            <= usize::MAX by {
            self.lines@[i].lemma_fits();
        }
    }

    /// Whether the document has no lines. A document of one empty line is
    /// not empty.
    pub fn is_empty(&self) -> (empty: bool)
        ensures
            empty == (self@.lines.len() == 0),
    {
        self.lines.is_empty()
    }

    /// The number of lines.
    pub fn height(&self) -> (height: usize)
        ensures
            height == self@.lines.len(),
    {
        self.lines.len()
    }

    /// Types `character` at `at`.
    pub fn insert_char(&mut self, character: char, at: Location)
        ensures
            final(self)@ == old(self)@.insert_char(character, at),
    {
        if at.line_index > self.height() {
            return;
        }
        if at.line_index == self.height() {
            let mut text = String::new();
            text.push(character);
            let line = Line::from(text.as_str());
            proof {
                assert(line_views(self.lines@.push(line)) =~= line_views(self.lines@).push(line@));
            }
            self.lines.push(line);
            self.dirty = true;
        } else {
            self.lines[at.line_index].insert_char(character, at.grapheme_index);
            self.dirty = true;
            proof {
                assert(line_views(self.lines@) =~= line_views(old(self).lines@).update(
                    at.line_index as int,
                    self.lines@[at.line_index as int]@,
                ));
            }
        }
    }

    /// Deletes the cluster at `at`, or joins the next line to the line at
    /// `at` where `at` stands at its end.
    pub fn delete(&mut self, at: Location)
        ensures
            final(self)@ == old(self)@.delete(at),
    {
        if at.line_index < self.lines.len() {
            let count = self.lines[at.line_index].grapheme_count();
            if at.grapheme_index >= count && self.height() > at.line_index.saturating_add(1) {
                let next_line = self.lines.remove(at.line_index.saturating_add(1));
                self.lines[at.line_index].append(&next_line);
                self.dirty = true;
                proof {
                    let line = old(self).lines@[at.line_index as int]@;
                    assert(line_views(self.lines@) =~= line_views(old(self).lines@).update(
                        at.line_index as int,
                        appended(line, next_line@),
                    ).remove(at.line_index + 1));
                }
            } else if at.grapheme_index < count {
                self.lines[at.line_index].delete(at.grapheme_index);
                self.dirty = true;
                proof {
                    assert(line_views(self.lines@) =~= line_views(old(self).lines@).update(
                        at.line_index as int,
                        self.lines@[at.line_index as int]@,
                    ));
                }
            }
        }
    }

    /// Breaks the line at `at` in two, or adds an empty line behind the last.
    pub fn insert_newline(&mut self, at: Location)
        ensures
            final(self)@ == old(self)@.insert_newline(at),
    {
        if at.line_index == self.height() {
            let line = Line::default();
            proof {
                assert(line_views(self.lines@.push(line)) =~= line_views(self.lines@).push(line@));
            }
            self.lines.push(line);
            self.dirty = true;
        } else if at.line_index < self.height() {
            let new = self.lines[at.line_index].split(at.grapheme_index);
            self.lines.insert(at.line_index.saturating_add(1), new);
            self.dirty = true;
            proof {
                let line = old(self).lines@[at.line_index as int]@;
                assert(line_views(self.lines@) =~= line_views(old(self).lines@).update(
                    at.line_index as int,
                    split_head(line, at.grapheme_index as int),
                ).insert(at.line_index + 1, split_tail(line, at.grapheme_index as int)));
            }
        }
    }

    /// The text that the document is written as.
    pub fn contents(&self) -> (contents: String)
        ensures
            contents@ == saved_text(self@.lines),
    {
        let mut contents = String::new();
        let mut i: usize = 0;
        while i < self.lines.len()
            invariant
                i <= self.lines@.len(),
                contents@ == saved_text(self@.lines.take(i as int)),
            decreases self.lines.len() - i,
        {
            let text = self.lines[i].to_string();
            proof {
                let done = self@.lines.take(i as int);
                let next = self@.lines.take(i + 1);
                assert(next.map_values(|line: Seq<Fragment>| text_of(line)).drop_last()
                    =~= done.map_values(|line: Seq<Fragment>| text_of(line)));
            }
            contents.append(text.as_str());
            contents.push('\n');
            i += 1;
        }
        assert(self@.lines.take(self@.lines.len() as int) =~= self@.lines);
        contents
    }

    /// What saving the document asks for: the path to write to and the text
    /// to write there. A document without a file cannot be saved.
    pub fn save(&self) -> (request: Result<SaveRequest, SaveError>)
        ensures
            match request {
                Ok(request) => {
                    &&& self@.file.path == Some(request.path@)
                    &&& request.contents@ == saved_text(self@.lines)
                },
                Err(error) => self@.file.path is None && error == SaveError::NoFileName,
            },
    {
        match self.file_info.path() {
            Some(path) => Ok(SaveRequest { path, contents: self.contents() }),
            None => Err(SaveError::NoFileName),
        }
    }

    /// Takes note that the document has been written: it is no longer
    /// changed.
    pub fn mark_saved(&mut self)
        ensures
            final(self)@ == (Document { dirty: false, ..old(self)@ }),
    {
        self.dirty = false;
    }
}

/// Why a document cannot be saved.
#[derive(Clone, Copy, PartialEq, Eq, Structural, Debug)]
pub enum SaveError {
    /// The document has no file to be written to.
    NoFileName,
}

/// What is to be written where to save a document.
pub struct SaveRequest {
    pub path: String,
    pub contents: String,
}

/// Loading, saving and loading again gives the lines of the first load, and
/// saving those gives the same text again, for a text none of whose lines
/// ends with a carriage return. (Such a line would lose it when read again.)
pub proof fn lemma_load_save_load(contents: Seq<char>)
    requires
        forall|k: int|
            0 <= k < text_lines(contents).len() ==> !ends_with_cr(
                #[trigger] text_lines(contents)[k],
            ),
    ensures
        loaded_lines(saved_text(loaded_lines(contents))) == loaded_lines(contents),
        saved_text(loaded_lines(saved_text(loaded_lines(contents)))) == saved_text(
            loaded_lines(contents),
        ),
{
    let rows = text_lines(contents);
    let written = loaded_lines(contents).map_values(|line: Seq<Fragment>| text_of(line));
    assert(written =~= rows) by {
        assert forall|k: int| 0 <= k < rows.len() implies written[k] == rows[k] by {
            crate::line::lemma_text_of_fragments_of(rows[k]);
        }
    }
    assert forall|k: int| 0 <= k < rows.len() implies is_plain_line(#[trigger] rows[k]) by {
        lemma_text_lines_hold_no_newline(contents, k);
    }
    lemma_text_lines_of_joined(rows);
}

impl Default for Buffer {
    /// The empty document: no lines, no file, nothing changed.
    fn default() -> (buffer: Buffer)
        ensures
            buffer@.lines.len() == 0,
            buffer@.file.path is None,
            buffer@.file.name is None,
            !buffer@.dirty,
    {
        Buffer { lines: Vec::new(), file_info: FileInfo::default(), dirty: false }
    }
}

} // verus!
