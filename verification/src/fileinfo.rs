//! The file that a document belongs to.

use vstd::prelude::*;

verus! {

/// What a `FileInfo` holds.
pub struct FileIdentity {
    /// The path the document is read from and written to, if it has one.
    pub path: Option<Seq<char>>,
    /// The last component of the path, if the path has one that names a file.
    pub name: Option<Seq<char>>,
}

/// The name shown for a document without a file name.
pub open spec fn no_name() -> Seq<char> {
    "[No Name]"@
}

impl FileIdentity {
    /// The name under which the document is shown.
    pub open spec fn display_name(self) -> Seq<char> {
        match self.name {
            Some(name) => name,
            None => no_name(),
        }
    }
}

/// The identity of the file behind a document.
pub struct FileInfo {
    path: Option<String>,
    name: Option<String>,
}

impl View for FileInfo {
    type V = FileIdentity;

    closed spec fn view(&self) -> FileIdentity {
        FileIdentity {
            path: match self.path {
                Some(path) => Some(path@),
                None => None,
            },
            name: match self.name {
                Some(name) => Some(name@),
                None => None,
            },
        }
    }
}

/// Calls `std::path::Path::file_name` on `path` and hands back what it finds
/// as text. Which part of a path is its last component depends on the
/// platform's separators, so nothing is said of the result.
#[verifier::external_body]
fn file_name_of(path: &str) -> (name: Option<String>) {
    match std::path::Path::new(path).file_name() {
        Some(name) => name.to_str().map(String::from),
        None => None,
    }
}

impl FileInfo {
    /// The identity of the file at `file_name`. Its display name is the last
    /// component of that path as the platform reads it.
    pub fn from(file_name: &str) -> (info: FileInfo)
        ensures
            info@.path == Some(file_name@),
    {
        FileInfo { path: Some(String::from_str(file_name)), name: file_name_of(file_name) }
    }

    /// The path of the file, if the document has one.
    pub fn path(&self) -> (path: Option<String>)
        ensures
            match path {
                Some(p) => self@.path == Some(p@),
                None => self@.path is None,
            },
    {
        match &self.path {
            Some(path) => Some(path.clone()),
            None => None,
        }
    }

    /// The name under which the document is shown: the name of its file, or
    /// a placeholder where there is none.
    pub fn to_string(&self) -> (name: String)
        ensures
            name@ == self@.display_name(),
    {
        match &self.name {
            Some(name) => name.clone(),
            None => String::from_str("[No Name]"),
        }
    }
}

impl Default for FileInfo {
    /// No file: a document that has not been given a name.
    fn default() -> (info: FileInfo)
        ensures
            info@.path is None,
            info@.name is None,
    {
        FileInfo { path: None, name: None }
    }
}

impl Clone for FileInfo {
    fn clone(&self) -> (info: FileInfo)
        ensures
            info@ == self@,
    {
        FileInfo {
            path: match &self.path {
                Some(path) => Some(path.clone()),
                None => None,
            },
            name: match &self.name {
                Some(name) => Some(name.clone()),
                None => None,
            },
        }
    }
}

} // verus!
