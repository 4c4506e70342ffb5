//! The GUI editor's session state: the widget-owned text, the associated
//! file path, and the status line, updated by the new/open/save/save-as
//! handlers. Character-level editing is the host text widget's business and
//! never reaches this state except as whole-content replacement.

use vstd::prelude::*;

verus! {

/// Relies on std's `format!` macro: the result is the first string followed
/// by the second.
#[verifier::external_body]
fn concat2(prefix: &str, rest: &str) -> (r: String)
    ensures
        r@ == prefix@ + rest@,
{
    format!("{}{}", prefix, rest)
}

/// Mathematical model of the GUI session: the whole text, the file path if
/// one is set, and the status line.
pub struct GuiModel {
    pub content: Seq<char>,
    pub filepath: Option<Seq<char>>,
    pub status: Seq<char>,
}

/// The status line shown after a file was opened.
pub open spec fn opened_status(path: Seq<char>) -> Seq<char> {
    "Opened: "@ + path
}

/// The status line shown when opening a file failed.
pub open spec fn open_error_status(message: Seq<char>) -> Seq<char> {
    "Error opening file: "@ + message
}

/// The status line shown after a plain save.
pub open spec fn saved_status(path: Seq<char>) -> Seq<char> {
    "Saved: "@ + path
}

/// The status line shown after a save-as.
pub open spec fn saved_as_status(path: Seq<char>) -> Seq<char> {
    "Saved as: "@ + path
}

/// The status line shown when a write failed.
pub open spec fn save_error_status(message: Seq<char>) -> Seq<char> {
    "Error saving: "@ + message
}

/// The GUI editing session.
pub struct TextEditor {
    content: String,
    filepath: Option<String>,
    status_message: String,
}

impl View for TextEditor {
    type V = GuiModel;

    closed spec fn view(&self) -> GuiModel {
        GuiModel {
            content: self.content@,
            filepath: match self.filepath {
                Some(p) => Some(p@),
                None => None,
            },
            status: self.status_message@,
        }
    }
}

impl TextEditor {
    /// A fresh session: no text, no path, an empty status line.
    pub fn new() -> (ed: TextEditor)
        ensures
            ed@.content == Seq::<char>::empty(),
            ed@.filepath is None,
            ed@.status == Seq::<char>::empty(),
    {
        TextEditor { content: String::new(), filepath: None, status_message: String::new() }
    }

    /// Starts over: clears the text, forgets the path, and says so.
    pub fn new_file(&mut self)
        ensures
            final(self)@.content == Seq::<char>::empty(),
            final(self)@.filepath is None,
            final(self)@.status == "New file created"@,
    {
        self.content = String::new();
        self.filepath = None;
        self.status_message = "New file created".to_owned();
    }

    /// Records the outcome of reading `path`: on success the text is
    /// replaced and the path adopted; on failure only the status line
    /// changes, carrying the reported error.
    pub fn open_finished(&mut self, path: String, outcome: Result<String, String>)
        ensures
            (match outcome {
                Ok(content) => {
                    &&& final(self)@.content == content@
                    &&& final(self)@.filepath == Some(path@)
                    &&& final(self)@.status == opened_status(path@)
                },
                Err(message) => {
                    &&& final(self)@.content == old(self)@.content
                    &&& final(self)@.filepath == old(self)@.filepath
                    &&& final(self)@.status == open_error_status(message@)
                },
            }),
    {
        match outcome {
            Ok(content) => {
                self.content = content;
                self.status_message = concat2("Opened: ", path.as_str());
                self.filepath = Some(path);
            },
            Err(message) => {
                self.status_message = concat2("Error opening file: ", message.as_str());
            },
        }
    }

    /// Decides what a plain save does: hands back the path and the text to
    /// write when a path is set; otherwise performs nothing and reports that
    /// a path is missing.
    pub fn save_file(&mut self) -> (r: Option<(String, String)>)
        ensures
            final(self)@.content == old(self)@.content,
            final(self)@.filepath == old(self)@.filepath,
            (match r {
                Some((path, content)) => {
                    &&& old(self)@.filepath == Some(path@)
                    &&& content@ == old(self)@.content
                    &&& final(self)@.status == old(self)@.status
                },
                None => {
                    &&& old(self)@.filepath is None
                    &&& final(self)@.status == "No file path set. Use Save As."@
                },
            }),
    {
        match &self.filepath {
            Some(path) => Some((path.clone(), self.content.clone())),
            None => {
                self.status_message = "No file path set. Use Save As.".to_owned();
                None
            },
        }
    }

    /// Records the outcome of a plain save: the status line reports success
    /// at `path` or carries the reported error.
    pub fn save_finished(&mut self, path: &str, error: Option<String>)
        ensures
            final(self)@.content == old(self)@.content,
            final(self)@.filepath == old(self)@.filepath,
            (match error {
                None => final(self)@.status == saved_status(path@),
                Some(message) => final(self)@.status == save_error_status(message@),
            }),
    {
        match error {
            None => {
                self.status_message = concat2("Saved: ", path);
            },
            Some(message) => {
                self.status_message = concat2("Error saving: ", message.as_str());
            },
        }
    }

    /// Records the outcome of a save-as to `path`: on success the path is
    /// adopted; on failure the session keeps its old path and the status
    /// line carries the reported error.
    pub fn save_as_finished(&mut self, path: String, error: Option<String>)
        ensures
            final(self)@.content == old(self)@.content,
            (match error {
                None => {
                    &&& final(self)@.filepath == Some(path@)
                    &&& final(self)@.status == saved_as_status(path@)
                },
                Some(message) => {
                    &&& final(self)@.filepath == old(self)@.filepath
                    &&& final(self)@.status == save_error_status(message@)
                },
            }),
    {
        match error {
            None => {
                self.status_message = concat2("Saved as: ", path.as_str());
                self.filepath = Some(path);
            },
            Some(message) => {
                self.status_message = concat2("Error saving: ", message.as_str());
            },
        }
    }

    /// Empties the text, keeping path and status.
    pub fn clear_content(&mut self)
        ensures
            final(self)@.content == Seq::<char>::empty(),
            final(self)@.filepath == old(self)@.filepath,
            final(self)@.status == old(self)@.status,
    {
        self.content = String::new();
    }

    /// The whole text, as the host widget edits it.
    pub fn content(&self) -> (r: &String)
        ensures
            r@ == self@.content,
    {
        &self.content
    }

    /// Replaces the whole text, mirroring an edit made in the host widget.
    pub fn set_content(&mut self, content: String)
        ensures
            final(self)@.content == content@,
            final(self)@.filepath == old(self)@.filepath,
            final(self)@.status == old(self)@.status,
    {
        self.content = content;
    }

    /// The file path, if one is set.
    pub fn filepath(&self) -> (r: &Option<String>)
        ensures
            (match r {
                Some(p) => self@.filepath == Some(p@),
                None => self@.filepath is None,
            }),
    {
        &self.filepath
    }

    /// The status line.
    pub fn status_message(&self) -> (r: &String)
        ensures
            r@ == self@.status,
    {
        &self.status_message
    }
}

} // verus!
