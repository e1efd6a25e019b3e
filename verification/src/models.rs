//! The document update that the editor sends and the preview shows.

use vstd::prelude::*;

verus! {

/// Name of the `content` field on the wire.
pub const CONTENT_FIELD: &'static str = "content";

/// Name of the `cursor_line` field on the wire.
pub const CURSOR_LINE_FIELD: &'static str = "cursorLine";

/// Name of the `file_name` field on the wire.
pub const FILE_NAME_FIELD: &'static str = "fileName";

/// One document update: the whole text, the line the cursor is on, and the
/// file's name.
#[derive(Clone, Debug, PartialEq, Eq)]
pub struct UpdatePayload {
    pub content: String,
    pub cursor_line: u32,
    pub file_name: String,
}

/// An update with its strings as sequences.
pub struct UpdateView {
    pub content: Seq<char>,
    pub cursor_line: u32,
    pub file_name: Seq<char>,
}

impl View for UpdatePayload {
    type V = UpdateView;

    open spec fn view(&self) -> UpdateView {
        UpdateView {
            content: self.content@,
            cursor_line: self.cursor_line,
            file_name: self.file_name@,
        }
    }
}

impl UpdatePayload {
    /// An update made of its three fields.
    pub fn new(content: String, cursor_line: u32, file_name: String) -> (r: Self)
        ensures
            r.content == content,
            r.cursor_line == cursor_line,
            r.file_name == file_name,
    {
        UpdatePayload { content, cursor_line, file_name }
    }
}

} // verus!
