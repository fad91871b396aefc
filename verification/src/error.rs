//! The errors of the library.

use crate::tool::ToolFailure;
use vstd::prelude::*;
use vstd::string::StringExecFns;

verus! {

/// Why a filesystem type could not be parsed or a device not be formatted.
#[derive(Debug, PartialEq, Eq)]
pub enum FilesystemError {
    /// The text names no filesystem type that a user may select. `input` is
    /// the text as it was compared: trimmed and in lower case.
    UnsupportedFilesystem { input: String },
    /// The formatting tool reported a failure, which is kept as `cause`.
    FormatFailed { cause: ToolFailure },
}

impl FilesystemError {
    /// The text of the error message.
    pub open spec fn message_text(&self) -> Seq<char> {
        match self {
            FilesystemError::UnsupportedFilesystem { input } => input@
                + " is not supported or was not understood."@,
            FilesystemError::FormatFailed { .. } => "Error formatting filesystem"@,
        }
    }

    /// The error message: for an unsupported filesystem it starts with the
    /// rejected text, for a failed formatting it is a fixed sentence.
    pub fn message(&self) -> (m: String)
        ensures
            m@ == self.message_text(),
    {
        match self {
            FilesystemError::UnsupportedFilesystem { input } => input.clone().concat(
                " is not supported or was not understood.",
            ),
            FilesystemError::FormatFailed { .. } => "Error formatting filesystem".to_owned(),
        }
    }
}

} // verus!
