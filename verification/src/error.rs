//! What a command reports when it cannot do its work.

use vstd::prelude::*;
use vstd::string::*;

verus! {

/// The text of a failed read: a fixed opening, then the cause as the
/// operating system worded it.
pub open spec fn read_failure_text(cause: Seq<char>) -> Seq<char> {
    "Failed to read file: "@ + cause
}

/// The text reported when no file dialog can be shown.
pub open spec fn dialog_unavailable_text() -> Seq<char> {
    "File dialog is unavailable"@
}

/// The two ways a command can fail. Every other mishap (a file that can no
/// longer be examined, a startup argument that names no markdown file) is
/// absorbed by the command it happens in.
#[derive(Debug, PartialEq, Eq)]
pub enum CommandError {
    /// A requested file could not be read. The message includes the cause.
    FileAccess { message: String },
    /// The host could not present a file dialog.
    DialogUnavailable,
}

impl CommandError {
    /// The message of this error, as a sequence of characters.
    pub open spec fn text(&self) -> Seq<char> {
        match self {
            CommandError::FileAccess { message } => message@,
            CommandError::DialogUnavailable => dialog_unavailable_text(),
        }
    }

    /// The error for a read that failed with `cause`.
    pub fn read_failure(cause: &str) -> (e: CommandError)
        ensures
            e is FileAccess,
            e.text() == read_failure_text(cause@),
    {
        let mut message = String::from_str("Failed to read file: ");
        message.append(cause);
        CommandError::FileAccess { message }
    }

    /// The message to show for this error.
    pub fn message(&self) -> (m: String)
        ensures
            m@ == self.text(),
    {
        match self {
            CommandError::FileAccess { message } => message.clone(),
            CommandError::DialogUnavailable => String::from_str("File dialog is unavailable"),
        }
    }
}

} // verus!
