//! The ways an operation can fail.

use vstd::prelude::*;
use vstd::string::StringExecFns;

verus! {

/// Why an operation did not do its work.
#[derive(Debug, PartialEq, Eq)]
pub enum MemoError {
    /// The database refused or failed a statement, and the text is the
    /// database's own; or it answered with rows that the store does not
    /// accept, and the text says what was wrong with them.
    Store(String),
    /// A record of this name is already in the table.
    DuplicateName(String),
    /// The task manager is not installed on this machine.
    ExternalAppUnavailable,
    /// Playback is not offered on this operating system.
    Capability,
    /// An audio file is missing; the text is its resolved path.
    FileNotFound(String),
    /// The tasks could not be written into a URL.
    InvalidUrl,
}

/// The message of each error, as it is shown to the user.
pub open spec fn message_text(e: MemoError) -> Seq<char> {
    match e {
        MemoError::Store(text) => text@,
        MemoError::DuplicateName(name) => "A memo named "@ + name@ + " already exists"@,
        MemoError::ExternalAppUnavailable => "Things is not installed"@,
        MemoError::Capability => "This command is only available on macOS"@,
        MemoError::FileNotFound(path) => "File "@ + path@ + " doesn't exist"@,
        MemoError::InvalidUrl => "The tasks do not fit into a URL"@,
    }
}

impl MemoError {
    /// The message to show for this error.
    pub fn message(&self) -> (out: String)
        ensures
            out@ == message_text(*self),
    {
        match self {
            MemoError::Store(text) => text.clone(),
            MemoError::DuplicateName(name) => {
                let mut out = String::from_str("A memo named ");
                out.append(name.as_str());
                out.append(" already exists");
                out
            },
            MemoError::ExternalAppUnavailable => String::from_str("Things is not installed"),
            MemoError::Capability => String::from_str("This command is only available on macOS"),
            MemoError::FileNotFound(path) => {
                let mut out = String::from_str("File ");
                out.append(path.as_str());
                out.append(" doesn't exist");
                out
            },
            MemoError::InvalidUrl => String::from_str("The tasks do not fit into a URL"),
        }
    }
}

} // verus!
