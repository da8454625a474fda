//! The errors of the system, and what a failed start means for the process.

use vstd::prelude::*;

verus! {

/// The two calls that the encryption tool answers.
#[derive(Clone, Copy, Debug, PartialEq, Eq, Structural)]
pub enum Verb {
    Decrypt,
    Encrypt,
}

/// Why a start or a per-file transition failed.
#[derive(Debug, PartialEq, Eq)]
pub enum SopsError {
    /// The encryption tool is not on the search path.
    ToolNotFound,
    /// The watch root could not be opened.
    WatchSetupError,
    /// The tool ran for `verb` on `path` and did not succeed.
    ToolInvocationError { verb: Verb, path: String, stderr: Vec<u8> },
    /// A file operation on `path` failed.
    IoError { path: String },
}

/// A `SopsError` as plain values.
pub enum ErrorView {
    ToolNotFound,
    WatchSetupError,
    ToolInvocationError { verb: Verb, path: Seq<char>, stderr: Seq<u8> },
    IoError { path: Seq<char> },
}

impl View for SopsError {
    type V = ErrorView;

    open spec fn view(&self) -> ErrorView {
        match self {
            SopsError::ToolNotFound => ErrorView::ToolNotFound,
            SopsError::WatchSetupError => ErrorView::WatchSetupError,
            SopsError::ToolInvocationError { verb, path, stderr } => ErrorView::ToolInvocationError {
                verb: *verb,
                path: path@,
                stderr: stderr@,
            },
            SopsError::IoError { path } => ErrorView::IoError { path: path@ },
        }
    }
}

impl ErrorView {
    /// Fatal errors end the process at its start; the others concern one file
    /// and leave the watch loop running.
    pub open spec fn fatal(self) -> bool {
        self is ToolNotFound || self is WatchSetupError
    }
}

impl SopsError {
    /// Whether the error ends the process.
    pub fn is_fatal(&self) -> (fatal: bool)
        ensures
            fatal == self@.fatal(),
    {
        match self {
            SopsError::ToolNotFound => true,
            SopsError::WatchSetupError => true,
            SopsError::ToolInvocationError { .. } => false,
            SopsError::IoError { .. } => false,
        }
    }
}

/// The tool's location, as the search for it ended: an error that ends the
/// start exactly if it was not found.
pub fn require_tool(found: Option<String>) -> (located: Result<String, SopsError>)
    ensures
        found is Some ==> located == Ok::<String, SopsError>(found->0),
        found is None ==> located is Err && located->Err_0@ == ErrorView::ToolNotFound,
{
    match found {
        Some(location) => Ok(location),
        None => Err(SopsError::ToolNotFound),
    }
}

/// The watch on the root directory, as setting it up ended.
pub fn require_watch(opened: bool) -> (watching: Result<(), SopsError>)
    ensures
        opened ==> watching is Ok,
        !opened ==> watching is Err && watching->Err_0@ == ErrorView::WatchSetupError,
{
    if opened {
        Ok(())
    } else {
        Err(SopsError::WatchSetupError)
    }
}

/// The exit code of the process for how its run ended.
pub open spec fn exit_code_of(ended: Result<(), ErrorView>) -> int {
    match ended {
        Ok(_) => 0,
        Err(error) => if error.fatal() { 1 } else { 0 },
    }
}

/// The exit code of the process: 0 for a normal shutdown, 1 if the start
/// failed. An error on a single file never ends the process, so it leaves
/// the code at 0.
pub fn exit_code(ended: &Result<(), SopsError>) -> (code: i32)
    ensures
        code == exit_code_of(
            match *ended {
                Ok(_) => Ok(()),
                Err(error) => Err(error@),
            },
        ),
{
    match ended {
        Ok(_) => 0,
        Err(error) => if error.is_fatal() { 1 } else { 0 },
    }
}

} // verus!
