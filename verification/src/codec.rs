//! The codec invoker's share of the work: how the encryption tool is called,
//! and what its answer means. The tool itself runs outside this library.

use vstd::prelude::*;
use crate::error::{ErrorView, SopsError, Verb};

verus! {

/// The texts of a list of strings.
pub open spec fn texts(list: Seq<String>) -> Seq<Seq<char>> {
    Seq::new(list.len(), |i: int| list[i]@)
}

/// The arguments after the tool's name: `-d <path>` to decrypt to the
/// standard output, `-e -i <path>` to encrypt in place.
pub open spec fn arguments_of(verb: Verb, path: Seq<char>) -> Seq<Seq<char>> {
    match verb {
        Verb::Decrypt => seq!["-d"@, path],
        Verb::Encrypt => seq!["-e"@, "-i"@, path],
    }
}

/// The path beside `path` at which a file is encrypted before it replaces
/// the file at `path`.
pub open spec fn staging_path_of(path: Seq<char>) -> Seq<char> {
    path + ".tmp"@
}

/// How one run of the tool ended.
#[derive(Debug, PartialEq, Eq)]
pub struct ToolRun {
    /// The exit status; `None` if the tool did not exit by itself: it could
    /// not be started, or was stopped by a signal or by the configured
    /// timeout.
    pub status: Option<i32>,
    pub stdout: Vec<u8>,
    pub stderr: Vec<u8>,
}

/// A `ToolRun` as plain values.
pub struct ToolRunView {
    pub status: Option<i32>,
    pub stdout: Seq<u8>,
    pub stderr: Seq<u8>,
}

impl ToolRunView {
    /// Only exit status 0 is a success.
    pub open spec fn succeeded(self) -> bool {
        self.status == Some(0i32)
    }
}

impl View for ToolRun {
    type V = ToolRunView;

    open spec fn view(&self) -> ToolRunView {
        ToolRunView { status: self.status, stdout: self.stdout@, stderr: self.stderr@ }
    }
}

/// The record of one call of the tool, kept only to report an error.
#[derive(Debug, PartialEq, Eq)]
pub struct ToolInvocation {
    pub verb: Verb,
    pub path: String,
    pub status: Option<i32>,
    pub stderr: Vec<u8>,
}

impl ToolInvocation {
    /// Whether the tool reported success.
    pub fn succeeded(&self) -> (good: bool)
        ensures
            good == (self.status == Some(0i32)),
    {
        match self.status {
            Some(code) => code == 0,
            None => false,
        }
    }

    /// The error that reports this call.
    pub fn into_error(self) -> (error: SopsError)
        ensures
            error@ == (ErrorView::ToolInvocationError {
                verb: self.verb,
                path: self.path@,
                stderr: self.stderr@,
            }),
    {
        SopsError::ToolInvocationError { verb: self.verb, path: self.path, stderr: self.stderr }
    }
}

/// What a run of the tool for `verb` on `path` yields: its standard output
/// if it succeeded, else the error that carries its standard error.
pub open spec fn conclusion_of(verb: Verb, path: Seq<char>, run: ToolRunView) -> Result<Seq<u8>, ErrorView> {
    if run.succeeded() {
        Ok(run.stdout)
    } else {
        Err(ErrorView::ToolInvocationError { verb, path, stderr: run.stderr })
    }
}

/// The view of a result of bytes.
pub open spec fn bytes_result_view(result: Result<Vec<u8>, SopsError>) -> Result<Seq<u8>, ErrorView> {
    match result {
        Ok(bytes) => Ok(bytes@),
        Err(error) => Err(error@),
    }
}

/// Turns the end of a run into the bytes it printed or into a typed error.
pub fn conclude(verb: Verb, path: &str, run: ToolRun) -> (result: Result<Vec<u8>, SopsError>)
    ensures
        bytes_result_view(result) == conclusion_of(verb, path@, run@),
{
    let invocation = ToolInvocation { verb, path: path.to_owned(), status: run.status, stderr: run.stderr };
    if invocation.succeeded() {
        Ok(run.stdout)
    } else {
        Err(invocation.into_error())
    }
}

/// The arguments with which the tool is called for `verb` on `path`.
pub fn arguments(verb: Verb, path: &str) -> (args: Vec<String>)
    ensures
        texts(args@) == arguments_of(verb, path@),
{
    let mut args: Vec<String> = Vec::new();
    match verb {
        Verb::Decrypt => {
            args.push("-d".to_owned());
        },
        Verb::Encrypt => {
            args.push("-e".to_owned());
            args.push("-i".to_owned());
        },
    }
    args.push(path.to_owned());
    assert(texts(args@) =~= arguments_of(verb, path@));
    args
}

/// The staging path of `path`.
pub fn staging_path(path: &str) -> (staged: String)
    ensures
        staged@ == staging_path_of(path@),
{
    path.to_owned().concat(".tmp")
}

/// The plaintext that a decrypt run yields: exactly what the tool printed,
/// if it succeeded; its error otherwise.
pub fn decrypt_result(path: &str, run: ToolRun) -> (result: Result<Vec<u8>, SopsError>)
    ensures
        bytes_result_view(result) == conclusion_of(Verb::Decrypt, path@, run@),
{
    conclude(Verb::Decrypt, path, run)
}

/// How an encrypt run ended.
pub fn encrypt_result(path: &str, run: ToolRun) -> (result: Result<(), SopsError>)
    ensures
        result is Ok <==> run@.succeeded(),
        result is Err ==> result->Err_0@ == (ErrorView::ToolInvocationError {
            verb: Verb::Encrypt,
            path: path@,
            stderr: run.stderr@,
        }),
{
    match conclude(Verb::Encrypt, path, run) {
        Ok(_) => Ok(()),
        Err(error) => Err(error),
    }
}

} // verus!
