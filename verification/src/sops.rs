//! The editor's side: the three lifecycle calls of an editor, and what the
//! extension tells its host.

use vstd::prelude::*;
use crate::classifier::{cipher_marker, header_marker, utf8};
use crate::dispatcher::{dispatch, Dispatcher};
use crate::scan::{contains, contains_seq};
use crate::tracker::{InputView, Intent, Step};

verus! {

/// The content carries the tool's metadata header and an inline
/// ciphertext.
pub open spec fn sops_encrypted(content: Seq<u8>) -> bool {
    contains_seq(content, header_marker()) && contains_seq(content, cipher_marker())
}

/// The command that starts a context server.
#[derive(Debug, PartialEq, Eq)]
pub struct ServerCommand {
    pub command: String,
    pub args: Vec<String>,
    pub env: Vec<(String, String)>,
}

/// The extension as the editor sees it.
#[derive(Debug)]
pub struct SopsExtension;

impl SopsExtension {
    pub fn new() -> (extension: SopsExtension) {
        SopsExtension
    }

    /// Whether a text is in the tool's encrypted form.
    pub fn is_sops_encrypted(content: &str) -> (encrypted: bool)
        ensures
            encrypted == sops_encrypted(utf8(content@)),
    {
        let bytes = content.as_bytes();
        contains(bytes, "sops:".as_bytes()) && contains(bytes, "ENC[".as_bytes())
    }

    /// The command for the context server named `context_server_id`. The
    /// extension has one server, `sops`; it is started by the program
    /// `sops_context_server` without arguments or environment. Any other
    /// name is refused.
    pub fn context_server_command(&mut self, context_server_id: &str) -> (command: Result<ServerCommand, String>)
        ensures
            context_server_id@ == "sops"@ ==> command is Ok && command->Ok_0.command@ == "sops_context_server"@
                && command->Ok_0.args@.len() == 0 && command->Ok_0.env@.len() == 0,
            context_server_id@ != "sops"@ ==> command is Err && command->Err_0@ == "unknown context server"@,
    {
        if context_server_id.to_owned() != "sops".to_owned() {
            return Err("unknown context server".to_owned());
        }
        Ok(ServerCommand { command: "sops_context_server".to_owned(), args: Vec::new(), env: Vec::new() })
    }
}

/// The editor opens the file at `path`: it should be in plaintext. Gives the
/// first step of the transition; the following ones come from the
/// dispatcher as each step is reported.
pub fn open_document(dispatcher: &mut Dispatcher, path: &str) -> (step: Step)
    ensures
        final(dispatcher).settings() == old(dispatcher).settings(),
        final(dispatcher)@ == dispatch(
            old(dispatcher).settings()@,
            old(dispatcher)@,
            path@,
            InputView::Arrived { intent: Intent::Expose },
        ).0,
        step@ == dispatch(
            old(dispatcher).settings()@,
            old(dispatcher)@,
            path@,
            InputView::Arrived { intent: Intent::Expose },
        ).1,
{
    dispatcher.begin(path, Intent::Expose)
}

/// The editor has saved the file at `path`: the file should be encrypted by
/// the tool.
pub fn save_document(dispatcher: &mut Dispatcher, path: &str) -> (step: Step)
    ensures
        final(dispatcher).settings() == old(dispatcher).settings(),
        final(dispatcher)@ == dispatch(
            old(dispatcher).settings()@,
            old(dispatcher)@,
            path@,
            InputView::Arrived { intent: Intent::Seal },
        ).0,
        step@ == dispatch(
            old(dispatcher).settings()@,
            old(dispatcher)@,
            path@,
            InputView::Arrived { intent: Intent::Seal },
        ).1,
{
    dispatcher.begin(path, Intent::Seal)
}

/// The editor closes the file at `path`: it should be back in ciphertext,
/// by its snapshot if it holds byte for byte what the decryption wrote, by
/// the tool otherwise.
pub fn close_document(dispatcher: &mut Dispatcher, path: &str) -> (step: Step)
    ensures
        final(dispatcher).settings() == old(dispatcher).settings(),
        final(dispatcher)@ == dispatch(
            old(dispatcher).settings()@,
            old(dispatcher)@,
            path@,
            InputView::Arrived { intent: Intent::Retire },
        ).0,
        step@ == dispatch(
            old(dispatcher).settings()@,
            old(dispatcher)@,
            path@,
            InputView::Arrived { intent: Intent::Retire },
        ).1,
{
    dispatcher.begin(path, Intent::Retire)
}

} // verus!
