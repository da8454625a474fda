//! The state of one managed file, and the transitions that events cause.
//!
//! A transition is a short exchange. The tracker says which step comes next;
//! whoever drives it performs the step and hands back how it ended. While an
//! exchange is under way the file is locked: a further event on it is
//! answered with `Step::Busy` and has to be delivered again.

use vstd::prelude::*;
use crate::classifier::{
    cipher_marker, classification_of, classify, Classification, FileObservation, ObservationView,
};
use crate::codec::{
    arguments, arguments_of, conclusion_of, decrypt_result, encrypt_result, staging_path, staging_path_of, texts,
    ToolRun, ToolRunView,
};
use crate::config::{Config, ConfigView, EncryptMode};
use crate::error::{ErrorView, SopsError, Verb};
use crate::scan::{contains, contains_seq, same_bytes};

verus! {

/// Where a file stands between rest and editing.
#[derive(Clone, Copy, Debug, PartialEq, Eq, Structural)]
pub enum FileState {
    Unknown,
    AtRestEncrypted,
    ActiveDecrypted,
}

/// The state that goes with a classification.
pub open spec fn state_of(class: Classification) -> FileState {
    match class {
        Classification::CiphertextSecret => FileState::AtRestEncrypted,
        Classification::PlaintextSecret => FileState::ActiveDecrypted,
        _ => FileState::Unknown,
    }
}

/// What an event asks of a file.
#[derive(Clone, Copy, Debug, PartialEq, Eq, Structural)]
pub enum Intent {
    /// The file is about to be read: it should be in plaintext.
    Expose,
    /// The file changed: only its classification is looked at again.
    Recheck,
    /// Editing is over: the file should be encrypted by the tool.
    Seal,
    /// The editor lets go of the file: it should be back in ciphertext, by
    /// its retained snapshot if its content is what the decryption wrote, by
    /// the tool otherwise.
    Retire,
}

/// The step of an exchange that is outstanding. Anything but `Idle` is the
/// lock on the file.
#[derive(Clone, Copy, Debug, PartialEq, Eq, Structural)]
pub enum Phase {
    Idle,
    /// The file is being looked at.
    Observing(Intent),
    /// The tool is decrypting.
    Decrypting,
    /// The plaintext is being written over the file.
    WritingPlaintext,
    /// The tool is encrypting the file in place.
    Encrypting,
    /// The content is being written to the staging path.
    Staging,
    /// The tool is encrypting the staged copy.
    EncryptingStaged,
    /// The staged copy is being renamed over the file.
    Promoting,
    /// The snapshot is being written over the file.
    Restoring,
}

/// What the transition has to do once the file is classified.
#[derive(Clone, Copy, Debug, PartialEq, Eq, Structural)]
pub enum Plan {
    Nothing,
    Decrypt,
    EncryptInPlace,
    EncryptStaged,
    Restore,
}

/// The next thing to do for a file.
#[derive(Debug, PartialEq, Eq)]
pub enum Step {
    /// A transition of this file is under way. Nothing changed; the event
    /// is to be delivered again later.
    Busy,
    /// What was handed in answers no outstanding step. Nothing changed.
    Unexpected,
    /// Look at the file, then report with `observed`.
    Observe { path: String },
    /// Run the tool with `args`, then report with `tool_finished`.
    RunTool { verb: Verb, args: Vec<String> },
    /// Replace the content of `path` by `bytes`, then report with
    /// `file_op_finished`.
    WriteFile { path: String, bytes: Vec<u8> },
    /// Rename `from` to `to`, then report with `file_op_finished`.
    Rename { from: String, to: String },
    /// The transition is over and the lock released.
    Finished,
    /// The transition failed and the lock is released. `discard` names a
    /// staging file to remove, if one may be left.
    Failed { error: SopsError, discard: Option<String> },
}

/// A `Step` as plain values.
pub enum StepView {
    Busy,
    Unexpected,
    Observe { path: Seq<char> },
    RunTool { verb: Verb, args: Seq<Seq<char>> },
    WriteFile { path: Seq<char>, bytes: Seq<u8> },
    Rename { from: Seq<char>, to: Seq<char> },
    Finished,
    Failed { error: ErrorView, discard: Option<Seq<char>> },
}

impl View for Step {
    type V = StepView;

    open spec fn view(&self) -> StepView {
        match self {
            Step::Busy => StepView::Busy,
            Step::Unexpected => StepView::Unexpected,
            Step::Observe { path } => StepView::Observe { path: path@ },
            Step::RunTool { verb, args } => StepView::RunTool { verb: *verb, args: texts(args@) },
            Step::WriteFile { path, bytes } => StepView::WriteFile { path: path@, bytes: bytes@ },
            Step::Rename { from, to } => StepView::Rename { from: from@, to: to@ },
            Step::Finished => StepView::Finished,
            Step::Failed { error, discard } => StepView::Failed {
                error: error@,
                discard: match discard {
                    Some(path) => Some(path@),
                    None => None,
                },
            },
        }
    }
}

impl StepView {
    /// The step ends a transition.
    pub open spec fn is_final(self) -> bool {
        self is Finished || self is Failed
    }

    /// The signal that a final step gives to whoever asked: success or
    /// failure. A step that is not final gives none.
    pub open spec fn outcome(self) -> Option<bool> {
        match self {
            StepView::Finished => Some(true),
            StepView::Failed { .. } => Some(false),
            _ => None,
        }
    }

    /// The step calls the encryption tool.
    pub open spec fn invokes_tool(self) -> bool {
        self is RunTool
    }

    /// The step itself changes what is stored at `path`: it writes the
    /// file, renames it or renames another file over it, or removes it.
    pub open spec fn writes(self, path: Seq<char>) -> bool {
        match self {
            StepView::WriteFile { path: target, .. } => target == path,
            StepView::Rename { from, to } => from == path || to == path,
            StepView::Failed { discard, .. } => discard == Some(path),
            _ => false,
        }
    }

    /// The step changes what is stored at `path`, or has the tool do so.
    pub open spec fn touches(self, path: Seq<char>) -> bool {
        self.writes(path) || self == (StepView::RunTool {
            verb: Verb::Encrypt,
            args: arguments_of(Verb::Encrypt, path),
        })
    }

    /// The step asks for nothing that changes a file, and not for the tool.
    pub open spec fn changes_nothing(self) -> bool {
        match self {
            StepView::Busy => true,
            StepView::Unexpected => true,
            StepView::Observe { .. } => true,
            StepView::Finished => true,
            StepView::Failed { discard, .. } => discard is None,
            _ => false,
        }
    }
}

impl Step {
    /// Whether the transition succeeded, once it is over.
    pub fn outcome(&self) -> (signal: Option<bool>)
        ensures
            signal == self@.outcome(),
    {
        match self {
            Step::Finished => Some(true),
            Step::Failed { .. } => Some(false),
            _ => None,
        }
    }
}

/// What is kept of one path.
#[derive(Debug, PartialEq, Eq)]
pub struct ManagedFile {
    pub path: String,
    pub classification: Classification,
    /// The encrypted content as it was last seen.
    pub last_known_ciphertext: Option<Vec<u8>>,
    /// What the last decryption wrote into the file. It is kept for as long
    /// as the file counts as a plaintext secret.
    pub decrypted_plaintext: Option<Vec<u8>>,
    pub phase: Phase,
}

/// A `ManagedFile` without its path, as plain values.
pub struct FileView {
    pub classification: Classification,
    pub snapshot: Option<Seq<u8>>,
    pub plaintext: Option<Seq<u8>>,
    pub phase: Phase,
}

impl View for ManagedFile {
    type V = FileView;

    open spec fn view(&self) -> FileView {
        FileView {
            classification: self.classification,
            snapshot: match self.last_known_ciphertext {
                Some(bytes) => Some(bytes@),
                None => None,
            },
            plaintext: match self.decrypted_plaintext {
                Some(bytes) => Some(bytes@),
                None => None,
            },
            phase: self.phase,
        }
    }
}

impl FileView {
    /// A file of which nothing is known yet.
    pub open spec fn fresh() -> FileView {
        FileView {
            classification: Classification::Unknown,
            snapshot: None,
            plaintext: None,
            phase: Phase::Idle,
        }
    }

    pub open spec fn state(self) -> FileState {
        state_of(self.classification)
    }

    pub open spec fn locked(self) -> bool {
        self.phase != Phase::Idle
    }

    /// What holds of a fresh file and is kept by every transition: a file
    /// that is being decrypted was seen as ciphertext and has a snapshot; a
    /// file that is being encrypted or restored was seen as plaintext; the
    /// plaintext of a decryption is held only of a file that has a snapshot
    /// and counts as a plaintext secret, or is about to.
    pub open spec fn consistent(self) -> bool {
        &&& self.phase is Decrypting ==> (self.classification == Classification::CiphertextSecret
            && self.snapshot is Some && self.plaintext is None)
        &&& self.phase is WritingPlaintext ==> (self.classification == Classification::CiphertextSecret
            && self.snapshot is Some && self.plaintext is Some)
        &&& (self.phase is Encrypting || self.phase is Staging || self.phase is EncryptingStaged
            || self.phase is Promoting || self.phase is Restoring) ==> self.classification
            == Classification::PlaintextSecret
        &&& self.phase is Restoring ==> self.snapshot is Some
        &&& self.plaintext is Some ==> (self.snapshot is Some && (self.classification
            == Classification::PlaintextSecret || self.phase is WritingPlaintext))
    }

    /// The snapshot may be written back in place of an encryption: one is
    /// held, and `content`, which the file holds now, is byte for byte what
    /// the decryption of that snapshot wrote.
    pub open spec fn restorable_with(self, content: Seq<u8>) -> bool {
        self.snapshot is Some && self.plaintext == Some(content)
    }
}

/// The intent of an encryption, by the configured mode.
pub open spec fn encryption(mode: EncryptMode) -> Plan {
    match mode {
        EncryptMode::InPlace => Plan::EncryptInPlace,
        EncryptMode::Staged => Plan::EncryptStaged,
    }
}

/// What a classified file needs for an intent. A file that is not managed
/// needs nothing, whatever the intent; nor does a file that already is in
/// the form the intent asks for.
pub open spec fn plan_of(mode: EncryptMode, class: Classification, intent: Intent, restorable: bool) -> Plan {
    match (class, intent) {
        (Classification::CiphertextSecret, Intent::Expose) => Plan::Decrypt,
        (Classification::PlaintextSecret, Intent::Seal) => encryption(mode),
        (Classification::PlaintextSecret, Intent::Retire) => if restorable {
            Plan::Restore
        } else {
            encryption(mode)
        },
        _ => Plan::Nothing,
    }
}

/// An event arrives at a file: a locked file answers `Busy`; an idle one is
/// locked and asks to be looked at.
pub open spec fn begun(path: Seq<char>, file: FileView, intent: Intent) -> (FileView, StepView) {
    if file.locked() {
        (file, StepView::Busy)
    } else {
        (
            FileView { phase: Phase::Observing(intent), ..file },
            StepView::Observe { path },
        )
    }
}

/// The classification that is kept of a file once it was looked at. It is
/// the fresh one, by name and content, with one exception: a file that is
/// held as a plaintext secret stays a managed file for as long as it is a
/// regular file whose content can be read, whatever its name and markers.
/// Decrypted content need not carry any marker, and the file still has to
/// be encrypted again. Such a file is ciphertext if an inline ciphertext
/// stands in its content, and plaintext otherwise.
pub open spec fn kept_classification(
    held: Classification,
    fresh: Classification,
    seen: ObservationView,
) -> Classification {
    if fresh == Classification::NotManaged && held == Classification::PlaintextSecret && seen.is_regular_file
        && seen.content is Some {
        if contains_seq(seen.content->0, cipher_marker()) {
            Classification::CiphertextSecret
        } else {
            Classification::PlaintextSecret
        }
    } else {
        fresh
    }
}

/// What is kept of a file once it was looked at: its classification; its
/// content as the new snapshot, if that is ciphertext; what the last
/// decryption wrote, if the file still is a plaintext secret.
pub open spec fn noted(file: FileView, class: Classification, seen: ObservationView) -> FileView {
    FileView {
        classification: class,
        snapshot: if class == Classification::CiphertextSecret {
            seen.content
        } else {
            file.snapshot
        },
        plaintext: if class == Classification::PlaintextSecret {
            file.plaintext
        } else {
            None
        },
        phase: Phase::Idle,
    }
}

/// The first step of a plan, with the phase in which its answer is awaited.
pub open spec fn started(path: Seq<char>, file: FileView, plan: Plan, content: Seq<u8>) -> (FileView, StepView) {
    match plan {
        Plan::Nothing => (file, StepView::Finished),
        Plan::Decrypt => (
            FileView { phase: Phase::Decrypting, ..file },
            StepView::RunTool { verb: Verb::Decrypt, args: arguments_of(Verb::Decrypt, path) },
        ),
        Plan::EncryptInPlace => (
            FileView { phase: Phase::Encrypting, ..file },
            StepView::RunTool { verb: Verb::Encrypt, args: arguments_of(Verb::Encrypt, path) },
        ),
        Plan::EncryptStaged => (
            FileView { phase: Phase::Staging, ..file },
            StepView::WriteFile { path: staging_path_of(path), bytes: content },
        ),
        Plan::Restore => (
            FileView { phase: Phase::Restoring, ..file },
            StepView::WriteFile { path, bytes: file.snapshot->0 },
        ),
    }
}

/// A file that is held as a plaintext secret is still there, and its
/// content cannot be read.
pub open spec fn unreadable_secret(file: FileView, seen: ObservationView) -> bool {
    file.classification == Classification::PlaintextSecret && seen.is_regular_file && seen.content is None
}

/// The file was looked at. A path that names no regular file any more is
/// forgotten (`None`). A plaintext secret whose content cannot be read is
/// an error, and stays what it was. Otherwise the file is classified from
/// what was seen and from what it was held as, and the plan for the waiting
/// intent is started. The snapshot is put back only over content that is
/// byte for byte what the decryption wrote.
pub open spec fn observed(config: ConfigView, path: Seq<char>, file: FileView, seen: ObservationView) -> (
    Option<FileView>,
    StepView,
) {
    match file.phase {
        Phase::Observing(intent) => {
            if !seen.is_regular_file {
                (None, StepView::Finished)
            } else if unreadable_secret(file, seen) {
                (Some(released(file)), StepView::Failed { error: ErrorView::IoError { path }, discard: None })
            } else {
                let class = kept_classification(
                    file.classification,
                    classification_of(config.suffixes, seen),
                    seen,
                );
                let kept = noted(file, class, seen);
                let plan = plan_of(
                    config.encrypt_mode,
                    class,
                    intent,
                    kept.restorable_with(seen.content->0),
                );
                let (next, step) = started(path, kept, plan, seen.content->0);
                (Some(next), step)
            }
        },
        _ => (Some(file), StepView::Unexpected),
    }
}

/// The file after a successful encryption or restoration.
pub open spec fn sealed(file: FileView) -> FileView {
    FileView {
        classification: Classification::CiphertextSecret,
        plaintext: None,
        phase: Phase::Idle,
        ..file
    }
}

/// The file after its plaintext was written. What was written stays with
/// the file.
pub open spec fn exposed(file: FileView) -> FileView {
    FileView { classification: Classification::PlaintextSecret, phase: Phase::Idle, ..file }
}

/// The file after the write of its plaintext failed: as it was before the
/// decryption.
pub open spec fn unexposed(file: FileView) -> FileView {
    FileView { plaintext: None, phase: Phase::Idle, ..file }
}

/// The file after a failed transition: unlocked, and otherwise as it was.
pub open spec fn released(file: FileView) -> FileView {
    FileView { phase: Phase::Idle, ..file }
}

/// The tool has run.
pub open spec fn tool_done(path: Seq<char>, file: FileView, run: ToolRunView) -> (FileView, StepView) {
    match file.phase {
        Phase::Decrypting => match conclusion_of(Verb::Decrypt, path, run) {
            Ok(plaintext) => (
                FileView { plaintext: Some(plaintext), phase: Phase::WritingPlaintext, ..file },
                StepView::WriteFile { path, bytes: plaintext },
            ),
            Err(error) => (released(file), StepView::Failed { error, discard: None }),
        },
        Phase::Encrypting => match conclusion_of(Verb::Encrypt, path, run) {
            Ok(_) => (sealed(file), StepView::Finished),
            Err(error) => (released(file), StepView::Failed { error, discard: None }),
        },
        Phase::EncryptingStaged => match conclusion_of(Verb::Encrypt, path, run) {
            Ok(_) => (
                FileView { phase: Phase::Promoting, ..file },
                StepView::Rename { from: staging_path_of(path), to: path },
            ),
            Err(error) => (
                released(file),
                StepView::Failed { error, discard: Some(staging_path_of(path)) },
            ),
        },
        _ => (file, StepView::Unexpected),
    }
}

/// A write or a rename has ended; `done` says whether it succeeded.
pub open spec fn file_op_done(path: Seq<char>, file: FileView, done: bool) -> (FileView, StepView) {
    match file.phase {
        Phase::WritingPlaintext => if done {
            (exposed(file), StepView::Finished)
        } else {
            (unexposed(file), StepView::Failed { error: ErrorView::IoError { path }, discard: None })
        },
        Phase::Staging => if done {
            (
                FileView { phase: Phase::EncryptingStaged, ..file },
                StepView::RunTool {
                    verb: Verb::Encrypt,
                    args: arguments_of(Verb::Encrypt, staging_path_of(path)),
                },
            )
        } else {
            (
                released(file),
                StepView::Failed {
                    error: ErrorView::IoError { path: staging_path_of(path) },
                    discard: Some(staging_path_of(path)),
                },
            )
        },
        Phase::Promoting => if done {
            (sealed(file), StepView::Finished)
        } else {
            (
                released(file),
                StepView::Failed {
                    error: ErrorView::IoError { path },
                    discard: Some(staging_path_of(path)),
                },
            )
        },
        Phase::Restoring => if done {
            (sealed(file), StepView::Finished)
        } else {
            (released(file), StepView::Failed { error: ErrorView::IoError { path }, discard: None })
        },
        _ => (file, StepView::Unexpected),
    }
}

/// What can be handed in for a file.
pub enum InputView {
    /// An event arrived.
    Arrived { intent: Intent },
    /// The file was looked at.
    Observed(ObservationView),
    /// The tool has run.
    ToolFinished(ToolRunView),
    /// A write or a rename has ended.
    FileOpFinished(bool),
}

/// The reaction of a file to an input: the file afterwards (`None`: it is
/// forgotten) and the next step.
pub open spec fn react(config: ConfigView, path: Seq<char>, file: FileView, input: InputView) -> (
    Option<FileView>,
    StepView,
) {
    match input {
        InputView::Arrived { intent } => {
            let (next, step) = begun(path, file, intent);
            (Some(next), step)
        },
        InputView::Observed(seen) => observed(config, path, file, seen),
        InputView::ToolFinished(run) => {
            let (next, step) = tool_done(path, file, run);
            (Some(next), step)
        },
        InputView::FileOpFinished(done) => {
            let (next, step) = file_op_done(path, file, done);
            (Some(next), step)
        },
    }
}

/// The classification to keep of a file that was held as `held` and is
/// now classified as `fresh`.
pub fn reclassify(held: Classification, fresh: Classification, seen: &FileObservation) -> (class: Classification)
    ensures
        class == kept_classification(held, fresh, seen@),
{
    let was_plaintext = match held {
        Classification::PlaintextSecret => true,
        _ => false,
    };
    let unmanaged = match fresh {
        Classification::NotManaged => true,
        _ => false,
    };
    if !(was_plaintext && unmanaged && seen.is_regular_file) {
        return fresh;
    }
    match &seen.content {
        Some(content) => {
            if contains(content.as_slice(), "ENC[".as_bytes()) {
                Classification::CiphertextSecret
            } else {
                Classification::PlaintextSecret
            }
        },
        None => fresh,
    }
}

/// Decides what a classified file needs for an intent.
pub fn plan(mode: EncryptMode, class: Classification, intent: Intent, restorable: bool) -> (plan: Plan)
    ensures
        plan == plan_of(mode, class, intent, restorable),
{
    let encrypt = match mode {
        EncryptMode::InPlace => Plan::EncryptInPlace,
        EncryptMode::Staged => Plan::EncryptStaged,
    };
    match class {
        Classification::CiphertextSecret => match intent {
            Intent::Expose => Plan::Decrypt,
            _ => Plan::Nothing,
        },
        Classification::PlaintextSecret => match intent {
            Intent::Seal => encrypt,
            Intent::Retire => if restorable {
                Plan::Restore
            } else {
                encrypt
            },
            _ => Plan::Nothing,
        },
        _ => Plan::Nothing,
    }
}

impl ManagedFile {
    /// A file of which nothing is known yet.
    pub fn new(path: &str) -> (file: ManagedFile)
        ensures
            file.path@ == path@,
            file@ == FileView::fresh(),
    {
        ManagedFile {
            path: path.to_owned(),
            classification: Classification::Unknown,
            last_known_ciphertext: None,
            decrypted_plaintext: None,
            phase: Phase::Idle,
        }
    }

    /// Where the file stands.
    pub fn state(&self) -> (state: FileState)
        ensures
            state == self@.state(),
    {
        match self.classification {
            Classification::CiphertextSecret => FileState::AtRestEncrypted,
            Classification::PlaintextSecret => FileState::ActiveDecrypted,
            _ => FileState::Unknown,
        }
    }

    /// Whether a transition of the file is under way.
    pub fn is_locked(&self) -> (locked: bool)
        ensures
            locked == self@.locked(),
    {
        match self.phase {
            Phase::Idle => false,
            _ => true,
        }
    }

    /// An event arrives.
    pub fn begin(&mut self, intent: Intent) -> (step: Step)
        ensures
            final(self).path == old(self).path,
            final(self)@ == begun(old(self).path@, old(self)@, intent).0,
            step@ == begun(old(self).path@, old(self)@, intent).1,
    {
        if self.is_locked() {
            return Step::Busy;
        }
        self.phase = Phase::Observing(intent);
        Step::Observe { path: self.path.clone() }
    }

    /// The file was looked at. Gives back the file, unless it is to be
    /// forgotten.
    pub fn observe(self, config: &Config, seen: FileObservation) -> (next: (Option<ManagedFile>, Step))
        ensures
            next.0 matches Some(file) ==> file.path == self.path,
            match next.0 {
                Some(file) => Some(file@),
                None => None,
            } == observed(config@, self.path@, self@, seen@).0,
            next.1@ == observed(config@, self.path@, self@, seen@).1,
    {
        let intent = match self.phase {
            Phase::Observing(intent) => intent,
            _ => {
                return (Some(self), Step::Unexpected);
            },
        };
        if !seen.is_regular_file {
            return (None, Step::Finished);
        }
        let mut file = self;
        let was_plaintext = match file.classification {
            Classification::PlaintextSecret => true,
            _ => false,
        };
        if was_plaintext && seen.content.is_none() {
            file.phase = Phase::Idle;
            let error = SopsError::IoError { path: file.path.clone() };
            return (Some(file), Step::Failed { error, discard: None });
        }
        let class = reclassify(file.classification, classify(&config.suffixes, &seen), &seen);
        let mut content: Vec<u8> = match seen.content {
            Some(bytes) => bytes,
            None => Vec::new(),
        };
        file.classification = class;
        file.phase = Phase::Idle;
        let mut restorable = false;
        match class {
            Classification::CiphertextSecret => {
                file.decrypted_plaintext = None;
                file.last_known_ciphertext = Some(content);
                content = Vec::new();
            },
            Classification::PlaintextSecret => {
                restorable = match (&file.last_known_ciphertext, &file.decrypted_plaintext) {
                    (Some(_), Some(written)) => same_bytes(written.as_slice(), content.as_slice()),
                    _ => false,
                };
            },
            _ => {
                file.decrypted_plaintext = None;
            },
        }
        let step = match plan(config.encrypt_mode, class, intent, restorable) {
            Plan::Nothing => Step::Finished,
            Plan::Decrypt => {
                file.phase = Phase::Decrypting;
                Step::RunTool { verb: Verb::Decrypt, args: arguments(Verb::Decrypt, file.path.as_str()) }
            },
            Plan::EncryptInPlace => {
                file.phase = Phase::Encrypting;
                Step::RunTool { verb: Verb::Encrypt, args: arguments(Verb::Encrypt, file.path.as_str()) }
            },
            Plan::EncryptStaged => {
                file.phase = Phase::Staging;
                Step::WriteFile { path: staging_path(file.path.as_str()), bytes: content }
            },
            Plan::Restore => {
                file.phase = Phase::Restoring;
                let bytes = match &file.last_known_ciphertext {
                    Some(snapshot) => snapshot.clone(),
                    None => Vec::new(),
                };
                Step::WriteFile { path: file.path.clone(), bytes }
            },
        };
        (Some(file), step)
    }

    /// The tool has run.
    pub fn tool_finished(&mut self, run: ToolRun) -> (step: Step)
        ensures
            final(self).path == old(self).path,
            final(self)@ == tool_done(old(self).path@, old(self)@, run@).0,
            step@ == tool_done(old(self).path@, old(self)@, run@).1,
    {
        match self.phase {
            Phase::Decrypting => match decrypt_result(self.path.as_str(), run) {
                Ok(plaintext) => {
                    self.phase = Phase::WritingPlaintext;
                    self.decrypted_plaintext = Some(plaintext.clone());
                    Step::WriteFile { path: self.path.clone(), bytes: plaintext }
                },
                Err(error) => {
                    self.phase = Phase::Idle;
                    Step::Failed { error, discard: None }
                },
            },
            Phase::Encrypting => match encrypt_result(self.path.as_str(), run) {
                Ok(_) => {
                    self.seal();
                    Step::Finished
                },
                Err(error) => {
                    self.phase = Phase::Idle;
                    Step::Failed { error, discard: None }
                },
            },
            Phase::EncryptingStaged => match encrypt_result(self.path.as_str(), run) {
                Ok(_) => {
                    self.phase = Phase::Promoting;
                    Step::Rename { from: staging_path(self.path.as_str()), to: self.path.clone() }
                },
                Err(error) => {
                    self.phase = Phase::Idle;
                    Step::Failed { error, discard: Some(staging_path(self.path.as_str())) }
                },
            },
            _ => Step::Unexpected,
        }
    }

    /// A write or a rename has ended.
    pub fn file_op_finished(&mut self, done: bool) -> (step: Step)
        ensures
            final(self).path == old(self).path,
            final(self)@ == file_op_done(old(self).path@, old(self)@, done).0,
            step@ == file_op_done(old(self).path@, old(self)@, done).1,
    {
        match self.phase {
            Phase::WritingPlaintext => {
                if done {
                    self.classification = Classification::PlaintextSecret;
                    self.phase = Phase::Idle;
                    Step::Finished
                } else {
                    self.decrypted_plaintext = None;
                    self.phase = Phase::Idle;
                    Step::Failed { error: SopsError::IoError { path: self.path.clone() }, discard: None }
                }
            },
            Phase::Staging => {
                if done {
                    self.phase = Phase::EncryptingStaged;
                    let staged = staging_path(self.path.as_str());
                    Step::RunTool { verb: Verb::Encrypt, args: arguments(Verb::Encrypt, staged.as_str()) }
                } else {
                    self.phase = Phase::Idle;
                    Step::Failed {
                        error: SopsError::IoError { path: staging_path(self.path.as_str()) },
                        discard: Some(staging_path(self.path.as_str())),
                    }
                }
            },
            Phase::Promoting => {
                if done {
                    self.seal();
                    Step::Finished
                } else {
                    self.phase = Phase::Idle;
                    Step::Failed {
                        error: SopsError::IoError { path: self.path.clone() },
                        discard: Some(staging_path(self.path.as_str())),
                    }
                }
            },
            Phase::Restoring => {
                if done {
                    self.seal();
                    Step::Finished
                } else {
                    self.phase = Phase::Idle;
                    Step::Failed { error: SopsError::IoError { path: self.path.clone() }, discard: None }
                }
            },
            _ => Step::Unexpected,
        }
    }

    fn seal(&mut self)
        ensures
            final(self).path == old(self).path,
            final(self)@ == sealed(old(self)@),
    {
        self.classification = Classification::CiphertextSecret;
        self.decrypted_plaintext = None;
        self.phase = Phase::Idle;
    }
}

} // verus!
