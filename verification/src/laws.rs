//! What holds of the tracker and the dispatcher whatever happens outside:
//! statements about the transitions themselves, each one proved.

use vstd::prelude::*;
use crate::classifier::{cipher_marker, classification_of, Classification, ObservationView};
use crate::codec::{arguments_of, staging_path_of, ToolRunView};
use crate::config::{ConfigView, EncryptMode};
use crate::dispatcher::{dispatch, Files};
use crate::error::{ErrorView, Verb};
use crate::scan::contains_seq;
use crate::tracker::{
    begun, file_op_done, kept_classification, noted, observed, react, released, tool_done, unreadable_secret,
    FileState, FileView, InputView, Intent, Phase, StepView,
};

verus! {

/// A staging path is never the path it stands beside.
pub proof fn lemma_staging_path_differs(path: Seq<char>)
    ensures
        staging_path_of(path) != path,
        arguments_of(Verb::Encrypt, staging_path_of(path)) != arguments_of(Verb::Encrypt, path),
{
    reveal_strlit(".tmp");
    assert(staging_path_of(path).len() == path.len() + 4);
    assert(arguments_of(Verb::Encrypt, staging_path_of(path))[2] == staging_path_of(path));
    assert(arguments_of(Verb::Encrypt, path)[2] == path);
}

/// A fresh file is consistent, and every reaction of a consistent file
/// leaves a consistent file.
pub proof fn lemma_consistency_is_kept(config: ConfigView, path: Seq<char>, file: FileView, input: InputView)
    requires
        file.consistent(),
    ensures
        FileView::fresh().consistent(),
        react(config, path, file, input).0 matches Some(next) ==> next.consistent(),
{
}

/// A file that is classified as not managed is left alone: the transition
/// ends at once, without any step for the tool or the file, and the file is
/// unlocked (or forgotten, if it is no regular file any more). The
/// classification is the one that is kept of the file.
pub proof fn lemma_unmanaged_file_is_left_alone(
    config: ConfigView,
    path: Seq<char>,
    file: FileView,
    intent: Intent,
    seen: ObservationView,
)
    requires
        file.phase == Phase::Observing(intent),
        !unreadable_secret(file, seen),
        kept_classification(file.classification, classification_of(config.suffixes, seen), seen)
            == Classification::NotManaged,
    ensures
        observed(config, path, file, seen).1 == StepView::Finished,
        observed(config, path, file, seen).0 matches Some(next) ==> !next.locked() && next.classification
            == Classification::NotManaged,
{
}

/// A file that was never held as a plaintext secret is classified by its
/// name and content alone: if those say that it is not managed, it is left
/// alone.
pub proof fn lemma_unmarked_file_is_left_alone(
    config: ConfigView,
    path: Seq<char>,
    file: FileView,
    intent: Intent,
    seen: ObservationView,
)
    requires
        file.phase == Phase::Observing(intent),
        file.classification != Classification::PlaintextSecret,
        classification_of(config.suffixes, seen) == Classification::NotManaged,
    ensures
        observed(config, path, file, seen).1 == StepView::Finished,
        observed(config, path, file, seen).0 matches Some(next) ==> !next.locked() && next.classification
            == Classification::NotManaged,
{
}

/// A plaintext secret whose content cannot be read is an error on its
/// path. Nothing is asked of the tool or the file, and the entry stays as
/// it was, unlocked: the file still counts as a plaintext secret, and a
/// later event finds it so.
pub proof fn lemma_unreadable_secret_is_an_error(
    config: ConfigView,
    path: Seq<char>,
    file: FileView,
    intent: Intent,
    seen: ObservationView,
)
    requires
        file.phase == Phase::Observing(intent),
        unreadable_secret(file, seen),
    ensures
        observed(config, path, file, seen).1 == (StepView::Failed {
            error: ErrorView::IoError { path },
            discard: None,
        }),
        observed(config, path, file, seen).0 == Some(released(file)),
        released(file).classification == Classification::PlaintextSecret,
{
}

/// A decrypted file stays a managed file: a file that is held as a
/// plaintext secret and is seen again as a regular file whose content holds
/// no inline ciphertext is kept as a plaintext secret, whatever its name
/// and whatever markers its content has lost. When editing is over it is
/// therefore encrypted, or its snapshot is put back; it is never left as it
/// is.
pub proof fn lemma_decrypted_file_stays_managed(
    config: ConfigView,
    path: Seq<char>,
    file: FileView,
    intent: Intent,
    seen: ObservationView,
)
    requires
        file.phase == Phase::Observing(intent),
        file.classification == Classification::PlaintextSecret,
        seen.is_regular_file,
        seen.content is Some,
        !contains_seq(seen.content->0, cipher_marker()),
    ensures
        observed(config, path, file, seen).0 matches Some(next) && next.classification
            == Classification::PlaintextSecret,
        (intent == Intent::Seal || intent == Intent::Retire) ==> ({
            let step = observed(config, path, file, seen).1;
            ||| step == (StepView::RunTool { verb: Verb::Encrypt, args: arguments_of(Verb::Encrypt, path) })
            ||| step == (StepView::WriteFile { path: staging_path_of(path), bytes: seen.content->0 })
            ||| (intent == Intent::Retire && file.restorable_with(seen.content->0) && step
                == (StepView::WriteFile { path, bytes: file.snapshot->0 }))
        }),
{
}

/// The tool is only ever called for a file whose latest classification is
/// that of a managed file: no reaction of a consistent file asks for the
/// tool while the file counts as not managed or unknown.
pub proof fn lemma_tool_runs_only_on_managed_files(
    config: ConfigView,
    path: Seq<char>,
    file: FileView,
    input: InputView,
)
    requires
        file.consistent(),
        react(config, path, file, input).1.invokes_tool(),
    ensures
        react(config, path, file, input).0 matches Some(next) && (next.classification
            == Classification::CiphertextSecret || next.classification == Classification::PlaintextSecret),
{
}

/// Encrypting what is already ciphertext does nothing: when a file that is
/// to be encrypted is seen as ciphertext, the transition ends at once with
/// success, the tool is not called, and the file is at rest.
pub proof fn lemma_sealing_ciphertext_does_nothing(
    config: ConfigView,
    path: Seq<char>,
    file: FileView,
    intent: Intent,
    seen: ObservationView,
)
    requires
        file.phase == Phase::Observing(intent),
        intent == Intent::Seal || intent == Intent::Retire,
        kept_classification(file.classification, classification_of(config.suffixes, seen), seen)
            == Classification::CiphertextSecret,
    ensures
        observed(config, path, file, seen).1 == StepView::Finished,
        observed(config, path, file, seen).0 == Some(noted(file, Classification::CiphertextSecret, seen)),
        observed(config, path, file, seen).0->0.state() == FileState::AtRestEncrypted,
        !observed(config, path, file, seen).0->0.locked(),
{
}

/// A successful decryption writes exactly what the tool printed, over the
/// file that was decrypted, and those bytes stay with the entry.
pub proof fn lemma_decryption_writes_what_the_tool_printed(path: Seq<char>, file: FileView, run: ToolRunView)
    requires
        file.phase == Phase::Decrypting,
        run.succeeded(),
    ensures
        tool_done(path, file, run).1 == (StepView::WriteFile { path, bytes: run.stdout }),
        tool_done(path, file, run).0.plaintext == Some(run.stdout),
        file_op_done(path, tool_done(path, file, run).0, true).0.plaintext == Some(run.stdout),
{
}

/// A failed decryption changes nothing: the step reports the tool's error
/// with its standard error, no step touches the file, and the file is
/// unlocked and otherwise as before; a consistent file is still at rest.
pub proof fn lemma_failed_decryption_leaves_file(path: Seq<char>, file: FileView, run: ToolRunView)
    requires
        file.phase == Phase::Decrypting,
        !run.succeeded(),
    ensures
        tool_done(path, file, run).1 == (StepView::Failed {
            error: ErrorView::ToolInvocationError { verb: Verb::Decrypt, path, stderr: run.stderr },
            discard: None,
        }),
        !tool_done(path, file, run).1.touches(path),
        tool_done(path, file, run).0 == released(file),
        file.consistent() ==> tool_done(path, file, run).0.state() == FileState::AtRestEncrypted,
{
}

/// A failed encryption changes nothing: the step reports the tool's error,
/// it does not touch the file, and the file is unlocked and otherwise as
/// before; a consistent file is still decrypted.
pub proof fn lemma_failed_encryption_leaves_file(path: Seq<char>, file: FileView, run: ToolRunView)
    requires
        file.phase == Phase::Encrypting || file.phase == Phase::EncryptingStaged,
        !run.succeeded(),
    ensures
        tool_done(path, file, run).1 matches StepView::Failed { error, .. } && error
            == (ErrorView::ToolInvocationError { verb: Verb::Encrypt, path, stderr: run.stderr }),
        !tool_done(path, file, run).1.touches(path),
        tool_done(path, file, run).0 == released(file),
        file.consistent() ==> tool_done(path, file, run).0.state() == FileState::ActiveDecrypted,
{
    lemma_staging_path_differs(path);
}

/// A staged encryption touches the file only by the final rename, and only
/// after the tool has succeeded on the staged copy.
pub proof fn lemma_staged_encryption_is_atomic(config: ConfigView, path: Seq<char>, file: FileView, input: InputView)
    requires
        file.phase == Phase::Staging || file.phase == Phase::EncryptingStaged,
        react(config, path, file, input).1.touches(path),
    ensures
        file.phase == Phase::EncryptingStaged,
        input matches InputView::ToolFinished(run) && run.succeeded(),
        react(config, path, file, input).1 == (StepView::Rename { from: staging_path_of(path), to: path }),
{
    lemma_staging_path_differs(path);
}

/// In staged mode the first step of a transition touches the file only to
/// put its snapshot back: an encryption starts beside the file.
pub proof fn lemma_staged_encryption_starts_beside_the_file(
    config: ConfigView,
    path: Seq<char>,
    file: FileView,
    intent: Intent,
    seen: ObservationView,
)
    requires
        file.phase == Phase::Observing(intent),
        config.encrypt_mode == EncryptMode::Staged,
        observed(config, path, file, seen).1.touches(path),
    ensures
        intent == Intent::Retire,
        observed(config, path, file, seen).0 matches Some(next) && next.phase == Phase::Restoring && observed(
            config,
            path,
            file,
            seen,
        ).1 == (StepView::WriteFile { path, bytes: next.snapshot->0 }),
{
    lemma_staging_path_differs(path);
}

/// The snapshot is written back only over what the decryption wrote: when
/// the look at a file is answered with a write over that file, the editor
/// is letting go of it, the bytes written are the snapshot, and the content
/// seen is byte for byte the plaintext that the last decryption wrote.
/// Content that differs from it is never answered with such a write.
pub proof fn lemma_snapshot_is_written_only_over_what_was_decrypted(
    config: ConfigView,
    path: Seq<char>,
    file: FileView,
    intent: Intent,
    seen: ObservationView,
)
    requires
        file.phase == Phase::Observing(intent),
        observed(config, path, file, seen).1.writes(path),
    ensures
        intent == Intent::Retire,
        seen.content is Some,
        file.plaintext == seen.content,
        file.snapshot is Some,
        observed(config, path, file, seen).1 == (StepView::WriteFile { path, bytes: file.snapshot->0 }),
{
    lemma_staging_path_differs(path);
}

/// Letting go of a plaintext secret puts the snapshot back exactly if one
/// is held and the content seen is what the decryption wrote. In every
/// other case the content seen is encrypted.
pub proof fn lemma_restore_exactly_if_unchanged(
    config: ConfigView,
    path: Seq<char>,
    file: FileView,
    seen: ObservationView,
)
    requires
        file.phase == Phase::Observing(Intent::Retire),
        file.classification == Classification::PlaintextSecret,
        seen.is_regular_file,
        seen.content is Some,
        !contains_seq(seen.content->0, cipher_marker()),
    ensures
        ({
            let step = observed(config, path, file, seen).1;
            if file.restorable_with(seen.content->0) {
                step == (StepView::WriteFile { path, bytes: file.snapshot->0 })
            } else {
                match config.encrypt_mode {
                    EncryptMode::InPlace => step == (StepView::RunTool {
                        verb: Verb::Encrypt,
                        args: arguments_of(Verb::Encrypt, path),
                    }),
                    EncryptMode::Staged => step == (StepView::WriteFile {
                        path: staging_path_of(path),
                        bytes: seen.content->0,
                    }),
                }
            }
        }),
{
}

/// The lock is held exactly while a step is outstanding: a step that asks
/// for something leaves the file locked; a final step leaves it unlocked,
/// on success and on failure alike; and an event is answered with `Busy`
/// exactly if it finds the file locked.
pub proof fn lemma_lock_follows_the_steps(config: ConfigView, path: Seq<char>, file: FileView, input: InputView)
    ensures
        ({
            let (next, step) = react(config, path, file, input);
            &&& step.is_final() ==> (next matches Some(after) ==> !after.locked())
            &&& (step is Observe || step is RunTool || step is WriteFile || step is Rename) ==> next is Some
                && next->0.locked()
            &&& (step is Busy || step is Unexpected) ==> next == Some(file)
            &&& step is Busy <==> input is Arrived && file.locked()
        }),
{
}

/// The classification of a file changes in three ways only: by a new look
/// at the file, to what is kept of that look; to plaintext when the
/// decrypted content has been written; to ciphertext when the tool has
/// encrypted the file, or the encrypted copy or the snapshot has been put
/// in its place.
pub proof fn lemma_classification_changes(config: ConfigView, path: Seq<char>, file: FileView, input: InputView)
    requires
        react(config, path, file, input).0 matches Some(next) && next.classification != file.classification,
    ensures
        ({
            let next = react(config, path, file, input).0->0;
            ||| (input matches InputView::Observed(seen) && next.classification == kept_classification(
                file.classification,
                classification_of(config.suffixes, seen),
                seen,
            ))
            ||| (input == InputView::FileOpFinished(true) && file.phase == Phase::WritingPlaintext
                && next.classification == Classification::PlaintextSecret)
            ||| (input matches InputView::ToolFinished(run) && run.succeeded() && file.phase == Phase::Encrypting
                && next.classification == Classification::CiphertextSecret)
            ||| (input == InputView::FileOpFinished(true) && (file.phase == Phase::Promoting || file.phase
                == Phase::Restoring) && next.classification == Classification::CiphertextSecret)
        }),
{
}

/// Paths do not interfere: whatever is handed in for one path, failure of
/// the tool included, the entry of another path stays as it is, and what is
/// handed in for that other path afterwards is answered as if nothing had
/// happened on the first.
pub proof fn lemma_paths_do_not_interfere(
    config: ConfigView,
    files: Files,
    first: Seq<char>,
    first_input: InputView,
    second: Seq<char>,
    second_input: InputView,
)
    requires
        first != second,
    ensures
        ({
            let after_first = dispatch(config, files, first, first_input).0;
            &&& after_first.contains_key(second) == files.contains_key(second)
            &&& files.contains_key(second) ==> after_first[second] == files[second]
            &&& dispatch(config, after_first, second, second_input).1 == dispatch(
                config,
                files,
                second,
                second_input,
            ).1
            &&& dispatch(config, after_first, second, second_input).0.contains_key(second) == dispatch(
                config,
                files,
                second,
                second_input,
            ).0.contains_key(second)
            &&& dispatch(config, files, second, second_input).0.contains_key(second) ==> dispatch(
                config,
                after_first,
                second,
                second_input,
            ).0[second] == dispatch(config, files, second, second_input).0[second]
        }),
{
}

/// The input that answers a step, when the tool ends as `run` and every
/// file operation as `done`.
pub open spec fn answer_to(step: StepView, run: ToolRunView, done: bool) -> Option<InputView> {
    match step {
        StepView::RunTool { .. } => Some(InputView::ToolFinished(run)),
        StepView::WriteFile { .. } => Some(InputView::FileOpFinished(done)),
        StepView::Rename { .. } => Some(InputView::FileOpFinished(done)),
        _ => None,
    }
}

/// One more step of a transition, if one is outstanding.
pub open spec fn carried_on(
    config: ConfigView,
    path: Seq<char>,
    file: Option<FileView>,
    step: StepView,
    run: ToolRunView,
    done: bool,
) -> (Option<FileView>, StepView) {
    match (file, answer_to(step, run, done)) {
        (Some(file), Some(input)) => react(config, path, file, input),
        _ => (file, step),
    }
}

/// The steps of a whole transition of a file, from the event to the last
/// step, when the file is seen as `seen`, the tool ends as `run` and every
/// file operation as `done`. No transition has more than five steps; once
/// it is over, its last step is repeated.
pub open spec fn steps_of(
    config: ConfigView,
    path: Seq<char>,
    file: FileView,
    intent: Intent,
    seen: ObservationView,
    run: ToolRunView,
    done: bool,
) -> Seq<StepView> {
    let (entered, first) = begun(path, file, intent);
    if first is Busy {
        seq![first]
    } else {
        let (looked, second) = observed(config, path, entered, seen);
        let (third_file, third) = carried_on(config, path, looked, second, run, done);
        let (fourth_file, fourth) = carried_on(config, path, third_file, third, run, done);
        let (fifth_file, fifth) = carried_on(config, path, fourth_file, fourth, run, done);
        seq![first, second, third, fourth, fifth]
    }
}

/// A whole transition of a file: the file afterwards and the last step.
pub open spec fn transition(
    config: ConfigView,
    path: Seq<char>,
    file: FileView,
    intent: Intent,
    seen: ObservationView,
    run: ToolRunView,
    done: bool,
) -> (Option<FileView>, StepView) {
    let (entered, first) = begun(path, file, intent);
    if first is Busy {
        (Some(entered), first)
    } else {
        let (looked, second) = observed(config, path, entered, seen);
        let (third_file, third) = carried_on(config, path, looked, second, run, done);
        let (fourth_file, fourth) = carried_on(config, path, third_file, third, run, done);
        carried_on(config, path, fourth_file, fourth, run, done)
    }
}

/// Every transition comes to an end: after at most three steps beyond the
/// look at the file, the step is final and the file unlocked. Only a locked
/// file answers `Busy`, and stays as it is. The last of the steps is the
/// step with which the transition ends.
pub proof fn lemma_transition_ends(
    config: ConfigView,
    path: Seq<char>,
    file: FileView,
    intent: Intent,
    seen: ObservationView,
    run: ToolRunView,
    done: bool,
)
    ensures
        ({
            let (after, last) = transition(config, path, file, intent, seen, run, done);
            &&& file.locked() ==> last is Busy && after == Some(file)
            &&& !file.locked() ==> last.is_final() && (after matches Some(next) ==> !next.locked())
            &&& steps_of(config, path, file, intent, seen, run, done).last() == last
        }),
{
}

/// Failure leaves the state alone: a transition that fails ends with the
/// file unlocked and held as the look at it had put it, or, if its content
/// could not be read, as it was held before.
pub proof fn lemma_failure_keeps_state(
    config: ConfigView,
    path: Seq<char>,
    file: FileView,
    intent: Intent,
    seen: ObservationView,
    run: ToolRunView,
    done: bool,
)
    requires
        !file.locked(),
        transition(config, path, file, intent, seen, run, done).1 is Failed,
    ensures
        transition(config, path, file, intent, seen, run, done).0 == Some(
            if unreadable_secret(file, seen) {
                file
            } else {
                noted(
                    file,
                    kept_classification(file.classification, classification_of(config.suffixes, seen), seen),
                    seen,
                )
            },
        ),
{
}

/// A transition of a file that does not count as managed changes nothing
/// and never calls the tool: none of its steps asks for a write, a rename,
/// a removal or a run of the tool.
pub proof fn lemma_unmanaged_transition_changes_nothing(
    config: ConfigView,
    path: Seq<char>,
    file: FileView,
    intent: Intent,
    seen: ObservationView,
    run: ToolRunView,
    done: bool,
)
    requires
        kept_classification(file.classification, classification_of(config.suffixes, seen), seen)
            == Classification::NotManaged,
    ensures
        forall|i: int|
            0 <= i < steps_of(config, path, file, intent, seen, run, done).len() ==> (#[trigger] steps_of(
                config,
                path,
                file,
                intent,
                seen,
                run,
                done,
            )[i]).changes_nothing(),
{
}

/// Opening a file that holds no inline ciphertext does nothing: whatever
/// the file is held as, the transition ends at once with success, none of
/// its steps changes a file or calls the tool, and the snapshot stays as it
/// was.
pub proof fn lemma_opening_plaintext_does_nothing(
    config: ConfigView,
    path: Seq<char>,
    file: FileView,
    seen: ObservationView,
    run: ToolRunView,
    done: bool,
)
    requires
        !file.locked(),
        seen.is_regular_file,
        seen.content is Some,
        !contains_seq(seen.content->0, cipher_marker()),
    ensures
        transition(config, path, file, Intent::Expose, seen, run, done).1 == StepView::Finished,
        transition(config, path, file, Intent::Expose, seen, run, done).0 matches Some(next) && next.snapshot
            == file.snapshot,
        forall|i: int|
            0 <= i < steps_of(config, path, file, Intent::Expose, seen, run, done).len() ==> (#[trigger] steps_of(
                config,
                path,
                file,
                Intent::Expose,
                seen,
                run,
                done,
            )[i]).changes_nothing(),
{
}

/// A failed encryption changes nothing, over the whole transition: when
/// the tool fails to encrypt, no step writes the file, the transition ends
/// with the tool's error, and the file is held as the look at it had put
/// it: still a plaintext secret, with its snapshot and with what the last
/// decryption wrote.
pub proof fn lemma_failed_encryption_changes_nothing(
    config: ConfigView,
    path: Seq<char>,
    file: FileView,
    intent: Intent,
    seen: ObservationView,
    run: ToolRunView,
    done: bool,
)
    requires
        !file.locked(),
        transition(config, path, file, intent, seen, run, done).1 matches StepView::Failed { error, .. }
            && error is ToolInvocationError && error->verb == Verb::Encrypt,
    ensures
        forall|i: int|
            0 <= i < steps_of(config, path, file, intent, seen, run, done).len() ==> !(#[trigger] steps_of(
                config,
                path,
                file,
                intent,
                seen,
                run,
                done,
            )[i]).writes(path),
        transition(config, path, file, intent, seen, run, done).0 == Some(
            noted(file, Classification::PlaintextSecret, seen),
        ),
        transition(config, path, file, intent, seen, run, done).1 matches StepView::Failed { error, .. } && error
            == (ErrorView::ToolInvocationError { verb: Verb::Encrypt, path, stderr: run.stderr }),
{
    lemma_staging_path_differs(path);
}

/// Round trip: a file at rest is opened and decrypted, then closed with the
/// content that the decryption wrote. If the tool and the file operations
/// succeed, the file ends at rest, classified as ciphertext. This holds of
/// every managed file, also of one that is recognised by its content alone
/// and whose plaintext carries no marker.
pub proof fn lemma_round_trip(
    config: ConfigView,
    path: Seq<char>,
    file: FileView,
    at_rest: ObservationView,
    decryption: ToolRunView,
    unchanged: ObservationView,
    encryption: ToolRunView,
)
    requires
        !file.locked(),
        classification_of(config.suffixes, at_rest) == Classification::CiphertextSecret,
        decryption.succeeded(),
        unchanged.is_regular_file,
        unchanged.content == Some(decryption.stdout),
        encryption.succeeded(),
    ensures
        ({
            let (opened, first) = transition(config, path, file, Intent::Expose, at_rest, decryption, true);
            let (closed, second) = transition(config, path, opened->0, Intent::Seal, unchanged, encryption, true);
            &&& first == StepView::Finished
            &&& opened matches Some(open) && open.state() == FileState::ActiveDecrypted && open.snapshot
                == at_rest.content
            &&& second == StepView::Finished
            &&& closed matches Some(shut) && shut.classification == Classification::CiphertextSecret
                && shut.state() == FileState::AtRestEncrypted
        }),
{
}

/// A decrypted file whose plaintext holds no inline ciphertext is never
/// left in plaintext by a close that succeeds: the tool is asked to encrypt
/// it, in place or beside the file, whatever its name and markers.
pub proof fn lemma_closing_encrypts_the_plaintext(
    config: ConfigView,
    path: Seq<char>,
    file: FileView,
    at_rest: ObservationView,
    decryption: ToolRunView,
    unchanged: ObservationView,
)
    requires
        !file.locked(),
        classification_of(config.suffixes, at_rest) == Classification::CiphertextSecret,
        decryption.succeeded(),
        unchanged.is_regular_file,
        unchanged.content == Some(decryption.stdout),
        !contains_seq(decryption.stdout, cipher_marker()),
    ensures
        ({
            let opened = transition(config, path, file, Intent::Expose, at_rest, decryption, true).0->0;
            let entered = begun(path, opened, Intent::Seal).0;
            let step = observed(config, path, entered, unchanged).1;
            match config.encrypt_mode {
                EncryptMode::InPlace => step == (StepView::RunTool {
                    verb: Verb::Encrypt,
                    args: arguments_of(Verb::Encrypt, path),
                }),
                EncryptMode::Staged => step == (StepView::WriteFile {
                    path: staging_path_of(path),
                    bytes: decryption.stdout,
                }),
            }
        }),
{
}

/// Closing in the editor without a change puts the snapshot back: a file
/// that was opened and decrypted, and is let go while it holds byte for
/// byte what the decryption wrote, gets byte for byte what it held at rest,
/// and the tool is not called. This holds whatever the name of the file and
/// whatever markers its plaintext carries, as long as no inline ciphertext
/// stands in it.
pub proof fn lemma_unedited_file_is_restored(
    config: ConfigView,
    path: Seq<char>,
    file: FileView,
    at_rest: ObservationView,
    decryption: ToolRunView,
    unchanged: ObservationView,
    run: ToolRunView,
)
    requires
        !file.locked(),
        classification_of(config.suffixes, at_rest) == Classification::CiphertextSecret,
        decryption.succeeded(),
        unchanged.is_regular_file,
        unchanged.content == Some(decryption.stdout),
        !contains_seq(decryption.stdout, cipher_marker()),
    ensures
        ({
            let opened = transition(config, path, file, Intent::Expose, at_rest, decryption, true).0->0;
            let steps = steps_of(config, path, opened, Intent::Retire, unchanged, run, true);
            let (closed, last) = transition(config, path, opened, Intent::Retire, unchanged, run, true);
            &&& steps[0] == StepView::Observe { path }
            &&& steps[1] == StepView::WriteFile { path, bytes: at_rest.content->0 }
            &&& steps[2] == StepView::Finished
            &&& last == StepView::Finished
            &&& closed matches Some(shut) && shut.state() == FileState::AtRestEncrypted && !shut.locked()
                && shut.snapshot == at_rest.content && shut.plaintext is None
        }),
{
}

/// A change that nobody reported survives the close: a file that was
/// opened and decrypted, and is let go while it holds plaintext other than
/// what the decryption wrote, is encrypted as it is. The old snapshot is
/// not written over it.
pub proof fn lemma_changed_file_is_encrypted(
    config: ConfigView,
    path: Seq<char>,
    file: FileView,
    at_rest: ObservationView,
    decryption: ToolRunView,
    changed: ObservationView,
)
    requires
        !file.locked(),
        classification_of(config.suffixes, at_rest) == Classification::CiphertextSecret,
        decryption.succeeded(),
        changed.is_regular_file,
        changed.content is Some,
        changed.content != Some(decryption.stdout),
        !contains_seq(changed.content->0, cipher_marker()),
    ensures
        ({
            let opened = transition(config, path, file, Intent::Expose, at_rest, decryption, true).0->0;
            let entered = begun(path, opened, Intent::Retire).0;
            let step = observed(config, path, entered, changed).1;
            match config.encrypt_mode {
                EncryptMode::InPlace => step == (StepView::RunTool {
                    verb: Verb::Encrypt,
                    args: arguments_of(Verb::Encrypt, path),
                }),
                EncryptMode::Staged => step == (StepView::WriteFile {
                    path: staging_path_of(path),
                    bytes: changed.content->0,
                }),
            }
        }),
{
}

/// A save that fails and changes nothing leaves the snapshot usable: after
/// a failed encryption of content that is what the decryption wrote, the
/// close still puts the snapshot back.
pub proof fn lemma_failed_save_keeps_the_snapshot_usable(
    config: ConfigView,
    path: Seq<char>,
    file: FileView,
    at_rest: ObservationView,
    decryption: ToolRunView,
    unchanged: ObservationView,
    failure: ToolRunView,
    done: bool,
)
    requires
        !file.locked(),
        classification_of(config.suffixes, at_rest) == Classification::CiphertextSecret,
        decryption.succeeded(),
        unchanged.is_regular_file,
        unchanged.content == Some(decryption.stdout),
        !contains_seq(decryption.stdout, cipher_marker()),
        !failure.succeeded(),
    ensures
        ({
            let opened = transition(config, path, file, Intent::Expose, at_rest, decryption, true).0->0;
            let (saved, last) = transition(config, path, opened, Intent::Seal, unchanged, failure, done);
            let entered = begun(path, saved->0, Intent::Retire).0;
            &&& last is Failed
            &&& saved is Some
            &&& observed(config, path, entered, unchanged).1 == (StepView::WriteFile {
                path,
                bytes: at_rest.content->0,
            })
        }),
{
}

/// One more step of a transition at the dispatcher, if one is outstanding.
pub open spec fn dispatched_on(
    config: ConfigView,
    files: Files,
    path: Seq<char>,
    step: StepView,
    run: ToolRunView,
    done: bool,
) -> (Files, StepView) {
    match answer_to(step, run, done) {
        Some(input) => dispatch(config, files, path, input),
        None => (files, step),
    }
}

/// A whole transition at the dispatcher: an event for `path` arrives and
/// every step that is asked for is performed and reported, the file being
/// seen as `seen`, the tool ending as `run` and every file operation as
/// `done`.
pub open spec fn dispatched(
    config: ConfigView,
    files: Files,
    path: Seq<char>,
    intent: Intent,
    seen: ObservationView,
    run: ToolRunView,
    done: bool,
) -> (Files, StepView) {
    let (entered, first) = dispatch(config, files, path, InputView::Arrived { intent });
    if first is Busy {
        (entered, first)
    } else {
        let (looked, second) = dispatch(config, entered, path, InputView::Observed(seen));
        let (third_files, third) = dispatched_on(config, looked, path, second, run, done);
        let (fourth_files, fourth) = dispatched_on(config, third_files, path, third, run, done);
        dispatched_on(config, fourth_files, path, fourth, run, done)
    }
}

/// The entry that an event finds at a path: the one that is kept, or a
/// fresh one.
pub open spec fn entry_of(files: Files, path: Seq<char>) -> FileView {
    if files.contains_key(path) {
        files[path]
    } else {
        FileView::fresh()
    }
}

/// The dispatcher runs the tracker's transition on the entry of the path
/// and leaves every other entry as it is: a whole transition at the
/// dispatcher ends with the step with which the transition of the entry
/// ends, the entry is what that transition leaves (or gone, if the file is
/// forgotten), and all other paths are held as before.
pub proof fn lemma_dispatcher_runs_the_transition(
    config: ConfigView,
    files: Files,
    path: Seq<char>,
    intent: Intent,
    seen: ObservationView,
    run: ToolRunView,
    done: bool,
)
    ensures
        ({
            let (after, last) = dispatched(config, files, path, intent, seen, run, done);
            let (entry, step) = transition(config, path, entry_of(files, path), intent, seen, run, done);
            &&& last == step
            &&& after == match entry {
                Some(file) => files.insert(path, file),
                None => files.remove(path),
            }
            &&& forall|other: Seq<char>|
                other != path ==> after.contains_key(other) == files.contains_key(other) && (files.contains_key(
                    other,
                ) ==> #[trigger] after[other] == files[other])
        }),
{
    let file = entry_of(files, path);
    let (entered_file, first) = begun(path, file, intent);
    let (entered, first_step) = dispatch(config, files, path, InputView::Arrived { intent });
    assert(entered =~= files.insert(path, entered_file));
    if !(first is Busy) {
        let (looked_file, second) = observed(config, path, entered_file, seen);
        let (looked, second_step) = dispatch(config, entered, path, InputView::Observed(seen));
        let expected_looked = match looked_file {
            Some(kept) => files.insert(path, kept),
            None => files.remove(path),
        };
        assert(looked =~= expected_looked);
        let (third_file, third) = carried_on(config, path, looked_file, second, run, done);
        let (third_files, third_step) = dispatched_on(config, looked, path, second_step, run, done);
        let expected_third = match third_file {
            Some(kept) => files.insert(path, kept),
            None => files.remove(path),
        };
        assert(third_files =~= expected_third);
        assert(third_step == third);
        let (fourth_file, fourth) = carried_on(config, path, third_file, third, run, done);
        let (fourth_files, fourth_step) = dispatched_on(config, third_files, path, third_step, run, done);
        let expected_fourth = match fourth_file {
            Some(kept) => files.insert(path, kept),
            None => files.remove(path),
        };
        assert(fourth_files =~= expected_fourth);
        assert(fourth_step == fourth);
        let (fifth_file, fifth) = carried_on(config, path, fourth_file, fourth, run, done);
        let (fifth_files, fifth_step) = dispatched_on(config, fourth_files, path, fourth_step, run, done);
        let expected_fifth = match fifth_file {
            Some(kept) => files.insert(path, kept),
            None => files.remove(path),
        };
        assert(fifth_files =~= expected_fifth);
        assert(fifth_step == fifth);
    }
}

/// A failure on one path does not reach another: after a whole transition
/// on one path, however it ended, a whole transition on another path ends
/// with the same step and leaves the same entry as it would have without
/// the first, and the entry of the first path is as the first transition
/// left it.
pub proof fn lemma_transitions_do_not_interfere(
    config: ConfigView,
    files: Files,
    first: Seq<char>,
    first_intent: Intent,
    first_seen: ObservationView,
    first_run: ToolRunView,
    first_done: bool,
    second: Seq<char>,
    second_intent: Intent,
    second_seen: ObservationView,
    second_run: ToolRunView,
    second_done: bool,
)
    requires
        first != second,
    ensures
        ({
            let after_first = dispatched(config, files, first, first_intent, first_seen, first_run, first_done).0;
            let (after_both, last) = dispatched(
                config,
                after_first,
                second,
                second_intent,
                second_seen,
                second_run,
                second_done,
            );
            let (alone, last_alone) = dispatched(
                config,
                files,
                second,
                second_intent,
                second_seen,
                second_run,
                second_done,
            );
            &&& last == last_alone
            &&& after_both.contains_key(second) == alone.contains_key(second)
            &&& alone.contains_key(second) ==> after_both[second] == alone[second]
            &&& after_both.contains_key(first) == after_first.contains_key(first)
            &&& after_first.contains_key(first) ==> after_both[first] == after_first[first]
        }),
{
    lemma_dispatcher_runs_the_transition(config, files, first, first_intent, first_seen, first_run, first_done);
    let after_first = dispatched(config, files, first, first_intent, first_seen, first_run, first_done).0;
    assert(entry_of(after_first, second) == entry_of(files, second));
    lemma_dispatcher_runs_the_transition(
        config,
        after_first,
        second,
        second_intent,
        second_seen,
        second_run,
        second_done,
    );
    lemma_dispatcher_runs_the_transition(config, files, second, second_intent, second_seen, second_run, second_done);
}

/// Opening in the editor a file that holds no inline ciphertext changes
/// nothing: on a path that is not locked the open asks for a look at the
/// file and then ends with success. Neither the tool nor a write is asked
/// for, the snapshot of the path is as before, and so is every other path.
pub proof fn lemma_open_document_leaves_plaintext_alone(
    config: ConfigView,
    files: Files,
    path: Seq<char>,
    seen: ObservationView,
)
    requires
        !entry_of(files, path).locked(),
        seen.is_regular_file,
        seen.content is Some,
        !contains_seq(seen.content->0, cipher_marker()),
    ensures
        ({
            let (entered, first) = dispatch(config, files, path, InputView::Arrived { intent: Intent::Expose });
            let (after, second) = dispatch(config, entered, path, InputView::Observed(seen));
            &&& first == StepView::Observe { path }
            &&& second == StepView::Finished
            &&& after.contains_key(path) && !after[path].locked() && after[path].snapshot == entry_of(
                files,
                path,
            ).snapshot
            &&& after.remove(path) == files.remove(path)
        }),
{
    let (entered, first) = dispatch(config, files, path, InputView::Arrived { intent: Intent::Expose });
    let (after, second) = dispatch(config, entered, path, InputView::Observed(seen));
    assert(after.remove(path) =~= files.remove(path));
}

/// Closing in the editor a file that was opened and not changed puts back
/// what the file held at rest: after an open that decrypted the file, a
/// close that finds byte for byte what the decryption wrote asks for one
/// write, of the ciphertext that the file held before the open, over the
/// file. When that write has succeeded the close ends with success, the
/// path is at rest and unlocked, and every other path is as before. The
/// tool is not asked.
pub proof fn lemma_close_document_restores_the_unchanged_file(
    config: ConfigView,
    files: Files,
    path: Seq<char>,
    at_rest: ObservationView,
    decryption: ToolRunView,
    unchanged: ObservationView,
)
    requires
        !entry_of(files, path).locked(),
        classification_of(config.suffixes, at_rest) == Classification::CiphertextSecret,
        decryption.succeeded(),
        unchanged.is_regular_file,
        unchanged.content == Some(decryption.stdout),
        !contains_seq(decryption.stdout, cipher_marker()),
    ensures
        ({
            let (opened, open_ended) = dispatched(config, files, path, Intent::Expose, at_rest, decryption, true);
            let (entered, first) = dispatch(config, opened, path, InputView::Arrived { intent: Intent::Retire });
            let (looked, second) = dispatch(config, entered, path, InputView::Observed(unchanged));
            let (closed, third) = dispatch(config, looked, path, InputView::FileOpFinished(true));
            &&& open_ended == StepView::Finished
            &&& first == StepView::Observe { path }
            &&& second == StepView::WriteFile { path, bytes: at_rest.content->0 }
            &&& third == StepView::Finished
            &&& closed.contains_key(path) && closed[path].state() == FileState::AtRestEncrypted
                && !closed[path].locked() && closed[path].snapshot == at_rest.content
            &&& closed.remove(path) == files.remove(path)
        }),
{
    lemma_dispatcher_runs_the_transition(config, files, path, Intent::Expose, at_rest, decryption, true);
    let (opened, open_ended) = dispatched(config, files, path, Intent::Expose, at_rest, decryption, true);
    let (entered, first) = dispatch(config, opened, path, InputView::Arrived { intent: Intent::Retire });
    let (looked, second) = dispatch(config, entered, path, InputView::Observed(unchanged));
    let (closed, third) = dispatch(config, looked, path, InputView::FileOpFinished(true));
    assert(closed.remove(path) =~= files.remove(path));
}

/// A close in the editor that finds changed plaintext encrypts it: after an
/// open that decrypted the file, a close that finds plaintext other than
/// what the decryption wrote asks for the encryption of what it found, and
/// never for a write of the old ciphertext over the file.
pub proof fn lemma_close_document_encrypts_the_changed_file(
    config: ConfigView,
    files: Files,
    path: Seq<char>,
    at_rest: ObservationView,
    decryption: ToolRunView,
    changed: ObservationView,
)
    requires
        !entry_of(files, path).locked(),
        classification_of(config.suffixes, at_rest) == Classification::CiphertextSecret,
        decryption.succeeded(),
        changed.is_regular_file,
        changed.content is Some,
        changed.content != Some(decryption.stdout),
        !contains_seq(changed.content->0, cipher_marker()),
    ensures
        ({
            let opened = dispatched(config, files, path, Intent::Expose, at_rest, decryption, true).0;
            let entered = dispatch(config, opened, path, InputView::Arrived { intent: Intent::Retire }).0;
            let step = dispatch(config, entered, path, InputView::Observed(changed)).1;
            &&& !step.writes(path)
            &&& match config.encrypt_mode {
                EncryptMode::InPlace => step == (StepView::RunTool {
                    verb: Verb::Encrypt,
                    args: arguments_of(Verb::Encrypt, path),
                }),
                EncryptMode::Staged => step == (StepView::WriteFile {
                    path: staging_path_of(path),
                    bytes: changed.content->0,
                }),
            }
        }),
{
    lemma_staging_path_differs(path);
    lemma_dispatcher_runs_the_transition(config, files, path, Intent::Expose, at_rest, decryption, true);
}

/// A save in the editor that fails changes nothing: when the tool fails to
/// encrypt, the save ends with the tool's error, none of its steps writes
/// the file, the path is unlocked and held as the look at the file had put
/// it, with its snapshot and with what the last decryption wrote, and every
/// other path is as before.
pub proof fn lemma_save_document_that_fails_changes_nothing(
    config: ConfigView,
    files: Files,
    path: Seq<char>,
    seen: ObservationView,
    failure: ToolRunView,
    done: bool,
)
    requires
        !entry_of(files, path).locked(),
        dispatched(config, files, path, Intent::Seal, seen, failure, done).1 matches StepView::Failed { error, .. }
            && error is ToolInvocationError,
    ensures
        ({
            let (after, last) = dispatched(config, files, path, Intent::Seal, seen, failure, done);
            let steps = steps_of(config, path, entry_of(files, path), Intent::Seal, seen, failure, done);
            &&& last matches StepView::Failed { error, .. } && error == (ErrorView::ToolInvocationError {
                verb: Verb::Encrypt,
                path,
                stderr: failure.stderr,
            })
            &&& forall|i: int| 0 <= i < steps.len() ==> !(#[trigger] steps[i]).writes(path)
            &&& after == files.insert(path, noted(entry_of(files, path), Classification::PlaintextSecret, seen))
            &&& after.remove(path) == files.remove(path)
        }),
{
    lemma_staging_path_differs(path);
    lemma_dispatcher_runs_the_transition(config, files, path, Intent::Seal, seen, failure, done);
    lemma_failed_encryption_changes_nothing(config, path, entry_of(files, path), Intent::Seal, seen, failure, done);
    let after = dispatched(config, files, path, Intent::Seal, seen, failure, done).0;
    assert(after.remove(path) =~= files.remove(path));
}

} // verus!
