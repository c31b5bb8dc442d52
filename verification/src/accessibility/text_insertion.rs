//! The insertion pipeline: inserts a finished text into the application
//! that has the keyboard focus, by the accessibility tree where that works
//! and through the clipboard where it does not.
//!
//! The pipeline touches neither the accessibility tree nor the clipboard.
//! It says which step comes next; its driver performs the step and reports
//! how it went.

use vstd::prelude::*;
use vstd::string::StringExecFns;

verus! {

/// How long the driver waits after the paste keystroke before it restores
/// the clipboard, so that the target application has consumed the paste.
pub const CLIPBOARD_RESTORE_DELAY_MS: u64 = 100;

#[derive(Debug, Clone, PartialEq, Eq)]
pub enum InsertionError {
    InsertionFailed(String),
    /// No focused element could be identified.
    NoTextField,
    /// The operating system has not granted accessibility access.
    PermissionDenied,
}

impl InsertionError {
    pub open spec fn message_spec(self) -> Seq<char> {
        match self {
            InsertionError::InsertionFailed(detail) => "Failed to insert text: "@ + detail@,
            InsertionError::NoTextField => "No focused text field found"@,
            InsertionError::PermissionDenied => "Accessibility permission not granted"@,
        }
    }

    /// The text shown to the user.
    pub fn message(&self) -> (text: String)
        ensures
            text@ == self.message_spec(),
    {
        match self {
            InsertionError::InsertionFailed(detail) => String::from_str(
                "Failed to insert text: ",
            ).concat(detail.as_str()),
            InsertionError::NoTextField => String::from_str("No focused text field found"),
            InsertionError::PermissionDenied => String::from_str(
                "Accessibility permission not granted",
            ),
        }
    }
}

/// The step that the driver has to perform next.
#[derive(Debug, PartialEq, Eq)]
pub enum InsertionAction {
    /// Insert the text at the focused editable element: replace the
    /// selection, or append at the caret.
    AttemptAccessibility,
    /// Read what the clipboard holds.
    SnapshotClipboard,
    /// Put the text on the clipboard.
    WriteClipboard,
    /// Synthesize the paste keystroke.
    SendPaste,
    /// After the restore delay, put these contents back on the clipboard;
    /// `None` stands for a clipboard that held nothing.
    RestoreClipboard(Option<String>),
    /// The pipeline is through; this is what `insert` comes to.
    Finish(Result<(), InsertionError>),
    /// The pipeline was through already.
    Nothing,
}

/// How the step that was asked for went.
#[derive(Debug, Clone, PartialEq, Eq)]
pub enum StepReport {
    /// The step succeeded. For the snapshot: the clipboard held nothing.
    Done,
    /// The snapshot was taken, and the clipboard held this.
    Contents(String),
    Failed(InsertionError),
}

/// Where the pipeline stands: the step whose report it waits for.
#[derive(Debug, PartialEq, Eq)]
pub enum InsertionPhase {
    Accessibility,
    Snapshot,
    /// Holds the snapshot.
    Write(Option<String>),
    /// Holds the snapshot.
    Paste(Option<String>),
    /// Holds what the pipeline comes to once the restore is over.
    Restore(Result<(), InsertionError>),
    Finished,
}

impl InsertionPhase {
    /// How many steps are still to come at most.
    pub open spec fn steps_left(self) -> nat {
        match self {
            InsertionPhase::Accessibility => 5,
            InsertionPhase::Snapshot => 4,
            InsertionPhase::Write(_) => 3,
            InsertionPhase::Paste(_) => 2,
            InsertionPhase::Restore(_) => 1,
            InsertionPhase::Finished => 0,
        }
    }

    /// The snapshot that is still to be restored, if there is one.
    pub open spec fn holds_snapshot(self) -> Option<Option<String>> {
        match self {
            InsertionPhase::Write(saved) => Some(saved),
            InsertionPhase::Paste(saved) => Some(saved),
            _ => None,
        }
    }

    /// The transition table: next phase and next step for one report.
    ///
    /// A failure of the accessibility strategy is swallowed and the
    /// clipboard strategy begins. Once the snapshot is taken, every path
    /// leads through a restore of exactly that snapshot. The pipeline comes
    /// to success when the paste was issued; how the restore went does not
    /// count.
    pub open spec fn step(self, report: StepReport) -> (InsertionPhase, InsertionAction) {
        match self {
            InsertionPhase::Accessibility => match report {
                StepReport::Failed(_) => (
                    InsertionPhase::Snapshot,
                    InsertionAction::SnapshotClipboard,
                ),
                _ => (InsertionPhase::Finished, InsertionAction::Finish(Ok(()))),
            },
            InsertionPhase::Snapshot => match report {
                StepReport::Failed(error) => (
                    InsertionPhase::Finished,
                    InsertionAction::Finish(Err(error)),
                ),
                StepReport::Contents(saved) => (
                    InsertionPhase::Write(Some(saved)),
                    InsertionAction::WriteClipboard,
                ),
                StepReport::Done => (InsertionPhase::Write(None), InsertionAction::WriteClipboard),
            },
            InsertionPhase::Write(saved) => match report {
                StepReport::Failed(error) => (
                    InsertionPhase::Restore(Err(error)),
                    InsertionAction::RestoreClipboard(saved),
                ),
                _ => (InsertionPhase::Paste(saved), InsertionAction::SendPaste),
            },
            InsertionPhase::Paste(saved) => match report {
                StepReport::Failed(error) => (
                    InsertionPhase::Restore(Err(error)),
                    InsertionAction::RestoreClipboard(saved),
                ),
                _ => (InsertionPhase::Restore(Ok(())), InsertionAction::RestoreClipboard(saved)),
            },
            InsertionPhase::Restore(outcome) => (
                InsertionPhase::Finished,
                InsertionAction::Finish(outcome),
            ),
            InsertionPhase::Finished => (InsertionPhase::Finished, InsertionAction::Nothing),
        }
    }
}

/// One run of the pipeline for one text.
#[derive(Debug, PartialEq, Eq)]
pub struct InsertionRun {
    pub text: String,
    pub phase: InsertionPhase,
}

impl InsertionRun {
    /// Takes the report on the step that was asked for last, and says which
    /// step comes next. The text stays what it was.
    pub fn advance(self, report: StepReport) -> (next: (InsertionRun, InsertionAction))
        ensures
            next.0.text == self.text,
            (next.0.phase, next.1) == self.phase.step(report),
    {
        let InsertionRun { text, phase } = self;
        let (phase, action) = match phase {
            InsertionPhase::Accessibility => match report {
                StepReport::Failed(_) => (
                    InsertionPhase::Snapshot,
                    InsertionAction::SnapshotClipboard,
                ),
                _ => (InsertionPhase::Finished, InsertionAction::Finish(Ok(()))),
            },
            InsertionPhase::Snapshot => match report {
                StepReport::Failed(error) => (
                    InsertionPhase::Finished,
                    InsertionAction::Finish(Err(error)),
                ),
                StepReport::Contents(saved) => (
                    InsertionPhase::Write(Some(saved)),
                    InsertionAction::WriteClipboard,
                ),
                StepReport::Done => (InsertionPhase::Write(None), InsertionAction::WriteClipboard),
            },
            InsertionPhase::Write(saved) => match report {
                StepReport::Failed(error) => (
                    InsertionPhase::Restore(Err(error)),
                    InsertionAction::RestoreClipboard(saved),
                ),
                _ => (InsertionPhase::Paste(saved), InsertionAction::SendPaste),
            },
            InsertionPhase::Paste(saved) => match report {
                StepReport::Failed(error) => (
                    InsertionPhase::Restore(Err(error)),
                    InsertionAction::RestoreClipboard(saved),
                ),
                _ => (InsertionPhase::Restore(Ok(())), InsertionAction::RestoreClipboard(saved)),
            },
            InsertionPhase::Restore(outcome) => (
                InsertionPhase::Finished,
                InsertionAction::Finish(outcome),
            ),
            InsertionPhase::Finished => (InsertionPhase::Finished, InsertionAction::Nothing),
        };
        (InsertionRun { text, phase }, action)
    }

    pub fn is_finished(&self) -> (finished: bool)
        ensures
            finished == (self.phase is Finished),
    {
        match self.phase {
            InsertionPhase::Finished => true,
            _ => false,
        }
    }
}

/// Begins the insertion of `text`: the accessibility strategy comes first.
pub fn insert(text: &str) -> (begun: (InsertionRun, InsertionAction))
    ensures
        begun.0.text@ == text@,
        begun.0.phase == InsertionPhase::Accessibility,
        begun.1 == InsertionAction::AttemptAccessibility,
{
    (
        InsertionRun { text: String::from_str(text), phase: InsertionPhase::Accessibility },
        InsertionAction::AttemptAccessibility,
    )
}

/// What the pipeline comes to, given how the two strategies went: success
/// where either succeeded, else the failure of the clipboard strategy. The
/// failure of the accessibility strategy never surfaces.
pub open spec fn fallback_outcome(
    accessibility: Result<(), InsertionError>,
    clipboard: Result<(), InsertionError>,
) -> Result<(), InsertionError> {
    match accessibility {
        Ok(()) => Ok(()),
        Err(_) => clipboard,
    }
}

/// Every report takes the pipeline at least one step nearer to its end, so
/// a run is through after five reports at most; a finished run stays
/// finished and asks for nothing.
pub proof fn pipeline_terminates(phase: InsertionPhase, report: StepReport)
    ensures
        !(phase is Finished) ==> phase.step(report).0.steps_left() < phase.steps_left(),
        phase is Finished ==> phase.step(report) == (
            InsertionPhase::Finished,
            InsertionAction::Nothing,
        ),
        phase.step(report).1 is Finish ==> phase.step(report).0 is Finished,
{
}

/// Where the accessibility strategy succeeds, the pipeline finishes with
/// success at once and the clipboard is never touched.
pub proof fn accessibility_success_finishes(report: StepReport)
    requires
        !(report is Failed),
    ensures
        InsertionPhase::Accessibility.step(report) == (
            InsertionPhase::Finished,
            InsertionAction::Finish(Ok(())),
        ),
{
}

/// What a faithful snapshot of `clipboard` reports.
pub open spec fn snapshot_of(clipboard: Option<String>) -> StepReport {
    match clipboard {
        Some(contents) => StepReport::Contents(contents),
        None => StepReport::Done,
    }
}

/// What the clipboard holds after `action` was carried out with success
/// for the text `text`.
pub open spec fn clipboard_after(
    action: InsertionAction,
    clipboard: Option<String>,
    text: String,
) -> Option<String> {
    match action {
        InsertionAction::WriteClipboard => Some(text),
        InsertionAction::RestoreClipboard(saved) => saved,
        _ => clipboard,
    }
}

/// Where the accessibility strategy fails and the clipboard strategy
/// succeeds, the pipeline comes to success, and the clipboard, which held
/// the text while the paste was issued, holds afterwards what it held before
/// the call. How the restore itself is reported changes nothing in what the
/// pipeline comes to.
pub proof fn clipboard_fallback_succeeds_and_restores(
    accessibility_error: InsertionError,
    clipboard: Option<String>,
    text: String,
    restore: StepReport,
)
    ensures
        ({
            let (at_snapshot, first) = InsertionPhase::Accessibility.step(
                StepReport::Failed(accessibility_error),
            );
            let (at_write, second) = at_snapshot.step(snapshot_of(clipboard));
            let (at_paste, third) = at_write.step(StepReport::Done);
            let (at_restore, fourth) = at_paste.step(StepReport::Done);
            let (at_end, fifth) = at_restore.step(restore);
            let written = clipboard_after(second, clipboard_after(first, clipboard, text), text);
            let restored = clipboard_after(fourth, clipboard_after(third, written, text), text);
            &&& first == InsertionAction::SnapshotClipboard
            &&& second == InsertionAction::WriteClipboard
            &&& third == InsertionAction::SendPaste
            &&& fourth == InsertionAction::RestoreClipboard(clipboard)
            &&& fifth == InsertionAction::Finish(Ok(()))
            &&& at_end is Finished
            &&& written == Some(text)
            &&& restored == clipboard
        }),
{
}

/// Once the snapshot is taken the clipboard is always restored: whatever
/// the next reports are, the pipeline asks for a restore of exactly the
/// snapshot before it finishes, and it finishes with the failure of the
/// step that failed, or with success where none did.
pub proof fn snapshot_is_always_restored(
    saved: Option<String>,
    write: StepReport,
    paste: StepReport,
    restore: StepReport,
)
    ensures
        ({
            let (after_write, first) = InsertionPhase::Write(saved).step(write);
            let (after_paste, second) = after_write.step(paste);
            let (done, third) = after_paste.step(restore);
            match write {
                StepReport::Failed(error) => {
                    &&& first == InsertionAction::RestoreClipboard(saved)
                    &&& second == InsertionAction::Finish(Err(error))
                },
                _ => {
                    &&& first == InsertionAction::SendPaste
                    &&& second == InsertionAction::RestoreClipboard(saved)
                    &&& third == InsertionAction::Finish(
                        match paste {
                            StepReport::Failed(error) => Err(error),
                            _ => Ok(()),
                        },
                    )
                },
            }
        }),
{
}

/// Where both strategies fail, the pipeline comes to the failure of the
/// clipboard strategy, whichever of its steps failed; the failure of the
/// accessibility strategy is swallowed.
pub proof fn total_failure_surfaces_clipboard_error(
    accessibility_error: InsertionError,
    clipboard_error: InsertionError,
    saved: Option<String>,
    restore: StepReport,
)
    ensures
        ({
            let expected = InsertionAction::Finish(
                fallback_outcome(Err(accessibility_error), Err(clipboard_error)),
            );
            let failed = StepReport::Failed(clipboard_error);
            let begun = InsertionPhase::Accessibility.step(StepReport::Failed(accessibility_error)).0;
            &&& expected == InsertionAction::Finish(Err(clipboard_error))
            &&& begun.step(failed).1 == expected
            &&& InsertionPhase::Write(saved).step(failed).0.step(restore).1 == expected
            &&& InsertionPhase::Paste(saved).step(failed).0.step(restore).1 == expected
        }),
{
}

} // verus!
