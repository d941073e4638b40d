//! The capture sequence: stop the preview, take one still, resume the preview,
//! report the still's outcome. A failed still never keeps the preview from
//! being resumed, and a failed resume never changes what is reported.

use vstd::prelude::*;
use vstd::string::StringSliceAdditionalSpecFns;
use crate::http::{decimal, push_decimal, push_str};

verus! {

/// Where a capture stands.
#[derive(Clone, Copy, Debug, PartialEq, Eq, Structural)]
pub enum CapturePhase {
    Idle,
    StoppingPreview,
    CapturingStill,
    RestartingPreview,
}

/// What happened outside since the last step.
#[derive(Debug)]
pub enum CaptureEvent {
    /// A capture was asked for.
    Requested,
    /// The preview subprocess has exited.
    PreviewStopped,
    /// The still-capture command finished: the saved path, or its diagnostics.
    StillDone(Result<String, String>),
    /// The attempt to resume the preview finished, well or not.
    PreviewResumed(bool),
}

/// What to do next.
#[derive(Debug)]
pub enum CaptureAction {
    /// Kill the preview subprocess and wait for it to exit.
    StopPreview,
    /// Run the still-capture command.
    RunStill,
    /// Spawn the preview again and attach a new extractor.
    ResumePreview,
    /// The capture is over: hand this outcome to the caller.
    Report(Result<String, String>),
    /// The event does not belong to the current phase.
    Ignore,
}

/// The next phase, kept outcome and action after `ev` in `phase`.
pub open spec fn step_spec(
    phase: CapturePhase,
    outcome: Option<Result<String, String>>,
    ev: CaptureEvent,
) -> (CapturePhase, Option<Result<String, String>>, CaptureAction) {
    match (phase, ev) {
        (CapturePhase::Idle, CaptureEvent::Requested) => (
            CapturePhase::StoppingPreview,
            outcome,
            CaptureAction::StopPreview,
        ),
        (CapturePhase::StoppingPreview, CaptureEvent::PreviewStopped) => (
            CapturePhase::CapturingStill,
            outcome,
            CaptureAction::RunStill,
        ),
        (CapturePhase::CapturingStill, CaptureEvent::StillDone(o)) => (
            CapturePhase::RestartingPreview,
            Some(o),
            CaptureAction::ResumePreview,
        ),
        (CapturePhase::RestartingPreview, CaptureEvent::PreviewResumed(_)) => match outcome {
            Some(o) => (CapturePhase::Idle, None, CaptureAction::Report(o)),
            None => (phase, outcome, CaptureAction::Ignore),
        },
        _ => (phase, outcome, CaptureAction::Ignore),
    }
}

/// One capture in progress, or none.
pub struct CaptureOrchestrator {
    phase: CapturePhase,
    outcome: Option<Result<String, String>>,
}

impl CaptureOrchestrator {
    pub closed spec fn phase_spec(&self) -> CapturePhase {
        self.phase
    }

    pub closed spec fn outcome_spec(&self) -> Option<Result<String, String>> {
        self.outcome
    }

    /// An outcome is kept exactly while the preview is being resumed.
    pub open spec fn wf(&self) -> bool {
        self.outcome_spec() is Some <==> self.phase_spec() == CapturePhase::RestartingPreview
    }

    pub fn new() -> (r: CaptureOrchestrator)
        ensures
            r.wf(),
            r.phase_spec() == CapturePhase::Idle,
    {
        CaptureOrchestrator { phase: CapturePhase::Idle, outcome: None }
    }

    pub fn phase(&self) -> (r: CapturePhase)
        ensures
            r == self.phase_spec(),
    {
        self.phase
    }

    /// Advances the sequence by one event and says what to do next.
    pub fn step(&mut self, ev: CaptureEvent) -> (r: CaptureAction)
        requires
            old(self).wf(),
        ensures
            final(self).wf(),
            (final(self).phase_spec(), final(self).outcome_spec(), r) == step_spec(
                old(self).phase_spec(),
                old(self).outcome_spec(),
                ev,
            ),
    {
        match (self.phase, ev) {
            (CapturePhase::Idle, CaptureEvent::Requested) => {
                self.phase = CapturePhase::StoppingPreview;
                CaptureAction::StopPreview
            },
            (CapturePhase::StoppingPreview, CaptureEvent::PreviewStopped) => {
                self.phase = CapturePhase::CapturingStill;
                CaptureAction::RunStill
            },
            (CapturePhase::CapturingStill, CaptureEvent::StillDone(o)) => {
                self.phase = CapturePhase::RestartingPreview;
                self.outcome = Some(o);
                CaptureAction::ResumePreview
            },
            (CapturePhase::RestartingPreview, CaptureEvent::PreviewResumed(_)) => {
                match self.outcome.take() {
                    Some(o) => {
                        self.phase = CapturePhase::Idle;
                        CaptureAction::Report(o)
                    },
                    None => CaptureAction::Ignore,
                }
            },
            _ => CaptureAction::Ignore,
        }
    }
}

/// Whatever the still's outcome, the preview is resumed next; whether the
/// resume works or not, the capture then reports exactly that outcome and the
/// sequence is idle again.
pub proof fn lemma_capture_resumes(outcome: Result<String, String>, resumed: bool)
    ensures
        step_spec(CapturePhase::CapturingStill, None, CaptureEvent::StillDone(outcome)) == (
        CapturePhase::RestartingPreview, Some(outcome), CaptureAction::ResumePreview),
        step_spec(
            CapturePhase::RestartingPreview,
            Some(outcome),
            CaptureEvent::PreviewResumed(resumed),
        ) == (CapturePhase::Idle, None::<Result<String, String>>, CaptureAction::Report(outcome)),
{
}

/// The text of a byte string with each invalid UTF-8 sequence replaced by
/// U+FFFD.
pub uninterp spec fn lossy_text(b: Seq<u8>) -> Seq<char>;

/// Relies on `String::from_utf8_lossy`: the bytes as text, invalid sequences
/// replaced.
#[verifier::external_body]
fn utf8_lossy(b: &Vec<u8>) -> (r: String)
    ensures
        r@ == lossy_text(b@),
{
    String::from_utf8_lossy(b).to_string()
}

/// The outcome of the still-capture command: the saved path when it exited
/// with success, else its diagnostic output as text.
pub fn still_outcome(success: bool, stderr: &Vec<u8>, path: String) -> (r: Result<String, String>)
    ensures
        success ==> r == Ok::<String, String>(path),
        !success ==> (r matches Err(e) && e@ == lossy_text(stderr@)),
{
    if success {
        Ok(path)
    } else {
        Err(utf8_lossy(stderr))
    }
}

/// The file name of a photo taken at `timestamp`.
pub open spec fn photo_name_spec(timestamp: nat) -> Seq<u8> {
    "photo_".spec_bytes() + decimal(timestamp) + ".jpg".spec_bytes()
}

/// The file name of a photo taken at `timestamp` (seconds since the epoch):
/// `photo_<timestamp>.jpg`.
pub fn photo_file_name(timestamp: usize) -> (r: Vec<u8>)
    ensures
        r@ == photo_name_spec(timestamp as nat),
{
    let mut out: Vec<u8> = Vec::new();
    push_str(&mut out, "photo_");
    push_decimal(&mut out, timestamp);
    push_str(&mut out, ".jpg");
    out
}

} // verus!
