//! The flash orchestration state machine: the exact order of steps an
//! upload takes — force-stop the monitor and let the port settle, stage
//! the sketch, compile, then upload — with each step a hard precondition
//! for the next, and each failure mapped to its own terminal error.
//!
//! The external tool invocations and the file write are performed by the
//! caller; every decision between them is made and verified here.

use vstd::prelude::*;
use vstd::string::StringExecFns;
use crate::registry::PortRegistry;
use crate::text::str_eq;

verus! {

/// Settle delay between force-stopping the monitor and touching the
/// port for an upload, giving the operating system time to release the
/// reader's handle. Best-effort: no acknowledgment from the reader task
/// is awaited.
pub const UPLOAD_SETTLE_MS: u64 = 500;

/// The supported board identifiers; anything else falls back to the
/// default toolchain target rather than failing.
#[derive(Clone, Copy, PartialEq, Eq, Structural, Debug)]
pub enum Board {
    Uno,
    Nano,
    Esp32,
    Other,
}

/// The toolchain target string each board resolves to; unknown boards
/// fall back to the default target.
pub open spec fn spec_fqbn(b: Board) -> Seq<char> {
    match b {
        Board::Uno => "arduino:avr:uno"@,
        Board::Nano => "arduino:avr:nano"@,
        Board::Esp32 => "esp32:esp32:esp32"@,
        Board::Other => "arduino:avr:uno"@,
    }
}

/// Resolve a board to its toolchain target string.
pub fn fqbn_of(b: Board) -> (r: String)
    ensures
        r@ == spec_fqbn(b),
{
    match b {
        Board::Uno => "arduino:avr:uno".to_owned(),
        Board::Nano => "arduino:avr:nano".to_owned(),
        Board::Esp32 => "esp32:esp32:esp32".to_owned(),
        Board::Other => "arduino:avr:uno".to_owned(),
    }
}

/// The board a user-supplied identifier names; unknown identifiers map
/// to the fallback.
pub open spec fn spec_board_from_name(n: Seq<char>) -> Board {
    if n == "uno"@ {
        Board::Uno
    } else if n == "nano"@ {
        Board::Nano
    } else if n == "esp32"@ {
        Board::Esp32
    } else {
        Board::Other
    }
}

/// Parse a board identifier, falling back to the default board for
/// anything unknown.
pub fn board_from_name(name: &str) -> (b: Board)
    ensures
        b == spec_board_from_name(name@),
{
    if str_eq(name, "uno") {
        Board::Uno
    } else if str_eq(name, "nano") {
        Board::Nano
    } else if str_eq(name, "esp32") {
        Board::Esp32
    } else {
        Board::Other
    }
}

/// One upload request: the source text to flash, the board it is for,
/// and the destination port. Ephemeral; lives for one upload call.
pub struct UploadJob {
    pub source: String,
    pub board: Board,
    pub port: String,
}

/// The terminal errors of one upload call, each carrying the diagnostic
/// the caller reports. None is retried.
pub enum UploadError {
    /// The staged sketch file could not be written.
    FileWrite(String),
    /// The compile step failed; carries the tool's diagnostic verbatim.
    Compile(String),
    /// The upload step failed; carries the destination port and the
    /// tool's diagnostic verbatim.
    Upload(String, String),
}

impl UploadError {
    /// The human-readable form of this error. The upload variant adds
    /// the hint about the usual causes alongside the raw diagnostic.
    pub open spec fn spec_message(&self) -> Seq<char> {
        match self {
            UploadError::FileWrite(e) => "failed to write sketch file: "@ + e@,
            UploadError::Compile(d) => "compile failed:\n"@ + d@,
            UploadError::Upload(p, d) => "upload to port "@ + p@
                + " failed (check that the device is connected and the port is not busy):\n"@
                + d@,
        }
    }

    /// Render the error for the caller.
    pub fn message(&self) -> (m: String)
        ensures
            m@ == self.spec_message(),
    {
        match self {
            UploadError::FileWrite(e) => "failed to write sketch file: ".to_owned().concat(
                e.as_str(),
            ),
            UploadError::Compile(d) => "compile failed:\n".to_owned().concat(d.as_str()),
            UploadError::Upload(p, d) => "upload to port ".to_owned().concat(p.as_str()).concat(
                " failed (check that the device is connected and the port is not busy):\n",
            ).concat(d.as_str()),
        }
    }
}

/// Where one upload stands: which step its next event must come from.
#[derive(Clone, Copy, PartialEq, Eq, Structural, Debug)]
pub enum UploadPhase {
    Staging,
    Compiling,
    Uploading,
    Finished,
}

/// How one external step went: success, or failure with the tool's (or
/// the file system's) diagnostic text.
pub enum Outcome {
    Success,
    Failure(String),
}

/// The report the caller hands back after performing the action the
/// orchestrator asked for.
pub enum StepEvent {
    Staged(Outcome),
    CompileDone(Outcome),
    UploadDone(Outcome),
}

/// What the orchestrator asks the caller to do next. `Settle` is a plain
/// wait; `WriteSketch` stages the given source text at the fixed sketch
/// path; `RunCompile` and `RunUpload` invoke the external tool with the
/// given target (and port); `Finish` ends the call with its result.
pub enum UploadAction {
    Settle(u64),
    WriteSketch(String),
    RunCompile(String),
    RunUpload(String, String),
    Finish(Result<String, UploadError>),
}

/// One upload in progress.
pub struct UploadSession {
    pub job: UploadJob,
    pub phase: UploadPhase,
}

/// The kind of an action, stripped of its payloads: the shape of the
/// orchestrator's decisions, over which the ordering laws are stated.
#[derive(Clone, Copy, PartialEq, Eq, Structural, Debug)]
pub enum ActionKind {
    Settle,
    WriteSketch,
    RunCompile,
    RunUpload,
    FinishSuccess,
    FinishFileWriteError,
    FinishCompileError,
    FinishUploadError,
}

/// The kind of a concrete action.
pub open spec fn kind_of(a: UploadAction) -> ActionKind {
    match a {
        UploadAction::Settle(_) => ActionKind::Settle,
        UploadAction::WriteSketch(_) => ActionKind::WriteSketch,
        UploadAction::RunCompile(_) => ActionKind::RunCompile,
        UploadAction::RunUpload(_, _) => ActionKind::RunUpload,
        UploadAction::Finish(r) => match r {
            Ok(_) => ActionKind::FinishSuccess,
            Err(UploadError::FileWrite(_)) => ActionKind::FinishFileWriteError,
            Err(UploadError::Compile(_)) => ActionKind::FinishCompileError,
            Err(UploadError::Upload(_, _)) => ActionKind::FinishUploadError,
        },
    }
}

/// Whether an event reports on the step the session is actually in.
pub open spec fn event_fits_phase(p: UploadPhase, ev: StepEvent) -> bool {
    match ev {
        StepEvent::Staged(_) => p is Staging,
        StepEvent::CompileDone(_) => p is Compiling,
        StepEvent::UploadDone(_) => p is Uploading,
    }
}

/// The phase an upload moves to on an event: forward on success, to
/// `Finished` on any failure or on the final step.
pub open spec fn next_phase(p: UploadPhase, ev: StepEvent) -> UploadPhase {
    match (p, ev) {
        (UploadPhase::Staging, StepEvent::Staged(Outcome::Success)) => UploadPhase::Compiling,
        (UploadPhase::Compiling, StepEvent::CompileDone(Outcome::Success)) => UploadPhase::Uploading,
        _ => UploadPhase::Finished,
    }
}

/// The kind of action each (phase, event) pair decides: the whole
/// decision table of the orchestrator.
pub open spec fn step_kind(p: UploadPhase, ev: StepEvent) -> ActionKind {
    match (p, ev) {
        (UploadPhase::Staging, StepEvent::Staged(Outcome::Success)) => ActionKind::RunCompile,
        (UploadPhase::Staging, StepEvent::Staged(Outcome::Failure(_))) =>
            ActionKind::FinishFileWriteError,
        (UploadPhase::Compiling, StepEvent::CompileDone(Outcome::Success)) => ActionKind::RunUpload,
        (UploadPhase::Compiling, StepEvent::CompileDone(Outcome::Failure(_))) =>
            ActionKind::FinishCompileError,
        (UploadPhase::Uploading, StepEvent::UploadDone(Outcome::Success)) =>
            ActionKind::FinishSuccess,
        (UploadPhase::Uploading, StepEvent::UploadDone(Outcome::Failure(_))) =>
            ActionKind::FinishUploadError,
        _ => ActionKind::FinishFileWriteError,
    }
}

/// Begin an upload: force-stop any active monitor session — the
/// registry's flag is false from here on, before any later step can run —
/// and ask the caller to wait out the settle delay and then stage the
/// source text.
///
/// The settle delay is a best-effort handoff, and that is a known gap: a
/// reader that polled the flag just before the stop may touch the port
/// once more after the delay elapses. A stricter mode would have the
/// stop request hand back a join handle that resolves once the reader
/// has dropped the port, and wait on it here instead of sleeping.
pub fn begin_upload(registry: &mut PortRegistry, job: UploadJob) -> (r: (
    UploadSession,
    Vec<UploadAction>,
))
    ensures
        !final(registry).active,
        r.0.phase is Staging,
        r.0.job == job,
        r.1@.len() == 2,
        r.1@[0] matches UploadAction::Settle(ms) && ms == UPLOAD_SETTLE_MS,
        r.1@[1] matches UploadAction::WriteSketch(src) && src@ == job.source@,
{
    registry.request_stop();
    let mut acts: Vec<UploadAction> = Vec::new();
    acts.push(UploadAction::Settle(UPLOAD_SETTLE_MS));
    acts.push(UploadAction::WriteSketch(job.source.clone()));
    let session = UploadSession { job, phase: UploadPhase::Staging };
    (session, acts)
}

/// Advance an upload by one step. The decision table is exact: a staged
/// sketch is compiled; a successful compile is uploaded; a failed
/// compile finishes with `Compile` carrying the tool's diagnostic
/// verbatim and never reaches the upload step; a failed upload finishes
/// with `Upload` carrying the port and the diagnostic; a failed write
/// finishes with `FileWrite`; a successful upload finishes the call.
pub fn upload_step(s: &mut UploadSession, ev: StepEvent) -> (a: UploadAction)
    requires
        event_fits_phase(old(s).phase, ev),
    ensures
        final(s).job == old(s).job,
        final(s).phase == next_phase(old(s).phase, ev),
        kind_of(a) == step_kind(old(s).phase, ev),
        ev matches StepEvent::Staged(Outcome::Success) ==> (a matches UploadAction::RunCompile(f)
            && f@ == spec_fqbn(old(s).job.board)),
        ev matches StepEvent::Staged(Outcome::Failure(e)) ==> (a matches UploadAction::Finish(r)
            && r matches Err(UploadError::FileWrite(m)) && m@ == e@),
        ev matches StepEvent::CompileDone(Outcome::Success) ==> (a matches
            UploadAction::RunUpload(f, p) && f@ == spec_fqbn(old(s).job.board) && p@
            == old(s).job.port@),
        ev matches StepEvent::CompileDone(Outcome::Failure(d)) ==> (a matches
            UploadAction::Finish(r) && r matches Err(UploadError::Compile(m)) && m@ == d@),
        ev matches StepEvent::UploadDone(Outcome::Success) ==> (a matches UploadAction::Finish(r)
            && r matches Ok(m) && m@ == "upload completed successfully"@),
        ev matches StepEvent::UploadDone(Outcome::Failure(d)) ==> (a matches
            UploadAction::Finish(r) && r matches Err(UploadError::Upload(p, m)) && p@
            == old(s).job.port@ && m@ == d@),
{
    match ev {
        StepEvent::Staged(Outcome::Success) => {
            s.phase = UploadPhase::Compiling;
            UploadAction::RunCompile(fqbn_of(s.job.board))
        },
        StepEvent::Staged(Outcome::Failure(e)) => {
            s.phase = UploadPhase::Finished;
            UploadAction::Finish(Err(UploadError::FileWrite(e)))
        },
        StepEvent::CompileDone(Outcome::Success) => {
            s.phase = UploadPhase::Uploading;
            UploadAction::RunUpload(fqbn_of(s.job.board), s.job.port.clone())
        },
        StepEvent::CompileDone(Outcome::Failure(d)) => {
            s.phase = UploadPhase::Finished;
            UploadAction::Finish(Err(UploadError::Compile(d)))
        },
        StepEvent::UploadDone(Outcome::Success) => {
            s.phase = UploadPhase::Finished;
            UploadAction::Finish(Ok("upload completed successfully".to_owned()))
        },
        StepEvent::UploadDone(Outcome::Failure(d)) => {
            s.phase = UploadPhase::Finished;
            UploadAction::Finish(Err(UploadError::Upload(s.job.port.clone(), d)))
        },
    }
}

/// Law: an upload is ever invoked only as the decision for a successful
/// compile in the compiling phase — no other state of the machine can
/// launch the upload tool.
pub proof fn lemma_upload_requires_compile_success(p: UploadPhase, ev: StepEvent)
    ensures
        step_kind(p, ev) == ActionKind::RunUpload ==> p is Compiling && (ev matches
            StepEvent::CompileDone(Outcome::Success)),
{
}

/// Law: a failed compile never launches the upload tool; from the
/// compiling phase it ends the call at once with the compile error.
pub proof fn lemma_compile_failure_never_uploads(p: UploadPhase, ev: StepEvent)
    ensures
        (ev matches StepEvent::CompileDone(Outcome::Failure(d))) ==> step_kind(p, ev)
            != ActionKind::RunUpload,
        p is Compiling && (ev matches StepEvent::CompileDone(Outcome::Failure(d)))
            ==> step_kind(p, ev) == ActionKind::FinishCompileError && next_phase(p, ev)
            is Finished,
{
}

} // verus!
