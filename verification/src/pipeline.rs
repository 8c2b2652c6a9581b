//! The execution pipeline as a state machine: stage the buffer, compile it,
//! run the artifact, validate its output — terminal on the first failure,
//! and every path that created files passes through cleanup before the run
//! is over. The driver performs the filesystem and process work and reports
//! each outcome back as an event.

use vstd::prelude::*;
use crate::validate::Verdict;
use crate::validate::validate_verdict;
use crate::validate::validate;

verus! {

/// The one fatal pipeline error: the scratch source could not be written.
/// Everything else is a non-fatal `Verdict`.
pub enum PipelineError {
    IoError { message: String },
}

/// The pipeline's position within one run.
pub enum PipelineState {
    /// Nothing staged yet.
    Idle,
    /// The code buffer was written verbatim to the scratch source path.
    Staged,
    /// The toolchain compiled the scratch source into the artifact.
    Compiled,
    /// The outcome is decided; the transient files are still owed a removal.
    CleanupPending { outcome: Result<Verdict, PipelineError> },
    /// The run is over.
    Done { outcome: Result<Verdict, PipelineError> },
}

/// What the driver reports back after performing an action.
pub enum PipelineEvent {
    /// The scratch write finished; `error` carries the failure text, if any.
    StageFinished { error: Option<String> },
    /// The toolchain could not be started at all.
    CompileSpawnFailed { cause: String },
    /// The toolchain ran; `stderr` is its captured error stream, verbatim.
    CompileExited { success: bool, stderr: String },
    /// The compiled artifact could not be started at all.
    ArtifactSpawnFailed { cause: String },
    /// The artifact ran; `stdout` is its captured output, in full.
    ArtifactExited { success: bool, stdout: String, stderr: String },
    /// The scratch source and the artifact were removed; removal errors are
    /// swallowed by the driver.
    CleanupDone,
}

/// What the driver owes next, `None` once the run is over.
#[derive(Clone, Copy, Debug, PartialEq, Eq, Structural)]
pub enum PipelineAction {
    /// Write the code buffer verbatim to the scratch source path.
    StageSource,
    /// Invoke the toolchain synchronously on the scratch source.
    InvokeCompiler,
    /// Spawn the artifact with no input attached; capture output in full.
    InvokeArtifact,
    /// Remove the scratch source and the artifact, unconditionally.
    RemoveArtifacts,
}

/// The transition relation of one run. An event that cannot arise in the
/// state at hand changes nothing.
pub open spec fn advance_rel(
    state: PipelineState,
    event: PipelineEvent,
    expected: Option<Seq<char>>,
    next: PipelineState,
) -> bool {
    match (state, event) {
        (PipelineState::Idle, PipelineEvent::StageFinished { error }) => match error {
            Option::None => next == PipelineState::Staged,
            Option::Some(msg) => next == (PipelineState::Done {
                outcome: Err(PipelineError::IoError { message: msg }),
            }),
        },
        (PipelineState::Staged, PipelineEvent::CompileSpawnFailed { cause }) => next
            == (PipelineState::CleanupPending {
            outcome: Ok(Verdict::CompileFailed { diagnostics: cause }),
        }),
        (PipelineState::Staged, PipelineEvent::CompileExited { success, stderr }) => if success {
            next == PipelineState::Compiled
        } else {
            next == (PipelineState::CleanupPending {
                outcome: Ok(Verdict::CompileFailed { diagnostics: stderr }),
            })
        },
        (PipelineState::Compiled, PipelineEvent::ArtifactSpawnFailed { cause }) => next
            == (PipelineState::CleanupPending { outcome: Ok(Verdict::RunFailed { cause }) }),
        (
            PipelineState::Compiled,
            PipelineEvent::ArtifactExited { success, stdout, stderr },
        ) => if success {
            next matches PipelineState::CleanupPending { outcome: Ok(v) } && validate_verdict(
                v,
                stdout@,
                expected,
            )
        } else {
            next == (PipelineState::CleanupPending {
                outcome: Ok(Verdict::RunFailed { cause: stderr }),
            })
        },
        (PipelineState::CleanupPending { outcome }, PipelineEvent::CleanupDone) => next
            == (PipelineState::Done { outcome }),
        (s, _) => next == s,
    }
}

/// Applies one driver report to the run; `expected` is the active exercise's
/// expected output, consulted when the artifact's output is validated.
pub fn advance(state: PipelineState, event: PipelineEvent, expected: Option<&str>) -> (next:
    PipelineState)
    ensures
        advance_rel(
            state,
            event,
            match expected {
                Option::Some(e) => Option::Some(e@),
                Option::None => Option::None,
            },
            next,
        ),
{
    match (state, event) {
        (PipelineState::Idle, PipelineEvent::StageFinished { error }) => match error {
            Option::None => PipelineState::Staged,
            Option::Some(msg) => PipelineState::Done {
                outcome: Err(PipelineError::IoError { message: msg }),
            },
        },
        (PipelineState::Staged, PipelineEvent::CompileSpawnFailed { cause }) => {
            PipelineState::CleanupPending {
                outcome: Ok(Verdict::CompileFailed { diagnostics: cause }),
            }
        },
        (PipelineState::Staged, PipelineEvent::CompileExited { success, stderr }) => {
            if success {
                PipelineState::Compiled
            } else {
                PipelineState::CleanupPending {
                    outcome: Ok(Verdict::CompileFailed { diagnostics: stderr }),
                }
            }
        },
        (PipelineState::Compiled, PipelineEvent::ArtifactSpawnFailed { cause }) => {
            PipelineState::CleanupPending { outcome: Ok(Verdict::RunFailed { cause }) }
        },
        (
            PipelineState::Compiled,
            PipelineEvent::ArtifactExited { success, stdout, stderr },
        ) => {
            if success {
                let v = validate(stdout.as_str(), expected);
                PipelineState::CleanupPending { outcome: Ok(v) }
            } else {
                PipelineState::CleanupPending {
                    outcome: Ok(Verdict::RunFailed { cause: stderr }),
                }
            }
        },
        (PipelineState::CleanupPending { outcome }, PipelineEvent::CleanupDone) => {
            PipelineState::Done { outcome }
        },
        (s, _) => s,
    }
}

/// The action the driver owes in each state; `None` when the run is over.
pub fn next_action(state: &PipelineState) -> (a: Option<PipelineAction>)
    ensures
        a == match state {
            PipelineState::Idle => Some(PipelineAction::StageSource),
            PipelineState::Staged => Some(PipelineAction::InvokeCompiler),
            PipelineState::Compiled => Some(PipelineAction::InvokeArtifact),
            PipelineState::CleanupPending { .. } => Some(PipelineAction::RemoveArtifacts),
            PipelineState::Done { .. } => None::<PipelineAction>,
        },
{
    match state {
        PipelineState::Idle => Some(PipelineAction::StageSource),
        PipelineState::Staged => Some(PipelineAction::InvokeCompiler),
        PipelineState::Compiled => Some(PipelineAction::InvokeArtifact),
        PipelineState::CleanupPending { .. } => Some(PipelineAction::RemoveArtifacts),
        PipelineState::Done { .. } => None,
    }
}

/// Resource safety of a run: the pipeline reaches `Done` only through the
/// cleanup step — except when staging itself failed, where nothing was
/// created — so no run ends with the scratch source or the artifact still
/// owed a removal. This holds of every exit path, success and each failure
/// branch alike.
pub proof fn lemma_done_only_after_cleanup(
    state: PipelineState,
    event: PipelineEvent,
    expected: Option<Seq<char>>,
    next: PipelineState,
)
    requires
        advance_rel(state, event, expected, next),
        next is Done,
        !(state is Done),
    ensures
        state is CleanupPending ==> event is CleanupDone,
        !(state is CleanupPending) ==> (state is Idle && event matches
            PipelineEvent::StageFinished { error: Some(_) }),
{
}

/// A finished run is terminal: no further event moves it, so reporting the
/// outcome twice is harmless.
pub proof fn lemma_done_terminal(
    state: PipelineState,
    event: PipelineEvent,
    expected: Option<Seq<char>>,
    next: PipelineState,
)
    requires
        advance_rel(state, event, expected, next),
        state is Done,
    ensures
        next == state,
{
}

/// The fixed path of the compiled artifact, next to the scratch source;
/// both are transient.
pub fn artifact_file() -> (r: String)
    ensures
        r@ == "rusttutor_temp"@,
{
    "rusttutor_temp".to_owned()
}

} // verus!
