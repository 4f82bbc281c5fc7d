//! Creating the game's process and releasing its two native handles.
//!
//! The process is created suspended. In direct mode its main thread is
//! resumed at once; in attach mode it is left suspended for the injector,
//! which is handed the process id. Either way the thread handle and then the
//! process handle are each closed exactly once before the launch reports.

use vstd::prelude::*;
use crate::text::concat;

verus! {

/// Whether the launcher resumes the new process itself.
#[derive(PartialEq, Eq, Structural, Clone, Copy, Debug)]
pub enum LaunchMode {
    /// Resume the main thread at once.
    Direct,
    /// Leave the process suspended for an injector that attaches to it.
    Attach,
}

/// Why a launch failed.
pub enum LaunchFailure {
    /// The process could not be created; the operating system's message.
    CreateFailed(String),
    /// The process was created but reported no id.
    NoProcessId,
    /// The main thread could not be resumed; the operating system's message.
    ResumeFailed(String),
}

/// The text of a launch failure.
pub open spec fn launch_failure_text(f: LaunchFailure) -> Seq<char> {
    match f {
        LaunchFailure::CreateFailed(m) => "Failed to create process: "@ + m@,
        LaunchFailure::NoProcessId => "Failed to get process id"@,
        LaunchFailure::ResumeFailed(m) => "Failed to resume process: "@ + m@,
    }
}

impl LaunchFailure {
    /// The failure as a message.
    pub fn message(&self) -> (r: String)
        ensures
            r@ == launch_failure_text(*self),
    {
        match self {
            LaunchFailure::CreateFailed(m) => concat("Failed to create process: ", m.as_str()),
            LaunchFailure::NoProcessId => String::from_str("Failed to get process id"),
            LaunchFailure::ResumeFailed(m) => concat("Failed to resume process: ", m.as_str()),
        }
    }
}

/// What the operating system answered to the last action.
pub enum ProcessEvent {
    Created { pid: u32 },
    CreateFailed(String),
    Resumed,
    ResumeFailed(String),
    HandleClosed,
}

/// What to do next.
pub enum ProcessAction {
    /// Resume the main thread of the new process.
    Resume,
    /// Close the handle of the main thread.
    CloseThread,
    /// Close the handle of the process.
    CloseProcess,
    /// Report: the process id, or why the launch failed.
    Finish(Result<u32, LaunchFailure>),
    /// The event did not fit the state; nothing to do.
    Ignore,
}

/// Where a launch stands.
pub enum LauncherState {
    /// The process is being created.
    Creating { mode: LaunchMode },
    /// The main thread of process `pid` is being resumed.
    Resuming { pid: u32 },
    /// The thread handle is being closed; then the launch reports `result`.
    ClosingThread { result: Result<u32, LaunchFailure> },
    /// The process handle is being closed; then the launch reports `result`.
    ClosingProcess { result: Result<u32, LaunchFailure> },
    /// The launch has reported; `created` says whether a process was made.
    Finished { created: bool },
}

/// The transition on one event.
pub open spec fn launcher_step(s: LauncherState, e: ProcessEvent) -> (LauncherState, ProcessAction) {
    match (s, e) {
        (LauncherState::Creating { mode }, ProcessEvent::Created { pid }) => {
            if pid == 0 {
                (
                    LauncherState::ClosingThread { result: Err(LaunchFailure::NoProcessId) },
                    ProcessAction::CloseThread,
                )
            } else if mode == LaunchMode::Direct {
                (LauncherState::Resuming { pid }, ProcessAction::Resume)
            } else {
                (LauncherState::ClosingThread { result: Ok(pid) }, ProcessAction::CloseThread)
            }
        },
        (LauncherState::Creating { .. }, ProcessEvent::CreateFailed(m)) => (
            LauncherState::Finished { created: false },
            ProcessAction::Finish(Err(LaunchFailure::CreateFailed(m))),
        ),
        (LauncherState::Resuming { pid }, ProcessEvent::Resumed) => (
            LauncherState::ClosingThread { result: Ok(pid) },
            ProcessAction::CloseThread,
        ),
        (LauncherState::Resuming { .. }, ProcessEvent::ResumeFailed(m)) => (
            LauncherState::ClosingThread { result: Err(LaunchFailure::ResumeFailed(m)) },
            ProcessAction::CloseThread,
        ),
        (LauncherState::ClosingThread { result }, ProcessEvent::HandleClosed) => (
            LauncherState::ClosingProcess { result },
            ProcessAction::CloseProcess,
        ),
        (LauncherState::ClosingProcess { result }, ProcessEvent::HandleClosed) => (
            LauncherState::Finished { created: true },
            ProcessAction::Finish(result),
        ),
        (s, _) => (s, ProcessAction::Ignore),
    }
}

/// The first state of a launch.
pub fn start_launch(mode: LaunchMode) -> (r: LauncherState)
    ensures
        r == (LauncherState::Creating { mode }),
{
    LauncherState::Creating { mode }
}

/// Takes one event and says what to do next.
pub fn launcher_next(s: LauncherState, e: ProcessEvent) -> (r: (LauncherState, ProcessAction))
    ensures
        r == launcher_step(s, e),
{
    match (s, e) {
        (LauncherState::Creating { mode }, ProcessEvent::Created { pid }) => {
            if pid == 0 {
                (
                    LauncherState::ClosingThread { result: Err(LaunchFailure::NoProcessId) },
                    ProcessAction::CloseThread,
                )
            } else if mode == LaunchMode::Direct {
                (LauncherState::Resuming { pid }, ProcessAction::Resume)
            } else {
                (LauncherState::ClosingThread { result: Ok(pid) }, ProcessAction::CloseThread)
            }
        },
        (LauncherState::Creating { .. }, ProcessEvent::CreateFailed(m)) => (
            LauncherState::Finished { created: false },
            ProcessAction::Finish(Err(LaunchFailure::CreateFailed(m))),
        ),
        (LauncherState::Resuming { pid }, ProcessEvent::Resumed) => (
            LauncherState::ClosingThread { result: Ok(pid) },
            ProcessAction::CloseThread,
        ),
        (LauncherState::Resuming { .. }, ProcessEvent::ResumeFailed(m)) => (
            LauncherState::ClosingThread { result: Err(LaunchFailure::ResumeFailed(m)) },
            ProcessAction::CloseThread,
        ),
        (LauncherState::ClosingThread { result }, ProcessEvent::HandleClosed) => (
            LauncherState::ClosingProcess { result },
            ProcessAction::CloseProcess,
        ),
        (LauncherState::ClosingProcess { result }, ProcessEvent::HandleClosed) => (
            LauncherState::Finished { created: true },
            ProcessAction::Finish(result),
        ),
        (s, _) => (s, ProcessAction::Ignore),
    }
}

/// The states reached and actions taken on a sequence of events.
pub open spec fn launcher_run(s: LauncherState, events: Seq<ProcessEvent>) -> (
    LauncherState,
    Seq<ProcessAction>,
)
    decreases events.len(),
{
    if events.len() == 0 {
        (s, seq![])
    } else {
        let (s1, a) = launcher_step(s, events[0]);
        let (s2, rest) = launcher_run(s1, events.drop_first());
        (s2, seq![a] + rest)
    }
}

/// How many of `actions` are `CloseThread`.
pub open spec fn thread_closes(actions: Seq<ProcessAction>) -> nat
    decreases actions.len(),
{
    if actions.len() == 0 {
        0
    } else {
        (if actions[0] is CloseThread {
            1nat
        } else {
            0nat
        }) + thread_closes(actions.drop_first())
    }
}

/// How many of `actions` are `CloseProcess`.
pub open spec fn process_closes(actions: Seq<ProcessAction>) -> nat
    decreases actions.len(),
{
    if actions.len() == 0 {
        0
    } else {
        (if actions[0] is CloseProcess {
            1nat
        } else {
            0nat
        }) + process_closes(actions.drop_first())
    }
}

/// Whether the thread handle's release has been asked for in state `s`.
pub open spec fn thread_released(s: LauncherState) -> nat {
    match s {
        LauncherState::ClosingThread { .. } => 1,
        LauncherState::ClosingProcess { .. } => 1,
        LauncherState::Finished { created } => if created {
            1
        } else {
            0
        },
        _ => 0,
    }
}

/// Whether the process handle's release has been asked for in state `s`.
pub open spec fn process_released(s: LauncherState) -> nat {
    match s {
        LauncherState::ClosingProcess { .. } => 1,
        LauncherState::Finished { created } => if created {
            1
        } else {
            0
        },
        _ => 0,
    }
}

/// No process id held in `s` is zero.
pub open spec fn ids_nonzero(s: LauncherState) -> bool {
    match s {
        LauncherState::Resuming { pid } => pid != 0,
        LauncherState::ClosingThread { result } => result matches Ok(pid) ==> pid != 0,
        LauncherState::ClosingProcess { result } => result matches Ok(pid) ==> pid != 0,
        _ => true,
    }
}

proof fn lemma_run_counts(s: LauncherState, events: Seq<ProcessEvent>)
    requires
        ids_nonzero(s),
    ensures
        ({
            let (s2, acts) = launcher_run(s, events);
            &&& thread_released(s) + thread_closes(acts) == thread_released(s2)
            &&& process_released(s) + process_closes(acts) == process_released(s2)
            &&& ids_nonzero(s2)
            &&& forall|i: int| 0 <= i < acts.len() ==> (#[trigger] acts[i] matches ProcessAction::Finish(Ok(pid)) ==> pid != 0)
        }),
    decreases events.len(),
{
    if events.len() > 0 {
        let (s1, a) = launcher_step(s, events[0]);
        lemma_run_counts(s1, events.drop_first());
        let (s2, rest) = launcher_run(s1, events.drop_first());
        let acts = seq![a] + rest;
        assert(acts.drop_first() =~= rest);
        assert forall|i: int| 0 <= i < acts.len() implies (#[trigger] acts[i] matches ProcessAction::Finish(Ok(pid)) ==> pid != 0) by {
            if i > 0 {
                assert(acts[i] == rest[i - 1]);
            }
        }
    }
}

/// On every sequence of events, each native handle is closed at most once;
/// a launch that created a process and has reported closed each exactly
/// once; one that created none closed none; and a reported process id is
/// never zero.
pub proof fn lemma_handles_closed_once(mode: LaunchMode, events: Seq<ProcessEvent>)
    ensures
        ({
            let (s, acts) = launcher_run(LauncherState::Creating { mode }, events);
            &&& thread_closes(acts) <= 1
            &&& process_closes(acts) <= 1
            &&& s == (LauncherState::Finished { created: true }) ==> thread_closes(acts) == 1
                && process_closes(acts) == 1
            &&& s == (LauncherState::Finished { created: false }) ==> thread_closes(acts) == 0
                && process_closes(acts) == 0
            &&& forall|i: int| 0 <= i < acts.len() ==> (#[trigger] acts[i] matches ProcessAction::Finish(Ok(pid)) ==> pid != 0)
        }),
{
    lemma_run_counts(LauncherState::Creating { mode }, events);
}

} // verus!
