//! The lifecycle state machine of a supervised process.
//!
//! States advance along `Unknown -> Created -> Running -> Stopped ->
//! Deleted`, with `Running <-> Paused` as the only side path. Every
//! mutation of a process's state in this crate goes through
//! [`next_state`], so the edge discipline is provable once and holds for
//! all callers.

use vstd::prelude::*;
use crate::error::Error;

verus! {

/// Lifecycle states of a supervised container process.
///
/// `Pausing` exists so that the external status vocabulary can be reported
/// in full; the engine itself never enters it (pause is unimplemented).
#[derive(Debug, Clone, Copy, PartialEq, Eq, Structural)]
pub enum ProcessState {
    Unknown,
    Created,
    Running,
    Pausing,
    Paused,
    Stopped,
    Deleted,
}

/// The status vocabulary reported to the protocol layer.
#[derive(Debug, Clone, Copy, PartialEq, Eq, Structural)]
pub enum TaskStatus {
    Unknown,
    Created,
    Running,
    Stopped,
    Paused,
    Pausing,
}

/// The events that may move a process along its lifecycle.
#[derive(Debug, Clone, Copy, PartialEq, Eq, Structural)]
pub enum LifecycleEvent {
    /// Creation of the process completed successfully.
    CreateDone,
    /// The runtime's start command succeeded.
    StartDone,
    /// The process's exit was observed by the monitor.
    ExitObserved,
    /// The runtime's delete command succeeded.
    DeleteDone,
    /// The runtime's pause command succeeded.
    PauseDone,
    /// The runtime's resume command succeeded.
    ResumeDone,
}

/// The edges of the lifecycle graph: the only permitted state changes.
pub open spec fn lifecycle_edge(from: ProcessState, to: ProcessState) -> bool {
    ||| (from is Unknown && to is Created)
    ||| (from is Created && to is Running)
    ||| (from is Running && to is Stopped)
    ||| (from is Running && to is Paused)
    ||| (from is Paused && to is Running)
    ||| (from is Stopped && to is Deleted)
}

/// Where an event takes a state. Events that are not permitted in the
/// current state leave it unchanged; the mutating operations of the
/// engine reject them before ever applying the event.
pub open spec fn next_state(s: ProcessState, e: LifecycleEvent) -> ProcessState {
    match e {
        LifecycleEvent::CreateDone => if s is Unknown { ProcessState::Created } else { s },
        LifecycleEvent::StartDone => if s is Created { ProcessState::Running } else { s },
        LifecycleEvent::ExitObserved => if s is Running { ProcessState::Stopped } else { s },
        LifecycleEvent::DeleteDone => if s is Stopped { ProcessState::Deleted } else { s },
        LifecycleEvent::PauseDone => if s is Running { ProcessState::Paused } else { s },
        LifecycleEvent::ResumeDone => if s is Paused { ProcessState::Running } else { s },
    }
}

/// True when the event actually moves the state.
pub open spec fn event_enabled(s: ProcessState, e: LifecycleEvent) -> bool {
    next_state(s, e) != s
}

/// State transitions only follow the lifecycle edges: whatever event is
/// applied to whatever state, either nothing moves or the move is one of
/// the permitted edges. In particular no event reaches `Running` without
/// passing `Created`, and no event leaves `Deleted`.
pub proof fn lemma_transitions_follow_edges(s: ProcessState, e: LifecycleEvent)
    ensures
        next_state(s, e) == s || lifecycle_edge(s, next_state(s, e)),
        s is Deleted ==> next_state(s, e) == s,
{
}

/// Applying an event, exec-mode twin of [`next_state`].
pub fn apply_event(s: ProcessState, e: LifecycleEvent) -> (r: ProcessState)
    ensures
        r == next_state(s, e),
{
    match e {
        LifecycleEvent::CreateDone => if matches!(s, ProcessState::Unknown) { ProcessState::Created } else { s },
        LifecycleEvent::StartDone => if matches!(s, ProcessState::Created) { ProcessState::Running } else { s },
        LifecycleEvent::ExitObserved => if matches!(s, ProcessState::Running) { ProcessState::Stopped } else { s },
        LifecycleEvent::DeleteDone => if matches!(s, ProcessState::Stopped) { ProcessState::Deleted } else { s },
        LifecycleEvent::PauseDone => if matches!(s, ProcessState::Running) { ProcessState::Paused } else { s },
        LifecycleEvent::ResumeDone => if matches!(s, ProcessState::Paused) { ProcessState::Running } else { s },
    }
}

/// The mapping from internal lifecycle states to the external status
/// vocabulary: `Stopped` and `Deleted` both report as stopped, everything
/// else reports itself.
pub open spec fn spec_external_status(s: ProcessState) -> TaskStatus {
    match s {
        ProcessState::Unknown => TaskStatus::Unknown,
        ProcessState::Created => TaskStatus::Created,
        ProcessState::Running => TaskStatus::Running,
        ProcessState::Pausing => TaskStatus::Pausing,
        ProcessState::Paused => TaskStatus::Paused,
        ProcessState::Stopped => TaskStatus::Stopped,
        ProcessState::Deleted => TaskStatus::Stopped,
    }
}

/// Report a state in the external status vocabulary.
pub fn external_status(s: ProcessState) -> (r: TaskStatus)
    ensures
        r == spec_external_status(s),
{
    match s {
        ProcessState::Unknown => TaskStatus::Unknown,
        ProcessState::Created => TaskStatus::Created,
        ProcessState::Running => TaskStatus::Running,
        ProcessState::Pausing => TaskStatus::Pausing,
        ProcessState::Paused => TaskStatus::Paused,
        ProcessState::Stopped => TaskStatus::Stopped,
        ProcessState::Deleted => TaskStatus::Stopped,
    }
}

/// Querying the state of a process that was never created is a lookup
/// failure; any other state is returned as it stands.
pub fn queryable_state(s: ProcessState) -> (r: Result<ProcessState, Error>)
    ensures
        s is Unknown <==> r is Err,
        r matches Err(e) ==> e is NotFound,
        r matches Ok(q) ==> q == s,
{
    if matches!(s, ProcessState::Unknown) {
        Err(Error::NotFound)
    } else {
        Ok(s)
    }
}

} // verus!
