//! Exit notification: one value, one producer, one consumer.
//!
//! The embedder spawns the runtime invocation and, when the process
//! terminates, publishes a single [`Exit`] on a one-shot channel. Both
//! halves of the channel are affine — sending consumes the sender,
//! receiving consumes the receiver — so the channel can deliver at most
//! one notification by construction, and a second wait is impossible
//! without a fresh channel.

use vstd::prelude::*;
use crate::error::Error;

verus! {

/// A point in time: seconds of the unix epoch plus subsecond
/// nanoseconds.
#[derive(Debug, Clone, Copy, PartialEq, Eq, Structural)]
pub struct Timestamp {
    pub seconds: i64,
    pub nanos: u32,
}

/// One observed process exit.
#[derive(Debug, Clone, Copy, PartialEq, Eq, Structural)]
pub struct Exit {
    /// When the exit was observed.
    pub ts: Timestamp,
    /// Pid of the process that exited.
    pub pid: u32,
    /// Its exit status code.
    pub status: i32,
}

#[verifier::external_type_specification]
#[verifier::external_body]
#[verifier::reject_recursive_types(T)]
pub struct ExSender<T>(tokio::sync::oneshot::Sender<T>);

#[verifier::external_type_specification]
#[verifier::external_body]
#[verifier::reject_recursive_types(T)]
pub struct ExReceiver<T>(tokio::sync::oneshot::Receiver<T>);

#[verifier::external_type_specification]
#[verifier::external_body]
pub struct ExRecvError(tokio::sync::oneshot::error::RecvError);

/// Relies on tokio::sync::oneshot::channel: a fresh connected one-shot
/// pair.
#[verifier::external_body]
pub fn oneshot_pair<T>() -> (r: (
    tokio::sync::oneshot::Sender<T>,
    tokio::sync::oneshot::Receiver<T>,
)) {
    tokio::sync::oneshot::channel()
}

/// Relies on tokio::sync::oneshot::Sender::send: consumes the sender, so
/// at most one value ever crosses the channel; the value comes back
/// exactly when the receiver is already gone.
#[verifier::external_body]
pub(crate) fn oneshot_send<T>(tx: tokio::sync::oneshot::Sender<T>, value: T) -> (r: Result<(), T>)
    ensures
        r matches Err(v) ==> v == value,
{
    tx.send(value)
}

/// Relies on tokio::sync::oneshot::Receiver::blocking_recv: blocks the
/// calling thread until the value or the sender's drop arrives. The
/// embedder must call this from synchronous context only; inside an
/// asynchronous executor the underlying call panics.
#[verifier::external_body]
pub(crate) fn oneshot_blocking_recv<T>(rx: tokio::sync::oneshot::Receiver<T>) -> (r: Result<
    T,
    (),
>) {
    rx.blocking_recv().map_err(|_| ())
}

/// Relies on chrono::Utc::now: the current wall-clock time. Subsecond
/// nanoseconds stay below two seconds' worth even across a leap second.
#[verifier::external_body]
pub(crate) fn now_utc() -> (r: Timestamp)
    ensures
        r.nanos < 2000000000,
{
    let t = chrono::Utc::now();
    Timestamp { seconds: t.timestamp(), nanos: t.timestamp_subsec_nanos() }
}

/// The monitor through which process exits are published and awaited.
///
/// The embedder's spawning task calls [`DefaultMonitor::notify`] once
/// the runtime process has terminated; whoever holds the receiver calls
/// [`DefaultMonitor::wait`]. The two sides may run concurrently: the
/// channel itself synchronizes them.
#[derive(Debug, Clone, Copy, PartialEq, Eq, Structural)]
pub struct DefaultMonitor {
}

impl DefaultMonitor {
    pub fn new() -> (r: DefaultMonitor) {
        DefaultMonitor {  }
    }

    /// Publish the exit to the single waiter. A receiver that was
    /// dropped first means the caller lost interest: that is reported
    /// as a connection-refused failure, never as a crash.
    pub fn notify(&self, tx: tokio::sync::oneshot::Sender<Exit>, exit: Exit) -> (r: Result<
        (),
        Error,
    >)
        ensures
            r matches Err(e) ==> e is ConnectionRefused,
    {
        match oneshot_send(tx, exit) {
            Ok(_) => Ok(()),
            Err(_) => Err(Error::ConnectionRefused),
        }
    }

    /// Wait for the single exit notification. A sender dropped without
    /// sending — the spawn failed before reaching its send — surfaces
    /// as a broken pipe. Must run on a synchronous thread: called from
    /// inside an asynchronous executor, the underlying channel receive
    /// panics.
    pub fn wait(&self, rx: tokio::sync::oneshot::Receiver<Exit>) -> (r: Result<Exit, Error>)
        ensures
            r matches Err(e) ==> e is BrokenPipe,
    {
        match oneshot_blocking_recv(rx) {
            Ok(exit) => Ok(exit),
            Err(_) => Err(Error::BrokenPipe),
        }
    }
}

} // verus!
