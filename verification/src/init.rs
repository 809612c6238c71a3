//! The lifecycle controller for one container's init process.
//!
//! Creation, start, kill and delete each split into two verified halves:
//! a command half that checks the state and renders the exact runtime
//! invocation, and an apply half that takes the raw outcome the embedder
//! observed and performs the state transition. The embedder executes the
//! invocation in between — concurrently with opening the stdin FIFO and
//! running the copy plan during creation — and may serialize callers with
//! one lock around the whole process value.
//!
//! Exit bookkeeping has a single source of truth: the monitor's
//! notification drives [`InitProcess::set_exited`], which alone records
//! status and timestamp and moves the state to stopped.
//! [`InitProcess::wait`] only consumes the one-shot creation receiver and
//! blocks until its signal; it changes no state.

use vstd::prelude::*;
use vstd::string::StringExecFns;
use crate::config::{CreateConfig, Options, StdioConfig};
use crate::digits::{parse_pid_bytes, spec_decimal};
use crate::error::Error;
use crate::fsio::read_file_bytes;
use crate::io::{one_writer_per_destination, plan_names_destinations, shared_writers_resolved, spec_child_stdio, ChildStdio, CopyPlan, ProcessIO};
use crate::monitor::{now_utc, oneshot_blocking_recv, oneshot_pair, oneshot_send, Timestamp};
use crate::options::{CreateOpts, KillOpts};
use crate::paths::{path_join, spec_path_join};
use crate::runc::{command_error, new_runc, spec_create_invocation, RawOutput, RuncClient, RuncCommand, spec_global_args};
use crate::state::{apply_event, next_state, queryable_state, LifecycleEvent, ProcessState};

verus! {

/// Everything the embedder must do to finish creating a process: spawn
/// the invocation, wire the child's stdio, open the stdin destination,
/// run the copy plan — the spawn and the opens concurrently, since the
/// runtime's own process must open the peer ends — and then hand the
/// outcome to [`InitProcess::create_finish`] together with the sender.
#[derive(Debug)]
pub struct CreatePlan {
    /// The create invocation to execute.
    pub cmd: RuncCommand,
    /// The descriptors the spawned process inherits.
    pub child: ChildStdio,
    /// The stdin destination FIFO to open write-only and non-blocking,
    /// when stdin was requested.
    pub stdin_fifo: Option<String>,
    /// The background copy tasks to spawn.
    pub copy: CopyPlan,
    /// The sender of the created signal, to pass back into
    /// [`InitProcess::create_finish`].
    pub created_tx: tokio::sync::oneshot::Sender<()>,
}

/// The state machine of one supervised init process.
#[derive(Debug)]
pub struct InitProcess {
    pub state: ProcessState,
    pub id: String,
    pub bundle: String,
    pub work_dir: String,
    pub rootfs: String,
    pub stdio: StdioConfig,
    /// The IO bundle, once creation prepared it.
    pub io: Option<ProcessIO>,
    /// The configured client for the external runtime.
    pub runtime: RuncClient,
    /// Exit status code, meaningful once the state reached stopped.
    pub status: i32,
    /// When the exit was observed, once it was.
    pub exited: Option<Timestamp>,
    /// Pid of the created process; zero until creation succeeds.
    pub pid: i64,
    /// The one-shot created-signal receiver, consumed by the first wait.
    pub wait_block: Option<tokio::sync::oneshot::Receiver<()>>,
    pub io_uid: u32,
    pub io_gid: u32,
    pub no_pivot_root: bool,
    pub no_new_keyring: bool,
}

impl InitProcess {
    /// The pid is zero exactly until the process was created, and
    /// positive from then on.
    pub open spec fn inv(self) -> bool {
        &&& self.pid >= 0
        &&& (self.state is Unknown ==> self.pid == 0)
        &&& (!(self.state is Unknown) ==> self.pid > 0)
    }

    /// Pid stability: under the invariant — which every operation of
    /// this type preserves — the pid is zero exactly while the process
    /// was never created, and positive for the whole life of the object
    /// afterwards. Each mutating operation's contract separately
    /// guarantees `final.pid == old.pid` except for the one successful
    /// creation, which sets it positive; so a pid observed after
    /// creation can never be a stale value of a different process.
    pub proof fn lemma_pid_stability(self)
        requires
            self.inv(),
        ensures
            self.state is Unknown <==> self.pid == 0,
            !(self.state is Unknown) ==> self.pid > 0,
    {
    }

    /// Whether the one-shot creation receiver is still unconsumed.
    pub open spec fn has_wait_receiver(self) -> bool {
        self.wait_block is Some
    }

    /// Build the controller for one container: the runtime client is
    /// configured for the container's namespace with JSON logging under
    /// the bundle, and the process starts in the unknown state with no
    /// pid.
    pub fn new(
        path: &str,
        work_dir: &str,
        namespace: &str,
        config: &CreateConfig,
        opts: &Options,
        rootfs: &str,
    ) -> (r: Result<InitProcess, Error>)
        ensures
            r matches Ok(p) ==> {
                &&& p.inv()
                &&& p.state is Unknown
                &&& p.pid == 0
                &&& p.status == 0
                &&& p.exited is None
                &&& !p.has_wait_receiver()
                &&& p.io is None
                &&& p.id@ == config.id@
                &&& p.bundle@ == config.bundle@
                &&& p.work_dir@ == work_dir@
                &&& p.rootfs@ == rootfs@
                &&& p.stdio.stdin@ == config.stdin@
                &&& p.stdio.stdout@ == config.stdout@
                &&& p.stdio.stderr@ == config.stderr@
                &&& p.stdio.terminal == config.terminal
                &&& p.io_uid == opts.io_uid
                &&& p.io_gid == opts.io_gid
                &&& p.no_pivot_root == opts.no_pivot_root
                &&& p.no_new_keyring == opts.no_new_keyring
                &&& p.runtime.command@ == opts.binary_name@
                &&& p.runtime.systemd_cgroup == opts.systemd_cgroup
            },
            r is Ok,
    {
        let root: Option<&str> = if opts.root.as_str().is_empty() {
            None
        } else {
            Some(opts.root.as_str())
        };
        let runtime = new_runc(
            root,
            path,
            namespace,
            opts.binary_name.as_str(),
            opts.systemd_cgroup,
        )?;
        Ok(InitProcess {
            state: ProcessState::Unknown,
            id: config.id.clone(),
            bundle: config.bundle.clone(),
            work_dir: work_dir.to_owned(),
            rootfs: rootfs.to_owned(),
            stdio: config.stdio(),
            io: None,
            runtime,
            status: 0,
            exited: None,
            pid: 0,
            wait_block: None,
            io_uid: opts.io_uid,
            io_gid: opts.io_gid,
            no_pivot_root: opts.no_pivot_root,
            no_new_keyring: opts.no_new_keyring,
        })
    }

    /// The pid file the runtime is asked to write during creation.
    pub fn pid_file_path(&self) -> (r: String)
        ensures
            r@ == spec_path_join(self.bundle@, "init.pid"@),
    {
        path_join(self.bundle.as_str(), "init.pid")
    }

    /// Prepare creation: only a process still unknown can be created,
    /// and only without a terminal. The IO bundle is built, the create
    /// invocation rendered with the pid-file and pivot options, the copy
    /// plan produced, and the one-shot created signal installed for the
    /// first waiter. The state stays unknown until the outcome is known.
    pub fn create_prepare(&mut self, config: &CreateConfig) -> (r: Result<CreatePlan, Error>)
        requires
            old(self).inv(),
        ensures
            final(self).inv(),
            final(self).state == old(self).state,
            final(self).pid == old(self).pid,
            r is Err ==> *final(self) == *old(self),
            !(old(self).state is Unknown) ==> (r matches Err(e) && e is AlreadyExists
                && *final(self) == *old(self)),
            (old(self).state is Unknown && config.terminal) ==> (r matches Err(e)
                && e is Unimplemented && *final(self) == *old(self)),
            r matches Ok(plan) ==> {
                &&& final(self).has_wait_receiver()
                &&& final(self).io is Some
                &&& plan.cmd.program@ == old(self).runtime.command@
                &&& exists|ba: Seq<char>, pa: Seq<char>|
                    plan.cmd.args.deep_view() == #[trigger] spec_create_invocation(
                        old(self).runtime,
                        ba,
                        Some(pa),
                        None,
                        false,
                        old(self).no_pivot_root,
                        false,
                        old(self).id@,
                    )
                &&& (plan.stdin_fifo is Some <==> config.stdin@.len() != 0)
                &&& (plan.stdin_fifo matches Some(f) ==> f@ == config.stdin@)
                &&& (final(self).io matches Some(b) && {
                    &&& plan.child == spec_child_stdio(b.io)
                    &&& plan_names_destinations(plan.copy, b.stdio)
                })
                &&& one_writer_per_destination(plan.copy.tasks@)
                &&& shared_writers_resolved(plan.copy.tasks@)
            },
            r is Err ==> final(self).state == old(self).state,
            r matches Err(e) ==> {
                &&& (e is AlreadyExists || e is Unimplemented || e is Sys || e is InvalidUri
                    || e is InvalidPath)
                &&& (old(self).state is Unknown ==> !(e is AlreadyExists))
            },
    {
        if !matches!(self.state, ProcessState::Unknown) {
            return Err(Error::AlreadyExists);
        }
        if config.terminal {
            return Err(Error::Unimplemented);
        }
        let stdio_copy = StdioConfig {
            stdin: self.stdio.stdin.clone(),
            stdout: self.stdio.stdout.clone(),
            stderr: self.stdio.stderr.clone(),
            terminal: self.stdio.terminal,
        };
        let mut proc_io = ProcessIO::new(self.id.as_str(), self.io_uid, self.io_gid, stdio_copy)?;
        let pid_file = self.pid_file_path();
        let opts = CreateOpts::new().pid_file(pid_file.as_str()).no_pivot(self.no_pivot_root);
        let cmd = match self.runtime.create(self.id.as_str(), self.bundle.as_str(), Some(&opts)) {
            Ok(cmd) => cmd,
            Err(e) => {
                return Err(e);
            },
        };
        proof {
            let (ba, pa, ca) = choose|ba: Seq<char>, pa: Option<Seq<char>>, ca: Option<
                Seq<char>,
            >|
                cmd.args.deep_view() == #[trigger] spec_create_invocation(
                    self.runtime,
                    ba,
                    pa,
                    ca,
                    opts.detach,
                    opts.no_pivot,
                    opts.no_new_keyring,
                    self.id@,
                ) && (pa is Some <==> opts.pid_file is Some) && (ca is Some
                    <==> opts.console_socket is Some);
            assert(ca is None);
            assert(cmd.args.deep_view() == spec_create_invocation(
                self.runtime,
                ba,
                Some(pa->0),
                None,
                false,
                self.no_pivot_root,
                false,
                self.id@,
            ));
        }
        let child = proc_io.child_stdio();
        let copy = match proc_io.copy_pipes() {
            Ok(plan) => plan,
            Err(e) => {
                return Err(e);
            },
        };
        let stdin_fifo = if !config.stdin.as_str().is_empty() {
            Some(config.stdin.clone())
        } else {
            None
        };
        let pair = oneshot_pair::<()>();
        let created_tx = pair.0;
        self.wait_block = Some(pair.1);
        self.io = Some(proc_io);
        Ok(CreatePlan { cmd, child, stdin_fifo, copy, created_tx })
    }

    /// Finish creation with the outcome the embedder observed. On
    /// success the created signal is sent, the pid is read back from the
    /// pid file — its content is decimal text — and the state moves to
    /// created. Any failure leaves the state and pid untouched, so a
    /// failed creation never shows a stale pid.
    pub fn create_finish(
        &mut self,
        created_tx: tokio::sync::oneshot::Sender<()>,
        outcome: &RawOutput,
    ) -> (r: Result<(), Error>)
        requires
            old(self).inv(),
        ensures
            final(self).inv(),
            r is Err ==> *final(self) == *old(self),
            !(old(self).state is Unknown) ==> (r matches Err(e) && e is AlreadyExists),
            (old(self).state is Unknown && !outcome.success) ==> (r matches Err(e)
                && e.is_command_failure()),
            (old(self).state is Unknown && !outcome.success && !outcome.spawn_failed
                && !outcome.timed_out) ==> (r matches Err(e) && (e matches Error::CommandFailed {
                status,
                stdout,
                stderr,
            } && status == outcome.status && stdout@ == outcome.stdout@ && stderr@
                == outcome.stderr@)),
            r is Ok ==> {
                &&& old(self).state is Unknown
                &&& outcome.success
                &&& final(self).state == next_state(old(self).state, LifecycleEvent::CreateDone)
                &&& final(self).state is Created
                &&& final(self).pid > 0
            },
            final(self).id == old(self).id,
            final(self).bundle == old(self).bundle,
            final(self).stdio == old(self).stdio,
            final(self).status == old(self).status,
            final(self).exited == old(self).exited,
            r matches Err(e) ==> e is AlreadyExists || e.is_command_failure() || e is Sys
                || e is MalformedPidFile,
    {
        if !matches!(self.state, ProcessState::Unknown) {
            return Err(Error::AlreadyExists);
        }
        if !outcome.success {
            return Err(command_error(outcome));
        }
        let _ = oneshot_send(created_tx, ());
        let pid_file = self.pid_file_path();
        let bytes = match read_file_bytes(pid_file.as_str()) {
            Ok(bytes) => bytes,
            Err(e) => {
                return Err(e);
            },
        };
        let pid = match parse_pid_bytes(&bytes) {
            Ok(pid) => pid,
            Err(e) => {
                return Err(e);
            },
        };
        if pid == 0 {
            return Err(Error::MalformedPidFile);
        }
        self.pid = pid;
        self.state = apply_event(self.state, LifecycleEvent::CreateDone);
        Ok(())
    }

    /// Render the start invocation; only a created process can be
    /// started.
    pub fn start_command(&self) -> (r: Result<RuncCommand, Error>)
        ensures
            r is Ok <==> self.state is Created,
            r matches Err(e) ==> e is NotFound,
            r matches Ok(cmd) ==> cmd.program@ == self.runtime.command@
                && cmd.args.deep_view() == spec_global_args(self.runtime) + seq![
                "start"@,
                self.id@,
            ],
    {
        if matches!(self.state, ProcessState::Created) {
            Ok(self.runtime.start(self.id.as_str()))
        } else {
            Err(Error::NotFound)
        }
    }

    /// Apply the outcome of the start invocation: success moves a
    /// created process to running; failure changes nothing.
    pub fn start_apply(&mut self, outcome: &RawOutput) -> (r: Result<(), Error>)
        requires
            old(self).inv(),
        ensures
            final(self).inv(),
            final(self).pid == old(self).pid,
            r is Err ==> *final(self) == *old(self),
            !(old(self).state is Created) ==> (r matches Err(e) && e is NotFound),
            (old(self).state is Created && !outcome.success) ==> (r matches Err(e)
                && e.is_command_failure()),
            r is Ok ==> {
                &&& old(self).state is Created
                &&& outcome.success
                &&& final(self).state == next_state(old(self).state, LifecycleEvent::StartDone)
                &&& final(self).state is Running
            },
            final(self).status == old(self).status,
            final(self).exited == old(self).exited,
            final(self).has_wait_receiver() == old(self).has_wait_receiver(),
    {
        if !matches!(self.state, ProcessState::Created) {
            return Err(Error::NotFound);
        }
        if !outcome.success {
            return Err(command_error(outcome));
        }
        self.state = apply_event(self.state, LifecycleEvent::StartDone);
        Ok(())
    }

    /// Render the kill invocation; a signal can be delivered while the
    /// process exists and is not yet stopped or deleted. Killing itself
    /// changes no state: only the observed exit does, through
    /// [`InitProcess::set_exited`].
    pub fn kill_command(&self, sig: u32, all: bool) -> (r: Result<RuncCommand, Error>)
        ensures
            r is Ok <==> (self.state is Created || self.state is Running
                || self.state is Pausing || self.state is Paused),
            r matches Err(e) ==> e is NotFound,
            r matches Ok(cmd) ==> cmd.program@ == self.runtime.command@
                && cmd.args.deep_view() == spec_global_args(self.runtime) + seq!["kill"@] + (
            if all {
                seq!["--all"@]
            } else {
                Seq::empty()
            }) + seq![self.id@, spec_decimal(sig as nat)],
    {
        match self.state {
            ProcessState::Created | ProcessState::Running | ProcessState::Pausing
                | ProcessState::Paused => {
                let opts = KillOpts::new().all(all);
                Ok(self.runtime.kill(self.id.as_str(), sig, Some(&opts)))
            },
            _ => Err(Error::NotFound),
        }
    }

    /// Render the delete invocation; only a stopped process can be
    /// deleted.
    pub fn delete_command(&self) -> (r: Result<RuncCommand, Error>)
        ensures
            r is Ok <==> self.state is Stopped,
            r matches Err(e) ==> e is NotFound,
            r matches Ok(cmd) ==> cmd.program@ == self.runtime.command@
                && cmd.args.deep_view() == spec_global_args(self.runtime) + seq![
                "delete"@,
                self.id@,
            ],
    {
        if matches!(self.state, ProcessState::Stopped) {
            Ok(self.runtime.delete(self.id.as_str(), None))
        } else {
            Err(Error::NotFound)
        }
    }

    /// Apply the outcome of the delete invocation: success moves a
    /// stopped process to deleted, the terminal state.
    pub fn delete_apply(&mut self, outcome: &RawOutput) -> (r: Result<(), Error>)
        requires
            old(self).inv(),
        ensures
            final(self).inv(),
            final(self).pid == old(self).pid,
            r is Err ==> *final(self) == *old(self),
            !(old(self).state is Stopped) ==> (r matches Err(e) && e is NotFound),
            (old(self).state is Stopped && !outcome.success) ==> (r matches Err(e)
                && e.is_command_failure()),
            r is Ok ==> {
                &&& old(self).state is Stopped
                &&& outcome.success
                &&& final(self).state == next_state(old(self).state, LifecycleEvent::DeleteDone)
                &&& final(self).state is Deleted
            },
            final(self).status == old(self).status,
            final(self).exited == old(self).exited,
    {
        if !matches!(self.state, ProcessState::Stopped) {
            return Err(Error::NotFound);
        }
        if !outcome.success {
            return Err(command_error(outcome));
        }
        self.state = apply_event(self.state, LifecycleEvent::DeleteDone);
        Ok(())
    }

    /// Record the observed exit: the one place where status and
    /// timestamp are written and the state moves to stopped. Only a
    /// running process moves; a later or duplicate observation changes
    /// nothing, so the first observation stays authoritative.
    pub fn set_exited(&mut self, status: i32)
        requires
            old(self).inv(),
        ensures
            final(self).inv(),
            final(self).state == next_state(old(self).state, LifecycleEvent::ExitObserved),
            final(self).pid == old(self).pid,
            old(self).state is Running ==> final(self).state is Stopped && final(self).status
                == status && final(self).exited is Some,
            !(old(self).state is Running) ==> *final(self) == *old(self),
    {
        if matches!(self.state, ProcessState::Running) {
            let ts = now_utc();
            self.state = apply_event(self.state, LifecycleEvent::ExitObserved);
            self.status = status;
            self.exited = Some(ts);
        }
    }

    /// Wait for the created signal. The receiver is consumed by the
    /// first call: a second wait without a fresh creation fails as
    /// not-found instead of hanging. A sender dropped without sending —
    /// creation failed before its send — is a broken pipe. No state
    /// changes here; exit bookkeeping belongs to
    /// [`InitProcess::set_exited`] alone. The blocking receive must run
    /// on a synchronous thread: called from inside an asynchronous
    /// executor, the underlying channel receive panics.
    pub fn wait(&mut self) -> (r: Result<(), Error>)
        ensures
            !final(self).has_wait_receiver(),
            !old(self).has_wait_receiver() ==> (r matches Err(e) && e is NotFound),
            final(self).state == old(self).state,
            final(self).pid == old(self).pid,
            final(self).status == old(self).status,
            final(self).exited == old(self).exited,
            r matches Err(e) ==> e is NotFound || e is BrokenPipe,
    {
        let rx = match self.wait_block.take() {
            Some(rx) => rx,
            None => {
                return Err(Error::NotFound);
            },
        };
        match oneshot_blocking_recv(rx) {
            Ok(_) => Ok(()),
            Err(_) => Err(Error::BrokenPipe),
        }
    }

    /// Pid of the created process; zero while none was created.
    pub fn pid(&self) -> (r: i64)
        ensures
            r == self.pid,
    {
        self.pid
    }

    /// The recorded exit status.
    pub fn exit_status(&self) -> (r: i32)
        ensures
            r == self.status,
    {
        self.status
    }

    /// When the exit was observed, if it was.
    pub fn exited_at(&self) -> (r: Option<Timestamp>)
        ensures
            r == self.exited,
    {
        self.exited
    }

    /// The stdio destinations the process was created with.
    pub fn stdio(&self) -> (r: StdioConfig)
        ensures
            r.stdin@ == self.stdio.stdin@,
            r.stdout@ == self.stdio.stdout@,
            r.stderr@ == self.stdio.stderr@,
            r.terminal == self.stdio.terminal,
    {
        StdioConfig {
            stdin: self.stdio.stdin.clone(),
            stdout: self.stdio.stdout.clone(),
            stderr: self.stdio.stderr.clone(),
            terminal: self.stdio.terminal,
        }
    }

    /// The container id this process belongs to.
    pub fn id(&self) -> (r: String)
        ensures
            r@ == self.id@,
    {
        self.id.clone()
    }

    /// The current lifecycle state; asking before creation is a lookup
    /// failure.
    pub fn state(&self) -> (r: Result<ProcessState, Error>)
        ensures
            self.state is Unknown <==> r is Err,
            r matches Err(e) ==> e is NotFound,
            r matches Ok(s) ==> s == self.state,
    {
        queryable_state(self.state)
    }

    /// Pausing is a recognized but unimplemented operation.
    pub fn pause(&mut self) -> (r: Result<(), Error>)
        ensures
            *final(self) == *old(self),
            r matches Err(e) && e is Unimplemented,
    {
        Err(Error::Unimplemented)
    }

    /// Resuming is a recognized but unimplemented operation.
    pub fn resume(&mut self) -> (r: Result<(), Error>)
        ensures
            *final(self) == *old(self),
            r matches Err(e) && e is Unimplemented,
    {
        Err(Error::Unimplemented)
    }

    /// Resource updates are a recognized but unimplemented operation.
    pub fn update(&mut self) -> (r: Result<(), Error>)
        ensures
            *final(self) == *old(self),
            r matches Err(e) && e is Unimplemented,
    {
        Err(Error::Unimplemented)
    }

    /// Additional exec'd processes are a recognized but unimplemented
    /// operation.
    pub fn exec(&self) -> (r: Result<(), Error>)
        ensures
            r matches Err(e) && e is Unimplemented,
    {
        Err(Error::Unimplemented)
    }
}

} // verus!
