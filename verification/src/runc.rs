//! The client for the external low-level container runtime.
//!
//! The client itself never spawns anything: it renders each lifecycle
//! operation into the exact command invocation — program plus argument
//! list — that the embedder executes, and interprets the raw outcome of
//! such an execution back into a response or failure. Both directions
//! carry full contracts; only the execution in between is outside work.

use vstd::prelude::*;
use vstd::string::StringExecFns;
use crate::digits::{decimal_string, spec_decimal};
use crate::error::Error;
use crate::options::{abs_arg, spec_create_args, CreateOpts, DeleteOpts, KillOpts};
use crate::paths::{path_join, spec_path_join};

verus! {

/// Log format the runtime is asked to use.
#[derive(Debug, Clone, Copy, PartialEq, Eq, Structural)]
pub enum LogFormat {
    Json,
    Text,
}

/// The argument text of a log format.
pub open spec fn spec_log_format_arg(f: LogFormat) -> Seq<char> {
    match f {
        LogFormat::Json => "json"@,
        LogFormat::Text => "text"@,
    }
}

/// Version information reported by the runtime binary.
#[derive(Debug, Clone)]
pub struct Version {
    pub runc_version: Option<String>,
    pub spec_version: Option<String>,
    pub commit: Option<String>,
}

/// Builder for a runtime client.
#[derive(Debug, Clone)]
pub struct RuncConfig {
    pub command: Option<String>,
    pub root: Option<String>,
    pub debug: bool,
    pub log: Option<String>,
    pub log_format: Option<LogFormat>,
    pub systemd_cgroup: bool,
    /// `Some(b)` forces rootless on or off; `None` after
    /// [`RuncConfig::rootless_auto`] lets the runtime decide.
    pub rootless: Option<bool>,
    pub set_pgid: bool,
    pub timeout_ms: Option<u64>,
}

/// The command timeout used when none is configured.
pub const DEFAULT_TIMEOUT_MS: u64 = 5000;

impl RuncConfig {
    /// Nothing configured.
    pub fn new() -> (r: RuncConfig)
        ensures
            r.command is None,
            r.root is None,
            !r.debug,
            r.log is None,
            r.log_format is None,
            !r.systemd_cgroup,
            r.rootless is None,
            !r.set_pgid,
            r.timeout_ms is None,
    {
        RuncConfig {
            command: None,
            root: None,
            debug: false,
            log: None,
            log_format: None,
            systemd_cgroup: false,
            rootless: None,
            set_pgid: false,
            timeout_ms: None,
        }
    }

    /// Path of the runtime binary to drive.
    pub fn command(self, command: &str) -> (r: RuncConfig)
        ensures
            r.command matches Some(c) && c@ == command@,
            r == (RuncConfig { command: r.command, ..self }),
    {
        RuncConfig { command: Some(command.to_owned()), ..self }
    }

    /// Root directory for the runtime's state.
    pub fn root(self, root: &str) -> (r: RuncConfig)
        ensures
            r.root matches Some(c) && c@ == root@,
            r == (RuncConfig { root: r.root, ..self }),
    {
        RuncConfig { root: Some(root.to_owned()), ..self }
    }

    pub fn debug(self, debug: bool) -> (r: RuncConfig)
        ensures
            r == (RuncConfig { debug, ..self }),
    {
        RuncConfig { debug, ..self }
    }

    /// Path of the runtime's log file.
    pub fn log(self, log: &str) -> (r: RuncConfig)
        ensures
            r.log matches Some(c) && c@ == log@,
            r == (RuncConfig { log: r.log, ..self }),
    {
        RuncConfig { log: Some(log.to_owned()), ..self }
    }

    pub fn log_format(self, log_format: LogFormat) -> (r: RuncConfig)
        ensures
            r == (RuncConfig { log_format: Some(log_format), ..self }),
    {
        RuncConfig { log_format: Some(log_format), ..self }
    }

    pub fn log_format_json(self) -> (r: RuncConfig)
        ensures
            r == (RuncConfig { log_format: Some(LogFormat::Json), ..self }),
    {
        RuncConfig { log_format: Some(LogFormat::Json), ..self }
    }

    pub fn log_format_text(self) -> (r: RuncConfig)
        ensures
            r == (RuncConfig { log_format: Some(LogFormat::Text), ..self }),
    {
        RuncConfig { log_format: Some(LogFormat::Text), ..self }
    }

    pub fn systemd_cgroup(self, systemd_cgroup: bool) -> (r: RuncConfig)
        ensures
            r == (RuncConfig { systemd_cgroup, ..self }),
    {
        RuncConfig { systemd_cgroup, ..self }
    }

    pub fn rootless(self, rootless: bool) -> (r: RuncConfig)
        ensures
            r == (RuncConfig { rootless: Some(rootless), ..self }),
    {
        RuncConfig { rootless: Some(rootless), ..self }
    }

    pub fn set_pgid(self, set_pgid: bool) -> (r: RuncConfig)
        ensures
            r == (RuncConfig { set_pgid, ..self }),
    {
        RuncConfig { set_pgid, ..self }
    }

    /// Let the runtime decide rootless mode by itself.
    pub fn rootless_auto(self) -> (r: RuncConfig)
        ensures
            r == (RuncConfig { rootless: None, ..self }),
    {
        RuncConfig { rootless: None, ..self }
    }

    pub fn timeout(self, millis: u64) -> (r: RuncConfig)
        ensures
            r == (RuncConfig { timeout_ms: Some(millis), ..self }),
    {
        RuncConfig { timeout_ms: Some(millis), ..self }
    }

    /// Finish the builder into a client. The binary defaults to `runc`;
    /// a missing timeout gets the default.
    pub fn build(self) -> (r: Result<RuncClient, Error>)
        ensures
            r matches Ok(c) ==> {
                &&& (match self.command {
                    Some(cmd) => c.command@ == cmd@,
                    None => c.command@ == "runc"@,
                })
                &&& c.root == self.root
                &&& c.debug == self.debug
                &&& c.log == self.log
                &&& c.log_format == self.log_format
                &&& c.systemd_cgroup == self.systemd_cgroup
                &&& c.rootless == self.rootless
                &&& (match self.timeout_ms {
                    Some(t) => c.timeout_ms == t,
                    None => c.timeout_ms == DEFAULT_TIMEOUT_MS,
                })
            },
            r is Ok,
    {
        let command = match self.command {
            Some(cmd) => cmd,
            None => "runc".to_owned(),
        };
        let timeout_ms = match self.timeout_ms {
            Some(t) => t,
            None => DEFAULT_TIMEOUT_MS,
        };
        Ok(RuncClient {
            command,
            root: self.root,
            debug: self.debug,
            log: self.log,
            log_format: self.log_format,
            systemd_cgroup: self.systemd_cgroup,
            rootless: self.rootless,
            timeout_ms,
        })
    }

    /// Finish the builder into a client for asynchronous embedding.
    pub fn build_async(self) -> (r: Result<RuncAsyncClient, Error>)
        ensures
            r matches Ok(c) ==> {
                &&& (match self.command {
                    Some(cmd) => c.client.command@ == cmd@,
                    None => c.client.command@ == "runc"@,
                })
                &&& c.client.root == self.root
                &&& c.client.systemd_cgroup == self.systemd_cgroup
                &&& c.client.log == self.log
                &&& c.client.log_format == self.log_format
            },
            r is Ok,
    {
        let client = self.build()?;
        Ok(RuncAsyncClient { client })
    }
}

/// One prepared invocation of the runtime binary: what the embedder
/// spawns.
#[derive(Debug, Clone)]
pub struct RuncCommand {
    pub program: String,
    pub args: Vec<String>,
    /// How long the embedder lets the command run before treating it as
    /// failed.
    pub timeout_ms: u64,
}

/// The raw outcome of executing one runtime invocation, as the embedder
/// observed it.
#[derive(Debug, Clone)]
pub struct RawOutput {
    /// The process exited with status zero.
    pub success: bool,
    /// The operating system could not start the binary at all.
    pub spawn_failed: bool,
    /// The configured timeout elapsed before the process finished.
    pub timed_out: bool,
    /// The exit status code, or the negated signal number.
    pub status: i32,
    /// Pid of the spawned runtime process.
    pub pid: u32,
    pub stdout: String,
    pub stderr: String,
}

/// Classify a failed execution into the error taxonomy: a spawn that
/// never happened, a timeout, or a plain non-zero exit carrying the
/// captured text.
pub fn command_error(out: &RawOutput) -> (r: Error)
    ensures
        out.spawn_failed ==> r is SpawnFailed,
        (!out.spawn_failed && out.timed_out) ==> r is CommandTimeout,
        (!out.spawn_failed && !out.timed_out) ==> (r matches Error::CommandFailed {
            status,
            stdout,
            stderr,
        } && status == out.status && stdout@ == out.stdout@ && stderr@ == out.stderr@),
{
    if out.spawn_failed {
        Error::SpawnFailed
    } else if out.timed_out {
        Error::CommandTimeout
    } else {
        Error::CommandFailed {
            status: out.status,
            stdout: out.stdout.clone(),
            stderr: out.stderr.clone(),
        }
    }
}

/// A successful runtime invocation: pid, exit status, captured text.
#[derive(Debug, Clone)]
pub struct RuncResponse {
    pub pid: u32,
    pub status: i32,
    pub output: String,
}

/// Interpret a raw execution outcome: success yields the response with
/// the captured output (both streams when `combined_output`); failure
/// is classified by [`command_error`], a plain non-zero exit carrying
/// status and both streams verbatim.
pub fn interpret_output(out: RawOutput, combined_output: bool) -> (r: Result<RuncResponse, Error>)
    ensures
        out.success ==> (r matches Ok(resp) && resp.pid == out.pid && resp.status == out.status
            && resp.output@ == (if combined_output {
            out.stdout@ + out.stderr@
        } else {
            out.stdout@
        })),
        !out.success ==> {
            &&& r is Err
            &&& (out.spawn_failed ==> (r matches Err(e) && e is SpawnFailed))
            &&& ((!out.spawn_failed && out.timed_out) ==> (r matches Err(e)
                && e is CommandTimeout))
            &&& ((!out.spawn_failed && !out.timed_out) ==> (r matches Err(e)
                && (e matches Error::CommandFailed { status, stdout, stderr } && status
                == out.status && stdout@ == out.stdout@ && stderr@ == out.stderr@)))
        },
{
    if out.success {
        let output = if combined_output {
            out.stdout.concat(out.stderr.as_str())
        } else {
            out.stdout
        };
        Ok(RuncResponse { pid: out.pid, status: out.status, output })
    } else {
        Err(command_error(&out))
    }
}

/// A configured client for the runtime binary.
#[derive(Debug, Clone)]
pub struct RuncClient {
    /// Path or name of the runtime binary.
    pub command: String,
    pub root: Option<String>,
    pub debug: bool,
    pub log: Option<String>,
    pub log_format: Option<LogFormat>,
    pub systemd_cgroup: bool,
    pub rootless: Option<bool>,
    pub timeout_ms: u64,
}

/// The global arguments every invocation starts with, decided by the
/// client's configuration.
pub open spec fn spec_global_args(c: RuncClient) -> Seq<Seq<char>> {
    (match c.root {
        Some(r) => seq!["--root"@, r@],
        None => Seq::empty(),
    }) + (if c.debug {
        seq!["--debug"@]
    } else {
        Seq::empty()
    }) + (match c.log {
        Some(l) => seq!["--log"@, l@],
        None => Seq::empty(),
    }) + (match c.log_format {
        Some(f) => seq!["--log-format"@, spec_log_format_arg(f)],
        None => Seq::empty(),
    }) + (if c.systemd_cgroup {
        seq!["--systemd-cgroup"@]
    } else {
        Seq::empty()
    }) + (match c.rootless {
        Some(b) => seq!["--rootless"@, if b { "true"@ } else { "false"@ }],
        None => Seq::empty(),
    })
}

impl RuncClient {
    /// Create a client from the supplied configuration.
    pub fn from_config(config: RuncConfig) -> (r: Result<RuncClient, Error>)
        ensures
            r matches Ok(c) ==> (match config.command {
                Some(cmd) => c.command@ == cmd@,
                None => c.command@ == "runc"@,
            }),
    {
        config.build()
    }

    /// Render the global arguments of this client.
    #[verifier::rlimit(60)]
    pub fn global_args(&self) -> (r: Vec<String>)
        ensures
            r.deep_view() == spec_global_args(*self),
    {
        let mut v: Vec<String> = Vec::new();
        match &self.root {
            Some(root) => {
                v.push("--root".to_owned());
                v.push(root.clone());
            },
            None => {
            },
        }
        if self.debug {
            v.push("--debug".to_owned());
        }
        match &self.log {
            Some(log) => {
                v.push("--log".to_owned());
                v.push(log.clone());
            },
            None => {
            },
        }
        match &self.log_format {
            Some(f) => {
                v.push("--log-format".to_owned());
                match f {
                    LogFormat::Json => v.push("json".to_owned()),
                    LogFormat::Text => v.push("text".to_owned()),
                }
            },
            None => {
            },
        }
        if self.systemd_cgroup {
            v.push("--systemd-cgroup".to_owned());
        }
        match &self.rootless {
            Some(b) => {
                v.push("--rootless".to_owned());
                if *b {
                    v.push("true".to_owned());
                } else {
                    v.push("false".to_owned());
                }
            },
            None => {
            },
        }
        proof {
            assert(v.deep_view() =~= spec_global_args(*self));
        }
        v
    }

    /// Render a full invocation: the global arguments, then the given
    /// subcommand arguments.
    pub fn command(&self, args: &Vec<String>) -> (r: RuncCommand)
        ensures
            r.program@ == self.command@,
            r.args.deep_view() == spec_global_args(*self) + args.deep_view(),
            r.timeout_ms == self.timeout_ms,
    {
        let mut v = self.global_args();
        append_strings(&mut v, args);
        RuncCommand { program: self.command.clone(), args: v, timeout_ms: self.timeout_ms }
    }

    /// Checkpointing is not offered by this engine.
    pub fn checkpoint(&self) -> (r: Result<RuncResponse, Error>)
        ensures
            r matches Err(e) && e is Unimplemented,
    {
        Err(Error::Unimplemented)
    }

    /// Restoring a checkpoint is not offered by this engine.
    pub fn restore(&self) -> (r: Result<RuncResponse, Error>)
        ensures
            r matches Err(e) && e is Unimplemented,
    {
        Err(Error::Unimplemented)
    }
}

/// The full argument list of a create invocation, given the resolved
/// bundle path and option paths.
pub open spec fn spec_create_invocation(
    c: RuncClient,
    ba: Seq<char>,
    pa: Option<Seq<char>>,
    ca: Option<Seq<char>>,
    detach: bool,
    no_pivot: bool,
    no_new_keyring: bool,
    id: Seq<char>,
) -> Seq<Seq<char>> {
    spec_global_args(c) + seq!["create"@, "--bundle"@, ba] + spec_create_args(
        pa,
        ca,
        detach,
        no_pivot,
        no_new_keyring,
    ) + seq![id]
}

/// The full argument list of a run invocation: options come before the
/// resolved bundle path and id.
pub open spec fn spec_run_invocation(
    c: RuncClient,
    ba: Seq<char>,
    pa: Option<Seq<char>>,
    ca: Option<Seq<char>>,
    detach: bool,
    no_pivot: bool,
    no_new_keyring: bool,
    id: Seq<char>,
) -> Seq<Seq<char>> {
    spec_global_args(c) + seq!["run"@, "--bundle"@] + spec_create_args(
        pa,
        ca,
        detach,
        no_pivot,
        no_new_keyring,
    ) + seq![ba, id]
}

/// The subcommand argument lists of the lifecycle operations.
impl RuncClient {
    /// Render the create invocation: `create --bundle <bundle>` with the
    /// options, then the container id.
    pub fn create(&self, id: &str, bundle: &str, opts: Option<&CreateOpts>) -> (r: Result<
        RuncCommand,
        Error,
    >)
        ensures
            r matches Ok(cmd) ==> {
                &&& cmd.program@ == self.command@
                &&& cmd.timeout_ms == self.timeout_ms
                &&& (opts matches Some(o) ==> exists|
                    ba: Seq<char>,
                    pa: Option<Seq<char>>,
                    ca: Option<Seq<char>>,
                |
                    cmd.args.deep_view() == #[trigger] spec_create_invocation(
                        *self,
                        ba,
                        pa,
                        ca,
                        o.detach,
                        o.no_pivot,
                        o.no_new_keyring,
                        id@,
                    ) && (pa is Some <==> o.pid_file is Some) && (ca is Some
                        <==> o.console_socket is Some))
                &&& (opts is None ==> exists|ba: Seq<char>|
                    cmd.args.deep_view() == #[trigger] spec_create_invocation(
                        *self,
                        ba,
                        None,
                        None,
                        false,
                        false,
                        false,
                        id@,
                    ))
            },
            r matches Err(e) ==> e is InvalidPath,
    {
        let mut args: Vec<String> = Vec::new();
        args.push("create".to_owned());
        args.push("--bundle".to_owned());
        let ba = abs_arg(bundle)?;
        let ghost bav: Seq<char> = ba@;
        args.push(ba);
        proof {
            assert(args.deep_view() =~= seq!["create"@, "--bundle"@, bav]);
        }
        let ghost head: Seq<Seq<char>> = args.deep_view();
        let ghost mut pa: Option<Seq<char>> = None;
        let ghost mut ca: Option<Seq<char>> = None;
        match opts {
            Some(o) => {
                let oa = o.to_args()?;
                proof {
                    let (wpa, wca) = choose|wpa: Option<Seq<char>>, wca: Option<Seq<char>>|
                        oa.deep_view() == spec_create_args(
                            wpa,
                            wca,
                            o.detach,
                            o.no_pivot,
                            o.no_new_keyring,
                        ) && (wpa is Some <==> o.pid_file is Some) && (wca is Some
                            <==> o.console_socket is Some);
                    pa = wpa;
                    ca = wca;
                }
                append_strings(&mut args, &oa);
                proof {
                    assert(args.deep_view() =~= head + spec_create_args(
                        pa,
                        ca,
                        o.detach,
                        o.no_pivot,
                        o.no_new_keyring,
                    ));
                }
            },
            None => {
            },
        }
        let ghost mid: Seq<Seq<char>> = args.deep_view();
        args.push(id.to_owned());
        proof {
            assert(args.deep_view() =~= mid + seq![id@]);
        }
        let cmd = self.command(&args);
        proof {
            assert(cmd.args.deep_view() == spec_global_args(*self) + args.deep_view());
            match opts {
                Some(o) => {
                    assert(args.deep_view() =~= head + spec_create_args(
                        pa,
                        ca,
                        o.detach,
                        o.no_pivot,
                        o.no_new_keyring,
                    ) + seq![id@]);
                    assert(cmd.args.deep_view() =~= spec_create_invocation(
                        *self,
                        bav,
                        pa,
                        ca,
                        o.detach,
                        o.no_pivot,
                        o.no_new_keyring,
                        id@,
                    ));
                },
                None => {
                    assert(args.deep_view() =~= head + seq![id@]);
                    assert(cmd.args.deep_view() =~= spec_create_invocation(
                        *self,
                        bav,
                        None,
                        None,
                        false,
                        false,
                        false,
                        id@,
                    ));
                },
            }
        }
        Ok(cmd)
    }

    /// Render the start invocation for an already created container.
    pub fn start(&self, id: &str) -> (r: RuncCommand)
        ensures
            r.program@ == self.command@,
            r.timeout_ms == self.timeout_ms,
            r.args.deep_view() == spec_global_args(*self) + seq!["start"@, id@],
    {
        let mut args: Vec<String> = Vec::new();
        args.push("start".to_owned());
        args.push(id.to_owned());
        let cmd = self.command(&args);
        proof {
            assert(cmd.args.deep_view() =~= spec_global_args(*self) + seq!["start"@, id@]);
        }
        cmd
    }

    /// Render the kill invocation: the signal number goes last, rendered
    /// in decimal.
    pub fn kill(&self, id: &str, sig: u32, opts: Option<&KillOpts>) -> (r: RuncCommand)
        ensures
            r.program@ == self.command@,
            r.timeout_ms == self.timeout_ms,
            r.args.deep_view() == spec_global_args(*self) + seq!["kill"@] + (match opts {
                Some(o) => if o.all {
                    seq!["--all"@]
                } else {
                    Seq::empty()
                },
                None => Seq::empty(),
            }) + seq![id@, spec_decimal(sig as nat)],
    {
        let mut args: Vec<String> = Vec::new();
        args.push("kill".to_owned());
        proof {
            assert(args.deep_view() =~= seq!["kill"@]);
        }
        match opts {
            Some(o) => {
                let oa = o.to_args();
                append_strings(&mut args, &oa);
                proof {
                    if o.all {
                        assert(args.deep_view() =~= seq!["kill"@] + seq!["--all"@]);
                    } else {
                        assert(args.deep_view() =~= seq!["kill"@]);
                    }
                }
            },
            None => {
            },
        }
        let ghost mid: Seq<Seq<char>> = args.deep_view();
        args.push(id.to_owned());
        args.push(decimal_string(sig as u64));
        proof {
            assert(args.deep_view() =~= mid + seq![id@, spec_decimal(sig as nat)]);
        }
        let cmd = self.command(&args);
        proof {
            assert(cmd.args.deep_view() == spec_global_args(*self) + args.deep_view());
            assert(args.deep_view() =~= seq!["kill"@] + (match opts {
                Some(o) => if o.all {
                    seq!["--all"@]
                } else {
                    Seq::<Seq<char>>::empty()
                },
                None => Seq::<Seq<char>>::empty(),
            }) + seq![id@, spec_decimal(sig as nat)]);
            assert(cmd.args.deep_view() =~= spec_global_args(*self) + seq!["kill"@] + (
            match opts {
                Some(o) => if o.all {
                    seq!["--all"@]
                } else {
                    Seq::<Seq<char>>::empty()
                },
                None => Seq::<Seq<char>>::empty(),
            }) + seq![id@, spec_decimal(sig as nat)]);
        }
        cmd
    }

    /// Render the delete invocation.
    pub fn delete(&self, id: &str, opts: Option<&DeleteOpts>) -> (r: RuncCommand)
        ensures
            r.program@ == self.command@,
            r.timeout_ms == self.timeout_ms,
            r.args.deep_view() == spec_global_args(*self) + seq!["delete"@] + (match opts {
                Some(o) => if o.force {
                    seq!["--force"@]
                } else {
                    Seq::empty()
                },
                None => Seq::empty(),
            }) + seq![id@],
    {
        let mut args: Vec<String> = Vec::new();
        args.push("delete".to_owned());
        proof {
            assert(args.deep_view() =~= seq!["delete"@]);
        }
        match opts {
            Some(o) => {
                let oa = o.to_args();
                append_strings(&mut args, &oa);
                proof {
                    if o.force {
                        assert(args.deep_view() =~= seq!["delete"@] + seq!["--force"@]);
                    } else {
                        assert(args.deep_view() =~= seq!["delete"@]);
                    }
                }
            },
            None => {
            },
        }
        let ghost mid: Seq<Seq<char>> = args.deep_view();
        args.push(id.to_owned());
        proof {
            assert(args.deep_view() =~= mid + seq![id@]);
        }
        let cmd = self.command(&args);
        proof {
            assert(cmd.args.deep_view() == spec_global_args(*self) + args.deep_view());
            assert(args.deep_view() =~= seq!["delete"@] + (match opts {
                Some(o) => if o.force {
                    seq!["--force"@]
                } else {
                    Seq::<Seq<char>>::empty()
                },
                None => Seq::<Seq<char>>::empty(),
            }) + seq![id@]);
            assert(cmd.args.deep_view() =~= spec_global_args(*self) + seq!["delete"@] + (
            match opts {
                Some(o) => if o.force {
                    seq!["--force"@]
                } else {
                    Seq::<Seq<char>>::empty()
                },
                None => Seq::<Seq<char>>::empty(),
            }) + seq![id@]);
        }
        cmd
    }

    /// Render the pause invocation.
    pub fn pause(&self, id: &str) -> (r: RuncCommand)
        ensures
            r.program@ == self.command@,
            r.timeout_ms == self.timeout_ms,
            r.args.deep_view() == spec_global_args(*self) + seq!["pause"@, id@],
    {
        let mut args: Vec<String> = Vec::new();
        args.push("pause".to_owned());
        args.push(id.to_owned());
        let cmd = self.command(&args);
        proof {
            assert(cmd.args.deep_view() =~= spec_global_args(*self) + seq!["pause"@, id@]);
        }
        cmd
    }

    /// Render the resume invocation.
    pub fn resume(&self, id: &str) -> (r: RuncCommand)
        ensures
            r.program@ == self.command@,
            r.timeout_ms == self.timeout_ms,
            r.args.deep_view() == spec_global_args(*self) + seq!["resume"@, id@],
    {
        let mut args: Vec<String> = Vec::new();
        args.push("resume".to_owned());
        args.push(id.to_owned());
        let cmd = self.command(&args);
        proof {
            assert(cmd.args.deep_view() =~= spec_global_args(*self) + seq!["resume"@, id@]);
        }
        cmd
    }

    /// Render the run invocation, which creates, starts and deletes in
    /// one go: options come before the bundle path and id.
    pub fn run(&self, id: &str, bundle: &str, opts: Option<&CreateOpts>) -> (r: Result<
        RuncCommand,
        Error,
    >)
        ensures
            r matches Ok(cmd) ==> {
                &&& cmd.program@ == self.command@
                &&& cmd.timeout_ms == self.timeout_ms
                &&& (opts matches Some(o) ==> exists|
                    ba: Seq<char>,
                    pa: Option<Seq<char>>,
                    ca: Option<Seq<char>>,
                |
                    cmd.args.deep_view() == #[trigger] spec_run_invocation(
                        *self,
                        ba,
                        pa,
                        ca,
                        o.detach,
                        o.no_pivot,
                        o.no_new_keyring,
                        id@,
                    ) && (pa is Some <==> o.pid_file is Some) && (ca is Some
                        <==> o.console_socket is Some))
                &&& (opts is None ==> exists|ba: Seq<char>|
                    cmd.args.deep_view() == #[trigger] spec_run_invocation(
                        *self,
                        ba,
                        None,
                        None,
                        false,
                        false,
                        false,
                        id@,
                    ))
            },
            r matches Err(e) ==> e is InvalidPath,
    {
        let mut args: Vec<String> = Vec::new();
        args.push("run".to_owned());
        args.push("--bundle".to_owned());
        proof {
            assert(args.deep_view() =~= seq!["run"@, "--bundle"@]);
        }
        let ghost head: Seq<Seq<char>> = args.deep_view();
        let ghost mut pa: Option<Seq<char>> = None;
        let ghost mut ca: Option<Seq<char>> = None;
        match opts {
            Some(o) => {
                let oa = o.to_args()?;
                proof {
                    let (wpa, wca) = choose|wpa: Option<Seq<char>>, wca: Option<Seq<char>>|
                        oa.deep_view() == spec_create_args(
                            wpa,
                            wca,
                            o.detach,
                            o.no_pivot,
                            o.no_new_keyring,
                        ) && (wpa is Some <==> o.pid_file is Some) && (wca is Some
                            <==> o.console_socket is Some);
                    pa = wpa;
                    ca = wca;
                }
                append_strings(&mut args, &oa);
                proof {
                    assert(args.deep_view() =~= head + spec_create_args(
                        pa,
                        ca,
                        o.detach,
                        o.no_pivot,
                        o.no_new_keyring,
                    ));
                }
            },
            None => {
            },
        }
        let ba = abs_arg(bundle)?;
        let ghost bav: Seq<char> = ba@;
        let ghost mid: Seq<Seq<char>> = args.deep_view();
        args.push(ba);
        args.push(id.to_owned());
        proof {
            assert(args.deep_view() =~= mid + seq![bav, id@]);
        }
        let cmd = self.command(&args);
        proof {
            assert(cmd.args.deep_view() == spec_global_args(*self) + args.deep_view());
            match opts {
                Some(o) => {
                    assert(args.deep_view() =~= head + spec_create_args(
                        pa,
                        ca,
                        o.detach,
                        o.no_pivot,
                        o.no_new_keyring,
                    ) + seq![bav, id@]);
                    assert(cmd.args.deep_view() =~= spec_run_invocation(
                        *self,
                        bav,
                        pa,
                        ca,
                        o.detach,
                        o.no_pivot,
                        o.no_new_keyring,
                        id@,
                    ));
                },
                None => {
                    assert(args.deep_view() =~= head + seq![bav, id@]);
                    assert(cmd.args.deep_view() =~= spec_run_invocation(
                        *self,
                        bav,
                        None,
                        None,
                        false,
                        false,
                        false,
                        id@,
                    ));
                },
            }
        }
        Ok(cmd)
    }
}

/// Push clones of all of `src` onto `dst`.
fn append_strings(dst: &mut Vec<String>, src: &Vec<String>)
    ensures
        final(dst).deep_view() == old(dst).deep_view() + src.deep_view(),
{
    let ghost orig: Seq<Seq<char>> = dst.deep_view();
    let n = src.len();
    let mut i: usize = 0;
    while i < n
        invariant
            i <= n,
            n == src@.len(),
            dst.deep_view() =~= orig + src.deep_view().take(i as int),
        decreases n - i,
    {
        let ghost before: Seq<Seq<char>> = dst.deep_view();
        let item = src[i].clone();
        dst.push(item);
        proof {
            assert(dst.deep_view() =~= before.push(src@[i as int]@));
            assert(dst.deep_view() =~= orig + src.deep_view().take(i + 1));
        }
        i = i + 1;
    }
    proof {
        assert(src.deep_view().take(n as int) =~= src.deep_view());
        assert(dst.deep_view() =~= old(dst).deep_view() + src.deep_view());
    }
}

/// A client whose invocations the embedder runs on an asynchronous
/// executor; the rendered commands and interpretations are the same.
#[derive(Debug, Clone)]
pub struct RuncAsyncClient {
    pub client: RuncClient,
}

impl RuncAsyncClient {
    /// Create an asynchronous-embedding client from the supplied
    /// configuration.
    pub fn from_config(config: RuncConfig) -> (r: Result<RuncAsyncClient, Error>)
        ensures
            r matches Ok(c) ==> (match config.command {
                Some(cmd) => c.client.command@ == cmd@,
                None => c.client.command@ == "runc"@,
            }),
    {
        config.build_async()
    }
}

/// Where the runtime keeps its state when no root is configured.
pub open spec fn spec_default_runc_root() -> Seq<char> {
    "/run/containerd/runc"@
}

/// Build the runtime client a shim uses for one container: state rooted
/// under the given root (or the default) and namespace, JSON logging
/// into `log.json` under the given path.
pub fn new_runc(
    root: Option<&str>,
    path: &str,
    namespace: &str,
    runtime: &str,
    systemd_cgroup: bool,
) -> (r: Result<RuncClient, Error>)
    ensures
        r matches Ok(c) ==> {
            &&& c.command@ == runtime@
            &&& c.systemd_cgroup == systemd_cgroup
            &&& c.log_format == Some(LogFormat::Json)
            &&& (c.root matches Some(rt) && rt@ == spec_path_join(
                match root {
                    Some(g) => g@,
                    None => spec_default_runc_root(),
                },
                namespace@,
            ))
            &&& (c.log matches Some(lg) && lg@ == spec_path_join(path@, "log.json"@))
        },
        r is Ok,
{
    let root_dir = match root {
        Some(g) => path_join(g, namespace),
        None => path_join("/run/containerd/runc", namespace),
    };
    let log = path_join(path, "log.json");
    let config = RuncConfig::new().command(runtime).log(log.as_str()).log_format_json().root(
        root_dir.as_str(),
    ).systemd_cgroup(systemd_cgroup);
    config.build()
}

} // verus!
