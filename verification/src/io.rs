//! Stdio plumbing for a supervised process.
//!
//! The engine decides here how the three stdio streams of a container
//! process are realized: a null device when nothing was requested, or a
//! pipe pair per stream whose child ends the external runtime inherits
//! and whose shim ends are copied to the user-chosen destinations. The
//! copying itself is concurrent work the embedder runs; this module
//! produces the exact plan of copy tasks, including the rule that two
//! streams naming the same destination file share one writer.

use vstd::prelude::*;
use vstd::string::StrSliceExecFns;
use crate::config::StdioConfig;
use crate::error::Error;
use crate::fsio::{
    sys_close, sys_fchown, sys_mkdir, sys_open, sys_pipe, Access, OpenRequest,
};
use crate::fifo::is_fifo;

verus! {

/// Which streams a pipe pair should be opened for.
#[derive(Debug, Clone, PartialEq, Eq, Structural)]
pub struct IOOption {
    pub open_stdin: bool,
    pub open_stdout: bool,
    pub open_stderr: bool,
}

impl Default for IOOption {
    /// All three streams are piped.
    fn default() -> (r: IOOption)
        ensures
            r.open_stdin && r.open_stdout && r.open_stderr,
    {
        IOOption { open_stdin: true, open_stdout: true, open_stderr: true }
    }
}

/// A stream is piped exactly when its destination string is non-empty.
pub fn conditional_io_options(stdio: &StdioConfig) -> (r: IOOption)
    ensures
        r.open_stdin == (stdio.stdin@.len() != 0),
        r.open_stdout == (stdio.stdout@.len() != 0),
        r.open_stderr == (stdio.stderr@.len() != 0),
{
    IOOption {
        open_stdin: !stdio.stdin.as_str().is_empty(),
        open_stdout: !stdio.stdout.as_str().is_empty(),
        open_stderr: !stdio.stderr.as_str().is_empty(),
    }
}

/// One anonymous pipe pair. Each end is an owned descriptor until it is
/// taken or closed; taking an end hands its ownership to the caller.
#[derive(Debug, Clone, PartialEq, Eq, Structural)]
pub struct Pipe {
    pub rd: Option<i32>,
    pub wr: Option<i32>,
}

impl Pipe {
    /// Create a connected pipe pair.
    pub fn new() -> (r: Result<Pipe, Error>)
        ensures
            r matches Ok(p) ==> p.rd is Some && p.wr is Some,
            r matches Err(e) ==> e is Sys,
    {
        match sys_pipe() {
            Ok((rd, wr)) => Ok(Pipe { rd: Some(rd), wr: Some(wr) }),
            Err(errno) => Err(Error::Sys { errno }),
        }
    }

    /// Hand the read end to the caller; the pipe no longer owns it.
    pub fn take_read(&mut self) -> (r: Option<i32>)
        ensures
            r == old(self).rd,
            final(self).rd is None,
            final(self).wr == old(self).wr,
    {
        let r = self.rd;
        self.rd = None;
        r
    }

    /// Hand the write end to the caller; the pipe no longer owns it.
    pub fn take_write(&mut self) -> (r: Option<i32>)
        ensures
            r == old(self).wr,
            final(self).wr is None,
            final(self).rd == old(self).rd,
    {
        let r = self.wr;
        self.wr = None;
        r
    }

    /// Close the write end if the pipe still owns it.
    pub fn close_write(&mut self) -> (r: Result<(), Error>)
        ensures
            final(self).wr is None,
            final(self).rd == old(self).rd,
            r matches Err(e) ==> e is Sys,
    {
        match self.take_write() {
            Some(fd) => {
                match sys_close(fd) {
                    Ok(_) => Ok(()),
                    Err(errno) => Err(Error::Sys { errno }),
                }
            },
            None => Ok(()),
        }
    }
}

/// The pipe pairs backing a process's stdio, one per requested stream.
#[derive(Debug, Clone, PartialEq, Eq, Structural)]
pub struct PipedIo {
    pub stdin: Option<Pipe>,
    pub stdout: Option<Pipe>,
    pub stderr: Option<Pipe>,
}

impl PipedIo {
    /// Open a pipe pair for each requested stream and hand the container
    /// side of each to the given owner: the read end for stdin, the
    /// write end for stdout and stderr.
    pub fn new(uid: u32, gid: u32, opts: &IOOption) -> (r: Result<PipedIo, Error>)
        ensures
            r matches Ok(io) ==> {
                &&& io.stdin is Some <==> opts.open_stdin
                &&& io.stdout is Some <==> opts.open_stdout
                &&& io.stderr is Some <==> opts.open_stderr
                &&& (io.stdin matches Some(p) ==> p.rd is Some && p.wr is Some)
                &&& (io.stdout matches Some(p) ==> p.rd is Some && p.wr is Some)
                &&& (io.stderr matches Some(p) ==> p.rd is Some && p.wr is Some)
            },
            r matches Err(e) ==> e is Sys,
    {
        let stdin = if opts.open_stdin {
            let p = Pipe::new()?;
            match p.rd {
                Some(fd) => {
                    if let Err(errno) = sys_fchown(fd, uid, gid) {
                        return Err(Error::Sys { errno });
                    }
                },
                None => {
                },
            }
            Some(p)
        } else {
            None
        };
        let stdout = if opts.open_stdout {
            let p = Pipe::new()?;
            match p.wr {
                Some(fd) => {
                    if let Err(errno) = sys_fchown(fd, uid, gid) {
                        return Err(Error::Sys { errno });
                    }
                },
                None => {
                },
            }
            Some(p)
        } else {
            None
        };
        let stderr = if opts.open_stderr {
            let p = Pipe::new()?;
            match p.wr {
                Some(fd) => {
                    if let Err(errno) = sys_fchown(fd, uid, gid) {
                        return Err(Error::Sys { errno });
                    }
                },
                None => {
                },
            }
            Some(p)
        } else {
            None
        };
        Ok(PipedIo { stdin, stdout, stderr })
    }

    /// Close the shim-side write ends of stdout and stderr. Once the
    /// child owns its copies, these must go, or the copy tasks would
    /// never observe end of stream.
    pub fn close_after_start(&mut self) -> (r: Result<(), Error>)
        ensures
            final(self).stdin == old(self).stdin,
            (final(self).stdout matches Some(p) ==> old(self).stdout matches Some(q)
                && p.rd == q.rd && p.wr is None),
            (final(self).stderr matches Some(p) ==> old(self).stderr matches Some(q)
                && p.rd == q.rd && p.wr is None),
            final(self).stdout is Some == old(self).stdout is Some,
            final(self).stderr is Some == old(self).stderr is Some,
            r matches Err(e) ==> e is Sys,
    {
        let mut first: Result<(), Error> = Ok(());
        if let Some(p) = &mut self.stdout {
            if let Err(e) = p.close_write() {
                first = Err(e);
            }
        }
        if let Some(p) = &mut self.stderr {
            if let Err(e) = p.close_write() {
                if matches!(first, Ok(_)) {
                    first = Err(e);
                }
            }
        }
        first
    }
}

/// The descriptors a spawned child inherits for its stdio.
#[derive(Debug, Clone, PartialEq, Eq, Structural)]
pub struct ChildStdio {
    /// Read end of the stdin pipe, or the null device.
    pub stdin: Option<i32>,
    /// Write end of the stdout pipe, or the null device.
    pub stdout: Option<i32>,
    /// Write end of the stderr pipe, or the null device.
    pub stderr: Option<i32>,
}

/// The null-device backing: reads return end of stream, writes are
/// discarded.
#[derive(Debug, Clone, PartialEq, Eq, Structural)]
pub struct NullIo {
    pub dev_null: i32,
}

impl NullIo {
    /// Open the null device once; the child inherits it for both output
    /// streams.
    pub fn new() -> (r: Result<NullIo, Error>)
        ensures
            r matches Ok(io) ==> io.dev_null >= 0,
            r matches Err(e) ==> e is Sys,
    {
        let req = OpenRequest {
            access: Access::ReadWrite,
            create: false,
            append: false,
            truncate: false,
            path_only: false,
            mode: 0,
        };
        match sys_open("/dev/null", &req) {
            Ok(fd) => Ok(NullIo { dev_null: fd }),
            Err(errno) => Err(Error::Sys { errno }),
        }
    }

    /// Release the null-device descriptor.
    pub fn close(&self) -> (r: Result<(), Error>)
        ensures
            r matches Err(e) ==> e is Sys,
    {
        match sys_close(self.dev_null) {
            Ok(_) => Ok(()),
            Err(errno) => Err(Error::Sys { errno }),
        }
    }
}

/// How a process's stdio is backed: the set of backings is closed and
/// known, so it is a variant, not a trait object.
#[derive(Debug, Clone, PartialEq, Eq, Structural)]
pub enum IoBackend {
    Null(NullIo),
    Piped(PipedIo),
}

/// How the engine parses a stdio destination string.
#[derive(Debug, Clone, Copy, PartialEq, Eq, Structural)]
pub enum UriParseError {
    /// The string has no scheme: a bare path.
    Relative,
    /// The string is not a URI at all.
    Invalid,
}

/// What url::Url::parse finds in a string: its scheme and path when it
/// parses, or whether the failure was merely a missing base. The outcome
/// depends on the string alone.
pub uninterp spec fn url_parse_outcome(s: Seq<char>) -> Result<(Seq<char>, Seq<char>), bool>;

/// Relies on url::Url::parse: scheme() and path() of the parsed URL are
/// functions of the input string; a relative input (no scheme) is told
/// apart from any other parse failure.
#[verifier::external_body]
fn parse_url(s: &str) -> (r: Result<(String, String), UriParseError>)
    ensures
        r is Ok <==> url_parse_outcome(s@) is Ok,
        r matches Ok(p) ==> url_parse_outcome(s@) matches Ok(q) && p.0@ == q.0 && p.1@ == q.1,
        r matches Err(k) ==> url_parse_outcome(s@) matches Err(rel) && (rel <==> k is Relative),
{
    match url::Url::parse(s) {
        Ok(u) => Ok((u.scheme().to_owned(), u.path().to_owned())),
        Err(url::ParseError::RelativeUrlWithoutBase) => Err(UriParseError::Relative),
        Err(_) => Err(UriParseError::Invalid),
    }
}

/// The two destination classes the engine implements.
#[derive(Debug, Clone, PartialEq, Eq)]
pub enum UriClass {
    /// Destinations are FIFO or plain paths to be copied into.
    Fifo,
    /// Output goes to one plain file at this resolved path.
    File(String),
}

/// Classify a parsed stdout destination. `fifo:` URIs and bare paths are
/// the FIFO class; `file:` URIs resolve to their path; the `binary:`
/// logging hook is a recognized capability this engine does not
/// implement, and must stay distinguishable from garbage: it reports
/// unimplemented, while every other scheme, and a string that is no
/// URI, is an invalid destination.
pub fn classify_stdout(parsed: Result<(String, String), UriParseError>) -> (r: Result<
    UriClass,
    Error,
>)
    ensures
        parsed matches Ok(p) ==> {
            &&& p.0@ == "fifo"@ ==> (r matches Ok(c) && c is Fifo)
            &&& p.0@ == "file"@ ==> (r matches Ok(c) && (c matches UriClass::File(q) && q@
                == p.1@))
            &&& p.0@ == "binary"@ ==> (r matches Err(e) && e is Unimplemented)
            &&& (p.0@ != "fifo"@ && p.0@ != "file"@ && p.0@ != "binary"@) ==> (r matches Err(e)
                && e is InvalidUri)
        },
        parsed matches Err(k) ==> {
            &&& k is Relative ==> (r matches Ok(c) && c is Fifo)
            &&& k is Invalid ==> (r matches Err(e) && e is InvalidUri)
        },
{
    proof {
        reveal_strlit("fifo");
        reveal_strlit("file");
        reveal_strlit("binary");
        assert("fifo"@[2] == 'f');
        assert("file"@[2] == 'l');
        assert("fifo"@ != "file"@);
        assert("binary"@.len() == 6);
        assert("fifo"@.len() == 4);
        assert("file"@.len() == 4);
    }
    match parsed {
        Ok((scheme, path)) => {
            let fifo: String = "fifo".to_owned();
            let file: String = "file".to_owned();
            let binary: String = "binary".to_owned();
            if scheme == fifo {
                Ok(UriClass::Fifo)
            } else if scheme == file {
                Ok(UriClass::File(path))
            } else if scheme == binary {
                Err(Error::Unimplemented)
            } else {
                Err(Error::InvalidUri)
            }
        },
        Err(UriParseError::Relative) => Ok(UriClass::Fifo),
        Err(UriParseError::Invalid) => Err(Error::InvalidUri),
    }
}

/// Create every missing directory on the way to the file named by
/// `path`: one mkdir per slash-terminated prefix. Failures (most often
/// "already exists") are left to the subsequent open of the file itself
/// to judge.
pub fn make_parent_dirs(path: &str)
{
    let n = path.unicode_len();
    let mut i: usize = 1;
    while i < n
        invariant
            1 <= i,
            n == path@.len(),
        decreases n - i,
    {
        if path.get_char(i) == '/' {
            let prefix = path.substring_char(0, i);
            let _ = sys_mkdir(prefix, 0o755);
        }
        i = i + 1;
    }
}

/// Which process stream a copy task drains.
#[derive(Debug, Clone, Copy, PartialEq, Eq, Structural)]
pub enum CopySource {
    Stdout,
    Stderr,
}

/// Where a copy task delivers its bytes.
#[derive(Debug, Clone, PartialEq, Eq)]
pub enum CopyDest {
    /// The destination is a FIFO: open its write end for the bytes and
    /// hold a read end open until end of stream, so the peer observes
    /// the close.
    FifoPath(String),
    /// The destination is a plain file, opened once for append by this
    /// task.
    File(String),
    /// Reuse the writer opened by the earlier `File` task: both streams
    /// name the same destination file, which must be opened exactly
    /// once.
    SharedWriter,
}

/// One background copy: drain `source_fd` into the destination until end
/// of stream.
#[derive(Debug, Clone, PartialEq, Eq)]
pub struct CopyTask {
    pub source: CopySource,
    /// The shim-side read end of the stream's pipe; the task owns it.
    pub source_fd: i32,
    pub dest: CopyDest,
}

/// The stdin copy: read the destination FIFO and feed the pipe's write
/// end.
#[derive(Debug, Clone, PartialEq, Eq)]
pub struct StdinTask {
    /// The user-chosen stdin FIFO path, opened read-only, non-blocking.
    pub path: String,
    /// The shim-side write end of the stdin pipe; the task owns it.
    pub dest_fd: i32,
}

/// Everything the embedder must spawn after the process is created.
#[derive(Debug, Clone, PartialEq, Eq)]
pub struct CopyPlan {
    pub tasks: Vec<CopyTask>,
    pub stdin: Option<StdinTask>,
}

/// The destination a task opens for writing, when it opens one of its
/// own.
pub open spec fn dest_path(d: CopyDest) -> Option<Seq<char>> {
    match d {
        CopyDest::FifoPath(p) => Some(p@),
        CopyDest::File(p) => Some(p@),
        CopyDest::SharedWriter => None,
    }
}

/// No two tasks of a plan may open the same destination for writing:
/// the second of two streams naming one destination shares the first
/// task's writer instead of opening its own.
pub open spec fn one_writer_per_destination(tasks: Seq<CopyTask>) -> bool {
    forall|i: int, j: int|
        0 <= i < j < tasks.len() ==> !(#[trigger] dest_path(tasks[i].dest) matches Some(a)
            && #[trigger] dest_path(tasks[j].dest) matches Some(b) && a == b)
}

/// A shared writer only ever refers back to an earlier task that opened
/// one.
pub open spec fn shared_writers_resolved(tasks: Seq<CopyTask>) -> bool {
    forall|j: int|
        0 <= j < tasks.len() && (#[trigger] tasks[j].dest) is SharedWriter ==> exists|i: int|
            0 <= i < j && dest_path(#[trigger] tasks[i].dest) is Some
}

/// What a copy plan must say for the stdio configuration it was made
/// from: one task per non-empty output destination, stdout first, each
/// naming its own destination — except that two streams naming the same
/// destination share the first task's writer — and a stdin task exactly
/// when a stdin destination was requested.
pub open spec fn plan_names_destinations(plan: CopyPlan, stdio: StdioConfig) -> bool {
    let n_out: int = if stdio.stdout@.len() != 0 {
        1int
    } else {
        0int
    };
    let n_err: int = if stdio.stderr@.len() != 0 {
        1int
    } else {
        0int
    };
    let shared = stdio.stdout@ == stdio.stderr@ && stdio.stdout@.len() != 0;
    &&& plan.tasks@.len() == n_out + n_err
    &&& (stdio.stdout@.len() != 0 ==> plan.tasks@[0].source is Stdout && (dest_path(
        plan.tasks@[0].dest,
    ) matches Some(p) && p == stdio.stdout@))
    &&& (stdio.stderr@.len() != 0 ==> {
        &&& plan.tasks@[n_out].source is Stderr
        &&& (plan.tasks@[n_out].dest is SharedWriter <==> shared)
        &&& (!shared ==> (dest_path(plan.tasks@[n_out].dest) matches Some(p) && p
            == stdio.stderr@))
    })
    &&& (plan.stdin is Some <==> stdio.stdin@.len() != 0)
    &&& (plan.stdin matches Some(t) ==> t.path@ == stdio.stdin@)
}

/// Each task of the plan owns the matching shim-side pipe end of the
/// bundle it was drawn from: the read ends of the stdout and stderr
/// pipes, and the write end of the stdin pipe.
pub open spec fn plan_draws_from(plan: CopyPlan, io: IoBackend, stdio: StdioConfig) -> bool {
    let n_out: int = if stdio.stdout@.len() != 0 {
        1int
    } else {
        0int
    };
    match io {
        IoBackend::Piped(p) => {
            &&& (stdio.stdout@.len() != 0 ==> (p.stdout matches Some(q) && (q.rd matches Some(fd)
                && plan.tasks@[0].source_fd == fd)))
            &&& (stdio.stderr@.len() != 0 ==> (p.stderr matches Some(q) && (q.rd matches Some(fd)
                && plan.tasks@[n_out].source_fd == fd)))
            &&& (plan.stdin matches Some(t) ==> (p.stdin matches Some(q) && (q.wr matches Some(fd)
                && t.dest_fd == fd)))
        },
        IoBackend::Null(_) => false,
    }
}

/// The descriptors a child would inherit from a backing: the read end
/// of the stdin pipe and the write ends of the output pipes, or the
/// null device for both outputs.
pub open spec fn spec_child_stdio(io: IoBackend) -> ChildStdio {
    match io {
        IoBackend::Null(n) => ChildStdio {
            stdin: None,
            stdout: Some(n.dev_null),
            stderr: Some(n.dev_null),
        },
        IoBackend::Piped(p) => ChildStdio {
            stdin: match p.stdin {
                Some(q) => q.rd,
                None => None,
            },
            stdout: match p.stdout {
                Some(q) => q.wr,
                None => None,
            },
            stderr: match p.stderr {
                Some(q) => q.wr,
                None => None,
            },
        },
    }
}


/// A process's complete IO bundle: the backing, whether background
/// copying is needed, and the (possibly rewritten) destination strings.
#[derive(Debug)]
pub struct ProcessIO {
    pub io: IoBackend,
    /// Whether background copy tasks are needed at all; false exactly for
    /// null-device IO.
    pub copy: bool,
    pub stdio: StdioConfig,
    /// Whether the copy plan has already been produced; the pipe ends it
    /// consumes can be handed out only once.
    pub pipes_taken: bool,
}

impl ProcessIO {
    /// Until the plan is produced, the bundle's pipes still hold every
    /// end the plan will need, one pipe per non-empty destination.
    pub open spec fn wf(self) -> bool {
        &&& (self.copy ==> self.io is Piped)
        &&& (match self.io {
            IoBackend::Piped(p) => self.pipes_taken || {
                &&& (p.stdout is Some <==> self.stdio.stdout@.len() != 0)
                &&& (p.stderr is Some <==> self.stdio.stderr@.len() != 0)
                &&& (p.stdin is Some <==> self.stdio.stdin@.len() != 0)
                &&& (p.stdout matches Some(q) ==> q.rd is Some)
                &&& (p.stderr matches Some(q) ==> q.rd is Some)
                &&& (p.stdin matches Some(q) ==> q.wr is Some)
            },
            IoBackend::Null(_) => true,
        })
    }

    /// Decide how the stdio of one process is realized. All-empty
    /// destinations become null-device IO with no copying. Otherwise the
    /// stdout destination chooses the class: a `fifo:` URI or bare path
    /// keeps the destinations as given; a `file:` URI pre-creates the
    /// file (and its directories) and redirects both output streams to
    /// that one path; any other scheme is rejected before any pipe is
    /// opened.
    pub fn new(id: &str, io_uid: u32, io_gid: u32, stdio: StdioConfig) -> (r: Result<
        ProcessIO,
        Error,
    >)
        ensures
            r matches Ok(p) ==> p.wf() && !p.pipes_taken,
            stdio.spec_is_null() ==> {
                &&& (r matches Ok(p) ==> !p.copy && p.io is Null && p.stdio == stdio)
                &&& (r matches Err(e) ==> e is Sys)
            },
            !stdio.spec_is_null() ==> {
                &&& (r matches Ok(p) ==> p.copy && p.io is Piped)
                &&& (url_parse_outcome(stdio.stdout@) matches Ok(q) ==> {
                    &&& q.0 == "file"@ ==> (r matches Ok(p) ==> p.stdio.stdout@ == q.1
                        && p.stdio.stderr@ == q.1 && p.stdio.stdin@ == stdio.stdin@)
                    &&& q.0 == "fifo"@ ==> (r matches Ok(p) ==> p.stdio == stdio)
                })
                &&& (url_parse_outcome(stdio.stdout@) matches Err(rel) ==> rel ==> (r matches Ok(
                    p,
                ) ==> p.stdio == stdio))
                &&& ((r matches Err(e) && e is Unimplemented) <==> (url_parse_outcome(
                    stdio.stdout@,
                ) matches Ok(q) && q.0 == "binary"@))
                &&& ((r matches Err(e) && e is InvalidUri) <==> (match url_parse_outcome(
                    stdio.stdout@,
                ) {
                    Ok(q) => q.0 != "fifo"@ && q.0 != "file"@ && q.0 != "binary"@,
                    Err(rel) => !rel,
                }))
            },
            r matches Err(e) ==> e is Sys || e is InvalidUri || e is Unimplemented,
    {
        let _ = id;
        if stdio.is_null() {
            let null = NullIo::new()?;
            return Ok(ProcessIO {
                io: IoBackend::Null(null),
                copy: false,
                stdio,
                pipes_taken: false,
            });
        }
        let parsed = parse_url(stdio.stdout.as_str());
        let class = classify_stdout(parsed)?;
        match class {
            UriClass::Fifo => {
                let opts = conditional_io_options(&stdio);
                let pio = PipedIo::new(io_uid, io_gid, &opts)?;
                Ok(ProcessIO {
                    io: IoBackend::Piped(pio),
                    copy: true,
                    stdio,
                    pipes_taken: false,
                })
            },
            UriClass::File(path) => {
                make_parent_dirs(path.as_str());
                let touch = OpenRequest {
                    access: Access::Write,
                    create: true,
                    append: true,
                    truncate: false,
                    path_only: false,
                    mode: 0o666,
                };
                match sys_open(path.as_str(), &touch) {
                    Ok(fd) => {
                        let _ = sys_close(fd);
                    },
                    Err(errno) => {
                        return Err(Error::Sys { errno });
                    },
                }
                let redirected = StdioConfig {
                    stdin: stdio.stdin.clone(),
                    stdout: path.clone(),
                    stderr: path,
                    terminal: stdio.terminal,
                };
                let opts = conditional_io_options(&redirected);
                let pio = PipedIo::new(io_uid, io_gid, &opts)?;
                Ok(ProcessIO {
                    io: IoBackend::Piped(pio),
                    copy: true,
                    stdio: redirected,
                    pipes_taken: false,
                })
            },
        }
    }

    /// The descriptors the spawned child inherits: the container side of
    /// each pipe, or the null device for both output streams.
    pub fn child_stdio(&self) -> (r: ChildStdio)
        ensures
            r == spec_child_stdio(self.io),
    {
        match &self.io {
            IoBackend::Null(n) => ChildStdio {
                stdin: None,
                stdout: Some(n.dev_null),
                stderr: Some(n.dev_null),
            },
            IoBackend::Piped(p) => ChildStdio {
                stdin: match &p.stdin {
                    Some(q) => q.rd,
                    None => None,
                },
                stdout: match &p.stdout {
                    Some(q) => q.wr,
                    None => None,
                },
                stderr: match &p.stderr {
                    Some(q) => q.wr,
                    None => None,
                },
            },
        }
    }

    /// Close the shim-side copies of the descriptors the child now owns:
    /// the write ends of the output pipes go, their read ends and the
    /// whole stdin pipe stay.
    pub fn close_after_start(&mut self) -> (r: Result<(), Error>)
        requires
            old(self).wf(),
        ensures
            final(self).wf(),
            final(self).copy == old(self).copy,
            final(self).stdio == old(self).stdio,
            final(self).pipes_taken == old(self).pipes_taken,
            old(self).io matches IoBackend::Piped(p) ==> (final(self).io matches IoBackend::Piped(
                q,
            ) && {
                &&& q.stdin == p.stdin
                &&& (q.stdout is Some <==> p.stdout is Some)
                &&& (q.stdout matches Some(a) ==> (p.stdout matches Some(b) && a.rd == b.rd
                    && a.wr is None))
                &&& (q.stderr is Some <==> p.stderr is Some)
                &&& (q.stderr matches Some(a) ==> (p.stderr matches Some(b) && a.rd == b.rd
                    && a.wr is None))
            }),
            old(self).io matches IoBackend::Null(n) ==> final(self).io == old(self).io,
            r matches Err(e) ==> e is Sys,
    {
        match &mut self.io {
            IoBackend::Piped(p) => p.close_after_start(),
            IoBackend::Null(n) => n.close(),
        }
    }

    /// Produce the copy plan, handing out the pipe ends the tasks own.
    /// With `copy == false` this is a no-op succeeding at once with an
    /// empty plan; otherwise it may be invoked only once. Each task
    /// draws from the matching shim-side pipe end and names its own
    /// destination, except that when stdout and stderr name the same
    /// destination the second task reuses the first task's writer, so
    /// no destination is ever opened twice for writing. The child-side
    /// ends of the bundle are untouched.
    pub fn copy_pipes(&mut self) -> (r: Result<CopyPlan, Error>)
        requires
            old(self).wf(),
            !old(self).pipes_taken,
        ensures
            final(self).wf(),
            final(self).copy == old(self).copy,
            final(self).stdio == old(self).stdio,
            spec_child_stdio(final(self).io) == spec_child_stdio(old(self).io),
            !old(self).copy ==> (r matches Ok(plan) && plan.tasks@.len() == 0
                && plan.stdin is None && *final(self) == *old(self)),
            old(self).copy ==> final(self).pipes_taken,
            r matches Ok(plan) ==> {
                &&& one_writer_per_destination(plan.tasks@)
                &&& shared_writers_resolved(plan.tasks@)
                &&& (old(self).copy ==> plan_names_destinations(plan, old(self).stdio)
                    && plan_draws_from(plan, old(self).io, old(self).stdio))
            },
            r matches Err(e) ==> e is Sys,
    {
        if !self.copy {
            return Ok(CopyPlan { tasks: Vec::new(), stdin: None });
        }
        self.pipes_taken = true;
        let stdout_path = self.stdio.stdout.clone();
        let stderr_path = self.stdio.stderr.clone();
        let stdin_path = self.stdio.stdin.clone();
        let same_out_err = stdout_path == stderr_path;
        let pio = match &mut self.io {
            IoBackend::Piped(p) => p,
            IoBackend::Null(_) => {
                return Err(Error::Sys { errno: 0 });
            },
        };
        let mut tasks: Vec<CopyTask> = Vec::new();
        let mut have_writer = false;
        if !stdout_path.as_str().is_empty() {
            let fd = match &mut pio.stdout {
                Some(pipe) => pipe.take_read().unwrap(),
                None => {
                    return Err(Error::Sys { errno: 0 });
                },
            };
            let fifo_dest = match is_fifo(stdout_path.as_str()) {
                Ok(b) => b,
                Err(e) => {
                    return Err(e);
                },
            };
            if fifo_dest {
                tasks.push(CopyTask {
                    source: CopySource::Stdout,
                    source_fd: fd,
                    dest: CopyDest::FifoPath(stdout_path.clone()),
                });
            } else {
                tasks.push(CopyTask {
                    source: CopySource::Stdout,
                    source_fd: fd,
                    dest: CopyDest::File(stdout_path.clone()),
                });
            }
            have_writer = true;
        }
        proof {
            assert(have_writer ==> tasks@.len() == 1 && (dest_path(tasks@[0].dest) matches Some(
                a,
            ) && a == stdout_path@) && tasks@[0].source is Stdout);
            assert(!have_writer ==> tasks@.len() == 0);
        }
        if !stderr_path.as_str().is_empty() {
            let fd = match &mut pio.stderr {
                Some(pipe) => pipe.take_read().unwrap(),
                None => {
                    return Err(Error::Sys { errno: 0 });
                },
            };
            if have_writer && same_out_err {
                tasks.push(CopyTask {
                    source: CopySource::Stderr,
                    source_fd: fd,
                    dest: CopyDest::SharedWriter,
                });
            } else {
                proof {
                    if have_writer {
                        assert(stdout_path@ != stderr_path@);
                    }
                }
                let fifo_dest = match is_fifo(stderr_path.as_str()) {
                    Ok(b) => b,
                    Err(e) => {
                        return Err(e);
                    },
                };
                if fifo_dest {
                    tasks.push(CopyTask {
                        source: CopySource::Stderr,
                        source_fd: fd,
                        dest: CopyDest::FifoPath(stderr_path.clone()),
                    });
                } else {
                    tasks.push(CopyTask {
                        source: CopySource::Stderr,
                        source_fd: fd,
                        dest: CopyDest::File(stderr_path.clone()),
                    });
                }
            }
        }
        proof {
            assert(one_writer_per_destination(tasks@)) by {
                assert forall|i: int, j: int|
                    0 <= i < j < tasks@.len() implies !(#[trigger] dest_path(
                    tasks@[i].dest,
                ) matches Some(a) && #[trigger] dest_path(tasks@[j].dest) matches Some(b) && a
                    == b) by {
                    assert(i == 0 && j == 1);
                    if dest_path(tasks@[1].dest) is Some {
                        assert(stdout_path@ != stderr_path@);
                    }
                }
            }
            assert(shared_writers_resolved(tasks@)) by {
                assert forall|j: int|
                    0 <= j < tasks@.len() && (#[trigger] tasks@[j].dest) is SharedWriter
                        implies exists|i: int|
                    0 <= i < j && dest_path(#[trigger] tasks@[i].dest) is Some by {
                    assert(j == 1);
                    assert(dest_path(tasks@[0].dest) is Some);
                }
            }
        }
        let stdin_task = if !stdin_path.as_str().is_empty() {
            let fd = match &mut pio.stdin {
                Some(pipe) => pipe.take_write().unwrap(),
                None => {
                    return Err(Error::Sys { errno: 0 });
                },
            };
            Some(StdinTask { path: stdin_path, dest_fd: fd })
        } else {
            None
        };
        Ok(CopyPlan { tasks, stdin: stdin_task })
    }
}

} // verus!
