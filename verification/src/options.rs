//! Command-line options for the external runtime's subcommands.
//!
//! Each option set renders to the exact argument strings the runtime
//! binary expects. Paths are resolved to absolute form first; the
//! resolved strings depend on the working directory, so the contracts
//! pin the full shape of the argument list and leave only the two path
//! slots symbolic.

use vstd::prelude::*;
use vstd::string::StringExecFns;
use crate::error::Error;

verus! {

/// Option sets that render themselves as command-line arguments.
pub trait Args {
    type Output;

    fn args(&self) -> Self::Output;
}

/// Relies on path_absolutize::Absolutize::absolutize: resolves a path
/// against the current working directory; the result depends on that
/// directory, so nothing is claimed of its text.
#[verifier::external_body]
fn absolutize(path: &str) -> (r: Result<String, ()>) {
    match path_absolutize::Absolutize::absolutize(std::path::Path::new(path)) {
        Ok(p) => Ok(p.to_string_lossy().into_owned()),
        Err(_) => Err(()),
    }
}

/// Resolve a path for an argument slot; failure is an invalid-path
/// error.
pub(crate) fn abs_arg(path: &str) -> (r: Result<String, Error>)
    ensures
        r matches Err(e) ==> e is InvalidPath,
{
    match absolutize(path) {
        Ok(p) => Ok(p),
        Err(_) => Err(Error::InvalidPath),
    }
}

/// The argument list of the create subcommand's options: the pid-file
/// and console-socket slots, then the flags, each exactly when set.
pub open spec fn spec_create_args(
    pid_file: Option<Seq<char>>,
    console_socket: Option<Seq<char>>,
    detach: bool,
    no_pivot: bool,
    no_new_keyring: bool,
) -> Seq<Seq<char>> {
    (match pid_file {
        Some(p) => seq!["--pid-file"@, p],
        None => Seq::empty(),
    }) + (match console_socket {
        Some(c) => seq!["--console-socket"@, c],
        None => Seq::empty(),
    }) + (if no_pivot {
        seq!["--no-pivot"@]
    } else {
        Seq::empty()
    }) + (if no_new_keyring {
        seq!["--no-new-keyring"@]
    } else {
        Seq::empty()
    }) + (if detach {
        seq!["--detach"@]
    } else {
        Seq::empty()
    })
}

/// Options of the runtime's create subcommand.
#[derive(Debug, Clone)]
pub struct CreateOpts {
    /// Path where the runtime writes the new process's pid.
    pub pid_file: Option<String>,
    /// Path of the console socket, when a terminal is requested.
    pub console_socket: Option<String>,
    /// Detach from the container's process.
    pub detach: bool,
    /// Skip pivot_root when entering the rootfs.
    pub no_pivot: bool,
    /// Do not create a new session keyring.
    pub no_new_keyring: bool,
}

impl CreateOpts {
    /// All options off.
    pub fn new() -> (r: CreateOpts)
        ensures
            r.pid_file is None,
            r.console_socket is None,
            !r.detach,
            !r.no_pivot,
            !r.no_new_keyring,
    {
        CreateOpts {
            pid_file: None,
            console_socket: None,
            detach: false,
            no_pivot: false,
            no_new_keyring: false,
        }
    }

    pub fn pid_file(self, pid_file: &str) -> (r: CreateOpts)
        ensures
            r.pid_file matches Some(p) && p@ == pid_file@,
            r.console_socket == self.console_socket,
            r.detach == self.detach,
            r.no_pivot == self.no_pivot,
            r.no_new_keyring == self.no_new_keyring,
    {
        CreateOpts { pid_file: Some(pid_file.to_owned()), ..self }
    }

    pub fn console_socket(self, console_socket: &str) -> (r: CreateOpts)
        ensures
            r.console_socket matches Some(c) && c@ == console_socket@,
            r.pid_file == self.pid_file,
            r.detach == self.detach,
            r.no_pivot == self.no_pivot,
            r.no_new_keyring == self.no_new_keyring,
    {
        CreateOpts { console_socket: Some(console_socket.to_owned()), ..self }
    }

    pub fn detach(self, detach: bool) -> (r: CreateOpts)
        ensures
            r == (CreateOpts { detach, ..self }),
    {
        CreateOpts { detach, ..self }
    }

    pub fn no_pivot(self, no_pivot: bool) -> (r: CreateOpts)
        ensures
            r == (CreateOpts { no_pivot, ..self }),
    {
        CreateOpts { no_pivot, ..self }
    }

    pub fn no_new_keyring(self, no_new_keyring: bool) -> (r: CreateOpts)
        ensures
            r == (CreateOpts { no_new_keyring, ..self }),
    {
        CreateOpts { no_new_keyring, ..self }
    }

    /// Render the options, resolving the path slots to absolute form.
    pub fn to_args(&self) -> (r: Result<Vec<String>, Error>)
        ensures
            r matches Ok(v) ==> exists|pa: Option<Seq<char>>, ca: Option<Seq<char>>|
                v.deep_view() == spec_create_args(
                    pa,
                    ca,
                    self.detach,
                    self.no_pivot,
                    self.no_new_keyring,
                ) && (pa is Some <==> self.pid_file is Some) && (ca is Some <==> self.console_socket is Some),
            r matches Err(e) ==> e is InvalidPath && (self.pid_file is Some
                || self.console_socket is Some),
    {
        let mut v: Vec<String> = Vec::new();
        let ghost mut pa: Option<Seq<char>> = None;
        let ghost mut ca: Option<Seq<char>> = None;
        match &self.pid_file {
            Some(p) => {
                let a = abs_arg(p.as_str())?;
                proof {
                    pa = Some(a@);
                }
                v.push("--pid-file".to_owned());
                v.push(a);
            },
            None => {
            },
        }
        match &self.console_socket {
            Some(c) => {
                let a = abs_arg(c.as_str())?;
                proof {
                    ca = Some(a@);
                }
                v.push("--console-socket".to_owned());
                v.push(a);
            },
            None => {
            },
        }
        if self.no_pivot {
            v.push("--no-pivot".to_owned());
        }
        if self.no_new_keyring {
            v.push("--no-new-keyring".to_owned());
        }
        if self.detach {
            v.push("--detach".to_owned());
        }
        proof {
            assert(v.deep_view() =~= spec_create_args(
                pa,
                ca,
                self.detach,
                self.no_pivot,
                self.no_new_keyring,
            ));
        }
        Ok(v)
    }
}

/// Adapts the trait shape only; callers that need the rendering
/// contract use [`CreateOpts::to_args`], which carries it.
impl Args for CreateOpts {
    type Output = Result<Vec<String>, Error>;

    fn args(&self) -> Self::Output {
        self.to_args()
    }
}

/// The argument list of the exec subcommand's options.
pub open spec fn spec_exec_args(
    pid_file: Option<Seq<char>>,
    console_socket: Option<Seq<char>>,
    detach: bool,
) -> Seq<Seq<char>> {
    (match pid_file {
        Some(p) => seq!["--pid-file"@, p],
        None => Seq::empty(),
    }) + (match console_socket {
        Some(c) => seq!["--console-socket"@, c],
        None => Seq::empty(),
    }) + (if detach {
        seq!["--detach"@]
    } else {
        Seq::empty()
    })
}

/// Options of the runtime's exec subcommand.
#[derive(Debug, Clone)]
pub struct ExecOpts {
    pub pid_file: Option<String>,
    pub console_socket: Option<String>,
    pub detach: bool,
}

impl ExecOpts {
    /// All options off.
    pub fn new() -> (r: ExecOpts)
        ensures
            r.pid_file is None,
            r.console_socket is None,
            !r.detach,
    {
        ExecOpts { pid_file: None, console_socket: None, detach: false }
    }

    pub fn pid_file(self, pid_file: &str) -> (r: ExecOpts)
        ensures
            r.pid_file matches Some(p) && p@ == pid_file@,
            r.console_socket == self.console_socket,
            r.detach == self.detach,
    {
        ExecOpts { pid_file: Some(pid_file.to_owned()), ..self }
    }

    pub fn console_socket(self, console_socket: &str) -> (r: ExecOpts)
        ensures
            r.console_socket matches Some(c) && c@ == console_socket@,
            r.pid_file == self.pid_file,
            r.detach == self.detach,
    {
        ExecOpts { console_socket: Some(console_socket.to_owned()), ..self }
    }

    pub fn detach(self, detach: bool) -> (r: ExecOpts)
        ensures
            r == (ExecOpts { detach, ..self }),
    {
        ExecOpts { detach, ..self }
    }

    /// Render the options, resolving the path slots to absolute form.
    pub fn to_args(&self) -> (r: Result<Vec<String>, Error>)
        ensures
            r matches Ok(v) ==> exists|pa: Option<Seq<char>>, ca: Option<Seq<char>>|
                v.deep_view() == spec_exec_args(pa, ca, self.detach) && (pa is Some
                    <==> self.pid_file is Some) && (ca is Some <==> self.console_socket is Some),
            r matches Err(e) ==> e is InvalidPath && (self.pid_file is Some
                || self.console_socket is Some),
    {
        let mut v: Vec<String> = Vec::new();
        let ghost mut pa: Option<Seq<char>> = None;
        let ghost mut ca: Option<Seq<char>> = None;
        match &self.pid_file {
            Some(p) => {
                let a = abs_arg(p.as_str())?;
                proof {
                    pa = Some(a@);
                }
                v.push("--pid-file".to_owned());
                v.push(a);
            },
            None => {
            },
        }
        match &self.console_socket {
            Some(c) => {
                let a = abs_arg(c.as_str())?;
                proof {
                    ca = Some(a@);
                }
                v.push("--console-socket".to_owned());
                v.push(a);
            },
            None => {
            },
        }
        if self.detach {
            v.push("--detach".to_owned());
        }
        proof {
            assert(v.deep_view() =~= spec_exec_args(pa, ca, self.detach));
        }
        Ok(v)
    }
}

/// Adapts the trait shape only; callers that need the rendering
/// contract use [`ExecOpts::to_args`], which carries it.
impl Args for ExecOpts {
    type Output = Result<Vec<String>, Error>;

    fn args(&self) -> Self::Output {
        self.to_args()
    }
}

/// Options of the runtime's delete subcommand.
#[derive(Debug, Clone, PartialEq, Eq, Structural)]
pub struct DeleteOpts {
    /// Delete the container even if it is still running.
    pub force: bool,
}

impl DeleteOpts {
    pub fn new() -> (r: DeleteOpts)
        ensures
            !r.force,
    {
        DeleteOpts { force: false }
    }

    pub fn force(self, force: bool) -> (r: DeleteOpts)
        ensures
            r.force == force,
    {
        DeleteOpts { force }
    }

    /// Render the options: `--force` exactly when set.
    pub fn to_args(&self) -> (r: Vec<String>)
        ensures
            self.force ==> r.deep_view() =~= seq!["--force"@],
            !self.force ==> r.deep_view() =~= Seq::<Seq<char>>::empty(),
    {
        let mut v: Vec<String> = Vec::new();
        if self.force {
            v.push("--force".to_owned());
        }
        v
    }
}

/// Adapts the trait shape only; callers that need the rendering
/// contract use [`DeleteOpts::to_args`], which carries it.
impl Args for DeleteOpts {
    type Output = Vec<String>;

    fn args(&self) -> Self::Output {
        self.to_args()
    }
}

/// Options of the runtime's kill subcommand.
#[derive(Debug, Clone, PartialEq, Eq, Structural)]
pub struct KillOpts {
    /// Signal every process in the container, not only init.
    pub all: bool,
}

impl KillOpts {
    pub fn new() -> (r: KillOpts)
        ensures
            !r.all,
    {
        KillOpts { all: false }
    }

    pub fn all(self, all: bool) -> (r: KillOpts)
        ensures
            r.all == all,
    {
        KillOpts { all }
    }

    /// Render the options: `--all` exactly when set.
    pub fn to_args(&self) -> (r: Vec<String>)
        ensures
            self.all ==> r.deep_view() =~= seq!["--all"@],
            !self.all ==> r.deep_view() =~= Seq::<Seq<char>>::empty(),
    {
        let mut v: Vec<String> = Vec::new();
        if self.all {
            v.push("--all".to_owned());
        }
        v
    }
}

/// Adapts the trait shape only; callers that need the rendering
/// contract use [`KillOpts::to_args`], which carries it.
impl Args for KillOpts {
    type Output = Vec<String>;

    fn args(&self) -> Self::Output {
        self.to_args()
    }
}

} // verus!
