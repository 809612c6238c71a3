//! Plain configuration data handed to the engine by its embedder.

use vstd::prelude::*;

verus! {

/// The user-requested destinations of a process's three stdio streams,
/// plus whether a terminal was requested instead.
#[derive(Debug, Clone)]
pub struct StdioConfig {
    pub stdin: String,
    pub stdout: String,
    pub stderr: String,
    pub terminal: bool,
}

impl StdioConfig {
    /// No destination was requested for any stream.
    pub open spec fn spec_is_null(self) -> bool {
        self.stdin@.len() == 0 && self.stdout@.len() == 0 && self.stderr@.len() == 0
    }

    /// Whether the configuration requests no stdio wiring at all.
    pub fn is_null(&self) -> (r: bool)
        ensures
            r == self.spec_is_null(),
    {
        self.stdin.as_str().is_empty() && self.stdout.as_str().is_empty()
            && self.stderr.as_str().is_empty()
    }
}

impl Default for StdioConfig {
    /// Empty destinations and no terminal.
    fn default() -> (r: StdioConfig)
        ensures
            r.spec_is_null() && !r.terminal,
    {
        StdioConfig {
            stdin: String::new(),
            stdout: String::new(),
            stderr: String::new(),
            terminal: false,
        }
    }
}

/// One rootfs mount specification.
#[derive(Debug, Clone)]
pub struct MountConfig {
    pub mount_type: String,
    pub source: String,
    pub target: String,
    pub options: Vec<String>,
}

/// Everything a create request carries that the engine acts on.
#[derive(Debug, Clone)]
pub struct CreateConfig {
    pub id: String,
    pub bundle: String,
    pub runtime: String,
    pub rootfs: Vec<MountConfig>,
    pub terminal: bool,
    pub stdin: String,
    pub stdout: String,
    pub stderr: String,
}

impl CreateConfig {
    /// The stdio part of the request.
    pub fn stdio(&self) -> (r: StdioConfig)
        ensures
            r.stdin@ == self.stdin@,
            r.stdout@ == self.stdout@,
            r.stderr@ == self.stderr@,
            r.terminal == self.terminal,
    {
        StdioConfig {
            stdin: self.stdin.clone(),
            stdout: self.stdout.clone(),
            stderr: self.stderr.clone(),
            terminal: self.terminal,
        }
    }
}

/// The resolved runtime options that accompany a container for its whole
/// life, persisted in the bundle directory.
#[derive(Debug, Clone)]
pub struct Options {
    /// Root directory for the external runtime's own state.
    pub root: String,
    /// Name of the external runtime binary.
    pub binary_name: String,
    /// Drive cgroups through systemd.
    pub systemd_cgroup: bool,
    /// Owner for the container side of the stdio pipes.
    pub io_uid: u32,
    pub io_gid: u32,
    /// Skip pivot_root when entering the rootfs.
    pub no_pivot_root: bool,
    /// Do not create a fresh session keyring for the container.
    pub no_new_keyring: bool,
}

impl Default for Options {
    /// Empty paths and every flag off.
    fn default() -> (r: Options)
        ensures
            r.root@.len() == 0,
            r.binary_name@.len() == 0,
            !r.systemd_cgroup,
            r.io_uid == 0,
            r.io_gid == 0,
            !r.no_pivot_root,
            !r.no_new_keyring,
    {
        Options {
            root: String::new(),
            binary_name: String::new(),
            systemd_cgroup: false,
            io_uid: 0,
            io_gid: 0,
            no_pivot_root: false,
            no_new_keyring: false,
        }
    }
}

} // verus!
