//! Raw file-system access for the engine.
//!
//! Every operating-system call the engine needs goes through one small
//! trusted wrapper here; the functions around them — reading a whole
//! file, writing one out — are verified loops over those wrappers. What a
//! call returns depends on the state of the disk, so the wrappers promise
//! only what holds of every outcome; the engine's decisions about those
//! outcomes are the verified part.

use vstd::prelude::*;
use crate::error::Error;

verus! {

/// Access mode of an open request.
#[derive(Debug, Clone, Copy, PartialEq, Eq, Structural)]
pub enum Access {
    Read,
    Write,
    ReadWrite,
}

/// A request to open a path, mirroring the open(2) flags the engine uses.
#[derive(Debug, Clone, PartialEq, Eq, Structural)]
pub struct OpenRequest {
    pub access: Access,
    /// Create the file if it does not exist.
    pub create: bool,
    /// Append to the file instead of overwriting.
    pub append: bool,
    /// Truncate an existing file on open.
    pub truncate: bool,
    /// Acquire a path capability only (no data access).
    pub path_only: bool,
    /// Permission bits applied when creating.
    pub mode: u32,
}

impl OpenRequest {
    /// A plain read-only open.
    pub fn read() -> (r: OpenRequest)
        ensures
            r == (OpenRequest {
                access: Access::Read,
                create: false,
                append: false,
                truncate: false,
                path_only: false,
                mode: 0,
            }),
    {
        OpenRequest {
            access: Access::Read,
            create: false,
            append: false,
            truncate: false,
            path_only: false,
            mode: 0,
        }
    }
}

/// Identity and type of a file, as reported by stat(2).
#[derive(Debug, Clone, Copy, PartialEq, Eq, Structural)]
pub struct FileInfo {
    /// Device the file lives on.
    pub dev: u64,
    /// Inode number on that device.
    pub ino: u64,
    /// File mode word, holding the file-type bits.
    pub mode: u32,
}

impl FileInfo {
    /// The file-type bits say the file is a FIFO special file.
    pub open spec fn spec_is_fifo(self) -> bool {
        self.mode & 0o170000 == 0o010000
    }

    /// Whether the stat result describes a FIFO.
    pub fn is_fifo(&self) -> (r: bool)
        ensures
            r == self.spec_is_fifo(),
    {
        self.mode & 0o170000 == 0o010000
    }

    /// Whether two stat results name the same file: same device and
    /// same inode.
    pub fn same_identity(&self, other: &FileInfo) -> (r: bool)
        ensures
            r == (self.dev == other.dev && self.ino == other.ino),
    {
        self.dev == other.dev && self.ino == other.ino
    }
}

/// Relies on nix::fcntl::open: opens the path with the requested flags and
/// returns a fresh non-negative descriptor, or the errno of the failed
/// open(2) call.
#[verifier::external_body]
pub(crate) fn sys_open(path: &str, req: &OpenRequest) -> (r: Result<i32, i32>)
    ensures
        r matches Ok(fd) ==> fd >= 0,
{
    let mut f = match req.access {
        Access::Read => nix::fcntl::OFlag::O_RDONLY,
        Access::Write => nix::fcntl::OFlag::O_WRONLY,
        Access::ReadWrite => nix::fcntl::OFlag::O_RDWR,
    };
    if req.create { f |= nix::fcntl::OFlag::O_CREAT; }
    if req.append { f |= nix::fcntl::OFlag::O_APPEND; }
    if req.truncate { f |= nix::fcntl::OFlag::O_TRUNC; }
    if req.path_only { f = nix::fcntl::OFlag::O_PATH; }
    let m = nix::sys::stat::Mode::from_bits_truncate(req.mode);
    nix::fcntl::open(path, f, m).map_err(|e| e as i32)
}

/// Relies on nix::unistd::close: releases the descriptor.
#[verifier::external_body]
pub(crate) fn sys_close(fd: i32) -> (r: Result<(), i32>) {
    nix::unistd::close(fd).map_err(|e| e as i32)
}

/// Relies on nix::unistd::read: reads at most `cap` bytes from the
/// descriptor; the returned buffer holds exactly the bytes read.
#[verifier::external_body]
pub(crate) fn sys_read_chunk(fd: i32, cap: usize) -> (r: Result<Vec<u8>, i32>)
    ensures
        r matches Ok(v) ==> v@.len() <= cap,
{
    let mut buf = vec![0u8; cap];
    let n = nix::unistd::read(fd, &mut buf).map_err(|e| e as i32)?;
    buf.truncate(n);
    Ok(buf)
}

/// Relies on nix::unistd::write: writes a prefix of the buffer and
/// returns how many bytes the kernel accepted.
#[verifier::external_body]
pub(crate) fn sys_write(fd: i32, buf: &[u8]) -> (r: Result<usize, i32>)
    ensures
        r matches Ok(n) ==> n <= buf@.len(),
{
    nix::unistd::write(fd, buf).map_err(|e| e as i32)
}

/// Relies on nix::unistd::pipe: creates a connected pipe pair and returns
/// (read end, write end), both non-negative.
#[verifier::external_body]
pub(crate) fn sys_pipe() -> (r: Result<(i32, i32), i32>)
    ensures
        r matches Ok(p) ==> p.0 >= 0 && p.1 >= 0,
{
    nix::unistd::pipe().map_err(|e| e as i32)
}

/// Relies on nix::unistd::mkfifo: creates a FIFO special file at the path
/// with the given permission bits.
#[verifier::external_body]
pub(crate) fn sys_mkfifo(path: &str, mode: u32) -> (r: Result<(), i32>) {
    let m = nix::sys::stat::Mode::from_bits_truncate(mode);
    nix::unistd::mkfifo(path, m).map_err(|e| e as i32)
}

/// Relies on nix::unistd::mkdir: creates one directory at the path with
/// the given permission bits.
#[verifier::external_body]
pub(crate) fn sys_mkdir(path: &str, mode: u32) -> (r: Result<(), i32>) {
    let m = nix::sys::stat::Mode::from_bits_truncate(mode);
    nix::unistd::mkdir(path, m).map_err(|e| e as i32)
}

/// Relies on nix::unistd::fchown: changes the owner of the open file.
#[verifier::external_body]
pub(crate) fn sys_fchown(fd: i32, uid: u32, gid: u32) -> (r: Result<(), i32>) {
    nix::unistd::fchown(
        fd,
        Some(nix::unistd::Uid::from_raw(uid)),
        Some(nix::unistd::Gid::from_raw(gid)),
    ).map_err(|e| e as i32)
}

/// Relies on nix::sys::stat::stat: reports device, inode and mode of the
/// file the path resolves to right now.
#[verifier::external_body]
pub(crate) fn sys_stat(path: &str) -> (r: Result<FileInfo, i32>) {
    let st = nix::sys::stat::stat(path).map_err(|e| e as i32)?;
    Ok(FileInfo { dev: st.st_dev, ino: st.st_ino, mode: st.st_mode })
}

/// Relies on nix::sys::stat::fstat: reports device, inode and mode of the
/// open descriptor.
#[verifier::external_body]
pub(crate) fn sys_fstat(fd: i32) -> (r: Result<FileInfo, i32>) {
    let st = nix::sys::stat::fstat(fd).map_err(|e| e as i32)?;
    Ok(FileInfo { dev: st.st_dev, ino: st.st_ino, mode: st.st_mode })
}

/// errno for "no such file or directory".
pub const ERRNO_NOENT: i32 = 2;

/// errno for "file exists".
pub const ERRNO_EXIST: i32 = 17;

/// errno for "file too large", reported when a bookkeeping file exceeds
/// the engine's size budget.
pub const ERRNO_FBIG: i32 = 27;

/// The engine's bookkeeping files (pid file, persisted options) are tiny;
/// reading stops with an error beyond this many bytes.
pub const MAX_FILE_BYTES: usize = 1048576;

/// Read a whole file into memory. The file must stay under
/// [`MAX_FILE_BYTES`]; what the bytes are depends on the disk, so the
/// contract promises only the failure taxonomy.
pub fn read_file_bytes(path: &str) -> (r: Result<Vec<u8>, Error>)
    ensures
        r matches Err(e) ==> e is Sys,
        r matches Ok(v) ==> v@.len() <= MAX_FILE_BYTES,
{
    let req = OpenRequest::read();
    let fd = match sys_open(path, &req) {
        Ok(fd) => fd,
        Err(errno) => {
            return Err(Error::Sys { errno });
        },
    };
    let mut data: Vec<u8> = Vec::new();
    let mut budget: usize = MAX_FILE_BYTES;
    loop
        invariant
            data@.len() + budget <= MAX_FILE_BYTES,
        decreases budget,
    {
        if budget == 0 {
            let _ = sys_close(fd);
            return Err(Error::Sys { errno: ERRNO_FBIG });
        }
        let chunk_cap = if budget < 4096 { budget } else { 4096 };
        match sys_read_chunk(fd, chunk_cap) {
            Ok(chunk) => {
                if chunk.len() == 0 {
                    let _ = sys_close(fd);
                    return Ok(data);
                }
                budget = budget - chunk.len();
                let mut chunk = chunk;
                data.append(&mut chunk);
            },
            Err(errno) => {
                let _ = sys_close(fd);
                return Err(Error::Sys { errno });
            },
        }
    }
}

/// Write a whole buffer to a file described by the open request. A write
/// that makes no progress is reported as a broken pipe rather than
/// retried forever.
pub fn write_file_all(path: &str, req: &OpenRequest, data: &Vec<u8>) -> (r: Result<(), Error>)
    ensures
        r matches Err(e) ==> e is Sys || e is BrokenPipe,
{
    let fd = match sys_open(path, req) {
        Ok(fd) => fd,
        Err(errno) => {
            return Err(Error::Sys { errno });
        },
    };
    let mut off: usize = 0;
    let n = data.len();
    while off < n
        invariant
            off <= n,
            n == data@.len(),
        decreases n - off,
    {
        let rest = data.len() - off;
        let part = vstd::slice::slice_subrange(data.as_slice(), off, n);
        match sys_write(fd, part) {
            Ok(written) => {
                if written == 0 {
                    let _ = sys_close(fd);
                    return Err(Error::BrokenPipe);
                }
                if written > rest {
                    let _ = sys_close(fd);
                    return Err(Error::BrokenPipe);
                }
                off = off + written;
            },
            Err(errno) => {
                let _ = sys_close(fd);
                return Err(Error::Sys { errno });
            },
        }
    }
    match sys_close(fd) {
        Ok(_) => Ok(()),
        Err(errno) => Err(Error::Sys { errno }),
    }
}

} // verus!
