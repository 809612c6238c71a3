//! Named-pipe endpoints with an identity check against path swaps.
//!
//! Opening a FIFO for data is done in two steps. First a path capability
//! is acquired (an `O_PATH` descriptor) and the file's identity — device
//! and inode — is recorded. The data-mode open then goes through the
//! capability's `/proc` alias, and every re-derivation of the path from
//! the capability re-validates the identity, so a FIFO that was unlinked
//! and replaced by another actor is detected instead of silently opened.
//!
//! [`Fifo::open`] itself never waits for the peer: it returns the
//! endpoint with a validated capability only. The data-mode open is
//! [`Fifo::connect`], which carries exactly the requested access mode —
//! the creation and non-blocking bits never reach it — and blocks the
//! calling thread until the peer opens its side. A caller that needs
//! that open to suspend rather than block runs `connect` on a worker of
//! its own.

use vstd::prelude::*;
use vstd::string::StringExecFns;
use crate::digits::{decimal_string, spec_decimal};
use crate::error::Error;
use crate::fsio::{
    Access, FileInfo, OpenRequest, sys_close, sys_fstat, sys_mkfifo, sys_open, sys_read_chunk,
    sys_stat, sys_write, ERRNO_NOENT,
};

verus! {

/// The `/proc` alias of an open descriptor, through which the data-mode
/// open is resolved.
pub open spec fn spec_proc_fd_path(fd: int) -> Seq<char> {
    "/proc/self/fd/"@ + spec_decimal(fd as nat)
}

/// Build the `/proc` alias of a descriptor.
pub fn proc_fd_path(fd: i32) -> (r: String)
    requires
        fd >= 0,
    ensures
        r@ == spec_proc_fd_path(fd as int),
{
    let mut s: String = "/proc/self/fd/".to_owned();
    let d = decimal_string(fd as u64);
    s.append(d.as_str());
    s
}

/// The identity check at the heart of the race defense: a re-derived
/// path may be used only if it still names the very file whose identity
/// was captured when the capability was acquired.
pub fn check_identity(expected: &FileInfo, actual: &FileInfo) -> (r: Result<(), Error>)
    ensures
        r is Ok <==> (expected.dev == actual.dev && expected.ino == actual.ino),
        r matches Err(e) ==> e is IdentityMismatch,
{
    if expected.same_identity(actual) {
        Ok(())
    } else {
        Err(Error::IdentityMismatch)
    }
}

/// What to do about a path before a FIFO endpoint is opened on it,
/// decided from the stat outcome: an existing file is never re-created;
/// a missing path is created exactly when creation was requested; any
/// other lookup failure, and a missing path without creation, is an
/// error carrying the stat errno.
pub fn fifo_create_decision(stat_outcome: Result<FileInfo, i32>, create: bool) -> (r: Result<
    bool,
    Error,
>)
    ensures
        stat_outcome is Ok ==> (r matches Ok(need) && !need),
        stat_outcome matches Err(e) ==> {
            &&& (e == ERRNO_NOENT && create) ==> (r matches Ok(need) && need)
            &&& !(e == ERRNO_NOENT && create) ==> (r matches Err(er) && (er
                matches Error::Sys { errno } && errno == e))
        },
{
    match stat_outcome {
        Ok(_) => Ok(false),
        Err(errno) => {
            if errno == ERRNO_NOENT && create {
                Ok(true)
            } else {
                Err(Error::Sys { errno })
            }
        },
    }
}

/// Whether a stat outcome names a FIFO: a present file answers by its
/// type bits, a missing path answers no, and any other lookup failure
/// is an error carrying the stat errno.
pub fn classify_fifo_stat(stat_outcome: Result<FileInfo, i32>) -> (r: Result<bool, Error>)
    ensures
        stat_outcome matches Ok(info) ==> (r matches Ok(b) && b == info.spec_is_fifo()),
        stat_outcome matches Err(e) ==> {
            &&& e == ERRNO_NOENT ==> (r matches Ok(b) && !b)
            &&& e != ERRNO_NOENT ==> (r matches Err(er) && (er matches Error::Sys { errno }
                && errno == e))
        },
{
    match stat_outcome {
        Ok(info) => Ok(info.is_fifo()),
        Err(errno) => {
            if errno == ERRNO_NOENT {
                Ok(false)
            } else {
                Err(Error::Sys { errno })
            }
        },
    }
}

/// The open request of a data-mode open: exactly the endpoint's access
/// mode, with the creation and non-blocking bits stripped.
pub fn data_open_request(access: Access) -> (r: OpenRequest)
    ensures
        r == (OpenRequest {
            access,
            create: false,
            append: false,
            truncate: false,
            path_only: false,
            mode: 0,
        }),
{
    OpenRequest {
        access,
        create: false,
        append: false,
        truncate: false,
        path_only: false,
        mode: 0,
    }
}

/// A path capability for one FIFO: an `O_PATH` descriptor plus the
/// identity of the file it was taken on.
#[derive(Debug)]
pub struct Handler {
    fd: i32,
    id: FileInfo,
    name: String,
}

impl Handler {
    /// The capability is an open descriptor.
    pub closed spec fn wf(self) -> bool {
        self.fd >= 0
    }

    /// The capability descriptor itself, for stating which `/proc` alias
    /// the re-derived path names.
    pub closed spec fn spec_fd(self) -> int {
        self.fd as int
    }

    /// The path the capability was acquired on.
    pub closed spec fn spec_name(self) -> Seq<char> {
        self.name@
    }

    /// The identity captured at acquisition time.
    pub closed spec fn spec_id(self) -> FileInfo {
        self.id
    }

    /// Acquire a capability on a path: open it `O_PATH`, record the
    /// file's identity, and make sure the `/proc` alias is live.
    pub fn new(path: &str) -> (r: Result<Handler, Error>)
        ensures
            r matches Ok(h) ==> h.wf() && h.spec_name() == path@,
            r matches Err(e) ==> e is Sys,
    {
        let req = OpenRequest {
            access: Access::Read,
            create: false,
            append: false,
            truncate: false,
            path_only: true,
            mode: 0,
        };
        let fd = match sys_open(path, &req) {
            Ok(fd) => fd,
            Err(errno) => {
                return Err(Error::Sys { errno });
            },
        };
        let id = match sys_fstat(fd) {
            Ok(id) => id,
            Err(errno) => {
                let _ = sys_close(fd);
                return Err(Error::Sys { errno });
            },
        };
        let h = Handler { fd, id, name: path.to_owned() };
        let alias = h.proc_path();
        match sys_stat(alias.as_str()) {
            Ok(_) => Ok(h),
            Err(errno) => {
                let _ = sys_close(h.fd);
                Err(Error::Sys { errno })
            },
        }
    }

    /// The `/proc` alias of the capability descriptor.
    pub fn proc_path(&self) -> (r: String)
        requires
            self.wf(),
        ensures
            r@ == spec_proc_fd_path(self.spec_fd()),
    {
        proc_fd_path(self.fd)
    }

    /// Re-derive an openable path from the capability, re-validating the
    /// identity first. A swap of the original path surfaces as an
    /// identity mismatch, not as a connection to the wrong file.
    pub fn path(&self) -> (r: Result<String, Error>)
        requires
            self.wf(),
        ensures
            r matches Ok(p) ==> p@ == spec_proc_fd_path(self.spec_fd()),
            r matches Err(e) ==> e is Sys || e is IdentityMismatch,
    {
        let alias = self.proc_path();
        let st = match sys_stat(alias.as_str()) {
            Ok(st) => st,
            Err(errno) => {
                return Err(Error::Sys { errno });
            },
        };
        match check_identity(&self.id, &st) {
            Ok(_) => Ok(alias),
            Err(e) => Err(e),
        }
    }

    /// Release the capability descriptor.
    pub fn close(&self) -> (r: Result<(), Error>)
        ensures
            r matches Err(e) ==> e is Sys,
    {
        match sys_close(self.fd) {
            Ok(_) => Ok(()),
            Err(errno) => Err(Error::Sys { errno }),
        }
    }
}

/// How a FIFO endpoint is to be opened. Opening never waits for the
/// peer side — the endpoint is returned before any data-mode open — so
/// there is no non-blocking flag to carry: the data-mode open strips it
/// by construction.
#[derive(Debug, Clone, PartialEq, Eq, Structural)]
pub struct FifoOpenOptions {
    /// Read side, write side, or both.
    pub access: Access,
    /// Create the FIFO special file if the path does not exist.
    pub create: bool,
    /// Permission bits for a newly created FIFO.
    pub mode: u32,
}

/// One end of a named pipe, with its capability and, once connected, its
/// data descriptor.
#[derive(Debug)]
pub struct Fifo {
    handle: Handler,
    access: Access,
    data_fd: Option<i32>,
}

impl Fifo {
    pub closed spec fn wf(self) -> bool {
        self.handle.wf()
    }

    /// Whether the data-mode descriptor has been opened.
    pub closed spec fn is_connected(self) -> bool {
        self.data_fd is Some
    }

    /// The access mode the endpoint was requested with.
    pub closed spec fn spec_access(self) -> Access {
        self.access
    }

    /// Open a FIFO endpoint without waiting for the peer. Whether the
    /// special file must be created first is decided by
    /// [`fifo_create_decision`] over the path's stat outcome: missing
    /// plus creation requested means mkfifo with the permission bits
    /// masked to `mode & 0o777`; an existing file is never re-created.
    /// The returned endpoint holds a validated capability but no data
    /// descriptor yet: [`Fifo::connect`] performs the data-mode open.
    pub fn open(path: &str, opts: &FifoOpenOptions) -> (r: Result<Fifo, Error>)
        ensures
            r matches Ok(f) ==> f.wf() && !f.is_connected() && f.spec_access() == opts.access,
            r matches Err(e) ==> e is Sys || e is IdentityMismatch,
    {
        let need_create = match fifo_create_decision(sys_stat(path), opts.create) {
            Ok(need) => need,
            Err(e) => {
                return Err(e);
            },
        };
        if need_create {
            if let Err(errno) = sys_mkfifo(path, opts.mode & 0o777) {
                return Err(Error::Sys { errno });
            }
        }
        let handle = Handler::new(path)?;
        Ok(Fifo { handle, access: opts.access, data_fd: None })
    }

    /// Open the data-mode descriptor through the capability's validated
    /// `/proc` alias. The request is [`data_open_request`] of the
    /// endpoint's access mode: the creation and non-blocking bits are
    /// stripped, so this open blocks the calling thread until the peer
    /// opens its side; a caller that must not block runs it on a worker
    /// of its own.
    pub fn connect(&mut self) -> (r: Result<(), Error>)
        requires
            old(self).wf(),
            !old(self).is_connected(),
        ensures
            final(self).wf(),
            r is Ok ==> final(self).is_connected(),
            r is Err ==> *final(self) == *old(self),
            final(self).spec_access() == old(self).spec_access(),
            r matches Err(e) ==> e is Sys || e is IdentityMismatch,
    {
        let vpath = match self.handle.path() {
            Ok(p) => p,
            Err(e) => {
                return Err(e);
            },
        };
        let req = data_open_request(self.access);
        match sys_open(vpath.as_str(), &req) {
            Ok(fd) => {
                self.data_fd = Some(fd);
                Ok(())
            },
            Err(errno) => Err(Error::Sys { errno }),
        }
    }

    /// Hand the connected data descriptor to the caller; the endpoint
    /// keeps its capability but is no longer connected. This is how an
    /// embedder takes ownership of the byte stream for its own copy
    /// loop.
    pub fn take_data_fd(&mut self) -> (r: Option<i32>)
        ensures
            !final(self).is_connected(),
            final(self).wf() == old(self).wf(),
            final(self).spec_access() == old(self).spec_access(),
            r is Some <==> old(self).is_connected(),
    {
        let fd = self.data_fd;
        self.data_fd = None;
        fd
    }

    /// Read up to `cap` bytes from the connected endpoint. An empty
    /// result is end of stream: the peer closed its side.
    pub fn read_chunk(&self, cap: usize) -> (r: Result<Vec<u8>, Error>)
        requires
            self.is_connected(),
        ensures
            r matches Ok(v) ==> v@.len() <= cap,
            r matches Err(e) ==> e is Sys,
    {
        let fd = match self.data_fd {
            Some(fd) => fd,
            None => {
                return Err(Error::Sys { errno: 0 });
            },
        };
        match sys_read_chunk(fd, cap) {
            Ok(v) => Ok(v),
            Err(errno) => Err(Error::Sys { errno }),
        }
    }

    /// Write the whole buffer to the connected endpoint. A write that
    /// makes no progress reports a broken pipe.
    pub fn write_all(&self, data: &Vec<u8>) -> (r: Result<(), Error>)
        requires
            self.is_connected(),
        ensures
            r matches Err(e) ==> e is Sys || e is BrokenPipe,
    {
        let fd = match self.data_fd {
            Some(fd) => fd,
            None => {
                return Err(Error::Sys { errno: 0 });
            },
        };
        let mut off: usize = 0;
        let n = data.len();
        while off < n
            invariant
                off <= n,
                n == data@.len(),
            decreases n - off,
        {
            let part = vstd::slice::slice_subrange(data.as_slice(), off, n);
            match sys_write(fd, part) {
                Ok(written) => {
                    if written == 0 {
                        return Err(Error::BrokenPipe);
                    }
                    off = off + written;
                },
                Err(errno) => {
                    return Err(Error::Sys { errno });
                },
            }
        }
        Ok(())
    }

    /// Close the data descriptor, letting the peer observe end of
    /// stream; the capability stays open.
    pub fn close_data(&mut self) -> (r: Result<(), Error>)
        ensures
            !final(self).is_connected(),
            final(self).wf() == old(self).wf(),
            r matches Err(e) ==> e is Sys,
    {
        match self.data_fd {
            Some(fd) => {
                self.data_fd = None;
                match sys_close(fd) {
                    Ok(_) => Ok(()),
                    Err(errno) => Err(Error::Sys { errno }),
                }
            },
            None => Ok(()),
        }
    }

    /// Release the capability descriptor; the data descriptor, if any,
    /// stays with the endpoint.
    pub fn close(&self) -> (r: Result<(), Error>)
        ensures
            r matches Err(e) ==> e is Sys,
    {
        self.handle.close()
    }
}

/// Whether the path currently names a FIFO special file. The decision
/// over the stat outcome — type bits of a present file, "no" for a
/// missing path, an error otherwise — is [`classify_fifo_stat`], whose
/// contract pins it; what stat reports depends on the disk.
pub fn is_fifo(path: &str) -> (r: Result<bool, Error>)
    ensures
        r matches Err(e) ==> e is Sys,
{
    classify_fifo_stat(sys_stat(path))
}

} // verus!
