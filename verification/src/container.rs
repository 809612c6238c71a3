//! One container: its init process, exec'd processes, rootfs mounts and
//! persisted bookkeeping — plus the registry of all containers.
//!
//! Mount failures clean up after themselves: when the Nth of N rootfs
//! mounts fails, every previously applied mount is unmounted, in reverse
//! order, before the failure is returned, and the record of that cleanup
//! is part of the result. A container enters the registry only by
//! [`ContainerRegistry::insert`], which refuses a duplicate id and
//! leaves the registry unchanged in that case.

use vstd::prelude::*;
use vstd::string::{StringExecFns, StrSliceExecFns};
use crate::config::{CreateConfig, MountConfig, Options, StdioConfig};
use crate::error::Error;
use crate::fsio::{sys_mkdir, write_file_all, Access, OpenRequest, ERRNO_EXIST};
use crate::init::{CreatePlan, InitProcess};
use crate::monitor::Timestamp;
use crate::paths::{path_join, spec_path_join};
use crate::runc::{RawOutput, RuncCommand};
use crate::state::ProcessState;

verus! {

/// Relies on sys_mount::Mount::new: probes the supported filesystems
/// and mounts the source onto the target; the returned guard does not
/// unmount on drop.
#[verifier::external_body]
pub(crate) fn sys_mount_auto(source: &str, target: &str) -> (r: Result<(), ()>) {
    match sys_mount::Mount::new(source, target) {
        Ok(_) => Ok(()),
        Err(_) => Err(()),
    }
}

/// Relies on sys_mount::unmount: detaches the filesystem mounted at the
/// target path.
#[verifier::external_body]
pub(crate) fn sys_unmount(target: &str) -> (r: Result<(), ()>) {
    match sys_mount::unmount(target, sys_mount::UnmountFlags::empty()) {
        Ok(_) => Ok(()),
        Err(_) => Err(()),
    }
}

/// What a failed rootfs mount left behind: which entry failed, and the
/// sources of the previously applied entries, each unmounted again, most
/// recent first.
#[derive(Debug, Clone)]
pub struct MountFailure {
    pub index: usize,
    pub cleaned: Vec<String>,
}

/// Apply all rootfs mounts onto the target in order. If one fails, every
/// mount applied before it is unmounted again — in reverse order of
/// application — before the failure is returned: the cleanup record
/// lists exactly the sources of the applied prefix, reversed. Cleanup
/// failures are deliberately not escalated over the original error.
pub fn mount_all(mounts: &Vec<MountConfig>, target: &str) -> (r: Result<usize, MountFailure>)
    ensures
        r matches Ok(n) ==> n == mounts@.len(),
        r matches Err(f) ==> {
            &&& f.index < mounts@.len()
            &&& f.cleaned@.len() == f.index
            &&& forall|k: int|
                0 <= k < f.index ==> (#[trigger] f.cleaned@[k])@ == mounts@[f.index - 1 - k].source@
        },
{
    let n = mounts.len();
    let mut i: usize = 0;
    while i < n
        invariant
            i <= n,
            n == mounts@.len(),
        decreases n - i,
    {
        match sys_mount_auto(mounts[i].source.as_str(), target) {
            Ok(_) => {
            },
            Err(_) => {
                let mut cleaned: Vec<String> = Vec::new();
                let mut j: usize = i;
                while j > 0
                    invariant
                        j <= i < n,
                        n == mounts@.len(),
                        cleaned@.len() == i - j,
                        forall|k: int|
                            0 <= k < i - j ==> (#[trigger] cleaned@[k])@ == mounts@[i - 1
                                - k].source@,
                    decreases j,
                {
                    j = j - 1;
                    let _ = sys_unmount(target);
                    cleaned.push(mounts[j].source.clone());
                }
                return Err(MountFailure { index: i, cleaned });
            },
        }
        i = i + 1;
    }
    Ok(n)
}

/// Byte rendering of a number in decimal.
pub open spec fn spec_decimal_bytes(n: nat) -> Seq<u8>
    decreases n,
{
    if n < 10 {
        seq![(48 + n) as u8]
    } else {
        spec_decimal_bytes(n / 10) + seq![(48 + n % 10) as u8]
    }
}

/// Render a number as decimal digit bytes.
pub fn decimal_bytes(n: u64) -> (r: Vec<u8>)
    ensures
        r@ == spec_decimal_bytes(n as nat),
    decreases n,
{
    if n < 10 {
        let mut v: Vec<u8> = Vec::new();
        v.push(48 + (n as u8));
        proof {
            assert(v@ =~= spec_decimal_bytes(n as nat));
        }
        v
    } else {
        let mut v = decimal_bytes(n / 10);
        v.push(48 + ((n % 10) as u8));
        proof {
            assert(v@ =~= spec_decimal_bytes(n as nat));
        }
        v
    }
}

/// One length-prefixed field of the persisted options: the byte length
/// in decimal, a colon, the bytes, a newline.
pub open spec fn spec_field_bytes(b: Seq<u8>) -> Seq<u8> {
    spec_decimal_bytes(b.len()) + seq![58u8] + b + seq![10u8]
}

/// One boolean of the persisted options: `0` or `1` and a newline.
pub open spec fn spec_bool_bytes(b: bool) -> Seq<u8> {
    seq![if b { 49u8 } else { 48u8 }, 10u8]
}

/// One number of the persisted options: decimal digits and a newline.
pub open spec fn spec_num_bytes(n: nat) -> Seq<u8> {
    spec_decimal_bytes(n) + seq![10u8]
}

/// The persisted rendering of the runtime options, field by field in
/// declaration order.
pub open spec fn spec_encode_options(
    root: Seq<u8>,
    binary_name: Seq<u8>,
    systemd_cgroup: bool,
    io_uid: u32,
    io_gid: u32,
    no_pivot_root: bool,
    no_new_keyring: bool,
) -> Seq<u8> {
    spec_field_bytes(root) + spec_field_bytes(binary_name) + spec_bool_bytes(systemd_cgroup)
        + spec_num_bytes(io_uid as nat) + spec_num_bytes(io_gid as nat) + spec_bool_bytes(
        no_pivot_root,
    ) + spec_bool_bytes(no_new_keyring)
}

fn push_field_bytes(out: &mut Vec<u8>, b: &Vec<u8>)
    ensures
        final(out)@ == old(out)@ + spec_field_bytes(b@),
{
    let ghost start = out@;
    let mut len_bytes = decimal_bytes(b.len() as u64);
    out.append(&mut len_bytes);
    out.push(58);
    let mut data = b.clone();
    out.append(&mut data);
    out.push(10);
    proof {
        assert(out@ =~= start + spec_field_bytes(b@));
    }
}

fn push_bool_bytes(out: &mut Vec<u8>, b: bool)
    ensures
        final(out)@ == old(out)@ + spec_bool_bytes(b),
{
    let ghost start = out@;
    if b {
        out.push(49);
    } else {
        out.push(48);
    }
    out.push(10);
    proof {
        assert(out@ =~= start + spec_bool_bytes(b));
    }
}

fn push_num_bytes(out: &mut Vec<u8>, n: u32)
    ensures
        final(out)@ == old(out)@ + spec_num_bytes(n as nat),
{
    let ghost start = out@;
    let mut digits = decimal_bytes(n as u64);
    out.append(&mut digits);
    out.push(10);
    proof {
        assert(out@ =~= start + spec_num_bytes(n as nat));
    }
}

/// Encode the persisted options from their raw field values.
pub fn encode_options_bytes(
    root: &Vec<u8>,
    binary_name: &Vec<u8>,
    systemd_cgroup: bool,
    io_uid: u32,
    io_gid: u32,
    no_pivot_root: bool,
    no_new_keyring: bool,
) -> (r: Vec<u8>)
    ensures
        r@ == spec_encode_options(
            root@,
            binary_name@,
            systemd_cgroup,
            io_uid,
            io_gid,
            no_pivot_root,
            no_new_keyring,
        ),
{
    let mut out: Vec<u8> = Vec::new();
    push_field_bytes(&mut out, root);
    push_field_bytes(&mut out, binary_name);
    push_bool_bytes(&mut out, systemd_cgroup);
    push_num_bytes(&mut out, io_uid);
    push_num_bytes(&mut out, io_gid);
    push_bool_bytes(&mut out, no_pivot_root);
    push_bool_bytes(&mut out, no_new_keyring);
    proof {
        assert(out@ =~= spec_encode_options(
            root@,
            binary_name@,
            systemd_cgroup,
            io_uid,
            io_gid,
            no_pivot_root,
            no_new_keyring,
        ));
    }
    out
}

/// The file under the bundle that holds the persisted options, in the
/// engine's own text encoding.
pub fn options_file_path(bundle: &str) -> (r: String)
    ensures
        r@ == spec_path_join(bundle@, "options"@),
{
    path_join(bundle, "options")
}

/// The file under the bundle that holds the runtime binary name.
pub fn runtime_file_path(bundle: &str) -> (r: String)
    ensures
        r@ == spec_path_join(bundle@, "runtime"@),
{
    path_join(bundle, "runtime")
}

/// Persist the resolved options into the bundle directory, for a later
/// shim that must clean up without the original request.
pub fn write_options(bundle: &str, opts: &Options) -> (r: Result<(), Error>)
    ensures
        r matches Err(e) ==> e is Sys || e is BrokenPipe,
{
    let root = opts.root.as_str().as_bytes_vec();
    let name = opts.binary_name.as_str().as_bytes_vec();
    let data = encode_options_bytes(
        &root,
        &name,
        opts.systemd_cgroup,
        opts.io_uid,
        opts.io_gid,
        opts.no_pivot_root,
        opts.no_new_keyring,
    );
    let path = options_file_path(bundle);
    let req = OpenRequest {
        access: Access::Write,
        create: true,
        append: false,
        truncate: true,
        path_only: false,
        mode: 0o600,
    };
    write_file_all(path.as_str(), &req, &data)
}

/// Persist the runtime binary name as plain text in the bundle
/// directory.
pub fn write_runtime(bundle: &str, runtime: &str) -> (r: Result<(), Error>)
    ensures
        r matches Err(e) ==> e is Sys || e is BrokenPipe,
{
    let data = runtime.as_bytes_vec();
    let path = runtime_file_path(bundle);
    let req = OpenRequest {
        access: Access::Write,
        create: true,
        append: false,
        truncate: true,
        path_only: false,
        mode: 0o600,
    };
    write_file_all(path.as_str(), &req, &data)
}


/// The decimal value of a run of digit bytes.
pub open spec fn spec_bytes_value(s: Seq<u8>) -> nat
    decreases s.len(),
{
    if s.len() == 0 {
        0
    } else {
        10 * spec_bytes_value(s.subrange(0, s.len() - 1)) + (
        if 48 <= s.last() <= 57 { (s.last() - 48) as nat } else { 0 })
    }
}

/// A canonical digit run — non-empty, all digits, no leading zero unless
/// it is the single digit zero — is exactly the decimal rendering of its
/// value.
proof fn lemma_canonical_digits(s: Seq<u8>)
    requires
        s.len() >= 1,
        forall|i: int| 0 <= i < s.len() ==> 48 <= #[trigger] s[i] <= 57,
        s.len() > 1 ==> s[0] != 48,
    ensures
        spec_decimal_bytes(spec_bytes_value(s)) == s,
    decreases s.len(),
{
    if s.len() == 1 {
        assert(s.subrange(0, 0) =~= Seq::<u8>::empty());
        assert(s.last() == s[0]);
        assert(48 <= s[0] <= 57);
        assert(spec_bytes_value(Seq::<u8>::empty()) == 0);
        assert(spec_bytes_value(s) == 10 * spec_bytes_value(s.subrange(0, 0)) + (s.last()
            - 48) as nat);
        assert(spec_bytes_value(s) == (s[0] - 48) as nat);
        assert(spec_decimal_bytes(spec_bytes_value(s)) =~= s);
    } else {
        let bl = s.subrange(0, s.len() - 1);
        lemma_canonical_digits(bl);
        let n = spec_bytes_value(s);
        assert(spec_bytes_value(bl) >= 1) by {
            if spec_bytes_value(bl) == 0 {
                lemma_zero_value_digits(bl);
            }
        }
        assert(n == 10 * spec_bytes_value(bl) + (s.last() - 48));
        assert(n / 10 == spec_bytes_value(bl) && n % 10 == (s.last() - 48)) by (nonlinear_arith)
            requires
                n == 10 * spec_bytes_value(bl) + (s.last() - 48),
                0 <= s.last() - 48 < 10,
        ;
        assert(n >= 10);
        assert(spec_decimal_bytes(n) == spec_decimal_bytes(spec_bytes_value(bl)) + seq![
            (48 + n % 10) as u8,
        ]);
        assert(spec_decimal_bytes(n) =~= s);
    }
}

/// A canonical digit run with value zero is the single zero digit.
proof fn lemma_zero_value_digits(s: Seq<u8>)
    requires
        s.len() >= 1,
        forall|i: int| 0 <= i < s.len() ==> 48 <= #[trigger] s[i] <= 57,
        s.len() > 1 ==> s[0] != 48,
        spec_bytes_value(s) == 0,
    ensures
        s.len() == 1 && s[0] == 48,
    decreases s.len(),
{
    if s.len() > 1 {
        let bl = s.subrange(0, s.len() - 1);
        assert(spec_bytes_value(bl) == 0);
        lemma_zero_value_digits(bl);
        assert(s[0] == 48);
    }
}

/// Parse a canonical decimal run of at most nine digits starting at
/// `pos`; the parsed slice is exactly the rendering of the value.
fn parse_decimal_at(v: &Vec<u8>, pos: usize) -> (r: Result<(u64, usize), Error>)
    requires
        pos <= v@.len(),
    ensures
        r matches Ok(p) ==> {
            &&& pos < p.1 <= v@.len()
            &&& v@.subrange(pos as int, p.1 as int) == spec_decimal_bytes(p.0 as nat)
            &&& p.0 < 1000000000
        },
        r matches Err(e) ==> e is MalformedOptionsFile,
{
    let n = v.len();
    let mut end: usize = pos;
    while end < n && 48 <= v[end] && v[end] <= 57
        invariant
            pos <= end <= n,
            n == v@.len(),
            end - pos <= 9,
            forall|i: int| pos <= i < end ==> 48 <= #[trigger] v@[i] <= 57,
        decreases n - end,
    {
        if end - pos == 9 {
            return Err(Error::MalformedOptionsFile);
        }
        end = end + 1;
    }
    if end == pos {
        return Err(Error::MalformedOptionsFile);
    }
    if end - pos > 1 && v[pos] == 48 {
        return Err(Error::MalformedOptionsFile);
    }
    let mut val: u64 = 0;
    let mut j: usize = pos;
    while j < end
        invariant
            pos <= j <= end <= n,
            n == v@.len(),
            end - pos <= 9,
            forall|i: int| pos <= i < end ==> 48 <= #[trigger] v@[i] <= 57,
            val == spec_bytes_value(v@.subrange(pos as int, j as int)),
            val < 1000000000,
        decreases end - j,
    {
        let ghost pre = v@.subrange(pos as int, j as int);
        let ghost cur = v@.subrange(pos as int, j + 1 as int);
        proof {
            assert(cur.subrange(0, cur.len() - 1) =~= pre);
            assert(cur.last() == v@[j as int]);
            assert(pre.len() <= 8);
            lemma_bytes_value_bound(pre);
            lemma_spec_pow10_mono(pre.len(), 8);
            assert(spec_pow10(8) == 100000000) by {
                reveal_with_fuel(spec_pow10, 9);
            }
        }
        val = val * 10 + ((v[j] - 48) as u64);
        j = j + 1;
    }
    proof {
        let s = v@.subrange(pos as int, end as int);
        lemma_canonical_digits(s);
        lemma_bytes_value_bound(s);
        lemma_spec_pow10_mono(s.len(), 9);
        assert(spec_pow10(9) == 1000000000) by {
            reveal_with_fuel(spec_pow10, 10);
        }
    }
    Ok((val, end))
}

/// The value of a digit run is below ten to its length.
proof fn lemma_bytes_value_bound(s: Seq<u8>)
    ensures
        spec_bytes_value(s) < spec_pow10(s.len()),
    decreases s.len(),
{
    if s.len() > 0 {
        lemma_bytes_value_bound(s.subrange(0, s.len() - 1));
    }
}

pub open spec fn spec_pow10(k: nat) -> nat
    decreases k,
{
    if k == 0 { 1 } else { 10 * spec_pow10((k - 1) as nat) }
}

proof fn lemma_spec_pow10_mono(j: nat, k: nat)
    requires
        j <= k,
    ensures
        spec_pow10(j) <= spec_pow10(k),
    decreases k,
{
    if j < k {
        lemma_spec_pow10_mono(j, (k - 1) as nat);
    }
}

/// The raw field values read back from a persisted options file.
#[derive(Debug, Clone)]
pub struct OptionsRecord {
    pub root: Vec<u8>,
    pub binary_name: Vec<u8>,
    pub systemd_cgroup: bool,
    pub io_uid: u32,
    pub io_gid: u32,
    pub no_pivot_root: bool,
    pub no_new_keyring: bool,
}

/// Parse one length-prefixed field starting at `pos`.
fn parse_field_at(v: &Vec<u8>, pos: usize) -> (r: Result<(Vec<u8>, usize), Error>)
    requires
        pos <= v@.len(),
    ensures
        r matches Ok(p) ==> {
            &&& pos < p.1 <= v@.len()
            &&& v@.subrange(pos as int, p.1 as int) == spec_field_bytes(p.0@)
        },
        r matches Err(e) ==> e is MalformedOptionsFile,
{
    let (len64, p1) = parse_decimal_at(v, pos)?;
    let n = v.len();
    if p1 >= n || v[p1] != 58 {
        return Err(Error::MalformedOptionsFile);
    }
    let data_start = p1 + 1;
    if len64 > (n - data_start) as u64 {
        return Err(Error::MalformedOptionsFile);
    }
    let len = len64 as usize;
    let data_end = data_start + len;
    if data_end >= n || v[data_end] != 10 {
        return Err(Error::MalformedOptionsFile);
    }
    let data = vstd::slice::slice_to_vec(
        vstd::slice::slice_subrange(v.as_slice(), data_start, data_end),
    );
    proof {
        assert(v@.subrange(pos as int, data_end + 1 as int) =~= spec_field_bytes(data@));
    }
    Ok((data, data_end + 1))
}

/// Parse one boolean line starting at `pos`.
fn parse_bool_at(v: &Vec<u8>, pos: usize) -> (r: Result<(bool, usize), Error>)
    requires
        pos <= v@.len(),
    ensures
        r matches Ok(p) ==> {
            &&& pos < p.1 <= v@.len()
            &&& v@.subrange(pos as int, p.1 as int) == spec_bool_bytes(p.0)
        },
        r matches Err(e) ==> e is MalformedOptionsFile,
{
    let n = v.len();
    if n - pos < 2 {
        return Err(Error::MalformedOptionsFile);
    }
    if v[pos + 1] != 10 {
        return Err(Error::MalformedOptionsFile);
    }
    let b = if v[pos] == 49 {
        true
    } else if v[pos] == 48 {
        false
    } else {
        return Err(Error::MalformedOptionsFile);
    };
    proof {
        assert(v@.subrange(pos as int, pos + 2 as int) =~= spec_bool_bytes(b));
    }
    Ok((b, pos + 2))
}

/// Parse one numeric line starting at `pos`; the value must fit `u32`.
fn parse_num_at(v: &Vec<u8>, pos: usize) -> (r: Result<(u32, usize), Error>)
    requires
        pos <= v@.len(),
    ensures
        r matches Ok(p) ==> {
            &&& pos < p.1 <= v@.len()
            &&& v@.subrange(pos as int, p.1 as int) == spec_num_bytes(p.0 as nat)
        },
        r matches Err(e) ==> e is MalformedOptionsFile,
{
    let (val, p1) = parse_decimal_at(v, pos)?;
    let n = v.len();
    if p1 >= n || v[p1] != 10 {
        return Err(Error::MalformedOptionsFile);
    }
    proof {
        assert(v@.subrange(pos as int, p1 + 1 as int) =~= spec_num_bytes(val as nat));
    }
    Ok((val as u32, p1 + 1))
}

/// Parse a persisted options file. Success means the input is exactly
/// the encoding of the returned record: nothing reordered, nothing
/// left over.
#[verifier::rlimit(90)]
pub fn parse_options_bytes(v: &Vec<u8>) -> (r: Result<OptionsRecord, Error>)
    ensures
        r matches Ok(rec) ==> v@ == spec_encode_options(
            rec.root@,
            rec.binary_name@,
            rec.systemd_cgroup,
            rec.io_uid,
            rec.io_gid,
            rec.no_pivot_root,
            rec.no_new_keyring,
        ),
        r matches Err(e) ==> e is MalformedOptionsFile,
{
    let (root, p1) = parse_field_at(v, 0)?;
    let (binary_name, p2) = parse_field_at(v, p1)?;
    let (systemd_cgroup, p3) = parse_bool_at(v, p2)?;
    let (io_uid, p4) = parse_num_at(v, p3)?;
    let (io_gid, p5) = parse_num_at(v, p4)?;
    let (no_pivot_root, p6) = parse_bool_at(v, p5)?;
    let (no_new_keyring, p7) = parse_bool_at(v, p6)?;
    if p7 != v.len() {
        return Err(Error::MalformedOptionsFile);
    }
    proof {
        assert(v@ =~= v@.subrange(0, p1 as int) + v@.subrange(p1 as int, p2 as int) + v@.subrange(
            p2 as int,
            p3 as int,
        ) + v@.subrange(p3 as int, p4 as int) + v@.subrange(p4 as int, p5 as int) + v@.subrange(
            p5 as int,
            p6 as int,
        ) + v@.subrange(p6 as int, p7 as int));
    }
    Ok(OptionsRecord {
        root,
        binary_name,
        systemd_cgroup,
        io_uid,
        io_gid,
        no_pivot_root,
        no_new_keyring,
    })
}


/// Exec ids label at most one process each; the empty id is reserved for
/// the init process and never appears as a key.
pub open spec fn exec_keys_unique(s: Seq<(String, InitProcess)>) -> bool {
    forall|i: int, j: int| 0 <= i < j < s.len() ==> (#[trigger] s[i]).0@ != (#[trigger] s[j]).0@
}

/// One container: the init process plus any exec'd processes, keyed by
/// exec id.
#[derive(Debug)]
pub struct Container {
    pub id: String,
    pub bundle: String,
    /// The mounted rootfs path; empty when the request carried no
    /// mounts.
    pub rootfs: String,
    /// The init process itself; the empty exec id denotes it.
    pub process_self: InitProcess,
    /// Exec'd processes by exec id; the init process is never among
    /// them.
    pub processes: Vec<(String, InitProcess)>,
}

impl Container {
    pub open spec fn inv(self) -> bool {
        &&& self.process_self.inv()
        &&& exec_keys_unique(self.processes@)
        &&& forall|i: int|
            0 <= i < self.processes@.len() ==> (#[trigger] self.processes@[i]).0@.len() != 0
                && self.processes@[i].1.inv()
    }

    /// Prepare a container for creation: make and mount the rootfs,
    /// persist the options and runtime name into the bundle, and
    /// prepare the init process. If a later step fails after mounts were
    /// applied, the rootfs is unmounted again before the error returns.
    /// The returned container is not yet created — the embedder executes
    /// the plan and calls [`Container::create_finish`] — and not yet in
    /// any registry.
    pub fn new_prepare(config: &CreateConfig, opts: &Options, namespace: &str) -> (r: Result<
        (Container, CreatePlan),
        Error,
    >)
        ensures
            r matches Ok(p) ==> {
                &&& p.0.inv()
                &&& p.0.id@ == config.id@
                &&& p.0.bundle@ == config.bundle@
                &&& p.0.process_self.state is Unknown
                &&& p.0.process_self.pid == 0
                &&& p.0.process_self.has_wait_receiver()
                &&& p.0.processes@.len() == 0
                &&& (p.1.stdin_fifo is Some <==> config.stdin@.len() != 0)
            },
            config.terminal ==> r is Err,
            r matches Err(e) ==> {
                &&& (e is Sys || e is BrokenPipe || e is MountFailed || e is Unimplemented
                    || e is InvalidUri || e is InvalidPath)
                &&& (e matches Error::MountFailed { index } ==> index < config.rootfs@.len())
            },
    {
        let rootfs = if config.rootfs.len() > 0 {
            let p = path_join(config.bundle.as_str(), "rootfs");
            match sys_mkdir(p.as_str(), 0o711) {
                Ok(_) => {
                },
                Err(errno) => {
                    if errno != ERRNO_EXIST {
                        return Err(Error::Sys { errno });
                    }
                },
            }
            p
        } else {
            String::new()
        };
        write_options(config.bundle.as_str(), opts)?;
        write_runtime(config.bundle.as_str(), opts.binary_name.as_str())?;
        match mount_all(&config.rootfs, rootfs.as_str()) {
            Ok(_) => {
            },
            Err(f) => {
                return Err(Error::MountFailed { index: f.index });
            },
        }
        let work_dir = path_join(config.bundle.as_str(), "work");
        let mut init = match InitProcess::new(
            config.bundle.as_str(),
            work_dir.as_str(),
            namespace,
            config,
            opts,
            rootfs.as_str(),
        ) {
            Ok(init) => init,
            Err(e) => {
                if !rootfs.as_str().is_empty() {
                    let _ = sys_unmount(rootfs.as_str());
                }
                return Err(e);
            },
        };
        let plan = match init.create_prepare(config) {
            Ok(plan) => plan,
            Err(e) => {
                if !rootfs.as_str().is_empty() {
                    let _ = sys_unmount(rootfs.as_str());
                }
                return Err(e);
            },
        };
        Ok((
            Container {
                id: config.id.clone(),
                bundle: config.bundle.clone(),
                rootfs,
                process_self: init,
                processes: Vec::new(),
            },
            plan,
        ))
    }

    /// Finish creation with the outcome the embedder observed; on
    /// success the init process's pid is returned. On failure the
    /// rootfs is unmounted again and the process stays unknown.
    pub fn create_finish(
        &mut self,
        created_tx: tokio::sync::oneshot::Sender<()>,
        outcome: &RawOutput,
    ) -> (r: Result<i64, Error>)
        requires
            old(self).inv(),
        ensures
            final(self).inv(),
            final(self).id == old(self).id,
            final(self).processes == old(self).processes,
            r matches Ok(pid) ==> pid > 0 && pid == final(self).process_self.pid && final(self).process_self.state is Created,
            r is Err ==> final(self).process_self.state == old(self).process_self.state && final(self).process_self.pid == old(self).process_self.pid,
    {
        match self.process_self.create_finish(created_tx, outcome) {
            Ok(_) => Ok(self.process_self.pid()),
            Err(e) => {
                if !self.rootfs.as_str().is_empty() {
                    let _ = sys_unmount(self.rootfs.as_str());
                }
                Err(e)
            },
        }
    }

    /// Pid of the init process.
    pub fn pid(&self) -> (r: i64)
        ensures
            r == self.process_self.pid,
    {
        self.process_self.pid()
    }

    /// Whether an exec id is present among the exec'd processes.
    pub open spec fn spec_has_exec(self, exec_id: Seq<char>) -> bool {
        exists|i: int|
            0 <= i < self.processes@.len() && (#[trigger] self.processes@[i]).0@ == exec_id
    }

    /// Find the index of an exec'd process by its id.
    pub fn find_exec(&self, exec_id: &str) -> (r: Option<usize>)
        ensures
            r matches Some(i) ==> i < self.processes@.len() && self.processes@[i as int].0@
                == exec_id@,
            r is None ==> !self.spec_has_exec(exec_id@),
    {
        let key: String = exec_id.to_owned();
        let n = self.processes.len();
        let mut i: usize = 0;
        while i < n
            invariant
                i <= n,
                n == self.processes@.len(),
                key@ == exec_id@,
                forall|k: int| 0 <= k < i ==> (#[trigger] self.processes@[k]).0@ != exec_id@,
            decreases n - i,
        {
            let pair = &self.processes[i];
            if pair.0 == key {
                return Some(i);
            }
            i = i + 1;
        }
        None
    }

    /// Remove an exec'd process's bookkeeping; removing an absent id
    /// changes nothing.
    pub fn process_remove(&mut self, exec_id: &str)
        requires
            old(self).inv(),
        ensures
            final(self).inv(),
            final(self).process_self == old(self).process_self,
            !old(self).spec_has_exec(exec_id@) ==> final(self).processes == old(self).processes,
            !final(self).spec_has_exec(exec_id@),
    {
        match self.find_exec(exec_id) {
            Some(i) => {
                let _ = self.processes.remove(i);
                proof {
                    assert forall|k: int|
                        0 <= k < self.processes@.len() implies (#[trigger] self.processes@[k]).0@
                        != exec_id@ by {
                        if k < i {
                            assert(self.processes@[k] == old(self).processes@[k]);
                        } else {
                            assert(self.processes@[k] == old(self).processes@[k + 1]);
                        }
                    }
                }
            },
            None => {
            },
        }
    }

    /// Render the start invocation for the process named by the exec
    /// id: the empty id is the init process; operations on exec'd
    /// processes are not implemented.
    pub fn start_command(&self, exec_id: &str) -> (r: Result<RuncCommand, Error>)
        ensures
            exec_id@.len() == 0 ==> (r is Ok <==> self.process_self.state is Created),
            (exec_id@.len() != 0 && self.spec_has_exec(exec_id@)) ==> (r matches Err(e)
                && e is Unimplemented),
            (exec_id@.len() != 0 && !self.spec_has_exec(exec_id@)) ==> (r matches Err(e)
                && e is NotFound),
    {
        if exec_id.is_empty() {
            self.process_self.start_command()
        } else {
            match self.find_exec(exec_id) {
                Some(_) => Err(Error::Unimplemented),
                None => Err(Error::NotFound),
            }
        }
    }

    /// Apply the outcome of a start invocation; on success the started
    /// process's pid is returned.
    pub fn start_apply(&mut self, exec_id: &str, outcome: &RawOutput) -> (r: Result<i64, Error>)
        requires
            old(self).inv(),
        ensures
            final(self).inv(),
            final(self).processes == old(self).processes,
            r matches Ok(pid) ==> pid == final(self).process_self.pid
                && final(self).process_self.state is Running,
            r is Err ==> *final(self) == *old(self),
            exec_id@.len() != 0 ==> r is Err,
    {
        if exec_id.is_empty() {
            match self.process_self.start_apply(outcome) {
                Ok(_) => Ok(self.process_self.pid()),
                Err(e) => Err(e),
            }
        } else {
            match self.find_exec(exec_id) {
                Some(_) => Err(Error::Unimplemented),
                None => Err(Error::NotFound),
            }
        }
    }

    /// Render the kill invocation for the init process.
    pub fn kill_command(&self, sig: u32, all: bool) -> (r: Result<RuncCommand, Error>)
        ensures
            r is Ok <==> (self.process_self.state is Created || self.process_self.state is Running
                || self.process_self.state is Pausing || self.process_self.state is Paused),
    {
        self.process_self.kill_command(sig, all)
    }

    /// Render the delete invocation for the init process.
    pub fn delete_command(&self) -> (r: Result<RuncCommand, Error>)
        ensures
            r is Ok <==> self.process_self.state is Stopped,
    {
        self.process_self.delete_command()
    }

    /// Apply the outcome of a delete invocation; on success the pid,
    /// recorded exit status and exit time are returned for the final
    /// report.
    pub fn delete_apply(&mut self, outcome: &RawOutput) -> (r: Result<
        (i64, i32, Option<Timestamp>),
        Error,
    >)
        requires
            old(self).inv(),
        ensures
            final(self).inv(),
            r matches Ok(t) ==> final(self).process_self.state is Deleted && t.0 == final(self).process_self.pid && t.1 == final(self).process_self.status && t.2 == final(self).process_self.exited,
            r is Err ==> *final(self) == *old(self),
    {
        match self.process_self.delete_apply(outcome) {
            Ok(_) => Ok(
                (
                    self.process_self.pid(),
                    self.process_self.exit_status(),
                    self.process_self.exited_at(),
                ),
            ),
            Err(e) => Err(e),
        }
    }

    /// Record the observed exit of the init process.
    pub fn set_exited(&mut self, status: i32)
        requires
            old(self).inv(),
        ensures
            final(self).inv(),
            old(self).process_self.state is Running ==> final(self).process_self.state is Stopped && final(self).process_self.status == status,
            !(old(self).process_self.state is Running) ==> *final(self) == *old(self),
    {
        self.process_self.set_exited(status);
    }

    /// Wait for the init process's created signal; the receiver is
    /// consumed by the first call.
    pub fn wait(&mut self) -> (r: Result<(), Error>)
        ensures
            !final(self).process_self.has_wait_receiver(),
            !old(self).process_self.has_wait_receiver() ==> (r matches Err(e) && e is NotFound),
            final(self).process_self.state == old(self).process_self.state,
            final(self).process_self.pid == old(self).process_self.pid,
    {
        self.process_self.wait()
    }

    /// The lifecycle state of the process named by the exec id.
    pub fn state(&self, exec_id: &str) -> (r: Result<ProcessState, Error>)
        requires
            self.inv(),
        ensures
            exec_id@.len() == 0 ==> {
                &&& (self.process_self.state is Unknown <==> r is Err)
                &&& (r matches Ok(s) ==> s == self.process_self.state)
            },
            exec_id@.len() != 0 && !self.spec_has_exec(exec_id@) ==> (r matches Err(e)
                && e is NotFound),
            (exec_id@.len() != 0 && self.spec_has_exec(exec_id@)) ==> forall|j: int|
                (0 <= j < self.processes@.len() && (#[trigger] self.processes@[j]).0@
                    == exec_id@) ==> {
                    &&& (self.processes@[j].1.state is Unknown <==> r is Err)
                    &&& (r matches Ok(s) ==> s == self.processes@[j].1.state)
                },
    {
        if exec_id.is_empty() {
            self.process_self.state()
        } else {
            match self.find_exec(exec_id) {
                Some(i) => {
                    proof {
                        assert forall|j: int|
                            0 <= j < self.processes@.len() && (#[trigger] self.processes@[j]).0@
                                == exec_id@ implies j == i by {
                            if j < i {
                                assert(self.processes@[j].0@ != self.processes@[i as int].0@);
                            } else if j > i {
                                assert(self.processes@[i as int].0@ != self.processes@[j].0@);
                            }
                        }
                    }
                    let pair = &self.processes[i];
                    pair.1.state()
                },
                None => Err(Error::NotFound),
            }
        }
    }

    /// The recorded exit status of the init process.
    pub fn exit_status(&self) -> (r: i32)
        ensures
            r == self.process_self.status,
    {
        self.process_self.exit_status()
    }

    /// When the init process's exit was observed, if it was.
    pub fn exited_at(&self) -> (r: Option<Timestamp>)
        ensures
            r == self.process_self.exited,
    {
        self.process_self.exited_at()
    }

    /// The stdio destinations of the init process.
    pub fn stdio(&self) -> (r: StdioConfig)
        ensures
            r.stdin@ == self.process_self.stdio.stdin@,
            r.stdout@ == self.process_self.stdio.stdout@,
            r.stderr@ == self.process_self.stdio.stderr@,
            r.terminal == self.process_self.stdio.terminal,
    {
        self.process_self.stdio()
    }

    /// Exec'd processes are a recognized but unimplemented operation.
    pub fn exec(&self) -> (r: Result<(), Error>)
        ensures
            r matches Err(e) && e is Unimplemented,
    {
        Err(Error::Unimplemented)
    }

    /// Pausing is a recognized but unimplemented operation.
    pub fn pause(&self) -> (r: Result<(), Error>)
        ensures
            r matches Err(e) && e is Unimplemented,
    {
        Err(Error::Unimplemented)
    }

    /// Resuming is a recognized but unimplemented operation.
    pub fn resume(&self) -> (r: Result<(), Error>)
        ensures
            r matches Err(e) && e is Unimplemented,
    {
        Err(Error::Unimplemented)
    }

    /// Resource updates are a recognized but unimplemented operation.
    pub fn update(&self) -> (r: Result<(), Error>)
        ensures
            r matches Err(e) && e is Unimplemented,
    {
        Err(Error::Unimplemented)
    }

    /// Checkpointing is a recognized but unimplemented operation.
    pub fn checkpoint(&self) -> (r: Result<(), Error>)
        ensures
            r matches Err(e) && e is Unimplemented,
    {
        Err(Error::Unimplemented)
    }
}

/// Container ids label at most one container each.
pub open spec fn registry_keys_unique(s: Seq<(String, Container)>) -> bool {
    forall|i: int, j: int| 0 <= i < j < s.len() ==> (#[trigger] s[i]).0@ != (#[trigger] s[j]).0@
}

/// All containers the service owns, keyed by container id. The service
/// constructs one registry at startup and shares it behind its own
/// lock; these operations assume exclusive access.
#[derive(Debug)]
pub struct ContainerRegistry {
    pub containers: Vec<(String, Container)>,
}

impl ContainerRegistry {
    pub open spec fn inv(self) -> bool {
        &&& registry_keys_unique(self.containers@)
        &&& forall|i: int|
            0 <= i < self.containers@.len() ==> (#[trigger] self.containers@[i]).1.inv()
                && self.containers@[i].0@ == self.containers@[i].1.id@
    }

    /// Whether a container id is present.
    pub open spec fn spec_contains(self, id: Seq<char>) -> bool {
        exists|i: int|
            0 <= i < self.containers@.len() && (#[trigger] self.containers@[i]).0@ == id
    }

    /// An empty registry.
    pub fn new() -> (r: ContainerRegistry)
        ensures
            r.inv(),
            r.containers@.len() == 0,
    {
        ContainerRegistry { containers: Vec::new() }
    }

    /// Find the index of a container by id.
    pub fn find(&self, id: &str) -> (r: Option<usize>)
        ensures
            r matches Some(i) ==> i < self.containers@.len() && self.containers@[i as int].0@
                == id@,
            r is None ==> !self.spec_contains(id@),
    {
        let key: String = id.to_owned();
        let n = self.containers.len();
        let mut i: usize = 0;
        while i < n
            invariant
                i <= n,
                n == self.containers@.len(),
                key@ == id@,
                forall|k: int| 0 <= k < i ==> (#[trigger] self.containers@[k]).0@ != id@,
            decreases n - i,
        {
            let pair = &self.containers[i];
            if pair.0 == key {
                return Some(i);
            }
            i = i + 1;
        }
        None
    }

    /// Insert a freshly created container. A second container with the
    /// same id is refused as already existing, and the registry is
    /// unchanged in that case; the first container is unaffected either
    /// way.
    pub fn insert(&mut self, c: Container) -> (r: Result<(), Error>)
        requires
            old(self).inv(),
            c.inv(),
        ensures
            final(self).inv(),
            old(self).spec_contains(c.id@) ==> (r matches Err(e) && e is AlreadyExists && *final(self) == *old(self)),
            !old(self).spec_contains(c.id@) ==> (r is Ok && final(self).containers@.len() == old(self).containers@.len() + 1 && final(self).containers@.last().1 == c && final(self).spec_contains(c.id@)),
            r is Ok <==> !old(self).spec_contains(c.id@),
    {
        match self.find(c.id.as_str()) {
            Some(_) => Err(Error::AlreadyExists),
            None => {
                let key = c.id.clone();
                self.containers.push((key, c));
                proof {
                    assert forall|i: int, j: int|
                        0 <= i < j < self.containers@.len() implies (
                    #[trigger] self.containers@[i]).0@ != (#[trigger] self.containers@[j]).0@ by {
                        if j < self.containers@.len() - 1 {
                            assert(self.containers@[i] == old(self).containers@[i]);
                            assert(self.containers@[j] == old(self).containers@[j]);
                        } else {
                            assert(self.containers@[i] == old(self).containers@[i]);
                        }
                    }
                }
                Ok(())
            },
        }
    }

    /// Borrow a container for one operation.
    pub fn container_at(&mut self, i: usize) -> (c: &mut Container)
        requires
            i < old(self).containers@.len(),
        ensures
            *c == old(self).containers@[i as int].1,
            final(self).containers@ == old(self).containers@.update(
                i as int,
                (old(self).containers@[i as int].0, *final(c)),
            ),
    {
        let pair = &mut self.containers[i];
        &mut pair.1
    }

    /// Remove a container's bookkeeping, handing the container back;
    /// an absent id is a lookup failure and changes nothing.
    pub fn remove(&mut self, id: &str) -> (r: Result<Container, Error>)
        requires
            old(self).inv(),
        ensures
            final(self).inv(),
            !old(self).spec_contains(id@) ==> (r matches Err(e) && e is NotFound && *final(self)
                == *old(self)),
            r is Ok <==> old(self).spec_contains(id@),
            r is Ok ==> !final(self).spec_contains(id@),
    {
        match self.find(id) {
            Some(i) => {
                let pair = self.processes_remove_at(i);
                proof {
                    assert forall|k: int|
                        0 <= k < self.containers@.len() implies (#[trigger] self.containers@[k]).0@
                        != id@ by {
                        if k < i {
                            assert(self.containers@[k] == old(self).containers@[k]);
                        } else {
                            assert(self.containers@[k] == old(self).containers@[k + 1]);
                        }
                    }
                }
                Ok(pair.1)
            },
            None => Err(Error::NotFound),
        }
    }

    /// Take the entry at an index out of the registry.
    fn processes_remove_at(&mut self, i: usize) -> (r: (String, Container))
        requires
            i < old(self).containers@.len(),
        ensures
            r == old(self).containers@[i as int],
            final(self).containers@ == old(self).containers@.remove(i as int),
    {
        self.containers.remove(i)
    }

    /// How many containers are registered.
    pub fn len(&self) -> (r: usize)
        ensures
            r == self.containers@.len(),
    {
        self.containers.len()
    }
}

} // verus!
