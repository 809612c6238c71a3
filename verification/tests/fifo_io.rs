use shim_runc::config::StdioConfig;
use shim_runc::error::Error;
use shim_runc::fifo::{
    check_identity, classify_fifo_stat, data_open_request, fifo_create_decision, is_fifo, Fifo,
    FifoOpenOptions, Handler,
};
use shim_runc::fsio::{Access, FileInfo};
use shim_runc::io::{
    conditional_io_options, CopyDest, IOOption, IoBackend, Pipe, PipedIo, ProcessIO,
};

fn me() -> (u32, u32) {
    (nix::unistd::getuid().as_raw(), nix::unistd::getgid().as_raw())
}

fn fresh_dir(name: &str) -> String {
    let dir = format!("/tmp/shim_runc_test_{}", name);
    let _ = nix::unistd::mkdir(
        dir.as_str(),
        nix::sys::stat::Mode::from_bits_truncate(0o755),
    );
    dir
}

fn remove(path: &str) {
    let _ = nix::unistd::unlink(path);
}

fn open_opts(access: Access, create: bool) -> FifoOpenOptions {
    FifoOpenOptions { access, create, mode: 0o600 }
}

#[test]
fn fifo_round_trip() {
    let dir = fresh_dir("p4");
    let path = format!("{}/round_trip_fifo", dir);
    remove(&path);

    // a read-write endpoint never blocks on the open and stands in as
    // the first peer, so the real two ends connect without waiting
    let mut both = Fifo::open(&path, &open_opts(Access::ReadWrite, true)).unwrap();
    both.connect().unwrap();
    assert_eq!(is_fifo(&path).unwrap(), true);

    let mut writer = Fifo::open(&path, &open_opts(Access::Write, false)).unwrap();
    writer.connect().unwrap();
    let mut reader = Fifo::open(&path, &open_opts(Access::Read, false)).unwrap();
    reader.connect().unwrap();

    // the helper's descriptor goes away so it cannot hold the stream open
    both.close_data().unwrap();
    both.close().unwrap();

    writer.write_all(&b"hello fifo".to_vec()).unwrap();
    let got = reader.read_chunk(64).unwrap();
    assert_eq!(got, b"hello fifo".to_vec());

    // closing the write end is what lets the reader observe end of stream
    writer.close_data().unwrap();
    writer.close().unwrap();
    let eof = reader.read_chunk(64).unwrap();
    assert_eq!(eof.len(), 0);
    reader.close_data().unwrap();
    reader.close().unwrap();
    remove(&path);
}

#[test]
fn fifo_identity_check_detects_swap() {
    let dir = fresh_dir("p12");
    let path = format!("{}/swapped_fifo", dir);
    remove(&path);

    let original = Fifo::open(&path, &open_opts(Access::Write, true)).unwrap();
    let handle = Handler::new(&path).unwrap();
    let alias = handle.path().unwrap();
    let before = nix::sys::stat::stat(alias.as_str()).unwrap();

    // another actor replaces the path before the data-mode open resolves
    remove(&path);
    let replacement = Fifo::open(&path, &open_opts(Access::Read, true)).unwrap();
    let after = nix::sys::stat::stat(path.as_str()).unwrap();

    // the capability still names the original file, not the replacement
    assert!(before.st_ino != after.st_ino || before.st_dev != after.st_dev);
    let captured = FileInfo { dev: before.st_dev, ino: before.st_ino, mode: before.st_mode };
    let swapped = FileInfo { dev: after.st_dev, ino: after.st_ino, mode: after.st_mode };
    assert!(matches!(
        check_identity(&captured, &swapped),
        Err(Error::IdentityMismatch)
    ));
    // and re-deriving the path from the capability still resolves to the
    // original identity, so a connect can never reach the swapped file
    let revalidated = nix::sys::stat::stat(handle.path().unwrap().as_str()).unwrap();
    assert_eq!(revalidated.st_ino, before.st_ino);

    handle.close().unwrap();
    original.close().unwrap();
    replacement.close().unwrap();
    remove(&path);
}

#[test]
fn identity_comparison_is_exact() {
    let a = FileInfo { dev: 3, ino: 7, mode: 0o010600 };
    let same = FileInfo { dev: 3, ino: 7, mode: 0o010000 };
    let other = FileInfo { dev: 3, ino: 8, mode: 0o010600 };
    assert!(check_identity(&a, &same).is_ok());
    assert!(matches!(check_identity(&a, &other), Err(Error::IdentityMismatch)));
}

#[test]
fn create_decision_rules() {
    let present = FileInfo { dev: 1, ino: 2, mode: 0o010644 };
    // an existing file is never re-created
    assert_eq!(fifo_create_decision(Ok(present), true).unwrap(), false);
    assert_eq!(fifo_create_decision(Ok(present), false).unwrap(), false);
    // a missing path is created exactly when requested
    assert_eq!(fifo_create_decision(Err(2), true).unwrap(), true);
    assert!(matches!(
        fifo_create_decision(Err(2), false),
        Err(Error::Sys { errno: 2 })
    ));
    // any other lookup failure carries its errno out
    assert!(matches!(
        fifo_create_decision(Err(13), true),
        Err(Error::Sys { errno: 13 })
    ));
}

#[test]
fn fifo_stat_classification_rules() {
    let fifo = FileInfo { dev: 1, ino: 2, mode: 0o010644 };
    let file = FileInfo { dev: 1, ino: 2, mode: 0o100644 };
    assert_eq!(classify_fifo_stat(Ok(fifo)).unwrap(), true);
    assert_eq!(classify_fifo_stat(Ok(file)).unwrap(), false);
    assert_eq!(classify_fifo_stat(Err(2)).unwrap(), false);
    assert!(matches!(classify_fifo_stat(Err(13)), Err(Error::Sys { errno: 13 })));
}

#[test]
fn data_open_carries_access_only() {
    let req = data_open_request(Access::Write);
    assert_eq!(req.access, Access::Write);
    assert!(!req.create && !req.path_only && !req.append && !req.truncate);
}

#[test]
fn handler_revalidates_path() {
    let dir = fresh_dir("handler");
    let path = format!("{}/handled_fifo", dir);
    remove(&path);
    let fifo = Fifo::open(&path, &open_opts(Access::Read, true)).unwrap();
    let handle = Handler::new(&path).unwrap();
    let alias = handle.path().unwrap();
    assert!(alias.starts_with("/proc/self/fd/"));
    handle.close().unwrap();
    fifo.close().unwrap();
    remove(&path);
}

#[test]
fn is_fifo_distinguishes() {
    assert_eq!(is_fifo("/tmp/shim_runc_no_such_path_xyz").unwrap(), false);
    assert_eq!(is_fifo("/dev/null").unwrap(), false);
}

#[test]
fn null_io_has_no_copy() {
    let stdio = StdioConfig::default();
    assert!(stdio.is_null());
    let (uid, gid) = me();
    let mut pio = ProcessIO::new("t", uid, gid, stdio).unwrap();
    assert!(!pio.copy);
    assert!(matches!(pio.io, IoBackend::Null(_)));
    let plan = pio.copy_pipes().unwrap();
    assert_eq!(plan.tasks.len(), 0);
    assert!(plan.stdin.is_none());
    // the no-op may be repeated freely
    let plan2 = pio.copy_pipes().unwrap();
    assert_eq!(plan2.tasks.len(), 0);
    let child = pio.child_stdio();
    assert!(child.stdin.is_none());
    assert!(child.stdout.is_some());
    assert_eq!(child.stdout, child.stderr);
    pio.close_after_start().unwrap();
}

#[test]
fn conditional_options_follow_destinations() {
    let stdio = StdioConfig {
        stdin: String::new(),
        stdout: String::from("/tmp/out"),
        stderr: String::from("/tmp/err"),
        terminal: false,
    };
    let o = conditional_io_options(&stdio);
    assert!(!o.open_stdin && o.open_stdout && o.open_stderr);
    let d = IOOption::default();
    assert!(d.open_stdin && d.open_stdout && d.open_stderr);
}

#[test]
fn pipes_are_owned_once() {
    let mut p = Pipe::new().unwrap();
    let rd = p.take_read();
    assert!(rd.is_some());
    assert!(p.take_read().is_none());
    let wr = p.take_write();
    assert!(wr.is_some());
    let _ = nix::unistd::close(rd.unwrap());
    let _ = nix::unistd::close(wr.unwrap());
}

#[test]
fn piped_io_opens_requested_streams() {
    let opts = IOOption { open_stdin: true, open_stdout: true, open_stderr: false };
    let (uid, gid) = me();
    let mut io = PipedIo::new(uid, gid, &opts).unwrap();
    assert!(io.stdin.is_some());
    assert!(io.stdout.is_some());
    assert!(io.stderr.is_none());
    io.close_after_start().unwrap();
    match &io.stdout {
        Some(p) => {
            assert!(p.wr.is_none());
            assert!(p.rd.is_some());
        },
        None => panic!("stdout pipe vanished"),
    }
}

#[test]
fn shared_destination_gets_one_writer() {
    let dir = fresh_dir("p8");
    let out = format!("{}/combined_out", dir);
    remove(&out);
    let stdio = StdioConfig {
        stdin: String::new(),
        stdout: out.clone(),
        stderr: out.clone(),
        terminal: false,
    };
    let (uid, gid) = me();
    let mut pio = ProcessIO::new("t", uid, gid, stdio).unwrap();
    assert!(pio.copy);
    let child = pio.child_stdio();
    let plan = pio.copy_pipes().unwrap();
    assert_eq!(plan.tasks.len(), 2);
    assert!(plan.stdin.is_none());
    let mut file_writers: usize = 0;
    for t in plan.tasks.iter() {
        match &t.dest {
            CopyDest::File(p) => {
                assert_eq!(p, &out);
                file_writers += 1;
            },
            CopyDest::SharedWriter => {},
            CopyDest::FifoPath(_) => panic!("plain file classified as fifo"),
        }
    }
    assert_eq!(file_writers, 1, "exactly one destination writer for the shared file");

    // run the two copy tasks by hand through the one shared writer:
    // bytes written on the child's stdout must surface exactly once
    let writer_fd = nix::fcntl::open(
        out.as_str(),
        nix::fcntl::OFlag::O_WRONLY | nix::fcntl::OFlag::O_CREAT | nix::fcntl::OFlag::O_APPEND,
        nix::sys::stat::Mode::from_bits_truncate(0o600),
    )
    .unwrap();
    nix::unistd::write(child.stdout.unwrap(), b"hello\n").unwrap();
    pio.close_after_start().unwrap();
    for t in plan.tasks.iter() {
        let mut buf = [0u8; 64];
        loop {
            let n = nix::unistd::read(t.source_fd, &mut buf).unwrap();
            if n == 0 {
                break;
            }
            nix::unistd::write(writer_fd, &buf[..n]).unwrap();
        }
        let _ = nix::unistd::close(t.source_fd);
    }
    let _ = nix::unistd::close(writer_fd);
    let contents = shim_runc::fsio::read_file_bytes(&out).unwrap();
    assert_eq!(contents, b"hello\n".to_vec());
    remove(&out);
}

#[test]
fn shared_fifo_destination_gets_one_writer_too() {
    let dir = fresh_dir("p8fifo");
    let path = format!("{}/combined_fifo", dir);
    remove(&path);
    // the destination really is a FIFO this time
    let existing = Fifo::open(&path, &open_opts(Access::Read, true)).unwrap();
    assert_eq!(is_fifo(&path).unwrap(), true);
    let stdio = StdioConfig {
        stdin: String::new(),
        stdout: path.clone(),
        stderr: path.clone(),
        terminal: false,
    };
    let (uid, gid) = me();
    let mut pio = ProcessIO::new("t", uid, gid, stdio).unwrap();
    let plan = pio.copy_pipes().unwrap();
    assert_eq!(plan.tasks.len(), 2);
    // the first task opens the FIFO writer; the second shares it
    assert!(matches!(&plan.tasks[0].dest, CopyDest::FifoPath(p) if p == &path));
    assert!(matches!(plan.tasks[1].dest, CopyDest::SharedWriter));
    for t in plan.tasks.iter() {
        let _ = nix::unistd::close(t.source_fd);
    }
    pio.close_after_start().unwrap();
    existing.close().unwrap();
    remove(&path);
}

#[test]
fn unsupported_scheme_is_rejected() {
    let (uid, gid) = me();
    let stdio = StdioConfig {
        stdin: String::new(),
        stdout: String::from("bogus:///some/where"),
        stderr: String::new(),
        terminal: false,
    };
    assert!(matches!(ProcessIO::new("t", uid, gid, stdio), Err(Error::InvalidUri)));
}

#[test]
fn binary_scheme_is_a_capability_gap() {
    let (uid, gid) = me();
    let stdio = StdioConfig {
        stdin: String::new(),
        stdout: String::from("binary:///some/logger"),
        stderr: String::new(),
        terminal: false,
    };
    // the binary logging hook is recognized but not implemented: its
    // error stays distinguishable from a garbage destination
    assert!(matches!(ProcessIO::new("t", uid, gid, stdio), Err(Error::Unimplemented)));
}

#[test]
fn file_scheme_redirects_both_streams() {
    let (uid, gid) = me();
    let stdio = StdioConfig {
        stdin: String::new(),
        stdout: String::from("file:///tmp/shim_runc_test_filescheme/logs/out.log"),
        stderr: String::from("unused"),
        terminal: false,
    };
    let pio = ProcessIO::new("t", uid, gid, stdio).unwrap();
    assert!(pio.copy);
    assert_eq!(pio.stdio.stdout, "/tmp/shim_runc_test_filescheme/logs/out.log");
    assert_eq!(pio.stdio.stderr, "/tmp/shim_runc_test_filescheme/logs/out.log");
    // the parent directories were created and the file pre-touched
    let contents =
        shim_runc::fsio::read_file_bytes("/tmp/shim_runc_test_filescheme/logs/out.log").unwrap();
    assert_eq!(contents.len(), 0);
}
