use shim_runc::config::{CreateConfig, MountConfig, Options};
use shim_runc::container::{
    encode_options_bytes, mount_all, parse_options_bytes, Container, ContainerRegistry,
};
use shim_runc::error::Error;
use shim_runc::fsio::read_file_bytes;
use shim_runc::runc::RawOutput;
use shim_runc::state::ProcessState;

fn make_bundle(name: &str) -> String {
    let dir = format!("/tmp/shim_runc_test_reg_{}", name);
    let _ = nix::unistd::mkdir(
        dir.as_str(),
        nix::sys::stat::Mode::from_bits_truncate(0o755),
    );
    write_pid(&dir);
    dir
}

fn write_pid(dir: &str) {
    let path = format!("{}/init.pid", dir);
    let req = shim_runc::fsio::OpenRequest {
        access: shim_runc::fsio::Access::Write,
        create: true,
        append: false,
        truncate: true,
        path_only: false,
        mode: 0o644,
    };
    shim_runc::fsio::write_file_all(&path, &req, &b"4321\n".to_vec()).unwrap();
}

fn test_config(id: &str, bundle: &str) -> CreateConfig {
    CreateConfig {
        id: String::from(id),
        bundle: String::from(bundle),
        runtime: String::from("/bin/true"),
        rootfs: Vec::new(),
        terminal: false,
        stdin: String::new(),
        stdout: String::new(),
        stderr: String::new(),
    }
}

fn test_options() -> Options {
    let mut opts = Options::default();
    opts.binary_name = String::from("/bin/true");
    opts.io_uid = nix::unistd::getuid().as_raw();
    opts.io_gid = nix::unistd::getgid().as_raw();
    opts
}

fn ok_outcome() -> RawOutput {
    RawOutput {
        success: true,
        spawn_failed: false,
        timed_out: false,
        status: 0,
        pid: 5,
        stdout: String::new(),
        stderr: String::new(),
    }
}

fn built_container(name: &str) -> Container {
    let bundle = make_bundle(name);
    let config = test_config(name, &bundle);
    let (mut c, plan) = Container::new_prepare(&config, &test_options(), "ns").unwrap();
    let pid = c.create_finish(plan.created_tx, &ok_outcome()).unwrap();
    assert_eq!(pid, 4321);
    c
}

#[test]
fn container_create_and_lifecycle() {
    let mut c = built_container("life");
    assert_eq!(c.pid(), 4321);
    assert_eq!(c.state("").unwrap(), ProcessState::Created);
    let cmd = c.start_command("").unwrap();
    assert_eq!(cmd.args.last().unwrap(), "life");
    assert_eq!(cmd.args[cmd.args.len() - 2], "start");
    let pid = c.start_apply("", &ok_outcome()).unwrap();
    assert_eq!(pid, 4321);
    assert_eq!(c.state("").unwrap(), ProcessState::Running);
    c.set_exited(137);
    assert_eq!(c.exit_status(), 137);
    assert!(c.exited_at().is_some());
    let _ = c.delete_command().unwrap();
    let (pid, status, at) = c.delete_apply(&ok_outcome()).unwrap();
    assert_eq!(pid, 4321);
    assert_eq!(status, 137);
    assert!(at.is_some());
    assert_eq!(c.state("").unwrap(), ProcessState::Deleted);
}

#[test]
fn persisted_bookkeeping_is_readable() {
    let bundle = make_bundle("persist");
    let config = test_config("persist", &bundle);
    let mut opts = test_options();
    opts.root = String::from("/run/custom");
    opts.io_uid = 11;
    opts.io_gid = 22;
    opts.no_pivot_root = true;
    let (_c, _plan) = Container::new_prepare(&config, &opts, "ns").unwrap();
    let stored = read_file_bytes(&format!("{}/options", bundle)).unwrap();
    let rec = parse_options_bytes(&stored).unwrap();
    assert_eq!(rec.root, b"/run/custom".to_vec());
    assert_eq!(rec.binary_name, b"/bin/true".to_vec());
    assert_eq!(rec.io_uid, 11);
    assert_eq!(rec.io_gid, 22);
    assert!(rec.no_pivot_root);
    assert!(!rec.no_new_keyring);
    assert!(!rec.systemd_cgroup);
    let runtime = read_file_bytes(&format!("{}/runtime", bundle)).unwrap();
    assert_eq!(runtime, b"/bin/true".to_vec());
}

#[test]
fn options_encoding_round_trips() {
    let data = encode_options_bytes(
        &b"/some/root".to_vec(),
        &b"runc".to_vec(),
        true,
        1000,
        0,
        false,
        true,
    );
    let rec = parse_options_bytes(&data).unwrap();
    assert_eq!(rec.root, b"/some/root".to_vec());
    assert_eq!(rec.binary_name, b"runc".to_vec());
    assert!(rec.systemd_cgroup);
    assert_eq!(rec.io_uid, 1000);
    assert_eq!(rec.io_gid, 0);
    assert!(!rec.no_pivot_root);
    assert!(rec.no_new_keyring);
    // the encoding is exact: a re-encode reproduces the file
    let again = encode_options_bytes(
        &rec.root,
        &rec.binary_name,
        rec.systemd_cgroup,
        rec.io_uid,
        rec.io_gid,
        rec.no_pivot_root,
        rec.no_new_keyring,
    );
    assert_eq!(again, data);
}

#[test]
fn malformed_options_are_rejected() {
    assert!(matches!(
        parse_options_bytes(&b"junk".to_vec()),
        Err(Error::MalformedOptionsFile)
    ));
    assert!(matches!(
        parse_options_bytes(&Vec::new()),
        Err(Error::MalformedOptionsFile)
    ));
    // trailing garbage after a valid encoding is refused too
    let mut data = encode_options_bytes(&Vec::new(), &Vec::new(), false, 0, 0, false, false);
    data.push(33);
    assert!(matches!(parse_options_bytes(&data), Err(Error::MalformedOptionsFile)));
}

#[test]
fn registry_refuses_duplicate_ids() {
    let mut reg = ContainerRegistry::new();
    let first = built_container("dup");
    let second = built_container("dup");
    reg.insert(first).unwrap();
    assert_eq!(reg.len(), 1);
    match reg.insert(second) {
        Err(Error::AlreadyExists) => {},
        other => panic!("unexpected: {:?}", other.map(|_| ())),
    }
    // the first container is unaffected
    assert_eq!(reg.len(), 1);
    let i = reg.find("dup").unwrap();
    let c = reg.container_at(i);
    assert_eq!(c.pid(), 4321);
}

#[test]
fn registry_lookup_and_removal() {
    let mut reg = ContainerRegistry::new();
    reg.insert(built_container("a1")).unwrap();
    reg.insert(built_container("b2")).unwrap();
    assert_eq!(reg.len(), 2);
    assert!(reg.find("missing").is_none());
    assert!(matches!(reg.remove("missing"), Err(Error::NotFound)));
    let removed = reg.remove("a1").unwrap();
    assert_eq!(removed.id, "a1");
    assert_eq!(reg.len(), 1);
    assert!(reg.find("a1").is_none());
    assert!(reg.find("b2").is_some());
}

#[test]
fn registry_borrows_for_mutation() {
    let mut reg = ContainerRegistry::new();
    reg.insert(built_container("mut1")).unwrap();
    let i = reg.find("mut1").unwrap();
    {
        let c = reg.container_at(i);
        c.start_apply("", &ok_outcome()).unwrap();
    }
    let i = reg.find("mut1").unwrap();
    assert_eq!(reg.container_at(i).state("").unwrap(), ProcessState::Running);
}

#[test]
fn exec_lookup_rules() {
    let mut c = built_container("execs");
    assert!(c.find_exec("nope").is_none());
    assert!(matches!(c.start_command("nope"), Err(Error::NotFound)));
    assert!(matches!(c.start_apply("nope", &ok_outcome()), Err(Error::NotFound)));
    assert!(matches!(c.state("nope"), Err(Error::NotFound)));
    assert!(matches!(c.exec(), Err(Error::Unimplemented)));
    assert!(matches!(c.pause(), Err(Error::Unimplemented)));
    assert!(matches!(c.resume(), Err(Error::Unimplemented)));
    assert!(matches!(c.update(), Err(Error::Unimplemented)));
    assert!(matches!(c.checkpoint(), Err(Error::Unimplemented)));
    c.process_remove("nope");
}

#[test]
fn failed_mount_cleans_up_and_reports() {
    let mounts = vec![
        MountConfig {
            mount_type: String::from("bind"),
            source: String::from("/tmp/shim_runc_no_such_device_abc"),
            target: String::from("rootfs"),
            options: Vec::new(),
        },
        MountConfig {
            mount_type: String::from("bind"),
            source: String::from("/tmp/shim_runc_no_such_device_def"),
            target: String::from("rootfs"),
            options: Vec::new(),
        },
    ];
    match mount_all(&mounts, "/tmp/shim_runc_test_reg_mnt_target") {
        Err(f) => {
            assert_eq!(f.index, 0);
            assert!(f.cleaned.is_empty());
        },
        Ok(_) => panic!("mounting a nonexistent device succeeded"),
    }
    // no mounts at all succeed trivially
    assert_eq!(mount_all(&Vec::new(), "").unwrap(), 0);
}

#[test]
fn failing_mount_aborts_creation() {
    let bundle = make_bundle("mountfail");
    let mut config = test_config("mountfail", &bundle);
    config.rootfs = vec![MountConfig {
        mount_type: String::from("bind"),
        source: String::from("/tmp/shim_runc_no_such_device_xyz"),
        target: String::from("rootfs"),
        options: Vec::new(),
    }];
    match Container::new_prepare(&config, &test_options(), "ns") {
        Err(Error::MountFailed { index }) => assert_eq!(index, 0),
        other => panic!("unexpected: {:?}", other.map(|_| ())),
    }
}
