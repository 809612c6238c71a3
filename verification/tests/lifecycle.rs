use shim_runc::config::{CreateConfig, Options};
use shim_runc::error::Error;
use shim_runc::fsio::{read_file_bytes, write_file_all, Access, OpenRequest};
use shim_runc::init::InitProcess;
use shim_runc::runc::RawOutput;
use shim_runc::state::ProcessState;

fn test_config(id: &str, bundle: &str) -> CreateConfig {
    CreateConfig {
        id: String::from(id),
        bundle: String::from(bundle),
        runtime: String::from("/bin/true"),
        rootfs: Vec::new(),
        terminal: false,
        stdin: String::new(),
        stdout: String::new(),
        stderr: String::new(),
    }
}

fn test_options() -> Options {
    let mut opts = Options::default();
    opts.binary_name = String::from("/bin/true");
    opts.io_uid = nix::unistd::getuid().as_raw();
    opts.io_gid = nix::unistd::getgid().as_raw();
    opts
}

fn success_outcome() -> RawOutput {
    RawOutput {
        success: true,
        spawn_failed: false,
        timed_out: false,
        status: 0,
        pid: 99,
        stdout: String::new(),
        stderr: String::new(),
    }
}

fn failure_outcome(status: i32) -> RawOutput {
    RawOutput {
        success: false,
        spawn_failed: false,
        timed_out: false,
        status,
        stdout: String::from("boom"),
        stderr: String::from("bang"),
        pid: 0,
    }
}

fn global_args(bundle: &str) -> Vec<String> {
    vec![
        String::from("--root"),
        String::from("/run/containerd/runc/ns"),
        String::from("--log"),
        format!("{}/log.json", bundle),
        String::from("--log-format"),
        String::from("json"),
    ]
}

fn with_globals(bundle: &str, rest: &[&str]) -> Vec<String> {
    let mut v = global_args(bundle);
    for a in rest {
        v.push(String::from(*a));
    }
    v
}

fn make_bundle(name: &str) -> String {
    let dir = format!("/tmp/shim_runc_test_bundle_{}", name);
    let _ = nix::unistd::mkdir(
        dir.as_str(),
        nix::sys::stat::Mode::from_bits_truncate(0o755),
    );
    dir
}

fn write_pid_file(bundle: &str, text: &[u8]) {
    let path = format!("{}/init.pid", bundle);
    let req = OpenRequest {
        access: Access::Write,
        create: true,
        append: false,
        truncate: true,
        path_only: false,
        mode: 0o644,
    };
    write_file_all(&path, &req, &text.to_vec()).unwrap();
}

fn created_process(name: &str) -> InitProcess {
    let bundle = make_bundle(name);
    write_pid_file(&bundle, b"1234\n");
    let config = test_config(name, &bundle);
    let mut p = InitProcess::new(&bundle, &bundle, "ns", &config, &test_options(), "").unwrap();
    assert_eq!(p.pid(), 0);
    assert!(matches!(p.state(), Err(Error::NotFound)));
    let plan = p.create_prepare(&config).unwrap();
    assert!(plan.stdin_fifo.is_none());
    assert_eq!(plan.copy.tasks.len(), 0);
    p.create_finish(plan.created_tx, &success_outcome()).unwrap();
    p
}

#[test]
fn create_reads_pid_and_advances() {
    let p = created_process("basic");
    assert_eq!(p.pid(), 1234);
    assert_eq!(p.state().unwrap(), ProcessState::Created);
}

#[test]
fn create_with_missing_bundle_is_filesystem_error() {
    let bundle = "/tmp/shim_runc_no_such_bundle_dir/xyz";
    let config = test_config("gone", bundle);
    let mut p = InitProcess::new(bundle, bundle, "ns", &config, &test_options(), "").unwrap();
    let plan = p.create_prepare(&config).unwrap();
    let r = p.create_finish(plan.created_tx, &success_outcome());
    assert!(matches!(r, Err(Error::Sys { .. })));
    // the failure left no trace: still unknown, pid still zero
    assert!(matches!(p.state(), Err(Error::NotFound)));
    assert_eq!(p.pid(), 0);
}

#[test]
fn failed_create_command_keeps_state() {
    let bundle = make_bundle("failcmd");
    write_pid_file(&bundle, b"77\n");
    let config = test_config("failcmd", &bundle);
    let mut p = InitProcess::new(&bundle, &bundle, "ns", &config, &test_options(), "").unwrap();
    let plan = p.create_prepare(&config).unwrap();
    match p.create_finish(plan.created_tx, &failure_outcome(1)) {
        Err(Error::CommandFailed { status, stdout, stderr }) => {
            assert_eq!(status, 1);
            assert_eq!(stdout, "boom");
            assert_eq!(stderr, "bang");
        },
        other => panic!("unexpected: {:?}", other),
    }
    assert_eq!(p.pid(), 0);
    assert!(matches!(p.state(), Err(Error::NotFound)));
}

#[test]
fn malformed_pid_file_is_rejected() {
    let bundle = make_bundle("badpid");
    write_pid_file(&bundle, b"not-a-pid\n");
    let config = test_config("badpid", &bundle);
    let mut p = InitProcess::new(&bundle, &bundle, "ns", &config, &test_options(), "").unwrap();
    let plan = p.create_prepare(&config).unwrap();
    assert!(matches!(
        p.create_finish(plan.created_tx, &success_outcome()),
        Err(Error::MalformedPidFile)
    ));
    assert_eq!(p.pid(), 0);
}

#[test]
fn second_create_already_exists() {
    let mut p = created_process("twice");
    let config = test_config("twice", "/tmp/shim_runc_test_bundle_twice");
    assert!(matches!(p.create_prepare(&config), Err(Error::AlreadyExists)));
    assert_eq!(p.pid(), 1234);
}

#[test]
fn terminal_requests_are_unimplemented() {
    let bundle = make_bundle("term");
    let mut config = test_config("term", &bundle);
    config.terminal = true;
    let mut p = InitProcess::new(&bundle, &bundle, "ns", &config, &test_options(), "").unwrap();
    assert!(matches!(p.create_prepare(&config), Err(Error::Unimplemented)));
}

#[test]
fn wait_consumes_the_receiver_once() {
    let mut p = created_process("wait2");
    // the created signal was already sent, so the first wait returns
    p.wait().unwrap();
    // the receiver is consumed: a second wait fails fast as not-found
    assert!(matches!(p.wait(), Err(Error::NotFound)));
    assert!(matches!(p.wait(), Err(Error::NotFound)));
}

#[test]
fn wait_before_create_is_not_found() {
    let bundle = make_bundle("waitnone");
    let config = test_config("waitnone", &bundle);
    let mut p = InitProcess::new(&bundle, &bundle, "ns", &config, &test_options(), "").unwrap();
    assert!(matches!(p.wait(), Err(Error::NotFound)));
}

#[test]
fn kill_all_then_delete_reaches_deleted() {
    let mut p = created_process("killflow");
    let bundle = "/tmp/shim_runc_test_bundle_killflow";
    let start_cmd = p.start_command().unwrap();
    assert_eq!(start_cmd.args, with_globals(bundle, &["start", "killflow"]));
    p.start_apply(&success_outcome()).unwrap();
    assert_eq!(p.state().unwrap(), ProcessState::Running);

    let kill_cmd = p.kill_command(9, true).unwrap();
    assert_eq!(kill_cmd.args, with_globals(bundle, &["kill", "--all", "killflow", "9"]));
    // killing by itself moves nothing: the observed exit does
    assert_eq!(p.state().unwrap(), ProcessState::Running);

    // the monitor observes the signal-derived exit code
    p.set_exited(137);
    assert_eq!(p.state().unwrap(), ProcessState::Stopped);
    assert_eq!(p.exit_status(), 137);
    assert!(p.exited_at().is_some());

    let delete_cmd = p.delete_command().unwrap();
    assert_eq!(delete_cmd.args, with_globals(bundle, &["delete", "killflow"]));
    p.delete_apply(&success_outcome()).unwrap();
    assert_eq!(p.state().unwrap(), ProcessState::Deleted);
    // the exit status survives deletion, and the pid never changed
    assert_eq!(p.exit_status(), 137);
    assert_eq!(p.pid(), 1234);
}

#[test]
fn start_requires_created_state() {
    let bundle = make_bundle("startwrong");
    let config = test_config("startwrong", &bundle);
    let mut p = InitProcess::new(&bundle, &bundle, "ns", &config, &test_options(), "").unwrap();
    assert!(matches!(p.start_command(), Err(Error::NotFound)));
    assert!(matches!(p.start_apply(&success_outcome()), Err(Error::NotFound)));
}

#[test]
fn failed_start_keeps_created() {
    let mut p = created_process("startfail");
    assert!(matches!(
        p.start_apply(&failure_outcome(7)),
        Err(Error::CommandFailed { .. })
    ));
    assert_eq!(p.state().unwrap(), ProcessState::Created);
}

#[test]
fn delete_requires_stopped_state() {
    let mut p = created_process("delwrong");
    assert!(matches!(p.delete_command(), Err(Error::NotFound)));
    assert!(matches!(p.delete_apply(&success_outcome()), Err(Error::NotFound)));
}

#[test]
fn duplicate_exit_observation_is_ignored() {
    let mut p = created_process("dupexit");
    p.start_apply(&success_outcome()).unwrap();
    p.set_exited(3);
    let first = p.exited_at();
    p.set_exited(99);
    assert_eq!(p.exit_status(), 3);
    assert_eq!(p.exited_at(), first);
    assert_eq!(p.state().unwrap(), ProcessState::Stopped);
}

#[test]
fn spawn_failure_and_timeout_are_distinguished() {
    let mut p = created_process("spawnfail");
    let mut out = failure_outcome(-1);
    out.spawn_failed = true;
    assert!(matches!(p.start_apply(&out), Err(Error::SpawnFailed)));
    let mut out = failure_outcome(-1);
    out.timed_out = true;
    assert!(matches!(p.start_apply(&out), Err(Error::CommandTimeout)));
    assert_eq!(p.state().unwrap(), ProcessState::Created);
}

#[test]
fn dropped_creation_sender_is_broken_pipe() {
    let bundle = make_bundle("droptx");
    write_pid_file(&bundle, b"88
");
    let config = test_config("droptx", &bundle);
    let mut p = InitProcess::new(&bundle, &bundle, "ns", &config, &test_options(), "").unwrap();
    let plan = p.create_prepare(&config).unwrap();
    // creation fails before ever reaching its send
    drop(plan.created_tx);
    assert!(matches!(p.wait(), Err(Error::BrokenPipe)));
    assert!(matches!(p.wait(), Err(Error::NotFound)));
}

#[test]
fn unimplemented_operations_are_distinguishable() {
    let mut p = created_process("unimpl");
    assert!(matches!(p.pause(), Err(Error::Unimplemented)));
    assert!(matches!(p.resume(), Err(Error::Unimplemented)));
    assert!(matches!(p.update(), Err(Error::Unimplemented)));
    assert!(matches!(p.exec(), Err(Error::Unimplemented)));
}

#[test]
fn stdin_fifo_is_requested_in_plan() {
    let bundle = make_bundle("stdinplan");
    write_pid_file(&bundle, b"55\n");
    let fifo_in = format!("{}/in_fifo", bundle);
    let fifo_out = format!("{}/out_dest", bundle);
    let mut config = test_config("stdinplan", &bundle);
    config.stdin = fifo_in.clone();
    config.stdout = fifo_out.clone();
    config.stderr = format!("{}/err_dest", bundle);
    let mut p = InitProcess::new(&bundle, &bundle, "ns", &config, &test_options(), "").unwrap();
    let plan = p.create_prepare(&config).unwrap();
    assert_eq!(plan.stdin_fifo.as_deref(), Some(fifo_in.as_str()));
    assert!(plan.copy.stdin.is_some());
    assert_eq!(plan.copy.tasks.len(), 2);
    assert!(plan.child.stdin.is_some());
    assert!(plan.child.stdout.is_some());
    assert!(plan.child.stderr.is_some());
    // read back the file the library wrote for the pid
    let bytes = read_file_bytes(&format!("{}/init.pid", bundle)).unwrap();
    assert_eq!(bytes, b"55\n".to_vec());
    p.create_finish(plan.created_tx, &success_outcome()).unwrap();
    assert_eq!(p.pid(), 55);
}
