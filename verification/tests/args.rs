use shim_runc::digits::{decimal_string, parse_pid_bytes};
use shim_runc::error::Error;
use shim_runc::options::{CreateOpts, DeleteOpts, ExecOpts, KillOpts};
use shim_runc::runc::{
    interpret_output, new_runc, LogFormat, RawOutput, RuncAsyncClient, RuncClient, RuncConfig,
};
use shim_runc::state::{
    apply_event, external_status, queryable_state, LifecycleEvent, ProcessState, TaskStatus,
};

#[test]
fn decimal_rendering() {
    assert_eq!(decimal_string(0), "0");
    assert_eq!(decimal_string(7), "7");
    assert_eq!(decimal_string(12345), "12345");
    assert_eq!(decimal_string(1000), "1000");
}

#[test]
fn pid_parsing() {
    assert_eq!(parse_pid_bytes(&b"1234\n".to_vec()).unwrap(), 1234);
    assert_eq!(parse_pid_bytes(&b"  42 \n".to_vec()).unwrap(), 42);
    assert_eq!(parse_pid_bytes(&b"0".to_vec()).unwrap(), 0);
    assert!(parse_pid_bytes(&b"\n".to_vec()).is_err());
    assert!(parse_pid_bytes(&b"12a4".to_vec()).is_err());
    assert!(parse_pid_bytes(&b"12345678901234567890123".to_vec()).is_err());
}

#[test]
fn create_opts_render() {
    let opts = CreateOpts::new().pid_file("/tmp/bundle/init.pid").no_pivot(true);
    let args = opts.to_args().unwrap();
    assert_eq!(args, vec!["--pid-file", "/tmp/bundle/init.pid", "--no-pivot"]);
}

#[test]
fn create_opts_render_all_flags() {
    let opts = CreateOpts::new()
        .console_socket("/tmp/console.sock")
        .detach(true)
        .no_pivot(true)
        .no_new_keyring(true);
    let args = opts.to_args().unwrap();
    assert_eq!(
        args,
        vec![
            "--console-socket",
            "/tmp/console.sock",
            "--no-pivot",
            "--no-new-keyring",
            "--detach"
        ]
    );
}

#[test]
fn exec_opts_render() {
    let opts = ExecOpts::new().pid_file("/tmp/x.pid").detach(true);
    let args = opts.to_args().unwrap();
    assert_eq!(args, vec!["--pid-file", "/tmp/x.pid", "--detach"]);
}

#[test]
fn delete_and_kill_opts_render() {
    assert_eq!(DeleteOpts::new().force(true).to_args(), vec!["--force"]);
    assert!(DeleteOpts::new().to_args().is_empty());
    assert_eq!(KillOpts::new().all(true).to_args(), vec!["--all"]);
    assert!(KillOpts::new().to_args().is_empty());
}

#[test]
fn client_global_args() {
    let client = RuncConfig::new()
        .command("/usr/bin/true")
        .root("/run/test-root")
        .log("/tmp/log.json")
        .log_format(LogFormat::Json)
        .systemd_cgroup(true)
        .build()
        .unwrap();
    assert_eq!(
        client.global_args(),
        vec![
            "--root",
            "/run/test-root",
            "--log",
            "/tmp/log.json",
            "--log-format",
            "json",
            "--systemd-cgroup"
        ]
    );
}

#[test]
fn client_kill_command() {
    let client = RuncClient::from_config(RuncConfig::new().command("/bin/true")).unwrap();
    let cmd = client.kill("box1", 9, Some(&KillOpts::new().all(true)));
    assert_eq!(cmd.program, "/bin/true");
    assert_eq!(cmd.args, vec!["kill", "--all", "box1", "9"]);
}

#[test]
fn client_start_delete_pause_resume_commands() {
    let client = RuncClient::from_config(RuncConfig::new().command("runc-test")).unwrap();
    assert_eq!(client.start("c1").args, vec!["start", "c1"]);
    assert_eq!(client.delete("c1", None).args, vec!["delete", "c1"]);
    assert_eq!(
        client.delete("c1", Some(&DeleteOpts::new().force(true))).args,
        vec!["delete", "--force", "c1"]
    );
    assert_eq!(client.pause("c1").args, vec!["pause", "c1"]);
    assert_eq!(client.resume("c1").args, vec!["resume", "c1"]);
}

#[test]
fn client_create_command() {
    let client = RuncClient::from_config(RuncConfig::new().command("runc-test")).unwrap();
    let opts = CreateOpts::new().pid_file("/tmp/b/init.pid").no_pivot(true);
    let cmd = client.create("c9", "/tmp/b", Some(&opts)).unwrap();
    assert_eq!(
        cmd.args,
        vec!["create", "--bundle", "/tmp/b", "--pid-file", "/tmp/b/init.pid", "--no-pivot", "c9"]
    );
}

#[test]
fn client_unimplemented_surface() {
    let client = RuncClient::from_config(RuncConfig::new()).unwrap();
    assert_eq!(client.command, "runc");
    assert!(matches!(client.checkpoint(), Err(Error::Unimplemented)));
    assert!(matches!(client.restore(), Err(Error::Unimplemented)));
    let async_client = RuncAsyncClient::from_config(RuncConfig::new().command("x")).unwrap();
    assert_eq!(async_client.client.command, "x");
}

#[test]
fn new_runc_configures_paths() {
    let client = new_runc(None, "/tmp/bundle9", "ns1", "/bin/true", true).unwrap();
    assert_eq!(client.command, "/bin/true");
    assert!(client.systemd_cgroup);
    assert_eq!(client.root.as_deref(), Some("/run/containerd/runc/ns1"));
    assert_eq!(client.log.as_deref(), Some("/tmp/bundle9/log.json"));
    let rooted = new_runc(Some("/custom/root"), "/tmp/b", "ns2", "r", false).unwrap();
    assert_eq!(rooted.root.as_deref(), Some("/custom/root/ns2"));
}

#[test]
fn interpret_output_paths() {
    let ok = RawOutput {
        success: true,
        spawn_failed: false,
        timed_out: false,
        status: 0,
        pid: 77,
        stdout: String::from("out"),
        stderr: String::from("err"),
    };
    let resp = interpret_output(ok.clone(), true).unwrap();
    assert_eq!(resp.pid, 77);
    assert_eq!(resp.output, "outerr");
    let resp2 = interpret_output(ok, false).unwrap();
    assert_eq!(resp2.output, "out");
    let bad = RawOutput {
        success: false,
        spawn_failed: false,
        timed_out: false,
        status: 1,
        pid: 78,
        stdout: String::from("o"),
        stderr: String::from("e"),
    };
    match interpret_output(bad, true) {
        Err(Error::CommandFailed { status, stdout, stderr }) => {
            assert_eq!(status, 1);
            assert_eq!(stdout, "o");
            assert_eq!(stderr, "e");
        },
        other => panic!("unexpected: {:?}", other),
    }
}

#[test]
fn state_machine_edges() {
    let s = ProcessState::Unknown;
    let s = apply_event(s, LifecycleEvent::CreateDone);
    assert_eq!(s, ProcessState::Created);
    // start is the only way forward from created
    assert_eq!(apply_event(s, LifecycleEvent::ExitObserved), ProcessState::Created);
    assert_eq!(apply_event(s, LifecycleEvent::DeleteDone), ProcessState::Created);
    let s = apply_event(s, LifecycleEvent::StartDone);
    assert_eq!(s, ProcessState::Running);
    let paused = apply_event(s, LifecycleEvent::PauseDone);
    assert_eq!(paused, ProcessState::Paused);
    assert_eq!(apply_event(paused, LifecycleEvent::ResumeDone), ProcessState::Running);
    let s = apply_event(s, LifecycleEvent::ExitObserved);
    assert_eq!(s, ProcessState::Stopped);
    let s = apply_event(s, LifecycleEvent::DeleteDone);
    assert_eq!(s, ProcessState::Deleted);
    // nothing leaves the terminal state
    assert_eq!(apply_event(s, LifecycleEvent::CreateDone), ProcessState::Deleted);
    assert_eq!(apply_event(s, LifecycleEvent::StartDone), ProcessState::Deleted);
}

#[test]
fn external_status_vocabulary() {
    assert_eq!(external_status(ProcessState::Unknown), TaskStatus::Unknown);
    assert_eq!(external_status(ProcessState::Created), TaskStatus::Created);
    assert_eq!(external_status(ProcessState::Running), TaskStatus::Running);
    assert_eq!(external_status(ProcessState::Pausing), TaskStatus::Pausing);
    assert_eq!(external_status(ProcessState::Paused), TaskStatus::Paused);
    assert_eq!(external_status(ProcessState::Stopped), TaskStatus::Stopped);
    assert_eq!(external_status(ProcessState::Deleted), TaskStatus::Stopped);
}

#[test]
fn unknown_state_is_not_found() {
    assert!(matches!(queryable_state(ProcessState::Unknown), Err(Error::NotFound)));
    assert_eq!(queryable_state(ProcessState::Running).unwrap(), ProcessState::Running);
}
