use shim_runc::error::Error;
use shim_runc::monitor::{oneshot_pair, DefaultMonitor, Exit, Timestamp};

#[test]
fn exit_notification_is_delivered_once() {
    let (tx, rx) = oneshot_pair::<Exit>();
    let monitor = DefaultMonitor::new();
    let exit = Exit { ts: Timestamp { seconds: 1700000000, nanos: 5 }, pid: 42, status: 7 };
    monitor.notify(tx, exit).unwrap();
    let got = monitor.wait(rx).unwrap();
    assert_eq!(got, exit);
    // the channel halves are consumed: delivering or waiting again needs
    // a fresh channel, so a second notification cannot exist
}

#[test]
fn dropped_receiver_is_connection_refused() {
    let (tx, rx) = oneshot_pair::<Exit>();
    drop(rx);
    let monitor = DefaultMonitor::new();
    let exit = Exit { ts: Timestamp { seconds: 0, nanos: 0 }, pid: 1, status: 0 };
    assert!(matches!(monitor.notify(tx, exit), Err(Error::ConnectionRefused)));
}

#[test]
fn dropped_sender_is_broken_pipe() {
    let (tx, rx) = oneshot_pair::<Exit>();
    drop(tx);
    let monitor = DefaultMonitor::new();
    assert!(matches!(monitor.wait(rx), Err(Error::BrokenPipe)));
}
