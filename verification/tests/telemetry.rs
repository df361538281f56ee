use rustup_core::telemetry::{EventDetails, Telemeter, EVENT_VERSION};
use std::path::PathBuf;
use std::time::{Duration, SystemTime};

#[test]
fn new_telemeter_has_no_events() {
    let t = Telemeter::new(PathBuf::from("/var/log/rustup"));
    assert_eq!(t.events().len(), 0);
    assert_eq!(t.logdir(), &PathBuf::from("/var/log/rustup"));
}

#[test]
fn log_appends_with_the_current_time() {
    let mut t = Telemeter::new(PathBuf::from("/tmp/telemetry"));
    let before = SystemTime::now();
    t.log(EventDetails::InitialInstall);
    let after = SystemTime::now();
    assert_eq!(t.events().len(), 1);
    let event = &t.events()[0];
    assert_eq!(event.version, 0);
    assert_eq!(event.version, EVENT_VERSION);
    assert!(before <= event.time && event.time <= after);
    assert!(matches!(event.details, EventDetails::InitialInstall));
    assert_eq!(t.logdir(), &PathBuf::from("/tmp/telemetry"));
}

#[test]
fn log_keeps_earlier_events_in_order() {
    let mut t = Telemeter::new(PathBuf::from("logs"));
    t.log(EventDetails::RustcRun(Duration::from_millis(1500), 0));
    t.log(EventDetails::CargoRun(Duration::from_secs(2), 101));
    t.log(EventDetails::RustcErrorCode(String::from("E0308")));
    t.log(EventDetails::ComponentDownload {
        name: String::from("rust-std"),
        target: String::from("x86_64-unknown-linux-gnu"),
        version: String::from("1.8.0"),
    });
    let events = t.events();
    assert_eq!(events.len(), 4);
    match &events[0].details {
        EventDetails::RustcRun(d, code) => {
            assert_eq!(*d, Duration::from_millis(1500));
            assert_eq!(*code, 0);
        }
        other => panic!("unexpected {:?}", other),
    }
    match &events[1].details {
        EventDetails::CargoRun(d, code) => {
            assert_eq!(*d, Duration::from_secs(2));
            assert_eq!(*code, 101);
        }
        other => panic!("unexpected {:?}", other),
    }
    match &events[2].details {
        EventDetails::RustcErrorCode(code) => assert_eq!(code, "E0308"),
        other => panic!("unexpected {:?}", other),
    }
    match &events[3].details {
        EventDetails::ComponentDownload { name, target, version } => {
            assert_eq!(name, "rust-std");
            assert_eq!(target, "x86_64-unknown-linux-gnu");
            assert_eq!(version, "1.8.0");
        }
        other => panic!("unexpected {:?}", other),
    }
    for pair in events.windows(2) {
        assert!(pair[0].time <= pair[1].time);
    }
}

#[test]
fn log_at_takes_the_time_given() {
    let mut t = Telemeter::new(PathBuf::from("logs"));
    let epoch = SystemTime::UNIX_EPOCH;
    let later = epoch + Duration::from_secs(86400);
    t.log_at(later, EventDetails::InitialInstall);
    t.log_at(epoch, EventDetails::RustcErrorCode(String::from("E0001")));
    assert_eq!(t.events().len(), 2);
    assert_eq!(t.events()[0].time, later);
    assert_eq!(t.events()[0].version, 0);
    assert_eq!(t.events()[1].time, epoch);
    assert!(matches!(t.events()[0].details, EventDetails::InitialInstall));
}
