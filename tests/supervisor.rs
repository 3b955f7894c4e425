use gosh_runner::session::{
    deadline_reached, first_event, on_event, Interruption, Session, SuperviseEvent, Verdict, DEFAULT_TIMEOUT_SECS,
};
use gosh_runner::stop::StopFileHandler;

#[test]
fn builder_keeps_everything() {
    let s = Session::new("sleep").arg("10").args(vec!["a".to_string(), "b".to_string()]).dir("/tmp").env("K", "V");
    assert_eq!(s.program(), "sleep");
    assert_eq!(s.arg_list(), &vec!["10".to_string(), "a".to_string(), "b".to_string()]);
    assert_eq!(s.work_dir(), Some("/tmp"));
    assert_eq!(s.env_list(), &vec![("K".to_string(), "V".to_string())]);
    assert_eq!(s.timeout_secs(), DEFAULT_TIMEOUT_SECS);
    assert_eq!(DEFAULT_TIMEOUT_SECS, 2 * 24 * 3600);
    assert_eq!(s.timeout(1).timeout_secs(), 1);
}

#[test]
fn deadlines() {
    assert!(deadline_reached(0, 0));
    assert!(!deadline_reached(1, 999));
    assert!(deadline_reached(1, 1000));
    assert!(!deadline_reached(u64::MAX, u64::MAX));
}

#[test]
fn zero_timeout_fires_immediately() {
    assert_eq!(first_event(0, 0, false, false, Some(true)), Some(SuperviseEvent::TimedOut));
    let v = on_event(SuperviseEvent::TimedOut);
    assert!(v.terminate);
    assert_eq!(v.interrupted, Some(Interruption::Timeout));
    assert_eq!(v.exit_code, 1);
}

#[test]
fn timeout_of_sleep_ten() {
    let s = Session::new("sleep").arg("10").timeout(1);
    let t = s.timeout_secs();
    assert_eq!(first_event(t, 500, false, false, None), None);
    assert_eq!(first_event(t, 1000, false, false, None), Some(SuperviseEvent::TimedOut));
}

#[test]
fn completion_and_interruptions() {
    assert_eq!(first_event(5, 10, false, false, Some(true)), Some(SuperviseEvent::ChildExited(true)));
    assert_eq!(
        on_event(SuperviseEvent::ChildExited(false)),
        Verdict { terminate: false, interrupted: None, exit_code: 0 }
    );
    assert_eq!(first_event(5, 10, true, true, Some(true)), Some(SuperviseEvent::UserSignal));
    assert_eq!(first_event(5, 10, false, true, Some(true)), Some(SuperviseEvent::StopFile));
    assert_eq!(on_event(SuperviseEvent::UserSignal).interrupted, Some(Interruption::UserSignal));
    assert_eq!(on_event(SuperviseEvent::StopFile).exit_code, 1);
}

#[test]
fn stop_file_requests_termination() {
    let h = StopFileHandler::new();
    assert_eq!(h.stop_file(), "STOP");
    assert!(h.handle_user_interruption(false).is_ok());
    let err = h.handle_user_interruption(true).err().unwrap();
    assert!(err.message().contains("STOP"));
    assert!(h.is_interrupted(true));
    let event = first_event(5, 0, false, h.is_interrupted(true), None).unwrap();
    assert!(on_event(event).terminate);
}
