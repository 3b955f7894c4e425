use gosh_runner::interactive::{stdin_payload, InteractError, LineEvent, MarkerReader, ReadStep};
use gosh_runner::process::SessionOp;
use gosh_runner::runner::{break_control_session, Control, Interaction, RunnerAction, RunnerError, RunnerEvent, RunnerState};

fn line(s: &str) -> LineEvent {
    LineEvent::Line(s.to_string())
}

fn found(step: ReadStep) -> String {
    match step {
        ReadStep::Found(t) => t,
        _ => panic!("no reply"),
    }
}

#[test]
fn interactive_bash_loop() {
    let mut r = MarkerReader::new("hello");
    assert_eq!(stdin_payload(""), None);
    assert_eq!(found(r.feed(line("hello"))), "hello\n");
    assert_eq!(stdin_payload("pwd\n"), Some("pwd\n"));
    assert!(matches!(r.feed(line("output for pwd")), ReadStep::Pending));
    assert_eq!(found(r.feed(line("hello"))), "output for pwd\nhello\n");
}

#[test]
fn marker_inside_a_line() {
    let mut r = MarkerReader::new("END");
    assert!(matches!(r.feed(line("a")), ReadStep::Pending));
    assert_eq!(found(r.feed(line("--END--"))), "a\n--END--\n");
}

#[test]
fn end_of_output_before_marker() {
    let mut r = MarkerReader::new("hello");
    assert!(matches!(r.feed(line("partial")), ReadStep::Pending));
    assert!(matches!(r.feed(LineEvent::Eof), ReadStep::Failed(InteractError::PatternNotFound)));
    assert_eq!(found(r.feed(line("hello"))), "hello\n");
}

#[test]
fn bad_encoding_fails() {
    let mut r = MarkerReader::new("x");
    assert!(matches!(r.feed(LineEvent::BadEncoding), ReadStep::Failed(InteractError::BadEncoding)));
}

#[test]
fn empty_marker_matches_any_line() {
    let mut r = MarkerReader::new("");
    assert_eq!(found(r.feed(line(""))), "\n");
}

#[test]
fn control_before_spawn_is_refused() {
    assert_eq!(break_control_session(false, Control::Pause), Err(RunnerError::NotStarted));
    assert_eq!(break_control_session(true, Control::Pause), Ok((SessionOp::Pause, false)));
    assert_eq!(break_control_session(true, Control::Resume), Ok((SessionOp::Resume, false)));
    assert_eq!(break_control_session(true, Control::Quit), Ok((SessionOp::Terminate, true)));
}

#[test]
fn runner_spawns_once_and_quits() {
    let mut st = RunnerState::new();
    let ask = |i: &str| RunnerEvent::Interaction(Interaction(i.to_string(), "hello".to_string()));
    match st.step(ask("")) {
        RunnerAction::Interact { spawn, input, marker } => {
            assert!(spawn);
            assert_eq!(input, "");
            assert_eq!(marker, "hello");
        }
        _ => panic!("expected an interaction"),
    }
    assert!(matches!(st.step(ask("pwd\n")), RunnerAction::Interact { spawn: false, .. }));
    assert!(matches!(
        st.step(RunnerEvent::Control(Control::Pause)),
        RunnerAction::Apply { op: SessionOp::Pause, stop: false }
    ));
    assert!(matches!(
        st.step(RunnerEvent::Control(Control::Quit)),
        RunnerAction::Apply { op: SessionOp::Terminate, stop: true }
    ));
    assert!(st.finished);
    assert!(matches!(st.step(ask("x")), RunnerAction::Exit(None)));
}

#[test]
fn runner_ends_on_early_control_or_closed_channel() {
    let mut st = RunnerState::new();
    assert!(matches!(
        st.step(RunnerEvent::Control(Control::Resume)),
        RunnerAction::Exit(Some(RunnerError::NotStarted))
    ));
    let mut st = RunnerState::new();
    assert!(matches!(st.step(RunnerEvent::Closed), RunnerAction::Exit(None)));
    assert!(st.finished);
}
