use gosh_runner::process::{
    batch_result, get_processes_in_session, Process, SessionError, SessionEvent, SessionHandler, SessionOp,
    SessionState, Signal,
};

fn p(pid: u32, start: u64, sid: u32, state: char) -> Process {
    Process::new(pid, start, sid, state)
}

#[test]
fn process_views() {
    let a = p(10, 100, 10, 'S');
    assert_eq!(a.id(), 10);
    assert_eq!(a.session_id(), 10);
    assert!(a.is_alive());
    assert!(!a.is_paused());
    assert!(p(10, 100, 10, 'T').is_paused());
    assert!(!p(10, 100, 10, 'Z').is_alive());
    assert!(!p(10, 100, 10, 'X').is_alive());
    assert!(a.is_same(&p(10, 100, 3, 'T')));
    assert!(!a.is_same(&p(10, 101, 10, 'S')));
}

#[test]
fn members_of_a_session() {
    let all = vec![p(1, 1, 1, 'S'), p(10, 5, 10, 'S'), p(11, 6, 10, 'R'), p(12, 7, 12, 'S'), p(13, 8, 10, 'T')];
    let ids: Vec<u32> = get_processes_in_session(&all, 10).iter().map(|q| q.pid).collect();
    assert_eq!(ids, vec![10, 11, 13]);
    assert!(get_processes_in_session(&all, 99).is_empty());
}

#[test]
fn stale_handle_does_not_signal_a_reused_pid() {
    let h = SessionHandler::from_leader(Some(p(10, 100, 10, 'S')));
    assert_eq!(h.id(), Some(10));
    assert_eq!(h.signal_target(Some(p(10, 100, 10, 'S'))), Ok(10));
    assert_eq!(h.signal_target(Some(p(10, 999, 10, 'S'))), Err(SessionError::SessionGone));
    assert_eq!(h.signal_target(Some(p(10, 100, 10, 'Z'))), Err(SessionError::SessionGone));
    assert_eq!(h.signal_target(None), Err(SessionError::SessionGone));
    let all = vec![p(10, 999, 10, 'S'), p(11, 1000, 10, 'S')];
    assert!(matches!(h.signal_plan(Some(p(10, 999, 10, 'S')), &all), Err(SessionError::SessionGone)));
    let plan = h.signal_plan(Some(p(10, 100, 10, 'R')), &all).ok().unwrap();
    assert_eq!(plan.len(), 2);
}

#[test]
fn handle_without_leader() {
    let h = SessionHandler::from_leader(None);
    assert_eq!(h.id(), None);
    assert!(matches!(h.get_processes(&vec![p(1, 1, 1, 'S')]), Err(SessionError::SessionGone)));
    assert_eq!(h.signal_target(Some(p(1, 1, 1, 'S'))), Err(SessionError::SessionGone));
}

#[test]
fn batch_reports_failures() {
    assert_eq!(batch_result(&vec![]), Ok(()));
    assert_eq!(batch_result(&vec![true, true]), Ok(()));
    assert_eq!(batch_result(&vec![true, false, false]), Err(SessionError::SignalFailed(2)));
}

#[test]
fn termination_continues_first() {
    assert_eq!(SessionOp::Terminate.signals(), vec![Signal::Cont, Signal::Term]);
    assert_eq!(SessionOp::Pause.signals(), vec![Signal::Stop]);
    assert_eq!(SessionOp::Resume.signals(), vec![Signal::Cont]);
}

#[test]
fn pause_resume_terminate_cycle() {
    let s = SessionState::NotStarted.step(SessionEvent::Pause);
    assert_eq!(s, SessionState::NotStarted);
    let s = SessionState::NotStarted.step(SessionEvent::Spawn);
    assert_eq!(s, SessionState::Running);
    let paused = s.step(SessionEvent::Pause);
    assert_eq!(paused, SessionState::Paused);
    assert_eq!(paused.step(SessionEvent::Pause).step(SessionEvent::Resume), SessionState::Running);
    assert_eq!(paused.step(SessionEvent::Resume), SessionState::Running);
    let done = paused.step(SessionEvent::Terminate);
    assert_eq!(done, SessionState::Terminated);
    assert_eq!(done.step(SessionEvent::Spawn), SessionState::Terminated);
    assert_eq!(s.step(SessionEvent::Exited), SessionState::Terminated);
}
