//! Processes and POSIX sessions: a pid made safe against reuse, the members
//! of a session, the checks made before a session is signalled, and the
//! states that a session goes through.
use vstd::prelude::*;

verus! {

/// A process told apart from later ones with the same pid: its pid and its
/// start time in clock ticks after boot. Two refs are equal when both fields
/// are.
#[derive(Debug, Clone, Copy, PartialEq, Eq, Structural)]
pub struct ProcessRef {
    pub pid: u32,
    pub start_time: u64,
}

/// What the OS showed of a process at one reading: its pid, start time,
/// session id, and state letter as in `/proc/<pid>/stat` (`R`, `S`, `T`,
/// `Z`, ...).
#[derive(Debug, Clone, Copy, PartialEq, Eq, Structural)]
pub struct Process {
    pub pid: u32,
    pub start_time: u64,
    pub session: u32,
    pub state: char,
}

impl Process {
    /// The process as read: pid, start time, session id and state letter.
    pub fn new(pid: u32, start_time: u64, session: u32, state: char) -> (r: Process)
        ensures
            r == (Process { pid, start_time, session, state }),
    {
        Process { pid, start_time, session, state }
    }

    /// The system's id of the process.
    pub fn id(&self) -> (r: u32)
        ensures
            r == self.pid,
    {
        self.pid
    }

    /// The id of the session the process belongs to.
    pub fn session_id(&self) -> (r: u32)
        ensures
            r == self.session,
    {
        self.session
    }

    /// The pid and start time.
    pub fn process_ref(&self) -> (r: ProcessRef)
        ensures
            r == (ProcessRef { pid: self.pid, start_time: self.start_time }),
    {
        ProcessRef { pid: self.pid, start_time: self.start_time }
    }

    /// Alive: neither a zombie (`Z`) nor dead (`X`).
    pub fn is_alive(&self) -> (r: bool)
        ensures
            r == (self.state != 'Z' && self.state != 'X'),
    {
        self.state != 'Z' && self.state != 'X'
    }

    /// Stopped by a signal (`T`).
    pub fn is_paused(&self) -> (r: bool)
        ensures
            r == (self.state == 'T'),
    {
        self.state == 'T'
    }

    /// The same process as `p`: same pid and same start time, so not a
    /// later process that got the pid again.
    pub fn is_same(&self, p: &Process) -> (r: bool)
        ensures
            r == (self.pid == p.pid && self.start_time == p.start_time),
    {
        self.pid == p.pid && self.start_time == p.start_time
    }
}

/// The processes of `all` whose session id is `sid`, in their order.
pub open spec fn in_session(all: Seq<Process>, sid: u32) -> Seq<Process>
    decreases all.len(),
{
    if all.len() == 0 {
        Seq::empty()
    } else if all.last().session == sid {
        in_session(all.drop_last(), sid).push(all.last())
    } else {
        in_session(all.drop_last(), sid)
    }
}

/// The processes of `all` that belong to the session `sid`.
pub fn get_processes_in_session(all: &Vec<Process>, sid: u32) -> (r: Vec<Process>)
    ensures
        r@ == in_session(all@, sid),
{
    let mut r: Vec<Process> = Vec::new();
    let mut i: usize = 0;
    while i < all.len()
        invariant
            i <= all@.len(),
            r@ == in_session(all@.subrange(0, i as int), sid),
        decreases all@.len() - i,
    {
        proof {
            assert(all@.subrange(0, i + 1).drop_last() =~= all@.subrange(0, i as int));
        }
        if all[i].session == sid {
            r.push(all[i]);
        }
        i = i + 1;
    }
    proof {
        assert(all@.subrange(0, all@.len() as int) =~= all@);
    }
    r
}

/// What goes wrong with an operation on a session.
#[derive(Debug, Clone, Copy, PartialEq, Eq, Structural)]
pub enum SessionError {
    /// The leader is gone, is no longer alive, or its pid now belongs to
    /// another process.
    SessionGone,
    /// The OS refused the signal for this many members of the session.
    SignalFailed(usize),
}

/// The signals that the controller sends.
#[derive(Debug, Clone, Copy, PartialEq, Eq, Structural)]
pub enum Signal {
    Stop,
    Cont,
    Term,
}

/// The operations on a running session.
#[derive(Debug, Clone, Copy, PartialEq, Eq, Structural)]
pub enum SessionOp {
    Pause,
    Resume,
    Terminate,
}

pub open spec fn op_signals(op: SessionOp) -> Seq<Signal> {
    match op {
        SessionOp::Pause => seq![Signal::Stop],
        SessionOp::Resume => seq![Signal::Cont],
        SessionOp::Terminate => seq![Signal::Cont, Signal::Term],
    }
}

impl SessionOp {
    /// The signal batches of the operation, in order: a pause stops, a
    /// resume continues, and a termination continues before it terminates,
    /// since a stopped process would not act on `SIGTERM`.
    pub fn signals(&self) -> (r: Vec<Signal>)
        ensures
            r@ == op_signals(*self),
    {
        match self {
            SessionOp::Pause => vec![Signal::Stop],
            SessionOp::Resume => vec![Signal::Cont],
            SessionOp::Terminate => vec![Signal::Cont, Signal::Term],
        }
    }
}

/// Whether `now`, the leader as read again, is the leader recorded at spawn
/// time and still alive.
pub open spec fn leader_holds(recorded: Option<ProcessRef>, now: Option<Process>) -> bool {
    match (recorded, now) {
        (Some(r), Some(p)) => p.pid == r.pid && p.start_time == r.start_time && p.state != 'Z'
            && p.state != 'X',
        _ => false,
    }
}

/// The number of `false` entries.
pub open spec fn count_failed(outcomes: Seq<bool>) -> nat
    decreases outcomes.len(),
{
    if outcomes.len() == 0 {
        0
    } else {
        count_failed(outcomes.drop_last()) + if outcomes.last() {
            0nat
        } else {
            1nat
        }
    }
}

/// A cheap handle on the session that a spawned leader heads: its leader's
/// ref, or none when the leader was gone before it could be read.
#[derive(Debug, Clone, Copy, PartialEq, Eq, Structural)]
pub struct SessionHandler {
    leader: Option<ProcessRef>,
}

impl SessionHandler {
    pub closed spec fn leader_spec(&self) -> Option<ProcessRef> {
        self.leader
    }

    /// A handle on the session led by `leader`, as read right after the
    /// spawn (`None` when it could not be read).
    pub fn from_leader(leader: Option<Process>) -> (r: SessionHandler)
        ensures
            r.leader_spec() == match leader {
                Some(p) => Some(ProcessRef { pid: p.pid, start_time: p.start_time }),
                None => None::<ProcessRef>,
            },
    {
        match leader {
            Some(p) => SessionHandler { leader: Some(p.process_ref()) },
            None => SessionHandler { leader: None },
        }
    }

    /// The leader's pid, or none when it was gone at spawn time.
    pub fn id(&self) -> (r: Option<u32>)
        ensures
            r == match self.leader_spec() {
                Some(l) => Some(l.pid),
                None => None::<u32>,
            },
    {
        match self.leader {
            Some(l) => Some(l.pid),
            None => None,
        }
    }

    /// The leader recorded at spawn time.
    pub fn leader(&self) -> (r: Option<ProcessRef>)
        ensures
            r == self.leader_spec(),
    {
        self.leader
    }

    /// The session id to signal, given `now`, the leader as read again
    /// right before a signal batch (`None`: it could not be read). Only the
    /// leader recorded at spawn time, still alive, is signalled: a pid that
    /// a later process got is never.
    pub fn signal_target(&self, now: Option<Process>) -> (r: Result<u32, SessionError>)
        ensures
            leader_holds(self.leader_spec(), now) ==> r == Ok::<u32, SessionError>(
                self.leader_spec().unwrap().pid,
            ),
            !leader_holds(self.leader_spec(), now) ==> r == Err::<u32, SessionError>(
                SessionError::SessionGone,
            ),
    {
        match (self.leader, now) {
            (Some(l), Some(p)) => {
                if p.pid == l.pid && p.start_time == l.start_time && p.is_alive() {
                    Ok(l.pid)
                } else {
                    Err(SessionError::SessionGone)
                }
            },
            _ => Err(SessionError::SessionGone),
        }
    }

    /// The processes to signal in one batch, given the leader as read again
    /// and every process that the OS lists: the members of the leader's
    /// session when the leader holds, else none and an error.
    pub fn signal_plan(&self, now: Option<Process>, all: &Vec<Process>) -> (r: Result<
        Vec<Process>,
        SessionError,
    >)
        ensures
            leader_holds(self.leader_spec(), now) ==> (r matches Ok(v) && v@ == in_session(
                all@,
                self.leader_spec().unwrap().pid,
            )),
            !leader_holds(self.leader_spec(), now) ==> r == Err::<Vec<Process>, SessionError>(
                SessionError::SessionGone,
            ),
    {
        match self.signal_target(now) {
            Ok(sid) => Ok(get_processes_in_session(all, sid)),
            Err(e) => Err(e),
        }
    }

    /// The processes of the session among `all`; an error when the leader
    /// was gone at spawn time.
    pub fn get_processes(&self, all: &Vec<Process>) -> (r: Result<Vec<Process>, SessionError>)
        ensures
            self.leader_spec() is None ==> r == Err::<Vec<Process>, SessionError>(
                SessionError::SessionGone,
            ),
            self.leader_spec() is Some ==> (r matches Ok(v) && v@ == in_session(
                all@,
                self.leader_spec().unwrap().pid,
            )),
    {
        match self.leader {
            Some(l) => Ok(get_processes_in_session(all, l.pid)),
            None => Err(SessionError::SessionGone),
        }
    }
}

/// The result of a signal batch from whether each delivery succeeded: a
/// failure does not stop the batch, and the number of failures is reported.
pub fn batch_result(delivered: &Vec<bool>) -> (r: Result<(), SessionError>)
    ensures
        count_failed(delivered@) == 0 ==> r == Ok::<(), SessionError>(()),
        count_failed(delivered@) > 0 ==> r == Err::<(), SessionError>(
            SessionError::SignalFailed(count_failed(delivered@) as usize),
        ),
{
    let mut failed: usize = 0;
    let mut i: usize = 0;
    while i < delivered.len()
        invariant
            i <= delivered@.len(),
            failed == count_failed(delivered@.subrange(0, i as int)),
            failed <= i,
        decreases delivered@.len() - i,
    {
        proof {
            assert(delivered@.subrange(0, i + 1).drop_last() =~= delivered@.subrange(0, i as int));
        }
        if !delivered[i] {
            failed = failed + 1;
        }
        i = i + 1;
    }
    proof {
        assert(delivered@.subrange(0, delivered@.len() as int) =~= delivered@);
    }
    if failed == 0 {
        Ok(())
    } else {
        Err(SessionError::SignalFailed(failed))
    }
}

/// The life of a session.
#[derive(Debug, Clone, Copy, PartialEq, Eq, Structural)]
pub enum SessionState {
    NotStarted,
    Running,
    Paused,
    Terminated,
}

/// What happens to a session.
#[derive(Debug, Clone, Copy, PartialEq, Eq, Structural)]
pub enum SessionEvent {
    Spawn,
    Pause,
    Resume,
    Terminate,
    /// The leader exited on its own.
    Exited,
}

/// The state after `ev`: a spawn starts a session that has not started;
/// pause and resume move between running and paused; termination and exit
/// end a started session for good.
pub open spec fn next_state(s: SessionState, ev: SessionEvent) -> SessionState {
    match (s, ev) {
        (SessionState::NotStarted, SessionEvent::Spawn) => SessionState::Running,
        (SessionState::NotStarted, _) => SessionState::NotStarted,
        (SessionState::Terminated, _) => SessionState::Terminated,
        (_, SessionEvent::Spawn) => s,
        (_, SessionEvent::Pause) => SessionState::Paused,
        (_, SessionEvent::Resume) => SessionState::Running,
        (_, SessionEvent::Terminate) => SessionState::Terminated,
        (_, SessionEvent::Exited) => SessionState::Terminated,
    }
}

impl SessionState {
    /// The state after `ev`.
    pub fn step(&self, ev: SessionEvent) -> (r: SessionState)
        ensures
            r == next_state(*self, ev),
    {
        match (*self, ev) {
            (SessionState::NotStarted, SessionEvent::Spawn) => SessionState::Running,
            (SessionState::NotStarted, _) => SessionState::NotStarted,
            (SessionState::Terminated, _) => SessionState::Terminated,
            (_, SessionEvent::Spawn) => *self,
            (_, SessionEvent::Pause) => SessionState::Paused,
            (_, SessionEvent::Resume) => SessionState::Running,
            (_, SessionEvent::Terminate) => SessionState::Terminated,
            (_, SessionEvent::Exited) => SessionState::Terminated,
        }
    }
}

/// A pause followed by a resume leaves a live session running, and pausing
/// twice before the resume ends the same way.
pub proof fn lemma_pause_resume(s: SessionState)
    requires
        s == SessionState::Running || s == SessionState::Paused,
    ensures
        next_state(next_state(s, SessionEvent::Pause), SessionEvent::Resume) == SessionState::Running,
        next_state(next_state(next_state(s, SessionEvent::Pause), SessionEvent::Pause), SessionEvent::Resume)
            == next_state(next_state(s, SessionEvent::Pause), SessionEvent::Resume),
{
}

/// A terminated session stays terminated whatever happens.
pub proof fn lemma_terminated_is_final(ev: SessionEvent)
    ensures
        next_state(SessionState::Terminated, ev) == SessionState::Terminated,
{
}

/// A handle whose leader's pid now belongs to another process (another
/// start time) yields no target and no process to signal.
pub proof fn lemma_reused_pid_not_signalled(h: SessionHandler, now: Process)
    requires
        h.leader_spec() matches Some(l) && l.pid == now.pid && l.start_time != now.start_time,
    ensures
        !leader_holds(h.leader_spec(), Some(now)),
{
}

} // verus!
