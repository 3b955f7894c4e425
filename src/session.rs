//! Running one program under supervision: the command to run, its timeout,
//! and what the supervisor does when the child exits, the deadline passes or
//! the user interrupts.
use vstd::prelude::*;

use crate::text::views;

verus! {

/// The timeout when none is set: two days, in seconds.
pub const DEFAULT_TIMEOUT_SECS: u64 = 172800;

/// A program to run in its own session, with its arguments, working
/// directory, environment and timeout in seconds.
pub struct Session {
    program: String,
    rest: Vec<String>,
    dir: Option<String>,
    envs: Vec<(String, String)>,
    timeout: Option<u32>,
}

impl Session {
    pub closed spec fn program_spec(&self) -> Seq<char> {
        self.program@
    }

    pub closed spec fn args_spec(&self) -> Seq<Seq<char>> {
        views(self.rest@)
    }

    pub closed spec fn dir_spec(&self) -> Option<Seq<char>> {
        match self.dir {
            Some(d) => Some(d@),
            None => None,
        }
    }

    pub closed spec fn envs_spec(&self) -> Seq<(Seq<char>, Seq<char>)> {
        self.envs@.map_values(|e: (String, String)| (e.0@, e.1@))
    }

    pub closed spec fn timeout_spec(&self) -> Option<u32> {
        self.timeout
    }

    /// The program `program`, with no arguments, no timeout set, and the
    /// caller's directory and environment.
    pub fn new(program: &str) -> (r: Session)
        ensures
            r.program_spec() == program@,
            r.args_spec() == Seq::<Seq<char>>::empty(),
            r.dir_spec() == None::<Seq<char>>,
            r.envs_spec() == Seq::<(Seq<char>, Seq<char>)>::empty(),
            r.timeout_spec() == None::<u32>,
    {
        let r = Session {
            program: program.to_owned(),
            rest: Vec::new(),
            dir: None,
            envs: Vec::new(),
            timeout: None,
        };
        proof {
            assert(r.args_spec() =~= Seq::<Seq<char>>::empty());
            assert(r.envs_spec() =~= Seq::<(Seq<char>, Seq<char>)>::empty());
        }
        r
    }

    /// Adds the arguments `args`, in order.
    pub fn args(self, args: Vec<String>) -> (r: Session)
        ensures
            r.args_spec() == self.args_spec() + views(args@),
            r.program_spec() == self.program_spec(),
            r.dir_spec() == self.dir_spec(),
            r.envs_spec() == self.envs_spec(),
            r.timeout_spec() == self.timeout_spec(),
    {
        let mut s = self;
        let mut more = args;
        let ghost old_rest = s.rest@;
        let ghost more_v = more@;
        s.rest.append(&mut more);
        proof {
            assert(s.rest@ == old_rest + more_v);
            assert(views(s.rest@) =~= views(old_rest) + views(more_v));
        }
        s
    }

    /// Adds the argument `arg`.
    pub fn arg(self, arg: &str) -> (r: Session)
        ensures
            r.args_spec() == self.args_spec().push(arg@),
            r.program_spec() == self.program_spec(),
            r.dir_spec() == self.dir_spec(),
            r.envs_spec() == self.envs_spec(),
            r.timeout_spec() == self.timeout_spec(),
    {
        let mut s = self;
        let ghost old_rest = s.rest@;
        s.rest.push(arg.to_owned());
        proof {
            assert(views(s.rest@) =~= views(old_rest).push(arg@));
        }
        s
    }

    /// Sets the child's working directory.
    pub fn dir(self, dir: &str) -> (r: Session)
        ensures
            r.dir_spec() == Some(dir@),
            r.args_spec() == self.args_spec(),
            r.program_spec() == self.program_spec(),
            r.envs_spec() == self.envs_spec(),
            r.timeout_spec() == self.timeout_spec(),
    {
        let mut s = self;
        s.dir = Some(dir.to_owned());
        s
    }

    /// Sets the environment variable `key` to `val` for the child.
    pub fn env(self, key: &str, val: &str) -> (r: Session)
        ensures
            r.envs_spec() == self.envs_spec().push((key@, val@)),
            r.args_spec() == self.args_spec(),
            r.program_spec() == self.program_spec(),
            r.dir_spec() == self.dir_spec(),
            r.timeout_spec() == self.timeout_spec(),
    {
        let mut s = self;
        let ghost old_envs = s.envs@;
        s.envs.push((key.to_owned(), val.to_owned()));
        proof {
            assert(s.envs@.map_values(|e: (String, String)| (e.0@, e.1@)) =~= old_envs.map_values(
                |e: (String, String)| (e.0@, e.1@),
            ).push((key@, val@)));
        }
        s
    }

    /// Sets the timeout to `t` seconds.
    pub fn timeout(self, t: u32) -> (r: Session)
        ensures
            r.timeout_spec() == Some(t),
            r.args_spec() == self.args_spec(),
            r.program_spec() == self.program_spec(),
            r.dir_spec() == self.dir_spec(),
            r.envs_spec() == self.envs_spec(),
    {
        let mut s = self;
        s.timeout = Some(t);
        s
    }

    pub fn program(&self) -> (r: &str)
        ensures
            r@ == self.program_spec(),
    {
        self.program.as_str()
    }

    pub fn arg_list(&self) -> (r: &Vec<String>)
        ensures
            views(r@) == self.args_spec(),
    {
        &self.rest
    }

    pub fn work_dir(&self) -> (r: Option<&str>)
        ensures
            r matches Some(d) ==> self.dir_spec() == Some(d@),
            r is None ==> self.dir_spec() is None,
    {
        match &self.dir {
            Some(d) => Some(d.as_str()),
            None => None,
        }
    }

    pub fn env_list(&self) -> (r: &Vec<(String, String)>)
        ensures
            r@.map_values(|e: (String, String)| (e.0@, e.1@)) == self.envs_spec(),
    {
        &self.envs
    }

    /// The timeout in seconds: the one set, else two days.
    pub fn timeout_secs(&self) -> (r: u64)
        ensures
            r == match self.timeout_spec() {
                Some(t) => t as u64,
                None => DEFAULT_TIMEOUT_SECS,
            },
    {
        match self.timeout {
            Some(t) => t as u64,
            None => DEFAULT_TIMEOUT_SECS,
        }
    }
}

/// Whether a timeout of `timeout_secs` seconds has passed after
/// `elapsed_ms` milliseconds.
pub open spec fn deadline_spec(timeout_secs: u64, elapsed_ms: u64) -> bool {
    elapsed_ms as int >= timeout_secs as int * 1000
}

/// Whether a timeout of `timeout_secs` seconds has passed after
/// `elapsed_ms` milliseconds.
pub fn deadline_reached(timeout_secs: u64, elapsed_ms: u64) -> (r: bool)
    ensures
        r == deadline_spec(timeout_secs, elapsed_ms),
{
    if timeout_secs > u64::MAX / 1000 {
        false
    } else {
        elapsed_ms >= timeout_secs * 1000
    }
}

/// Why a supervised program was stopped.
#[derive(Debug, Clone, Copy, PartialEq, Eq, Structural)]
pub enum Interruption {
    Timeout,
    /// The user pressed Ctrl-C (SIGINT).
    UserSignal,
    /// A `STOP` file was found.
    StopFile,
}

/// What the supervisor sees first.
#[derive(Debug, Clone, Copy, PartialEq, Eq, Structural)]
pub enum SuperviseEvent {
    /// The deadline passed.
    TimedOut,
    UserSignal,
    StopFile,
    /// The child exited; whether its status could be read.
    ChildExited(bool),
}

/// What the supervisor does: whether it terminates the session, how it ends
/// (`None`: the program completed), and the supervisor's exit code.
#[derive(Debug, Clone, Copy, PartialEq, Eq, Structural)]
pub struct Verdict {
    pub terminate: bool,
    pub interrupted: Option<Interruption>,
    pub exit_code: i32,
}

pub open spec fn verdict_spec(ev: SuperviseEvent) -> Verdict {
    match ev {
        SuperviseEvent::TimedOut => Verdict {
            terminate: true,
            interrupted: Some(Interruption::Timeout),
            exit_code: 1,
        },
        SuperviseEvent::UserSignal => Verdict {
            terminate: true,
            interrupted: Some(Interruption::UserSignal),
            exit_code: 1,
        },
        SuperviseEvent::StopFile => Verdict {
            terminate: true,
            interrupted: Some(Interruption::StopFile),
            exit_code: 1,
        },
        SuperviseEvent::ChildExited(_) => Verdict { terminate: false, interrupted: None, exit_code: 0 },
    }
}

/// What the supervisor does on `ev`: on a timeout or an interruption it
/// terminates the session and exits with 1; when the child exits it exits
/// with 0, the child's own status being reported apart.
pub fn on_event(ev: SuperviseEvent) -> (r: Verdict)
    ensures
        r == verdict_spec(ev),
{
    match ev {
        SuperviseEvent::TimedOut => Verdict {
            terminate: true,
            interrupted: Some(Interruption::Timeout),
            exit_code: 1,
        },
        SuperviseEvent::UserSignal => Verdict {
            terminate: true,
            interrupted: Some(Interruption::UserSignal),
            exit_code: 1,
        },
        SuperviseEvent::StopFile => Verdict {
            terminate: true,
            interrupted: Some(Interruption::StopFile),
            exit_code: 1,
        },
        SuperviseEvent::ChildExited(_) => Verdict { terminate: false, interrupted: None, exit_code: 0 },
    }
}

/// The first event among those ready at one poll, the deadline first, then
/// the user's signal, the `STOP` file, and the child's exit; `None` when
/// nothing is ready.
pub open spec fn first_event_spec(
    timeout_secs: u64,
    elapsed_ms: u64,
    user_signal: bool,
    stop_file: bool,
    child_exit: Option<bool>,
) -> Option<SuperviseEvent> {
    if deadline_spec(timeout_secs, elapsed_ms) {
        Some(SuperviseEvent::TimedOut)
    } else if user_signal {
        Some(SuperviseEvent::UserSignal)
    } else if stop_file {
        Some(SuperviseEvent::StopFile)
    } else {
        match child_exit {
            Some(ok) => Some(SuperviseEvent::ChildExited(ok)),
            None => None,
        }
    }
}

/// The event that wins at one poll of the supervisor (see
/// `first_event_spec`).
pub fn first_event(
    timeout_secs: u64,
    elapsed_ms: u64,
    user_signal: bool,
    stop_file: bool,
    child_exit: Option<bool>,
) -> (r: Option<SuperviseEvent>)
    ensures
        r == first_event_spec(timeout_secs, elapsed_ms, user_signal, stop_file, child_exit),
{
    if deadline_reached(timeout_secs, elapsed_ms) {
        Some(SuperviseEvent::TimedOut)
    } else if user_signal {
        Some(SuperviseEvent::UserSignal)
    } else if stop_file {
        Some(SuperviseEvent::StopFile)
    } else {
        match child_exit {
            Some(ok) => Some(SuperviseEvent::ChildExited(ok)),
            None => None,
        }
    }
}

/// A timeout of 0 fires at the first poll, whatever else is ready, and the
/// supervisor then terminates the session and ends interrupted.
pub proof fn lemma_zero_timeout_fires(
    elapsed_ms: u64,
    user_signal: bool,
    stop_file: bool,
    child_exit: Option<bool>,
)
    ensures
        first_event_spec(0, elapsed_ms, user_signal, stop_file, child_exit) == Some(
            SuperviseEvent::TimedOut,
        ),
        verdict_spec(SuperviseEvent::TimedOut).terminate,
        verdict_spec(SuperviseEvent::TimedOut).interrupted is Some,
        verdict_spec(SuperviseEvent::TimedOut).exit_code == 1,
{
}

} // verus!
