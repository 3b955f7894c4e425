//! Cooperative stop through a `STOP` file in the current directory.
use vstd::prelude::*;

verus! {

/// A request to stop, found as a `STOP` file.
#[derive(Debug, Clone, Copy, PartialEq, Eq, Structural)]
pub struct StopRequested;

impl StopRequested {
    /// The message for the user.
    pub fn message(&self) -> (r: String)
        ensures
            r@ == "found STOP file, stopping now ..."@,
    {
        String::from_str("found STOP file, stopping now ...")
    }
}

/// Watches for a `STOP` file, whose presence asks the supervisor to stop.
pub struct StopFileHandler {
    stop_file: String,
}

impl StopFileHandler {
    pub closed spec fn stop_file_spec(&self) -> Seq<char> {
        self.stop_file@
    }

    /// A handler watching for `STOP` in the current directory.
    pub fn new() -> (r: StopFileHandler)
        ensures
            r.stop_file_spec() == "STOP"@,
    {
        StopFileHandler { stop_file: String::from_str("STOP") }
    }

    /// The path of the file watched for.
    pub fn stop_file(&self) -> (r: &str)
        ensures
            r@ == self.stop_file_spec(),
    {
        self.stop_file.as_str()
    }

    /// Whether a stop was asked for, given whether the file exists.
    pub fn is_interrupted(&self, stop_file_exists: bool) -> (r: bool)
        ensures
            r == stop_file_exists,
    {
        stop_file_exists
    }

    /// An error when the file exists, given whether it does.
    pub fn handle_user_interruption(&self, stop_file_exists: bool) -> (r: Result<(), StopRequested>)
        ensures
            stop_file_exists ==> r == Err::<(), StopRequested>(StopRequested),
            !stop_file_exists ==> r == Ok::<(), StopRequested>(()),
    {
        if self.is_interrupted(stop_file_exists) {
            Err(StopRequested)
        } else {
            Ok(())
        }
    }
}

} // verus!
