//! Supervision of external programs: session control, interactive dialogue
//! with a child, and a queue of jobs with their own working directories.
pub mod apps;
pub mod interactive;
pub mod job;
pub mod nailgun;
pub mod process;
pub mod runner;
pub mod session;
pub mod stop;
pub mod text;
