//! The life of the process: what it waits for before it loads its jobs,
//! whether it goes on after loading, and the code with which it exits.
use crate::error::{Error, Fault};
use vstd::prelude::*;

verus! {

/// How long the daemon waits before it loads its jobs, in milliseconds.
pub const CONTAINER_DELAY_MS: u64 = 1000;

/// How much is logged.
#[derive(Clone, Copy, Debug, PartialEq, Eq, Structural)]
pub enum LogLevel {
    Warn,
    Info,
    Debug,
    Trace,
}

/// How the process ends.
#[derive(Clone, Copy, Debug, PartialEq, Eq, Structural)]
pub enum Exit {
    /// A signal asked the daemon to stop, and its loops were cancelled.
    Signalled,
    /// The configuration file was checked and is in order.
    Validated,
    /// The configuration could not be loaded.
    LoadFailed,
    /// The configuration declares no job.
    NoJobs,
    /// The loop of a job ended, which none should.
    LoopEnded,
}

/// The exit code of the process: zero after a signal and after a
/// successful check, one otherwise.
pub open spec fn code_of(exit: Exit) -> i32 {
    match exit {
        Exit::Signalled => 0,
        Exit::Validated => 0,
        Exit::LoadFailed => 1,
        Exit::NoJobs => 1,
        Exit::LoopEnded => 1,
    }
}

/// How much is logged after `-v` was given `verbosity` times: warnings
/// without it, then one level more for each, down to everything.
pub open spec fn level_of(verbosity: u8) -> LogLevel {
    if verbosity == 0 {
        LogLevel::Warn
    } else if verbosity == 1 {
        LogLevel::Info
    } else if verbosity == 2 {
        LogLevel::Debug
    } else {
        LogLevel::Trace
    }
}

/// How much is logged after `-v` was given `verbosity` times.
pub fn log_level(verbosity: u8) -> (r: LogLevel)
    ensures
        r == level_of(verbosity),
{
    if verbosity == 0 {
        LogLevel::Warn
    } else if verbosity == 1 {
        LogLevel::Info
    } else if verbosity == 2 {
        LogLevel::Debug
    } else {
        LogLevel::Trace
    }
}

/// How long the daemon waits before it loads its jobs, in milliseconds:
/// inside a container it gives the runtime a second to finish setting up
/// the containers around it.
pub fn startup_delay(in_container: bool) -> (r: u64)
    ensures
        r == (if in_container {
            CONTAINER_DELAY_MS
        } else {
            0
        }),
{
    if in_container {
        CONTAINER_DELAY_MS
    } else {
        0
    }
}

/// Whether the daemon goes on after loading `jobs` jobs: without a job it
/// does not.
pub fn check_jobs(jobs: usize) -> (r: Result<(), Error>)
    ensures
        match r {
            Ok(()) => jobs > 0,
            Err(e) => jobs == 0 && e@ == (Fault::NoJobs, Seq::<char>::empty()),
        },
{
    if jobs == 0 {
        Err(Error::bare(Fault::NoJobs))
    } else {
        Ok(())
    }
}

/// The exit code of the process.
pub fn exit_code(exit: Exit) -> (r: i32)
    ensures
        r == code_of(exit),
{
    match exit {
        Exit::Signalled => 0,
        Exit::Validated => 0,
        Exit::LoadFailed => 1,
        Exit::NoJobs => 1,
        Exit::LoopEnded => 1,
    }
}

} // verus!
