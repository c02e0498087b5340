//! The liveness check: reading what the operating system said about the
//! supervised process at one point in time, without waiting for it.

use vstd::prelude::*;

verus! {

/// How a process ended: its exit code, or `None` where it ended without one
/// (killed by a signal).
#[derive(Clone, Copy, Debug, PartialEq, Eq, Structural)]
pub struct ExitStatus {
    pub code: Option<i32>,
}

/// The operating system could not say whether the process is running. Holds
/// the system's error number where there is one.
#[derive(Clone, Copy, Debug, PartialEq, Eq, Structural)]
pub struct QueryFailure {
    pub os_code: Option<i32>,
}

/// The state of the supervised process at the time of a check.
#[derive(Clone, Copy, Debug, PartialEq, Eq, Structural)]
pub enum Liveness {
    /// The process has not exited.
    Alive,
    /// The process has exited, with this status.
    Exited(ExitStatus),
    /// The state of the process could not be read.
    QueryError,
}

impl Liveness {
    /// Only a process known to be alive counts as running: a failed query
    /// is treated like an exit.
    pub open spec fn is_running_spec(self) -> bool {
        self is Alive
    }

    /// Whether the process may be taken as running.
    #[verifier::when_used_as_spec(is_running_spec)]
    pub fn is_running(self) -> (running: bool)
        ensures
            running == self.is_running_spec(),
    {
        match self {
            Liveness::Alive => true,
            Liveness::Exited(_) => false,
            Liveness::QueryError => false,
        }
    }
}

/// What a non-blocking wait on the process reported: `Ok(None)` while it
/// runs, `Ok(Some(status))` once it has exited, `Err` where the query itself
/// failed.
pub type WaitReport = Result<Option<ExitStatus>, QueryFailure>;

/// The liveness that a report stands for.
pub open spec fn liveness_of(report: WaitReport) -> Liveness {
    match report {
        Ok(None) => Liveness::Alive,
        Ok(Some(status)) => Liveness::Exited(status),
        Err(_) => Liveness::QueryError,
    }
}

/// Reads a report of a non-blocking wait: still running, exited with a
/// status, or not answered.
pub fn is_alive(report: WaitReport) -> (liveness: Liveness)
    ensures
        liveness == liveness_of(report),
{
    match report {
        Ok(None) => Liveness::Alive,
        Ok(Some(status)) => Liveness::Exited(status),
        Err(_) => Liveness::QueryError,
    }
}

/// Whether the backend is still running according to `report`. Exactly a
/// report of a process that has not exited says so; an exit and a failed
/// query both count as not running.
pub fn check_backend_alive(report: WaitReport) -> (alive: bool)
    ensures
        alive == (report == Ok::<Option<ExitStatus>, QueryFailure>(None)),
        alive == liveness_of(report).is_running(),
{
    is_alive(report).is_running()
}

} // verus!
