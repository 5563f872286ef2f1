//! Process supervisor state: the tracked worker PID and its transitions.
//!
//! The supervisor owns at most one worker process at a time. The caller is
//! expected to keep a value of [`SidecarState`] behind a mutual-exclusion
//! lock and to hold that lock only around these transition functions, never
//! across a spawn, a wait or any other blocking call.
//!
//! A tracked PID is not a liveness guarantee: the worker may have died
//! without notifying the supervisor, and `start` will then keep refusing
//! until a stop or a termination event clears the state.

use vstd::prelude::*;

use crate::errors::CommandError;

verus! {

/// Exclusive owner of the optional worker-process identifier.
#[derive(Debug)]
pub struct SidecarState {
    /// The PID of the worker spawned by the most recent successful start,
    /// when no stop or termination has since been observed.
    pub pid: Option<u32>,
}

/// The tracked PID after a stop whose worker invocation succeeded or failed.
pub open spec fn stop_next(pid: Option<u32>, success: bool) -> Option<u32> {
    if success {
        None
    } else {
        pid
    }
}

impl SidecarState {
    /// A fresh supervisor tracks no worker.
    pub fn new() -> (r: SidecarState)
        ensures
            r.pid is None,
    {
        SidecarState { pid: None }
    }

    /// The currently tracked PID.
    pub fn tracked_pid(&self) -> (r: Option<u32>)
        ensures
            r == self.pid,
    {
        self.pid
    }

    /// Gate of `start`: starting while a PID is tracked always fails with
    /// `SidecarAlreadyRunning` and leaves the tracked PID unchanged; only
    /// when no PID is tracked may the caller go on to spawn the worker.
    pub fn start_check(&self) -> (r: Result<(), CommandError>)
        ensures
            (r is Ok) == (self.pid is None),
            r matches Err(e) ==> e is SidecarAlreadyRunning,
    {
        match self.pid {
            None => Ok(()),
            Some(_) => Err(CommandError::SidecarAlreadyRunning),
        }
    }

    /// Record the outcome of the spawn that followed a passed [`Self::start_check`]:
    /// on success the new PID is tracked and returned; on failure the state
    /// stays clear and the spawn error is reported.
    pub fn record_spawn(&mut self, outcome: Result<u32, String>) -> (r: Result<u32, CommandError>)
        requires
            old(self).pid is None,
        ensures
            outcome matches Ok(p) ==> final(self).pid == Some(p) && (r matches Ok(q) && q == p),
            outcome matches Err(d) ==> final(self).pid is None && (r matches Err(e)
                && e matches CommandError::SidecarSpawnFailed(m) && m == d),
    {
        match outcome {
            Ok(p) => {
                self.pid = Some(p);
                Ok(p)
            },
            Err(d) => Err(CommandError::SidecarSpawnFailed(d)),
        }
    }

    /// Record the outcome of the worker's `stop` subcommand: a successful
    /// stop clears the tracked PID; a failed one reports the worker's
    /// diagnostic text and leaves the tracked PID untouched (it may still
    /// be accurate).
    pub fn record_stop(&mut self, success: bool, stderr: &str) -> (r: Result<(), CommandError>)
        ensures
            final(self).pid == stop_next(old(self).pid, success),
            (r is Ok) == success,
            !success ==> (r matches Err(e) && e matches CommandError::SidecarCommandFailed(d)
                && d@ == stderr@),
    {
        if success {
            self.pid = None;
            Ok(())
        } else {
            Err(CommandError::SidecarCommandFailed(stderr.to_owned()))
        }
    }

    /// A termination event from the output-streaming task clears the state.
    pub fn on_terminated(&mut self)
        ensures
            final(self).pid is None,
    {
        self.pid = None;
    }
}

/// Stopping is idempotent after success: once a stop has succeeded the
/// tracked PID is clear, and a second stop — whether the worker reports
/// success or failure — leaves it clear; the repeated call merely returns
/// the worker's own error and never corrupts the state.
pub proof fn lemma_stop_idempotent(pid: Option<u32>, second_success: bool)
    ensures
        stop_next(stop_next(pid, true), second_success) is None,
{
}

} // verus!
