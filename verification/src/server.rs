//! The server-lifecycle state machine: which executable to run and whether a
//! live child process is currently owned.
//!
//! Spawning and killing the process are outside work performed by the shell
//! around this library; the decisions — whether a process must be started and
//! whether one must be killed — are made here.

use vstd::prelude::*;

verus! {

/// The capability of starting and stopping one external server. `start`
/// spawns the configured executable and waits until it is ready; `stop` is
/// idempotent: without a live process it is a no-op success. Only the runner
/// calls these, and never concurrently against the same handle.
pub trait Server<'a> {
    /// The fatal failure starting or stopping the server can produce.
    type Error;

    /// The awaitable start operation.
    type StartFuture: core::future::Future<Output = Result<(), Self::Error>> + 'a;

    /// The awaitable stop operation.
    type StopFuture: core::future::Future<Output = Result<(), Self::Error>> + 'a;

    /// Spawn the server and wait for it to become ready.
    fn start(&'a mut self) -> Self::StartFuture;

    /// Stop the server if one is running; a no-op success otherwise.
    fn stop(&'a mut self) -> Self::StopFuture;
}

/// How long a freshly spawned server is given to begin listening before the
/// first request is sent, in milliseconds.
pub const START_GRACE_MILLIS: u64 = 1000;

/// The handle of one external server: the executable path, its argument
/// list, the grace period its process is given after a spawn, and whether a
/// spawned process is currently owned. Exactly one live process per handle
/// at a time.
pub struct PathExecutableServer {
    pub name: String,
    pub args: Vec<String>,
    pub start_grace_millis: u64,
    pub running: bool,
}

impl PathExecutableServer {
    /// A handle for the given executable and arguments, with no live
    /// process and the default one-second start grace.
    pub fn new(name: String, args: Vec<String>) -> (r: PathExecutableServer)
        ensures
            r.name == name,
            r.args == args,
            r.start_grace_millis == START_GRACE_MILLIS,
            !r.running,
    {
        PathExecutableServer { name, args, start_grace_millis: START_GRACE_MILLIS, running: false }
    }

    /// Record that the executable was successfully spawned: the handle now
    /// owns a live process.
    pub fn mark_started(&mut self)
        ensures
            final(self).running,
            final(self).name == old(self).name,
            final(self).args == old(self).args,
            final(self).start_grace_millis == old(self).start_grace_millis,
    {
        self.running = true;
    }

    /// Decide the stop action and record its outcome: returns whether a live
    /// process must be killed. Idempotent: without a prior successful start
    /// there is nothing to kill and the call is a no-op success.
    pub fn mark_stopped(&mut self) -> (kill: bool)
        ensures
            kill == old(self).running,
            !final(self).running,
            final(self).name == old(self).name,
            final(self).args == old(self).args,
            final(self).start_grace_millis == old(self).start_grace_millis,
    {
        let kill = self.running;
        self.running = false;
        kill
    }
}

} // verus!
