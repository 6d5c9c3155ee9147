//! The one development-server process that the shell tracks, and what the
//! start and stop commands report.
//!
//! The handle type `H` is left open: the host stores its child-process handle
//! here, behind its own lock, and performs the spawn and the kill itself.

use vstd::prelude::*;
use vstd::string::StringExecFns;

verus! {

/// Port reported for a started server. It is fixed: nothing reads the port
/// that the child process actually binds.
pub const DEV_SERVER_PORT: u16 = 3001;

/// Reply text when the server process could not be spawned.
pub open spec fn start_failure_text(detail: Seq<char>) -> Seq<char> {
    "Failed to start dev server: "@ + detail
}

/// Reply text when the tracked server process could not be killed.
pub open spec fn stop_failure_text(detail: Seq<char>) -> Seq<char> {
    "Failed to stop dev server: "@ + detail
}

/// The process tracked after a start request whose spawn gave `spawned`:
/// a new process replaces whatever was tracked, without stopping it.
pub open spec fn after_start<H>(current: Option<H>, spawned: Result<H, String>) -> Option<H> {
    match spawned {
        Ok(h) => Some(h),
        Err(_) => current,
    }
}

/// The process tracked after a stop request: none.
pub open spec fn after_stop<H>(current: Option<H>) -> Option<H> {
    None
}

/// The process that a stop request terminates: the tracked one, if any.
pub open spec fn stop_target<H>(current: Option<H>) -> Option<H> {
    current
}

/// Whether a stop request succeeds, given the outcome of killing its target
/// (`None` when nothing was tracked).
pub open spec fn stop_succeeds(killed: Option<Result<(), String>>) -> bool {
    match killed {
        Some(Err(_)) => false,
        _ => true,
    }
}

/// The slot holding the tracked development-server process, if one runs.
pub struct DevServerState<H> {
    process: Option<H>,
}

impl<H> View for DevServerState<H> {
    type V = Option<H>;

    closed spec fn view(&self) -> Option<H> {
        self.process
    }
}

impl<H> DevServerState<H> {
    /// An empty slot, as at application start.
    pub fn new() -> (r: Self)
        ensures
            r@ == None::<H>,
    {
        DevServerState { process: None }
    }

    pub fn is_running(&self) -> (r: bool)
        ensures
            r == self@.is_some(),
    {
        self.process.is_some()
    }

    /// Records the outcome of spawning a server. A spawned process is tracked,
    /// replacing (and dropping, not killing) any earlier one, and the fixed
    /// port is returned; a spawn failure leaves the slot as it was and is
    /// reported with its description.
    pub fn record_start(&mut self, spawned: Result<H, String>) -> (r: Result<u16, String>)
        ensures
            final(self)@ == after_start(old(self)@, spawned),
            spawned is Ok ==> r == Ok::<u16, String>(DEV_SERVER_PORT),
            spawned is Err ==> (r is Err && r->Err_0@ == start_failure_text(spawned->Err_0@)),
    {
        match spawned {
            Ok(child) => {
                self.process = Some(child);
                Ok(DEV_SERVER_PORT)
            },
            Err(detail) => {
                let mut text = String::from_str("Failed to start dev server: ");
                text.append(detail.as_str());
                Err(text)
            },
        }
    }

    /// First half of a stop request: empties the slot and hands out the
    /// process to terminate, if one was tracked.
    pub fn take_process(&mut self) -> (r: Option<H>)
        ensures
            r == stop_target(old(self)@),
            final(self)@ == after_stop(old(self)@),
    {
        self.process.take()
    }
}

/// Second half of a stop request: its reply, given the outcome of killing the
/// process that `take_process` handed out (`None` when there was none).
/// Having nothing to stop is a success.
pub fn stop_reply(killed: Option<Result<(), String>>) -> (r: Result<(), String>)
    ensures
        r is Ok <==> stop_succeeds(killed),
        !stop_succeeds(killed) ==> r->Err_0@ == stop_failure_text(killed->Some_0->Err_0@),
{
    match killed {
        Some(Err(detail)) => {
            let mut text = String::from_str("Failed to stop dev server: ");
            text.append(detail.as_str());
            Err(text)
        },
        _ => Ok(()),
    }
}

/// Stopping twice in a row with no process running succeeds both times: neither
/// stop has a process to kill, and having nothing to kill is a success.
pub proof fn lemma_stop_twice_when_idle<H>(current: Option<H>)
    requires
        current is None,
    ensures
        stop_target(current) is None,
        stop_target(after_stop(current)) is None,
        after_stop(after_stop(current)) is None,
        stop_succeeds(None),
{
}

/// After a successful start the slot tracks the new process; the stop that
/// follows kills exactly that process and leaves the slot empty.
pub proof fn lemma_start_then_stop<H>(current: Option<H>, child: H)
    ensures
        after_start(current, Ok::<H, String>(child)) == Some(child),
        stop_target(after_start(current, Ok::<H, String>(child))) == Some(child),
        after_stop(after_start(current, Ok::<H, String>(child))) is None,
{
}

/// Two starts without a stop between them leave only the second process
/// tracked: the first is never a stop target, so it is never killed here.
pub proof fn lemma_second_start_replaces_first<H>(current: Option<H>, first: H, second: H)
    requires
        first != second,
    ensures
        after_start(after_start(current, Ok::<H, String>(first)), Ok::<H, String>(second))
            == Some(second),
        stop_target(
            after_start(after_start(current, Ok::<H, String>(first)), Ok::<H, String>(second)),
        ) != Some(first),
        after_stop(
            after_start(after_start(current, Ok::<H, String>(first)), Ok::<H, String>(second)),
        ) is None,
{
}

} // verus!
