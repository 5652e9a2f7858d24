//! The fire-and-forget entry into the host task loop.
//!
//! The host loop only accepts infallible unit-typed work, so a unit future
//! is wrapped before submission: any `Err` it yields is written to the
//! host's diagnostic channel and then swallowed.  That is the one place in
//! the bridge where an error is logged and dropped rather than handed on.

use vstd::prelude::*;
use crate::callback::{deliver_rel, OneShotCallback};
use crate::channel::ChanState;
use crate::host::HostValue;
use crate::promise::{channel_dropped_diag, PollResult, PromiseFuture};

verus! {

/// A unit future wrapped for the host task loop: errors are logged to the
/// diagnostic channel and swallowed.
#[derive(Debug)]
pub struct SpawnedTask {
    future: PromiseFuture<()>,
}

impl View for SpawnedTask {
    type V = ChanState<()>;

    closed spec fn view(&self) -> ChanState<()> {
        self.future@
    }
}

impl PromiseFuture<()> {
    /// Submits this unit future as background work: wraps it so that the
    /// host task loop can run it to completion without an error channel.
    pub fn spawn(self) -> (t: SpawnedTask)
        ensures
            t@ == self@,
    {
        SpawnedTask { future: self }
    }
}

impl SpawnedTask {
    /// One settlement event routed from the host loop to the wrapped
    /// future's callback and channel.
    pub fn deliver(&mut self, cb: &mut OneShotCallback<()>, payload: &HostValue, success: bool)
        ensures
            deliver_rel(
                old(cb).armed(),
                old(self)@,
                *payload,
                success,
                final(cb).armed(),
                final(self)@,
            ),
    {
        self.future.deliver(cb, payload, success);
    }

    /// One turn of the host task loop over this unit of work: polls the wrapped
    /// future once.  A pending future leaves everything as it is; a
    /// successful outcome finishes silently; an error outcome finishes
    /// after appending exactly one line, the error's message, to the
    /// host's diagnostic channel.
    pub fn run_turn(&mut self, diagnostics: &mut Vec<String>) -> (done: bool)
        requires
            !(old(self)@ is Consumed),
        ensures
            done <==> !(old(self)@ is Open),
            !done ==> final(self)@ == old(self)@ && final(diagnostics)@ == old(diagnostics)@,
            done ==> final(self)@ is Consumed,
            old(self)@ matches ChanState::Sent(Ok(u)) ==> final(diagnostics)@
                == old(diagnostics)@,
            old(self)@ matches ChanState::Sent(Err(e)) ==> final(diagnostics)@
                == old(diagnostics)@.push(e.message),
            old(self)@ is Dropped ==> (exists|m: String|
                m@ == channel_dropped_diag() && final(diagnostics)@ == old(diagnostics)@.push(m)),
    {
        match self.future.poll() {
            PollResult::Pending => false,
            PollResult::Ready(Ok(_)) => true,
            PollResult::Ready(Err(e)) => {
                diagnostics.push(e.message);
                true
            },
        }
    }
}

} // verus!
