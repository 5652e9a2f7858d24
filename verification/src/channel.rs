//! The capacity-one hand-off between the host-side callback and the
//! native future.
//!
//! A `SettledChannel` carries at most one decoded outcome from its producer
//! (the settlement callback) to its consumer (the polling future).  The
//! producer either sends exactly once or is dropped without sending; the
//! consumer observes the outcome, a pending state, or the disconnection.
//! All parties run on one cooperative task loop, so the channel is a plain
//! state machine with no locking.

use vstd::prelude::*;
use crate::error::HostError;

verus! {

/// The state of a `SettledChannel`: the channel's whole abstract model.
#[derive(Debug)]
pub enum ChanState<A> {
    /// No outcome yet; the producer is still live.
    Open,
    /// The producer sent this outcome; the consumer has not taken it yet.
    Sent(Result<A, HostError>),
    /// The producer was dropped without sending.
    Dropped,
    /// The consumer took a terminal observation; the channel is spent.
    Consumed,
}

/// A rejected `send` on a channel that is no longer open.
#[derive(Debug, Clone, Copy, PartialEq, Eq, Structural)]
pub enum SendError {
    /// An outcome was already sent, taken, or the producer was dropped.
    AlreadyFired,
}

/// One non-blocking observation of the consumer end.
#[derive(Debug)]
pub enum PollRecv<A> {
    /// No outcome yet: the thenable has not settled.
    Pending,
    /// The decoded outcome, delivered exactly once.
    Ready(Result<A, HostError>),
    /// The producer was dropped without ever sending.
    Disconnected,
}

/// A single-producer, single-consumer, capacity-one channel carrying the
/// decoded outcome of one settlement.
#[derive(Debug)]
pub struct SettledChannel<A> {
    state: ChanState<A>,
}

impl<A> View for SettledChannel<A> {
    type V = ChanState<A>;

    closed spec fn view(&self) -> ChanState<A> {
        self.state
    }
}

impl<A> SettledChannel<A> {
    /// A fresh, open channel with no outcome.
    pub fn new() -> (c: Self)
        ensures
            c@ is Open,
    {
        SettledChannel { state: ChanState::Open }
    }

    /// Moves one outcome into the channel.  Succeeds exactly on an open
    /// channel; any later send is rejected and leaves the channel as it is.
    pub fn send(&mut self, v: Result<A, HostError>) -> (r: Result<(), SendError>)
        ensures
            old(self)@ is Open ==> final(self)@ == ChanState::Sent(v) && r is Ok,
            !(old(self)@ is Open) ==> final(self)@ == old(self)@ && r
                == Err::<(), SendError>(SendError::AlreadyFired),
    {
        match self.state {
            ChanState::Open => {
                self.state = ChanState::Sent(v);
                Ok(())
            },
            _ => Err(SendError::AlreadyFired),
        }
    }

    /// Records that the producer went away without sending.  On an open
    /// channel the consumer will observe the disconnection; on any other
    /// state (in particular after a send) the outcome is kept.
    pub fn drop_sender(&mut self)
        ensures
            old(self)@ is Open ==> final(self)@ is Dropped,
            !(old(self)@ is Open) ==> final(self)@ == old(self)@,
    {
        match self.state {
            ChanState::Open => {
                self.state = ChanState::Dropped;
            },
            _ => {},
        }
    }

    /// One non-blocking observation by the consumer.  A sent outcome and a
    /// disconnection are each observed at most once: both spend the
    /// channel, and a spent channel must not be polled again.
    pub fn poll_recv(&mut self) -> (r: PollRecv<A>)
        requires
            !(old(self)@ is Consumed),
        ensures
            old(self)@ is Open ==> final(self)@ == old(self)@ && r is Pending,
            old(self)@ matches ChanState::Sent(v) ==> final(self)@ is Consumed && r
                == PollRecv::Ready(v),
            old(self)@ is Dropped ==> final(self)@ is Consumed && r is Disconnected,
    {
        let mut state: ChanState<A> = ChanState::Consumed;
        core::mem::swap(&mut state, &mut self.state);
        match state {
            ChanState::Open => {
                self.state = ChanState::Open;
                PollRecv::Pending
            },
            ChanState::Sent(v) => PollRecv::Ready(v),
            ChanState::Dropped => PollRecv::Disconnected,
            ChanState::Consumed => PollRecv::Disconnected,
        }
    }
}

} // verus!
