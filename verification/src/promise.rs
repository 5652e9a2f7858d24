//! The thenable handle and the typed future over its settlement.
//!
//! A `Promise` owns one reference into the host world: either a remote
//! thenable known only by its handle id, or a value the bridge itself asked
//! the host to treat as resolved.  `to_future` wires a single-fire decoding
//! callback and a capacity-one channel to it and hands back the callback
//! (for the host loop to fire when the thenable settles) and the pollable
//! typed future (for the consumer).

use vstd::prelude::*;
use crate::host::HostValue;
use crate::error::{ErrorKind, HostError, WrapError};
use crate::decode::HostDecode;
use crate::channel::{ChanState, PollRecv, SettledChannel};
use crate::callback::{deliver_rel, deliver_settlement, OneShotCallback};

verus! {

/// What a `Promise` knows of the thenable it stands for.
#[derive(Debug)]
pub enum ThenableSource {
    /// A remote host thenable, held by its opaque handle id; the host loop
    /// decides when and how it settles.
    Remote(u64),
    /// A value the bridge resolved itself: the thenable is already settled
    /// successfully with this value.
    Resolved(HostValue),
}

/// An owning handle to one host-runtime thenable.
#[derive(Debug)]
pub struct Promise {
    source: ThenableSource,
}

impl View for Promise {
    type V = ThenableSource;

    closed spec fn view(&self) -> ThenableSource {
        self.source
    }
}

impl Promise {
    /// Takes ownership of a host value that satisfies the thenable
    /// protocol; any other value is refused.
    pub fn wrap(value: HostValue) -> (r: Result<Promise, WrapError>)
        ensures
            value matches HostValue::Thenable(id) ==> (r matches Ok(p) && p@
                == ThenableSource::Remote(id)),
            !value.is_thenable() ==> r == Err::<Promise, WrapError>(WrapError::NotAThenable),
    {
        match value {
            HostValue::Thenable(id) => Ok(Promise { source: ThenableSource::Remote(id) }),
            _ => Err(WrapError::NotAThenable),
        }
    }

    /// Wraps any host value into a thenable resolved to that value, after
    /// the host's standard resolution primitive.  Never fails.
    pub fn promisify(input: HostValue) -> (p: Promise)
        ensures
            p@ == ThenableSource::Resolved(input),
    {
        Promise { source: ThenableSource::Resolved(input) }
    }

    /// Registers a single-fire decoding callback with the thenable and
    /// returns it together with the consumer end of the hand-off.
    ///
    /// For a remote thenable the wiring comes back armed and open: the
    /// host loop fires the callback when the thenable settles.  For a
    /// resolved source the settlement is already known, so the callback
    /// has fired and the channel holds the decoded outcome.
    pub fn done<A: HostDecode>(&self) -> (r: (OneShotCallback<A>, SettledChannel<A>))
        ensures
            self@ is Remote ==> r.0.armed() && r.1@ is Open,
            self@ matches ThenableSource::Resolved(v) ==> !r.0.armed() && deliver_rel(
                true,
                ChanState::<A>::Open,
                v,
                true,
                r.0.armed(),
                r.1@,
            ),
    {
        let mut cb = OneShotCallback::<A>::new();
        let mut chan = SettledChannel::<A>::new();
        match &self.source {
            ThenableSource::Remote(_) => {},
            ThenableSource::Resolved(v) => {
                deliver_settlement(&mut cb, &mut chan, v, true);
            },
        }
        (cb, chan)
    }

    /// Wires a fresh callback and channel to the thenable and wraps the
    /// consumer end as a pollable future of the chosen native type.
    pub fn to_future<A: HostDecode>(&self) -> (r: (OneShotCallback<A>, PromiseFuture<A>))
        ensures
            self@ is Remote ==> r.0.armed() && r.1@ is Open,
            self@ matches ThenableSource::Resolved(v) ==> !r.0.armed() && deliver_rel(
                true,
                ChanState::<A>::Open,
                v,
                true,
                r.0.armed(),
                r.1@,
            ),
    {
        let (cb, chan) = self.done::<A>();
        (cb, PromiseFuture { channel: chan })
    }
}

/// One observation of a `PromiseFuture` by the native scheduler.
#[derive(Debug)]
pub enum PollResult<A> {
    /// The thenable has not settled; poll again after the next wake.
    Pending,
    /// The terminal outcome: the decoded value, or the error that stands
    /// for whatever went wrong on the host side.
    Ready(Result<A, HostError>),
}

/// The diagnostic carried by the error that a future yields when its
/// callback was dropped before it ever fired.
pub open spec fn channel_dropped_diag() -> Seq<char> {
    "thenable was dropped without settling"@
}

/// How one poll moves the future: a pending channel stays as it is, a sent
/// outcome is yielded and spends the future, and a disconnection is
/// yielded as the channel-dropped error and spends the future.  A spent
/// future is never polled.
pub open spec fn poll_rel<A>(pre: ChanState<A>, post: ChanState<A>, r: PollResult<A>) -> bool {
    &&& !(pre is Consumed)
    &&& match pre {
        ChanState::Open => post == pre && r is Pending,
        ChanState::Sent(out) => post is Consumed && r == PollResult::Ready(out),
        ChanState::Dropped => post is Consumed && (r matches PollResult::Ready(out)
            && out matches Err(e) && e.kind == ErrorKind::ChannelDropped && e.message@
            == channel_dropped_diag()),
        ChanState::Consumed => false,
    }
}

/// How losing the producer moves the future: an open channel becomes
/// disconnected; a sent outcome, or a spent channel, is left as it is.
pub open spec fn abandon_rel<A>(pre: ChanState<A>, post: ChanState<A>) -> bool {
    if pre is Open {
        post is Dropped
    } else {
        post == pre
    }
}

/// The pollable, typed view over one settlement.
#[derive(Debug)]
pub struct PromiseFuture<A> {
    channel: SettledChannel<A>,
}

impl<A> View for PromiseFuture<A> {
    type V = ChanState<A>;

    closed spec fn view(&self) -> ChanState<A> {
        self.channel@
    }
}

impl<A: HostDecode> PromiseFuture<A> {
    /// Builds the wiring for an arbitrary host value: the value must be a
    /// thenable, and is then converted as `to_future` does.
    pub fn try_from(v: HostValue) -> (r: Result<
        (OneShotCallback<A>, PromiseFuture<A>),
        WrapError,
    >)
        ensures
            v.is_thenable() ==> (r matches Ok(w) && w.0.armed() && w.1@ is Open),
            !v.is_thenable() ==> r == Err::<(OneShotCallback<A>, PromiseFuture<A>), WrapError>(
                WrapError::NotAThenable,
            ),
    {
        let promise = Promise::wrap(v)?;
        Ok(promise.to_future::<A>())
    }

    /// One settlement event routed from the host loop to this future's
    /// callback and channel.
    pub fn deliver(&mut self, cb: &mut OneShotCallback<A>, payload: &HostValue, success: bool)
        ensures
            deliver_rel(
                old(cb).armed(),
                old(self)@,
                *payload,
                success,
                final(cb).armed(),
                final(self)@,
            ),
    {
        deliver_settlement(cb, &mut self.channel, payload, success);
    }

    /// Records that the host reclaimed the thenable and destroyed the
    /// registered callback without firing it.  An outcome that was already
    /// sent is kept; an open channel becomes disconnected.
    pub fn abandon(&mut self)
        ensures
            abandon_rel(old(self)@, final(self)@),
    {
        self.channel.drop_sender();
    }

    /// One non-blocking poll by the native scheduler, following the
    /// observation table that `poll_rel` fixes.
    pub fn poll(&mut self) -> (r: PollResult<A>)
        requires
            !(old(self)@ is Consumed),
        ensures
            poll_rel(old(self)@, final(self)@, r),
    {
        match self.channel.poll_recv() {
            PollRecv::Pending => PollResult::Pending,
            PollRecv::Ready(out) => PollResult::Ready(out),
            PollRecv::Disconnected => PollResult::Ready(
                Err(
                    HostError::new(
                        ErrorKind::ChannelDropped,
                        "thenable was dropped without settling".to_owned(),
                    ),
                ),
            ),
        }
    }
}

} // verus!
