//! The single-fire decoding callback that the bridge registers with a
//! thenable.
//!
//! The host's `then` protocol hands the continuation to untrusted host
//! code, which may call it on either dispatch path, twice, or never.  The
//! callback therefore enforces the at-most-once property itself: it is
//! armed on creation, decodes exactly one settlement event, and ignores
//! every later invocation.

use vstd::prelude::*;
use core::marker::PhantomData;
use crate::host::HostValue;
use crate::error::HostError;
use crate::decode::{HostDecode, decode_settlement, settles_to};
use crate::channel::{ChanState, SettledChannel};

verus! {

/// A callback that decodes at most one settlement event into a native
/// outcome of type `A`.
#[derive(Debug)]
pub struct OneShotCallback<A> {
    armed: bool,
    target: PhantomData<A>,
}

impl<A: HostDecode> OneShotCallback<A> {
    /// Whether the callback will still accept a settlement event.
    pub closed spec fn armed(self) -> bool {
        self.armed
    }

    /// A fresh, armed callback.
    pub fn new() -> (cb: Self)
        ensures
            cb.armed(),
    {
        OneShotCallback { armed: true, target: PhantomData }
    }

    /// One invocation from the host side.  The first invocation disarms
    /// the callback and decodes the settlement event; every later
    /// invocation is ignored, whatever path the host calls it on.
    pub fn fire(&mut self, payload: &HostValue, success: bool) -> (r: Option<
        Result<A, HostError>,
    >)
        ensures
            !final(self).armed(),
            old(self).armed() ==> (r matches Some(out) && settles_to(
                *payload,
                success,
                out,
            )),
            !old(self).armed() ==> r is None,
    {
        if self.armed {
            self.armed = false;
            Some(decode_settlement::<A>(payload, success))
        } else {
            None
        }
    }
}

/// How one settlement event moves the callback and the channel: the first
/// event on an armed callback with an open channel sends the decoded
/// outcome; every other event disarms the callback and changes nothing
/// else.
pub open spec fn deliver_rel<A: HostDecode>(
    pre_armed: bool,
    pre: ChanState<A>,
    payload: HostValue,
    success: bool,
    post_armed: bool,
    post: ChanState<A>,
) -> bool {
    &&& !post_armed
    &&& if pre_armed && pre is Open {
        post matches ChanState::Sent(out) && settles_to(payload, success, out)
    } else {
        post == pre
    }
}

/// The producer path of one settlement event from the host: fires the
/// callback and, where it yields an outcome, sends it on the channel.  A
/// send rejected because the channel is no longer open is discarded, as is
/// a send to a consumer that already took a terminal observation.
pub fn deliver_settlement<A: HostDecode>(
    cb: &mut OneShotCallback<A>,
    chan: &mut SettledChannel<A>,
    payload: &HostValue,
    success: bool,
)
    ensures
        deliver_rel(
            old(cb).armed(),
            old(chan)@,
            *payload,
            success,
            final(cb).armed(),
            final(chan)@,
        ),
{
    match cb.fire(payload, success) {
        Some(out) => {
            let _ = chan.send(out);
        },
        None => {},
    }
}

} // verus!
