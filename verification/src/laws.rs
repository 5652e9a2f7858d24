//! The bridge's guarantees, stated and proved as theorems over the
//! transition relations that the executable functions' contracts use.
//!
//! Each theorem quantifies over every state and settlement event the host
//! could produce, so it covers host behaviour that no test enumerates:
//! double invocations, undecodable payloads, thenables dropped unsettled.

use vstd::prelude::*;
use crate::host::HostValue;
use crate::error::{ErrorKind, HostError};
use crate::decode::{HostDecode, settles_to};
use crate::callback::deliver_rel;
use crate::channel::ChanState;
use crate::promise::{abandon_rel, channel_dropped_diag, poll_rel, PollResult};

verus! {

/// A poll that yields a terminal outcome spends the future: no later poll
/// is admitted, so the outcome is observed exactly once.
pub proof fn lemma_settled_future_is_spent<A>(
    pre: ChanState<A>,
    post: ChanState<A>,
    r: PollResult<A>,
)
    requires
        poll_rel(pre, post, r),
        r is Ready,
    ensures
        post is Consumed,
{
}

/// A future is never observed ready before the thenable has settled and
/// the decoding callback has delivered: polling an open channel only ever
/// reports pending.
pub proof fn lemma_no_ready_before_settlement<A>(
    pre: ChanState<A>,
    post: ChanState<A>,
    r: PollResult<A>,
)
    requires
        poll_rel(pre, post, r),
        pre is Open,
    ensures
        r is Pending,
{
}

/// At-most-once settlement: across any two successive polls of one
/// future, at most one terminal outcome is observed.
pub proof fn lemma_at_most_once_settlement<A>(
    s0: ChanState<A>,
    s1: ChanState<A>,
    s2: ChanState<A>,
    r0: PollResult<A>,
    r1: PollResult<A>,
)
    requires
        poll_rel(s0, s1, r0),
        poll_rel(s1, s2, r1),
    ensures
        !(r0 is Ready) || !(r1 is Ready),
{
}

/// Success round-trip: where the host resolves the thenable with a payload
/// that decodes into the chosen native type, delivering that settlement to
/// fresh wiring and polling the future yields exactly the decoded value.
pub proof fn lemma_success_round_trip<A: HostDecode>(
    payload: HostValue,
    decoded: A,
    armed1: bool,
    c1: ChanState<A>,
    c2: ChanState<A>,
    r: PollResult<A>,
)
    requires
        A::decode_spec(payload) == Some(decoded),
        deliver_rel(true, ChanState::<A>::Open, payload, true, armed1, c1),
        poll_rel(c1, c2, r),
    ensures
        r == PollResult::Ready(Ok::<A, HostError>(decoded)),
{
}

/// Rejection round-trip: where the host rejects with an error object
/// carrying a message, the future yields a host-rejection error carrying
/// exactly that message.
pub proof fn lemma_rejection_round_trip<A: HostDecode>(
    message: String,
    armed1: bool,
    c1: ChanState<A>,
    c2: ChanState<A>,
    r: PollResult<A>,
)
    requires
        deliver_rel(
            true,
            ChanState::<A>::Open,
            HostValue::ErrorObj(message),
            false,
            armed1,
            c1,
        ),
        poll_rel(c1, c2, r),
    ensures
        (r matches PollResult::Ready(out) && out matches Err(e) && e.kind
            == ErrorKind::HostRejection && e.message@ == message@),
{
}

/// Decode-failure funnel: where the host resolves with a payload that does
/// not decode into the chosen native type, the future yields a marshalling
/// error carrying the decoder's diagnostic — never a value and never a
/// panic.
pub proof fn lemma_decode_failure_funnel<A: HostDecode>(
    payload: HostValue,
    armed1: bool,
    c1: ChanState<A>,
    c2: ChanState<A>,
    r: PollResult<A>,
)
    requires
        A::decode_spec(payload) is None,
        deliver_rel(true, ChanState::<A>::Open, payload, true, armed1, c1),
        poll_rel(c1, c2, r),
    ensures
        (r matches PollResult::Ready(out) && out matches Err(e) && e.kind
            == ErrorKind::MarshalError && e.message@ == A::decode_err_spec(payload)),
{
}

/// Dropped thenable: where the callback is destroyed without ever firing,
/// the next poll of the future yields the channel-dropped error rather
/// than pending forever.
pub proof fn lemma_dropped_thenable<A>(
    s0: ChanState<A>,
    s1: ChanState<A>,
    s2: ChanState<A>,
    r: PollResult<A>,
)
    requires
        s0 is Open,
        abandon_rel(s0, s1),
        poll_rel(s1, s2, r),
    ensures
        (r matches PollResult::Ready(out) && out matches Err(e) && e.kind
            == ErrorKind::ChannelDropped && e.message@ == channel_dropped_diag()),
{
}

/// Promisify identity: a value wrapped into a resolved thenable and
/// converted to a future yields exactly the value's decoding.  The wiring
/// that `to_future` returns for a resolved source satisfies the first
/// premise, so the identity holds for every value that decodes.
pub proof fn lemma_promisify_identity<A: HostDecode>(
    value: HostValue,
    decoded: A,
    armed1: bool,
    c1: ChanState<A>,
    c2: ChanState<A>,
    r: PollResult<A>,
)
    requires
        A::decode_spec(value) == Some(decoded),
        deliver_rel(true, ChanState::<A>::Open, value, true, armed1, c1),
        poll_rel(c1, c2, r),
    ensures
        r == PollResult::Ready(Ok::<A, HostError>(decoded)),
{
    lemma_success_round_trip(value, decoded, armed1, c1, c2, r);
}

/// Single-fire callback: however the host drives the continuations — both
/// paths, the same path twice, any payloads — exactly the first event's
/// outcome reaches the channel, and the second event changes nothing.
pub proof fn lemma_single_fire<A: HostDecode>(
    p1: HostValue,
    s1: bool,
    p2: HostValue,
    s2: bool,
    armed1: bool,
    c1: ChanState<A>,
    armed2: bool,
    c2: ChanState<A>,
)
    requires
        deliver_rel(true, ChanState::<A>::Open, p1, s1, armed1, c1),
        deliver_rel(armed1, c1, p2, s2, armed2, c2),
    ensures
        c2 == c1,
        (c1 matches ChanState::Sent(out) && settles_to(p1, s1, out)),
{
}

} // verus!
