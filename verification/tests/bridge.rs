use promise_bridge::callback::OneShotCallback;
use promise_bridge::channel::{PollRecv, SendError, SettledChannel};
use promise_bridge::decode::{HostDecode, Null};
use promise_bridge::error::{ErrorKind, WrapError};
use promise_bridge::host::HostValue;
use promise_bridge::promise::{PollResult, Promise, PromiseFuture};

// End to end: a thenable that the host resolves with null after a
// 1000-unit delay, observed as a future of the unit-null type.
#[test]
fn wait() {
    let promise = Promise::wrap(HostValue::Thenable(1)).unwrap();
    let (mut cb, mut future) = promise.to_future::<Null>();

    let mut ticks: u64 = 0;
    loop {
        match future.poll() {
            PollResult::Pending => {
                ticks += 1;
                if ticks == 1000 {
                    future.deliver(&mut cb, &HostValue::Null, true);
                }
            }
            PollResult::Ready(x) => {
                println!("Timeout done! {:#?}", x);
                assert!(ticks >= 1000);
                assert_eq!(x.unwrap(), Null);
                break;
            }
        }
    }
}

#[test]
fn success_round_trip_string() {
    let promise = Promise::wrap(HostValue::Thenable(2)).unwrap();
    let (mut cb, mut future) = promise.to_future::<String>();
    assert!(matches!(future.poll(), PollResult::Pending));
    future.deliver(&mut cb, &HostValue::Text(String::from("hi")), true);
    match future.poll() {
        PollResult::Ready(Ok(s)) => assert_eq!(s, "hi"),
        _ => panic!("expected the decoded string"),
    }
}

#[test]
fn rejection_round_trip_boom() {
    let promise = Promise::wrap(HostValue::Thenable(3)).unwrap();
    let (mut cb, mut future) = promise.to_future::<i64>();
    future.deliver(&mut cb, &HostValue::ErrorObj(String::from("boom")), false);
    match future.poll() {
        PollResult::Ready(Err(e)) => {
            assert_eq!(e.kind, ErrorKind::HostRejection);
            assert_eq!(e.message, "boom");
        }
        _ => panic!("expected the host rejection"),
    }
}

#[test]
fn decode_failure_funnel() {
    let promise = Promise::wrap(HostValue::Thenable(4)).unwrap();
    let (mut cb, mut future) = promise.to_future::<String>();
    future.deliver(&mut cb, &HostValue::Int(42), true);
    match future.poll() {
        PollResult::Ready(Err(e)) => {
            assert_eq!(e.kind, ErrorKind::MarshalError);
            assert!(!e.message.is_empty());
            assert_eq!(e.message, "host value is not a string");
        }
        _ => panic!("expected the marshalling error"),
    }
}

#[test]
fn rejection_payload_not_an_error_object() {
    let promise = Promise::wrap(HostValue::Thenable(5)).unwrap();
    let (mut cb, mut future) = promise.to_future::<i64>();
    future.deliver(&mut cb, &HostValue::Int(0), false);
    match future.poll() {
        PollResult::Ready(Err(e)) => {
            assert_eq!(e.kind, ErrorKind::RejectionDecode);
            assert_eq!(e.message, "host rejection payload is not an error object");
        }
        _ => panic!("expected the rejection-decode error"),
    }
}

#[test]
fn dropped_thenable() {
    let promise = Promise::wrap(HostValue::Thenable(6)).unwrap();
    let (_cb, mut future) = promise.to_future::<i64>();
    assert!(matches!(future.poll(), PollResult::Pending));
    future.abandon();
    match future.poll() {
        PollResult::Ready(Err(e)) => {
            assert_eq!(e.kind, ErrorKind::ChannelDropped);
            assert_eq!(e.message, "thenable was dropped without settling");
        }
        _ => panic!("expected the channel-dropped error"),
    }
}

#[test]
fn promisify_identity_int() {
    let promise = Promise::promisify(HostValue::Int(7));
    let (_cb, mut future) = promise.to_future::<i64>();
    match future.poll() {
        PollResult::Ready(Ok(n)) => assert_eq!(n, 7),
        _ => panic!("expected the promisified integer"),
    }
}

#[test]
fn promisify_identity_null() {
    let promise = Promise::promisify(HostValue::Null);
    let (_cb, mut future) = promise.to_future::<Null>();
    match future.poll() {
        PollResult::Ready(Ok(v)) => assert_eq!(v, Null),
        _ => panic!("expected the promisified null"),
    }
}

#[test]
fn single_fire_keeps_first_outcome() {
    let promise = Promise::wrap(HostValue::Thenable(7)).unwrap();
    let (mut cb, mut future) = promise.to_future::<i64>();
    // A malicious host drives both continuations and repeats one of them.
    future.deliver(&mut cb, &HostValue::Int(1), true);
    future.deliver(&mut cb, &HostValue::Int(2), true);
    future.deliver(&mut cb, &HostValue::ErrorObj(String::from("late")), false);
    match future.poll() {
        PollResult::Ready(Ok(n)) => assert_eq!(n, 1),
        _ => panic!("expected exactly the first outcome"),
    }
}

#[test]
fn futures_from_one_handle_settle_independently() {
    let promise = Promise::wrap(HostValue::Thenable(8)).unwrap();
    let (mut cb_a, mut fut_a) = promise.to_future::<i64>();
    let (mut cb_b, mut fut_b) = promise.to_future::<i64>();
    fut_a.deliver(&mut cb_a, &HostValue::Int(1), true);
    assert!(matches!(fut_b.poll(), PollResult::Pending));
    fut_b.deliver(&mut cb_b, &HostValue::Int(2), true);
    match (fut_a.poll(), fut_b.poll()) {
        (PollResult::Ready(Ok(a)), PollResult::Ready(Ok(b))) => {
            assert_eq!(a, 1);
            assert_eq!(b, 2);
        }
        _ => panic!("expected both wirings to settle independently"),
    }
}

#[test]
fn wrap_refuses_non_thenable() {
    assert_eq!(
        Promise::wrap(HostValue::Int(3)).unwrap_err(),
        WrapError::NotAThenable
    );
    assert_eq!(
        Promise::wrap(HostValue::Null).unwrap_err(),
        WrapError::NotAThenable
    );
    assert!(Promise::wrap(HostValue::Thenable(9)).is_ok());
}

#[test]
fn try_from_wires_a_thenable() {
    let wired = PromiseFuture::<i64>::try_from(HostValue::Thenable(10));
    let (mut cb, mut future) = wired.unwrap();
    future.deliver(&mut cb, &HostValue::Int(5), true);
    match future.poll() {
        PollResult::Ready(Ok(n)) => assert_eq!(n, 5),
        _ => panic!("expected the delivered integer"),
    }
    let refused = PromiseFuture::<i64>::try_from(HostValue::Bool(true));
    assert_eq!(refused.unwrap_err(), WrapError::NotAThenable);
}

#[test]
fn channel_sends_at_most_once() {
    let mut chan: SettledChannel<i64> = SettledChannel::new();
    assert!(chan.send(Ok(1)).is_ok());
    assert_eq!(chan.send(Ok(2)).unwrap_err(), SendError::AlreadyFired);
    match chan.poll_recv() {
        PollRecv::Ready(Ok(n)) => assert_eq!(n, 1),
        _ => panic!("expected the first value"),
    }
}

#[test]
fn channel_reports_disconnection() {
    let mut chan: SettledChannel<i64> = SettledChannel::new();
    assert!(matches!(chan.poll_recv(), PollRecv::Pending));
    chan.drop_sender();
    assert_eq!(chan.send(Ok(1)).unwrap_err(), SendError::AlreadyFired);
    assert!(matches!(chan.poll_recv(), PollRecv::Disconnected));
}

#[test]
fn callback_fires_once() {
    let mut cb: OneShotCallback<i64> = OneShotCallback::new();
    let first = cb.fire(&HostValue::Int(11), true);
    match first {
        Some(Ok(n)) => assert_eq!(n, 11),
        _ => panic!("expected the first firing to decode"),
    }
    assert!(cb.fire(&HostValue::Int(12), true).is_none());
    assert!(cb.fire(&HostValue::ErrorObj(String::from("x")), false).is_none());
}

#[test]
fn decode_each_native_type() {
    assert_eq!(Null::decode(&HostValue::Null).unwrap(), Null);
    assert!(Null::decode(&HostValue::Int(0)).is_err());
    assert!(bool::decode(&HostValue::Bool(true)).unwrap());
    assert_eq!(
        bool::decode(&HostValue::Text(String::from("true")))
            .unwrap_err()
            .message,
        "host value is not a boolean"
    );
    assert_eq!(i64::decode(&HostValue::Int(-4)).unwrap(), -4);
    assert_eq!(
        i64::decode(&HostValue::Null).unwrap_err().message,
        "host value is not an integer"
    );
    assert_eq!(
        String::decode(&HostValue::Text(String::from("abc"))).unwrap(),
        "abc"
    );
    assert_eq!(
        String::decode(&HostValue::Thenable(1)).unwrap_err().message,
        "host value is not a string"
    );
    assert_eq!(<()>::decode(&HostValue::Null).unwrap(), ());
    assert_eq!(
        <()>::decode(&HostValue::Bool(false)).unwrap_err().message,
        "host value is not null"
    );
}
