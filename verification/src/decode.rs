//! Fallible decoding of settled host payloads into native typed values.
//!
//! The caller of the bridge chooses a native result type; a settled payload
//! is decoded into it through `HostDecode`.  A payload that does not decode
//! is never a panic: it is surfaced as a `HostError`, on the success path as
//! a marshalling failure and on the rejection path as a rejection whose
//! reason could not be read.

use vstd::prelude::*;
use crate::host::HostValue;
use crate::error::{ErrorKind, HostError};

verus! {

/// A decoding failure, carrying the decoder's diagnostic.
#[derive(Debug)]
pub struct DecodeError {
    /// The decoder's description of why the payload was not accepted.
    pub message: String,
}

/// The native unit-null type: the decoding of the host's null value.
#[derive(Debug, Clone, Copy, PartialEq, Eq, Structural)]
pub struct Null;

/// A native type that a settled host payload can be decoded into.
pub trait HostDecode: Sized {
    /// The decoded native value, where the host value decodes into `Self`.
    spec fn decode_spec(v: HostValue) -> Option<Self>;

    /// The diagnostic reported where the host value does not decode.
    spec fn decode_err_spec(v: HostValue) -> Seq<char>;

    /// Decodes a marshalled host value, or reports why it does not decode.
    fn decode(v: &HostValue) -> (r: Result<Self, DecodeError>)
        ensures
            match r {
                Ok(t) => Self::decode_spec(*v) == Some(t),
                Err(e) => Self::decode_spec(*v) is None && e.message@
                    == Self::decode_err_spec(*v),
            },
    ;
}

impl HostDecode for Null {
    open spec fn decode_spec(v: HostValue) -> Option<Null> {
        match v {
            HostValue::Null => Some(Null),
            _ => None,
        }
    }

    open spec fn decode_err_spec(v: HostValue) -> Seq<char> {
        "host value is not null"@
    }

    fn decode(v: &HostValue) -> (r: Result<Null, DecodeError>) {
        match v {
            HostValue::Null => Ok(Null),
            _ => Err(DecodeError { message: "host value is not null".to_owned() }),
        }
    }
}

impl HostDecode for () {
    open spec fn decode_spec(v: HostValue) -> Option<()> {
        match v {
            HostValue::Null => Some(()),
            _ => None,
        }
    }

    open spec fn decode_err_spec(v: HostValue) -> Seq<char> {
        "host value is not null"@
    }

    fn decode(v: &HostValue) -> (r: Result<(), DecodeError>) {
        match v {
            HostValue::Null => Ok(()),
            _ => Err(DecodeError { message: "host value is not null".to_owned() }),
        }
    }
}

impl HostDecode for bool {
    open spec fn decode_spec(v: HostValue) -> Option<bool> {
        match v {
            HostValue::Bool(b) => Some(b),
            _ => None,
        }
    }

    open spec fn decode_err_spec(v: HostValue) -> Seq<char> {
        "host value is not a boolean"@
    }

    fn decode(v: &HostValue) -> (r: Result<bool, DecodeError>) {
        match v {
            HostValue::Bool(b) => Ok(*b),
            _ => Err(DecodeError { message: "host value is not a boolean".to_owned() }),
        }
    }
}

impl HostDecode for i64 {
    open spec fn decode_spec(v: HostValue) -> Option<i64> {
        match v {
            HostValue::Int(n) => Some(n),
            _ => None,
        }
    }

    open spec fn decode_err_spec(v: HostValue) -> Seq<char> {
        "host value is not an integer"@
    }

    fn decode(v: &HostValue) -> (r: Result<i64, DecodeError>) {
        match v {
            HostValue::Int(n) => Ok(*n),
            _ => Err(DecodeError { message: "host value is not an integer".to_owned() }),
        }
    }
}

impl HostDecode for String {
    open spec fn decode_spec(v: HostValue) -> Option<String> {
        match v {
            HostValue::Text(s) => Some(s),
            _ => None,
        }
    }

    open spec fn decode_err_spec(v: HostValue) -> Seq<char> {
        "host value is not a string"@
    }

    fn decode(v: &HostValue) -> (r: Result<String, DecodeError>) {
        match v {
            HostValue::Text(s) => Ok(s.clone()),
            _ => Err(DecodeError { message: "host value is not a string".to_owned() }),
        }
    }
}

/// The message of a rejection payload, where it decodes as an error object.
pub open spec fn rejection_message(v: HostValue) -> Option<Seq<char>> {
    match v {
        HostValue::ErrorObj(m) => Some(m@),
        _ => None,
    }
}

/// The diagnostic reported where a rejection payload is not an error object.
pub open spec fn rejection_err_diag() -> Seq<char> {
    "host rejection payload is not an error object"@
}

/// What outcome a settlement event must decode to: the single place that
/// fixes how `(payload, success)` becomes a native `Result`.
///
/// On success the payload must decode into `T`, and a decode failure is
/// funnelled into a marshalling `HostError`.  On rejection the payload must
/// decode as a host error object, and a decode failure is funnelled into a
/// rejection-decode `HostError`.  No settlement ever decodes to a panic.
pub open spec fn settles_to<T: HostDecode>(
    payload: HostValue,
    success: bool,
    r: Result<T, HostError>,
) -> bool {
    if success {
        match T::decode_spec(payload) {
            Some(t) => r == Ok::<T, HostError>(t),
            None => r matches Err(e) && e.kind == ErrorKind::MarshalError
                && e.message@ == T::decode_err_spec(payload),
        }
    } else {
        match rejection_message(payload) {
            Some(m) => r matches Err(e) && e.kind == ErrorKind::HostRejection
                && e.message@ == m,
            None => r matches Err(e) && e.kind == ErrorKind::RejectionDecode
                && e.message@ == rejection_err_diag(),
        }
    }
}

/// Decodes one settlement event `(payload, success)` into the native
/// outcome, following the funnel that `settles_to` fixes.
pub fn decode_settlement<T: HostDecode>(payload: &HostValue, success: bool) -> (r: Result<
    T,
    HostError,
>)
    ensures
        settles_to(*payload, success, r),
{
    if success {
        match T::decode(payload) {
            Ok(t) => Ok(t),
            Err(e) => Err(HostError::new(ErrorKind::MarshalError, e.message)),
        }
    } else {
        match payload {
            HostValue::ErrorObj(m) => Err(
                HostError::new(ErrorKind::HostRejection, m.clone()),
            ),
            _ => Err(
                HostError::new(
                    ErrorKind::RejectionDecode,
                    "host rejection payload is not an error object".to_owned(),
                ),
            ),
        }
    }
}

} // verus!
