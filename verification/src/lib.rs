//! A bridge that exposes host-runtime thenables (one-shot `then`-style
//! asynchronous handles) as pollable, typed futures on the native side.
//!
//! The host runtime settles a thenable at most once, either resolving it
//! with a value or rejecting it with an error object.  The bridge registers
//! a single-fire decoding callback with the thenable, hands the decoded
//! outcome across a capacity-one channel, and lets the consumer observe it
//! by polling a typed future.

pub mod host;
pub mod error;
pub mod decode;
pub mod channel;
pub mod callback;
pub mod promise;
pub mod spawn;
pub mod laws;
