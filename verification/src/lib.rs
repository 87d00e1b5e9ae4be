//! Decision core of a bidirectional ICAP REQMOD streaming engine.
//!
//! During one adaptation three byte streams run at once: the client body
//! flows to the ICAP server, the adapted request flows from the ICAP server
//! to the upstream origin, and the ICAP reader doubles as a control channel
//! that may deliver an early verdict.  The asynchronous multiplexing lives
//! in the surrounding application; every decision it takes — error
//! attribution, idle accounting and blame, dispatch on the declared body
//! length, the progress marks, and the connection-reuse flag — is taken by
//! the verified state machines in this crate.

pub mod adapter;
pub mod chunked;
pub mod decimal;
pub mod errors;
pub mod laws;
pub mod runstate;
pub mod waiter;

use vstd::prelude::*;

verus! {

/// Terminal value of one successful adaptation: the final request that was
/// forwarded upstream.  Every other termination is an error.
#[derive(Debug, Clone, PartialEq, Eq)]
pub enum EndState<H> {
    AdaptedTransferred(H),
}

} // verus!
