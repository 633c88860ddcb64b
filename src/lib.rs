//! The event pump of a single-request client session over a datagram
//! transport: the decisions of the pump, of the handler phases and of the
//! driving sequence, each stated as a verified step function. The caller owns
//! the socket and the connection, performs the actions these functions hand
//! back and feeds the outcomes in as events.
use vstd::prelude::*;

pub mod args;
pub mod datagram;
pub mod endpoint;
pub mod headers;
pub mod handler;
pub mod pump;
pub mod session;
pub mod state;

verus! {

} // verus!
