//! A SOCKS5 gateway: the wire format of the handshake, the per-session
//! protocol state machine, and the per-direction relay state.
use vstd::prelude::*;

pub mod relay;
pub mod session;
pub mod wire;

verus! {

} // verus!
