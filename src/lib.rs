//! Client side of a relay listener: a node that cannot take inbound
//! connections itself keeps a control connection to a relay, is told of
//! incoming peers over it, and either claims each peer on a fresh data
//! connection or asks the relay to turn it away.
//!
//! Every decision the listener makes is a verified state machine here; the
//! code that owns sockets, timers and tasks feeds these machines events and
//! carries out the actions they return.

pub mod peer;
pub mod codec;
pub mod access;
pub mod timeout;
pub mod accept;
pub mod listener;
