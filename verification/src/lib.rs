//! Decision core of a readiness-driven datagram socket.
//!
//! A non-blocking socket is driven by three outside parties: the scheduler
//! that polls an operation, the readiness registration that says whether the
//! descriptor can be used, and the operating system that runs the call. This
//! crate holds what is decided between them, and what is checked of a peer
//! credential lookup, as verified functions on plain values. The embedding
//! program owns the descriptors and performs what the actions ask for.
//!
//! - [`operation`]: a single-shot operation as a state machine from events
//!   to actions.
//! - [`drive`]: what a whole drive-step of such an operation comes to, and
//!   the proofs of it.
//! - [`classify`]: telling "would block" from failure in the result of a
//!   call.
//! - [`udp`]: the datagram socket and its send and receive operations.
//! - [`uds::ucred`]: the credentials of a stream socket's peer.

pub mod classify;
pub mod drive;
pub mod operation;
pub mod udp;
pub mod uds;
