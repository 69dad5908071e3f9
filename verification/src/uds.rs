//! Interprocess stream sockets: who is at the other end.

pub mod ucred;
