//! Building a one-step PTP Sync message over raw Ethernet: the bit-exact
//! frame encoding and decoding, and the decisions of a transmit run whose
//! socket and driver work is carried out by the caller.

pub mod packet;
pub mod link;
pub mod run;
