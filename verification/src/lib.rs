//! Dispatch core of a compute runtime: commands from many callers reach one
//! worker through a single ordered queue, and replies flow back one per
//! command that declares one.

pub mod server;
pub mod message;
pub mod channel;
pub mod frontend;
pub mod worker;
pub mod transport;
pub mod tune;
pub mod wmma;
