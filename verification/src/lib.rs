//! Turn-based coordinator for time-sliced ownership of a shared virtual IP
//! address. A fixed set of hosts take exclusive ownership of one address in
//! round-robin turns derived from the wall clock: the owner binds the address
//! to its interface, announces it with gratuitous ARP replies, and yields at
//! the end of its turn, while the other hosts probe the address over UDP and
//! observe inbound traffic for consistency diagnostics.

pub mod error;
pub mod schedule;
pub mod numfmt;
pub mod frame;
pub mod observer;
pub mod controller;
pub mod tasks;
pub mod iface;
