//! Core of a Windows traffic sniffer for the MTGO game client: a privilege and
//! driver gate, a coarse packet filter with a refinement suggester, and a
//! packet-capture pipeline (producer loop, bounded backpressure channel,
//! running statistics, session state) modelled as a verified state machine.
//! The kernel interception interface, the async runtime and the GUI shell sit
//! outside this library and hand it plain values.

pub mod admin;
pub mod channel;
pub mod engine;
pub mod error;
pub mod filter;
pub mod packet;
pub mod session;
pub mod timefmt;
