//! Dispatch of HTTP-triggered script jobs to isolated, deadline-bounded runners.
//!
//! The library holds the decisions of the dispatch core: the configuration,
//! the life cycle of one job from submission to its single reply, the
//! deadline race, and the bodies that answer the HTTP caller. Sockets, threads
//! and the script sandbox itself are driven by the program around it.
pub mod channel;
pub mod config;
pub mod dispatch;
pub mod guarantees;
pub mod job;
pub mod outcome;
pub mod platform;
pub mod server;
