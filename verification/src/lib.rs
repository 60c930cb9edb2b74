//! A single-threaded, non-blocking HTTP server core: per-connection
//! request/response state machines that route by path, defer one route's body
//! to a background worker over a FIFO job queue, and stream responses out
//! while tolerating partial writes.
//!
//! The surrounding event loop, the sockets, and the worker thread's blocking
//! wait are plumbing that lives outside this crate; every routing, suspension,
//! bookkeeping and partial-write decision is made here, under contract.

pub mod conn;
pub mod http;
pub mod registry;
pub mod route;
pub mod worker;
