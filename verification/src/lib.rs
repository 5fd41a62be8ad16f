//! A verified model of a fixed-size worker thread pool.
//!
//! The pool hands opaque units of work to a fixed number of workers over a
//! single first-in-first-out channel, and shuts down by sending one stop
//! signal per worker before joining them. The modules here verify the
//! logic of that protocol: the message type, the FIFO channel, the worker
//! state machine, the pool's construction, submission and shutdown rules,
//! and the request/response formatting used by the surrounding server.

pub mod channel;
pub mod http;
pub mod message;
pub mod pool;
pub mod pool_error;
pub mod worker;
