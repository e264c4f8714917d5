//! A bounded worker-pool engine that turns small inputs into large results.
//!
//! The library holds the decisions of the pool: the validated configuration,
//! the capability traits that a caller's payload types implement, the
//! coordinator that dispatches and recycles envelopes, and the worker's
//! polling state machine. Threads and queues are driven around it.
pub mod channel;
pub mod message;
pub mod feeder;
pub mod worker;
pub mod teardown;
