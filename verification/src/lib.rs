//! Email-verification backend library.
//!
//! Determines whether an email address is deliverable without sending mail,
//! and drives the worker-side task lifecycle that couples the verification
//! pipeline to a message broker: fetch a task, run the pipeline, and route
//! the result either to an RPC reply queue (single-shot tasks) or to a
//! durable result store (bulk tasks), with requeue-once semantics on
//! transient failure.

pub mod clock;
pub mod http;
pub mod input;
pub mod json;
pub mod laws;
pub mod mx;
pub mod output;
pub mod pipeline;
pub mod provider;
pub mod response;
pub mod serialize;
pub mod smtp;
pub mod strutil;
pub mod syntax;
pub mod verdict;
pub mod worker;
