//! Retrieval and caching of degree audits from a portal that offers only an
//! asynchronous, HTML-driven job queue.

pub mod api;
pub mod breaker;
pub mod cache;
pub mod client;
pub mod clock;
pub mod error;
pub mod flow;
pub mod hex;
pub mod job;
pub mod report;
pub mod requirements;
pub mod schedule;
pub mod session;
pub mod state;
pub mod text;
pub mod types;
pub mod urlencoding;
