//! Lifecycle coordination for a supervised background worker process:
//! launch planning, readiness detection over the worker's output, and the
//! bounded close handshake with the frontend.

pub mod output;
pub mod probe;
pub mod lifecycle;
pub mod error;
pub mod handshake;
