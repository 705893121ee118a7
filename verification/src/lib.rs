//! A rate-limited, timeout-guarded polling and upload pipeline for a solar
//! inverter, together with the daylight-aware scheduler that decides when
//! such a pipeline runs.
//!
//! Every component is a deterministic state machine over plain values: the
//! caller owns the clock, the device connection and the HTTP transport, feeds
//! what happened into the machine, and performs the action it answers with.

pub mod calendar;
pub mod errors;
pub mod scheduler;
pub mod poll;
pub mod ratelimitedstream;
pub mod measurement;
pub mod timeout;
pub mod upload;
pub mod policy;
pub mod session;

pub use crate::ratelimitedstream::{RateLimitedStream, StreamExt};
pub use crate::scheduler::run_service;
