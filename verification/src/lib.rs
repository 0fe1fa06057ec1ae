//! Core of a model-inference gateway: admission control, provider scoring and
//! selection, the stream multiplexer's election rules and the response
//! cache's keys, each with a machine-checked contract.
//!
//! Money is held in whole micro-dollars and ratios in parts per million, so
//! every rule of the gateway is exact integer arithmetic.

pub mod amount;
pub mod auth;
pub mod billing;
pub mod cache;
pub mod clock;
pub mod completions;
pub mod config;
pub mod context;
pub mod coordinator;
pub mod error;
pub mod ghost_ai;
pub mod multiplexer;
pub mod providers;
pub mod rate_limiter;
pub mod redis_info;
pub mod router;
pub mod routing;
pub mod sse;
pub mod store;
pub mod text;
pub mod types;
pub mod vendors;
