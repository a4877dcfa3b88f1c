//! Helpers that are no part of the rules.

pub mod tracing_util;

pub use tracing_util::{init_tracing_once, TracingSetup};
