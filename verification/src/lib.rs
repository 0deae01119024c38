//! Manages the lifecycle of eBPF programs on a Linux host: a typed
//! program registry persisted in an embedded key-value store, the
//! enums and bitmask encodings shared with the kernel dispatchers,
//! and the per-interface dispatcher chains ordered by priority.

pub mod chain;
pub mod codec;
pub mod data;
pub mod engine;
pub mod errors;
pub mod fields;
pub mod filter;
pub mod proceed_on;
pub mod programs;
pub mod resolve;
pub mod rows;
pub mod store;
pub mod strutil;
pub mod types;
pub mod utils;
