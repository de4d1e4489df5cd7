//! A minimal code-level profiler: scopes are timed by a scope-guard timer,
//! and completed timing events are collected into one streaming JSON
//! document in the Chrome Trace Event format.
//!
//! The collector ([`collector::Instrumentor`]) is a state machine over the
//! session lifecycle: it decides what bytes each operation appends to the
//! trace file, and its contracts pin the exact text down. The caller owns
//! the actual file handle and appends each returned chunk to it.

pub mod collector;
pub mod event;
pub mod text;
pub mod timer;
