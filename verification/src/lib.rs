//! A feature-pause capability for a stateful component.
//!
//! The crate provides three pieces:
//!
//! * an option parser ([`args`]) that turns flat `key = value` annotation
//!   argument lists into typed option records;
//! * a pause registry ([`registry`]): a persisted set of string labels under a
//!   configurable storage key, with owner-gated mutators and read-only queries;
//! * a guard layer ([`guard`]) that wraps an operation with a pause check of
//!   either polarity (forbid-while-paused or require-while-paused), with
//!   optional caller-based bypasses.
//!
//! Host facilities (key-value storage, caller identity, component identity,
//! event emission) are modeled by an explicit [`host::Host`] context that is
//! handed to every operation, so the whole core is an ordinary library with
//! no ambient state.

pub mod args;
pub mod guard;
pub mod host;
pub mod registry;
