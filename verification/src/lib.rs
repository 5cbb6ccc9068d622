//! Core of a token-bucket rate limiter.
//!
//! A bounded counter of available tokens is consumed one token per admitted
//! operation and replenished on a fixed schedule, clamped to its capacity.
//! This crate holds the shared store and its two atomic operations, together
//! with a mathematical model of every sequence of such operations and the
//! laws that hold of it. The asynchronous plumbing around the store (the
//! periodic refill task and the polling acquire loop) lives with the caller.

pub mod model;
pub mod store;
