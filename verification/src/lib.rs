//! A synthetic-load engine: a reachability barrier, a generator of tagged
//! fixed-size payloads, and a burst scheduler that emits length-prefixed
//! frames at a configured rate.
//!
//! The engine is written as pure decision logic over plain values. The
//! embedding program performs the network and timer work and reports each
//! outcome back as an event.

pub mod barrier;
pub mod buffer;
pub mod config;
pub mod generator;
pub mod scheduler;
pub mod wire;
