//! Core of a camera-to-network video relay.
//!
//! One producer thread drains color frames from a camera device and hands
//! each frame's bytes, through a bounded FIFO handoff channel, to a consumer
//! that wraps them as timed media samples and injects them into a streaming
//! pipeline.  This crate holds the verified core of that mechanism: the
//! configuration rules, the frame-buffer invariant, the channel's transfer
//! semantics, the relay and sink state machines, and the composed session
//! lifecycle.  Device access, pipeline construction and network transmission
//! are left to the surrounding program.

pub mod channel;
pub mod config;
pub mod frame;
pub mod lifecycle;
pub mod relay;
pub mod session;
pub mod sink;
