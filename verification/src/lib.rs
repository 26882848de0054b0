//! Discrete-time simulator of a shared-medium local area network running the
//! CSMA/CD protocol (carrier sense multiple access with collision detection).
//!
//! The building blocks, leaves first: a fixed-capacity circular buffer, the
//! shared medium (a ring of per-tick activity bitmaps that encodes propagation
//! delay), the packet-arrival client, the per-station state machine, and the
//! tick driver that interleaves them.

pub mod bitmap;
pub mod cbuffer;
pub mod client;
pub mod driver;
pub mod medium;
pub mod rng;
pub mod server;
