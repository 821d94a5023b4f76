//! The verified core of a client that tests the interoperability of
//! publish/subscribe middleware: it publishes the state of a bouncing shape
//! at a fixed cadence, or prints the shapes that other clients publish.
//!
//! The library holds what the client decides and computes, with contracts
//! that Verus proves; waiting, reading, writing and printing are left to the
//! program that runs it.
//!
//! - [`motion`]: the bouncing shape.
//! - [`velocity`]: the random velocity that a shape starts with.
//! - [`timer`]: the cadence of publishing.
//! - [`render`]: the lines that are printed.
//! - [`control`]: the control loop, as a state machine.
//! - [`runs`]: what holds of whole runs of the control loop.
//! - [`qos`]: command-line settings and quality-of-service policies.

pub mod control;
pub mod motion;
pub mod qos;
pub mod render;
pub mod runs;
pub mod timer;
pub mod velocity;
