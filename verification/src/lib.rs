//! Brains for simulated organisms: a genome of layer widths, weights and
//! biases, a feed-forward evaluation over it, and the fixed-order codec that
//! flattens what an organism perceives into the network's input and rebuilds
//! what it decides from the network's output.
//!
//! Numbers are single-precision IEEE 754 values held as their 32-bit words
//! ([`scalar::Scalar`]). The library decides everything that can be decided on
//! the words themselves; rounding arithmetic is supplied by the caller as
//! function values, and every contract states exactly which calls were made.

pub mod arith;
pub mod brain;
pub mod conversion;
pub mod corgi;
pub mod error;
pub mod genes;
pub mod intelligence;
pub mod neural_network;
pub mod scalar;
pub mod systems;
