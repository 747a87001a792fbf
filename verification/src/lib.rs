//! The audio core of a small workstation: a tree of sample generators that a
//! control thread reshapes while the audio callback plays it.
//!
//! Samples and gains are IEEE 754 binary32 numbers, held as their encodings
//! (`u32`), so that everything decided about them is decided on integers:
//!
//! - [`binary32`] classifies, orders and clamps encodings, and hands rounded
//!   arithmetic to `rustc_apfloat`;
//! - [`volume`] holds gains, which are finite and not below zero;
//! - [`synth`] holds the generator trait, the quiet leaf and the limiter;
//! - [`graph`] holds the mixer and the closed set of nodes;
//! - [`backup`] lets the audio thread read the shared graph without ever
//!   waiting for the lock on it;
//! - [`callback`] fills a buffer and tells when filling took too long;
//! - [`server`] holds what setting up a stream decides, and its errors.

pub mod backup;
pub mod binary32;
pub mod callback;
pub mod graph;
pub mod server;
pub mod synth;
pub mod volume;
