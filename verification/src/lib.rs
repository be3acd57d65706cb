//! View-model core for a Z80 machine-code monitor.
//!
//! The monitor drives a CPU engine through step/run/reset/load commands,
//! and derives a render tree from the engine's state: the register file,
//! the instruction decoded at the program counter, the operand locations
//! that instruction touches, a memory dump, and the bytes captured on an
//! output port. Everything that decides or computes lives here; the engine
//! itself (fetch, decode, execute) is the `zeerust` crate, reached through
//! a small set of trusted wrappers.

pub mod components;
pub mod convert;
pub mod engine;
pub mod hex;
pub mod model;
pub mod ops;
pub mod output;
pub mod selector;
pub mod snapshot;
pub mod util;
