//! Sandbox interface for preparing and running validation functions.
//!
//! The library turns a versioned list of executor parameters into a concrete, deterministic
//! execution configuration, checks and precompiles submitted bytecode, and decides what the
//! host side does around one call of the validation entry point.

pub mod params;
pub mod semantics;
pub mod error;
pub mod engine;
pub mod module;
pub mod artifact;
pub mod execute;
pub mod guard;
pub mod version;
