//! Keyboard layout resolution: which character each physical key produces
//! under the active input source, cached until the input source changes.

pub mod cache;
pub mod engine;
pub mod error;
pub mod keys;
pub mod laws;
pub mod resolver;
pub mod translation;
