//! The alert-rule DSL, the per-process sample model, and the stateful
//! evaluation engine.

pub mod engine;
pub mod monitor;
pub mod parser;
pub mod result;
pub mod rule;
pub mod sample;
