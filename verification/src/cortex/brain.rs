//! Tiered reasoning: a cloud provider, a local ollama model, and the
//! deterministic keyword floor every path can fall back to.
pub mod cloud;
pub mod deterministic;
pub mod engine;
pub mod local;
