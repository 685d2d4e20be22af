//! Assistant configuration: one document of preferences, with API keys
//! held only in sealed form.
pub mod store;

pub use store::{AssistantSettings, BrainMode, CloudProvider};
