//! The assistant: reasoning tiers, speech-to-text and the settings they
//! read at request time.
pub mod brain;
pub mod settings;
pub mod stt_cloud;
pub mod stt_local;
pub mod voice_pipeline;
