//! Domain records and their stored spellings.
pub mod capture;
pub mod claim;
pub mod export;
pub mod project;
pub mod retention;
pub mod settings;
