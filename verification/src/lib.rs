//! Verified core of the Aura desktop workspace.
pub mod application;
pub mod bytes;
pub mod commands;
pub mod cortex;
pub mod db;
pub mod domain;
pub mod ids;
pub mod security;
pub mod text;
pub mod time;
