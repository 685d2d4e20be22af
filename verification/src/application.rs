//! Application services: the policies that sit between storage and the
//! user interface.
pub mod retention_service;
pub mod export_service;
pub mod project_service;
