//! Library for checking locally installed plugin archives against the Ore
//! plugin registry: it reads the metadata embedded in an archive, resolves
//! the platform-API major version the plugin declares, matches that version
//! against a project's promoted versions, and compares version strings.

pub mod commands;
pub mod extract;
pub mod json;
pub mod mod_info;
pub mod query;
pub mod schemas;
pub mod text;
pub mod version_status;
