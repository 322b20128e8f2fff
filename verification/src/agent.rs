//! The standalone agent: its file listing type, its file-query helpers
//! and its server settings.
pub mod get_files;
pub mod server;
