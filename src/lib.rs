//! Verified core of a desktop helper backend: single-instance detection,
//! configuration text handling, drive-letter allocation, advisory status
//! queries and download progress.
pub mod config;
pub mod download;
pub mod drive;
pub mod instance;
pub mod status;
