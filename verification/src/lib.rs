//! A resumable, multi-segment file downloader library.
//!
//! The crate holds the verified core of the downloader: segment planning,
//! task identifiers, the persistent metadata model, progress tracking,
//! the per-segment and per-task decision logic, and the task controller's
//! state machine. The surrounding process (HTTP transfers, threads, files)
//! drives these functions and performs the actions they decide on.

pub mod config;
pub mod text;
pub mod hashing;
pub mod status;
pub mod progress;
pub mod metadata;
pub mod json;
pub mod plan;
pub mod merge;
pub mod segment;
pub mod engine;
pub mod controller;
