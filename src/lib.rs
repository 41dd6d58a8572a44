//! Acquisition pipeline for remote video downloads: quality mapping, track
//! selection, progress accounting, merging, and batch orchestration.

pub mod batch;
pub mod config;
pub mod error;
pub mod info;
pub mod login;
pub mod merge;
pub mod naming;
pub mod pipeline;
pub mod progress;
pub mod refresh;
pub mod resolution;
pub mod selector;
pub mod text;
pub mod video_id;
