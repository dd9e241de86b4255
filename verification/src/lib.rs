//! Core logic of a segmented HTTP downloader: transfer planning, segment
//! retry with linear backoff, progress accounting, and post-download
//! integrity verification, together with the small data types of the
//! installer that drives it.

pub mod api;
pub mod archive;
pub mod cli;
pub mod device;
pub mod errors;
pub mod hash;
pub mod http;
pub mod installer;
pub mod num;
pub mod plan;
pub mod progress;
pub mod retry;
pub mod transfer;
pub mod version;
