//! Moves a large multi-file download through a small local staging area, one
//! size-bounded chunk of files at a time.

pub mod config;
pub mod download;
pub mod error;
pub mod leech;
pub mod plan;
pub mod qbittorrent;
pub mod queue;
pub mod rclone;
pub mod text;
pub mod torrent_parser;

pub use crate::leech::SeedSettings;
pub use crate::plan::{ChunkPlan, RplFile};
pub use crate::queue::{build_queue, Job, Queue};
pub use crate::rclone::RcloneClient;

use crate::error::Error;
use vstd::prelude::*;

verus! {

/// A client of a download agent.
pub trait RplClient {

}

/// The settings that a job is submitted with.
pub trait RplPackConfig {

}

/// Something whose files can be planned into chunks.
pub trait RplChunk {
    fn chunks(&self) -> Result<ChunkPlan, Error>;
}

/// Something that can be uploaded with the upload tool, as one of
/// `no_jobs` jobs.
pub trait RplUpload {
    fn upload(&self, client: &RcloneClient, no_jobs: usize) -> Result<(), Error>;
}

} // verus!
