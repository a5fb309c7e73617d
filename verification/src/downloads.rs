//! Records of files the browser has downloaded or is downloading. The
//! records are part of the persisted session state; the transfer itself is
//! the application's business.

use vstd::prelude::*;

verus! {

/// One download, as the downloads panel lists it.
#[derive(Debug, Clone)]
pub struct Download {
    pub id: String,
    pub url: String,
    pub filename: String,
    pub status: DownloadStatus,
    /// Share of the file already retrieved, in hundredths of a percent, so
    /// that a record stays within plain integer values.
    pub progress: u32,
    pub size: u64,
    pub downloaded: u64,
    pub started_at: String,
}

/// Where a download stands.
#[derive(Debug, Clone, Copy, PartialEq, Eq, Structural)]
pub enum DownloadStatus {
    Pending,
    Downloading,
    Paused,
    Completed,
    Failed,
}

} // verus!
