//! Progress of a download, as reported to the user interface.
use vstd::prelude::*;

verus! {

/// A download starts, or has made progress.
#[derive(Debug)]
pub enum DownloadProgress {
    Init { file_name: String, user_name: String, ticket: u32 },
    Progress { ticket: u32, percent: usize },
}

} // verus!
