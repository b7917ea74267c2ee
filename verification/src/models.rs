//! The data the pipeline works on: object references, requests, queue items,
//! part descriptors and the error taxonomy.

use vstd::prelude::*;

verus! {

/// One remote object to fetch, and the entry name it will carry inside the
/// archive.
pub struct FileS3 {
    pub key: String,
    pub name: String,
}

/// A request to archive a list of remote objects into one object under
/// `key_zip`.
pub struct ZipFileS3 {
    pub key_zip: String,
    pub files: Vec<FileS3>,
}

/// Envelope for service responses.
pub struct ResponseBody<T> {
    pub message: String,
    pub data: T,
}

/// An item fetched from the store, waiting in the queue to be archived.
pub struct DownloadedItem {
    pub name: String,
    pub payload: Vec<u8>,
}

/// Acknowledgement of one uploaded part: its number and the entity tag the
/// store answered with.
pub struct PartDescriptor {
    pub part_number: u32,
    pub e_tag: String,
}

/// Why a pipeline run failed. Per-object download failures are absorbed by
/// the fetch stage and never appear here.
#[derive(Clone, Copy, Debug, PartialEq, Eq, Structural)]
pub enum PipelineError {
    /// Creating or completing the multipart session failed.
    SessionError,
    /// Uploading a part failed.
    PartUploadError,
    /// Encoding an archive entry failed (an over-long name or payload, or a
    /// duplicate entry name). The run stops here rather than go on to
    /// upload an empty or corrupt part.
    ArchiveError,
    /// Writing the fallback-mode archive file failed.
    LocalWriteError,
}

} // verus!
