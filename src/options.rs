//! The requests a caller can make, and what a scan of a file reports.

use vstd::prelude::*;

verus! {

/// A request to scan one file and report its checksum.
#[derive(PartialEq, Debug)]
pub struct ScanOptions {
    /// Path of the file to scan.
    pub path: String,
}

/// A request to list the blobs of an object store.
#[derive(PartialEq, Debug)]
pub struct BlobsOptions {
    /// Address of the object store's API.
    pub url: String,
    /// Credential for the object store's API.
    pub password: String,
}

/// What is known of one scanned file.
pub struct FileInfo {
    /// Path of the file.
    pub path: String,
    /// Size of the file in bytes.
    pub size: usize,
    /// Checksum of the file's bytes.
    pub checksum: String,
}

} // verus!
