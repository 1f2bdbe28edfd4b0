//! Error kinds surfaced by the download and self-update operations.

use vstd::prelude::*;

verus! {

/// Failure of a download or self-update operation.
///
/// `Network` covers connection, timeout and TLS failures; `Deserialization`
/// a malformed release document; `Integrity` a whole-body download whose
/// received length differs from the advertised `Content-Length`;
/// `AssetNotFound` a release with no asset named like the platform binary;
/// `Filesystem` a failed directory creation, write, permission change or
/// rename.
#[derive(Debug, Clone, PartialEq, Eq)]
pub enum DownloadError {
    Network,
    Deserialization,
    Integrity { expected: u64, actual: u64 },
    AssetNotFound { bin_name: String },
    Filesystem,
}

} // verus!
