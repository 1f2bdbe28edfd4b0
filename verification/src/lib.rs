//! Core of a self-updating download manager.
//!
//! The library holds the decision logic of the system: building HTTP
//! request plans, checking transfer integrity against a `Content-Length`
//! header, picking a release asset for the current platform, and staging
//! and finalizing a self-update by file-name convention. All network and
//! filesystem work is left to the surrounding application, which hands
//! the library plain values and carries out the plans it returns.

pub mod download;
pub mod error;
pub mod release;
pub mod selfupdate;
pub mod text;
pub mod transport;
pub mod utility;

pub use error::DownloadError;
