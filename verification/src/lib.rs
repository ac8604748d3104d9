//! A self-update engine for applications distributed through GitHub releases.
//!
//! The crate resolves the latest release of a configured repository, picks the
//! asset whose name matches a configured pattern, verifies a streamed download
//! by declared length and content digest, and plans an atomic replacement of
//! the installed artifact together with a sidecar record of the installed
//! version. All decisions of that pipeline are verified; the surrounding HTTP
//! and filesystem work is left to the embedding application, which drives the
//! [`flow::UpdateFlow`] state machine.

pub mod digest;
pub mod errors;
pub mod flow;
pub mod laws;
pub mod release;
pub mod text;
pub mod updater;

pub use errors::GithubUpdaterError;
pub use updater::DownloadInfos;
pub use updater::GithubUpdater;
