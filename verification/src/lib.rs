//! Verified core of a browser-extension update service.
//!
//! The library covers the update-and-notify subsystem: deciding whether a
//! remote manifest is a different version than the one installed, planning an
//! atomic download-extract-swap install, fanning a reload notification out to
//! registered clients, and answering a local trigger endpoint.  All file and
//! network transfer is done by the host around this library; the library
//! holds the decisions and the data transformations, with contracts.

use vstd::prelude::*;

pub mod archive;
pub mod hub;
pub mod install;
pub mod manifest;
pub mod orchestrator;
pub mod text;
pub mod trigger;
pub mod version_store;

verus! {

/// Failure taxonomy of the update subsystem.
///
/// `FetchError` covers transport failures reaching a remote endpoint,
/// `DecodeError` a manifest document that does not decode into a usable
/// manifest, `DownloadError` a non-success HTTP status while fetching the
/// archive, `ArchiveError` a corrupt archive container, `SwapError` a failed
/// directory rename during the install swap, and `IoError` the remaining
/// filesystem failures (directory creation, extraction, probing).
#[derive(Debug, Clone, PartialEq, Eq)]
pub enum UpdateError {
    FetchError(String),
    DecodeError,
    DownloadError { status: u16, url: String },
    ArchiveError,
    SwapError,
    IoError,
}

/// The one process-wide handle the service components share: the Broadcast
/// Hub's client registry.  Built once at process start and passed to the
/// notification server, the trigger listener and the orchestrator.
pub struct AppState {
    pub clients: hub::ClientRegistry,
}

impl AppState {
    pub fn new() -> (r: AppState)
        ensures
            r.clients@ == Seq::<u64>::empty(),
            r.clients.wf(),
    {
        AppState { clients: hub::ClientRegistry::new() }
    }
}

} // verus!
