//! The Atomic Installer, as a state machine.
//!
//! The machine owns every decision of an install — what to fetch, what to
//! extract where, when the backup and swap renames happen, and which failure
//! each step maps to — while the host performs the actions (one network
//! fetch, then disk work only) and reports each outcome back as an event.
//! Driving it: `start_install` yields the first action; each host report is
//! fed to `install_step`, whose returned action is performed next, until the
//! state is `Complete`.
//!
//! The sequence mirrors the swap discipline: extract into a fresh staging
//! directory, move the current install aside as a backup, move staging into
//! place, then write the version marker.  Between the two renames sits the
//! one unsafe window the design accepts: if the second rename fails there is
//! no active install directory, only the backup.  A failed backup rename
//! aborts with `SwapError` and deliberately leaves the staging directory in
//! place for inspection.

use vstd::prelude::*;
use crate::UpdateError;
use crate::archive::{PlanStep, archive_plan, plan_of, zip_members_ok, zip_parse};
use crate::manifest::{UpdateManifest, cache_busted_spec, cache_busted_url};

verus! {

/// The directories an install touches, all siblings: the active install
/// tree, the staging directory an archive is extracted into, and the backup
/// the previous install is moved to.
#[derive(Debug, Clone, Copy, PartialEq, Eq, Structural)]
pub enum DirKind {
    Install,
    Staging,
    Backup,
}

/// One action the host is asked to perform.  `RemoveDir` is best-effort
/// cleanup: the host reports failure, but the machine goes on either way.
/// `Extract` lays the plan's steps out under the staging directory.
#[derive(Debug)]
pub enum InstallAction {
    FetchArchive { url: String },
    RemoveDir { dir: DirKind },
    CreateDir { dir: DirKind },
    Extract { steps: Vec<PlanStep> },
    ProbeInstallDir,
    Rename { from: DirKind, to: DirKind },
    WriteMarker { version: String },
}

/// The host's report on the last action.
#[derive(Debug)]
pub enum InstallEvent {
    Fetched { status: u16, body: Vec<u8> },
    FetchFailed { detail: String },
    Removed { ok: bool },
    Created { ok: bool },
    Extracted { ok: bool },
    InstallDirProbed { exists: bool },
    Renamed { ok: bool },
    MarkerWritten { ok: bool },
}

/// How an install ended.  A failed marker write does not undo the swap:
/// the files are in place and the install counts as done, with the failure
/// left visible as `marker_written == false`.
#[derive(Debug)]
pub enum InstallOutcome {
    Installed { marker_written: bool },
    Failed { error: UpdateError },
}

/// Where the machine stands: each non-final state names the action the
/// host is currently performing.
#[derive(Debug)]
pub enum InstallState {
    FetchingArchive { version: String, url: String },
    CleaningStaging { version: String, steps: Vec<PlanStep> },
    CreatingStaging { version: String, steps: Vec<PlanStep> },
    Extracting { version: String },
    CleaningBackup { version: String },
    ProbingInstall { version: String },
    BackingUp { version: String },
    Swapping { version: String },
    WritingMarker,
    Complete { outcome: InstallOutcome },
}

/// Begin an install of `m`: the machine waits for the archive, which the
/// host fetches from the manifest's URL with the cache-busting parameter
/// for time `now_millis` appended.
pub fn start_install(m: &UpdateManifest, now_millis: u64) -> (r: (InstallState, InstallAction))
    ensures
        r.0 matches InstallState::FetchingArchive { version, url } && version@ == m.version@
            && url@ == m.download_url@,
        r.1 matches InstallAction::FetchArchive { url } && url@ == cache_busted_spec(
            m.download_url@,
            now_millis as nat,
        ),
{
    let state = InstallState::FetchingArchive {
        version: m.version.clone(),
        url: m.download_url.clone(),
    };
    let action = InstallAction::FetchArchive {
        url: cache_busted_url(m.download_url.as_str(), now_millis),
    };
    (state, action)
}

/// Which event answers which state: the host reports exactly the action
/// the machine asked for.
pub open spec fn accepts(s: InstallState, e: InstallEvent) -> bool {
    match (s, e) {
        (InstallState::FetchingArchive { .. }, InstallEvent::Fetched { .. }) => true,
        (InstallState::FetchingArchive { .. }, InstallEvent::FetchFailed { .. }) => true,
        (InstallState::CleaningStaging { .. }, InstallEvent::Removed { .. }) => true,
        (InstallState::CreatingStaging { .. }, InstallEvent::Created { .. }) => true,
        (InstallState::Extracting { .. }, InstallEvent::Extracted { .. }) => true,
        (InstallState::CleaningBackup { .. }, InstallEvent::Removed { .. }) => true,
        (InstallState::ProbingInstall { .. }, InstallEvent::InstallDirProbed { .. }) => true,
        (InstallState::BackingUp { .. }, InstallEvent::Renamed { .. }) => true,
        (InstallState::Swapping { .. }, InstallEvent::Renamed { .. }) => true,
        (InstallState::WritingMarker, InstallEvent::MarkerWritten { .. }) => true,
        _ => false,
    }
}

/// The machine stopped with the given error and asks for nothing more.
pub open spec fn fails_with(r: (InstallState, Option<InstallAction>), error: UpdateError) -> bool {
    &&& r.0 matches InstallState::Complete {
        outcome: InstallOutcome::Failed { error: e },
    } && e == error
    &&& r.1 is None
}

/// The machine accepted the fetched archive: it carries the extraction
/// plan of `body`'s container forward and asks for the staging cleanup.
pub open spec fn stages_plan(
    version: Seq<char>,
    body: Seq<u8>,
    r: (InstallState, Option<InstallAction>),
) -> bool {
    &&& zip_parse(body) is Some
    &&& r.0 matches InstallState::CleaningStaging { version: v, steps } && v@ == version
        && steps@.map_values(|p: PlanStep| p@) == plan_of(zip_parse(body)->Some_0)
    &&& r.1 matches Some(InstallAction::RemoveDir { dir: DirKind::Staging })
}

/// The full transition relation of the installer: what each state does
/// with each accepted event.  `install_step` is proved to satisfy it.
pub open spec fn install_transition(
    s: InstallState,
    e: InstallEvent,
    r: (InstallState, Option<InstallAction>),
) -> bool {
    match (s, e) {
        (
            InstallState::FetchingArchive { version, url },
            InstallEvent::Fetched { status, body },
        ) => {
            if status < 200 || status >= 300 {
                &&& r.0 matches InstallState::Complete {
                    outcome: InstallOutcome::Failed {
                        error: UpdateError::DownloadError { status: st, url: u },
                    },
                } && st == status && u@ == url@
                &&& r.1 is None
            } else if zip_parse(body@) is None {
                fails_with(r, UpdateError::ArchiveError)
            } else if zip_members_ok(body@) {
                // A fully readable archive is owed its staging pass.
                stages_plan(version@, body@, r)
            } else {
                // A readable container with an unreadable member may fail at
                // whichever entry refuses to decompress.
                ||| stages_plan(version@, body@, r)
                ||| fails_with(r, UpdateError::ArchiveError)
            }
        },
        (InstallState::FetchingArchive { .. }, InstallEvent::FetchFailed { detail }) => {
            &&& r.0 matches InstallState::Complete {
                outcome: InstallOutcome::Failed { error: UpdateError::FetchError(d) },
            } && d@ == detail@
            &&& r.1 is None
        },
        (InstallState::CleaningStaging { version, steps }, InstallEvent::Removed { .. }) => {
            // Cleanup of a stale staging directory is advisory; a failure is
            // observed by the host and does not stop the install.
            &&& r.0 matches InstallState::CreatingStaging { version: v, steps: st } && v@
                == version@ && st@.map_values(|p: PlanStep| p@) == steps@.map_values(
                |p: PlanStep| p@,
            )
            &&& r.1 matches Some(InstallAction::CreateDir { dir: DirKind::Staging })
        },
        (InstallState::CreatingStaging { version, steps }, InstallEvent::Created { ok }) => {
            if ok {
                &&& r.0 matches InstallState::Extracting { version: v } && v@ == version@
                &&& r.1 matches Some(InstallAction::Extract { steps: st })
                    && st@.map_values(|p: PlanStep| p@) == steps@.map_values(|p: PlanStep| p@)
            } else {
                fails_with(r, UpdateError::IoError)
            }
        },
        (InstallState::Extracting { version }, InstallEvent::Extracted { ok }) => {
            if ok {
                &&& r.0 matches InstallState::CleaningBackup { version: v } && v@ == version@
                &&& r.1 matches Some(InstallAction::RemoveDir { dir: DirKind::Backup })
            } else {
                fails_with(r, UpdateError::IoError)
            }
        },
        (InstallState::CleaningBackup { version }, InstallEvent::Removed { .. }) => {
            // Removing a leftover backup is advisory too.
            &&& r.0 matches InstallState::ProbingInstall { version: v } && v@ == version@
            &&& r.1 matches Some(InstallAction::ProbeInstallDir)
        },
        (
            InstallState::ProbingInstall { version },
            InstallEvent::InstallDirProbed { exists },
        ) => {
            if exists {
                &&& r.0 matches InstallState::BackingUp { version: v } && v@ == version@
                &&& r.1 matches Some(InstallAction::Rename {
                    from: DirKind::Install,
                    to: DirKind::Backup,
                })
            } else {
                &&& r.0 matches InstallState::Swapping { version: v } && v@ == version@
                &&& r.1 matches Some(InstallAction::Rename {
                    from: DirKind::Staging,
                    to: DirKind::Install,
                })
            }
        },
        (InstallState::BackingUp { version }, InstallEvent::Renamed { ok }) => {
            // A failed backup rename aborts the install; no cleanup action
            // follows, so the staging directory survives for inspection.
            if ok {
                &&& r.0 matches InstallState::Swapping { version: v } && v@ == version@
                &&& r.1 matches Some(InstallAction::Rename {
                    from: DirKind::Staging,
                    to: DirKind::Install,
                })
            } else {
                fails_with(r, UpdateError::SwapError)
            }
        },
        (InstallState::Swapping { version }, InstallEvent::Renamed { ok }) => {
            if ok {
                &&& r.0 is WritingMarker
                &&& r.1 matches Some(InstallAction::WriteMarker { version: v }) && v@
                    == version@
            } else {
                fails_with(r, UpdateError::SwapError)
            }
        },
        (InstallState::WritingMarker, InstallEvent::MarkerWritten { ok }) => {
            &&& r.0 matches InstallState::Complete {
                outcome: InstallOutcome::Installed { marker_written },
            } && marker_written == ok
            &&& r.1 is None
        },
        _ => false,
    }
}

/// Does this event answer this state?  The exec mirror of `accepts`, so
/// the host can test the stepping precondition before it calls in.
pub fn event_matches(state: &InstallState, event: &InstallEvent) -> (r: bool)
    ensures
        r == accepts(*state, *event),
{
    match (state, event) {
        (InstallState::FetchingArchive { .. }, InstallEvent::Fetched { .. }) => true,
        (InstallState::FetchingArchive { .. }, InstallEvent::FetchFailed { .. }) => true,
        (InstallState::CleaningStaging { .. }, InstallEvent::Removed { .. }) => true,
        (InstallState::CreatingStaging { .. }, InstallEvent::Created { .. }) => true,
        (InstallState::Extracting { .. }, InstallEvent::Extracted { .. }) => true,
        (InstallState::CleaningBackup { .. }, InstallEvent::Removed { .. }) => true,
        (InstallState::ProbingInstall { .. }, InstallEvent::InstallDirProbed { .. }) => true,
        (InstallState::BackingUp { .. }, InstallEvent::Renamed { .. }) => true,
        (InstallState::Swapping { .. }, InstallEvent::Renamed { .. }) => true,
        (InstallState::WritingMarker, InstallEvent::MarkerWritten { .. }) => true,
        _ => false,
    }
}

/// Advance the installer by one host report.
pub fn install_step(state: InstallState, event: InstallEvent) -> (r: (
    InstallState,
    Option<InstallAction>,
))
    requires
        accepts(state, event),
    ensures
        install_transition(state, event, r),
{
    match (state, event) {
        (
            InstallState::FetchingArchive { version, url },
            InstallEvent::Fetched { status, body },
        ) => {
            if status < 200 || status >= 300 {
                (
                    InstallState::Complete {
                        outcome: InstallOutcome::Failed {
                            error: UpdateError::DownloadError { status, url },
                        },
                    },
                    None,
                )
            } else {
                match archive_plan(&body) {
                    Ok(steps) => (
                        InstallState::CleaningStaging { version, steps },
                        Some(InstallAction::RemoveDir { dir: DirKind::Staging }),
                    ),
                    Err(_) => (
                        InstallState::Complete {
                            outcome: InstallOutcome::Failed { error: UpdateError::ArchiveError },
                        },
                        None,
                    ),
                }
            }
        },
        (InstallState::FetchingArchive { .. }, InstallEvent::FetchFailed { detail }) => (
            InstallState::Complete {
                outcome: InstallOutcome::Failed { error: UpdateError::FetchError(detail) },
            },
            None,
        ),
        (InstallState::CleaningStaging { version, steps }, InstallEvent::Removed { .. }) => (
            InstallState::CreatingStaging { version, steps },
            Some(InstallAction::CreateDir { dir: DirKind::Staging }),
        ),
        (InstallState::CreatingStaging { version, steps }, InstallEvent::Created { ok }) => {
            if ok {
                (
                    InstallState::Extracting { version },
                    Some(InstallAction::Extract { steps }),
                )
            } else {
                (
                    InstallState::Complete {
                        outcome: InstallOutcome::Failed { error: UpdateError::IoError },
                    },
                    None,
                )
            }
        },
        (InstallState::Extracting { version }, InstallEvent::Extracted { ok }) => {
            if ok {
                (
                    InstallState::CleaningBackup { version },
                    Some(InstallAction::RemoveDir { dir: DirKind::Backup }),
                )
            } else {
                (
                    InstallState::Complete {
                        outcome: InstallOutcome::Failed { error: UpdateError::IoError },
                    },
                    None,
                )
            }
        },
        (InstallState::CleaningBackup { version }, InstallEvent::Removed { .. }) => (
            InstallState::ProbingInstall { version },
            Some(InstallAction::ProbeInstallDir),
        ),
        (
            InstallState::ProbingInstall { version },
            InstallEvent::InstallDirProbed { exists },
        ) => {
            if exists {
                (
                    InstallState::BackingUp { version },
                    Some(InstallAction::Rename { from: DirKind::Install, to: DirKind::Backup }),
                )
            } else {
                (
                    InstallState::Swapping { version },
                    Some(InstallAction::Rename { from: DirKind::Staging, to: DirKind::Install }),
                )
            }
        },
        (InstallState::BackingUp { version }, InstallEvent::Renamed { ok }) => {
            if ok {
                (
                    InstallState::Swapping { version },
                    Some(InstallAction::Rename { from: DirKind::Staging, to: DirKind::Install }),
                )
            } else {
                (
                    InstallState::Complete {
                        outcome: InstallOutcome::Failed { error: UpdateError::SwapError },
                    },
                    None,
                )
            }
        },
        (InstallState::Swapping { version }, InstallEvent::Renamed { ok }) => {
            if ok {
                (
                    InstallState::WritingMarker,
                    Some(InstallAction::WriteMarker { version }),
                )
            } else {
                (
                    InstallState::Complete {
                        outcome: InstallOutcome::Failed { error: UpdateError::SwapError },
                    },
                    None,
                )
            }
        },
        (InstallState::WritingMarker, InstallEvent::MarkerWritten { ok }) => (
            InstallState::Complete {
                outcome: InstallOutcome::Installed { marker_written: ok },
            },
            None,
        ),
        _ => vstd::pervasive::unreached(),
    }
}

/// Does an action write to, remove or rename the install directory?
/// Everything else can at worst disturb staging or the backup.
pub open spec fn touches_install_dir(a: InstallAction) -> bool {
    match a {
        InstallAction::FetchArchive { .. } => false,
        InstallAction::RemoveDir { dir } => dir is Install,
        InstallAction::CreateDir { dir } => dir is Install,
        InstallAction::Extract { .. } => false,
        InstallAction::ProbeInstallDir => false,
        InstallAction::Rename { from, to } => from is Install || to is Install,
        InstallAction::WriteMarker { .. } => true,
    }
}

/// The phases before any rename of the install directory has been asked
/// for: fetching, staging cleanup and creation, extraction, and backup
/// cleanup.
pub open spec fn before_commit(s: InstallState) -> bool {
    match s {
        InstallState::FetchingArchive { .. } => true,
        InstallState::CleaningStaging { .. } => true,
        InstallState::CreatingStaging { .. } => true,
        InstallState::Extracting { .. } => true,
        InstallState::CleaningBackup { .. } => true,
        _ => false,
    }
}

/// Law (progress): a step either completes the install or asks for the
/// next action — the machine never stalls in a non-final state, and never
/// asks for more work once complete.  The host may therefore loop on "an
/// action is pending" and read the outcome as soon as none is.
pub proof fn lemma_step_progress(
    s: InstallState,
    e: InstallEvent,
    r: (InstallState, Option<InstallAction>),
)
    requires
        accepts(s, e),
        install_transition(s, e, r),
    ensures
        r.1 is None <==> r.0 matches InstallState::Complete { .. },
{
}

/// Law (install atomicity): in every phase up to and including the backup
/// cleanup — in particular anywhere between extraction and the renames —
/// no action the machine emits touches the install directory.  An install
/// that fails in those phases leaves the previously active install tree
/// fully intact and readable; only staging and backup locations are ever
/// disturbed before the machine asks for the first rename.
pub proof fn lemma_install_intact_before_commit(
    s: InstallState,
    e: InstallEvent,
    r: (InstallState, Option<InstallAction>),
)
    requires
        accepts(s, e),
        before_commit(s),
        install_transition(s, e, r),
    ensures
        r.1 matches Some(a) ==> !touches_install_dir(a),
{
}

} // verus!
