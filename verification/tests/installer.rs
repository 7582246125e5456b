//! The archive layer and the install machine, driven end to end with real
//! zip containers built in memory.

use std::io::Write;

use extension_updater::archive::{archive_plan, enclose_name, PlanStep};
use extension_updater::install::{
    install_step, DirKind, InstallAction, InstallEvent, InstallOutcome, InstallState,
};
use extension_updater::orchestrator::{conclude_update, evaluate_manifest, UpdateDecision};
use extension_updater::UpdateError;

fn sample_zip() -> Vec<u8> {
    let cursor = std::io::Cursor::new(Vec::new());
    let mut writer = zip::ZipWriter::new(cursor);
    let options = zip::write::SimpleFileOptions::default();
    writer.add_directory("sub", options).unwrap();
    writer.start_file("sub/hello.txt", options).unwrap();
    writer.write_all(b"hello world").unwrap();
    writer.start_file("top.bin", options).unwrap();
    writer.write_all(&[0u8, 1, 2, 255]).unwrap();
    writer.finish().unwrap().into_inner()
}

#[test]
fn enclose_name_splits_safe_paths() {
    assert_eq!(
        enclose_name("dir/file.txt"),
        Some(vec!["dir".to_string(), "file.txt".to_string()])
    );
    assert_eq!(enclose_name("sub/"), Some(vec!["sub".to_string()]));
    assert_eq!(enclose_name("a//b"), Some(vec!["a".to_string(), "b".to_string()]));
    assert_eq!(enclose_name("./a"), Some(vec!["a".to_string()]));
}

#[test]
fn enclose_name_rejects_escapes() {
    assert_eq!(enclose_name(""), None);
    assert_eq!(enclose_name("/abs/path"), None);
    assert_eq!(enclose_name("../evil"), None);
    assert_eq!(enclose_name("a/../b"), None);
    assert_eq!(enclose_name("a\\b"), None);
    assert_eq!(enclose_name("c:evil"), None);
    assert_eq!(enclose_name("nul\u{0}byte"), None);
    assert_eq!(enclose_name("."), None);
    assert_eq!(enclose_name("//"), None);
}

#[test]
fn archive_plan_lists_entries_in_order() {
    let steps = archive_plan(&sample_zip()).unwrap();
    assert_eq!(steps.len(), 3);
    match &steps[0] {
        PlanStep::Dir { rel } => assert_eq!(rel, &vec!["sub".to_string()]),
        _ => panic!("first step should create the directory"),
    }
    match &steps[1] {
        PlanStep::File { rel, data } => {
            assert_eq!(rel, &vec!["sub".to_string(), "hello.txt".to_string()]);
            assert_eq!(data, b"hello world");
        }
        _ => panic!("second step should write sub/hello.txt"),
    }
    match &steps[2] {
        PlanStep::File { rel, data } => {
            assert_eq!(rel, &vec!["top.bin".to_string()]);
            assert_eq!(data, &vec![0u8, 1, 2, 255]);
        }
        _ => panic!("third step should write top.bin"),
    }
}

#[test]
fn archive_plan_rejects_garbage() {
    let r = archive_plan(&b"this is not a zip container".to_vec());
    assert_eq!(r.unwrap_err(), UpdateError::ArchiveError);
}

fn expect_install(
    decision: Result<UpdateDecision, UpdateError>,
) -> (InstallState, InstallAction) {
    match decision.unwrap() {
        UpdateDecision::Install { state, action } => (state, action),
        UpdateDecision::NoUpdate => panic!("expected an install to start"),
    }
}

#[test]
fn full_update_walk_succeeds() {
    let manifest = "{\"version\":\"2.0\",\"download_url\":\"http://x/archive.zip\"}";
    let (state, action) = expect_install(evaluate_manifest(
        Ok(manifest.to_string()),
        Some("1.0".to_string()),
        7,
    ));
    match &action {
        InstallAction::FetchArchive { url } => assert_eq!(url, "http://x/archive.zip?cb=7"),
        _ => panic!("expected the archive fetch first"),
    }

    let (state, action) = install_step(
        state,
        InstallEvent::Fetched { status: 200, body: sample_zip() },
    );
    assert!(matches!(
        action,
        Some(InstallAction::RemoveDir { dir: DirKind::Staging })
    ));

    let (state, action) = install_step(state, InstallEvent::Removed { ok: true });
    assert!(matches!(
        action,
        Some(InstallAction::CreateDir { dir: DirKind::Staging })
    ));

    let (state, action) = install_step(state, InstallEvent::Created { ok: true });
    match &action {
        Some(InstallAction::Extract { steps }) => assert_eq!(steps.len(), 3),
        _ => panic!("expected the extraction of the plan"),
    }

    let (state, action) = install_step(state, InstallEvent::Extracted { ok: true });
    assert!(matches!(
        action,
        Some(InstallAction::RemoveDir { dir: DirKind::Backup })
    ));

    let (state, action) = install_step(state, InstallEvent::Removed { ok: true });
    assert!(matches!(action, Some(InstallAction::ProbeInstallDir)));

    let (state, action) = install_step(state, InstallEvent::InstallDirProbed { exists: true });
    assert!(matches!(
        action,
        Some(InstallAction::Rename { from: DirKind::Install, to: DirKind::Backup })
    ));

    let (state, action) = install_step(state, InstallEvent::Renamed { ok: true });
    assert!(matches!(
        action,
        Some(InstallAction::Rename { from: DirKind::Staging, to: DirKind::Install })
    ));

    let (state, action) = install_step(state, InstallEvent::Renamed { ok: true });
    match &action {
        Some(InstallAction::WriteMarker { version }) => assert_eq!(version, "2.0"),
        _ => panic!("expected the marker write last"),
    }

    let (state, action) = install_step(state, InstallEvent::MarkerWritten { ok: true });
    assert!(action.is_none());
    let outcome = match state {
        InstallState::Complete { outcome } => outcome,
        _ => panic!("the machine should be done"),
    };
    assert!(matches!(
        outcome,
        InstallOutcome::Installed { marker_written: true }
    ));
    let (result, broadcast) = conclude_update(Some(outcome));
    assert_eq!(result, Ok(true));
    assert!(broadcast);
}

#[test]
fn equal_versions_decide_no_update() {
    let manifest = "{\"version\":\"1.0\",\"download_url\":\"http://x/archive.zip\"}";
    let decision = evaluate_manifest(Ok(manifest.to_string()), Some("1.0".to_string()), 7);
    assert!(matches!(decision, Ok(UpdateDecision::NoUpdate)));
    // Whitespace that trimming removes is no difference either.
    let decision = evaluate_manifest(Ok(manifest.to_string()), Some(" 1.0\n".to_string()), 7);
    assert!(matches!(decision, Ok(UpdateDecision::NoUpdate)));
    let (result, broadcast) = conclude_update(None);
    assert_eq!(result, Ok(false));
    assert!(!broadcast);
}

#[test]
fn corrupt_archive_fails_without_touching_anything() {
    let manifest = "{\"version\":\"2.0\",\"download_url\":\"http://x/archive.zip\"}";
    let (state, _) = expect_install(evaluate_manifest(
        Ok(manifest.to_string()),
        Some("1.0".to_string()),
        7,
    ));
    let (state, action) = install_step(
        state,
        InstallEvent::Fetched { status: 200, body: b"garbage".to_vec() },
    );
    // No further action: nothing on disk was touched, nothing is broadcast.
    assert!(action.is_none());
    let outcome = match state {
        InstallState::Complete { outcome } => outcome,
        _ => panic!("the machine should have stopped"),
    };
    let (result, broadcast) = conclude_update(Some(outcome));
    assert_eq!(result, Err(UpdateError::ArchiveError));
    assert!(!broadcast);
}

#[test]
fn bad_status_fails_with_download_error() {
    let manifest = "{\"version\":\"2.0\",\"download_url\":\"http://x/archive.zip\"}";
    let (state, _) = expect_install(evaluate_manifest(
        Ok(manifest.to_string()),
        Some("1.0".to_string()),
        7,
    ));
    let (state, action) = install_step(
        state,
        InstallEvent::Fetched { status: 404, body: Vec::new() },
    );
    assert!(action.is_none());
    match state {
        InstallState::Complete { outcome: InstallOutcome::Failed { error } } => {
            assert_eq!(
                error,
                UpdateError::DownloadError { status: 404, url: "http://x/archive.zip".to_string() }
            );
        }
        _ => panic!("the machine should have stopped with the status"),
    }
}

#[test]
fn whitespace_version_never_installs() {
    // A version of bare whitespace trims to nothing: it is a decode
    // failure, never an update, whatever the marker holds.
    let manifest = "{\"version\":\"  \",\"download_url\":\"http://x/archive.zip\"}";
    let r = evaluate_manifest(Ok(manifest.to_string()), Some("1.0".to_string()), 7);
    assert_eq!(r.unwrap_err(), UpdateError::DecodeError);
    let r = evaluate_manifest(Ok(manifest.to_string()), None, 7);
    assert_eq!(r.unwrap_err(), UpdateError::DecodeError);
}

#[test]
fn transport_failure_surfaces_as_fetch_error() {
    let r = evaluate_manifest(Err("connection refused".to_string()), None, 7);
    match r {
        Err(UpdateError::FetchError(d)) => assert_eq!(d, "connection refused"),
        _ => panic!("expected the transport failure verbatim"),
    }
}

#[test]
fn failed_backup_rename_keeps_staging_for_inspection() {
    let manifest = "{\"version\":\"2.0\",\"download_url\":\"http://x/archive.zip\"}";
    let (state, _) = expect_install(evaluate_manifest(
        Ok(manifest.to_string()),
        Some("1.0".to_string()),
        7,
    ));
    let (state, _) = install_step(
        state,
        InstallEvent::Fetched { status: 200, body: sample_zip() },
    );
    let (state, _) = install_step(state, InstallEvent::Removed { ok: true });
    let (state, _) = install_step(state, InstallEvent::Created { ok: true });
    let (state, _) = install_step(state, InstallEvent::Extracted { ok: true });
    let (state, _) = install_step(state, InstallEvent::Removed { ok: true });
    let (state, _) = install_step(state, InstallEvent::InstallDirProbed { exists: true });
    // The backup rename fails: abort with SwapError and ask for nothing
    // more — in particular no cleanup of the staging directory.
    let (state, action) = install_step(state, InstallEvent::Renamed { ok: false });
    assert!(action.is_none());
    match state {
        InstallState::Complete { outcome: InstallOutcome::Failed { error } } => {
            assert_eq!(error, UpdateError::SwapError);
        }
        _ => panic!("the machine should have stopped with SwapError"),
    }
}

#[test]
fn marker_write_failure_still_counts_as_installed() {
    let manifest = "{\"version\":\"2.0\",\"download_url\":\"http://x/archive.zip\"}";
    let (state, _) = expect_install(evaluate_manifest(
        Ok(manifest.to_string()),
        None,
        7,
    ));
    let (state, _) = install_step(
        state,
        InstallEvent::Fetched { status: 200, body: sample_zip() },
    );
    let (state, _) = install_step(state, InstallEvent::Removed { ok: true });
    let (state, _) = install_step(state, InstallEvent::Created { ok: true });
    let (state, _) = install_step(state, InstallEvent::Extracted { ok: true });
    let (state, _) = install_step(state, InstallEvent::Removed { ok: true });
    // First install: nothing to back up, the swap happens directly.
    let (state, action) = install_step(state, InstallEvent::InstallDirProbed { exists: false });
    assert!(matches!(
        action,
        Some(InstallAction::Rename { from: DirKind::Staging, to: DirKind::Install })
    ));
    let (state, _) = install_step(state, InstallEvent::Renamed { ok: true });
    let (state, _) = install_step(state, InstallEvent::MarkerWritten { ok: false });
    match state {
        InstallState::Complete { outcome } => {
            assert!(matches!(outcome, InstallOutcome::Installed { marker_written: false }));
            let (result, broadcast) = conclude_update(Some(outcome));
            assert_eq!(result, Ok(true));
            assert!(broadcast);
        }
        _ => panic!("the machine should be done"),
    }
}
