use github_updater::digest::{to_hex, Sha256Hasher, StreamVerifier};
use github_updater::errors::GithubUpdaterError;
use github_updater::flow::{FsOp, Phase, UpdateFlow};
use github_updater::release::{AssetInfo, ReleaseInfo};
use github_updater::updater::{GithubUpdater, UpdateOutcome};

fn built_updater() -> GithubUpdater {
    GithubUpdater::builder()
        .with_initialized_reqwest_client()
        .with_app_name("tool")
        .with_release_file_name_pattern("{app_name}-{app_version}-{rust_target}")
        .with_rust_target("x86_64-linux")
        .with_repository_infos("owner", "repo")
        .with_download_path("/opt/tool")
        .build()
        .unwrap()
}

fn sha256_hex(content: &[u8]) -> String {
    let mut hasher = Sha256Hasher::new();
    hasher.update(content);
    to_hex(&hasher.finalize())
}

fn release_with_digest(version: &str, content: &[u8]) -> ReleaseInfo {
    ReleaseInfo {
        version: version.to_string(),
        assets: vec![AssetInfo {
            name: format!("tool-{version}-x86_64-linux"),
            download_url: "https://example.invalid/asset".to_string(),
            content_digest: Some(format!("sha256:{}", sha256_hex(content))),
        }],
    }
}

fn release_without_digest(version: &str) -> ReleaseInfo {
    ReleaseInfo {
        version: version.to_string(),
        assets: vec![AssetInfo {
            name: format!("tool-{version}-x86_64-linux"),
            download_url: "https://example.invalid/asset".to_string(),
            content_digest: None,
        }],
    }
}

#[test]
fn start_refuses_an_unbuilt_configuration() {
    let builder = GithubUpdater::builder().with_initialized_reqwest_client();
    let err = UpdateFlow::start(builder, false).unwrap_err();
    assert_eq!(err, GithubUpdaterError::BuilderNotInitialized);
}

#[test]
fn release_request_targets_the_latest_release() {
    let flow = UpdateFlow::start(built_updater(), false).unwrap();
    let req = flow.release_request();
    assert_eq!(req.url, "https://api.github.com/repos/owner/repo/releases/latest");
    assert_eq!(req.accept, "application/vnd.github+json");
    assert_eq!(req.user_agent, "GitHub-Updater");
    assert!(req.authorization.is_none());
}

#[test]
fn resolution_failure_ends_the_flow() {
    let release = ReleaseInfo {
        version: "1.0.0".to_string(),
        assets: vec![AssetInfo {
            name: "other-1.0.0".to_string(),
            download_url: "https://example.invalid/other".to_string(),
            content_digest: None,
        }],
    };
    let flow = UpdateFlow::start(built_updater(), false).unwrap().on_release(&release);
    let err = flow.into_result().unwrap_err();
    assert_eq!(
        err,
        GithubUpdaterError::FetchError(
            "No URL matching the pattern entered was found.".to_string()
        )
    );
}

#[test]
fn fresh_install_downloads_directly_to_target() {
    let content = b"binary-bytes";
    let release = release_with_digest("1.0.0", content);
    let flow = UpdateFlow::start(built_updater(), true).unwrap().on_release(&release);
    let flow = flow.on_probe(false, None, None);

    let dest = flow.download_dest();
    assert_eq!(dest, "/opt/tool/tool");
    assert!(!dest.contains("new_"));

    let req = flow.download_request();
    assert_eq!(req.url, "https://example.invalid/asset");
    assert_eq!(req.accept, "application/octet-stream");

    let mut v = StreamVerifier::new();
    assert!(v.feed(content));
    let (flow, cleanup) = flow.on_download_complete(v, content.len() as u64);
    assert!(cleanup.is_none());

    let ops = flow.install_ops();
    assert!(ops.is_empty());

    let flow = flow.on_installed();
    let (sidecar_path, contents) = flow.record_plan();
    assert_eq!(sidecar_path, "/opt/tool/binary-version-tool.txt");
    assert_eq!(contents, "1.0.0");

    let flow = flow.on_recorded();
    match flow.into_result().unwrap() {
        UpdateOutcome::Updated { from, to, forced, checksum_verified } => {
            assert!(from.is_none());
            assert_eq!(to, "1.0.0");
            assert!(forced);
            assert!(checksum_verified);
        }
        other => panic!("expected an update, got {other:?}"),
    }
}

#[test]
fn update_is_idempotent_once_installed() {
    let content = b"binary-bytes";
    let release = release_with_digest("1.0.0", content);
    let installed_digest = sha256_hex(content);
    let sidecar = "1.0.0".to_string();

    for _ in 0..2 {
        let flow = UpdateFlow::start(built_updater(), false).unwrap().on_release(&release);
        let flow = flow.on_probe(true, Some(&sidecar), Some(&installed_digest));
        assert!(matches!(flow.phase, Phase::Finished { .. }));
        match flow.into_result().unwrap() {
            UpdateOutcome::AlreadyUpToDate { version } => assert_eq!(version, "1.0.0"),
            other => panic!("expected up to date, got {other:?}"),
        }
    }
}

#[test]
fn truncated_download_never_clobbers_the_artifact() {
    let new_content = b"new-binary!!";
    let release = release_with_digest("1.1.0", new_content);
    let old_digest = sha256_hex(b"binary-bytes");
    let sidecar = "1.0.0\n".to_string();

    let flow = UpdateFlow::start(built_updater(), false).unwrap().on_release(&release);
    let flow = flow.on_probe(true, Some(&sidecar), Some(&old_digest));

    let dest = flow.download_dest();
    assert_eq!(dest, "/opt/tool/new_tool");

    let mut v = StreamVerifier::new();
    assert!(v.feed(&new_content[..5]));
    let (flow, cleanup) = flow.on_download_complete(v, new_content.len() as u64);

    assert_eq!(cleanup.as_deref(), Some("/opt/tool/new_tool"));
    assert_ne!(cleanup.as_deref(), Some("/opt/tool/tool"));
    let err = flow.into_result().unwrap_err();
    assert_eq!(
        err,
        GithubUpdaterError::CorruptionError(
            "File corrupted: Incorrect file size detected.".to_string()
        )
    );
}

#[test]
fn wrong_digest_never_clobbers_the_artifact() {
    let declared_content = b"new-binary!!";
    let actual_content = b"NEW-BINARY!!";
    let release = release_with_digest("1.1.0", declared_content);
    let old_digest = sha256_hex(b"binary-bytes");
    let sidecar = "1.0.0".to_string();

    let flow = UpdateFlow::start(built_updater(), false).unwrap().on_release(&release);
    let flow = flow.on_probe(true, Some(&sidecar), Some(&old_digest));

    let mut v = StreamVerifier::new();
    assert!(v.feed(actual_content));
    let (flow, cleanup) = flow.on_download_complete(v, declared_content.len() as u64);

    assert_eq!(cleanup.as_deref(), Some("/opt/tool/new_tool"));
    let err = flow.into_result().unwrap_err();
    assert_eq!(
        err,
        GithubUpdaterError::CorruptionError(
            "File corrupted: Checksum does not match.".to_string()
        )
    );
}

#[test]
fn install_over_previous_artifact_swaps_staging_into_place() {
    let content = b"new-binary!!";
    let release = release_with_digest("1.1.0", content);
    let sidecar = "1.0.0".to_string();

    let flow = UpdateFlow::start(built_updater(), false).unwrap().on_release(&release);
    let flow = flow.on_probe(true, Some(&sidecar), Some(&sha256_hex(b"binary-bytes")));
    assert_eq!(flow.download_dest(), "/opt/tool/new_tool");

    let mut v = StreamVerifier::new();
    assert!(v.feed(content));
    let (flow, cleanup) = flow.on_download_complete(v, content.len() as u64);
    assert!(cleanup.is_none());

    let ops = flow.install_ops();
    assert_eq!(ops.len(), 2);
    match &ops[0] {
        FsOp::Remove { path } => assert_eq!(path, "/opt/tool/tool"),
        other => panic!("expected a removal, got {other:?}"),
    }
    match &ops[1] {
        FsOp::Rename { from, to } => {
            assert_eq!(from, "/opt/tool/new_tool");
            assert_eq!(to, "/opt/tool/tool");
        }
        other => panic!("expected a rename, got {other:?}"),
    }

    let flow = flow.on_installed().on_recorded();
    match flow.into_result().unwrap() {
        UpdateOutcome::Updated { from, to, forced, checksum_verified } => {
            assert_eq!(from.as_deref(), Some("1.0.0"));
            assert_eq!(to, "1.1.0");
            assert!(!forced);
            assert!(checksum_verified);
        }
        other => panic!("expected an update, got {other:?}"),
    }
}

#[test]
fn preserving_the_previous_artifact_renames_it_aside() {
    let updater = GithubUpdater::builder()
        .with_initialized_reqwest_client()
        .with_app_name("tool")
        .with_release_file_name_pattern("{app_name}-{app_version}")
        .with_repository_infos("owner", "repo")
        .with_download_path("/opt/tool")
        .without_erase_previous_file()
        .build()
        .unwrap();
    let content = b"new-binary!!";
    let release = release_without_digest("1.1.0");
    let flow = UpdateFlow::start(updater, false).unwrap().on_release(&release);
    let flow = flow.on_probe(true, Some(&"1.0.0".to_string()), None);

    let mut v = StreamVerifier::new();
    assert!(v.feed(content));
    let (flow, _) = flow.on_download_complete(v, content.len() as u64);

    let ops = flow.install_ops();
    assert_eq!(ops.len(), 2);
    match &ops[0] {
        FsOp::Rename { from, to } => {
            assert_eq!(from, "/opt/tool/tool");
            assert_eq!(to, "/opt/tool/old_tool");
        }
        other => panic!("expected a rename, got {other:?}"),
    }
    match &ops[1] {
        FsOp::Rename { from, to } => {
            assert_eq!(from, "/opt/tool/new_tool");
            assert_eq!(to, "/opt/tool/tool");
        }
        other => panic!("expected a rename, got {other:?}"),
    }
}

#[test]
fn digestless_asset_downgrades_verification_observably() {
    let content = b"new-binary!!";
    let release = release_without_digest("1.1.0");
    let flow = UpdateFlow::start(built_updater(), false).unwrap().on_release(&release);
    let flow = flow.on_probe(true, Some(&"1.0.0".to_string()), None);

    let mut v = StreamVerifier::new();
    assert!(v.feed(content));
    let (flow, cleanup) = flow.on_download_complete(v, content.len() as u64);
    assert!(cleanup.is_none());

    let flow = flow.on_installed().on_recorded();
    match flow.into_result().unwrap() {
        UpdateOutcome::Updated { checksum_verified, to, .. } => {
            assert!(!checksum_verified);
            assert_eq!(to, "1.1.0");
        }
        other => panic!("expected an update, got {other:?}"),
    }

    // A later run against the unchanged release decides by version alone.
    let flow = UpdateFlow::start(built_updater(), false).unwrap().on_release(&release);
    let flow = flow.on_probe(true, Some(&"1.1.0".to_string()), None);
    match flow.into_result().unwrap() {
        UpdateOutcome::AlreadyUpToDate { version } => assert_eq!(version, "1.1.0"),
        other => panic!("expected up to date, got {other:?}"),
    }
}

#[test]
fn unknown_digest_label_downgrades_to_length_verification() {
    let content = b"new-binary!!";
    let release = ReleaseInfo {
        version: "1.1.0".to_string(),
        assets: vec![AssetInfo {
            name: "tool-1.1.0-x86_64-linux".to_string(),
            download_url: "https://example.invalid/asset".to_string(),
            content_digest: Some("md5:0123456789abcdef0123456789abcdef".to_string()),
        }],
    };
    let flow = UpdateFlow::start(built_updater(), false).unwrap().on_release(&release);
    let flow = flow.on_probe(true, Some(&"1.0.0".to_string()), None);

    let mut v = StreamVerifier::new();
    assert!(v.feed(content));
    let (flow, cleanup) = flow.on_download_complete(v, content.len() as u64);
    assert!(cleanup.is_none());

    let flow = flow.on_installed().on_recorded();
    match flow.into_result().unwrap() {
        UpdateOutcome::Updated { checksum_verified, .. } => assert!(!checksum_verified),
        other => panic!("expected an update, got {other:?}"),
    }
}

#[test]
fn version_record_round_trips_with_whitespace_trimmed() {
    let release = release_without_digest("4.5.6");
    let flow = UpdateFlow::start(built_updater(), true).unwrap().on_release(&release);
    let flow = flow.on_probe(false, None, None);

    let mut v = StreamVerifier::new();
    assert!(v.feed(b"x"));
    let (flow, _) = flow.on_download_complete(v, 1);
    let flow = flow.on_installed();
    let (_, contents) = flow.record_plan();
    assert_eq!(contents, "4.5.6");

    // Reading the record back — possibly with whitespace the filesystem or
    // an editor added — yields exactly the written version.
    let written_back = format!("{contents}\n");
    let release_again = release_without_digest("4.5.6");
    let flow = UpdateFlow::start(built_updater(), false).unwrap().on_release(&release_again);
    let flow = flow.on_probe(true, Some(&written_back), None);
    match flow.into_result().unwrap() {
        UpdateOutcome::AlreadyUpToDate { version } => assert_eq!(version, "4.5.6"),
        other => panic!("expected up to date, got {other:?}"),
    }
}

#[test]
fn missing_sidecar_forces_a_download() {
    let release = release_without_digest("1.0.0");
    let flow = UpdateFlow::start(built_updater(), false).unwrap().on_release(&release);
    // Artifact present but no recorded version: not up to date.
    let flow = flow.on_probe(true, None, None);
    assert!(matches!(flow.phase, Phase::Download { .. }));
}

#[test]
fn fail_records_an_io_error() {
    let flow = UpdateFlow::start(built_updater(), false).unwrap();
    let flow = flow.fail(GithubUpdaterError::IoError("disk full".to_string()));
    let err = flow.into_result().unwrap_err();
    assert_eq!(err, GithubUpdaterError::IoError("disk full".to_string()));
}
