use github_updater::errors::GithubUpdaterError;
use github_updater::release::{
    build_match_string, normalize_digest, resolve_release, AssetInfo, ReleaseInfo,
};

fn asset(name: &str, url: &str, digest: Option<&str>) -> AssetInfo {
    AssetInfo {
        name: name.to_string(),
        download_url: url.to_string(),
        content_digest: digest.map(|d| d.to_string()),
    }
}

#[test]
fn normalize_digest_strips_the_known_algorithm_label() {
    assert_eq!(normalize_digest("sha256:abcdef0123").as_deref(), Some("abcdef0123"));
    assert_eq!(normalize_digest("beef").as_deref(), Some("beef"));
    assert_eq!(normalize_digest("").as_deref(), Some(""));
}

#[test]
fn normalize_digest_refuses_unknown_algorithm_labels() {
    assert_eq!(normalize_digest("md5:beef"), None);
    assert_eq!(normalize_digest("sha512:beef"), None);
    assert_eq!(normalize_digest(":beef"), None);
}

#[test]
fn match_string_substitutes_in_order() {
    let ms = build_match_string(
        "{app_name}-{app_version}-{rust_target}",
        "2.3.0",
        "tool",
        Some(&"x86_64-linux".to_string()),
    );
    assert_eq!(ms, "tool-2.3.0-x86_64-linux");
}

#[test]
fn match_string_without_target_leaves_placeholder() {
    let ms = build_match_string("{app_name}-{app_version}", "1.2.3", "tool", None);
    assert_eq!(ms, "tool-1.2.3");
}

#[test]
fn resolve_selects_exact_asset_among_decoys() {
    let release = ReleaseInfo {
        version: "2.3.0".to_string(),
        assets: vec![
            asset("tool-2.3.0-aarch64-linux", "https://example.invalid/1", None),
            asset("tool-2.2.0-x86_64-linux", "https://example.invalid/2", None),
            asset("tool-2.3.0-x86_64-linux", "https://example.invalid/3", None),
            asset("tool-2.3.0-x86_64-linux.sig", "https://example.invalid/4", None),
        ],
    };
    let resolved = resolve_release(
        &release,
        "{app_name}-{app_version}-{rust_target}",
        "tool",
        Some(&"x86_64-linux".to_string()),
    )
    .unwrap();
    assert_eq!(resolved.download_url, "https://example.invalid/3");
    assert_eq!(resolved.version, "2.3.0");
    assert!(resolved.digest.is_none());
}

#[test]
fn resolve_takes_first_match_in_feed_order() {
    let release = ReleaseInfo {
        version: "1.0.0".to_string(),
        assets: vec![
            asset("tool-1.0.0.tar.gz", "https://example.invalid/first", None),
            asset("tool-1.0.0.zip", "https://example.invalid/second", None),
        ],
    };
    let resolved =
        resolve_release(&release, "{app_name}-{app_version}", "tool", None).unwrap();
    assert_eq!(resolved.download_url, "https://example.invalid/first");
}

#[test]
fn resolve_normalizes_the_digest() {
    let release = ReleaseInfo {
        version: "1.0.0".to_string(),
        assets: vec![asset(
            "tool-1.0.0",
            "https://example.invalid/1",
            Some("sha256:0123456789abcdef0123456789abcdef0123456789abcdef0123456789abcdef"),
        )],
    };
    let resolved =
        resolve_release(&release, "{app_name}-{app_version}", "tool", None).unwrap();
    assert_eq!(
        resolved.digest.as_deref(),
        Some("0123456789abcdef0123456789abcdef0123456789abcdef0123456789abcdef")
    );
}

#[test]
fn resolve_drops_a_digest_under_an_unknown_label() {
    let release = ReleaseInfo {
        version: "1.0.0".to_string(),
        assets: vec![asset(
            "tool-1.0.0",
            "https://example.invalid/1",
            Some("md5:0123456789abcdef0123456789abcdef"),
        )],
    };
    let resolved =
        resolve_release(&release, "{app_name}-{app_version}", "tool", None).unwrap();
    assert!(resolved.digest.is_none());
}

#[test]
fn resolve_fails_when_nothing_matches() {
    let release = ReleaseInfo {
        version: "2.3.0".to_string(),
        assets: vec![
            asset("tool-2.3.0-aarch64-linux", "https://example.invalid/1", None),
            asset("other-2.3.0-x86_64-linux", "https://example.invalid/2", None),
        ],
    };
    let err = resolve_release(
        &release,
        "{app_name}-{app_version}-{rust_target}",
        "tool",
        Some(&"x86_64-linux".to_string()),
    )
    .unwrap_err();
    assert_eq!(
        err,
        GithubUpdaterError::FetchError(
            "No URL matching the pattern entered was found.".to_string()
        )
    );
}

#[test]
fn resolve_fails_on_empty_asset_list() {
    let release = ReleaseInfo { version: "2.3.0".to_string(), assets: vec![] };
    assert!(resolve_release(&release, "{app_name}", "tool", None).is_err());
}
