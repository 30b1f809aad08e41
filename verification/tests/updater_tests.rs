use monoryx::updater::{check_launcher_update, GithubAsset, GithubRelease, ReleaseReply};

fn release(tag: &str, assets: Vec<(&str, &str)>) -> GithubRelease {
    GithubRelease {
        tag_name: tag.to_string(),
        html_url: format!("https://github.com/DemonZ-Development/Monoryx/releases/tag/{tag}"),
        body: None,
        published_at: None,
        assets: assets
            .into_iter()
            .map(|(n, u)| GithubAsset { name: n.to_string(), browser_download_url: u.to_string() })
            .collect(),
    }
}

#[test]
fn parse_release_json_with_update() {
    let mut rel = release(
        "v1.2.0",
        vec![(
            "monoryx-installer.exe",
            "https://github.com/DemonZDevelopment/monoryx/releases/download/v1.2.0/monoryx-installer.exe",
        )],
    );
    rel.html_url = "https://github.com/DemonZDevelopment/monoryx/releases/tag/v1.2.0".to_string();
    rel.body = Some("Major improvements and bug fixes!".to_string());
    rel.published_at = Some("2026-09-22T10:00:00Z".to_string());
    let info = check_launcher_update("0.1.0", ReleaseReply::Release(rel)).unwrap();
    assert_eq!(info.latest_version, "1.2.0");
    assert!(info.has_update);
    assert_eq!(
        info.download_url.as_deref(),
        Some("https://github.com/DemonZDevelopment/monoryx/releases/download/v1.2.0/monoryx-installer.exe")
    );
    assert_eq!(info.release_notes, "Major improvements and bug fixes!");
    assert_eq!(info.published_at.as_deref(), Some("2026-09-22T10:00:00Z"));
}

#[test]
fn semver_comparison_logic() {
    let newer = |tag: &str| check_launcher_update("0.1.0", ReleaseReply::Release(release(tag, vec![]))).unwrap().has_update;
    assert!(newer("0.2.0"));
    assert!(newer("0.1.1"));
    assert!(!newer("0.0.9"));
    assert!(!newer("0.1.0"));
}

#[test]
fn parse_release_without_v_prefix_and_older_version() {
    let info = check_launcher_update("0.1.0", ReleaseReply::Release(release("0.0.5", vec![]))).unwrap();
    assert_eq!(info.latest_version, "0.0.5");
    assert!(!info.has_update);
    assert_eq!(info.release_notes, "No release notes provided for this update.");
    assert_eq!(info.download_url.as_deref(), Some("https://github.com/DemonZ-Development/Monoryx/releases/tag/0.0.5"));
}

#[test]
fn download_prefers_installer_then_first_asset() {
    let rel = release("v2.0.0", vec![("notes.txt", "u1"), ("Monoryx.MSI", "u2"), ("b.zip", "u3")]);
    let info = check_launcher_update("1.0.0", ReleaseReply::Release(rel)).unwrap();
    assert_eq!(info.download_url.as_deref(), Some("u2"));
    let rel = release("v2.0.0", vec![("notes.txt", "u1"), ("sig.asc", "u2")]);
    let info = check_launcher_update("1.0.0", ReleaseReply::Release(rel)).unwrap();
    assert_eq!(info.download_url.as_deref(), Some("u1"));
}

#[test]
fn replies_other_than_a_release() {
    let info = check_launcher_update("1.0.0", ReleaseReply::Status(404, "404 Not Found".into())).unwrap();
    assert!(!info.has_update);
    assert_eq!(info.latest_version, "1.0.0");
    assert_eq!(info.release_notes, "You are running the latest version of MONORYX.");
    assert_eq!(
        check_launcher_update("1.0.0", ReleaseReply::Status(429, "429 Too Many Requests".into())).unwrap_err(),
        "GitHub API rate limit reached. Please try checking again in a few minutes."
    );
    assert_eq!(
        check_launcher_update("1.0.0", ReleaseReply::Status(500, "500 Internal Server Error".into())).unwrap_err(),
        "Update server responded with status: 500 Internal Server Error"
    );
    assert_eq!(
        check_launcher_update("1.0.0", ReleaseReply::Unreachable("dns".into())).unwrap_err(),
        "Failed to reach update server: dns"
    );
    assert_eq!(
        check_launcher_update("1.0.0", ReleaseReply::Malformed("eof".into())).unwrap_err(),
        "Failed to parse release metadata: eof"
    );
    let err = check_launcher_update("1.0.0", ReleaseReply::Release(release(" vX ", vec![]))).unwrap_err();
    assert!(err.starts_with("Invalid remote version tag 'vX': "));
    let err = check_launcher_update("one", ReleaseReply::Status(404, String::new())).unwrap_err();
    assert!(err.starts_with("Invalid current version 'one': "));
}
