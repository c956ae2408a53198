use teams_presence_bridge::updater::{
    check_updates, firmware_file_name, parse_tag_to_semver, release_info_from, uuid_like_random, GithubAsset,
    GithubRelease, SemVer,
};

fn release(tag: &str, assets: &[(&str, &str)]) -> GithubRelease {
    GithubRelease {
        tag_name: tag.to_string(),
        html_url: "https://example.org/release".to_string(),
        assets: assets
            .iter()
            .map(|(n, u)| GithubAsset { name: n.to_string(), browser_download_url: u.to_string() })
            .collect(),
    }
}

#[test]
fn tags_with_and_without_v() {
    let v = parse_tag_to_semver("v1.2.3").unwrap();
    assert_eq!(v.to_text(), parse_tag_to_semver("1.2.3").unwrap().to_text());
    assert_eq!((v.major(), v.minor(), v.patch()), (1, 2, 3));
    let v = parse_tag_to_semver("0.10.0-rc.1+build.5").unwrap();
    assert_eq!((v.major(), v.minor(), v.patch()), (0, 10, 0));
    assert_eq!(v.pre(), "rc.1");
    assert_eq!(v.build(), "build.5");
    assert_eq!(v.to_text(), "0.10.0-rc.1+build.5");
    assert!(parse_tag_to_semver("release-1").is_err());
    assert!(parse_tag_to_semver("vv1.2.3").is_err());
    assert!(parse_tag_to_semver("").is_err());
}

#[test]
fn release_info_picks_assets() {
    let r = release("v2.0.1", &[
        ("notes.txt", "u0"),
        ("firmware.bin", "u1"),
        ("TeamsPresenceBridge.exe", "u2"),
    ]);
    let info = release_info_from(r).unwrap();
    assert_eq!(info.version.to_text(), "2.0.1");
    assert_eq!(info.firmware_download_url.as_deref(), Some("u1"));
    assert_eq!(info.bridge_download_url.as_deref(), Some("u2"));
    assert_eq!(info.html_url, "https://example.org/release");
    let none = release_info_from(release("1.0.0", &[])).unwrap();
    assert!(none.firmware_download_url.is_none() && none.bridge_download_url.is_none());
    assert!(release_info_from(release("latest", &[])).is_err());
}

#[test]
fn updates_are_offered_for_newer_releases() {
    let latest = release_info_from(release("v1.3.0", &[("firmware.bin", "fw")])).unwrap();
    let old_bridge = SemVer::parse("1.2.9").unwrap();
    let same = SemVer::parse("1.3.0").unwrap();
    let fw_old = SemVer::from_firmware((1, 0, 5)).unwrap();
    let r = check_updates(&old_bridge, Some(&fw_old), &latest);
    assert!(r.bridge_update_available && r.firmware_update_available);
    assert_eq!(r.latest.version.to_text(), "1.3.0");
    let r = check_updates(&same, None, &latest);
    assert!(!r.bridge_update_available && !r.firmware_update_available);
    let newer = SemVer::parse("2.0.0").unwrap();
    let r = check_updates(&newer, Some(&newer), &latest);
    assert!(!r.bridge_update_available && !r.firmware_update_available);
}

#[test]
fn semver_ordering_of_prereleases() {
    let rc = SemVer::parse("1.0.0-rc.1").unwrap();
    let rel = SemVer::parse("1.0.0").unwrap();
    assert!(rel.is_newer_than(&rc));
    assert!(!rc.is_newer_than(&rel));
    let a = SemVer::parse("1.0.0-alpha.10").unwrap();
    let b = SemVer::parse("1.0.0-alpha.9").unwrap();
    assert!(a.is_newer_than(&b));
    assert!(!rel.is_newer_than(&rel.clone()));
}

#[test]
fn firmware_versions_parse_as_releases() {
    let v = SemVer::from_firmware((255, 0, 7)).unwrap();
    assert_eq!((v.major(), v.minor(), v.patch()), (255, 0, 7));
    assert_eq!(v.pre(), "");
    assert_eq!(v.to_text(), "255.0.7");
}

#[test]
fn firmware_file_names() {
    assert_eq!(firmware_file_name(0), "teams_presence_fw_0.bin");
    assert_eq!(firmware_file_name(4294967295), "teams_presence_fw_4294967295.bin");
    assert_eq!(uuid_like_random(None), 12345);
    assert_eq!(uuid_like_random(Some(7)), 7);
    assert_eq!(uuid_like_random(Some(0x1_0000_0005)), 5);
}

#[test]
fn release_info_clone_is_equal() {
    let info = release_info_from(release("v3.1.4", &[("firmware.bin", "x")])).unwrap();
    let c = info.clone();
    assert_eq!(c.version.to_text(), "3.1.4");
    assert_eq!(c.firmware_download_url.as_deref(), Some("x"));
}
