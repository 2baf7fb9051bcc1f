use kode::updates::{
    check_manifest, has_updater_assets, newer_release, newest_release, page_decision,
    release_for_check, release_manifest_endpoint, select_update, Asset, PageNext, Release,
    UpdateSelection,
};
use kode::version::ReleaseVersion as Version;

/// The architecture the updater archive is named for in these cases.
const ARCH: &str = "x86_64";

fn release(tag: &str, prerelease: bool, draft: bool) -> Release {
    Release {
        tag_name: tag.into(),
        prerelease,
        draft,
        assets: Vec::new(),
    }
}

#[test]
fn channels_use_semver_and_exclude_drafts() {
    let releases = vec![
        release("v0.3.2", false, false),
        release("v0.3.10", false, false),
        release("v0.4.0-beta.2", true, false),
        release("v0.4.0-beta.10", true, false),
        release("v9.0.0", false, true),
        release("not-semver", false, false),
    ];
    assert_eq!(
        newest_release(&releases, false).unwrap().1.to_string(),
        "0.3.10"
    );
    assert_eq!(
        newest_release(&releases, true).unwrap().1.to_string(),
        "0.4.0-beta.10"
    );
}

#[test]
fn stable_rejects_both_kinds_of_prerelease_marker() {
    let releases = vec![
        release("v0.3.0", true, false),
        release("v0.4.0-beta.1", false, false),
    ];
    assert!(newest_release(&releases, false).is_none());
}

#[test]
fn beta_graduates_to_stable() {
    let releases = vec![
        release("v0.4.0-beta.10", true, false),
        release("v0.4.0", false, false),
    ];
    assert_eq!(
        newest_release(&releases, true).unwrap().1.to_string(),
        "0.4.0"
    );
}

#[test]
fn switching_channels_never_downgrades_or_reinstalls() {
    let stable = vec![release("v0.3.0", false, false)];
    assert!(newer_release(&stable, false, &Version::parse("0.4.0-beta.1").unwrap()).is_none());
    assert!(newer_release(&stable, true, &Version::parse("0.3.0+local").unwrap()).is_none());
    let old_alpha = vec![release("v0.2.2-alpha.2", true, false)];
    assert!(newer_release(&old_alpha, true, &Version::parse("0.2.2-dev").unwrap()).is_none());
}

#[test]
fn debug_allows_reinstall_and_downgrade_but_preserves_channel() {
    let releases = vec![
        release("v0.3.0", false, false),
        release("v0.4.0-beta.1", true, false),
        release("v9.0.0", false, true),
    ];
    for current in ["0.3.0", "0.5.0"] {
        let current = Version::parse(current).unwrap();
        assert!(release_for_check(&releases, false, &current, false).is_none());
        assert_eq!(
            release_for_check(&releases, false, &current, true)
                .unwrap()
                .1
                .to_string(),
            "0.3.0"
        );
        assert_eq!(
            release_for_check(&releases, true, &current, true)
                .unwrap()
                .1
                .to_string(),
            "0.4.0-beta.1"
        );
    }
}

#[test]
fn updater_requires_manifest_archive_and_signature() {
    let mut r = release("v0.4.0-beta.1", true, false);
    let v = Version::parse("0.4.0-beta.1").unwrap();
    assert!(!has_updater_assets(&r, &v, ARCH));
    let archive = format!("kode_{}_{}.app.tar.gz", v.to_string(), ARCH);
    for name in [
        "latest.json".to_owned(),
        archive.clone(),
        format!("{archive}.sig"),
    ] {
        r.assets.push(Asset {
            name,
            state: "uploaded".into(),
            size: 1,
        });
    }
    assert!(has_updater_assets(&r, &v, ARCH));
    r.assets[2].state = "starter".into();
    assert!(!has_updater_assets(&r, &v, ARCH));
    r.assets[2].state = "uploaded".into();
    r.assets[2].size = 0;
    assert!(!has_updater_assets(&r, &v, ARCH));
}

// ---------------------------------------------------------------- more cases

#[test]
fn versions_display_as_semver_does() {
    for text in ["0.3.10", "1.2.3-beta.10", "0.3.0+local", "10.20.30-rc.1+build.5", "0.0.0"] {
        let mine = Version::parse(text).unwrap();
        let theirs = semver::Version::parse(text).unwrap();
        assert_eq!(mine.to_string(), theirs.to_string());
        assert_eq!(mine.is_prerelease(), !theirs.pre.is_empty());
    }
    assert!(Version::parse("v1.0.0").is_none());
    assert!(Version::parse("1.0").is_none());
}

#[test]
fn leading_vs_are_all_stripped_and_equal_versions_pick_the_last() {
    let releases = vec![release("vv1.0.0", false, false), release("1.0.0+b", false, false)];
    let (picked, v) = newest_release(&releases, false).unwrap();
    assert_eq!(picked.tag_name, "1.0.0+b");
    assert_eq!(v.to_string(), "1.0.0+b");
    let releases = vec![release("v1.0.0", false, false), release("v0.9.0", false, false)];
    assert_eq!(newest_release(&releases, false).unwrap().0.tag_name, "v1.0.0");
}

#[test]
fn prerelease_ordering_is_semvers() {
    let releases = vec![
        release("v1.0.0-alpha.beta", true, false),
        release("v1.0.0-alpha.1", true, false),
        release("v1.0.0-rc.1", true, false),
        release("v1.0.0-beta.11", true, false),
    ];
    assert_eq!(newest_release(&releases, true).unwrap().1.to_string(), "1.0.0-rc.1");
    let current = Version::parse("1.0.0-rc.1").unwrap();
    assert!(newer_release(&releases, true, &current).is_none());
    let current = Version::parse("1.0.0-beta.2").unwrap();
    assert_eq!(newer_release(&releases, true, &current).unwrap().0.tag_name, "v1.0.0-rc.1");
}

#[test]
fn beta_offers_whenever_stable_does() {
    let releases = vec![release("v0.1.0", false, false), release("v0.2.0-x", true, false)];
    assert!(newest_release(&releases, false).is_some());
    assert!(newest_release(&releases, true).is_some());
}

#[test]
fn pages_stop_when_short_and_refuse_too_many() {
    assert!(matches!(page_decision(1, 99), PageNext::Complete));
    assert!(matches!(page_decision(1, 100), PageNext::NextPage));
    assert!(matches!(page_decision(9, 100), PageNext::NextPage));
    match page_decision(10, 100) {
        PageNext::TooMany(m) => assert_eq!(m, "Too many releases to select an update safely"),
        _ => panic!("expected a refusal"),
    }
    assert!(matches!(page_decision(10, 0), PageNext::Complete));
}

#[test]
fn selection_distinguishes_pending_from_up_to_date() {
    let current = Version::parse("0.3.0").unwrap();
    let mut releases = vec![release("v0.4.0", false, false)];
    match select_update(&releases, false, &current, false, "aarch64") {
        UpdateSelection::Pending(v) => assert_eq!(v, "0.4.0"),
        _ => panic!("expected a pending release"),
    }
    for name in ["latest.json", "kode_0.4.0_aarch64.app.tar.gz", "kode_0.4.0_aarch64.app.tar.gz.sig"] {
        releases[0].assets.push(Asset { name: name.into(), state: "uploaded".into(), size: 9 });
    }
    match select_update(&releases, false, &current, false, "aarch64") {
        UpdateSelection::Ready { tag, version } => {
            assert_eq!(tag, "v0.4.0");
            assert_eq!(version.to_string(), "0.4.0");
        }
        _ => panic!("expected a ready release"),
    }
    assert!(matches!(
        select_update(&releases, false, &Version::parse("0.4.0").unwrap(), false, "aarch64"),
        UpdateSelection::UpToDate
    ));
}

#[test]
fn manifest_must_match_the_tag() {
    let v = Version::parse("0.4.0-beta.1").unwrap();
    assert!(check_manifest(Some("0.4.0-beta.1"), &v).is_ok());
    assert_eq!(
        check_manifest(Some("0.4.0"), &v).unwrap_err(),
        "Release tag and update manifest versions do not match"
    );
    assert_eq!(
        check_manifest(None, &v).unwrap_err(),
        "Release manifest does not advertise the selected update"
    );
}

#[test]
fn manifest_endpoint_appends_tag_and_file() {
    let url = release_manifest_endpoint("v0.4.0").unwrap();
    assert_eq!(
        url,
        "https://github.com/TencentYoutuResearch/Palm-Tools/releases/download/v0.4.0/latest.json"
    );
}

#[test]
fn dev_build_ranks_above_its_alpha() {
    // The release notes: `0.2.2-dev` ranks above `0.2.2-alpha.2`, so a newer
    // version such as `0.2.3-beta.1` is needed for a normal update.
    let releases = vec![release("v0.2.2-alpha.2", true, false), release("v0.2.3-beta.1", true, false)];
    let current = Version::parse("0.2.2-dev").unwrap();
    assert_eq!(newer_release(&releases, true, &current).unwrap().0.tag_name, "v0.2.3-beta.1");
    let only_alpha = vec![release("v0.2.2-alpha.2", true, false)];
    assert!(newer_release(&only_alpha, true, &current).is_none());
}

#[test]
fn prerelease_order_follows_the_documented_example() {
    // alpha < alpha.85 < alpha.90 < alpha.200 < alpha.0a < alpha.1a0 < alpha.a < beta
    let order = ["alpha", "alpha.85", "alpha.90", "alpha.200", "alpha.0a", "alpha.1a0", "alpha.a", "beta"];
    for i in 0..order.len() {
        for j in 0..order.len() {
            let releases = vec![release(&format!("v1.0.0-{}", order[i]), true, false)];
            let current = Version::parse(&format!("1.0.0-{}", order[j])).unwrap();
            assert_eq!(newer_release(&releases, true, &current).is_some(), i > j, "{} vs {}", order[i], order[j]);
        }
    }
}
