use mullvad_daemon_core::version::AppVersion;
use mullvad_daemon_core::version_check::{
    is_dev_build, load_cache, response_to_version_info, suggested_upgrade, validate_cache,
    AppVersionInfo, AppVersionResponse, CachedAppVersionInfo, Error,
};
use std::cmp::Ordering;

fn is_stable(s: &str) -> bool {
    matches!(AppVersion::from_str(s), Some(AppVersion::Stable(..)))
}

fn is_beta(s: &str) -> bool {
    matches!(AppVersion::from_str(s), Some(AppVersion::Beta(..)))
}

#[test]
fn test_version_regex() {
    assert!(is_stable("2020.4"));
    assert!(!is_stable("2020.4-beta3"));
    assert!(is_beta("2020.4-beta3"));
    assert!(!is_stable("2020.5-beta1-dev-f16be4"));
    assert!(!is_stable("2020.5-dev-f16be4"));
    assert!(!is_beta("2020.5-beta1-dev-f16be4"));
    assert!(!is_beta("2020.5-dev-f16be4"));
    assert!(!is_beta("2020.4"));
}

#[test]
fn test_version_parsing() {
    let tests = vec![
        ("2020.4", Some(AppVersion::Stable(2020, 4))),
        ("2020.4-beta3", Some(AppVersion::Beta(2020, 4, 3))),
        ("2020.15-beta1-dev-f16be4", None),
        ("2020.15-dev-f16be4", None),
        ("", None),
    ];

    for (input, expected_output) in tests {
        assert_eq!(AppVersion::from_str(&input), expected_output,);
    }
}

#[test]
fn version_parsing_edges() {
    assert_eq!(AppVersion::from_str("2020"), None);
    assert_eq!(AppVersion::from_str("20.4"), None);
    assert_eq!(AppVersion::from_str("2020."), None);
    assert_eq!(AppVersion::from_str("2020.4-beta"), None);
    assert_eq!(AppVersion::from_str("2020.-beta3"), None);
    assert_eq!(AppVersion::from_str("2020.4 "), None);
    assert_eq!(AppVersion::from_str("2020.4\n"), None);
    assert_eq!(AppVersion::from_str("2020.07"), Some(AppVersion::Stable(2020, 7)));
    assert_eq!(
        AppVersion::from_str("2020.4294967295"),
        Some(AppVersion::Stable(2020, 4294967295))
    );
    assert_eq!(AppVersion::from_str("2020.4294967296"), None);
    assert_eq!(AppVersion::from_str("2020.1-beta4294967296"), None);
    assert_eq!(AppVersion::from_str("２０２０.4"), None);
}

#[test]
fn version_text_round_trip() {
    let versions = vec![
        AppVersion::Stable(2020, 4),
        AppVersion::Stable(1000, 0),
        AppVersion::Beta(2020, 5, 3),
        AppVersion::Beta(9999, 4294967295, 4294967295),
    ];
    for v in versions {
        assert_eq!(AppVersion::from_str(&v.to_string()), Some(v));
    }
    assert_eq!(AppVersion::Beta(2021, 10, 2).to_string(), "2021.10-beta2");
    assert_eq!(AppVersion::Stable(2020, 0).to_string(), "2020.0");
}

#[test]
fn version_ordering() {
    assert!(AppVersion::Stable(2020, 4) > AppVersion::Beta(2020, 4, 99));
    assert!(AppVersion::Beta(2020, 4, 3) < AppVersion::Beta(2020, 4, 4));
    assert!(AppVersion::Stable(2021, 1) > AppVersion::Stable(2020, 99));
    assert!(AppVersion::Beta(2020, 5, 1) > AppVersion::Stable(2020, 4));
    assert_eq!(
        AppVersion::Stable(2020, 4).cmp(&AppVersion::Stable(2020, 4)),
        Ordering::Equal
    );
    assert_eq!(
        AppVersion::Beta(2020, 4, 2).cmp(&AppVersion::Stable(2020, 4)),
        Ordering::Less
    );
}

fn response() -> AppVersionResponse {
    AppVersionResponse {
        supported: true,
        latest: "2020.5-beta3".to_owned(),
        latest_stable: Some("2020.4".to_string()),
        latest_beta: "2020.5-beta3".to_string(),
    }
}

#[test]
fn test_version_upgrade_suggestions() {
    let app_version_info = response();

    let older_stable = AppVersion::from_str("2020.3").unwrap();
    let current_stable = AppVersion::from_str("2020.4").unwrap();
    let newer_stable = AppVersion::from_str("2021.5").unwrap();

    let older_beta = AppVersion::from_str("2020.3-beta3").unwrap();
    let current_beta = AppVersion::from_str("2020.5-beta3").unwrap();
    let newer_beta = AppVersion::from_str("2021.5-beta3").unwrap();

    assert_eq!(
        suggested_upgrade(&older_stable, &app_version_info, false),
        Some("2020.4".to_owned())
    );
    assert_eq!(
        suggested_upgrade(&older_stable, &app_version_info, true),
        Some("2020.5-beta3".to_owned())
    );
    assert_eq!(suggested_upgrade(&current_stable, &app_version_info, false), None);
    assert_eq!(
        suggested_upgrade(&current_stable, &app_version_info, true),
        Some("2020.5-beta3".to_owned())
    );
    assert_eq!(suggested_upgrade(&newer_stable, &app_version_info, false), None);
    assert_eq!(suggested_upgrade(&newer_stable, &app_version_info, true), None);
    assert_eq!(
        suggested_upgrade(&older_beta, &app_version_info, false),
        Some("2020.4".to_owned())
    );
    assert_eq!(
        suggested_upgrade(&older_beta, &app_version_info, true),
        Some("2020.5-beta3".to_owned())
    );
    assert_eq!(suggested_upgrade(&current_beta, &app_version_info, false), None);
    assert_eq!(suggested_upgrade(&current_beta, &app_version_info, true), None);
    assert_eq!(suggested_upgrade(&newer_beta, &app_version_info, false), None);
    assert_eq!(suggested_upgrade(&newer_beta, &app_version_info, true), None);
}

#[test]
fn upgrade_without_stable_or_with_unparsable_versions() {
    let mut r = response();
    r.latest_stable = None;
    let current = AppVersion::Stable(2020, 3);
    assert_eq!(suggested_upgrade(&current, &r, false), None);
    assert_eq!(suggested_upgrade(&current, &r, true), Some("2020.5-beta3".to_owned()));
    r.latest_beta = "garbage".to_owned();
    assert_eq!(suggested_upgrade(&current, &r, true), None);
    r.latest_stable = Some("2020.07".to_owned());
    assert_eq!(suggested_upgrade(&current, &r, false), Some("2020.7".to_owned()));
}

#[test]
fn response_becomes_version_info() {
    let info = response_to_version_info(response(), Some(AppVersion::Stable(2020, 3)), false);
    assert_eq!(
        info,
        AppVersionInfo {
            supported: true,
            latest_stable: "2020.4".to_owned(),
            latest_beta: "2020.5-beta3".to_owned(),
            suggested_upgrade: Some("2020.4".to_owned()),
        }
    );
    // A beta build is shown betas whatever the setting.
    let info = response_to_version_info(response(), Some(AppVersion::Beta(2020, 3, 1)), false);
    assert_eq!(info.suggested_upgrade, Some("2020.5-beta3".to_owned()));
    // A development build is suggested nothing.
    let mut r = response();
    r.latest_stable = None;
    let info = response_to_version_info(r, None, true);
    assert_eq!(info.suggested_upgrade, None);
    assert_eq!(info.latest_stable, "");
}

fn cached_info() -> AppVersionInfo {
    AppVersionInfo {
        supported: false,
        latest_stable: "2020.4".to_owned(),
        latest_beta: "2020.5-beta3".to_owned(),
        suggested_upgrade: Some("2020.4".to_owned()),
    }
}

#[test]
fn cache_of_the_same_version_is_used() {
    let cached = CachedAppVersionInfo::from_version_info(cached_info(), "2020.3");
    assert_eq!(cached.cached_from_version, "2020.3");
    assert_eq!(validate_cache(cached.clone(), "2020.3"), Ok(cached_info()));
    assert_eq!(load_cache(Ok(cached), "2020.3"), cached_info());
}

#[test]
fn cache_mismatch() {
    let cached = CachedAppVersionInfo::from_version_info(cached_info(), "2020.2");
    assert_eq!(
        validate_cache(cached.clone(), "2020.3"),
        Err(Error::CacheVersionMismatch)
    );
    let loaded = load_cache(Ok(cached), "2020.3");
    assert_eq!(
        loaded,
        AppVersionInfo {
            supported: false,
            latest_stable: "2020.3".to_owned(),
            latest_beta: "2020.3".to_owned(),
            suggested_upgrade: None,
        }
    );
}

#[test]
fn unreadable_cache_gives_defaults() {
    let loaded = load_cache(Err(Error::ReadVersionCache("no such file".to_owned())), "2020.3-dev-abc");
    assert_eq!(
        loaded,
        AppVersionInfo {
            supported: true,
            latest_stable: "2020.3-dev-abc".to_owned(),
            latest_beta: "2020.3-dev-abc".to_owned(),
            suggested_upgrade: None,
        }
    );
    assert!(is_dev_build("2020.3-dev-abc"));
    assert!(!is_dev_build("2020.3"));
    assert!(!is_dev_build("2020.3-beta1"));
}
