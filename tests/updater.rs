use mullvad_daemon_core::cli::Connect;
use mullvad_daemon_core::updater::{
    UpdaterAction, VersionUpdater, UPDATE_INTERVAL_ERROR_MS, UPDATE_INTERVAL_MS,
};
use mullvad_daemon_core::version_check::{AppVersionInfo, AppVersionResponse};

fn info() -> AppVersionInfo {
    AppVersionInfo {
        supported: true,
        latest_stable: "2020.3".to_owned(),
        latest_beta: "2020.3".to_owned(),
        suggested_upgrade: None,
    }
}

fn response() -> AppVersionResponse {
    AppVersionResponse {
        supported: true,
        latest: "2020.5-beta3".to_owned(),
        latest_stable: Some("2020.4".to_owned()),
        latest_beta: "2020.5-beta3".to_owned(),
    }
}

#[test]
fn release_build_checks_and_publishes() {
    let mut updater = VersionUpdater::new("2020.3", info(), false, 1_000);
    assert!(!updater.is_dev_build());
    assert_eq!(updater.start(), UpdaterAction::ArmCheckTimer);
    assert_eq!(updater.check_timer_fired(1_000, false), UpdaterAction::ArmCheckTimer);
    assert_eq!(updater.check_timer_fired(1_001, false), UpdaterAction::StartDownload);
    // While the download runs, no second one starts.
    assert_eq!(updater.check_timer_fired(2_000, false), UpdaterAction::Idle);
    assert_eq!(
        updater.download_failed(),
        UpdaterAction::RetryDownloadAfter(UPDATE_INTERVAL_ERROR_MS)
    );
    assert_eq!(updater.download_succeeded(5_000, response(), false), UpdaterAction::Publish);
    assert_eq!(
        updater.last_app_version_info().suggested_upgrade,
        Some("2020.4".to_owned())
    );
    assert_eq!(
        updater.check_timer_fired(5_000 + UPDATE_INTERVAL_MS, false),
        UpdaterAction::ArmCheckTimer
    );
    assert_eq!(
        updater.check_timer_fired(5_001 + UPDATE_INTERVAL_MS, false),
        UpdaterAction::StartDownload
    );
}

#[test]
fn beta_setting_changes_suggestion() {
    let mut updater = VersionUpdater::new("2020.3", info(), false, 0);
    assert_eq!(updater.set_show_beta_releases(true), UpdaterAction::Idle);
    assert_eq!(updater.check_timer_fired(1, false), UpdaterAction::StartDownload);
    assert_eq!(updater.download_succeeded(2, response(), false), UpdaterAction::Publish);
    assert_eq!(
        updater.last_app_version_info().suggested_upgrade,
        Some("2020.5-beta3".to_owned())
    );
}

#[test]
fn dev_build_never_checks() {
    let mut updater = VersionUpdater::new("2020.3-dev-f16be4", info(), false, 0);
    assert!(updater.is_dev_build());
    assert_eq!(updater.start(), UpdaterAction::Idle);
    assert_eq!(updater.check_timer_fired(u64::MAX, false), UpdaterAction::Idle);
    assert_eq!(updater.control_closed(), UpdaterAction::Exit);
}

#[test]
fn updater_exits_when_daemon_is_gone() {
    let mut updater = VersionUpdater::new("2020.3", info(), false, 0);
    assert_eq!(updater.check_timer_fired(10, true), UpdaterAction::Exit);
    assert_eq!(updater.check_timer_fired(10, false), UpdaterAction::StartDownload);
    assert_eq!(updater.download_succeeded(20, response(), true), UpdaterAction::Exit);
    assert_eq!(updater.last_app_version_info(), &info());
}

#[test]
fn connect_command_name() {
    let connect = Connect;
    assert_eq!(connect.name(), "connect");
    assert_eq!(connect.about(), "Command the client to start establishing a VPN tunnel");
}
