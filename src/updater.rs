//! The decisions of the version updater: when to check, when to retry and
//! what to publish. Whoever runs it keeps the timers, performs the download
//! and hands each outcome back; times are milliseconds on a monotonic clock.
use crate::version::AppVersion;
use crate::version_check::{
    is_dev_build_spec, response_to_version_info, version_info_of, AppVersionInfo,
    AppVersionResponse,
};
use vstd::prelude::*;

verus! {

/// Longest time one download may take.
pub const DOWNLOAD_TIMEOUT_MS: u64 = 15_000;

/// How often the updater wakes up to see whether a check is due. Waking up
/// often, rather than sleeping for a whole interval, keeps a suspended host
/// from pushing the next check back by the time it spent asleep.
pub const UPDATE_CHECK_INTERVAL_MS: u64 = 300_000;

/// Time from a successful check to the next one.
pub const UPDATE_INTERVAL_MS: u64 = 86_400_000;

/// Time from a failed download to the next attempt.
pub const UPDATE_INTERVAL_ERROR_MS: u64 = 21_600_000;

/// What the runner of the updater is to do next.
#[derive(Debug, Clone, Copy, PartialEq, Eq, Structural)]
pub enum UpdaterAction {
    /// Nothing: wait for the next event.
    Idle,
    /// Stop the updater.
    Exit,
    /// Arm the check timer, to fire after `UPDATE_CHECK_INTERVAL_MS`.
    ArmCheckTimer,
    /// Start a download of the version info.
    StartDownload,
    /// Try the download again after this many milliseconds.
    RetryDownloadAfter(u64),
    /// Send `last_app_version_info` to the daemon and, where that succeeds,
    /// write it to the cache; then arm the check timer.
    Publish,
}

/// The state of the version updater.
pub struct VersionUpdater {
    current_version: Option<AppVersion>,
    last_app_version_info: AppVersionInfo,
    next_update_time: u64,
    show_beta_releases: bool,
    downloading: bool,
}

pub open spec fn saturating_add(a: u64, b: u64) -> u64 {
    if a + b > u64::MAX {
        u64::MAX
    } else {
        (a + b) as u64
    }
}

impl VersionUpdater {
    pub closed spec fn current_version_spec(&self) -> Option<AppVersion> {
        self.current_version
    }

    pub closed spec fn last_info_spec(&self) -> AppVersionInfo {
        self.last_app_version_info
    }

    pub closed spec fn next_update_time_spec(&self) -> u64 {
        self.next_update_time
    }

    pub closed spec fn show_beta_spec(&self) -> bool {
        self.show_beta_releases
    }

    pub closed spec fn downloading_spec(&self) -> bool {
        self.downloading
    }

    pub open spec fn is_dev_build_spec(&self) -> bool {
        self.current_version_spec() is None
    }

    /// An updater for `product_version`, started at `now`, which knows
    /// `last_app_version_info`; the first check is due at once.
    pub fn new(
        product_version: &str,
        last_app_version_info: AppVersionInfo,
        show_beta_releases: bool,
        now: u64,
    ) -> (r: VersionUpdater)
        ensures
            r.current_version_spec() == crate::version::parse_version(product_version@),
            r.is_dev_build_spec() == is_dev_build_spec(product_version@),
            r.last_info_spec() == last_app_version_info,
            r.next_update_time_spec() == now,
            r.show_beta_spec() == show_beta_releases,
            !r.downloading_spec(),
    {
        VersionUpdater {
            current_version: AppVersion::from_str(product_version),
            last_app_version_info,
            next_update_time: now,
            show_beta_releases,
            downloading: false,
        }
    }

    /// Whether this is a development build, which never checks.
    pub fn is_dev_build(&self) -> (r: bool)
        ensures
            r == self.is_dev_build_spec(),
    {
        self.current_version.is_none()
    }

    /// The last version info that was published or loaded.
    pub fn last_app_version_info(&self) -> (r: &AppVersionInfo)
        ensures
            *r == self.last_info_spec(),
    {
        &self.last_app_version_info
    }

    /// The first action: a development build waits for its control channel
    /// to close; any other build arms the check timer.
    pub fn start(&self) -> (r: UpdaterAction)
        ensures
            r == (if self.is_dev_build_spec() {
                UpdaterAction::Idle
            } else {
                UpdaterAction::ArmCheckTimer
            }),
    {
        if self.is_dev_build() {
            UpdaterAction::Idle
        } else {
            UpdaterAction::ArmCheckTimer
        }
    }

    /// The user changed whether beta releases are of interest.
    pub fn set_show_beta_releases(&mut self, show_beta_releases: bool) -> (r: UpdaterAction)
        ensures
            r == UpdaterAction::Idle,
            final(self).show_beta_spec() == show_beta_releases,
            final(self).current_version_spec() == old(self).current_version_spec(),
            final(self).last_info_spec() == old(self).last_info_spec(),
            final(self).next_update_time_spec() == old(self).next_update_time_spec(),
            final(self).downloading_spec() == old(self).downloading_spec(),
    {
        self.show_beta_releases = show_beta_releases;
        UpdaterAction::Idle
    }

    /// The control channel closed: the updater is done.
    pub fn control_closed(&self) -> (r: UpdaterAction)
        ensures
            r == UpdaterAction::Exit,
    {
        UpdaterAction::Exit
    }

    /// The check timer fired at `now`; `daemon_gone` says whether the control
    /// channel or the daemon's event channel has closed. A download starts
    /// where one is due and none is running; a development build never
    /// starts one.
    pub fn check_timer_fired(&mut self, now: u64, daemon_gone: bool) -> (r: UpdaterAction)
        ensures
            final(self).current_version_spec() == old(self).current_version_spec(),
            final(self).last_info_spec() == old(self).last_info_spec(),
            final(self).next_update_time_spec() == old(self).next_update_time_spec(),
            final(self).show_beta_spec() == old(self).show_beta_spec(),
            r == (if daemon_gone {
                UpdaterAction::Exit
            } else if old(self).is_dev_build_spec() || old(self).downloading_spec() {
                UpdaterAction::Idle
            } else if now > old(self).next_update_time_spec() {
                UpdaterAction::StartDownload
            } else {
                UpdaterAction::ArmCheckTimer
            }),
            final(self).downloading_spec() == (old(self).downloading_spec() || r
                == UpdaterAction::StartDownload),
    {
        if daemon_gone {
            UpdaterAction::Exit
        } else if self.is_dev_build() || self.downloading {
            UpdaterAction::Idle
        } else if now > self.next_update_time {
            self.downloading = true;
            UpdaterAction::StartDownload
        } else {
            UpdaterAction::ArmCheckTimer
        }
    }

    /// A download attempt failed: it is tried again after
    /// `UPDATE_INTERVAL_ERROR_MS`, and the download stays in progress.
    pub fn download_failed(&self) -> (r: UpdaterAction)
        ensures
            r == UpdaterAction::RetryDownloadAfter(UPDATE_INTERVAL_ERROR_MS),
    {
        UpdaterAction::RetryDownloadAfter(UPDATE_INTERVAL_ERROR_MS)
    }

    /// A download finished at `now` with `response`. Unless the daemon is
    /// gone, the next check is due `UPDATE_INTERVAL_MS` later and the info
    /// made of the response is published.
    pub fn download_succeeded(
        &mut self,
        now: u64,
        response: AppVersionResponse,
        daemon_gone: bool,
    ) -> (r: UpdaterAction)
        ensures
            final(self).current_version_spec() == old(self).current_version_spec(),
            final(self).show_beta_spec() == old(self).show_beta_spec(),
            !final(self).downloading_spec(),
            daemon_gone ==> r == UpdaterAction::Exit && final(self).last_info_spec() == old(
                self,
            ).last_info_spec() && final(self).next_update_time_spec()
                == old(self).next_update_time_spec(),
            !daemon_gone ==> r == UpdaterAction::Publish && final(self).last_info_spec()@
                == version_info_of(
                response,
                old(self).current_version_spec(),
                old(self).show_beta_spec(),
            ) && final(self).next_update_time_spec() == saturating_add(now, UPDATE_INTERVAL_MS),
    {
        self.downloading = false;
        if daemon_gone {
            return UpdaterAction::Exit;
        }
        self.next_update_time = now.saturating_add(UPDATE_INTERVAL_MS);
        self.last_app_version_info = response_to_version_info(
            response,
            self.current_version,
            self.show_beta_releases,
        );
        UpdaterAction::Publish
    }
}

} // verus!
