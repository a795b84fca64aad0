//! What the version check makes of a server response, and the rules of the
//! on-disk cache of its last result.
use crate::version::{
    parse_version, version_cmp, version_text, AppVersion,
};
use std::cmp::Ordering;
use vstd::prelude::*;

verus! {

/// Why a version check, or the cache of its result, failed. Each variant
/// carries the text of the underlying error, where there is one.
#[derive(Debug, Clone, PartialEq, Eq)]
pub enum Error {
    /// Failed to open the app version cache file for reading.
    ReadVersionCache(String),
    /// Failed to open the app version cache file for writing.
    WriteVersionCache(String),
    /// Failure in serialization of the version info.
    Serialize(String),
    /// Failed to check the latest app version.
    Download(String),
    /// The cache was written by another version of the app.
    CacheVersionMismatch,
}

/// What the version check endpoint answers.
#[derive(Debug, Clone, PartialEq, Eq)]
pub struct AppVersionResponse {
    pub supported: bool,
    pub latest: String,
    pub latest_stable: Option<String>,
    pub latest_beta: String,
}

/// What the daemon knows of the app's versions.
#[derive(Debug, Clone, PartialEq, Eq)]
pub struct AppVersionInfo {
    pub supported: bool,
    pub latest_stable: String,
    pub latest_beta: String,
    pub suggested_upgrade: Option<String>,
}

/// The cached version info, with the product version that wrote it.
#[derive(Debug, Clone, PartialEq, Eq)]
pub struct CachedAppVersionInfo {
    pub version_info: AppVersionInfo,
    pub cached_from_version: String,
}

pub open spec fn text_of(o: Option<String>) -> Option<Seq<char>> {
    match o {
        Some(s) => Some(s@),
        None => None,
    }
}

pub struct AppVersionInfoView {
    pub supported: bool,
    pub latest_stable: Seq<char>,
    pub latest_beta: Seq<char>,
    pub suggested_upgrade: Option<Seq<char>>,
}

impl View for AppVersionInfo {
    type V = AppVersionInfoView;

    open spec fn view(&self) -> AppVersionInfoView {
        AppVersionInfoView {
            supported: self.supported,
            latest_stable: self.latest_stable@,
            latest_beta: self.latest_beta@,
            suggested_upgrade: text_of(self.suggested_upgrade),
        }
    }
}

/// Of two candidates, the later one; of two equal ones, the second.
pub open spec fn later(a: Option<AppVersion>, b: Option<AppVersion>) -> Option<AppVersion> {
    match (a, b) {
        (Some(x), Some(y)) => if version_cmp(x, y) == Ordering::Greater {
            Some(x)
        } else {
            Some(y)
        },
        (Some(x), None) => Some(x),
        (None, y) => y,
    }
}

/// The upgrade to suggest to a user of `current`: the latest of the stable
/// release and, where betas are shown, the beta release, in its textual form,
/// if it is above `current`.
pub open spec fn suggested_upgrade_spec(
    current: AppVersion,
    latest_stable: Option<Seq<char>>,
    latest_beta: Seq<char>,
    show_beta: bool,
) -> Option<Seq<char>> {
    let stable = match latest_stable {
        Some(s) => parse_version(s),
        None => None,
    };
    let beta = if show_beta {
        parse_version(latest_beta)
    } else {
        None
    };
    match later(stable, beta) {
        Some(latest) => if version_cmp(current, latest) == Ordering::Less {
            Some(version_text(latest))
        } else {
            None
        },
        None => None,
    }
}

/// What the daemon learns from a response, for a product version parsed as
/// `current` (`None` for a development build).
pub open spec fn version_info_of(
    response: AppVersionResponse,
    current: Option<AppVersion>,
    show_beta_releases: bool,
) -> AppVersionInfoView {
    AppVersionInfoView {
        supported: response.supported,
        latest_stable: match response.latest_stable {
            Some(s) => s@,
            None => Seq::empty(),
        },
        latest_beta: response.latest_beta@,
        suggested_upgrade: match current {
            Some(c) => suggested_upgrade_spec(
                c,
                text_of(response.latest_stable),
                response.latest_beta@,
                show_beta_releases || c is Beta,
            ),
            None => None,
        },
    }
}

/// A development build is one whose product version is no release version.
pub open spec fn is_dev_build_spec(product_version: Seq<char>) -> bool {
    parse_version(product_version) is None
}

/// What the daemon starts from when no usable cache is there.
pub open spec fn default_info(product_version: Seq<char>) -> AppVersionInfoView {
    AppVersionInfoView {
        supported: is_dev_build_spec(product_version),
        latest_stable: product_version,
        latest_beta: product_version,
        suggested_upgrade: None,
    }
}

fn later_of(a: Option<AppVersion>, b: Option<AppVersion>) -> (r: Option<AppVersion>)
    ensures
        r == later(a, b),
{
    match (a, b) {
        (Some(x), Some(y)) => {
            match x.cmp(&y) {
                Ordering::Greater => Some(x),
                _ => Some(y),
            }
        },
        (Some(x), None) => Some(x),
        (None, y) => y,
    }
}

/// The upgrade to suggest to a user of `current_version`, given a response
/// of the version check.
pub fn suggested_upgrade(
    current_version: &AppVersion,
    response: &AppVersionResponse,
    show_beta: bool,
) -> (r: Option<String>)
    ensures
        text_of(r) == suggested_upgrade_spec(
            *current_version,
            text_of(response.latest_stable),
            response.latest_beta@,
            show_beta,
        ),
{
    let stable_version = match &response.latest_stable {
        Some(stable) => AppVersion::from_str(stable.as_str()),
        None => None,
    };
    let beta_version = if show_beta {
        AppVersion::from_str(response.latest_beta.as_str())
    } else {
        None
    };
    match later_of(stable_version, beta_version) {
        Some(latest) => {
            match current_version.cmp(&latest) {
                Ordering::Less => Some(latest.to_string()),
                _ => None,
            }
        },
        None => None,
    }
}

/// Turns a response of the version check into version info, for a product
/// version parsed as `current` (`None` for a development build).
pub fn response_to_version_info(
    response: AppVersionResponse,
    current: Option<AppVersion>,
    show_beta_releases: bool,
) -> (r: AppVersionInfo)
    ensures
        r@ == version_info_of(response, current, show_beta_releases),
{
    let suggested = match current {
        Some(c) => {
            let is_beta = match c {
                AppVersion::Beta(..) => true,
                AppVersion::Stable(..) => false,
            };
            suggested_upgrade(&c, &response, show_beta_releases || is_beta)
        },
        None => None,
    };
    let latest_stable = match response.latest_stable {
        Some(s) => s,
        None => String::new(),
    };
    AppVersionInfo {
        supported: response.supported,
        latest_stable,
        latest_beta: response.latest_beta,
        suggested_upgrade: suggested,
    }
}

/// Whether `product_version` names a development build, whose updater never
/// contacts the network.
pub fn is_dev_build(product_version: &str) -> (r: bool)
    ensures
        r == is_dev_build_spec(product_version@),
{
    AppVersion::from_str(product_version).is_none()
}

impl CachedAppVersionInfo {
    /// The cache entry for `version_info`, written by `product_version`.
    pub fn from_version_info(version_info: AppVersionInfo, product_version: &str) -> (r:
        CachedAppVersionInfo)
        ensures
            r.version_info == version_info,
            r.cached_from_version@ == product_version@,
    {
        CachedAppVersionInfo { version_info, cached_from_version: product_version.to_owned() }
    }
}

/// Accepts a cache entry only where it was written by `product_version`.
pub fn validate_cache(cached: CachedAppVersionInfo, product_version: &str) -> (r: Result<
    AppVersionInfo,
    Error,
>)
    ensures
        cached.cached_from_version@ == product_version@ ==> r == Ok::<AppVersionInfo, Error>(
            cached.version_info,
        ),
        cached.cached_from_version@ != product_version@ ==> r == Err::<AppVersionInfo, Error>(
            Error::CacheVersionMismatch,
        ),
{
    let current = product_version.to_owned();
    if cached.cached_from_version == current {
        Ok(cached.version_info)
    } else {
        Err(Error::CacheVersionMismatch)
    }
}

/// The version info to start from, given what reading the cache gave: the
/// cached info where it was read and written by `product_version`, else the
/// defaults.
pub fn load_cache(cache: Result<CachedAppVersionInfo, Error>, product_version: &str) -> (r:
    AppVersionInfo)
    ensures
        match cache {
            Ok(cached) => if cached.cached_from_version@ == product_version@ {
                r == cached.version_info
            } else {
                r@ == default_info(product_version@)
            },
            Err(_) => r@ == default_info(product_version@),
        },
{
    let validated = match cache {
        Ok(cached) => validate_cache(cached, product_version),
        Err(e) => Err(e),
    };
    match validated {
        Ok(info) => info,
        Err(_) => AppVersionInfo {
            supported: is_dev_build(product_version),
            latest_stable: product_version.to_owned(),
            latest_beta: product_version.to_owned(),
            suggested_upgrade: None,
        },
    }
}

} // verus!
