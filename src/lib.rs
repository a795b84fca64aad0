//! Verified core of a VPN daemon: version checking, the update scheduler,
//! the service lifecycle rules, the tunnel session supervisor and the
//! route manager.
pub mod version;
pub mod version_check;
pub mod updater;
pub mod service;
pub mod tunnel;
pub mod routing;
pub mod cli;
