//! Verified core of the LEAP server and its web front ends.
//!
//! The modules hold the decisions and data conversions of the LEAP
//! platform, each with a contract proved by Verus:
//!
//! - [`models`]: the database rows of the video table and how a row is
//!   decoded into a [`models::Video`] and its [`models::DownloadStatus`].
//! - [`build_info`]: the build metadata of the server binary.
//! - [`backend`]: the file backend of the downloader: where a resource lives
//!   under the base directory, and how read buffers become data chunks.
//! - [`timesync`]: the decisions of the NTP time synchronisation check.
//! - [`event_handler`]: the decisions of the content state event loop.
//! - [`provision_site`]: routing and redirection of the provisioning site.
//! - [`site`]: routing and content state of the main site.
//! - [`sw_update`]: the state machine of software updates of a device.
use vstd::prelude::*;

pub mod backend;
pub mod build_info;
pub mod event_handler;
pub mod models;
pub mod provision_site;
pub mod site;
pub mod sw_update;
pub mod timesync;

verus! {

} // verus!
