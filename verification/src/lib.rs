//! Host and container performance watchdog: samples host and per-container
//! resource usage, evaluates them against configured thresholds, composes
//! alert messages (plain text and HTML) and decides their dispatch through
//! a mail transport.
//!
//! Percentages are held as integers in hundredths of a percent
//! (8000 means 80.00%), so every comparison and rendering is exact.

pub mod clock;
pub mod config;
pub mod docker_monitor;
pub mod email_notifier;
pub mod monitor;
pub mod numfmt;
pub mod server_monitor;

use vstd::prelude::*;

verus! {

/// Fixed secondary container filter (50.00%): which containers are listed
/// alongside a host-CPU alert. Distinct from the configurable alert threshold.
pub const SECONDARY_CONTAINER_THRESHOLD_CENTI: u64 = 5000;

} // verus!
