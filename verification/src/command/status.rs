//! A status report of the daemon, as the client asks for it.

use vstd::prelude::*;

use crate::utils::error::AppError;

verus! {

/// The daemon's report: one entry per monitor name.
#[derive(Debug)]
pub struct WallthiStatus {
    // key: monitor name
    // value: current information about the wallpaper
    pub current_wallpapers: Vec<(String, MonitorStatus)>,
}

/// What one monitor currently shows.
#[derive(Debug)]
pub struct MonitorStatus {
    pub path: Option<String>,
    pub remaining_duration: u64,
}

/// Whether a status can be obtained without a running daemon to ask. It
/// cannot: the status is only known to the daemon, which answers a `Status`
/// command with it.
pub open spec fn status_available_offline() -> bool {
    false
}

/// The status of the daemon, obtained without asking it.
///
/// This is not available: no call of it is admitted, and no result is
/// promised.
pub fn daemon_status() -> (r: Result<WallthiStatus, AppError>)
    requires
        status_available_offline(),
{
    Err(AppError::General)
}

} // verus!
