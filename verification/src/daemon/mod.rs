//! The daemon's own decisions: when its command listener stops.

use vstd::prelude::*;

use crate::command::state::AppState;
use crate::utils::error::AppError;

verus! {

/// The daemon's report: one entry per monitor name.
#[derive(Debug)]
pub struct WallthiStatus {
    // key: monitor name
    // value: current information about the wallpaper
    // if there's mismatch between this and `swww query` then swww takes priority
    // on correctness
    pub _current_wallpapers: Vec<(String, MonitorStatus)>,
}

/// What one monitor currently shows.
#[derive(Debug)]
pub struct MonitorStatus {
    pub _path: Option<String>,
    pub _remaining_duration: u64,
}

/// Whether a status can be obtained without a running daemon to ask. It
/// cannot: the status is only known to the daemon, which answers a `Status`
/// command with it.
pub open spec fn status_available_offline() -> bool {
    false
}

/// The status of the daemon, obtained without asking it.
///
/// This is not available: no call of it is admitted, and no result is
/// promised.
pub fn daemon_status() -> (r: Result<WallthiStatus, AppError>)
    requires
        status_available_offline(),
{
    Err(AppError::General)
}

/// After a command has been handled: whether the listener stops accepting
/// connections, which it does once the daemon was told to quit.
pub fn stops_listening(state: &AppState) -> (r: bool)
    ensures
        r == state.should_exit,
{
    state.should_exit
}

} // verus!
