//! The daemon's shared state and how commands change it.

use std::sync::Arc;
use std::sync::RwLock;

use vstd::prelude::*;

use super::Commands;
use crate::dot_config::{names_distinct, names_of, DotfileTreeConfig, MonitorConfig};
use crate::utils::error::AppError;

verus! {

/// Flags shared between the command listener and the wallpaper loops.
#[derive(Debug, Clone, Copy)]
pub struct AppState {
    pub is_paused: bool,
    pub should_exit: bool,
}

/// The state after the daemon has handled `cmd` in state `s`.
pub open spec fn next_state(s: AppState, cmd: Commands) -> AppState {
    match cmd {
        Commands::Pause => AppState { is_paused: true, ..s },
        Commands::Resume => AppState { is_paused: false, ..s },
        Commands::Quit => AppState { should_exit: true, ..s },
        Commands::Status => s,
        Commands::Start { .. } => s,
    }
}

impl Default for AppState {
    fn default() -> (r: Self)
        ensures
            !r.is_paused,
            !r.should_exit,
    {
        AppState { is_paused: false, should_exit: false }
    }
}

/// The lock of the standard library that lets several threads share the state.
#[verifier::external_type_specification]
#[verifier::external_body]
#[verifier::reject_recursive_types(T)]
pub struct ExRwLock<T: ?Sized>(RwLock<T>);

/// The state that the lock `l` was created with.
///
/// What the lock holds later depends on the threads that share it and on
/// what they write through it; this name says nothing of that.
pub uninterp spec fn lock_created_with(l: RwLock<AppState>) -> AppState;

/// Calls `std::sync::RwLock::new` on `state`: the new lock is created
/// holding `state`.
#[verifier::external_body]
fn rwlock_new(state: AppState) -> (r: RwLock<AppState>)
    ensures
        lock_created_with(r) == state,
{
    RwLock::new(state)
}

impl AppState {
    /// A state in which the wallpapers rotate and nobody asked to quit.
    pub fn new() -> (r: Self)
        ensures
            !r.is_paused,
            !r.should_exit,
    {
        Self::default()
    }

    /// wraps the app state in an Arc<RwLock<>>, allowing multiple readers in
    /// thread-safe manner
    pub fn arced(self) -> (r: Arc<RwLock<Self>>)
        ensures
            lock_created_with(*r) == self,
    {
        Arc::new(rwlock_new(self))
    }
}

/// The address on which the daemon listens for commands.
pub open spec fn daemon_addr() -> Seq<char> {
    "127.0.0.1:6666"@
}

/// The daemon: its state, its configuration and its address.
///
/// The daemon owns its state; the application shares a copy of it with the
/// wallpaper loops after each command.
#[derive(Debug)]
pub struct WallthiDaemon {
    pub app_state: AppState,
    pub dot_conf: DotfileTreeConfig,
    pub addr: &'static str,
}

/// What one monitor currently shows.
#[derive(Debug)]
pub struct MonitorStatus {
    pub path: Option<String>,
    pub remaining_duration: u64,
}

/// What the daemon reports on a `Status` command: one entry per monitor name.
#[derive(Debug)]
pub struct WallthiStatus {
    // key: monitor name
    // value: current information about the wallpaper
    // if there's mismatch between this and `swww query` then swww takes priority
    // on correctness
    pub current_wallpapers: Vec<(String, MonitorStatus)>,
}

/// The status of a monitor about which nothing is known yet.
pub open spec fn unknown_monitor_status() -> MonitorStatus {
    MonitorStatus { path: None, remaining_duration: 0 }
}

/// The status reported for the configured `monitors`: each name, in order,
/// with a status about which nothing is known yet.
pub open spec fn status_entries(monitors: Seq<(String, MonitorConfig)>) -> Seq<(String, MonitorStatus)> {
    monitors.map_values(|e: (String, MonitorConfig)| (e.0, unknown_monitor_status()))
}

/// Resuming right after a pause gives back a state that was not paused.
pub proof fn law_resume_undoes_pause(s: AppState)
    requires
        !s.is_paused,
    ensures
        next_state(next_state(s, Commands::Pause), Commands::Resume) == s,
{
}

/// Pausing right after a resume gives back a state that was paused.
pub proof fn law_pause_undoes_resume(s: AppState)
    requires
        s.is_paused,
    ensures
        next_state(next_state(s, Commands::Resume), Commands::Pause) == s,
{
}

/// Sending the same command twice has the effect of sending it once.
pub proof fn law_commands_idempotent(s: AppState, cmd: Commands)
    ensures
        next_state(next_state(s, cmd), cmd) == next_state(s, cmd),
{
}

/// Once the daemon was told to quit, no command makes it stay.
pub proof fn law_quit_is_final(s: AppState, cmd: Commands)
    requires
        s.should_exit,
    ensures
        next_state(s, cmd).should_exit,
{
}

/// Only `Quit` touches the request to exit, and only `Pause` and `Resume`
/// touch the pause flag.
pub proof fn law_commands_touch_their_flag_only(s: AppState, cmd: Commands)
    ensures
        !(cmd is Quit) ==> next_state(s, cmd).should_exit == s.should_exit,
        !(cmd is Pause) && !(cmd is Resume) ==> next_state(s, cmd).is_paused == s.is_paused,
{
}

/// `Status` and `Start` leave the state as it was.
pub proof fn law_status_and_start_change_nothing(s: AppState, daemon: bool)
    ensures
        next_state(s, Commands::Status) == s,
        next_state(s, Commands::Start { daemon }) == s,
{
}

/// The status names every configured monitor once, in the configuration's
/// order, and no name twice when the configuration names none twice.
pub proof fn law_status_names_the_configured_monitors(monitors: Seq<(String, MonitorConfig)>)
    ensures
        names_of(status_entries(monitors)) == names_of(monitors),
        names_distinct(monitors) ==> names_distinct(status_entries(monitors)),
{
    assert(names_of(status_entries(monitors)) =~= names_of(monitors));
}

impl WallthiDaemon {
    /// A daemon with a fresh state and a copy of `dot_conf`, which names
    /// each monitor once.
    pub fn new(dot_conf: &DotfileTreeConfig) -> (r: Self)
        requires
            dot_conf.wf(),
        ensures
            r.dot_conf.wf(),
            !r.app_state.is_paused,
            !r.app_state.should_exit,
            r.dot_conf.same_as(dot_conf),
            r.addr@ == daemon_addr(),
    {
        Self { app_state: AppState::new(), dot_conf: dot_conf.clone(), addr: Self::addr() }
    }

    /// The address on which the daemon listens.
    pub fn addr() -> (r: &'static str)
        ensures
            r@ == daemon_addr(),
    {
        "127.0.0.1:6666"
    }

    /// Stops the wallpaper rotation.
    pub fn pause(&mut self) -> (r: Result<(), AppError>)
        ensures
            r is Ok,
            final(self).app_state.is_paused,
            final(self).app_state.should_exit == old(self).app_state.should_exit,
            final(self).dot_conf == old(self).dot_conf,
            final(self).addr == old(self).addr,
    {
        self.app_state.is_paused = true;
        Ok(())
    }

    /// Asks the daemon and its wallpaper loops to stop.
    pub fn quit(&mut self) -> (r: Result<(), AppError>)
        ensures
            r is Ok,
            final(self).app_state.should_exit,
            final(self).app_state.is_paused == old(self).app_state.is_paused,
            final(self).dot_conf == old(self).dot_conf,
            final(self).addr == old(self).addr,
    {
        self.app_state.should_exit = true;
        Ok(())
    }

    /// Restarts the wallpaper rotation.
    pub fn resume(&mut self) -> (r: Result<(), AppError>)
        ensures
            r is Ok,
            !final(self).app_state.is_paused,
            final(self).app_state.should_exit == old(self).app_state.should_exit,
            final(self).dot_conf == old(self).dot_conf,
            final(self).addr == old(self).addr,
    {
        self.app_state.is_paused = false;
        Ok(())
    }

    /// Handles one command received from a client, and tells whether the
    /// daemon should continue.
    ///
    /// The state moves as `next_state` says. The outcome says that the daemon
    /// continues unless it was told to quit, and on `Status` it holds the
    /// status that is to be sent back to the client; on any other command
    /// there is nothing to send.
    pub fn handle_command(&mut self, cmd: Commands) -> (r: Result<CommandOutcome, AppError>)
        ensures
            final(self).app_state == next_state(old(self).app_state, cmd),
            final(self).dot_conf == old(self).dot_conf,
            final(self).addr == old(self).addr,
            r is Ok,
            r matches Ok(outcome) ==> outcome.keep_running == !final(self).app_state.should_exit,
            r matches Ok(outcome) ==> ((outcome.status is Some) == (cmd is Status)),
            r matches Ok(outcome) ==> (outcome.status matches Some(status) ==> {
                &&& status.current_wallpapers@ == status_entries(old(self).dot_conf.monitor@)
                &&& old(self).dot_conf.wf() ==> names_distinct(status.current_wallpapers@)
            }),
    {
        let status = match cmd {
            Commands::Pause => {
                self.pause()?;
                None
            },
            Commands::Resume => {
                self.resume()?;
                None
            },
            Commands::Quit => {
                self.quit()?;
                None
            },
            Commands::Status => Some(WallthiStatus::current(self)),
            // noop
            Commands::Start { .. } => None,
        };
        Ok(CommandOutcome { keep_running: !self.app_state.should_exit, status })
    }
}

/// What handling one command gives back.
#[derive(Debug)]
pub struct CommandOutcome {
    /// The daemon continues: it was not told to quit.
    pub keep_running: bool,
    /// The status to send back, on a `Status` command.
    pub status: Option<WallthiStatus>,
}

impl WallthiStatus {
    /// The status of every configured monitor, in the order of the configuration.
    pub fn current(state: &WallthiDaemon) -> (r: Self)
        ensures
            r.current_wallpapers@ == status_entries(state.dot_conf.monitor@),
            state.dot_conf.wf() ==> names_distinct(r.current_wallpapers@),
    {
        let monitors = &state.dot_conf.monitor;
        let mut current_wallpapers: Vec<(String, MonitorStatus)> = Vec::new();
        let mut i: usize = 0;
        while i < monitors.len()
            invariant
                i <= monitors.len(),
                current_wallpapers@ == status_entries(monitors@.take(i as int)),
            decreases monitors.len() - i,
        {
            let entry = (monitors[i].0.clone(), MonitorStatus { path: None, remaining_duration: 0 });
            current_wallpapers.push(entry);
            i = i + 1;
            assert(current_wallpapers@ =~= status_entries(monitors@.take(i as int)));
        }
        assert(monitors@.take(monitors.len() as int) =~= monitors@);
        proof {
            law_status_names_the_configured_monitors(monitors@);
        }
        Self { current_wallpapers }
    }
}

} // verus!
