use wallthi::command::state::{AppState, WallthiDaemon, WallthiStatus};
use wallthi::command::Commands;
use wallthi::daemon::stops_listening;
use wallthi::dot_config::{DotfileTreeConfig, MonitorConfig};

fn monitor(resolution: &str, vertical: Option<bool>) -> MonitorConfig {
    MonitorConfig { resolution: resolution.to_string(), transform: None, vertical }
}

fn two_monitor_config() -> DotfileTreeConfig {
    let mut conf = DotfileTreeConfig::default();
    conf.monitor.push(("DP-1".to_string(), monitor("2560x1440", Some(false))));
    conf.monitor.push(("HDMI-A-1".to_string(), monitor("1080x1920", Some(true))));
    conf
}

#[test]
fn app_state_new_is_running() {
    let s = AppState::new();
    assert!(!s.is_paused);
    assert!(!s.should_exit);
    let d = AppState::default();
    assert!(!d.is_paused && !d.should_exit);
}

#[test]
fn app_state_arced_holds_the_state() {
    let mut s = AppState::new();
    s.is_paused = true;
    let shared = s.arced();
    let guard = shared.read().unwrap();
    assert!(guard.is_paused);
    assert!(!guard.should_exit);
}

#[test]
fn daemon_new_copies_config_and_address() {
    let conf = two_monitor_config();
    let d = WallthiDaemon::new(&conf);
    assert_eq!(d.addr, "127.0.0.1:6666");
    assert_eq!(WallthiDaemon::addr(), "127.0.0.1:6666");
    assert!(!d.app_state.is_paused && !d.app_state.should_exit);
    assert_eq!(d.dot_conf.monitor.len(), 2);
    assert_eq!(d.dot_conf.monitor[0].0, "DP-1");
    assert_eq!(d.dot_conf.monitor[1].0, "HDMI-A-1");
    assert_eq!(d.dot_conf.monitor[1].1.resolution, "1080x1920");
    assert_eq!(d.dot_conf.monitor[1].1.vertical, Some(true));
    assert_eq!(d.dot_conf.general.duration, 60);
}

#[test]
fn pause_resume_and_quit_set_their_flags() {
    let mut d = WallthiDaemon::new(&DotfileTreeConfig::default());
    assert!(d.pause().is_ok());
    assert!(d.app_state.is_paused && !d.app_state.should_exit);
    assert!(d.resume().is_ok());
    assert!(!d.app_state.is_paused && !d.app_state.should_exit);
    assert!(d.pause().is_ok());
    assert!(d.quit().is_ok());
    assert!(d.app_state.is_paused && d.app_state.should_exit);
}

#[test]
fn handle_command_changes_state_and_replies_only_to_status() {
    let mut d = WallthiDaemon::new(&two_monitor_config());
    let out = d.handle_command(Commands::Pause).unwrap();
    assert!(out.keep_running && out.status.is_none());
    assert!(d.app_state.is_paused);
    let out = d.handle_command(Commands::Start { daemon: true }).unwrap();
    assert!(out.keep_running && out.status.is_none());
    assert!(d.app_state.is_paused && !d.app_state.should_exit);
    let out = d.handle_command(Commands::Resume).unwrap();
    assert!(out.keep_running && out.status.is_none());
    assert!(!d.app_state.is_paused);
    let out = d.handle_command(Commands::Status).unwrap();
    assert!(out.keep_running);
    match out.status {
        Some(status) => {
            assert_eq!(status.current_wallpapers.len(), 2);
            assert_eq!(status.current_wallpapers[0].0, "DP-1");
            assert_eq!(status.current_wallpapers[1].0, "HDMI-A-1");
            for (_, m) in status.current_wallpapers.iter() {
                assert!(m.path.is_none());
                assert_eq!(m.remaining_duration, 0);
            }
        }
        None => panic!("a status command must be answered with a status"),
    }
    assert!(!d.app_state.is_paused && !d.app_state.should_exit);
    let out = d.handle_command(Commands::Quit).unwrap();
    assert!(!out.keep_running && out.status.is_none());
    assert!(d.app_state.should_exit);
}

#[test]
fn resume_after_pause_restores_the_state() {
    let mut d = WallthiDaemon::new(&DotfileTreeConfig::default());
    let before = d.app_state;
    d.handle_command(Commands::Pause).unwrap();
    d.handle_command(Commands::Resume).unwrap();
    assert_eq!(d.app_state.is_paused, before.is_paused);
    assert_eq!(d.app_state.should_exit, before.should_exit);
}

#[test]
fn quit_cannot_be_taken_back() {
    let mut d = WallthiDaemon::new(&DotfileTreeConfig::default());
    d.handle_command(Commands::Quit).unwrap();
    for cmd in [Commands::Pause, Commands::Resume, Commands::Status, Commands::Start { daemon: false }, Commands::Quit] {
        let out = d.handle_command(cmd).unwrap();
        assert!(!out.keep_running);
        assert!(d.app_state.should_exit);
        assert!(stops_listening(&d.app_state));
    }
}

#[test]
fn repeated_commands_act_once() {
    let mut d = WallthiDaemon::new(&DotfileTreeConfig::default());
    d.handle_command(Commands::Pause).unwrap();
    let once = d.app_state;
    d.handle_command(Commands::Pause).unwrap();
    assert_eq!(d.app_state.is_paused, once.is_paused);
    assert_eq!(d.app_state.should_exit, once.should_exit);
}

#[test]
fn status_of_unconfigured_daemon_is_empty() {
    let d = WallthiDaemon::new(&DotfileTreeConfig::default());
    let status = WallthiStatus::current(&d);
    assert!(status.current_wallpapers.is_empty());
}

#[test]
fn listener_stops_only_when_quitting() {
    let mut s = AppState::new();
    assert!(!stops_listening(&s));
    s.is_paused = true;
    assert!(!stops_listening(&s));
    s.should_exit = true;
    assert!(stops_listening(&s));
}
