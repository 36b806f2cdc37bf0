use wallthi::command::state::AppState;
use wallthi::command::{decimal_string, loop_action, plan_swww_loop, swww_args, swww_command_args, LoopAction};
use wallthi::utils::error::AppError;
use wallthi::dot_config::{DotfileTreeConfig, MonitorConfig, ResizeType, SwwwConf};

fn state(is_paused: bool, should_exit: bool) -> AppState {
    AppState { is_paused, should_exit }
}

#[test]
fn loop_action_table() {
    assert_eq!(loop_action(Some(state(false, false))), LoopAction::Show);
    assert_eq!(loop_action(Some(state(true, false))), LoopAction::Wait);
    assert_eq!(loop_action(Some(state(false, true))), LoopAction::Exit);
    assert_eq!(loop_action(Some(state(true, true))), LoopAction::Exit);
    assert_eq!(loop_action(None), LoopAction::Wait);
}

fn config() -> DotfileTreeConfig {
    let mut c = DotfileTreeConfig::default();
    c.general.duration = 300;
    c.general.path = vec!["/walls/landscape".to_string()];
    c.general.path_vertical = vec!["/walls/portrait".to_string(), "/walls/tall.png".to_string()];
    c
}

fn monitor(vertical: Option<bool>) -> MonitorConfig {
    MonitorConfig { resolution: "1920x1080".to_string(), transform: None, vertical }
}

#[test]
fn plan_uses_vertical_dirs_only_for_vertical_monitors() {
    let c = config();
    let p = plan_swww_loop(&monitor(Some(true)), &c);
    assert_eq!(p.wall_dirs, vec!["/walls/portrait".to_string(), "/walls/tall.png".to_string()]);
    let p = plan_swww_loop(&monitor(Some(false)), &c);
    assert_eq!(p.wall_dirs, vec!["/walls/landscape".to_string()]);
    let p = plan_swww_loop(&monitor(None), &c);
    assert_eq!(p.wall_dirs, vec!["/walls/landscape".to_string()]);
    assert_eq!(p.delay_secs, 300);
}

#[test]
fn plan_falls_back_to_default_swww_settings() {
    let mut c = config();
    c.swww = None;
    let p = plan_swww_loop(&monitor(None), &c);
    assert_eq!(p.swww_conf.resize_type, ResizeType::Crop);
    assert_eq!(p.swww_conf.transition_fps, 60);
    assert_eq!(p.swww_conf.transition_step, 2);
    c.swww = Some(SwwwConf { resize_type: ResizeType::Crop, transition_fps: 144, transition_step: 90 });
    let p = plan_swww_loop(&monitor(None), &c);
    assert_eq!(p.swww_conf.transition_fps, 144);
    assert_eq!(p.swww_conf.transition_step, 90);
}

#[test]
fn decimal_string_matches_to_string() {
    for x in [0, 7, 10, 60, 255, -1, -42, 1000000, i32::MAX, i32::MIN] {
        assert_eq!(decimal_string(x), x.to_string());
    }
}

#[test]
fn swww_args_default_settings() {
    let args = swww_args("/walls/a.png", &SwwwConf::default(), "DP-1");
    assert_eq!(
        args,
        vec![
            "img", "--resize", "crop", "--outputs", "DP-1", "--transition-step", "2",
            "--transition-fps", "60", "/walls/a.png",
        ]
    );
}

#[test]
fn swww_args_negative_settings() {
    let conf = SwwwConf { resize_type: ResizeType::Crop, transition_fps: -30, transition_step: 255 };
    let args = swww_args("img with space.jpg", &conf, "HDMI-A-1");
    assert_eq!(
        args,
        vec![
            "img", "--resize", "crop", "--outputs", "HDMI-A-1", "--transition-step", "255",
            "--transition-fps", "-30", "img with space.jpg",
        ]
    );
}

#[test]
fn swww_command_args_refuses_a_path_that_is_not_text() {
    assert!(matches!(swww_command_args(None, &SwwwConf::default(), "DP-1"), Err(AppError::General)));
    let args = swww_command_args(Some("/walls/a.png"), &SwwwConf::default(), "DP-1").unwrap();
    assert_eq!(args, swww_args("/walls/a.png", &SwwwConf::default(), "DP-1"));
}
