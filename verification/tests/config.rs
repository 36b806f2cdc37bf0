use wallthi::dot_config::{copy_strings, DotfileTreeConfig, GeneralConfig, MonitorConfig, ResizeType, SwwwConf};

#[test]
fn swww_conf_default_values() {
    let c = SwwwConf::default();
    assert_eq!(c.resize_type, ResizeType::Crop);
    assert_eq!(c.transition_fps, 60);
    assert_eq!(c.transition_step, 2);
}

#[test]
fn general_config_default_values() {
    let g = GeneralConfig::default();
    assert_eq!(g.duration, 60);
    assert!(g.path.is_empty());
    assert!(g.path_vertical.is_empty());
}

#[test]
fn dotfile_config_default_values() {
    let c = DotfileTreeConfig::default();
    assert_eq!(c.general.duration, 60);
    assert!(c.monitor.is_empty());
    let swww = c.swww.expect("the default configuration configures swww");
    assert_eq!(swww.resize_type, ResizeType::Crop);
    assert_eq!(swww.transition_fps, 60);
    assert_eq!(swww.transition_step, 2);
}

#[test]
fn resize_type_names() {
    assert_eq!(ResizeType::Crop.as_static_str(), "crop");
}

#[test]
fn config_clone_is_exact() {
    let mut c = DotfileTreeConfig::default();
    c.general.duration = 5;
    c.general.path = vec!["/walls/h".to_string(), "/more".to_string()];
    c.general.path_vertical = vec!["/walls/v".to_string()];
    c.monitor.push(("eDP-1".to_string(), MonitorConfig { resolution: "1920x1080".to_string(), transform: Some(90), vertical: None }));
    c.swww = None;
    let d = c.clone();
    assert_eq!(d.general.duration, 5);
    assert_eq!(d.general.path, c.general.path);
    assert_eq!(d.general.path_vertical, c.general.path_vertical);
    assert_eq!(d.monitor.len(), 1);
    assert_eq!(d.monitor[0].0, "eDP-1");
    assert_eq!(d.monitor[0].1.resolution, "1920x1080");
    assert_eq!(d.monitor[0].1.transform, Some(90));
    assert_eq!(d.monitor[0].1.vertical, None);
    assert!(d.swww.is_none());
}

#[test]
fn copy_strings_keeps_order() {
    let v = vec!["b".to_string(), "a".to_string(), "b".to_string()];
    assert_eq!(copy_strings(&v), v);
    assert!(copy_strings(&Vec::new()).is_empty());
}
