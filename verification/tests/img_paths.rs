use wallthi::command::img_paths::{random_img, random_img_single_path, PathKind};

fn strings(v: &[&str]) -> Vec<String> {
    v.iter().map(|s| s.to_string()).collect()
}

#[test]
fn a_file_is_its_own_wallpaper() {
    assert_eq!(random_img_single_path("/walls/a.png", &PathKind::File), "/walls/a.png");
}

#[test]
fn an_unknown_path_is_used_as_it_is() {
    assert_eq!(random_img_single_path("/nowhere", &PathKind::Other), "/nowhere");
}

#[test]
fn a_directory_gives_one_of_its_entries() {
    let entries = strings(&["/walls/a.png", "/walls/b.png", "/walls/c.png"]);
    for _ in 0..50 {
        let img = random_img_single_path("/walls", &PathKind::Dir(entries.clone()));
        assert!(entries.contains(&img), "{img} is no entry of /walls");
    }
}

#[test]
fn a_directory_with_one_entry_gives_that_entry() {
    let img = random_img_single_path("/walls", &PathKind::Dir(strings(&["/walls/only.png"])));
    assert_eq!(img, "/walls/only.png");
}

#[test]
fn random_img_picks_among_the_resolved_paths() {
    let paths = vec![
        ("/walls".to_string(), PathKind::Dir(strings(&["/walls/a.png", "/walls/b.png"]))),
        ("/one.png".to_string(), PathKind::File),
    ];
    let allowed = strings(&["/walls/a.png", "/walls/b.png", "/one.png"]);
    let mut seen_dir_entry = false;
    for _ in 0..100 {
        let img = random_img(&paths);
        assert!(allowed.contains(&img), "{img} was not a candidate");
        assert_ne!(img, "/walls");
        seen_dir_entry |= img != "/one.png";
    }
    assert!(seen_dir_entry);
}

#[test]
fn random_img_with_one_file() {
    let paths = vec![("/one.png".to_string(), PathKind::File)];
    assert_eq!(random_img(&paths), "/one.png");
}
