use quick_pose::settings::{resolve_home_folder, Settings};

#[test]
fn a_path_under_home_is_resolved() {
    assert_eq!(resolve_home_folder("~/Pictures", Some("/home/ada")), "/home/ada/Pictures");
    assert_eq!(resolve_home_folder("~/a/b.png", Some("/root")), "/root/a/b.png");
    assert_eq!(resolve_home_folder("~/", Some("/home/ada")), "/home/ada/");
}

#[test]
fn a_path_elsewhere_is_left_alone() {
    assert_eq!(resolve_home_folder("/srv/images", Some("/home/ada")), "/srv/images");
    assert_eq!(resolve_home_folder("~", Some("/home/ada")), "~");
    assert_eq!(resolve_home_folder("~images", Some("/home/ada")), "~images");
    assert_eq!(resolve_home_folder("a/~/b", Some("/home/ada")), "a/~/b");
    assert_eq!(resolve_home_folder("", Some("/home/ada")), "");
}

#[test]
fn without_a_home_every_path_is_left_alone() {
    assert_eq!(resolve_home_folder("~/Pictures", None), "~/Pictures");
    assert_eq!(resolve_home_folder("/srv/images", None), "/srv/images");
}

#[test]
fn a_path_with_wide_characters_is_resolved() {
    assert_eq!(resolve_home_folder("~/Bilder/Küste", Some("/home/zoë")), "/home/zoë/Bilder/Küste");
}

#[test]
fn default_settings_are_ten_untimed_images() {
    let settings = Settings::default(Some("/home/ada"));
    assert_eq!(settings.folder, "/home/ada/Pictures");
    assert_eq!(settings.images_number, 10);
    assert_eq!(settings.duration, None);
    assert_eq!(settings.pause, None);
}

#[test]
fn default_settings_without_a_home_keep_the_tilde() {
    assert_eq!(Settings::default(None).folder, "~/Pictures");
}

#[test]
fn resolve_folder_resolves_the_chosen_folder() {
    let settings = Settings {
        folder: "~/Drawings".to_string(),
        images_number: 3,
        duration: Some(30),
        pause: None,
    };
    assert_eq!(settings.resolve_folder(Some("/home/ada")), "/home/ada/Drawings");
    assert_eq!(settings.resolve_folder(None), "~/Drawings");
    assert_eq!(settings.folder, "~/Drawings");
}

#[test]
fn a_clone_of_the_settings_is_equal() {
    let settings = Settings {
        folder: "/srv/images".to_string(),
        images_number: 15,
        duration: Some(120),
        pause: Some(10),
    };
    assert_eq!(settings.clone(), settings);
}
