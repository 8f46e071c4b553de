use lumen::preferences::Preferences;
use std::path::PathBuf;

#[test]
fn test_default_preferences() {
    let prefs = Preferences::default();
    assert_eq!(prefs.theme, "docs");
    assert!(!prefs.mouse_enabled);
    assert!(prefs.file_sidebar_visible);
}

#[test]
fn config_paths_lie_in_the_home_directory() {
    assert_eq!(Preferences::config_dir_in(None), None);
    assert_eq!(Preferences::config_file_in(None), None);
    let dir = Preferences::config_dir_in(Some(PathBuf::from("/home/u")));
    assert_eq!(dir, Some(PathBuf::from("/home/u/.lumen")));
    assert_eq!(Preferences::config_file_in(dir), Some(PathBuf::from("/home/u/.lumen/config.yaml")));
    // Whatever the environment says, the file lies in the directory.
    match (Preferences::config_dir(), Preferences::config_file_path()) {
        (Some(dir), Some(file)) => assert_eq!(file, dir.join("config.yaml")),
        (None, None) => {}
        _ => panic!("directory and file disagree"),
    }
}

#[test]
fn loaded_preferences_win_over_defaults() {
    let found = Preferences { theme: "dracula".to_string(), mouse_enabled: true, file_sidebar_visible: false };
    let p = Preferences::loaded_or_default(Some(found));
    assert_eq!(p.theme, "dracula");
    assert!(p.mouse_enabled);
    assert!(!p.file_sidebar_visible);
    let d = Preferences::loaded_or_default(None);
    assert_eq!(d.theme, "docs");
    assert!(!d.mouse_enabled);
    assert!(d.file_sidebar_visible);
}
