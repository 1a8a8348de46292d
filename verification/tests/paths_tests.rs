use caffeine_core::autostart::{shortcut_path, BACKGROUND_ARG, SHORTCUT_NAME};
use caffeine_core::log::log_file_path;
use caffeine_core::paths::join_path;

#[test]
fn shortcut_path_is_in_user_startup_folder() {
    let p = shortcut_path(Some(r"C:\Users\tester\AppData\Roaming")).to_lowercase();
    assert!(p.ends_with(SHORTCUT_NAME.to_lowercase().as_str()), "{p}");
    assert!(p.contains(r"microsoft\windows\start menu\programs\startup"), "{p}");
}

#[test]
fn shortcut_launches_in_background() {
    assert_eq!(BACKGROUND_ARG, "--background");
    assert_eq!(
        shortcut_path(None),
        r".\Microsoft\Windows\Start Menu\Programs\Startup\Caffeine Desktop.lnk"
    );
}

#[test]
fn join_follows_windows_separator_rules() {
    assert_eq!(join_path(r"C:\a", "b"), r"C:\a\b");
    assert_eq!(join_path(r"C:\a\", "b"), r"C:\a\b");
    assert_eq!(join_path("C:/a/", "b"), "C:/a/b");
    assert_eq!(join_path("", "b"), "b");
    assert_eq!(join_path("C:", "b"), "C:b");
    assert_eq!(join_path("d:", "b"), "d:b");
    assert_eq!(join_path("1:", "b"), r"1:\b");
}

#[test]
fn log_file_location() {
    assert_eq!(
        log_file_path(Some(r"C:\Users\tester\AppData\Local")),
        r"C:\Users\tester\AppData\Local\caffeine-desktop\core.log"
    );
    assert_eq!(log_file_path(None), "caffeine-core.log");
}
