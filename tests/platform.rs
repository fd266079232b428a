use hospital_bridge::platform::wayland_restart_needed;
use hospital_bridge::text::{setting_is, str_equals};

#[test]
fn strings_compare_by_characters() {
    assert!(str_equals("file", "file"));
    assert!(!str_equals("file", "files"));
    assert!(!str_equals("File", "file"));
    assert!(str_equals("", ""));
    assert!(setting_is(Some("x11"), "x11"));
    assert!(!setting_is(None, "x11"));
}

#[test]
fn wayland_session_without_fix_restarts() {
    assert!(wayland_restart_needed(false, Some("wayland"), false, None, None));
    assert!(wayland_restart_needed(false, None, true, Some("x11"), None));
    assert!(wayland_restart_needed(false, Some("x11"), true, Some("wayland"), Some("1")));
}

#[test]
fn no_restart_when_fixed_or_not_wayland() {
    assert!(!wayland_restart_needed(true, Some("wayland"), true, None, None));
    assert!(!wayland_restart_needed(false, Some("x11"), false, None, None));
    assert!(!wayland_restart_needed(false, Some("wayland"), true, Some("x11"), Some("1")));
}
