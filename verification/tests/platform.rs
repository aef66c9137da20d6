use system::Platform;

#[test]
fn windows_is_selected_by_its_target_name() {
    assert_eq!(Platform::for_target("windows"), Platform::Windows);
}

#[test]
fn every_other_target_name_selects_posix() {
    for os in ["linux", "macos", "freebsd", "android", "ios", "netbsd", "openbsd", "solaris"] {
        assert_eq!(Platform::for_target(os), Platform::Posix, "{os}");
    }
}

#[test]
fn target_names_are_compared_exactly() {
    assert_eq!(Platform::for_target(""), Platform::Posix);
    assert_eq!(Platform::for_target("Windows"), Platform::Posix);
    assert_eq!(Platform::for_target("windows "), Platform::Posix);
    assert_eq!(Platform::for_target("window"), Platform::Posix);
    assert_eq!(Platform::for_target("windowss"), Platform::Posix);
}

#[test]
fn windows_shell_is_cmd_with_slash_c() {
    assert_eq!(Platform::Windows.shell(), "cmd");
    assert_eq!(Platform::Windows.flag(), "/c");
    assert!(Platform::Windows.raw_tail());
}

#[test]
fn posix_shell_is_sh_with_dash_c() {
    assert_eq!(Platform::Posix.shell(), "sh");
    assert_eq!(Platform::Posix.flag(), "-c");
    assert!(!Platform::Posix.raw_tail());
}
