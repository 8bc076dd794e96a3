use partydeck::launcher::{build_session_command, compositor_binary, LaunchError, Monitor};

fn strings(v: &[&str]) -> Vec<String> {
    v.iter().map(|s| s.to_string()).collect()
}

#[test]
fn command_for_1920_1080_monitor() {
    let monitors = vec![Monitor::new(1920, 1080)];
    let args = strings(&["partydeck", "--kwin"]);
    let cmd = build_session_command(&monitors, &args).unwrap();
    assert_eq!(
        cmd,
        strings(&[
            "--xwayland",
            "--width",
            "1920",
            "--height",
            "1080",
            "--exit-with-session",
            "\"partydeck\"",
        ])
    );
    let joined = cmd.join(" ");
    assert!(joined.contains("--width 1920 --height 1080 --exit-with-session"));
}

#[test]
fn empty_monitor_list_is_rejected() {
    let monitors: Vec<Monitor> = Vec::new();
    let args = strings(&["partydeck"]);
    assert_eq!(
        build_session_command(&monitors, &args),
        Err(LaunchError::NoMonitor)
    );
}

#[test]
fn only_first_monitor_decides_geometry() {
    let args = strings(&["partydeck"]);
    let one = vec![Monitor::new(800, 600)];
    let two = vec![Monitor::new(800, 600), Monitor::new(2560, 1440)];
    assert_eq!(
        build_session_command(&one, &args),
        build_session_command(&two, &args)
    );
}

#[test]
fn session_flag_is_stripped_from_reissued_command() {
    let monitors = vec![Monitor::new(1, 1)];
    let args = strings(&["partydeck", "--kwin", "--fullscreen", "--kwin"]);
    let cmd = build_session_command(&monitors, &args).unwrap();
    let reissued = cmd.last().unwrap();
    assert_eq!(reissued, "\"partydeck\" \"--fullscreen\"");
    assert!(!reissued.contains("--kwin"));
}

#[test]
fn all_arguments_are_quoted_and_space_joined() {
    let monitors = vec![Monitor::new(640, 480)];
    let args = strings(&["prog", "a b", ""]);
    let cmd = build_session_command(&monitors, &args).unwrap();
    assert_eq!(cmd.last().unwrap(), "\"prog\" \"a b\" \"\"");
}

#[test]
fn compositor_binary_name() {
    assert_eq!(compositor_binary(), "kwin_wayland");
}
