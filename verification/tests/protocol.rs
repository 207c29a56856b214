use player_lifecycle::control::control_endpoint;
use player_lifecycle::control::load_directive;
use player_lifecycle::control::spawn_args;
use player_lifecycle::events::LifecycleEvent;
use player_lifecycle::events::PlayerEvent;
use player_lifecycle::locate::Platform;
use player_lifecycle::locate::mpv_candidates;
use player_lifecycle::locate::platform_can_signal;
use player_lifecycle::locate::resolve_binary;
use player_lifecycle::locate::vlc_candidates;
use player_lifecycle::record::MpvProcess;
use player_lifecycle::vlc::vlc_args;
use player_lifecycle::vlc::vlc_spawn_report;

fn record() -> MpvProcess {
    MpvProcess {
        id: 1,
        url: "http://h/a.mp4".to_string(),
        start_time: 0,
        last_known_time: None,
        title: "A".to_string(),
        thumbnail: None,
    }
}

#[test]
fn control_endpoint_is_the_well_known_path() {
    assert_eq!(control_endpoint(), "/tmp/mpv-socket");
}

#[test]
fn load_directive_has_the_documented_shape() {
    let d = load_directive(&"http://h/video.mp4".to_string());
    assert_eq!(d, r#"{"command": ["loadfile", "http://h/video.mp4", "replace"]}"#);
}

#[test]
fn spawn_args_attach_the_control_endpoint() {
    let args = spawn_args(&"http://h/video.mp4".to_string());
    assert_eq!(
        args,
        vec![
            "--idle=yes".to_string(),
            "--force-window=yes".to_string(),
            "--input-ipc-server=/tmp/mpv-socket".to_string(),
            "http://h/video.mp4".to_string(),
        ]
    );
}

#[test]
fn lifecycle_event_topics() {
    assert_eq!(LifecycleEvent::Reused(record()).topic(), "mpv-process-reused");
    assert_eq!(LifecycleEvent::Added(record()).topic(), "mpv-process-added");
    assert_eq!(LifecycleEvent::Removed(record()).topic(), "mpv-process-removed");
}

#[test]
fn player_event_topics() {
    assert_eq!(PlayerEvent::Launching("VLC".to_string()).topic(), "player-launching");
    assert_eq!(PlayerEvent::Launched("VLC".to_string()).topic(), "player-launched");
    assert_eq!(PlayerEvent::Error("x".to_string()).topic(), "player-error");
}

#[test]
fn candidate_lists_per_platform() {
    let linux = mpv_candidates(Platform::Linux);
    assert_eq!(linux, vec!["/usr/bin/mpv", "/usr/local/bin/mpv", "/snap/bin/mpv"]);
    let windows = mpv_candidates(Platform::Windows);
    assert_eq!(
        windows,
        vec![r"C:\Program Files\mpv\mpv.exe", r"C:\Program Files (x86)\mpv\mpv.exe"]
    );
    let mac = mpv_candidates(Platform::MacOs);
    assert_eq!(
        mac,
        vec![
            "/Applications/mpv.app/Contents/MacOS/mpv",
            "/opt/homebrew/bin/mpv",
            "/usr/local/bin/mpv",
        ]
    );
    let vlc_linux = vlc_candidates(Platform::Linux);
    assert_eq!(vlc_linux, vec!["/usr/bin/vlc", "/usr/local/bin/vlc", "/snap/bin/vlc"]);
}

#[test]
fn signal_capability_per_platform() {
    assert!(!platform_can_signal(Platform::Windows));
    assert!(platform_can_signal(Platform::Linux));
    assert!(platform_can_signal(Platform::MacOs));
}

#[test]
fn explicit_existing_path_wins() {
    let candidates = mpv_candidates(Platform::Linux);
    let on_disk = vec![true, true, true];
    let chosen = resolve_binary(&"/opt/my/mpv".to_string(), true, &candidates, &on_disk, "mpv");
    assert_eq!(chosen, "/opt/my/mpv");
}

#[test]
fn first_candidate_on_disk_is_taken() {
    let candidates = mpv_candidates(Platform::Linux);
    let on_disk = vec![false, true, true];
    let chosen = resolve_binary(&"".to_string(), false, &candidates, &on_disk, "mpv");
    assert_eq!(chosen, "/usr/local/bin/mpv");
}

#[test]
fn missing_explicit_path_falls_through_to_candidates() {
    let candidates = mpv_candidates(Platform::Linux);
    let on_disk = vec![true, false, false];
    let chosen = resolve_binary(&"/opt/my/mpv".to_string(), false, &candidates, &on_disk, "mpv");
    assert_eq!(chosen, "/usr/bin/mpv");
}

#[test]
fn bare_name_is_the_last_resort() {
    let candidates = mpv_candidates(Platform::Linux);
    let on_disk = vec![false, false, false];
    let chosen = resolve_binary(&"".to_string(), false, &candidates, &on_disk, "mpv");
    assert_eq!(chosen, "mpv");
}

#[test]
fn vlc_args_carry_only_supplied_headers() {
    let url = "http://h/video.mp4".to_string();
    let plain = vlc_args(&url, &None, &None);
    assert_eq!(plain, vec!["http://h/video.mp4".to_string()]);

    let with_ua = vlc_args(&url, &Some("Agent/1.0".to_string()), &None);
    assert_eq!(
        with_ua,
        vec!["http://h/video.mp4".to_string(), "--http-user-agent=Agent/1.0".to_string()]
    );

    let with_both = vlc_args(
        &url,
        &Some("Agent/1.0".to_string()),
        &Some("http://h/".to_string()),
    );
    assert_eq!(
        with_both,
        vec![
            "http://h/video.mp4".to_string(),
            "--http-user-agent=Agent/1.0".to_string(),
            "--http-referrer=http://h/".to_string(),
        ]
    );
}

#[test]
fn empty_header_values_are_dropped() {
    let url = "http://h/video.mp4".to_string();
    let args = vlc_args(&url, &Some("".to_string()), &Some("".to_string()));
    assert_eq!(args, vec!["http://h/video.mp4".to_string()]);
}

#[test]
fn vlc_spawn_report_on_success_and_failure() {
    let ok = vlc_spawn_report(None);
    assert_eq!(ok.topic(), "player-launched");
    assert_eq!(ok.payload(), "VLC");

    let err = vlc_spawn_report(Some("Permission denied (os error 13)".to_string()));
    assert_eq!(err.topic(), "player-error");
    assert_eq!(err.payload(), "Failed to launch VLC: Permission denied (os error 13)");
}
