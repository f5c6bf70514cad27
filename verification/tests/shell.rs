use player_shell::errors::ShellError;
use player_shell::locator::{
    locate_vlc, mac_bundle_path, plan_launch, probe_system, windows_install_candidate, Platform,
    SystemView,
};
use player_shell::progress::{progress_event_name, progress_payload};
use player_shell::route::{fresh_window_label, u64_to_decimal, video_route, window_label};

fn empty_view() -> SystemView {
    SystemView {
        path_vlc: None,
        path_vlc_exe: None,
        program_files: None,
        program_files_x86: None,
        install_exists: false,
        install_x86_exists: false,
        bundle_exists: false,
    }
}

#[test]
fn windows_path_hit_wins() {
    let mut v = empty_view();
    v.path_vlc = Some("C:\\tools\\vlc".to_string());
    v.path_vlc_exe = Some("C:\\tools\\vlc.exe".to_string());
    v.program_files = Some("C:\\Program Files".to_string());
    v.install_exists = true;
    assert_eq!(locate_vlc(Platform::Windows, v).unwrap(), "C:\\tools\\vlc");
}

#[test]
fn windows_second_candidate_wins_when_first_missing() {
    let mut v = empty_view();
    v.path_vlc_exe = Some("C:\\tools\\vlc.exe".to_string());
    v.program_files = Some("C:\\Program Files".to_string());
    v.install_exists = true;
    assert_eq!(
        locate_vlc(Platform::Windows, v).unwrap(),
        "C:\\tools\\vlc.exe"
    );
}

#[test]
fn windows_install_root_fallback() {
    let mut v = empty_view();
    v.program_files = Some("C:\\Program Files".to_string());
    v.install_exists = true;
    assert_eq!(
        locate_vlc(Platform::Windows, v).unwrap(),
        "C:\\Program Files\\VideoLAN\\VLC\\vlc.exe"
    );
}

#[test]
fn windows_x86_fallback_when_64bit_copy_absent() {
    let mut v = empty_view();
    v.program_files = Some("C:\\Program Files".to_string());
    v.install_exists = false;
    v.program_files_x86 = Some("C:\\Program Files (x86)".to_string());
    v.install_x86_exists = true;
    assert_eq!(
        locate_vlc(Platform::Windows, v).unwrap(),
        "C:\\Program Files (x86)\\VideoLAN\\VLC\\vlc.exe"
    );
}

#[test]
fn windows_install_root_var_without_file_is_skipped() {
    let mut v = empty_view();
    v.program_files = Some("C:\\Program Files".to_string());
    v.program_files_x86 = Some("C:\\Program Files (x86)".to_string());
    let r = locate_vlc(Platform::Windows, v);
    assert!(matches!(r, Err(ShellError::NotFound)));
}

#[test]
fn mac_bundle_fallback() {
    let mut v = empty_view();
    v.bundle_exists = true;
    assert_eq!(
        locate_vlc(Platform::MacOs, v).unwrap(),
        "/Applications/VLC.app/Contents/MacOS/VLC"
    );
}

#[test]
fn mac_path_hit_wins_over_bundle() {
    let mut v = empty_view();
    v.path_vlc = Some("/usr/local/bin/vlc".to_string());
    v.bundle_exists = true;
    assert_eq!(locate_vlc(Platform::MacOs, v).unwrap(), "/usr/local/bin/vlc");
}

#[test]
fn other_platform_checks_search_path_only() {
    let mut v = empty_view();
    v.bundle_exists = true;
    v.program_files = Some("/opt".to_string());
    v.install_exists = true;
    let r = locate_vlc(Platform::Other, v);
    assert!(matches!(r, Err(ShellError::NotFound)));
}

#[test]
fn not_found_has_explanatory_message() {
    for platform in [Platform::Windows, Platform::MacOs, Platform::Other] {
        let r = locate_vlc(platform, empty_view());
        match r {
            Err(e) => {
                assert!(matches!(e, ShellError::NotFound));
                let msg = e.message();
                assert!(!msg.is_empty());
                assert!(msg.contains("VLC"));
            }
            Ok(p) => panic!("unexpected hit: {}", p),
        }
    }
}

#[test]
fn spawn_failed_message_carries_os_text() {
    let e = ShellError::SpawnFailed("permission denied".to_string());
    assert_eq!(e.message(), "Failed to start VLC: permission denied");
}

#[test]
fn candidate_path_construction() {
    assert_eq!(
        windows_install_candidate("D:\\PF"),
        "D:\\PF\\VideoLAN\\VLC\\vlc.exe"
    );
    assert_eq!(mac_bundle_path(), "/Applications/VLC.app/Contents/MacOS/VLC");
}

#[test]
fn launch_uses_fallback_with_url_as_single_argument() {
    let mut v = empty_view();
    v.program_files = Some("C:\\Program Files".to_string());
    v.install_exists = true;
    let cmd = plan_launch(
        Platform::Windows,
        v,
        "https://example.com/stream.m3u8".to_string(),
    )
    .unwrap();
    assert_eq!(cmd.program, "C:\\Program Files\\VideoLAN\\VLC\\vlc.exe");
    assert_eq!(cmd.arg, "https://example.com/stream.m3u8");
}

#[test]
fn launch_fails_when_nothing_found() {
    let r = plan_launch(Platform::Other, empty_view(), "https://e/x".to_string());
    assert!(matches!(r, Err(ShellError::NotFound)));
}

#[test]
fn probe_system_keeps_supplied_fields() {
    let v = probe_system(
        Platform::Other,
        Some("C:\\Program Files".to_string()),
        None,
        true,
        false,
        true,
    );
    assert_eq!(v.program_files.as_deref(), Some("C:\\Program Files"));
    assert_eq!(v.program_files_x86, None);
    assert!(v.install_exists);
    assert!(!v.install_x86_exists);
    assert!(v.bundle_exists);
    assert_eq!(v.path_vlc_exe, None);
}

#[test]
fn route_encodes_url() {
    let r = video_route("https://example.com/stream.m3u8", None, None, None, None);
    assert_eq!(
        r,
        "video-window?url=https%3A%2F%2Fexample.com%2Fstream.m3u8"
    );
}

#[test]
fn route_omits_t_when_position_not_positive() {
    let r = video_route("https://e/x", None, None, None, None);
    assert!(!r.contains("&t="));
}

#[test]
fn route_includes_whole_seconds() {
    let r = video_route("https://e/x", Some(125), None, None, None);
    assert_eq!(r, "video-window?url=https%3A%2F%2Fe%2Fx&t=125");
}

#[test]
fn route_metadata_encoded_once_in_stable_order() {
    let r = video_route(
        "https://e/x",
        Some(125),
        Some("srv 1"),
        Some("movie/hd"),
        Some(42),
    );
    assert_eq!(
        r,
        "video-window?url=https%3A%2F%2Fe%2Fx&t=125&serverId=srv%201&contentType=movie%2Fhd&contentId=42"
    );
    assert_eq!(r.matches("serverId=").count(), 1);
    assert_eq!(r.matches("contentType=").count(), 1);
    assert_eq!(r.matches("contentId=").count(), 1);
}

#[test]
fn route_negative_content_id() {
    let r = video_route("u", None, None, None, Some(-7));
    assert_eq!(r, "video-window?url=u&contentId=-7");
}

#[test]
fn route_metadata_without_position() {
    let r = video_route("u", None, Some("s"), None, Some(0));
    assert_eq!(r, "video-window?url=u&serverId=s&contentId=0");
}

#[test]
fn decimal_rendering() {
    assert_eq!(u64_to_decimal(0), "0");
    assert_eq!(u64_to_decimal(9), "9");
    assert_eq!(u64_to_decimal(10), "10");
    assert_eq!(u64_to_decimal(125), "125");
    assert_eq!(u64_to_decimal(u64::MAX), "18446744073709551615");
}

#[test]
fn window_label_from_millis() {
    assert_eq!(window_label(0), "video-0");
    assert_eq!(window_label(1714857600123), "video-1714857600123");
}

#[test]
fn fresh_label_has_prefix_and_clock_reading() {
    let label = fresh_window_label();
    let digits = label.strip_prefix("video-").expect("prefix missing");
    assert!(!digits.is_empty());
    assert!(digits.chars().all(|c| c.is_ascii_digit()));
}

#[test]
fn progress_payload_keeps_all_four_fields() {
    let p = progress_payload("srv1".to_string(), "movie".to_string(), 42, 301250);
    assert_eq!(p.server_id, "srv1");
    assert_eq!(p.content_type, "movie");
    assert_eq!(p.content_id, 42);
    assert_eq!(p.progress_millis, 301250);
}

#[test]
fn progress_event_name_is_fixed() {
    assert_eq!(progress_event_name(), "playback-progress");
}
