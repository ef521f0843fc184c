use omywall::daemon::set_monitor_wallpaper;
use omywall::daemon::get_monitor_wallpaper;
use omywall::electron_preview::{capture_succeeded, electron_command, live_tier, shot_tiers, ShotTier};
use omywall::engine::{find_mpvpaper_binary, mpvpaper_candidate_paths};
use omywall::gui::check_tool_installed;
use omywall::iced_gui::{clock_strings, find_tool_path, tool_candidates, zero_pad, ThemeScheme};
use omywall::installer::{installer_attempts, installer_command, installer_failure, script_path_in};
use omywall::ipc::{frame, frame_len, unframe};
use omywall::lwe::{find_binary, list_properties, list_properties_args, LweRun};
use omywall::paths::locate_program;
use omywall::steam_scanner::{resolve_steam_library_paths, steam_root_candidates};

#[test]
fn snapshot_tiers() {
    assert_eq!(shot_tiers(true, true), vec![ShotTier::Electron, ShotTier::Chromium, ShotTier::WebKit]);
    assert_eq!(shot_tiers(false, true), vec![ShotTier::Chromium, ShotTier::WebKit]);
    assert_eq!(shot_tiers(false, false), vec![ShotTier::WebKit]);
    assert_eq!(live_tier(false), ShotTier::WebKit);
    assert!(capture_succeeded(true, Some(10)));
    assert!(!capture_succeeded(true, Some(0)));
    assert!(!capture_succeeded(false, Some(10)));
    assert_eq!(electron_command("/app", vec!["a".to_string(), "b".to_string()]), vec!["/app", "a", "b"]);
}

#[test]
fn installer_launch_plan() {
    assert_eq!(script_path_in("/w"), "/w/scripts/install_deps.sh");
    let cmd = installer_command("/w/scripts/install_deps.sh", false, Some("/bin/scripts/install_deps.sh"), true);
    assert_eq!(cmd, "bash /bin/scripts/install_deps.sh; echo ''; echo 'Done. Press Enter to close...'; read _");
    let remote = installer_command("/w/s.sh", false, None, false);
    assert!(remote.starts_with("curl -sSL https://raw.githubusercontent.com/"));
    let a = installer_attempts("run it", Some(" foot "));
    assert_eq!(a.len(), 12);
    assert_eq!(a[0].program, "foot");
    assert_eq!(a[0].args, vec!["bash", "-c", "run it"]);
    assert_eq!(a[0].message, "Launched dependency installer script in $TERMINAL (foot)");
    assert_eq!(a[5].program, "wezterm");
    assert_eq!(a[5].args, vec!["start", "--", "bash", "-c", "run it"]);
    assert_eq!(a[11].program, "sh");
    let b = installer_attempts("echo 'x'", None);
    assert_eq!(b.len(), 11);
    assert!(b[10].args[1].starts_with("ghostty -e bash -c 'echo '\\''x'\\''' || kitty"));
    assert_eq!(installer_failure("boom"), "Failed to launch terminal for installer: boom");
}

#[test]
fn property_listing_outcomes() {
    assert_eq!(list_properties_args("/s/1"), vec!["--list-properties", "/s/1"]);
    assert_eq!(
        list_properties(&LweRun::NotInstalled, &[]),
        Err("linux-wallpaperengine binary not found. Please install linux-wallpaperengine.".to_string())
    );
    assert_eq!(
        list_properties(&LweRun::Failed { status: "exit status: 2".to_string(), stderr: "  bad scene\n".to_string() }, &[]),
        Err("linux-wallpaperengine --list-properties failed (exit status: 2): bad scene".to_string())
    );
    assert_eq!(list_properties(&LweRun::Succeeded(String::new()), &[]), Ok(vec![]));
}

#[test]
fn palettes_and_clock() {
    assert_eq!(ThemeScheme::OledPitchBlack.palette_rgb(), ((0, 0, 0), (255, 255, 255), (0, 240, 255)));
    assert_eq!(zero_pad(7, 2), "07");
    assert_eq!(zero_pad(-5, 4), "-005");
    assert_eq!(zero_pad(12345, 2), "12345");
    let (t, d) = clock_strings(9, 5, 3, 0, 2, 7, 125);
    assert_eq!(t, "09:05:03");
    assert_eq!(d, "Tue, Jan 7 2025");
    let (_, d2) = clock_strings(0, 0, 0, 40, -1, 1, 100);
    assert_eq!(d2, "Sat, Dec 1 2000");
}

#[test]
fn socket_framing() {
    let f = frame(b"hello");
    assert_eq!(f, vec![0, 0, 0, 5, b'h', b'e', b'l', b'l', b'o']);
    assert_eq!(frame_len(&[0, 0, 1, 2]), 258);
    assert_eq!(frame_len(&[1, 0, 0, 0]), 16_777_216);
    let mut g = f.clone();
    g.extend_from_slice(b"rest");
    assert_eq!(unframe(&g), Some(b"hello".to_vec()));
    assert_eq!(unframe(&f[..6]), None);
    assert_eq!(unframe(&[0, 0]), None);
}

#[test]
fn program_lookup() {
    let c = vec!["/a".to_string(), "/b".to_string()];
    assert_eq!(locate_program(Some(" /usr/bin/x\n"), &c, &[true, true]).as_deref(), Some("/usr/bin/x"));
    assert_eq!(locate_program(Some(""), &c, &[false, true]).as_deref(), Some("/b"));
    assert_eq!(find_binary(None, &c, &[false, false]), None);
    let m = mpvpaper_candidate_paths("/h");
    assert_eq!(m[0], "/h/.local/bin/mpvpaper");
    assert_eq!(find_mpvpaper_binary(Some("  "), Some("/opt/mpvpaper\n"), &m, &[true, true, true, true]).as_deref(), Some("/opt/mpvpaper"));
    assert_eq!(find_mpvpaper_binary(None, None, &m, &[false, false, true, false]).as_deref(), Some("/usr/local/bin/mpvpaper"));
    let t = tool_candidates("mpv", &["/usr/bin".to_string(), "/opt/x/".to_string()], "/h");
    assert_eq!(t, vec!["/usr/bin/mpv", "/opt/x/mpv", "/h/.local/bin/mpv", "/h/.cargo/bin/mpv", "/usr/bin/mpv", "/usr/local/bin/mpv", "/bin/mpv"]);
    let present = [false, false, false, true, false, false, false];
    assert_eq!(find_tool_path("mpv", &["/usr/bin".to_string(), "/opt/x/".to_string()], "/h", &present).as_deref(), Some("/h/.cargo/bin/mpv"));
    assert!(check_tool_installed("mpv", &["/usr/bin".to_string(), "/opt/x/".to_string()], "/h", &present));
    assert!(!check_tool_installed("mpv", &[], "/h", &[false; 5]));
}

#[test]
fn steam_library_roots_merge() {
    let r = steam_root_candidates("/h", &["/h/snap/steam/123".to_string()]);
    assert_eq!(
        r,
        vec![
            "/h/.steam/steam",
            "/h/.local/share/Steam",
            "/h/.var/app/com.valvesoftware.Steam/data/Steam",
            "/h/snap/steam/123/.local/share/Steam",
        ]
    );
    let groups = vec![
        ("/s1".to_string(), vec!["/s1".to_string(), "/games".to_string()]),
        ("/s2".to_string(), vec!["/games".to_string(), "/more".to_string()]),
    ];
    assert_eq!(resolve_steam_library_paths(&groups), vec!["/s1", "/games", "/s2", "/more"]);
}

#[test]
fn monitor_mapping_reads_back() {
    let mut map: Vec<(String, String)> = vec![("DP-1".to_string(), "/a.mp4".to_string())];
    let m = set_monitor_wallpaper(&mut map, "eDP-1".to_string(), "/b.mp4".to_string());
    assert_eq!(m, "Monitor eDP-1 mapped to '/b.mp4'");
    assert_eq!(get_monitor_wallpaper(&map, "eDP-1").as_deref(), Some("/b.mp4"));
    set_monitor_wallpaper(&mut map, "DP-1".to_string(), "/c.mp4".to_string());
    assert_eq!(map.len(), 2);
    assert_eq!(get_monitor_wallpaper(&map, "DP-1").as_deref(), Some("/c.mp4"));
    let c = set_monitor_wallpaper(&mut map, "DP-1".to_string(), "  ".to_string());
    assert_eq!(c, "Cleared Monitor DP-1 mapping");
    assert_eq!(get_monitor_wallpaper(&map, "DP-1"), None);
    assert_eq!(map, vec![("eDP-1".to_string(), "/b.mp4".to_string())]);
}
