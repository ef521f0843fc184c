use omywall::electron_preview::{
    capture_arguments, chromium_available, find_chromium_bin, screenshot_arguments, to_url, LivePreview,
    ShotTracker, MAX_SHOT_SPAWNS,
};
use omywall::logger::{log_error, log_info, write_log};
use omywall::lwe::{lwe_candidate_paths, parse_header, parse_option_line, strip_key, PropertyType};
use omywall::servo_render::ServoWebEngine;
use omywall::steam_scanner::{
    library_paths_from_vdf, resolve_wallpaper_engine_assets_dir, wallpaper_engine_assets_candidate,
    WallpaperType,
};

#[test]
fn shot_slots_are_capped() {
    let mut t = ShotTracker::new();
    assert_eq!(MAX_SHOT_SPAWNS, 2);
    assert!(t.acquire_shot_slot());
    assert!(t.acquire_shot_slot());
    assert!(!t.acquire_shot_slot());
    t.release_shot_slot();
    t.release_shot_slot();
    t.release_shot_slot();
    assert_eq!(t.spawns, 0);
}

#[test]
fn shot_pending_set() {
    let mut t = ShotTracker::new();
    let a = "/tmp/a.png".to_string();
    assert!(!t.shot_is_pending(&a));
    t.shot_insert(a.clone());
    assert!(t.shot_is_pending(&a));
    t.shot_remove(&a);
    assert!(!t.shot_is_pending(&a));
}

#[test]
fn shot_paths_compare_as_paths() {
    let mut t = ShotTracker::new();
    t.shot_insert("/tmp/a/b.png".to_string());
    assert!(t.shot_is_pending(&"/tmp/a//b.png".to_string()));
    assert!(t.shot_is_pending(&"/tmp/./a/b.png".to_string()));
    assert!(!t.begin_shot("/tmp//a/b.png".to_string()));
    t.shot_remove(&"/tmp/a/b.png/".to_string());
    assert!(!t.shot_is_pending(&"/tmp/a/b.png".to_string()));
}

#[test]
fn shot_latest_mark_decides() {
    let mut t = ShotTracker::new();
    let a = "/tmp/a.png".to_string();
    let b = "/tmp/b.png".to_string();
    t.shot_insert(a.clone());
    t.shot_remove(&a);
    t.shot_insert(a.clone());
    t.shot_insert(b.clone());
    t.shot_remove(&b);
    assert!(t.shot_is_pending(&a));
    assert!(!t.shot_is_pending(&b));
    t.shot_remove(&a);
    t.shot_insert(b.clone());
    assert!(!t.shot_is_pending(&a));
    assert!(t.shot_is_pending(&b));
}

#[test]
fn shot_round_trip_and_refusals() {
    let mut t = ShotTracker::new();
    let a = "/tmp/a.png".to_string();
    let b = "/tmp/b.png".to_string();
    let c = "/tmp/c.png".to_string();
    assert!(t.begin_shot(a.clone()));
    assert!(!t.begin_shot(a.clone()));
    assert!(t.begin_shot(b.clone()));
    assert!(!t.begin_shot(c.clone()));
    assert!(!t.shot_is_pending(&c));
    t.finish_shot(&a);
    assert!(!t.shot_is_pending(&a));
    assert_eq!(t.spawns, 1);
    t.finish_shot(&b);
    assert_eq!(t.spawns, 0);
}

#[test]
fn urls_are_normalised() {
    assert_eq!(to_url("/home/u/w.html"), "file:///home/u/w.html");
    assert_eq!(to_url("https://x.io"), "https://x.io");
    assert_eq!(to_url("file:///a"), "file:///a");
    assert_eq!(to_url(&to_url("rel/x.html")), to_url("rel/x.html"));
}

#[test]
fn browser_lookup() {
    assert_eq!(find_chromium_bin(&[false, false, true, true, false]), Some("google-chrome".to_string()));
    assert_eq!(find_chromium_bin(&[false; 5]), None);
    assert!(chromium_available(&[false, false, false, false, true]));
    assert!(!chromium_available(&[false; 5]));
}

#[test]
fn renderer_arguments() {
    assert_eq!(capture_arguments("/w.html", "/t.png", true), vec!["file:///w.html", "/t.png", "600", "337", "live"]);
    assert_eq!(capture_arguments("http://a", "/t.png", false)[4], "shot");
    let s = screenshot_arguments("/w.html", "/t.png");
    assert_eq!(s[5], "--screenshot=/t.png");
    assert_eq!(s[6], "file:///w.html");
    assert_eq!(s.len(), 7);
}

#[test]
fn live_preview_slot() {
    let mut l = LivePreview::new();
    assert_eq!(l.stop_live(), None);
    l.set_live(42);
    assert_eq!(l.stop_live(), Some(42));
    assert_eq!(l.stop_live(), None);
}

#[test]
fn web_view_page() {
    let e = ServoWebEngine::new("assets/x.html");
    assert_eq!(e.get_url(), "assets/x.html");
    let r = e.render_preview_file("/tmp/p.png");
    assert_eq!(r.source, "assets/x.html");
    assert_eq!(r.target, "/tmp/p.png");
}

#[test]
fn log_lines() {
    assert_eq!(write_log(17, "WARN", "x"), "[17] [WARN] x\n");
    assert_eq!(log_info(0, "hello"), "[0] [INFO] hello\n");
    assert_eq!(log_error(1700000000, "boom"), "[1700000000] [ERROR] boom\n");
}

#[test]
fn property_headers() {
    assert_eq!(parse_header("barcount - slider"), Some(("barcount".to_string(), PropertyType::Slider)));
    assert_eq!(parse_header("frequency - combo"), Some(("frequency".to_string(), PropertyType::Combolist)));
    assert_eq!(parse_header("visualizer - combolist"), Some(("visualizer".to_string(), PropertyType::Combolist)));
    assert_eq!(parse_header("a b - color "), Some(("a b".to_string(), PropertyType::Color)));
    assert_eq!(parse_header(" - text"), None);
    assert_eq!(parse_header("x - weird"), None);
    assert_eq!(parse_header("no separator"), None);
}

#[test]
fn property_keys_and_options() {
    assert_eq!(strip_key("Text: Bar Count", "Text"), Some(" Bar Count".to_string()));
    assert_eq!(strip_key("Minimum value: 0", "Minimum value"), Some(" 0".to_string()));
    assert_eq!(strip_key("Value 3", "Value"), None);
    assert_eq!(parse_option_line("16 = 16"), Some(("16".to_string(), "16".to_string())));
    assert_eq!(parse_option_line("16 -> 1"), Some(("1".to_string(), "16".to_string())));
    assert_eq!(parse_option_line(" = x"), None);
    assert_eq!(parse_option_line("plain"), None);
    assert_eq!(lwe_candidate_paths("/home/u")[0], "/home/u/.local/bin/linux-wallpaperengine");
}

#[test]
fn wallpaper_kinds() {
    assert_eq!(WallpaperType::parse("Scene"), WallpaperType::Scene);
    assert_eq!(WallpaperType::parse("VIDEO"), WallpaperType::Video);
    assert_eq!(WallpaperType::parse("preset"), WallpaperType::Unknown);
    assert_eq!(WallpaperType::from_name("web"), WallpaperType::Web);
    assert_eq!(WallpaperType::Application.as_str(), "application");
    assert_eq!(WallpaperType::Unknown.as_str(), "unknown");
}

#[test]
fn steam_libraries() {
    let vdf = "\"libraryfolders\"\n{\n\t\"0\"\n\t{\n\t\t\"path\"\t\t\"/home/u/.local/share/Steam\"\n\t}\n\t\"1\"\n\t{\n\t\t\"path\"\t\t\"D:\\\\Games\\\\Steam\"\r\n\t}\n}\n";
    assert_eq!(library_paths_from_vdf(vdf), vec!["/home/u/.local/share/Steam", "D:/Games/Steam"]);
    assert_eq!(
        wallpaper_engine_assets_candidate("/lib"),
        "/lib/steamapps/common/wallpaper_engine/assets"
    );
    let libs = vec!["/a".to_string(), "/b".to_string()];
    assert_eq!(resolve_wallpaper_engine_assets_dir(&libs, &[false, true]), Some("/b/steamapps/common/wallpaper_engine/assets".to_string()));
    assert_eq!(resolve_wallpaper_engine_assets_dir(&libs, &[false, false]), None);
}
