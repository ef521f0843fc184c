use omywall::config::{
    add_web_bookmark, default_web_bookmarks, generate_hyprlock_conf, get_available_hwdec_options,
    humanize_title, hyprlock_background, hyprlock_needs_still_image, is_valid_lua_identifier,
    remove_web_bookmark, steam_overrides_for, GpuInfo, HyprlockConfig, WallpaperOverrides, WebBookmark,
};

fn bm(title: &str, url: &str, cat: &str, demo: bool) -> WebBookmark {
    WebBookmark { title: title.to_string(), url: url.to_string(), category: cat.to_string(), is_demo: demo }
}

#[test]
fn humanize_strips_leading_numbering_and_capitalises() {
    assert_eq!(humanize_title("01-fluid-particles"), "Fluid Particles");
    assert_eq!(humanize_title("webgl_fluid_simulation"), "Webgl Fluid Simulation");
    assert_eq!(humanize_title("desktop_hud"), "Desktop Hud");
    assert_eq!(humanize_title("a--b__c"), "A B C");
}

#[test]
fn humanize_keeps_stem_when_only_junk() {
    assert_eq!(humanize_title("2024"), "2024");
    assert_eq!(humanize_title("--"), "");
    assert_eq!(humanize_title(""), "");
}

#[test]
fn humanize_uses_full_unicode_uppercase() {
    assert_eq!(humanize_title("ßtraße"), "SStraße");
    assert_eq!(humanize_title("éclair-noir"), "Éclair Noir");
}

#[test]
fn lua_identifiers() {
    assert!(is_valid_lua_identifier("volume"));
    assert!(is_valid_lua_identifier("_private9"));
    assert!(!is_valid_lua_identifier("end"));
    assert!(!is_valid_lua_identifier("while"));
    assert!(!is_valid_lua_identifier(""));
    assert!(!is_valid_lua_identifier("9lives"));
    assert!(!is_valid_lua_identifier("eDP-1"));
    assert!(!is_valid_lua_identifier("naïve"));
}

#[test]
fn builtin_bookmarks_when_nothing_scanned() {
    let list = default_web_bookmarks(Vec::new());
    assert_eq!(list.len(), 21);
    assert_eq!(list[0].title, "Desktop HUD (System Telemetry & Weather)");
    assert_eq!(list[0].url, "assets/widgets/desktop_hud.html");
    assert_eq!(list[0].category, "Desktop Widgets");
    assert!(list.iter().all(|b| b.is_demo));
    assert_eq!(list[20].title, "Three.js Postprocessing Bloom & Depth");
    assert_eq!(list[20].category, "Audio & Shaders");
    assert_eq!(list[20].url, "assets/web_wallpapers/05-audio-shaders/threejs_postprocessing_bloom.html");
    let mut urls: Vec<&str> = list.iter().map(|b| b.url.as_str()).collect();
    urls.sort();
    urls.dedup();
    assert_eq!(urls.len(), 21);
}

#[test]
fn scanned_bookmarks_take_precedence() {
    let scanned = vec![bm("Mine", "assets/widgets/mine.html", "Desktop Widgets", true)];
    let list = default_web_bookmarks(scanned.clone());
    assert_eq!(list, scanned);
}

fn gpu(vendor: &str) -> GpuInfo {
    GpuInfo { name: "x".to_string(), vendor: vendor.to_string(), device_path: None, is_primary: true }
}

#[test]
fn hwdec_options_follow_hardware() {
    let none = get_available_hwdec_options(&[], false, false, false);
    let v: Vec<&str> = none.iter().map(|o| o.0).collect();
    assert_eq!(v, vec!["auto", "no"]);

    let all = get_available_hwdec_options(&[gpu("NVIDIA"), gpu("AMD")], false, false, true);
    let v: Vec<&str> = all.iter().map(|o| o.0).collect();
    assert_eq!(v, vec!["auto", "nvdec", "cuda", "vaapi", "vulkan", "no"]);
    assert_eq!(all[0].1, "⚡ Auto-Detect GPU (Recommended)");
    assert_eq!(all[5].2, "Software video decoding using CPU cores");

    let nodes = get_available_hwdec_options(&[gpu("Generic")], true, true, false);
    let v: Vec<&str> = nodes.iter().map(|o| o.0).collect();
    assert_eq!(v, vec!["auto", "nvdec", "cuda", "vaapi", "no"]);
}

#[test]
fn add_bookmark_replaces_or_appends() {
    let mut list = vec![bm("A", "u1", "c", true), bm("B", "u2", "c", true)];
    add_web_bookmark(&mut list, "New".to_string(), "u2".to_string(), "Web".to_string());
    assert_eq!(list.len(), 2);
    assert_eq!(list[1], bm("New", "u2", "Web", false));
    add_web_bookmark(&mut list, "C".to_string(), "u3".to_string(), "Web".to_string());
    assert_eq!(list.len(), 3);
    assert_eq!(list[2], bm("C", "u3", "Web", false));
}

#[test]
fn add_bookmark_twice_is_adding_once() {
    let mut once = vec![bm("A", "u1", "c", true)];
    add_web_bookmark(&mut once, "T".to_string(), "u9".to_string(), "K".to_string());
    let mut twice = once.clone();
    add_web_bookmark(&mut twice, "T".to_string(), "u9".to_string(), "K".to_string());
    assert_eq!(once, twice);
}

#[test]
fn remove_bookmark_by_address_trim_or_resolution() {
    let mut list = vec![
        bm("A", "u1", "c", true),
        bm("B", " u2 ", "c", true),
        bm("C", "u3", "c", true),
        bm("D", "u4", "c", true),
    ];
    let resolved = vec!["/r/u1".to_string(), "/r/u2".to_string(), "/r/same".to_string(), "/r/u4".to_string()];
    remove_web_bookmark(&mut list, "u2", "/r/same", &resolved);
    let urls: Vec<&str> = list.iter().map(|b| b.url.as_str()).collect();
    assert_eq!(urls, vec!["u1", "u4"]);
}

fn lock_cfg(mode: &str) -> HyprlockConfig {
    let mut h = HyprlockConfig::default();
    h.screensaver_mode = mode.to_string();
    h
}

#[test]
fn hyprlock_defaults() {
    let h = HyprlockConfig::default();
    assert!(h.enabled);
    assert_eq!(h.screensaver_mode, "active");
    assert_eq!(h.gradient_color, "#121826");
    assert_eq!(h.blur_passes, 2);
    assert_eq!(h.blur_size, 7);
    assert_eq!(h.clock_size, 72);
    assert_eq!(h.welcome_message, "Welcome back, $USER!");
    assert_eq!(h.grace_period, 0);
}

#[test]
fn hyprlock_background_choice() {
    let mut h = lock_cfg("video");
    h.asset_path = "/a/clip.mp4".to_string();
    assert_eq!(hyprlock_background(&h, Some("/w.png")), "/a/clip.mp4");
    h.asset_path = "   ".to_string();
    assert_eq!(hyprlock_background(&h, Some("/w.png")), "/w.png");
    assert_eq!(hyprlock_background(&h, None), "screenshot");
    h.background_path = "/bg.jpg".to_string();
    assert_eq!(hyprlock_background(&h, Some("/w.png")), "/bg.jpg");

    let mut g = lock_cfg("gradient");
    assert_eq!(hyprlock_background(&g, Some("/w.png")), "#121826");
    g.gradient_color = " ".to_string();
    assert_eq!(hyprlock_background(&g, None), "#121826");
    g.gradient_color = "#000000".to_string();
    assert_eq!(hyprlock_background(&g, None), "#000000");

    let a = lock_cfg("active");
    assert_eq!(hyprlock_background(&a, Some("/w.png")), "/w.png");
}

#[test]
fn hyprlock_still_image_for_animated_backgrounds() {
    assert!(hyprlock_needs_still_image("/x/y/clip.MP4"));
    assert!(hyprlock_needs_still_image("/x/page.html"));
    assert!(!hyprlock_needs_still_image("/x/photo.jpg"));
    assert!(!hyprlock_needs_still_image("screenshot"));
    assert!(!hyprlock_needs_still_image("#121826"));
    assert!(!hyprlock_needs_still_image("/x/.mp4"));
}

#[test]
fn hyprlock_conf_text() {
    let h = HyprlockConfig::default();
    let text = generate_hyprlock_conf(&h, "/bg.png", "alice");
    assert!(text.starts_with("# Generated by OMYWALL Wallpaper Engine\nbackground {\nmonitor =\npath = /bg.png\nblur_passes = 2\nblur_size = 7\n"));
    assert!(text.contains("text = Welcome back, alice!\ncolor = #ffffff\n"));
    assert!(text.contains("color = #00f0ff\nfont_size = 72\n"));
    assert!(text.contains("outer_color = #00f0ff\ninner_color = #0b0d14\nfont_color = #ffffff\n"));
    assert!(text.ends_with("position = 0, -80\nhalign = center\nvalign = center\n}\n"));
}

#[test]
fn overrides_default_is_empty() {
    let o = WallpaperOverrides::default();
    assert!(o.volume.is_none() && o.fps.is_none() && o.scaling.is_none());
    assert!(o.custom_properties.is_empty());
}

#[test]
fn gpus_from_lspci_and_drm() {
    let out = "00:02.0 VGA compatible controller: Intel Corporation Alder Lake-P GT2 [Iris Xe Graphics]\n01:00.0 3D controller: NVIDIA Corporation GA107M [GeForce RTX 3050 Mobile]\n00:1f.3 Audio device: Intel Corporation\n";
    let drm = vec!["card0".to_string(), "renderD128".to_string(), "renderD129".to_string(), "renderD130".to_string()];
    let g = omywall::config::detect_system_gpus(Some(out), &drm);
    assert_eq!(g.len(), 3);
    assert_eq!(g[0].name, "Intel Corporation Alder Lake-P GT2 [Iris Xe Graphics]");
    assert_eq!(g[0].vendor, "Intel");
    assert!(g[0].is_primary);
    assert_eq!(g[0].device_path, Some("/dev/dri/renderD128".to_string()));
    assert_eq!(g[1].vendor, "NVIDIA");
    assert!(!g[1].is_primary);
    assert_eq!(g[1].device_path, Some("/dev/dri/renderD129".to_string()));
    assert_eq!(g[2].name, "GPU Render Node (renderD130)");
    assert_eq!(g[2].vendor, "DRM/KMS");
    let none = omywall::config::detect_system_gpus(None, &[]);
    assert_eq!(none.len(), 1);
    assert_eq!(none[0].vendor, "Auto");
    let radeon = omywall::config::detect_system_gpus(Some("x Display controller: ATI Radeon\n"), &[]);
    assert_eq!(radeon[0].vendor, "AMD");
}

#[test]
fn steam_overrides_take_the_tuned_values_or_the_saved_ones() {
    let mut tuned = WallpaperOverrides::default();
    tuned.fps = Some(30);
    tuned.custom_properties = vec![("old".to_string(), "1".to_string())];
    let props = vec![("bloom".to_string(), "true".to_string())];
    let r = steam_overrides_for(true, tuned.clone(), None, props.clone());
    assert_eq!(r.fps, Some(30));
    assert_eq!(r.custom_properties, props);

    let mut saved = WallpaperOverrides::default();
    saved.volume = Some(40);
    let r = steam_overrides_for(false, tuned.clone(), Some(saved.clone()), props.clone());
    assert_eq!(r, saved);

    let r = steam_overrides_for(false, tuned, None, props);
    assert_eq!(r, WallpaperOverrides::default());
}

#[test]
fn settings_of_a_fresh_install() {
    let c = omywall::config::Config::defaults(Some("/home/ann"), Some("/run/user/1000"), vec![], true);
    assert_eq!(c.wallpaper_dir, "/home/ann/.local/share/omywall/wallpapers");
    assert_eq!(c.socket_path, "/run/user/1000/omywall.sock");
    assert_eq!(c.hwdec, "auto");
    assert_eq!(c.target_fps, 60);
    assert!(c.mute);
    assert_eq!(c.slideshow_interval, 300);
    assert_eq!(c.widget_position, "top_right");
    assert!(c.autostart);
    assert_eq!(c.saved_web_wallpapers, default_web_bookmarks(vec![]));
    assert_eq!(c.hyprlock, HyprlockConfig::default());
    let d = omywall::config::Config::defaults(None, None, vec![bm("A", "a.html", "Misc", false)], false);
    assert_eq!(d.wallpaper_dir, "/home/user/.local/share/omywall/wallpapers");
    assert_eq!(d.socket_path, "/tmp/omywall.sock");
    assert_eq!(d.saved_web_wallpapers, vec![bm("A", "a.html", "Misc", false)]);
}
