use omywall::gui::{is_thumb_pending, md5_hash, notify_thumb_updated, set_thumb_pending, ThemeScheme, ThumbRegistry};
use omywall::iced_gui::{
    active_carousel_item, check_installed_tools, filtered_wallpapers, thumbs_to_decode, ThumbFile, hover_action, hover_stream_args, HoverAction, drain_updated_thumbs, is_live_item, badge_text, media_type_badge,
    tool_alternatives, wallpaper_shown, CategoryFilter, ThumbBoard, ToolProbes, WidgetPreset,
};
use omywall::iced_gui::{widget_panel_step, WidgetEvent, WidgetPanel, WidgetRequest};
use omywall::json::{JsonNumber, JsonValue};
use omywall::paths::{components_of, lines_of, path_starts_with_of, same_path_of, split_chars, split_whitespace_chars};
use omywall::config::WebBookmark;
use omywall::steam_scanner::{SteamWallpaper, WallpaperType};
use omywall::text::{parse_i32_chars, parse_u32_chars};

fn chars(s: &str) -> Vec<char> {
    s.chars().collect()
}

fn probes() -> ToolProbes {
    ToolProbes {
        mpvpaper: Some("/usr/bin/mpvpaper".to_string()),
        mpv: None,
        ffmpeg: None,
        electron: None,
        chromium: Some("/usr/bin/chromium".to_string()),
        webkit_lib: None,
        webkit_pkg: true,
        compositor: None,
        steam: None,
        nmcli: None,
        bluetoothctl: None,
        dri: true,
        nvidia_smi: None,
        locker: None,
        notify_send: None,
        jq: Some("/usr/bin/jq".to_string()),
    }
}

#[test]
fn system_doctor_report() {
    let list = check_installed_tools(&probes());
    assert_eq!(list.len(), 14);
    assert_eq!(list[0].name, "mpvpaper");
    assert!(list[0].installed);
    assert_eq!(list[0].path_or_info, "/usr/bin/mpvpaper");
    assert_eq!(list[1].path_or_info, "Missing - install via package manager");
    assert_eq!(list[4].name, "chromium / chrome");
    assert_eq!(list[5].path_or_info, "libwebkit2gtk-4.1 (System Library)");
    assert!(list[5].installed);
    assert_eq!(list[7].name, "steamcmd");
    assert!(!list[7].installed);
    assert_eq!(list[10].name, "GPU Drivers (VA-API / NVDEC)");
    assert_eq!(list[10].path_or_info, "Direct Rendering Manager (/dev/dri/renderD128 - VA-API/Vulkan)");
    assert_eq!(list[13].path_or_info, "/usr/bin/jq");
    let mut p = probes();
    p.dri = false;
    p.webkit_pkg = false;
    let list = check_installed_tools(&p);
    assert_eq!(list[10].name, "GPU Drivers");
    assert!(!list[10].installed);
    assert_eq!(list[5].path_or_info, "Missing - install webkit2gtk-4.1 library");
    let (a, b, c, d) = tool_alternatives();
    assert_eq!(a[3], "brave-browser");
    assert_eq!(b.len(), 4);
    assert_eq!(c, vec!["steamcmd", "steam"]);
    assert_eq!(d[0], "hyprlock");
}

#[test]
fn media_kinds() {
    assert!(is_live_item("/w/clip.MKV"));
    assert!(is_live_item("https://shadertoy.com/view/x"));
    assert!(!is_live_item("/w/photo.png"));
    assert_eq!(badge_text("/home/u/.steam/steamapps/x", false, false), "🎮 Steam");
    assert_eq!(badge_text("/w/desktop_hud.html", false, false), "🎛 Widget");
    assert_eq!(badge_text("/w/a.html", false, true), "🎛 Widget");
    assert_eq!(badge_text("/w/a.html", false, false), "🌐 WebGL");
    assert_eq!(badge_text("/w/a.webm", false, false), "🎥 Video");
    assert_eq!(badge_text("/w/a.BMP", false, false), "🖼 Image");
    assert_eq!(badge_text("/w/a.txt", false, false), "📁 File");
    assert_eq!(badge_text("/w/a.txt", true, false), "🎮 Steam");
}

#[test]
fn catalogue_filter() {
    assert!(wallpaper_shown("/w/Ocean.mp4", CategoryFilter::Videos, "ocean", false, None, None));
    assert!(!wallpaper_shown("/w/Ocean.mp4", CategoryFilter::StaticImages, "", false, None, None));
    assert!(wallpaper_shown("/w/a.html", CategoryFilter::WebWidgets, "clock", false, Some(("Orbital Clock", "Astronomy")), None));
    assert!(!wallpaper_shown("/w/a.html", CategoryFilter::All, "zzz", false, Some(("Orbital Clock", "Astronomy")), None));
    assert!(wallpaper_shown("/ws/123", CategoryFilter::SteamWorkshop, "bob", true, None, Some(("Rain", "Bob"))));
    assert!(wallpaper_shown("/x/y.gif", CategoryFilter::All, "", false, None, None));
}

#[test]
fn carousel_pick() {
    let f = vec!["a".to_string(), "b".to_string()];
    assert_eq!(active_carousel_item(&f, 0), Some("a".to_string()));
    assert_eq!(active_carousel_item(&f, 9), Some("b".to_string()));
    assert_eq!(active_carousel_item(&[], 0), None);
}

#[test]
fn thumbnail_bookkeeping() {
    let mut reg = ThumbRegistry::new();
    let k = "/tmp/t.png".to_string();
    set_thumb_pending(&mut reg, k.clone(), true);
    assert!(is_thumb_pending(&reg, &k));
    set_thumb_pending(&mut reg, k.clone(), false);
    assert!(!is_thumb_pending(&reg, &k));
    notify_thumb_updated(&mut reg, k.clone());

    let mut board = ThumbBoard::new();
    omywall::iced_gui::notify_thumb_updated(&mut board, "a".to_string());
    omywall::iced_gui::notify_thumb_updated(&mut board, "a".to_string());
    omywall::iced_gui::notify_thumb_updated(&mut board, "b".to_string());
    let mut drained = drain_updated_thumbs(&mut board);
    drained.sort();
    assert_eq!(drained, vec!["a".to_string(), "b".to_string()]);
    assert!(drain_updated_thumbs(&mut board).is_empty());
}

#[test]
fn thumbnail_paths_compare_as_paths() {
    let mut board = ThumbBoard::new();
    omywall::iced_gui::notify_thumb_updated(&mut board, "/t/a.png".to_string());
    omywall::iced_gui::notify_thumb_updated(&mut board, "/t//a.png".to_string());
    assert!(omywall::iced_gui::is_thumb_pending(&board, &"/t/./a.png".to_string()));
    assert!(!omywall::iced_gui::is_thumb_pending(&board, &"/t/b.png".to_string()));
    assert_eq!(drain_updated_thumbs(&mut board), vec!["/t/a.png".to_string()]);

    let mut reg = ThumbRegistry::new();
    notify_thumb_updated(&mut reg, "cache/x.png".to_string());
    notify_thumb_updated(&mut reg, "cache//x.png/".to_string());
    assert!(reg.updated.contains("cache/x.png"));
    assert!(!reg.updated.contains("cache/y.png"));
}

#[test]
fn names_and_hash() {
    assert_eq!(ThemeScheme::default().name(), "🌌 Dark Glass");
    assert_eq!(WidgetPreset::WifiBluetoothPill.url(), "assets/widgets/wifi_bluetooth_pill.html");
    assert_eq!(md5_hash(b""), 5381);
    assert_eq!(md5_hash(b"a"), 5381 * 33 + 97);
}

#[test]
fn text_pieces() {
    let l = lines_of("a\r\nb\n\nc\r");
    let l: Vec<String> = l.into_iter().map(|v| v.into_iter().collect()).collect();
    assert_eq!(l, vec!["a", "b", "", "c\r"]);
    assert_eq!(lines_of("x\n").len(), 1);
    assert!(lines_of("").is_empty());
    assert_eq!(split_chars(&chars("a,,b"), ',').len(), 3);
    let w = split_whitespace_chars(&chars("  a  b\tc "));
    assert_eq!(w, vec![chars("a"), chars("b"), chars("c")]);
    assert_eq!(parse_u32_chars(&chars("+42")), Some(42));
    assert_eq!(parse_u32_chars(&chars("4294967296")), None);
    assert_eq!(parse_i32_chars(&chars("-2147483648")), Some(i32::MIN));
    assert_eq!(parse_i32_chars(&chars("-+1")), None);
    assert_eq!(parse_i32_chars(&chars("2147483648")), None);
    assert_eq!(parse_i32_chars(&chars("-")), None);
}

#[test]
fn json_access() {
    let v = JsonValue::Object(vec![
        ("a".to_string(), JsonValue::Number(JsonNumber::PosInt(u64::MAX))),
        ("b".to_string(), JsonValue::Number(JsonNumber::NegInt(-4))),
        ("c".to_string(), JsonValue::Bool(true)),
    ]);
    assert_eq!(v.get("a").unwrap().as_u64(), Some(u64::MAX));
    assert_eq!(v.get("a").unwrap().as_i64(), None);
    assert_eq!(v.get("b").unwrap().as_i64(), Some(-4));
    assert_eq!(v.get("b").unwrap().as_u64(), None);
    assert_eq!(v.get("c").unwrap().as_bool(), Some(true));
    assert!(v.get("zz").is_none());
    assert!(JsonValue::Null.get("a").is_none());
}

fn steam_item(path: &str, title: &str, author: &str) -> SteamWallpaper {
    SteamWallpaper {
        id: "1".to_string(),
        workshop_id: "1".to_string(),
        title: title.to_string(),
        author: author.to_string(),
        description: String::new(),
        wallpaper_type: WallpaperType::Scene,
        thumbnail: None,
        preview_url: None,
        file_size: 0,
        date_added: 0,
        tags: vec![],
        path: path.to_string(),
        properties: vec![],
    }
}

#[test]
fn path_components_as_path_sees_them() {
    let c: Vec<String> = components_of("./a//b/./c/").iter().map(|v| v.iter().collect()).collect();
    assert_eq!(c, vec![".", "a", "b", "c"]);
    let c: Vec<String> = components_of("/x/../y").iter().map(|v| v.iter().collect()).collect();
    assert_eq!(c, vec!["/", "x", "..", "y"]);
    assert!(same_path_of("/a/b/", "/a//b"));
    assert!(!same_path_of("./a", "a"));
    assert!(!same_path_of("/a", "a"));
    assert!(path_starts_with_of("/a/b/c", "/a/b"));
    assert!(!path_starts_with_of("/a/bc", "/a/b"));
    assert!(path_starts_with_of("/a/b", "/"));
}

#[test]
fn catalogue_list_filtered() {
    let ws = vec![
        "/w/Ocean.mp4".to_string(),
        "/w/photo.png".to_string(),
        "/w/clock.html".to_string(),
        "/games/scene".to_string(),
    ];
    let steam = vec![steam_item("/games/scene/project", "Rainy Night", "Bob")];
    let bms = vec![(
        WebBookmark {
            title: "Orbital Clock".to_string(),
            url: "assets/clock.html".to_string(),
            category: "Astronomy".to_string(),
            is_demo: false,
        },
        "/w/clock.html".to_string(),
    )];
    assert_eq!(filtered_wallpapers(&ws, CategoryFilter::All, "", &steam, &bms), ws);
    assert_eq!(filtered_wallpapers(&ws, CategoryFilter::All, "   ", &steam, &bms), ws);
    assert_eq!(
        filtered_wallpapers(&ws, CategoryFilter::Videos, "", &steam, &bms),
        vec!["/w/Ocean.mp4".to_string()]
    );
    assert_eq!(
        filtered_wallpapers(&ws, CategoryFilter::All, "  ORBITAL ", &steam, &bms),
        vec!["/w/clock.html".to_string()]
    );
    assert_eq!(
        filtered_wallpapers(&ws, CategoryFilter::SteamWorkshop, "", &steam, &bms),
        vec!["/games/scene".to_string()]
    );
    assert_eq!(
        filtered_wallpapers(&ws, CategoryFilter::All, "bob", &steam, &bms),
        vec!["/games/scene".to_string()]
    );
    assert_eq!(filtered_wallpapers(&ws, CategoryFilter::StaticImages, "ocean", &steam, &bms), Vec::<String>::new());
}

#[test]
fn badge_from_scanned_items_and_bookmarks() {
    let steam = vec![steam_item("/games/scene", "Rain", "Bob")];
    let bms = vec![(
        WebBookmark {
            title: "Clock".to_string(),
            url: "assets/clock.html".to_string(),
            category: "Desktop Widgets".to_string(),
            is_demo: false,
        },
        "/w/clock.html".to_string(),
    )];
    assert_eq!(media_type_badge("/games/scene/project.json", &steam, &bms), "🎮 Steam");
    assert_eq!(media_type_badge("/games", &steam, &bms), "🎮 Steam");
    assert_eq!(media_type_badge("/w/clock.html", &steam, &bms), "🎛 Widget");
    assert_eq!(media_type_badge("/w/other.html", &steam, &bms), "🌐 WebGL");
    assert_eq!(media_type_badge("/gamesx/a.png", &steam, &bms), "🖼 Image");
}

#[test]
fn hover_preview_decisions() {
    assert_eq!(hover_action(None, "/w/a.html"), HoverAction::StartWeb);
    assert_eq!(hover_action(Some("/w/a.html"), "/w//a.html"), HoverAction::Keep { refresh_web_frame: true });
    assert_eq!(hover_action(Some("/w/b.mp4"), "/w/b.mp4"), HoverAction::Keep { refresh_web_frame: false });
    assert_eq!(hover_action(Some("/w/a.html"), "/w/b.MP4"), HoverAction::StartVideo);
    assert_eq!(hover_action(None, "/w/c.png"), HoverAction::StartNothing);
    let a = hover_stream_args("/v.mp4", "/tmp/o.png");
    assert_eq!(a[5], "/v.mp4");
    assert_eq!(a[7], "fps=5,scale=320:180:flags=lanczos");
    assert_eq!(a[13], "/tmp/o.png");
    assert_eq!(a.len(), 14);
}

fn tf(p: &str, exists: bool, cached: bool) -> Option<ThumbFile> {
    Some(ThumbFile { path: p.to_string(), exists, cached })
}

#[test]
fn thumbnail_decodes_of_a_tick() {
    let mut pending = omywall::pathset::PathSet::new();
    pending.insert("/t//busy.png".to_string());
    let catalogue = vec![None, tf("/t/a.png", false, false), tf("/t/busy.png", true, false), tf("/t/b.png", true, false), tf("/t/c.png", true, false)];
    let workshop = vec![tf("/w/1.jpg", true, true), tf("/w/2.jpg", true, false)];
    let r = thumbs_to_decode(
        Some("/t/live.png".to_string()),
        tf("/t/b.png", true, false),
        &catalogue,
        true,
        &workshop,
        &mut pending,
    );
    assert_eq!(r, vec!["/t/live.png".to_string(), "/t/b.png".to_string(), "/t/c.png".to_string(), "/w/2.jpg".to_string()]);
    assert!(pending.contains(&"/t/c.png".to_string()));
    let again = thumbs_to_decode(Some("/t/live.png".to_string()), None, &catalogue, false, &workshop, &mut pending);
    assert!(again.is_empty());
}

#[test]
fn widget_tab_events() {
    let mut p = WidgetPanel {
        enabled: false,
        url: None,
        position: "top_right".to_string(),
        preset: WidgetPreset::Custom,
        custom_url: "  ".to_string(),
    };
    let r = widget_panel_step(&mut p, WidgetEvent::Toggle);
    assert!(p.enabled);
    assert_eq!(p.url, Some("assets/widgets/desktop_hud.html".to_string()));
    assert_eq!(
        r.request,
        Some(WidgetRequest { url: "assets/widgets/desktop_hud.html".to_string(), enabled: true, position: "top_right".to_string() })
    );
    assert_eq!(r.status, Some("Desktop widgets enabled".to_string()));

    let r = widget_panel_step(&mut p, WidgetEvent::SelectPreset(WidgetPreset::MinimalClock));
    assert_eq!(p.custom_url, "assets/widgets/minimal_clock_stats.html");
    assert_eq!(r.request.unwrap().url, "assets/widgets/minimal_clock_stats.html");
    assert_eq!(r.status, None);

    let r = widget_panel_step(&mut p, WidgetEvent::SelectPosition("bottom_left".to_string()));
    assert_eq!(p.position, "bottom_left");
    assert_eq!(r.request.unwrap().position, "bottom_left");

    let r = widget_panel_step(&mut p, WidgetEvent::Stop);
    assert!(!p.enabled);
    assert_eq!(
        r.request,
        Some(WidgetRequest { url: "assets/widgets/minimal_clock_stats.html".to_string(), enabled: false, position: "bottom_left".to_string() })
    );

    let r = widget_panel_step(&mut p, WidgetEvent::SelectPosition("top_left".to_string()));
    assert_eq!(r.request, None);
    let r = widget_panel_step(&mut p, WidgetEvent::CustomUrlChanged("https://w.example/x.html".to_string()));
    assert_eq!(p.url, Some("https://w.example/x.html".to_string()));
    assert_eq!(r.request, None);
    let r = widget_panel_step(&mut p, WidgetEvent::ApplyToDesktop);
    assert!(p.enabled);
    assert_eq!(r.request.unwrap().url, "assets/widgets/minimal_clock_stats.html");
    assert_eq!(r.status, Some("Applying widget to desktop overlay...".to_string()));
}

#[test]
fn widget_toggle_twice_and_stop_after_apply() {
    let mut p = WidgetPanel {
        enabled: true,
        url: None,
        position: "center".to_string(),
        preset: WidgetPreset::WifiBluetoothPill,
        custom_url: String::new(),
    };
    widget_panel_step(&mut p, WidgetEvent::Toggle);
    widget_panel_step(&mut p, WidgetEvent::Toggle);
    assert!(p.enabled);
    assert_eq!(p.url, Some("assets/widgets/wifi_bluetooth_pill.html".to_string()));
    let sent = widget_panel_step(&mut p, WidgetEvent::ApplyToDesktop).request.unwrap();
    let removed = widget_panel_step(&mut p, WidgetEvent::Stop).request.unwrap();
    assert_eq!(sent.url, removed.url);
    assert_eq!(sent.position, removed.position);
    assert!(sent.enabled && !removed.enabled);
}

#[test]
fn card_clicks() {
    let shown = vec!["/w/a.mp4".to_string(), "/w/b.html".to_string(), "https://x.example/y".to_string()];
    let c = omywall::iced_gui::card_clicked(&shown, 0, Some("/w/b.html"), "/w//b.html", false);
    assert_eq!(c.carousel_index, 1);
    assert!(!c.stop_stream);
    assert_eq!(c.apply, None);
    let c = omywall::iced_gui::card_clicked(&shown, 0, None, "https://x.example/y", true);
    assert_eq!(c.carousel_index, 2);
    assert!(c.stop_stream);
    assert_eq!(c.apply, Some(omywall::panel::ApplyTarget::Url("https://x.example/y".to_string())));
    let c = omywall::iced_gui::card_clicked(&shown, 1, Some("/w/a.mp4"), "/elsewhere/z.png", true);
    assert_eq!(c.carousel_index, 1);
    assert!(c.stop_stream);
    assert_eq!(c.apply, Some(omywall::panel::ApplyTarget::File("/elsewhere/z.png".to_string())));
}

#[test]
fn removing_a_bookmark_from_the_catalogue() {
    let ws = vec![
        "assets/clock.html".to_string(),
        "/usr/share/omywall/assets/clock.html".to_string(),
        "/w/link-to-clock.html".to_string(),
        "/w/other.mp4".to_string(),
    ];
    let canon = vec![
        None,
        Some("/usr/share/omywall/assets/clock.html".to_string()),
        Some("/usr/share/omywall/assets/clock.html".to_string()),
        Some("/w/other.mp4".to_string()),
    ];
    let r = omywall::iced_gui::remove_bookmark_entries(
        &ws,
        &canon,
        "assets/clock.html",
        "/usr/share/omywall/assets/clock.html",
        Some("/usr/share/omywall/assets/clock.html"),
        Some("/w/link-to-clock.html"),
        Some("/usr/share/omywall/assets/clock.html"),
    );
    assert_eq!(r.entries, vec!["/w/other.mp4".to_string()]);
    assert_eq!(r.selected, Some("/w/other.mp4".to_string()));
    let r = omywall::iced_gui::remove_bookmark_entries(
        &ws, &canon, "https://gone.example", "https://gone.example", None, Some("/w/other.mp4"), Some("/w/other.mp4"),
    );
    assert_eq!(r.entries, ws);
    assert_eq!(r.selected, Some("/w/other.mp4".to_string()));
    let r = omywall::iced_gui::remove_bookmark_entries(&ws, &canon, "x", "x", None, Some("/w/nowhere"), None);
    assert_eq!(r.selected, Some("assets/clock.html".to_string()));
}

#[test]
fn widget_test_window_launch() {
    let (t, tries) = omywall::iced_gui::widget_test_launch(
        WidgetPreset::CyberHud,
        &String::new(),
        "/usr/share/omywall/assets/widgets/desktop_hud.html",
        true,
        Some("/usr/bin/omywall"),
        "top_right",
    );
    assert_eq!(t, "file:///usr/share/omywall/assets/widgets/desktop_hud.html");
    assert_eq!(tries.len(), 4);
    assert_eq!(tries[0].0, "/usr/bin/omywall");
    assert_eq!(tries[1], ("omywall".to_string(), vec!["web-layer".to_string(), t.clone(), "--widget".to_string(), "--position".to_string(), "top_right".to_string()]));
    assert_eq!(tries[3], ("chromium".to_string(), vec![format!("--app={}", t)]));
    let (t, tries) = omywall::iced_gui::widget_test_launch(
        WidgetPreset::Custom,
        &"https://w.example/x".to_string(),
        "https://w.example/x",
        false,
        None,
        "center",
    );
    assert_eq!(t, "https://w.example/x");
    assert_eq!(tries.len(), 3);
    assert_eq!(tries[1].1, vec!["--title=OMYWALL Widget Test".to_string(), "https://w.example/x".to_string()]);
}

#[test]
fn steam_scan_extends_the_catalogue() {
    let mut ws = vec!["/w/a.mp4".to_string(), "/games/scene".to_string()];
    let items = vec![
        steam_item("/games/scene/", "Rain", "Bob"),
        steam_item("/games/other", "Snow", "Ann"),
        steam_item("/games//other", "Snow again", "Ann"),
    ];
    omywall::iced_gui::add_scanned_steam(&mut ws, &items);
    assert_eq!(ws, vec!["/w/a.mp4".to_string(), "/games/scene".to_string(), "/games/other".to_string()]);
}

#[test]
fn doctor_and_log_dialogs() {
    let d = omywall::iced_gui::Dialogs { doctor: false, logs: false };
    let d = omywall::iced_gui::toggle_doctor(d);
    assert_eq!(d, omywall::iced_gui::Dialogs { doctor: true, logs: false });
    let (d, read) = omywall::iced_gui::toggle_logs(d);
    assert_eq!(d, omywall::iced_gui::Dialogs { doctor: false, logs: true });
    assert!(read);
    let (d, read) = omywall::iced_gui::toggle_logs(d);
    assert_eq!(d, omywall::iced_gui::Dialogs { doctor: false, logs: false });
    assert!(!read);
}
