use omywall::paths::first_present;
use omywall::assets::{
    asset_candidates, asset_dir_candidates, autostart_entry, autostart_file, config_paths, fallback_exe,
    is_page_file_name, migration_source, refresh_bookmarks, resolve_asset_path,
    scan_web_asset_bookmarks, sort_by_name, AssetEntry,
};
use omywall::config::WebBookmark;

fn file(name: &str) -> AssetEntry {
    AssetEntry { name: name.to_string(), is_dir: false, is_file: true }
}

fn dir(name: &str) -> AssetEntry {
    AssetEntry { name: name.to_string(), is_dir: true, is_file: false }
}

fn bm(url: &str) -> WebBookmark {
    WebBookmark { title: "t".to_string(), url: url.to_string(), category: "c".to_string(), is_demo: false }
}

#[test]
fn asset_dirs_in_order() {
    let c = asset_dir_candidates("widgets", "/work", Some("/home/u"));
    assert_eq!(
        c,
        vec![
            "/home/u/.local/share/omywall/assets/widgets",
            "/usr/share/omywall/assets/widgets",
            "/usr/local/share/omywall/assets/widgets",
            "/work/assets/widgets",
        ]
    );
    assert_eq!(asset_dir_candidates("web_wallpapers", "/work", None), vec!["/work/assets/web_wallpapers"]);
    assert_eq!(first_present(&c, &[false, true, true, false]).as_deref(), Some("/usr/share/omywall/assets/widgets"));
    assert_eq!(first_present(&c, &[false, false, false, false]), None);
}

#[test]
fn asset_addresses_resolve() {
    assert!(asset_candidates(" https://x.org/a ", "/w", Some("/h")).is_empty());
    assert_eq!(resolve_asset_path(" https://x.org/a ", "/w", Some("/h"), &[]), "https://x.org/a");
    let c = asset_candidates(" assets/widgets/clock.html", "/w", Some("/h"));
    assert_eq!(c.len(), 10);
    assert_eq!(c[0], "assets/widgets/clock.html");
    assert_eq!(c[1], "/w/assets/widgets/clock.html");
    assert_eq!(c[2], "/w/assets/widgets/clock.html");
    assert_eq!(c[3], "/h/.local/share/omywall/assets/widgets/clock.html");
    assert_eq!(c[5], "/h/.config/omywall/assets/widgets/clock.html");
    assert_eq!(c[9], "/usr/local/share/omywall/assets/widgets/clock.html");
    let mut found = vec![None; 10];
    found[4] = Some("/real/clock.html".to_string());
    found[7] = Some("/other".to_string());
    assert_eq!(resolve_asset_path(" assets/widgets/clock.html", "/w", Some("/h"), &found), "/real/clock.html");
    assert_eq!(resolve_asset_path("x.html ", "/w", None, &[None, None, None]), "x.html");
}

#[test]
fn settings_files() {
    let (lua, toml, old) = config_paths("/c");
    assert_eq!((lua.as_str(), toml.as_str(), old.as_str()), ("/c/omywall/config.lua", "/c/omywall/config.toml", "/c/omarchy-wall/config.toml"));
    assert_eq!(migration_source("/c", true, true, true), None);
    assert_eq!(migration_source("/c", false, true, true).as_deref(), Some("/c/omywall/config.toml"));
    assert_eq!(migration_source("/c", false, false, true).as_deref(), Some("/c/omarchy-wall/config.toml"));
    assert_eq!(migration_source("/c", false, false, false), None);
}

#[test]
fn autostart_entry_text() {
    assert_eq!(autostart_file("/home/u"), "/home/u/.config/autostart/omywall.desktop");
    assert_eq!(fallback_exe("/home/u"), "/home/u/.local/bin/omywall");
    let e = autostart_entry("/bin/omywall");
    assert!(e.starts_with("[Desktop Entry]\nType=Application\n"));
    assert!(e.contains("\nExec=/bin/omywall daemon\n"));
    assert!(e.ends_with("X-GNOME-Autostart-enabled=true\n"));
}

#[test]
fn page_names() {
    assert!(is_page_file_name("a.html"));
    assert!(is_page_file_name("A.HTM"));
    assert!(is_page_file_name("b.HtMl"));
    assert!(!is_page_file_name("c.xhtml"));
    assert!(!is_page_file_name(".html"));
    assert!(!is_page_file_name("notes.txt"));
}

#[test]
fn names_sort_stably() {
    let v = vec![("b".to_string(), 1), ("a".to_string(), 2), ("b".to_string(), 3), ("B".to_string(), 4)];
    let r = sort_by_name(v);
    assert_eq!(r, vec![("B".to_string(), 4), ("a".to_string(), 2), ("b".to_string(), 1), ("b".to_string(), 3)]);
}

#[test]
fn web_assets_become_bookmarks() {
    let web = vec![file("zeta_demo.html"), dir("02-space"), file("readme.md"), dir("01-fluid"), file("01-alpha.HTM")];
    let cats = vec![
        ("02-space".to_string(), vec![file("stars.html"), file("aurora.html")]),
        ("01-fluid".to_string(), vec![file("waves.html"), dir("sub.html")]),
    ];
    let widgets = vec![file("zz.html"), file("clock_widget.html"), file("style.css")];
    let r = scan_web_asset_bookmarks(&web, cats, &widgets);
    let got: Vec<(&str, &str, &str, bool)> =
        r.iter().map(|b| (b.title.as_str(), b.url.as_str(), b.category.as_str(), b.is_demo)).collect();
    assert_eq!(
        got,
        vec![
            ("Zeta Demo", "assets/web_wallpapers/zeta_demo.html", "3D WebGL", true),
            ("Alpha", "assets/web_wallpapers/01-alpha.HTM", "3D WebGL", true),
            ("Waves", "assets/web_wallpapers/01-fluid/waves.html", "Fluid", true),
            ("Aurora", "assets/web_wallpapers/02-space/aurora.html", "Space", true),
            ("Stars", "assets/web_wallpapers/02-space/stars.html", "Space", true),
            ("Clock Widget", "assets/widgets/clock_widget.html", "Desktop Widgets", true),
            ("Zz", "assets/widgets/zz.html", "Desktop Widgets", true),
        ]
    );
}

#[test]
fn loading_refreshes_bookmarks() {
    let saved = vec![bm("https://a"), bm("assets/widgets/clock.html"), bm("/gone.html"), bm("/here.html"), bm("assets/x/cyber_clock.html")];
    let exists = [false, true, false, true, true];
    let defaults = vec![bm("/here.html"), bm("assets/d1.html"), bm("assets/d1.html")];
    let r = refresh_bookmarks(saved, &exists, defaults);
    let urls: Vec<&str> = r.iter().map(|b| b.url.as_str()).collect();
    assert_eq!(urls, vec!["https://a", "/here.html", "assets/d1.html"]);
}

#[test]
fn bundled_asset_directories_first_found() {
    assert_eq!(
        omywall::assets::resolve_widgets_dir("/src/omywall", Some("/home/u"), &[false, true, false, true]),
        Some("/usr/share/omywall/assets/widgets".to_string())
    );
    assert_eq!(
        omywall::assets::resolve_web_assets_dir("/src/omywall", Some("/home/u"), &[true, true, true, true]),
        Some("/home/u/.local/share/omywall/assets/web_wallpapers".to_string())
    );
    assert_eq!(
        omywall::assets::resolve_web_assets_dir("/src/omywall", None, &[true]),
        Some("/src/omywall/assets/web_wallpapers".to_string())
    );
    assert_eq!(omywall::assets::resolve_widgets_dir("/src", Some("/h"), &[false, false, false, false]), None);
}
