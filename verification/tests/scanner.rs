use omywall::json::{JsonNumber, JsonValue};
use omywall::json_text::json_to_text;
use omywall::steam_scanner::{
    collect_wallpapers, is_pkg_file, package_wallpaper, parse_properties, project_wallpaper,
    resolve_thumbnail, scan_roots, thumbnail_candidates, SteamWallpaper, WallpaperType,
};

fn obj(entries: Vec<(&str, JsonValue)>) -> JsonValue {
    JsonValue::Object(entries.into_iter().map(|(k, v)| (k.to_string(), v)).collect())
}

fn text(s: &str) -> JsonValue {
    JsonValue::Str(s.to_string())
}

fn project() -> JsonValue {
    obj(vec![
        (
            "general",
            obj(vec![(
                "properties",
                obj(vec![
                    (
                        "speed",
                        obj(vec![
                            ("max", JsonValue::Number(JsonNumber::PosInt(10))),
                            ("min", JsonValue::Number(JsonNumber::PosInt(0))),
                            ("text", text("Speed")),
                            ("type", text("slider")),
                            ("value", JsonValue::Number(JsonNumber::Float("2.5".to_string()))),
                        ]),
                    ),
                    (
                        "style",
                        obj(vec![
                            (
                                "options",
                                JsonValue::Array(vec![
                                    obj(vec![("label", text("Dark")), ("value", JsonValue::Number(JsonNumber::PosInt(1)))]),
                                    obj(vec![("label", text("Light")), ("value", text("light"))]),
                                    obj(vec![("value", JsonValue::Array(vec![JsonValue::Bool(true), JsonValue::Null]))]),
                                ]),
                            ),
                            ("type", text("combo")),
                        ]),
                    ),
                ]),
            )]),
        ),
        ("preview", text("preview.gif")),
        ("tags", JsonValue::Array(vec![text("Anime"), JsonValue::Number(JsonNumber::PosInt(3)), text("Nature")])),
        ("title", text("Ocean Waves")),
        ("type", text("Video")),
    ])
}

#[test]
fn properties_follow_the_project_file() {
    let props = parse_properties(project());
    assert_eq!(props.len(), 2);
    assert_eq!(props[0].key, "speed");
    assert_eq!(props[0].label, "Speed");
    assert_eq!(props[0].prop_type, "slider");
    assert_eq!(props[0].min, Some(JsonNumber::PosInt(0)));
    assert_eq!(props[0].max, Some(JsonNumber::PosInt(10)));
    assert_eq!(props[0].step, None);
    assert!(matches!(props[0].default_value, Some(JsonValue::Number(JsonNumber::Float(ref t))) if t == "2.5"));
    assert_eq!(props[1].label, "style");
    assert_eq!(props[1].prop_type, "combo");
    assert!(props[1].default_value.is_none());
    let opts = &props[1].options;
    assert_eq!(opts.len(), 3);
    assert_eq!((opts[0].label.as_str(), opts[0].value.as_str()), ("Dark", "1"));
    assert_eq!((opts[1].label.as_str(), opts[1].value.as_str()), ("Light", "light"));
    assert_eq!((opts[2].label.as_str(), opts[2].value.as_str()), ("", "[true,null]"));
}

#[test]
fn top_level_properties_are_used_without_general() {
    let json = obj(vec![("properties", obj(vec![("a", obj(vec![]))]))]);
    let props = parse_properties(json);
    assert_eq!(props.len(), 1);
    assert_eq!(props[0].label, "a");
    assert_eq!(props[0].prop_type, "text");
    let none = parse_properties(obj(vec![("general", obj(vec![("properties", text("x"))])), ("properties", obj(vec![("b", obj(vec![]))]))]));
    assert!(none.is_empty());
}

#[test]
fn compact_json_text() {
    let v = obj(vec![("a\"b", JsonValue::Array(vec![JsonValue::Number(JsonNumber::NegInt(-4)), text("x\ny")])), ("c", JsonValue::Null)]);
    assert_eq!(json_to_text(&v), "{\"a\\\"b\":[-4,\"x\\ny\"],\"c\":null}");
}

#[test]
fn project_wallpaper_fields() {
    let w = project_wallpaper("123".to_string(), "/lib/123".to_string(), project(), Some("/lib/123/preview.gif".to_string()), 42, 7);
    assert_eq!(w.id, "123");
    assert_eq!(w.workshop_id, "123");
    assert_eq!(w.title, "Ocean Waves");
    assert_eq!(w.author, "Unknown");
    assert_eq!(w.description, "");
    assert_eq!(w.wallpaper_type, WallpaperType::Video);
    assert_eq!(w.tags, vec!["Anime".to_string(), "Nature".to_string()]);
    assert_eq!(w.preview_url.as_deref(), Some("preview.gif"));
    assert_eq!(w.file_size, 42);
    assert_eq!(w.date_added, 7);
    assert_eq!(w.properties.len(), 2);
    let bare = project_wallpaper("9".to_string(), "/x/9".to_string(), obj(vec![]), None, 0, 0);
    assert_eq!(bare.title, "Untitled");
    assert_eq!(bare.wallpaper_type, WallpaperType::Scene);
}

#[test]
fn package_wallpaper_fields() {
    let w = package_wallpaper("scene.pkg".to_string(), "/lib/scene.pkg".to_string(), None, 5, 6);
    assert_eq!(w.title, "scene");
    assert_eq!(w.author, "Steam Workshop");
    assert_eq!(w.description, "Wallpaper Engine Scene Package (.pkg)");
    assert_eq!(w.tags, vec!["Scene".to_string(), "PKG".to_string()]);
    assert_eq!(w.wallpaper_type, WallpaperType::Scene);
}

#[test]
fn thumbnail_prefers_named_preview() {
    let json = project();
    let c = thumbnail_candidates("/lib/1", &json);
    assert_eq!(c, vec!["/lib/1/preview.gif", "/lib/1/preview.jpg", "/lib/1/preview.png", "/lib/1/preview.gif", "/lib/1/preview.jpeg"]);
    assert_eq!(resolve_thumbnail("/lib/1", &json, &[false, false, true, false, false]).as_deref(), Some("/lib/1/preview.png"));
    assert_eq!(resolve_thumbnail("/lib/1", &JsonValue::Null, &[false, false, false, false]), None);
    assert_eq!(resolve_thumbnail("/lib/1", &JsonValue::Null, &[false, false, false, true]).as_deref(), Some("/lib/1/preview.jpeg"));
}

fn named(id: &str, title: &str) -> Option<SteamWallpaper> {
    Some(package_wallpaper(id.to_string(), format!("/w/{}.pkg", title), None, 0, 0))
}

#[test]
fn scan_keeps_first_of_each_id_sorted_by_title() {
    let found = vec![named("1", "beta"), None, named("2", "Alpha"), named("1", "aaa"), named("3", "alpha")];
    let r = collect_wallpapers(found);
    let got: Vec<(&str, &str)> = r.iter().map(|w| (w.id.as_str(), w.title.as_str())).collect();
    assert_eq!(got, vec![("2", "Alpha"), ("3", "alpha"), ("1", "beta")]);
}

#[test]
fn scan_roots_order() {
    let r = scan_roots(&["/s".to_string()], "/tmp/dl");
    assert_eq!(
        r,
        vec![
            "/s/steamapps/workshop/content/431960",
            "/s/steamapps/common/wallpaper_engine/assets/presets",
            "/tmp/dl/steamapps/workshop/content/431960",
        ]
    );
}

#[test]
fn pkg_detection() {
    assert!(is_pkg_file("/a/scene.PKG", true, true, None));
    assert!(is_pkg_file("/a/blob", true, true, Some(b"PKGV")));
    assert!(!is_pkg_file("/a/blob", true, true, Some(b"PKGX")));
    assert!(!is_pkg_file("/a/scene.pkg", true, false, None));
    assert!(!is_pkg_file("/a/scene.pkg", false, false, None));
}

#[test]
fn json_text_escapes_controls_quotes_and_backslashes() {
    let v = text("\u{1}\u{8}\t\r\u{c}\\\u{1f}é/");
    assert_eq!(json_to_text(&v), "\"\\u0001\\b\\t\\r\\f\\\\\\u001fé/\"");
}
