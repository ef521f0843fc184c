use omywall::daemon::{
    apply_active_wallpaper, cycle_step, get_monitor_wallpaper, initial_monitor, is_wallpaper_ext,
    next_wallpaper_index, prev_wallpaper_index, waybar_status, ActiveChoice, CycleStep,
};
use omywall::display::{detect_displays, parse_hyprland_displays, parse_wlr_randr_displays, parse_xrandr_displays, DisplayInfo};
use omywall::engine::WallpaperEngine;
use omywall::json::{JsonNumber, JsonValue};

#[test]
fn xrandr_output() {
    let out = "Screen 0: minimum 8 x 8, current 3840 x 1080\neDP-1 connected primary 1920x1080+0+0 (normal) 344mm x 194mm\n   1920x1080     60.00*+\nHDMI-1 connected 1920x1080+1920+0 (normal)\nDP-1 disconnected (normal)\n";
    let d = parse_xrandr_displays(out);
    assert_eq!(d.len(), 2);
    assert_eq!(d[0].name, "eDP-1");
    assert!(d[0].primary);
    assert_eq!(d[0].resolution, "1920x1080");
    assert_eq!(d[1].name, "HDMI-1");
    assert_eq!(d[1].x, 1920);
    assert!(!d[1].primary);
    assert_eq!(d[1].refresh_rate, 60);
}

#[test]
fn xrandr_first_output_is_primary_when_none_is() {
    let d = parse_xrandr_displays("VGA-1 connected 800x600+0+-10 (normal)\n");
    assert_eq!(d.len(), 1);
    assert!(d[0].primary);
    assert_eq!(d[0].y, -10);
    assert_eq!(d[0].width, 800);
}

#[test]
fn wlr_randr_output() {
    let out = "eDP-1 \"AU Optronics 0x243D\" (1920x1080, scale 1.00)\n  Enabled: yes\n  Modes:\n    1920x1080 px, 60.049000 Hz (preferred, current)\n  Position: 0,0\nHDMI-A-1 \"Dell\" (2560x1440, scale 1.00)\n  Position: 1920,0\n    2560x1440 px, 143.912003 Hz (current)\n";
    let rates = vec![None, None, None, Some(60), None, None, None, Some(144)];
    let d = parse_wlr_randr_displays(out, &rates);
    assert_eq!(d.len(), 2);
    assert_eq!(d[0].name, "eDP-1");
    assert_eq!(d[0].refresh_rate, 60);
    assert!(d[0].primary);
    assert_eq!(d[1].name, "HDMI-A-1");
    assert_eq!((d[1].width, d[1].height), (2560, 1440));
    assert_eq!(d[1].x, 1920);
    assert_eq!(d[1].refresh_rate, 144);
    assert!(!d[1].primary);
}

fn obj(entries: Vec<(&str, JsonValue)>) -> JsonValue {
    JsonValue::Object(entries.into_iter().map(|(k, v)| (k.to_string(), v)).collect())
}

#[test]
fn hyprland_monitors() {
    let v = JsonValue::Array(vec![
        obj(vec![
            ("focused", JsonValue::Bool(false)),
            ("height", JsonValue::Number(JsonNumber::PosInt(1440))),
            ("name", JsonValue::Str("DP-1".to_string())),
            ("width", JsonValue::Number(JsonNumber::PosInt(2560))),
            ("x", JsonValue::Number(JsonNumber::NegInt(-2560))),
        ]),
        obj(vec![("name", JsonValue::Str("eDP-1".to_string()))]),
    ]);
    let d = parse_hyprland_displays(&v, &[165, 60]);
    assert_eq!(d.len(), 2);
    assert_eq!(d[0].resolution, "2560x1440");
    assert_eq!(d[0].x, -2560);
    assert!(!d[0].primary);
    assert_eq!(d[0].refresh_rate, 165);
    assert_eq!(d[1].resolution, "1920x1080");
    assert!(!d[1].primary);
    let lone = JsonValue::Array(vec![obj(vec![])]);
    let d = parse_hyprland_displays(&lone, &[60]);
    assert_eq!(d[0].name, "Unknown");
    assert!(d[0].primary);
}

#[test]
fn display_detection_order() {
    let one = DisplayInfo {
        id: "X".to_string(),
        name: "X".to_string(),
        resolution: "1x1".to_string(),
        width: 1,
        height: 1,
        x: 0,
        y: 0,
        refresh_rate: 60,
        primary: true,
        connected: true,
    };
    let d = detect_displays(vec![None, Some(vec![]), Some(vec![one.clone()])]);
    assert_eq!(d, vec![one]);
    let f = detect_displays(vec![None, None, None]);
    assert_eq!(f.len(), 1);
    assert_eq!(f[0].name, "eDP-1");
    assert_eq!(f[0].resolution, "1920x1080");
    assert!(f[0].primary && f[0].connected);
}

fn files() -> Vec<String> {
    vec!["/w/a.mp4".to_string(), "/w/b.mp4".to_string(), "/w/c.mp4".to_string()]
}

#[test]
fn catalogue_stepping() {
    let f = files();
    assert_eq!(next_wallpaper_index(&f, &None), 0);
    assert_eq!(next_wallpaper_index(&f, &Some("/w/c.mp4".to_string())), 0);
    assert_eq!(next_wallpaper_index(&f, &Some("/w/a.mp4".to_string())), 1);
    assert_eq!(prev_wallpaper_index(&f, &Some("/w/a.mp4".to_string())), 2);
    assert_eq!(prev_wallpaper_index(&f, &Some("/elsewhere".to_string())), 0);
    for k in 0..3 {
        let n = next_wallpaper_index(&f, &Some(f[k].clone()));
        assert_eq!(prev_wallpaper_index(&f, &Some(f[n].clone())), k);
    }
}

#[test]
fn live_cycle() {
    assert_eq!(cycle_step(None, 2), (Some(0), CycleStep::Play(0)));
    assert_eq!(cycle_step(Some(0), 2), (Some(1), CycleStep::Play(1)));
    assert_eq!(cycle_step(Some(1), 2), (None, CycleStep::Finish));
    assert_eq!(cycle_step(None, 0), (None, CycleStep::Finish));
}

#[test]
fn waybar_text() {
    let mut e = WallpaperEngine::new("vaapi", None, 30, 55, true, 0);
    let s = waybar_status(&e);
    assert_eq!(s.text, "🌌 No Active Wallpaper");
    assert_eq!(s.alt, "playing");
    e.wallpaper_started("/w/ocean.mp4".to_string());
    e.pause();
    let s = waybar_status(&e);
    assert_eq!(s.text, "⏸️ ocean.mp4");
    assert_eq!(s.class, "paused");
    assert_eq!(s.tooltip, "OMYWALL Wallpaper Engine\nStatus: Paused\nWallpaper: ocean.mp4\nDecoder: vaapi\nFPS: 30\nVolume: 55% [MUTED]");
    assert_eq!(s.percentage, 55);
    e.hide_wallpaper();
    assert_eq!(waybar_status(&e).alt, "hidden");
}

#[test]
fn startup_monitor() {
    assert_eq!(initial_monitor("Monitor DP-1 (ID 0):\n\t2560x1440@165\n"), Some("DP-1".to_string()));
    assert_eq!(initial_monitor("error\n"), None);
    assert_eq!(initial_monitor(""), None);
}

#[test]
fn monitor_mapping() {
    let map = vec![("DP-1".to_string(), "  ".to_string()), ("dp-1".to_string(), "/w/x.mp4".to_string())];
    assert_eq!(get_monitor_wallpaper(&map, "DP-1"), Some("/w/x.mp4".to_string()));
    assert_eq!(get_monitor_wallpaper(&map, "HDMI-1"), None);
}

#[test]
fn active_wallpaper_choice() {
    let fb = vec!["assets/wallpapers/bunny.mp4".to_string(), "/h/bunny.mp4".to_string()];
    assert_eq!(apply_active_wallpaper(true, Some("/x".to_string()), None, false, &fb, &[true, true], None), ActiveChoice::Nothing);
    assert_eq!(
        apply_active_wallpaper(false, Some("https://a".to_string()), None, false, &fb, &[false, false], None),
        ActiveChoice::Url("https://a".to_string())
    );
    assert_eq!(
        apply_active_wallpaper(false, Some(" ".to_string()), Some("/d.mp4".to_string()), true, &fb, &[true, true], None),
        ActiveChoice::File("/d.mp4".to_string())
    );
    assert_eq!(
        apply_active_wallpaper(false, None, Some("/d.mp4".to_string()), false, &fb, &[false, true], None),
        ActiveChoice::File("/h/bunny.mp4".to_string())
    );
    assert_eq!(
        apply_active_wallpaper(false, None, None, false, &fb, &[false, false], Some("/c.mp4".to_string())),
        ActiveChoice::File("/c.mp4".to_string())
    );
    assert_eq!(apply_active_wallpaper(false, None, None, false, &fb, &[false, false], None), ActiveChoice::Nothing);
}

#[test]
fn catalogue_extensions() {
    assert!(is_wallpaper_ext("MKV"));
    assert!(is_wallpaper_ext("webp"));
    assert!(!is_wallpaper_ext("txt"));
    assert!(!is_wallpaper_ext("bmp"));
}
