use omywall::config::{default_fps, default_widget_position};
use omywall::daemon::instance_lock_path;
use omywall::engine::{mpv_message, MpvCommand};
use omywall::gui::{always_on_top_commands, minimize_commands};
use omywall::logger::log_file_path;
use omywall::panel::{
    add_item_to_library, apply_item, apply_target, bookmark_from_form, bookmark_removed_message,
    bookmark_saved_message, browse, carousel_next, carousel_prev, download_finished, panel_step, ApplyTarget,
    ItemAction, ListingQuery, PanelEvent, WorkshopPanel,
};
use omywall::steam_workshop::{workshop_temp_dir, WorkshopStep};

fn panel() -> WorkshopPanel {
    WorkshopPanel { query: "sea".to_string(), page: 3, sort: "trend".to_string(), days: 7, loading: false, status: String::new() }
}

#[test]
fn workshop_paging() {
    let (p, q) = panel_step(panel(), PanelEvent::PagePrev);
    assert_eq!(p.page, 2);
    assert!(p.loading);
    assert_eq!(q, Some(ListingQuery { browse_only: false, query: "sea".to_string(), page: 2, sort: "trend".to_string(), days: 7 }));
    let mut first = panel();
    first.page = 1;
    let (p1, q1) = panel_step(first.clone(), PanelEvent::PagePrev);
    assert_eq!((p1, q1), (first, None));
    let (p2, q2) = panel_step(panel(), PanelEvent::SortChanged("mostrecent".to_string()));
    assert_eq!((p2.page, p2.days, p2.sort.as_str()), (1, 0, "mostrecent"));
    assert!(q2.is_some());
    let (p3, q3) = panel_step(panel(), PanelEvent::Clear);
    assert_eq!(p3.query, "");
    assert!(q3.unwrap().browse_only);
    let (p4, _) = panel_step(panel(), PanelEvent::Loaded(Ok(12)));
    assert_eq!(p4.status, "Loaded 12 Workshop items");
    assert!(!p4.loading);
    let (p5, _) = panel_step(panel(), PanelEvent::Loaded(Err("offline".to_string())));
    assert_eq!(p5.status, "Workshop Error: offline");
    let (p6, q6) = panel_step(panel(), PanelEvent::PageNext);
    assert_eq!(p6.page, 4);
    assert!(q6.is_some());
}

#[test]
fn browse_ignores_blank_queries() {
    let q = ListingQuery { browse_only: false, query: "  ".to_string(), page: 1, sort: "trend".to_string(), days: 7 };
    let (_, step) = browse(&q);
    assert!(matches!(step, WorkshopStep::FetchPage(ref u) if u.contains("browse/?appid=431960")));
}

#[test]
fn workshop_item_buttons() {
    assert_eq!(apply_item("42", Some("/dl/42".to_string()), Some("/steam/42".to_string())), ItemAction::Apply("/dl/42".to_string()));
    assert_eq!(apply_item("42", None, Some("/steam/42".to_string())), ItemAction::Apply("/steam/42".to_string()));
    assert_eq!(
        apply_item("42", None, None),
        ItemAction::Download { id: "42".to_string(), status: "Downloading item 42 before applying...".to_string() }
    );
    assert_eq!(add_item_to_library("7", true), ItemAction::Rescan { status: "Item 7 is available in Steam library".to_string() });
    assert_eq!(
        add_item_to_library("7", false),
        ItemAction::Download { id: "7".to_string(), status: "Downloading item 7 to library...".to_string() }
    );
    assert_eq!(download_finished(&Ok("/x".to_string())), ("Downloaded: /x".to_string(), true));
    assert_eq!(download_finished(&Err("no".to_string())), ("Download failed: no".to_string(), false));
}

#[test]
fn carousel_and_targets() {
    assert_eq!(carousel_next(4, 5), 0);
    assert_eq!(carousel_next(1, 5), 2);
    assert_eq!(carousel_next(3, 0), 3);
    assert_eq!(carousel_prev(0, 5), 4);
    assert_eq!(carousel_prev(2, 5), 1);
    assert_eq!(apply_target("https://y.tv/x"), ApplyTarget::Url("https://y.tv/x".to_string()));
    assert_eq!(apply_target("/w/a.mp4"), ApplyTarget::File("/w/a.mp4".to_string()));
    assert_eq!(bookmark_from_form("  ", " https://a.b "), Some(("https://a.b".to_string(), "https://a.b".to_string())));
    assert_eq!(bookmark_from_form(" Rain ", "x.html"), Some(("Rain".to_string(), "x.html".to_string())));
    assert_eq!(bookmark_from_form("t", "   "), None);
    assert_eq!(bookmark_saved_message("Rain"), "Saved Web / YouTube URL: Rain");
    assert_eq!(bookmark_removed_message("x.html"), "Removed bookmark: x.html");
}

#[test]
fn player_socket_lines() {
    assert_eq!(mpv_message(&MpvCommand::SetPause(true)), "{\"command\":[\"set_property\",\"pause\",true]}\n");
    assert_eq!(mpv_message(&MpvCommand::SetVolume(-3)), "{\"command\":[\"set_property\",\"volume\",-3]}\n");
    assert_eq!(mpv_message(&MpvCommand::SetFps(60)), "{\"command\":[\"set_property\",\"override-display-fps\",60]}\n");
    assert_eq!(mpv_message(&MpvCommand::LoadFile("/a \"b\".mp4".to_string())), "{\"command\":[\"loadfile\",\"/a \\\"b\\\".mp4\",\"replace\"]}\n");
    assert_eq!(mpv_message(&MpvCommand::Quit), "{\"command\":[\"quit\"]}\n");
    let mut obj = serde_json::Map::new();
    obj.insert(
        "command".to_string(),
        serde_json::Value::Array(vec![
            serde_json::Value::String("set_property".to_string()),
            serde_json::Value::String("hwdec".to_string()),
            serde_json::Value::String("nvdec".to_string()),
        ]),
    );
    let expected = format!("{}\n", serde_json::Value::Object(obj));
    assert_eq!(mpv_message(&MpvCommand::SetHwdec("nvdec".to_string())), expected);
}

#[test]
fn window_commands() {
    let m = minimize_commands();
    assert_eq!(m.len(), 5);
    assert_eq!(m[2].0, "swaymsg");
    assert_eq!(m[2].1, vec!["[title=\"OMYWALL\"]", "move", "scratchpad"]);
    assert_eq!(always_on_top_commands(true).len(), 2);
    assert_eq!(always_on_top_commands(false)[0].1, vec!["dispatch", "unpin", "title:^(OMYWALL.*)$"]);
}

#[test]
fn standard_places() {
    assert_eq!(log_file_path(Some("/c")), "/c/omywall/omywall.log");
    assert_eq!(log_file_path(None), "/home/user/.config/omywall/omywall.log");
    assert_eq!(omywall::logger::get_log_path(Some("/var/log/o.log"), Some("/c")), "/var/log/o.log");
    assert_eq!(omywall::logger::get_log_path(None, Some("/c")), "/c/omywall/omywall.log");
    assert_eq!(instance_lock_path(Some("/run/user/1000"), "omywall-daemon"), "/run/user/1000/omywall-daemon.lock");
    assert_eq!(instance_lock_path(None, "gui"), "/tmp/gui.lock");
    assert_eq!(workshop_temp_dir(Some("/h")), "/h/.cache/omywall/steam_workshop");
    assert_eq!(workshop_temp_dir(None), "/home/user/.cache/omywall/steam_workshop");
    assert_eq!(default_widget_position(), "top_right");
    assert_eq!(default_fps(), 60);
}
