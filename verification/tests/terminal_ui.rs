use omywall::daemon::{catalogue_dirs, catalogue_files, scan_reads_depth, tui_dirs};
use omywall::tui::{
    after_rescan, current_name, handle_key, handle_reply, list_title, mode_label, visible_wallpapers, ws_badge,
    InputMode, Key, TuiAction, TuiFacts, TuiReply, TuiRequest, TuiState,
};

fn facts() -> TuiFacts {
    TuiFacts { slideshow_active: false, is_muted: true, volume: 40, slideshow_interval: 300, slideshow_shuffle: true }
}

fn list() -> Vec<String> {
    vec!["/w/Ocean.mp4".to_string(), "/w/forest.webm".to_string(), "/w/oceanic.gif".to_string()]
}

fn press(st: TuiState, key: Key, visible: &[String]) -> (TuiState, TuiAction) {
    handle_key(st, key, visible, facts())
}

#[test]
fn search_filters_by_file_name() {
    let all = list();
    assert_eq!(visible_wallpapers(&all, ""), all);
    assert_eq!(visible_wallpapers(&all, "OCEAN"), vec!["/w/Ocean.mp4".to_string(), "/w/oceanic.gif".to_string()]);
    assert!(visible_wallpapers(&all, "w/").is_empty());
}

#[test]
fn navigation_wraps_around() {
    let v = list();
    let st = TuiState::new(v.len(), vec![]);
    assert_eq!(st.selected, Some(0));
    assert_eq!(st.status_msg, "Connected to OMYWALL Wallpaper Engine");
    let (st, _) = press(st, Key::Up, &v);
    assert_eq!(st.selected, Some(2));
    let (st, _) = press(st, Key::Char('j'), &v);
    assert_eq!(st.selected, Some(0));
    let (st, a) = press(st, Key::Enter, &v);
    assert_eq!(a, TuiAction::Send(TuiRequest::SetWallpaper { path: "/w/Ocean.mp4".to_string() }));
    assert_eq!(TuiState::new(0, vec![]).selected, None);
}

#[test]
fn typing_modes() {
    let v = list();
    let st = TuiState::new(3, vec![]);
    let (st, _) = press(st, Key::Char('/'), &v);
    assert_eq!(st.mode, InputMode::Search);
    let (st, _) = press(st, Key::Char('o'), &v);
    let (st, _) = press(st, Key::Char('c'), &v);
    let (st, _) = press(st, Key::Backspace, &v);
    assert_eq!(st.search_query, "o");
    let (st, a) = press(st, Key::Enter, &v);
    assert_eq!((st.mode, a), (InputMode::Normal, TuiAction::Nothing));
    assert_eq!(st.search_query, "o");

    let (st, _) = press(st, Key::Char('w'), &v);
    let (st, _) = press(st, Key::Char('3'), &v);
    let (st, _) = press(st, Key::Char('!'), &v);
    assert_eq!(st.ws_query, "3");
    let (st, a) = press(st, Key::Enter, &v);
    assert_eq!(
        a,
        TuiAction::Send(TuiRequest::SetWorkspaceWallpaper { workspace: "3".to_string(), path: "/w/Ocean.mp4".to_string() })
    );
    assert_eq!((st.mode, st.ws_query.as_str()), (InputMode::Normal, ""));

    let (st, _) = press(st, Key::Char('M'), &v);
    let (st, _) = press(st, Key::Char('!'), &v);
    assert_eq!(st.ws_query, "!");
    let (st, _) = press(st, Key::Esc, &v);
    assert_eq!((st.mode, st.ws_query.as_str()), (InputMode::Normal, ""));

    let (st, _) = press(st, Key::Char('u'), &v);
    let mut st = st;
    for c in " https://x.tv ".chars() {
        st = press(st, Key::Char(c), &v).0;
    }
    let (st, a) = press(st, Key::Enter, &v);
    assert_eq!(a, TuiAction::Send(TuiRequest::SetUrl { url: "https://x.tv".to_string() }));
    assert_eq!(st.url_query, "");
}

#[test]
fn normal_mode_requests() {
    let v = list();
    let st = TuiState::new(3, vec![]);
    assert_eq!(press(st.clone(), Key::Char('q'), &v).1, TuiAction::Quit);
    assert_eq!(press(st.clone(), Key::Char('s'), &v).1, TuiAction::Send(TuiRequest::StartSlideshow { interval_secs: 300, shuffle: true }));
    assert_eq!(press(st.clone(), Key::Char('m'), &v).1, TuiAction::Send(TuiRequest::SetMute { mute: false }));
    assert_eq!(press(st.clone(), Key::Char('+'), &v).1, TuiAction::Send(TuiRequest::SetVolume { volume: 45 }));
    assert_eq!(press(st.clone(), Key::Char('_'), &v).1, TuiAction::Send(TuiRequest::SetVolume { volume: 35 }));
    assert_eq!(press(st.clone(), Key::Char('['), &v).1, TuiAction::Send(TuiRequest::OpacityDown));
    assert_eq!(press(st.clone(), Key::Tab, &v).1, TuiAction::Send(TuiRequest::ToggleMode));
    assert_eq!(press(st.clone(), Key::Char('r'), &v).1, TuiAction::Rescan);
    assert_eq!(press(st.clone(), Key::Char('z'), &v).1, TuiAction::Nothing);
}

#[test]
fn replies_update_the_status() {
    let st = TuiState::new(3, vec![("1".to_string(), "/a".to_string())]);
    let req = TuiRequest::SetWallpaper { path: "/w/x.mp4".to_string() };
    let s1 = handle_reply(st.clone(), &req, &TuiReply::Done("ok".to_string()));
    assert_eq!(s1.status_msg, "Applied wallpaper: ok");
    let s2 = handle_reply(st.clone(), &req, &TuiReply::Refused("bad".to_string()));
    assert_eq!(s2.status_msg, "Daemon error: bad");
    let s3 = handle_reply(st.clone(), &req, &TuiReply::Failed("down".to_string()));
    assert_eq!(s3.status_msg, "IPC error: down");
    let ws = TuiRequest::SetWorkspaceWallpaper { workspace: "1".to_string(), path: "/b".to_string() };
    let s4 = handle_reply(st.clone(), &ws, &TuiReply::Done("mapped".to_string()));
    assert_eq!(s4.ws_mappings, vec![("1".to_string(), "/b".to_string())]);
    let ws2 = TuiRequest::SetWorkspaceWallpaper { workspace: "2".to_string(), path: "/b".to_string() };
    let s5 = handle_reply(s4, &ws2, &TuiReply::Done("m".to_string()));
    assert_eq!(s5.ws_mappings.len(), 2);
    assert_eq!(handle_reply(st.clone(), &TuiRequest::TogglePause, &TuiReply::Done("x".to_string())), st);
    assert_eq!(after_rescan(st, "/w", 12).status_msg, "Rescanned /w. Found 12 wallpapers.");
}

#[test]
fn list_decorations() {
    let mut st = TuiState::new(3, vec![]);
    assert_eq!(list_title(&st, 3), " Wallpapers (3) ");
    st.mode = InputMode::Search;
    st.search_query = "sea".to_string();
    assert_eq!(list_title(&st, 3), " Wallpapers (Search: sea) ");
    assert_eq!(mode_label(InputMode::SetUrl), "WEB STREAM URL MODE");
    let m = vec![("3".to_string(), "/a".to_string()), ("1".to_string(), "/a".to_string()), ("2".to_string(), "/b".to_string())];
    assert_eq!(ws_badge(&m, "/a"), " [WS 1,3]");
    assert_eq!(ws_badge(&m, "/c"), "");
    assert_eq!(current_name("https://x.tv/live"), "https://x.tv/live");
    assert_eq!(current_name("/w/sea.mp4"), "sea.mp4");
}

#[test]
fn catalogue_scan_order() {
    let found = vec!["/w/b.mp4", "/w/a-b/x.png", "/w/a/z.gif", "/w/b.mp4", "/v/q.webm"]
        .into_iter()
        .map(String::from)
        .collect();
    assert_eq!(catalogue_files(found), vec!["/v/q.webm", "/w/a/z.gif", "/w/a-b/x.png", "/w/b.mp4"]);
    let d = catalogue_dirs("/h");
    assert_eq!(d.len(), 10);
    assert_eq!(d[6], "/h/.local/share/Steam/steamapps/workshop/content/431960");
    assert_eq!(d[9], "/usr/share/backgrounds");
    assert_eq!(tui_dirs("/h")[2], "/h/.local/share/wallpapers");
    assert!(scan_reads_depth(4));
    assert!(!scan_reads_depth(5));
}
