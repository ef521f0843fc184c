use omywall::engine::{EngineAction, MpvCommand, WallpaperEngine};
use omywall::requests::{
    daemon_step, slideshow_tick, DaemonReply, DaemonRequest, DaemonState, DaemonWork, SlideshowState,
};

fn state() -> DaemonState {
    DaemonState {
        engine: WallpaperEngine::new("auto", None, 60, 30, false, 0),
        slideshow: SlideshowState { active: false, interval_secs: 300, shuffle: false },
        monitors: vec![],
        active_monitor: None,
        cycle: None,
    }
}

fn files() -> Vec<String> {
    vec!["/w/a.mp4".to_string(), "/w/b.mp4".to_string(), "/w/c.html".to_string()]
}

fn message(r: &DaemonReply) -> String {
    match r {
        DaemonReply::Done(m) | DaemonReply::DoneIfWorked(m) | DaemonReply::Failed(m) => m.clone(),
        _ => String::new(),
    }
}

#[test]
fn slideshow_starts_ticks_and_stops() {
    let mut st = state();
    let fs = files();
    assert_eq!(slideshow_tick(&st.slideshow, &fs, &None), None);
    let r = daemon_step(&mut st, &fs, DaemonRequest::StartSlideshow { interval_secs: 60, shuffle: true });
    assert_eq!(message(&r.reply), "Slideshow started with 60s interval");
    assert_eq!(st.slideshow, SlideshowState { active: true, interval_secs: 60, shuffle: true });
    assert_eq!(slideshow_tick(&st.slideshow, &fs, &None), Some(0));
    assert_eq!(slideshow_tick(&st.slideshow, &fs, &Some("/w/c.html".to_string())), Some(0));
    assert_eq!(slideshow_tick(&st.slideshow, &fs, &Some("/w/a.mp4".to_string())), Some(1));
    assert_eq!(slideshow_tick(&st.slideshow, &[], &None), None);
    let r = daemon_step(&mut st, &fs, DaemonRequest::StopSlideshow);
    assert_eq!(message(&r.reply), "Slideshow stopped");
    assert!(!st.slideshow.active);
    assert_eq!(st.slideshow.interval_secs, 60);
}

#[test]
fn playback_requests() {
    let mut st = state();
    let fs = files();
    let r = daemon_step(&mut st, &fs, DaemonRequest::Pause);
    assert_eq!(message(&r.reply), "Playback paused");
    assert!(st.engine.is_paused);
    assert_eq!(r.work, DaemonWork::Engine { actions: vec![EngineAction::Mpv(MpvCommand::SetPause(true))], commands: vec![] });
    let r = daemon_step(&mut st, &fs, DaemonRequest::TogglePause);
    assert_eq!(message(&r.reply), "Playback state: Playing");
    let r = daemon_step(&mut st, &fs, DaemonRequest::SetVolume { volume: 150 });
    assert_eq!(message(&r.reply), "Volume set to 150%");
    assert_eq!(st.engine.volume, 100);
    let r = daemon_step(&mut st, &fs, DaemonRequest::SetMute { mute: true });
    assert_eq!(message(&r.reply), "Mute state set to true");
    let r = daemon_step(&mut st, &fs, DaemonRequest::SetGpuDevice { gpu_device: Some("/dev/dri/card1".to_string()) });
    assert_eq!(message(&r.reply), "GPU device target set to Some(\"/dev/dri/card1\")");
    assert!(r.save_settings);
    let r = daemon_step(&mut st, &fs, DaemonRequest::SetScreen { screen_id: -1 });
    assert_eq!(message(&r.reply), "Target screen set to Screen -1");
    let r = daemon_step(&mut st, &fs, DaemonRequest::ToggleHide);
    assert_eq!(message(&r.reply), "Wallpaper visibility set to: Hidden");
    assert!(st.engine.is_hidden);
    let r = daemon_step(&mut st, &fs, DaemonRequest::QuitDaemon);
    assert!(r.quit);
    assert_eq!(message(&r.reply), "Daemon shutting down...");
}

#[test]
fn catalogue_requests() {
    let mut st = state();
    let fs = files();
    let r = daemon_step(&mut st, &fs, DaemonRequest::NextWallpaper);
    assert_eq!(r.work, DaemonWork::Play("/w/a.mp4".to_string()));
    assert_eq!(message(&r.reply), "Switched to /w/a.mp4");
    st.engine.wallpaper_started("/w/a.mp4".to_string());
    let r = daemon_step(&mut st, &fs, DaemonRequest::PrevWallpaper);
    assert_eq!(r.work, DaemonWork::Play("/w/c.html".to_string()));
    let r = daemon_step(&mut st, &[], DaemonRequest::NextWallpaper);
    assert_eq!(r.reply, DaemonReply::Failed("Wallpaper Exception: No wallpapers found in directory".to_string()));
    let r = daemon_step(&mut st, &fs, DaemonRequest::CycleLiveWallpaper);
    assert_eq!(message(&r.reply), "Cycled live wallpaper [1/3]: a.mp4");
    assert_eq!(st.cycle, Some(0));
    daemon_step(&mut st, &fs, DaemonRequest::CycleLiveWallpaper);
    daemon_step(&mut st, &fs, DaemonRequest::CycleLiveWallpaper);
    let r = daemon_step(&mut st, &fs, DaemonRequest::CycleLiveWallpaper);
    assert_eq!(message(&r.reply), "Live wallpaper cycle completed. Restored default background.");
    assert_eq!(st.cycle, None);
    assert!(st.engine.user_stopped);
    let r = daemon_step(&mut st, &fs, DaemonRequest::SetWallpaper { path: "/w/b.mp4".to_string() });
    assert_eq!(r.default_on_success, Some("/w/b.mp4".to_string()));
    assert_eq!(message(&r.reply), "Wallpaper set to /w/b.mp4");
    let r = daemon_step(&mut st, &fs, DaemonRequest::ListWallpapers);
    assert_eq!(r.reply, DaemonReply::WallpaperList { files: fs.clone(), current: None });
}

#[test]
fn monitor_requests_and_status() {
    let mut st = state();
    let fs = files();
    let r = daemon_step(&mut st, &fs, DaemonRequest::SwitchMonitor { monitor: "DP-1".to_string() });
    assert_eq!(message(&r.reply), "Switched to Monitor DP-1");
    assert_eq!(r.work, DaemonWork::ApplyActive(None));
    let r = daemon_step(
        &mut st,
        &fs,
        DaemonRequest::SetMonitorWallpaper { monitor: "DP-1".to_string(), path: "/w/b.mp4".to_string() },
    );
    assert_eq!(message(&r.reply), "Monitor DP-1 mapped to '/w/b.mp4'");
    assert_eq!(r.work, DaemonWork::ApplyActive(Some("/w/b.mp4".to_string())));
    let r = daemon_step(&mut st, &fs, DaemonRequest::GetMonitorMappings);
    assert_eq!(r.reply, DaemonReply::Mappings(vec![("DP-1".to_string(), "/w/b.mp4".to_string())]));
    let r = daemon_step(
        &mut st,
        &fs,
        DaemonRequest::SetWidget { url: "assets/widgets/desktop_hud.html".to_string(), enabled: true, position: None },
    );
    assert_eq!(message(&r.reply), "Desktop widget state: Enabled");
    assert_eq!(
        r.work,
        DaemonWork::Widget {
            actions: vec![EngineAction::StopWidget],
            launch: Some("assets/widgets/desktop_hud.html".to_string())
        }
    );
    let r = daemon_step(&mut st, &fs, DaemonRequest::GetStatus);
    match r.reply {
        DaemonReply::Status(s) => {
            assert_eq!(s.active_monitor, Some("DP-1".to_string()));
            assert_eq!(s.total_wallpapers, 3);
            assert_eq!(s.widget_position, Some("top_right".to_string()));
            assert!(s.widget_enabled);
        }
        _ => panic!("status expected"),
    }
    let r = daemon_step(&mut st, &fs, DaemonRequest::SetMonitorWallpaper { monitor: "DP-1".to_string(), path: " ".to_string() });
    assert_eq!(message(&r.reply), "Cleared Monitor DP-1 mapping");
    assert!(st.monitors.is_empty());
}
