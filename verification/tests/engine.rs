use omywall::config::{GpuInfo, WallpaperOverrides};
use omywall::engine::{
    mpv_args, mpvpaper_args, nvidia_env, route_wallpaper, set_url, widget_commands, EngineAction,
    MpvCommand, PathFacts, VideoPlan, WallpaperEngine, WallpaperRoute,
};

fn engine() -> WallpaperEngine {
    WallpaperEngine::new("auto", None, 60, 30, false, 0)
}

#[test]
fn pause_resume_and_toggle() {
    let mut e = engine();
    e.wallpaper_started("/w/a.mp4".to_string());
    assert_eq!(e.pause(), vec![EngineAction::Mpv(MpvCommand::SetPause(true))]);
    assert!(e.is_paused());
    let (paused, acts) = e.toggle_pause();
    assert!(!paused);
    assert_eq!(acts, vec![EngineAction::ResumeOrReload(Some("/w/a.mp4".to_string()))]);
    let (paused, _) = e.toggle_pause();
    assert!(paused);
    let (paused, _) = e.toggle_pause();
    assert!(!paused && !e.is_paused());
}

#[test]
fn toggle_after_stop_reloads() {
    let mut e = engine();
    e.wallpaper_started("/w/a.mp4".to_string());
    e.user_stopped = true;
    let (paused, acts) = e.toggle_pause();
    assert!(!paused);
    assert_eq!(acts, vec![EngineAction::Reload("/w/a.mp4".to_string())]);
    assert!(e.is_user_stopped());
}

#[test]
fn hide_show_and_stop() {
    let mut e = engine();
    e.wallpaper_started("/w/a.mp4".to_string());
    e.hide_wallpaper();
    assert!(e.is_hidden() && e.is_paused());
    e.show();
    assert!(!e.is_hidden() && !e.is_paused());
    let (h, _) = e.toggle_hide();
    assert!(h && e.is_hidden());
    let (h, _) = e.toggle_hide();
    assert!(!h && !e.is_hidden());
    let acts = e.stop_wallpaper();
    assert_eq!(acts, vec![EngineAction::StopWeb, EngineAction::StopWidget, EngineAction::StopMpv, EngineAction::StopLwe]);
    assert!(e.is_user_stopped() && e.current_wallpaper().is_none());
    e.resume();
    assert!(!e.is_user_stopped() && e.current_wallpaper().is_none());
}

#[test]
fn volume_is_clamped() {
    let mut e = engine();
    assert_eq!(e.set_volume(150), MpvCommand::SetVolume(100));
    assert_eq!(e.volume(), 100);
    assert_eq!(e.set_volume(-5), MpvCommand::SetVolume(0));
    assert_eq!(e.set_volume(42), MpvCommand::SetVolume(42));
    assert_eq!(e.volume(), 42);
}

#[test]
fn scene_arguments() {
    let e = engine();
    let args = e.lwe_args("/ws/123", None, None, None);
    assert_eq!(args, vec!["/ws/123", "--fps", "60", "--volume", "30"]);

    let mut o = WallpaperOverrides::default();
    o.fps = Some(0);
    o.silent = Some(true);
    o.scaling = Some("default".to_string());
    o.clamp = Some("border".to_string());
    o.disable_mouse = Some(true);
    o.no_automute = Some(false);
    o.layer = Some("background".to_string());
    o.screenshot = Some("".to_string());
    o.custom_properties = vec![("barcount".to_string(), "32".to_string())];
    let args = e.lwe_args("/ws/123", Some("DP-1"), Some(&o), Some("/assets"));
    assert_eq!(
        args,
        vec![
            "--screen-root", "DP-1", "--bg", "/ws/123", "--silent", "--disable-mouse", "--clamp", "border",
            "--layer", "background", "--assets-dir", "/assets", "--set-property", "barcount=32",
        ]
    );

    let mut o2 = WallpaperOverrides::default();
    o2.volume = Some(-3);
    let args = e.lwe_args("/p", Some(""), Some(&o2), None);
    assert_eq!(args, vec!["/p", "--fps", "60", "--volume", "-3"]);
}

#[test]
fn scene_launch_needs_the_renderer() {
    let e = engine();
    let err = e.set_steam_wallpaper(None, "/p", None, None, None).err().unwrap();
    assert_eq!(err, "linux-wallpaperengine binary not found. Please install linux-wallpaperengine.");
    let ok = e.set_steam_wallpaper(Some("/usr/bin/lwe".to_string()), "/p", None, None, None).ok().unwrap();
    assert_eq!(ok.program, "/usr/bin/lwe");
    assert_eq!(ok.args, vec!["/p", "--fps", "60", "--volume", "30"]);
    assert_eq!(ok.stops, vec![EngineAction::StopMpv, EngineAction::StopWeb, EngineAction::StopLwe]);
}

#[test]
fn player_options() {
    let mut e = engine();
    e.set_gpu_device(Some("/dev/dri/card2".to_string()));
    let nv = e.is_nvidia(&[]);
    assert!(nv);
    assert_eq!(e.effective_hwdec(nv), "nvdec");
    let opts = e.mpv_options("/run/s.sock", "nvdec");
    assert_eq!(
        opts,
        "--config=no --input-ipc-server=/run/s.sock --loop-file=inf --image-display-duration=inf --no-osc --no-osd-bar --hwdec=nvdec --volume=30 --mute=no --panscan=1.0 --override-display-fps=60 --gpu-device=/dev/dri/card2 --vo=gpu"
    );
    assert_eq!(mpvpaper_args("o", ""), vec!["-o", "o", "*", "/dev/null"]);
    let a = mpv_args("/s", "auto", 5, true, "/v.mp4");
    assert_eq!(a[1], "--input-ipc-server=/s");
    assert_eq!(a[5], "--mute=yes");
    assert_eq!(a[12], "/v.mp4");
    assert_eq!(nvidia_env(true).len(), 5);
    assert_eq!(nvidia_env(false).len(), 4);

    let plain = engine();
    let gpus = vec![GpuInfo { name: "i".to_string(), vendor: "Intel".to_string(), device_path: None, is_primary: true }];
    assert!(!plain.is_nvidia(&gpus));
    assert_eq!(plain.effective_hwdec(false), "auto");
}

fn facts() -> PathFacts {
    PathFacts {
        is_pkg: false,
        is_file: true,
        parent: Some("/ws".to_string()),
        parent_has_project: false,
        is_dir: false,
        has_project: false,
        has_pkg_inside: false,
        exists: true,
    }
}

#[test]
fn routing() {
    let f = facts();
    assert_eq!(route_wallpaper("https://x.y/z", "https://x.y/z", &f), WallpaperRoute::Web("https://x.y/z".to_string()));
    assert_eq!(route_wallpaper("a.HTML", "/abs/a.HTML", &f), WallpaperRoute::Web("/abs/a.HTML".to_string()));
    let mut g = facts();
    g.parent_has_project = true;
    assert_eq!(route_wallpaper("/ws/scene.pkg", "/ws/scene.pkg", &g), WallpaperRoute::Scene("/ws".to_string()));
    let mut d = facts();
    d.is_file = false;
    d.is_dir = true;
    d.has_project = true;
    assert_eq!(route_wallpaper("/ws/1", "/ws/1", &d), WallpaperRoute::Scene("/ws/1".to_string()));
    let mut m = facts();
    m.exists = false;
    assert_eq!(
        route_wallpaper("/no.mp4", "/no.mp4", &m),
        WallpaperRoute::Missing("Wallpaper Exception: File does not exist at '/no.mp4'".to_string())
    );
    assert_eq!(route_wallpaper("/v.mp4", "/v.mp4", &f), WallpaperRoute::Video("/v.mp4".to_string()));
}

#[test]
fn video_plans() {
    let mut e = engine();
    assert_eq!(e.play_video("/v.mp4".to_string(), true, true), VideoPlan::LoadInPlayer("/v.mp4".to_string()));
    assert_eq!(e.play_video("/v.mp4".to_string(), false, true), VideoPlan::StartPlayer("/v.mp4".to_string()));
    e.wallpaper_started("/v.mp4".to_string());
    assert_eq!(e.play_video("/v.mp4".to_string(), true, true), VideoPlan::AlreadyPlaying(vec![]));
    e.pause();
    assert_eq!(
        e.play_video("/v.mp4".to_string(), true, false),
        VideoPlan::AlreadyPlaying(vec![EngineAction::ResumeOrReload(Some("/v.mp4".to_string()))])
    );
    assert!(!e.is_paused());
}

#[test]
fn url_checks() {
    assert_eq!(set_url("   ").err().unwrap(), "Wallpaper Exception: Provided URL is empty");
    let (t, acts) = set_url("  https://a.b  ").ok().unwrap();
    assert_eq!(t, "https://a.b");
    assert_eq!(acts, vec![EngineAction::StopMpv, EngineAction::StopLwe, EngineAction::StopWidget]);
}

#[test]
fn widget_settings_and_commands() {
    let mut e = engine();
    let (acts, launch) = e.set_widget_with_position("assets/widgets/hud.html", true, "top_left");
    assert_eq!(acts, vec![EngineAction::StopWidget]);
    assert_eq!(launch, Some("assets/widgets/hud.html".to_string()));
    assert_eq!(e.get_widget_info(), (true, Some("assets/widgets/hud.html".to_string())));
    assert_eq!(e.get_widget_position(), "top_left");
    let (_, launch) = e.set_widget("  ", true);
    assert_eq!(launch, None);
    assert_eq!(e.get_widget_position(), "top_left");
    let cmds = widget_commands(Some("/bin/omy"), "u", "top");
    assert_eq!(cmds.len(), 4);
    assert_eq!(cmds[0].0, "/bin/omy");
    assert_eq!(cmds[0].1, vec!["web-layer", "u", "--widget", "--position", "top"]);
    assert_eq!(cmds[3].1, vec!["--app=u", "--user-data-dir=/tmp/omywall-widget-profile"]);
    assert_eq!(widget_commands(None, "u", "top").len(), 3);
}

#[test]
fn playback_settings_change_one_field_each() {
    let mut e = engine();
    e.wallpaper_started("/w/a.mp4".to_string());
    assert_eq!(e.set_mute(true), MpvCommand::SetMute(true));
    assert!(e.is_muted());
    assert_eq!(e.set_hwdec("vaapi"), MpvCommand::SetHwdec("vaapi".to_string()));
    assert_eq!(e.hwdec, "vaapi");
    assert_eq!(e.set_target_fps(24), MpvCommand::SetFps(24));
    assert_eq!(e.target_fps(), 24);
    assert_eq!(e.set_screen(2), MpvCommand::SetScreen(2));
    assert_eq!(e.screen_id(), 2);
    assert_eq!(e.volume(), 30);
    assert_eq!(e.current_wallpaper, Some("/w/a.mp4".to_string()));
}

#[test]
fn lwe_binary_from_which_or_candidates() {
    let c = vec!["/home/u/.local/bin/linux-wallpaperengine".to_string(), "/usr/bin/linux-wallpaperengine".to_string()];
    assert_eq!(
        omywall::engine::find_lwe_binary(Some("  /opt/lwe/linux-wallpaperengine\n"), &c, &[true, true]),
        Some("/opt/lwe/linux-wallpaperengine".to_string())
    );
    assert_eq!(omywall::engine::find_lwe_binary(Some("  \n"), &c, &[false, true]), Some(c[1].clone()));
    assert_eq!(omywall::engine::find_lwe_binary(None, &c, &[false, false]), None);
}
