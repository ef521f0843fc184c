//! The daemon's answer to each request on its socket: what the request
//! does to the engine, the slideshow, the monitor mappings and the live
//! cycle, what outside work it asks for and what is replied. The slideshow
//! rotation is here too. Reading the socket, scanning the wallpaper
//! folders and running the renderers are the caller's.
use vstd::prelude::*;
use crate::config::WallpaperOverrides;
use crate::daemon::{cycle_step, map_get, next_index, next_wallpaper_index, opt_seq, prev_index, prev_wallpaper_index, waybar_status, without_key, with_key, CycleStep, WaybarStatus};
use crate::engine::{clamp_volume, hidden_from, int_string, int_text, pause_toggled, paused_from, resumed_from, shown_from, stopped_from, EngineAction, MpvCommand, WallpaperEngine};
use crate::lua::debug_quoted;
use crate::paths::file_name;
use crate::text::{decimal, decimal_string, string_of, trim};

verus! {

broadcast use vstd::string::group_string_axioms;

/// The automated slideshow: whether it runs, every how many seconds it
/// moves on, and whether it was asked to shuffle.
#[derive(Debug, Clone, Copy, PartialEq, Eq)]
pub struct SlideshowState {
    pub active: bool,
    pub interval_secs: u64,
    pub shuffle: bool,
}

/// A tick of the slideshow, once its interval has passed: the position in
/// the freshly scanned catalogue `files` to play (the entry after the
/// current wallpaper, or the first), when the slideshow runs and there is
/// a catalogue.
pub fn slideshow_tick(s: &SlideshowState, files: &[String], current: &Option<String>) -> (r: Option<usize>)
    ensures
        r == (if s.active && files@.len() > 0 {
            Some(next_index(files@, opt_seq(*current)) as usize)
        } else {
            None::<usize>
        }),
{
    if s.active && files.len() > 0 {
        Some(next_wallpaper_index(files, current))
    } else {
        None
    }
}

/// What the daemon keeps between requests.
pub struct DaemonState {
    pub engine: WallpaperEngine,
    pub slideshow: SlideshowState,
    /// Monitor name and the wallpaper mapped to it.
    pub monitors: Vec<(String, String)>,
    /// The monitor in focus, when known.
    pub active_monitor: Option<String>,
    /// The position the live-wallpaper cycle played last.
    pub cycle: Option<usize>,
}

/// The requests the daemon decides on. (Listing the displays, scanning
/// the Steam library and setting the opacity, a fraction, are answered by
/// the caller directly.)
#[derive(Debug, Clone, PartialEq)]
pub enum DaemonRequest {
    SetWallpaper { path: String },
    SetSteamWallpaper { path: String, screen: Option<String>, overrides: Option<WallpaperOverrides> },
    SetUrl { url: String },
    StopWallpaper,
    SwitchMonitor { monitor: String },
    CycleLiveWallpaper,
    Pause,
    Resume,
    TogglePause,
    Hide,
    Show,
    ToggleHide,
    Minimize,
    GetWaybarStatus,
    NextWallpaper,
    PrevWallpaper,
    StartSlideshow { interval_secs: u64, shuffle: bool },
    StopSlideshow,
    SetVolume { volume: i64 },
    SetMute { mute: bool },
    SetHwdec { hwdec: String },
    SetGpuDevice { gpu_device: Option<String> },
    SetTargetFps { fps: u32 },
    SetScreen { screen_id: i64 },
    SetMonitorWallpaper { monitor: String, path: String },
    GetMonitorMappings,
    SetWidget { url: String, enabled: bool, position: Option<String> },
    GetStatus,
    ListWallpapers,
    QuitDaemon,
}

/// Outside work a request asks for.
#[derive(Debug, Clone, PartialEq)]
pub enum DaemonWork {
    Nothing,
    /// Carry out the engine's actions, then run the commands.
    Engine { actions: Vec<EngineAction>, commands: Vec<Vec<String>> },
    /// Put the file on the desktop.
    Play(String),
    /// Put the Steam wallpaper on the desktop.
    PlaySteam { path: String, screen: Option<String>, overrides: Option<WallpaperOverrides> },
    /// Stream the web address.
    PlayUrl(String),
    /// Give the monitor in focus its wallpaper, from its mapping when it
    /// has one (see `daemon::apply_active_wallpaper`).
    ApplyActive(Option<String>),
    /// Carry out the engine's actions, then launch the widget when given.
    Widget { actions: Vec<EngineAction>, launch: Option<String> },
}

/// The daemon's state as reported.
#[derive(Debug, Clone, PartialEq)]
pub struct StatusRecord {
    pub current_wallpaper: Option<String>,
    pub active_monitor: Option<String>,
    pub is_paused: bool,
    pub is_hidden: bool,
    pub volume: i64,
    pub is_muted: bool,
    pub hwdec: String,
    pub gpu_device: Option<String>,
    pub target_fps: u32,
    pub screen_id: i64,
    pub slideshow_active: bool,
    pub slideshow_interval: u64,
    pub slideshow_shuffle: bool,
    pub widget_enabled: bool,
    pub widget_url: Option<String>,
    pub widget_position: Option<String>,
    pub monitor_wallpapers: Vec<(String, String)>,
    pub total_wallpapers: usize,
}

/// The reply to a request.
#[derive(Debug, Clone, PartialEq)]
pub enum DaemonReply {
    /// Success with this message, whatever the work gives.
    Done(String),
    /// Success with this message when the work succeeds; otherwise the
    /// work's error is the reply.
    DoneIfWorked(String),
    /// Failure with this message.
    Failed(String),
    Waybar(WaybarStatus),
    Status(StatusRecord),
    Mappings(Vec<(String, String)>),
    WallpaperList { files: Vec<String>, current: Option<String> },
}

/// What a request leads to: the work, the reply, the wallpaper to keep as
/// the default once the work succeeds, whether the settings (decoder, GPU
/// device, frame rate, monitor mappings, widget) are saved, and whether
/// the daemon stops after replying.
#[derive(Debug, Clone, PartialEq)]
pub struct DaemonOutcome {
    pub work: DaemonWork,
    pub reply: DaemonReply,
    pub default_on_success: Option<String>,
    pub save_settings: bool,
    pub quit: bool,
}


/// The state apart from the engine is as before.
pub open spec fn rest_kept(o: DaemonState, n: DaemonState) -> bool {
    &&& n.slideshow == o.slideshow
    &&& n.monitors@ == o.monitors@
    &&& n.active_monitor == o.active_monitor
    &&& n.cycle == o.cycle
}

/// The outcome carries the work `w`, keeps no default, saves nothing and
/// does not stop the daemon.
pub open spec fn plain(r: DaemonOutcome) -> bool {
    r.default_on_success is None && !r.save_settings && !r.quit
}

/// The work is to carry out `acts` and then run `cmds`.
pub open spec fn engine_work(r: DaemonOutcome, acts: Seq<EngineAction>, cmds: Seq<Seq<Seq<char>>>) -> bool {
    r.work matches DaemonWork::Engine { actions, commands } && actions@ == acts && commands@.map_values(
        |c: Vec<String>| c@.map_values(|x: String| x@),
    ) == cmds
}

/// The reply is a success with message `m` once the work succeeded.
pub open spec fn done_if_worked(r: DaemonOutcome, m: Seq<char>) -> bool {
    r.reply matches DaemonReply::DoneIfWorked(t) && t@ == m
}

/// The reply is a success with message `m`.
pub open spec fn done(r: DaemonOutcome, m: Seq<char>) -> bool {
    r.reply matches DaemonReply::Done(t) && t@ == m
}

/// The reply is a failure with message `m`, and nothing is done.
pub open spec fn failed(o: DaemonState, n: DaemonState, r: DaemonOutcome, m: Seq<char>) -> bool {
    &&& n.engine == o.engine
    &&& rest_kept(o, n)
    &&& r.work == DaemonWork::Nothing
    &&& plain(r)
    &&& r.reply matches DaemonReply::Failed(t) && t@ == m
}

/// The command that minimises the window in focus.
pub open spec fn minimize_command() -> Seq<Seq<char>> {
    seq!["hyprctl"@, "dispatch"@, "minimize"@]
}

/// The commands that tuck the settings window away.
pub open spec fn tuck_away_commands() -> Seq<Seq<Seq<char>>> {
    seq![
        seq!["hyprctl"@, "dispatch"@, "movetoworkspacesilent"@, "special:omywall,title:OMYWALL"@],
        minimize_command(),
        seq!["swaymsg"@, "[title=\"OMYWALL\"]"@, "move"@, "scratchpad"@],
        seq!["xdotool"@, "search"@, "--class"@, "omywall"@, "windowminimize"@],
    ]
}

/// `{:?}` of an optional text.
pub open spec fn debug_opt(o: Option<String>) -> Seq<char> {
    match o {
        Some(s) => "Some("@ + debug_quoted(s@) + ")"@,
        None => "None"@,
    }
}

/// The status the daemon reports for state `o` over the catalogue `files`.
pub open spec fn status_of(o: DaemonState, files: Seq<String>, st: StatusRecord) -> bool {
    &&& st.current_wallpaper == o.engine.current_wallpaper
    &&& st.active_monitor == o.active_monitor
    &&& st.is_paused == o.engine.is_paused
    &&& st.is_hidden == o.engine.is_hidden
    &&& st.volume == o.engine.volume
    &&& st.is_muted == o.engine.mute
    &&& st.hwdec@ == o.engine.hwdec@
    &&& st.gpu_device == o.engine.gpu_device
    &&& st.target_fps == o.engine.target_fps
    &&& st.screen_id == o.engine.screen_id
    &&& st.slideshow_active == o.slideshow.active
    &&& st.slideshow_interval == o.slideshow.interval_secs
    &&& st.slideshow_shuffle == o.slideshow.shuffle
    &&& st.widget_enabled == o.engine.widget_enabled
    &&& st.widget_url == o.engine.widget_url
    &&& st.widget_position matches Some(p) && p@ == o.engine.widget_position@
    &&& st.monitor_wallpapers@ == o.monitors@
    &&& st.total_wallpapers == files.len()
}

/// The work is to give the monitor in focus its wallpaper, `mapped`
/// being what the monitor mappings hold for it.
pub open spec fn apply_work(r: DaemonOutcome, mapped: Option<Seq<char>>) -> bool {
    r.work matches DaemonWork::ApplyActive(m) && opt_seq(m) == mapped
}

/// The wallpaper the mappings give the monitor in focus.
pub open spec fn active_mapping(monitors: Seq<(String, String)>, active: Option<String>) -> Option<Seq<char>> {
    match active {
        Some(m) => crate::daemon::monitor_choice(monitors, m@),
        None => None,
    }
}

/// The daemon went from `o` to `n` on request `req`, over the freshly
/// scanned catalogue `files`, with outcome `r`.
pub open spec fn daemon_stepped(o: DaemonState, n: DaemonState, files: Seq<String>, req: DaemonRequest, r: DaemonOutcome) -> bool {
    match req {
        DaemonRequest::SetWallpaper { path } => n.engine == o.engine && rest_kept(o, n) && r.work == DaemonWork::Play(path)
            && done_if_worked(r, "Wallpaper set to "@ + path@) && r.default_on_success == Some(path) && r.save_settings
            && !r.quit,
        DaemonRequest::SetSteamWallpaper { path, screen, overrides } => n.engine == o.engine && rest_kept(o, n)
            && r.work == (DaemonWork::PlaySteam { path, screen, overrides }) && done_if_worked(
            r,
            "Steam Wallpaper set to "@ + path@,
        ) && r.default_on_success == Some(path) && r.save_settings && !r.quit,
        DaemonRequest::SetUrl { url } => n.engine == o.engine && rest_kept(o, n) && r.work == DaemonWork::PlayUrl(url)
            && done_if_worked(r, "Streaming URL wallpaper: "@ + url@) && plain(r),
        DaemonRequest::StopWallpaper => stopped_from(o.engine, n.engine) && rest_kept(o, n) && engine_work(
            r,
            seq![EngineAction::StopWeb, EngineAction::StopWidget, EngineAction::StopMpv, EngineAction::StopLwe],
            seq![],
        ) && done_if_worked(r, "Wallpaper stopped"@) && plain(r),
        DaemonRequest::SwitchMonitor { monitor } => n.engine == o.engine && n.slideshow == o.slideshow && n.monitors@
            == o.monitors@ && n.cycle == o.cycle && n.active_monitor == Some(monitor) && apply_work(
            r,
            crate::daemon::monitor_choice(o.monitors@, monitor@),
        ) && done(r, "Switched to Monitor "@ + monitor@) && plain(r),
        DaemonRequest::CycleLiveWallpaper => if files.len() == 0 {
            failed(o, n, r, "No live wallpapers found in wallpaper directory"@)
        } else {
            let next: int = match o.cycle {
                Some(i) => i + 1,
                None => 0,
            };
            &&& n.slideshow == o.slideshow && n.monitors@ == o.monitors@ && n.active_monitor == o.active_monitor
            &&& plain(r)
            &&& if next >= files.len() {
                &&& n.cycle is None
                &&& stopped_from(o.engine, n.engine)
                &&& engine_work(
                    r,
                    seq![EngineAction::StopWeb, EngineAction::StopWidget, EngineAction::StopMpv, EngineAction::StopLwe],
                    seq![],
                )
                &&& done(r, "Live wallpaper cycle completed. Restored default background."@)
            } else {
                &&& n.cycle == Some(next as usize)
                &&& n.engine == o.engine
                &&& r.work == DaemonWork::Play(files[next])
                &&& done(
                    r,
                    "Cycled live wallpaper ["@ + decimal((next + 1) as nat) + "/"@ + decimal(files.len()) + "]: "@
                        + match file_name(files[next]@) {
                        Some(f) => f,
                        None => ""@,
                    },
                )
            }
        },
        DaemonRequest::Pause => paused_from(o.engine, n.engine) && rest_kept(o, n) && engine_work(
            r,
            seq![EngineAction::Mpv(MpvCommand::SetPause(true))],
            seq![],
        ) && done_if_worked(r, "Playback paused"@) && plain(r),
        DaemonRequest::Resume => resumed_from(o.engine, n.engine) && rest_kept(o, n) && engine_work(
            r,
            seq![EngineAction::ResumeOrReload(o.engine.current_wallpaper)],
            seq![],
        ) && done_if_worked(r, "Playback resumed"@) && plain(r),
        DaemonRequest::TogglePause => {
            let paused = if o.engine.user_stopped && o.engine.current_wallpaper is Some {
                false
            } else {
                !o.engine.is_paused
            };
            &&& rest_kept(o, n)
            &&& plain(r)
            &&& pause_toggled(o.engine, n.engine, paused)
            &&& done_if_worked(
                r,
                "Playback state: "@ + if paused {
                    "Paused"@
                } else {
                    "Playing"@
                },
            )
            &&& r.work matches DaemonWork::Engine { actions, commands }
            &&& commands@.len() == 0
            &&& (o.engine.user_stopped && o.engine.current_wallpaper is Some) ==> actions@ == seq![
                EngineAction::Reload(o.engine.current_wallpaper->0),
            ]
            &&& !(o.engine.user_stopped && o.engine.current_wallpaper is Some) ==> {
                &&& paused ==> actions@ == seq![EngineAction::Mpv(MpvCommand::SetPause(true))]
                &&& !paused ==> actions@ == seq![EngineAction::ResumeOrReload(o.engine.current_wallpaper)]
            }
        },
        DaemonRequest::Hide => hidden_from(o.engine, n.engine) && rest_kept(o, n) && engine_work(
            r,
            seq![EngineAction::Mpv(MpvCommand::SetPause(true))],
            seq![minimize_command()],
        ) && done_if_worked(r, "Wallpaper and GUI hidden / paused"@) && plain(r),
        DaemonRequest::Show => shown_from(o.engine, n.engine) && rest_kept(o, n) && engine_work(
            r,
            seq![EngineAction::ResumeOrReload(o.engine.current_wallpaper)],
            seq![],
        ) && done_if_worked(r, "Wallpaper restored / resumed"@) && plain(r),
        DaemonRequest::ToggleHide => rest_kept(o, n) && plain(r) && if o.engine.is_hidden {
            shown_from(o.engine, n.engine) && engine_work(
                r,
                seq![EngineAction::ResumeOrReload(o.engine.current_wallpaper)],
                seq![],
            ) && done_if_worked(r, "Wallpaper visibility set to: Visible"@)
        } else {
            hidden_from(o.engine, n.engine) && engine_work(
                r,
                seq![EngineAction::Mpv(MpvCommand::SetPause(true))],
                seq![minimize_command()],
            ) && done_if_worked(r, "Wallpaper visibility set to: Hidden"@)
        },
        DaemonRequest::Minimize => hidden_from(o.engine, n.engine) && rest_kept(o, n) && engine_work(
            r,
            seq![EngineAction::Mpv(MpvCommand::SetPause(true))],
            tuck_away_commands(),
        ) && done(r, "Minimized GUI window and paused wallpaper engine"@) && plain(r),
        DaemonRequest::GetWaybarStatus => {
            &&& n.engine == o.engine && rest_kept(o, n) && r.work == DaemonWork::Nothing && plain(r)
            &&& r.reply matches DaemonReply::Waybar(w)
            &&& w.text@ == crate::daemon::waybar_state(o.engine).3 + " "@ + crate::daemon::waybar_title(o.engine)
            &&& w.alt@ == crate::daemon::waybar_state(o.engine).1
            &&& w.class@ == crate::daemon::waybar_state(o.engine).2
            &&& w.tooltip@ == crate::daemon::waybar_tooltip(o.engine)
            &&& w.percentage == o.engine.volume
        },
        DaemonRequest::NextWallpaper => if files.len() == 0 {
            failed(o, n, r, "Wallpaper Exception: No wallpapers found in directory"@)
        } else {
            let k = next_index(files, opt_seq(o.engine.current_wallpaper));
            n.engine == o.engine && rest_kept(o, n) && r.work == DaemonWork::Play(files[k]) && done_if_worked(
                r,
                "Switched to "@ + files[k]@,
            ) && plain(r)
        },
        DaemonRequest::PrevWallpaper => if files.len() == 0 {
            failed(o, n, r, "Wallpaper Exception: No wallpapers found in directory"@)
        } else {
            let k = prev_index(files, opt_seq(o.engine.current_wallpaper));
            n.engine == o.engine && rest_kept(o, n) && r.work == DaemonWork::Play(files[k]) && done_if_worked(
                r,
                "Switched to "@ + files[k]@,
            ) && plain(r)
        },
        DaemonRequest::StartSlideshow { interval_secs, shuffle } => n.engine == o.engine && n.slideshow == (SlideshowState {
            active: true,
            interval_secs,
            shuffle,
        }) && n.monitors@ == o.monitors@ && n.active_monitor == o.active_monitor && n.cycle == o.cycle && r.work
            == DaemonWork::Nothing && done(r, "Slideshow started with "@ + decimal(interval_secs as nat) + "s interval"@)
            && plain(r),
        DaemonRequest::StopSlideshow => n.engine == o.engine && n.slideshow == (SlideshowState {
            active: false,
            ..o.slideshow
        }) && n.monitors@ == o.monitors@ && n.active_monitor == o.active_monitor && n.cycle == o.cycle && r.work
            == DaemonWork::Nothing && done(r, "Slideshow stopped"@) && plain(r),
        DaemonRequest::SetVolume { volume } => n.engine == (WallpaperEngine { volume: clamp_volume(volume), ..o.engine })
            && rest_kept(o, n) && engine_work(r, seq![EngineAction::Mpv(MpvCommand::SetVolume(clamp_volume(volume)))], seq![])
            && done_if_worked(r, "Volume set to "@ + int_text(volume) + "%"@) && plain(r),
        DaemonRequest::SetMute { mute } => n.engine == (WallpaperEngine { mute, ..o.engine }) && rest_kept(o, n)
            && engine_work(r, seq![EngineAction::Mpv(MpvCommand::SetMute(mute))], seq![]) && done_if_worked(
            r,
            "Mute state set to "@ + if mute {
                "true"@
            } else {
                "false"@
            },
        ) && plain(r),
        DaemonRequest::SetHwdec { hwdec } => {
            &&& n.engine == (WallpaperEngine { hwdec: n.engine.hwdec, ..o.engine })
            &&& n.engine.hwdec@ == hwdec@
            &&& rest_kept(o, n)
            &&& r.work matches DaemonWork::Engine { actions, commands }
            &&& actions@.len() == 1
            &&& actions@[0] matches EngineAction::Mpv(MpvCommand::SetHwdec(h))
            &&& h@ == hwdec@
            &&& commands@.len() == 0
            &&& done_if_worked(r, "Hardware decoder set to "@ + hwdec@)
            &&& r.default_on_success is None && r.save_settings && !r.quit
        },
        DaemonRequest::SetGpuDevice { gpu_device } => n.engine == (WallpaperEngine { gpu_device, ..o.engine })
            && rest_kept(o, n) && engine_work(r, seq![], seq![]) && done_if_worked(
            r,
            "GPU device target set to "@ + debug_opt(gpu_device),
        ) && r.default_on_success is None && r.save_settings && !r.quit,
        DaemonRequest::SetTargetFps { fps } => n.engine == (WallpaperEngine { target_fps: fps, ..o.engine }) && rest_kept(
            o,
            n,
        ) && engine_work(r, seq![EngineAction::Mpv(MpvCommand::SetFps(fps))], seq![]) && done_if_worked(
            r,
            "Target rendering FPS set to "@ + decimal(fps as nat) + " FPS"@,
        ) && r.default_on_success is None && r.save_settings && !r.quit,
        DaemonRequest::SetScreen { screen_id } => n.engine == (WallpaperEngine { screen_id, ..o.engine }) && rest_kept(
            o,
            n,
        ) && engine_work(r, seq![EngineAction::Mpv(MpvCommand::SetScreen(screen_id))], seq![]) && done_if_worked(
            r,
            "Target screen set to Screen "@ + int_text(screen_id),
        ) && plain(r),
        DaemonRequest::SetMonitorWallpaper { monitor, path } => {
            let blank = trim(path@).len() == 0;
            let m2 = if blank {
                without_key(o.monitors@, monitor@)
            } else {
                with_key(o.monitors@, monitor, path)
            };
            &&& n.engine == o.engine && n.slideshow == o.slideshow && n.active_monitor == o.active_monitor && n.cycle
                == o.cycle
            &&& n.monitors@ == m2
            &&& apply_work(r, active_mapping(m2, o.active_monitor))
            &&& done(
                r,
                if blank {
                    "Cleared Monitor "@ + monitor@ + " mapping"@
                } else {
                    "Monitor "@ + monitor@ + " mapped to '"@ + path@ + "'"@
                },
            )
            &&& r.default_on_success is None && r.save_settings && !r.quit
        },
        DaemonRequest::GetMonitorMappings => {
            &&& n.engine == o.engine && rest_kept(o, n) && r.work == DaemonWork::Nothing && plain(r)
            &&& r.reply matches DaemonReply::Mappings(m)
            &&& m@ == o.monitors@
        },
        DaemonRequest::SetWidget { url, enabled, position } => {
            let pos = match position {
                Some(p) => p@,
                None => o.engine.widget_position@,
            };
            &&& rest_kept(o, n)
            &&& n.engine == (WallpaperEngine {
                widget_enabled: enabled,
                widget_url: n.engine.widget_url,
                widget_position: n.engine.widget_position,
                ..o.engine
            })
            &&& crate::engine::string_opt(n.engine.widget_url) == if trim(url@).len() == 0 {
                None::<Seq<char>>
            } else {
                Some(url@)
            }
            &&& n.engine.widget_position@ == pos
            &&& r.work matches DaemonWork::Widget { actions, launch } && actions@ == seq![EngineAction::StopWidget]
                && launch == if enabled {
                n.engine.widget_url
            } else {
                None::<String>
            }
            &&& done_if_worked(
                r,
                "Desktop widget state: "@ + if enabled {
                    "Enabled"@
                } else {
                    "Disabled"@
                },
            )
            &&& r.default_on_success is None && r.save_settings && !r.quit
        },
        DaemonRequest::GetStatus => {
            &&& n.engine == o.engine && rest_kept(o, n) && r.work == DaemonWork::Nothing && plain(r)
            &&& r.reply matches DaemonReply::Status(st)
            &&& status_of(o, files, st)
        },
        DaemonRequest::ListWallpapers => {
            &&& n.engine == o.engine && rest_kept(o, n) && r.work == DaemonWork::Nothing && plain(r)
            &&& r.reply matches DaemonReply::WallpaperList { files: f, current }
            &&& f@ == files
            &&& current == o.engine.current_wallpaper
        },
        DaemonRequest::QuitDaemon => n.engine == o.engine && rest_kept(o, n) && r.work == DaemonWork::Nothing && done(
            r,
            "Daemon shutting down..."@,
        ) && r.default_on_success is None && !r.save_settings && r.quit,
    }
}


fn minimize_commands_vec() -> (r: Vec<Vec<String>>)
    ensures
        r@.map_values(|c: Vec<String>| c@.map_values(|x: String| x@)) == seq![minimize_command()],
{
    let a: Vec<String> = vec!["hyprctl".to_string(), "dispatch".to_string(), "minimize".to_string()];
    assert(a@.map_values(|x: String| x@) =~= minimize_command());
    let v: Vec<Vec<String>> = vec![a];
    assert(v@.map_values(|c: Vec<String>| c@.map_values(|x: String| x@)) =~= seq![minimize_command()]);
    v
}

fn tuck_away_commands_vec() -> (r: Vec<Vec<String>>)
    ensures
        r@.map_values(|c: Vec<String>| c@.map_values(|x: String| x@)) == tuck_away_commands(),
{
    let a: Vec<String> = vec![
        "hyprctl".to_string(), "dispatch".to_string(), "movetoworkspacesilent".to_string(),
        "special:omywall,title:OMYWALL".to_string(),
    ];
    let b: Vec<String> = vec!["hyprctl".to_string(), "dispatch".to_string(), "minimize".to_string()];
    let c: Vec<String> = vec![
        "swaymsg".to_string(), "[title=\"OMYWALL\"]".to_string(), "move".to_string(), "scratchpad".to_string(),
    ];
    let d: Vec<String> = vec![
        "xdotool".to_string(), "search".to_string(), "--class".to_string(), "omywall".to_string(),
        "windowminimize".to_string(),
    ];
    let ghost t = tuck_away_commands();
    assert(a@.map_values(|x: String| x@) =~= t[0]);
    assert(b@.map_values(|x: String| x@) =~= t[1]);
    assert(c@.map_values(|x: String| x@) =~= t[2]);
    assert(d@.map_values(|x: String| x@) =~= t[3]);
    let v: Vec<Vec<String>> = vec![a, b, c, d];
    assert(v@.map_values(|c: Vec<String>| c@.map_values(|x: String| x@)) =~= t);
    v
}

fn engine_outcome(actions: Vec<EngineAction>, commands: Vec<Vec<String>>, reply: DaemonReply) -> (r: DaemonOutcome)
    ensures
        r.work == (DaemonWork::Engine { actions, commands }),
        r.reply == reply,
        plain(r),
{
    DaemonOutcome { work: DaemonWork::Engine { actions, commands }, reply, default_on_success: None, save_settings: false, quit: false }
}

fn simple_outcome(work: DaemonWork, reply: DaemonReply) -> (r: DaemonOutcome)
    ensures
        r.work == work,
        r.reply == reply,
        plain(r),
{
    DaemonOutcome { work, reply, default_on_success: None, save_settings: false, quit: false }
}

fn joined(a: &str, b: &str) -> (r: String)
    ensures
        r@ == a@ + b@,
{
    let mut s = a.to_string();
    s.append(b);
    s
}

fn debug_opt_text(o: &Option<String>) -> (r: String)
    ensures
        r@ == debug_opt(*o),
{
    match o {
        Some(x) => {
            let mut s = "Some(".to_string();
            s.append(crate::lua::debug_quote(x.as_str()).as_str());
            s.append(")");
            s
        },
        None => "None".to_string(),
    }
}

fn opt_clone(o: &Option<String>) -> (r: Option<String>)
    ensures
        r == *o,
{
    match o {
        Some(x) => Some(x.clone()),
        None => None,
    }
}

fn pairs_clone(v: &Vec<(String, String)>) -> (r: Vec<(String, String)>)
    ensures
        r@ == v@,
{
    let mut out: Vec<(String, String)> = Vec::new();
    let mut i: usize = 0;
    while i < v.len()
        invariant
            i <= v.len(),
            out@ == v@.take(i as int),
        decreases v.len() - i,
    {
        out.push((v[i].0.clone(), v[i].1.clone()));
        assert(v@.take(i + 1) == v@.take(i as int).push(v@[i as int]));
        i += 1;
    }
    assert(v@.take(v.len() as int) == v@);
    out
}

fn strings_clone(v: &[String]) -> (r: Vec<String>)
    ensures
        r@ == v@,
{
    let mut out: Vec<String> = Vec::new();
    let mut i: usize = 0;
    while i < v.len()
        invariant
            i <= v.len(),
            out@ == v@.take(i as int),
        decreases v.len() - i,
    {
        out.push(v[i].clone());
        assert(v@.take(i + 1) == v@.take(i as int).push(v@[i as int]));
        i += 1;
    }
    assert(v@.take(v.len() as int) == v@);
    out
}

fn mapping_of(monitors: &Vec<(String, String)>, active: &Option<String>) -> (r: Option<String>)
    ensures
        opt_seq(r) == active_mapping(monitors@, *active),
{
    match active {
        Some(m) => crate::daemon::get_monitor_wallpaper(monitors.as_slice(), m.as_str()),
        None => None,
    }
}


fn status_record(state: &DaemonState, files: &[String]) -> (r: StatusRecord)
    ensures
        status_of(*state, files@, r),
{
    let e = &state.engine;
    StatusRecord {
        current_wallpaper: opt_clone(&e.current_wallpaper),
        active_monitor: opt_clone(&state.active_monitor),
        is_paused: e.is_paused,
        is_hidden: e.is_hidden,
        volume: e.volume,
        is_muted: e.mute,
        hwdec: e.hwdec.clone(),
        gpu_device: opt_clone(&e.gpu_device),
        target_fps: e.target_fps,
        screen_id: e.screen_id,
        slideshow_active: state.slideshow.active,
        slideshow_interval: state.slideshow.interval_secs,
        slideshow_shuffle: state.slideshow.shuffle,
        widget_enabled: e.widget_enabled,
        widget_url: opt_clone(&e.widget_url),
        widget_position: Some(e.widget_position.clone()),
        monitor_wallpapers: pairs_clone(&state.monitors),
        total_wallpapers: files.len(),
    }
}

fn cycle_text(k: usize, len: usize, file: &str) -> (r: String)
    requires
        k < len,
    ensures
        r@ == "Cycled live wallpaper ["@ + decimal((k + 1) as nat) + "/"@ + decimal(len as nat) + "]: "@ + match file_name(
            file@,
        ) {
            Some(f) => f,
            None => ""@,
        },
{
    let mut s = "Cycled live wallpaper [".to_string();
    s.append(decimal_string((k + 1) as u64).as_str());
    s.append("/");
    s.append(decimal_string(len as u64).as_str());
    s.append("]: ");
    match crate::paths::file_name_of(file) {
        Some(n) => s.append(string_of(n.as_slice()).as_str()),
        None => {
            proof {
                reveal_strlit("");
                assert(s@ + ""@ == s@);
            }
        },
    }
    s
}

fn one_action(a: EngineAction) -> (r: Vec<EngineAction>)
    ensures
        r@ == seq![a],
{
    let mut v: Vec<EngineAction> = Vec::new();
    v.push(a);
    assert(v@ =~= seq![a]);
    v
}

fn no_commands() -> (r: Vec<Vec<String>>)
    ensures
        r@.len() == 0,
        r@.map_values(|c: Vec<String>| c@.map_values(|x: String| x@)) == Seq::<Seq<Seq<char>>>::empty(),
{
    let v: Vec<Vec<String>> = Vec::new();
    assert(v@.map_values(|c: Vec<String>| c@.map_values(|x: String| x@)) =~= Seq::<Seq<Seq<char>>>::empty());
    v
}

/// Handles one request (see `daemon_stepped`), `files` being the
/// catalogue as just scanned.
pub fn daemon_step(state: &mut DaemonState, files: &[String], req: DaemonRequest) -> (r: DaemonOutcome)
    ensures
        daemon_stepped(*old(state), *final(state), files@, req, r),
{
    match req {
        DaemonRequest::SetWallpaper { path } => {
            let m = joined("Wallpaper set to ", path.as_str());
            DaemonOutcome {
                work: DaemonWork::Play(path.clone()),
                reply: DaemonReply::DoneIfWorked(m),
                default_on_success: Some(path),
                save_settings: true,
                quit: false,
            }
        },
        DaemonRequest::SetSteamWallpaper { path, screen, overrides } => {
            let m = joined("Steam Wallpaper set to ", path.as_str());
            DaemonOutcome {
                work: DaemonWork::PlaySteam { path: path.clone(), screen, overrides },
                reply: DaemonReply::DoneIfWorked(m),
                default_on_success: Some(path),
                save_settings: true,
                quit: false,
            }
        },
        DaemonRequest::SetUrl { url } => {
            let m = joined("Streaming URL wallpaper: ", url.as_str());
            simple_outcome(DaemonWork::PlayUrl(url), DaemonReply::DoneIfWorked(m))
        },
        DaemonRequest::StopWallpaper => {
            let acts = state.engine.stop_wallpaper();
            engine_outcome(acts, no_commands(), DaemonReply::DoneIfWorked("Wallpaper stopped".to_string()))
        },
        DaemonRequest::SwitchMonitor { monitor } => {
            let mapped = crate::daemon::get_monitor_wallpaper(state.monitors.as_slice(), monitor.as_str());
            let m = joined("Switched to Monitor ", monitor.as_str());
            state.active_monitor = Some(monitor);
            simple_outcome(DaemonWork::ApplyActive(mapped), DaemonReply::Done(m))
        },
        DaemonRequest::CycleLiveWallpaper => {
            if files.len() == 0 {
                return simple_outcome(
                    DaemonWork::Nothing,
                    DaemonReply::Failed("No live wallpapers found in wallpaper directory".to_string()),
                );
            }
            let (next, step) = cycle_step(state.cycle, files.len());
            state.cycle = next;
            match step {
                CycleStep::Finish => {
                    let acts = state.engine.stop_wallpaper();
                    engine_outcome(
                        acts,
                        no_commands(),
                        DaemonReply::Done("Live wallpaper cycle completed. Restored default background.".to_string()),
                    )
                },
                CycleStep::Play(k) => {
                    let m = cycle_text(k, files.len(), files[k].as_str());
                    simple_outcome(DaemonWork::Play(files[k].clone()), DaemonReply::Done(m))
                },
            }
        },
        DaemonRequest::Pause => {
            let acts = state.engine.pause();
            engine_outcome(acts, no_commands(), DaemonReply::DoneIfWorked("Playback paused".to_string()))
        },
        DaemonRequest::Resume => {
            let acts = state.engine.resume();
            engine_outcome(acts, no_commands(), DaemonReply::DoneIfWorked("Playback resumed".to_string()))
        },
        DaemonRequest::TogglePause => {
            let (paused, acts) = state.engine.toggle_pause();
            let m = joined("Playback state: ", if paused { "Paused" } else { "Playing" });
            engine_outcome(acts, no_commands(), DaemonReply::DoneIfWorked(m))
        },
        DaemonRequest::Hide => {
            let acts = state.engine.hide_wallpaper();
            engine_outcome(
                acts,
                minimize_commands_vec(),
                DaemonReply::DoneIfWorked("Wallpaper and GUI hidden / paused".to_string()),
            )
        },
        DaemonRequest::Show => {
            let acts = state.engine.show();
            engine_outcome(acts, no_commands(), DaemonReply::DoneIfWorked("Wallpaper restored / resumed".to_string()))
        },
        DaemonRequest::ToggleHide => {
            let (hidden, acts) = state.engine.toggle_hide();
            if hidden {
                engine_outcome(
                    acts,
                    minimize_commands_vec(),
                    DaemonReply::DoneIfWorked("Wallpaper visibility set to: Hidden".to_string()),
                )
            } else {
                engine_outcome(acts, no_commands(), DaemonReply::DoneIfWorked("Wallpaper visibility set to: Visible".to_string()))
            }
        },
        DaemonRequest::Minimize => {
            let acts = state.engine.hide_wallpaper();
            engine_outcome(
                acts,
                tuck_away_commands_vec(),
                DaemonReply::Done("Minimized GUI window and paused wallpaper engine".to_string()),
            )
        },
        DaemonRequest::GetWaybarStatus => {
            simple_outcome(DaemonWork::Nothing, DaemonReply::Waybar(waybar_status(&state.engine)))
        },
        DaemonRequest::NextWallpaper => {
            if files.len() == 0 {
                return simple_outcome(
                    DaemonWork::Nothing,
                    DaemonReply::Failed("Wallpaper Exception: No wallpapers found in directory".to_string()),
                );
            }
            let k = next_wallpaper_index(files, &state.engine.current_wallpaper);
            let m = joined("Switched to ", files[k].as_str());
            simple_outcome(DaemonWork::Play(files[k].clone()), DaemonReply::DoneIfWorked(m))
        },
        DaemonRequest::PrevWallpaper => {
            if files.len() == 0 {
                return simple_outcome(
                    DaemonWork::Nothing,
                    DaemonReply::Failed("Wallpaper Exception: No wallpapers found in directory".to_string()),
                );
            }
            let k = prev_wallpaper_index(files, &state.engine.current_wallpaper);
            let m = joined("Switched to ", files[k].as_str());
            simple_outcome(DaemonWork::Play(files[k].clone()), DaemonReply::DoneIfWorked(m))
        },
        DaemonRequest::StartSlideshow { interval_secs, shuffle } => {
            state.slideshow = SlideshowState { active: true, interval_secs, shuffle };
            let mut m = "Slideshow started with ".to_string();
            m.append(decimal_string(interval_secs).as_str());
            m.append("s interval");
            simple_outcome(DaemonWork::Nothing, DaemonReply::Done(m))
        },
        DaemonRequest::StopSlideshow => {
            state.slideshow.active = false;
            simple_outcome(DaemonWork::Nothing, DaemonReply::Done("Slideshow stopped".to_string()))
        },
        DaemonRequest::SetVolume { volume } => {
            let cmd = state.engine.set_volume(volume);
            let mut m = "Volume set to ".to_string();
            m.append(int_string(volume).as_str());
            m.append("%");
            engine_outcome(one_action(EngineAction::Mpv(cmd)), no_commands(), DaemonReply::DoneIfWorked(m))
        },
        DaemonRequest::SetMute { mute } => {
            let cmd = state.engine.set_mute(mute);
            let m = joined("Mute state set to ", if mute { "true" } else { "false" });
            engine_outcome(one_action(EngineAction::Mpv(cmd)), no_commands(), DaemonReply::DoneIfWorked(m))
        },
        DaemonRequest::SetHwdec { hwdec } => {
            let cmd = state.engine.set_hwdec(hwdec.as_str());
            let m = joined("Hardware decoder set to ", hwdec.as_str());
            DaemonOutcome {
                work: DaemonWork::Engine { actions: one_action(EngineAction::Mpv(cmd)), commands: no_commands() },
                reply: DaemonReply::DoneIfWorked(m),
                default_on_success: None,
                save_settings: true,
                quit: false,
            }
        },
        DaemonRequest::SetGpuDevice { gpu_device } => {
            let m = joined("GPU device target set to ", debug_opt_text(&gpu_device).as_str());
            state.engine.set_gpu_device(gpu_device);
            DaemonOutcome {
                work: DaemonWork::Engine { actions: Vec::new(), commands: no_commands() },
                reply: DaemonReply::DoneIfWorked(m),
                default_on_success: None,
                save_settings: true,
                quit: false,
            }
        },
        DaemonRequest::SetTargetFps { fps } => {
            let cmd = state.engine.set_target_fps(fps);
            let mut m = "Target rendering FPS set to ".to_string();
            m.append(decimal_string(fps as u64).as_str());
            m.append(" FPS");
            DaemonOutcome {
                work: DaemonWork::Engine { actions: one_action(EngineAction::Mpv(cmd)), commands: no_commands() },
                reply: DaemonReply::DoneIfWorked(m),
                default_on_success: None,
                save_settings: true,
                quit: false,
            }
        },
        DaemonRequest::SetScreen { screen_id } => {
            let cmd = state.engine.set_screen(screen_id);
            let m = joined("Target screen set to Screen ", int_string(screen_id).as_str());
            engine_outcome(one_action(EngineAction::Mpv(cmd)), no_commands(), DaemonReply::DoneIfWorked(m))
        },
        DaemonRequest::SetMonitorWallpaper { monitor, path } => {
            let m = crate::daemon::set_monitor_wallpaper(&mut state.monitors, monitor, path);
            let mapped = mapping_of(&state.monitors, &state.active_monitor);
            DaemonOutcome {
                work: DaemonWork::ApplyActive(mapped),
                reply: DaemonReply::Done(m),
                default_on_success: None,
                save_settings: true,
                quit: false,
            }
        },
        DaemonRequest::GetMonitorMappings => {
            simple_outcome(DaemonWork::Nothing, DaemonReply::Mappings(pairs_clone(&state.monitors)))
        },
        DaemonRequest::SetWidget { url, enabled, position } => {
            let pos = match position {
                Some(p) => p,
                None => state.engine.widget_position.clone(),
            };
            let (acts, launch) = state.engine.set_widget_with_position(url.as_str(), enabled, pos.as_str());
            let m = joined("Desktop widget state: ", if enabled { "Enabled" } else { "Disabled" });
            DaemonOutcome {
                work: DaemonWork::Widget { actions: acts, launch },
                reply: DaemonReply::DoneIfWorked(m),
                default_on_success: None,
                save_settings: true,
                quit: false,
            }
        },
        DaemonRequest::GetStatus => {
            simple_outcome(DaemonWork::Nothing, DaemonReply::Status(status_record(state, files)))
        },
        DaemonRequest::ListWallpapers => {
            let list = strings_clone(files);
            let current = opt_clone(&state.engine.current_wallpaper);
            simple_outcome(DaemonWork::Nothing, DaemonReply::WallpaperList { files: list, current })
        },
        DaemonRequest::QuitDaemon => {
            DaemonOutcome {
                work: DaemonWork::Nothing,
                reply: DaemonReply::Done("Daemon shutting down...".to_string()),
                default_on_success: None,
                save_settings: false,
                quit: true,
            }
        },
    }
}


/// Starting the slideshow and then stopping it leaves it stopped with the
/// interval and shuffle asked for, and the playback untouched.
pub proof fn law_slideshow_start_then_stop(
    s0: DaemonState,
    s1: DaemonState,
    s2: DaemonState,
    files: Seq<String>,
    interval_secs: u64,
    shuffle: bool,
    r1: DaemonOutcome,
    r2: DaemonOutcome,
)
    requires
        daemon_stepped(s0, s1, files, DaemonRequest::StartSlideshow { interval_secs, shuffle }, r1),
        daemon_stepped(s1, s2, files, DaemonRequest::StopSlideshow, r2),
    ensures
        s2.slideshow == (SlideshowState { active: false, interval_secs, shuffle }),
        s2.engine == s0.engine,
        s2.monitors@ == s0.monitors@,
{
}

/// A running slideshow always finds something to play in a non-empty
/// catalogue, and a stopped one never plays.
pub proof fn law_slideshow_tick_plays_within(s: SlideshowState, files: Seq<String>, current: Option<String>)
    ensures
        s.active && files.len() > 0 ==> 0 <= next_index(files, opt_seq(current)) < files.len(),
{
    crate::daemon::lemma_position_bound(files, match current {
        Some(c) => c@,
        None => Seq::empty(),
    });
}

} // verus!
