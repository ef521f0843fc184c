//! The playback state of the wallpaper engine and the decisions it takes:
//! pausing, resuming, hiding, stopping, which renderer shows a wallpaper,
//! and the command lines of the video player and the scene renderer.
use vstd::prelude::*;
use crate::config::WallpaperOverrides;
use crate::text::{chars_of, contains, decimal, decimal_string, eq_str, lowercase, starts_with, to_lowercase, trim, trim_chars};

verus! {

broadcast use vstd::string::group_string_axioms;

/// A command for the video player's IPC socket.
#[derive(Debug, Clone, PartialEq)]
pub enum MpvCommand {
    SetPause(bool),
    SetVolume(i64),
    SetMute(bool),
    SetHwdec(String),
    SetFps(u32),
    SetScreen(i64),
    LoadFile(String),
    Quit,
}

/// Work the engine asks of the process that owns the renderers.
#[derive(Debug, Clone, PartialEq)]
pub enum EngineAction {
    /// Send a command to the video player, when its socket exists.
    Mpv(MpvCommand),
    /// Tell the video player to resume; when that cannot be done, load
    /// the given wallpaper again (if any).
    ResumeOrReload(Option<String>),
    /// Load the given wallpaper again from scratch.
    Reload(String),
    StopWeb,
    StopWidget,
    StopMpv,
    StopLwe,
}

/// What the engine plays and how.
pub struct WallpaperEngine {
    pub current_wallpaper: Option<String>,
    pub is_paused: bool,
    pub is_hidden: bool,
    pub user_stopped: bool,
    pub hwdec: String,
    pub gpu_device: Option<String>,
    pub target_fps: u32,
    pub volume: i64,
    pub mute: bool,
    pub screen_id: i64,
    pub widget_enabled: bool,
    pub widget_url: Option<String>,
    pub widget_position: String,
}

/// `old` and `new` differ at most in the playback flags and the current
/// wallpaper.
pub open spec fn same_settings(old: WallpaperEngine, new: WallpaperEngine) -> bool {
    &&& new.hwdec == old.hwdec
    &&& new.gpu_device == old.gpu_device
    &&& new.target_fps == old.target_fps
    &&& new.volume == old.volume
    &&& new.mute == old.mute
    &&& new.screen_id == old.screen_id
    &&& new.widget_enabled == old.widget_enabled
    &&& new.widget_url == old.widget_url
    &&& new.widget_position == old.widget_position
}

/// `new` is `old` paused.
pub open spec fn paused_from(old: WallpaperEngine, new: WallpaperEngine) -> bool {
    &&& new.is_paused
    &&& new.user_stopped == old.user_stopped
    &&& new.is_hidden == old.is_hidden
    &&& new.current_wallpaper == old.current_wallpaper
    &&& same_settings(old, new)
}

/// `new` is `old` playing again (a stop by the user is over).
pub open spec fn resumed_from(old: WallpaperEngine, new: WallpaperEngine) -> bool {
    &&& !new.is_paused
    &&& !new.user_stopped
    &&& new.is_hidden == old.is_hidden
    &&& new.current_wallpaper == old.current_wallpaper
    &&& same_settings(old, new)
}

/// `new` is `old` after a pause toggle that gave `paused`: after a stop by
/// the user (with a wallpaper to load again) nothing changes here and
/// `paused` is false; otherwise the paused state flips.
pub open spec fn pause_toggled(old: WallpaperEngine, new: WallpaperEngine, paused: bool) -> bool {
    if old.user_stopped && old.current_wallpaper is Some {
        !paused && new == old
    } else {
        &&& paused == !old.is_paused
        &&& paused ==> paused_from(old, new)
        &&& !paused ==> resumed_from(old, new)
    }
}

/// `new` is `old` hidden (and so paused).
pub open spec fn hidden_from(old: WallpaperEngine, new: WallpaperEngine) -> bool {
    &&& new.is_hidden
    &&& new.is_paused
    &&& new.user_stopped == old.user_stopped
    &&& new.current_wallpaper == old.current_wallpaper
    &&& same_settings(old, new)
}

/// `new` is `old` shown again (and so playing).
pub open spec fn shown_from(old: WallpaperEngine, new: WallpaperEngine) -> bool {
    &&& !new.is_hidden
    &&& !new.is_paused
    &&& !new.user_stopped
    &&& new.current_wallpaper == old.current_wallpaper
    &&& same_settings(old, new)
}

/// `new` is `old` stopped by the user: nothing plays.
pub open spec fn stopped_from(old: WallpaperEngine, new: WallpaperEngine) -> bool {
    &&& new.user_stopped
    &&& !new.is_paused
    &&& new.current_wallpaper is None
    &&& new.is_hidden == old.is_hidden
    &&& same_settings(old, new)
}

/// `volume` brought into 0..=100.
pub open spec fn clamp_volume(v: i64) -> i64 {
    if v < 0 {
        0
    } else if v > 100 {
        100
    } else {
        v
    }
}

impl WallpaperEngine {
    /// An engine that plays nothing yet.
    pub fn new(hwdec: &str, gpu_device: Option<String>, target_fps: u32, volume: i64, mute: bool, screen_id: i64) -> (r: Self)
        ensures
            r.current_wallpaper is None,
            !r.is_paused && !r.is_hidden && !r.user_stopped,
            r.hwdec@ == hwdec@,
            r.gpu_device == gpu_device,
            r.target_fps == target_fps,
            r.volume == volume,
            r.mute == mute,
            r.screen_id == screen_id,
            !r.widget_enabled,
            r.widget_url is None,
            r.widget_position@ == "top_right"@,
    {
        WallpaperEngine {
            current_wallpaper: None,
            is_paused: false,
            is_hidden: false,
            user_stopped: false,
            hwdec: hwdec.to_string(),
            gpu_device,
            target_fps,
            volume,
            mute,
            screen_id,
            widget_enabled: false,
            widget_url: None,
            widget_position: "top_right".to_string(),
        }
    }

    /// Records that `path` now plays: playback runs and was not stopped.
    pub fn wallpaper_started(&mut self, path: String)
        ensures
            final(self).current_wallpaper == Some(path),
            !final(self).is_paused,
            !final(self).user_stopped,
            final(self).is_hidden == old(self).is_hidden,
            same_settings(*old(self), *final(self)),
    {
        self.current_wallpaper = Some(path);
        self.user_stopped = false;
        self.is_paused = false;
    }

    /// Pauses playback.
    pub fn pause(&mut self) -> (r: Vec<EngineAction>)
        ensures
            paused_from(*old(self), *final(self)),
            r@ == seq![EngineAction::Mpv(MpvCommand::SetPause(true))],
    {
        self.is_paused = true;
        let mut v: Vec<EngineAction> = Vec::new();
        v.push(EngineAction::Mpv(MpvCommand::SetPause(true)));
        v
    }

    /// Resumes playback (also after a stop by the user).
    pub fn resume(&mut self) -> (r: Vec<EngineAction>)
        ensures
            resumed_from(*old(self), *final(self)),
            r@ == seq![EngineAction::ResumeOrReload(old(self).current_wallpaper)],
    {
        self.user_stopped = false;
        self.is_paused = false;
        let mut v: Vec<EngineAction> = Vec::new();
        v.push(EngineAction::ResumeOrReload(self.current_wallpaper.clone()));
        v
    }

    /// Flips between paused and playing and gives the new paused state;
    /// after a stop by the user, the current wallpaper is loaded again
    /// instead and `false` is given.
    pub fn toggle_pause(&mut self) -> (r: (bool, Vec<EngineAction>))
        ensures
            pause_toggled(*old(self), *final(self), r.0),
            (old(self).user_stopped && old(self).current_wallpaper is Some) ==> r.1@ == seq![
                EngineAction::Reload(old(self).current_wallpaper->0),
            ],
            !(old(self).user_stopped && old(self).current_wallpaper is Some) ==> {
                &&& r.0 ==> r.1@ == seq![
                    EngineAction::Mpv(MpvCommand::SetPause(true)),
                ]
                &&& !r.0 ==> r.1@ == seq![EngineAction::ResumeOrReload(old(self).current_wallpaper)]
            },
    {
        if self.user_stopped {
            match &self.current_wallpaper {
                Some(curr) => {
                    let mut v: Vec<EngineAction> = Vec::new();
                    v.push(EngineAction::Reload(curr.clone()));
                    return (false, v);
                },
                None => {},
            }
        }
        let new_state = !self.is_paused;
        if new_state {
            (new_state, self.pause())
        } else {
            (new_state, self.resume())
        }
    }

    /// Hides the wallpaper: it is marked hidden and paused.
    pub fn hide_wallpaper(&mut self) -> (r: Vec<EngineAction>)
        ensures
            hidden_from(*old(self), *final(self)),
            r@ == seq![EngineAction::Mpv(MpvCommand::SetPause(true))],
    {
        self.is_hidden = true;
        self.pause()
    }

    /// Shows the wallpaper again: it is no longer hidden and resumes.
    pub fn show(&mut self) -> (r: Vec<EngineAction>)
        ensures
            shown_from(*old(self), *final(self)),
            r@ == seq![EngineAction::ResumeOrReload(old(self).current_wallpaper)],
    {
        self.is_hidden = false;
        self.resume()
    }

    /// Hides a shown wallpaper or shows a hidden one; gives the new state.
    pub fn toggle_hide(&mut self) -> (r: (bool, Vec<EngineAction>))
        ensures
            r.0 == !old(self).is_hidden,
            r.0 ==> hidden_from(*old(self), *final(self)),
            !r.0 ==> shown_from(*old(self), *final(self)),
            r.0 ==> r.1@ == seq![EngineAction::Mpv(MpvCommand::SetPause(true))],
            !r.0 ==> r.1@ == seq![EngineAction::ResumeOrReload(old(self).current_wallpaper)],
    {
        let new_state = !self.is_hidden;
        if new_state {
            (new_state, self.hide_wallpaper())
        } else {
            (new_state, self.show())
        }
    }

    /// Stops everything at the user's request.
    pub fn stop_wallpaper(&mut self) -> (r: Vec<EngineAction>)
        ensures
            stopped_from(*old(self), *final(self)),
            r@ == seq![EngineAction::StopWeb, EngineAction::StopWidget, EngineAction::StopMpv, EngineAction::StopLwe],
    {
        self.user_stopped = true;
        self.is_paused = false;
        self.current_wallpaper = None;
        let mut v: Vec<EngineAction> = Vec::new();
        v.push(EngineAction::StopWeb);
        v.push(EngineAction::StopWidget);
        v.push(EngineAction::StopMpv);
        v.push(EngineAction::StopLwe);
        v
    }

    pub fn is_hidden(&self) -> (r: bool)
        ensures
            r == self.is_hidden,
    {
        self.is_hidden
    }

    pub fn is_paused(&self) -> (r: bool)
        ensures
            r == self.is_paused,
    {
        self.is_paused
    }

    pub fn is_user_stopped(&self) -> (r: bool)
        ensures
            r == self.user_stopped,
    {
        self.user_stopped
    }

    /// Sets the volume, brought into 0..=100.
    pub fn set_volume(&mut self, vol: i64) -> (r: MpvCommand)
        ensures
            final(self).volume == clamp_volume(vol),
            r == MpvCommand::SetVolume(clamp_volume(vol)),
            *final(self) == (WallpaperEngine { volume: clamp_volume(vol), ..*old(self) }),
    {
        let clamped = if vol < 0 {
            0
        } else if vol > 100 {
            100
        } else {
            vol
        };
        self.volume = clamped;
        MpvCommand::SetVolume(clamped)
    }

    pub fn set_mute(&mut self, mute: bool) -> (r: MpvCommand)
        ensures
            final(self).mute == mute,
            r == MpvCommand::SetMute(mute),
            *final(self) == (WallpaperEngine { mute, ..*old(self) }),
    {
        self.mute = mute;
        MpvCommand::SetMute(mute)
    }

    pub fn set_hwdec(&mut self, hwdec: &str) -> (r: MpvCommand)
        ensures
            final(self).hwdec@ == hwdec@,
            r matches MpvCommand::SetHwdec(h) && h@ == hwdec@,
            *final(self) == (WallpaperEngine { hwdec: final(self).hwdec, ..*old(self) }),
    {
        self.hwdec = hwdec.to_string();
        MpvCommand::SetHwdec(hwdec.to_string())
    }

    pub fn set_gpu_device(&mut self, gpu_device: Option<String>)
        ensures
            *final(self) == (WallpaperEngine { gpu_device, ..*old(self) }),
    {
        self.gpu_device = gpu_device;
    }

    pub fn set_target_fps(&mut self, fps: u32) -> (r: MpvCommand)
        ensures
            final(self).target_fps == fps,
            r == MpvCommand::SetFps(fps),
            *final(self) == (WallpaperEngine { target_fps: fps, ..*old(self) }),
    {
        self.target_fps = fps;
        MpvCommand::SetFps(fps)
    }

    pub fn set_screen(&mut self, screen_id: i64) -> (r: MpvCommand)
        ensures
            final(self).screen_id == screen_id,
            r == MpvCommand::SetScreen(screen_id),
            *final(self) == (WallpaperEngine { screen_id, ..*old(self) }),
    {
        self.screen_id = screen_id;
        MpvCommand::SetScreen(screen_id)
    }

    pub fn volume(&self) -> (r: i64)
        ensures
            r == self.volume,
    {
        self.volume
    }

    pub fn is_muted(&self) -> (r: bool)
        ensures
            r == self.mute,
    {
        self.mute
    }

    pub fn target_fps(&self) -> (r: u32)
        ensures
            r == self.target_fps,
    {
        self.target_fps
    }

    pub fn screen_id(&self) -> (r: i64)
        ensures
            r == self.screen_id,
    {
        self.screen_id
    }
}

/// The text views of a list of strings.
pub open spec fn sv(v: Seq<String>) -> Seq<Seq<char>> {
    v.map_values(|x: String| x@)
}

proof fn lemma_sv_concat(a: Seq<String>, b: Seq<String>)
    ensures
        sv(a + b) == sv(a) + sv(b),
{
    assert(sv(a + b) =~= sv(a) + sv(b));
}

/// Decimal rendering of a signed number.
pub open spec fn int_text(v: i64) -> Seq<char> {
    if v < 0 {
        "-"@ + decimal((0 - v) as nat)
    } else {
        decimal(v as nat)
    }
}

/// The decimal rendering of `v`.
pub fn int_string(v: i64) -> (r: String)
    ensures
        r@ == int_text(v),
{
    if v < 0 {
        let m: u64 = (0i128 - v as i128) as u64;
        let mut s = "-".to_string();
        s.append(decimal_string(m).as_str());
        s
    } else {
        decimal_string(v as u64)
    }
}

fn s1(a: &str) -> (r: Vec<String>)
    ensures
        sv(r@) == seq![a@],
{
    let mut v: Vec<String> = Vec::new();
    v.push(a.to_string());
    assert(sv(v@) =~= seq![a@]);
    v
}

fn s2(a: &str, b: &str) -> (r: Vec<String>)
    ensures
        sv(r@) == seq![a@, b@],
{
    let mut v: Vec<String> = Vec::new();
    v.push(a.to_string());
    v.push(b.to_string());
    assert(sv(v@) =~= seq![a@, b@]);
    v
}

fn s0() -> (r: Vec<String>)
    ensures
        sv(r@) == Seq::<Seq<char>>::empty(),
{
    let v: Vec<String> = Vec::new();
    assert(sv(v@) =~= Seq::<Seq<char>>::empty());
    v
}

/// The wallpaper arguments: on a named screen, the screen and the
/// wallpaper as its background; else the wallpaper alone.
pub open spec fn screen_args(wall: Seq<char>, screen: Option<Seq<char>>) -> Seq<Seq<char>> {
    match screen {
        Some(s) => if s.len() > 0 {
            seq!["--screen-root"@, s, "--bg"@, wall]
        } else {
            seq![wall]
        },
        None => seq![wall],
    }
}

pub open spec fn str_opt(o: Option<&str>) -> Option<Seq<char>> {
    match o {
        Some(s) => Some(s@),
        None => None,
    }
}

/// An override flag that is set.
pub open spec fn flag_on(b: Option<bool>) -> bool {
    b == Some(true)
}

/// `flag` when the override is set.
pub open spec fn flag_arg(b: Option<bool>, flag: Seq<char>) -> Seq<Seq<char>> {
    if flag_on(b) {
        seq![flag]
    } else {
        seq![]
    }
}

/// `flag value` for a text override that is set, not empty and (when
/// `skip_default`) not `default`.
pub open spec fn text_arg(v: Option<String>, flag: Seq<char>, skip_default: bool) -> Seq<Seq<char>> {
    match v {
        Some(t) => if t@.len() > 0 && !(skip_default && t@ == "default"@) {
            seq![flag, t@]
        } else {
            seq![]
        },
        None => seq![],
    }
}

/// `--set-property key=value` for each custom property, in order.
pub open spec fn property_args(ps: Seq<(String, String)>) -> Seq<Seq<char>>
    decreases ps.len(),
{
    if ps.len() == 0 {
        seq![]
    } else {
        property_args(ps.drop_last()) + seq!["--set-property"@, ps.last().0@ + "="@ + ps.last().1@]
    }
}

/// The frame-rate arguments.
pub open spec fn fps_args(fps: u32) -> Seq<Seq<char>> {
    if fps > 0 {
        seq!["--fps"@, decimal(fps as nat)]
    } else {
        seq![]
    }
}

/// The sound arguments: silent, or the volume.
pub open spec fn sound_args(silent: bool, vol: i64) -> Seq<Seq<char>> {
    if silent {
        seq!["--silent"@]
    } else {
        seq!["--volume"@, int_text(vol)]
    }
}

/// The overrides, or none at all.
pub open spec fn ov_get(ov: Option<WallpaperOverrides>) -> OvFlags {
    match ov {
        Some(o) => OvFlags {
            scaling: o.scaling,
            disable_mouse: o.disable_mouse,
            disable_parallax: o.disable_parallax,
            disable_particles: o.disable_particles,
            clamp: o.clamp,
            layer: o.layer,
            no_automute: o.no_automute,
            no_audio_processing: o.no_audio_processing,
            no_fullscreen_pause: o.no_fullscreen_pause,
            fullscreen_pause_only_active: o.fullscreen_pause_only_active,
            screenshot: o.screenshot,
        },
        None => OvFlags {
            scaling: None,
            disable_mouse: None,
            disable_parallax: None,
            disable_particles: None,
            clamp: None,
            layer: None,
            no_automute: None,
            no_audio_processing: None,
            no_fullscreen_pause: None,
            fullscreen_pause_only_active: None,
            screenshot: None,
        },
    }
}

/// The switches among the overrides.
pub ghost struct OvFlags {
    pub scaling: Option<String>,
    pub disable_mouse: Option<bool>,
    pub disable_parallax: Option<bool>,
    pub disable_particles: Option<bool>,
    pub clamp: Option<String>,
    pub layer: Option<String>,
    pub no_automute: Option<bool>,
    pub no_audio_processing: Option<bool>,
    pub no_fullscreen_pause: Option<bool>,
    pub fullscreen_pause_only_active: Option<bool>,
    pub screenshot: Option<String>,
}

/// The arguments of the scene renderer for `wall`: the screen, the frame
/// rate and sound (overrides first, engine settings otherwise), then each
/// override that is set, the shared assets directory and the custom
/// properties.
pub open spec fn lwe_arg_list(
    e: WallpaperEngine,
    wall: Seq<char>,
    screen: Option<Seq<char>>,
    ov: Option<WallpaperOverrides>,
    assets: Option<Seq<char>>,
) -> Seq<Seq<char>> {
    let fps = match ov {
        Some(o) => match o.fps {
            Some(f) => f,
            None => e.target_fps,
        },
        None => e.target_fps,
    };
    let silent = match ov {
        Some(o) => match o.silent {
            Some(b) => b,
            None => e.mute,
        },
        None => e.mute,
    };
    let vol = match ov {
        Some(o) => match o.volume {
            Some(v) => v,
            None => e.volume,
        },
        None => e.volume,
    };
    let props = match ov {
        Some(o2) => property_args(o2.custom_properties@),
        None => seq![],
    };
    screen_args(wall, screen) + fps_args(fps) + sound_args(silent, vol) + override_args(ov_get(ov))
        + assets_args(assets) + props
}

/// The arguments for the switches that are set.
pub open spec fn override_args(f: OvFlags) -> Seq<Seq<char>> {
    text_arg(f.scaling, "--scaling"@, true) + flag_arg(f.disable_mouse, "--disable-mouse"@) + flag_arg(
        f.disable_parallax,
        "--disable-parallax"@,
    ) + flag_arg(f.disable_particles, "--disable-particles"@) + text_arg(f.clamp, "--clamp"@, true)
        + text_arg(f.layer, "--layer"@, false) + flag_arg(f.no_automute, "--noautomute"@) + flag_arg(
        f.no_audio_processing,
        "--no-audio-processing"@,
    ) + flag_arg(f.no_fullscreen_pause, "--no-fullscreen-pause"@) + flag_arg(
        f.fullscreen_pause_only_active,
        "--fullscreen-pause-only-active"@,
    ) + text_arg(f.screenshot, "--screenshot"@, false)
}

/// The shared assets directory argument.
pub open spec fn assets_args(assets: Option<Seq<char>>) -> Seq<Seq<char>> {
    match assets {
        Some(d) => seq!["--assets-dir"@, d],
        None => seq![],
    }
}

fn flag_vec(b: Option<bool>, flag: &str) -> (r: Vec<String>)
    ensures
        sv(r@) == flag_arg(b, flag@),
{
    if b == Some(true) {
        s1(flag)
    } else {
        s0()
    }
}

fn text_vec(v: &Option<String>, flag: &str, skip_default: bool) -> (r: Vec<String>)
    ensures
        sv(r@) == text_arg(*v, flag@, skip_default),
{
    match v {
        Some(t) => {
            let tc = chars_of(t.as_str());
            if tc.len() > 0 && !(skip_default && eq_str(tc.as_slice(), "default")) {
                s2(flag, t.as_str())
            } else {
                s0()
            }
        },
        None => s0(),
    }
}

fn property_vec(ps: &Vec<(String, String)>) -> (r: Vec<String>)
    ensures
        sv(r@) == property_args(ps@),
{
    let mut out: Vec<String> = Vec::new();
    let mut i: usize = 0;
    while i < ps.len()
        invariant
            i <= ps.len(),
            sv(out@) == property_args(ps@.take(i as int)),
        decreases ps.len() - i,
    {
        assert(ps@.take(i as int + 1).drop_last() == ps@.take(i as int));
        let mut kv = ps[i].0.clone();
        kv.append("=");
        kv.append(ps[i].1.as_str());
        let ghost before = out@;
        out.push("--set-property".to_string());
        out.push(kv);
        assert(sv(out@) =~= sv(before) + seq!["--set-property"@, ps@[i as int].0@ + "="@ + ps@[i as int].1@]);
        i += 1;
    }
    assert(ps@.take(ps.len() as int) == ps@);
    out
}

fn join_args(a: &mut Vec<String>, b: Vec<String>)
    ensures
        sv(final(a)@) == sv(old(a)@) + sv(b@),
{
    let mut b = b;
    proof {
        lemma_sv_concat(a@, b@);
    }
    a.append(&mut b);
}

fn override_vec(overrides: Option<&WallpaperOverrides>) -> (r: Vec<String>)
    ensures
        sv(r@) == override_args(ov_get(match overrides {
            Some(o) => Some(*o),
            None => None,
        })),
{
    let none: Option<String> = None;
    let (scaling, clamp, layer, shot) = match overrides {
        Some(o) => (&o.scaling, &o.clamp, &o.layer, &o.screenshot),
        None => (&none, &none, &none, &none),
    };
    let (dm, dp, dq, na, nap, nfp, fpa) = match overrides {
        Some(o) => (o.disable_mouse, o.disable_parallax, o.disable_particles, o.no_automute, o.no_audio_processing, o.no_fullscreen_pause, o.fullscreen_pause_only_active),
        None => (None, None, None, None, None, None, None),
    };
    let mut args = text_vec(scaling, "--scaling", true);
    join_args(&mut args, flag_vec(dm, "--disable-mouse"));
    join_args(&mut args, flag_vec(dp, "--disable-parallax"));
    join_args(&mut args, flag_vec(dq, "--disable-particles"));
    join_args(&mut args, text_vec(clamp, "--clamp", true));
    join_args(&mut args, text_vec(layer, "--layer", false));
    join_args(&mut args, flag_vec(na, "--noautomute"));
    join_args(&mut args, flag_vec(nap, "--no-audio-processing"));
    join_args(&mut args, flag_vec(nfp, "--no-fullscreen-pause"));
    join_args(&mut args, flag_vec(fpa, "--fullscreen-pause-only-active"));
    join_args(&mut args, text_vec(shot, "--screenshot", false));
    args
}

impl WallpaperEngine {
    /// The command line of the scene renderer showing `wallpaper`, on the
    /// screen `screen` when one is named, with the overrides of the
    /// wallpaper and the shared assets directory when they are known.
    pub fn lwe_args(
        &self,
        wallpaper: &str,
        screen: Option<&str>,
        overrides: Option<&WallpaperOverrides>,
        assets_dir: Option<&str>,
    ) -> (r: Vec<String>)
        ensures
            sv(r@) == lwe_arg_list(*self, wallpaper@, str_opt(screen), match overrides {
                Some(o) => Some(*o),
                None => None,
            }, str_opt(assets_dir)),
    {
        let mut args: Vec<String> = match screen {
            Some(scr) => {
                if !scr.is_empty() {
                    let mut v = s2("--screen-root", scr);
                    join_args(&mut v, s2("--bg", wallpaper));
                    v
                } else {
                    s1(wallpaper)
                }
            },
            None => s1(wallpaper),
        };
        let fps = match overrides {
            Some(o) => match o.fps {
                Some(f) => f,
                None => self.target_fps,
            },
            None => self.target_fps,
        };
        if fps > 0 {
            join_args(&mut args, s2("--fps", decimal_string(fps as u64).as_str()));
        } else {
            join_args(&mut args, s0());
        }
        let silent = match overrides {
            Some(o) => match o.silent {
                Some(b) => b,
                None => self.mute,
            },
            None => self.mute,
        };
        if silent {
            join_args(&mut args, s1("--silent"));
        } else {
            let vol = match overrides {
                Some(o) => match o.volume {
                    Some(v) => v,
                    None => self.volume,
                },
                None => self.volume,
            };
            join_args(&mut args, s2("--volume", int_string(vol).as_str()));
        }
        join_args(&mut args, override_vec(overrides));
        match assets_dir {
            Some(d) => join_args(&mut args, s2("--assets-dir", d)),
            None => join_args(&mut args, s0()),
        }
        match overrides {
            Some(o) => join_args(&mut args, property_vec(&o.custom_properties)),
            None => join_args(&mut args, s0()),
        }
        args
    }
}

// ---------------------------------------------------------------------------
// The video player
// ---------------------------------------------------------------------------

/// The renderer is driven for an NVIDIA adapter: the chosen device looks
/// like one (or, with no device chosen, an NVIDIA adapter was detected),
/// or an NVIDIA decoder was asked for.
pub open spec fn nvidia_target(gpu: Option<Seq<char>>, nvidia_detected: bool, hwdec: Seq<char>) -> bool {
    let by_device = match gpu {
        None => nvidia_detected,
        Some(d) => contains(d, "129"@) || contains(lowercase(d), "nvidia"@) || contains(d, "card2"@),
    };
    by_device || hwdec == "nvdec"@ || hwdec == "cuda"@
}

/// The decoder handed to the player: `auto` becomes `nvdec` on NVIDIA.
pub open spec fn effective_hwdec(hwdec: Seq<char>, nvidia: bool) -> Seq<char> {
    if hwdec == "auto"@ {
        if nvidia {
            "nvdec"@
        } else {
            "auto"@
        }
    } else {
        hwdec
    }
}

pub open spec fn mute_text(m: bool) -> Seq<char> {
    if m {
        "yes"@
    } else {
        "no"@
    }
}

/// The player options handed to mpvpaper.
pub open spec fn mpv_option_text(
    socket: Seq<char>,
    hwdec: Seq<char>,
    volume: i64,
    mute: bool,
    fps: u32,
    gpu: Option<Seq<char>>,
) -> Seq<char> {
    let base = "--config=no --input-ipc-server="@ + socket
        + " --loop-file=inf --image-display-duration=inf --no-osc --no-osd-bar --hwdec="@ + hwdec
        + " --volume="@ + int_text(volume) + " --mute="@ + mute_text(mute) + " --panscan=1.0"@;
    let with_fps = if fps > 0 {
        base + " --override-display-fps="@ + decimal(fps as nat)
    } else {
        base
    };
    match gpu {
        Some(d) => if trim(d).len() > 0 {
            with_fps + " --gpu-device="@ + d + " --vo=gpu"@
        } else {
            with_fps
        },
        None => with_fps,
    }
}

/// What the player opens: the file, or `/dev/null` when there is none.
pub open spec fn player_target(target: Seq<char>) -> Seq<char> {
    if target.len() > 0 {
        target
    } else {
        "/dev/null"@
    }
}

/// The arguments of mpvpaper: the options, every output, the file.
pub open spec fn mpvpaper_arg_list(opts: Seq<char>, target: Seq<char>) -> Seq<Seq<char>> {
    seq!["-o"@, opts, "*"@, player_target(target)]
}

/// The arguments of a plain full-screen mpv, used when mpvpaper cannot
/// be started.
pub open spec fn mpv_arg_list(socket: Seq<char>, hwdec: Seq<char>, volume: i64, mute: bool, target: Seq<char>) -> Seq<
    Seq<char>,
> {
    seq![
        "--config=no"@,
        "--input-ipc-server="@ + socket,
        "--loop-file=inf"@,
        "--hwdec="@ + hwdec,
        "--volume="@ + int_text(volume),
        "--mute="@ + mute_text(mute),
        "--no-osc"@,
        "--no-osd-bar"@,
        "--no-border"@,
        "--fullscreen"@,
        "--ontop=no"@,
        "--panscan=1.0"@,
        player_target(target),
    ]
}

fn str_eq(a: &str, b: &str) -> (r: bool)
    ensures
        r == (a@ == b@),
{
    let ac = chars_of(a);
    eq_str(ac.as_slice(), b)
}

fn str_contains(a: &str, b: &str) -> (r: bool)
    ensures
        r == contains(a@, b@),
{
    let ac = chars_of(a);
    crate::text::contains_str(ac.as_slice(), b)
}

pub open spec fn string_opt(o: Option<String>) -> Option<Seq<char>> {
    match o {
        Some(s) => Some(s@),
        None => None,
    }
}

impl WallpaperEngine {
    /// Whether the player is driven for an NVIDIA adapter; `gpus` are the
    /// detected adapters (only looked at when no device is chosen).
    pub fn is_nvidia(&self, gpus: &[crate::config::GpuInfo]) -> (r: bool)
        ensures
            r == nvidia_target(
                string_opt(self.gpu_device),
                crate::config::has_vendor(gpus@, "NVIDIA"@),
                self.hwdec@,
            ),
    {
        let by_device = match &self.gpu_device {
            None => crate::config::any_vendor(gpus, "NVIDIA"),
            Some(d) => str_contains(d.as_str(), "129") || {
                let low = to_lowercase(d.as_str());
                str_contains(low.as_str(), "nvidia")
            } || str_contains(d.as_str(), "card2"),
        };
        by_device || str_eq(self.hwdec.as_str(), "nvdec") || str_eq(self.hwdec.as_str(), "cuda")
    }

    /// The decoder handed to the player.
    pub fn effective_hwdec(&self, nvidia: bool) -> (r: String)
        ensures
            r@ == effective_hwdec(self.hwdec@, nvidia),
    {
        if str_eq(self.hwdec.as_str(), "auto") {
            if nvidia {
                "nvdec".to_string()
            } else {
                "auto".to_string()
            }
        } else {
            self.hwdec.clone()
        }
    }

    /// The options handed to mpvpaper, for the IPC socket `socket`.
    pub fn mpv_options(&self, socket: &str, hwdec: &str) -> (r: String)
        ensures
            r@ == mpv_option_text(socket@, hwdec@, self.volume, self.mute, self.target_fps, string_opt(self.gpu_device)),
    {
        let mut o = "--config=no --input-ipc-server=".to_string();
        o.append(socket);
        o.append(" --loop-file=inf --image-display-duration=inf --no-osc --no-osd-bar --hwdec=");
        o.append(hwdec);
        o.append(" --volume=");
        o.append(int_string(self.volume).as_str());
        o.append(" --mute=");
        o.append(if self.mute { "yes" } else { "no" });
        o.append(" --panscan=1.0");
        if self.target_fps > 0 {
            o.append(" --override-display-fps=");
            o.append(decimal_string(self.target_fps as u64).as_str());
        }
        match &self.gpu_device {
            Some(d) => {
                let dc = chars_of(d.as_str());
                if trim_chars(dc.as_slice()).len() > 0 {
                    o.append(" --gpu-device=");
                    o.append(d.as_str());
                    o.append(" --vo=gpu");
                }
            },
            None => {},
        }
        o
    }
}

fn target_str(target: &str) -> (r: String)
    ensures
        r@ == player_target(target@),
{
    if target.is_empty() {
        "/dev/null".to_string()
    } else {
        target.to_string()
    }
}

/// The arguments of mpvpaper.
pub fn mpvpaper_args(opts: &str, target: &str) -> (r: Vec<String>)
    ensures
        sv(r@) == mpvpaper_arg_list(opts@, target@),
{
    let mut v: Vec<String> = Vec::new();
    v.push("-o".to_string());
    v.push(opts.to_string());
    v.push("*".to_string());
    v.push(target_str(target));
    assert(sv(v@) =~= mpvpaper_arg_list(opts@, target@));
    v
}

fn prefixed(p: &str, v: &str) -> (r: String)
    ensures
        r@ == p@ + v@,
{
    let mut s = p.to_string();
    s.append(v);
    s
}

/// The arguments of the plain mpv used when mpvpaper cannot be started.
pub fn mpv_args(socket: &str, hwdec: &str, volume: i64, mute: bool, target: &str) -> (r: Vec<String>)
    ensures
        sv(r@) == mpv_arg_list(socket@, hwdec@, volume, mute, target@),
{
    let mut v: Vec<String> = Vec::new();
    v.push("--config=no".to_string());
    v.push(prefixed("--input-ipc-server=", socket));
    v.push("--loop-file=inf".to_string());
    v.push(prefixed("--hwdec=", hwdec));
    v.push(prefixed("--volume=", int_string(volume).as_str()));
    v.push(prefixed("--mute=", if mute { "yes" } else { "no" }));
    v.push("--no-osc".to_string());
    v.push("--no-osd-bar".to_string());
    v.push("--no-border".to_string());
    v.push("--fullscreen".to_string());
    v.push("--ontop=no".to_string());
    v.push("--panscan=1.0".to_string());
    v.push(target_str(target));
    assert(sv(v@) =~= mpv_arg_list(socket@, hwdec@, volume, mute, target@));
    v
}

/// The environment that sends the rendering to the NVIDIA adapter; the
/// Vulkan driver list is set for mpvpaper only.
pub open spec fn nvidia_env_list(for_mpvpaper: bool) -> Seq<(Seq<char>, Seq<char>)> {
    let base = seq![
        ("__NV_PRIME_RENDER_OFFLOAD"@, "1"@),
        ("__GLX_VENDOR_LIBRARY_NAME"@, "nvidia"@),
        ("__VK_LAYER_NV_optimus"@, "NVIDIA_only"@),
        ("CUDA_VISIBLE_DEVICES"@, "0"@),
    ];
    if for_mpvpaper {
        base.push(("VK_DRIVER_FILES"@, "/usr/share/vulkan/icd.d/nvidia_icd.json"@))
    } else {
        base
    }
}

/// The environment that sends the rendering to the NVIDIA adapter.
pub fn nvidia_env(for_mpvpaper: bool) -> (r: Vec<(&'static str, &'static str)>)
    ensures
        r@.map_values(|p: (&str, &str)| (p.0@, p.1@)) == nvidia_env_list(for_mpvpaper),
{
    let mut v: Vec<(&'static str, &'static str)> = Vec::new();
    v.push(("__NV_PRIME_RENDER_OFFLOAD", "1"));
    v.push(("__GLX_VENDOR_LIBRARY_NAME", "nvidia"));
    v.push(("__VK_LAYER_NV_optimus", "NVIDIA_only"));
    v.push(("CUDA_VISIBLE_DEVICES", "0"));
    if for_mpvpaper {
        v.push(("VK_DRIVER_FILES", "/usr/share/vulkan/icd.d/nvidia_icd.json"));
    }
    assert(v@.map_values(|p: (&str, &str)| (p.0@, p.1@)) =~= nvidia_env_list(for_mpvpaper));
    v
}

// ---------------------------------------------------------------------------
// Choosing the renderer
// ---------------------------------------------------------------------------

/// What the file system says about a resolved wallpaper path.
pub struct PathFacts {
    /// It is a scene package (by its magic bytes).
    pub is_pkg: bool,
    pub is_file: bool,
    /// Its parent directory.
    pub parent: Option<String>,
    /// Its parent directory holds a `project.json`.
    pub parent_has_project: bool,
    pub is_dir: bool,
    /// It is a directory holding a `project.json`.
    pub has_project: bool,
    /// It is a directory holding a scene package.
    pub has_pkg_inside: bool,
    pub exists: bool,
}

/// The renderer that shows a wallpaper.
#[derive(Debug, Clone, PartialEq)]
pub enum WallpaperRoute {
    /// A web page, by its address.
    Web(String),
    /// A Wallpaper Engine scene, by its directory or package.
    Scene(String),
    /// A video or image, by its path.
    Video(String),
    /// Nothing: the error to report.
    Missing(String),
}

/// The lower-cased extension of a path (empty when it has none).
pub open spec fn lower_ext(p: Seq<char>) -> Seq<char> {
    lowercase(
        match crate::paths::extension(p) {
            Some(e) => e,
            None => Seq::<char>::empty(),
        },
    )
}

/// Which renderer shows the wallpaper `raw`, which resolves to `resolved`
/// (0 web view, 1 scene renderer, 2 video player, 3 none), with what it is
/// given: web addresses and pages go to the web view; scene packages and
/// scene directories to the scene renderer (a package inside a scene
/// directory stands for the directory); other existing files to the video
/// player; a missing file is an error.
pub open spec fn route_text(raw: Seq<char>, resolved: Seq<char>, f: PathFacts) -> (u8, Seq<char>) {
    let ext = lower_ext(resolved);
    if starts_with(raw, "http://"@) || starts_with(raw, "https://"@) {
        (0, raw)
    } else if ext == "html"@ || ext == "htm"@ || ext == "js"@ {
        (0, resolved)
    } else if ext == "pkg"@ || f.is_pkg {
        (
            1,
            match f.parent {
                Some(p) => if f.is_file && f.parent_has_project {
                    p@
                } else {
                    resolved
                },
                None => resolved,
            },
        )
    } else if f.is_dir && (f.has_project || f.has_pkg_inside) {
        (1, resolved)
    } else if !f.exists {
        (3, "Wallpaper Exception: File does not exist at '"@ + resolved + "'"@)
    } else {
        (2, resolved)
    }
}

/// Whatever the file system says, a wallpaper given as an `http://` or
/// `https://` address goes to the web view with the address unchanged.
pub proof fn law_web_addresses_go_to_the_web_view(rest: Seq<char>, resolved: Seq<char>, f: PathFacts)
    ensures
        route_text("http://"@ + rest, resolved, f) == (0u8, "http://"@ + rest),
        route_text("https://"@ + rest, resolved, f) == (0u8, "https://"@ + rest),
{
    reveal_strlit("http://");
    reveal_strlit("https://");
    assert(("http://"@ + rest).subrange(0, 7) =~= "http://"@);
    assert(("https://"@ + rest).subrange(0, 8) =~= "https://"@);
}

/// The kind and text of a route.
pub open spec fn route_parts(r: WallpaperRoute) -> (u8, Seq<char>) {
    match r {
        WallpaperRoute::Web(s) => (0, s@),
        WallpaperRoute::Scene(s) => (1, s@),
        WallpaperRoute::Video(s) => (2, s@),
        WallpaperRoute::Missing(s) => (3, s@),
    }
}

fn str_starts(a: &str, p: &str) -> (r: bool)
    ensures
        r == starts_with(a@, p@),
{
    let ac = chars_of(a);
    crate::text::starts_with_str(ac.as_slice(), p)
}

/// Chooses the renderer for the wallpaper `raw`, resolved to `resolved`
/// among the installed assets, given what the file system says of it.
pub fn route_wallpaper(raw: &str, resolved: &str, facts: &PathFacts) -> (r: WallpaperRoute)
    ensures
        route_parts(r) == route_text(raw@, resolved@, *facts),
{
    if str_starts(raw, "http://") || str_starts(raw, "https://") {
        return WallpaperRoute::Web(raw.to_string());
    }
    let ext = match crate::paths::extension_of(resolved) {
        Some(e) => crate::text::string_of(e.as_slice()),
        None => String::new(),
    };
    let low = to_lowercase(ext.as_str());
    let l = low.as_str();
    if str_eq(l, "html") || str_eq(l, "htm") || str_eq(l, "js") {
        return WallpaperRoute::Web(resolved.to_string());
    }
    if str_eq(l, "pkg") || facts.is_pkg {
        let target = match &facts.parent {
            Some(p) => if facts.is_file && facts.parent_has_project {
                p.clone()
            } else {
                resolved.to_string()
            },
            None => resolved.to_string(),
        };
        return WallpaperRoute::Scene(target);
    }
    if facts.is_dir && (facts.has_project || facts.has_pkg_inside) {
        return WallpaperRoute::Scene(resolved.to_string());
    }
    if !facts.exists {
        let mut m = "Wallpaper Exception: File does not exist at '".to_string();
        m.append(resolved);
        m.append("'");
        return WallpaperRoute::Missing(m);
    }
    WallpaperRoute::Video(resolved.to_string())
}

/// How a video or image comes on screen.
#[derive(Debug, Clone, PartialEq)]
pub enum VideoPlan {
    /// It already plays: nothing to load (the actions resume it if it was
    /// paused).
    AlreadyPlaying(Vec<EngineAction>),
    /// Tell the running player to load it and play; start a player with it
    /// if that fails.
    LoadInPlayer(String),
    /// Start a player with it.
    StartPlayer(String),
}

impl WallpaperEngine {
    /// Decides how the video or image `path` comes on screen, given
    /// whether the player process runs and its socket exists. Only when
    /// it already plays is the state changed here (resumed if paused);
    /// otherwise `wallpaper_started` records it once it is loaded.
    pub fn play_video(&mut self, path: String, player_alive: bool, socket_exists: bool) -> (r: VideoPlan)
        ensures
            (string_opt(old(self).current_wallpaper) == Some(path@) && !old(self).user_stopped && player_alive) ==> {
                &&& r matches VideoPlan::AlreadyPlaying(acts)
                &&& old(self).is_paused ==> acts@ == seq![EngineAction::ResumeOrReload(old(self).current_wallpaper)]
                    && !final(self).is_paused
                &&& !old(self).is_paused ==> acts@.len() == 0 && *final(self) == *old(self)
            },
            !(string_opt(old(self).current_wallpaper) == Some(path@) && !old(self).user_stopped && player_alive) ==> {
                &&& *final(self) == *old(self)
                &&& (player_alive && socket_exists) ==> r == VideoPlan::LoadInPlayer(path)
                &&& !(player_alive && socket_exists) ==> r == VideoPlan::StartPlayer(path)
            },
            final(self).current_wallpaper == old(self).current_wallpaper,
            same_settings(*old(self), *final(self)),
    {
        let same = match &self.current_wallpaper {
            Some(curr) => *curr == path,
            None => false,
        };
        if same && !self.user_stopped && player_alive {
            if self.is_paused {
                return VideoPlan::AlreadyPlaying(self.resume());
            }
            return VideoPlan::AlreadyPlaying(Vec::new());
        }
        if player_alive && socket_exists {
            VideoPlan::LoadInPlayer(path)
        } else {
            VideoPlan::StartPlayer(path)
        }
    }
}

/// Checks a web wallpaper address: it is used trimmed, and must not be
/// blank. The renderers to stop before it is shown come with it.
pub fn set_url(url: &str) -> (r: Result<(String, Vec<EngineAction>), String>)
    ensures
        trim(url@).len() == 0 <==> r is Err,
        r matches Err(e) ==> e@ == "Wallpaper Exception: Provided URL is empty"@,
        r matches Ok((t, acts)) ==> t@ == trim(url@) && acts@ == seq![
            EngineAction::StopMpv,
            EngineAction::StopLwe,
            EngineAction::StopWidget,
        ],
{
    let uc = chars_of(url);
    let t = trim_chars(uc.as_slice());
    if t.len() == 0 {
        return Err("Wallpaper Exception: Provided URL is empty".to_string());
    }
    let mut acts: Vec<EngineAction> = Vec::new();
    acts.push(EngineAction::StopMpv);
    acts.push(EngineAction::StopLwe);
    acts.push(EngineAction::StopWidget);
    Ok((crate::text::string_of(t.as_slice()), acts))
}

/// A launch of the scene renderer: the program, its arguments, and the
/// renderers to stop first.
pub struct SceneLaunch {
    pub program: String,
    pub args: Vec<String>,
    pub stops: Vec<EngineAction>,
}

impl WallpaperEngine {
    /// Prepares the scene renderer for `wallpaper`: an error when the
    /// renderer is not installed (`lwe_bin` is where it was found).
    pub fn set_steam_wallpaper(
        &self,
        lwe_bin: Option<String>,
        wallpaper: &str,
        screen: Option<&str>,
        overrides: Option<&WallpaperOverrides>,
        assets_dir: Option<&str>,
    ) -> (r: Result<SceneLaunch, String>)
        ensures
            lwe_bin is None <==> r is Err,
            r matches Err(e) ==> e@
                == "linux-wallpaperengine binary not found. Please install linux-wallpaperengine."@,
            r matches Ok(l) ==> Some(l.program) == lwe_bin && sv(l.args@) == lwe_arg_list(
                *self,
                wallpaper@,
                str_opt(screen),
                match overrides {
                    Some(o) => Some(*o),
                    None => None,
                },
                str_opt(assets_dir),
            ) && l.stops@ == seq![EngineAction::StopMpv, EngineAction::StopWeb, EngineAction::StopLwe],
    {
        match lwe_bin {
            None => Err("linux-wallpaperengine binary not found. Please install linux-wallpaperengine.".to_string()),
            Some(program) => {
                let args = self.lwe_args(wallpaper, screen, overrides, assets_dir);
                let mut stops: Vec<EngineAction> = Vec::new();
                stops.push(EngineAction::StopMpv);
                stops.push(EngineAction::StopWeb);
                stops.push(EngineAction::StopLwe);
                Ok(SceneLaunch { program, args, stops })
            },
        }
    }
}

// ---------------------------------------------------------------------------
// Desktop widget
// ---------------------------------------------------------------------------

/// The programs tried, in order, to show a desktop widget, with their
/// arguments: this program (when its path is known) and `omywall` as a web
/// layer, then Electron, then Chromium in application mode.
pub open spec fn widget_command_list(exe: Option<Seq<char>>, url: Seq<char>, position: Seq<char>) -> Seq<
    (Seq<char>, Seq<Seq<char>>),
> {
    let layer = seq!["web-layer"@, url, "--widget"@, "--position"@, position];
    let rest = seq![
        ("omywall"@, layer),
        ("electron"@, seq!["--title=omywall-widget"@, url]),
        ("chromium"@, seq!["--app="@ + url, "--user-data-dir=/tmp/omywall-widget-profile"@]),
    ];
    match exe {
        Some(e) => seq![(e, layer)] + rest,
        None => rest,
    }
}

pub open spec fn commands_view(v: Seq<(String, Vec<String>)>) -> Seq<(Seq<char>, Seq<Seq<char>>)> {
    v.map_values(|c: (String, Vec<String>)| (c.0@, sv(c.1@)))
}

fn layer_args(url: &str, position: &str) -> (r: Vec<String>)
    ensures
        sv(r@) == seq!["web-layer"@, url@, "--widget"@, "--position"@, position@],
{
    let mut v: Vec<String> = Vec::new();
    v.push("web-layer".to_string());
    v.push(url.to_string());
    v.push("--widget".to_string());
    v.push("--position".to_string());
    v.push(position.to_string());
    assert(sv(v@) =~= seq!["web-layer"@, url@, "--widget"@, "--position"@, position@]);
    v
}

/// The commands tried, in order, to show the widget at `url`.
pub fn widget_commands(exe: Option<&str>, url: &str, position: &str) -> (r: Vec<(String, Vec<String>)>)
    ensures
        commands_view(r@) == widget_command_list(str_opt(exe), url@, position@),
{
    let mut v: Vec<(String, Vec<String>)> = Vec::new();
    match exe {
        Some(e) => v.push((e.to_string(), layer_args(url, position))),
        None => {},
    }
    v.push(("omywall".to_string(), layer_args(url, position)));
    let mut el: Vec<String> = Vec::new();
    el.push("--title=omywall-widget".to_string());
    el.push(url.to_string());
    assert(sv(el@) =~= seq!["--title=omywall-widget"@, url@]);
    v.push(("electron".to_string(), el));
    let mut ch: Vec<String> = Vec::new();
    ch.push(prefixed("--app=", url));
    ch.push("--user-data-dir=/tmp/omywall-widget-profile".to_string());
    assert(sv(ch@) =~= seq!["--app="@ + url@, "--user-data-dir=/tmp/omywall-widget-profile"@]);
    v.push(("chromium".to_string(), ch));
    assert(commands_view(v@) =~= widget_command_list(str_opt(exe), url@, position@));
    v
}

impl WallpaperEngine {
    /// Records the desktop widget settings; gives the widget address to
    /// launch, when the widget is enabled and has one. The running widget
    /// is stopped in any case.
    pub fn set_widget_with_position(&mut self, url: &str, enabled: bool, position: &str) -> (r: (Vec<EngineAction>, Option<String>))
        ensures
            final(self).widget_enabled == enabled,
            string_opt(final(self).widget_url) == if trim(url@).len() == 0 {
                None::<Seq<char>>
            } else {
                Some(url@)
            },
            final(self).widget_position@ == position@,
            r.0@ == seq![EngineAction::StopWidget],
            r.1 == if enabled { final(self).widget_url } else { None::<String> },
            *final(self) == (WallpaperEngine {
                widget_enabled: enabled,
                widget_url: final(self).widget_url,
                widget_position: final(self).widget_position,
                ..*old(self)
            }),
    {
        self.widget_enabled = enabled;
        let uc = chars_of(url);
        self.widget_url = if trim_chars(uc.as_slice()).len() == 0 {
            None
        } else {
            Some(url.to_string())
        };
        self.widget_position = position.to_string();
        let mut acts: Vec<EngineAction> = Vec::new();
        acts.push(EngineAction::StopWidget);
        let launch = if enabled {
            self.widget_url.clone()
        } else {
            None
        };
        (acts, launch)
    }

    /// Records the desktop widget settings at the current position.
    pub fn set_widget(&mut self, url: &str, enabled: bool) -> (r: (Vec<EngineAction>, Option<String>))
        ensures
            final(self).widget_enabled == enabled,
            string_opt(final(self).widget_url) == if trim(url@).len() == 0 {
                None::<Seq<char>>
            } else {
                Some(url@)
            },
            final(self).widget_position@ == old(self).widget_position@,
            r.0@ == seq![EngineAction::StopWidget],
            r.1 == if enabled { final(self).widget_url } else { None::<String> },
            *final(self) == (WallpaperEngine {
                widget_enabled: enabled,
                widget_url: final(self).widget_url,
                widget_position: final(self).widget_position,
                ..*old(self)
            }),
    {
        let pos = self.widget_position.clone();
        self.set_widget_with_position(url, enabled, pos.as_str())
    }

    /// Whether the widget is enabled, and its address.
    pub fn get_widget_info(&self) -> (r: (bool, Option<String>))
        ensures
            r.0 == self.widget_enabled,
            r.1 == self.widget_url,
    {
        (self.widget_enabled, self.widget_url.clone())
    }

    pub fn get_widget_position(&self) -> (r: String)
        ensures
            r == self.widget_position,
    {
        self.widget_position.clone()
    }

    pub fn current_wallpaper(&self) -> (r: Option<String>)
        ensures
            r == self.current_wallpaper,
    {
        self.current_wallpaper.clone()
    }

    pub fn hwdec(&self) -> (r: String)
        ensures
            r == self.hwdec,
    {
        self.hwdec.clone()
    }

    pub fn gpu_device(&self) -> (r: Option<String>)
        ensures
            r == self.gpu_device,
    {
        self.gpu_device.clone()
    }
}

// ---------------------------------------------------------------------------
// Laws of the playback state
// ---------------------------------------------------------------------------

/// Toggling pause twice (when no stop by the user is pending) gives back
/// the paused state, the current wallpaper and the settings.
pub proof fn law_toggle_pause_twice(e0: WallpaperEngine, e1: WallpaperEngine, e2: WallpaperEngine, p1: bool, p2: bool)
    requires
        !(e0.user_stopped && e0.current_wallpaper is Some),
        pause_toggled(e0, e1, p1),
        pause_toggled(e1, e2, p2),
    ensures
        e2.is_paused == e0.is_paused,
        p2 == !p1,
        e2.current_wallpaper == e0.current_wallpaper,
        e2.is_hidden == e0.is_hidden,
        same_settings(e0, e2),
{
}

/// Toggling the hidden state twice gives it back, with the current
/// wallpaper and the settings.
pub proof fn law_toggle_hide_twice(e0: WallpaperEngine, e1: WallpaperEngine, e2: WallpaperEngine, h1: bool, h2: bool)
    requires
        h1 == !e0.is_hidden,
        h1 ==> hidden_from(e0, e1),
        !h1 ==> shown_from(e0, e1),
        h2 == !e1.is_hidden,
        h2 ==> hidden_from(e1, e2),
        !h2 ==> shown_from(e1, e2),
    ensures
        e2.is_hidden == e0.is_hidden,
        e2.current_wallpaper == e0.current_wallpaper,
        same_settings(e0, e2),
{
}

/// Hiding then showing leaves the wallpaper visible and playing, the same
/// wallpaper with the same settings.
pub proof fn law_hide_then_show(e0: WallpaperEngine, e1: WallpaperEngine, e2: WallpaperEngine)
    requires
        hidden_from(e0, e1),
        shown_from(e1, e2),
    ensures
        !e2.is_hidden,
        !e2.is_paused,
        e2.current_wallpaper == e0.current_wallpaper,
        same_settings(e0, e2),
{
}

/// After a stop by the user, resuming ends the stop, but nothing plays
/// until a wallpaper is set again.
pub proof fn law_stop_then_resume(e0: WallpaperEngine, e1: WallpaperEngine, e2: WallpaperEngine)
    requires
        stopped_from(e0, e1),
        resumed_from(e1, e2),
    ensures
        !e2.user_stopped,
        !e2.is_paused,
        e2.current_wallpaper is None,
        same_settings(e0, e2),
{
}

/// The volume kept is always within 0..=100, and setting it again to what
/// was kept changes nothing.
pub proof fn law_volume_clamped(v: i64)
    ensures
        0 <= clamp_volume(v) <= 100,
        clamp_volume(clamp_volume(v)) == clamp_volume(v),
        0 <= v <= 100 ==> clamp_volume(v) == v,
{
}

/// Where mpvpaper is looked for after asking the shell, below the home
/// directory `home` and in the system directories.
pub open spec fn mpvpaper_candidates(home: Seq<char>) -> Seq<Seq<char>> {
    seq![
        crate::paths::join(crate::paths::join(crate::paths::join(home, ".local"@), "bin"@), "mpvpaper"@),
        "/usr/bin/mpvpaper"@,
        "/usr/local/bin/mpvpaper"@,
        "/bin/mpvpaper"@,
    ]
}

/// The places mpvpaper is looked for after asking the shell.
pub fn mpvpaper_candidate_paths(home: &str) -> (r: Vec<String>)
    ensures
        r@.map_values(|x: String| x@) == mpvpaper_candidates(home@),
{
    let a = crate::paths::join_path(home, ".local");
    let b = crate::paths::join_path(a.as_str(), "bin");
    let mut v: Vec<String> = Vec::new();
    v.push(crate::paths::join_path(b.as_str(), "mpvpaper"));
    v.push("/usr/bin/mpvpaper".to_string());
    v.push("/usr/local/bin/mpvpaper".to_string());
    v.push("/bin/mpvpaper".to_string());
    assert(v@.map_values(|x: String| x@) =~= mpvpaper_candidates(home@));
    v
}

/// The linux-wallpaperengine program, found as `lwe::find_binary` finds
/// it.
pub fn find_lwe_binary(which_output: Option<&str>, candidates: &[String], present: &[bool]) -> (r: Option<String>)
    requires
        candidates.len() == present.len(),
    ensures
        crate::paths::opt_string(r) == crate::paths::located(
            crate::paths::opt_str(which_output),
            candidates@.map_values(|x: String| x@),
            present@,
        ),
{
    crate::lwe::find_binary(which_output, candidates, present)
}

/// The mpvpaper program: what `which mpvpaper` printed (when it
/// succeeded), trimmed, when not blank; else likewise what
/// `command -v mpvpaper` printed; else the first of `candidates` that
/// exists (`present[i]` for the `i`-th).
pub fn find_mpvpaper_binary(
    which_output: Option<&str>,
    command_v_output: Option<&str>,
    candidates: &[String],
    present: &[bool],
) -> (r: Option<String>)
    requires
        candidates.len() == present.len(),
    ensures
        crate::paths::opt_string(r) == match crate::paths::opt_str(which_output) {
            Some(w) if trim(w).len() > 0 => Some(trim(w)),
            _ => crate::paths::located(
                crate::paths::opt_str(command_v_output),
                candidates@.map_values(|x: String| x@),
                present@,
            ),
        },
{
    match which_output {
        Some(w) => {
            let wc = chars_of(w);
            let t = trim_chars(wc.as_slice());
            if t.len() > 0 {
                return Some(crate::text::string_of(t.as_slice()));
            }
        },
        None => {},
    }
    crate::paths::locate_program(command_v_output, candidates, present)
}

/// The JSON text of a boolean.
pub open spec fn bool_text(b: bool) -> Seq<char> {
    if b {
        "true"@
    } else {
        "false"@
    }
}

/// The arguments of a video player command as the elements of a JSON
/// array, comma-separated.
pub open spec fn mpv_args_text(c: MpvCommand) -> Seq<char> {
    let q = |s: Seq<char>| crate::json_text::json_quoted(s);
    match c {
        MpvCommand::SetPause(b) => q("set_property"@) + ","@ + q("pause"@) + ","@ + bool_text(b),
        MpvCommand::SetVolume(v) => q("set_property"@) + ","@ + q("volume"@) + ","@ + int_text(v),
        MpvCommand::SetMute(b) => q("set_property"@) + ","@ + q("mute"@) + ","@ + bool_text(b),
        MpvCommand::SetHwdec(h) => q("set_property"@) + ","@ + q("hwdec"@) + ","@ + q(h@),
        MpvCommand::SetFps(f) => q("set_property"@) + ","@ + q("override-display-fps"@) + ","@ + decimal(f as nat),
        MpvCommand::SetScreen(n) => q("set_property"@) + ","@ + q("fs-screen"@) + ","@ + int_text(n),
        MpvCommand::LoadFile(p) => q("loadfile"@) + ","@ + q(p@) + ","@ + q("replace"@),
        MpvCommand::Quit => q("quit"@),
    }
}

/// The line sent to the video player's socket for a command: the JSON
/// object `{"command": [...]}` in compact form, then a newline.
pub open spec fn mpv_message_text(c: MpvCommand) -> Seq<char> {
    "{"@ + crate::json_text::json_quoted("command"@) + ":["@ + mpv_args_text(c) + "]}\n"@
}

fn quoted_pair(a: &str, b: &str) -> (r: String)
    ensures
        r@ == crate::json_text::json_quoted(a@) + ","@ + crate::json_text::json_quoted(b@),
{
    let mut s = crate::json_text::json_quote(a);
    s.append(",");
    s.append(crate::json_text::json_quote(b).as_str());
    s
}

/// The line to write to the video player's socket for `cmd`.
pub fn mpv_message(cmd: &MpvCommand) -> (r: String)
    ensures
        r@ == mpv_message_text(*cmd),
{
    let args = match cmd {
        MpvCommand::SetPause(b) => {
            let mut s = quoted_pair("set_property", "pause");
            s.append(",");
            s.append(if *b { "true" } else { "false" });
            s
        },
        MpvCommand::SetVolume(v) => {
            let mut s = quoted_pair("set_property", "volume");
            s.append(",");
            s.append(int_string(*v).as_str());
            s
        },
        MpvCommand::SetMute(b) => {
            let mut s = quoted_pair("set_property", "mute");
            s.append(",");
            s.append(if *b { "true" } else { "false" });
            s
        },
        MpvCommand::SetHwdec(h) => {
            let mut s = quoted_pair("set_property", "hwdec");
            s.append(",");
            s.append(crate::json_text::json_quote(h.as_str()).as_str());
            s
        },
        MpvCommand::SetFps(f) => {
            let mut s = quoted_pair("set_property", "override-display-fps");
            s.append(",");
            s.append(decimal_string(*f as u64).as_str());
            s
        },
        MpvCommand::SetScreen(n) => {
            let mut s = quoted_pair("set_property", "fs-screen");
            s.append(",");
            s.append(int_string(*n).as_str());
            s
        },
        MpvCommand::LoadFile(p) => {
            let mut s = quoted_pair("loadfile", p.as_str());
            s.append(",");
            s.append(crate::json_text::json_quote("replace").as_str());
            s
        },
        MpvCommand::Quit => crate::json_text::json_quote("quit"),
    };
    assert(args@ == mpv_args_text(*cmd));
    let mut out = "{".to_string();
    out.append(crate::json_text::json_quote("command").as_str());
    out.append(":[");
    out.append(args.as_str());
    out.append("]}\n");
    out
}

} // verus!
