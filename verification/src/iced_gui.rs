//! Model of the catalogue window: tabs, the filtered catalogue and its
//! badges, card clicks and hover previews, which thumbnails each tick
//! decodes, the widget tab, the dialogs, the system doctor's tool list and
//! the thumbnail bookkeeping.
use vstd::prelude::*;
use crate::strset::StrSet;
use crate::pathset::PathSet;
use crate::paths::components;
use crate::text::{lowercase, starts_with, starts_with_str, to_lowercase, chars_of};
use crate::paths::{extension, extension_of};
use crate::steam_scanner::SteamWallpaper;
use crate::config::WebBookmark;

verus! {

broadcast use vstd::string::group_string_axioms;

/// Tabs of the catalogue window.
#[derive(Debug, Clone, Copy, PartialEq, Eq)]
pub enum AppTab {
    Installed,
    SteamWorkshop,
    Widgets,
    Displays,
    Screensaver,
    Settings,
}

/// Desktop widgets offered ready-made.
#[derive(Debug, Clone, Copy, PartialEq, Eq, Structural)]
pub enum WidgetPreset {
    CyberHud,
    WifiBluetoothPill,
    MinimalClock,
    Custom,
}

impl WidgetPreset {
    pub fn label(&self) -> (r: &'static str)
        ensures
            r@ == match *self {
                WidgetPreset::CyberHud => "🌐 All-in-One Cyber HUD"@,
                WidgetPreset::WifiBluetoothPill => "📶 WiFi & Bluetooth Pill"@,
                WidgetPreset::MinimalClock => "⏰ Minimal Clock & Stats"@,
                WidgetPreset::Custom => "🔗 Custom Widget URL"@,
            },
    {
        match self {
            WidgetPreset::CyberHud => "🌐 All-in-One Cyber HUD",
            WidgetPreset::WifiBluetoothPill => "📶 WiFi & Bluetooth Pill",
            WidgetPreset::MinimalClock => "⏰ Minimal Clock & Stats",
            WidgetPreset::Custom => "🔗 Custom Widget URL",
        }
    }

    /// Asset that the preset loads; empty for a custom address.
    pub fn url(&self) -> (r: &'static str)
        ensures
            r@ == match *self {
                WidgetPreset::CyberHud => "assets/widgets/desktop_hud.html"@,
                WidgetPreset::WifiBluetoothPill => "assets/widgets/wifi_bluetooth_pill.html"@,
                WidgetPreset::MinimalClock => "assets/widgets/minimal_clock_stats.html"@,
                WidgetPreset::Custom => ""@,
            },
    {
        match self {
            WidgetPreset::CyberHud => "assets/widgets/desktop_hud.html",
            WidgetPreset::WifiBluetoothPill => "assets/widgets/wifi_bluetooth_pill.html",
            WidgetPreset::MinimalClock => "assets/widgets/minimal_clock_stats.html",
            WidgetPreset::Custom => "",
        }
    }

    pub fn description(&self) -> (r: &'static str)
        ensures
            r@ == match *self {
                WidgetPreset::CyberHud => "Full glassmorphic HUD: Circular CPU gauge, Memory graph, Network I/O, Battery, WiFi & Bluetooth telemetry."@,
                WidgetPreset::WifiBluetoothPill => "Ultra-compact pill badge: Live WiFi SSID & signal strength, Bluetooth paired devices & hardware status."@,
                WidgetPreset::MinimalClock => "Clean digital clock card: Big bold typography, Date, live CPU & RAM usage bars with AC power indicator."@,
                WidgetPreset::Custom => "Load any local HTML/JS widget file or remote Web URL directly onto your desktop overlay layer."@,
            },
    {
        match self {
            WidgetPreset::CyberHud => "Full glassmorphic HUD: Circular CPU gauge, Memory graph, Network I/O, Battery, WiFi & Bluetooth telemetry.",
            WidgetPreset::WifiBluetoothPill => "Ultra-compact pill badge: Live WiFi SSID & signal strength, Bluetooth paired devices & hardware status.",
            WidgetPreset::MinimalClock => "Clean digital clock card: Big bold typography, Date, live CPU & RAM usage bars with AC power indicator.",
            WidgetPreset::Custom => "Load any local HTML/JS widget file or remote Web URL directly onto your desktop overlay layer.",
        }
    }
}

/// Category filter of the catalogue.
#[derive(Debug, Clone, Copy, PartialEq, Eq)]
pub enum CategoryFilter {
    All,
    Videos,
    WebWidgets,
    StaticImages,
    SteamWorkshop,
}

/// Layout of the catalogue.
#[derive(Debug, Clone, Copy, PartialEq, Eq)]
pub enum ViewMode {
    Grid,
    Carousel,
}

/// Colour scheme of the catalogue window.
#[derive(Debug, Clone, Copy, PartialEq, Eq)]
pub enum ThemeScheme {
    DarkGlass,
    SteamAmber,
    HardLightCyber,
    OledPitchBlack,
}

impl Default for ThemeScheme {
    fn default() -> (r: Self)
        ensures
            r == ThemeScheme::DarkGlass,
    {
        ThemeScheme::DarkGlass
    }
}

impl ThemeScheme {
    pub fn name(&self) -> (r: &'static str)
        ensures
            r@ == match *self {
                ThemeScheme::DarkGlass => "Dark Glass"@,
                ThemeScheme::SteamAmber => "Steam Amber"@,
                ThemeScheme::HardLightCyber => "Cyber Light"@,
                ThemeScheme::OledPitchBlack => "OLED Black"@,
            },
    {
        match self {
            ThemeScheme::DarkGlass => "Dark Glass",
            ThemeScheme::SteamAmber => "Steam Amber",
            ThemeScheme::HardLightCyber => "Cyber Light",
            ThemeScheme::OledPitchBlack => "OLED Black",
        }
    }
}

/// djb2 hash of `bytes`, used to name thumbnail cache files.
pub fn md5_hash(bytes: &[u8]) -> (h: u64)
    ensures
        h == crate::gui::djb2(bytes@),
{
    crate::gui::md5_hash(bytes)
}

/// Thumbnails rewritten on disk since the window last looked, and
/// thumbnail renders under way.
pub struct ThumbBoard {
    pub updated: PathSet,
    pub pending: StrSet,
}

impl ThumbBoard {
    pub open spec fn wf(&self) -> bool {
        self.updated.wf() && self.pending.wf()
    }

    pub fn new() -> (r: Self)
        ensures
            r.wf(),
            r.updated@ == Set::<Seq<Seq<char>>>::empty(),
            r.pending@ == Set::<Seq<char>>::empty(),
    {
        ThumbBoard { updated: PathSet::new(), pending: StrSet::new() }
    }
}

/// Records that the thumbnail at `path` was rewritten.
pub fn notify_thumb_updated(board: &mut ThumbBoard, path: String)
    requires
        old(board).wf(),
    ensures
        final(board).wf(),
        final(board).updated@ == old(board).updated@.insert(components(path@)),
        final(board).pending@ == old(board).pending@,
{
    board.updated.insert(path);
}

/// Hands over the thumbnails rewritten since the last call, and forgets them.
pub fn drain_updated_thumbs(board: &mut ThumbBoard) -> (r: Vec<String>)
    requires
        old(board).wf(),
    ensures
        final(board).wf(),
        final(board).updated@ == Set::<Seq<Seq<char>>>::empty(),
        final(board).pending@ == old(board).pending@,
        forall|x: Seq<Seq<char>>|
            old(board).updated@.contains(x) <==> exists|i: int| 0 <= i < r@.len() && components(r@[i]@) == x,
{
    board.updated.take_all()
}

/// Whether `key` is among the rewritten thumbnails not yet drained.
pub fn is_thumb_pending(board: &ThumbBoard, key: &String) -> (r: bool)
    ensures
        r == board.updated@.contains(components(key@)),
{
    board.updated.contains(key)
}

/// Marks or unmarks a thumbnail render for `key` as under way.
pub fn set_thumb_pending(board: &mut ThumbBoard, key: String, pending: bool)
    requires
        old(board).wf(),
    ensures
        final(board).wf(),
        final(board).pending@ == if pending {
            old(board).pending@.insert(key@)
        } else {
            old(board).pending@.remove(key@)
        },
        final(board).updated@ == old(board).updated@,
{
    if pending {
        board.pending.insert(key);
    } else {
        board.pending.remove(&key);
    }
}

/// Whether a thumbnail render for `key` is under way.
pub fn is_thumb_pending_key(board: &ThumbBoard, key: &String) -> (r: bool)
    ensures
        r == board.pending@.contains(key@),
{
    board.pending.contains(key)
}

// ---------------------------------------------------------------------------
// System doctor
// ---------------------------------------------------------------------------

/// A helper program or library and whether it was found.
#[derive(Debug, Clone)]
pub struct ToolStatus {
    pub name: String,
    pub description: String,
    pub installed: bool,
    pub path_or_info: String,
}

/// A tool as (name, description, installed, path or hint).
pub type ToolTuple = (Seq<char>, Seq<char>, bool, Seq<char>);

pub open spec fn tool_view(t: ToolStatus) -> ToolTuple {
    (t.name@, t.description@, t.installed, t.path_or_info@)
}

/// What was found of each helper: for a program, where the first of its
/// names was found on the search path.
pub struct ToolProbes {
    pub mpvpaper: Option<String>,
    pub mpv: Option<String>,
    pub ffmpeg: Option<String>,
    pub electron: Option<String>,
    pub chromium: Option<String>,
    /// The first WebKitGTK library file that exists.
    pub webkit_lib: Option<String>,
    /// pkg-config knows WebKitGTK.
    pub webkit_pkg: bool,
    pub compositor: Option<String>,
    pub steam: Option<String>,
    pub nmcli: Option<String>,
    pub bluetoothctl: Option<String>,
    /// A DRM render or card node exists.
    pub dri: bool,
    pub nvidia_smi: Option<String>,
    pub locker: Option<String>,
    pub notify_send: Option<String>,
    pub jq: Option<String>,
}

/// The line of a program: its path when found, else a hint (the name may
/// differ between the two cases).
pub open spec fn tool_line(found: Option<String>, name: Seq<char>, missing_name: Seq<char>, desc: Seq<char>, hint: Seq<char>) -> ToolTuple {
    match found {
        Some(p) => (name, desc, true, p@),
        None => (missing_name, desc, false, hint),
    }
}

/// The fourteen lines of the system doctor.
pub open spec fn doctor_lines(p: ToolProbes) -> Seq<ToolTuple> {
    let webkit_desc = "WebKitGTK hardware-accelerated embedded web engine"@;
    let gpu_desc = "Hardware video decoding & zero-copy GPU wallpaper rendering"@;
    seq![
        tool_line(p.mpvpaper, "mpvpaper"@, "mpvpaper"@, "Primary Wayland video wallpaper renderer (wlr-layer-shell protocol)"@, "Missing - install via pacman or cargo"@),
        tool_line(p.mpv, "mpv"@, "mpv"@, "Hardware-accelerated media player engine & IPC control socket"@, "Missing - install via package manager"@),
        tool_line(p.ffmpeg, "ffmpeg"@, "ffmpeg"@, "Video thumbnail extraction & media transcode pipeline"@, "Missing - install via package manager"@),
        tool_line(p.electron, "electron"@, "electron"@, "Desktop web streams & widget overlay runtime engine"@, "Missing - install electron"@),
        tool_line(p.chromium, "chromium / chrome"@, "chromium"@, "Web engine fallback for HTML5 & WebGL live wallpaper scenes"@, "Missing - install chromium or google-chrome"@),
        match p.webkit_lib {
            Some(l) => ("webkit2gtk"@, webkit_desc, true, l@),
            None => if p.webkit_pkg {
                ("webkit2gtk"@, webkit_desc, true, "libwebkit2gtk-4.1 (System Library)"@)
            } else {
                ("webkit2gtk"@, webkit_desc, false, "Missing - install webkit2gtk-4.1 library"@)
            },
        },
        tool_line(p.compositor, "hyprctl / swaymsg"@, "hyprctl / swaymsg"@, "Wayland compositor IPC & display geometry controller"@, "Missing - no active Wayland IPC controller found"@),
        tool_line(p.steam, "steamcmd / steam"@, "steamcmd"@, "Steam Workshop wallpaper scanner & background asset downloader"@, "Optional - install steamcmd for direct workshop downloading"@),
        tool_line(p.nmcli, "nmcli"@, "nmcli"@, "NetworkManager CLI for desktop telemetry & WiFi overlay widgets"@, "Missing - install networkmanager"@),
        tool_line(p.bluetoothctl, "bluetoothctl"@, "bluetoothctl"@, "BlueZ Bluetooth controller for desktop status widgets"@, "Missing - install bluez-utils"@),
        if p.dri || p.nvidia_smi is Some {
            ("GPU Drivers (VA-API / NVDEC)"@, gpu_desc, true, if p.nvidia_smi is Some {
                "NVIDIA GPU Driver & NVDEC / NVENC Active"@
            } else {
                "Direct Rendering Manager (/dev/dri/renderD128 - VA-API/Vulkan)"@
            })
        } else {
            ("GPU Drivers"@, gpu_desc, false, "No /dev/dri/renderD128 or nvidia device found"@)
        },
        tool_line(p.locker, "hyprlock / swaylock"@, "hyprlock"@, "Wayland GPU-accelerated screen locker & animated screensaver"@, "Missing - install hyprlock or swaylock for screensavers"@),
        tool_line(p.notify_send, "notify-send"@, "notify-send"@, "Desktop notification daemon client (libnotify)"@, "Missing - install libnotify"@),
        tool_line(p.jq, "jq"@, "jq"@, "High-performance JSON processor for IPC & events"@, "Missing - install jq"@),
    ]
}

fn status(name: &str, desc: &str, installed: bool, info: &str) -> (r: ToolStatus)
    ensures
        tool_view(r) == (name@, desc@, installed, info@),
{
    ToolStatus { name: name.to_string(), description: desc.to_string(), installed, path_or_info: info.to_string() }
}

fn line(found: &Option<String>, name: &str, missing_name: &str, desc: &str, hint: &str) -> (r: ToolStatus)
    ensures
        tool_view(r) == tool_line(*found, name@, missing_name@, desc@, hint@),
{
    match found {
        Some(p) => status(name, desc, true, p.as_str()),
        None => status(missing_name, desc, false, hint),
    }
}

/// The system doctor's report on the helpers the engine uses.
pub fn check_installed_tools(p: &ToolProbes) -> (r: Vec<ToolStatus>)
    ensures
        r@.map_values(|t: ToolStatus| tool_view(t)) == doctor_lines(*p),
{
    let mut list: Vec<ToolStatus> = Vec::new();
    list.push(line(&p.mpvpaper, "mpvpaper", "mpvpaper", "Primary Wayland video wallpaper renderer (wlr-layer-shell protocol)", "Missing - install via pacman or cargo"));
    list.push(line(&p.mpv, "mpv", "mpv", "Hardware-accelerated media player engine & IPC control socket", "Missing - install via package manager"));
    list.push(line(&p.ffmpeg, "ffmpeg", "ffmpeg", "Video thumbnail extraction & media transcode pipeline", "Missing - install via package manager"));
    list.push(line(&p.electron, "electron", "electron", "Desktop web streams & widget overlay runtime engine", "Missing - install electron"));
    list.push(line(&p.chromium, "chromium / chrome", "chromium", "Web engine fallback for HTML5 & WebGL live wallpaper scenes", "Missing - install chromium or google-chrome"));
    let webkit_desc = "WebKitGTK hardware-accelerated embedded web engine";
    match &p.webkit_lib {
        Some(l) => list.push(status("webkit2gtk", webkit_desc, true, l.as_str())),
        None => if p.webkit_pkg {
            list.push(status("webkit2gtk", webkit_desc, true, "libwebkit2gtk-4.1 (System Library)"));
        } else {
            list.push(status("webkit2gtk", webkit_desc, false, "Missing - install webkit2gtk-4.1 library"));
        },
    }
    list.push(line(&p.compositor, "hyprctl / swaymsg", "hyprctl / swaymsg", "Wayland compositor IPC & display geometry controller", "Missing - no active Wayland IPC controller found"));
    list.push(line(&p.steam, "steamcmd / steam", "steamcmd", "Steam Workshop wallpaper scanner & background asset downloader", "Optional - install steamcmd for direct workshop downloading"));
    list.push(line(&p.nmcli, "nmcli", "nmcli", "NetworkManager CLI for desktop telemetry & WiFi overlay widgets", "Missing - install networkmanager"));
    list.push(line(&p.bluetoothctl, "bluetoothctl", "bluetoothctl", "BlueZ Bluetooth controller for desktop status widgets", "Missing - install bluez-utils"));
    let gpu_desc = "Hardware video decoding & zero-copy GPU wallpaper rendering";
    if p.dri || p.nvidia_smi.is_some() {
        let info = if p.nvidia_smi.is_some() {
            "NVIDIA GPU Driver & NVDEC / NVENC Active"
        } else {
            "Direct Rendering Manager (/dev/dri/renderD128 - VA-API/Vulkan)"
        };
        list.push(status("GPU Drivers (VA-API / NVDEC)", gpu_desc, true, info));
    } else {
        list.push(status("GPU Drivers", gpu_desc, false, "No /dev/dri/renderD128 or nvidia device found"));
    }
    list.push(line(&p.locker, "hyprlock / swaylock", "hyprlock", "Wayland GPU-accelerated screen locker & animated screensaver", "Missing - install hyprlock or swaylock for screensavers"));
    list.push(line(&p.notify_send, "notify-send", "notify-send", "Desktop notification daemon client (libnotify)", "Missing - install libnotify"));
    list.push(line(&p.jq, "jq", "jq", "High-performance JSON processor for IPC & events", "Missing - install jq"));
    assert(list@.map_values(|t: ToolStatus| tool_view(t)) =~= doctor_lines(*p));
    list
}

/// The names searched for each helper that has several, in order:
/// browsers, compositor controls, Steam programs, screen lockers.
pub fn tool_alternatives() -> (r: (Vec<&'static str>, Vec<&'static str>, Vec<&'static str>, Vec<&'static str>))
    ensures
        r.0@.map_values(|x: &str| x@) == seq!["chromium"@, "google-chrome-stable"@, "google-chrome"@, "brave-browser"@, "chromium-browser"@],
        r.1@.map_values(|x: &str| x@) == seq!["hyprctl"@, "swaymsg"@, "niri"@, "riverctl"@],
        r.2@.map_values(|x: &str| x@) == seq!["steamcmd"@, "steam"@],
        r.3@.map_values(|x: &str| x@) == seq!["hyprlock"@, "swaylock"@, "gtklock"@, "waylock"@],
{
    let a = vec!["chromium", "google-chrome-stable", "google-chrome", "brave-browser", "chromium-browser"];
    let b = vec!["hyprctl", "swaymsg", "niri", "riverctl"];
    let c = vec!["steamcmd", "steam"];
    let d = vec!["hyprlock", "swaylock", "gtklock", "waylock"];
    assert(a@.map_values(|x: &str| x@) =~= seq!["chromium"@, "google-chrome-stable"@, "google-chrome"@, "brave-browser"@, "chromium-browser"@]);
    assert(b@.map_values(|x: &str| x@) =~= seq!["hyprctl"@, "swaymsg"@, "niri"@, "riverctl"@]);
    assert(c@.map_values(|x: &str| x@) =~= seq!["steamcmd"@, "steam"@]);
    assert(d@.map_values(|x: &str| x@) =~= seq!["hyprlock"@, "swaylock"@, "gtklock"@, "waylock"@]);
    (a, b, c, d)
}

// ---------------------------------------------------------------------------
// Media kinds
// ---------------------------------------------------------------------------

/// The lower-cased extension of a path, empty when it has none.
pub open spec fn ext_lower(p: Seq<char>) -> Seq<char> {
    lowercase(
        match extension(p) {
            Some(e) => e,
            None => Seq::<char>::empty(),
        },
    )
}

pub open spec fn is_web_media(p: Seq<char>) -> bool {
    let e = ext_lower(p);
    e == "html"@ || e == "htm"@ || e == "js"@ || starts_with(p, "http://"@) || starts_with(p, "https://"@)
}

pub open spec fn is_video_ext(e: Seq<char>) -> bool {
    e == "mp4"@ || e == "mkv"@ || e == "webm"@ || e == "avi"@ || e == "mov"@ || e == "gif"@ || e
        == "flv"@ || e == "m4v"@ || e == "wmv"@
}

pub open spec fn is_image_ext(e: Seq<char>) -> bool {
    e == "png"@ || e == "jpg"@ || e == "jpeg"@ || e == "webp"@ || e == "bmp"@
}

/// A wallpaper that moves: a web page or a video.
pub open spec fn live_item(p: Seq<char>) -> bool {
    is_web_media(p) || is_video_ext(ext_lower(p))
}

fn ext_lower_of(p: &str) -> (r: String)
    ensures
        r@ == ext_lower(p@),
{
    let e = match extension_of(p) {
        Some(e) => crate::text::string_of(e.as_slice()),
        None => String::new(),
    };
    to_lowercase(e.as_str())
}

fn eq(a: &str, b: &str) -> (r: bool)
    ensures
        r == (a@ == b@),
{
    let c = chars_of(a);
    crate::text::eq_str(c.as_slice(), b)
}

fn web_media(p: &str, e: &str) -> (r: bool)
    requires
        e@ == ext_lower(p@),
    ensures
        r == is_web_media(p@),
{
    let pc = chars_of(p);
    eq(e, "html") || eq(e, "htm") || eq(e, "js") || starts_with_str(pc.as_slice(), "http://")
        || starts_with_str(pc.as_slice(), "https://")
}

fn video_ext(e: &str) -> (r: bool)
    ensures
        r == is_video_ext(e@),
{
    eq(e, "mp4") || eq(e, "mkv") || eq(e, "webm") || eq(e, "avi") || eq(e, "mov") || eq(e, "gif")
        || eq(e, "flv") || eq(e, "m4v") || eq(e, "wmv")
}

fn image_ext(e: &str) -> (r: bool)
    ensures
        r == is_image_ext(e@),
{
    eq(e, "png") || eq(e, "jpg") || eq(e, "jpeg") || eq(e, "webp") || eq(e, "bmp")
}

/// Whether the wallpaper at `path` moves.
pub fn is_live_item(path: &str) -> (r: bool)
    ensures
        r == live_item(path@),
{
    let e = ext_lower_of(path);
    web_media(path, e.as_str()) || video_ext(e.as_str())
}

/// A path that belongs to the Steam Workshop: by its directories, by its
/// extension, or because a scanned Steam wallpaper lies at, above or below
/// it (`steam_match`).
pub open spec fn steam_path(p: Seq<char>, steam_match: bool) -> bool {
    crate::text::contains(p, "steamapps"@) || crate::text::contains(p, "431960"@) || crate::text::contains(
        p,
        "workshop"@,
    ) || ext_lower(p) == "pkg"@ || steam_match
}

fn steam_path_exec(p: &str, e: &str, steam_match: bool) -> (r: bool)
    requires
        e@ == ext_lower(p@),
    ensures
        r == steam_path(p@, steam_match),
{
    let pc = chars_of(p);
    crate::text::contains_str(pc.as_slice(), "steamapps") || crate::text::contains_str(pc.as_slice(), "431960")
        || crate::text::contains_str(pc.as_slice(), "workshop") || eq(e, "pkg") || steam_match
}

/// The badge of a catalogue card: Steam, widget, web, video, image, or a
/// plain file. `steam_match` tells whether a scanned Steam wallpaper lies
/// at, above or below the path, and `widget_bookmark` whether a bookmark of
/// the path has a widget category.
pub open spec fn badge_of(p: Seq<char>, steam_match: bool, widget_bookmark: bool) -> Seq<char> {
    let e = ext_lower(p);
    if steam_path(p, steam_match) {
        "🎮 Steam"@
    } else if crate::text::contains(p, "widget"@) || crate::text::contains(p, "desktop_hud"@) || crate::text::contains(
        p,
        "pomodoro"@,
    ) || widget_bookmark {
        "🎛 Widget"@
    } else if is_web_media(p) {
        "🌐 WebGL"@
    } else if is_video_ext(e) {
        "🎥 Video"@
    } else if is_image_ext(e) {
        "🖼 Image"@
    } else {
        "📁 File"@
    }
}

/// The badge text of the catalogue card of `path`, given whether a Steam
/// wallpaper is related to it and whether a widget bookmark stands for it.
pub fn badge_text(path: &str, steam_match: bool, widget_bookmark: bool) -> (r: &'static str)
    ensures
        r@ == badge_of(path@, steam_match, widget_bookmark),
{
    let e = ext_lower_of(path);
    let pc = chars_of(path);
    if steam_path_exec(path, e.as_str(), steam_match) {
        "🎮 Steam"
    } else if crate::text::contains_str(pc.as_slice(), "widget") || crate::text::contains_str(pc.as_slice(), "desktop_hud")
        || crate::text::contains_str(pc.as_slice(), "pomodoro") || widget_bookmark {
        "🎛 Widget"
    } else if web_media(path, e.as_str()) {
        "🌐 WebGL"
    } else if video_ext(e.as_str()) {
        "🎥 Video"
    } else if image_ext(e.as_str()) {
        "🖼 Image"
    } else {
        "📁 File"
    }
}

/// Whether a catalogue entry passes the category filter and the search
/// text `query` (trimmed and lower-cased; empty matches everything): the
/// search looks at the lower-cased file name and path, then at the title
/// and category of the bookmark of the entry, then at the title and author
/// of its Steam wallpaper.
pub open spec fn entry_shown(
    p: Seq<char>,
    category: CategoryFilter,
    query: Seq<char>,
    steam_match: bool,
    bookmark: Option<(Seq<char>, Seq<char>)>,
    steam_item: Option<(Seq<char>, Seq<char>)>,
) -> bool {
    let e = ext_lower(p);
    let category_ok = match category {
        CategoryFilter::All => true,
        CategoryFilter::Videos => is_video_ext(e),
        CategoryFilter::WebWidgets => is_web_media(p),
        CategoryFilter::StaticImages => is_image_ext(e),
        CategoryFilter::SteamWorkshop => steam_path(p, steam_match),
    };
    let name = match crate::paths::file_name(p) {
        Some(n) => n,
        None => Seq::<char>::empty(),
    };
    category_ok && (query.len() == 0 || crate::text::contains(lowercase(name), query) || crate::text::contains(
        lowercase(p),
        query,
    ) || match bookmark {
        Some((t, c)) => crate::text::contains(lowercase(t), query) || crate::text::contains(lowercase(c), query),
        None => false,
    } || match steam_item {
        Some((t, a)) => crate::text::contains(lowercase(t), query) || crate::text::contains(lowercase(a), query),
        None => false,
    })
}

fn lower_contains(s: &str, q: &[char]) -> (r: bool)
    ensures
        r == crate::text::contains(lowercase(s@), q@),
{
    let l = to_lowercase(s);
    let lc = chars_of(l.as_str());
    crate::text::contains_chars(lc.as_slice(), q)
}

/// Whether a catalogue entry is shown under the filter and search text.
pub fn wallpaper_shown(
    path: &str,
    category: CategoryFilter,
    query: &str,
    steam_match: bool,
    bookmark: Option<(&str, &str)>,
    steam_item: Option<(&str, &str)>,
) -> (r: bool)
    ensures
        r == entry_shown(path@, category, query@, steam_match, match bookmark {
            Some((t, c)) => Some((t@, c@)),
            None => None,
        }, match steam_item {
            Some((t, a)) => Some((t@, a@)),
            None => None,
        }),
{
    let e = ext_lower_of(path);
    let category_ok = match category {
        CategoryFilter::All => true,
        CategoryFilter::Videos => video_ext(e.as_str()),
        CategoryFilter::WebWidgets => web_media(path, e.as_str()),
        CategoryFilter::StaticImages => image_ext(e.as_str()),
        CategoryFilter::SteamWorkshop => steam_path_exec(path, e.as_str(), steam_match),
    };
    if !category_ok {
        return false;
    }
    if query.is_empty() {
        return true;
    }
    let qc = chars_of(query);
    let q = qc.as_slice();
    let name = match crate::paths::file_name_of(path) {
        Some(n) => crate::text::string_of(n.as_slice()),
        None => String::new(),
    };
    if lower_contains(name.as_str(), q) || lower_contains(path, q) {
        return true;
    }
    match bookmark {
        Some((t, c)) => if lower_contains(t, q) || lower_contains(c, q) {
            return true;
        },
        None => {},
    }
    match steam_item {
        Some((t, a)) => lower_contains(t, q) || lower_contains(a, q),
        None => false,
    }
}

/// Searching never hides what the category shows when the search text is
/// found: an entry shown with no search text is shown for a search text
/// `query` found (lower-cased) in its file name, its path, the title or the
/// category of its bookmark, or the title or the author of its Steam
/// wallpaper, each on its own.
pub proof fn law_search_finds_each_field(
    p: Seq<char>,
    category: CategoryFilter,
    query: Seq<char>,
    steam_match: bool,
    bookmark: Option<(Seq<char>, Seq<char>)>,
    steam_item: Option<(Seq<char>, Seq<char>)>,
)
    requires
        entry_shown(p, category, Seq::<char>::empty(), steam_match, bookmark, steam_item),
    ensures
        crate::text::contains(lowercase(p), query) ==> entry_shown(p, category, query, steam_match, bookmark, steam_item),
        (crate::paths::file_name(p) matches Some(n) && crate::text::contains(lowercase(n), query)) ==> entry_shown(
            p,
            category,
            query,
            steam_match,
            bookmark,
            steam_item,
        ),
        (bookmark matches Some((t, c)) && (crate::text::contains(lowercase(t), query) || crate::text::contains(
            lowercase(c),
            query,
        ))) ==> entry_shown(p, category, query, steam_match, bookmark, steam_item),
        (steam_item matches Some((t, a)) && crate::text::contains(lowercase(t), query)) ==> entry_shown(
            p,
            category,
            query,
            steam_match,
            bookmark,
            steam_item,
        ),
        (steam_item matches Some((t, a)) && crate::text::contains(lowercase(a), query)) ==> entry_shown(
            p,
            category,
            query,
            steam_match,
            bookmark,
            steam_item,
        ),
{
}

/// A search hides nothing that it finds and shows nothing the category
/// filter refuses: whatever the search text, an entry shown with it is
/// shown with no search text.
pub proof fn law_search_only_narrows(
    p: Seq<char>,
    category: CategoryFilter,
    query: Seq<char>,
    steam_match: bool,
    bookmark: Option<(Seq<char>, Seq<char>)>,
    steam_item: Option<(Seq<char>, Seq<char>)>,
)
    ensures
        entry_shown(p, category, query, steam_match, bookmark, steam_item) ==> entry_shown(
            p,
            category,
            Seq::<char>::empty(),
            steam_match,
            bookmark,
            steam_item,
        ),
{
}

/// Whether a scanned Steam wallpaper at `s` is the catalogue entry `w`,
/// lies below it or holds it.
pub open spec fn steam_related(w: Seq<char>, s: Seq<char>) -> bool {
    crate::paths::same_path(s, w) || crate::paths::path_starts_with(s, w) || crate::paths::path_starts_with(w, s)
}

/// Title and author of the first scanned Steam wallpaper related to `w`.
pub open spec fn steam_item_of(w: Seq<char>, steam: Seq<SteamWallpaper>) -> Option<(Seq<char>, Seq<char>)>
    decreases steam.len(),
{
    if steam.len() == 0 {
        None
    } else {
        match steam_item_of(w, steam.drop_last()) {
            Some(x) => Some(x),
            None => if steam_related(w, steam.last().path@) {
                Some((steam.last().title@, steam.last().author@))
            } else {
                None
            },
        }
    }
}

/// Whether a bookmark with address `url`, which resolves to the file
/// `resolved`, stands for the catalogue entry `w`.
pub open spec fn bookmark_matches(w: Seq<char>, url: Seq<char>, resolved: Seq<char>) -> bool {
    url == w || crate::paths::same_path(resolved, w) || crate::paths::same_path(url, w)
}

/// Title and category of the first bookmark that stands for `w`; each
/// bookmark comes with the file its address resolves to.
pub open spec fn bookmark_of(w: Seq<char>, bms: Seq<(WebBookmark, String)>) -> Option<(Seq<char>, Seq<char>)>
    decreases bms.len(),
{
    if bms.len() == 0 {
        None
    } else {
        match bookmark_of(w, bms.drop_last()) {
            Some(x) => Some(x),
            None => if bookmark_matches(w, bms.last().0.url@, bms.last().1@) {
                Some((bms.last().0.title@, bms.last().0.category@))
            } else {
                None
            },
        }
    }
}

/// The catalogue entries shown under the filter and the search text
/// `query`, in catalogue order.
pub open spec fn shown_wallpapers(
    ws: Seq<Seq<char>>,
    category: CategoryFilter,
    query: Seq<char>,
    steam: Seq<SteamWallpaper>,
    bms: Seq<(WebBookmark, String)>,
) -> Seq<Seq<char>>
    decreases ws.len(),
{
    if ws.len() == 0 {
        seq![]
    } else {
        let prev = shown_wallpapers(ws.drop_last(), category, query, steam, bms);
        let w = ws.last();
        if entry_shown(w, category, query, steam_item_of(w, steam) is Some, bookmark_of(w, bms), steam_item_of(w, steam)) {
            prev.push(w)
        } else {
            prev
        }
    }
}

fn steam_item_for(w: &str, steam: &[SteamWallpaper]) -> (r: Option<(String, String)>)
    ensures
        (match r {
            Some(x) => Some((x.0@, x.1@)),
            None => None,
        }) == steam_item_of(w@, steam@),
{
    let mut found: Option<(String, String)> = None;
    let mut i: usize = 0;
    while i < steam.len()
        invariant
            i <= steam.len(),
            (match found {
                Some(x) => Some((x.0@, x.1@)),
                None => None,
            }) == steam_item_of(w@, steam@.take(i as int)),
        decreases steam.len() - i,
    {
        assert(steam@.take(i + 1).drop_last() == steam@.take(i as int));
        if found.is_none() {
            let s = &steam[i];
            let p = s.path.as_str();
            if crate::paths::same_path_of(p, w) || crate::paths::path_starts_with_of(p, w)
                || crate::paths::path_starts_with_of(w, p) {
                found = Some((s.title.clone(), s.author.clone()));
            }
        }
        i += 1;
    }
    assert(steam@.take(steam.len() as int) == steam@);
    found
}

fn bookmark_for(w: &str, bms: &[(WebBookmark, String)]) -> (r: Option<(String, String)>)
    ensures
        (match r {
            Some(x) => Some((x.0@, x.1@)),
            None => None,
        }) == bookmark_of(w@, bms@),
{
    let mut found: Option<(String, String)> = None;
    let mut i: usize = 0;
    while i < bms.len()
        invariant
            i <= bms.len(),
            (match found {
                Some(x) => Some((x.0@, x.1@)),
                None => None,
            }) == bookmark_of(w@, bms@.take(i as int)),
        decreases bms.len() - i,
    {
        assert(bms@.take(i + 1).drop_last() == bms@.take(i as int));
        if found.is_none() {
            let b = &bms[i];
            let url = b.0.url.as_str();
            if eq(url, w) || crate::paths::same_path_of(b.1.as_str(), w)
                || crate::paths::same_path_of(url, w) {
                found = Some((b.0.title.clone(), b.0.category.clone()));
            }
        }
        i += 1;
    }
    assert(bms@.take(bms.len() as int) == bms@);
    found
}

/// Whether some bookmark that stands for `w` has a category that names a
/// widget (in any case).
pub open spec fn widget_bookmark_of(w: Seq<char>, bms: Seq<(WebBookmark, String)>) -> bool {
    exists|i: int|
        0 <= i < bms.len() && #[trigger] bookmark_matches(w, bms[i].0.url@, bms[i].1@) && crate::text::contains(
            lowercase(bms[i].0.category@),
            "widget"@,
        )
}

fn widget_bookmark_for(w: &str, bms: &[(WebBookmark, String)]) -> (r: bool)
    ensures
        r == widget_bookmark_of(w@, bms@),
{
    let mut i: usize = 0;
    while i < bms.len()
        invariant
            i <= bms.len(),
            forall|j: int|
                0 <= j < i ==> !(#[trigger] bookmark_matches(w@, bms@[j].0.url@, bms@[j].1@) && crate::text::contains(
                    lowercase(bms@[j].0.category@),
                    "widget"@,
                )),
        decreases bms.len() - i,
    {
        let b = &bms[i];
        let url = b.0.url.as_str();
        let m = eq(url, w) || crate::paths::same_path_of(b.1.as_str(), w) || crate::paths::same_path_of(url, w);
        if m {
            let cat = to_lowercase(b.0.category.as_str());
            let cc = chars_of(cat.as_str());
            if crate::text::contains_str(cc.as_slice(), "widget") {
                assert(bookmark_matches(w@, bms@[i as int].0.url@, bms@[i as int].1@));
                return true;
            }
        }
        i += 1;
    }
    false
}

/// The badge text of the catalogue card of `path`: a Steam wallpaper
/// scanned at, above or below the path makes it a Steam entry; a bookmark
/// that stands for it with a widget category makes it a widget.
pub fn media_type_badge(path: &str, steam: &[SteamWallpaper], bookmarks: &[(WebBookmark, String)]) -> (r: &'static str)
    ensures
        r@ == badge_of(path@, steam_item_of(path@, steam@) is Some, widget_bookmark_of(path@, bookmarks@)),
{
    let si = steam_item_for(path, steam);
    let wb = widget_bookmark_for(path, bookmarks);
    badge_text(path, si.is_some(), wb)
}

/// The catalogue entries shown under the category filter and the search
/// text (trimmed and lower-cased before use). Each bookmark comes with the
/// file its address resolves to; a Steam wallpaper scanned at, above or
/// below an entry makes it a Steam entry and lends it its title and author.
pub fn filtered_wallpapers(
    wallpapers: &[String],
    category: CategoryFilter,
    search_filter: &str,
    steam: &[SteamWallpaper],
    bookmarks: &[(WebBookmark, String)],
) -> (r: Vec<String>)
    ensures
        r@.map_values(|x: String| x@) == shown_wallpapers(
            wallpapers@.map_values(|x: String| x@),
            category,
            lowercase(crate::text::trim(search_filter@)),
            steam@,
            bookmarks@,
        ),
{
    let sc = chars_of(search_filter);
    let t = crate::text::string_of(crate::text::trim_chars(sc.as_slice()).as_slice());
    let query = to_lowercase(t.as_str());
    let ghost q = query@;
    let ghost ws = wallpapers@.map_values(|x: String| x@);
    let mut out: Vec<String> = Vec::new();
    let mut i: usize = 0;
    while i < wallpapers.len()
        invariant
            i <= wallpapers.len(),
            q == query@,
            ws == wallpapers@.map_values(|x: String| x@),
            out@.map_values(|x: String| x@) == shown_wallpapers(ws.take(i as int), category, q, steam@, bookmarks@),
        decreases wallpapers.len() - i,
    {
        assert(ws.take(i + 1).drop_last() == ws.take(i as int));
        assert(ws.take(i + 1).last() == wallpapers@[i as int]@);
        let w = wallpapers[i].as_str();
        let si = steam_item_for(w, steam);
        let bm = bookmark_for(w, bookmarks);
        let b_arg: Option<(&str, &str)> = match &bm {
            Some(x) => Some((x.0.as_str(), x.1.as_str())),
            None => None,
        };
        let s_arg: Option<(&str, &str)> = match &si {
            Some(x) => Some((x.0.as_str(), x.1.as_str())),
            None => None,
        };
        let shown = wallpaper_shown(w, category, query.as_str(), si.is_some(), b_arg, s_arg);
        let ghost before = out@.map_values(|x: String| x@);
        if shown {
            out.push(wallpapers[i].clone());
            assert(out@.map_values(|x: String| x@) == before.push(wallpapers@[i as int]@));
        }
        i += 1;
    }
    assert(ws.take(wallpapers.len() as int) == ws);
    out
}

/// The entry the carousel shows: the one at `index`, or the last one when
/// `index` is past the end; none for an empty list.
pub fn active_carousel_item(filtered: &[String], index: usize) -> (r: Option<String>)
    ensures
        filtered.len() == 0 ==> r is None,
        filtered.len() > 0 ==> r == Some(filtered@[if index < filtered.len() { index as int } else { filtered.len() - 1 }]),
{
    if filtered.len() == 0 {
        return None;
    }
    let i = if index < filtered.len() { index } else { filtered.len() - 1 };
    Some(filtered[i].clone())
}

/// Where a tool named `cmd` is looked for: in each directory of the
/// search path `path_dirs`, in order, then below the home directory
/// `home` (`.local/bin`, `.cargo/bin`) and in the system directories.
pub open spec fn tool_candidates_of(cmd: Seq<char>, path_dirs: Seq<Seq<char>>, home: Seq<char>) -> Seq<Seq<char>> {
    path_dirs.map_values(|d: Seq<char>| crate::paths::join(d, cmd)) + seq![
        crate::paths::join(crate::paths::join(home, ".local/bin"@), cmd),
        crate::paths::join(crate::paths::join(home, ".cargo/bin"@), cmd),
        crate::paths::join("/usr/bin"@, cmd),
        crate::paths::join("/usr/local/bin"@, cmd),
        crate::paths::join("/bin"@, cmd),
    ]
}

/// The places the tool `cmd` is looked for, in order.
pub fn tool_candidates(cmd: &str, path_dirs: &[String], home: &str) -> (r: Vec<String>)
    ensures
        r@.map_values(|x: String| x@) == tool_candidates_of(cmd@, path_dirs@.map_values(|x: String| x@), home@),
{
    let ghost dirs = path_dirs@.map_values(|x: String| x@);
    let mut out: Vec<String> = Vec::new();
    let mut i: usize = 0;
    while i < path_dirs.len()
        invariant
            i <= path_dirs.len(),
            dirs == path_dirs@.map_values(|x: String| x@),
            out@.map_values(|x: String| x@) == dirs.take(i as int).map_values(|d: Seq<char>| crate::paths::join(d, cmd@)),
        decreases path_dirs.len() - i,
    {
        let ghost before = out@.map_values(|x: String| x@);
        out.push(crate::paths::join_path(path_dirs[i].as_str(), cmd));
        assert(dirs.take(i + 1) == dirs.take(i as int).push(dirs[i as int]));
        assert(out@.map_values(|x: String| x@) == before.push(crate::paths::join(dirs[i as int], cmd@)));
        i += 1;
    }
    assert(dirs.take(path_dirs.len() as int) == dirs);
    let ghost mid = out@.map_values(|x: String| x@);
    let l = crate::paths::join_path(home, ".local/bin");
    out.push(crate::paths::join_path(l.as_str(), cmd));
    let c = crate::paths::join_path(home, ".cargo/bin");
    out.push(crate::paths::join_path(c.as_str(), cmd));
    out.push(crate::paths::join_path("/usr/bin", cmd));
    out.push(crate::paths::join_path("/usr/local/bin", cmd));
    out.push(crate::paths::join_path("/bin", cmd));
    assert(out@.map_values(|x: String| x@) =~= mid + seq![
        crate::paths::join(crate::paths::join(home@, ".local/bin"@), cmd@),
        crate::paths::join(crate::paths::join(home@, ".cargo/bin"@), cmd@),
        crate::paths::join("/usr/bin"@, cmd@),
        crate::paths::join("/usr/local/bin"@, cmd@),
        crate::paths::join("/bin"@, cmd@),
    ]);
    out
}

/// The tool's path: the first of its candidate places that exists
/// (`present[i]` for the `i`-th of `tool_candidates(cmd, path_dirs, home)`).
pub fn find_tool_path(cmd: &str, path_dirs: &[String], home: &str, present: &[bool]) -> (r: Option<String>)
    requires
        present.len() == tool_candidates_of(cmd@, path_dirs@.map_values(|x: String| x@), home@).len(),
    ensures
        crate::paths::opt_string(r) == crate::paths::first_present_of(
            tool_candidates_of(cmd@, path_dirs@.map_values(|x: String| x@), home@),
            present@,
        ),
{
    let cands = tool_candidates(cmd, path_dirs, home);
    let r = crate::paths::first_present(cands.as_slice(), present);
    r
}

/// A colour as red, green and blue bytes.
pub type Rgb = (u8, u8, u8);

impl ThemeScheme {
    /// The window colours of the scheme: background, text and accent.
    pub fn palette_rgb(&self) -> (r: (Rgb, Rgb, Rgb))
        ensures
            r == match *self {
                ThemeScheme::DarkGlass => ((10u8, 12u8, 20u8), (235u8, 242u8, 255u8), (0u8, 200u8, 220u8)),
                ThemeScheme::SteamAmber => ((11u8, 20u8, 29u8), (240u8, 246u8, 255u8), (102u8, 192u8, 244u8)),
                ThemeScheme::HardLightCyber => ((8u8, 8u8, 14u8), (250u8, 250u8, 255u8), (255u8, 0u8, 85u8)),
                ThemeScheme::OledPitchBlack => ((0u8, 0u8, 0u8), (255u8, 255u8, 255u8), (0u8, 240u8, 255u8)),
            },
    {
        match self {
            ThemeScheme::DarkGlass => ((10, 12, 20), (235, 242, 255), (0, 200, 220)),
            ThemeScheme::SteamAmber => ((11, 20, 29), (240, 246, 255), (102, 192, 244)),
            ThemeScheme::HardLightCyber => ((8, 8, 14), (250, 250, 255), (255, 0, 85)),
            ThemeScheme::OledPitchBlack => ((0, 0, 0), (255, 255, 255), (0, 240, 255)),
        }
    }
}

/// `n` zeros.
pub open spec fn zeros(n: int) -> Seq<char>
    decreases n,
{
    if n <= 0 {
        seq![]
    } else {
        zeros(n - 1).push('0')
    }
}

/// `v` in decimal, padded with zeros to `width` characters, the sign
/// counted (as `{:0width}` prints it).
pub open spec fn zero_padded(v: int, width: nat) -> Seq<char> {
    if v < 0 {
        let d = crate::text::decimal((-v) as nat);
        "-"@ + zeros(width - 1 - d.len()) + d
    } else {
        let d = crate::text::decimal(v as nat);
        zeros(width - d.len()) + d
    }
}

fn push_zeros(s: &mut String, n: usize)
    ensures
        final(s)@ == old(s)@ + zeros(n as int),
{
    let mut i: usize = 0;
    while i < n
        invariant
            i <= n,
            s@ == old(s)@ + zeros(i as int),
        decreases n - i,
    {
        crate::text::push_char(s, '0');
        i += 1;
    }
}

/// `v` in decimal padded with zeros to `width` characters.
pub fn zero_pad(v: i64, width: usize) -> (r: String)
    ensures
        r@ == zero_padded(v as int, width as nat),
{
    let (neg, mag): (bool, u64) = if v < 0 {
        (true, (0i128 - v as i128) as u64)
    } else {
        (false, v as u64)
    };
    let d = crate::text::decimal_string(mag);
    let dl = chars_of(d.as_str()).len();
    let mut s = String::new();
    if neg {
        s.append("-");
        if width >= 1 && width - 1 >= dl {
            push_zeros(&mut s, width - 1 - dl);
        } else {
            assert(zeros(width - 1 - dl) == Seq::<char>::empty());
        }
    } else {
        if width >= dl {
            push_zeros(&mut s, width - dl);
        } else {
            assert(zeros(width - dl) == Seq::<char>::empty());
        }
    }
    s.append(d.as_str());
    s
}

/// The three-letter name of a month, counted from 0; later months read
/// as December.
pub open spec fn month_name(m: int) -> Seq<char> {
    if m <= 0 {
        "Jan"@
    } else if m == 1 {
        "Feb"@
    } else if m == 2 {
        "Mar"@
    } else if m == 3 {
        "Apr"@
    } else if m == 4 {
        "May"@
    } else if m == 5 {
        "Jun"@
    } else if m == 6 {
        "Jul"@
    } else if m == 7 {
        "Aug"@
    } else if m == 8 {
        "Sep"@
    } else if m == 9 {
        "Oct"@
    } else if m == 10 {
        "Nov"@
    } else {
        "Dec"@
    }
}

/// The three-letter name of a weekday, counted from Sunday; later days
/// read as Saturday.
pub open spec fn weekday_name(d: int) -> Seq<char> {
    if d <= 0 {
        "Sun"@
    } else if d == 1 {
        "Mon"@
    } else if d == 2 {
        "Tue"@
    } else if d == 3 {
        "Wed"@
    } else if d == 4 {
        "Thu"@
    } else if d == 5 {
        "Fri"@
    } else {
        "Sat"@
    }
}

/// The index a month or weekday number is read at: the number itself up
/// to `max`, and `max` for anything larger or negative (a negative
/// number, taken as an index, is larger than any).
pub open spec fn clamped_index(v: int, max: int) -> int {
    if v < 0 || v > max {
        max
    } else {
        v
    }
}

fn month_of(m: i32) -> (r: &'static str)
    ensures
        r@ == month_name(clamped_index(m as int, 11)),
{
    let i = if m < 0 || m > 11 { 11 } else { m };
    if i == 0 { "Jan" } else if i == 1 { "Feb" } else if i == 2 { "Mar" } else if i == 3 { "Apr" } else if i == 4 {
        "May"
    } else if i == 5 { "Jun" } else if i == 6 { "Jul" } else if i == 7 { "Aug" } else if i == 8 { "Sep" } else if i
        == 9 { "Oct" } else if i == 10 { "Nov" } else { "Dec" }
}

fn weekday_of(d: i32) -> (r: &'static str)
    ensures
        r@ == weekday_name(clamped_index(d as int, 6)),
{
    let i = if d < 0 || d > 6 { 6 } else { d };
    if i == 0 { "Sun" } else if i == 1 { "Mon" } else if i == 2 { "Tue" } else if i == 3 { "Wed" } else if i == 4 {
        "Thu"
    } else if i == 5 { "Fri" } else { "Sat" }
}

/// The clock shown in the header, from the local broken-down time (as
/// `localtime` gives it: months from 0, weekdays from Sunday, years since
/// 1900): `hh:mm:ss`, and `Day, Mon d yyyy`.
pub fn clock_strings(hour: i32, min: i32, sec: i32, mon: i32, wday: i32, mday: i32, year: i32) -> (r: (String, String))
    ensures
        r.0@ == zero_padded(hour as int, 2) + ":"@ + zero_padded(min as int, 2) + ":"@ + zero_padded(sec as int, 2),
        r.1@ == weekday_name(clamped_index(wday as int, 6)) + ", "@ + month_name(clamped_index(mon as int, 11)) + " "@
            + crate::engine::int_text(mday as i64) + " "@ + zero_padded(year + 1900, 4),
{
    let mut t = zero_pad(hour as i64, 2);
    t.append(":");
    t.append(zero_pad(min as i64, 2).as_str());
    t.append(":");
    t.append(zero_pad(sec as i64, 2).as_str());
    let mut d = weekday_of(wday).to_string();
    d.append(", ");
    d.append(month_of(mon));
    d.append(" ");
    d.append(crate::engine::int_string(mday as i64).as_str());
    d.append(" ");
    d.append(zero_pad(year as i64 + 1900, 4).as_str());
    (t, d)
}


/// What hovering over a catalogue entry does to the live preview stream.
#[derive(Debug, Clone, Copy, PartialEq, Eq, Structural)]
pub enum HoverAction {
    /// The entry is already streaming; for a web entry the time of the
    /// live frame is read again.
    Keep { refresh_web_frame: bool },
    /// Any running stream stops and the entry becomes the streamed one;
    /// a web page starts the live web capture.
    StartWeb,
    /// As `StartWeb`, but a video starts the video preview.
    StartVideo,
    /// As `StartWeb`, but nothing is started for other kinds of file.
    StartNothing,
}

/// What hovering over `hovered` does while `current` is streamed.
pub open spec fn hover_outcome(current: Option<Seq<char>>, hovered: Seq<char>) -> HoverAction {
    let web = is_web_media(hovered);
    let streaming_it = match current {
        Some(c) => crate::paths::same_path(c, hovered),
        None => false,
    };
    if streaming_it {
        HoverAction::Keep { refresh_web_frame: web }
    } else if web {
        HoverAction::StartWeb
    } else if is_video_ext(ext_lower(hovered)) {
        HoverAction::StartVideo
    } else {
        HoverAction::StartNothing
    }
}

/// What hovering over `hovered` does while `current` is streamed.
pub fn hover_action(current: Option<&str>, hovered: &str) -> (r: HoverAction)
    ensures
        r == hover_outcome(
            match current {
                Some(c) => Some(c@),
                None => None,
            },
            hovered@,
        ),
{
    let e = ext_lower_of(hovered);
    let web = web_media(hovered, e.as_str());
    let streaming_it = match current {
        Some(c) => crate::paths::same_path_of(c, hovered),
        None => false,
    };
    if streaming_it {
        HoverAction::Keep { refresh_web_frame: web }
    } else if web {
        HoverAction::StartWeb
    } else if video_ext(e.as_str()) {
        HoverAction::StartVideo
    } else {
        HoverAction::StartNothing
    }
}

/// The `ffmpeg` arguments of the video hover stream: five frames a second
/// of `input`, scaled to 320x180, each written over `output`.
pub fn hover_stream_args(input: &str, output: &str) -> (r: Vec<String>)
    ensures
        r@.map_values(|x: String| x@) == seq![
            "-hide_banner"@, "-loglevel"@, "error"@, "-re"@, "-i"@, input@,
            "-vf"@, "fps=5,scale=320:180:flags=lanczos"@, "-update"@, "1"@, "-f"@, "image2"@, "-y"@, output@,
        ],
{
    let v: Vec<String> = vec![
        "-hide_banner".to_string(), "-loglevel".to_string(), "error".to_string(), "-re".to_string(),
        "-i".to_string(), input.to_string(), "-vf".to_string(), "fps=5,scale=320:180:flags=lanczos".to_string(),
        "-update".to_string(), "1".to_string(), "-f".to_string(), "image2".to_string(), "-y".to_string(),
        output.to_string(),
    ];
    assert(v@.map_values(|x: String| x@) =~= seq![
            "-hide_banner"@, "-loglevel"@, "error"@, "-re"@, "-i"@, input@,
            "-vf"@, "fps=5,scale=320:180:flags=lanczos"@, "-update"@, "1"@, "-f"@, "image2"@, "-y"@, output@,
        ]);
    v
}


/// With the `All` filter and an empty search, the catalogue shows every
/// entry, in order.
pub proof fn law_unfiltered_catalogue_shows_all(
    ws: Seq<Seq<char>>,
    steam: Seq<SteamWallpaper>,
    bms: Seq<(WebBookmark, String)>,
)
    ensures
        shown_wallpapers(ws, CategoryFilter::All, Seq::empty(), steam, bms) == ws,
    decreases ws.len(),
{
    if ws.len() > 0 {
        law_unfiltered_catalogue_shows_all(ws.drop_last(), steam, bms);
        assert(ws.drop_last().push(ws.last()) == ws);
    }
}

/// Every entry the catalogue shows is one of its entries.
pub proof fn law_shown_entries_come_from_the_catalogue(
    ws: Seq<Seq<char>>,
    category: CategoryFilter,
    query: Seq<char>,
    steam: Seq<SteamWallpaper>,
    bms: Seq<(WebBookmark, String)>,
)
    ensures
        forall|i: int|
            0 <= i < shown_wallpapers(ws, category, query, steam, bms).len() ==> ws.contains(
                #[trigger] shown_wallpapers(ws, category, query, steam, bms)[i],
            ),
    decreases ws.len(),
{
    if ws.len() > 0 {
        law_shown_entries_come_from_the_catalogue(ws.drop_last(), category, query, steam, bms);
        let prev = shown_wallpapers(ws.drop_last(), category, query, steam, bms);
        let cur = shown_wallpapers(ws, category, query, steam, bms);
        assert forall|i: int| 0 <= i < cur.len() implies ws.contains(#[trigger] cur[i]) by {
            if i < prev.len() {
                assert(cur[i] == prev[i]);
                assert(ws.drop_last().contains(prev[i]));
                let k = choose|k: int| 0 <= k < ws.drop_last().len() && ws.drop_last()[k] == prev[i];
                assert(ws[k] == prev[i]);
            } else {
                assert(cur[i] == ws.last());
                assert(ws[ws.len() - 1] == ws.last());
            }
        }
    }
}


/// A thumbnail file of the catalogue or of the Workshop listing: its path,
/// whether it is on disk and whether its image is already in the cache.
#[derive(Debug, Clone, PartialEq)]
pub struct ThumbFile {
    pub path: String,
    pub exists: bool,
    pub cached: bool,
}

/// Whether a thumbnail is to be decoded now: on disk, not in the cache and
/// not being decoded.
pub open spec fn wants_decode(t: Option<ThumbFile>, pending: Set<Seq<Seq<char>>>) -> bool {
    match t {
        Some(f) => f.exists && !f.cached && !pending.contains(components(f.path@)),
        None => false,
    }
}

/// The path of the first thumbnail in `ts` that is to be decoded.
pub open spec fn first_wanted(ts: Seq<Option<ThumbFile>>, pending: Set<Seq<Seq<char>>>) -> Option<Seq<char>>
    decreases ts.len(),
{
    if ts.len() == 0 {
        None
    } else {
        match first_wanted(ts.drop_last(), pending) {
            Some(p) => Some(p),
            None => if wants_decode(ts.last(), pending) {
                Some(ts.last()->0.path@)
            } else {
                None
            },
        }
    }
}

/// How many catalogue and Workshop thumbnails a tick looks at.
pub const DECODE_SCAN_LIMIT: usize = 60;

/// One step of the plan: a wanted file is decoded and marked pending.
pub open spec fn plan_step(
    acc: (Seq<Seq<char>>, Set<Seq<Seq<char>>>),
    pick: Option<Seq<char>>,
) -> (Seq<Seq<char>>, Set<Seq<Seq<char>>>) {
    match pick {
        Some(p) => (acc.0.push(p), acc.1.insert(components(p))),
        None => acc,
    }
}

/// The thumbnails a tick of the catalogue window decodes, in order, and
/// the pending set after it: the live web frame when it is newer than the
/// cached one (`live`) and not pending; the thumbnail of the spotlight
/// entry; the first wanted among the first catalogue thumbnails; and, on
/// the Workshop tab, the first wanted among the first Workshop previews.
pub open spec fn decode_plan(
    live: Option<Seq<char>>,
    active: Option<ThumbFile>,
    catalogue: Seq<Option<ThumbFile>>,
    workshop_tab: bool,
    workshop: Seq<Option<ThumbFile>>,
    pending: Set<Seq<Seq<char>>>,
) -> (Seq<Seq<char>>, Set<Seq<Seq<char>>>) {
    let lim = DECODE_SCAN_LIMIT as int;
    let s0 = (Seq::<Seq<char>>::empty(), pending);
    let s1 = plan_step(
        s0,
        match live {
            Some(l) => if !pending.contains(components(l)) {
                Some(l)
            } else {
                None
            },
            None => None,
        },
    );
    let s2 = plan_step(
        s1,
        if wants_decode(active, s1.1) {
            Some(active->0.path@)
        } else {
            None
        },
    );
    let s3 = plan_step(
        s2,
        first_wanted(
            if catalogue.len() <= lim {
                catalogue
            } else {
                catalogue.take(lim)
            },
            s2.1,
        ),
    );
    if workshop_tab {
        plan_step(
            s3,
            first_wanted(
                if workshop.len() <= lim {
                    workshop
                } else {
                    workshop.take(lim)
                },
                s3.1,
            ),
        )
    } else {
        s3
    }
}

fn wanted_now(t: &Option<ThumbFile>, pending: &PathSet) -> (r: bool)
    ensures
        r == wants_decode(*t, pending@),
{
    match t {
        Some(f) => f.exists && !f.cached && !pending.contains(&f.path),
        None => false,
    }
}

fn first_wanted_in(ts: &[Option<ThumbFile>], pending: &PathSet) -> (r: Option<String>)
    ensures
        (match r {
            Some(p) => Some(p@),
            None => None,
        }) == first_wanted(
            if ts@.len() <= DECODE_SCAN_LIMIT {
                ts@
            } else {
                ts@.take(DECODE_SCAN_LIMIT as int)
            },
            pending@,
        ),
{
    let n = if ts.len() <= DECODE_SCAN_LIMIT { ts.len() } else { DECODE_SCAN_LIMIT };
    let ghost seen = if ts@.len() <= DECODE_SCAN_LIMIT { ts@ } else { ts@.take(DECODE_SCAN_LIMIT as int) };
    assert(seen.len() == n);
    let mut i: usize = 0;
    while i < n
        invariant
            i <= n,
            n == seen.len(),
            n <= ts@.len(),
            seen == (if ts@.len() <= DECODE_SCAN_LIMIT { ts@ } else { ts@.take(DECODE_SCAN_LIMIT as int) }),
            first_wanted(seen.take(i as int), pending@) is None,
        decreases n - i,
    {
        assert(seen.take(i + 1).drop_last() == seen.take(i as int));
        assert(seen[i as int] == ts@[i as int]);
        if wanted_now(&ts[i], pending) {
            let p = match &ts[i] {
                Some(f) => f.path.clone(),
                None => String::new(),
            };
            assert(first_wanted(seen.take(i + 1), pending@) == Some(p@));
            proof {
                lemma_first_wanted_found(seen, i as int, pending@);
            }
            return Some(p);
        }
        i += 1;
    }
    assert(seen.take(n as int) == seen);
    None
}

proof fn lemma_first_wanted_found(ts: Seq<Option<ThumbFile>>, i: int, pending: Set<Seq<Seq<char>>>)
    requires
        0 <= i < ts.len(),
        first_wanted(ts.take(i + 1), pending) is Some,
    ensures
        first_wanted(ts, pending) == first_wanted(ts.take(i + 1), pending),
    decreases ts.len() - i,
{
    if i + 1 < ts.len() {
        assert(ts.drop_last().take(i + 1) == ts.take(i + 1));
        lemma_first_wanted_found(ts.drop_last(), i, pending);
    } else {
        assert(ts.take(i + 1) == ts);
    }
}

/// Chooses the thumbnails a tick decodes (see `decode_plan`) and marks them
/// pending in `pending`; returns them in order.
pub fn thumbs_to_decode(
    live: Option<String>,
    active: Option<ThumbFile>,
    catalogue: &[Option<ThumbFile>],
    workshop_tab: bool,
    workshop: &[Option<ThumbFile>],
    pending: &mut PathSet,
) -> (r: Vec<String>)
    requires
        old(pending).wf(),
    ensures
        final(pending).wf(),
        (r@.map_values(|x: String| x@), final(pending)@) == decode_plan(
            match live {
                Some(l) => Some(l@),
                None => None,
            },
            active,
            catalogue@,
            workshop_tab,
            workshop@,
            old(pending)@,
        ),
{
    let mut out: Vec<String> = Vec::new();
    match live {
        Some(l) => if !pending.contains(&l) {
            pending.insert(l.clone());
            out.push(l);
        },
        None => {},
    }
    if wanted_now(&active, pending) {
        let p = match &active {
            Some(f) => f.path.clone(),
            None => String::new(),
        };
        pending.insert(p.clone());
        let ghost before = out@;
        out.push(p);
        assert(out@.map_values(|x: String| x@) == before.map_values(|x: String| x@).push(active->0.path@));
    }
    match first_wanted_in(catalogue, pending) {
        Some(p) => {
            pending.insert(p.clone());
            let ghost before = out@;
            let ghost pv = p@;
            out.push(p);
            assert(out@.map_values(|x: String| x@) == before.map_values(|x: String| x@).push(pv));
        },
        None => {},
    }
    if workshop_tab {
        match first_wanted_in(workshop, pending) {
            Some(p) => {
                pending.insert(p.clone());
                let ghost before = out@;
                let ghost pv = p@;
                out.push(p);
                assert(out@.map_values(|x: String| x@) == before.map_values(|x: String| x@).push(pv));
            },
            None => {},
        }
    }
    out
}


/// The asset a preset loads (empty for a custom address).
pub open spec fn preset_url(p: WidgetPreset) -> Seq<char> {
    match p {
        WidgetPreset::CyberHud => "assets/widgets/desktop_hud.html"@,
        WidgetPreset::WifiBluetoothPill => "assets/widgets/wifi_bluetooth_pill.html"@,
        WidgetPreset::MinimalClock => "assets/widgets/minimal_clock_stats.html"@,
        WidgetPreset::Custom => ""@,
    }
}

/// The widget address put on the desktop: the preset's asset, or the
/// custom address (the HUD when it is blank).
pub open spec fn widget_target(preset: WidgetPreset, custom: Seq<char>) -> Seq<char> {
    if preset == WidgetPreset::Custom {
        if crate::text::trim(custom).len() == 0 {
            "assets/widgets/desktop_hud.html"@
        } else {
            custom
        }
    } else {
        preset_url(preset)
    }
}

/// The widget tab of the catalogue window: the widget settings (whether
/// the overlay is on, its address and corner) and the tab's own choice of
/// preset and custom address.
#[derive(Debug, Clone, PartialEq)]
pub struct WidgetPanel {
    pub enabled: bool,
    pub url: Option<String>,
    pub position: String,
    pub preset: WidgetPreset,
    pub custom_url: String,
}

/// What the user does on the widget tab.
#[derive(Debug, Clone, PartialEq)]
pub enum WidgetEvent {
    Toggle,
    SetEnabled(bool),
    SelectPreset(WidgetPreset),
    SelectPosition(String),
    CustomUrlChanged(String),
    ApplyToDesktop,
    Stop,
}

/// The widget settings sent to the daemon.
#[derive(Debug, Clone, PartialEq)]
pub struct WidgetRequest {
    pub url: String,
    pub enabled: bool,
    pub position: String,
}

/// What an event on the widget tab leads to, besides saving the settings
/// (which every event does): the request to the daemon, if any, and the
/// status line, if it changes.
#[derive(Debug, Clone, PartialEq)]
pub struct WidgetReply {
    pub request: Option<WidgetRequest>,
    pub status: Option<String>,
}

/// The texts of a widget panel: whether on, address, corner, preset and
/// custom address.
pub open spec fn panel_view(p: WidgetPanel) -> (bool, Option<Seq<char>>, Seq<char>, WidgetPreset, Seq<char>) {
    (
        p.enabled,
        match p.url {
            Some(u) => Some(u@),
            None => None,
        },
        p.position@,
        p.preset,
        p.custom_url@,
    )
}

/// The texts of a reply: the request as (address, on, corner), and the
/// status line.
pub open spec fn reply_view(r: WidgetReply) -> (Option<(Seq<char>, bool, Seq<char>)>, Option<Seq<char>>) {
    (
        match r.request {
            Some(q) => Some((q.url@, q.enabled, q.position@)),
            None => None,
        },
        match r.status {
            Some(t) => Some(t@),
            None => None,
        },
    )
}

/// The status line after the overlay was switched on or off.
pub open spec fn switched_text(on: bool) -> Seq<char> {
    if on {
        "Desktop widgets enabled"@
    } else {
        "Desktop widgets disabled"@
    }
}

/// The panel and reply after `e`, as texts (see `panel_view` and
/// `reply_view`).
pub open spec fn widget_outcome(
    p: (bool, Option<Seq<char>>, Seq<char>, WidgetPreset, Seq<char>),
    e: WidgetEvent,
) -> ((bool, Option<Seq<char>>, Seq<char>, WidgetPreset, Seq<char>), (Option<(Seq<char>, bool, Seq<char>)>, Option<Seq<char>>)) {
    let (on, url, pos, preset, custom) = p;
    let target = widget_target(preset, custom);
    match e {
        WidgetEvent::Toggle => (
            (!on, Some(target), pos, preset, custom),
            (Some((target, !on, pos)), Some(switched_text(!on))),
        ),
        WidgetEvent::SetEnabled(b) => (
            (b, Some(target), pos, preset, custom),
            (Some((target, b, pos)), Some(switched_text(b))),
        ),
        WidgetEvent::SelectPreset(q) => {
            let u = if q != WidgetPreset::Custom { preset_url(q) } else { custom };
            let c = if q != WidgetPreset::Custom { preset_url(q) } else { custom };
            ((on, Some(u), pos, q, c), (if on { Some((u, true, pos)) } else { None }, None))
        },
        WidgetEvent::SelectPosition(np) => {
            let u = if preset == WidgetPreset::Custom { custom } else { preset_url(preset) };
            ((on, url, np@, preset, custom), (if on { Some((u, true, np@)) } else { None }, None))
        },
        WidgetEvent::CustomUrlChanged(nu) => ((on, Some(nu@), pos, preset, nu@), (None, None)),
        WidgetEvent::ApplyToDesktop => (
            (true, Some(target), pos, preset, custom),
            (Some((target, true, pos)), Some("Applying widget to desktop overlay..."@)),
        ),
        WidgetEvent::Stop => {
            let u = match url {
                Some(x) => x,
                None => "assets/widgets/desktop_hud.html"@,
            };
            ((false, url, pos, preset, custom), (Some((u, false, pos)), Some("Stopping desktop widget overlay..."@)))
        },
    }
}

fn preset_url_string(p: WidgetPreset) -> (r: String)
    ensures
        r@ == preset_url(p),
{
    p.url().to_string()
}

fn target_of(preset: WidgetPreset, custom: &String) -> (r: String)
    ensures
        r@ == widget_target(preset, custom@),
{
    if preset == WidgetPreset::Custom {
        let c = chars_of(custom.as_str());
        if crate::text::trim_chars(c.as_slice()).len() == 0 {
            "assets/widgets/desktop_hud.html".to_string()
        } else {
            custom.clone()
        }
    } else {
        preset_url_string(preset)
    }
}

/// Handles an event on the widget tab (see `widget_outcome`).
pub fn widget_panel_step(panel: &mut WidgetPanel, e: WidgetEvent) -> (r: WidgetReply)
    ensures
        (panel_view(*final(panel)), reply_view(r)) == widget_outcome(panel_view(*old(panel)), e),
{
    match e {
        WidgetEvent::Toggle => {
            let on = !panel.enabled;
            let target = target_of(panel.preset, &panel.custom_url);
            panel.enabled = on;
            panel.url = Some(target.clone());
            let text = if on { "Desktop widgets enabled".to_string() } else { "Desktop widgets disabled".to_string() };
            WidgetReply {
                request: Some(WidgetRequest { url: target, enabled: on, position: panel.position.clone() }),
                status: Some(text),
            }
        },
        WidgetEvent::SetEnabled(b) => {
            let target = target_of(panel.preset, &panel.custom_url);
            panel.enabled = b;
            panel.url = Some(target.clone());
            let text = if b { "Desktop widgets enabled".to_string() } else { "Desktop widgets disabled".to_string() };
            WidgetReply {
                request: Some(WidgetRequest { url: target, enabled: b, position: panel.position.clone() }),
                status: Some(text),
            }
        },
        WidgetEvent::SelectPreset(q) => {
            panel.preset = q;
            if q != WidgetPreset::Custom {
                let u = preset_url_string(q);
                panel.custom_url = u.clone();
                panel.url = Some(u);
            } else {
                panel.url = Some(panel.custom_url.clone());
            }
            let request = if panel.enabled {
                let u = match &panel.url {
                    Some(x) => x.clone(),
                    None => "assets/widgets/desktop_hud.html".to_string(),
                };
                Some(WidgetRequest { url: u, enabled: true, position: panel.position.clone() })
            } else {
                None
            };
            WidgetReply { request, status: None }
        },
        WidgetEvent::SelectPosition(np) => {
            panel.position = np.clone();
            let request = if panel.enabled {
                let u = if panel.preset == WidgetPreset::Custom {
                    panel.custom_url.clone()
                } else {
                    preset_url_string(panel.preset)
                };
                Some(WidgetRequest { url: u, enabled: true, position: np })
            } else {
                None
            };
            WidgetReply { request, status: None }
        },
        WidgetEvent::CustomUrlChanged(nu) => {
            panel.custom_url = nu.clone();
            panel.url = Some(nu);
            WidgetReply { request: None, status: None }
        },
        WidgetEvent::ApplyToDesktop => {
            let target = target_of(panel.preset, &panel.custom_url);
            panel.enabled = true;
            panel.url = Some(target.clone());
            WidgetReply {
                request: Some(WidgetRequest { url: target, enabled: true, position: panel.position.clone() }),
                status: Some("Applying widget to desktop overlay...".to_string()),
            }
        },
        WidgetEvent::Stop => {
            panel.enabled = false;
            let u = match &panel.url {
                Some(x) => x.clone(),
                None => "assets/widgets/desktop_hud.html".to_string(),
            };
            WidgetReply {
                request: Some(WidgetRequest { url: u, enabled: false, position: panel.position.clone() }),
                status: Some("Stopping desktop widget overlay...".to_string()),
            }
        },
    }
}


/// Switching the widget overlay twice leaves it as it was, pointed at the
/// chosen widget.
pub proof fn law_widget_toggle_twice(p: (bool, Option<Seq<char>>, Seq<char>, WidgetPreset, Seq<char>))
    ensures
        ({
            let once = widget_outcome(p, WidgetEvent::Toggle).0;
            let twice = widget_outcome(once, WidgetEvent::Toggle).0;
            twice == (p.0, Some(widget_target(p.3, p.4)), p.2, p.3, p.4)
        }),
{
}

/// Stopping the overlay right after putting a widget on the desktop asks
/// the daemon to remove that same widget, at the same corner.
pub proof fn law_stop_removes_applied_widget(p: (bool, Option<Seq<char>>, Seq<char>, WidgetPreset, Seq<char>))
    ensures
        ({
            let (applied, sent) = widget_outcome(p, WidgetEvent::ApplyToDesktop);
            let (stopped, removal) = widget_outcome(applied, WidgetEvent::Stop);
            &&& sent.0 == Some((widget_target(p.3, p.4), true, p.2))
            &&& removal.0 == Some((widget_target(p.3, p.4), false, p.2))
            &&& !stopped.0
        }),
{
}


/// The first position of the path `p` in `ws`, paths compared as `Path`s.
pub open spec fn path_position(ws: Seq<Seq<char>>, p: Seq<char>) -> Option<int>
    decreases ws.len(),
{
    if ws.len() == 0 {
        None
    } else {
        match path_position(ws.drop_last(), p) {
            Some(i) => Some(i),
            None => if crate::paths::same_path(ws.last(), p) {
                Some(ws.len() - 1)
            } else {
                None
            },
        }
    }
}

/// `t` is how the entry `path` is put on the desktop: web addresses are
/// streamed, anything else is a file.
pub open spec fn applies_entry(path: Seq<char>, t: crate::panel::ApplyTarget) -> bool {
    if starts_with(path, "http://"@) || starts_with(path, "https://"@) {
        t matches crate::panel::ApplyTarget::Url(u) && u@ == path
    } else {
        t matches crate::panel::ApplyTarget::File(f) && f@ == path
    }
}

/// What a click on a catalogue card does: the carousel moves to the
/// card's entry, the live preview stops unless it is already that of the
/// card, and a double click puts the entry on the desktop.
#[derive(Debug, Clone, PartialEq)]
pub struct CardClick {
    pub carousel_index: usize,
    pub stop_stream: bool,
    pub apply: Option<crate::panel::ApplyTarget>,
}

/// Handles a click on the card of `path` while the carousel is at `index`
/// over the shown entries `filtered` and `streaming` is previewed;
/// `double` tells whether it completes a double click.
pub fn card_clicked(filtered: &[String], index: usize, streaming: Option<&str>, path: &str, double: bool) -> (r: CardClick)
    ensures
        r.carousel_index == match path_position(filtered@.map_values(|x: String| x@), path@) {
            Some(i) => i,
            None => index as int,
        },
        r.stop_stream == !(match streaming {
            Some(s) => crate::paths::same_path(s@, path@),
            None => false,
        }),
        double ==> (r.apply matches Some(t) && applies_entry(path@, t)),
        !double ==> r.apply is None,
{
    let found = path_index(filtered, path);
    let carousel_index = match found {
        Some(k) => k,
        None => index,
    };
    let stop_stream = match streaming {
        Some(s) => !crate::paths::same_path_of(s, path),
        None => true,
    };
    let apply = if double {
        Some(crate::panel::apply_target(path))
    } else {
        None
    };
    CardClick { carousel_index, stop_stream, apply }
}


/// Two optional paths are equal as `Option<PathBuf>`s.
pub open spec fn same_opt_path(a: Option<Seq<char>>, b: Option<Seq<char>>) -> bool {
    match (a, b) {
        (Some(x), Some(y)) => crate::paths::same_path(x, y),
        (None, None) => true,
        _ => false,
    }
}

/// Whether the catalogue entry `w` (with canonical path `canon_w`, when it
/// has one) stays after the bookmark with address `url` was removed: not
/// when it is the address or the file it resolved to (`resolved`), nor
/// when both it and that file exist as the same canonical path
/// (`canon_target`).
pub open spec fn stays_after_removal(
    w: Seq<char>,
    canon_w: Option<Seq<char>>,
    url: Seq<char>,
    resolved: Seq<char>,
    canon_target: Option<Seq<char>>,
) -> bool {
    !(w == url || w == resolved) && !(canon_target is Some && canon_w is Some && same_opt_path(canon_target, canon_w))
}

/// The catalogue entries that stay, in order.
pub open spec fn kept_after_removal(
    ws: Seq<Seq<char>>,
    canon: Seq<Option<Seq<char>>>,
    url: Seq<char>,
    resolved: Seq<char>,
    canon_target: Option<Seq<char>>,
) -> Seq<Seq<char>>
    decreases ws.len(),
{
    if ws.len() == 0 {
        seq![]
    } else {
        let prev = kept_after_removal(ws.drop_last(), canon, url, resolved, canon_target);
        if stays_after_removal(ws.last(), canon[ws.len() - 1], url, resolved, canon_target) {
            prev.push(ws.last())
        } else {
            prev
        }
    }
}

/// The catalogue after a bookmark was removed, and the selected entry.
#[derive(Debug, Clone, PartialEq)]
pub struct AfterRemoval {
    pub entries: Vec<String>,
    pub selected: Option<String>,
}

fn same_opt_path_of(a: Option<&str>, b: Option<&str>) -> (r: bool)
    ensures
        r == same_opt_path(
            match a {
                Some(x) => Some(x@),
                None => None,
            },
            match b {
                Some(x) => Some(x@),
                None => None,
            },
        ),
{
    match (a, b) {
        (Some(x), Some(y)) => crate::paths::same_path_of(x, y),
        (None, None) => true,
        _ => false,
    }
}

/// Drops from the catalogue `wallpapers` the entries of the removed
/// bookmark with address `url` (see `stays_after_removal`; `canon[i]` is
/// the canonical path of the `i`-th entry, when it exists). The selection
/// `selected` (canonical path `selected_canon`) moves to the first entry
/// left when it was the address, its file, or has the file's canonical
/// path (both missing counting as the same); it stays otherwise.
pub fn remove_bookmark_entries(
    wallpapers: &[String],
    canon: &[Option<String>],
    url: &str,
    resolved: &str,
    canon_target: Option<&str>,
    selected: Option<&str>,
    selected_canon: Option<&str>,
) -> (r: AfterRemoval)
    requires
        canon.len() == wallpapers.len(),
    ensures
        r.entries@.map_values(|x: String| x@) == kept_after_removal(
            wallpapers@.map_values(|x: String| x@),
            canon@.map_values(|c: Option<String>| match c {
                Some(x) => Some(x@),
                None => None,
            }),
            url@,
            resolved@,
            match canon_target {
                Some(x) => Some(x@),
                None => None,
            },
        ),
        match selected {
            None => r.selected is None,
            Some(sel) => if sel@ == url@ || sel@ == resolved@ || same_opt_path(
                match canon_target {
                    Some(x) => Some(x@),
                    None => None,
                },
                match selected_canon {
                    Some(x) => Some(x@),
                    None => None,
                },
            ) {
                match r.selected {
                    Some(s) => r.entries@.len() > 0 && s@ == r.entries@[0]@,
                    None => r.entries@.len() == 0,
                }
            } else {
                r.selected matches Some(s) && s@ == sel@
            },
        },
{
    let ghost ws = wallpapers@.map_values(|x: String| x@);
    let ghost cs = canon@.map_values(
        |c: Option<String>|
            match c {
                Some(x) => Some(x@),
                None => None,
            },
    );
    let ghost ct = match canon_target {
        Some(x) => Some(x@),
        None => None,
    };
    let mut out: Vec<String> = Vec::new();
    let mut i: usize = 0;
    while i < wallpapers.len()
        invariant
            i <= wallpapers.len(),
            canon.len() == wallpapers.len(),
            ws == wallpapers@.map_values(|x: String| x@),
            cs == canon@.map_values(
                |c: Option<String>|
                    match c {
                        Some(x) => Some(x@),
                        None => None,
                    },
            ),
            ct == (match canon_target {
                Some(x) => Some(x@),
                None => None,
            }),
            out@.map_values(|x: String| x@) == kept_after_removal(ws.take(i as int), cs, url@, resolved@, ct),
        decreases wallpapers.len() - i,
    {
        assert(ws.take(i + 1).drop_last() == ws.take(i as int));
        assert(ws.take(i + 1).last() == wallpapers@[i as int]@);
        assert(ws.take(i + 1).len() - 1 == i);
        let w = wallpapers[i].as_str();
        let hit = eq(w, url) || eq(w, resolved);
        let same_canon = match (canon_target, &canon[i]) {
            (Some(t), Some(c)) => crate::paths::same_path_of(t, c.as_str()),
            _ => false,
        };
        let ghost before = out@.map_values(|x: String| x@);
        if !hit && !same_canon {
            out.push(wallpapers[i].clone());
            assert(out@.map_values(|x: String| x@) == before.push(wallpapers@[i as int]@));
        }
        i += 1;
    }
    assert(ws.take(wallpapers.len() as int) == ws);
    let sel = match selected {
        None => None,
        Some(s) => {
            if eq(s, url) || eq(s, resolved) || same_opt_path_of(canon_target, selected_canon) {
                if out.len() > 0 {
                    Some(out[0].clone())
                } else {
                    None
                }
            } else {
                Some(s.to_string())
            }
        },
    };
    AfterRemoval { entries: out, selected: sel }
}


/// After a bookmark is removed, no catalogue entry left is its address or
/// the file that address resolved to.
pub proof fn law_removed_bookmark_leaves_catalogue(
    ws: Seq<Seq<char>>,
    canon: Seq<Option<Seq<char>>>,
    url: Seq<char>,
    resolved: Seq<char>,
    canon_target: Option<Seq<char>>,
)
    ensures
        forall|i: int|
            0 <= i < kept_after_removal(ws, canon, url, resolved, canon_target).len() ==> {
                let e = #[trigger] kept_after_removal(ws, canon, url, resolved, canon_target)[i];
                e != url && e != resolved
            },
    decreases ws.len(),
{
    if ws.len() > 0 {
        law_removed_bookmark_leaves_catalogue(ws.drop_last(), canon, url, resolved, canon_target);
        let prev = kept_after_removal(ws.drop_last(), canon, url, resolved, canon_target);
        let cur = kept_after_removal(ws, canon, url, resolved, canon_target);
        assert forall|i: int| 0 <= i < cur.len() implies #[trigger] cur[i] != url && cur[i] != resolved by {
            if i < prev.len() {
                assert(cur[i] == prev[i]);
            }
        }
    }
}


/// The address the test window of a widget opens: the file it resolved to
/// (`resolved`) as a `file://` address when that file exists, else the
/// widget address as it is.
pub open spec fn widget_test_target(raw: Seq<char>, resolved: Seq<char>, exists: bool) -> Seq<char> {
    if exists {
        "file://"@ + resolved
    } else {
        raw
    }
}

/// The programs tried in turn to open the test window of a widget at
/// `target`, placed at `position`: this program (`exe`, when known) and
/// then `omywall` as a widget layer, then Electron, then Chromium as an
/// application window.
pub open spec fn widget_test_attempts_of(target: Seq<char>, position: Seq<char>, exe: Option<Seq<char>>) -> Seq<(Seq<char>, Seq<Seq<char>>)> {
    let layer = seq!["web-layer"@, target, "--widget"@, "--position"@, position];
    let rest = seq![
        ("omywall"@, layer),
        ("electron"@, seq!["--title=OMYWALL Widget Test"@, target]),
        ("chromium"@, seq!["--app="@ + target]),
    ];
    match exe {
        Some(e) => seq![(e, layer)] + rest,
        None => rest,
    }
}

fn layer_args(target: &String, position: &str) -> (r: Vec<String>)
    ensures
        r@.map_values(|x: String| x@) == seq!["web-layer"@, target@, "--widget"@, "--position"@, position@],
{
    let v: Vec<String> = vec![
        "web-layer".to_string(), target.clone(), "--widget".to_string(), "--position".to_string(),
        position.to_string(),
    ];
    assert(v@.map_values(|x: String| x@) =~= seq!["web-layer"@, target@, "--widget"@, "--position"@, position@]);
    v
}

/// The target and the programs (with their arguments) tried in turn to
/// open the test window of the widget chosen on the tab.
pub fn widget_test_launch(
    preset: WidgetPreset,
    custom: &String,
    resolved: &str,
    exists: bool,
    exe: Option<&str>,
    position: &str,
) -> (r: (String, Vec<(String, Vec<String>)>))
    ensures
        r.0@ == widget_test_target(widget_target(preset, custom@), resolved@, exists),
        r.1@.map_values(|c: (String, Vec<String>)| (c.0@, c.1@.map_values(|x: String| x@))) == widget_test_attempts_of(
            r.0@,
            position@,
            match exe {
                Some(e) => Some(e@),
                None => None,
            },
        ),
{
    let raw = target_of(preset, custom);
    let target = if exists {
        let mut t = "file://".to_string();
        t.append(resolved);
        t
    } else {
        raw
    };
    let mut app_arg = "--app=".to_string();
    app_arg.append(target.as_str());
    let mut out: Vec<(String, Vec<String>)> = Vec::new();
    match exe {
        Some(e) => out.push((e.to_string(), layer_args(&target, position))),
        None => {},
    }
    out.push(("omywall".to_string(), layer_args(&target, position)));
    let electron: Vec<String> = vec!["--title=OMYWALL Widget Test".to_string(), target.clone()];
    assert(electron@.map_values(|x: String| x@) =~= seq!["--title=OMYWALL Widget Test"@, target@]);
    out.push(("electron".to_string(), electron));
    let chromium: Vec<String> = vec![app_arg];
    assert(chromium@.map_values(|x: String| x@) =~= seq!["--app="@ + target@]);
    out.push(("chromium".to_string(), chromium));
    let ghost ex = match exe {
        Some(e) => Some(e@),
        None => None,
    };
    assert(out@.map_values(|c: (String, Vec<String>)| (c.0@, c.1@.map_values(|x: String| x@))) =~= widget_test_attempts_of(
        target@,
        position@,
        ex,
    ));
    (target, out)
}


/// The catalogue `ws` after a Steam scan found `items`: each item's folder
/// is added at the end unless the catalogue already holds that path.
pub open spec fn with_scanned(ws: Seq<Seq<char>>, items: Seq<SteamWallpaper>) -> Seq<Seq<char>>
    decreases items.len(),
{
    if items.len() == 0 {
        ws
    } else {
        let prev = with_scanned(ws, items.drop_last());
        let p = items.last().path@;
        if path_position(prev, p) is Some {
            prev
        } else {
            prev.push(p)
        }
    }
}

fn path_index(ws: &[String], p: &str) -> (r: Option<usize>)
    ensures
        (match r {
            Some(k) => Some(k as int),
            None => None,
        }) == path_position(ws@.map_values(|x: String| x@), p@),
{
    let ghost wv = ws@.map_values(|x: String| x@);
    let mut found: Option<usize> = None;
    let mut i: usize = 0;
    while i < ws.len()
        invariant
            i <= ws.len(),
            wv == ws@.map_values(|x: String| x@),
            (match found {
                Some(k) => Some(k as int),
                None => None,
            }) == path_position(wv.take(i as int), p@),
        decreases ws.len() - i,
    {
        assert(wv.take(i + 1).drop_last() == wv.take(i as int));
        assert(wv.take(i + 1).last() == ws@[i as int]@);
        if found.is_none() && crate::paths::same_path_of(ws[i].as_str(), p) {
            found = Some(i);
        }
        i += 1;
    }
    assert(wv.take(ws.len() as int) == wv);
    found
}

/// Adds to the catalogue the folders of the Steam wallpapers a scan found
/// (see `with_scanned`).
pub fn add_scanned_steam(wallpapers: &mut Vec<String>, items: &[SteamWallpaper])
    ensures
        final(wallpapers)@.map_values(|x: String| x@) == with_scanned(
            old(wallpapers)@.map_values(|x: String| x@),
            items@,
        ),
{
    let ghost w0 = wallpapers@.map_values(|x: String| x@);
    let mut i: usize = 0;
    while i < items.len()
        invariant
            i <= items.len(),
            w0 == old(wallpapers)@.map_values(|x: String| x@),
            wallpapers@.map_values(|x: String| x@) == with_scanned(w0, items@.take(i as int)),
        decreases items.len() - i,
    {
        assert(items@.take(i + 1).drop_last() == items@.take(i as int));
        let p = items[i].path.as_str();
        if path_index(wallpapers.as_slice(), p).is_none() {
            let ghost before = wallpapers@.map_values(|x: String| x@);
            wallpapers.push(items[i].path.clone());
            assert(wallpapers@.map_values(|x: String| x@) == before.push(items@[i as int].path@));
        }
        i += 1;
    }
    assert(items@.take(items.len() as int) == items@);
}


/// A Steam scan keeps every catalogue entry, in order, ahead of what it
/// adds.
pub proof fn law_scan_keeps_catalogue(ws: Seq<Seq<char>>, items: Seq<SteamWallpaper>)
    ensures
        ws.len() <= with_scanned(ws, items).len(),
        with_scanned(ws, items).take(ws.len() as int) == ws,
    decreases items.len(),
{
    if items.len() > 0 {
        law_scan_keeps_catalogue(ws, items.drop_last());
        let prev = with_scanned(ws, items.drop_last());
        assert(prev.push(items.last().path@).take(ws.len() as int) == prev.take(ws.len() as int));
    }
}


/// The two dialogs of the catalogue window: the system doctor and the
/// live log.
#[derive(Debug, Clone, Copy, PartialEq, Eq)]
pub struct Dialogs {
    pub doctor: bool,
    pub logs: bool,
}

/// The dialogs after the doctor's button: it opens or closes; opening it
/// closes the log.
pub open spec fn doctor_toggled(d: Dialogs) -> Dialogs {
    Dialogs { doctor: !d.doctor, logs: if !d.doctor { false } else { d.logs } }
}

/// The dialogs after the log's button: it opens or closes; opening it
/// closes the doctor.
pub open spec fn logs_toggled(d: Dialogs) -> Dialogs {
    Dialogs { doctor: if !d.logs { false } else { d.doctor }, logs: !d.logs }
}

/// Opens or closes the system doctor (see `doctor_toggled`).
pub fn toggle_doctor(d: Dialogs) -> (r: Dialogs)
    ensures
        r == doctor_toggled(d),
{
    let doctor = !d.doctor;
    Dialogs { doctor, logs: if doctor { false } else { d.logs } }
}

/// Opens or closes the log (see `logs_toggled`); the second part tells
/// whether the log is to be read, which it is when it opens.
pub fn toggle_logs(d: Dialogs) -> (r: (Dialogs, bool))
    ensures
        r.0 == logs_toggled(d),
        r.1 == r.0.logs,
{
    let logs = !d.logs;
    (Dialogs { doctor: if logs { false } else { d.doctor }, logs }, logs)
}

/// After either dialog's button, the doctor and the log are not both
/// open.
pub proof fn law_one_dialog_at_a_time(d: Dialogs)
    ensures
        !(doctor_toggled(d).doctor && doctor_toggled(d).logs),
        !(logs_toggled(d).doctor && logs_toggled(d).logs),
{
}

} // verus!
