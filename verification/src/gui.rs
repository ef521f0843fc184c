//! Bookkeeping of the desktop settings window: colour schemes, the cache
//! key hash and the thumbnail registry.
use vstd::prelude::*;
use crate::strset::StrSet;
use crate::pathset::PathSet;
use crate::paths::components;

verus! {

broadcast use vstd::string::group_string_axioms;

/// Colour scheme of the settings window.
#[derive(Debug, Clone, Copy, PartialEq, Eq)]
pub enum ThemeScheme {
    DarkGlass,
    SteamAmber,
    HardLightCyber,
    OledPitchBlack,
}

impl Default for ThemeScheme {
    fn default() -> (r: Self)
        ensures
            r == ThemeScheme::DarkGlass,
    {
        ThemeScheme::DarkGlass
    }
}

impl ThemeScheme {
    /// Label shown in the scheme picker.
    pub fn name(&self) -> (r: &'static str)
        ensures
            r@ == match *self {
                ThemeScheme::DarkGlass => "🌌 Dark Glass"@,
                ThemeScheme::SteamAmber => "🔥 Steam Amber"@,
                ThemeScheme::HardLightCyber => "⚡ Cyber Light"@,
                ThemeScheme::OledPitchBlack => "🖤 OLED Black"@,
            },
    {
        match self {
            ThemeScheme::DarkGlass => "🌌 Dark Glass",
            ThemeScheme::SteamAmber => "🔥 Steam Amber",
            ThemeScheme::HardLightCyber => "⚡ Cyber Light",
            ThemeScheme::OledPitchBlack => "🖤 OLED Black",
        }
    }
}

/// One step of the djb2 hash: `h * 33 + b`, modulo 2^64.
pub open spec fn djb2_step(h: u64, b: u8) -> u64 {
    ((h as int * 33 + b as int) % 0x1_0000_0000_0000_0000) as u64
}

/// The djb2 hash of `bytes`, starting from 5381.
pub open spec fn djb2(bytes: Seq<u8>) -> u64
    decreases bytes.len(),
{
    if bytes.len() == 0 {
        5381
    } else {
        djb2_step(djb2(bytes.drop_last()), bytes.last())
    }
}

/// djb2 hash of `bytes`, used to name thumbnail cache files.
pub fn md5_hash(bytes: &[u8]) -> (h: u64)
    ensures
        h == djb2(bytes@),
{
    let mut hash: u64 = 5381;
    let mut i: usize = 0;
    while i < bytes.len()
        invariant
            i <= bytes.len(),
            hash == djb2(bytes@.take(i as int)),
        decreases bytes.len() - i,
    {
        assert(bytes@.take(i + 1).drop_last() == bytes@.take(i as int));
        hash = ((hash as u128 * 33 + bytes[i] as u128) % 0x1_0000_0000_0000_0000) as u64;
        i += 1;
    }
    assert(bytes@.take(bytes.len() as int) == bytes@);
    hash
}

/// Thumbnails being rendered, thumbnails rewritten on disk since the
/// window last looked, and thumbnails whose decoded image is held.
pub struct ThumbRegistry {
    pub pending: StrSet,
    pub updated: PathSet,
    pub decoded: PathSet,
}

impl ThumbRegistry {
    pub open spec fn wf(&self) -> bool {
        self.pending.wf() && self.updated.wf() && self.decoded.wf()
    }

    pub fn new() -> (r: Self)
        ensures
            r.wf(),
            r.pending@ == Set::<Seq<char>>::empty(),
            r.updated@ == Set::<Seq<Seq<char>>>::empty(),
            r.decoded@ == Set::<Seq<Seq<char>>>::empty(),
    {
        ThumbRegistry { pending: StrSet::new(), updated: PathSet::new(), decoded: PathSet::new() }
    }
}

/// Records that the thumbnail at `path` was rewritten: its decoded image is
/// dropped and it is marked as updated.
pub fn notify_thumb_updated(reg: &mut ThumbRegistry, path: String)
    requires
        old(reg).wf(),
    ensures
        final(reg).wf(),
        final(reg).decoded@ == old(reg).decoded@.remove(components(path@)),
        final(reg).updated@ == old(reg).updated@.insert(components(path@)),
        final(reg).pending@ == old(reg).pending@,
{
    reg.decoded.remove(&path);
    reg.updated.insert(path);
}

/// Whether a thumbnail render for `key` is under way.
pub fn is_thumb_pending(reg: &ThumbRegistry, key: &String) -> (r: bool)
    ensures
        r == reg.pending@.contains(key@),
{
    reg.pending.contains(key)
}

/// Marks or unmarks a thumbnail render for `key` as under way.
pub fn set_thumb_pending(reg: &mut ThumbRegistry, key: String, pending: bool)
    requires
        old(reg).wf(),
    ensures
        final(reg).wf(),
        final(reg).pending@ == if pending {
            old(reg).pending@.insert(key@)
        } else {
            old(reg).pending@.remove(key@)
        },
        final(reg).updated@ == old(reg).updated@,
        final(reg).decoded@ == old(reg).decoded@,
{
    if pending {
        reg.pending.insert(key);
    } else {
        reg.pending.remove(&key);
    }
}

/// Whether the tool `cmd` is installed: whether any of its candidate
/// places exists (`present[i]` for the `i`-th of
/// `tool_candidates(cmd, path_dirs, home)`).
pub fn check_tool_installed(cmd: &str, path_dirs: &[String], home: &str, present: &[bool]) -> (r: bool)
    requires
        present.len() == crate::iced_gui::tool_candidates_of(cmd@, path_dirs@.map_values(|x: String| x@), home@).len(),
    ensures
        r == crate::paths::first_present_of(
            crate::iced_gui::tool_candidates_of(cmd@, path_dirs@.map_values(|x: String| x@), home@),
            present@,
        ) is Some,
{
    crate::iced_gui::find_tool_path(cmd, path_dirs, home, present).is_some()
}

/// A program with its arguments.
pub type CommandLine = (String, Vec<String>);

/// The texts of a command line.
pub open spec fn command_view(c: CommandLine) -> (Seq<char>, Seq<Seq<char>>) {
    (c.0@, c.1@.map_values(|x: String| x@))
}

fn command_line(program: &str, args: &[&str]) -> (r: CommandLine)
    ensures
        command_view(r) == (program@, args@.map_values(|a: &str| a@)),
{
    let mut v: Vec<String> = Vec::new();
    let mut i: usize = 0;
    while i < args.len()
        invariant
            i <= args.len(),
            v@.map_values(|x: String| x@) == args@.take(i as int).map_values(|a: &str| a@),
        decreases args.len() - i,
    {
        let ghost before = v@.map_values(|x: String| x@);
        v.push(args[i].to_string());
        assert(v@.map_values(|x: String| x@) == before.push(args@[i as int]@));
        assert(args@.take(i + 1) == args@.take(i as int).push(args@[i as int]));
        assert(args@.take(i + 1).map_values(|a: &str| a@) == args@.take(i as int).map_values(|a: &str| a@).push(
            args@[i as int]@,
        ));
        i += 1;
    }
    assert(args@.take(args.len() as int) == args@);
    (program.to_string(), v)
}

/// The commands that hide the settings window on the usual compositors
/// and window managers, in order.
pub open spec fn minimize_commands_of() -> Seq<(Seq<char>, Seq<Seq<char>>)> {
    seq![
        ("hyprctl"@, seq!["dispatch"@, "movetoworkspacesilent"@, "special:omywall,title:OMYWALL"@]),
        ("hyprctl"@, seq!["dispatch"@, "minimize"@]),
        ("swaymsg"@, seq!["[title=\"OMYWALL\"]"@, "move"@, "scratchpad"@]),
        ("xdotool"@, seq!["search"@, "--class"@, "omywall"@, "windowminimize"@]),
        ("wmctrl"@, seq!["-r"@, "OMYWALL"@, "-b"@, "add,hidden"@]),
    ]
}

/// The commands run to hide the settings window.
pub fn minimize_commands() -> (r: Vec<CommandLine>)
    ensures
        r@.map_values(|c: CommandLine| command_view(c)) == minimize_commands_of(),
{
    let mut v: Vec<CommandLine> = Vec::new();
    let c0 = command_line("hyprctl", &["dispatch", "movetoworkspacesilent", "special:omywall,title:OMYWALL"]);
    let c1 = command_line("hyprctl", &["dispatch", "minimize"]);
    let c2 = command_line("swaymsg", &["[title=\"OMYWALL\"]", "move", "scratchpad"]);
    let c3 = command_line("xdotool", &["search", "--class", "omywall", "windowminimize"]);
    let c4 = command_line("wmctrl", &["-r", "OMYWALL", "-b", "add,hidden"]);
    assert(command_view(c0) == minimize_commands_of()[0]);
    assert(command_view(c1) == minimize_commands_of()[1]);
    assert(command_view(c2) == minimize_commands_of()[2]);
    assert(command_view(c3) == minimize_commands_of()[3]);
    assert(command_view(c4) == minimize_commands_of()[4]);
    v.push(c0);
    v.push(c1);
    v.push(c2);
    v.push(c3);
    v.push(c4);
    assert(v@.map_values(|c: CommandLine| command_view(c)) =~= minimize_commands_of());
    v
}

/// The commands that pin the settings window above others (`on_top`) or
/// unpin it.
pub open spec fn pin_commands_of(on_top: bool) -> Seq<(Seq<char>, Seq<Seq<char>>)> {
    if on_top {
        seq![
            ("hyprctl"@, seq!["dispatch"@, "setfloating"@, "title:^(OMYWALL.*)$"@]),
            ("hyprctl"@, seq!["dispatch"@, "pin"@, "title:^(OMYWALL.*)$"@]),
        ]
    } else {
        seq![("hyprctl"@, seq!["dispatch"@, "unpin"@, "title:^(OMYWALL.*)$"@])]
    }
}

/// The commands run when the settings window is kept above others or
/// released.
pub fn always_on_top_commands(on_top: bool) -> (r: Vec<CommandLine>)
    ensures
        r@.map_values(|c: CommandLine| command_view(c)) == pin_commands_of(on_top),
{
    let mut v: Vec<CommandLine> = Vec::new();
    if on_top {
        let a = command_line("hyprctl", &["dispatch", "setfloating", "title:^(OMYWALL.*)$"]);
        let b = command_line("hyprctl", &["dispatch", "pin", "title:^(OMYWALL.*)$"]);
        assert(command_view(a) == pin_commands_of(true)[0]);
        assert(command_view(b) == pin_commands_of(true)[1]);
        v.push(a);
        v.push(b);
    } else {
        let a = command_line("hyprctl", &["dispatch", "unpin", "title:^(OMYWALL.*)$"]);
        assert(command_view(a) == pin_commands_of(false)[0]);
        v.push(a);
    }
    assert(v@.map_values(|c: CommandLine| command_view(c)) =~= pin_commands_of(on_top));
    v
}

} // verus!
