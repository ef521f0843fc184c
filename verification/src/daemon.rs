//! Decisions of the background daemon: stepping through the wallpaper
//! catalogue, the live-wallpaper cycle, the status shown in Waybar, the
//! monitor read at start-up and which wallpaper a monitor gets.
use vstd::prelude::*;
use crate::engine::WallpaperEngine;
use crate::paths::{file_name, file_name_of, split_ws, split_whitespace_chars, text_lines, lines_of};
use crate::text::{chars_of, decimal, decimal_string, lowercase, starts_with, string_of, to_lowercase, trim, trim_chars};
use crate::engine::{int_string, int_text};

verus! {

broadcast use vstd::string::group_string_axioms;

/// Position of the first catalogue entry equal to `current`.
pub open spec fn position_of(files: Seq<String>, current: Seq<char>) -> Option<int>
    decreases files.len(),
{
    if files.len() == 0 {
        None
    } else {
        match position_of(files.drop_last(), current) {
            Some(i) => Some(i),
            None => if files.last()@ == current {
                Some(files.len() - 1)
            } else {
                None
            },
        }
    }
}

proof fn lemma_position_of(files: Seq<String>, current: Seq<char>, i: int)
    requires
        0 <= i <= files.len(),
        forall|j: int| 0 <= j < i ==> (#[trigger] files[j])@ != current,
        i < files.len() ==> files[i]@ == current,
    ensures
        position_of(files, current) == if i < files.len() { Some(i) } else { None::<int> },
    decreases files.len(),
{
    if files.len() > 0 {
        let d = files.drop_last();
        if i == files.len() {
            lemma_position_of(d, current, i - 1);
        } else if i < files.len() - 1 {
            lemma_position_of(d, current, i);
        } else {
            lemma_position_of(d, current, i);
        }
    }
}

fn find_position(files: &[String], current: &Option<String>) -> (r: Option<usize>)
    ensures
        match current {
            Some(c) => match r {
                Some(i) => position_of(files@, c@) == Some(i as int),
                None => position_of(files@, c@) is None,
            },
            None => r is None,
        },
{
    match current {
        None => None,
        Some(c) => {
            let mut i: usize = 0;
            while i < files.len()
                invariant
                    i <= files.len(),
                    forall|j: int| 0 <= j < i ==> (#[trigger] files@[j])@ != c@,
                ensures
                    i <= files.len(),
                    forall|j: int| 0 <= j < i ==> (#[trigger] files@[j])@ != c@,
                    i < files.len() ==> files@[i as int]@ == c@,
                decreases files.len() - i,
            {
                if files[i] == *c {
                    break;
                }
                i += 1;
            }
            proof {
                lemma_position_of(files@, c@, i as int);
            }
            if i < files.len() {
                Some(i)
            } else {
                None
            }
        },
    }
}

/// The entry after the current wallpaper in the catalogue (wrapping
/// round), or the first one when the current wallpaper is not in it.
pub open spec fn next_index(files: Seq<String>, current: Option<Seq<char>>) -> int {
    match current {
        Some(c) => match position_of(files, c) {
            Some(i) => (i + 1) % (files.len() as int),
            None => 0,
        },
        None => 0,
    }
}

/// The entry before the current wallpaper (wrapping round), or the first
/// one when the current wallpaper is not in the catalogue.
pub open spec fn prev_index(files: Seq<String>, current: Option<Seq<char>>) -> int {
    match current {
        Some(c) => match position_of(files, c) {
            Some(i) => if i == 0 {
                files.len() - 1
            } else {
                i - 1
            },
            None => 0,
        },
        None => 0,
    }
}

pub open spec fn opt_seq(o: Option<String>) -> Option<Seq<char>> {
    match o {
        Some(s) => Some(s@),
        None => None,
    }
}

/// A found position lies within the catalogue.
pub proof fn lemma_position_bound(files: Seq<String>, c: Seq<char>)
    ensures
        position_of(files, c) matches Some(i) ==> 0 <= i < files.len(),
    decreases files.len(),
{
    if files.len() > 0 {
        lemma_position_bound(files.drop_last(), c);
    }
}

/// Which catalogue entry the "next wallpaper" request plays.
pub fn next_wallpaper_index(files: &[String], current: &Option<String>) -> (r: usize)
    requires
        files.len() > 0,
    ensures
        r == next_index(files@, opt_seq(*current)),
        r < files.len(),
{
    match find_position(files, current) {
        Some(i) => {
            proof {
                match current {
                    Some(c) => lemma_position_bound(files@, c@),
                    None => {},
                }
            }
            (i + 1) % files.len()
        },
        None => 0,
    }
}

/// Which catalogue entry the "previous wallpaper" request plays.
pub fn prev_wallpaper_index(files: &[String], current: &Option<String>) -> (r: usize)
    requires
        files.len() > 0,
    ensures
        r == prev_index(files@, opt_seq(*current)),
        r < files.len(),
{
    match find_position(files, current) {
        Some(i) => {
            proof {
                match current {
                    Some(c) => lemma_position_bound(files@, c@),
                    None => {},
                }
            }
            if i == 0 {
                files.len() - 1
            } else {
                i - 1
            }
        },
        None => 0,
    }
}

/// A step of the live-wallpaper cycle.
#[derive(Debug, Clone, Copy, PartialEq, Eq)]
pub enum CycleStep {
    /// Play the catalogue entry at this position.
    Play(usize),
    /// The cycle went through the whole catalogue: stop and start over.
    Finish,
}

/// The next step of the cycle through `len` wallpapers, from the position
/// played last (`None` before the first step); gives the new position.
pub fn cycle_step(last: Option<usize>, len: usize) -> (r: (Option<usize>, CycleStep))
    ensures
        ({
            let next: int = match last {
                Some(i) => i + 1,
                None => 0,
            };
            if next >= len {
                r == (None::<usize>, CycleStep::Finish)
            } else {
                r == (Some(next as usize), CycleStep::Play(next as usize))
            }
        }),
{
    let next: usize = match last {
        None => 0,
        Some(i) => if i >= len {
            return (None, CycleStep::Finish);
        } else {
            i + 1
        },
    };
    if next >= len {
        (None, CycleStep::Finish)
    } else {
        (Some(next), CycleStep::Play(next))
    }
}

/// The fields of the Waybar module.
#[derive(Debug, Clone, PartialEq)]
pub struct WaybarStatus {
    pub text: String,
    pub alt: String,
    pub tooltip: String,
    pub class: String,
    pub percentage: i64,
}

/// The state shown: (label, alt, css class, icon), a hidden wallpaper
/// first, then a stopped one, a paused one, a playing one.
pub open spec fn waybar_state(e: WallpaperEngine) -> (Seq<char>, Seq<char>, Seq<char>, Seq<char>) {
    if e.is_hidden {
        ("Hidden (Idle)"@, "hidden"@, "hidden"@, "🙈"@)
    } else if e.user_stopped {
        ("Stopped"@, "stopped"@, "stopped"@, "⏹️"@)
    } else if e.is_paused {
        ("Paused"@, "paused"@, "paused"@, "⏸️"@)
    } else {
        ("Playing"@, "playing"@, "playing"@, "🌌"@)
    }
}

/// The title shown: the file name of the current wallpaper.
pub open spec fn waybar_title(e: WallpaperEngine) -> Seq<char> {
    match e.current_wallpaper {
        Some(p) => match file_name(p@) {
            Some(n) => n,
            None => "No Active Wallpaper"@,
        },
        None => "No Active Wallpaper"@,
    }
}

/// The tooltip of the Waybar module.
pub open spec fn waybar_tooltip(e: WallpaperEngine) -> Seq<char> {
    "OMYWALL Wallpaper Engine\nStatus: "@ + waybar_state(e).0 + "\nWallpaper: "@ + waybar_title(e)
        + "\nDecoder: "@ + e.hwdec@ + "\nFPS: "@ + decimal(e.target_fps as nat) + "\nVolume: "@
        + int_text(e.volume) + "%"@ + if e.mute {
        " [MUTED]"@
    } else {
        ""@
    }
}

/// What the Waybar module shows for the engine state `e`.
pub fn waybar_status(e: &WallpaperEngine) -> (r: WaybarStatus)
    ensures
        r.text@ == waybar_state(*e).3 + " "@ + waybar_title(*e),
        r.alt@ == waybar_state(*e).1,
        r.class@ == waybar_state(*e).2,
        r.tooltip@ == waybar_tooltip(*e),
        r.percentage == e.volume,
{
    let (status, alt, class, icon) = if e.is_hidden {
        ("Hidden (Idle)", "hidden", "hidden", "🙈")
    } else if e.user_stopped {
        ("Stopped", "stopped", "stopped", "⏹️")
    } else if e.is_paused {
        ("Paused", "paused", "paused", "⏸️")
    } else {
        ("Playing", "playing", "playing", "🌌")
    };
    let title = match &e.current_wallpaper {
        Some(p) => match file_name_of(p.as_str()) {
            Some(n) => string_of(n.as_slice()),
            None => "No Active Wallpaper".to_string(),
        },
        None => "No Active Wallpaper".to_string(),
    };
    let mut text = icon.to_string();
    text.append(" ");
    text.append(title.as_str());
    let mut tip = "OMYWALL Wallpaper Engine\nStatus: ".to_string();
    tip.append(status);
    tip.append("\nWallpaper: ");
    tip.append(title.as_str());
    tip.append("\nDecoder: ");
    tip.append(e.hwdec.as_str());
    tip.append("\nFPS: ");
    tip.append(decimal_string(e.target_fps as u64).as_str());
    tip.append("\nVolume: ");
    tip.append(int_string(e.volume).as_str());
    tip.append("%");
    tip.append(if e.mute { " [MUTED]" } else { "" });
    WaybarStatus { text, alt: alt.to_string(), tooltip: tip, class: class.to_string(), percentage: e.volume }
}

/// The monitor named on the first line of `hyprctl monitors`, when that
/// line starts with `Monitor `: its second word.
pub open spec fn first_monitor(out: Seq<char>) -> Option<Seq<char>> {
    let lines = text_lines(out);
    if lines.len() > 0 && starts_with(lines[0], "Monitor "@) && split_ws(lines[0]).len() >= 2 {
        Some(split_ws(lines[0])[1])
    } else {
        None
    }
}

/// The monitor in focus at start-up, read from `hyprctl monitors`.
pub fn initial_monitor(out: &str) -> (r: Option<String>)
    ensures
        opt_seq(r) == first_monitor(out@),
{
    let lines = lines_of(out);
    if lines.len() == 0 {
        return None;
    }
    assert(lines@.map_values(|x: Vec<char>| x@)[0] == lines@[0]@);
    if !crate::text::starts_with_str(lines[0].as_slice(), "Monitor ") {
        return None;
    }
    let words = split_whitespace_chars(lines[0].as_slice());
    if words.len() < 2 {
        return None;
    }
    assert(words@.map_values(|x: Vec<char>| x@)[1] == words@[1]@);
    Some(string_of(words[1].as_slice()))
}

/// The value stored for `key` in the monitor mapping (the first entry
/// with that key).
pub open spec fn map_get(map: Seq<(String, String)>, key: Seq<char>) -> Option<Seq<char>>
    decreases map.len(),
{
    if map.len() == 0 {
        None
    } else if map[0].0@ == key {
        Some(map[0].1@)
    } else {
        map_get(map.skip(1), key)
    }
}

/// The wallpaper mapped to monitor `mon`: under its name, else under its
/// lower-case name; a blank mapping counts as none.
pub open spec fn monitor_choice(map: Seq<(String, String)>, mon: Seq<char>) -> Option<Seq<char>> {
    match map_get(map, mon) {
        Some(p) if trim(p).len() > 0 => Some(p),
        _ => match map_get(map, lowercase(mon)) {
            Some(p) if trim(p).len() > 0 => Some(p),
            _ => None,
        },
    }
}

fn map_lookup(map: &[(String, String)], key: &str) -> (r: Option<String>)
    ensures
        opt_seq(r) == map_get(map@, key@),
{
    let mut i: usize = 0;
    assert(map@.skip(0) == map@);
    while i < map.len()
        invariant
            i <= map.len(),
            map_get(map@, key@) == map_get(map@.skip(i as int), key@),
        decreases map.len() - i,
    {
        assert(map@.skip(i as int).skip(1) == map@.skip(i as int + 1));
        if map[i].0 == key.to_string() {
            return Some(map[i].1.clone());
        }
        i += 1;
    }
    None
}

fn nonblank(s: &Option<String>) -> (r: bool)
    ensures
        r == (s matches Some(p) && trim(p@).len() > 0),
{
    match s {
        Some(p) => {
            let c = chars_of(p.as_str());
            trim_chars(c.as_slice()).len() > 0
        },
        None => false,
    }
}

/// The wallpaper mapped to monitor `mon`, if any.
pub fn get_monitor_wallpaper(map: &[(String, String)], mon: &str) -> (r: Option<String>)
    ensures
        opt_seq(r) == monitor_choice(map@, mon@),
{
    let a = map_lookup(map, mon);
    if nonblank(&a) {
        return a;
    }
    let low = to_lowercase(mon);
    let b = map_lookup(map, low.as_str());
    if nonblank(&b) {
        return b;
    }
    None
}

/// What a monitor shows when it comes into focus.
#[derive(Debug, Clone, PartialEq)]
pub enum ActiveChoice {
    /// The user stopped playback: leave it so.
    Nothing,
    /// A web page mapped to the monitor.
    Url(String),
    /// A file mapped to the monitor, or the default or fallback wallpaper.
    File(String),
}

/// The wallpaper a monitor gets: its mapping (a web page by address,
/// else a file), else the default wallpaper when it exists, else the
/// first fallback video that exists, else the first catalogue entry;
/// nothing when the user stopped playback or there is nothing at all.
pub fn apply_active_wallpaper(
    user_stopped: bool,
    mapped: Option<String>,
    default_wallpaper: Option<String>,
    default_exists: bool,
    fallbacks: &[String],
    fallback_exists: &[bool],
    catalogue_first: Option<String>,
) -> (r: ActiveChoice)
    requires
        fallbacks.len() == fallback_exists.len(),
    ensures
        user_stopped ==> r == ActiveChoice::Nothing,
        !user_stopped && mapped is Some && trim(mapped->0@).len() > 0 ==> if starts_with(
            mapped->0@,
            "http://"@,
        ) || starts_with(mapped->0@, "https://"@) {
            r == ActiveChoice::Url(mapped->0)
        } else {
            r == ActiveChoice::File(mapped->0)
        },
        !user_stopped && !(mapped is Some && trim(mapped->0@).len() > 0) ==> {
            if default_wallpaper is Some && default_exists {
                r == ActiveChoice::File(default_wallpaper->0)
            } else if exists|i: int| 0 <= i < fallbacks.len() && fallback_exists@[i] {
                exists|i: int|
                    0 <= i < fallbacks.len() && fallback_exists@[i] && r == ActiveChoice::File(fallbacks@[i])
                        && forall|j: int| 0 <= j < i ==> !fallback_exists@[j]
            } else {
                match catalogue_first {
                    Some(f) => r == ActiveChoice::File(f),
                    None => r == ActiveChoice::Nothing,
                }
            }
        },
{
    if user_stopped {
        return ActiveChoice::Nothing;
    }
    if nonblank(&mapped) {
        let p = mapped.unwrap();
        let pc = chars_of(p.as_str());
        if crate::text::starts_with_str(pc.as_slice(), "http://") || crate::text::starts_with_str(
            pc.as_slice(),
            "https://",
        ) {
            return ActiveChoice::Url(p);
        }
        return ActiveChoice::File(p);
    }
    match &default_wallpaper {
        Some(d) => if default_exists {
            return ActiveChoice::File(d.clone());
        },
        None => {},
    }
    let mut i: usize = 0;
    while i < fallbacks.len()
        invariant
            i <= fallbacks.len(),
            fallbacks.len() == fallback_exists.len(),
            forall|j: int| 0 <= j < i ==> !fallback_exists@[j],
            !user_stopped,
            !(mapped is Some && trim(mapped->0@).len() > 0),
            !(default_wallpaper is Some && default_exists),
        decreases fallbacks.len() - i,
    {
        if fallback_exists[i] {
            return ActiveChoice::File(fallbacks[i].clone());
        }
        i += 1;
    }
    match catalogue_first {
        Some(f) => ActiveChoice::File(f),
        None => ActiveChoice::Nothing,
    }
}

/// Extensions of the files the catalogue collects.
pub open spec fn is_catalogue_ext(e: Seq<char>) -> bool {
    e == "mkv"@ || e == "mp4"@ || e == "webm"@ || e == "avi"@ || e == "mov"@ || e == "gif"@ || e
        == "html"@ || e == "htm"@ || e == "js"@ || e == "m4v"@ || e == "flv"@ || e == "wmv"@ || e
        == "png"@ || e == "jpg"@ || e == "jpeg"@ || e == "webp"@
}

/// Whether a file with the extension `ext` (any case) is a wallpaper.
pub fn is_wallpaper_ext(ext: &str) -> (r: bool)
    ensures
        r == is_catalogue_ext(lowercase(ext@)),
{
    let low = to_lowercase(ext);
    let c = chars_of(low.as_str());
    let l = c.as_slice();
    crate::text::eq_str(l, "mkv") || crate::text::eq_str(l, "mp4") || crate::text::eq_str(l, "webm")
        || crate::text::eq_str(l, "avi") || crate::text::eq_str(l, "mov") || crate::text::eq_str(l, "gif")
        || crate::text::eq_str(l, "html") || crate::text::eq_str(l, "htm") || crate::text::eq_str(l, "js")
        || crate::text::eq_str(l, "m4v") || crate::text::eq_str(l, "flv") || crate::text::eq_str(l, "wmv")
        || crate::text::eq_str(l, "png") || crate::text::eq_str(l, "jpg") || crate::text::eq_str(l, "jpeg")
        || crate::text::eq_str(l, "webp")
}

/// Texts that appear once each in the catalogue.
pub open spec fn distinct_entries(files: Seq<String>) -> bool {
    forall|i: int, j: int| 0 <= i < j < files.len() ==> files[i]@ != files[j]@
}

proof fn lemma_position_at(files: Seq<String>, k: int)
    requires
        distinct_entries(files),
        0 <= k < files.len(),
    ensures
        position_of(files, files[k]@) == Some(k),
{
    lemma_position_of(files, files[k]@, k);
}

/// In a catalogue without repeats, going to the next wallpaper and then to
/// the previous one comes back to the wallpaper played before.
pub proof fn law_prev_undoes_next(files: Seq<String>, k: int)
    requires
        distinct_entries(files),
        0 <= k < files.len(),
    ensures
        ({
            let n = next_index(files, Some(files[k]@));
            &&& 0 <= n < files.len()
            &&& prev_index(files, Some(files[n]@)) == k
        }),
{
    lemma_position_at(files, k);
    let len = files.len() as int;
    let n = (k + 1) % len;
    if k + 1 < len {
        assert(n == k + 1) by (nonlinear_arith)
            requires
                n == (k + 1) % len,
                0 <= k + 1 < len,
        ;
    } else {
        assert(n == 0) by (nonlinear_arith)
            requires
                n == (k + 1) % len,
                k + 1 == len,
                len > 0,
        ;
    }
    lemma_position_at(files, n);
}

/// ... and going back then forward does too.
pub proof fn law_next_undoes_prev(files: Seq<String>, k: int)
    requires
        distinct_entries(files),
        0 <= k < files.len(),
    ensures
        ({
            let p = prev_index(files, Some(files[k]@));
            &&& 0 <= p < files.len()
            &&& next_index(files, Some(files[p]@)) == k
        }),
{
    lemma_position_at(files, k);
    let len = files.len() as int;
    let p = if k == 0 { len - 1 } else { k - 1 };
    lemma_position_at(files, p);
    let n = (p + 1) % len;
    if p + 1 < len {
        assert(n == p + 1) by (nonlinear_arith)
            requires
                n == (p + 1) % len,
                0 <= p + 1 < len,
        ;
    } else {
        assert(n == 0) by (nonlinear_arith)
            requires
                n == (p + 1) % len,
                p + 1 == len,
                len > 0,
        ;
    }
}

/// The named parts of a path.
pub open spec fn path_names(p: Seq<char>) -> Seq<Seq<char>> {
    crate::paths::keep_names(crate::paths::split_on(p, '/'))
}

/// Whether a path starts at the root.
pub open spec fn is_absolute(p: Seq<char>) -> bool {
    p.len() > 0 && p[0] == '/'
}

/// Lexicographic order of sequences of names, each name by code point.
pub open spec fn names_less(a: Seq<Seq<char>>, b: Seq<Seq<char>>) -> bool
    decreases a.len(),
{
    if a.len() == 0 {
        b.len() > 0
    } else if b.len() == 0 {
        false
    } else if a[0] != b[0] {
        crate::lua::text_less(a[0], b[0])
    } else {
        names_less(a.skip(1), b.skip(1))
    }
}

/// The order of paths: by their parts, the root before any name (paths
/// without `.` or `..` parts, such as canonical ones, are ordered as
/// `PathBuf` orders them).
pub open spec fn path_less(a: Seq<char>, b: Seq<char>) -> bool {
    if is_absolute(a) != is_absolute(b) {
        is_absolute(a)
    } else {
        names_less(path_names(a), path_names(b))
    }
}

/// Where a path goes in a list in path order: after every path not
/// greater.
pub open spec fn path_pos(sorted: Seq<Seq<char>>, p: Seq<char>) -> nat
    decreases sorted.len(),
{
    if sorted.len() == 0 {
        0
    } else if path_less(p, sorted[0]) {
        0
    } else {
        1 + path_pos(sorted.skip(1), p)
    }
}

/// The paths in the stable path order.
pub open spec fn path_sorted(ps: Seq<Seq<char>>) -> Seq<Seq<char>>
    decreases ps.len(),
{
    if ps.len() == 0 {
        seq![]
    } else {
        let t = path_sorted(ps.drop_last());
        t.insert(path_pos(t, ps.last()) as int, ps.last())
    }
}

/// The paths, each kept the first time it comes.
pub open spec fn first_paths(ps: Seq<Seq<char>>) -> Seq<Seq<char>>
    decreases ps.len(),
{
    if ps.len() == 0 {
        seq![]
    } else {
        let k = first_paths(ps.drop_last());
        if k.contains(ps.last()) {
            k
        } else {
            k.push(ps.last())
        }
    }
}

fn names_less_exec(a: &Vec<Vec<char>>, b: &Vec<Vec<char>>) -> (r: bool)
    ensures
        r == names_less(a@.map_values(|x: Vec<char>| x@), b@.map_values(|x: Vec<char>| x@)),
{
    let ghost av = a@.map_values(|x: Vec<char>| x@);
    let ghost bv = b@.map_values(|x: Vec<char>| x@);
    let mut i: usize = 0;
    assert(av.skip(0) == av && bv.skip(0) == bv);
    while i < a.len() && i < b.len()
        invariant
            i <= a.len(),
            i <= b.len(),
            av == a@.map_values(|x: Vec<char>| x@),
            bv == b@.map_values(|x: Vec<char>| x@),
            names_less(av, bv) == names_less(av.skip(i as int), bv.skip(i as int)),
        decreases a.len() - i,
    {
        assert(av.skip(i as int)[0] == a@[i as int]@);
        assert(bv.skip(i as int)[0] == b@[i as int]@);
        assert(av.skip(i as int).skip(1) == av.skip(i as int + 1));
        assert(bv.skip(i as int).skip(1) == bv.skip(i as int + 1));
        if !crate::steam_workshop::eq_chars(a[i].as_slice(), b[i].as_slice()) {
            return crate::lua::text_less_exec(a[i].as_slice(), b[i].as_slice());
        }
        i += 1;
    }
    i < b.len()
}

fn path_key(p: &String) -> (r: (bool, Vec<Vec<char>>))
    ensures
        r.0 == is_absolute(p@),
        r.1@.map_values(|x: Vec<char>| x@) == path_names(p@),
{
    let c = chars_of(p.as_str());
    let abs = c.len() > 0 && c[0] == '/';
    (abs, crate::paths::name_parts(c.as_slice()))
}

fn key_less(a: &(bool, Vec<Vec<char>>), b: &(bool, Vec<Vec<char>>)) -> (r: bool)
    ensures
        r == (if a.0 != b.0 {
            a.0
        } else {
            names_less(a.1@.map_values(|x: Vec<char>| x@), b.1@.map_values(|x: Vec<char>| x@))
        }),
{
    if a.0 != b.0 {
        a.0
    } else {
        names_less_exec(&a.1, &b.1)
    }
}

/// The texts, each kept the first time it comes.
pub fn keep_first(found: &Vec<String>) -> (r: Vec<String>)
    ensures
        r@.map_values(|x: String| x@) == first_paths(found@.map_values(|x: String| x@)),
{
    let ghost all = found@.map_values(|x: String| x@);
    let mut kept: Vec<String> = Vec::new();
    let mut n: usize = 0;
    assert(all.take(0) == Seq::<Seq<char>>::empty());
    while n < found.len()
        invariant
            n <= found.len(),
            all == found@.map_values(|x: String| x@),
            kept@.map_values(|x: String| x@) == first_paths(all.take(n as int)),
        decreases found.len() - n,
    {
        assert(all.take(n + 1).drop_last() == all.take(n as int));
        assert(all.take(n + 1).last() == found@[n as int]@);
        let ghost kv = kept@.map_values(|x: String| x@);
        let mut seen = false;
        let mut j: usize = 0;
        while j < kept.len()
            invariant
                j <= kept.len(),
                n < found.len(),
                kv == kept@.map_values(|x: String| x@),
                seen == kv.take(j as int).contains(found@[n as int]@),
            decreases kept.len() - j,
        {
            proof {
                let sq = kv.take(j as int);
                let x = kv[j as int];
                let w = found@[n as int]@;
                assert(kv.take(j + 1) == sq.push(x));
                if sq.push(x).contains(w) {
                    let k = choose|k: int| 0 <= k < sq.push(x).len() && sq.push(x)[k] == w;
                    if k < sq.len() {
                        assert(sq[k] == w);
                    }
                }
                if sq.contains(w) {
                    let k = choose|k: int| 0 <= k < sq.len() && sq[k] == w;
                    assert(sq.push(x)[k] == w);
                }
                if x == w {
                    assert(sq.push(x)[sq.len() as int] == x);
                }
            }
            if kept[j] == found[n] {
                seen = true;
            }
            j += 1;
        }
        assert(kv.take(kept.len() as int) == kv);
        if !seen {
            kept.push(found[n].clone());
            assert(kept@.map_values(|x: String| x@) == kv.push(found@[n as int]@));
        }
        n += 1;
    }
    assert(all.take(found.len() as int) == all);
    kept
}

/// The wallpaper files of a scan, `found` holding the files met in the
/// order met: each kept the first time it comes, then in path order.
pub fn catalogue_files(found: Vec<String>) -> (r: Vec<String>)
    ensures
        r@.map_values(|x: String| x@) == path_sorted(first_paths(found@.map_values(|x: String| x@))),
{
    let kept = keep_first(&found);
    let ghost dd = kept@.map_values(|x: String| x@);
    let mut out: Vec<String> = Vec::new();
    let mut keys: Vec<(bool, Vec<Vec<char>>)> = Vec::new();
    let mut m: usize = 0;
    assert(dd.take(0) == Seq::<Seq<char>>::empty());
    while m < kept.len()
        invariant
            m <= kept.len(),
            dd == kept@.map_values(|x: String| x@),
            keys.len() == out.len(),
            forall|j: int|
                0 <= j < out.len() ==> (#[trigger] keys@[j]).0 == is_absolute(out@[j]@) && keys@[j].1@.map_values(
                    |x: Vec<char>| x@,
                ) == path_names(out@[j]@),
            out@.map_values(|x: String| x@) == path_sorted(dd.take(m as int)),
        decreases kept.len() - m,
    {
        assert(dd.take(m + 1).drop_last() == dd.take(m as int));
        assert(dd.take(m + 1).last() == kept@[m as int]@);
        let w = kept[m].clone();
        let key = path_key(&w);
        let ghost ov = out@.map_values(|x: String| x@);
        let mut p: usize = 0;
        assert(ov.skip(0) == ov);
        while p < out.len() && !key_less(&key, &keys[p])
            invariant
                p <= out.len(),
                keys.len() == out.len(),
                ov == out@.map_values(|x: String| x@),
                key.0 == is_absolute(w@),
                key.1@.map_values(|x: Vec<char>| x@) == path_names(w@),
                forall|j: int|
                    0 <= j < out.len() ==> (#[trigger] keys@[j]).0 == is_absolute(out@[j]@) && keys@[j].1@.map_values(
                        |x: Vec<char>| x@,
                    ) == path_names(out@[j]@),
                path_pos(ov, w@) == p + path_pos(ov.skip(p as int), w@),
            decreases out.len() - p,
        {
            assert(ov.skip(p as int).skip(1) == ov.skip(p as int + 1));
            assert(ov.skip(p as int)[0] == out@[p as int]@);
            assert(keys@[p as int].0 == is_absolute(out@[p as int]@));
            p += 1;
        }
        if p < out.len() {
            assert(ov.skip(p as int)[0] == out@[p as int]@);
            assert(keys@[p as int].0 == is_absolute(out@[p as int]@));
        }
        let ghost before_out = out@;
        let ghost before_keys = keys@;
        out.insert(p, w);
        keys.insert(p, key);
        assert forall|j: int|
            0 <= j < out.len() implies (#[trigger] keys@[j]).0 == is_absolute(out@[j]@) && keys@[j].1@.map_values(
                |x: Vec<char>| x@,
            ) == path_names(out@[j]@) by {
            if j < p {
                assert(out@[j] == before_out[j] && keys@[j] == before_keys[j]);
            } else if j > p {
                assert(out@[j] == before_out[j - 1] && keys@[j] == before_keys[j - 1]);
            }
        }
        assert(out@.map_values(|x: String| x@) =~= ov.insert(p as int, kept@[m as int]@));
        m += 1;
    }
    assert(dd.take(kept.len() as int) == dd);
    out
}

/// The directories beside the wallpaper directory that the daemon's scan
/// looks in, under the home directory `home`, in order.
pub open spec fn catalogue_dirs_of(home: Seq<char>) -> Seq<Seq<char>> {
    let j = |a: Seq<char>, b: Seq<char>| crate::paths::join(a, b);
    seq![
        j(j(j(home, ".config"@), "omarchy"@), "themes"@),
        j(j(j(home, ".config"@), "omarchy"@), "current"@),
        j(j(j(home, ".local"@), "share"@), "wallpapers"@),
        j(j(home, "Pictures"@), "Wallpapers"@),
        j(home, "Pictures"@),
        j(home, "Videos"@),
        crate::steam_scanner::workshop_items_dir(j(j(j(home, ".local"@), "share"@), "Steam"@)),
        crate::steam_scanner::workshop_items_dir(j(j(home, ".steam"@), "steam"@)),
        crate::steam_scanner::workshop_items_dir(j(j(home, ".steam"@), "root"@)),
        "/usr/share/backgrounds"@,
    ]
}

fn workshop_items(base: &str) -> (r: String)
    ensures
        r@ == crate::steam_scanner::workshop_items_dir(base@),
{
    let a = crate::paths::join_path(base, "steamapps");
    let b = crate::paths::join_path(a.as_str(), "workshop");
    let c = crate::paths::join_path(b.as_str(), "content");
    crate::paths::join_path(c.as_str(), "431960")
}

fn join3(a: &str, b: &str, c: &str, d: &str) -> (r: String)
    ensures
        r@ == crate::paths::join(crate::paths::join(crate::paths::join(a@, b@), c@), d@),
{
    let x = crate::paths::join_path(a, b);
    let y = crate::paths::join_path(x.as_str(), c);
    crate::paths::join_path(y.as_str(), d)
}

/// The directories beside the wallpaper directory that the daemon's scan
/// looks in (those that do not exist are skipped by the caller).
pub fn catalogue_dirs(home: &str) -> (r: Vec<String>)
    ensures
        r@.map_values(|x: String| x@) == catalogue_dirs_of(home@),
{
    let mut v: Vec<String> = Vec::new();
    v.push(join3(home, ".config", "omarchy", "themes"));
    v.push(join3(home, ".config", "omarchy", "current"));
    v.push(join3(home, ".local", "share", "wallpapers"));
    let pics = crate::paths::join_path(home, "Pictures");
    v.push(crate::paths::join_path(pics.as_str(), "Wallpapers"));
    v.push(pics);
    v.push(crate::paths::join_path(home, "Videos"));
    let ls = join3(home, ".local", "share", "Steam");
    v.push(workshop_items(ls.as_str()));
    let st = crate::paths::join_path(home, ".steam");
    let ss = crate::paths::join_path(st.as_str(), "steam");
    v.push(workshop_items(ss.as_str()));
    let sr = crate::paths::join_path(st.as_str(), "root");
    v.push(workshop_items(sr.as_str()));
    v.push("/usr/share/backgrounds".to_string());
    assert(v@.map_values(|x: String| x@) =~= catalogue_dirs_of(home@));
    v
}

/// The directories beside the wallpaper directory that the terminal
/// interface's scan looks in, under the home directory, in order.
pub open spec fn tui_dirs_of(home: Seq<char>) -> Seq<Seq<char>> {
    seq![
        crate::paths::join(crate::paths::join(crate::paths::join(home, ".config"@), "omarchy"@), "themes"@),
        crate::paths::join(crate::paths::join(crate::paths::join(home, ".config"@), "omarchy"@), "current"@),
        crate::paths::join(crate::paths::join(crate::paths::join(home, ".local"@), "share"@), "wallpapers"@),
    ]
}

/// The directories beside the wallpaper directory that the terminal
/// interface's scan looks in.
pub fn tui_dirs(home: &str) -> (r: Vec<String>)
    ensures
        r@.map_values(|x: String| x@) == tui_dirs_of(home@),
{
    let mut v: Vec<String> = Vec::new();
    v.push(join3(home, ".config", "omarchy", "themes"));
    v.push(join3(home, ".config", "omarchy", "current"));
    v.push(join3(home, ".local", "share", "wallpapers"));
    assert(v@.map_values(|x: String| x@) =~= tui_dirs_of(home@));
    v
}

/// How deep below a scanned directory the scan still looks: a directory
/// at depth `depth` (the scanned one at 0) is read when `depth` is at
/// most four.
pub fn scan_reads_depth(depth: usize) -> (r: bool)
    ensures
        r == (depth <= 4),
{
    depth <= 4
}

/// The mapping without any entry for `key`.
pub open spec fn without_key(map: Seq<(String, String)>, key: Seq<char>) -> Seq<(String, String)>
    decreases map.len(),
{
    if map.len() == 0 {
        seq![]
    } else {
        let k = without_key(map.drop_last(), key);
        if map.last().0@ == key {
            k
        } else {
            k.push(map.last())
        }
    }
}

proof fn lemma_map_get_push(map: Seq<(String, String)>, e: (String, String), key: Seq<char>)
    ensures
        map_get(map.push(e), key) == match map_get(map, key) {
            Some(v) => Some(v),
            None => if e.0@ == key {
                Some(e.1@)
            } else {
                None
            },
        },
    decreases map.len(),
{
    if map.len() > 0 {
        assert(map.push(e)[0] == map[0]);
        assert(map.push(e).skip(1) == map.skip(1).push(e));
        lemma_map_get_push(map.skip(1), e, key);
        if map[0].0@ == key {
            assert(map_get(map, key) == Some(map[0].1@));
            assert(map_get(map.push(e), key) == Some(map[0].1@));
        } else {
            assert(map_get(map, key) == map_get(map.skip(1), key));
            assert(map_get(map.push(e), key) == map_get(map.skip(1).push(e), key));
        }
    } else {
        assert(map.push(e)[0] == e);
        assert(map.push(e).skip(1) == Seq::<(String, String)>::empty());
        assert(map_get(Seq::<(String, String)>::empty(), key) is None);
        assert(map_get(map, key) is None);
    }
}

proof fn lemma_map_get_without(map: Seq<(String, String)>, key: Seq<char>, other: Seq<char>)
    ensures
        map_get(without_key(map, key), other) == if other == key {
            None
        } else {
            map_get(map, other)
        },
    decreases map.len(),
{
    if map.len() > 0 {
        let d = map.drop_last();
        lemma_map_get_without(d, key, other);
        lemma_map_get_push(d, map.last(), other);
        assert(d.push(map.last()) == map);
        if map.last().0@ != key {
            lemma_map_get_push(without_key(d, key), map.last(), other);
        }
    }
}

/// Where the first entry for `key` stands, or the length when none.
pub open spec fn key_pos(map: Seq<(String, String)>, key: Seq<char>) -> int
    decreases map.len(),
{
    if map.len() == 0 {
        0
    } else if map[0].0@ == key {
        0
    } else {
        1 + key_pos(map.skip(1), key)
    }
}

/// The mapping with `key` mapped to `value`: its first entry for `key`
/// replaced, or the entry appended when there is none.
pub open spec fn with_key(map: Seq<(String, String)>, key: String, value: String) -> Seq<(String, String)> {
    let p = key_pos(map, key@);
    if p < map.len() {
        map.update(p, (key, value))
    } else {
        map.push((key, value))
    }
}

proof fn lemma_key_pos(map: Seq<(String, String)>, key: Seq<char>)
    ensures
        0 <= key_pos(map, key) <= map.len(),
        forall|j: int| 0 <= j < key_pos(map, key) ==> (#[trigger] map[j]).0@ != key,
        key_pos(map, key) < map.len() ==> map[key_pos(map, key)].0@ == key,
        key_pos(map, key) == map.len() ==> map_get(map, key) is None,
    decreases map.len(),
{
    if map.len() > 0 && map[0].0@ != key {
        lemma_key_pos(map.skip(1), key);
        assert forall|j: int| 0 <= j < key_pos(map, key) implies (#[trigger] map[j]).0@ != key by {
            if j > 0 {
                assert(map[j] == map.skip(1)[j - 1]);
            }
        }
    }
}

proof fn lemma_map_get_with(map: Seq<(String, String)>, key: String, value: String, other: Seq<char>)
    ensures
        map_get(with_key(map, key, value), other) == if other == key@ {
            Some(value@)
        } else {
            map_get(map, other)
        },
    decreases map.len(),
{
    lemma_key_pos(map, key@);
    let p = key_pos(map, key@);
    if p == map.len() {
        lemma_map_get_push(map, (key, value), other);
        if other == key@ {
            assert(map_get(map, key@) is None);
        }
    } else if p == 0 {
        assert(with_key(map, key, value).skip(1) == map.skip(1));
    } else {
        let rest = map.skip(1);
        lemma_key_pos(rest, key@);
        assert(key_pos(rest, key@) == p - 1);
        assert(with_key(map, key, value).skip(1) == with_key(rest, key, value));
        lemma_map_get_with(rest, key, value, other);
    }
}

/// Sets or clears what monitor `monitor` shows: a blank `path` removes
/// its entry, any other maps it to `path`. Gives the message reported.
pub fn set_monitor_wallpaper(map: &mut Vec<(String, String)>, monitor: String, path: String) -> (r: String)
    ensures
        trim(path@).len() == 0 ==> final(map)@ == without_key(old(map)@, monitor@) && r@ == "Cleared Monitor "@
            + monitor@ + " mapping"@,
        trim(path@).len() > 0 ==> final(map)@ == with_key(old(map)@, monitor, path) && r@ == "Monitor "@ + monitor@
            + " mapped to '"@ + path@ + "'"@,
{
    let blank = trim_chars(chars_of(path.as_str()).as_slice()).len() == 0;
    if blank {
        let ghost all = map@;
        let mut kept: Vec<(String, String)> = Vec::new();
        let mut i: usize = 0;
        assert(all.take(0) == Seq::<(String, String)>::empty());
        while i < map.len()
            invariant
                i <= map.len(),
                map@ == all,
                kept@ == without_key(all.take(i as int), monitor@),
            decreases map.len() - i,
        {
            assert(all.take(i + 1).drop_last() == all.take(i as int));
            assert(all.take(i + 1).last() == all[i as int]);
            if map[i].0 != monitor {
                kept.push((map[i].0.clone(), map[i].1.clone()));
            }
            i += 1;
        }
        assert(all.take(all.len() as int) == all);
        *map = kept;
        let mut m = "Cleared Monitor ".to_string();
        m.append(monitor.as_str());
        m.append(" mapping");
        m
    } else {
        let mut m = "Monitor ".to_string();
        m.append(monitor.as_str());
        m.append(" mapped to '");
        m.append(path.as_str());
        m.append("'");
        let ghost all = map@;
        let mut i: usize = 0;
        assert(all.skip(0) == all);
        while i < map.len()
            invariant
                i <= map.len(),
                map@ == all,
                all == old(map)@,
                trim(path@).len() > 0,
                m@ == "Monitor "@ + monitor@ + " mapped to '"@ + path@ + "'"@,
                key_pos(all, monitor@) == i + key_pos(all.skip(i as int), monitor@),
            decreases map.len() - i,
        {
            assert(all.skip(i as int).skip(1) == all.skip(i as int + 1));
            assert(all.skip(i as int)[0] == all[i as int]);
            if map[i].0 == monitor {
                map.set(i, (monitor, path));
                return m;
            }
            i += 1;
        }
        map.push((monitor, path));
        m
    }
}

/// What a monitor mapping reads after it is set: the path just set when
/// it is not blank, nothing when it was cleared; other monitors read as
/// before.
pub proof fn law_monitor_mapping_read_back(
    map: Seq<(String, String)>,
    monitor: String,
    path: String,
    other: Seq<char>,
)
    ensures
        trim(path@).len() > 0 ==> map_get(with_key(map, monitor, path), monitor@) == Some(path@),
        map_get(without_key(map, monitor@), monitor@) is None,
        other != monitor@ ==> map_get(with_key(map, monitor, path), other) == map_get(map, other),
        other != monitor@ ==> map_get(without_key(map, monitor@), other) == map_get(map, other),
{
    lemma_map_get_with(map, monitor, path, monitor@);
    lemma_map_get_with(map, monitor, path, other);
    lemma_map_get_without(map, monitor@, monitor@);
    lemma_map_get_without(map, monitor@, other);
}

/// The lock file that keeps a second instance of `name` from starting:
/// `<name>.lock` in the runtime directory, or in `/tmp` when there is none.
pub open spec fn lock_file_of(runtime_dir: Option<Seq<char>>, name: Seq<char>) -> Seq<char> {
    let base = match runtime_dir {
        Some(d) => d,
        None => "/tmp"@,
    };
    crate::paths::join(base, name + ".lock"@)
}

/// The lock file of the instance `name`.
pub fn instance_lock_path(runtime_dir: Option<&str>, name: &str) -> (r: String)
    ensures
        r@ == lock_file_of(match runtime_dir {
            Some(d) => Some(d@),
            None => None,
        }, name@),
{
    let base = match runtime_dir {
        Some(d) => d,
        None => "/tmp",
    };
    let mut file = name.to_string();
    file.append(".lock");
    crate::paths::join_path(base, file.as_str())
}

} // verus!
