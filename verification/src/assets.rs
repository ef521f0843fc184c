//! Where the bundled web wallpapers and widgets are looked for, how an
//! asset address is turned into a file, the bookmarks made from the files
//! found, and the files the settings and the autostart entry live in.
use vstd::prelude::*;
use crate::paths::{join, join_path};
use crate::text::{contains, contains_str, starts_with, starts_with_str, chars_of, slice_of, string_of, trim, trim_chars};
use crate::paths::{name_extension, name_extension_of, name_stem, name_stem_of};
use crate::lua::{text_less, text_less_exec};
use crate::config::{WebBookmark, bookmark_view, humanize, humanize_title};

verus! {

broadcast use vstd::string::group_string_axioms;

/// The texts of a vector of strings.
pub open spec fn texts(v: Seq<String>) -> Seq<Seq<char>> {
    v.map_values(|x: String| x@)
}

/// The user's data directory for the engine.
pub open spec fn user_share(home: Seq<char>) -> Seq<char> {
    join(join(join(home, ".local"@), "share"@), "omywall"@)
}

/// The directories searched for the bundled assets of kind `kind`
/// (`widgets` or `web_wallpapers`), in order: the user's data directory,
/// the two system-wide ones, then the working directory; only the last
/// when there is no home directory.
pub open spec fn asset_dir_candidates_of(kind: Seq<char>, cwd: Seq<char>, home: Option<Seq<char>>) -> Seq<Seq<char>> {
    let local = join(join(cwd, "assets"@), kind);
    match home {
        Some(h) => seq![
            join(join(user_share(h), "assets"@), kind),
            join(join("/usr/share/omywall"@, "assets"@), kind),
            join(join("/usr/local/share/omywall"@, "assets"@), kind),
            local,
        ],
        None => seq![local],
    }
}

/// The directories searched for the bundled assets of kind `kind`, in
/// order, from the working directory `cwd` and the home directory.
pub fn asset_dir_candidates(kind: &str, cwd: &str, home: Option<&str>) -> (r: Vec<String>)
    ensures
        texts(r@) == asset_dir_candidates_of(kind@, cwd@, match home {
            Some(h) => Some(h@),
            None => None,
        }),
{
    let a = join_path(cwd, "assets");
    let local = join_path(a.as_str(), kind);
    let mut out: Vec<String> = Vec::new();
    match home {
        Some(h) => {
            let share = user_share_dir(h);
            let b = join_path(share.as_str(), "assets");
            out.push(join_path(b.as_str(), kind));
            let c = join_path("/usr/share/omywall", "assets");
            out.push(join_path(c.as_str(), kind));
            let d = join_path("/usr/local/share/omywall", "assets");
            out.push(join_path(d.as_str(), kind));
            out.push(local);
        },
        None => {
            out.push(local);
        },
    }
    proof {
        let hv = match home {
            Some(h) => Some(h@),
            None => None,
        };
        assert(texts(out@) =~= asset_dir_candidates_of(kind@, cwd@, hv));
    }
    out
}

/// The bundled widgets directory: the first of the widget candidate
/// directories that is a directory (`present[i]` telling whether the
/// `i`-th is).
pub fn resolve_widgets_dir(cwd: &str, home: Option<&str>, present: &[bool]) -> (r: Option<String>)
    requires
        present.len() == asset_dir_candidates_of("widgets"@, cwd@, match home {
            Some(h) => Some(h@),
            None => None,
        }).len(),
    ensures
        crate::paths::opt_string(r) == crate::paths::first_present_of(
            asset_dir_candidates_of("widgets"@, cwd@, match home {
                Some(h) => Some(h@),
                None => None,
            }),
            present@,
        ),
{
    let cands = asset_dir_candidates("widgets", cwd, home);
    crate::paths::first_present(cands.as_slice(), present)
}

/// The bundled web wallpapers directory: the first of the candidate
/// directories that is a directory (`present[i]` telling whether the
/// `i`-th is).
pub fn resolve_web_assets_dir(cwd: &str, home: Option<&str>, present: &[bool]) -> (r: Option<String>)
    requires
        present.len() == asset_dir_candidates_of("web_wallpapers"@, cwd@, match home {
            Some(h) => Some(h@),
            None => None,
        }).len(),
    ensures
        crate::paths::opt_string(r) == crate::paths::first_present_of(
            asset_dir_candidates_of("web_wallpapers"@, cwd@, match home {
                Some(h) => Some(h@),
                None => None,
            }),
            present@,
        ),
{
    let cands = asset_dir_candidates("web_wallpapers", cwd, home);
    crate::paths::first_present(cands.as_slice(), present)
}

fn user_share_dir(home: &str) -> (r: String)
    ensures
        r@ == user_share(home@),
{
    let a = join_path(home, ".local");
    let b = join_path(a.as_str(), "share");
    join_path(b.as_str(), "omywall")
}

/// The first entry that is present.
pub open spec fn first_some(found: Seq<Option<String>>) -> Option<String>
    decreases found.len(),
{
    if found.len() == 0 {
        None
    } else if found[0] is Some {
        found[0]
    } else {
        first_some(found.skip(1))
    }
}

/// An address that names no local file: `http://`, `https://` or
/// `file://`.
pub open spec fn is_remote_address(t: Seq<char>) -> bool {
    starts_with(t, "http://"@) || starts_with(t, "https://"@) || starts_with(t, "file://"@)
}

/// The address without a leading `assets/`.
pub open spec fn strip_assets(t: Seq<char>) -> Seq<char> {
    if starts_with(t, "assets/"@) {
        t.skip(7)
    } else {
        t
    }
}

/// The files an asset address may name, in the order tried: the address
/// itself, then under the working directory, the user's data and
/// configuration directories and the system-wide ones (those under the
/// home directory only when there is one); none for a remote address.
pub open spec fn asset_candidates_of(url: Seq<char>, cwd: Seq<char>, home: Option<Seq<char>>) -> Seq<Seq<char>> {
    let t = trim(url);
    let s = strip_assets(t);
    if is_remote_address(t) {
        seq![]
    } else {
        let base = seq![t, join(cwd, t), join(join(cwd, "assets"@), s)];
        match home {
            Some(h) => base + seq![
                join(join(user_share(h), "assets"@), s),
                join(user_share(h), t),
                join(join(join(h, ".config"@), "omywall"@), t),
                join(join("/usr/share/omywall"@, "assets"@), s),
                join("/usr/share/omywall"@, t),
                join(join("/usr/local/share/omywall"@, "assets"@), s),
                join("/usr/local/share/omywall"@, t),
            ],
            None => base,
        }
    }
}

/// The optional text of an optional string reference.
pub open spec fn opt_home(home: Option<&str>) -> Option<Seq<char>> {
    match home {
        Some(h) => Some(h@),
        None => None,
    }
}

fn trimmed_text(url: &str) -> (r: Vec<char>)
    ensures
        r@ == trim(url@),
{
    let c = chars_of(url);
    trim_chars(c.as_slice())
}

/// The files the asset address `url` may name, in the order tried.
pub fn asset_candidates(url: &str, cwd: &str, home: Option<&str>) -> (r: Vec<String>)
    ensures
        texts(r@) == asset_candidates_of(url@, cwd@, opt_home(home)),
{
    let tv = trimmed_text(url);
    let mut out: Vec<String> = Vec::new();
    proof {
        reveal_strlit("assets/");
    }
    if starts_with_str(tv.as_slice(), "http://") || starts_with_str(tv.as_slice(), "https://")
        || starts_with_str(tv.as_slice(), "file://") {
        assert(texts(out@) =~= asset_candidates_of(url@, cwd@, opt_home(home)));
        return out;
    }
    let t = string_of(tv.as_slice());
    let sv = if starts_with_str(tv.as_slice(), "assets/") {
        slice_of(tv.as_slice(), 7, tv.len())
    } else {
        slice_of(tv.as_slice(), 0, tv.len())
    };
    assert(sv@ == strip_assets(tv@));
    let s = string_of(sv.as_slice());
    out.push(t.clone());
    out.push(join_path(cwd, t.as_str()));
    let ca = join_path(cwd, "assets");
    out.push(join_path(ca.as_str(), s.as_str()));
    match home {
        Some(h) => {
            let share = user_share_dir(h);
            let sa = join_path(share.as_str(), "assets");
            out.push(join_path(sa.as_str(), s.as_str()));
            out.push(join_path(share.as_str(), t.as_str()));
            let hc = join_path(h, ".config");
            let hco = join_path(hc.as_str(), "omywall");
            out.push(join_path(hco.as_str(), t.as_str()));
            let us = join_path("/usr/share/omywall", "assets");
            out.push(join_path(us.as_str(), s.as_str()));
            out.push(join_path("/usr/share/omywall", t.as_str()));
            let uls = join_path("/usr/local/share/omywall", "assets");
            out.push(join_path(uls.as_str(), s.as_str()));
            out.push(join_path("/usr/local/share/omywall", t.as_str()));
        },
        None => {},
    }
    assert(texts(out@) =~= asset_candidates_of(url@, cwd@, opt_home(home)));
    out
}

/// The file an asset address resolves to: a remote address as it is
/// (trimmed); else the canonical form of the first candidate that exists
/// (`found[i]` holding the canonical form of the `i`-th candidate when it
/// exists); else the trimmed address.
pub open spec fn resolved_asset(url: Seq<char>, found: Seq<Option<String>>) -> Seq<char> {
    match first_some(found) {
        Some(c) => c@,
        None => trim(url),
    }
}

/// Resolves the asset address `url` against what was found on disk:
/// `found[i]` is the canonical path of the `i`-th of
/// `asset_candidates(url, cwd, home)` when that file exists.
pub fn resolve_asset_path(url: &str, cwd: &str, home: Option<&str>, found: &[Option<String>]) -> (r: String)
    requires
        found.len() == asset_candidates_of(url@, cwd@, opt_home(home)).len(),
    ensures
        r@ == resolved_asset(url@, found@),
{
    let mut i: usize = 0;
    assert(found@.skip(0) == found@);
    while i < found.len()
        invariant
            i <= found.len(),
            first_some(found@) == first_some(found@.skip(i as int)),
        decreases found.len() - i,
    {
        assert(found@.skip(i as int).skip(1) == found@.skip(i as int + 1));
        assert(found@.skip(i as int)[0] == found@[i as int]);
        match &found[i] {
            Some(c) => {
                return c.clone();
            },
            None => {},
        }
        i += 1;
    }
    string_of(trimmed_text(url).as_slice())
}

/// The settings script under the configuration directory `base`.
pub open spec fn config_lua_path(base: Seq<char>) -> Seq<char> {
    join(join(base, "omywall"@), "config.lua"@)
}

/// The settings file of earlier versions, in TOML.
pub open spec fn config_toml_path(base: Seq<char>) -> Seq<char> {
    join(join(base, "omywall"@), "config.toml"@)
}

/// The settings file under the project's former name.
pub open spec fn config_legacy_path(base: Seq<char>) -> Seq<char> {
    join(join(base, "omarchy-wall"@), "config.toml"@)
}

/// The settings files under the configuration directory `base`: the Lua
/// script, the TOML file of earlier versions, and the file under the
/// former name.
pub fn config_paths(base: &str) -> (r: (String, String, String))
    ensures
        r.0@ == config_lua_path(base@),
        r.1@ == config_toml_path(base@),
        r.2@ == config_legacy_path(base@),
{
    let a = join_path(base, "omywall");
    let b = join_path(base, "omarchy-wall");
    (join_path(a.as_str(), "config.lua"), join_path(a.as_str(), "config.toml"), join_path(b.as_str(), "config.toml"))
}

/// Which older settings file is carried over into the Lua script, given
/// which files exist: none when the script exists, else the TOML file,
/// else the file under the former name.
pub fn migration_source(base: &str, lua_exists: bool, toml_exists: bool, legacy_exists: bool) -> (r: Option<String>)
    ensures
        match r {
            Some(p) => !lua_exists && ((toml_exists && p@ == config_toml_path(base@)) || (!toml_exists
                && legacy_exists && p@ == config_legacy_path(base@))),
            None => lua_exists || (!toml_exists && !legacy_exists),
        },
{
    if lua_exists {
        return None;
    }
    let (_, toml, legacy) = config_paths(base);
    if toml_exists {
        Some(toml)
    } else if legacy_exists {
        Some(legacy)
    } else {
        None
    }
}

/// The autostart entry under the home directory.
pub open spec fn autostart_file_of(home: Seq<char>) -> Seq<char> {
    join(home, ".config/autostart/omywall.desktop"@)
}

/// Where the autostart entry lies under the home directory `home`; the
/// engine starts with the session when it exists.
pub fn autostart_file(home: &str) -> (r: String)
    ensures
        r@ == autostart_file_of(home@),
{
    join_path(home, ".config/autostart/omywall.desktop")
}

/// The program started when its own path cannot be had.
pub open spec fn fallback_exe_of(home: Seq<char>) -> Seq<char> {
    home + "/.local/bin/omywall"@
}

/// The program path used when the running program's own is unknown.
pub fn fallback_exe(home: &str) -> (r: String)
    ensures
        r@ == fallback_exe_of(home@),
{
    let mut s = home.to_string();
    s.append("/.local/bin/omywall");
    s
}

/// The desktop entry that starts the daemon with the session.
pub open spec fn autostart_entry_text(exe: Seq<char>) -> Seq<char> {
    "[Desktop Entry]\nType=Application\nName=OMYWALL Wallpaper Engine\nGenericName=Live Video, Stream & Desktop Wallpaper Engine\nComment=Ultra-Lightweight Hardware-Accelerated Video, Stream & Desktop Wallpaper Engine\nExec="@
        + exe + " daemon\nIcon=omywall\nTerminal=false\nCategories=Utility;Appearance;\nX-GNOME-Autostart-enabled=true\n"@
}

/// The text of the autostart entry for the program at `exe`.
pub fn autostart_entry(exe: &str) -> (r: String)
    ensures
        r@ == autostart_entry_text(exe@),
{
    let mut s = "[Desktop Entry]\nType=Application\nName=OMYWALL Wallpaper Engine\nGenericName=Live Video, Stream & Desktop Wallpaper Engine\nComment=Ultra-Lightweight Hardware-Accelerated Video, Stream & Desktop Wallpaper Engine\nExec=".to_string();
    s.append(exe);
    s.append(" daemon\nIcon=omywall\nTerminal=false\nCategories=Utility;Appearance;\nX-GNOME-Autostart-enabled=true\n");
    s
}

/// Where an item named `key` goes in a list ordered by name: after every
/// item whose name is not greater.
pub open spec fn name_pos<T>(sorted: Seq<(String, T)>, key: Seq<char>) -> nat
    decreases sorted.len(),
{
    if sorted.len() == 0 {
        0
    } else if text_less(key, sorted[0].0@) {
        0
    } else {
        1 + name_pos(sorted.skip(1), key)
    }
}

/// The items in the stable order of their names.
pub open spec fn name_sorted<T>(items: Seq<(String, T)>) -> Seq<(String, T)>
    decreases items.len(),
{
    if items.len() == 0 {
        seq![]
    } else {
        let t = name_sorted(items.drop_last());
        t.insert(name_pos(t, items.last().0@) as int, items.last())
    }
}

proof fn lemma_name_pos_bound<T>(sorted: Seq<(String, T)>, key: Seq<char>)
    ensures
        name_pos(sorted, key) <= sorted.len(),
    decreases sorted.len(),
{
    if sorted.len() > 0 {
        lemma_name_pos_bound(sorted.skip(1), key);
    }
}

/// The items, named by their first component, in the stable order of
/// their names (the order of their UTF-8 bytes).
pub fn sort_by_name<T>(items: Vec<(String, T)>) -> (r: Vec<(String, T)>)
    ensures
        r@ == name_sorted(items@),
{
    let ghost all = items@;
    assert(all.len() == items.len());
    let mut items = items;
    let mut out: Vec<(String, T)> = Vec::new();
    let mut keys: Vec<Vec<char>> = Vec::new();
    let mut m: usize = 0;
    assert(all.skip(0) == all);
    assert(all.take(0) == Seq::<(String, T)>::empty());
    while items.len() > 0
        invariant
            m <= all.len(),
            all.len() <= usize::MAX,
            items@ == all.skip(m as int),
            keys.len() == out.len(),
            forall|j: int| 0 <= j < out.len() ==> keys@[j]@ == (#[trigger] out@[j]).0@,
            out@ == name_sorted(all.take(m as int)),
        decreases items.len(),
    {
        assert(items@[0] == all[m as int]);
        let it = items.remove(0);
        assert(all.skip(m as int).skip(1) == all.skip(m as int + 1));
        assert(all.take(m as int + 1).drop_last() == all.take(m as int));
        assert(all.take(m as int + 1).last() == all[m as int]);
        let key = chars_of(it.0.as_str());
        let mut p: usize = 0;
        assert(out@.skip(0) == out@);
        while p < out.len() && !text_less_exec(key.as_slice(), keys[p].as_slice())
            invariant
                p <= out.len(),
                keys.len() == out.len(),
                key@ == it.0@,
                forall|j: int| 0 <= j < out.len() ==> keys@[j]@ == (#[trigger] out@[j]).0@,
                name_pos(out@, key@) == p + name_pos(out@.skip(p as int), key@),
            decreases out.len() - p,
        {
            assert(out@.skip(p as int).skip(1) == out@.skip(p as int + 1));
            assert(out@.skip(p as int)[0] == out@[p as int]);
            assert(keys@[p as int]@ == out@[p as int].0@);
            p += 1;
        }
        if p < out.len() {
            assert(keys@[p as int]@ == out@[p as int].0@);
            assert(out@.skip(p as int)[0] == out@[p as int]);
        }
        let ghost before_out = out@;
        let ghost before_keys = keys@;
        out.insert(p, it);
        keys.insert(p, key);
        assert forall|j: int| 0 <= j < out.len() implies keys@[j]@ == (#[trigger] out@[j]).0@ by {
            if j < p {
                assert(out@[j] == before_out[j] && keys@[j] == before_keys[j]);
            } else if j > p {
                assert(out@[j] == before_out[j - 1] && keys@[j] == before_keys[j - 1]);
            }
        }
        m += 1;
    }
    assert(all.take(all.len() as int) == all);
    out
}

/// An entry of a directory listing.
#[derive(Debug, Clone, PartialEq)]
pub struct AssetEntry {
    pub name: String,
    pub is_dir: bool,
    pub is_file: bool,
}

/// `a` equals the lower-case ASCII word `lower` when ASCII case is ignored.
pub open spec fn ascii_ci_eq(a: Seq<char>, lower: Seq<char>) -> bool {
    &&& a.len() == lower.len()
    &&& forall|i: int| 0 <= i < a.len() ==> a[i] == lower[i] || (a[i] as u32) + 32 == (lower[i] as u32)
}

/// A web page file: its extension is `html` or `htm`, in any ASCII case.
pub open spec fn is_page_name(name: Seq<char>) -> bool {
    match name_extension(name) {
        Some(e) => ascii_ci_eq(e, "html"@) || ascii_ci_eq(e, "htm"@),
        None => false,
    }
}

fn ascii_ci_eq_exec(a: &[char], lower: &str) -> (r: bool)
    requires
        forall|i: int| 0 <= i < lower@.len() ==> 'a' <= #[trigger] lower@[i] <= 'z',
    ensures
        r == ascii_ci_eq(a@, lower@),
{
    let l = chars_of(lower);
    if a.len() != l.len() {
        return false;
    }
    let mut i: usize = 0;
    while i < a.len()
        invariant
            i <= a.len(),
            a.len() == l.len(),
            l@ == lower@,
            forall|j: int| 0 <= j < i ==> a@[j] == l@[j] || (a@[j] as u32) + 32 == (l@[j] as u32),
        decreases a.len() - i,
    {
        let c = a[i];
        let t = l[i];
        if !(c == t || ((t as u32) >= 32 && (c as u32) == (t as u32) - 32)) {
            return false;
        }
        i += 1;
    }
    true
}

/// Whether `name` is the name of a web page file.
pub fn is_page_file_name(name: &str) -> (r: bool)
    ensures
        r == is_page_name(name@),
{
    let c = chars_of(name);
    proof {
        reveal_strlit("html");
        reveal_strlit("htm");
    }
    match name_extension_of(c.as_slice()) {
        Some(e) => ascii_ci_eq_exec(e.as_slice(), "html") || ascii_ci_eq_exec(e.as_slice(), "htm"),
        None => false,
    }
}

/// The names of the web page files among the entries, in order; with
/// `top`, directories are left out before files are looked at.
pub open spec fn pages(entries: Seq<AssetEntry>, top: bool) -> Seq<(String, ())>
    decreases entries.len(),
{
    if entries.len() == 0 {
        seq![]
    } else {
        let k = pages(entries.drop_last(), top);
        let e = entries.last();
        if (!top || !e.is_dir) && e.is_file && is_page_name(e.name@) {
            k.push((e.name, ()))
        } else {
            k
        }
    }
}

/// A demo bookmark with the given title, address and category.
pub open spec fn demo_view(title: Seq<char>, url: Seq<char>, category: Seq<char>) -> (Seq<char>, Seq<char>, Seq<char>, bool) {
    (title, url, category, true)
}

/// The bookmarks of page files: each titled after its stem, its address
/// `prefix` followed by the file name, in the category `category`.
pub open spec fn page_bookmarks(files: Seq<(String, ())>, prefix: Seq<char>, category: Seq<char>) -> Seq<
    (Seq<char>, Seq<char>, Seq<char>, bool),
> {
    files.map_values(|f: (String, ())| demo_view(humanize(name_stem(f.0@)), prefix + f.0@, category))
}

/// The bookmarks of the category directories, in order.
pub open spec fn category_bookmarks(cats: Seq<(String, Vec<AssetEntry>)>) -> Seq<(Seq<char>, Seq<char>, Seq<char>, bool)>
    decreases cats.len(),
{
    if cats.len() == 0 {
        seq![]
    } else {
        let c = cats.last();
        category_bookmarks(cats.drop_last()) + page_bookmarks(
            name_sorted(pages(c.1@, false)),
            "assets/web_wallpapers/"@ + c.0@ + "/"@,
            humanize(c.0@),
        )
    }
}

/// The bookmarks of the installed web assets: the pages at the top of the
/// web wallpaper directory (category `3D WebGL`), in listing order; then
/// for each category directory, in order of name, its pages in order of
/// name (category: the directory's name as a title); then the widgets, in
/// order of name (category `Desktop Widgets`).
pub open spec fn web_asset_bookmarks(
    web: Seq<AssetEntry>,
    categories: Seq<(String, Vec<AssetEntry>)>,
    widgets: Seq<AssetEntry>,
) -> Seq<(Seq<char>, Seq<char>, Seq<char>, bool)> {
    page_bookmarks(pages(web, true), "assets/web_wallpapers/"@, "3D WebGL"@)
        + category_bookmarks(name_sorted(categories))
        + page_bookmarks(name_sorted(pages(widgets, false)), "assets/widgets/"@, "Desktop Widgets"@)
}

/// The views of a list of bookmarks.
pub open spec fn bookmark_views(v: Seq<WebBookmark>) -> Seq<(Seq<char>, Seq<char>, Seq<char>, bool)> {
    v.map_values(|b: WebBookmark| bookmark_view(b))
}

fn page_list(entries: &[AssetEntry], top: bool) -> (r: Vec<(String, ())>)
    ensures
        r@ == pages(entries@, top),
{
    let mut out: Vec<(String, ())> = Vec::new();
    let mut i: usize = 0;
    assert(entries@.take(0) == Seq::<AssetEntry>::empty());
    while i < entries.len()
        invariant
            i <= entries.len(),
            out@ == pages(entries@.take(i as int), top),
        decreases entries.len() - i,
    {
        assert(entries@.take(i + 1).drop_last() == entries@.take(i as int));
        assert(entries@.take(i + 1).last() == entries@[i as int]);
        let e = &entries[i];
        if (!top || !e.is_dir) && e.is_file && is_page_file_name(e.name.as_str()) {
            out.push((e.name.clone(), ()));
        }
        i += 1;
    }
    assert(entries@.take(entries.len() as int) == entries@);
    out
}

fn push_page_bookmarks(out: &mut Vec<WebBookmark>, files: &Vec<(String, ())>, prefix: &str, category: &str)
    ensures
        bookmark_views(final(out)@) == bookmark_views(old(out)@) + page_bookmarks(files@, prefix@, category@),
{
    let ghost start = bookmark_views(out@);
    let mut i: usize = 0;
    while i < files.len()
        invariant
            i <= files.len(),
            bookmark_views(out@) == start + page_bookmarks(files@.take(i as int), prefix@, category@),
        decreases files.len() - i,
    {
        let name = files[i].0.as_str();
        let nc = chars_of(name);
        let stem = string_of(name_stem_of(nc.as_slice()).as_slice());
        let mut url = prefix.to_string();
        url.append(name);
        let b = WebBookmark {
            title: humanize_title(stem.as_str()),
            url,
            category: category.to_string(),
            is_demo: true,
        };
        let ghost before = out@;
        out.push(b);
        assert(files@.take(i + 1) == files@.take(i as int).push(files@[i as int]));
        assert(bookmark_views(out@) == bookmark_views(before).push(bookmark_view(b)));
        assert(page_bookmarks(files@.take(i + 1), prefix@, category@) == page_bookmarks(
            files@.take(i as int),
            prefix@,
            category@,
        ).push(bookmark_view(b)));
        i += 1;
    }
    assert(files@.take(files.len() as int) == files@);
}

/// The bookmarks made from the installed web assets: `web` lists the web
/// wallpaper directory, `categories` holds each of its subdirectories with
/// what that lists (in any order), and `widgets` lists the widget
/// directory; a directory that was not found is an empty list.
pub fn scan_web_asset_bookmarks(
    web: &[AssetEntry],
    categories: Vec<(String, Vec<AssetEntry>)>,
    widgets: &[AssetEntry],
) -> (r: Vec<WebBookmark>)
    ensures
        bookmark_views(r@) == web_asset_bookmarks(web@, categories@, widgets@),
{
    let mut out: Vec<WebBookmark> = Vec::new();
    let top = page_list(web, true);
    push_page_bookmarks(&mut out, &top, "assets/web_wallpapers/", "3D WebGL");
    let ghost after_top = bookmark_views(out@);
    let cats = sort_by_name(categories);
    let mut i: usize = 0;
    assert(cats@.take(0) == Seq::<(String, Vec<AssetEntry>)>::empty());
    while i < cats.len()
        invariant
            i <= cats.len(),
            bookmark_views(out@) == after_top + category_bookmarks(cats@.take(i as int)),
        decreases cats.len() - i,
    {
        assert(cats@.take(i + 1).drop_last() == cats@.take(i as int));
        assert(cats@.take(i + 1).last() == cats@[i as int]);
        let files = page_list(cats[i].1.as_slice(), false);
        let sorted = sort_by_name(files);
        let mut prefix = "assets/web_wallpapers/".to_string();
        prefix.append(cats[i].0.as_str());
        prefix.append("/");
        let category = humanize_title(cats[i].0.as_str());
        let ghost before = bookmark_views(out@);
        push_page_bookmarks(&mut out, &sorted, prefix.as_str(), category.as_str());
        proof {
            let a = category_bookmarks(cats@.take(i as int));
            let b = page_bookmarks(sorted@, prefix@, category@);
            assert(category_bookmarks(cats@.take(i + 1)) == a + b);
            assert((after_top + a) + b == after_top + (a + b));
        }
        i += 1;
    }
    assert(cats@.take(cats.len() as int) == cats@);
    let wfiles = page_list(widgets, false);
    let wsorted = sort_by_name(wfiles);
    push_page_bookmarks(&mut out, &wsorted, "assets/widgets/", "Desktop Widgets");
    out
}

/// A saved bookmark stays when loading the settings unless it is one of
/// the retired clock pages, or it names a local file that is gone
/// (`file_exists` telling whether the file its address resolves to
/// exists).
pub open spec fn keeps_saved(b: WebBookmark, file_exists: bool) -> bool {
    &&& !contains(b.url@, "clock.html"@)
    &&& !contains(b.url@, "cyber_clock.html"@)
    &&& (starts_with(b.url@, "http://"@) || starts_with(b.url@, "https://"@) || file_exists)
}

/// The saved bookmarks that stay, in order.
pub open spec fn kept_saved(saved: Seq<WebBookmark>, file_exists: Seq<bool>) -> Seq<WebBookmark>
    decreases saved.len(),
{
    if saved.len() == 0 {
        seq![]
    } else {
        let k = kept_saved(saved.drop_last(), file_exists);
        if keeps_saved(saved.last(), file_exists[saved.len() - 1]) {
            k.push(saved.last())
        } else {
            k
        }
    }
}

/// The addresses of the bookmarks.
pub open spec fn bookmark_urls(list: Seq<WebBookmark>) -> Seq<Seq<char>> {
    list.map_values(|b: WebBookmark| b.url@)
}

/// The list with each default bookmark whose address it lacks appended,
/// in order.
pub open spec fn merged_defaults(list: Seq<WebBookmark>, defaults: Seq<WebBookmark>) -> Seq<WebBookmark>
    decreases defaults.len(),
{
    if defaults.len() == 0 {
        list
    } else {
        let l = merged_defaults(list, defaults.drop_last());
        let d = defaults.last();
        if bookmark_urls(l).contains(d.url@) {
            l
        } else {
            l.push(d)
        }
    }
}

/// The bookmarks after loading the settings: the saved ones that stay,
/// then the defaults they lack.
pub open spec fn refreshed_bookmarks(
    saved: Seq<WebBookmark>,
    file_exists: Seq<bool>,
    defaults: Seq<WebBookmark>,
) -> Seq<WebBookmark> {
    merged_defaults(kept_saved(saved, file_exists), defaults)
}

fn has_url(list: &Vec<WebBookmark>, url: &String) -> (r: bool)
    ensures
        r == bookmark_urls(list@).contains(url@),
{
    let mut j: usize = 0;
    while j < list.len()
        invariant
            j <= list.len(),
            bookmark_urls(list@).take(j as int).contains(url@) ==> false,
        decreases list.len() - j,
    {
        proof {
            let sq = bookmark_urls(list@).take(j as int);
            assert(bookmark_urls(list@).take(j + 1) == sq.push(list@[j as int].url@));
            if sq.push(list@[j as int].url@).contains(url@) {
                let k = choose|k: int| 0 <= k < j + 1 && sq.push(list@[j as int].url@)[k] == url@;
                if k < j {
                    assert(sq[k] == url@);
                }
            }
        }
        if list[j].url == *url {
            proof {
                assert(bookmark_urls(list@)[j as int] == url@);
            }
            return true;
        }
        j += 1;
    }
    assert(bookmark_urls(list@).take(list.len() as int) == bookmark_urls(list@));
    false
}

/// The saved bookmarks as loading the settings leaves them:
/// `file_exists[i]` tells whether the file that the address of
/// `saved[i]` resolves to exists.
pub fn refresh_bookmarks(saved: Vec<WebBookmark>, file_exists: &[bool], defaults: Vec<WebBookmark>) -> (r: Vec<
    WebBookmark,
>)
    requires
        saved.len() == file_exists.len(),
    ensures
        r@ == refreshed_bookmarks(saved@, file_exists@, defaults@),
{
    let ghost all = saved@;
    assert(all.len() == saved.len());
    let mut saved = saved;
    let mut out: Vec<WebBookmark> = Vec::new();
    let mut n: usize = 0;
    assert(all.skip(0) == all);
    assert(all.take(0) == Seq::<WebBookmark>::empty());
    while saved.len() > 0
        invariant
            n <= all.len(),
            all.len() == file_exists.len(),
            saved@ == all.skip(n as int),
            out@ == kept_saved(all.take(n as int), file_exists@),
        decreases saved.len(),
    {
        assert(saved@[0] == all[n as int]);
        let b = saved.remove(0);
        assert(all.skip(n as int).skip(1) == all.skip(n as int + 1));
        assert(all.take(n as int + 1).drop_last() == all.take(n as int));
        assert(all.take(n as int + 1).last() == all[n as int]);
        let clock = contains_str(chars_of(b.url.as_str()).as_slice(), "clock.html") || contains_str(
            chars_of(b.url.as_str()).as_slice(),
            "cyber_clock.html",
        );
        let remote = starts_with_str(chars_of(b.url.as_str()).as_slice(), "http://") || starts_with_str(
            chars_of(b.url.as_str()).as_slice(),
            "https://",
        );
        if !clock && (remote || file_exists[n]) {
            out.push(b);
        }
        n += 1;
    }
    assert(all.take(all.len() as int) == all);
    let ghost kept = out@;
    let ghost ds = defaults@;
    let mut defaults = defaults;
    let mut m: usize = 0;
    assert(ds.len() == defaults.len());
    assert(ds.skip(0) == ds);
    assert(ds.take(0) == Seq::<WebBookmark>::empty());
    while defaults.len() > 0
        invariant
            m <= ds.len(),
            ds.len() <= usize::MAX,
            defaults@ == ds.skip(m as int),
            out@ == merged_defaults(kept, ds.take(m as int)),
        decreases defaults.len(),
    {
        assert(defaults@[0] == ds[m as int]);
        let d = defaults.remove(0);
        assert(ds.skip(m as int).skip(1) == ds.skip(m as int + 1));
        assert(ds.take(m as int + 1).drop_last() == ds.take(m as int));
        assert(ds.take(m as int + 1).last() == ds[m as int]);
        if !has_url(&out, &d.url) {
            out.push(d);
        }
        m += 1;
    }
    assert(ds.take(ds.len() as int) == ds);
    out
}

proof fn lemma_merged_defaults(list: Seq<WebBookmark>, defaults: Seq<WebBookmark>)
    ensures
        merged_defaults(list, defaults).len() >= list.len(),
        forall|i: int| 0 <= i < list.len() ==> merged_defaults(list, defaults)[i] == list[i],
        forall|i: int| #![trigger defaults[i]]
            0 <= i < defaults.len() ==> bookmark_urls(merged_defaults(list, defaults)).contains(defaults[i].url@),
    decreases defaults.len(),
{
    if defaults.len() > 0 {
        let init = defaults.drop_last();
        lemma_merged_defaults(list, init);
        let l = merged_defaults(list, init);
        let d = defaults.last();
        let r = merged_defaults(list, defaults);
        assert forall|i: int| #![trigger defaults[i]]
            0 <= i < defaults.len() implies bookmark_urls(r).contains(defaults[i].url@) by {
            if i < defaults.len() - 1 {
                assert(init[i] == defaults[i]);
                let k = choose|k: int| 0 <= k < bookmark_urls(l).len() && bookmark_urls(l)[k] == defaults[i].url@;
                if !bookmark_urls(l).contains(d.url@) {
                    assert(bookmark_urls(r)[k] == defaults[i].url@);
                }
            } else {
                if !bookmark_urls(l).contains(d.url@) {
                    assert(bookmark_urls(r)[l.len() as int] == d.url@);
                }
            }
        }
    }
}

/// Loading the settings keeps the saved bookmarks that stay, first and in
/// order, and leaves every default bookmark's address in the list.
pub proof fn law_refresh_keeps_defaults(
    saved: Seq<WebBookmark>,
    file_exists: Seq<bool>,
    defaults: Seq<WebBookmark>,
)
    requires
        saved.len() == file_exists.len(),
    ensures
        forall|i: int|
            0 <= i < kept_saved(saved, file_exists).len() ==> refreshed_bookmarks(saved, file_exists, defaults)[i]
                == kept_saved(saved, file_exists)[i],
        forall|i: int| #![trigger defaults[i]]
            0 <= i < defaults.len() ==> bookmark_urls(refreshed_bookmarks(saved, file_exists, defaults)).contains(
                defaults[i].url@,
            ),
{
    lemma_merged_defaults(kept_saved(saved, file_exists), defaults);
}

} // verus!
