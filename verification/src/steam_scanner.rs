//! Wallpapers installed through Steam: their kinds, the libraries that
//! hold them and where Wallpaper Engine keeps its shared assets.
use vstd::prelude::*;
use crate::paths::{extension, extension_of, file_name, file_name_of, join, join_path, name_stem, name_stem_of, split_chars, split_on, text_lines, lines_of};
use crate::lua::{lemma_text_less_trans, text_less, text_less_exec};
use crate::text::{chars_of, contains, eq_str, lowercase, replace_all, replace_all_chars, string_of, to_lowercase};
use crate::json::{JsonNumber, JsonValue, json_get, json_str, json_array, json_number, opt_get, get_in, take_member, number_of};
use crate::json_text::{json_compact, json_to_text};

verus! {

broadcast use vstd::string::group_string_axioms;

/// Kind of a Wallpaper Engine wallpaper.
#[derive(Debug, Clone, Copy, PartialEq, Eq)]
pub enum WallpaperType {
    Scene,
    Video,
    Web,
    Application,
    Unknown,
}

/// The kind named by a lower-case name.
pub open spec fn type_named(n: Seq<char>) -> WallpaperType {
    if n == "scene"@ {
        WallpaperType::Scene
    } else if n == "video"@ {
        WallpaperType::Video
    } else if n == "web"@ {
        WallpaperType::Web
    } else if n == "application"@ {
        WallpaperType::Application
    } else {
        WallpaperType::Unknown
    }
}

impl WallpaperType {
    /// The lower-case name of the kind.
    pub fn as_str(&self) -> (r: &'static str)
        ensures
            r@ == match *self {
                WallpaperType::Scene => "scene"@,
                WallpaperType::Video => "video"@,
                WallpaperType::Web => "web"@,
                WallpaperType::Application => "application"@,
                WallpaperType::Unknown => "unknown"@,
            },
    {
        match self {
            WallpaperType::Scene => "scene",
            WallpaperType::Video => "video",
            WallpaperType::Web => "web",
            WallpaperType::Application => "application",
            WallpaperType::Unknown => "unknown",
        }
    }

    /// The kind named by `lower`, a name already in lower case.
    pub fn from_name(lower: &str) -> (r: Self)
        ensures
            r == type_named(lower@),
    {
        let c = chars_of(lower);
        let s = c.as_slice();
        if eq_str(s, "scene") {
            WallpaperType::Scene
        } else if eq_str(s, "video") {
            WallpaperType::Video
        } else if eq_str(s, "web") {
            WallpaperType::Web
        } else if eq_str(s, "application") {
            WallpaperType::Application
        } else {
            WallpaperType::Unknown
        }
    }

    /// The kind named by `s`, in any case.
    pub fn parse(s: &str) -> (r: Self)
        ensures
            r == type_named(lowercase(s@)),
            crate::text::all_ascii(s@) ==> r == type_named(s@.map_values(|c: char| crate::text::ascii_lower(c))),
    {
        let low = to_lowercase(s);
        WallpaperType::from_name(low.as_str())
    }
}

/// A choice of a combo property of a scene.
#[derive(Debug, Clone, PartialEq)]
pub struct PropertyOption {
    pub label: String,
    pub value: String,
}

/// Where Wallpaper Engine keeps its shared assets within a Steam library.
pub open spec fn assets_dir(lib: Seq<char>) -> Seq<char> {
    join(join(join(join(lib, "steamapps"@), "common"@), "wallpaper_engine"@), "assets"@)
}

/// The shared assets directory within the Steam library `lib`.
pub fn wallpaper_engine_assets_candidate(lib: &str) -> (r: String)
    ensures
        r@ == assets_dir(lib@),
{
    let a = join_path(lib, "steamapps");
    let b = join_path(a.as_str(), "common");
    let c = join_path(b.as_str(), "wallpaper_engine");
    join_path(c.as_str(), "assets")
}

/// The shared assets directory of the first library in `libraries` that
/// has one (`exists[i]` telling whether the one of `libraries[i]` exists).
pub fn resolve_wallpaper_engine_assets_dir(libraries: &[String], exists: &[bool]) -> (r: Option<String>)
    requires
        libraries.len() == exists.len(),
    ensures
        match r {
            Some(p) => exists|i: int|
                0 <= i < libraries.len() && exists@[i] && p@ == assets_dir(libraries@[i]@) && forall|j: int|
                    0 <= j < i ==> !exists@[j],
            None => forall|j: int| 0 <= j < libraries.len() ==> !exists@[j],
        },
{
    let mut i: usize = 0;
    while i < libraries.len()
        invariant
            i <= libraries.len(),
            libraries.len() == exists.len(),
            forall|j: int| 0 <= j < i ==> !exists@[j],
        decreases libraries.len() - i,
    {
        if exists[i] {
            return Some(wallpaper_engine_assets_candidate(libraries[i].as_str()));
        }
        i += 1;
    }
    None
}

/// The library named on a line of `libraryfolders.vdf`: on a line holding
/// `"path"`, the fourth `"`-separated piece, with doubled backslashes
/// turned into `/`.
pub open spec fn vdf_line_path(line: Seq<char>) -> Option<Seq<char>> {
    if contains(line, "\"path\""@) {
        let parts = split_on(line, '"');
        if parts.len() >= 4 {
            Some(replace_all(parts[3], "\\\\"@, "/"@))
        } else {
            None
        }
    } else {
        None
    }
}

/// The libraries named on the lines, in order.
pub open spec fn vdf_paths(lines: Seq<Seq<char>>) -> Seq<Seq<char>>
    decreases lines.len(),
{
    if lines.len() == 0 {
        seq![]
    } else {
        let k = vdf_paths(lines.drop_last());
        match vdf_line_path(lines.last()) {
            Some(p) => k.push(p),
            None => k,
        }
    }
}

/// The library paths listed in the text of a `libraryfolders.vdf` file.
pub fn library_paths_from_vdf(content: &str) -> (r: Vec<String>)
    ensures
        r@.map_values(|x: String| x@) == vdf_paths(text_lines(content@)),
{
    let lines = lines_of(content);
    let ghost lv = lines@.map_values(|x: Vec<char>| x@);
    let key = chars_of("\"path\"");
    let from = chars_of("\\\\");
    let to = chars_of("/");
    proof {
        reveal_strlit("\\\\");
    }
    assert(from@.len() == 2);
    let mut out: Vec<String> = Vec::new();
    let mut i: usize = 0;
    while i < lines.len()
        invariant
            i <= lines.len(),
            lv == lines@.map_values(|x: Vec<char>| x@),
            lv == text_lines(content@),
            key@ == "\"path\""@,
            from@ == "\\\\"@,
            from@.len() == 2,
            to@ == "/"@,
            out@.map_values(|x: String| x@) == vdf_paths(lv.take(i as int)),
        decreases lines.len() - i,
    {
        let line = &lines[i];
        assert(lv[i as int] == line@);
        assert(lv.take(i as int + 1).drop_last() == lv.take(i as int));
        let ghost before = out@.map_values(|x: String| x@);
        if crate::text::contains_chars(line.as_slice(), key.as_slice()) {
            let parts = split_chars(line.as_slice(), '"');
            if parts.len() >= 4 {
                assert(parts@.map_values(|x: Vec<char>| x@)[3] == parts@[3]@);
                let p = replace_all_chars(parts[3].as_slice(), from.as_slice(), to.as_slice());
                out.push(string_of(p.as_slice()));
                assert(out@.map_values(|x: String| x@) == before.push(p@));
            }
        }
        i += 1;
    }
    assert(lv.take(lines.len() as int) == lv);
    out
}

/// A setting a scene offers, as its project file describes it. Numbers
/// keep the form they were written in.
#[derive(Debug)]
pub struct WallpaperProperty {
    pub key: String,
    pub label: String,
    pub prop_type: String,
    pub default_value: Option<JsonValue>,
    pub min: Option<JsonNumber>,
    pub max: Option<JsonNumber>,
    pub step: Option<JsonNumber>,
    pub options: Vec<PropertyOption>,
}

/// The text when there is one, else `d`.
pub open spec fn text_or(v: Option<Seq<char>>, d: Seq<char>) -> Seq<char> {
    match v {
        Some(t) => t,
        None => d,
    }
}

/// The value of a choice as text: a string as it is, another value as
/// compact JSON, nothing as the empty text.
pub open spec fn option_value_text(v: Option<JsonValue>) -> Seq<char> {
    match v {
        Some(JsonValue::Str(s)) => s@,
        Some(x) => json_compact(x),
        None => seq![],
    }
}

/// `o` is the choice described by `opt`.
pub open spec fn option_matches(o: PropertyOption, opt: JsonValue) -> bool {
    &&& o.label@ == text_or(json_str(json_get(opt, "label"@)), seq![])
    &&& o.value@ == option_value_text(json_get(opt, "value"@))
}

/// The choices listed by a property, when it lists them in an array.
pub open spec fn options_of(val: JsonValue) -> Seq<JsonValue> {
    match json_array(json_get(val, "options"@)) {
        Some(a) => a,
        None => seq![],
    }
}

/// `p` is the property `key` described by `val`.
pub open spec fn property_matches(p: WallpaperProperty, key: Seq<char>, val: JsonValue) -> bool {
    &&& p.key@ == key
    &&& p.label@ == text_or(json_str(json_get(val, "text"@)), key)
    &&& p.prop_type@ == text_or(json_str(json_get(val, "type"@)), "text"@)
    &&& p.default_value == json_get(val, "value"@)
    &&& p.min == json_number(json_get(val, "min"@))
    &&& p.max == json_number(json_get(val, "max"@))
    &&& p.step == json_number(json_get(val, "step"@))
    &&& p.options.len() == options_of(val).len()
    &&& forall|i: int| 0 <= i < p.options.len() ==> option_matches(#[trigger] p.options@[i], options_of(val)[i])
}

/// Where a project file lists its properties: `general.properties`, or
/// failing that a top-level `properties`.
pub open spec fn properties_source(json: JsonValue) -> Option<JsonValue> {
    match opt_get(json_get(json, "general"@), "properties"@) {
        Some(p) => Some(p),
        None => json_get(json, "properties"@),
    }
}

/// The properties listed, when they are listed as an object.
pub open spec fn property_entries(json: JsonValue) -> Seq<(String, JsonValue)> {
    match properties_source(json) {
        Some(JsonValue::Object(o)) => o@,
        _ => seq![],
    }
}

fn text_member(v: &JsonValue, key: &str, default: &str) -> (r: String)
    ensures
        r@ == text_or(json_str(json_get(*v, key@)), default@),
{
    match v.get(key) {
        Some(t) => match t.as_str() {
            Some(s) => s.to_string(),
            None => default.to_string(),
        },
        None => default.to_string(),
    }
}

fn option_from(opt: &JsonValue) -> (r: PropertyOption)
    ensures
        option_matches(r, *opt),
{
    let label = text_member(opt, "label", "");
    proof {
        reveal_strlit("");
    }
    assert(""@ =~= Seq::<char>::empty());
    let value = match opt.get("value") {
        Some(JsonValue::Str(s)) => s.clone(),
        Some(x) => json_to_text(x),
        None => String::new(),
    };
    PropertyOption { label, value }
}

fn property_from(key: String, val: JsonValue) -> (r: WallpaperProperty)
    ensures
        property_matches(r, key@, val),
{
    let label = match val.get("text") {
        Some(t) => match t.as_str() {
            Some(s) => s.to_string(),
            None => key.clone(),
        },
        None => key.clone(),
    };
    let prop_type = text_member(&val, "type", "text");
    let min = number_of(val.get("min"));
    let max = number_of(val.get("max"));
    let step = number_of(val.get("step"));
    let mut options: Vec<PropertyOption> = Vec::new();
    let listed = val.get("options");
    match listed {
        Some(o) => match o.as_array() {
            Some(arr) => {
                let mut i: usize = 0;
                while i < arr.len()
                    invariant
                        i <= arr.len(),
                        options_of(val) == arr@,
                        options.len() == i,
                        forall|j: int| 0 <= j < i ==> option_matches(#[trigger] options@[j], arr@[j]),
                    decreases arr.len() - i,
                {
                    options.push(option_from(&arr[i]));
                    i += 1;
                }
            },
            None => {},
        },
        None => {},
    }
    let default_value = take_member(val, "value");
    WallpaperProperty { key, label, prop_type, default_value, min, max, step, options }
}

/// The properties a scene's project file describes, in the order held.
pub fn parse_properties(json: JsonValue) -> (r: Vec<WallpaperProperty>)
    ensures
        r.len() == property_entries(json).len(),
        forall|i: int|
            0 <= i < r.len() ==> property_matches(#[trigger] r@[i], property_entries(json)[i].0@, property_entries(json)[i].1),
{
    let ghost whole = json;
    let in_general = get_in(json.get("general"), "properties").is_some();
    let source = if in_general {
        match take_member(json, "general") {
            Some(g) => take_member(g, "properties"),
            None => None,
        }
    } else {
        take_member(json, "properties")
    };
    assert(source == properties_source(whole));
    let mut entries: Vec<(String, JsonValue)> = match source {
        Some(JsonValue::Object(o)) => o,
        _ => Vec::new(),
    };
    let ghost all = entries@;
    assert(all == property_entries(whole));
    let mut out: Vec<WallpaperProperty> = Vec::new();
    assert(all.skip(0) == all);
    while entries.len() > 0
        invariant
            out.len() <= all.len(),
            entries@ == all.skip(out.len() as int),
            forall|j: int| 0 <= j < out.len() ==> property_matches(#[trigger] out@[j], all[j].0@, all[j].1),
        decreases entries.len(),
    {
        let ghost k = out.len() as int;
        assert(entries@[0] == all[k]);
        let (key, val) = entries.remove(0);
        assert(all.skip(k).skip(1) == all.skip(k + 1));
        out.push(property_from(key, val));
    }
    out
}

/// A wallpaper found in a Steam library or download directory.
#[derive(Debug)]
pub struct SteamWallpaper {
    pub id: String,
    pub workshop_id: String,
    pub title: String,
    pub author: String,
    pub description: String,
    pub wallpaper_type: WallpaperType,
    pub thumbnail: Option<String>,
    pub preview_url: Option<String>,
    pub file_size: u64,
    pub date_added: u64,
    pub tags: Vec<String>,
    pub path: String,
    pub properties: Vec<WallpaperProperty>,
}

/// The texts among the values, in order.
pub open spec fn string_items(items: Seq<JsonValue>) -> Seq<Seq<char>>
    decreases items.len(),
{
    if items.len() == 0 {
        seq![]
    } else {
        let k = string_items(items.drop_last());
        match items.last() {
            JsonValue::Str(s) => k.push(s@),
            _ => k,
        }
    }
}

/// The tags of a project file: the texts of its `tags` array.
pub open spec fn tags_of(json: JsonValue) -> Seq<Seq<char>> {
    match json_array(json_get(json, "tags"@)) {
        Some(a) => string_items(a),
        None => seq![],
    }
}

/// The kind a project file names, `scene` when it names none.
pub open spec fn project_type(json: JsonValue) -> WallpaperType {
    type_named(lowercase(text_or(json_str(json_get(json, "type"@)), "scene"@)))
}

/// The texts of a vector of strings.
pub open spec fn texts(v: Seq<String>) -> Seq<Seq<char>> {
    v.map_values(|x: String| x@)
}

/// The text an optional string holds.
pub open spec fn opt_text(v: Option<String>) -> Option<Seq<char>> {
    match v {
        Some(s) => Some(s@),
        None => None,
    }
}

/// `w` is the wallpaper that the project file `json` of the item `id` at
/// `path` describes.
pub open spec fn describes_project(
    w: SteamWallpaper,
    id: Seq<char>,
    path: Seq<char>,
    json: JsonValue,
    thumbnail: Option<Seq<char>>,
    file_size: u64,
    date_added: u64,
) -> bool {
    &&& w.id@ == id
    &&& w.workshop_id@ == id
    &&& w.title@ == text_or(json_str(json_get(json, "title"@)), "Untitled"@)
    &&& w.author@ == text_or(json_str(json_get(json, "author"@)), "Unknown"@)
    &&& w.description@ == text_or(json_str(json_get(json, "description"@)), seq![])
    &&& w.wallpaper_type == project_type(json)
    &&& opt_text(w.thumbnail) == thumbnail
    &&& opt_text(w.preview_url) == json_str(json_get(json, "preview"@))
    &&& w.file_size == file_size
    &&& w.date_added == date_added
    &&& texts(w.tags@) == tags_of(json)
    &&& w.path@ == path
    &&& w.properties.len() == property_entries(json).len()
    &&& forall|i: int|
        0 <= i < w.properties.len() ==> property_matches(
            #[trigger] w.properties@[i],
            property_entries(json)[i].0@,
            property_entries(json)[i].1,
        )
}

fn tags_from(json: &JsonValue) -> (r: Vec<String>)
    ensures
        texts(r@) == tags_of(*json),
{
    let mut out: Vec<String> = Vec::new();
    match json.get("tags") {
        Some(t) => match t.as_array() {
            Some(arr) => {
                let mut i: usize = 0;
                assert(arr@.take(0) == Seq::<JsonValue>::empty());
                while i < arr.len()
                    invariant
                        i <= arr.len(),
                        texts(out@) == string_items(arr@.take(i as int)),
                    decreases arr.len() - i,
                {
                    assert(arr@.take(i + 1).drop_last() == arr@.take(i as int));
                    let ghost before = out@;
                    match &arr[i] {
                        JsonValue::Str(s) => {
                            out.push(s.clone());
                            assert(texts(out@) == texts(before).push(s@));
                        },
                        _ => {},
                    }
                    i += 1;
                }
                assert(arr@.take(arr.len() as int) == arr@);
            },
            None => {},
        },
        None => {},
    }
    out
}

/// The wallpaper described by the project file `json` of the item `item_id`
/// kept at `item_path`, with its thumbnail, size and time of arrival as
/// found on disk.
pub fn project_wallpaper(
    item_id: String,
    item_path: String,
    json: JsonValue,
    thumbnail: Option<String>,
    file_size: u64,
    date_added: u64,
) -> (r: SteamWallpaper)
    ensures
        describes_project(r, item_id@, item_path@, json, opt_text(thumbnail), file_size, date_added),
{
    proof {
        reveal_strlit("");
    }
    assert(""@ =~= Seq::<char>::empty());
    let title = text_member(&json, "title", "Untitled");
    let author = text_member(&json, "author", "Unknown");
    let description = text_member(&json, "description", "");
    let raw_type = text_member(&json, "type", "scene");
    let wallpaper_type = WallpaperType::parse(raw_type.as_str());
    let tags = tags_from(&json);
    let preview_url = match json.get("preview") {
        Some(p) => match p.as_str() {
            Some(s) => Some(s.to_string()),
            None => None,
        },
        None => None,
    };
    let properties = parse_properties(json);
    let workshop_id = item_id.clone();
    SteamWallpaper {
        id: item_id,
        workshop_id,
        title,
        author,
        description,
        wallpaper_type,
        thumbnail,
        preview_url,
        file_size,
        date_added,
        tags,
        path: item_path,
        properties,
    }
}

/// `Path::file_stem` of a path, empty when it has no file name.
pub open spec fn path_stem(p: Seq<char>) -> Seq<char> {
    match file_name(p) {
        Some(n) => name_stem(n),
        None => seq![],
    }
}

/// `w` is the wallpaper made for a bare scene package at `path`.
pub open spec fn describes_package(
    w: SteamWallpaper,
    id: Seq<char>,
    path: Seq<char>,
    thumbnail: Option<Seq<char>>,
    file_size: u64,
    date_added: u64,
) -> bool {
    &&& w.id@ == id
    &&& w.workshop_id@ == id
    &&& w.title@ == path_stem(path)
    &&& w.author@ == "Steam Workshop"@
    &&& w.description@ == "Wallpaper Engine Scene Package (.pkg)"@
    &&& w.wallpaper_type == WallpaperType::Scene
    &&& opt_text(w.thumbnail) == thumbnail
    &&& w.preview_url is None
    &&& w.file_size == file_size
    &&& w.date_added == date_added
    &&& texts(w.tags@) == seq!["Scene"@, "PKG"@]
    &&& w.path@ == path
    &&& w.properties.len() == 0
}

/// The wallpaper made for a scene package (a `.pkg` file, or a directory
/// holding one) that has no project file.
pub fn package_wallpaper(
    item_id: String,
    item_path: String,
    thumbnail: Option<String>,
    file_size: u64,
    date_added: u64,
) -> (r: SteamWallpaper)
    ensures
        describes_package(r, item_id@, item_path@, opt_text(thumbnail), file_size, date_added),
{
    let title = match file_name_of(item_path.as_str()) {
        Some(n) => string_of(name_stem_of(n.as_slice()).as_slice()),
        None => String::new(),
    };
    let mut tags: Vec<String> = Vec::new();
    tags.push("Scene".to_string());
    tags.push("PKG".to_string());
    assert(texts(tags@) == seq!["Scene"@, "PKG"@]);
    let workshop_id = item_id.clone();
    SteamWallpaper {
        id: item_id,
        workshop_id,
        title,
        author: "Steam Workshop".to_string(),
        description: "Wallpaper Engine Scene Package (.pkg)".to_string(),
        wallpaper_type: WallpaperType::Scene,
        thumbnail,
        preview_url: None,
        file_size,
        date_added,
        tags,
        path: item_path,
        properties: Vec::new(),
    }
}

/// The files tried, in order, as an item's thumbnail: the preview its
/// project file names, then `preview.jpg`, `.png`, `.gif` and `.jpeg`.
pub open spec fn thumbnail_candidates_of(item: Seq<char>, json: JsonValue) -> Seq<Seq<char>> {
    let fixed = seq![
        join(item, "preview.jpg"@),
        join(item, "preview.png"@),
        join(item, "preview.gif"@),
        join(item, "preview.jpeg"@),
    ];
    match json_str(json_get(json, "preview"@)) {
        Some(p) => seq![join(item, p)] + fixed,
        None => fixed,
    }
}

/// The first candidate that exists (`exists[i]` telling whether the
/// `i`-th does).
pub open spec fn first_existing(cands: Seq<Seq<char>>, exists: Seq<bool>) -> Option<Seq<char>>
    decreases cands.len(),
{
    if cands.len() == 0 || exists.len() == 0 {
        None
    } else if exists[0] {
        Some(cands[0])
    } else {
        first_existing(cands.skip(1), exists.skip(1))
    }
}

/// The files tried as the thumbnail of the item at `item_path`, in order.
pub fn thumbnail_candidates(item_path: &str, json: &JsonValue) -> (r: Vec<String>)
    ensures
        texts(r@) == thumbnail_candidates_of(item_path@, *json),
{
    let mut out: Vec<String> = Vec::new();
    match json.get("preview") {
        Some(p) => match p.as_str() {
            Some(name) => out.push(join_path(item_path, name)),
            None => {},
        },
        None => {},
    }
    let ghost before = texts(out@);
    out.push(join_path(item_path, "preview.jpg"));
    out.push(join_path(item_path, "preview.png"));
    out.push(join_path(item_path, "preview.gif"));
    out.push(join_path(item_path, "preview.jpeg"));
    assert(texts(out@) == before + seq![
        join(item_path@, "preview.jpg"@),
        join(item_path@, "preview.png"@),
        join(item_path@, "preview.gif"@),
        join(item_path@, "preview.jpeg"@),
    ]);
    out
}

/// The thumbnail of the item at `item_path`: the first of its candidate
/// files that exists (`exists[i]` telling whether the `i`-th does).
pub fn resolve_thumbnail(item_path: &str, json: &JsonValue, exists: &[bool]) -> (r: Option<String>)
    requires
        exists.len() == thumbnail_candidates_of(item_path@, *json).len(),
    ensures
        opt_text(r) == first_existing(thumbnail_candidates_of(item_path@, *json), exists@),
{
    let cands = thumbnail_candidates(item_path, json);
    let ghost cs = texts(cands@);
    let mut i: usize = 0;
    assert(cs.skip(0) == cs && exists@.skip(0) == exists@);
    while i < cands.len()
        invariant
            i <= cands.len(),
            cands.len() == exists.len(),
            cs == texts(cands@),
            cs == thumbnail_candidates_of(item_path@, *json),
            first_existing(cs, exists@) == first_existing(cs.skip(i as int), exists@.skip(i as int)),
        decreases cands.len() - i,
    {
        assert(cs.skip(i as int).skip(1) == cs.skip(i as int + 1));
        assert(exists@.skip(i as int).skip(1) == exists@.skip(i as int + 1));
        assert(cs.skip(i as int)[0] == cs[i as int]);
        assert(cs[i as int] == cands@[i as int]@);
        assert(exists@.skip(i as int)[0] == exists@[i as int]);
        if exists[i] {
            let c = cands[i].clone();
            assert(first_existing(cs.skip(i as int), exists@.skip(i as int)) == Some(cs[i as int]));
            assert(c@ == cs[i as int]);
            return Some(c);
        }
        i += 1;
    }
    None
}

/// The ids of the wallpapers, in order.
pub open spec fn ids(ws: Seq<SteamWallpaper>) -> Seq<Seq<char>> {
    ws.map_values(|w: SteamWallpaper| w.id@)
}

/// The wallpapers found, each id kept the first time it comes.
pub open spec fn first_by_id(found: Seq<Option<SteamWallpaper>>) -> Seq<SteamWallpaper>
    decreases found.len(),
{
    if found.len() == 0 {
        seq![]
    } else {
        let k = first_by_id(found.drop_last());
        match found.last() {
            Some(w) => if ids(k).contains(w.id@) {
                k
            } else {
                k.push(w)
            },
            None => k,
        }
    }
}

/// The key wallpapers are listed by: the title in lower case.
pub open spec fn title_key(w: SteamWallpaper) -> Seq<char> {
    lowercase(w.title@)
}

/// Where a wallpaper with key `key` goes in a list ordered by key: after
/// every wallpaper whose key is not greater.
pub open spec fn insert_pos(sorted: Seq<SteamWallpaper>, key: Seq<char>) -> nat
    decreases sorted.len(),
{
    if sorted.len() == 0 {
        0
    } else if text_less(key, title_key(sorted[0])) {
        0
    } else {
        1 + insert_pos(sorted.skip(1), key)
    }
}

/// The wallpapers in the stable order of their keys: those with equal
/// keys keep the order they came in.
pub open spec fn title_sorted(ws: Seq<SteamWallpaper>) -> Seq<SteamWallpaper>
    decreases ws.len(),
{
    if ws.len() == 0 {
        seq![]
    } else {
        let t = title_sorted(ws.drop_last());
        t.insert(insert_pos(t, title_key(ws.last())) as int, ws.last())
    }
}

proof fn lemma_insert_pos_bound(sorted: Seq<SteamWallpaper>, key: Seq<char>)
    ensures
        insert_pos(sorted, key) <= sorted.len(),
    decreases sorted.len(),
{
    if sorted.len() > 0 {
        lemma_insert_pos_bound(sorted.skip(1), key);
    }
}

proof fn lemma_title_sorted_len(ws: Seq<SteamWallpaper>)
    ensures
        title_sorted(ws).len() == ws.len(),
    decreases ws.len(),
{
    if ws.len() > 0 {
        lemma_title_sorted_len(ws.drop_last());
        lemma_insert_pos_bound(title_sorted(ws.drop_last()), title_key(ws.last()));
    }
}

fn insert_by_title(out: &mut Vec<SteamWallpaper>, keys: &mut Vec<Vec<char>>, w: SteamWallpaper)
    requires
        old(keys).len() == old(out).len(),
        forall|j: int| 0 <= j < old(out).len() ==> old(keys)@[j]@ == #[trigger] title_key(old(out)@[j]),
    ensures
        final(keys).len() == final(out).len(),
        forall|j: int| 0 <= j < final(out).len() ==> final(keys)@[j]@ == #[trigger] title_key(final(out)@[j]),
        final(out)@ == old(out)@.insert(insert_pos(old(out)@, title_key(w)) as int, w),
{
    let lower = to_lowercase(w.title.as_str());
    let key = chars_of(lower.as_str());
    let mut p: usize = 0;
    assert(out@.skip(0) == out@);
    while p < out.len() && !text_less_exec(key.as_slice(), keys[p].as_slice())
        invariant
            p <= out.len(),
            keys.len() == out.len(),
            out@ == old(out)@,
            keys@ == old(keys)@,
            key@ == title_key(w),
            forall|j: int| 0 <= j < out.len() ==> keys@[j]@ == #[trigger] title_key(out@[j]),
            insert_pos(out@, key@) == p + insert_pos(out@.skip(p as int), key@),
        decreases out.len() - p,
    {
        assert(out@.skip(p as int).skip(1) == out@.skip(p as int + 1));
        assert(out@.skip(p as int)[0] == out@[p as int]);
        assert(keys@[p as int]@ == title_key(out@[p as int]));
        p += 1;
    }
    if p < out.len() {
        assert(keys@[p as int]@ == title_key(out@[p as int]));
        assert(out@.skip(p as int)[0] == out@[p as int]);
    }
    let ghost before_out = out@;
    let ghost before_keys = keys@;
    out.insert(p, w);
    keys.insert(p, key);
    assert forall|j: int| 0 <= j < out.len() implies keys@[j]@ == #[trigger] title_key(out@[j]) by {
        if j < p {
            assert(out@[j] == before_out[j] && keys@[j] == before_keys[j]);
        } else if j > p {
            assert(out@[j] == before_out[j - 1] && keys@[j] == before_keys[j - 1]);
        }
    }
}

/// The wallpapers of a scan, `found` holding what each directory entry
/// gave in the order met: each id kept the first time it comes, then
/// listed in the stable order of their lower-case titles.
pub fn collect_wallpapers(found: Vec<Option<SteamWallpaper>>) -> (r: Vec<SteamWallpaper>)
    ensures
        r@ == title_sorted(first_by_id(found@)),
{
    let ghost all = found@;
    assert(all.len() == found.len());
    let mut found = found;
    let mut kept: Vec<SteamWallpaper> = Vec::new();
    let mut n: usize = 0;
    assert(all.skip(0) == all);
    assert(all.take(0) == Seq::<Option<SteamWallpaper>>::empty());
    while found.len() > 0
        invariant
            n <= all.len(),
            all.len() <= usize::MAX,
            found@ == all.skip(n as int),
            kept@ == first_by_id(all.take(n as int)),
        decreases found.len(),
    {
        assert(found@[0] == all[n as int]);
        let item = found.remove(0);
        assert(all.skip(n as int).skip(1) == all.skip(n as int + 1));
        assert(all.take(n as int + 1).drop_last() == all.take(n as int));
        assert(all.take(n as int + 1).last() == all[n as int]);
        match item {
            Some(w) => {
                let mut seen = false;
                let mut j: usize = 0;
                while j < kept.len()
                    invariant
                        j <= kept.len(),
                        seen == ids(kept@).take(j as int).contains(w.id@),
                    decreases kept.len() - j,
                {
                    assert(ids(kept@).take(j as int + 1) == ids(kept@).take(j as int).push(kept@[j as int].id@));
                    proof {
                        let sq = ids(kept@).take(j as int);
                        let x = kept@[j as int].id@;
                        if sq.push(x).contains(w.id@) {
                            let k = choose|k: int| 0 <= k < sq.push(x).len() && sq.push(x)[k] == w.id@;
                            if k < sq.len() {
                                assert(sq[k] == w.id@);
                            }
                        }
                        if sq.contains(w.id@) {
                            let k = choose|k: int| 0 <= k < sq.len() && sq[k] == w.id@;
                            assert(sq.push(x)[k] == w.id@);
                        }
                        if x == w.id@ {
                            assert(sq.push(x)[sq.len() as int] == x);
                        }
                    }
                    if kept[j].id == w.id {
                        seen = true;
                    }
                    j += 1;
                }
                assert(ids(kept@).take(kept.len() as int) == ids(kept@));
                if !seen {
                    kept.push(w);
                }
            },
            None => {},
        }
        n += 1;
    }
    assert(all.take(all.len() as int) == all);
    let ghost deduped = kept@;
    assert(deduped.len() == kept.len());
    let mut out: Vec<SteamWallpaper> = Vec::new();
    let mut keys: Vec<Vec<char>> = Vec::new();
    let mut m: usize = 0;
    assert(deduped.skip(0) == deduped);
    assert(deduped.take(0) == Seq::<SteamWallpaper>::empty());
    while kept.len() > 0
        invariant
            m <= deduped.len(),
            deduped.len() <= usize::MAX,
            kept@ == deduped.skip(m as int),
            keys.len() == out.len(),
            forall|j: int| 0 <= j < out.len() ==> keys@[j]@ == #[trigger] title_key(out@[j]),
            out@ == title_sorted(deduped.take(m as int)),
        decreases kept.len(),
    {
        assert(kept@[0] == deduped[m as int]);
        let w = kept.remove(0);
        assert(deduped.skip(m as int).skip(1) == deduped.skip(m as int + 1));
        assert(deduped.take(m as int + 1).drop_last() == deduped.take(m as int));
        assert(deduped.take(m as int + 1).last() == deduped[m as int]);
        insert_by_title(&mut out, &mut keys, w);
        m += 1;
    }
    assert(deduped.take(deduped.len() as int) == deduped);
    out
}

/// The wallpapers are in the order of their keys.
pub open spec fn sorted_by_title(ws: Seq<SteamWallpaper>) -> bool {
    forall|i: int, j: int| 0 <= i < j < ws.len() ==> !text_less(title_key(ws[j]), title_key(ws[i]))
}

/// No id comes twice.
pub open spec fn ids_distinct(ws: Seq<SteamWallpaper>) -> bool {
    forall|i: int, j: int| 0 <= i < j < ws.len() ==> ws[i].id@ != ws[j].id@
}

proof fn lemma_insert_pos(sorted: Seq<SteamWallpaper>, key: Seq<char>)
    ensures
        insert_pos(sorted, key) <= sorted.len(),
        forall|i: int| 0 <= i < insert_pos(sorted, key) ==> !text_less(key, #[trigger] title_key(sorted[i])),
        insert_pos(sorted, key) < sorted.len() ==> text_less(key, title_key(sorted[insert_pos(sorted, key) as int])),
    decreases sorted.len(),
{
    if sorted.len() > 0 && !text_less(key, title_key(sorted[0])) {
        let rest = sorted.skip(1);
        lemma_insert_pos(rest, key);
        assert forall|i: int| 0 <= i < insert_pos(sorted, key) implies !text_less(key, #[trigger] title_key(sorted[i])) by {
            if i > 0 {
                assert(sorted[i] == rest[i - 1]);
            }
        }
        if insert_pos(sorted, key) < sorted.len() {
            assert(sorted[insert_pos(sorted, key) as int] == rest[insert_pos(rest, key) as int]);
        }
    }
}

proof fn lemma_text_less_irrefl(a: Seq<char>)
    ensures
        !text_less(a, a),
    decreases a.len(),
{
    if a.len() > 0 {
        lemma_text_less_irrefl(a.skip(1));
    }
}

proof fn lemma_insert_sorted(t: Seq<SteamWallpaper>, w: SteamWallpaper)
    requires
        sorted_by_title(t),
    ensures
        sorted_by_title(t.insert(insert_pos(t, title_key(w)) as int, w)),
{
    let key = title_key(w);
    lemma_insert_pos(t, key);
    let p = insert_pos(t, key) as int;
    let r = t.insert(p, w);
    assert forall|i: int, j: int| 0 <= i < j < r.len() implies !text_less(title_key(r[j]), title_key(r[i])) by {
        if j < p {
            assert(r[i] == t[i] && r[j] == t[j]);
        } else if j == p {
            assert(r[i] == t[i] && r[j] == w);
        } else if i < p {
            assert(r[i] == t[i] && r[j] == t[j - 1]);
        } else if i == p {
            assert(r[i] == w && r[j] == t[j - 1]);
            assert(text_less(key, title_key(t[p])));
            if text_less(title_key(t[j - 1]), key) {
                lemma_text_less_trans(title_key(t[j - 1]), key, title_key(t[p]));
                if p < j - 1 {
                    assert(!text_less(title_key(t[j - 1]), title_key(t[p])));
                } else {
                    lemma_text_less_irrefl(title_key(t[p]));
                }
            }
        } else {
            assert(r[i] == t[i - 1] && r[j] == t[j - 1]);
        }
    }
}

proof fn lemma_insert_contains(t: Seq<SteamWallpaper>, p: int, w: SteamWallpaper)
    requires
        0 <= p <= t.len(),
    ensures
        forall|x: SteamWallpaper| t.insert(p, w).contains(x) <==> (t.contains(x) || x == w),
{
    let r = t.insert(p, w);
    assert forall|x: SteamWallpaper| r.contains(x) <==> (t.contains(x) || x == w) by {
        if r.contains(x) {
            let k = choose|k: int| 0 <= k < r.len() && r[k] == x;
            if k < p {
                assert(t[k] == x);
            } else if k > p {
                assert(t[k - 1] == x);
            }
        }
        if t.contains(x) {
            let m = choose|m: int| 0 <= m < t.len() && t[m] == x;
            if m < p {
                assert(r[m] == x);
            } else {
                assert(r[m + 1] == x);
            }
        }
        if x == w {
            assert(r[p] == x);
        }
    }
}

proof fn lemma_drop_last_contains(ws: Seq<SteamWallpaper>)
    requires
        ws.len() > 0,
    ensures
        forall|x: SteamWallpaper| ws.contains(x) <==> (ws.drop_last().contains(x) || x == ws.last()),
{
    assert forall|x: SteamWallpaper| ws.contains(x) <==> (ws.drop_last().contains(x) || x == ws.last()) by {
        if ws.contains(x) {
            let k = choose|k: int| 0 <= k < ws.len() && ws[k] == x;
            if k < ws.len() - 1 {
                assert(ws.drop_last()[k] == x);
            }
        }
        if ws.drop_last().contains(x) {
            let k = choose|k: int| 0 <= k < ws.len() - 1 && ws.drop_last()[k] == x;
            assert(ws[k] == x);
        }
        if x == ws.last() {
            assert(ws[ws.len() - 1] == x);
        }
    }
}

proof fn lemma_title_sorted(ws: Seq<SteamWallpaper>)
    ensures
        title_sorted(ws).len() == ws.len(),
        sorted_by_title(title_sorted(ws)),
        forall|x: SteamWallpaper| title_sorted(ws).contains(x) <==> ws.contains(x),
        ids_distinct(ws) ==> ids_distinct(title_sorted(ws)),
    decreases ws.len(),
{
    if ws.len() > 0 {
        let init = ws.drop_last();
        let w = ws.last();
        let t = title_sorted(init);
        lemma_title_sorted(init);
        let key = title_key(w);
        lemma_insert_pos(t, key);
        let p = insert_pos(t, key) as int;
        let r = t.insert(p, w);
        assert(r == title_sorted(ws));
        lemma_insert_sorted(t, w);
        lemma_insert_contains(t, p, w);
        lemma_drop_last_contains(ws);
        if ids_distinct(ws) {
            assert(ids_distinct(init));
            assert forall|i: int, j: int| 0 <= i < j < r.len() implies r[i].id@ != r[j].id@ by {
                if i == p || j == p {
                    let o = if i == p { j } else { i };
                    let y = r[o];
                    if o < p {
                        assert(y == t[o]);
                    } else {
                        assert(y == t[o - 1]);
                    }
                    assert(t.contains(y));
                    assert(init.contains(y));
                    let m = choose|m: int| 0 <= m < init.len() && init[m] == y;
                    assert(ws[m] == y);
                    assert(ws[ws.len() - 1] == w);
                } else {
                    let a = if i < p { i } else { i - 1 };
                    let b = if j < p { j } else { j - 1 };
                    assert(r[i] == t[a] && r[j] == t[b]);
                }
            }
        }
    }
}

proof fn lemma_first_by_id(found: Seq<Option<SteamWallpaper>>)
    ensures
        ids_distinct(first_by_id(found)),
        forall|x: SteamWallpaper| first_by_id(found).contains(x) ==> found.contains(Some(x)),
        forall|i: int| #![trigger found[i]]
            0 <= i < found.len() && found[i] is Some ==> ids(first_by_id(found)).contains(found[i]->0.id@),
    decreases found.len(),
{
    if found.len() > 0 {
        let init = found.drop_last();
        lemma_first_by_id(init);
        let k = first_by_id(init);
        assert forall|x: SteamWallpaper| first_by_id(found).contains(x) implies found.contains(Some(x)) by {
            let q = choose|q: int| 0 <= q < first_by_id(found).len() && first_by_id(found)[q] == x;
            if q < k.len() {
                assert(k[q] == x);
                assert(k.contains(x));
                let m = choose|m: int| 0 <= m < init.len() && init[m] == Some(x);
                assert(found[m] == Some(x));
            } else {
                assert(found[found.len() - 1] == Some(x));
            }
        }
        match found.last() {
            Some(w) => {
                if !ids(k).contains(w.id@) {
                    let r = k.push(w);
                    assert forall|i: int, j: int| 0 <= i < j < r.len() implies r[i].id@ != r[j].id@ by {
                        if j == k.len() {
                            assert(ids(k)[i] == k[i].id@);
                        }
                    }
                    assert(ids(r) == ids(k).push(w.id@));
                }
            },
            None => {},
        }
        assert forall|i: int| #![trigger found[i]]
            0 <= i < found.len() && found[i] is Some implies ids(first_by_id(found)).contains(found[i]->0.id@) by {
            let id = found[i]->0.id@;
            if i < found.len() - 1 {
                assert(init[i] == found[i]);
                let m = choose|m: int| 0 <= m < ids(k).len() && ids(k)[m] == id;
                match found.last() {
                    Some(w) => if !ids(k).contains(w.id@) {
                        assert(ids(k.push(w))[m] == id);
                    },
                    None => {},
                }
            } else {
                match found.last() {
                    Some(w) => if !ids(k).contains(w.id@) {
                        assert(ids(k.push(w))[k.len() as int] == w.id@);
                    },
                    None => {},
                }
            }
        }
    }
}

/// A scan lists its wallpapers in the order of their lower-case titles,
/// each id once; every wallpaper listed was found, and every id found is
/// listed.
pub proof fn law_scan_listing(found: Seq<Option<SteamWallpaper>>)
    ensures
        sorted_by_title(title_sorted(first_by_id(found))),
        ids_distinct(title_sorted(first_by_id(found))),
        forall|x: SteamWallpaper| title_sorted(first_by_id(found)).contains(x) ==> found.contains(Some(x)),
        forall|i: int| #![trigger found[i]]
            0 <= i < found.len() && found[i] is Some ==> ids(title_sorted(first_by_id(found))).contains(found[i]->0.id@),
{
    let k = first_by_id(found);
    lemma_first_by_id(found);
    lemma_title_sorted(k);
    let r = title_sorted(k);
    assert forall|x: SteamWallpaper| r.contains(x) implies found.contains(Some(x)) by {
        assert(k.contains(x));
    }
    assert forall|i: int| #![trigger found[i]]
        0 <= i < found.len() && found[i] is Some implies ids(r).contains(found[i]->0.id@) by {
        let id = found[i]->0.id@;
        let m = choose|m: int| 0 <= m < ids(k).len() && ids(k)[m] == id;
        assert(k.contains(k[m]));
        assert(r.contains(k[m]));
        let q = choose|q: int| 0 <= q < r.len() && r[q] == k[m];
        assert(ids(r)[q] == id);
    }
}

/// Where Wallpaper Engine's Workshop items lie under a Steam library or
/// download directory.
pub open spec fn workshop_items_dir(base: Seq<char>) -> Seq<char> {
    join(join(join(join(base, "steamapps"@), "workshop"@), "content"@), "431960"@)
}

/// The directories searched in the libraries, in order: each library's
/// Workshop items, then its bundled presets.
pub open spec fn library_roots(libs: Seq<Seq<char>>) -> Seq<Seq<char>>
    decreases libs.len(),
{
    if libs.len() == 0 {
        seq![]
    } else {
        library_roots(libs.drop_last()) + seq![
            workshop_items_dir(libs.last()),
            join(assets_dir(libs.last()), "presets"@),
        ]
    }
}

/// The directories a scan looks in, in order: those of each library, then
/// the Workshop items of the download directory `download_root`.
pub open spec fn scan_roots_of(libs: Seq<Seq<char>>, download_root: Seq<char>) -> Seq<Seq<char>> {
    library_roots(libs).push(workshop_items_dir(download_root))
}

/// The directories a scan of the Steam libraries `libraries` and of the
/// download directory `download_root` looks in, in order (those that do
/// not exist are skipped by the caller).
pub fn scan_roots(libraries: &[String], download_root: &str) -> (r: Vec<String>)
    ensures
        texts(r@) == scan_roots_of(texts(libraries@), download_root@),
{
    let ghost libs = texts(libraries@);
    let mut out: Vec<String> = Vec::new();
    let mut i: usize = 0;
    assert(libs.take(0) == Seq::<Seq<char>>::empty());
    while i < libraries.len()
        invariant
            i <= libraries.len(),
            libs == texts(libraries@),
            texts(out@) == library_roots(libs.take(i as int)),
        decreases libraries.len() - i,
    {
        assert(libs.take(i + 1).drop_last() == libs.take(i as int));
        assert(libs.take(i + 1).last() == libraries@[i as int]@);
        let lib = libraries[i].as_str();
        let a = join_path(lib, "steamapps");
        let b = join_path(a.as_str(), "workshop");
        let c = join_path(b.as_str(), "content");
        let items = join_path(c.as_str(), "431960");
        let assets = wallpaper_engine_assets_candidate(lib);
        let presets = join_path(assets.as_str(), "presets");
        let ghost before = texts(out@);
        out.push(items);
        out.push(presets);
        assert(texts(out@) == before + seq![workshop_items_dir(lib@), join(assets_dir(lib@), "presets"@)]);
        i += 1;
    }
    assert(libs.take(libraries.len() as int) == libs);
    let a = join_path(download_root, "steamapps");
    let b = join_path(a.as_str(), "workshop");
    let c = join_path(b.as_str(), "content");
    let ghost before = texts(out@);
    out.push(join_path(c.as_str(), "431960"));
    assert(texts(out@) == before.push(workshop_items_dir(download_root@)));
    out
}

/// `pkg` in any mix of ASCII case.
pub open spec fn is_pkg_ext(e: Seq<char>) -> bool {
    &&& e.len() == 3
    &&& (e[0] == 'p' || e[0] == 'P')
    &&& (e[1] == 'k' || e[1] == 'K')
    &&& (e[2] == 'g' || e[2] == 'G')
}

/// The bytes a scene package starts with.
pub open spec fn pkg_magic() -> Seq<u8> {
    seq![0x50u8, 0x4Bu8, 0x47u8, 0x56u8]
}

/// Whether the entry at `path` is a scene package: an existing file whose
/// extension is `pkg` in any case, or whose first four bytes (`head`,
/// when the file has four) are `PKGV`.
pub fn is_pkg_file(path: &str, present: bool, is_file: bool, head: Option<&[u8]>) -> (r: bool)
    ensures
        r == (present && is_file && (match extension(path@) {
            Some(e) => is_pkg_ext(e),
            None => false,
        } || match head {
            Some(h) => h@ == pkg_magic(),
            None => false,
        })),
{
    if !present || !is_file {
        return false;
    }
    match extension_of(path) {
        Some(e) => {
            if e.len() == 3 && (e[0] == 'p' || e[0] == 'P') && (e[1] == 'k' || e[1] == 'K') && (e[2] == 'g'
                || e[2] == 'G') {
                return true;
            }
        },
        None => {},
    }
    match head {
        Some(h) => {
            if h.len() == 4 && h[0] == 0x50u8 && h[1] == 0x4Bu8 && h[2] == 0x47u8 && h[3] == 0x56u8 {
                assert(h@ == pkg_magic());
                true
            } else {
                false
            }
        },
        None => false,
    }
}

/// Where Steam may keep its main library below the home directory `home`:
/// the native, the XDG and the Flatpak locations, then one below each
/// Snap revision directory in `snap_dirs`.
pub open spec fn steam_roots_of(home: Seq<char>, snap_dirs: Seq<Seq<char>>) -> Seq<Seq<char>> {
    seq![
        join(join(home, ".steam"@), "steam"@),
        join(join(join(home, ".local"@), "share"@), "Steam"@),
        join(join(join(join(join(home, ".var"@), "app"@), "com.valvesoftware.Steam"@), "data"@), "Steam"@),
    ] + snap_dirs.map_values(|d: Seq<char>| join(join(join(d, ".local"@), "share"@), "Steam"@))
}

/// Where Steam may keep its main library, in order (those that do not
/// exist are skipped by the caller); `snap_dirs` lists the entries of the
/// home directory's `snap/steam`.
pub fn steam_root_candidates(home: &str, snap_dirs: &[String]) -> (r: Vec<String>)
    ensures
        texts(r@) == steam_roots_of(home@, texts(snap_dirs@)),
{
    let mut v: Vec<String> = Vec::new();
    let st = join_path(home, ".steam");
    v.push(join_path(st.as_str(), "steam"));
    let l = join_path(home, ".local");
    let ls = join_path(l.as_str(), "share");
    v.push(join_path(ls.as_str(), "Steam"));
    let a = join_path(home, ".var");
    let b = join_path(a.as_str(), "app");
    let c = join_path(b.as_str(), "com.valvesoftware.Steam");
    let d = join_path(c.as_str(), "data");
    v.push(join_path(d.as_str(), "Steam"));
    let ghost head = texts(v@);
    let ghost sd = texts(snap_dirs@);
    let mut i: usize = 0;
    while i < snap_dirs.len()
        invariant
            i <= snap_dirs.len(),
            sd == texts(snap_dirs@),
            texts(v@) == head + sd.take(i as int).map_values(
                |d: Seq<char>| join(join(join(d, ".local"@), "share"@), "Steam"@),
            ),
        decreases snap_dirs.len() - i,
    {
        let x = join_path(snap_dirs[i].as_str(), ".local");
        let y = join_path(x.as_str(), "share");
        let ghost before = texts(v@);
        v.push(join_path(y.as_str(), "Steam"));
        assert(sd.take(i + 1) == sd.take(i as int).push(sd[i as int]));
        assert(texts(v@) == before.push(join(join(join(sd[i as int], ".local"@), "share"@), "Steam"@)));
        i += 1;
    }
    assert(sd.take(snap_dirs.len() as int) == sd);
    v
}

/// The libraries of the roots in order: each root, then the libraries its
/// `libraryfolders.vdf` lists.
pub open spec fn root_libraries(groups: Seq<(Seq<char>, Seq<Seq<char>>)>) -> Seq<Seq<char>>
    decreases groups.len(),
{
    if groups.len() == 0 {
        seq![]
    } else {
        root_libraries(groups.drop_last()) + seq![groups.last().0] + groups.last().1
    }
}

/// A root with its listed libraries, as texts.
pub open spec fn group_view(g: (String, Vec<String>)) -> (Seq<char>, Seq<Seq<char>>) {
    (g.0@, texts(g.1@))
}

/// The Steam libraries: for each existing root (by its canonical path),
/// the root and then the existing libraries its `libraryfolders.vdf`
/// lists (by their canonical paths), each kept the first time it comes.
pub fn resolve_steam_library_paths(groups: &Vec<(String, Vec<String>)>) -> (r: Vec<String>)
    ensures
        texts(r@) == crate::daemon::first_paths(root_libraries(groups@.map_values(|g: (String, Vec<String>)| group_view(g)))),
{
    let ghost gv = groups@.map_values(|g: (String, Vec<String>)| group_view(g));
    let mut all: Vec<String> = Vec::new();
    let mut i: usize = 0;
    assert(gv.take(0) == Seq::<(Seq<char>, Seq<Seq<char>>)>::empty());
    while i < groups.len()
        invariant
            i <= groups.len(),
            gv == groups@.map_values(|g: (String, Vec<String>)| group_view(g)),
            texts(all@) == root_libraries(gv.take(i as int)),
        decreases groups.len() - i,
    {
        assert(gv.take(i + 1).drop_last() == gv.take(i as int));
        assert(gv.take(i + 1).last() == group_view(groups@[i as int]));
        let ghost start = texts(all@);
        all.push(groups[i].0.clone());
        let libs = &groups[i].1;
        let mut j: usize = 0;
        while j < libs.len()
            invariant
                j <= libs.len(),
                texts(all@) == start + seq![groups@[i as int].0@] + texts(libs@).take(j as int),
            decreases libs.len() - j,
        {
            let ghost before = texts(all@);
            all.push(libs[j].clone());
            assert(texts(libs@).take(j + 1) == texts(libs@).take(j as int).push(libs@[j as int]@));
            assert(texts(all@) == before.push(libs@[j as int]@));
            j += 1;
        }
        assert(texts(libs@).take(libs.len() as int) == texts(libs@));
        i += 1;
    }
    assert(gv.take(groups.len() as int) == gv);
    crate::daemon::keep_first(&all)
}

} // verus!
