//! Settings records of the engine and the text it derives from them:
//! bookmark titles, the built-in bookmark list, decoder choices, the
//! lock-screen configuration and the Lua rendering of the settings.
use vstd::prelude::*;
use crate::text::{char_to_uppercase, chars_of, decimal, decimal_string, eq_str, lowercase, push_char, replace_all, replace_all_chars, string_of, to_lowercase, trim, trim_chars, uppercase_char};
use crate::paths::{extension, extension_of};
use crate::text::{contains, contains_str, find, find_chars, slice_of, starts_with};
use crate::steam_workshop::eq_chars;

verus! {

broadcast use vstd::string::group_string_axioms;

/// A saved web wallpaper.
#[derive(Debug, Clone, PartialEq)]
pub struct WebBookmark {
    pub title: String,
    pub url: String,
    pub category: String,
    pub is_demo: bool,
}

impl GpuInfo {
    /// A field-by-field copy.
    pub fn duplicate(&self) -> (r: Self)
        ensures
            r == *self,
    {
        GpuInfo {
            name: self.name.clone(),
            vendor: self.vendor.clone(),
            device_path: match &self.device_path {
                Some(p) => Some(p.clone()),
                None => None,
            },
            is_primary: self.is_primary,
        }
    }
}

impl WebBookmark {
    /// A field-by-field copy.
    pub fn duplicate(&self) -> (r: Self)
        ensures
            r == *self,
    {
        WebBookmark {
            title: self.title.clone(),
            url: self.url.clone(),
            category: self.category.clone(),
            is_demo: self.is_demo,
        }
    }
}

/// The text fields of a bookmark, with its flag.
pub open spec fn bookmark_view(b: WebBookmark) -> (Seq<char>, Seq<char>, Seq<char>, bool) {
    (b.title@, b.url@, b.category@, b.is_demo)
}

/// Characters dropped from the front of a file stem before it becomes a
/// title: ASCII digits, `-` and `_`.
pub open spec fn is_title_junk(c: char) -> bool {
    ('0' <= c && c <= '9') || c == '-' || c == '_'
}

/// Word separators of a file stem.
pub open spec fn is_title_sep(c: char) -> bool {
    c == '-' || c == '_'
}

/// `s` without its leading junk characters.
pub open spec fn skip_junk(s: Seq<char>) -> Seq<char>
    decreases s.len(),
{
    if s.len() > 0 && is_title_junk(s[0]) {
        skip_junk(s.skip(1))
    } else {
        s
    }
}

/// The non-empty pieces of `s` between separators, `cur` being the piece
/// already begun.
pub open spec fn title_words_from(s: Seq<char>, cur: Seq<char>) -> Seq<Seq<char>>
    decreases s.len(),
{
    let done: Seq<Seq<char>> = if cur.len() > 0 { seq![cur] } else { seq![] };
    if s.len() == 0 {
        done
    } else if is_title_sep(s[0]) {
        done + title_words_from(s.skip(1), seq![])
    } else {
        title_words_from(s.skip(1), cur.push(s[0]))
    }
}

/// The words of a stem: its non-empty pieces between `-` and `_`.
pub open spec fn title_words(s: Seq<char>) -> Seq<Seq<char>> {
    title_words_from(s, seq![])
}

/// A word with its first character upper-cased.
pub open spec fn cap_word(w: Seq<char>) -> Seq<char> {
    uppercase_char(w[0]) + w.skip(1)
}

/// The words joined by single spaces.
pub open spec fn join_words(ws: Seq<Seq<char>>) -> Seq<char>
    decreases ws.len(),
{
    if ws.len() == 0 {
        seq![]
    } else if ws.len() == 1 {
        ws[0]
    } else {
        join_words(ws.drop_last()) + seq![' '] + ws.last()
    }
}

/// A word with its first character upper-cased as ASCII.
pub open spec fn ascii_cap_word(w: Seq<char>) -> Seq<char> {
    seq![crate::text::ascii_upper(w[0])] + w.skip(1)
}

/// `humanize` on ASCII text, each word's first letter upper-cased as
/// ASCII.
pub open spec fn humanize_ascii(stem: Seq<char>) -> Seq<char> {
    let clean = skip_junk(stem);
    let target = if clean.len() == 0 { stem } else { clean };
    join_words(title_words(target).map_values(|w: Seq<char>| ascii_cap_word(w)))
}

/// The title made from a file stem: leading digits, `-` and `_` dropped
/// (unless nothing would be left), then each word capitalised and the
/// words joined by spaces.
pub open spec fn humanize(stem: Seq<char>) -> Seq<char> {
    let clean = skip_junk(stem);
    let target = if clean.len() == 0 { stem } else { clean };
    join_words(title_words(target).map_values(|w: Seq<char>| cap_word(w)))
}

proof fn lemma_join_push(ws: Seq<Seq<char>>, x: Seq<char>)
    ensures
        join_words(ws.push(x)) == if ws.len() == 0 { x } else { join_words(ws) + seq![' '] + x },
{
    assert(ws.push(x).drop_last() == ws);
}

/// The word with its first character upper-cased.
fn cap_word_string(cur: &[char]) -> (word: String)
    requires
        cur.len() > 0,
    ensures
        word@ == cap_word(cur@),
        (cur@[0] as u32) < 128 ==> word@ == ascii_cap_word(cur@),
{
    let up = char_to_uppercase(cur[0]);
    let mut word = String::new();
    word.append(up.as_str());
    let mut j: usize = 1;
    while j < cur.len()
        invariant
            1 <= j <= cur.len(),
            word@ == uppercase_char(cur@[0]) + cur@.subrange(1, j as int),
        decreases cur.len() - j,
    {
        push_char(&mut word, cur[j]);
        j += 1;
        assert(word@ == uppercase_char(cur@[0]) + cur@.subrange(1, j as int));
    }
    assert(cur@.subrange(1, cur.len() as int) == cur@.skip(1));
    word
}

/// Appends the capitalised word `cur` to `out`, space-separated.
fn push_title_word(out: &mut String, any: &mut bool, cur: &[char], Ghost(done): Ghost<Seq<Seq<char>>>, Ghost(asc): Ghost<bool>)
    requires
        cur.len() > 0,
        old(out)@ == join_words(done.map_values(|w: Seq<char>| cap_word(w))),
        asc ==> old(out)@ == join_words(done.map_values(|w: Seq<char>| ascii_cap_word(w))),
        asc ==> crate::text::all_ascii(cur@),
        *old(any) == (done.len() > 0),
    ensures
        final(out)@ == join_words(done.push(cur@).map_values(|w: Seq<char>| cap_word(w))),
        asc ==> final(out)@ == join_words(done.push(cur@).map_values(|w: Seq<char>| ascii_cap_word(w))),
        *final(any),
{
    proof {
        if asc {
            assert((cur@[0] as u32) < 128);
        }
    }
    let word = cap_word_string(cur);
    proof {
        let m = done.map_values(|w: Seq<char>| cap_word(w));
        lemma_join_push(m, cap_word(cur@));
        assert(done.push(cur@).map_values(|w: Seq<char>| cap_word(w)) == m.push(cap_word(cur@)));
        assert(m.len() == done.len());
        let ma = done.map_values(|w: Seq<char>| ascii_cap_word(w));
        lemma_join_push(ma, ascii_cap_word(cur@));
        assert(done.push(cur@).map_values(|w: Seq<char>| ascii_cap_word(w)) == ma.push(ascii_cap_word(cur@)));
        assert(ma.len() == done.len());
        reveal_strlit(" ");
    }
    if *any {
        out.append(" ");
    }
    *any = true;
    out.append(word.as_str());
}

/// Turns a file stem into a display title.
pub fn humanize_title(stem: &str) -> (r: String)
    ensures
        r@ == humanize(stem@),
        crate::text::all_ascii(stem@) ==> r@ == humanize_ascii(stem@),
{
    let ghost asc = crate::text::all_ascii(stem@);
    let s = chars_of(stem);
    let mut k: usize = 0;
    assert(s@.skip(0) == s@);
    while k < s.len() && (('0' <= s[k] && s[k] <= '9') || s[k] == '-' || s[k] == '_')
        invariant
            k <= s.len(),
            skip_junk(s@) == skip_junk(s@.skip(k as int)),
        decreases s.len() - k,
    {
        assert(s@.skip(k as int).skip(1) == s@.skip(k as int + 1));
        k += 1;
    }
    let start: usize = if k == s.len() { 0 } else { k };
    let ghost target = s@.skip(start as int);
    assert(target == if skip_junk(s@).len() == 0 { s@ } else { skip_junk(s@) });
    let ghost mut done: Seq<Seq<char>> = seq![];
    let mut cur: Vec<char> = Vec::new();
    let mut out = String::new();
    let mut any = false;
    let mut i = start;
    while i < s.len()
        invariant
            start <= i <= s.len(),
            target == s@.skip(start as int),
            title_words(target) == done + title_words_from(s@.skip(i as int), cur@),
            out@ == join_words(done.map_values(|w: Seq<char>| cap_word(w))),
            asc == crate::text::all_ascii(s@),
            asc ==> out@ == join_words(done.map_values(|w: Seq<char>| ascii_cap_word(w))),
            asc ==> crate::text::all_ascii(cur@),
            any == (done.len() > 0),
        decreases s.len() - i,
    {
        assert(s@.skip(i as int).skip(1) == s@.skip(i as int + 1));
        if s[i] == '-' || s[i] == '_' {
            if cur.len() > 0 {
                push_title_word(&mut out, &mut any, cur.as_slice(), Ghost(done), Ghost(asc));
                proof {
                    done = done.push(cur@);
                }
            }
            cur = Vec::new();
        } else {
            cur.push(s[i]);
        }
        i += 1;
    }
    if cur.len() > 0 {
        push_title_word(&mut out, &mut any, cur.as_slice(), Ghost(done), Ghost(asc));
        proof {
            done = done.push(cur@);
        }
    }
    assert(title_words(target) == done);
    out
}

/// Reserved words of Lua 5.4.
pub open spec fn is_lua_keyword(s: Seq<char>) -> bool {
    s == "and"@ || s == "break"@ || s == "do"@ || s == "else"@ || s == "elseif"@ || s == "end"@
        || s == "false"@ || s == "for"@ || s == "function"@ || s == "goto"@ || s == "if"@
        || s == "in"@ || s == "local"@ || s == "nil"@ || s == "not"@ || s == "or"@
        || s == "repeat"@ || s == "return"@ || s == "then"@ || s == "true"@ || s == "until"@
        || s == "while"@
}

pub open spec fn is_ascii_alpha(c: char) -> bool {
    ('a' <= c && c <= 'z') || ('A' <= c && c <= 'Z')
}

pub open spec fn is_ascii_alnum(c: char) -> bool {
    is_ascii_alpha(c) || ('0' <= c && c <= '9')
}

/// A name that Lua accepts as a bare table key: not a keyword, not empty,
/// a letter or `_` first, then letters, digits and `_`.
pub open spec fn lua_identifier(s: Seq<char>) -> bool {
    &&& !is_lua_keyword(s)
    &&& s.len() > 0
    &&& (is_ascii_alpha(s[0]) || s[0] == '_')
    &&& forall|i: int| 1 <= i < s.len() ==> (is_ascii_alnum(#[trigger] s[i]) || s[i] == '_')
}

fn lua_keyword(s: &[char]) -> (r: bool)
    ensures
        r == is_lua_keyword(s@),
{
    eq_str(s, "and") || eq_str(s, "break") || eq_str(s, "do") || eq_str(s, "else") || eq_str(
        s,
        "elseif",
    ) || eq_str(s, "end") || eq_str(s, "false") || eq_str(s, "for") || eq_str(s, "function")
        || eq_str(s, "goto") || eq_str(s, "if") || eq_str(s, "in") || eq_str(s, "local")
        || eq_str(s, "nil") || eq_str(s, "not") || eq_str(s, "or") || eq_str(s, "repeat")
        || eq_str(s, "return") || eq_str(s, "then") || eq_str(s, "true") || eq_str(s, "until")
        || eq_str(s, "while")
}

/// Whether `s` can stand as a bare key in a Lua table constructor.
pub fn is_valid_lua_identifier(s: &str) -> (r: bool)
    ensures
        r == lua_identifier(s@),
{
    let c = chars_of(s);
    if lua_keyword(c.as_slice()) || c.len() == 0 {
        return false;
    }
    let first = c[0];
    if !(('a' <= first && first <= 'z') || ('A' <= first && first <= 'Z')) && first != '_' {
        return false;
    }
    let mut i: usize = 1;
    while i < c.len()
        invariant
            1 <= i <= c.len(),
            c@ == s@,
            forall|j: int| 1 <= j < i ==> (is_ascii_alnum(#[trigger] c@[j]) || c@[j] == '_'),
        decreases c.len() - i,
    {
        let ch = c[i];
        if !(('a' <= ch && ch <= 'z') || ('A' <= ch && ch <= 'Z') || ('0' <= ch && ch <= '9'))
            && ch != '_' {
            return false;
        }
        i += 1;
    }
    true
}

/// A bookmark with the given texts, shipped with the program.
fn demo_bookmark(title: &str, url: &str, category: &str) -> (b: WebBookmark)
    ensures
        bookmark_view(b) == (title@, url@, category@, true),
{
    WebBookmark {
        title: title.to_string(),
        url: url.to_string(),
        category: category.to_string(),
        is_demo: true,
    }
}

/// The bookmarks shipped with the program, used when no web asset was
/// found on disk.
pub open spec fn builtin_bookmarks() -> Seq<(Seq<char>, Seq<char>, Seq<char>, bool)> {
    seq![
        ("Desktop HUD (System Telemetry & Weather)"@, "assets/widgets/desktop_hud.html"@, "Desktop Widgets"@, true),
        ("Wifi & Bluetooth Status Pill"@, "assets/widgets/wifi_bluetooth_pill.html"@, "Desktop Widgets"@, true),
        ("Minimal Clock & System Stats"@, "assets/widgets/minimal_clock_stats.html"@, "Desktop Widgets"@, true),
        ("WebGL Fluid Simulation (Navier-Stokes)"@, "assets/web_wallpapers/01-fluid-particles/webgl_fluid_simulation.html"@, "Fluid & Particles"@, true),
        ("tsParticles Constellation Network"@, "assets/web_wallpapers/01-fluid-particles/tsparticles_constellation.html"@, "Fluid & Particles"@, true),
        ("FieldPlay Vector Flow Field"@, "assets/web_wallpapers/01-fluid-particles/fieldplay_vector_flow.html"@, "Fluid & Particles"@, true),
        ("Particle Image Dispersion"@, "assets/web_wallpapers/01-fluid-particles/particle_image_dispersion.html"@, "Fluid & Particles"@, true),
        ("Vanta 3D Waves & Topology"@, "assets/web_wallpapers/02-3d-procedural/vanta_waves_topology.html"@, "3D Procedural"@, true),
        ("Three.js PathTracing Glass Refraction"@, "assets/web_wallpapers/02-3d-procedural/pathtracing_glass_refraction.html"@, "3D Procedural"@, true),
        ("3D Point Cloud Sculpture"@, "assets/web_wallpapers/02-3d-procedural/point_cloud_3d_sculpture.html"@, "3D Procedural"@, true),
        ("Three.js Ocean & Glitch Visualizer"@, "assets/web_wallpapers/02-3d-procedural/threejs_ocean_glitch_visualizer.html"@, "3D Procedural"@, true),
        ("Rezmason 3D Matrix Digital Rain"@, "assets/web_wallpapers/03-retro-cyberpunk/rezmason_matrix_3d.html"@, "Retro & Cyberpunk"@, true),
        ("80s Retro Grid Synthwave Outrun"@, "assets/web_wallpapers/03-retro-cyberpunk/retro_grid_synthwave.html"@, "Retro & Cyberpunk"@, true),
        ("v86 Retro OS Canvas Terminal"@, "assets/web_wallpapers/03-retro-cyberpunk/v86_os_canvas_terminal.html"@, "Retro & Cyberpunk"@, true),
        ("25th Hour Dynamic Day/Night Landscape"@, "assets/web_wallpapers/04-astronomy-clocks/twenty_fifth_hour_daynight.html"@, "Astronomy & Clocks"@, true),
        ("Astronomical Star Chart & Sky"@, "assets/web_wallpapers/04-astronomy-clocks/astronomy_canvas_stars.html"@, "Astronomy & Clocks"@, true),
        ("Orbital Minimalist Chrono Clock"@, "assets/web_wallpapers/04-astronomy-clocks/orbital_minimal_clock.html"@, "Astronomy & Clocks"@, true),
        ("GL Audio Spectrum GPU Analyzer"@, "assets/web_wallpapers/05-audio-shaders/gl_audio_spectrum_analyzer.html"@, "Audio & Shaders"@, true),
        ("Circular Waveform Audio Visualizer"@, "assets/web_wallpapers/05-audio-shaders/circular_waveform_audiovisualizer.html"@, "Audio & Shaders"@, true),
        ("glslCanvas Live GLSL Shader Engine"@, "assets/web_wallpapers/05-audio-shaders/glsl_canvas_live_shader.html"@, "Audio & Shaders"@, true),
        ("Three.js Postprocessing Bloom & Depth"@, "assets/web_wallpapers/05-audio-shaders/threejs_postprocessing_bloom.html"@, "Audio & Shaders"@, true),
    ]
}

/// The bookmarks offered by default: those found among the installed web
/// assets (`scanned`), or the built-in list when none was found.
pub fn default_web_bookmarks(scanned: Vec<WebBookmark>) -> (r: Vec<WebBookmark>)
    ensures
        scanned.len() > 0 ==> r@ == scanned@,
        scanned.len() == 0 ==> r@.map_values(|b: WebBookmark| bookmark_view(b)) == builtin_bookmarks(),
        r@.map_values(|b: WebBookmark| bookmark_view(b)) == default_bookmarks_of(
            scanned@.map_values(|b: WebBookmark| bookmark_view(b)),
        ),
{
    if scanned.len() > 0 {
        return scanned;
    }
    let mut v: Vec<WebBookmark> = Vec::new();
    v.push(demo_bookmark("Desktop HUD (System Telemetry & Weather)", "assets/widgets/desktop_hud.html", "Desktop Widgets"));
    v.push(demo_bookmark("Wifi & Bluetooth Status Pill", "assets/widgets/wifi_bluetooth_pill.html", "Desktop Widgets"));
    v.push(demo_bookmark("Minimal Clock & System Stats", "assets/widgets/minimal_clock_stats.html", "Desktop Widgets"));
    v.push(demo_bookmark("WebGL Fluid Simulation (Navier-Stokes)", "assets/web_wallpapers/01-fluid-particles/webgl_fluid_simulation.html", "Fluid & Particles"));
    v.push(demo_bookmark("tsParticles Constellation Network", "assets/web_wallpapers/01-fluid-particles/tsparticles_constellation.html", "Fluid & Particles"));
    v.push(demo_bookmark("FieldPlay Vector Flow Field", "assets/web_wallpapers/01-fluid-particles/fieldplay_vector_flow.html", "Fluid & Particles"));
    v.push(demo_bookmark("Particle Image Dispersion", "assets/web_wallpapers/01-fluid-particles/particle_image_dispersion.html", "Fluid & Particles"));
    v.push(demo_bookmark("Vanta 3D Waves & Topology", "assets/web_wallpapers/02-3d-procedural/vanta_waves_topology.html", "3D Procedural"));
    v.push(demo_bookmark("Three.js PathTracing Glass Refraction", "assets/web_wallpapers/02-3d-procedural/pathtracing_glass_refraction.html", "3D Procedural"));
    v.push(demo_bookmark("3D Point Cloud Sculpture", "assets/web_wallpapers/02-3d-procedural/point_cloud_3d_sculpture.html", "3D Procedural"));
    v.push(demo_bookmark("Three.js Ocean & Glitch Visualizer", "assets/web_wallpapers/02-3d-procedural/threejs_ocean_glitch_visualizer.html", "3D Procedural"));
    v.push(demo_bookmark("Rezmason 3D Matrix Digital Rain", "assets/web_wallpapers/03-retro-cyberpunk/rezmason_matrix_3d.html", "Retro & Cyberpunk"));
    v.push(demo_bookmark("80s Retro Grid Synthwave Outrun", "assets/web_wallpapers/03-retro-cyberpunk/retro_grid_synthwave.html", "Retro & Cyberpunk"));
    v.push(demo_bookmark("v86 Retro OS Canvas Terminal", "assets/web_wallpapers/03-retro-cyberpunk/v86_os_canvas_terminal.html", "Retro & Cyberpunk"));
    v.push(demo_bookmark("25th Hour Dynamic Day/Night Landscape", "assets/web_wallpapers/04-astronomy-clocks/twenty_fifth_hour_daynight.html", "Astronomy & Clocks"));
    v.push(demo_bookmark("Astronomical Star Chart & Sky", "assets/web_wallpapers/04-astronomy-clocks/astronomy_canvas_stars.html", "Astronomy & Clocks"));
    v.push(demo_bookmark("Orbital Minimalist Chrono Clock", "assets/web_wallpapers/04-astronomy-clocks/orbital_minimal_clock.html", "Astronomy & Clocks"));
    v.push(demo_bookmark("GL Audio Spectrum GPU Analyzer", "assets/web_wallpapers/05-audio-shaders/gl_audio_spectrum_analyzer.html", "Audio & Shaders"));
    v.push(demo_bookmark("Circular Waveform Audio Visualizer", "assets/web_wallpapers/05-audio-shaders/circular_waveform_audiovisualizer.html", "Audio & Shaders"));
    v.push(demo_bookmark("glslCanvas Live GLSL Shader Engine", "assets/web_wallpapers/05-audio-shaders/glsl_canvas_live_shader.html", "Audio & Shaders"));
    v.push(demo_bookmark("Three.js Postprocessing Bloom & Depth", "assets/web_wallpapers/05-audio-shaders/threejs_postprocessing_bloom.html", "Audio & Shaders"));
    assert(v@.map_values(|b: WebBookmark| bookmark_view(b)) =~= builtin_bookmarks());
    v
}

/// A graphics adapter as the system reports it.
#[derive(Debug, Clone, PartialEq)]
pub struct GpuInfo {
    pub name: String,
    pub vendor: String,
    pub device_path: Option<String>,
    pub is_primary: bool,
}

/// Whether one of `gpus` has the vendor `v`.
pub open spec fn has_vendor(gpus: Seq<GpuInfo>, v: Seq<char>) -> bool {
    exists|i: int| 0 <= i < gpus.len() && (#[trigger] gpus[i]).vendor@ == v
}

pub(crate) fn any_vendor(gpus: &[GpuInfo], v: &str) -> (r: bool)
    ensures
        r == has_vendor(gpus@, v@),
{
    let mut i: usize = 0;
    while i < gpus.len()
        invariant
            i <= gpus.len(),
            forall|j: int| 0 <= j < i ==> (#[trigger] gpus@[j]).vendor@ != v@,
        decreases gpus.len() - i,
    {
        let vc = chars_of(gpus[i].vendor.as_str());
        if eq_str(vc.as_slice(), v) {
            assert(gpus@[i as int].vendor@ == v@);
            return true;
        }
        i += 1;
    }
    false
}

/// The decoder choices offered, as (value, label, description): automatic
/// first, the NVIDIA decoders when an NVIDIA adapter is present, VA-API
/// when an Intel or AMD one is, Vulkan when its loader is installed, and
/// software decoding last.
pub open spec fn hwdec_choices(nvidia: bool, intel_amd: bool, vulkan: bool) -> Seq<
    (Seq<char>, Seq<char>, Seq<char>),
> {
    let auto: Seq<(Seq<char>, Seq<char>, Seq<char>)> = seq![("auto"@, "⚡ Auto-Detect GPU (Recommended)"@, "Automatic hardware acceleration detection"@)];
    let nv: Seq<(Seq<char>, Seq<char>, Seq<char>)> = if nvidia {
        seq![
            ("nvdec"@, "💚 NVIDIA NVDEC"@, "NVIDIA NVDEC Hardware Video Decoder"@),
            ("cuda"@, "⚡ NVIDIA CUDA Acceleration"@, "NVIDIA CUDA Hardware Video Acceleration"@),
        ]
    } else {
        seq![]
    };
    let va: Seq<(Seq<char>, Seq<char>, Seq<char>)> = if intel_amd {
        seq![("vaapi"@, "🔷 VA-API (Intel / AMD GPU)"@, "Linux VA-API Hardware Video Acceleration"@)]
    } else {
        seq![]
    };
    let vk: Seq<(Seq<char>, Seq<char>, Seq<char>)> = if vulkan {
        seq![("vulkan"@, "🌋 Vulkan Video"@, "Modern Vulkan Hardware Video Decoder"@)]
    } else {
        seq![]
    };
    auto + nv + va + vk + seq![("no"@, "⚙️ CPU (Software Only)"@, "Software video decoding using CPU cores"@)]
}

pub open spec fn option_view(o: (&str, &str, &str)) -> (Seq<char>, Seq<char>, Seq<char>) {
    (o.0@, o.1@, o.2@)
}

/// The hardware decoders worth offering, given the detected adapters and
/// whether an NVIDIA device node, a DRM render node and a Vulkan loader
/// were found on the system.
pub fn get_available_hwdec_options(
    gpus: &[GpuInfo],
    nvidia_device: bool,
    render_node: bool,
    vulkan_loader: bool,
) -> (r: Vec<(&'static str, &'static str, &'static str)>)
    ensures
        r@.map_values(|o: (&str, &str, &str)| option_view(o)) == hwdec_choices(
            has_vendor(gpus@, "NVIDIA"@) || nvidia_device,
            has_vendor(gpus@, "Intel"@) || has_vendor(gpus@, "AMD"@) || render_node,
            vulkan_loader,
        ),
{
    let has_nvidia = any_vendor(gpus, "NVIDIA") || nvidia_device;
    let has_intel_amd = any_vendor(gpus, "Intel") || any_vendor(gpus, "AMD") || render_node;
    let mut options: Vec<(&'static str, &'static str, &'static str)> = Vec::new();
    options.push(("auto", "⚡ Auto-Detect GPU (Recommended)", "Automatic hardware acceleration detection"));
    let ghost base = options@;
    if has_nvidia {
        options.push(("nvdec", "💚 NVIDIA NVDEC", "NVIDIA NVDEC Hardware Video Decoder"));
        options.push(("cuda", "⚡ NVIDIA CUDA Acceleration", "NVIDIA CUDA Hardware Video Acceleration"));
    }
    let ghost after_nv = options@;
    if has_intel_amd {
        options.push(("vaapi", "🔷 VA-API (Intel / AMD GPU)", "Linux VA-API Hardware Video Acceleration"));
    }
    let ghost after_va = options@;
    if vulkan_loader {
        options.push(("vulkan", "🌋 Vulkan Video", "Modern Vulkan Hardware Video Decoder"));
    }
    options.push(("no", "⚙️ CPU (Software Only)", "Software video decoding using CPU cores"));
    assert(options@.map_values(|o: (&str, &str, &str)| option_view(o)) =~= hwdec_choices(
        has_nvidia,
        has_intel_amd,
        vulkan_loader,
    ));
    options
}

/// Settings of the lock screen that the engine writes for hyprlock.
#[derive(Debug, Clone, PartialEq)]
pub struct HyprlockConfig {
    pub enabled: bool,
    pub background_path: String,
    pub screensaver_mode: String,
    pub asset_path: String,
    pub gradient_color: String,
    pub blur_passes: u32,
    pub blur_size: u32,
    pub clock_color: String,
    pub clock_size: u32,
    pub text_color: String,
    pub welcome_message: String,
    pub input_field_ring: String,
    pub input_field_fill: String,
    pub grace_period: u32,
}

/// The lock-screen settings of a fresh install.
pub open spec fn hyprlock_defaults(r: HyprlockConfig) -> bool {
    &&& r.enabled
    &&& r.background_path@ == Seq::<char>::empty()
    &&& r.screensaver_mode@ == "active"@
    &&& r.asset_path@ == Seq::<char>::empty()
    &&& r.gradient_color@ == "#121826"@
    &&& r.blur_passes == 2
    &&& r.blur_size == 7
    &&& r.clock_color@ == "#00f0ff"@
    &&& r.clock_size == 72
    &&& r.text_color@ == "#ffffff"@
    &&& r.welcome_message@ == "Welcome back, $USER!"@
    &&& r.input_field_ring@ == "#00f0ff"@
    &&& r.input_field_fill@ == "#0b0d14"@
    &&& r.grace_period == 0
}

impl Default for HyprlockConfig {
    fn default() -> (r: Self)
        ensures
            hyprlock_defaults(r),
    {
        HyprlockConfig {
            enabled: true,
            background_path: String::new(),
            screensaver_mode: "active".to_string(),
            asset_path: String::new(),
            gradient_color: "#121826".to_string(),
            blur_passes: 2,
            blur_size: 7,
            clock_color: "#00f0ff".to_string(),
            clock_size: 72,
            text_color: "#ffffff".to_string(),
            welcome_message: "Welcome back, $USER!".to_string(),
            input_field_ring: "#00f0ff".to_string(),
            input_field_fill: "#0b0d14".to_string(),
            grace_period: 0,
        }
    }
}

/// Per-wallpaper playback settings that override the global ones; `None`
/// leaves the global setting in force.
#[derive(Debug, Clone, PartialEq)]
pub struct WallpaperOverrides {
    pub volume: Option<i64>,
    pub silent: Option<bool>,
    pub scaling: Option<String>,
    pub fps: Option<u32>,
    pub disable_mouse: Option<bool>,
    pub disable_parallax: Option<bool>,
    pub disable_particles: Option<bool>,
    pub clamp: Option<String>,
    pub layer: Option<String>,
    pub no_automute: Option<bool>,
    pub no_audio_processing: Option<bool>,
    pub no_fullscreen_pause: Option<bool>,
    pub fullscreen_pause_only_active: Option<bool>,
    pub screenshot: Option<String>,
    /// Property name and value pairs handed to the scene renderer.
    pub custom_properties: Vec<(String, String)>,
}

impl Default for WallpaperOverrides {
    fn default() -> (r: Self)
        ensures
            r.volume is None && r.silent is None && r.scaling is None && r.fps is None,
            r.disable_mouse is None && r.disable_parallax is None && r.disable_particles is None,
            r.clamp is None && r.layer is None && r.no_automute is None,
            r.no_audio_processing is None && r.no_fullscreen_pause is None,
            r.fullscreen_pause_only_active is None && r.screenshot is None,
            r.custom_properties@.len() == 0,
    {
        WallpaperOverrides {
            volume: None,
            silent: None,
            scaling: None,
            fps: None,
            disable_mouse: None,
            disable_parallax: None,
            disable_particles: None,
            clamp: None,
            layer: None,
            no_automute: None,
            no_audio_processing: None,
            no_fullscreen_pause: None,
            fullscreen_pause_only_active: None,
            screenshot: None,
            custom_properties: Vec::new(),
        }
    }
}

/// Position of the first bookmark of `list` whose address is `url`, or
/// the length of `list` when there is none.
pub open spec fn url_pos(list: Seq<WebBookmark>, url: Seq<char>) -> int
    decreases list.len(),
{
    if list.len() == 0 {
        0
    } else {
        let p = url_pos(list.drop_last(), url);
        if p < list.len() - 1 {
            p
        } else if list.last().url@ == url {
            list.len() - 1
        } else {
            list.len() as int
        }
    }
}

proof fn lemma_url_pos(list: Seq<WebBookmark>, url: Seq<char>, i: int)
    requires
        0 <= i <= list.len(),
        forall|j: int| 0 <= j < i ==> (#[trigger] list[j]).url@ != url,
        i < list.len() ==> list[i].url@ == url,
    ensures
        url_pos(list, url) == i,
    decreases list.len(),
{
    if list.len() > 0 {
        let d = list.drop_last();
        if i == list.len() {
            lemma_url_pos(d, url, i - 1);
        } else {
            lemma_url_pos(d, url, if i < list.len() - 1 { i } else { list.len() - 1 });
        }
    }
}

/// `new` is `old` with the bookmark `b` saved: it replaces the first one
/// with the same address, or is appended when there is none.
pub open spec fn bookmark_added(
    old: Seq<WebBookmark>,
    new: Seq<WebBookmark>,
    b: (Seq<char>, Seq<char>, Seq<char>, bool),
) -> bool {
    let p = url_pos(old, b.1);
    if p < old.len() {
        &&& new.len() == old.len()
        &&& bookmark_view(new[p]) == b
        &&& forall|j: int| 0 <= j < old.len() && j != p ==> new[j] == old[j]
    } else {
        &&& new.drop_last() == old
        &&& new.len() == old.len() + 1
        &&& bookmark_view(new.last()) == b
    }
}

proof fn lemma_url_pos_props(list: Seq<WebBookmark>, url: Seq<char>)
    ensures
        0 <= url_pos(list, url) <= list.len(),
        forall|j: int| 0 <= j < url_pos(list, url) ==> (#[trigger] list[j]).url@ != url,
        url_pos(list, url) < list.len() ==> list[url_pos(list, url)].url@ == url,
    decreases list.len(),
{
    if list.len() > 0 {
        let d = list.drop_last();
        lemma_url_pos_props(d, url);
        assert forall|j: int| 0 <= j < url_pos(list, url) implies (#[trigger] list[j]).url@ != url by {
            assert(list[j] == d[j] || j == list.len() - 1);
        }
    }
}

/// Saving the same bookmark twice gives what saving it once gave.
pub proof fn law_add_bookmark_idempotent(
    l0: Seq<WebBookmark>,
    l1: Seq<WebBookmark>,
    l2: Seq<WebBookmark>,
    b: (Seq<char>, Seq<char>, Seq<char>, bool),
)
    requires
        bookmark_added(l0, l1, b),
        bookmark_added(l1, l2, b),
    ensures
        l2.map_values(|x: WebBookmark| bookmark_view(x)) == l1.map_values(|x: WebBookmark| bookmark_view(x)),
{
    let url = b.1;
    lemma_url_pos_props(l0, url);
    let p = url_pos(l0, url);
    if p < l0.len() {
        assert forall|j: int| 0 <= j < p implies (#[trigger] l1[j]).url@ != url by {
            assert(l1[j] == l0[j]);
        }
        lemma_url_pos(l1, url, p);
    } else {
        assert forall|j: int| 0 <= j < l0.len() implies (#[trigger] l1[j]).url@ != url by {
            assert(l1[j] == l1.drop_last()[j]);
        }
        lemma_url_pos(l1, url, l0.len() as int);
    }
    assert(l2.map_values(|x: WebBookmark| bookmark_view(x)) =~= l1.map_values(|x: WebBookmark| bookmark_view(x)));
}

/// After removing `url`, no bookmark left has that address.
pub proof fn law_removed_absent(list: Seq<WebBookmark>, resolved: Seq<String>, url: Seq<char>, resolved_url: Seq<char>)
    requires
        resolved.len() == list.len(),
    ensures
        forall|i: int| 0 <= i < kept_bookmarks(list, resolved, url, resolved_url).len()
            ==> (#[trigger] kept_bookmarks(list, resolved, url, resolved_url)[i]).url@ != url,
    decreases list.len(),
{
    if list.len() > 0 {
        law_removed_absent(list.drop_last(), resolved.drop_last(), url, resolved_url);
        let k = kept_bookmarks(list.drop_last(), resolved.drop_last(), url, resolved_url);
        let r = kept_bookmarks(list, resolved, url, resolved_url);
        assert forall|i: int| 0 <= i < r.len() implies (#[trigger] r[i]).url@ != url by {
            if i < k.len() {
                assert(r[i] == k[i]);
            }
        }
    }
}

/// Saves a bookmark made by the user: it replaces the first one with the
/// same address, or is appended when there is none.
pub fn add_web_bookmark(list: &mut Vec<WebBookmark>, title: String, url: String, category: String)
    ensures
        bookmark_added(old(list)@, final(list)@, (title@, url@, category@, false)),
{
    let uc = chars_of(url.as_str());
    let mut i: usize = 0;
    while i < list.len()
        invariant
            i <= list.len(),
            uc@ == url@,
            list@ == old(list)@,
            forall|j: int| 0 <= j < i ==> (#[trigger] list@[j]).url@ != url@,
        ensures
            i <= list.len(),
            i < list.len() ==> list@[i as int].url@ == url@,
        decreases list.len() - i,
    {
        let bc = chars_of(list[i].url.as_str());
        if eq_chars(bc.as_slice(), uc.as_slice()) {
            break;
        }
        i += 1;
    }
    proof {
        lemma_url_pos(list@, url@, i as int);
    }
    let bookmark = WebBookmark { title, url, category, is_demo: false };
    if i < list.len() {
        list.set(i, bookmark);
    } else {
        list.push(bookmark);
        assert(list@.drop_last() == old(list)@);
    }
}

/// Whether a saved bookmark stays when the user removes `url`: its address
/// differs from `url`, also once both are trimmed, and it does not resolve
/// to the same file (`resolved` and `resolved_url` being the two resolved
/// locations).
pub open spec fn keeps_bookmark(b: WebBookmark, resolved: Seq<char>, url: Seq<char>, resolved_url: Seq<char>) -> bool {
    b.url@ != url && trim(b.url@) != trim(url) && resolved != resolved_url
}

/// The bookmarks of `list` that stay, `resolved[i]` being where the
/// address of `list[i]` resolves to.
pub open spec fn kept_bookmarks(
    list: Seq<WebBookmark>,
    resolved: Seq<String>,
    url: Seq<char>,
    resolved_url: Seq<char>,
) -> Seq<WebBookmark>
    decreases list.len(),
{
    if list.len() == 0 {
        seq![]
    } else {
        let k = kept_bookmarks(list.drop_last(), resolved.drop_last(), url, resolved_url);
        if keeps_bookmark(list.last(), resolved.last()@, url, resolved_url) {
            k.push(list.last())
        } else {
            k
        }
    }
}

/// Removes the bookmarks that designate `url`; `resolved[i]` is where the
/// address of the `i`-th bookmark resolves to on disk and `resolved_url`
/// where `url` does.
pub fn remove_web_bookmark(list: &mut Vec<WebBookmark>, url: &str, resolved_url: &str, resolved: &[String])
    requires
        resolved.len() == old(list).len(),
    ensures
        final(list)@ == kept_bookmarks(old(list)@, resolved@, url@, resolved_url@),
{
    let uc = chars_of(url);
    let ut = trim_chars(uc.as_slice());
    let rc = chars_of(resolved_url);
    let mut kept: Vec<WebBookmark> = Vec::new();
    let mut i: usize = 0;
    while i < list.len()
        invariant
            i <= list.len(),
            list.len() == resolved.len(),
            uc@ == url@,
            ut@ == trim(url@),
            rc@ == resolved_url@,
            list@ == old(list)@,
            kept@ == kept_bookmarks(list@.take(i as int), resolved@.take(i as int), url@, resolved_url@),
        decreases list.len() - i,
    {
        let bc = chars_of(list[i].url.as_str());
        let bt = trim_chars(bc.as_slice());
        let bres = chars_of(resolved[i].as_str());
        let keep = !eq_chars(bc.as_slice(), uc.as_slice()) && !eq_chars(bt.as_slice(), ut.as_slice())
            && !eq_chars(bres.as_slice(), rc.as_slice());
        proof {
            assert(list@.take(i as int + 1).drop_last() == list@.take(i as int));
            assert(resolved@.take(i as int + 1).drop_last() == resolved@.take(i as int));
        }
        if keep {
            kept.push(list[i].duplicate());
        }
        i += 1;
    }
    assert(list@.take(list.len() as int) == list@);
    assert(resolved@.take(resolved.len() as int) == resolved@);
    *list = kept;
}

/// A setting that holds more than white space.
pub open spec fn nonblank(s: Seq<char>) -> bool {
    trim(s).len() > 0
}

/// What the lock screen shows behind its widgets: for the video, web and
/// image modes the chosen asset, else the background image, else the
/// active wallpaper, else a screenshot; for the gradient mode its colour
/// (a default one when blank); for the other modes the background image,
/// else the active wallpaper, else a screenshot.
pub open spec fn lock_background(h: HyprlockConfig, active: Option<Seq<char>>) -> Seq<char> {
    let fallback = match active {
        Some(w) => w,
        None => "screenshot"@,
    };
    let mode = h.screensaver_mode@;
    if mode == "video"@ || mode == "web"@ || mode == "image"@ {
        if nonblank(h.asset_path@) {
            h.asset_path@
        } else if nonblank(h.background_path@) {
            h.background_path@
        } else {
            fallback
        }
    } else if mode == "gradient"@ {
        if nonblank(h.gradient_color@) {
            h.gradient_color@
        } else {
            "#121826"@
        }
    } else if nonblank(h.background_path@) {
        h.background_path@
    } else {
        fallback
    }
}

fn nonblank_str(s: &str) -> (r: bool)
    ensures
        r == nonblank(s@),
{
    let c = chars_of(s);
    trim_chars(c.as_slice()).len() > 0
}

/// The background of the lock screen, before a still image is chosen for
/// an animated one.
pub fn hyprlock_background(h: &HyprlockConfig, active: Option<&str>) -> (r: String)
    ensures
        r@ == lock_background(*h, match active {
            Some(w) => Some(w@),
            None => None,
        }),
{
    let mode = chars_of(h.screensaver_mode.as_str());
    let fallback = match active {
        Some(w) => w.to_string(),
        None => "screenshot".to_string(),
    };
    if eq_str(mode.as_slice(), "video") || eq_str(mode.as_slice(), "web") || eq_str(mode.as_slice(), "image") {
        if nonblank_str(h.asset_path.as_str()) {
            h.asset_path.clone()
        } else if nonblank_str(h.background_path.as_str()) {
            h.background_path.clone()
        } else {
            fallback
        }
    } else if eq_str(mode.as_slice(), "gradient") {
        if nonblank_str(h.gradient_color.as_str()) {
            h.gradient_color.clone()
        } else {
            "#121826".to_string()
        }
    } else if nonblank_str(h.background_path.as_str()) {
        h.background_path.clone()
    } else {
        fallback
    }
}

/// Extensions of animated or scripted wallpapers, which hyprlock cannot
/// show as they are.
pub open spec fn is_animated_ext(e: Seq<char>) -> bool {
    e == "mp4"@ || e == "mkv"@ || e == "webm"@ || e == "avi"@ || e == "mov"@ || e == "gif"@
        || e == "html"@ || e == "htm"@ || e == "js"@
}

/// Whether the lock background `raw` is a file whose extension, lower-cased,
/// is that of an animated wallpaper (neither a screenshot nor a colour).
pub open spec fn needs_still_image(raw: Seq<char>) -> bool {
    let ext = match extension(raw) {
        Some(e) => e,
        None => Seq::<char>::empty(),
    };
    &&& raw != "screenshot"@
    &&& !(raw.len() > 0 && raw[0] == '#')
    &&& is_animated_ext(lowercase(ext))
}

/// Whether a still image must stand in for the lock background `raw`.
pub fn hyprlock_needs_still_image(raw: &str) -> (r: bool)
    ensures
        r == needs_still_image(raw@),
{
    let rc = chars_of(raw);
    if eq_str(rc.as_slice(), "screenshot") || (rc.len() > 0 && rc[0] == '#') {
        return false;
    }
    let ext = match extension_of(raw) {
        Some(e) => string_of(e.as_slice()),
        None => String::new(),
    };
    let low = to_lowercase(ext.as_str());
    let lc = chars_of(low.as_str());
    let l = lc.as_slice();
    eq_str(l, "mp4") || eq_str(l, "mkv") || eq_str(l, "webm") || eq_str(l, "avi") || eq_str(l, "mov")
        || eq_str(l, "gif") || eq_str(l, "html") || eq_str(l, "htm") || eq_str(l, "js")
}

/// The hyprlock configuration text for the given settings, background
/// path and welcome message.
pub open spec fn hyprlock_text(h: HyprlockConfig, bg: Seq<char>, welcome: Seq<char>) -> Seq<char> {
    "# Generated by OMYWALL Wallpaper Engine\nbackground {\nmonitor =\npath = "@ + bg
        + "\nblur_passes = "@ + decimal(h.blur_passes as nat) + "\nblur_size = "@ + decimal(
        h.blur_size as nat,
    )
        + "\nnoise = 0.0117\ncontrast = 0.8916\nbrightness = 0.8172\nvibrancy = 0.1696\nvibrancy_darkness = 0.0\n}\n\n# TIME / CLOCK DISPLAY\nlabel {\nmonitor =\ntext = cmd[update:1000] echo \"$(date +\"%H:%M:%S\")\"\ncolor = "@
        + h.clock_color@ + "\nfont_size = "@ + decimal(h.clock_size as nat)
        + "\nfont_family = Outfit, Inter, sans-serif\nposition = 0, 160\nhalign = center\nvalign = center\nshadow_passes = 2\nshadow_size = 4\n}\n\n# DATE DISPLAY\nlabel {\nmonitor =\ntext = cmd[update:1000] echo \"$(date +\"%A, %B %d, %Y\")\"\ncolor = "@
        + h.text_color@
        + "\nfont_size = 20\nfont_family = Inter, sans-serif\nposition = 0, 80\nhalign = center\nvalign = center\n}\n\n# WELCOME / CUSTOM MESSAGE\nlabel {\nmonitor =\ntext = "@
        + welcome + "\ncolor = "@ + h.text_color@
        + "\nfont_size = 22\nfont_family = Inter, sans-serif\nposition = 0, 20\nhalign = center\nvalign = center\n}\n\n# PASSWORD INPUT FIELD\ninput-field {\nmonitor =\nsize = 260, 50\noutline_thickness = 3\ndots_size = 0.33\ndots_spacing = 0.15\ndots_center = true\nouter_color = "@
        + h.input_field_ring@ + "\ninner_color = "@ + h.input_field_fill@ + "\nfont_color = "@
        + h.text_color@
        + "\nfade_on_empty = false\nplaceholder_text = <i>Input Password...</i>\nhide_input = false\nposition = 0, -80\nhalign = center\nvalign = center\n}\n"@
}

/// The hyprlock configuration for the settings `h`, the background file
/// `bg_path` and the login name `user_name`, which stands in for `$USER`
/// in the welcome message.
pub fn generate_hyprlock_conf(h: &HyprlockConfig, bg_path: &str, user_name: &str) -> (r: String)
    ensures
        r@ == hyprlock_text(*h, bg_path@, replace_all(h.welcome_message@, "$USER"@, user_name@)),
{
    let wm = chars_of(h.welcome_message.as_str());
    let pat = chars_of("$USER");
    proof {
        reveal_strlit("$USER");
    }
    let uc = chars_of(user_name);
    let welcome = string_of(replace_all_chars(wm.as_slice(), pat.as_slice(), uc.as_slice()).as_slice());
    let mut out = String::new();
    out.append("# Generated by OMYWALL Wallpaper Engine\nbackground {\nmonitor =\npath = ");
    out.append(bg_path);
    out.append("\nblur_passes = ");
    out.append(decimal_string(h.blur_passes as u64).as_str());
    out.append("\nblur_size = ");
    out.append(decimal_string(h.blur_size as u64).as_str());
    out.append("\nnoise = 0.0117\ncontrast = 0.8916\nbrightness = 0.8172\nvibrancy = 0.1696\nvibrancy_darkness = 0.0\n}\n\n# TIME / CLOCK DISPLAY\nlabel {\nmonitor =\ntext = cmd[update:1000] echo \"$(date +\"%H:%M:%S\")\"\ncolor = ");
    out.append(h.clock_color.as_str());
    out.append("\nfont_size = ");
    out.append(decimal_string(h.clock_size as u64).as_str());
    out.append("\nfont_family = Outfit, Inter, sans-serif\nposition = 0, 160\nhalign = center\nvalign = center\nshadow_passes = 2\nshadow_size = 4\n}\n\n# DATE DISPLAY\nlabel {\nmonitor =\ntext = cmd[update:1000] echo \"$(date +\"%A, %B %d, %Y\")\"\ncolor = ");
    out.append(h.text_color.as_str());
    out.append("\nfont_size = 20\nfont_family = Inter, sans-serif\nposition = 0, 80\nhalign = center\nvalign = center\n}\n\n# WELCOME / CUSTOM MESSAGE\nlabel {\nmonitor =\ntext = ");
    out.append(welcome.as_str());
    out.append("\ncolor = ");
    out.append(h.text_color.as_str());
    out.append("\nfont_size = 22\nfont_family = Inter, sans-serif\nposition = 0, 20\nhalign = center\nvalign = center\n}\n\n# PASSWORD INPUT FIELD\ninput-field {\nmonitor =\nsize = 260, 50\noutline_thickness = 3\ndots_size = 0.33\ndots_spacing = 0.15\ndots_center = true\nouter_color = ");
    out.append(h.input_field_ring.as_str());
    out.append("\ninner_color = ");
    out.append(h.input_field_fill.as_str());
    out.append("\nfont_color = ");
    out.append(h.text_color.as_str());
    out.append("\nfade_on_empty = false\nplaceholder_text = <i>Input Password...</i>\nhide_input = false\nposition = 0, -80\nhalign = center\nvalign = center\n}\n");
    out
}

/// The vendor guessed from an adapter's name (compared in lower case).
pub open spec fn vendor_of(name: Seq<char>) -> Seq<char> {
    let low = lowercase(name);
    if contains(low, "nvidia"@) {
        "NVIDIA"@
    } else if contains(low, "amd"@) || contains(low, "radeon"@) {
        "AMD"@
    } else if contains(low, "intel"@) {
        "Intel"@
    } else {
        "Generic"@
    }
}

/// A display adapter on a line of `lspci`: its description after the
/// first `: `, or the whole line.
pub open spec fn lspci_adapter(line: Seq<char>) -> Option<Seq<char>> {
    if contains(line, "VGA compatible controller"@) || contains(line, "3D controller"@) || contains(
        line,
        "Display controller"@,
    ) {
        match find(line, ": "@) {
            Some(pos) => Some(line.skip(pos + 2)),
            None => Some(line),
        }
    } else {
        None
    }
}

/// An adapter as (name, vendor, device node, primary).
pub type GpuTuple = (Seq<char>, Seq<char>, Option<Seq<char>>, bool);

pub open spec fn gpu_view(g: GpuInfo) -> GpuTuple {
    (
        g.name@,
        g.vendor@,
        match g.device_path {
            Some(p) => Some(p@),
            None => None,
        },
        g.is_primary,
    )
}

/// The adapters listed by `lspci`, the first one primary.
pub open spec fn lspci_gpus(lines: Seq<Seq<char>>) -> Seq<GpuTuple>
    decreases lines.len(),
{
    if lines.len() == 0 {
        seq![]
    } else {
        let k = lspci_gpus(lines.drop_last());
        match lspci_adapter(lines.last()) {
            Some(n) => k.push((n, vendor_of(n), None, k.len() == 0)),
            None => k,
        }
    }
}

/// The render nodes among the DRM entries, in order.
pub open spec fn render_nodes(entries: Seq<String>) -> Seq<Seq<char>>
    decreases entries.len(),
{
    if entries.len() == 0 {
        seq![]
    } else {
        let k = render_nodes(entries.drop_last());
        if starts_with(entries.last()@, "renderD"@) {
            k.push(entries.last()@)
        } else {
            k
        }
    }
}

/// The adapters after matching the `k`-th render node: it is given to
/// the `k`-th adapter, or becomes an adapter of its own.
pub open spec fn with_nodes(gpus: Seq<GpuTuple>, nodes: Seq<Seq<char>>) -> Seq<GpuTuple>
    decreases nodes.len(),
{
    if nodes.len() == 0 {
        gpus
    } else {
        let g = with_nodes(gpus, nodes.drop_last());
        let k = nodes.len() - 1;
        let dev = "/dev/dri/"@ + nodes.last();
        if k < g.len() {
            g.update(k, (g[k].0, g[k].1, Some(dev), g[k].3))
        } else {
            g.push(("GPU Render Node ("@ + nodes.last() + ")"@, "DRM/KMS"@, Some(dev), g.len() == 0))
        }
    }
}

/// The adapters of the system: those `lspci` lists (when it ran), each
/// given a DRM render node in turn, extra render nodes as adapters of
/// their own, and a generic adapter when nothing was found.
pub open spec fn system_gpus(lspci: Option<Seq<char>>, drm: Seq<String>) -> Seq<GpuTuple> {
    let listed = match lspci {
        Some(out) => lspci_gpus(crate::paths::text_lines(out)),
        None => seq![],
    };
    let all = with_nodes(listed, render_nodes(drm));
    if all.len() == 0 {
        seq![("Auto-Detected Graphics Processing Unit"@, "Auto"@, None, true)]
    } else {
        all
    }
}

fn vendor_exec(name: &str) -> (r: &'static str)
    ensures
        r@ == vendor_of(name@),
{
    let low = to_lowercase(name);
    let lc = chars_of(low.as_str());
    let l = lc.as_slice();
    if contains_str(l, "nvidia") {
        "NVIDIA"
    } else if contains_str(l, "amd") || contains_str(l, "radeon") {
        "AMD"
    } else if contains_str(l, "intel") {
        "Intel"
    } else {
        "Generic"
    }
}

proof fn lemma_with_nodes_len(gpus: Seq<GpuTuple>, nodes: Seq<Seq<char>>)
    ensures
        with_nodes(gpus, nodes).len() == if nodes.len() > gpus.len() { nodes.len() } else { gpus.len() },
    decreases nodes.len(),
{
    if nodes.len() > 0 {
        lemma_with_nodes_len(gpus, nodes.drop_last());
    }
}

/// The graphics adapters, from the output of `lspci` (`None` when it did
/// not run) and the entries of `/sys/class/drm` in the order listed.
pub fn detect_system_gpus(lspci: Option<&str>, drm: &[String]) -> (r: Vec<GpuInfo>)
    ensures
        r@.map_values(|g: GpuInfo| gpu_view(g)) == system_gpus(
            match lspci {
                Some(o) => Some(o@),
                None => None,
            },
            drm@,
        ),
{
    let mut gpus: Vec<GpuInfo> = Vec::new();
    let ghost listed: Seq<GpuTuple> = seq![];
    match lspci {
        Some(out) => {
            let lines = crate::paths::lines_of(out);
            let ghost lv = lines@.map_values(|x: Vec<char>| x@);
            let sep = chars_of(": ");
            proof {
                reveal_strlit(": ");
            }
            assert(sep@.len() == 2);
            let mut i: usize = 0;
            while i < lines.len()
                invariant
                    i <= lines.len(),
                    lv == lines@.map_values(|x: Vec<char>| x@),
                    lv == crate::paths::text_lines(out@),
                    sep@ == ": "@,
                    sep@.len() == 2,
                    gpus@.map_values(|g: GpuInfo| gpu_view(g)) == lspci_gpus(lv.take(i as int)),
                decreases lines.len() - i,
            {
                let line = lines[i].as_slice();
                assert(lv[i as int] == line@);
                assert(lv.take(i as int + 1).drop_last() == lv.take(i as int));
                if contains_str(line, "VGA compatible controller") || contains_str(line, "3D controller")
                    || contains_str(line, "Display controller") {
                    let name_chars = match find_chars(line, sep.as_slice(), 0) {
                        Some(pos) => {
                            proof {
                                crate::text::lemma_found(line@, sep@, 0, pos as int);
                            }
                            assert(line@.len() == line.len());
                            let t = slice_of(line, pos + 2, line.len());
                            assert(t@ == line@.skip(pos + 2));
                            t
                        },
                        None => {
                            let t = slice_of(line, 0, line.len());
                            assert(line@.subrange(0, line@.len() as int) == line@);
                            t
                        },
                    };
                    let name = string_of(name_chars.as_slice());
                    let vendor = vendor_exec(name.as_str());
                    let primary = gpus.len() == 0;
                    let ghost before = gpus@;
                    gpus.push(GpuInfo { name, vendor: vendor.to_string(), device_path: None, is_primary: primary });
                    assert(gpus@.map_values(|g: GpuInfo| gpu_view(g)) =~= before.map_values(|g: GpuInfo| gpu_view(g)).push(
                        gpu_view(gpus@.last()),
                    ));
                }
                i += 1;
            }
            assert(lv.take(lines.len() as int) == lv);
            proof {
                listed = lspci_gpus(lv);
            }
        },
        None => {},
    }
    let ghost mut nodes: Seq<Seq<char>> = seq![];
    let mut idx: usize = 0;
    let mut j: usize = 0;
    while j < drm.len()
        invariant
            j <= drm.len(),
            nodes == render_nodes(drm@.take(j as int)),
            idx == nodes.len(),
            idx <= j,
            gpus@.map_values(|g: GpuInfo| gpu_view(g)) == with_nodes(listed, nodes),
        decreases drm.len() - j,
    {
        assert(drm@.take(j as int + 1).drop_last() == drm@.take(j as int));
        let fname = drm[j].as_str();
        let fc = chars_of(fname);
        if crate::text::starts_with_str(fc.as_slice(), "renderD") {
            let mut dev = "/dev/dri/".to_string();
            dev.append(fname);
            let ghost before = gpus@;
            proof {
                lemma_with_nodes_len(listed, nodes);
                assert(nodes.push(fname@).drop_last() == nodes);
            }
            if idx < gpus.len() {
                let mut g = gpus[idx].duplicate();
                g.device_path = Some(dev);
                gpus.set(idx, g);
                assert(gpus@.map_values(|g: GpuInfo| gpu_view(g)) =~= before.map_values(|g: GpuInfo| gpu_view(g)).update(
                    idx as int,
                    gpu_view(gpus@[idx as int]),
                ));
            } else {
                let mut name = "GPU Render Node (".to_string();
                name.append(fname);
                name.append(")");
                let primary = gpus.len() == 0;
                gpus.push(GpuInfo { name, vendor: "DRM/KMS".to_string(), device_path: Some(dev), is_primary: primary });
                assert(gpus@.map_values(|g: GpuInfo| gpu_view(g)) =~= before.map_values(|g: GpuInfo| gpu_view(g)).push(
                    gpu_view(gpus@.last()),
                ));
            }
            proof {
                nodes = nodes.push(fname@);
            }
            idx += 1;
        }
        j += 1;
    }
    assert(drm@.take(drm.len() as int) == drm@);
    if gpus.len() == 0 {
        gpus.push(GpuInfo {
            name: "Auto-Detected Graphics Processing Unit".to_string(),
            vendor: "Auto".to_string(),
            device_path: None,
            is_primary: true,
        });
        assert(gpus@.map_values(|g: GpuInfo| gpu_view(g)) =~= seq![("Auto-Detected Graphics Processing Unit"@, "Auto"@, None::<Seq<char>>, true)]);
    }
    gpus
}

/// Where the desktop widget sits unless set otherwise.
pub fn default_widget_position() -> (r: String)
    ensures
        r@ == "top_right"@,
{
    "top_right".to_string()
}

/// The frame rate the video player is asked for unless set otherwise.
pub fn default_fps() -> (r: u32)
    ensures
        r == 60,
{
    60
}

/// The options of the scene renderer used when a wallpaper is applied:
/// the ones being tuned, with the tuned property values, when the tuning
/// panel is open on this wallpaper; else the ones saved for it, or none.
pub fn steam_overrides_for(
    tuning_this: bool,
    tuning: WallpaperOverrides,
    saved: Option<WallpaperOverrides>,
    prop_values: Vec<(String, String)>,
) -> (r: WallpaperOverrides)
    ensures
        tuning_this ==> r == (WallpaperOverrides { custom_properties: prop_values, ..tuning }),
        !tuning_this && saved is Some ==> r == saved->0,
        !tuning_this && saved is None ==> {
            &&& r.volume is None && r.silent is None && r.scaling is None && r.fps is None
            &&& r.disable_mouse is None && r.disable_parallax is None && r.disable_particles is None
            &&& r.clamp is None && r.layer is None && r.no_automute is None
            &&& r.no_audio_processing is None && r.no_fullscreen_pause is None
            &&& r.fullscreen_pause_only_active is None && r.screenshot is None
            &&& r.custom_properties@.len() == 0
        },
{
    if tuning_this {
        let mut ov = tuning;
        ov.custom_properties = prop_values;
        ov
    } else {
        match saved {
            Some(s) => s,
            None => WallpaperOverrides::default(),
        }
    }
}


/// The engine's settings as the settings script holds them. The wallpaper
/// opacity, a fraction, is kept beside them by the caller; per-monitor
/// wallpapers and per-wallpaper overrides are held as (key, value) pairs.
#[derive(Debug, Clone, PartialEq)]
pub struct Config {
    pub wallpaper_dir: String,
    pub socket_path: String,
    pub hwdec: String,
    pub gpu_device: Option<String>,
    pub target_fps: u32,
    pub volume: i64,
    pub mute: bool,
    pub loop_file: String,
    pub window_id: u64,
    pub screen_id: i64,
    pub slideshow_interval: u64,
    pub slideshow_shuffle: bool,
    pub default_wallpaper: Option<String>,
    pub enable_widgets: bool,
    pub widget_url: Option<String>,
    pub widget_position: String,
    pub monitor_wallpapers: Vec<(String, String)>,
    pub saved_web_wallpapers: Vec<WebBookmark>,
    pub autostart: bool,
    pub hyprlock: HyprlockConfig,
    pub wallpaper_overrides: Vec<(String, WallpaperOverrides)>,
    pub steam_library_paths: Vec<String>,
}

/// The default wallpaper directory below the home directory `home`.
pub open spec fn default_wallpaper_dir(home: Seq<char>) -> Seq<char> {
    crate::paths::join(
        crate::paths::join(crate::paths::join(crate::paths::join(home, ".local"@), "share"@), "omywall"@),
        "wallpapers"@,
    )
}

/// The daemon's socket in the runtime directory (`/tmp` when none is set).
pub open spec fn default_socket_path(runtime_dir: Option<Seq<char>>) -> Seq<char> {
    crate::paths::join(
        match runtime_dir {
            Some(d) => d,
            None => "/tmp"@,
        },
        "omywall.sock"@,
    )
}

impl Config {
    /// The settings of a fresh install, from the home directory (`None`
    /// when unknown, which stands for `/home/user`), the runtime directory
    /// (`None` when unset), the bookmarks found among the bundled assets
    /// and whether the autostart entry exists.
    pub fn defaults(home: Option<&str>, runtime_dir: Option<&str>, scanned: Vec<WebBookmark>, autostart: bool) -> (r: Config)
        ensures
            r.wallpaper_dir@ == default_wallpaper_dir(crate::steam_workshop::home_or_default(
                match home {
                    Some(h) => Some(h@),
                    None => None,
                },
            )),
            r.socket_path@ == default_socket_path(
                match runtime_dir {
                    Some(d) => Some(d@),
                    None => None,
                },
            ),
            r.hwdec@ == "auto"@,
            r.gpu_device is None,
            r.target_fps == 60,
            r.volume == 0,
            r.mute,
            r.loop_file@ == "inf"@,
            r.window_id == 0,
            r.screen_id == 0,
            r.slideshow_interval == 300,
            !r.slideshow_shuffle,
            r.default_wallpaper is None,
            !r.enable_widgets,
            r.widget_url is None,
            r.widget_position@ == "top_right"@,
            r.monitor_wallpapers@.len() == 0,
            scanned.len() > 0 ==> r.saved_web_wallpapers@ == scanned@,
            scanned.len() == 0 ==> r.saved_web_wallpapers@.map_values(|b: WebBookmark| bookmark_view(b))
                == builtin_bookmarks(),
            r.autostart == autostart,
            hyprlock_defaults(r.hyprlock),
            r.wallpaper_overrides@.len() == 0,
            r.steam_library_paths@.len() == 0,
    {
        let h = match home {
            Some(h) => h.to_string(),
            None => "/home/user".to_string(),
        };
        let a = crate::paths::join_path(h.as_str(), ".local");
        let b = crate::paths::join_path(a.as_str(), "share");
        let c = crate::paths::join_path(b.as_str(), "omywall");
        let wallpaper_dir = crate::paths::join_path(c.as_str(), "wallpapers");
        let run = match runtime_dir {
            Some(d) => d.to_string(),
            None => "/tmp".to_string(),
        };
        let socket_path = crate::paths::join_path(run.as_str(), "omywall.sock");
        Config {
            wallpaper_dir,
            socket_path,
            hwdec: "auto".to_string(),
            gpu_device: None,
            target_fps: default_fps(),
            volume: 0,
            mute: true,
            loop_file: "inf".to_string(),
            window_id: 0,
            screen_id: 0,
            slideshow_interval: 300,
            slideshow_shuffle: false,
            default_wallpaper: None,
            enable_widgets: false,
            widget_url: None,
            widget_position: default_widget_position(),
            monitor_wallpapers: Vec::new(),
            saved_web_wallpapers: default_web_bookmarks(scanned),
            autostart,
            hyprlock: HyprlockConfig::default(),
            wallpaper_overrides: Vec::new(),
            steam_library_paths: Vec::new(),
        }
    }
}



/// The position of an address in the built-in list (21 when it is not
/// there).
pub open spec fn builtin_rank(u: Seq<char>) -> int {
    if u == "assets/widgets/desktop_hud.html"@ {
        0
    } else if u == "assets/widgets/wifi_bluetooth_pill.html"@ {
        1
    } else if u == "assets/widgets/minimal_clock_stats.html"@ {
        2
    } else if u == "assets/web_wallpapers/01-fluid-particles/webgl_fluid_simulation.html"@ {
        3
    } else if u == "assets/web_wallpapers/01-fluid-particles/tsparticles_constellation.html"@ {
        4
    } else if u == "assets/web_wallpapers/01-fluid-particles/fieldplay_vector_flow.html"@ {
        5
    } else if u == "assets/web_wallpapers/01-fluid-particles/particle_image_dispersion.html"@ {
        6
    } else if u == "assets/web_wallpapers/02-3d-procedural/vanta_waves_topology.html"@ {
        7
    } else if u == "assets/web_wallpapers/02-3d-procedural/pathtracing_glass_refraction.html"@ {
        8
    } else if u == "assets/web_wallpapers/02-3d-procedural/point_cloud_3d_sculpture.html"@ {
        9
    } else if u == "assets/web_wallpapers/02-3d-procedural/threejs_ocean_glitch_visualizer.html"@ {
        10
    } else if u == "assets/web_wallpapers/03-retro-cyberpunk/rezmason_matrix_3d.html"@ {
        11
    } else if u == "assets/web_wallpapers/03-retro-cyberpunk/retro_grid_synthwave.html"@ {
        12
    } else if u == "assets/web_wallpapers/03-retro-cyberpunk/v86_os_canvas_terminal.html"@ {
        13
    } else if u == "assets/web_wallpapers/04-astronomy-clocks/twenty_fifth_hour_daynight.html"@ {
        14
    } else if u == "assets/web_wallpapers/04-astronomy-clocks/astronomy_canvas_stars.html"@ {
        15
    } else if u == "assets/web_wallpapers/04-astronomy-clocks/orbital_minimal_clock.html"@ {
        16
    } else if u == "assets/web_wallpapers/05-audio-shaders/gl_audio_spectrum_analyzer.html"@ {
        17
    } else if u == "assets/web_wallpapers/05-audio-shaders/circular_waveform_audiovisualizer.html"@ {
        18
    } else if u == "assets/web_wallpapers/05-audio-shaders/glsl_canvas_live_shader.html"@ {
        19
    } else if u == "assets/web_wallpapers/05-audio-shaders/threejs_postprocessing_bloom.html"@ {
        20
    } else {
        21
    }
}

/// The built-in list holds 21 demonstration bookmarks with distinct
/// addresses, from the desktop HUD widget to the bloom shader.
#[verifier::rlimit(60)]
#[verifier::spinoff_prover]
pub proof fn law_builtin_bookmarks()
    ensures
        builtin_bookmarks().len() == 21,
        forall|i: int| 0 <= i < 21 ==> (#[trigger] builtin_bookmarks()[i]).3,
        forall|i: int, j: int|
            0 <= i < j < 21 ==> (#[trigger] builtin_bookmarks()[i]).1 != (#[trigger] builtin_bookmarks()[j]).1,
        builtin_bookmarks()[0].1 == "assets/widgets/desktop_hud.html"@,
        builtin_bookmarks()[20].1 == "assets/web_wallpapers/05-audio-shaders/threejs_postprocessing_bloom.html"@,
{
    reveal_strlit("assets/widgets/desktop_hud.html");
    reveal_strlit("assets/widgets/wifi_bluetooth_pill.html");
    reveal_strlit("assets/widgets/minimal_clock_stats.html");
    reveal_strlit("assets/web_wallpapers/01-fluid-particles/webgl_fluid_simulation.html");
    reveal_strlit("assets/web_wallpapers/01-fluid-particles/tsparticles_constellation.html");
    reveal_strlit("assets/web_wallpapers/01-fluid-particles/fieldplay_vector_flow.html");
    reveal_strlit("assets/web_wallpapers/01-fluid-particles/particle_image_dispersion.html");
    reveal_strlit("assets/web_wallpapers/02-3d-procedural/vanta_waves_topology.html");
    reveal_strlit("assets/web_wallpapers/02-3d-procedural/pathtracing_glass_refraction.html");
    reveal_strlit("assets/web_wallpapers/02-3d-procedural/point_cloud_3d_sculpture.html");
    reveal_strlit("assets/web_wallpapers/02-3d-procedural/threejs_ocean_glitch_visualizer.html");
    reveal_strlit("assets/web_wallpapers/03-retro-cyberpunk/rezmason_matrix_3d.html");
    reveal_strlit("assets/web_wallpapers/03-retro-cyberpunk/retro_grid_synthwave.html");
    reveal_strlit("assets/web_wallpapers/03-retro-cyberpunk/v86_os_canvas_terminal.html");
    reveal_strlit("assets/web_wallpapers/04-astronomy-clocks/twenty_fifth_hour_daynight.html");
    reveal_strlit("assets/web_wallpapers/04-astronomy-clocks/astronomy_canvas_stars.html");
    reveal_strlit("assets/web_wallpapers/04-astronomy-clocks/orbital_minimal_clock.html");
    reveal_strlit("assets/web_wallpapers/05-audio-shaders/gl_audio_spectrum_analyzer.html");
    reveal_strlit("assets/web_wallpapers/05-audio-shaders/circular_waveform_audiovisualizer.html");
    reveal_strlit("assets/web_wallpapers/05-audio-shaders/glsl_canvas_live_shader.html");
    reveal_strlit("assets/web_wallpapers/05-audio-shaders/threejs_postprocessing_bloom.html");
    assert("assets/widgets/wifi_bluetooth_pill.html"@[15] != "assets/widgets/minimal_clock_stats.html"@[15]);
    assert("assets/web_wallpapers/01-fluid-particles/webgl_fluid_simulation.html"@[23] != "assets/web_wallpapers/02-3d-procedural/point_cloud_3d_sculpture.html"@[23]);
    assert("assets/web_wallpapers/01-fluid-particles/webgl_fluid_simulation.html"@[23] != "assets/web_wallpapers/03-retro-cyberpunk/v86_os_canvas_terminal.html"@[23]);
    assert("assets/web_wallpapers/01-fluid-particles/webgl_fluid_simulation.html"@[23] != "assets/web_wallpapers/04-astronomy-clocks/orbital_minimal_clock.html"@[23]);
    assert("assets/web_wallpapers/01-fluid-particles/tsparticles_constellation.html"@[41] != "assets/web_wallpapers/01-fluid-particles/particle_image_dispersion.html"@[41]);
    assert("assets/web_wallpapers/01-fluid-particles/fieldplay_vector_flow.html"@[23] != "assets/web_wallpapers/05-audio-shaders/glsl_canvas_live_shader.html"@[23]);
    assert("assets/web_wallpapers/02-3d-procedural/vanta_waves_topology.html"@[23] != "assets/web_wallpapers/03-retro-cyberpunk/rezmason_matrix_3d.html"@[23]);
    assert("assets/web_wallpapers/02-3d-procedural/pathtracing_glass_refraction.html"@[23] != "assets/web_wallpapers/05-audio-shaders/threejs_postprocessing_bloom.html"@[23]);
    assert("assets/web_wallpapers/02-3d-procedural/point_cloud_3d_sculpture.html"@[23] != "assets/web_wallpapers/03-retro-cyberpunk/v86_os_canvas_terminal.html"@[23]);
    assert("assets/web_wallpapers/02-3d-procedural/point_cloud_3d_sculpture.html"@[23] != "assets/web_wallpapers/04-astronomy-clocks/orbital_minimal_clock.html"@[23]);
    assert("assets/web_wallpapers/03-retro-cyberpunk/v86_os_canvas_terminal.html"@[23] != "assets/web_wallpapers/04-astronomy-clocks/orbital_minimal_clock.html"@[23]);
    let b = builtin_bookmarks();
    assert forall|i: int| 0 <= i < 21 implies builtin_rank(#[trigger] b[i].1) == i by {
        if i == 0 {
            assert(builtin_rank(b[0].1) == 0);
        } else if i == 1 {
            assert(b[1].1 == "assets/widgets/wifi_bluetooth_pill.html"@);
            assert("assets/widgets/wifi_bluetooth_pill.html"@.len() != "assets/widgets/desktop_hud.html"@.len());
            assert(builtin_rank(b[1].1) == 1);
        } else if i == 2 {
            assert(b[2].1 == "assets/widgets/minimal_clock_stats.html"@);
            assert("assets/widgets/minimal_clock_stats.html"@.len() != "assets/widgets/desktop_hud.html"@.len());
            assert("assets/widgets/minimal_clock_stats.html"@ != "assets/widgets/wifi_bluetooth_pill.html"@);
            assert(builtin_rank(b[2].1) == 2);
        } else if i == 3 {
            assert(b[3].1 == "assets/web_wallpapers/01-fluid-particles/webgl_fluid_simulation.html"@);
            assert("assets/web_wallpapers/01-fluid-particles/webgl_fluid_simulation.html"@.len() != "assets/widgets/desktop_hud.html"@.len());
            assert("assets/web_wallpapers/01-fluid-particles/webgl_fluid_simulation.html"@.len() != "assets/widgets/wifi_bluetooth_pill.html"@.len());
            assert("assets/web_wallpapers/01-fluid-particles/webgl_fluid_simulation.html"@.len() != "assets/widgets/minimal_clock_stats.html"@.len());
            assert(builtin_rank(b[3].1) == 3);
        } else if i == 4 {
            assert(b[4].1 == "assets/web_wallpapers/01-fluid-particles/tsparticles_constellation.html"@);
            assert("assets/web_wallpapers/01-fluid-particles/tsparticles_constellation.html"@.len() != "assets/widgets/desktop_hud.html"@.len());
            assert("assets/web_wallpapers/01-fluid-particles/tsparticles_constellation.html"@.len() != "assets/widgets/wifi_bluetooth_pill.html"@.len());
            assert("assets/web_wallpapers/01-fluid-particles/tsparticles_constellation.html"@.len() != "assets/widgets/minimal_clock_stats.html"@.len());
            assert("assets/web_wallpapers/01-fluid-particles/tsparticles_constellation.html"@.len() != "assets/web_wallpapers/01-fluid-particles/webgl_fluid_simulation.html"@.len());
            assert(builtin_rank(b[4].1) == 4);
        } else if i == 5 {
            assert(b[5].1 == "assets/web_wallpapers/01-fluid-particles/fieldplay_vector_flow.html"@);
            assert("assets/web_wallpapers/01-fluid-particles/fieldplay_vector_flow.html"@.len() != "assets/widgets/desktop_hud.html"@.len());
            assert("assets/web_wallpapers/01-fluid-particles/fieldplay_vector_flow.html"@.len() != "assets/widgets/wifi_bluetooth_pill.html"@.len());
            assert("assets/web_wallpapers/01-fluid-particles/fieldplay_vector_flow.html"@.len() != "assets/widgets/minimal_clock_stats.html"@.len());
            assert("assets/web_wallpapers/01-fluid-particles/fieldplay_vector_flow.html"@.len() != "assets/web_wallpapers/01-fluid-particles/webgl_fluid_simulation.html"@.len());
            assert("assets/web_wallpapers/01-fluid-particles/fieldplay_vector_flow.html"@.len() != "assets/web_wallpapers/01-fluid-particles/tsparticles_constellation.html"@.len());
            assert(builtin_rank(b[5].1) == 5);
        } else if i == 6 {
            assert(b[6].1 == "assets/web_wallpapers/01-fluid-particles/particle_image_dispersion.html"@);
            assert("assets/web_wallpapers/01-fluid-particles/particle_image_dispersion.html"@.len() != "assets/widgets/desktop_hud.html"@.len());
            assert("assets/web_wallpapers/01-fluid-particles/particle_image_dispersion.html"@.len() != "assets/widgets/wifi_bluetooth_pill.html"@.len());
            assert("assets/web_wallpapers/01-fluid-particles/particle_image_dispersion.html"@.len() != "assets/widgets/minimal_clock_stats.html"@.len());
            assert("assets/web_wallpapers/01-fluid-particles/particle_image_dispersion.html"@.len() != "assets/web_wallpapers/01-fluid-particles/webgl_fluid_simulation.html"@.len());
            assert("assets/web_wallpapers/01-fluid-particles/particle_image_dispersion.html"@ != "assets/web_wallpapers/01-fluid-particles/tsparticles_constellation.html"@);
            assert("assets/web_wallpapers/01-fluid-particles/particle_image_dispersion.html"@.len() != "assets/web_wallpapers/01-fluid-particles/fieldplay_vector_flow.html"@.len());
            assert(builtin_rank(b[6].1) == 6);
        } else if i == 7 {
            assert(b[7].1 == "assets/web_wallpapers/02-3d-procedural/vanta_waves_topology.html"@);
            assert("assets/web_wallpapers/02-3d-procedural/vanta_waves_topology.html"@.len() != "assets/widgets/desktop_hud.html"@.len());
            assert("assets/web_wallpapers/02-3d-procedural/vanta_waves_topology.html"@.len() != "assets/widgets/wifi_bluetooth_pill.html"@.len());
            assert("assets/web_wallpapers/02-3d-procedural/vanta_waves_topology.html"@.len() != "assets/widgets/minimal_clock_stats.html"@.len());
            assert("assets/web_wallpapers/02-3d-procedural/vanta_waves_topology.html"@.len() != "assets/web_wallpapers/01-fluid-particles/webgl_fluid_simulation.html"@.len());
            assert("assets/web_wallpapers/02-3d-procedural/vanta_waves_topology.html"@.len() != "assets/web_wallpapers/01-fluid-particles/tsparticles_constellation.html"@.len());
            assert("assets/web_wallpapers/02-3d-procedural/vanta_waves_topology.html"@.len() != "assets/web_wallpapers/01-fluid-particles/fieldplay_vector_flow.html"@.len());
            assert("assets/web_wallpapers/02-3d-procedural/vanta_waves_topology.html"@.len() != "assets/web_wallpapers/01-fluid-particles/particle_image_dispersion.html"@.len());
            assert(builtin_rank(b[7].1) == 7);
        } else if i == 8 {
            assert(b[8].1 == "assets/web_wallpapers/02-3d-procedural/pathtracing_glass_refraction.html"@);
            assert("assets/web_wallpapers/02-3d-procedural/pathtracing_glass_refraction.html"@.len() != "assets/widgets/desktop_hud.html"@.len());
            assert("assets/web_wallpapers/02-3d-procedural/pathtracing_glass_refraction.html"@.len() != "assets/widgets/wifi_bluetooth_pill.html"@.len());
            assert("assets/web_wallpapers/02-3d-procedural/pathtracing_glass_refraction.html"@.len() != "assets/widgets/minimal_clock_stats.html"@.len());
            assert("assets/web_wallpapers/02-3d-procedural/pathtracing_glass_refraction.html"@.len() != "assets/web_wallpapers/01-fluid-particles/webgl_fluid_simulation.html"@.len());
            assert("assets/web_wallpapers/02-3d-procedural/pathtracing_glass_refraction.html"@.len() != "assets/web_wallpapers/01-fluid-particles/tsparticles_constellation.html"@.len());
            assert("assets/web_wallpapers/02-3d-procedural/pathtracing_glass_refraction.html"@.len() != "assets/web_wallpapers/01-fluid-particles/fieldplay_vector_flow.html"@.len());
            assert("assets/web_wallpapers/02-3d-procedural/pathtracing_glass_refraction.html"@.len() != "assets/web_wallpapers/01-fluid-particles/particle_image_dispersion.html"@.len());
            assert("assets/web_wallpapers/02-3d-procedural/pathtracing_glass_refraction.html"@.len() != "assets/web_wallpapers/02-3d-procedural/vanta_waves_topology.html"@.len());
            assert(builtin_rank(b[8].1) == 8);
        } else if i == 9 {
            assert(b[9].1 == "assets/web_wallpapers/02-3d-procedural/point_cloud_3d_sculpture.html"@);
            assert("assets/web_wallpapers/02-3d-procedural/point_cloud_3d_sculpture.html"@.len() != "assets/widgets/desktop_hud.html"@.len());
            assert("assets/web_wallpapers/02-3d-procedural/point_cloud_3d_sculpture.html"@.len() != "assets/widgets/wifi_bluetooth_pill.html"@.len());
            assert("assets/web_wallpapers/02-3d-procedural/point_cloud_3d_sculpture.html"@.len() != "assets/widgets/minimal_clock_stats.html"@.len());
            assert("assets/web_wallpapers/02-3d-procedural/point_cloud_3d_sculpture.html"@ != "assets/web_wallpapers/01-fluid-particles/webgl_fluid_simulation.html"@);
            assert("assets/web_wallpapers/02-3d-procedural/point_cloud_3d_sculpture.html"@.len() != "assets/web_wallpapers/01-fluid-particles/tsparticles_constellation.html"@.len());
            assert("assets/web_wallpapers/02-3d-procedural/point_cloud_3d_sculpture.html"@.len() != "assets/web_wallpapers/01-fluid-particles/fieldplay_vector_flow.html"@.len());
            assert("assets/web_wallpapers/02-3d-procedural/point_cloud_3d_sculpture.html"@.len() != "assets/web_wallpapers/01-fluid-particles/particle_image_dispersion.html"@.len());
            assert("assets/web_wallpapers/02-3d-procedural/point_cloud_3d_sculpture.html"@.len() != "assets/web_wallpapers/02-3d-procedural/vanta_waves_topology.html"@.len());
            assert("assets/web_wallpapers/02-3d-procedural/point_cloud_3d_sculpture.html"@.len() != "assets/web_wallpapers/02-3d-procedural/pathtracing_glass_refraction.html"@.len());
            assert(builtin_rank(b[9].1) == 9);
        } else if i == 10 {
            assert(b[10].1 == "assets/web_wallpapers/02-3d-procedural/threejs_ocean_glitch_visualizer.html"@);
            assert("assets/web_wallpapers/02-3d-procedural/threejs_ocean_glitch_visualizer.html"@.len() != "assets/widgets/desktop_hud.html"@.len());
            assert("assets/web_wallpapers/02-3d-procedural/threejs_ocean_glitch_visualizer.html"@.len() != "assets/widgets/wifi_bluetooth_pill.html"@.len());
            assert("assets/web_wallpapers/02-3d-procedural/threejs_ocean_glitch_visualizer.html"@.len() != "assets/widgets/minimal_clock_stats.html"@.len());
            assert("assets/web_wallpapers/02-3d-procedural/threejs_ocean_glitch_visualizer.html"@.len() != "assets/web_wallpapers/01-fluid-particles/webgl_fluid_simulation.html"@.len());
            assert("assets/web_wallpapers/02-3d-procedural/threejs_ocean_glitch_visualizer.html"@.len() != "assets/web_wallpapers/01-fluid-particles/tsparticles_constellation.html"@.len());
            assert("assets/web_wallpapers/02-3d-procedural/threejs_ocean_glitch_visualizer.html"@.len() != "assets/web_wallpapers/01-fluid-particles/fieldplay_vector_flow.html"@.len());
            assert("assets/web_wallpapers/02-3d-procedural/threejs_ocean_glitch_visualizer.html"@.len() != "assets/web_wallpapers/01-fluid-particles/particle_image_dispersion.html"@.len());
            assert("assets/web_wallpapers/02-3d-procedural/threejs_ocean_glitch_visualizer.html"@.len() != "assets/web_wallpapers/02-3d-procedural/vanta_waves_topology.html"@.len());
            assert("assets/web_wallpapers/02-3d-procedural/threejs_ocean_glitch_visualizer.html"@.len() != "assets/web_wallpapers/02-3d-procedural/pathtracing_glass_refraction.html"@.len());
            assert("assets/web_wallpapers/02-3d-procedural/threejs_ocean_glitch_visualizer.html"@.len() != "assets/web_wallpapers/02-3d-procedural/point_cloud_3d_sculpture.html"@.len());
            assert(builtin_rank(b[10].1) == 10);
        } else if i == 11 {
            assert(b[11].1 == "assets/web_wallpapers/03-retro-cyberpunk/rezmason_matrix_3d.html"@);
            assert("assets/web_wallpapers/03-retro-cyberpunk/rezmason_matrix_3d.html"@.len() != "assets/widgets/desktop_hud.html"@.len());
            assert("assets/web_wallpapers/03-retro-cyberpunk/rezmason_matrix_3d.html"@.len() != "assets/widgets/wifi_bluetooth_pill.html"@.len());
            assert("assets/web_wallpapers/03-retro-cyberpunk/rezmason_matrix_3d.html"@.len() != "assets/widgets/minimal_clock_stats.html"@.len());
            assert("assets/web_wallpapers/03-retro-cyberpunk/rezmason_matrix_3d.html"@.len() != "assets/web_wallpapers/01-fluid-particles/webgl_fluid_simulation.html"@.len());
            assert("assets/web_wallpapers/03-retro-cyberpunk/rezmason_matrix_3d.html"@.len() != "assets/web_wallpapers/01-fluid-particles/tsparticles_constellation.html"@.len());
            assert("assets/web_wallpapers/03-retro-cyberpunk/rezmason_matrix_3d.html"@.len() != "assets/web_wallpapers/01-fluid-particles/fieldplay_vector_flow.html"@.len());
            assert("assets/web_wallpapers/03-retro-cyberpunk/rezmason_matrix_3d.html"@.len() != "assets/web_wallpapers/01-fluid-particles/particle_image_dispersion.html"@.len());
            assert("assets/web_wallpapers/03-retro-cyberpunk/rezmason_matrix_3d.html"@ != "assets/web_wallpapers/02-3d-procedural/vanta_waves_topology.html"@);
            assert("assets/web_wallpapers/03-retro-cyberpunk/rezmason_matrix_3d.html"@.len() != "assets/web_wallpapers/02-3d-procedural/pathtracing_glass_refraction.html"@.len());
            assert("assets/web_wallpapers/03-retro-cyberpunk/rezmason_matrix_3d.html"@.len() != "assets/web_wallpapers/02-3d-procedural/point_cloud_3d_sculpture.html"@.len());
            assert("assets/web_wallpapers/03-retro-cyberpunk/rezmason_matrix_3d.html"@.len() != "assets/web_wallpapers/02-3d-procedural/threejs_ocean_glitch_visualizer.html"@.len());
            assert(builtin_rank(b[11].1) == 11);
        } else if i == 12 {
            assert(b[12].1 == "assets/web_wallpapers/03-retro-cyberpunk/retro_grid_synthwave.html"@);
            assert("assets/web_wallpapers/03-retro-cyberpunk/retro_grid_synthwave.html"@.len() != "assets/widgets/desktop_hud.html"@.len());
            assert("assets/web_wallpapers/03-retro-cyberpunk/retro_grid_synthwave.html"@.len() != "assets/widgets/wifi_bluetooth_pill.html"@.len());
            assert("assets/web_wallpapers/03-retro-cyberpunk/retro_grid_synthwave.html"@.len() != "assets/widgets/minimal_clock_stats.html"@.len());
            assert("assets/web_wallpapers/03-retro-cyberpunk/retro_grid_synthwave.html"@.len() != "assets/web_wallpapers/01-fluid-particles/webgl_fluid_simulation.html"@.len());
            assert("assets/web_wallpapers/03-retro-cyberpunk/retro_grid_synthwave.html"@.len() != "assets/web_wallpapers/01-fluid-particles/tsparticles_constellation.html"@.len());
            assert("assets/web_wallpapers/03-retro-cyberpunk/retro_grid_synthwave.html"@.len() != "assets/web_wallpapers/01-fluid-particles/fieldplay_vector_flow.html"@.len());
            assert("assets/web_wallpapers/03-retro-cyberpunk/retro_grid_synthwave.html"@.len() != "assets/web_wallpapers/01-fluid-particles/particle_image_dispersion.html"@.len());
            assert("assets/web_wallpapers/03-retro-cyberpunk/retro_grid_synthwave.html"@.len() != "assets/web_wallpapers/02-3d-procedural/vanta_waves_topology.html"@.len());
            assert("assets/web_wallpapers/03-retro-cyberpunk/retro_grid_synthwave.html"@.len() != "assets/web_wallpapers/02-3d-procedural/pathtracing_glass_refraction.html"@.len());
            assert("assets/web_wallpapers/03-retro-cyberpunk/retro_grid_synthwave.html"@.len() != "assets/web_wallpapers/02-3d-procedural/point_cloud_3d_sculpture.html"@.len());
            assert("assets/web_wallpapers/03-retro-cyberpunk/retro_grid_synthwave.html"@.len() != "assets/web_wallpapers/02-3d-procedural/threejs_ocean_glitch_visualizer.html"@.len());
            assert("assets/web_wallpapers/03-retro-cyberpunk/retro_grid_synthwave.html"@.len() != "assets/web_wallpapers/03-retro-cyberpunk/rezmason_matrix_3d.html"@.len());
            assert(builtin_rank(b[12].1) == 12);
        } else if i == 13 {
            assert(b[13].1 == "assets/web_wallpapers/03-retro-cyberpunk/v86_os_canvas_terminal.html"@);
            assert("assets/web_wallpapers/03-retro-cyberpunk/v86_os_canvas_terminal.html"@.len() != "assets/widgets/desktop_hud.html"@.len());
            assert("assets/web_wallpapers/03-retro-cyberpunk/v86_os_canvas_terminal.html"@.len() != "assets/widgets/wifi_bluetooth_pill.html"@.len());
            assert("assets/web_wallpapers/03-retro-cyberpunk/v86_os_canvas_terminal.html"@.len() != "assets/widgets/minimal_clock_stats.html"@.len());
            assert("assets/web_wallpapers/03-retro-cyberpunk/v86_os_canvas_terminal.html"@ != "assets/web_wallpapers/01-fluid-particles/webgl_fluid_simulation.html"@);
            assert("assets/web_wallpapers/03-retro-cyberpunk/v86_os_canvas_terminal.html"@.len() != "assets/web_wallpapers/01-fluid-particles/tsparticles_constellation.html"@.len());
            assert("assets/web_wallpapers/03-retro-cyberpunk/v86_os_canvas_terminal.html"@.len() != "assets/web_wallpapers/01-fluid-particles/fieldplay_vector_flow.html"@.len());
            assert("assets/web_wallpapers/03-retro-cyberpunk/v86_os_canvas_terminal.html"@.len() != "assets/web_wallpapers/01-fluid-particles/particle_image_dispersion.html"@.len());
            assert("assets/web_wallpapers/03-retro-cyberpunk/v86_os_canvas_terminal.html"@.len() != "assets/web_wallpapers/02-3d-procedural/vanta_waves_topology.html"@.len());
            assert("assets/web_wallpapers/03-retro-cyberpunk/v86_os_canvas_terminal.html"@.len() != "assets/web_wallpapers/02-3d-procedural/pathtracing_glass_refraction.html"@.len());
            assert("assets/web_wallpapers/03-retro-cyberpunk/v86_os_canvas_terminal.html"@ != "assets/web_wallpapers/02-3d-procedural/point_cloud_3d_sculpture.html"@);
            assert("assets/web_wallpapers/03-retro-cyberpunk/v86_os_canvas_terminal.html"@.len() != "assets/web_wallpapers/02-3d-procedural/threejs_ocean_glitch_visualizer.html"@.len());
            assert("assets/web_wallpapers/03-retro-cyberpunk/v86_os_canvas_terminal.html"@.len() != "assets/web_wallpapers/03-retro-cyberpunk/rezmason_matrix_3d.html"@.len());
            assert("assets/web_wallpapers/03-retro-cyberpunk/v86_os_canvas_terminal.html"@.len() != "assets/web_wallpapers/03-retro-cyberpunk/retro_grid_synthwave.html"@.len());
            assert(builtin_rank(b[13].1) == 13);
        } else if i == 14 {
            assert(b[14].1 == "assets/web_wallpapers/04-astronomy-clocks/twenty_fifth_hour_daynight.html"@);
            assert("assets/web_wallpapers/04-astronomy-clocks/twenty_fifth_hour_daynight.html"@.len() != "assets/widgets/desktop_hud.html"@.len());
            assert("assets/web_wallpapers/04-astronomy-clocks/twenty_fifth_hour_daynight.html"@.len() != "assets/widgets/wifi_bluetooth_pill.html"@.len());
            assert("assets/web_wallpapers/04-astronomy-clocks/twenty_fifth_hour_daynight.html"@.len() != "assets/widgets/minimal_clock_stats.html"@.len());
            assert("assets/web_wallpapers/04-astronomy-clocks/twenty_fifth_hour_daynight.html"@.len() != "assets/web_wallpapers/01-fluid-particles/webgl_fluid_simulation.html"@.len());
            assert("assets/web_wallpapers/04-astronomy-clocks/twenty_fifth_hour_daynight.html"@.len() != "assets/web_wallpapers/01-fluid-particles/tsparticles_constellation.html"@.len());
            assert("assets/web_wallpapers/04-astronomy-clocks/twenty_fifth_hour_daynight.html"@.len() != "assets/web_wallpapers/01-fluid-particles/fieldplay_vector_flow.html"@.len());
            assert("assets/web_wallpapers/04-astronomy-clocks/twenty_fifth_hour_daynight.html"@.len() != "assets/web_wallpapers/01-fluid-particles/particle_image_dispersion.html"@.len());
            assert("assets/web_wallpapers/04-astronomy-clocks/twenty_fifth_hour_daynight.html"@.len() != "assets/web_wallpapers/02-3d-procedural/vanta_waves_topology.html"@.len());
            assert("assets/web_wallpapers/04-astronomy-clocks/twenty_fifth_hour_daynight.html"@.len() != "assets/web_wallpapers/02-3d-procedural/pathtracing_glass_refraction.html"@.len());
            assert("assets/web_wallpapers/04-astronomy-clocks/twenty_fifth_hour_daynight.html"@.len() != "assets/web_wallpapers/02-3d-procedural/point_cloud_3d_sculpture.html"@.len());
            assert("assets/web_wallpapers/04-astronomy-clocks/twenty_fifth_hour_daynight.html"@.len() != "assets/web_wallpapers/02-3d-procedural/threejs_ocean_glitch_visualizer.html"@.len());
            assert("assets/web_wallpapers/04-astronomy-clocks/twenty_fifth_hour_daynight.html"@.len() != "assets/web_wallpapers/03-retro-cyberpunk/rezmason_matrix_3d.html"@.len());
            assert("assets/web_wallpapers/04-astronomy-clocks/twenty_fifth_hour_daynight.html"@.len() != "assets/web_wallpapers/03-retro-cyberpunk/retro_grid_synthwave.html"@.len());
            assert("assets/web_wallpapers/04-astronomy-clocks/twenty_fifth_hour_daynight.html"@.len() != "assets/web_wallpapers/03-retro-cyberpunk/v86_os_canvas_terminal.html"@.len());
            assert(builtin_rank(b[14].1) == 14);
        } else if i == 15 {
            assert(b[15].1 == "assets/web_wallpapers/04-astronomy-clocks/astronomy_canvas_stars.html"@);
            assert("assets/web_wallpapers/04-astronomy-clocks/astronomy_canvas_stars.html"@.len() != "assets/widgets/desktop_hud.html"@.len());
            assert("assets/web_wallpapers/04-astronomy-clocks/astronomy_canvas_stars.html"@.len() != "assets/widgets/wifi_bluetooth_pill.html"@.len());
            assert("assets/web_wallpapers/04-astronomy-clocks/astronomy_canvas_stars.html"@.len() != "assets/widgets/minimal_clock_stats.html"@.len());
            assert("assets/web_wallpapers/04-astronomy-clocks/astronomy_canvas_stars.html"@.len() != "assets/web_wallpapers/01-fluid-particles/webgl_fluid_simulation.html"@.len());
            assert("assets/web_wallpapers/04-astronomy-clocks/astronomy_canvas_stars.html"@.len() != "assets/web_wallpapers/01-fluid-particles/tsparticles_constellation.html"@.len());
            assert("assets/web_wallpapers/04-astronomy-clocks/astronomy_canvas_stars.html"@.len() != "assets/web_wallpapers/01-fluid-particles/fieldplay_vector_flow.html"@.len());
            assert("assets/web_wallpapers/04-astronomy-clocks/astronomy_canvas_stars.html"@.len() != "assets/web_wallpapers/01-fluid-particles/particle_image_dispersion.html"@.len());
            assert("assets/web_wallpapers/04-astronomy-clocks/astronomy_canvas_stars.html"@.len() != "assets/web_wallpapers/02-3d-procedural/vanta_waves_topology.html"@.len());
            assert("assets/web_wallpapers/04-astronomy-clocks/astronomy_canvas_stars.html"@.len() != "assets/web_wallpapers/02-3d-procedural/pathtracing_glass_refraction.html"@.len());
            assert("assets/web_wallpapers/04-astronomy-clocks/astronomy_canvas_stars.html"@.len() != "assets/web_wallpapers/02-3d-procedural/point_cloud_3d_sculpture.html"@.len());
            assert("assets/web_wallpapers/04-astronomy-clocks/astronomy_canvas_stars.html"@.len() != "assets/web_wallpapers/02-3d-procedural/threejs_ocean_glitch_visualizer.html"@.len());
            assert("assets/web_wallpapers/04-astronomy-clocks/astronomy_canvas_stars.html"@.len() != "assets/web_wallpapers/03-retro-cyberpunk/rezmason_matrix_3d.html"@.len());
            assert("assets/web_wallpapers/04-astronomy-clocks/astronomy_canvas_stars.html"@.len() != "assets/web_wallpapers/03-retro-cyberpunk/retro_grid_synthwave.html"@.len());
            assert("assets/web_wallpapers/04-astronomy-clocks/astronomy_canvas_stars.html"@.len() != "assets/web_wallpapers/03-retro-cyberpunk/v86_os_canvas_terminal.html"@.len());
            assert("assets/web_wallpapers/04-astronomy-clocks/astronomy_canvas_stars.html"@.len() != "assets/web_wallpapers/04-astronomy-clocks/twenty_fifth_hour_daynight.html"@.len());
            assert(builtin_rank(b[15].1) == 15);
        } else if i == 16 {
            assert(b[16].1 == "assets/web_wallpapers/04-astronomy-clocks/orbital_minimal_clock.html"@);
            assert("assets/web_wallpapers/04-astronomy-clocks/orbital_minimal_clock.html"@.len() != "assets/widgets/desktop_hud.html"@.len());
            assert("assets/web_wallpapers/04-astronomy-clocks/orbital_minimal_clock.html"@.len() != "assets/widgets/wifi_bluetooth_pill.html"@.len());
            assert("assets/web_wallpapers/04-astronomy-clocks/orbital_minimal_clock.html"@.len() != "assets/widgets/minimal_clock_stats.html"@.len());
            assert("assets/web_wallpapers/04-astronomy-clocks/orbital_minimal_clock.html"@ != "assets/web_wallpapers/01-fluid-particles/webgl_fluid_simulation.html"@);
            assert("assets/web_wallpapers/04-astronomy-clocks/orbital_minimal_clock.html"@.len() != "assets/web_wallpapers/01-fluid-particles/tsparticles_constellation.html"@.len());
            assert("assets/web_wallpapers/04-astronomy-clocks/orbital_minimal_clock.html"@.len() != "assets/web_wallpapers/01-fluid-particles/fieldplay_vector_flow.html"@.len());
            assert("assets/web_wallpapers/04-astronomy-clocks/orbital_minimal_clock.html"@.len() != "assets/web_wallpapers/01-fluid-particles/particle_image_dispersion.html"@.len());
            assert("assets/web_wallpapers/04-astronomy-clocks/orbital_minimal_clock.html"@.len() != "assets/web_wallpapers/02-3d-procedural/vanta_waves_topology.html"@.len());
            assert("assets/web_wallpapers/04-astronomy-clocks/orbital_minimal_clock.html"@.len() != "assets/web_wallpapers/02-3d-procedural/pathtracing_glass_refraction.html"@.len());
            assert("assets/web_wallpapers/04-astronomy-clocks/orbital_minimal_clock.html"@ != "assets/web_wallpapers/02-3d-procedural/point_cloud_3d_sculpture.html"@);
            assert("assets/web_wallpapers/04-astronomy-clocks/orbital_minimal_clock.html"@.len() != "assets/web_wallpapers/02-3d-procedural/threejs_ocean_glitch_visualizer.html"@.len());
            assert("assets/web_wallpapers/04-astronomy-clocks/orbital_minimal_clock.html"@.len() != "assets/web_wallpapers/03-retro-cyberpunk/rezmason_matrix_3d.html"@.len());
            assert("assets/web_wallpapers/04-astronomy-clocks/orbital_minimal_clock.html"@.len() != "assets/web_wallpapers/03-retro-cyberpunk/retro_grid_synthwave.html"@.len());
            assert("assets/web_wallpapers/04-astronomy-clocks/orbital_minimal_clock.html"@ != "assets/web_wallpapers/03-retro-cyberpunk/v86_os_canvas_terminal.html"@);
            assert("assets/web_wallpapers/04-astronomy-clocks/orbital_minimal_clock.html"@.len() != "assets/web_wallpapers/04-astronomy-clocks/twenty_fifth_hour_daynight.html"@.len());
            assert("assets/web_wallpapers/04-astronomy-clocks/orbital_minimal_clock.html"@.len() != "assets/web_wallpapers/04-astronomy-clocks/astronomy_canvas_stars.html"@.len());
            assert(builtin_rank(b[16].1) == 16);
        } else if i == 17 {
            assert(b[17].1 == "assets/web_wallpapers/05-audio-shaders/gl_audio_spectrum_analyzer.html"@);
            assert("assets/web_wallpapers/05-audio-shaders/gl_audio_spectrum_analyzer.html"@.len() != "assets/widgets/desktop_hud.html"@.len());
            assert("assets/web_wallpapers/05-audio-shaders/gl_audio_spectrum_analyzer.html"@.len() != "assets/widgets/wifi_bluetooth_pill.html"@.len());
            assert("assets/web_wallpapers/05-audio-shaders/gl_audio_spectrum_analyzer.html"@.len() != "assets/widgets/minimal_clock_stats.html"@.len());
            assert("assets/web_wallpapers/05-audio-shaders/gl_audio_spectrum_analyzer.html"@.len() != "assets/web_wallpapers/01-fluid-particles/webgl_fluid_simulation.html"@.len());
            assert("assets/web_wallpapers/05-audio-shaders/gl_audio_spectrum_analyzer.html"@.len() != "assets/web_wallpapers/01-fluid-particles/tsparticles_constellation.html"@.len());
            assert("assets/web_wallpapers/05-audio-shaders/gl_audio_spectrum_analyzer.html"@.len() != "assets/web_wallpapers/01-fluid-particles/fieldplay_vector_flow.html"@.len());
            assert("assets/web_wallpapers/05-audio-shaders/gl_audio_spectrum_analyzer.html"@.len() != "assets/web_wallpapers/01-fluid-particles/particle_image_dispersion.html"@.len());
            assert("assets/web_wallpapers/05-audio-shaders/gl_audio_spectrum_analyzer.html"@.len() != "assets/web_wallpapers/02-3d-procedural/vanta_waves_topology.html"@.len());
            assert("assets/web_wallpapers/05-audio-shaders/gl_audio_spectrum_analyzer.html"@.len() != "assets/web_wallpapers/02-3d-procedural/pathtracing_glass_refraction.html"@.len());
            assert("assets/web_wallpapers/05-audio-shaders/gl_audio_spectrum_analyzer.html"@.len() != "assets/web_wallpapers/02-3d-procedural/point_cloud_3d_sculpture.html"@.len());
            assert("assets/web_wallpapers/05-audio-shaders/gl_audio_spectrum_analyzer.html"@.len() != "assets/web_wallpapers/02-3d-procedural/threejs_ocean_glitch_visualizer.html"@.len());
            assert("assets/web_wallpapers/05-audio-shaders/gl_audio_spectrum_analyzer.html"@.len() != "assets/web_wallpapers/03-retro-cyberpunk/rezmason_matrix_3d.html"@.len());
            assert("assets/web_wallpapers/05-audio-shaders/gl_audio_spectrum_analyzer.html"@.len() != "assets/web_wallpapers/03-retro-cyberpunk/retro_grid_synthwave.html"@.len());
            assert("assets/web_wallpapers/05-audio-shaders/gl_audio_spectrum_analyzer.html"@.len() != "assets/web_wallpapers/03-retro-cyberpunk/v86_os_canvas_terminal.html"@.len());
            assert("assets/web_wallpapers/05-audio-shaders/gl_audio_spectrum_analyzer.html"@.len() != "assets/web_wallpapers/04-astronomy-clocks/twenty_fifth_hour_daynight.html"@.len());
            assert("assets/web_wallpapers/05-audio-shaders/gl_audio_spectrum_analyzer.html"@.len() != "assets/web_wallpapers/04-astronomy-clocks/astronomy_canvas_stars.html"@.len());
            assert("assets/web_wallpapers/05-audio-shaders/gl_audio_spectrum_analyzer.html"@.len() != "assets/web_wallpapers/04-astronomy-clocks/orbital_minimal_clock.html"@.len());
            assert(builtin_rank(b[17].1) == 17);
        } else if i == 18 {
            assert(b[18].1 == "assets/web_wallpapers/05-audio-shaders/circular_waveform_audiovisualizer.html"@);
            assert("assets/web_wallpapers/05-audio-shaders/circular_waveform_audiovisualizer.html"@.len() != "assets/widgets/desktop_hud.html"@.len());
            assert("assets/web_wallpapers/05-audio-shaders/circular_waveform_audiovisualizer.html"@.len() != "assets/widgets/wifi_bluetooth_pill.html"@.len());
            assert("assets/web_wallpapers/05-audio-shaders/circular_waveform_audiovisualizer.html"@.len() != "assets/widgets/minimal_clock_stats.html"@.len());
            assert("assets/web_wallpapers/05-audio-shaders/circular_waveform_audiovisualizer.html"@.len() != "assets/web_wallpapers/01-fluid-particles/webgl_fluid_simulation.html"@.len());
            assert("assets/web_wallpapers/05-audio-shaders/circular_waveform_audiovisualizer.html"@.len() != "assets/web_wallpapers/01-fluid-particles/tsparticles_constellation.html"@.len());
            assert("assets/web_wallpapers/05-audio-shaders/circular_waveform_audiovisualizer.html"@.len() != "assets/web_wallpapers/01-fluid-particles/fieldplay_vector_flow.html"@.len());
            assert("assets/web_wallpapers/05-audio-shaders/circular_waveform_audiovisualizer.html"@.len() != "assets/web_wallpapers/01-fluid-particles/particle_image_dispersion.html"@.len());
            assert("assets/web_wallpapers/05-audio-shaders/circular_waveform_audiovisualizer.html"@.len() != "assets/web_wallpapers/02-3d-procedural/vanta_waves_topology.html"@.len());
            assert("assets/web_wallpapers/05-audio-shaders/circular_waveform_audiovisualizer.html"@.len() != "assets/web_wallpapers/02-3d-procedural/pathtracing_glass_refraction.html"@.len());
            assert("assets/web_wallpapers/05-audio-shaders/circular_waveform_audiovisualizer.html"@.len() != "assets/web_wallpapers/02-3d-procedural/point_cloud_3d_sculpture.html"@.len());
            assert("assets/web_wallpapers/05-audio-shaders/circular_waveform_audiovisualizer.html"@.len() != "assets/web_wallpapers/02-3d-procedural/threejs_ocean_glitch_visualizer.html"@.len());
            assert("assets/web_wallpapers/05-audio-shaders/circular_waveform_audiovisualizer.html"@.len() != "assets/web_wallpapers/03-retro-cyberpunk/rezmason_matrix_3d.html"@.len());
            assert("assets/web_wallpapers/05-audio-shaders/circular_waveform_audiovisualizer.html"@.len() != "assets/web_wallpapers/03-retro-cyberpunk/retro_grid_synthwave.html"@.len());
            assert("assets/web_wallpapers/05-audio-shaders/circular_waveform_audiovisualizer.html"@.len() != "assets/web_wallpapers/03-retro-cyberpunk/v86_os_canvas_terminal.html"@.len());
            assert("assets/web_wallpapers/05-audio-shaders/circular_waveform_audiovisualizer.html"@.len() != "assets/web_wallpapers/04-astronomy-clocks/twenty_fifth_hour_daynight.html"@.len());
            assert("assets/web_wallpapers/05-audio-shaders/circular_waveform_audiovisualizer.html"@.len() != "assets/web_wallpapers/04-astronomy-clocks/astronomy_canvas_stars.html"@.len());
            assert("assets/web_wallpapers/05-audio-shaders/circular_waveform_audiovisualizer.html"@.len() != "assets/web_wallpapers/04-astronomy-clocks/orbital_minimal_clock.html"@.len());
            assert("assets/web_wallpapers/05-audio-shaders/circular_waveform_audiovisualizer.html"@.len() != "assets/web_wallpapers/05-audio-shaders/gl_audio_spectrum_analyzer.html"@.len());
            assert(builtin_rank(b[18].1) == 18);
        } else if i == 19 {
            assert(b[19].1 == "assets/web_wallpapers/05-audio-shaders/glsl_canvas_live_shader.html"@);
            assert("assets/web_wallpapers/05-audio-shaders/glsl_canvas_live_shader.html"@.len() != "assets/widgets/desktop_hud.html"@.len());
            assert("assets/web_wallpapers/05-audio-shaders/glsl_canvas_live_shader.html"@.len() != "assets/widgets/wifi_bluetooth_pill.html"@.len());
            assert("assets/web_wallpapers/05-audio-shaders/glsl_canvas_live_shader.html"@.len() != "assets/widgets/minimal_clock_stats.html"@.len());
            assert("assets/web_wallpapers/05-audio-shaders/glsl_canvas_live_shader.html"@.len() != "assets/web_wallpapers/01-fluid-particles/webgl_fluid_simulation.html"@.len());
            assert("assets/web_wallpapers/05-audio-shaders/glsl_canvas_live_shader.html"@.len() != "assets/web_wallpapers/01-fluid-particles/tsparticles_constellation.html"@.len());
            assert("assets/web_wallpapers/05-audio-shaders/glsl_canvas_live_shader.html"@ != "assets/web_wallpapers/01-fluid-particles/fieldplay_vector_flow.html"@);
            assert("assets/web_wallpapers/05-audio-shaders/glsl_canvas_live_shader.html"@.len() != "assets/web_wallpapers/01-fluid-particles/particle_image_dispersion.html"@.len());
            assert("assets/web_wallpapers/05-audio-shaders/glsl_canvas_live_shader.html"@.len() != "assets/web_wallpapers/02-3d-procedural/vanta_waves_topology.html"@.len());
            assert("assets/web_wallpapers/05-audio-shaders/glsl_canvas_live_shader.html"@.len() != "assets/web_wallpapers/02-3d-procedural/pathtracing_glass_refraction.html"@.len());
            assert("assets/web_wallpapers/05-audio-shaders/glsl_canvas_live_shader.html"@.len() != "assets/web_wallpapers/02-3d-procedural/point_cloud_3d_sculpture.html"@.len());
            assert("assets/web_wallpapers/05-audio-shaders/glsl_canvas_live_shader.html"@.len() != "assets/web_wallpapers/02-3d-procedural/threejs_ocean_glitch_visualizer.html"@.len());
            assert("assets/web_wallpapers/05-audio-shaders/glsl_canvas_live_shader.html"@.len() != "assets/web_wallpapers/03-retro-cyberpunk/rezmason_matrix_3d.html"@.len());
            assert("assets/web_wallpapers/05-audio-shaders/glsl_canvas_live_shader.html"@.len() != "assets/web_wallpapers/03-retro-cyberpunk/retro_grid_synthwave.html"@.len());
            assert("assets/web_wallpapers/05-audio-shaders/glsl_canvas_live_shader.html"@.len() != "assets/web_wallpapers/03-retro-cyberpunk/v86_os_canvas_terminal.html"@.len());
            assert("assets/web_wallpapers/05-audio-shaders/glsl_canvas_live_shader.html"@.len() != "assets/web_wallpapers/04-astronomy-clocks/twenty_fifth_hour_daynight.html"@.len());
            assert("assets/web_wallpapers/05-audio-shaders/glsl_canvas_live_shader.html"@.len() != "assets/web_wallpapers/04-astronomy-clocks/astronomy_canvas_stars.html"@.len());
            assert("assets/web_wallpapers/05-audio-shaders/glsl_canvas_live_shader.html"@.len() != "assets/web_wallpapers/04-astronomy-clocks/orbital_minimal_clock.html"@.len());
            assert("assets/web_wallpapers/05-audio-shaders/glsl_canvas_live_shader.html"@.len() != "assets/web_wallpapers/05-audio-shaders/gl_audio_spectrum_analyzer.html"@.len());
            assert("assets/web_wallpapers/05-audio-shaders/glsl_canvas_live_shader.html"@.len() != "assets/web_wallpapers/05-audio-shaders/circular_waveform_audiovisualizer.html"@.len());
            assert(builtin_rank(b[19].1) == 19);
        } else if i == 20 {
            assert(b[20].1 == "assets/web_wallpapers/05-audio-shaders/threejs_postprocessing_bloom.html"@);
            assert("assets/web_wallpapers/05-audio-shaders/threejs_postprocessing_bloom.html"@.len() != "assets/widgets/desktop_hud.html"@.len());
            assert("assets/web_wallpapers/05-audio-shaders/threejs_postprocessing_bloom.html"@.len() != "assets/widgets/wifi_bluetooth_pill.html"@.len());
            assert("assets/web_wallpapers/05-audio-shaders/threejs_postprocessing_bloom.html"@.len() != "assets/widgets/minimal_clock_stats.html"@.len());
            assert("assets/web_wallpapers/05-audio-shaders/threejs_postprocessing_bloom.html"@.len() != "assets/web_wallpapers/01-fluid-particles/webgl_fluid_simulation.html"@.len());
            assert("assets/web_wallpapers/05-audio-shaders/threejs_postprocessing_bloom.html"@.len() != "assets/web_wallpapers/01-fluid-particles/tsparticles_constellation.html"@.len());
            assert("assets/web_wallpapers/05-audio-shaders/threejs_postprocessing_bloom.html"@.len() != "assets/web_wallpapers/01-fluid-particles/fieldplay_vector_flow.html"@.len());
            assert("assets/web_wallpapers/05-audio-shaders/threejs_postprocessing_bloom.html"@.len() != "assets/web_wallpapers/01-fluid-particles/particle_image_dispersion.html"@.len());
            assert("assets/web_wallpapers/05-audio-shaders/threejs_postprocessing_bloom.html"@.len() != "assets/web_wallpapers/02-3d-procedural/vanta_waves_topology.html"@.len());
            assert("assets/web_wallpapers/05-audio-shaders/threejs_postprocessing_bloom.html"@ != "assets/web_wallpapers/02-3d-procedural/pathtracing_glass_refraction.html"@);
            assert("assets/web_wallpapers/05-audio-shaders/threejs_postprocessing_bloom.html"@.len() != "assets/web_wallpapers/02-3d-procedural/point_cloud_3d_sculpture.html"@.len());
            assert("assets/web_wallpapers/05-audio-shaders/threejs_postprocessing_bloom.html"@.len() != "assets/web_wallpapers/02-3d-procedural/threejs_ocean_glitch_visualizer.html"@.len());
            assert("assets/web_wallpapers/05-audio-shaders/threejs_postprocessing_bloom.html"@.len() != "assets/web_wallpapers/03-retro-cyberpunk/rezmason_matrix_3d.html"@.len());
            assert("assets/web_wallpapers/05-audio-shaders/threejs_postprocessing_bloom.html"@.len() != "assets/web_wallpapers/03-retro-cyberpunk/retro_grid_synthwave.html"@.len());
            assert("assets/web_wallpapers/05-audio-shaders/threejs_postprocessing_bloom.html"@.len() != "assets/web_wallpapers/03-retro-cyberpunk/v86_os_canvas_terminal.html"@.len());
            assert("assets/web_wallpapers/05-audio-shaders/threejs_postprocessing_bloom.html"@.len() != "assets/web_wallpapers/04-astronomy-clocks/twenty_fifth_hour_daynight.html"@.len());
            assert("assets/web_wallpapers/05-audio-shaders/threejs_postprocessing_bloom.html"@.len() != "assets/web_wallpapers/04-astronomy-clocks/astronomy_canvas_stars.html"@.len());
            assert("assets/web_wallpapers/05-audio-shaders/threejs_postprocessing_bloom.html"@.len() != "assets/web_wallpapers/04-astronomy-clocks/orbital_minimal_clock.html"@.len());
            assert("assets/web_wallpapers/05-audio-shaders/threejs_postprocessing_bloom.html"@.len() != "assets/web_wallpapers/05-audio-shaders/gl_audio_spectrum_analyzer.html"@.len());
            assert("assets/web_wallpapers/05-audio-shaders/threejs_postprocessing_bloom.html"@.len() != "assets/web_wallpapers/05-audio-shaders/circular_waveform_audiovisualizer.html"@.len());
            assert("assets/web_wallpapers/05-audio-shaders/threejs_postprocessing_bloom.html"@.len() != "assets/web_wallpapers/05-audio-shaders/glsl_canvas_live_shader.html"@.len());
            assert(builtin_rank(b[20].1) == 20);
        }
    }
    assert forall|i: int, j: int| 0 <= i < j < 21 implies (#[trigger] b[i]).1 != (#[trigger] b[j]).1 by {
        assert(builtin_rank(b[i].1) == i);
        assert(builtin_rank(b[j].1) == j);
    }
}

/// The bookmarks offered by default, by their views: the scanned ones
/// when there are any, else the built-in list.
pub open spec fn default_bookmarks_of(
    scanned: Seq<(Seq<char>, Seq<char>, Seq<char>, bool)>,
) -> Seq<(Seq<char>, Seq<char>, Seq<char>, bool)> {
    if scanned.len() > 0 {
        scanned
    } else {
        builtin_bookmarks()
    }
}

/// The default bookmarks are the scanned ones, unchanged, whenever any was
/// found; otherwise they are the twenty-one built-in demo bookmarks, with
/// pairwise distinct addresses, the desktop HUD first and the bloom shader
/// last.
pub proof fn law_default_bookmarks(scanned: Seq<(Seq<char>, Seq<char>, Seq<char>, bool)>)
    ensures
        scanned.len() > 0 ==> default_bookmarks_of(scanned) == scanned,
        scanned.len() == 0 ==> {
            let r = default_bookmarks_of(scanned);
            &&& r.len() == 21
            &&& forall|i: int| 0 <= i < r.len() ==> (#[trigger] r[i]).3
            &&& forall|i: int, j: int| 0 <= i < j < r.len() ==> (#[trigger] r[i]).1 != (#[trigger] r[j]).1
            &&& r[0].1 == "assets/widgets/desktop_hud.html"@
            &&& r[20].1 == "assets/web_wallpapers/05-audio-shaders/threejs_postprocessing_bloom.html"@
        },
{
    law_builtin_bookmarks();
}

} // verus!
