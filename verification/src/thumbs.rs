//! The thumbnail and animated-preview cache of the settings window: which
//! file stands for which wallpaper, and the commands that make them.
use vstd::prelude::*;
use vstd::utf8::encode_utf8;
use crate::gui::{djb2, md5_hash};
use crate::paths::{extension, extension_of, file_name, file_name_of, join, join_path, name_stem, name_stem_of};
use crate::steam_workshop::{hex_lower, lemma_hex_lower_len, p16, push_hex_lower};
use crate::text::{chars_of, eq_str, extend_chars, extend_str, lowercase, slice_of, string_of, to_lowercase};

verus! {

broadcast use vstd::string::group_string_axioms;

/// The directory of the cached thumbnails.
pub open spec fn thumb_dir() -> Seq<char> {
    "/tmp/omywall_thumbs"@
}

/// The hash of a text names its cache files by its first eight
/// hexadecimal digits; it has eight when it is at least 16^7.
pub open spec fn hash_has_eight(key: Seq<char>) -> bool {
    djb2(encode_utf8(key)) >= 0x1000_0000
}

/// The first eight hexadecimal digits of the hash of `key`.
pub open spec fn hash8(key: Seq<char>) -> Seq<char> {
    hex_lower(djb2(encode_utf8(key)) as nat).take(8)
}

/// The extension of a path in lower case, the empty text's when it has
/// none.
pub open spec fn lower_ext(p: Seq<char>) -> Seq<char> {
    lowercase(
        match extension(p) {
            Some(e) => e,
            None => seq![],
        },
    )
}

/// The stem of a path's file name, or `d` when it has no file name.
pub open spec fn stem_or(p: Seq<char>, d: Seq<char>) -> Seq<char> {
    match file_name(p) {
        Some(n) => name_stem(n),
        None => d,
    }
}

/// A still image the window shows as it is.
pub open spec fn is_still_ext(e: Seq<char>) -> bool {
    e == "png"@ || e == "jpg"@ || e == "jpeg"@ || e == "webp"@
}

/// A clip an animated preview is made of.
pub open spec fn is_clip_ext(e: Seq<char>) -> bool {
    e == "mp4"@ || e == "mkv"@ || e == "webm"@ || e == "avi"@ || e == "mov"@ || e == "gif"@ || e == "flv"@
        || e == "m4v"@ || e == "wmv"@
}

/// A file the window takes its thumbnail from the file itself (a clip or
/// a still image), rather than from a rendered page.
pub open spec fn is_media_ext(e: Seq<char>) -> bool {
    e == "mp4"@ || e == "mkv"@ || e == "webm"@ || e == "avi"@ || e == "mov"@ || e == "gif"@ || e == "png"@
        || e == "jpg"@ || e == "jpeg"@ || e == "webp"@
}

fn lower_extension(p: &str) -> (r: String)
    ensures
        r@ == lower_ext(p@),
{
    let e = match extension_of(p) {
        Some(v) => string_of(v.as_slice()),
        None => String::new(),
    };
    to_lowercase(e.as_str())
}

fn stem_of(p: &str, d: &str) -> (r: Vec<char>)
    ensures
        r@ == stem_or(p@, d@),
{
    match file_name_of(p) {
        Some(n) => name_stem_of(n.as_slice()),
        None => chars_of(d),
    }
}

fn hash_prefix(key: &str) -> (r: Vec<char>)
    requires
        hash_has_eight(key@),
    ensures
        r@ == hash8(key@),
{
    let h = md5_hash(key.as_bytes());
    let mut hx: Vec<char> = Vec::new();
    push_hex_lower(&mut hx, h);
    proof {
        reveal_with_fuel(p16, 8);
        assert(p16(7) == 0x1000_0000);
        lemma_hex_lower_len(h as nat, 7);
    }
    slice_of(hx.as_slice(), 0, 8)
}

/// Where the thumbnail of a wallpaper file comes from.
#[derive(Debug, Clone, PartialEq)]
pub enum ThumbnailPlan {
    /// A still image is its own thumbnail.
    Direct(String),
    /// Any other file gets a cached thumbnail made from it; `key` marks
    /// the job making it and `ext` (in lower case) picks the placeholder.
    Cached { file: String, key: String, ext: String },
}

/// The cached thumbnail of `p`: `<stem>_<hash>.jpg` in the thumbnail
/// directory.
pub open spec fn thumb_file_of(p: Seq<char>) -> Seq<char> {
    join(thumb_dir(), stem_or(p, "thumb"@) + "_"@ + hash8(p) + ".jpg"@)
}

/// The inputs the file name of a thumbnail can be formed for.
pub open spec fn thumbnail_named(p: Seq<char>) -> bool {
    is_still_ext(lower_ext(p)) || hash_has_eight(p)
}

/// `r` is the thumbnail plan of the file at `p`.
pub open spec fn thumbnail_plan_of(p: Seq<char>, r: ThumbnailPlan) -> bool {
    if is_still_ext(lower_ext(p)) {
        r matches ThumbnailPlan::Direct(x) && x@ == p
    } else {
        r matches ThumbnailPlan::Cached { file, key, ext } && file@ == thumb_file_of(p) && key@ == p && ext@
            == lower_ext(p)
    }
}

/// The thumbnail of the wallpaper file at `video_path`.
pub fn thumbnail_plan(video_path: &str) -> (r: ThumbnailPlan)
    requires
        thumbnail_named(video_path@),
    ensures
        thumbnail_plan_of(video_path@, r),
{
    let ext = lower_extension(video_path);
    let ec = chars_of(ext.as_str());
    if eq_str(ec.as_slice(), "png") || eq_str(ec.as_slice(), "jpg") || eq_str(ec.as_slice(), "jpeg") || eq_str(
        ec.as_slice(),
        "webp",
    ) {
        return ThumbnailPlan::Direct(video_path.to_string());
    }
    let mut name = stem_of(video_path, "thumb");
    extend_str(&mut name, "_");
    let h = hash_prefix(video_path);
    extend_chars(&mut name, h.as_slice());
    extend_str(&mut name, ".jpg");
    let file = join_path("/tmp/omywall_thumbs", string_of(name.as_slice()).as_str());
    ThumbnailPlan::Cached { file, key: video_path.to_string(), ext }
}

/// The thumbnail of the wallpaper file at `video_path`, or nothing when
/// its cache file cannot be named (its hash has fewer than eight digits).
pub fn thumbnail_plan_checked(video_path: &str) -> (r: Option<ThumbnailPlan>)
    ensures
        match r {
            Some(t) => thumbnail_named(video_path@) && thumbnail_plan_of(video_path@, t),
            None => !thumbnail_named(video_path@),
        },
{
    let ext = lower_extension(video_path);
    let ec = chars_of(ext.as_str());
    let still = eq_str(ec.as_slice(), "png") || eq_str(ec.as_slice(), "jpg") || eq_str(ec.as_slice(), "jpeg")
        || eq_str(ec.as_slice(), "webp");
    if still || md5_hash(video_path.as_bytes()) >= 0x1000_0000 {
        Some(thumbnail_plan(video_path))
    } else {
        None
    }
}

/// The commands tried in turn to grab a frame of `input` into `thumb`:
/// ffmpeg half a second in, ffmpeg at the start, then mpv.
pub open spec fn thumbnail_commands_of(input: Seq<char>, thumb: Seq<char>) -> Seq<Seq<Seq<char>>> {
    seq![
        seq!["ffmpeg"@, "-ss"@, "00:00:00.500"@, "-i"@, input, "-vframes"@, "1"@, "-s"@, "320x180"@, "-y"@, thumb],
        seq!["ffmpeg"@, "-i"@, input, "-vframes"@, "1"@, "-s"@, "320x180"@, "-y"@, thumb],
        seq!["mpv"@, "--no-audio"@, "--frames=1"@, "--o="@ + thumb, input],
    ]
}

/// The texts of a vector of strings.
pub open spec fn texts(v: Seq<String>) -> Seq<Seq<char>> {
    v.map_values(|x: String| x@)
}

/// The programs and arguments tried in turn to make the thumbnail `thumb`
/// of `input`.
pub fn thumbnail_commands(input: &str, thumb: &str) -> (r: Vec<Vec<String>>)
    ensures
        r@.map_values(|c: Vec<String>| texts(c@)) == thumbnail_commands_of(input@, thumb@),
{
    let mut a: Vec<String> = Vec::new();
    a.push("ffmpeg".to_string());
    a.push("-ss".to_string());
    a.push("00:00:00.500".to_string());
    a.push("-i".to_string());
    a.push(input.to_string());
    a.push("-vframes".to_string());
    a.push("1".to_string());
    a.push("-s".to_string());
    a.push("320x180".to_string());
    a.push("-y".to_string());
    a.push(thumb.to_string());
    let mut b: Vec<String> = Vec::new();
    b.push("ffmpeg".to_string());
    b.push("-i".to_string());
    b.push(input.to_string());
    b.push("-vframes".to_string());
    b.push("1".to_string());
    b.push("-s".to_string());
    b.push("320x180".to_string());
    b.push("-y".to_string());
    b.push(thumb.to_string());
    let mut o = "--o=".to_string();
    o.append(thumb);
    let mut c: Vec<String> = Vec::new();
    c.push("mpv".to_string());
    c.push("--no-audio".to_string());
    c.push("--frames=1".to_string());
    c.push(o);
    c.push(input.to_string());
    assert(texts(a@) =~= thumbnail_commands_of(input@, thumb@)[0]);
    assert(texts(b@) =~= thumbnail_commands_of(input@, thumb@)[1]);
    assert(texts(c@) =~= thumbnail_commands_of(input@, thumb@)[2]);
    let mut r: Vec<Vec<String>> = Vec::new();
    r.push(a);
    r.push(b);
    r.push(c);
    assert(r@.map_values(|c: Vec<String>| texts(c@)) =~= thumbnail_commands_of(input@, thumb@));
    r
}

/// The animated preview of a clip: its cache file, the partial file it is
/// written to first, and the key marking the job.
#[derive(Debug, Clone, PartialEq)]
pub struct GifPlan {
    pub file: String,
    pub part: String,
    pub key: String,
}

/// The cached animated preview of `p`: `<stem>_<hash>.gif`.
pub open spec fn gif_file_of(p: Seq<char>) -> Seq<char> {
    join(thumb_dir(), stem_or(p, "clip"@) + "_"@ + hash8(p) + ".gif"@)
}

/// The inputs the animated preview of which can be named.
pub open spec fn gif_named(p: Seq<char>) -> bool {
    !is_clip_ext(lower_ext(p)) || hash_has_eight(p)
}

/// The animated preview of the file at `p`: none but for clips.
pub open spec fn gif_plan_of(p: Seq<char>, r: Option<GifPlan>) -> bool {
    if is_clip_ext(lower_ext(p)) {
        r matches Some(g) && g.file@ == gif_file_of(p) && g.part@ == gif_file_of(p) + ".part"@ && g.key@ == p
            + "::gif"@
    } else {
        r is None
    }
}

/// The animated preview of the wallpaper file at `video_path`.
pub fn gif_preview_plan(video_path: &str) -> (r: Option<GifPlan>)
    requires
        gif_named(video_path@),
    ensures
        gif_plan_of(video_path@, r),
{
    let ext = lower_extension(video_path);
    let e = chars_of(ext.as_str());
    let s = e.as_slice();
    if !(eq_str(s, "mp4") || eq_str(s, "mkv") || eq_str(s, "webm") || eq_str(s, "avi") || eq_str(s, "mov")
        || eq_str(s, "gif") || eq_str(s, "flv") || eq_str(s, "m4v") || eq_str(s, "wmv")) {
        return None;
    }
    let mut name = stem_of(video_path, "clip");
    extend_str(&mut name, "_");
    let h = hash_prefix(video_path);
    extend_chars(&mut name, h.as_slice());
    extend_str(&mut name, ".gif");
    let file = join_path("/tmp/omywall_thumbs", string_of(name.as_slice()).as_str());
    let mut part = file.clone();
    part.append(".part");
    let mut key = video_path.to_string();
    key.append("::gif");
    Some(GifPlan { file, part, key })
}

/// The animated preview of the wallpaper file at `video_path`; nothing
/// for a file that is not a clip or whose cache file cannot be named.
pub fn gif_preview_plan_checked(video_path: &str) -> (r: Option<GifPlan>)
    ensures
        gif_named(video_path@) ==> gif_plan_of(video_path@, r),
        !gif_named(video_path@) ==> r is None,
{
    if md5_hash(video_path.as_bytes()) >= 0x1000_0000 {
        return gif_preview_plan(video_path);
    }
    let ext = lower_extension(video_path);
    let e = chars_of(ext.as_str());
    let s = e.as_slice();
    if eq_str(s, "mp4") || eq_str(s, "mkv") || eq_str(s, "webm") || eq_str(s, "avi") || eq_str(s, "mov")
        || eq_str(s, "gif") || eq_str(s, "flv") || eq_str(s, "m4v") || eq_str(s, "wmv") {
        None
    } else {
        gif_preview_plan(video_path)
    }
}

/// The ffmpeg arguments that turn the first four seconds of `input` into
/// a small looping GIF written to `part`.
pub open spec fn gif_command_of(input: Seq<char>, part: Seq<char>) -> Seq<Seq<char>> {
    seq![
        "-y"@,
        "-hide_banner"@,
        "-loglevel"@,
        "error"@,
        "-t"@,
        "4"@,
        "-i"@,
        input,
        "-vf"@,
        "fps=12,scale=320:180:flags=lanczos,split[s0][s1];[s0]palettegen=max_colors=128[p];[s1][p]paletteuse=dither=bayer:bayer_scale=3"@,
        "-f"@,
        "gif"@,
        part,
    ]
}

/// The ffmpeg arguments that make the animated preview of `input`.
pub fn gif_command(input: &str, part: &str) -> (r: Vec<String>)
    ensures
        texts(r@) == gif_command_of(input@, part@),
{
    let mut a: Vec<String> = Vec::new();
    a.push("-y".to_string());
    a.push("-hide_banner".to_string());
    a.push("-loglevel".to_string());
    a.push("error".to_string());
    a.push("-t".to_string());
    a.push("4".to_string());
    a.push("-i".to_string());
    a.push(input.to_string());
    a.push("-vf".to_string());
    a.push(
        "fps=12,scale=320:180:flags=lanczos,split[s0][s1];[s0]palettegen=max_colors=128[p];[s1][p]paletteuse=dither=bayer:bayer_scale=3".to_string(),
    );
    a.push("-f".to_string());
    a.push("gif".to_string());
    a.push(part.to_string());
    assert(texts(a@) =~= gif_command_of(input@, part@));
    a
}

/// Where the thumbnail of a web wallpaper comes from.
#[derive(Debug, Clone, PartialEq)]
pub enum WebThumbPlan {
    /// A media file: as for any wallpaper file.
    Media(ThumbnailPlan),
    /// A page: a rendered snapshot, cached as `web_<hash>.jpg`.
    Page(String),
}

/// `r` is the thumbnail plan of the web wallpaper resolved to `p`.
pub open spec fn web_thumb_plan_of(p: Seq<char>, r: WebThumbPlan) -> bool {
    if is_media_ext(lower_ext(p)) {
        r matches WebThumbPlan::Media(t) && thumbnail_plan_of(p, t)
    } else {
        r matches WebThumbPlan::Page(f) && f@ == join(thumb_dir(), "web_"@ + hash8(p) + ".jpg"@)
    }
}

/// The thumbnail of the web wallpaper whose address resolved to
/// `resolved`.
pub fn web_thumbnail_plan(resolved: &str) -> (r: WebThumbPlan)
    requires
        thumbnail_named(resolved@),
    ensures
        web_thumb_plan_of(resolved@, r),
{
    let ext = lower_extension(resolved);
    let e = chars_of(ext.as_str());
    let s = e.as_slice();
    if eq_str(s, "mp4") || eq_str(s, "mkv") || eq_str(s, "webm") || eq_str(s, "avi") || eq_str(s, "mov") || eq_str(
        s,
        "gif",
    ) || eq_str(s, "png") || eq_str(s, "jpg") || eq_str(s, "jpeg") || eq_str(s, "webp") {
        return WebThumbPlan::Media(thumbnail_plan(resolved));
    }
    let mut name = chars_of("web_");
    let h = hash_prefix(resolved);
    extend_chars(&mut name, h.as_slice());
    extend_str(&mut name, ".jpg");
    WebThumbPlan::Page(join_path("/tmp/omywall_thumbs", string_of(name.as_slice()).as_str()))
}

/// The thumbnail of the web wallpaper whose address resolved to
/// `resolved`, or nothing when its cache file cannot be named.
pub fn web_thumbnail_plan_checked(resolved: &str) -> (r: Option<WebThumbPlan>)
    ensures
        match r {
            Some(t) => thumbnail_named(resolved@) && web_thumb_plan_of(resolved@, t),
            None => !thumbnail_named(resolved@),
        },
{
    match thumbnail_plan_checked(resolved) {
        Some(_) => Some(web_thumbnail_plan(resolved)),
        None => None,
    }
}


/// The hash of an address has twelve hexadecimal digits when it is at
/// least 16^11.
pub open spec fn hash_has_twelve(key: Seq<char>) -> bool {
    djb2(encode_utf8(key)) >= 0x1000_0000_0000
}

/// The local copy of the remote image at `url`: `remote_<hash>.jpg` in the
/// thumbnail directory, by the first twelve hexadecimal digits of the
/// hash of the address.
pub open spec fn remote_image_file_of(url: Seq<char>) -> Seq<char> {
    join(thumb_dir(), "remote_"@ + hex_lower(djb2(encode_utf8(url)) as nat).take(12) + ".jpg"@)
}

/// The local copy of the remote image at `url`.
pub fn remote_image_file(url: &str) -> (r: String)
    requires
        hash_has_twelve(url@),
    ensures
        r@ == remote_image_file_of(url@),
{
    let h = md5_hash(url.as_bytes());
    let mut hx: Vec<char> = Vec::new();
    push_hex_lower(&mut hx, h);
    proof {
        reveal_with_fuel(p16, 12);
        assert(p16(11) == 0x1000_0000_0000);
        lemma_hex_lower_len(h as nat, 11);
    }
    let mut name = chars_of("remote_");
    let d = slice_of(hx.as_slice(), 0, 12);
    extend_chars(&mut name, d.as_slice());
    extend_str(&mut name, ".jpg");
    join_path("/tmp/omywall_thumbs", string_of(name.as_slice()).as_str())
}

/// The local copy of the remote image at `url`, or nothing when its name
/// cannot be made (the hash has fewer than twelve digits).
pub fn remote_image_file_checked(url: &str) -> (r: Option<String>)
    ensures
        match r {
            Some(f) => hash_has_twelve(url@) && f@ == remote_image_file_of(url@),
            None => !hash_has_twelve(url@),
        },
{
    if md5_hash(url.as_bytes()) >= 0x1000_0000_0000 {
        Some(remote_image_file(url))
    } else {
        None
    }
}

/// Whether a decoded image of `path` is kept for drawing: always when it
/// loaded; when it did not, only for files outside the thumbnail caches
/// (a cache file still being written is decoded again later).
pub open spec fn keeps_decoded(path: Seq<char>, loaded: bool) -> bool {
    loaded || !(crate::text::starts_with(path, "/tmp/omywall_thumbs"@) || crate::text::starts_with(
        path,
        "/tmp/omywall_workshop_thumbs"@,
    ))
}

/// Whether the decoded image (or the placeholder drawn in its place) of
/// `path` is kept.
pub fn keeps_decoded_image(path: &str, loaded: bool) -> (r: bool)
    ensures
        r == keeps_decoded(path@, loaded),
{
    let pc = chars_of(path);
    loaded || !(crate::text::starts_with_str(pc.as_slice(), "/tmp/omywall_thumbs") || crate::text::starts_with_str(
        pc.as_slice(),
        "/tmp/omywall_workshop_thumbs",
    ))
}


/// The commands the catalogue window tries in turn to grab a frame of
/// `input` into `thumb`: as `thumbnail_commands_of`, with ffmpeg told to
/// write a single image.
pub open spec fn catalogue_thumbnail_commands_of(input: Seq<char>, thumb: Seq<char>) -> Seq<Seq<Seq<char>>> {
    seq![
        seq![
            "ffmpeg"@, "-ss"@, "00:00:00.500"@, "-i"@, input, "-vframes"@, "1"@, "-s"@, "320x180"@, "-f"@,
            "image2"@, "-y"@, thumb,
        ],
        seq!["ffmpeg"@, "-i"@, input, "-vframes"@, "1"@, "-s"@, "320x180"@, "-f"@, "image2"@, "-y"@, thumb],
        seq!["mpv"@, "--no-audio"@, "--frames=1"@, "--o="@ + thumb, input],
    ]
}

/// The programs and arguments the catalogue window tries in turn to make
/// the thumbnail `thumb` of `input`.
pub fn catalogue_thumbnail_commands(input: &str, thumb: &str) -> (r: Vec<Vec<String>>)
    ensures
        r@.map_values(|c: Vec<String>| texts(c@)) == catalogue_thumbnail_commands_of(input@, thumb@),
{
    let a: Vec<String> = vec![
        "ffmpeg".to_string(), "-ss".to_string(), "00:00:00.500".to_string(), "-i".to_string(), input.to_string(),
        "-vframes".to_string(), "1".to_string(), "-s".to_string(), "320x180".to_string(), "-f".to_string(),
        "image2".to_string(), "-y".to_string(), thumb.to_string(),
    ];
    let b: Vec<String> = vec![
        "ffmpeg".to_string(), "-i".to_string(), input.to_string(), "-vframes".to_string(), "1".to_string(),
        "-s".to_string(), "320x180".to_string(), "-f".to_string(), "image2".to_string(), "-y".to_string(),
        thumb.to_string(),
    ];
    let mut o = "--o=".to_string();
    o.append(thumb);
    let c: Vec<String> = vec!["mpv".to_string(), "--no-audio".to_string(), "--frames=1".to_string(), o, input.to_string()];
    assert(texts(a@) =~= catalogue_thumbnail_commands_of(input@, thumb@)[0]);
    assert(texts(b@) =~= catalogue_thumbnail_commands_of(input@, thumb@)[1]);
    assert(texts(c@) =~= catalogue_thumbnail_commands_of(input@, thumb@)[2]);
    let r: Vec<Vec<String>> = vec![a, b, c];
    assert(r@.map_values(|c: Vec<String>| texts(c@)) =~= catalogue_thumbnail_commands_of(input@, thumb@));
    r
}

/// The snapshot of a web page the catalogue window shows:
/// `web_<hash>.png` in the thumbnail directory.
pub open spec fn catalogue_page_shot_of(resolved: Seq<char>) -> Seq<char> {
    join(thumb_dir(), "web_"@ + hash8(resolved) + ".png"@)
}

/// The snapshot file of the web page whose address resolved to `resolved`.
pub fn catalogue_page_shot(resolved: &str) -> (r: String)
    requires
        hash_has_eight(resolved@),
    ensures
        r@ == catalogue_page_shot_of(resolved@),
{
    let mut name = chars_of("web_");
    let h = hash_prefix(resolved);
    extend_chars(&mut name, h.as_slice());
    extend_str(&mut name, ".png");
    join_path("/tmp/omywall_thumbs", string_of(name.as_slice()).as_str())
}


/// The snapshot file of the web page whose address resolved to
/// `resolved`, or nothing when it cannot be named.
pub fn catalogue_page_shot_checked(resolved: &str) -> (r: Option<String>)
    ensures
        match r {
            Some(f) => hash_has_eight(resolved@) && f@ == catalogue_page_shot_of(resolved@),
            None => !hash_has_eight(resolved@),
        },
{
    if md5_hash(resolved.as_bytes()) >= 0x1000_0000 {
        Some(catalogue_page_shot(resolved))
    } else {
        None
    }
}

} // verus!
