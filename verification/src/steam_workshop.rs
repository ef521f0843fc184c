//! Steam Workshop catalogue: scraping item data out of the community
//! pages, and the request flow of a search or a browse.
use vstd::prelude::*;
use crate::text::{chars_of, eq_str, extend_chars, extend_str, find, find_chars, find_from, lemma_found, replace_all, replace_all_chars, slice_of, string_of, take_until, take_until_chars, trim, trim_chars, take_digits, take_digits_chars, rfind, rfind_chars, byte_len, byte_offset, char_index_at_byte, char_index_of_byte, utf8_width, utf8_width_of, starts_with, lemma_find_from_skip, decimal, digit_char, digit_of, push_decimal, starts_with_chars};

use crate::paths::{join, join_path};
use vstd::utf8::encode_utf8;

verus! {

broadcast use vstd::string::group_string_axioms;

/// One Wallpaper Engine item of the Steam Workshop.
#[derive(Debug, Clone, PartialEq, Eq)]
pub struct WorkshopItem {
    pub id: String,
    pub title: String,
    pub preview_url: Option<String>,
    pub author: String,
    pub subscriptions: u64,
    pub views: u64,
    pub file_size: u64,
    pub description: String,
    pub tags: Vec<String>,
    pub hcontent_file: String,
    pub time_updated: u64,
    pub url: String,
}

impl WorkshopItem {
    /// The item with every field empty or zero.
    pub open spec fn is_blank(&self) -> bool {
        &&& self.id@ == Seq::<char>::empty()
        &&& self.title@ == Seq::<char>::empty()
        &&& self.preview_url is None
        &&& self.author@ == Seq::<char>::empty()
        &&& self.subscriptions == 0
        &&& self.views == 0
        &&& self.file_size == 0
        &&& self.description@ == Seq::<char>::empty()
        &&& self.tags@.len() == 0
        &&& self.hcontent_file@ == Seq::<char>::empty()
        &&& self.time_updated == 0
        &&& self.url@ == Seq::<char>::empty()
    }
}

impl Default for WorkshopItem {
    fn default() -> (r: Self)
        ensures
            r.is_blank(),
    {
        WorkshopItem {
            id: String::new(),
            title: String::new(),
            preview_url: None,
            author: String::new(),
            subscriptions: 0,
            views: 0,
            file_size: 0,
            description: String::new(),
            tags: Vec::new(),
            hcontent_file: String::new(),
            time_updated: 0,
            url: String::new(),
        }
    }
}

// ---------------------------------------------------------------------------
// Stripping markup
// ---------------------------------------------------------------------------

/// Text that an HTML entity name stands for; unknown entities vanish.
pub open spec fn entity_text(e: Seq<char>) -> Seq<char> {
    if e == "amp"@ {
        "&"@
    } else if e == "lt"@ {
        "<"@
    } else if e == "gt"@ {
        ">"@
    } else if e == "quot"@ {
        "\""@
    } else if e == "apos"@ {
        "'"@
    } else if e == "nbsp"@ {
        " "@
    } else {
        Seq::empty()
    }
}

/// State of the tag stripper: text so far, inside a tag, inside an
/// entity, entity name so far.
pub type StripState = (Seq<char>, bool, bool, Seq<char>);

/// One character of the tag stripper.
pub open spec fn strip_step(st: StripState, ch: char) -> StripState {
    let (out, in_tag, in_entity, entity) = st;
    if ch == '<' {
        (out, true, in_entity, entity)
    } else if ch == '>' && in_tag {
        (out, false, in_entity, entity)
    } else if ch == '&' && !in_tag {
        (out, in_tag, true, Seq::empty())
    } else if ch == ';' && in_entity {
        (out + entity_text(entity), in_tag, false, entity)
    } else if !in_tag {
        if in_entity {
            (out, in_tag, in_entity, entity.push(ch))
        } else {
            (out.push(ch), in_tag, in_entity, entity)
        }
    } else {
        st
    }
}

pub open spec fn strip_run(s: Seq<char>) -> StripState
    decreases s.len(),
{
    if s.len() == 0 {
        (Seq::empty(), false, false, Seq::empty())
    } else {
        strip_step(strip_run(s.drop_last()), s.last())
    }
}

/// `s` with tags removed and the known entities decoded.
pub open spec fn strip_html(s: Seq<char>) -> Seq<char> {
    strip_run(s).0
}

/// Removes HTML tags from `s` and decodes `&amp;`, `&lt;`, `&gt;`,
/// `&quot;`, `&apos;` and `&nbsp;`; other entities are dropped.
pub fn strip_html_tags(s: &[char]) -> (r: Vec<char>)
    ensures
        r@ == strip_html(s@),
{
    let mut out: Vec<char> = Vec::new();
    let mut in_tag = false;
    let mut in_entity = false;
    let mut entity: Vec<char> = Vec::new();
    let mut i: usize = 0;
    while i < s.len()
        invariant
            i <= s.len(),
            strip_run(s@.take(i as int)) == (out@, in_tag, in_entity, entity@),
        decreases s.len() - i,
    {
        let ch = s[i];
        assert(s@.take(i + 1).drop_last() == s@.take(i as int));
        if ch == '<' {
            in_tag = true;
        } else if ch == '>' && in_tag {
            in_tag = false;
        } else if ch == '&' && !in_tag {
            in_entity = true;
            entity = Vec::new();
        } else if ch == ';' && in_entity {
            in_entity = false;
            let e = entity.as_slice();
            if eq_str(e, "amp") {
                extend_str(&mut out, "&");
            } else if eq_str(e, "lt") {
                extend_str(&mut out, "<");
            } else if eq_str(e, "gt") {
                extend_str(&mut out, ">");
            } else if eq_str(e, "quot") {
                extend_str(&mut out, "\"");
            } else if eq_str(e, "apos") {
                extend_str(&mut out, "'");
            } else if eq_str(e, "nbsp") {
                extend_str(&mut out, " ");
            } else {
                assert(out@ + entity_text(entity@) == out@);
            }
        } else if !in_tag {
            if in_entity {
                entity.push(ch);
            } else {
                out.push(ch);
            }
        }
        i += 1;
    }
    assert(s@.take(s.len() as int) == s@);
    out
}


// ---------------------------------------------------------------------------
// A single item page
// ---------------------------------------------------------------------------

/// Address of the community page of an item.
pub open spec fn item_page_url(id: Seq<char>) -> Seq<char> {
    "https://steamcommunity.com/sharedfiles/filedetails/?id="@ + id
}

/// Title of an item page: the `workshopItemTitle` block, else the page's
/// `<title>` without its "Steam Workshop::" prefix, else a generic title.
pub open spec fn page_title(html: Seq<char>, id: Seq<char>) -> Seq<char> {
    let fallback = "Workshop Item "@ + id;
    match find(html, "<div class=\"workshopItemTitle\">"@) {
        Some(pos) => {
            let raw = take_until(html.skip(pos + 31), '<');
            if trim(raw).len() > 0 {
                trim(strip_html(raw))
            } else {
                fallback
            }
        },
        None => match find(html, "<title>"@) {
            Some(pos) => {
                let raw = take_until(html.skip(pos + 7), '<');
                if trim(raw).len() > 0 {
                    trim(replace_all(raw, "Steam Workshop::"@, Seq::empty()))
                } else {
                    fallback
                }
            },
            None => fallback,
        },
    }
}

/// The `src` attribute that follows position `pos`, if it is not blank.
pub open spec fn src_after(html: Seq<char>, pos: int) -> Option<Seq<char>> {
    match find_from(html, "src=\""@, pos) {
        Some(q) => {
            let raw = take_until(html.skip(q + 5), '"');
            if trim(raw).len() > 0 {
                Some(raw)
            } else {
                None
            }
        },
        None => None,
    }
}

/// Preview image of an item page.
pub open spec fn page_preview(html: Seq<char>) -> Option<Seq<char>> {
    match find(html, "id=\"previewImage\""@) {
        Some(pos) => src_after(html, pos),
        None => match find(html, "id=\"previewImageMain\""@) {
            Some(pos) => src_after(html, pos),
            None => None,
        },
    }
}

pub open spec fn opt_view(o: Option<String>) -> Option<Seq<char>> {
    match o {
        Some(s) => Some(s@),
        None => None,
    }
}

fn src_after_exec(html: &[char], pos: usize) -> (r: Option<String>)
    requires
        pos <= html.len(),
    ensures
        opt_view(r) == src_after(html@, pos as int),
{
    let marker = chars_of("src=\"");
    proof {
        reveal_strlit("src=\"");
        assert(marker@.len() == 5);
    }
    match find_chars(html, marker.as_slice(), pos) {
        Some(q) => {
            proof {
                lemma_found(html@, marker@, pos as int, q as int);
            }
            let raw = take_until_chars(html, q + 5, '"');
            let t = trim_chars(raw.as_slice());
            if t.len() > 0 {
                Some(string_of(raw.as_slice()))
            } else {
                None
            }
        },
        None => None,
    }
}

/// Reads title and preview image out of the community page of item `id`.
pub fn parse_single_item_page(html: &str, id: &str) -> (item: WorkshopItem)
    ensures
        item.id@ == id@,
        item.title@ == page_title(html@, id@),
        opt_view(item.preview_url) == page_preview(html@),
        item.author@ == "Steam Workshop"@,
        item.url@ == item_page_url(id@),
        item.subscriptions == 0,
        item.views == 0,
        item.file_size == 0,
        item.description@ == Seq::<char>::empty(),
        item.tags@.len() == 0,
        item.hcontent_file@ == Seq::<char>::empty(),
        item.time_updated == 0,
{
    let h = chars_of(html);
    let idc = chars_of(id);
    let mut title: Vec<char> = chars_of("Workshop Item ");
    extend_chars(&mut title, idc.as_slice());
    let div = chars_of("<div class=\"workshopItemTitle\">");
    let tt = chars_of("<title>");
    proof {
        reveal_strlit("<div class=\"workshopItemTitle\">");
        reveal_strlit("<title>");
        assert(div@.len() == 31);
        assert(tt@.len() == 7);
    }
    match find_chars(h.as_slice(), div.as_slice(), 0) {
        Some(pos) => {
            proof {
                lemma_found(h@, div@, 0, pos as int);
                assert(h@.len() == h.len());
            }
            let raw = take_until_chars(h.as_slice(), pos + 31, '<');
            let traw = trim_chars(raw.as_slice());
            if traw.len() > 0 {
                let stripped = strip_html_tags(raw.as_slice());
                title = trim_chars(stripped.as_slice());
            }
        },
        None => {
            match find_chars(h.as_slice(), tt.as_slice(), 0) {
                Some(pos) => {
                    proof {
                        lemma_found(h@, tt@, 0, pos as int);
                        assert(h@.len() == h.len());
                    }
                    let raw = take_until_chars(h.as_slice(), pos + 7, '<');
                    let traw = trim_chars(raw.as_slice());
                    if traw.len() > 0 {
                        let pat = chars_of("Steam Workshop::");
                        proof {
                            reveal_strlit("Steam Workshop::");
                        }
                        let empty: Vec<char> = Vec::new();
                        let replaced = replace_all_chars(raw.as_slice(), pat.as_slice(), empty.as_slice());
                        title = trim_chars(replaced.as_slice());
                    }
                },
                None => {},
            }
        },
    }
    let m1 = chars_of("id=\"previewImage\"");
    let m2 = chars_of("id=\"previewImageMain\"");
    let preview_url = match find_chars(h.as_slice(), m1.as_slice(), 0) {
        Some(pos) => {
            proof {
                lemma_found(h@, m1@, 0, pos as int);
            }
            src_after_exec(h.as_slice(), pos)
        },
        None => match find_chars(h.as_slice(), m2.as_slice(), 0) {
            Some(pos) => {
                proof {
                    lemma_found(h@, m2@, 0, pos as int);
                }
                src_after_exec(h.as_slice(), pos)
            },
            None => None,
        },
    };
    let mut url = chars_of("https://steamcommunity.com/sharedfiles/filedetails/?id=");
    extend_chars(&mut url, idc.as_slice());
    WorkshopItem {
        id: string_of(idc.as_slice()),
        title: string_of(title.as_slice()),
        preview_url,
        author: "Steam Workshop".to_string(),
        subscriptions: 0,
        views: 0,
        file_size: 0,
        description: String::new(),
        tags: Vec::new(),
        hcontent_file: String::new(),
        time_updated: 0,
        url: string_of(url.as_slice()),
    }
}


// ---------------------------------------------------------------------------
// A listing page
// ---------------------------------------------------------------------------

/// Link prefix that precedes every item id on a listing page.
pub open spec fn id_link() -> Seq<char> {
    "sharedfiles/filedetails/?id="@
}

/// Start positions of the non-overlapping occurrences of `n` in `h` at or
/// after `i`, left to right (`str::match_indices`).
pub open spec fn occurrences(h: Seq<char>, n: Seq<char>, i: int) -> Seq<int>
    decreases h.len() + 1 - i,
{
    if n.len() == 0 || i < 0 || i > h.len() {
        Seq::empty()
    } else {
        match find_from(h, n, i) {
            Some(p) => {
                if i <= p && p + n.len() <= h.len() {
                    seq![p] + occurrences(h, n, p + n.len())
                } else {
                    Seq::empty()
                }
            },
            None => Seq::empty(),
        }
    }
}

/// The digits that follow the id link at position `p`.
pub open spec fn id_at(h: Seq<char>, p: int) -> Seq<char> {
    take_digits(h.skip(p + id_link().len()))
}

pub open spec fn ids_at(h: Seq<char>, ps: Seq<int>) -> Seq<Seq<char>>
    decreases ps.len(),
{
    if ps.len() == 0 {
        Seq::empty()
    } else {
        ids_at(h, ps.drop_last()).push(id_at(h, ps.last()))
    }
}

/// The non-empty ids of `raw`, each kept at its first occurrence.
pub open spec fn dedup_ids(raw: Seq<Seq<char>>) -> Seq<Seq<char>>
    decreases raw.len(),
{
    if raw.len() == 0 {
        Seq::empty()
    } else {
        let d = dedup_ids(raw.drop_last());
        let x = raw.last();
        if x.len() == 0 || d.contains(x) {
            d
        } else {
            d.push(x)
        }
    }
}

/// Item ids linked from a listing page, in order, without repeats.
pub open spec fn listing_ids(h: Seq<char>) -> Seq<Seq<char>> {
    dedup_ids(ids_at(h, occurrences(h, id_link(), 0)))
}

/// The character sequences held by a list of character vectors.
pub open spec fn vviews(s: Seq<Vec<char>>) -> Seq<Seq<char>> {
    s.map_values(|x: Vec<char>| x@)
}

pub fn eq_chars(a: &[char], b: &[char]) -> (r: bool)
    ensures
        r == (a@ == b@),
{
    if a.len() != b.len() {
        return false;
    }
    let mut i: usize = 0;
    while i < a.len()
        invariant
            i <= a.len() == b.len(),
            forall|j: int| 0 <= j < i ==> a@[j] == b@[j],
        decreases a.len() - i,
    {
        if a[i] != b[i] {
            return false;
        }
        i += 1;
    }
    assert(a@ == b@);
    true
}

fn contains_id(ids: &Vec<Vec<char>>, x: &Vec<char>) -> (r: bool)
    ensures
        r == vviews(ids@).contains(x@),
{
    let mut i: usize = 0;
    while i < ids.len()
        invariant
            i <= ids.len(),
            forall|j: int| 0 <= j < i ==> vviews(ids@)[j] != x@,
        decreases ids.len() - i,
    {
        if eq_chars(ids[i].as_slice(), x.as_slice()) {
            assert(vviews(ids@)[i as int] == x@);
            return true;
        }
        i += 1;
    }
    false
}

/// Item ids linked from a listing page, in order, without repeats.
pub fn collect_listing_ids(h: &[char]) -> (ids: Vec<Vec<char>>)
    ensures
        vviews(ids@) == listing_ids(h@),
{
    let mark = chars_of("sharedfiles/filedetails/?id=");
    proof {
        reveal_strlit("sharedfiles/filedetails/?id=");
    }
    let mut ids: Vec<Vec<char>> = Vec::new();
    let mut i: usize = 0;
    let ghost mut done: Seq<int> = Seq::empty();
    loop
        invariant
            i <= h.len(),
            mark@ == id_link(),
            mark@.len() > 0,
            occurrences(h@, mark@, 0) == done + occurrences(h@, mark@, i as int),
            vviews(ids@) == dedup_ids(ids_at(h@, done)),
        decreases h.len() - i,
    {
        match find_chars(h, mark.as_slice(), i) {
            None => {
                assert(occurrences(h@, mark@, i as int) == Seq::<int>::empty());
                assert(done + Seq::<int>::empty() == done);
                return ids;
            },
            Some(p) => {
                proof {
                    lemma_found(h@, mark@, i as int, p as int);
                    assert(occurrences(h@, mark@, i as int) == seq![p as int] + occurrences(
                        h@,
                        mark@,
                        p + mark@.len(),
                    ));
                    assert(done + (seq![p as int] + occurrences(h@, mark@, p + mark@.len()))
                        == done.push(p as int) + occurrences(h@, mark@, p + mark@.len()));
                    assert(done.push(p as int).drop_last() == done);
                }
                let id = take_digits_chars(h, p + mark.len());
                let ghost before = ids@;
                let ghost raw = ids_at(h@, done);
                proof {
                    assert(ids_at(h@, done.push(p as int)) == raw.push(id@));
                    assert(raw.push(id@).drop_last() == raw);
                }
                if id.len() > 0 && !contains_id(&ids, &id) {
                    ids.push(id);
                    proof {
                        assert(ids@ == before.push(id));
                        assert(vviews(ids@) == vviews(before).push(id_at(h@, p as int)));
                    }
                }
                proof {
                    done = done.push(p as int);
                }
                i = p + mark.len();
            },
        }
    }
}


/// Text of the first link after `marker`: the content between the next `>`
/// and the following `</a>`, stripped of markup and trimmed, if not blank.
pub open spec fn title_after(h: Seq<char>, marker: Seq<char>) -> Option<Seq<char>> {
    match find(h, marker) {
        None => None,
        Some(i) => {
            let rest = h.skip(i + marker.len());
            match find(rest, ">"@) {
                None => None,
                Some(g) => {
                    let after = rest.skip(g + 1);
                    match find(after, "</a>"@) {
                        None => None,
                        Some(e) => {
                            let clean = trim(strip_html(after.take(e)));
                            if clean.len() == 0 {
                                None
                            } else {
                                Some(clean)
                            }
                        },
                    }
                },
            }
        },
    }
}

/// Title of the item whose link carries `marker`.
pub fn extract_title_after(h: &[char], marker: &[char]) -> (r: Option<Vec<char>>)
    ensures
        match r {
            Some(v) => title_after(h@, marker@) == Some(v@),
            None => title_after(h@, marker@) is None,
        },
{
    let i = match find_chars(h, marker, 0) {
        Some(i) => i,
        None => return None,
    };
    let gt = chars_of(">");
    let close = chars_of("</a>");
    proof {
        lemma_found(h@, marker@, 0, i as int);
        reveal_strlit(">");
        reveal_strlit("</a>");
        assert(h@.len() == h.len());
    }
    let start = i + marker.len();
    let ghost rest = h@.skip(start as int);
    let g = match find_chars(h, gt.as_slice(), start) {
        Some(g) => g,
        None => {
            proof {
                lemma_find_from_skip(h@, gt@, start as int);
            }
            return None;
        },
    };
    proof {
        lemma_find_from_skip(h@, gt@, start as int);
        lemma_found(h@, gt@, start as int, g as int);
        assert(rest.skip(g - start + 1) == h@.skip(g + 1));
    }
    let e = match find_chars(h, close.as_slice(), g + 1) {
        Some(e) => e,
        None => {
            proof {
                lemma_find_from_skip(h@, close@, g + 1);
            }
            return None;
        },
    };
    proof {
        lemma_find_from_skip(h@, close@, g + 1);
        lemma_found(h@, close@, g + 1, e as int);
        assert(h@.skip(g + 1).take(e - (g + 1)) == h@.subrange(g + 1, e as int));
    }
    let raw = slice_of(h, g + 1, e);
    let stripped = strip_html_tags(raw.as_slice());
    let clean = trim_chars(stripped.as_slice());
    if clean.len() == 0 {
        None
    } else {
        Some(clean)
    }
}

/// Preview image listed before the link that carries `marker`: the last
/// `<img src=` within the 3000 bytes before the link, read up to the next
/// `"` after skipping one character, kept if it is an http(s) address.
/// The outer `None` marks the pages on which reading it would cut a
/// character in two or run past the end of the text.
pub open spec fn listing_preview(h: Seq<char>, marker: Seq<char>) -> Option<Option<Seq<char>>> {
    match find(h, marker) {
        None => Some(None),
        Some(start) => {
            let bstart = byte_len(h.take(start));
            let blo: nat = if bstart >= 3000 { (bstart - 3000) as nat } else { 0 };
            match char_index_at_byte(h, blo) {
                None => None,
                Some(lo) => {
                    let before = h.subrange(lo, start);
                    match rfind(before, "<img src="@) {
                        None => Some(None),
                        Some(j) => {
                            if j + 9 >= before.len() || utf8_width(before[j + 9]) != 1 {
                                None
                            } else {
                                let rest = before.skip(j + 10);
                                match find(rest, "\""@) {
                                    None => Some(None),
                                    Some(e) => {
                                        let url = rest.take(e);
                                        if starts_with(url, "http://"@) || starts_with(
                                            url,
                                            "https://"@,
                                        ) {
                                            Some(Some(url))
                                        } else {
                                            Some(None)
                                        }
                                    },
                                }
                            }
                        },
                    }
                },
            }
        },
    }
}

/// Preview image listed before the link that carries `marker`.
pub fn extract_preview_url(h: &[char], marker: &[char]) -> (r: Option<Vec<char>>)
    requires
        listing_preview(h@, marker@) is Some,
    ensures
        match r {
            Some(v) => listing_preview(h@, marker@) == Some(Some(v@)),
            None => listing_preview(h@, marker@) == Some(None::<Seq<char>>),
        },
{
    let start = match find_chars(h, marker, 0) {
        Some(s) => s,
        None => return None,
    };
    proof {
        lemma_found(h@, marker@, 0, start as int);
    }
    let bstart = byte_offset(h, start);
    let blo: u128 = if bstart >= 3000 { bstart - 3000 } else { 0 };
    let lo = match char_index_of_byte(h, blo) {
        Some(lo) => lo,
        None => return None,
    };
    proof {
        if lo > start {
            crate::text::lemma_byte_len_strict(h@, start as int, lo as int);
        }
    }
    let before = slice_of(h, lo, start);
    let img = chars_of("<img src=");
    let quote = chars_of("\"");
    let http = chars_of("http://");
    let https = chars_of("https://");
    proof {
        reveal_strlit("<img src=");
        reveal_strlit("\"");
    }
    let j = match rfind_chars(before.as_slice(), img.as_slice()) {
        Some(j) => j,
        None => return None,
    };
    if j + 9 >= before.len() || utf8_width_of(before[j + 9]) != 1 {
        return None;
    }
    let e = match find_chars(before.as_slice(), quote.as_slice(), j + 10) {
        Some(e) => e,
        None => {
            proof {
                lemma_find_from_skip(before@, quote@, j + 10);
            }
            return None;
        },
    };
    proof {
        lemma_find_from_skip(before@, quote@, j + 10);
        lemma_found(before@, quote@, j + 10, e as int);
        assert(before@.skip(j + 10).take(e - (j + 10)) == before@.subrange(j + 10, e as int));
    }
    let url = slice_of(before.as_slice(), j + 10, e);
    if starts_with_chars(url.as_slice(), http.as_slice()) || starts_with_chars(
        url.as_slice(),
        https.as_slice(),
    ) {
        Some(url)
    } else {
        None
    }
}


/// What marks the link of item `id` on a listing page.
pub open spec fn id_marker(id: Seq<char>) -> Seq<char> {
    "id="@ + id
}

/// The item that a listing page yields for `id`.
pub open spec fn listing_item_ok(item: WorkshopItem, h: Seq<char>, id: Seq<char>) -> bool {
    &&& item.id@ == id
    &&& item.title@ == match title_after(h, id_marker(id)) {
        Some(t) => t,
        None => "Untitled Wallpaper"@,
    }
    &&& Some(opt_view(item.preview_url)) == listing_preview(h, id_marker(id))
    &&& item.url@ == item_page_url(id)
    &&& item.author@ == Seq::<char>::empty()
    &&& item.subscriptions == 0
    &&& item.views == 0
    &&& item.file_size == 0
    &&& item.description@ == Seq::<char>::empty()
    &&& item.tags@.len() == 0
    &&& item.hcontent_file@ == Seq::<char>::empty()
    &&& item.time_updated == 0
}

/// A listing page whose preview images can all be read (on other pages the
/// reading cuts a character in two).
pub open spec fn listing_page_ok(h: Seq<char>) -> bool {
    forall|k: int|
        0 <= k < listing_ids(h).len() ==> (#[trigger] listing_preview(
            h,
            id_marker(listing_ids(h)[k]),
        )) is Some
}

fn marker_of(id: &Vec<char>) -> (m: Vec<char>)
    ensures
        m@ == id_marker(id@),
{
    let mut m = chars_of("id=");
    extend_chars(&mut m, id.as_slice());
    m
}

fn listing_item(h: &[char], id: &Vec<char>) -> (item: WorkshopItem)
    requires
        listing_preview(h@, id_marker(id@)) is Some,
    ensures
        listing_item_ok(item, h@, id@),
{
    let marker = marker_of(id);
    let title = match extract_title_after(h, marker.as_slice()) {
        Some(t) => string_of(t.as_slice()),
        None => "Untitled Wallpaper".to_string(),
    };
    let preview_url = match extract_preview_url(h, marker.as_slice()) {
        Some(u) => Some(string_of(u.as_slice())),
        None => None,
    };
    let mut url = chars_of("https://steamcommunity.com/sharedfiles/filedetails/?id=");
    extend_chars(&mut url, id.as_slice());
    WorkshopItem {
        id: string_of(id.as_slice()),
        title,
        preview_url,
        author: String::new(),
        subscriptions: 0,
        views: 0,
        file_size: 0,
        description: String::new(),
        tags: Vec::new(),
        hcontent_file: String::new(),
        time_updated: 0,
        url: string_of(url.as_slice()),
    }
}

fn preview_readable(h: &[char], marker: &[char]) -> (r: bool)
    ensures
        r == listing_preview(h@, marker@) is Some,
{
    let start = match find_chars(h, marker, 0) {
        Some(s) => s,
        None => return true,
    };
    proof {
        lemma_found(h@, marker@, 0, start as int);
    }
    let bstart = byte_offset(h, start);
    let blo: u128 = if bstart >= 3000 { bstart - 3000 } else { 0 };
    let lo = match char_index_of_byte(h, blo) {
        Some(lo) => lo,
        None => return false,
    };
    proof {
        if lo > start {
            crate::text::lemma_byte_len_strict(h@, start as int, lo as int);
        }
    }
    let before = slice_of(h, lo, start);
    let img = chars_of("<img src=");
    proof {
        reveal_strlit("<img src=");
    }
    match rfind_chars(before.as_slice(), img.as_slice()) {
        Some(j) => !(j + 9 >= before.len() || utf8_width_of(before[j + 9]) != 1),
        None => true,
    }
}

/// Whether the preview images of a listing page can all be read.
pub fn listing_page_is_readable(html: &str) -> (r: bool)
    ensures
        r == listing_page_ok(html@),
{
    let h = chars_of(html);
    let ids = collect_listing_ids(h.as_slice());
    let mut k: usize = 0;
    while k < ids.len()
        invariant
            k <= ids.len(),
            h@ == html@,
            vviews(ids@) == listing_ids(h@),
            forall|j: int|
                0 <= j < k ==> (#[trigger] listing_preview(h@, id_marker(listing_ids(h@)[j]))) is Some,
        decreases ids.len() - k,
    {
        let marker = marker_of(&ids[k]);
        assert(listing_ids(h@)[k as int] == ids@[k as int]@);
        if !preview_readable(h.as_slice(), marker.as_slice()) {
            return false;
        }
        k += 1;
    }
    true
}

/// Reads the items linked from a Workshop listing page: each distinct id in
/// order, with the link text as title and the image before it as preview.
pub fn parse_browse_html(html: &str) -> (r: Result<Vec<WorkshopItem>, String>)
    requires
        listing_page_ok(html@),
    ensures
        r is Ok,
        r matches Ok(items) ==> items@.len() == listing_ids(html@).len() && forall|k: int|
            0 <= k < items@.len() ==> listing_item_ok(
                #[trigger] items@[k],
                html@,
                listing_ids(html@)[k],
            ),
{
    let h = chars_of(html);
    let ids = collect_listing_ids(h.as_slice());
    let mut items: Vec<WorkshopItem> = Vec::new();
    let mut k: usize = 0;
    while k < ids.len()
        invariant
            k <= ids.len(),
            h@ == html@,
            vviews(ids@) == listing_ids(h@),
            listing_page_ok(h@),
            items@.len() == k,
            forall|j: int| 0 <= j < k ==> listing_item_ok(#[trigger] items@[j], h@, listing_ids(h@)[j]),
        decreases ids.len() - k,
    {
        assert(listing_ids(h@)[k as int] == ids@[k as int]@);
        assert(listing_preview(h@, id_marker(listing_ids(h@)[k as int])) is Some);
        let item = listing_item(h.as_slice(), &ids[k]);
        items.push(item);
        k += 1;
    }
    Ok(items)
}


// ---------------------------------------------------------------------------
// Sizes
// ---------------------------------------------------------------------------

pub open spec fn p2(k: nat) -> nat
    decreases k,
{
    if k == 0 {
        1
    } else {
        2 * p2((k - 1) as nat)
    }
}

/// How many low bits of `n` do not fit in the 53-bit significand of an `f64`.
pub open spec fn excess_bits(n: nat) -> nat
    decreases n,
{
    if n < 0x20_0000_0000_0000 {
        0
    } else {
        1 + excess_bits(n / 2)
    }
}

/// `n / d` rounded to the nearest integer, ties to even.
pub open spec fn round_even_div(n: nat, d: nat) -> nat {
    let q = n / d;
    let r = n % d;
    if 2 * r > d || (2 * r == d && q % 2 == 1) {
        q + 1
    } else {
        q
    }
}

/// The value of `n as f64`: `n` rounded to 53 significant bits, ties to even.
pub open spec fn as_f64(n: nat) -> nat {
    let d = p2(excess_bits(n));
    round_even_div(n, d) * d
}

/// `v / 2^k` in tenths, rounded to nearest with ties to even, as `{:.1}`
/// rounds the exact value of a float.
pub open spec fn tenths(v: nat, k: nat) -> nat {
    round_even_div(v * 10, p2(k))
}

/// `t` tenths written with one decimal.
pub open spec fn one_decimal(t: nat) -> Seq<char> {
    decimal(t / 10) + "."@ + seq![digit_char(t % 10)]
}

/// Human-readable size: bytes below 1 KiB, else KB, MB or GB with one
/// decimal, computed as `bytes as f64 / 1024^n` printed with `{:.1}`.
pub open spec fn file_size_text(bytes: nat) -> Seq<char> {
    if bytes >= 1073741824 {
        one_decimal(tenths(as_f64(bytes), 30)) + " GB"@
    } else if bytes >= 1048576 {
        one_decimal(tenths(as_f64(bytes), 20)) + " MB"@
    } else if bytes >= 1024 {
        one_decimal(tenths(as_f64(bytes), 10)) + " KB"@
    } else {
        decimal(bytes) + " B"@
    }
}

proof fn lemma_p2_bound(k: nat)
    ensures
        p2(k) >= 1,
    decreases k,
{
    if k > 0 {
        lemma_p2_bound((k - 1) as nat);
    }
}

fn pow2_of(k: u32) -> (d: u128)
    requires
        k <= 64,
    ensures
        d == p2(k as nat),
        d <= 0x1_0000_0000_0000_0000,
{
    let mut d: u128 = 1;
    let mut i: u32 = 0;
    proof {
        lemma_p2_64();
    }
    while i < k
        invariant
            i <= k <= 64,
            d == p2(i as nat),
            p2(64) == 0x1_0000_0000_0000_0000,
        decreases k - i,
    {
        proof {
            lemma_p2_mono((i + 1) as nat, 64);
        }
        d = d * 2;
        i += 1;
    }
    proof {
        lemma_p2_mono(k as nat, 64);
    }
    d
}

proof fn lemma_p2_64()
    ensures
        p2(64) == 0x1_0000_0000_0000_0000,
{
    reveal_with_fuel(p2, 65);
}

proof fn lemma_p2_split(a: nat, b: nat)
    ensures
        p2(a + b) == p2(a) * p2(b),
    decreases a,
{
    if a > 0 {
        lemma_p2_split((a - 1) as nat, b);
        let x = p2((a - 1) as nat);
        let y = p2(b);
        assert(p2(a + b) == 2 * p2((a - 1 + b) as nat));
        assert(p2(a) == 2 * x);
        assert(2 * (x * y) == (2 * x) * y) by (nonlinear_arith);
        assert(p2(((a - 1) as nat + b) as nat) == x * y);
        assert(p2(a + b) == p2(a) * p2(b));
    } else {
        assert(p2(a) == 1);
        assert(a + b == b);
    }
}

fn round_even_div_exec(n: u128, d: u128) -> (r: u128)
    requires
        d > 0,
        d <= 0x1_0000_0000_0000_0000,
        n <= 0x1_0000_0000_0000_0000_0000_0000,
    ensures
        r == round_even_div(n as nat, d as nat),
{
    let q = n / d;
    let rem = n % d;
    if 2 * rem > d || (2 * rem == d && q % 2 == 1) {
        q + 1
    } else {
        q
    }
}

fn as_f64_exec(n: u64) -> (v: u128)
    ensures
        v == as_f64(n as nat),
        v <= 0x1_0000_0000_0000_0000,
{
    let mut m: u64 = n;
    let mut e: u32 = 0;
    proof {
        lemma_p2_64();
    }
    while m >= 0x20_0000_0000_0000
        invariant
            excess_bits(n as nat) == e + excess_bits(m as nat),
            e + 53 <= 64,
            m < p2((64 - e) as nat),
        decreases m,
    {
        proof {
            lemma_half_bound(m as nat, (64 - e) as nat);
        }
        m = m / 2;
        e += 1;
    }
    let d = pow2_of(e);
    proof {
        lemma_p2_bound(e as nat);
    }
    let r = round_even_div_exec(n as u128, d);
    proof {
        lemma_p2_split(e as nat, (64 - e) as nat);
        lemma_p2_64();
        let big = p2((64 - e) as nat);
        let q = (n as nat) / (d as nat);
        assert(q * d <= n) by (nonlinear_arith)
            requires
                q == (n as nat) / (d as nat),
                d > 0,
        ;
        assert((q + 1) * d <= 0x1_0000_0000_0000_0000) by (nonlinear_arith)
            requires
                q * d <= n,
                n < 0x1_0000_0000_0000_0000,
                d * big == 0x1_0000_0000_0000_0000,
                d > 0,
        ;
        assert(r * d <= 0x1_0000_0000_0000_0000) by (nonlinear_arith)
            requires
                r <= q + 1,
                (q + 1) * d <= 0x1_0000_0000_0000_0000,
        ;
    }
    r * d
}

proof fn lemma_half_bound(m: nat, k: nat)
    requires
        m >= 0x20_0000_0000_0000,
        m < p2(k),
    ensures
        k >= 54,
        m / 2 < p2((k - 1) as nat),
{
    if k < 54 {
        lemma_p2_mono(k, 53);
        reveal_with_fuel(p2, 54);
    }
}

proof fn lemma_p2_mono(a: nat, b: nat)
    requires
        a <= b,
    ensures
        p2(a) <= p2(b),
    decreases b,
{
    if a < b {
        lemma_p2_mono(a, (b - 1) as nat);
    }
}


fn push_one_decimal(v: &mut Vec<char>, t: u128)
    ensures
        final(v)@ == old(v)@ + one_decimal(t as nat),
{
    let ghost v0 = v@;
    push_decimal(v, t / 10);
    v.push('.');
    v.push(digit_of((t % 10) as u64));
    proof {
        reveal_strlit(".");
        assert(v@ == v0 + one_decimal(t as nat));
    }
}

/// Human-readable size, as `500 B`, `1.0 KB`, `5.0 MB` or `2.0 GB`.
pub fn get_file_size_str(bytes: u64) -> (r: String)
    ensures
        r@ == file_size_text(bytes as nat),
{
    let mut out: Vec<char> = Vec::new();
    if bytes >= 1024 {
        let v = as_f64_exec(bytes);
        let (k, unit): (u32, &str) = if bytes >= 1073741824 {
            (30, " GB")
        } else if bytes >= 1048576 {
            (20, " MB")
        } else {
            (10, " KB")
        };
        let d = pow2_of(k);
        proof {
            lemma_p2_bound(k as nat);
        }
        let t = round_even_div_exec(v * 10, d);
        push_one_decimal(&mut out, t);
        extend_str(&mut out, unit);
    } else {
        push_decimal(&mut out, bytes as u128);
        extend_str(&mut out, " B");
    }
    string_of(out.as_slice())
}


// ---------------------------------------------------------------------------
// Search and browse requests
// ---------------------------------------------------------------------------

/// Characters that a search text keeps as they are.
pub open spec fn url_safe(c: char) -> bool {
    ('a' <= c && c <= 'z') || ('A' <= c && c <= 'Z') || ('0' <= c && c <= '9') || c == '-' || c
        == '_' || c == '.' || c == '~'
}

/// Upper-case hexadecimal digit.
pub open spec fn hex_digit(d: nat) -> char {
    if d < 10 {
        digit_char(d)
    } else if d == 10 {
        'A'
    } else if d == 11 {
        'B'
    } else if d == 12 {
        'C'
    } else if d == 13 {
        'D'
    } else if d == 14 {
        'E'
    } else {
        'F'
    }
}

/// Upper-case hexadecimal rendering of `n`.
pub open spec fn hex_upper(n: nat) -> Seq<char>
    decreases n,
{
    if n < 16 {
        seq![hex_digit(n)]
    } else {
        hex_upper(n / 16).push(hex_digit(n % 16))
    }
}

/// `{:02X}`: hexadecimal, at least two digits.
pub open spec fn hex2(n: nat) -> Seq<char> {
    if n < 16 {
        seq!['0', hex_digit(n)]
    } else {
        hex_upper(n)
    }
}

/// How one character of a search text is sent: as it is, `+` for a space,
/// else `%` and its code point in hexadecimal.
pub open spec fn encode_char(c: char) -> Seq<char> {
    if url_safe(c) {
        seq![c]
    } else if c == ' ' {
        seq!['+']
    } else {
        seq!['%'] + hex2((c as u32) as nat)
    }
}

/// A search text as sent in an address.
pub open spec fn encode_query(s: Seq<char>) -> Seq<char>
    decreases s.len(),
{
    if s.len() == 0 {
        seq![]
    } else {
        encode_query(s.drop_last()) + encode_char(s.last())
    }
}

/// The listing order asked of a search.
pub open spec fn search_sort_key(sort: Seq<char>) -> Seq<char> {
    if sort == "top_rated"@ {
        "toprated"@
    } else if sort == "most_subscribed"@ {
        "totaluniquesubscribers"@
    } else if sort == "newest"@ {
        "timeupdated"@
    } else {
        "trend"@
    }
}

/// The listing order asked of a browse.
pub open spec fn browse_sort_key(sort: Seq<char>) -> Seq<char> {
    if sort == "most_viewed"@ {
        "totaluniquesubscribers"@
    } else {
        search_sort_key(sort)
    }
}

/// The page number sent: at least 1.
pub open spec fn page_text(page: u32) -> Seq<char> {
    decimal(if page >= 1 { page as nat } else { 1 })
}

/// The time window sent, when there is one.
pub open spec fn days_text(days: i64) -> Seq<char> {
    if days > 0 {
        "&days="@ + decimal(days as nat)
    } else {
        seq![]
    }
}

/// Address of the listing page of a search for `text` (already trimmed).
pub open spec fn search_url(text: Seq<char>, page: u32, sort: Seq<char>, days: i64) -> Seq<char> {
    "https://steamcommunity.com/workshop/browse/?appid=431960&section=readytouseitems&searchtext="@
        + encode_query(text) + "&p="@ + page_text(page) + "&browsesort="@ + search_sort_key(sort)
        + days_text(days)
}

/// `s` ends with `suffix`.
pub open spec fn ends_with(s: Seq<char>, suffix: Seq<char>) -> bool {
    suffix.len() <= s.len() && s.skip(s.len() - suffix.len()) == suffix
}

/// Each sort offered to a search asks Steam for its own order: without a
/// time window the address ends with `browsesort=trend`, `toprated`,
/// `totaluniquesubscribers` or `timeupdated` for the sorts `trend`,
/// `top_rated`, `most_subscribed` and `newest` (and any other sort is
/// treated as `trend`); with any window, the four addresses differ.
pub proof fn law_search_sorts_are_distinct(text: Seq<char>, page: u32, days: i64, other: Seq<char>)
    ensures
        days <= 0 ==> ends_with(search_url(text, page, "trend"@, days), "&browsesort=trend"@),
        days <= 0 ==> ends_with(search_url(text, page, "top_rated"@, days), "&browsesort=toprated"@),
        days <= 0 ==> ends_with(search_url(text, page, "most_subscribed"@, days), "&browsesort=totaluniquesubscribers"@),
        days <= 0 ==> ends_with(search_url(text, page, "newest"@, days), "&browsesort=timeupdated"@),
        other != "top_rated"@ && other != "most_subscribed"@ && other != "newest"@ ==> search_url(text, page, other, days)
            == search_url(text, page, "trend"@, days),
        search_url(text, page, "trend"@, days) != search_url(text, page, "top_rated"@, days),
        search_url(text, page, "trend"@, days) != search_url(text, page, "most_subscribed"@, days),
        search_url(text, page, "trend"@, days) != search_url(text, page, "newest"@, days),
        search_url(text, page, "top_rated"@, days) != search_url(text, page, "most_subscribed"@, days),
        search_url(text, page, "top_rated"@, days) != search_url(text, page, "newest"@, days),
        search_url(text, page, "most_subscribed"@, days) != search_url(text, page, "newest"@, days),
{
    reveal_strlit("trend");
    reveal_strlit("top_rated");
    reveal_strlit("most_subscribed");
    reveal_strlit("newest");
    reveal_strlit("toprated");
    reveal_strlit("totaluniquesubscribers");
    reveal_strlit("timeupdated");
    reveal_strlit("&browsesort=");
    reveal_strlit("&browsesort=trend");
    reveal_strlit("&browsesort=toprated");
    reveal_strlit("&browsesort=totaluniquesubscribers");
    reveal_strlit("&browsesort=timeupdated");
    assert("trend"@.len() != "top_rated"@.len());
    assert("most_subscribed"@.len() != "top_rated"@.len());
    assert("newest"@ != "top_rated"@);
    assert("newest"@ != "most_subscribed"@);
    assert("trend"@ != "most_subscribed"@);
    assert("trend"@ != "newest"@);
    let head = "https://steamcommunity.com/workshop/browse/?appid=431960&section=readytouseitems&searchtext="@
        + encode_query(text) + "&p="@ + page_text(page);
    let tail = days_text(days);
    assert forall|key: Seq<char>|
        #![trigger head + "&browsesort="@ + key + tail]
        true implies (head + "&browsesort="@ + key + tail).len() == head.len() + 12 + key.len() + tail.len() by {}
    assert(search_url(text, page, "trend"@, days) == head + "&browsesort="@ + "trend"@ + tail);
    assert(search_url(text, page, "top_rated"@, days) == head + "&browsesort="@ + "toprated"@ + tail);
    assert(search_url(text, page, "most_subscribed"@, days) == head + "&browsesort="@ + "totaluniquesubscribers"@ + tail);
    assert(search_url(text, page, "newest"@, days) == head + "&browsesort="@ + "timeupdated"@ + tail);
    if days <= 0 {
        assert(tail.len() == 0);
        let u1 = search_url(text, page, "trend"@, days);
        assert(u1.skip(u1.len() - 17) =~= "&browsesort=trend"@);
        let u2 = search_url(text, page, "top_rated"@, days);
        assert(u2.skip(u2.len() - 20) =~= "&browsesort=toprated"@);
        let u3 = search_url(text, page, "most_subscribed"@, days);
        assert(u3.skip(u3.len() - 34) =~= "&browsesort=totaluniquesubscribers"@);
        let u4 = search_url(text, page, "newest"@, days);
        assert(u4.skip(u4.len() - 23) =~= "&browsesort=timeupdated"@);
    }
}

/// Address of the listing page of a browse.
pub open spec fn browse_url(page: u32, sort: Seq<char>, days: i64) -> Seq<char> {
    "https://steamcommunity.com/workshop/browse/?appid=431960&section=readytouseitems&l=english"@
        + "&p="@ + page_text(page) + "&browsesort="@ + browse_sort_key(sort) + days_text(days)
}

/// Browsing asks Steam for the order picked: without a time window the
/// address ends with `browsesort=trend`, `toprated`,
/// `totaluniquesubscribers` or `timeupdated` for `trend`, `top_rated`,
/// `most_subscribed` and `newest`; `most_viewed` asks for the same order as
/// `most_subscribed`, and any other sort for the same as `trend`.
pub proof fn law_browse_sorts(page: u32, days: i64, other: Seq<char>)
    ensures
        days <= 0 ==> ends_with(browse_url(page, "trend"@, days), "&browsesort=trend"@),
        days <= 0 ==> ends_with(browse_url(page, "top_rated"@, days), "&browsesort=toprated"@),
        days <= 0 ==> ends_with(browse_url(page, "most_subscribed"@, days), "&browsesort=totaluniquesubscribers"@),
        days <= 0 ==> ends_with(browse_url(page, "newest"@, days), "&browsesort=timeupdated"@),
        browse_url(page, "most_viewed"@, days) == browse_url(page, "most_subscribed"@, days),
        other != "top_rated"@ && other != "most_subscribed"@ && other != "newest"@ && other != "most_viewed"@
            ==> browse_url(page, other, days) == browse_url(page, "trend"@, days),
{
    reveal_strlit("trend");
    reveal_strlit("top_rated");
    reveal_strlit("most_subscribed");
    reveal_strlit("most_viewed");
    reveal_strlit("newest");
    reveal_strlit("toprated");
    reveal_strlit("totaluniquesubscribers");
    reveal_strlit("timeupdated");
    reveal_strlit("&browsesort=");
    reveal_strlit("&browsesort=trend");
    reveal_strlit("&browsesort=toprated");
    reveal_strlit("&browsesort=totaluniquesubscribers");
    reveal_strlit("&browsesort=timeupdated");
    assert("trend"@.len() != "most_viewed"@.len());
    assert("top_rated"@.len() != "most_viewed"@.len());
    assert("most_subscribed"@.len() != "most_viewed"@.len());
    assert("newest"@.len() != "most_viewed"@.len());
    assert("trend"@.len() != "top_rated"@.len());
    assert("most_subscribed"@.len() != "top_rated"@.len());
    let head = "https://steamcommunity.com/workshop/browse/?appid=431960&section=readytouseitems&l=english"@
        + "&p="@ + page_text(page);
    let tail = days_text(days);
    if days <= 0 {
        assert(tail.len() == 0);
        let u1 = browse_url(page, "trend"@, days);
        assert(u1 == head + "&browsesort="@ + "trend"@ + tail);
        assert(u1.skip(u1.len() - 17) =~= "&browsesort=trend"@);
        let u2 = browse_url(page, "top_rated"@, days);
        assert(u2 == head + "&browsesort="@ + "toprated"@ + tail);
        assert(u2.skip(u2.len() - 20) =~= "&browsesort=toprated"@);
        let u3 = browse_url(page, "most_subscribed"@, days);
        assert(u3 == head + "&browsesort="@ + "totaluniquesubscribers"@ + tail);
        assert(u3.skip(u3.len() - 34) =~= "&browsesort=totaluniquesubscribers"@);
        let u4 = browse_url(page, "newest"@, days);
        assert(u4 == head + "&browsesort="@ + "timeupdated"@ + tail);
        assert(u4.skip(u4.len() - 23) =~= "&browsesort=timeupdated"@);
    }
}

/// The item id a search text designates: the text itself when it is all
/// digits, else the digits after its first `id=`.
pub open spec fn extracted_id(t: Seq<char>) -> Option<Seq<char>> {
    if crate::text::all_digits(t) {
        Some(t)
    } else {
        match find(t, "id="@) {
            Some(p) => {
                let d = take_digits(t.skip(p + 3));
                if d.len() > 0 {
                    Some(d)
                } else {
                    None
                }
            },
            None => None,
        }
    }
}

fn hex_digit_of(d: u32) -> (c: char)
    requires
        d < 16,
    ensures
        c == hex_digit(d as nat),
{
    if d < 10 {
        digit_of(d as u64)
    } else if d == 10 {
        'A'
    } else if d == 11 {
        'B'
    } else if d == 12 {
        'C'
    } else if d == 13 {
        'D'
    } else if d == 14 {
        'E'
    } else {
        'F'
    }
}

fn push_hex(v: &mut Vec<char>, n: u32)
    ensures
        final(v)@ == old(v)@ + hex_upper(n as nat),
    decreases n,
{
    if n < 16 {
        v.push(hex_digit_of(n));
    } else {
        push_hex(v, n / 16);
        v.push(hex_digit_of(n % 16));
    }
}

/// Encodes a search text for an address.
pub fn encode_search_text(s: &str) -> (r: String)
    ensures
        r@ == encode_query(s@),
{
    let c = chars_of(s);
    let mut out: Vec<char> = Vec::new();
    let mut i: usize = 0;
    while i < c.len()
        invariant
            i <= c.len(),
            c@ == s@,
            out@ == encode_query(c@.take(i as int)),
        decreases c.len() - i,
    {
        let ch = c[i];
        let ghost before = out@;
        assert(c@.take(i as int + 1).drop_last() == c@.take(i as int));
        assert(c@.take(i as int + 1).last() == ch);
        if ('a' <= ch && ch <= 'z') || ('A' <= ch && ch <= 'Z') || ('0' <= ch && ch <= '9') || ch
            == '-' || ch == '_' || ch == '.' || ch == '~' {
            out.push(ch);
        } else if ch == ' ' {
            out.push('+');
        } else {
            out.push('%');
            let n = ch as u32;
            if n < 16 {
                out.push('0');
            }
            push_hex(&mut out, n);
            assert(n < 16 ==> hex_upper(n as nat) == seq![hex_digit(n as nat)]);
        }
        assert(out@ == before + encode_char(ch));
        i += 1;
    }
    assert(c@.take(c.len() as int) == c@);
    string_of(out.as_slice())
}

fn str_eq(a: &str, b: &str) -> (r: bool)
    ensures
        r == (a@ == b@),
{
    let ac = chars_of(a);
    eq_str(ac.as_slice(), b)
}

fn search_sort(sort: &str) -> (r: &'static str)
    ensures
        r@ == search_sort_key(sort@),
{
    if str_eq(sort, "top_rated") {
        "toprated"
    } else if str_eq(sort, "most_subscribed") {
        "totaluniquesubscribers"
    } else if str_eq(sort, "newest") {
        "timeupdated"
    } else {
        "trend"
    }
}

fn append_tail(url: &mut String, page: u32, key: &str, days: i64)
    ensures
        final(url)@ == old(url)@ + "&p="@ + page_text(page) + "&browsesort="@ + key@ + days_text(days),
{
    url.append("&p=");
    let p: u32 = if page >= 1 { page } else { 1 };
    url.append(crate::text::decimal_string(p as u64).as_str());
    url.append("&browsesort=");
    url.append(key);
    if days > 0 {
        url.append("&days=");
        url.append(crate::text::decimal_string(days as u64).as_str());
    }
}

/// Address of the listing page of a search.
pub fn search_page_url(text: &str, page: u32, sort: &str, days: i64) -> (r: String)
    ensures
        r@ == search_url(text@, page, sort@, days),
{
    let mut url = "https://steamcommunity.com/workshop/browse/?appid=431960&section=readytouseitems&searchtext=".to_string();
    url.append(encode_search_text(text).as_str());
    append_tail(&mut url, page, search_sort(sort), days);
    url
}

/// Address of the listing page of a browse.
pub fn browse_page_url(page: u32, sort: &str, days: i64) -> (r: String)
    ensures
        r@ == browse_url(page, sort@, days),
{
    let mut url = "https://steamcommunity.com/workshop/browse/?appid=431960&section=readytouseitems&l=english".to_string();
    let key = if str_eq(sort, "most_viewed") {
        "totaluniquesubscribers"
    } else {
        search_sort(sort)
    };
    append_tail(&mut url, page, key, days);
    url
}

/// The item id designated by a trimmed search text, if any.
pub fn extract_item_id(t: &[char]) -> (r: Option<Vec<char>>)
    ensures
        match r {
            Some(v) => extracted_id(t@) == Some(v@),
            None => extracted_id(t@) is None,
        },
{
    let mut i: usize = 0;
    while i < t.len()
        invariant
            i <= t.len(),
            forall|j: int| 0 <= j < i ==> crate::text::is_digit(#[trigger] t@[j]),
        ensures
            i <= t.len(),
            forall|j: int| 0 <= j < i ==> crate::text::is_digit(#[trigger] t@[j]),
            i < t.len() ==> !crate::text::is_digit(t@[i as int]),
        decreases t.len() - i,
    {
        if !('0' <= t[i] && t[i] <= '9') {
            break;
        }
        i += 1;
    }
    if i == t.len() {
        assert(t@.subrange(0, t.len() as int) == t@);
        return Some(slice_of(t, 0, t.len()));
    }
    assert(!crate::text::is_digit(t@[i as int]));
    let marker = chars_of("id=");
    proof {
        reveal_strlit("id=");
    }
    match find_chars(t, marker.as_slice(), 0) {
        Some(p) => {
            proof {
                lemma_found(t@, marker@, 0, p as int);
            }
            let d = take_digits_chars(t, p + 3);
            if d.len() > 0 {
                Some(d)
            } else {
                None
            }
        },
        None => None,
    }
}

/// What the caller must do next for a catalogue request.
pub enum WorkshopStep {
    /// Ask the published-file details service about these items, then
    /// hand the answer back as `WorkshopEvent::Details`.
    FetchDetails(Vec<String>),
    /// Download this page, then hand it back as `WorkshopEvent::Page`.
    FetchPage(String),
    /// The request is answered.
    Done(Result<Vec<WorkshopItem>, String>),
}

/// The outcome of the last step.
pub enum WorkshopEvent {
    Details(Result<Vec<WorkshopItem>, String>),
    Page(Result<String, String>),
}

/// Where a catalogue request stands.
#[derive(Debug, Clone, Copy, PartialEq, Eq)]
pub enum WorkshopPhase {
    /// An item id was searched; its details were asked for.
    IdDetails,
    /// Its details gave nothing; its page was asked for.
    IdPage,
    /// The listing page was asked for.
    Listing,
    /// The items of the listing page were asked for.
    ListingDetails,
    /// The request is answered.
    Finished,
}

/// A search or browse of the Workshop catalogue in progress.
pub struct WorkshopRequest {
    pub phase: WorkshopPhase,
    /// The item id searched for.
    pub id: String,
    /// Address of the listing page.
    pub listing_url: String,
    /// The listing page, once downloaded.
    pub html: String,
}

/// The items of a readable listing page, as `parse_browse_html` gives them.
pub open spec fn listing_items(items: Seq<WorkshopItem>, h: Seq<char>) -> bool {
    items.len() == listing_ids(h).len() && forall|k: int|
        0 <= k < items.len() ==> listing_item_ok(#[trigger] items[k], h, listing_ids(h)[k])
}

/// `item` is what the community page `h` of item `id` yields.
pub open spec fn item_page_ok(item: WorkshopItem, h: Seq<char>, id: Seq<char>) -> bool {
    &&& item.id@ == id
    &&& item.title@ == page_title(h, id)
    &&& opt_view(item.preview_url) == page_preview(h)
    &&& item.author@ == "Steam Workshop"@
    &&& item.url@ == item_page_url(id)
    &&& item.subscriptions == 0 && item.views == 0 && item.file_size == 0
    &&& item.description@ == Seq::<char>::empty() && item.tags@.len() == 0
    &&& item.hcontent_file@ == Seq::<char>::empty() && item.time_updated == 0
}

impl WorkshopRequest {
    /// The downloaded listing page can be read.
    pub open spec fn wf(&self) -> bool {
        self.phase == WorkshopPhase::ListingDetails ==> listing_page_ok(self.html@)
    }

    /// The event answers the step last handed out (a page that is not a
    /// readable listing page is not accepted as a listing page).
    pub open spec fn accepts(&self, event: WorkshopEvent) -> bool {
        match self.phase {
            WorkshopPhase::IdDetails => event is Details,
            WorkshopPhase::IdPage => event is Page,
            WorkshopPhase::Listing => match event {
                WorkshopEvent::Page(Ok(h)) => listing_page_ok(h@),
                WorkshopEvent::Page(Err(_)) => true,
                _ => false,
            },
            WorkshopPhase::ListingDetails => event is Details,
            WorkshopPhase::Finished => false,
        }
    }

    fn listing(url: String) -> (r: (Self, WorkshopStep))
        ensures
            r.0.phase == WorkshopPhase::Listing,
            r.0.listing_url@ == url@,
            r.0.wf(),
            r.1 matches WorkshopStep::FetchPage(u) && u@ == url@,
    {
        let step = WorkshopStep::FetchPage(url.clone());
        (WorkshopRequest { phase: WorkshopPhase::Listing, id: String::new(), listing_url: url, html: String::new() }, step)
    }

    /// Takes the outcome of the last step and says what comes next.
    pub fn next(&mut self, event: WorkshopEvent) -> (step: WorkshopStep)
        requires
            old(self).wf(),
            old(self).accepts(event),
        ensures
            final(self).wf(),
            final(self).id@ == old(self).id@,
            final(self).listing_url@ == old(self).listing_url@,
            step is Done <==> final(self).phase == WorkshopPhase::Finished,
            old(self).phase == WorkshopPhase::IdDetails ==> match event {
                WorkshopEvent::Details(Ok(items)) if items@.len() > 0 => step == WorkshopStep::Done(
                    Ok(items),
                ),
                _ => final(self).phase == WorkshopPhase::IdPage && (step matches WorkshopStep::FetchPage(
                    u,
                ) && u@ == item_page_url(old(self).id@)),
            },
            old(self).phase == WorkshopPhase::IdPage ==> match event {
                WorkshopEvent::Page(Ok(h)) => step matches WorkshopStep::Done(Ok(items)) && items@.len()
                    == 1 && item_page_ok(items@[0], h@, old(self).id@),
                _ => final(self).phase == WorkshopPhase::Listing && (step matches WorkshopStep::FetchPage(
                    u,
                ) && u@ == old(self).listing_url@),
            },
            old(self).phase == WorkshopPhase::Listing ==> match event {
                WorkshopEvent::Page(Ok(h)) => if listing_ids(h@).len() == 0 {
                    step matches WorkshopStep::Done(Ok(items)) && listing_items(items@, h@)
                } else {
                    &&& final(self).phase == WorkshopPhase::ListingDetails
                    &&& final(self).html@ == h@
                    &&& step matches WorkshopStep::FetchDetails(ids) && ids@.map_values(
                        |x: String| x@,
                    ) == listing_ids(h@)
                },
                WorkshopEvent::Page(Err(e)) => step == WorkshopStep::Done(Err(e)),
                _ => true,
            },
            old(self).phase == WorkshopPhase::ListingDetails ==> match event {
                WorkshopEvent::Details(Ok(items)) if items@.len() > 0 => step == WorkshopStep::Done(
                    Ok(items),
                ),
                _ => step matches WorkshopStep::Done(Ok(items)) && listing_items(
                    items@,
                    old(self).html@,
                ),
            },
    {
        match self.phase {
            WorkshopPhase::IdDetails => {
                match event {
                    WorkshopEvent::Details(Ok(items)) => {
                        if items.len() > 0 {
                            self.phase = WorkshopPhase::Finished;
                            return WorkshopStep::Done(Ok(items));
                        }
                    },
                    _ => {},
                }
                self.phase = WorkshopPhase::IdPage;
                let mut u = "https://steamcommunity.com/sharedfiles/filedetails/?id=".to_string();
                u.append(self.id.as_str());
                WorkshopStep::FetchPage(u)
            },
            WorkshopPhase::IdPage => {
                match event {
                    WorkshopEvent::Page(Ok(h)) => {
                        let item = parse_single_item_page(h.as_str(), self.id.as_str());
                        self.phase = WorkshopPhase::Finished;
                        let mut v: Vec<WorkshopItem> = Vec::new();
                        v.push(item);
                        WorkshopStep::Done(Ok(v))
                    },
                    _ => {
                        self.phase = WorkshopPhase::Listing;
                        WorkshopStep::FetchPage(self.listing_url.clone())
                    },
                }
            },
            WorkshopPhase::Listing => {
                match event {
                    WorkshopEvent::Page(Ok(h)) => {
                        let hc = chars_of(h.as_str());
                        let ids = collect_listing_ids(hc.as_slice());
                        if ids.len() == 0 {
                            self.phase = WorkshopPhase::Finished;
                            return WorkshopStep::Done(parse_browse_html(h.as_str()));
                        }
                        let mut out: Vec<String> = Vec::new();
                        let mut k: usize = 0;
                        while k < ids.len()
                            invariant
                                k <= ids.len(),
                                vviews(ids@) == listing_ids(h@),
                                out@.map_values(|x: String| x@) == vviews(ids@).take(k as int),
                            decreases ids.len() - k,
                        {
                            let ghost before = out@;
                            out.push(string_of(ids[k].as_slice()));
                            proof {
                                assert(out@.map_values(|x: String| x@) =~= before.map_values(|x: String| x@).push(ids@[k as int]@));
                                assert(vviews(ids@)[k as int] == ids@[k as int]@);
                                assert(out@.map_values(|x: String| x@) =~= vviews(ids@).take(
                                    k as int + 1,
                                ));
                            }
                            k += 1;
                        }
                        assert(vviews(ids@).take(ids.len() as int) == vviews(ids@));
                        self.phase = WorkshopPhase::ListingDetails;
                        self.html = h;
                        WorkshopStep::FetchDetails(out)
                    },
                    WorkshopEvent::Page(Err(e)) => {
                        self.phase = WorkshopPhase::Finished;
                        WorkshopStep::Done(Err(e))
                    },
                    _ => WorkshopStep::Done(Err(String::new())),
                }
            },
            WorkshopPhase::ListingDetails => {
                match event {
                    WorkshopEvent::Details(Ok(items)) => {
                        if items.len() > 0 {
                            self.phase = WorkshopPhase::Finished;
                            return WorkshopStep::Done(Ok(items));
                        }
                    },
                    _ => {},
                }
                self.phase = WorkshopPhase::Finished;
                WorkshopStep::Done(parse_browse_html(self.html.as_str()))
            },
            WorkshopPhase::Finished => WorkshopStep::Done(Err(String::new())),
        }
    }
}

/// Starts a browse of the catalogue: the listing page is asked for first.
pub fn browse_workshop(page: u32, sort: &str, days: i64) -> (r: (WorkshopRequest, WorkshopStep))
    ensures
        r.0.wf(),
        r.0.phase == WorkshopPhase::Listing,
        r.0.listing_url@ == browse_url(page, sort@, days),
        r.1 matches WorkshopStep::FetchPage(u) && u@ == browse_url(page, sort@, days),
{
    WorkshopRequest::listing(browse_page_url(page, sort, days))
}

/// `r` is the start of a search for `query`: a blank query is a browse of
/// `page`; a query that designates an item id asks for that item's details
/// first; any other query asks for the listing page of the search.
pub open spec fn search_started(query: Seq<char>, page: u32, sort: Seq<char>, days: i64, r: (WorkshopRequest, WorkshopStep)) -> bool {
    &&& r.0.wf()
    &&& trim(query).len() == 0 ==> r.0.phase == WorkshopPhase::Listing && r.0.listing_url@ == browse_url(page, sort, days)
        && (r.1 matches WorkshopStep::FetchPage(u) && u@ == browse_url(page, sort, days))
    &&& trim(query).len() > 0 ==> r.0.listing_url@ == search_url(trim(query), page, sort, days)
    &&& trim(query).len() > 0 ==> match extracted_id(trim(query)) {
        Some(id) => r.0.phase == WorkshopPhase::IdDetails && r.0.id@ == id && (r.1 matches WorkshopStep::FetchDetails(
            ids,
        ) && ids@.len() == 1 && ids@[0]@ == id),
        None => r.0.phase == WorkshopPhase::Listing && (r.1 matches WorkshopStep::FetchPage(u) && u@ == search_url(
            trim(query),
            page,
            sort,
            days,
        )),
    }
}

/// Starts a search of the catalogue (see `search_started`).
pub fn search_workshop(query: &str, page: u32, sort: &str, days: i64) -> (r: (WorkshopRequest, WorkshopStep))
    ensures
        search_started(query@, page, sort@, days, r),
{
    let qc = chars_of(query);
    let t = trim_chars(qc.as_slice());
    if t.len() == 0 {
        return browse_workshop(page, sort, days);
    }
    let text = string_of(t.as_slice());
    let url = search_page_url(text.as_str(), page, sort, days);
    match extract_item_id(t.as_slice()) {
        Some(idc) => {
            let id = string_of(idc.as_slice());
            let mut ids: Vec<String> = Vec::new();
            ids.push(id.clone());
            (WorkshopRequest { phase: WorkshopPhase::IdDetails, id, listing_url: url, html: String::new() }, WorkshopStep::FetchDetails(ids))
        },
        None => WorkshopRequest::listing(url),
    }
}

/// Starts a browse of the week's trending items.
pub fn fetch_popular_wallpapers(page: u32) -> (r: (WorkshopRequest, WorkshopStep))
    ensures
        r.0.wf(),
        r.0.phase == WorkshopPhase::Listing,
        r.0.listing_url@ == browse_url(page, "trend"@, 7),
        r.1 matches WorkshopStep::FetchPage(u) && u@ == browse_url(page, "trend"@, 7),
{
    browse_workshop(page, "trend", 7)
}

/// Starts a search of the catalogue, as `search_workshop` does (see
/// `search_started`).
pub fn search_workshop_items(query: &str, page: u32, sort: &str, days: i64) -> (r: (WorkshopRequest, WorkshopStep))
    ensures
        search_started(query@, page, sort@, days, r),
{
    search_workshop(query, page, sort, days)
}


// ---------------------------------------------------------------------------
// Items on disk
// ---------------------------------------------------------------------------

/// Where the Workshop content of item `id` lies under the Steam library
/// (or download directory) `base`.
pub open spec fn content_dir(base: Seq<char>, id: Seq<char>) -> Seq<char> {
    join(join(join(join(join(base, "steamapps"@), "workshop"@), "content"@), "431960"@), id)
}

/// Directory of the Workshop content of item `id` under `base`.
pub fn workshop_content_dir(base: &str, id: &str) -> (r: String)
    ensures
        r@ == content_dir(base@, id@),
{
    let a = join_path(base, "steamapps");
    let b = join_path(a.as_str(), "workshop");
    let c = join_path(b.as_str(), "content");
    let d = join_path(c.as_str(), "431960");
    join_path(d.as_str(), id)
}

/// An item counts as downloaded when its directory exists and holds a
/// `project.json`.
pub open spec fn counts_as_downloaded(dir_exists: bool, project_file_exists: bool) -> bool {
    dir_exists && project_file_exists
}

/// The directory `dir` of a downloaded item, when it holds a
/// `project.json`.
pub open spec fn downloaded_dir(dir: Seq<char>, project_file_exists: bool) -> Option<Seq<char>> {
    if project_file_exists {
        Some(dir)
    } else {
        None
    }
}

/// Whether an item is downloaded (see `counts_as_downloaded`).
pub fn is_downloaded(dir_exists: bool, project_file_exists: bool) -> (r: bool)
    ensures
        r == counts_as_downloaded(dir_exists, project_file_exists),
{
    dir_exists && project_file_exists
}

/// The directory `dir` of a downloaded item (see `downloaded_dir`).
pub fn downloaded_item_path(dir: String, project_file_exists: bool) -> (r: Option<String>)
    ensures
        r == if project_file_exists { Some(dir) } else { None::<String> },
        match r {
            Some(d) => downloaded_dir(dir@, project_file_exists) == Some(d@),
            None => downloaded_dir(dir@, project_file_exists) is None,
        },
{
    if project_file_exists {
        Some(dir)
    } else {
        None
    }
}

/// On a file system where a file implies its directory, an item counts as
/// downloaded exactly when its downloaded directory is found.
pub proof fn law_downloaded_agrees(dir: Seq<char>, dir_exists: bool, project_file_exists: bool)
    requires
        project_file_exists ==> dir_exists,
    ensures
        counts_as_downloaded(dir_exists, project_file_exists) == downloaded_dir(dir, project_file_exists) is Some,
{
}

/// A file system, given by the paths that exist on it, in which a path
/// exists only below an existing directory: when `dir/name` exists, `dir`
/// does too.
pub open spec fn parents_exist(fs: Set<Seq<char>>) -> bool {
    forall|dir: Seq<char>, name: Seq<char>|
        dir.len() > 0 && name.len() > 0 && name[0] != '/' && #[trigger] fs.contains(join(dir, name)) ==> fs.contains(dir)
}

/// The directory of item `id` in the engine's download store, for the
/// home directory `home`.
pub open spec fn downloaded_item_dir(home: Option<Seq<char>>, id: Seq<char>) -> Seq<char> {
    content_dir(workshop_temp_dir_of(home), id)
}

proof fn lemma_join_nonempty(base: Seq<char>, comp: Seq<char>)
    requires
        base.len() > 0 || comp.len() > 0,
    ensures
        join(base, comp).len() > 0,
{
}

/// On one file system, the same for both calls, item `id` counts as
/// downloaded (`is_downloaded`) exactly when its downloaded directory is
/// found (`downloaded_item_path`).
pub proof fn law_is_downloaded_agrees(fs: Set<Seq<char>>, home: Option<Seq<char>>, id: Seq<char>)
    requires
        parents_exist(fs),
    ensures
        ({
            let dir = downloaded_item_dir(home, id);
            let project = fs.contains(join(dir, "project.json"@));
            counts_as_downloaded(fs.contains(dir), project) == downloaded_dir(dir, project) is Some
        }),
{
    reveal_strlit("project.json");
    reveal_strlit("431960");
    let base = join(join(join(workshop_temp_dir_of(home), "steamapps"@), "workshop"@), "content"@);
    lemma_join_nonempty(base, "431960"@);
    let parent = join(base, "431960"@);
    lemma_join_nonempty(parent, id);
    let dir = downloaded_item_dir(home, id);
    assert(dir.len() > 0);
    if fs.contains(join(dir, "project.json"@)) {
        assert(fs.contains(dir));
    }
}

/// The item `id` as the Steam client installed it: its directory in the
/// first of the libraries `libs` where it holds a `project.json`
/// (`has_project[i]` telling whether it does in `libs[i]`).
pub fn steam_client_item_path(libs: &[String], has_project: &[bool], id: &str) -> (r: Option<String>)
    requires
        libs.len() == has_project.len(),
    ensures
        match r {
            Some(p) => exists|i: int|
                0 <= i < libs.len() && has_project@[i] && p@ == content_dir(libs@[i]@, id@) && forall|j: int|
                    0 <= j < i ==> !has_project@[j],
            None => forall|j: int| 0 <= j < libs.len() ==> !has_project@[j],
        },
{
    let mut i: usize = 0;
    while i < libs.len()
        invariant
            i <= libs.len(),
            libs.len() == has_project.len(),
            forall|j: int| 0 <= j < i ==> !has_project@[j],
        decreases libs.len() - i,
    {
        if has_project[i] {
            return Some(workshop_content_dir(libs[i].as_str(), id));
        }
        i += 1;
    }
    None
}

/// Where steamcmd is looked for after `which`, below the home directory
/// `home` and in the system directories.
pub open spec fn steamcmd_candidates(home: Seq<char>) -> Seq<Seq<char>> {
    seq![
        join(join(join(home, ".steam"@), "steamcmd"@), "steamcmd.sh"@),
        "/usr/games/steamcmd"@,
        "/usr/bin/steamcmd"@,
        "/opt/steamcmd/steamcmd.sh"@,
    ]
}

/// The places steamcmd is looked for after `which`.
pub fn steamcmd_candidate_paths(home: &str) -> (r: Vec<String>)
    ensures
        r@.map_values(|x: String| x@) == steamcmd_candidates(home@),
{
    let a = join_path(home, ".steam");
    let b = join_path(a.as_str(), "steamcmd");
    let mut v: Vec<String> = Vec::new();
    v.push(join_path(b.as_str(), "steamcmd.sh"));
    v.push("/usr/games/steamcmd".to_string());
    v.push("/usr/bin/steamcmd".to_string());
    v.push("/opt/steamcmd/steamcmd.sh".to_string());
    assert(v@.map_values(|x: String| x@) =~= steamcmd_candidates(home@));
    v
}

/// The steamcmd program: what `which` printed, trimmed, when not blank;
/// else the first candidate that exists (`exists[i]` for `candidates[i]`).
pub fn find_steamcmd(which_output: Option<&str>, candidates: &[String], exists: &[bool]) -> (r: Option<String>)
    requires
        candidates.len() == exists.len(),
    ensures
        match which_output {
            Some(w) if trim(w@).len() > 0 => r matches Some(p) && p@ == trim(w@),
            _ => match r {
                Some(p) => exists|i: int|
                    0 <= i < candidates.len() && exists@[i] && p@ == candidates@[i]@ && forall|j: int|
                        0 <= j < i ==> !exists@[j],
                None => forall|j: int| 0 <= j < candidates.len() ==> !exists@[j],
            },
        },
{
    match which_output {
        Some(w) => {
            let wc = chars_of(w);
            let t = trim_chars(wc.as_slice());
            if t.len() > 0 {
                return Some(string_of(t.as_slice()));
            }
        },
        None => {},
    }
    let mut i: usize = 0;
    while i < candidates.len()
        invariant
            i <= candidates.len(),
            candidates.len() == exists.len(),
            forall|j: int| 0 <= j < i ==> !exists@[j],
            match which_output {
                Some(w) => trim(w@).len() == 0,
                None => true,
            },
        decreases candidates.len() - i,
    {
        if exists[i] {
            return Some(candidates[i].clone());
        }
        i += 1;
    }
    None
}

/// Whether steamcmd was found.
pub fn steamcmd_available(found: &Option<String>) -> (r: bool)
    ensures
        r == found is Some,
{
    found.is_some()
}

/// Lower-case hexadecimal digit.
pub open spec fn hex_lower_digit(d: nat) -> char {
    if d < 10 {
        digit_char(d)
    } else if d == 10 {
        'a'
    } else if d == 11 {
        'b'
    } else if d == 12 {
        'c'
    } else if d == 13 {
        'd'
    } else if d == 14 {
        'e'
    } else {
        'f'
    }
}

/// `{:x}`: lower-case hexadecimal rendering of `n`.
pub open spec fn hex_lower(n: nat) -> Seq<char>
    decreases n,
{
    if n < 16 {
        seq![hex_lower_digit(n)]
    } else {
        hex_lower(n / 16).push(hex_lower_digit(n % 16))
    }
}

pub(crate) proof fn lemma_hex_lower_len(n: nat, k: nat)
    requires
        n >= crate::steam_workshop::p16(k),
    ensures
        hex_lower(n).len() > k,
    decreases k,
{
    if k > 0 {
        assert(n / 16 >= p16((k - 1) as nat)) by (nonlinear_arith)
            requires
                n >= p16(k),
                p16(k) == 16 * p16((k - 1) as nat),
        ;
        lemma_hex_lower_len(n / 16, (k - 1) as nat);
    }
}

/// Powers of sixteen.
pub open spec fn p16(k: nat) -> nat
    decreases k,
{
    if k == 0 {
        1
    } else {
        16 * p16((k - 1) as nat)
    }
}

pub(crate) fn push_hex_lower(v: &mut Vec<char>, n: u64)
    ensures
        final(v)@ == old(v)@ + hex_lower(n as nat),
    decreases n,
{
    let d = if n < 16 { n } else { n % 16 };
    let c = if d < 10 {
        digit_of(d)
    } else if d == 10 {
        'a'
    } else if d == 11 {
        'b'
    } else if d == 12 {
        'c'
    } else if d == 13 {
        'd'
    } else if d == 14 {
        'e'
    } else {
        'f'
    };
    if n >= 16 {
        push_hex_lower(v, n / 16);
    }
    v.push(c);
}

/// The cache file of the preview image of `item`: named after the item and
/// the first eight hexadecimal digits of the hash of the image address.
pub open spec fn preview_cache_file(id: Seq<char>, url: Seq<char>) -> Seq<char> {
    join(
        "/tmp/omywall_workshop_thumbs"@,
        id + "_"@ + hex_lower(crate::gui::djb2(encode_utf8(url)) as nat).take(8) + ".jpg"@,
    )
}

/// The preview cache file of `item`, when it has a preview image, whether
/// or not that file exists.
pub fn preview_cache_path(item: &WorkshopItem) -> (r: Option<String>)
    requires
        match item.preview_url {
            Some(u) => crate::gui::djb2(encode_utf8(u@)) >= 0x1000_0000,
            None => true,
        },
    ensures
        match item.preview_url {
            Some(u) => r matches Some(p) && p@ == preview_cache_file(item.id@, u@),
            None => r is None,
        },
{
    match &item.preview_url {
        Some(url) => {
            let h = crate::gui::md5_hash(url.as_str().as_bytes());
            let mut hx: Vec<char> = Vec::new();
            push_hex_lower(&mut hx, h);
            proof {
                reveal_with_fuel(p16, 8);
                assert(p16(7) == 0x1000_0000);
                lemma_hex_lower_len(h as nat, 7);
            }
            let mut name = chars_of(item.id.as_str());
            extend_str(&mut name, "_");
            let first8 = slice_of(hx.as_slice(), 0, 8);
            assert(first8@ == hex_lower(h as nat).take(8));
            extend_chars(&mut name, first8.as_slice());
            extend_str(&mut name, ".jpg");
            let file = string_of(name.as_slice());
            Some(join_path("/tmp/omywall_workshop_thumbs", file.as_str()))
        },
        None => None,
    }
}

/// The cached preview image of `item`: its cache file, when the item has a
/// preview image and that file exists (`cache_file_exists`).
pub fn cached_preview_path(item: &WorkshopItem, cache_file_exists: bool) -> (r: Option<String>)
    requires
        match item.preview_url {
            Some(u) => crate::gui::djb2(encode_utf8(u@)) >= 0x1000_0000,
            None => true,
        },
    ensures
        match item.preview_url {
            Some(u) => if cache_file_exists {
                r matches Some(p) && p@ == preview_cache_file(item.id@, u@)
            } else {
                r is None
            },
            None => r is None,
        },
{
    if cache_file_exists {
        preview_cache_path(item)
    } else {
        None
    }
}

/// A listing page yields each item once.
pub proof fn law_listing_ids_distinct(h: Seq<char>)
    ensures
        forall|i: int, j: int|
            0 <= i < j < listing_ids(h).len() ==> listing_ids(h)[i] != listing_ids(h)[j],
        forall|i: int| 0 <= i < listing_ids(h).len() ==> listing_ids(h)[i].len() > 0,
{
    lemma_dedup_distinct(ids_at(h, occurrences(h, id_link(), 0)));
}

proof fn lemma_dedup_distinct(raw: Seq<Seq<char>>)
    ensures
        forall|i: int, j: int| 0 <= i < j < dedup_ids(raw).len() ==> dedup_ids(raw)[i] != dedup_ids(raw)[j],
        forall|i: int| 0 <= i < dedup_ids(raw).len() ==> dedup_ids(raw)[i].len() > 0,
    decreases raw.len(),
{
    if raw.len() > 0 {
        lemma_dedup_distinct(raw.drop_last());
        let d = dedup_ids(raw.drop_last());
        let x = raw.last();
        if !(x.len() == 0 || d.contains(x)) {
            assert forall|i: int, j: int| 0 <= i < j < d.push(x).len() implies d.push(x)[i] != d.push(x)[j] by {
                if j == d.len() {
                    assert(d.push(x)[j] == x);
                    assert(d.push(x)[i] == d[i]);
                    if d[i] == x {
                        assert(d.contains(x));
                    }
                }
            }
        }
    }
}

// ---------------------------------------------------------------------------
// Downloading an item
// ---------------------------------------------------------------------------

/// What the caller must do next to download an item.
#[derive(Debug, PartialEq)]
pub enum DownloadStep {
    /// Copy the item installed by the Steam client from `src` to `dest`
    /// (after removing `dest`), then report whether the copy now holds a
    /// `project.json`.
    Import { src: String, dest: String },
    /// Look for the steamcmd program and report where it was found.
    FindSteamcmd,
    /// Run steamcmd with these arguments, then report whether the item's
    /// directory now holds a `project.json`.
    RunSteamcmd { program: String, args: Vec<String> },
    /// Open the item's page for the user, then fail with this message.
    OpenPageAndFail(String),
    /// The download is over: the item's directory, or why not.
    Done(Result<String, String>),
}

/// The outcome of the last step.
#[derive(Debug, Clone, PartialEq)]
pub enum DownloadEvent {
    Imported(bool),
    SteamcmdFound(Option<String>),
    /// steamcmd ran; whether the item's directory now holds a
    /// `project.json`.
    SteamcmdRan(bool),
    /// steamcmd could not be started, for this reason.
    SteamcmdFailed(String),
}

/// Where a download stands.
#[derive(Debug, Clone, Copy, PartialEq, Eq)]
pub enum DownloadPhase {
    Importing,
    Finding,
    Running,
    Finished,
}

/// A download of a Workshop item into the engine's own store.
pub struct DownloadRequest {
    pub phase: DownloadPhase,
    pub id: String,
    /// The engine's download directory.
    pub store: String,
}

/// The steamcmd arguments that download item `id` into `store`.
pub open spec fn steamcmd_arg_list(store: Seq<char>, id: Seq<char>) -> Seq<Seq<char>> {
    seq![
        "+force_install_dir"@,
        store,
        "+login"@,
        "anonymous"@,
        "+workshop_download_item 431960 "@ + id,
        "+quit"@,
    ]
}

/// The message given when steamcmd is missing.
pub open spec fn no_steamcmd_text() -> Seq<char> {
    "steamcmd is not installed. Install steamcmd (e.g. `sudo pacman -S steamcmd` or `sudo apt install steamcmd`) to download workshop items, or subscribe via the Steam app."@
}

/// The message given when steamcmd could not be started, for `reason`.
pub open spec fn steamcmd_failed_text(reason: Seq<char>) -> Seq<char> {
    "Failed to run steamcmd: "@ + reason
}

/// The message given when steamcmd could not download item `id`.
pub open spec fn download_failed_text(id: Seq<char>) -> Seq<char> {
    "Download failed for item "@ + id
        + ". Anonymous downloads of Wallpaper Engine (paid app) workshop items are not permitted by Valve. I opened the item page — subscribe there and the item will download into Steam, then press “Rescan Steam Libraries”. https://steamcommunity.com/sharedfiles/filedetails/?id="@
        + id
}

/// Starts the download of item `id` into the store `store`: nothing to do
/// when it is there already (`downloaded`), an import when the Steam
/// client installed it (`client_dir`), else a look for steamcmd.
pub fn download_workshop_item(id: &str, store: &str, downloaded: bool, client_dir: Option<String>) -> (r: (DownloadRequest, DownloadStep))
    ensures
        r.0.id@ == id@,
        r.0.store@ == store@,
        downloaded ==> r.0.phase == DownloadPhase::Finished && (r.1 matches DownloadStep::Done(Ok(p)) && p@ == content_dir(store@, id@)),
        !downloaded && client_dir is Some ==> r.0.phase == DownloadPhase::Importing && (r.1 matches DownloadStep::Import { src, dest } && src == client_dir->0 && dest@ == content_dir(store@, id@)),
        !downloaded && client_dir is None ==> r.0.phase == DownloadPhase::Finding && r.1 == DownloadStep::FindSteamcmd,
{
    let dest = workshop_content_dir(store, id);
    if downloaded {
        return (DownloadRequest { phase: DownloadPhase::Finished, id: id.to_string(), store: store.to_string() }, DownloadStep::Done(Ok(dest)));
    }
    match client_dir {
        Some(src) => (DownloadRequest { phase: DownloadPhase::Importing, id: id.to_string(), store: store.to_string() }, DownloadStep::Import { src, dest }),
        None => (DownloadRequest { phase: DownloadPhase::Finding, id: id.to_string(), store: store.to_string() }, DownloadStep::FindSteamcmd),
    }
}

impl DownloadRequest {
    /// The event answers the step last handed out.
    pub open spec fn accepts(&self, e: DownloadEvent) -> bool {
        match self.phase {
            DownloadPhase::Importing => e is Imported,
            DownloadPhase::Finding => e is SteamcmdFound,
            DownloadPhase::Running => e is SteamcmdRan || e is SteamcmdFailed,
            DownloadPhase::Finished => false,
        }
    }

    /// Takes the outcome of the last step and says what comes next.
    pub fn next(&mut self, e: DownloadEvent) -> (step: DownloadStep)
        requires
            old(self).accepts(e),
        ensures
            final(self).id@ == old(self).id@,
            final(self).store@ == old(self).store@,
            match e {
                DownloadEvent::Imported(true) => final(self).phase == DownloadPhase::Finished && (step matches DownloadStep::Done(Ok(p)) && p@ == content_dir(old(self).store@, old(self).id@)),
                DownloadEvent::Imported(false) => final(self).phase == DownloadPhase::Finding && step == DownloadStep::FindSteamcmd,
                DownloadEvent::SteamcmdFound(None) => final(self).phase == DownloadPhase::Finished && (step matches DownloadStep::Done(Err(m)) && m@ == no_steamcmd_text()),
                DownloadEvent::SteamcmdFound(Some(prog)) => final(self).phase == DownloadPhase::Running && (step matches DownloadStep::RunSteamcmd { program, args } && program == prog && args@.map_values(|a: String| a@) == steamcmd_arg_list(old(self).store@, old(self).id@)),
                DownloadEvent::SteamcmdRan(true) => final(self).phase == DownloadPhase::Finished && (step matches DownloadStep::Done(Ok(p)) && p@ == content_dir(old(self).store@, old(self).id@)),
                DownloadEvent::SteamcmdRan(false) => final(self).phase == DownloadPhase::Finished && (step matches DownloadStep::OpenPageAndFail(m) && m@ == download_failed_text(old(self).id@)),
                DownloadEvent::SteamcmdFailed(reason) => final(self).phase == DownloadPhase::Finished && (step matches DownloadStep::Done(Err(m)) && m@ == steamcmd_failed_text(reason@)),
            },
    {
        match e {
            DownloadEvent::Imported(true) | DownloadEvent::SteamcmdRan(true) => {
                self.phase = DownloadPhase::Finished;
                DownloadStep::Done(Ok(workshop_content_dir(self.store.as_str(), self.id.as_str())))
            },
            DownloadEvent::Imported(false) => {
                self.phase = DownloadPhase::Finding;
                DownloadStep::FindSteamcmd
            },
            DownloadEvent::SteamcmdFound(None) => {
                self.phase = DownloadPhase::Finished;
                DownloadStep::Done(Err("steamcmd is not installed. Install steamcmd (e.g. `sudo pacman -S steamcmd` or `sudo apt install steamcmd`) to download workshop items, or subscribe via the Steam app.".to_string()))
            },
            DownloadEvent::SteamcmdFound(Some(program)) => {
                self.phase = DownloadPhase::Running;
                let mut item = "+workshop_download_item 431960 ".to_string();
                item.append(self.id.as_str());
                let mut args: Vec<String> = Vec::new();
                args.push("+force_install_dir".to_string());
                args.push(self.store.clone());
                args.push("+login".to_string());
                args.push("anonymous".to_string());
                args.push(item);
                args.push("+quit".to_string());
                assert(args@.map_values(|a: String| a@) =~= steamcmd_arg_list(self.store@, self.id@));
                DownloadStep::RunSteamcmd { program, args }
            },
            DownloadEvent::SteamcmdRan(false) => {
                self.phase = DownloadPhase::Finished;
                let mut m = "Download failed for item ".to_string();
                m.append(self.id.as_str());
                m.append(". Anonymous downloads of Wallpaper Engine (paid app) workshop items are not permitted by Valve. I opened the item page — subscribe there and the item will download into Steam, then press “Rescan Steam Libraries”. https://steamcommunity.com/sharedfiles/filedetails/?id=");
                m.append(self.id.as_str());
                DownloadStep::OpenPageAndFail(m)
            },
            DownloadEvent::SteamcmdFailed(reason) => {
                self.phase = DownloadPhase::Finished;
                let mut m = "Failed to run steamcmd: ".to_string();
                m.append(reason.as_str());
                DownloadStep::Done(Err(m))
            },
        }
    }
}

/// The programs tried, in order, to show the page of item `id`: the Steam
/// client, then the desktop's handler for the Steam address, then the
/// desktop's handler for the web page.
pub open spec fn page_command_list(id: Seq<char>) -> Seq<(Seq<char>, Seq<char>)> {
    seq![
        ("steam"@, "steam://url/CommunityFilePage/"@ + id),
        ("xdg-open"@, "steam://url/CommunityFilePage/"@ + id),
        ("xdg-open"@, item_page_url(id)),
    ]
}

/// The commands tried, in order, to open the page of item `id`.
pub fn open_in_browser(id: &str) -> (r: Vec<(&'static str, String)>)
    ensures
        r@.map_values(|c: (&str, String)| (c.0@, c.1@)) == page_command_list(id@),
{
    let mut proto = "steam://url/CommunityFilePage/".to_string();
    proto.append(id);
    let mut web = "https://steamcommunity.com/sharedfiles/filedetails/?id=".to_string();
    web.append(id);
    let mut v: Vec<(&'static str, String)> = Vec::new();
    v.push(("steam", proto.clone()));
    v.push(("xdg-open", proto));
    v.push(("xdg-open", web));
    assert(v@.map_values(|c: (&str, String)| (c.0@, c.1@)) =~= page_command_list(id@));
    v
}

/// The home directory, or `/home/user` when it is unknown.
pub open spec fn home_or_default(home: Option<Seq<char>>) -> Seq<char> {
    match home {
        Some(h) => h,
        None => "/home/user"@,
    }
}

/// The directory where steamcmd downloads Workshop items.
pub open spec fn workshop_temp_dir_of(home: Option<Seq<char>>) -> Seq<char> {
    join(join(join(home_or_default(home), ".cache"@), "omywall"@), "steam_workshop"@)
}

/// The download directory of Workshop items, below the home directory
/// `home` when it is known.
pub fn workshop_temp_dir(home: Option<&str>) -> (r: String)
    ensures
        r@ == workshop_temp_dir_of(match home {
            Some(h) => Some(h@),
            None => None,
        }),
{
    let base = match home {
        Some(h) => h,
        None => "/home/user",
    };
    let a = join_path(base, ".cache");
    let b = join_path(a.as_str(), "omywall");
    join_path(b.as_str(), "steam_workshop")
}

} // verus!
