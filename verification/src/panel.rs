//! The decisions of the settings window's catalogue and Workshop tabs:
//! paging and sorting the Workshop listing, what a Workshop item's buttons
//! do, stepping through the carousel, and applying or saving what the
//! user picked. Drawing and running the requests are the window's.
use vstd::prelude::*;
use crate::steam_workshop::{WorkshopRequest, WorkshopStep, browse_url, browse_workshop, search_workshop};
use crate::text::{chars_of, decimal, decimal_string, starts_with, starts_with_str, string_of, trim, trim_chars};

verus! {

broadcast use vstd::string::group_string_axioms;

/// The Workshop tab's own state.
#[derive(Debug, Clone, PartialEq)]
pub struct WorkshopPanel {
    pub query: String,
    pub page: u32,
    pub sort: String,
    pub days: i64,
    pub loading: bool,
    /// The line under the listing.
    pub status: String,
}

/// What happens on the Workshop tab.
#[derive(Debug, PartialEq)]
pub enum PanelEvent {
    QueryChanged(String),
    Search,
    Clear,
    SortChanged(String),
    DaysChanged(i64),
    PagePrev,
    PageNext,
    /// A listing arrived with this many items, or failed.
    Loaded(Result<usize, String>),
}

/// A listing to fetch: the search or browse of `page` in order `sort`
/// over the last `days` days (`browse_only` ignoring the query).
#[derive(Debug, Clone, PartialEq)]
pub struct ListingQuery {
    pub browse_only: bool,
    pub query: String,
    pub page: u32,
    pub sort: String,
    pub days: i64,
}

/// The listing the panel asks for, with the query as typed.
pub open spec fn asks(p: WorkshopPanel, q: ListingQuery, browse_only: bool) -> bool {
    &&& q.browse_only == browse_only
    &&& q.query@ == p.query@
    &&& q.page == p.page
    &&& q.sort@ == p.sort@
    &&& q.days == p.days
}

/// `n` is `o` with the fields given and the others as they were.
pub open spec fn panel_with(o: WorkshopPanel, n: WorkshopPanel, query: Seq<char>, page: u32, sort: Seq<char>, days: i64, loading: bool, status: Seq<char>) -> bool {
    &&& n.query@ == query
    &&& n.page == page
    &&& n.sort@ == sort
    &&& n.days == days
    &&& n.loading == loading
    &&& n.status@ == status
}

/// What an event does to the panel, and the listing it asks for: a new
/// search, sort or period starts again at page 1 (sorting by trend looks
/// at the last week, any other order at all time); the page buttons step
/// the page (not below 1); a listing that arrives ends the loading and
/// says how it went.
pub open spec fn panel_outcome(o: WorkshopPanel, e: PanelEvent, n: WorkshopPanel, q: Option<ListingQuery>) -> bool {
    match e {
        PanelEvent::QueryChanged(t) => panel_with(o, n, t@, o.page, o.sort@, o.days, o.loading, o.status@) && q is None,
        PanelEvent::Search => panel_with(o, n, o.query@, 1, o.sort@, o.days, true, o.status@) && (q matches Some(x)
            && asks(n, x, false)),
        PanelEvent::Clear => panel_with(o, n, seq![], 1, o.sort@, o.days, true, o.status@) && (q matches Some(x) && asks(
            n,
            x,
            true,
        )),
        PanelEvent::SortChanged(s) => panel_with(
            o,
            n,
            o.query@,
            1,
            s@,
            if s@ == "trend"@ {
                7
            } else {
                0
            },
            true,
            o.status@,
        ) && (q matches Some(x) && asks(n, x, false)),
        PanelEvent::DaysChanged(d) => panel_with(o, n, o.query@, 1, o.sort@, d, true, o.status@) && (q matches Some(x)
            && asks(n, x, false)),
        PanelEvent::PagePrev => if o.page > 1 {
            panel_with(o, n, o.query@, (o.page - 1) as u32, o.sort@, o.days, true, o.status@) && (q matches Some(x)
                && asks(n, x, false))
        } else {
            n == o && q is None
        },
        PanelEvent::PageNext => panel_with(o, n, o.query@, (o.page + 1) as u32, o.sort@, o.days, true, o.status@) && (q matches Some(
            x,
        ) && asks(n, x, false)),
        PanelEvent::Loaded(r) => panel_with(
            o,
            n,
            o.query@,
            o.page,
            o.sort@,
            o.days,
            false,
            match r {
                Ok(count) => "Loaded "@ + decimal(count as nat) + " Workshop items"@,
                Err(m) => "Workshop Error: "@ + m@,
            },
        ) && q is None,
    }
}

fn ask(p: &WorkshopPanel, browse_only: bool) -> (r: ListingQuery)
    ensures
        asks(*p, r, browse_only),
{
    ListingQuery { browse_only, query: p.query.clone(), page: p.page, sort: p.sort.clone(), days: p.days }
}

/// Takes in an event of the Workshop tab.
pub fn panel_step(panel: WorkshopPanel, event: PanelEvent) -> (r: (WorkshopPanel, Option<ListingQuery>))
    requires
        event == PanelEvent::PageNext ==> panel.page < u32::MAX,
    ensures
        panel_outcome(panel, event, r.0, r.1),
{
    let mut p = panel;
    match event {
        PanelEvent::QueryChanged(t) => {
            p.query = t;
            (p, None)
        },
        PanelEvent::Search => {
            p.loading = true;
            p.page = 1;
            let q = ask(&p, false);
            (p, Some(q))
        },
        PanelEvent::Clear => {
            p.query = String::new();
            p.loading = true;
            p.page = 1;
            let q = ask(&p, true);
            (p, Some(q))
        },
        PanelEvent::SortChanged(s) => {
            let trend = s == "trend".to_string();
            p.sort = s;
            p.days = if trend {
                7
            } else {
                0
            };
            p.page = 1;
            p.loading = true;
            let q = ask(&p, false);
            (p, Some(q))
        },
        PanelEvent::DaysChanged(d) => {
            p.days = d;
            p.page = 1;
            p.loading = true;
            let q = ask(&p, false);
            (p, Some(q))
        },
        PanelEvent::PagePrev => {
            if p.page > 1 {
                p.page = p.page - 1;
                p.loading = true;
                let q = ask(&p, false);
                (p, Some(q))
            } else {
                (p, None)
            }
        },
        PanelEvent::PageNext => {
            p.page = p.page + 1;
            p.loading = true;
            let q = ask(&p, false);
            (p, Some(q))
        },
        PanelEvent::Loaded(r) => {
            p.loading = false;
            p.status = match r {
                Ok(count) => {
                    let mut s = "Loaded ".to_string();
                    s.append(decimal_string(count as u64).as_str());
                    s.append(" Workshop items");
                    s
                },
                Err(m) => {
                    let mut s = "Workshop Error: ".to_string();
                    s.append(m.as_str());
                    s
                },
            };
            (p, None)
        },
    }
}

/// Starts fetching a listing: the search for the query when it is asked
/// for and not blank, else the browse of the page.
pub fn browse(q: &ListingQuery) -> (r: (WorkshopRequest, WorkshopStep))
    ensures
        r.0.wf(),
        (q.browse_only || trim(q.query@).len() == 0) ==> (r.1 matches WorkshopStep::FetchPage(u) && u@ == browse_url(
            q.page,
            q.sort@,
            q.days,
        )),
{
    let blank = trim_chars(chars_of(q.query.as_str()).as_slice()).len() == 0;
    if !q.browse_only && !blank {
        search_workshop(q.query.as_str(), q.page, q.sort.as_str(), q.days)
    } else {
        browse_workshop(q.page, q.sort.as_str(), q.days)
    }
}

/// What a Workshop item's button leads to.
#[derive(Debug, Clone, PartialEq)]
pub enum ItemAction {
    /// Set the item, found at this path, as the wallpaper.
    Apply(String),
    /// Download the item, saying so.
    Download { id: String, status: String },
    /// Scan the Steam libraries again, saying so.
    Rescan { status: String },
}

/// Applying an item uses its copy on disk (the download's, else the Steam
/// client's), or downloads it first.
pub fn apply_item(id: &str, downloaded: Option<String>, client_copy: Option<String>) -> (r: ItemAction)
    ensures
        match downloaded {
            Some(d) => r == ItemAction::Apply(d),
            None => match client_copy {
                Some(c) => r == ItemAction::Apply(c),
                None => r matches ItemAction::Download { id: i, status } && i@ == id@ && status@
                    == "Downloading item "@ + id@ + " before applying..."@,
            },
        },
{
    match downloaded {
        Some(d) => ItemAction::Apply(d),
        None => match client_copy {
            Some(c) => ItemAction::Apply(c),
            None => {
                let mut s = "Downloading item ".to_string();
                s.append(id);
                s.append(" before applying...");
                ItemAction::Download { id: id.to_string(), status: s }
            },
        },
    }
}

/// Adding an item to the library rescans when a copy is on disk, and
/// downloads it otherwise.
pub fn add_item_to_library(id: &str, on_disk: bool) -> (r: ItemAction)
    ensures
        on_disk ==> (r matches ItemAction::Rescan { status } && status@ == "Item "@ + id@ + " is available in Steam library"@),
        !on_disk ==> (r matches ItemAction::Download { id: i, status } && i@ == id@ && status@ == "Downloading item "@
            + id@ + " to library..."@),
{
    if on_disk {
        let mut s = "Item ".to_string();
        s.append(id);
        s.append(" is available in Steam library");
        ItemAction::Rescan { status: s }
    } else {
        let mut s = "Downloading item ".to_string();
        s.append(id);
        s.append(" to library...");
        ItemAction::Download { id: id.to_string(), status: s }
    }
}

/// What a finished download says, and whether the libraries are scanned
/// again (after a success).
pub fn download_finished(result: &Result<String, String>) -> (r: (String, bool))
    ensures
        match result {
            Ok(p) => r.0@ == "Downloaded: "@ + p@ && r.1,
            Err(e) => r.0@ == "Download failed: "@ + e@ && !r.1,
        },
{
    match result {
        Ok(p) => {
            let mut s = "Downloaded: ".to_string();
            s.append(p.as_str());
            (s, true)
        },
        Err(e) => {
            let mut s = "Download failed: ".to_string();
            s.append(e.as_str());
            (s, false)
        },
    }
}

/// The carousel's position after stepping forward through `len` entries.
pub fn carousel_next(index: usize, len: usize) -> (r: usize)
    ensures
        len == 0 ==> r == index,
        len > 0 ==> r == (index + 1) % (len as int),
{
    if len == 0 {
        index
    } else {
        proof {
            vstd::arithmetic::div_mod::lemma_add_mod_noop(index as int, 1, len as int);
            if len > 1 {
                vstd::arithmetic::div_mod::lemma_small_mod(1nat, len as nat);
            } else {
                assert(((index as int) % (len as int) + 1) % (len as int) == 0 && ((index as int) + 1) % (len as int) == 0) by (nonlinear_arith)
                    requires
                        len == 1,
                ;
            }
        }
        (index % len + 1) % len
    }
}

/// The carousel's position after stepping back through `len` entries:
/// from the first to the last.
pub fn carousel_prev(index: usize, len: usize) -> (r: usize)
    ensures
        len == 0 ==> r == index,
        len > 0 && index == 0 ==> r == len - 1,
        len > 0 && index > 0 ==> r == index - 1,
{
    if len == 0 {
        index
    } else if index == 0 {
        len - 1
    } else {
        index - 1
    }
}

/// Stepping the carousel forward and back returns to the same entry.
pub proof fn law_carousel_round_trip(index: usize, len: usize)
    requires
        index < len,
    ensures
        ({
            let f = ((index + 1) % (len as int)) as usize;
            if f == 0 {
                (len - 1) as usize == index
            } else {
                (f - 1) as usize == index
            }
        }),
{
    if index + 1 < len {
        vstd::arithmetic::div_mod::lemma_small_mod((index + 1) as nat, len as nat);
    } else {
        vstd::arithmetic::div_mod::lemma_mod_self_0(len as int);
    }
}

/// How a picked entry is set as the wallpaper.
#[derive(Debug, Clone, PartialEq)]
pub enum ApplyTarget {
    /// A web address, streamed.
    Url(String),
    /// A file.
    File(String),
}

/// A web address (`http://` or `https://`) is streamed; anything else is
/// a file.
pub fn apply_target(path: &str) -> (r: ApplyTarget)
    ensures
        (starts_with(path@, "http://"@) || starts_with(path@, "https://"@)) ==> (r matches ApplyTarget::Url(u) && u@ == path@),
        !(starts_with(path@, "http://"@) || starts_with(path@, "https://"@)) ==> (r matches ApplyTarget::File(f) && f@
            == path@),
{
    let c = chars_of(path);
    if starts_with_str(c.as_slice(), "http://") || starts_with_str(c.as_slice(), "https://") {
        ApplyTarget::Url(path.to_string())
    } else {
        ApplyTarget::File(path.to_string())
    }
}

/// The bookmark to save from the form: the address trimmed, and the title
/// trimmed or, when blank, the address; nothing when the address is
/// blank.
pub fn bookmark_from_form(title: &str, url: &str) -> (r: Option<(String, String)>)
    ensures
        trim(url@).len() == 0 ==> r is None,
        trim(url@).len() > 0 ==> (r matches Some((t, u)) && u@ == trim(url@) && t@ == (if trim(title@).len() == 0 {
            trim(url@)
        } else {
            trim(title@)
        })),
{
    let u = trim_chars(chars_of(url).as_slice());
    if u.len() == 0 {
        return None;
    }
    let t = trim_chars(chars_of(title).as_slice());
    let title_text = if t.len() == 0 {
        string_of(u.as_slice())
    } else {
        string_of(t.as_slice())
    };
    Some((title_text, string_of(u.as_slice())))
}

/// What the status line says after saving a bookmark titled `title`.
pub fn bookmark_saved_message(title: &str) -> (r: String)
    ensures
        r@ == "Saved Web / YouTube URL: "@ + title@,
{
    let mut s = "Saved Web / YouTube URL: ".to_string();
    s.append(title);
    s
}

/// What the status line says after removing the bookmark of `url`.
pub fn bookmark_removed_message(url: &str) -> (r: String)
    ensures
        r@ == "Removed bookmark: "@ + url@,
{
    let mut s = "Removed bookmark: ".to_string();
    s.append(url);
    s
}

} // verus!
