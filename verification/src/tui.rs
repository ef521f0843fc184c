//! The decisions of the terminal interface: which wallpapers it lists,
//! what each key does in each input mode, and what a daemon reply changes.
//! Drawing, reading keys and talking to the daemon are the caller's.
use vstd::prelude::*;
use crate::paths::{file_name, file_name_of};
use crate::text::{
    alphanumeric, chars_of, contains, contains_chars, decimal, decimal_string, is_alphanumeric_char, lowercase,
    push_char, slice_of, starts_with, starts_with_str, string_of, to_lowercase, trim, trim_chars,
};

verus! {

broadcast use vstd::string::group_string_axioms;

/// What the keyboard is typed into.
#[derive(Debug, Clone, Copy, PartialEq, Eq)]
pub enum InputMode {
    Normal,
    Search,
    SetWorkspace,
    SetMonitor,
    SetUrl,
}

/// A key press, as far as the interface tells keys apart.
#[derive(Debug, Clone, Copy, PartialEq, Eq)]
pub enum Key {
    Esc,
    Enter,
    Backspace,
    Tab,
    Up,
    Down,
    Char(char),
    Other,
}

/// The interface's own state between key presses.
#[derive(Debug, Clone, PartialEq)]
pub struct TuiState {
    pub mode: InputMode,
    pub search_query: String,
    pub url_query: String,
    pub ws_query: String,
    /// The highlighted row of the list, if any.
    pub selected: Option<usize>,
    pub status_msg: String,
    /// Workspace → wallpaper, as last known.
    pub ws_mappings: Vec<(String, String)>,
}

/// What the interface knows of the daemon and the settings when a key is
/// pressed (the daemon's values, or the defaults when it is offline).
#[derive(Debug, Clone, Copy, PartialEq)]
pub struct TuiFacts {
    pub slideshow_active: bool,
    pub is_muted: bool,
    pub volume: i64,
    pub slideshow_interval: u64,
    pub slideshow_shuffle: bool,
}

/// A request the interface sends to the daemon.
#[derive(Debug, Clone, PartialEq)]
pub enum TuiRequest {
    SetWallpaper { path: String },
    SetUrl { url: String },
    SetWorkspaceWallpaper { workspace: String, path: String },
    SetMonitorWallpaper { monitor: String, path: String },
    /// Lower the opacity one step (by 0.05, not below 0).
    OpacityDown,
    /// Raise the opacity one step (by 0.05, not above 1).
    OpacityUp,
    TogglePause,
    StartSlideshow { interval_secs: u64, shuffle: bool },
    StopSlideshow,
    ToggleMode,
    CycleLiveWallpaper,
    SetMute { mute: bool },
    SetVolume { volume: i64 },
    NextWallpaper,
    PrevWallpaper,
}

/// What the caller does after a key press.
#[derive(Debug, Clone, PartialEq)]
pub enum TuiAction {
    Nothing,
    Quit,
    Rescan,
    Send(TuiRequest),
}

/// How the daemon answered a request.
#[derive(Debug, Clone, PartialEq)]
pub enum TuiReply {
    /// Done, with the daemon's message.
    Done(String),
    /// Refused, with the daemon's message.
    Refused(String),
    /// The request did not get through.
    Failed(String),
    /// Some other answer.
    Other,
}

/// The greeting shown before anything happened.
pub open spec fn greeting() -> Seq<char> {
    "Connected to OMYWALL Wallpaper Engine"@
}

impl TuiState {
    /// The state at start, with `count` wallpapers listed: normal mode,
    /// empty inputs, the first row highlighted when there is one.
    pub fn new(count: usize, ws_mappings: Vec<(String, String)>) -> (r: Self)
        ensures
            r.mode == InputMode::Normal,
            r.search_query@.len() == 0,
            r.url_query@.len() == 0,
            r.ws_query@.len() == 0,
            r.selected == (if count > 0 {
                Some(0usize)
            } else {
                None
            }),
            r.status_msg@ == greeting(),
            r.ws_mappings == ws_mappings,
    {
        TuiState {
            mode: InputMode::Normal,
            search_query: String::new(),
            url_query: String::new(),
            ws_query: String::new(),
            selected: if count > 0 {
                Some(0)
            } else {
                None
            },
            status_msg: "Connected to OMYWALL Wallpaper Engine".to_string(),
            ws_mappings,
        }
    }
}

/// A wallpaper shows in the list when the search is empty or its file
/// name contains the search, both in lower case.
pub open spec fn shown(path: Seq<char>, query: Seq<char>) -> bool {
    if query.len() == 0 {
        true
    } else {
        match file_name(path) {
            Some(n) => contains(lowercase(n), lowercase(query)),
            None => false,
        }
    }
}

/// The wallpapers listed for the search `query`, in order.
pub open spec fn visible_of(paths: Seq<Seq<char>>, query: Seq<char>) -> Seq<Seq<char>>
    decreases paths.len(),
{
    if paths.len() == 0 {
        seq![]
    } else {
        let k = visible_of(paths.drop_last(), query);
        if shown(paths.last(), query) {
            k.push(paths.last())
        } else {
            k
        }
    }
}

/// The texts of a vector of strings.
pub open spec fn texts(v: Seq<String>) -> Seq<Seq<char>> {
    v.map_values(|x: String| x@)
}

/// The wallpapers listed for the search `query`, in order.
pub fn visible_wallpapers(wallpapers: &[String], query: &str) -> (r: Vec<String>)
    ensures
        texts(r@) == visible_of(texts(wallpapers@), query@),
{
    let ghost all = texts(wallpapers@);
    let q = chars_of(query);
    let lq = to_lowercase(query);
    let lqc = chars_of(lq.as_str());
    let mut out: Vec<String> = Vec::new();
    let mut i: usize = 0;
    assert(all.take(0) == Seq::<Seq<char>>::empty());
    while i < wallpapers.len()
        invariant
            i <= wallpapers.len(),
            all == texts(wallpapers@),
            q@ == query@,
            lqc@ == lowercase(query@),
            texts(out@) == visible_of(all.take(i as int), query@),
        decreases wallpapers.len() - i,
    {
        assert(all.take(i + 1).drop_last() == all.take(i as int));
        assert(all.take(i + 1).last() == wallpapers@[i as int]@);
        let p = wallpapers[i].as_str();
        let keep = if q.len() == 0 {
            true
        } else {
            match file_name_of(p) {
                Some(n) => {
                    let ln = to_lowercase(string_of(n.as_slice()).as_str());
                    contains_chars(chars_of(ln.as_str()).as_slice(), lqc.as_slice())
                },
                None => false,
            }
        };
        let ghost before = texts(out@);
        if keep {
            out.push(wallpapers[i].clone());
            assert(texts(out@) == before.push(wallpapers@[i as int]@));
        }
        i += 1;
    }
    assert(all.take(wallpapers.len() as int) == all);
    out
}

/// The text without its last character.
pub open spec fn pop_text(s: Seq<char>) -> Seq<char> {
    if s.len() > 0 {
        s.drop_last()
    } else {
        s
    }
}

/// A character accepted as part of a workspace name.
pub open spec fn workspace_char(c: char) -> bool {
    ('0' <= c <= '9') || alphanumeric(c)
}

/// The inputs, selection and status of `n` are those of `o`.
pub open spec fn same_fields(o: TuiState, n: TuiState) -> bool {
    &&& n.search_query@ == o.search_query@
    &&& n.url_query@ == o.url_query@
    &&& n.ws_query@ == o.ws_query@
    &&& n.selected == o.selected
    &&& n.status_msg@ == o.status_msg@
    &&& n.ws_mappings == o.ws_mappings
}

/// `n` is `o` with mode `m` and the other fields as they were.
pub open spec fn only_mode(o: TuiState, n: TuiState, m: InputMode) -> bool {
    n.mode == m && same_fields(o, n)
}

/// The highlighted row of the `n`-row list after moving down: the next
/// row, wrapping to the first.
pub open spec fn row_down(sel: Option<usize>, n: nat) -> Option<usize> {
    let idx: int = match sel {
        Some(i) => i as int,
        None => 0,
    };
    Some(((idx + 1) % (n as int)) as usize)
}

/// The highlighted row after moving up: the previous row, wrapping from
/// the first to the last.
pub open spec fn row_up(sel: Option<usize>, n: nat) -> Option<usize> {
    let idx: int = match sel {
        Some(i) => i as int,
        None => 0,
    };
    Some((if idx == 0 {
        n - 1
    } else {
        idx - 1
    }) as usize)
}

/// The listed wallpaper under the highlight, if any.
pub open spec fn highlighted(sel: Option<usize>, visible: Seq<Seq<char>>) -> Option<Seq<char>> {
    match sel {
        Some(i) => if i < visible.len() {
            Some(visible[i as int])
        } else {
            None
        },
        None => None,
    }
}

/// What a key press does in normal mode.
pub open spec fn normal_key(o: TuiState, key: Key, visible: Seq<Seq<char>>, f: TuiFacts, n: TuiState, act: TuiAction) -> bool {
    match key {
        Key::Esc | Key::Char('q') => n == o && act == TuiAction::Quit,
        Key::Char('/') => only_mode(o, n, InputMode::Search) && act == TuiAction::Nothing,
        Key::Char('w') => only_mode(o, n, InputMode::SetWorkspace) && act == TuiAction::Nothing,
        Key::Char('M') => only_mode(o, n, InputMode::SetMonitor) && act == TuiAction::Nothing,
        Key::Char('u') => only_mode(o, n, InputMode::SetUrl) && act == TuiAction::Nothing,
        Key::Char('[') => n == o && act == TuiAction::Send(TuiRequest::OpacityDown),
        Key::Char(']') => n == o && act == TuiAction::Send(TuiRequest::OpacityUp),
        Key::Down | Key::Char('j') => {
            &&& n.mode == o.mode
            &&& n.search_query@ == o.search_query@ && n.url_query@ == o.url_query@ && n.ws_query@ == o.ws_query@
            &&& n.status_msg@ == o.status_msg@ && n.ws_mappings == o.ws_mappings
            &&& n.selected == (if visible.len() > 0 {
                row_down(o.selected, visible.len())
            } else {
                o.selected
            })
            &&& act == TuiAction::Nothing
        },
        Key::Up | Key::Char('k') => {
            &&& n.mode == o.mode
            &&& n.search_query@ == o.search_query@ && n.url_query@ == o.url_query@ && n.ws_query@ == o.ws_query@
            &&& n.status_msg@ == o.status_msg@ && n.ws_mappings == o.ws_mappings
            &&& n.selected == (if visible.len() > 0 {
                row_up(o.selected, visible.len())
            } else {
                o.selected
            })
            &&& act == TuiAction::Nothing
        },
        Key::Enter => n == o && match highlighted(o.selected, visible) {
            Some(p) => act matches TuiAction::Send(TuiRequest::SetWallpaper { path }) && path@ == p,
            None => act == TuiAction::Nothing,
        },
        Key::Char('p') => n == o && act == TuiAction::Send(TuiRequest::TogglePause),
        Key::Char('s') => n == o && act == TuiAction::Send(
            if f.slideshow_active {
                TuiRequest::StopSlideshow
            } else {
                TuiRequest::StartSlideshow { interval_secs: f.slideshow_interval, shuffle: f.slideshow_shuffle }
            },
        ),
        Key::Tab | Key::Char('t') => n == o && act == TuiAction::Send(TuiRequest::ToggleMode),
        Key::Char('c') => n == o && act == TuiAction::Send(TuiRequest::CycleLiveWallpaper),
        Key::Char('m') => n == o && act == TuiAction::Send(TuiRequest::SetMute { mute: !f.is_muted }),
        Key::Char('+') | Key::Char('=') => n == o && act == TuiAction::Send(
            TuiRequest::SetVolume { volume: (f.volume + 5) as i64 },
        ),
        Key::Char('-') | Key::Char('_') => n == o && act == TuiAction::Send(
            TuiRequest::SetVolume { volume: (f.volume - 5) as i64 },
        ),
        Key::Char('n') => n == o && act == TuiAction::Send(TuiRequest::NextWallpaper),
        Key::Char('b') => n == o && act == TuiAction::Send(TuiRequest::PrevWallpaper),
        Key::Char('r') => n == o && act == TuiAction::Rescan,
        _ => n == o && act == TuiAction::Nothing,
    }
}

/// What a key press does while typing a workspace (`mon` false) or a
/// monitor (`mon` true) for the highlighted wallpaper.
pub open spec fn target_key(o: TuiState, key: Key, visible: Seq<Seq<char>>, mon: bool, n: TuiState, act: TuiAction) -> bool {
    match key {
        Key::Esc => {
            &&& n.mode == InputMode::Normal && n.ws_query@.len() == 0
            &&& n.search_query@ == o.search_query@ && n.url_query@ == o.url_query@
            &&& n.selected == o.selected && n.status_msg@ == o.status_msg@ && n.ws_mappings == o.ws_mappings
            &&& act == TuiAction::Nothing
        },
        Key::Enter => {
            &&& n.mode == InputMode::Normal && n.ws_query@.len() == 0
            &&& n.search_query@ == o.search_query@ && n.url_query@ == o.url_query@
            &&& n.selected == o.selected && n.status_msg@ == o.status_msg@ && n.ws_mappings == o.ws_mappings
            &&& if trim(o.ws_query@).len() > 0 && highlighted(o.selected, visible) is Some {
                let p = highlighted(o.selected, visible)->0;
                if mon {
                    act matches TuiAction::Send(TuiRequest::SetMonitorWallpaper { monitor, path }) && monitor@ == trim(
                        o.ws_query@,
                    ) && path@ == p
                } else {
                    act matches TuiAction::Send(TuiRequest::SetWorkspaceWallpaper { workspace, path })
                        && workspace@ == trim(o.ws_query@) && path@ == p
                }
            } else {
                act == TuiAction::Nothing
            }
        },
        Key::Backspace => {
            &&& n.mode == o.mode && n.ws_query@ == pop_text(o.ws_query@)
            &&& n.search_query@ == o.search_query@ && n.url_query@ == o.url_query@
            &&& n.selected == o.selected && n.status_msg@ == o.status_msg@ && n.ws_mappings == o.ws_mappings
            &&& act == TuiAction::Nothing
        },
        Key::Char(c) => {
            &&& n.mode == o.mode
            &&& n.ws_query@ == (if mon || workspace_char(c) {
                o.ws_query@.push(c)
            } else {
                o.ws_query@
            })
            &&& n.search_query@ == o.search_query@ && n.url_query@ == o.url_query@
            &&& n.selected == o.selected && n.status_msg@ == o.status_msg@ && n.ws_mappings == o.ws_mappings
            &&& act == TuiAction::Nothing
        },
        _ => n == o && act == TuiAction::Nothing,
    }
}

/// What a key press does while typing a search.
pub open spec fn search_key(o: TuiState, key: Key, n: TuiState, act: TuiAction) -> bool {
    &&& act == TuiAction::Nothing
    &&& match key {
        Key::Esc | Key::Enter => only_mode(o, n, InputMode::Normal),
        Key::Backspace => {
            &&& n.mode == o.mode && n.search_query@ == pop_text(o.search_query@)
            &&& n.url_query@ == o.url_query@ && n.ws_query@ == o.ws_query@
            &&& n.selected == o.selected && n.status_msg@ == o.status_msg@ && n.ws_mappings == o.ws_mappings
        },
        Key::Char(c) => {
            &&& n.mode == o.mode && n.search_query@ == o.search_query@.push(c)
            &&& n.url_query@ == o.url_query@ && n.ws_query@ == o.ws_query@
            &&& n.selected == o.selected && n.status_msg@ == o.status_msg@ && n.ws_mappings == o.ws_mappings
        },
        _ => n == o,
    }
}

/// What a key press does while typing a stream address.
pub open spec fn url_key(o: TuiState, key: Key, n: TuiState, act: TuiAction) -> bool {
    match key {
        Key::Esc | Key::Enter => {
            &&& n.mode == InputMode::Normal && n.url_query@.len() == 0
            &&& n.search_query@ == o.search_query@ && n.ws_query@ == o.ws_query@
            &&& n.selected == o.selected && n.status_msg@ == o.status_msg@ && n.ws_mappings == o.ws_mappings
            &&& if key == Key::Enter && trim(o.url_query@).len() > 0 {
                act matches TuiAction::Send(TuiRequest::SetUrl { url }) && url@ == trim(o.url_query@)
            } else {
                act == TuiAction::Nothing
            }
        },
        Key::Backspace => {
            &&& n.mode == o.mode && n.url_query@ == pop_text(o.url_query@)
            &&& n.search_query@ == o.search_query@ && n.ws_query@ == o.ws_query@
            &&& n.selected == o.selected && n.status_msg@ == o.status_msg@ && n.ws_mappings == o.ws_mappings
            &&& act == TuiAction::Nothing
        },
        Key::Char(c) => {
            &&& n.mode == o.mode && n.url_query@ == o.url_query@.push(c)
            &&& n.search_query@ == o.search_query@ && n.ws_query@ == o.ws_query@
            &&& n.selected == o.selected && n.status_msg@ == o.status_msg@ && n.ws_mappings == o.ws_mappings
            &&& act == TuiAction::Nothing
        },
        _ => n == o && act == TuiAction::Nothing,
    }
}

/// What a key press does, in whatever mode: `n` and `act` are the state
/// after the key and what the caller is to do.
pub open spec fn key_outcome(o: TuiState, key: Key, visible: Seq<Seq<char>>, f: TuiFacts, n: TuiState, act: TuiAction) -> bool {
    match o.mode {
        InputMode::Normal => normal_key(o, key, visible, f, n, act),
        InputMode::Search => search_key(o, key, n, act),
        InputMode::SetWorkspace => target_key(o, key, visible, false, n, act),
        InputMode::SetMonitor => target_key(o, key, visible, true, n, act),
        InputMode::SetUrl => url_key(o, key, n, act),
    }
}

fn pop_string(s: &String) -> (r: String)
    ensures
        r@ == pop_text(s@),
{
    let c = chars_of(s.as_str());
    if c.len() > 0 {
        string_of(slice_of(c.as_slice(), 0, c.len() - 1).as_slice())
    } else {
        string_of(c.as_slice())
    }
}

fn trimmed(s: &String) -> (r: String)
    ensures
        r@ == trim(s@),
{
    let c = chars_of(s.as_str());
    string_of(trim_chars(c.as_slice()).as_slice())
}

fn highlighted_path(sel: Option<usize>, visible: &[String]) -> (r: Option<String>)
    ensures
        match r {
            Some(p) => highlighted(sel, texts(visible@)) == Some(p@),
            None => highlighted(sel, texts(visible@)) is None,
        },
{
    match sel {
        Some(i) => if i < visible.len() {
            Some(visible[i].clone())
        } else {
            None
        },
        None => None,
    }
}

/// Handles one key press: `visible` is what the list shows, `facts` what
/// is known of the daemon and the settings.
pub fn handle_key(state: TuiState, key: Key, visible: &[String], facts: TuiFacts) -> (r: (TuiState, TuiAction))
    requires
        i64::MIN + 5 <= facts.volume <= i64::MAX - 5,
    ensures
        key_outcome(state, key, texts(visible@), facts, r.0, r.1),
{
    let ghost o = state;
    let mut st = state;
    match st.mode {
        InputMode::Normal => match key {
            Key::Esc | Key::Char('q') => (st, TuiAction::Quit),
            Key::Char('/') => {
                st.mode = InputMode::Search;
                (st, TuiAction::Nothing)
            },
            Key::Char('w') => {
                st.mode = InputMode::SetWorkspace;
                (st, TuiAction::Nothing)
            },
            Key::Char('M') => {
                st.mode = InputMode::SetMonitor;
                (st, TuiAction::Nothing)
            },
            Key::Char('u') => {
                st.mode = InputMode::SetUrl;
                (st, TuiAction::Nothing)
            },
            Key::Char('[') => (st, TuiAction::Send(TuiRequest::OpacityDown)),
            Key::Char(']') => (st, TuiAction::Send(TuiRequest::OpacityUp)),
            Key::Down | Key::Char('j') => {
                let n = visible.len();
                if n > 0 {
                    let idx = match st.selected {
                        Some(i) => i,
                        None => 0,
                    };
                    let next = (idx % n + 1) % n;
                    proof {
                        let m = n as int;
                        vstd::arithmetic::div_mod::lemma_add_mod_noop(idx as int, 1, m);
                        if m > 1 {
                            vstd::arithmetic::div_mod::lemma_small_mod(1nat, m as nat);
                        } else {
                            assert(((idx as int) % m + 1) % m == 0 && ((idx as int) + 1) % m == 0) by (nonlinear_arith)
                                requires
                                    m == 1,
                            ;
                        }
                        assert(((idx as int) % m + 1) % m == ((idx as int) + 1) % m);
                    }
                    st.selected = Some(next);
                }
                (st, TuiAction::Nothing)
            },
            Key::Up | Key::Char('k') => {
                let n = visible.len();
                if n > 0 {
                    let idx = match st.selected {
                        Some(i) => i,
                        None => 0,
                    };
                    let prev = if idx == 0 {
                        n - 1
                    } else {
                        idx - 1
                    };
                    st.selected = Some(prev);
                }
                (st, TuiAction::Nothing)
            },
            Key::Enter => match highlighted_path(st.selected, visible) {
                Some(p) => (st, TuiAction::Send(TuiRequest::SetWallpaper { path: p })),
                None => (st, TuiAction::Nothing),
            },
            Key::Char('p') => (st, TuiAction::Send(TuiRequest::TogglePause)),
            Key::Char('s') => {
                let req = if facts.slideshow_active {
                    TuiRequest::StopSlideshow
                } else {
                    TuiRequest::StartSlideshow {
                        interval_secs: facts.slideshow_interval,
                        shuffle: facts.slideshow_shuffle,
                    }
                };
                (st, TuiAction::Send(req))
            },
            Key::Tab | Key::Char('t') => (st, TuiAction::Send(TuiRequest::ToggleMode)),
            Key::Char('c') => (st, TuiAction::Send(TuiRequest::CycleLiveWallpaper)),
            Key::Char('m') => (st, TuiAction::Send(TuiRequest::SetMute { mute: !facts.is_muted })),
            Key::Char('+') | Key::Char('=') => (st, TuiAction::Send(TuiRequest::SetVolume { volume: facts.volume + 5 })),
            Key::Char('-') | Key::Char('_') => (st, TuiAction::Send(TuiRequest::SetVolume { volume: facts.volume - 5 })),
            Key::Char('n') => (st, TuiAction::Send(TuiRequest::NextWallpaper)),
            Key::Char('b') => (st, TuiAction::Send(TuiRequest::PrevWallpaper)),
            Key::Char('r') => (st, TuiAction::Rescan),
            _ => (st, TuiAction::Nothing),
        },
        InputMode::Search => match key {
            Key::Esc | Key::Enter => {
                st.mode = InputMode::Normal;
                (st, TuiAction::Nothing)
            },
            Key::Backspace => {
                st.search_query = pop_string(&st.search_query);
                (st, TuiAction::Nothing)
            },
            Key::Char(c) => {
                push_char(&mut st.search_query, c);
                (st, TuiAction::Nothing)
            },
            _ => (st, TuiAction::Nothing),
        },
        InputMode::SetWorkspace | InputMode::SetMonitor => {
            let mon = match st.mode {
                InputMode::SetMonitor => true,
                _ => false,
            };
            match key {
                Key::Esc => {
                    st.mode = InputMode::Normal;
                    st.ws_query = String::new();
                    (st, TuiAction::Nothing)
                },
                Key::Enter => {
                    let q = trimmed(&st.ws_query);
                    let mut act = TuiAction::Nothing;
                    if !q.as_str().is_empty() {
                        match highlighted_path(st.selected, visible) {
                            Some(p) => {
                                act = if mon {
                                    TuiAction::Send(TuiRequest::SetMonitorWallpaper { monitor: q, path: p })
                                } else {
                                    TuiAction::Send(TuiRequest::SetWorkspaceWallpaper { workspace: q, path: p })
                                };
                            },
                            None => {},
                        }
                    }
                    st.mode = InputMode::Normal;
                    st.ws_query = String::new();
                    (st, act)
                },
                Key::Backspace => {
                    st.ws_query = pop_string(&st.ws_query);
                    (st, TuiAction::Nothing)
                },
                Key::Char(c) => {
                    if mon || ('0' <= c && c <= '9') || is_alphanumeric_char(c) {
                        push_char(&mut st.ws_query, c);
                    }
                    (st, TuiAction::Nothing)
                },
                _ => (st, TuiAction::Nothing),
            }
        },
        InputMode::SetUrl => match key {
            Key::Esc | Key::Enter => {
                let mut act = TuiAction::Nothing;
                let is_enter = match key {
                    Key::Enter => true,
                    _ => false,
                };
                if is_enter {
                    let u = trimmed(&st.url_query);
                    if !u.as_str().is_empty() {
                        act = TuiAction::Send(TuiRequest::SetUrl { url: u });
                    }
                }
                st.mode = InputMode::Normal;
                st.url_query = String::new();
                (st, act)
            },
            Key::Backspace => {
                st.url_query = pop_string(&st.url_query);
                (st, TuiAction::Nothing)
            },
            Key::Char(c) => {
                push_char(&mut st.url_query, c);
                (st, TuiAction::Nothing)
            },
            _ => (st, TuiAction::Nothing),
        },
    }
}

/// The pairs as texts.
pub open spec fn pair_texts(m: Seq<(String, String)>) -> Seq<(Seq<char>, Seq<char>)> {
    m.map_values(|p: (String, String)| (p.0@, p.1@))
}

/// The mapping with `k` mapped to `v`: the first pair for `k` replaced,
/// or the pair appended when `k` has none.
pub open spec fn insert_pair(ps: Seq<(Seq<char>, Seq<char>)>, k: Seq<char>, v: Seq<char>) -> Seq<(Seq<char>, Seq<char>)>
    decreases ps.len(),
{
    if ps.len() == 0 {
        seq![(k, v)]
    } else if ps[0].0 == k {
        ps.update(0, (k, v))
    } else {
        seq![ps[0]] + insert_pair(ps.skip(1), k, v)
    }
}

fn insert_mapping(m: &mut Vec<(String, String)>, k: String, v: String)
    ensures
        pair_texts(final(m)@) == insert_pair(pair_texts(old(m)@), k@, v@),
{
    let ghost ps = pair_texts(m@);
    let mut i: usize = 0;
    assert(ps.skip(0) == ps);
    while i < m.len()
        invariant
            i <= m.len(),
            ps == pair_texts(m@),
            m@ == old(m)@,
            forall|j: int| 0 <= j < i ==> ps[j].0 != k@,
            insert_pair(ps, k@, v@) == ps.take(i as int) + insert_pair(ps.skip(i as int), k@, v@),
        decreases m.len() - i,
    {
        assert(ps.skip(i as int)[0] == ps[i as int]);
        if m[i].0 == k {
            let ghost before = m@;
            m.set(i, (k, v));
            proof {
                let tail = ps.skip(i as int);
                assert(insert_pair(tail, k@, v@) == tail.update(0, (k@, v@)));
                assert(pair_texts(m@) =~= ps.take(i as int) + tail.update(0, (k@, v@)));
            }
            return;
        }
        proof {
            let tail = ps.skip(i as int);
            assert(tail.skip(1) == ps.skip(i as int + 1));
            assert(insert_pair(tail, k@, v@) == seq![tail[0]] + insert_pair(tail.skip(1), k@, v@));
            assert(ps.take(i as int + 1) == ps.take(i as int) + seq![ps[i as int]]);
        }
        i += 1;
    }
    assert(ps.take(m.len() as int) == ps);
    assert(ps.skip(m.len() as int) == Seq::<(Seq<char>, Seq<char>)>::empty());
    let ghost before = m@;
    m.push((k, v));
    assert(pair_texts(m@) =~= pair_texts(before).push((k@, v@)));
}

/// `n` is `o` with the status line `msg`.
pub open spec fn only_status(o: TuiState, n: TuiState, msg: Seq<char>) -> bool {
    &&& n.mode == o.mode
    &&& n.search_query@ == o.search_query@ && n.url_query@ == o.url_query@ && n.ws_query@ == o.ws_query@
    &&& n.selected == o.selected && n.ws_mappings == o.ws_mappings
    &&& n.status_msg@ == msg
}

/// What the daemon's reply to `req` changes: the status line shows what
/// was done (a workspace mapping is also noted), errors of a wallpaper
/// change are shown, anything else changes nothing.
pub open spec fn reply_outcome(o: TuiState, req: TuiRequest, reply: TuiReply, n: TuiState) -> bool {
    match req {
        TuiRequest::SetWorkspaceWallpaper { workspace, path } => match reply {
            TuiReply::Done(m) => {
                &&& n.mode == o.mode
                &&& n.search_query@ == o.search_query@ && n.url_query@ == o.url_query@ && n.ws_query@ == o.ws_query@
                &&& n.selected == o.selected
                &&& n.status_msg@ == m@
                &&& pair_texts(n.ws_mappings@) == insert_pair(pair_texts(o.ws_mappings@), workspace@, path@)
            },
            _ => n == o,
        },
        TuiRequest::SetUrl { .. } | TuiRequest::SetMonitorWallpaper { .. } => match reply {
            TuiReply::Done(m) => only_status(o, n, m@),
            _ => n == o,
        },
        TuiRequest::SetWallpaper { .. } => match reply {
            TuiReply::Done(m) => only_status(o, n, "Applied wallpaper: "@ + m@),
            TuiReply::Refused(m) => only_status(o, n, "Daemon error: "@ + m@),
            TuiReply::Failed(e) => only_status(o, n, "IPC error: "@ + e@),
            TuiReply::Other => n == o,
        },
        _ => n == o,
    }
}

fn prefixed(prefix: &str, m: &String) -> (r: String)
    ensures
        r@ == prefix@ + m@,
{
    let mut s = prefix.to_string();
    s.append(m.as_str());
    s
}

/// Takes in the daemon's reply to the request `req`.
pub fn handle_reply(state: TuiState, req: &TuiRequest, reply: &TuiReply) -> (r: TuiState)
    ensures
        reply_outcome(state, *req, *reply, r),
{
    let mut st = state;
    match req {
        TuiRequest::SetWorkspaceWallpaper { workspace, path } => match reply {
            TuiReply::Done(m) => {
                st.status_msg = m.clone();
                insert_mapping(&mut st.ws_mappings, workspace.clone(), path.clone());
                st
            },
            _ => st,
        },
        TuiRequest::SetUrl { .. } | TuiRequest::SetMonitorWallpaper { .. } => match reply {
            TuiReply::Done(m) => {
                st.status_msg = m.clone();
                st
            },
            _ => st,
        },
        TuiRequest::SetWallpaper { .. } => match reply {
            TuiReply::Done(m) => {
                st.status_msg = prefixed("Applied wallpaper: ", m);
                st
            },
            TuiReply::Refused(m) => {
                st.status_msg = prefixed("Daemon error: ", m);
                st
            },
            TuiReply::Failed(e) => {
                st.status_msg = prefixed("IPC error: ", e);
                st
            },
            TuiReply::Other => st,
        },
        _ => st,
    }
}

/// The status line after a rescan of `dir` found `count` wallpapers.
pub open spec fn rescan_text(dir: Seq<char>, count: nat) -> Seq<char> {
    "Rescanned "@ + dir + ". Found "@ + decimal(count) + " wallpapers."@
}

/// The state after a rescan of `dir` found `count` wallpapers: only the
/// status line changes.
pub fn after_rescan(state: TuiState, dir: &str, count: usize) -> (r: TuiState)
    ensures
        only_status(state, r, rescan_text(dir@, count as nat)),
{
    let mut st = state;
    let mut s = "Rescanned ".to_string();
    s.append(dir);
    s.append(". Found ");
    s.append(decimal_string(count as u64).as_str());
    s.append(" wallpapers.");
    st.status_msg = s;
    st
}

/// The name of an input mode, as the banner shows it.
pub open spec fn mode_text(m: InputMode) -> Seq<char> {
    match m {
        InputMode::Normal => "NORMAL MODE"@,
        InputMode::Search => "SEARCH FILTER MODE"@,
        InputMode::SetWorkspace => "MAP WORKSPACE MODE"@,
        InputMode::SetMonitor => "MAP MONITOR MODE"@,
        InputMode::SetUrl => "WEB STREAM URL MODE"@,
    }
}

/// The banner's name of the input mode.
pub fn mode_label(m: InputMode) -> (r: &'static str)
    ensures
        r@ == mode_text(m),
{
    match m {
        InputMode::Normal => "NORMAL MODE",
        InputMode::Search => "SEARCH FILTER MODE",
        InputMode::SetWorkspace => "MAP WORKSPACE MODE",
        InputMode::SetMonitor => "MAP MONITOR MODE",
        InputMode::SetUrl => "WEB STREAM URL MODE",
    }
}

/// The title of the list: what is being typed, or how many wallpapers
/// are listed.
pub open spec fn list_title_text(st: TuiState, count: nat) -> Seq<char> {
    match st.mode {
        InputMode::Search => " Wallpapers (Search: "@ + st.search_query@ + ") "@,
        InputMode::SetWorkspace => " Select Wallpaper -> Enter WS Number (1-10): "@ + st.ws_query@ + " "@,
        InputMode::SetMonitor => " Select Wallpaper -> Enter Monitor Name (eDP-1/HDMI-A-1/0): "@ + st.ws_query@ + " "@,
        InputMode::SetUrl => " Enter Stream Web URL: "@ + st.url_query@ + " "@,
        InputMode::Normal => " Wallpapers ("@ + decimal(count) + ") "@,
    }
}

/// The title of the list with `count` wallpapers listed.
pub fn list_title(st: &TuiState, count: usize) -> (r: String)
    ensures
        r@ == list_title_text(*st, count as nat),
{
    let (head, body, tail) = match st.mode {
        InputMode::Search => (" Wallpapers (Search: ", st.search_query.clone(), ") "),
        InputMode::SetWorkspace => (" Select Wallpaper -> Enter WS Number (1-10): ", st.ws_query.clone(), " "),
        InputMode::SetMonitor => (
            " Select Wallpaper -> Enter Monitor Name (eDP-1/HDMI-A-1/0): ",
            st.ws_query.clone(),
            " ",
        ),
        InputMode::SetUrl => (" Enter Stream Web URL: ", st.url_query.clone(), " "),
        InputMode::Normal => (" Wallpapers (", decimal_string(count as u64), ") "),
    };
    let mut s = head.to_string();
    s.append(body.as_str());
    s.append(tail);
    s
}

/// The workspaces mapped to `path`, in the order of the mapping.
pub open spec fn workspaces_of(ps: Seq<(Seq<char>, Seq<char>)>, path: Seq<char>) -> Seq<Seq<char>>
    decreases ps.len(),
{
    if ps.len() == 0 {
        seq![]
    } else {
        let k = workspaces_of(ps.drop_last(), path);
        if ps.last().1 == path {
            k.push(ps.last().0)
        } else {
            k
        }
    }
}

/// The texts joined with `,` between them.
pub open spec fn join_commas(items: Seq<Seq<char>>) -> Seq<char>
    decreases items.len(),
{
    if items.len() == 0 {
        seq![]
    } else if items.len() == 1 {
        items[0]
    } else {
        join_commas(items.drop_last()) + ","@ + items.last()
    }
}

/// The names of the pairs, in order.
pub open spec fn first_texts(v: Seq<(String, ())>) -> Seq<Seq<char>> {
    v.map_values(|p: (String, ())| p.0@)
}

/// The badge of a listed wallpaper: the workspaces mapped to it, in order
/// of name, or nothing when there are none.
pub open spec fn badge_text(ps: Seq<(String, String)>, path: Seq<char>) -> Seq<char> {
    let ws = workspaces_of(pair_texts(ps), path);
    if ws.len() == 0 {
        seq![]
    } else {
        " [WS "@ + join_commas(first_texts(crate::assets::name_sorted(names_of(ps, path)))) + "]"@
    }
}

/// The workspaces mapped to `path`, as sortable pairs.
pub open spec fn names_of(ps: Seq<(String, String)>, path: Seq<char>) -> Seq<(String, ())>
    decreases ps.len(),
{
    if ps.len() == 0 {
        seq![]
    } else {
        let k = names_of(ps.drop_last(), path);
        if ps.last().1@ == path {
            k.push((ps.last().0, ()))
        } else {
            k
        }
    }
}

proof fn lemma_names_len(ps: Seq<(String, String)>, path: Seq<char>)
    ensures
        names_of(ps, path).len() == workspaces_of(pair_texts(ps), path).len(),
    decreases ps.len(),
{
    if ps.len() > 0 {
        lemma_names_len(ps.drop_last(), path);
        assert(pair_texts(ps).drop_last() == pair_texts(ps.drop_last()));
    }
}

/// The workspace badge of the listed wallpaper `path`.
pub fn ws_badge(mappings: &Vec<(String, String)>, path: &str) -> (r: String)
    ensures
        r@ == badge_text(mappings@, path@),
{
    let mut names: Vec<(String, ())> = Vec::new();
    let mut i: usize = 0;
    assert(mappings@.take(0) == Seq::<(String, String)>::empty());
    while i < mappings.len()
        invariant
            i <= mappings.len(),
            names@ == names_of(mappings@.take(i as int), path@),
        decreases mappings.len() - i,
    {
        assert(mappings@.take(i + 1).drop_last() == mappings@.take(i as int));
        assert(mappings@.take(i + 1).last() == mappings@[i as int]);
        if mappings[i].1 == path.to_string() {
            names.push((mappings[i].0.clone(), ()));
        }
        i += 1;
    }
    assert(mappings@.take(mappings.len() as int) == mappings@);
    proof {
        lemma_names_len(mappings@, path@);
    }
    if names.len() == 0 {
        return String::new();
    }
    let sorted = crate::assets::sort_by_name(names);
    let mut body = String::new();
    let mut j: usize = 0;
    while j < sorted.len()
        invariant
            j <= sorted.len(),
            body@ == join_commas(first_texts(sorted@.take(j as int))),
        decreases sorted.len() - j,
    {
        proof {
            let f = first_texts(sorted@.take(j as int));
            assert(first_texts(sorted@.take(j + 1)) == f.push(sorted@[j as int].0@));
            assert(f.push(sorted@[j as int].0@).drop_last() == f);
        }
        if j > 0 {
            body.append(",");
        }
        body.append(sorted[j].0.as_str());
        j += 1;
    }
    assert(sorted@.take(sorted.len() as int) == sorted@);
    let mut s = " [WS ".to_string();
    s.append(body.as_str());
    s.append("]");
    s
}

/// How the status card names the current wallpaper: a web address as it
/// is, a file by its name.
pub open spec fn current_name_text(p: Seq<char>) -> Seq<char> {
    if starts_with(p, "http://"@) || starts_with(p, "https://"@) {
        p
    } else {
        match file_name(p) {
            Some(n) => n,
            None => p,
        }
    }
}

/// The name the status card gives the current wallpaper `p`.
pub fn current_name(p: &str) -> (r: String)
    ensures
        r@ == current_name_text(p@),
{
    let c = chars_of(p);
    if starts_with_str(c.as_slice(), "http://") || starts_with_str(c.as_slice(), "https://") {
        return p.to_string();
    }
    match file_name_of(p) {
        Some(n) => string_of(n.as_slice()),
        None => p.to_string(),
    }
}

/// Moving the highlight down and then up brings it back to the row it
/// was on.
pub proof fn law_down_then_up(
    o: TuiState,
    visible: Seq<Seq<char>>,
    f: TuiFacts,
    n1: TuiState,
    a1: TuiAction,
    n2: TuiState,
    a2: TuiAction,
)
    requires
        o.mode == InputMode::Normal,
        o.selected matches Some(i) && i < visible.len(),
        visible.len() <= usize::MAX,
        key_outcome(o, Key::Down, visible, f, n1, a1),
        key_outcome(n1, Key::Up, visible, f, n2, a2),
    ensures
        n2.selected == o.selected,
        n2.mode == InputMode::Normal,
{
    let i = o.selected->0 as int;
    let n = visible.len() as int;
    if i + 1 < n {
        vstd::arithmetic::div_mod::lemma_small_mod((i + 1) as nat, n as nat);
        assert((i + 1) % n == i + 1);
        assert(n1.selected == Some((i + 1) as usize));
        assert(row_up(n1.selected, visible.len()) == Some(i as usize));
    } else {
        vstd::arithmetic::div_mod::lemma_mod_self_0(n);
        assert((i + 1) % n == 0);
        assert(n1.selected == Some(0usize));
        assert(row_up(n1.selected, visible.len()) == Some((n - 1) as usize));
    }
}

/// Moving the highlight up and then down brings it back to the row it
/// was on.
pub proof fn law_up_then_down(
    o: TuiState,
    visible: Seq<Seq<char>>,
    f: TuiFacts,
    n1: TuiState,
    a1: TuiAction,
    n2: TuiState,
    a2: TuiAction,
)
    requires
        o.mode == InputMode::Normal,
        o.selected matches Some(i) && i < visible.len(),
        visible.len() <= usize::MAX,
        key_outcome(o, Key::Up, visible, f, n1, a1),
        key_outcome(n1, Key::Down, visible, f, n2, a2),
    ensures
        n2.selected == o.selected,
        n2.mode == InputMode::Normal,
{
    let i = o.selected->0 as int;
    let n = visible.len() as int;
    if i == 0 {
        vstd::arithmetic::div_mod::lemma_mod_self_0(n);
        assert(n1.selected == Some((n - 1) as usize));
        assert((n - 1 + 1) % n == 0);
        assert(row_down(n1.selected, visible.len()) == Some(0usize));
    } else {
        vstd::arithmetic::div_mod::lemma_small_mod(i as nat, n as nat);
        assert(n1.selected == Some((i - 1) as usize));
        assert((i - 1 + 1) % n == i);
        assert(row_down(n1.selected, visible.len()) == Some(i as usize));
    }
}

/// Typing a character into the search and erasing it leaves the search
/// as it was.
pub proof fn law_type_then_erase(o: TuiState, c: char, visible: Seq<Seq<char>>, f: TuiFacts, n1: TuiState, a1: TuiAction, n2: TuiState, a2: TuiAction)
    requires
        o.mode == InputMode::Search,
        key_outcome(o, Key::Char(c), visible, f, n1, a1),
        key_outcome(n1, Key::Backspace, visible, f, n2, a2),
    ensures
        n2.search_query@ == o.search_query@,
        n2.mode == InputMode::Search,
        a1 == TuiAction::Nothing && a2 == TuiAction::Nothing,
{
    assert(o.search_query@.push(c).drop_last() == o.search_query@);
}

/// Escape from any typing mode returns to normal mode and sends nothing.
pub proof fn law_escape_returns_to_normal(o: TuiState, visible: Seq<Seq<char>>, f: TuiFacts, n: TuiState, a: TuiAction)
    requires
        o.mode != InputMode::Normal,
        key_outcome(o, Key::Esc, visible, f, n, a),
    ensures
        n.mode == InputMode::Normal,
        a == TuiAction::Nothing,
{
}

} // verus!
