//! Off-screen previews of web wallpapers: the bound on one-shot capture
//! processes, the set of captures under way, the live preview process and
//! the arguments handed to the renderers.
use vstd::prelude::*;
use crate::pathset::PathSet;
use crate::paths::components;
use crate::text::{chars_of, starts_with};

verus! {

broadcast use vstd::string::group_string_axioms;

/// Cap on concurrently running one-shot capture processes.
pub const MAX_SHOT_SPAWNS: u32 = 2;

/// One-shot captures: how many processes run, and which output files are
/// being rendered.
pub struct ShotTracker {
    pub spawns: u32,
    pub pending: PathSet,
}

/// `new` is `old` after a capture request into `out` that gave `started`:
/// it starts when no capture into the same file is under way and a slot
/// is free, taking the slot and marking `out`; otherwise nothing changes.
pub open spec fn shot_begun(old: ShotTracker, new: ShotTracker, out: Seq<char>, started: bool) -> bool {
    &&& started == (!old.pending@.contains(components(out)) && old.spawns < MAX_SHOT_SPAWNS)
    &&& started ==> new.spawns == old.spawns + 1 && new.pending@ == old.pending@.insert(components(out))
    &&& !started ==> new.spawns == old.spawns && new.pending@ == old.pending@
}

/// `new` is `old` after the capture into `out` ended: unmarked, and its
/// slot given back.
pub open spec fn shot_finished(old: ShotTracker, new: ShotTracker, out: Seq<char>) -> bool {
    &&& new.pending@ == old.pending@.remove(components(out))
    &&& new.spawns == if old.spawns > 0 { old.spawns - 1 } else { 0 }
}

impl ShotTracker {
    /// At most the cap of processes run, and no output is listed twice.
    pub open spec fn wf(&self) -> bool {
        self.spawns <= MAX_SHOT_SPAWNS && self.pending.wf()
    }

    pub fn new() -> (r: Self)
        ensures
            r.wf(),
            r.spawns == 0,
            r.pending@ == Set::<Seq<Seq<char>>>::empty(),
    {
        ShotTracker { spawns: 0, pending: PathSet::new() }
    }

    /// Takes a capture slot when one is free.
    pub fn acquire_shot_slot(&mut self) -> (r: bool)
        requires
            old(self).wf(),
        ensures
            final(self).wf(),
            r == (old(self).spawns < MAX_SHOT_SPAWNS),
            final(self).spawns == if r { old(self).spawns + 1 } else { old(self).spawns as int },
            final(self).pending@ == old(self).pending@,
    {
        if self.spawns >= MAX_SHOT_SPAWNS {
            return false;
        }
        self.spawns += 1;
        true
    }

    /// Gives a capture slot back (none is taken below zero).
    pub fn release_shot_slot(&mut self)
        requires
            old(self).wf(),
        ensures
            final(self).wf(),
            final(self).spawns == if old(self).spawns > 0 { old(self).spawns - 1 } else { 0 },
            final(self).pending@ == old(self).pending@,
    {
        self.spawns = self.spawns.saturating_sub(1);
    }

    /// Whether a capture into `out` is under way.
    pub fn shot_is_pending(&self, out: &String) -> (r: bool)
        ensures
            r == self.pending@.contains(components(out@)),
    {
        self.pending.contains(out)
    }

    /// Marks a capture into `out` as under way.
    pub fn shot_insert(&mut self, out: String)
        requires
            old(self).wf(),
        ensures
            final(self).wf(),
            final(self).pending@ == old(self).pending@.insert(components(out@)),
            final(self).spawns == old(self).spawns,
    {
        self.pending.insert(out);
    }

    /// Marks the capture into `out` as finished.
    pub fn shot_remove(&mut self, out: &String)
        requires
            old(self).wf(),
        ensures
            final(self).wf(),
            final(self).pending@ == old(self).pending@.remove(components(out@)),
            final(self).spawns == old(self).spawns,
    {
        self.pending.remove(out);
    }

    /// Decides whether a capture into `out` starts now: not when one into
    /// the same file is under way, nor when no slot is free (the request is
    /// then left unmarked so that a later attempt retries it). When it
    /// starts, a slot is taken and `out` is marked.
    pub fn begin_shot(&mut self, out: String) -> (r: bool)
        requires
            old(self).wf(),
        ensures
            final(self).wf(),
            shot_begun(*old(self), *final(self), out@, r),
    {
        if self.shot_is_pending(&out) {
            return false;
        }
        if !self.acquire_shot_slot() {
            return false;
        }
        self.shot_insert(out);
        true
    }

    /// Records the end of the capture into `out`: it is unmarked and its
    /// slot given back.
    pub fn finish_shot(&mut self, out: &String)
        requires
            old(self).wf(),
        ensures
            final(self).wf(),
            shot_finished(*old(self), *final(self), out@),
    {
        self.shot_remove(out);
        self.release_shot_slot();
    }
}

/// A loadable address for a wallpaper target: web and file addresses as
/// they are, local paths behind `file://`.
pub open spec fn url_for(input: Seq<char>) -> Seq<char> {
    if starts_with(input, "http://"@) || starts_with(input, "https://"@) || starts_with(
        input,
        "file://"@,
    ) {
        input
    } else {
        "file://"@ + input
    }
}

fn str_starts_with(s: &str, p: &str) -> (r: bool)
    ensures
        r == starts_with(s@, p@),
{
    let sc = chars_of(s);
    crate::text::starts_with_str(sc.as_slice(), p)
}

/// Normalises a wallpaper target into a loadable address.
pub fn to_url(input: &str) -> (r: String)
    ensures
        r@ == url_for(input@),
{
    if str_starts_with(input, "http://") || str_starts_with(input, "https://") || str_starts_with(
        input,
        "file://",
    ) {
        input.to_string()
    } else {
        let mut s = "file://".to_string();
        s.append(input);
        s
    }
}

/// Browsers tried, in order, for the headless screenshot fallback.
pub open spec fn chromium_names() -> Seq<Seq<char>> {
    seq!["chromium"@, "google-chrome-stable"@, "google-chrome"@, "chromium-browser"@, "chrome"@]
}

/// The first browser of the list that is installed, `installed[i]` telling
/// whether the `i`-th one is.
pub fn find_chromium_bin(installed: &[bool]) -> (r: Option<String>)
    requires
        installed.len() == 5,
    ensures
        match r {
            Some(b) => exists|i: int|
                0 <= i < 5 && installed@[i] && b@ == chromium_names()[i] && forall|j: int|
                    0 <= j < i ==> !installed@[j],
            None => forall|j: int| 0 <= j < 5 ==> !installed@[j],
        },
{
    let names: [&str; 5] = ["chromium", "google-chrome-stable", "google-chrome", "chromium-browser", "chrome"];
    let mut i: usize = 0;
    while i < 5
        invariant
            i <= 5,
            installed.len() == 5,
            names@.map_values(|n: &str| n@) == chromium_names(),
            forall|j: int| 0 <= j < i ==> !installed@[j],
        decreases 5 - i,
    {
        if installed[i] {
            let b = names[i].to_string();
            assert(b@ == names@.map_values(|n: &str| n@)[i as int]);
            return Some(b);
        }
        i += 1;
    }
    None
}

/// Whether one of the browsers of the list is installed.
pub fn chromium_available(installed: &[bool]) -> (r: bool)
    requires
        installed.len() == 5,
    ensures
        r == exists|i: int| 0 <= i < 5 && installed@[i],
{
    find_chromium_bin(installed).is_some()
}

/// Arguments of the capture process: address, output file, size and mode.
pub open spec fn capture_args(url: Seq<char>, out: Seq<char>, mode: Seq<char>) -> Seq<Seq<char>> {
    seq![url_for(url), out, "600"@, "337"@, mode]
}

pub open spec fn strings_view(v: Seq<String>) -> Seq<Seq<char>> {
    v.map_values(|s: String| s@)
}

/// Arguments for a capture of `url` into `out`, continuously (`live`) or
/// once.
pub fn capture_arguments(url: &str, out: &str, live: bool) -> (r: Vec<String>)
    ensures
        strings_view(r@) == capture_args(url@, out@, if live { "live"@ } else { "shot"@ }),
{
    let mut v: Vec<String> = Vec::new();
    v.push(to_url(url));
    v.push(out.to_string());
    v.push("600".to_string());
    v.push("337".to_string());
    v.push(if live { "live".to_string() } else { "shot".to_string() });
    assert(strings_view(v@) =~= capture_args(url@, out@, if live { "live"@ } else { "shot"@ }));
    v
}

/// Arguments of the headless browser screenshot of `url` into `out`.
pub open spec fn screenshot_args(url: Seq<char>, out: Seq<char>) -> Seq<Seq<char>> {
    seq![
        "--headless"@,
        "--disable-gpu"@,
        "--allow-file-access-from-files"@,
        "--virtual-time-budget=2000"@,
        "--window-size=600,337"@,
        "--screenshot="@ + out,
        url_for(url),
    ]
}

/// Arguments for the headless browser screenshot of `url` into `out`.
pub fn screenshot_arguments(url: &str, out: &str) -> (r: Vec<String>)
    ensures
        strings_view(r@) == screenshot_args(url@, out@),
{
    let mut shot = "--screenshot=".to_string();
    shot.append(out);
    let mut v: Vec<String> = Vec::new();
    v.push("--headless".to_string());
    v.push("--disable-gpu".to_string());
    v.push("--allow-file-access-from-files".to_string());
    v.push("--virtual-time-budget=2000".to_string());
    v.push("--window-size=600,337".to_string());
    v.push(shot);
    v.push(to_url(url));
    assert(strings_view(v@) =~= screenshot_args(url@, out@));
    v
}

/// The live preview process, by its process id.
pub struct LivePreview {
    pub child: Option<u32>,
}

impl LivePreview {
    pub fn new() -> (r: Self)
        ensures
            r.child is None,
    {
        LivePreview { child: None }
    }

    /// Forgets the live preview process and hands it back to be stopped.
    pub fn stop_live(&mut self) -> (r: Option<u32>)
        ensures
            r == old(self).child,
            final(self).child is None,
    {
        let r = self.child;
        self.child = None;
        r
    }

    /// Records the process now rendering the live preview.
    pub fn set_live(&mut self, pid: u32)
        ensures
            final(self).child == Some(pid),
    {
        self.child = Some(pid);
    }
}

/// A capture that started and then ended leaves the slots and the marked
/// files as they were.
pub proof fn law_shot_round_trip(t0: ShotTracker, t1: ShotTracker, t2: ShotTracker, out: Seq<char>)
    requires
        shot_begun(t0, t1, out, true),
        shot_finished(t1, t2, out),
    ensures
        t2.spawns == t0.spawns,
        t2.pending@ == t0.pending@,
{
    assert(t0.pending@.insert(components(out)).remove(components(out)) =~= t0.pending@);
}

/// A mark or an unmark of the capture into a file.
pub enum ShotMark {
    Insert(Seq<char>),
    Remove(Seq<char>),
}

/// The files marked as under way after the marks and unmarks `ops`, in
/// order, starting from `start`.
pub open spec fn marks_after(start: Set<Seq<Seq<char>>>, ops: Seq<ShotMark>) -> Set<Seq<Seq<char>>>
    decreases ops.len(),
{
    if ops.len() == 0 {
        start
    } else {
        let before = marks_after(start, ops.drop_last());
        match ops.last() {
            ShotMark::Insert(p) => before.insert(components(p)),
            ShotMark::Remove(p) => before.remove(components(p)),
        }
    }
}

/// The tracker `t1` comes from `t0` by the calls `shot_insert` and
/// `shot_remove` named in `ops`, in order.
pub open spec fn marked_by(t0: ShotTracker, t1: ShotTracker, ops: Seq<ShotMark>) -> bool {
    t1.pending@ == marks_after(t0.pending@, ops)
}

/// The same file as `out`, as `Path` compares.
pub open spec fn mark_path(m: ShotMark) -> Seq<char> {
    match m {
        ShotMark::Insert(p) => p,
        ShotMark::Remove(p) => p,
    }
}

/// Whether a capture into `out` is under way is decided by the latest mark
/// or unmark of that file (the same path, as `Path` compares): under way
/// after a mark, not after an unmark; with none, as it was at the start.
/// Marks of other files change nothing of it.
pub proof fn law_shot_latest_mark_decides(t0: ShotTracker, t1: ShotTracker, ops: Seq<ShotMark>, out: Seq<char>)
    requires
        marked_by(t0, t1, ops),
    ensures
        (forall|i: int| 0 <= i < ops.len() ==> components(mark_path(#[trigger] ops[i])) != components(out))
            ==> (t1.pending@.contains(components(out)) == t0.pending@.contains(components(out))),
        forall|i: int|
            0 <= i < ops.len() && components(mark_path(#[trigger] ops[i])) == components(out) && (forall|j: int|
                i < j < ops.len() ==> components(mark_path(#[trigger] ops[j])) != components(out)) ==> (
            t1.pending@.contains(components(out)) <==> ops[i] is Insert),
{
    lemma_marks_latest(t0.pending@, ops, out);
}

proof fn lemma_marks_latest(start: Set<Seq<Seq<char>>>, ops: Seq<ShotMark>, out: Seq<char>)
    ensures
        (forall|i: int| 0 <= i < ops.len() ==> components(mark_path(#[trigger] ops[i])) != components(out))
            ==> (marks_after(start, ops).contains(components(out)) == start.contains(components(out))),
        forall|i: int|
            0 <= i < ops.len() && components(mark_path(#[trigger] ops[i])) == components(out) && (forall|j: int|
                i < j < ops.len() ==> components(mark_path(#[trigger] ops[j])) != components(out)) ==> (
            marks_after(start, ops).contains(components(out)) <==> ops[i] is Insert),
    decreases ops.len(),
{
    if ops.len() > 0 {
        let pre = ops.drop_last();
        lemma_marks_latest(start, pre, out);
        let n = ops.len() - 1;
        assert forall|i: int| 0 <= i < pre.len() implies #[trigger] pre[i] == ops[i] by {}
        if components(mark_path(ops[n])) != components(out) {
            assert forall|i: int|
                0 <= i < ops.len() && components(mark_path(#[trigger] ops[i])) == components(out) && (forall|j: int|
                    i < j < ops.len() ==> components(mark_path(#[trigger] ops[j])) != components(out)) implies (
                marks_after(start, ops).contains(components(out)) <==> ops[i] is Insert) by {
                assert(i < n);
                assert(pre[i] == ops[i]);
                assert forall|j: int| i < j < pre.len() implies components(mark_path(#[trigger] pre[j])) != components(out) by {
                    assert(pre[j] == ops[j]);
                }
            }
            if forall|i: int| 0 <= i < ops.len() ==> components(mark_path(#[trigger] ops[i])) != components(out) {
                assert forall|i: int| 0 <= i < pre.len() implies components(mark_path(#[trigger] pre[i])) != components(out) by {
                    assert(pre[i] == ops[i]);
                }
            }
        } else {
            assert forall|i: int|
                0 <= i < ops.len() && components(mark_path(#[trigger] ops[i])) == components(out) && (forall|j: int|
                    i < j < ops.len() ==> components(mark_path(#[trigger] ops[j])) != components(out)) implies (
                marks_after(start, ops).contains(components(out)) <==> ops[i] is Insert) by {
                if i < n {
                    assert(components(mark_path(ops[n])) != components(out));
                }
            }
        }
    }
}

/// A refused capture request changes nothing.
pub proof fn law_shot_refused(t0: ShotTracker, t1: ShotTracker, out: Seq<char>)
    requires
        shot_begun(t0, t1, out, false),
    ensures
        t1.spawns == t0.spawns,
        t1.pending@ == t0.pending@,
{
}

/// Every address given is loadable (web or file scheme), and normalising
/// again changes nothing.
pub proof fn law_url_normal(input: Seq<char>)
    ensures
        starts_with(url_for(input), "http://"@) || starts_with(url_for(input), "https://"@)
            || starts_with(url_for(input), "file://"@),
        url_for(url_for(input)) == url_for(input),
{
    let r = url_for(input);
    if !(starts_with(input, "http://"@) || starts_with(input, "https://"@) || starts_with(input, "file://"@)) {
        reveal_strlit("file://");
        assert(r.subrange(0, 7) =~= "file://"@);
    }
}

/// A way of rendering a page snapshot, from the best to the last resort.
#[derive(Debug, Clone, Copy, PartialEq, Eq)]
pub enum ShotTier {
    /// The bundled Electron app.
    Electron,
    /// A headless Chromium screenshot.
    Chromium,
    /// The WebKit renderer.
    WebKit,
}

/// The ways tried in turn to render a snapshot, until one succeeds:
/// Electron when it is installed, Chromium when it is installed, then
/// WebKit.
pub open spec fn shot_tiers_of(electron: bool, chromium: bool) -> Seq<ShotTier> {
    (if electron {
        seq![ShotTier::Electron]
    } else {
        seq![]
    }) + (if chromium {
        seq![ShotTier::Chromium]
    } else {
        seq![]
    }) + seq![ShotTier::WebKit]
}

/// The ways tried in turn to render a snapshot.
pub fn shot_tiers(electron: bool, chromium: bool) -> (r: Vec<ShotTier>)
    ensures
        r@ == shot_tiers_of(electron, chromium),
{
    let mut v: Vec<ShotTier> = Vec::new();
    if electron {
        v.push(ShotTier::Electron);
    }
    if chromium {
        v.push(ShotTier::Chromium);
    }
    v.push(ShotTier::WebKit);
    assert(v@ =~= shot_tiers_of(electron, chromium));
    v
}

/// How a live preview is run: by Electron when it is installed, else by
/// WebKit.
pub fn live_tier(electron: bool) -> (r: ShotTier)
    ensures
        r == (if electron {
            ShotTier::Electron
        } else {
            ShotTier::WebKit
        }),
{
    if electron {
        ShotTier::Electron
    } else {
        ShotTier::WebKit
    }
}

/// A capture succeeded when its process did and left a non-empty file
/// (`size` being the file's size when it exists).
pub fn capture_succeeded(status_ok: bool, size: Option<u64>) -> (r: bool)
    ensures
        r == (status_ok && match size {
            Some(n) => n > 0,
            None => false,
        }),
{
    status_ok && match size {
        Some(n) => n > 0,
        None => false,
    }
}

/// The Electron command line: the app bundle directory, then the
/// capture arguments.
pub fn electron_command(app_dir: &str, args: Vec<String>) -> (r: Vec<String>)
    ensures
        strings_view(r@) == seq![app_dir@] + strings_view(args@),
{
    let mut v: Vec<String> = Vec::new();
    v.push(app_dir.to_string());
    let mut args = args;
    let ghost a = args@;
    v.append(&mut args);
    assert(strings_view(v@) =~= seq![app_dir@] + strings_view(a));
    v
}

} // verus!
