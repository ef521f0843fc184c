//! Monitors as the compositor tools report them.
use vstd::prelude::*;
use crate::json::{JsonValue, json_bool, json_get, json_i64, json_u64};
use crate::paths::{split_chars, split_on, split_whitespace_chars, split_ws, text_lines, lines_of};
use crate::text::{
    chars_of, contains, contains_chars, decimal, decimal_string, find, find_chars, lemma_found, parse_i32_chars,
    parse_i32_spec, parse_u32_chars, parse_u32_spec, slice_of, starts_with, string_of,
};

verus! {

broadcast use vstd::string::group_string_axioms;

/// A monitor.
#[derive(Debug, Clone, PartialEq)]
pub struct DisplayInfo {
    pub id: String,
    pub name: String,
    pub resolution: String,
    pub width: u32,
    pub height: u32,
    pub x: i32,
    pub y: i32,
    pub refresh_rate: u32,
    pub primary: bool,
    pub connected: bool,
}

/// A monitor as (name, width, height, x, y, refresh rate, primary).
pub type DisplayTuple = (Seq<char>, u32, u32, i32, i32, u32, bool);

/// `WIDTHxHEIGHT`.
pub open spec fn resolution_text(w: u32, h: u32) -> Seq<char> {
    decimal(w as nat) + "x"@ + decimal(h as nat)
}

/// The monitor described by `t`: named by its name, its resolution text
/// made of its size, and connected.
pub open spec fn describes(d: DisplayInfo, t: DisplayTuple) -> bool {
    &&& d.id@ == t.0
    &&& d.name@ == t.0
    &&& d.resolution@ == resolution_text(t.1, t.2)
    &&& d.width == t.1
    &&& d.height == t.2
    &&& d.x == t.3
    &&& d.y == t.4
    &&& d.refresh_rate == t.5
    &&& d.primary == t.6
    &&& d.connected
}

/// The monitors `ds` are the ones listed in `ts`.
pub open spec fn describe_all(ds: Seq<DisplayInfo>, ts: Seq<DisplayTuple>) -> bool {
    ds.len() == ts.len() && forall|i: int| 0 <= i < ds.len() ==> describes(#[trigger] ds[i], ts[i])
}

/// Builds the monitor described by its fields.
pub fn make_display(name: &[char], w: u32, h: u32, x: i32, y: i32, rate: u32, primary: bool) -> (d: DisplayInfo)
    ensures
        describes(d, (name@, w, h, x, y, rate, primary)),
{
    let mut res = decimal_string(w as u64);
    res.append("x");
    res.append(decimal_string(h as u64).as_str());
    DisplayInfo {
        id: string_of(name),
        name: string_of(name),
        resolution: res,
        width: w,
        height: h,
        x,
        y,
        refresh_rate: rate,
        primary,
        connected: true,
    }
}

/// The monitor assumed when no tool reports any.
pub open spec fn fallback_display() -> DisplayTuple {
    ("eDP-1"@, 1920, 1080, 0, 0, 60, true)
}

/// A tool report that lists monitors.
pub open spec fn lists_some(r: Option<Vec<DisplayInfo>>) -> bool {
    match r {
        Some(v) => v@.len() > 0,
        None => false,
    }
}

/// The monitors to use: those of the first tool (in the order asked:
/// Hyprland, wlr-randr, xrandr) that answered and listed some, else the
/// fallback monitor. `None` stands for a tool that failed.
pub fn detect_displays(reports: Vec<Option<Vec<DisplayInfo>>>) -> (r: Vec<DisplayInfo>)
    ensures
        (exists|i: int| 0 <= i < reports@.len() && lists_some(#[trigger] reports@[i])) ==> exists|i: int|
            0 <= i < reports@.len() && reports@[i] == Some(r) && r@.len() > 0 && forall|j: int|
                0 <= j < i ==> !lists_some(#[trigger] reports@[j]),
        (forall|i: int| 0 <= i < reports@.len() ==> !lists_some(#[trigger] reports@[i])) ==> r@.len()
            == 1 && describes(r@[0], fallback_display()),
{
    let mut rs = reports;
    let ghost orig = rs@;
    let n = rs.len();
    let mut i: usize = 0;
    while i < n
        invariant
            i <= n,
            n == orig.len(),
            orig == reports@,
            rs@.len() == n,
            forall|j: int| i <= j < n ==> rs@[j] == orig[j],
            forall|j: int| 0 <= j < i ==> !lists_some(#[trigger] orig[j]),
        decreases n - i,
    {
        let mut slot: Option<Vec<DisplayInfo>> = None;
        let ghost before = rs@;
        std::mem::swap(&mut slot, &mut rs[i]);
        assert(slot == orig[i as int]);
        match slot {
            Some(v) => {
                if v.len() > 0 {
                    assert(lists_some(orig[i as int]));
                    assert(orig[i as int] == Some(v));
                    return v;
                }
            },
            None => {},
        }
        assert(forall|j: int| i < j < n ==> rs@[j] == before[j]);
        i += 1;
    }
    let name = chars_of("eDP-1");
    let mut out: Vec<DisplayInfo> = Vec::new();
    out.push(make_display(name.as_slice(), 1920, 1080, 0, 0, 60, true));
    out
}

// ---------------------------------------------------------------------------
// xrandr
// ---------------------------------------------------------------------------

/// A number read with a default.
pub open spec fn u32_or(s: Seq<char>, d: u32) -> u32 {
    match parse_u32_spec(s) {
        Some(n) => n,
        None => d,
    }
}

pub open spec fn i32_or(s: Seq<char>, d: i32) -> i32 {
    match parse_i32_spec(s) {
        Some(n) => n,
        None => d,
    }
}

/// A connected output on a line of `xrandr --query`, as (name, primary,
/// width, height, x, y): the name first, the geometry `WxH+X+Y` in the
/// third word (fourth after `primary`).
pub open spec fn xrandr_entry(line: Seq<char>) -> Option<(Seq<char>, bool, u32, u32, i32, i32)> {
    let parts = split_ws(line);
    let primary = contains(line, "primary"@);
    let gi: int = if primary { 3 } else { 2 };
    if !contains(line, " connected "@) || parts.len() < 3 || gi >= parts.len() {
        None
    } else {
        let geom = parts[gi];
        match find(geom, "+"@) {
            None => None,
            Some(re) => {
                let dims = split_on(geom.take(re), 'x');
                let pos = split_on(geom.skip(re + 1), '+');
                if dims.len() == 2 && pos.len() == 2 {
                    Some(
                        (
                            parts[0],
                            primary,
                            u32_or(dims[0], 1920),
                            u32_or(dims[1], 1080),
                            i32_or(pos[0], 0),
                            i32_or(pos[1], 0),
                        ),
                    )
                } else {
                    None
                }
            },
        }
    }
}

proof fn lemma_split_no_sep(a: Seq<char>, sep: char)
    requires
        forall|i: int| 0 <= i < a.len() ==> a[i] != sep,
    ensures
        split_on(a, sep) == seq![a],
    decreases a.len(),
{
    if a.len() == 0 {
        assert(a =~= Seq::<char>::empty());
    } else {
        lemma_split_no_sep(a.drop_last(), sep);
        assert(a.drop_last().push(a.last()) =~= a);
        assert(seq![a.drop_last()].update(0, a.drop_last().push(a.last())) =~= seq![a]);
    }
}

proof fn lemma_split_two(a: Seq<char>, b: Seq<char>, sep: char)
    requires
        forall|i: int| 0 <= i < a.len() ==> a[i] != sep,
        forall|i: int| 0 <= i < b.len() ==> b[i] != sep,
    ensures
        split_on(a + seq![sep] + b, sep) == seq![a, b],
    decreases b.len(),
{
    let s = a + seq![sep] + b;
    if b.len() == 0 {
        assert(s.drop_last() =~= a);
        assert(s.last() == sep);
        lemma_split_no_sep(a, sep);
        assert(b =~= Seq::<char>::empty());
        assert(seq![a].push(Seq::<char>::empty()) =~= seq![a, b]);
    } else {
        assert(s.drop_last() =~= a + seq![sep] + b.drop_last());
        lemma_split_two(a, b.drop_last(), sep);
        assert(s.last() == b.last());
        assert(b.drop_last().push(b.last()) =~= b);
        assert(seq![a, b.drop_last()].update(1, b.drop_last().push(b.last())) =~= seq![a, b]);
    }
}

proof fn lemma_find_first(hay: Seq<char>, c: char, i: int, j: int)
    requires
        0 <= i <= j < hay.len(),
        hay[j] == c,
        forall|k: int| i <= k < j ==> hay[k] != c,
    ensures
        crate::text::find_from(hay, seq![c], i) == Some(j),
    decreases j - i,
{
    if i == j {
        assert(hay.subrange(i, i + 1) =~= seq![c]);
    } else {
        assert(hay.subrange(i, i + 1)[0] == hay[i]);
        lemma_find_first(hay, c, i + 1, j);
    }
}

/// The size of a connected output is the one its geometry word
/// `WxH+X+Y` spells: for decimal `W` and `H`, the output read from the
/// line has width `W` and height `H` (and position `X`, `Y` when they read
/// as numbers), its name being the first word and its being primary
/// whether the line says so.
pub proof fn law_xrandr_geometry(
    line: Seq<char>,
    dw: Seq<char>,
    dh: Seq<char>,
    xs: Seq<char>,
    ys: Seq<char>,
    w: u32,
    h: u32,
)
    requires
        contains(line, " connected "@),
        ({
            let parts = split_ws(line);
            let gi: int = if contains(line, "primary"@) { 3 } else { 2 };
            gi < parts.len() && parts[gi] == dw + seq!['x'] + dh + seq!['+'] + xs + seq!['+'] + ys
        }),
        crate::text::all_digits(dw),
        crate::text::all_digits(dh),
        forall|i: int| 0 <= i < xs.len() ==> xs[i] != '+',
        forall|i: int| 0 <= i < ys.len() ==> ys[i] != '+',
        parse_u32_spec(dw) == Some(w),
        parse_u32_spec(dh) == Some(h),
    ensures
        xrandr_entry(line) matches Some(e) && e.0 == split_ws(line)[0] && e.1 == contains(line, "primary"@)
            && e.2 == w && e.3 == h && (parse_i32_spec(xs) is Some ==> e.4 == parse_i32_spec(xs)->0) && (
        parse_i32_spec(ys) is Some ==> e.5 == parse_i32_spec(ys)->0),
{
    reveal_strlit("+");
    let parts = split_ws(line);
    let gi: int = if contains(line, "primary"@) { 3 } else { 2 };
    let geom = parts[gi];
    let dims_text = dw + seq!['x'] + dh;
    let pos_text = xs + seq!['+'] + ys;
    assert(geom =~= dims_text + seq!['+'] + pos_text);
    let re = dims_text.len() as int;
    assert forall|k: int| 0 <= k < re implies geom[k] != '+' by {
        assert(geom[k] == dims_text[k]);
        if k < dw.len() {
            assert(crate::text::is_digit(dw[k]));
        } else if k > dw.len() {
            assert(dims_text[k] == dh[k - dw.len() - 1]);
            assert(crate::text::is_digit(dh[k - dw.len() - 1]));
        }
    }
    assert(geom[re] == '+');
    lemma_find_first(geom, '+', 0, re);
    assert("+"@ == seq!['+']);
    assert(geom.take(re) =~= dims_text);
    assert(geom.skip(re + 1) =~= pos_text);
    assert forall|i: int| 0 <= i < dw.len() implies dw[i] != 'x' by {
        assert(crate::text::is_digit(dw[i]));
    }
    assert forall|i: int| 0 <= i < dh.len() implies dh[i] != 'x' by {
        assert(crate::text::is_digit(dh[i]));
    }
    lemma_split_two(dw, dh, 'x');
    lemma_split_two(xs, ys, '+');
}

/// The monitors listed by `xrandr --query`, the first one primary when no
/// line says `primary` before it.
pub open spec fn xrandr_list(lines: Seq<Seq<char>>) -> Seq<DisplayTuple>
    decreases lines.len(),
{
    if lines.len() == 0 {
        seq![]
    } else {
        let k = xrandr_list(lines.drop_last());
        match xrandr_entry(lines.last()) {
            Some((n, p, w, h, x, y)) => k.push((n, w, h, x, y, 60u32, p || k.len() == 0)),
            None => k,
        }
    }
}

fn u32_or_exec(s: &[char], d: u32) -> (r: u32)
    ensures
        r == u32_or(s@, d),
{
    match parse_u32_chars(s) {
        Some(n) => n,
        None => d,
    }
}

fn i32_or_exec(s: &[char], d: i32) -> (r: i32)
    ensures
        r == i32_or(s@, d),
{
    match parse_i32_chars(s) {
        Some(n) => n,
        None => d,
    }
}

fn xrandr_entry_exec(line: &[char]) -> (r: Option<(Vec<char>, bool, u32, u32, i32, i32)>)
    ensures
        match r {
            Some((n, p, w, h, x, y)) => xrandr_entry(line@) == Some((n@, p, w, h, x, y)),
            None => xrandr_entry(line@) is None,
        },
{
    let connected = chars_of(" connected ");
    let prim = chars_of("primary");
    let plus = chars_of("+");
    proof {
        reveal_strlit("+");
    }
    if !contains_chars(line, connected.as_slice()) {
        return None;
    }
    let parts = split_whitespace_chars(line);
    let ghost pv = parts@.map_values(|x: Vec<char>| x@);
    let primary = contains_chars(line, prim.as_slice());
    let gi: usize = if primary { 3 } else { 2 };
    if parts.len() < 3 || gi >= parts.len() {
        return None;
    }
    let geom = &parts[gi];
    assert(pv[gi as int] == geom@);
    assert(pv[0] == parts@[0]@);
    match find_chars(geom.as_slice(), plus.as_slice(), 0) {
        None => None,
        Some(re) => {
            proof {
                lemma_found(geom@, plus@, 0, re as int);
            }
            assert(geom@.len() == geom.len());
            let res = slice_of(geom.as_slice(), 0, re);
            let pos = slice_of(geom.as_slice(), re + 1, geom.len());
            assert(res@ == geom@.take(re as int));
            assert(pos@ == geom@.skip(re + 1));
            let dims = split_chars(res.as_slice(), 'x');
            let ps = split_chars(pos.as_slice(), '+');
            if dims.len() == 2 && ps.len() == 2 {
                assert(dims@.map_values(|x: Vec<char>| x@)[0] == dims@[0]@);
                assert(dims@.map_values(|x: Vec<char>| x@)[1] == dims@[1]@);
                assert(ps@.map_values(|x: Vec<char>| x@)[0] == ps@[0]@);
                assert(ps@.map_values(|x: Vec<char>| x@)[1] == ps@[1]@);
                let w = u32_or_exec(dims[0].as_slice(), 1920);
                let h = u32_or_exec(dims[1].as_slice(), 1080);
                let x = i32_or_exec(ps[0].as_slice(), 0);
                let y = i32_or_exec(ps[1].as_slice(), 0);
                let name = slice_of(parts[0].as_slice(), 0, parts[0].len());
                assert(parts@[0]@.subrange(0, parts@[0]@.len() as int) == parts@[0]@);
                Some((name, primary, w, h, x, y))
            } else {
                None
            }
        },
    }
}

/// The monitors listed in the output of `xrandr --query`.
pub fn parse_xrandr_displays(stdout: &str) -> (r: Vec<DisplayInfo>)
    ensures
        describe_all(r@, xrandr_list(text_lines(stdout@))),
{
    let lines = lines_of(stdout);
    let ghost lv = lines@.map_values(|x: Vec<char>| x@);
    let mut out: Vec<DisplayInfo> = Vec::new();
    let ghost mut ts: Seq<DisplayTuple> = seq![];
    let mut i: usize = 0;
    while i < lines.len()
        invariant
            i <= lines.len(),
            lv == lines@.map_values(|x: Vec<char>| x@),
            lv == text_lines(stdout@),
            ts == xrandr_list(lv.take(i as int)),
            describe_all(out@, ts),
        decreases lines.len() - i,
    {
        assert(lv[i as int] == lines@[i as int]@);
        assert(lv.take(i as int + 1).drop_last() == lv.take(i as int));
        match xrandr_entry_exec(lines[i].as_slice()) {
            Some((n, p, w, h, x, y)) => {
                let primary = p || out.len() == 0;
                let d = make_display(n.as_slice(), w, h, x, y, 60, primary);
                out.push(d);
                proof {
                    ts = ts.push((n@, w, h, x, y, 60u32, primary));
                }
            },
            None => {},
        }
        i += 1;
    }
    assert(lv.take(lines.len() as int) == lv);
    out
}

// ---------------------------------------------------------------------------
// wlr-randr
// ---------------------------------------------------------------------------

/// A line that starts the block of an output: not indented, and holding
/// the quoted description of the output.
pub open spec fn wlr_header(line: Seq<char>) -> bool {
    !starts_with(line, " "@) && contains(line, "\""@)
}

/// The size on the header line: `WxH` between its first `(` and the
/// first `,` after it, 1920x1080 when it cannot be read.
pub open spec fn wlr_size(line: Seq<char>) -> (u32, u32) {
    match find(line, "("@) {
        None => (1920, 1080),
        Some(rs) => match find(line.skip(rs), ","@) {
            None => (1920, 1080),
            Some(re) => {
                let dims = split_on(line.subrange(rs + 1, rs + re), 'x');
                if dims.len() == 2 {
                    (u32_or(dims[0], 1920), u32_or(dims[1], 1080))
                } else {
                    (1920, 1080)
                }
            },
        },
    }
}

/// The outputs read so far and the one being read.
pub type WlrState = (Seq<DisplayTuple>, Option<DisplayTuple>);

/// One line of `wlr-randr` output; `rate` is the refresh rate read from
/// the line (its first word that reads as a number, rounded).
pub open spec fn wlr_step(st: WlrState, line: Seq<char>, rate: Option<u32>) -> WlrState {
    let ds = st.0;
    let cur = st.1;
    if wlr_header(line) {
        let ds2 = match cur {
            Some(c) => ds.push(c),
            None => ds,
        };
        let parts = split_ws(line);
        if parts.len() > 0 {
            let size = wlr_size(line);
            (ds2, Some((parts[0], size.0, size.1, 0i32, 0i32, 60u32, ds2.len() == 0)))
        } else {
            (ds2, None)
        }
    } else {
        match cur {
            None => (ds, None),
            Some(c) => if contains(line, "Position:"@) {
                let parts = split_ws(line);
                if parts.len() >= 2 {
                    let pp = split_on(parts[1], ',');
                    if pp.len() == 2 {
                        (ds, Some((c.0, c.1, c.2, i32_or(pp[0], 0), i32_or(pp[1], 0), c.5, c.6)))
                    } else {
                        (ds, cur)
                    }
                } else {
                    (ds, cur)
                }
            } else if contains(line, "Hz"@) && contains(line, "current"@) {
                match rate {
                    Some(r) => (ds, Some((c.0, c.1, c.2, c.3, c.4, r, c.6))),
                    None => (ds, cur),
                }
            } else {
                (ds, cur)
            },
        }
    }
}

/// The state after the lines.
pub open spec fn wlr_run(lines: Seq<Seq<char>>, rates: Seq<Option<u32>>) -> WlrState
    decreases lines.len(),
{
    if lines.len() == 0 {
        (seq![], None)
    } else {
        wlr_step(wlr_run(lines.drop_last(), rates.drop_last()), lines.last(), rates.last())
    }
}

/// The outputs listed by `wlr-randr`.
pub open spec fn wlr_list(lines: Seq<Seq<char>>, rates: Seq<Option<u32>>) -> Seq<DisplayTuple> {
    let st = wlr_run(lines, rates);
    match st.1 {
        Some(c) => st.0.push(c),
        None => st.0,
    }
}

pub open spec fn cur_view(c: Option<(Vec<char>, u32, u32, i32, i32, u32, bool)>) -> Option<DisplayTuple> {
    match c {
        Some(t) => Some((t.0@, t.1, t.2, t.3, t.4, t.5, t.6)),
        None => None,
    }
}

fn wlr_size_exec(line: &[char]) -> (r: (u32, u32))
    ensures
        r == wlr_size(line@),
{
    let open = chars_of("(");
    let comma = chars_of(",");
    proof {
        reveal_strlit("(");
        reveal_strlit(",");
    }
    assert(line@.len() == line.len());
    let rs = match find_chars(line, open.as_slice(), 0) {
        Some(p) => p,
        None => return (1920, 1080),
    };
    proof {
        lemma_found(line@, open@, 0, rs as int);
    }
    let rest = slice_of(line, rs, line.len());
    assert(rest@ == line@.skip(rs as int));
    let re = match find_chars(rest.as_slice(), comma.as_slice(), 0) {
        Some(p) => p,
        None => return (1920, 1080),
    };
    proof {
        lemma_found(rest@, comma@, 0, re as int);
    }
    if re == 0 {
        assert(open@ == seq!['(']);
        assert(comma@ == seq![',']);
        assert(line@.subrange(rs as int, rs + 1)[0] == line@[rs as int]);
        assert(rest@.subrange(0, 1)[0] == rest@[0]);
        assert(rest@[0] == line@[rs as int]);
        assert(false);
    }
    let res = slice_of(line, rs + 1, rs + re);
    let dims = split_chars(res.as_slice(), 'x');
    if dims.len() == 2 {
        assert(dims@.map_values(|x: Vec<char>| x@)[0] == dims@[0]@);
        assert(dims@.map_values(|x: Vec<char>| x@)[1] == dims@[1]@);
        (u32_or_exec(dims[0].as_slice(), 1920), u32_or_exec(dims[1].as_slice(), 1080))
    } else {
        (1920, 1080)
    }
}

fn finish_display(out: &mut Vec<DisplayInfo>, c: &(Vec<char>, u32, u32, i32, i32, u32, bool), Ghost(ts): Ghost<Seq<DisplayTuple>>)
    requires
        describe_all(old(out)@, ts),
    ensures
        describe_all(final(out)@, ts.push((c.0@, c.1, c.2, c.3, c.4, c.5, c.6))),
{
    let d = make_display(c.0.as_slice(), c.1, c.2, c.3, c.4, c.5, c.6);
    out.push(d);
}

/// The outputs listed in the output of `wlr-randr`; `rates[i]` is the
/// refresh rate read from its `i`-th line, if any.
pub fn parse_wlr_randr_displays(stdout: &str, rates: &[Option<u32>]) -> (r: Vec<DisplayInfo>)
    requires
        rates.len() == text_lines(stdout@).len(),
    ensures
        describe_all(r@, wlr_list(text_lines(stdout@), rates@)),
{
    let lines = lines_of(stdout);
    let ghost lv = lines@.map_values(|x: Vec<char>| x@);
    let space = chars_of(" ");
    let quote = chars_of("\"");
    let position = chars_of("Position:");
    let hz = chars_of("Hz");
    let current = chars_of("current");
    let mut out: Vec<DisplayInfo> = Vec::new();
    let mut cur: Option<(Vec<char>, u32, u32, i32, i32, u32, bool)> = None;
    let ghost mut ts: Seq<DisplayTuple> = seq![];
    let mut i: usize = 0;
    while i < lines.len()
        invariant
            i <= lines.len(),
            rates.len() == lines.len(),
            lv == lines@.map_values(|x: Vec<char>| x@),
            lv == text_lines(stdout@),
            space@ == " "@ && quote@ == "\""@ && position@ == "Position:"@ && hz@ == "Hz"@ && current@
                == "current"@,
            (ts, cur_view(cur)) == wlr_run(lv.take(i as int), rates@.take(i as int)),
            describe_all(out@, ts),
        decreases lines.len() - i,
    {
        let line = lines[i].as_slice();
        assert(lv[i as int] == line@);
        assert(lv.take(i as int + 1).drop_last() == lv.take(i as int));
        assert(rates@.take(i as int + 1).drop_last() == rates@.take(i as int));
        if !crate::text::starts_with_chars(line, space.as_slice()) && contains_chars(line, quote.as_slice()) {
            let mut taken: Option<(Vec<char>, u32, u32, i32, i32, u32, bool)> = None;
            std::mem::swap(&mut taken, &mut cur);
            match &taken {
                Some(c) => {
                    finish_display(&mut out, c, Ghost(ts));
                    proof {
                        ts = ts.push((c.0@, c.1, c.2, c.3, c.4, c.5, c.6));
                    }
                },
                None => {},
            }
            let parts = split_whitespace_chars(line);
            if parts.len() > 0 {
                assert(parts@.map_values(|x: Vec<char>| x@)[0] == parts@[0]@);
                let size = wlr_size_exec(line);
                let name = slice_of(parts[0].as_slice(), 0, parts[0].len());
                assert(parts@[0]@.subrange(0, parts@[0]@.len() as int) == parts@[0]@);
                let primary = out.len() == 0;
                cur = Some((name, size.0, size.1, 0, 0, 60, primary));
            }
        } else {
            let mut taken: Option<(Vec<char>, u32, u32, i32, i32, u32, bool)> = None;
            std::mem::swap(&mut taken, &mut cur);
            match taken {
                None => {},
                Some(c) => {
                    let (n, w, h, x, y, rate, p) = c;
                    if contains_chars(line, position.as_slice()) {
                        let parts = split_whitespace_chars(line);
                        let mut nx = x;
                        let mut ny = y;
                        if parts.len() >= 2 {
                            assert(parts@.map_values(|x: Vec<char>| x@)[1] == parts@[1]@);
                            let pp = split_chars(parts[1].as_slice(), ',');
                            if pp.len() == 2 {
                                assert(pp@.map_values(|x: Vec<char>| x@)[0] == pp@[0]@);
                                assert(pp@.map_values(|x: Vec<char>| x@)[1] == pp@[1]@);
                                nx = i32_or_exec(pp[0].as_slice(), 0);
                                ny = i32_or_exec(pp[1].as_slice(), 0);
                            }
                        }
                        cur = Some((n, w, h, nx, ny, rate, p));
                    } else if contains_chars(line, hz.as_slice()) && contains_chars(line, current.as_slice()) {
                        let nr = match rates[i] {
                            Some(r) => r,
                            None => rate,
                        };
                        cur = Some((n, w, h, x, y, nr, p));
                    } else {
                        cur = Some((n, w, h, x, y, rate, p));
                    }
                },
            }
        }
        i += 1;
    }
    assert(lv.take(lines.len() as int) == lv);
    assert(rates@.take(rates.len() as int) == rates@);
    match &cur {
        Some(c) => {
            finish_display(&mut out, c, Ghost(ts));
        },
        None => {},
    }
    out
}

// ---------------------------------------------------------------------------
// Hyprland
// ---------------------------------------------------------------------------

/// A monitor of `hyprctl monitors -j`, the `idx`-th, with the refresh rate
/// `rate` read from it: missing fields take defaults (the first monitor
/// counting as focused), and the numbers are cut to the field sizes.
pub open spec fn hypr_entry(mon: JsonValue, idx: int, rate: u32) -> DisplayTuple {
    let name = crate::workshop_api::str_or(mon, "name"@, "Unknown"@);
    let w = match json_u64(json_get(mon, "width"@)) {
        Some(n) => n,
        None => 1920,
    };
    let h = match json_u64(json_get(mon, "height"@)) {
        Some(n) => n,
        None => 1080,
    };
    let x = match json_i64(json_get(mon, "x"@)) {
        Some(n) => n,
        None => 0,
    };
    let y = match json_i64(json_get(mon, "y"@)) {
        Some(n) => n,
        None => 0,
    };
    let focused = match json_bool(json_get(mon, "focused"@)) {
        Some(b) => b,
        None => idx == 0,
    };
    (name, w as u32, h as u32, x as i32, y as i32, rate, focused)
}

/// The monitors of a `hyprctl monitors -j` reply.
pub open spec fn hypr_list(val: JsonValue, rates: Seq<u32>) -> Seq<DisplayTuple> {
    match val {
        JsonValue::Array(a) => Seq::new(a@.len(), |i: int| hypr_entry(a@[i], i, rates[i])),
        _ => seq![],
    }
}

/// The number of monitors in a `hyprctl monitors -j` reply.
pub open spec fn hypr_count(val: JsonValue) -> nat {
    match val {
        JsonValue::Array(a) => a@.len(),
        _ => 0,
    }
}

fn u64_or(mon: &JsonValue, key: &str, d: u64) -> (r: u64)
    ensures
        r == match json_u64(json_get(*mon, key@)) {
            Some(n) => n,
            None => d,
        },
{
    match mon.get(key) {
        Some(v) => match v.as_u64() {
            Some(n) => n,
            None => d,
        },
        None => d,
    }
}

fn i64_or(mon: &JsonValue, key: &str) -> (r: i64)
    ensures
        r == match json_i64(json_get(*mon, key@)) {
            Some(n) => n,
            None => 0,
        },
{
    match mon.get(key) {
        Some(v) => match v.as_i64() {
            Some(n) => n,
            None => 0,
        },
        None => 0,
    }
}

/// The monitors of a `hyprctl monitors -j` reply; `rates[i]` is the
/// refresh rate of the `i`-th, rounded.
pub fn parse_hyprland_displays(val: &JsonValue, rates: &[u32]) -> (r: Vec<DisplayInfo>)
    requires
        rates.len() == hypr_count(*val),
    ensures
        describe_all(r@, hypr_list(*val, rates@)),
{
    let mut out: Vec<DisplayInfo> = Vec::new();
    match val {
        JsonValue::Array(a) => {
            let mut i: usize = 0;
            while i < a.len()
                invariant
                    i <= a.len(),
                    rates.len() == a@.len(),
                    *val == JsonValue::Array(*a),
                    out@.len() == i,
                    forall|j: int| 0 <= j < i ==> describes(#[trigger] out@[j], hypr_entry(a@[j], j, rates@[j])),
                decreases a.len() - i,
            {
                let mon = &a[i];
                let name = match mon.get("name") {
                    Some(v) => match v.as_str() {
                        Some(s) => s.to_string(),
                        None => "Unknown".to_string(),
                    },
                    None => "Unknown".to_string(),
                };
                let nc = chars_of(name.as_str());
                let w = u64_or(mon, "width", 1920) as u32;
                let h = u64_or(mon, "height", 1080) as u32;
                let x = i64_or(mon, "x") as i32;
                let y = i64_or(mon, "y") as i32;
                let focused = match mon.get("focused") {
                    Some(v) => match v.as_bool() {
                        Some(b) => b,
                        None => i == 0,
                    },
                    None => i == 0,
                };
                let d = make_display(nc.as_slice(), w, h, x, y, rates[i], focused);
                out.push(d);
                i += 1;
            }
        },
        _ => {},
    }
    out
}

} // verus!
