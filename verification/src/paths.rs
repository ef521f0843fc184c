//! File-system paths held as text: the parts of `std::path::Path` that the
//! library reasons about (file name, extension, stem, joining).
use vstd::prelude::*;
use crate::text::{match_at, chars_of, eq_str, extend_chars, extend_str, rfind, rfind_chars, slice_of, string_of, trim, trim_chars};

verus! {

broadcast use vstd::string::group_string_axioms;

/// `str::split(sep)`: the pieces between separators, empty ones included.
pub open spec fn split_on(s: Seq<char>, sep: char) -> Seq<Seq<char>>
    decreases s.len(),
{
    if s.len() == 0 {
        seq![Seq::empty()]
    } else {
        let p = split_on(s.drop_last(), sep);
        if s.last() == sep {
            p.push(Seq::empty())
        } else {
            p.update(p.len() - 1, p.last().push(s.last()))
        }
    }
}

/// The pieces that name a directory or file: not empty and not `.`.
pub open spec fn keep_names(parts: Seq<Seq<char>>) -> Seq<Seq<char>>
    decreases parts.len(),
{
    if parts.len() == 0 {
        Seq::empty()
    } else {
        let k = keep_names(parts.drop_last());
        let x = parts.last();
        if x.len() == 0 || x == "."@ {
            k
        } else {
            k.push(x)
        }
    }
}

/// `Path::file_name`: the last named component, unless it is `..`.
pub open spec fn file_name(p: Seq<char>) -> Option<Seq<char>> {
    let ns = keep_names(split_on(p, '/'));
    if ns.len() == 0 || ns.last() == ".."@ {
        None
    } else {
        Some(ns.last())
    }
}

/// `Path::extension` of a file name: what follows its last `.`, if that
/// `.` is not the first character.
pub open spec fn name_extension(name: Seq<char>) -> Option<Seq<char>> {
    match rfind(name, "."@) {
        None => None,
        Some(i) => if i == 0 {
            None
        } else {
            Some(name.skip(i + 1))
        },
    }
}

/// `Path::file_stem` of a file name: what precedes its last `.`, or the
/// whole name when the only `.` is the first character or there is none.
pub open spec fn name_stem(name: Seq<char>) -> Seq<char> {
    match rfind(name, "."@) {
        None => name,
        Some(i) => if i == 0 {
            name
        } else {
            name.take(i)
        },
    }
}

/// `Path::extension` of a path.
pub open spec fn extension(p: Seq<char>) -> Option<Seq<char>> {
    match file_name(p) {
        None => None,
        Some(n) => name_extension(n),
    }
}

/// `Path::join` of a relative or absolute component onto a base that does
/// not end in `/`: an absolute component replaces the base.
pub open spec fn join(base: Seq<char>, comp: Seq<char>) -> Seq<char> {
    if comp.len() > 0 && comp[0] == '/' {
        comp
    } else if base.len() == 0 {
        comp
    } else if base.last() == '/' {
        base + comp
    } else {
        base + "/"@ + comp
    }
}

pub(crate) fn name_parts(p: &[char]) -> (r: Vec<Vec<char>>)
    ensures
        r@.map_values(|x: Vec<char>| x@) == keep_names(split_on(p@, '/')),
{
    let mut parts: Vec<Vec<char>> = Vec::new();
    let mut cur: Vec<char> = Vec::new();
    let mut i: usize = 0;
    let dot = chars_of(".");
    let ghost mut done: Seq<Seq<char>> = Seq::empty();
    assert(p@.take(0) == Seq::<char>::empty());
    while i < p.len()
        invariant
            i <= p.len(),
            dot@ == "."@,
            split_on(p@.take(i as int), '/') == done.push(cur@),
            parts@.map_values(|x: Vec<char>| x@) == keep_names(done),
        decreases p.len() - i,
    {
        assert(p@.take(i + 1).drop_last() == p@.take(i as int));
        let c = p[i];
        if c == '/' {
            let ghost before = parts@;
            if cur.len() > 0 && !eq_str(cur.as_slice(), ".") {
                parts.push(cur);
                assert(parts@.map_values(|x: Vec<char>| x@) == before.map_values(|x: Vec<char>| x@).push(cur@));
            }
            assert(done.push(cur@).drop_last() == done);
            proof {
                done = done.push(cur@);
            }
            cur = Vec::new();
        } else {
            cur.push(c);
        }
        i += 1;
    }
    assert(p@.take(p.len() as int) == p@);
    let ghost before = parts@;
    if cur.len() > 0 && !eq_str(cur.as_slice(), ".") {
        parts.push(cur);
        assert(parts@.map_values(|x: Vec<char>| x@) == before.map_values(|x: Vec<char>| x@).push(cur@));
    }
    assert(done.push(cur@).drop_last() == done);
    parts
}

/// `Path::file_name`.
pub fn file_name_of(p: &str) -> (r: Option<Vec<char>>)
    ensures
        match r {
            Some(v) => file_name(p@) == Some(v@),
            None => file_name(p@) is None,
        },
{
    let pc = chars_of(p);
    let mut parts = name_parts(pc.as_slice());
    if parts.len() == 0 {
        return None;
    }
    let last = parts.pop().unwrap();
    if eq_str(last.as_slice(), "..") {
        None
    } else {
        Some(last)
    }
}

/// `Path::extension` of a file name.
pub fn name_extension_of(name: &[char]) -> (r: Option<Vec<char>>)
    ensures
        match r {
            Some(v) => name_extension(name@) == Some(v@),
            None => name_extension(name@) is None,
        },
{
    let dot = chars_of(".");
    match rfind_chars(name, dot.as_slice()) {
        None => None,
        Some(i) => {
            if i == 0 {
                None
            } else {
                proof {
                    reveal_strlit(".");
                    assert(dot@.len() == 1);
                    assert(match_at(name@, dot@, i as int));
                    assert(name@.len() == name.len());
                }
                Some(slice_of(name, i + 1, name.len()))
            }
        },
    }
}

/// `Path::file_stem` of a file name.
pub fn name_stem_of(name: &[char]) -> (r: Vec<char>)
    ensures
        r@ == name_stem(name@),
{
    let dot = chars_of(".");
    match rfind_chars(name, dot.as_slice()) {
        None => slice_of(name, 0, name.len()),
        Some(i) => {
            if i == 0 {
                slice_of(name, 0, name.len())
            } else {
                slice_of(name, 0, i)
            }
        },
    }
}

/// `Path::extension` of a path.
pub fn extension_of(p: &str) -> (r: Option<Vec<char>>)
    ensures
        match r {
            Some(v) => extension(p@) == Some(v@),
            None => extension(p@) is None,
        },
{
    match file_name_of(p) {
        None => None,
        Some(n) => name_extension_of(n.as_slice()),
    }
}

/// `Path::join`.
pub fn join_path(base: &str, comp: &str) -> (r: String)
    ensures
        r@ == join(base@, comp@),
{
    let b = chars_of(base);
    let c = chars_of(comp);
    if c.len() > 0 && c[0] == '/' {
        return string_of(c.as_slice());
    }
    if b.len() == 0 {
        return string_of(c.as_slice());
    }
    let mut out = slice_of(b.as_slice(), 0, b.len());
    if b[b.len() - 1] != '/' {
        extend_str(&mut out, "/");
    }
    extend_chars(&mut out, c.as_slice());
    string_of(out.as_slice())
}

/// `str::split(sep)` on characters: every piece, empty ones included.
pub fn split_chars(s: &[char], sep: char) -> (r: Vec<Vec<char>>)
    ensures
        r@.map_values(|x: Vec<char>| x@) == split_on(s@, sep),
{
    let mut parts: Vec<Vec<char>> = Vec::new();
    let mut cur: Vec<char> = Vec::new();
    let mut i: usize = 0;
    assert(s@.take(0) == Seq::<char>::empty());
    while i < s.len()
        invariant
            i <= s.len(),
            split_on(s@.take(i as int), sep) == parts@.map_values(|x: Vec<char>| x@).push(cur@),
        decreases s.len() - i,
    {
        assert(s@.take(i + 1).drop_last() == s@.take(i as int));
        let ghost before = parts@.map_values(|x: Vec<char>| x@);
        if s[i] == sep {
            parts.push(cur);
            assert(parts@.map_values(|x: Vec<char>| x@) == before.push(cur@));
            cur = Vec::new();
        } else {
            cur.push(s[i]);
        }
        i += 1;
    }
    assert(s@.take(s.len() as int) == s@);
    let ghost before = parts@.map_values(|x: Vec<char>| x@);
    parts.push(cur);
    assert(parts@.map_values(|x: Vec<char>| x@) == before.push(cur@));
    parts
}

/// A line without the `\r` of a `\r\n` ending.
pub open spec fn strip_cr(l: Seq<char>) -> Seq<char> {
    if l.len() > 0 && l.last() == '\r' {
        l.drop_last()
    } else {
        l
    }
}

/// `str::lines`: the text cut at each `\n`, a `\r` before it dropped, and
/// no empty line after a final `\n`.
pub open spec fn text_lines(s: Seq<char>) -> Seq<Seq<char>> {
    let p = split_on(s, '\n');
    let init = p.drop_last().map_values(|l: Seq<char>| strip_cr(l));
    if p.last().len() == 0 {
        init
    } else {
        init.push(p.last())
    }
}

proof fn lemma_split_nonempty(s: Seq<char>, sep: char)
    ensures
        split_on(s, sep).len() >= 1,
    decreases s.len(),
{
    if s.len() > 0 {
        lemma_split_nonempty(s.drop_last(), sep);
    }
}

/// The lines of `s`.
pub fn lines_of(s: &str) -> (r: Vec<Vec<char>>)
    ensures
        r@.map_values(|x: Vec<char>| x@) == text_lines(s@),
{
    let c = chars_of(s);
    let parts = split_chars(c.as_slice(), '\n');
    proof {
        lemma_split_nonempty(c@, '\n');
    }
    let n = parts.len();
    let mut out: Vec<Vec<char>> = Vec::new();
    let mut i: usize = 0;
    let ghost pv = parts@.map_values(|x: Vec<char>| x@);
    while i + 1 < n
        invariant
            n == parts.len(),
            n >= 1,
            i + 1 <= n,
            pv == parts@.map_values(|x: Vec<char>| x@),
            pv == split_on(s@, '\n'),
            out@.map_values(|x: Vec<char>| x@) == pv.drop_last().take(i as int).map_values(
                |l: Seq<char>| strip_cr(l),
            ),
        decreases n - i,
    {
        let l = &parts[i];
        let ghost before = out@.map_values(|x: Vec<char>| x@);
        let line = if l.len() > 0 && l[l.len() - 1] == '\r' {
            crate::text::slice_of(l.as_slice(), 0, l.len() - 1)
        } else {
            crate::text::slice_of(l.as_slice(), 0, l.len())
        };
        assert(l@.subrange(0, l.len() as int) == l@);
        assert(pv[i as int] == l@);
        assert(line@ == strip_cr(pv[i as int]));
        out.push(line);
        assert(out@.map_values(|x: Vec<char>| x@) == before.push(line@));
        assert(pv.drop_last().take(i as int + 1) == pv.drop_last().take(i as int).push(pv[i as int]));
        assert(out@.map_values(|x: Vec<char>| x@) =~= pv.drop_last().take(i as int + 1).map_values(
            |l: Seq<char>| strip_cr(l),
        ));
        i += 1;
    }
    assert(pv.drop_last().take(i as int) == pv.drop_last());
    let last = &parts[n - 1];
    if last.len() > 0 {
        let ghost before = out@.map_values(|x: Vec<char>| x@);
        out.push(crate::text::slice_of(last.as_slice(), 0, last.len()));
        assert(last@.subrange(0, last.len() as int) == last@);
        assert(out@.map_values(|x: Vec<char>| x@) == before.push(pv.last()));
    }
    out
}

/// The text cut at each white-space character, empty pieces included.
pub open spec fn ws_pieces(s: Seq<char>) -> Seq<Seq<char>>
    decreases s.len(),
{
    if s.len() == 0 {
        seq![Seq::empty()]
    } else {
        let p = ws_pieces(s.drop_last());
        if crate::text::is_ws(s.last()) {
            p.push(Seq::empty())
        } else {
            p.update(p.len() - 1, p.last().push(s.last()))
        }
    }
}

/// The non-empty pieces, in order.
pub open spec fn non_empty(ps: Seq<Seq<char>>) -> Seq<Seq<char>>
    decreases ps.len(),
{
    if ps.len() == 0 {
        seq![]
    } else {
        let k = non_empty(ps.drop_last());
        if ps.last().len() > 0 {
            k.push(ps.last())
        } else {
            k
        }
    }
}

/// `str::split_whitespace`: the words of the text.
pub open spec fn split_ws(s: Seq<char>) -> Seq<Seq<char>> {
    non_empty(ws_pieces(s))
}

/// The words of `s`.
pub fn split_whitespace_chars(s: &[char]) -> (r: Vec<Vec<char>>)
    ensures
        r@.map_values(|x: Vec<char>| x@) == split_ws(s@),
{
    let mut parts: Vec<Vec<char>> = Vec::new();
    let mut cur: Vec<char> = Vec::new();
    let mut i: usize = 0;
    let ghost mut done: Seq<Seq<char>> = Seq::empty();
    assert(s@.take(0) == Seq::<char>::empty());
    while i < s.len()
        invariant
            i <= s.len(),
            ws_pieces(s@.take(i as int)) == done.push(cur@),
            parts@.map_values(|x: Vec<char>| x@) == non_empty(done),
        decreases s.len() - i,
    {
        assert(s@.take(i + 1).drop_last() == s@.take(i as int));
        let c = s[i];
        if crate::text::is_ws_char(c) {
            let ghost before = parts@;
            if cur.len() > 0 {
                parts.push(cur);
                assert(parts@.map_values(|x: Vec<char>| x@) == before.map_values(|x: Vec<char>| x@).push(cur@));
            }
            assert(done.push(cur@).drop_last() == done);
            proof {
                done = done.push(cur@);
            }
            cur = Vec::new();
        } else {
            cur.push(c);
        }
        i += 1;
    }
    assert(s@.take(s.len() as int) == s@);
    let ghost before = parts@;
    if cur.len() > 0 {
        parts.push(cur);
        assert(parts@.map_values(|x: Vec<char>| x@) == before.map_values(|x: Vec<char>| x@).push(cur@));
    }
    assert(done.push(cur@).drop_last() == done);
    parts
}

/// The first candidate found to be present (`present[i]` telling whether
/// the `i`-th is).
pub open spec fn first_present_of(cands: Seq<Seq<char>>, present: Seq<bool>) -> Option<Seq<char>>
    decreases cands.len(),
{
    if cands.len() == 0 || present.len() == 0 {
        None
    } else if present[0] {
        Some(cands[0])
    } else {
        first_present_of(cands.skip(1), present.skip(1))
    }
}

/// The first of the candidate directories that exists (`present[i]`
/// telling whether the `i`-th does).
pub fn first_present(cands: &[String], present: &[bool]) -> (r: Option<String>)
    requires
        cands.len() == present.len(),
    ensures
        match r {
            Some(c) => first_present_of(cands@.map_values(|x: String| x@), present@) == Some(c@),
            None => first_present_of(cands@.map_values(|x: String| x@), present@) is None,
        },
{
    let ghost cs = cands@.map_values(|x: String| x@);
    let mut i: usize = 0;
    assert(cs.skip(0) == cs && present@.skip(0) == present@);
    while i < cands.len()
        invariant
            i <= cands.len(),
            cands.len() == present.len(),
            cs == cands@.map_values(|x: String| x@),
            first_present_of(cs, present@) == first_present_of(cs.skip(i as int), present@.skip(i as int)),
        decreases cands.len() - i,
    {
        assert(cs.skip(i as int).skip(1) == cs.skip(i as int + 1));
        assert(present@.skip(i as int).skip(1) == present@.skip(i as int + 1));
        assert(cs.skip(i as int)[0] == cands@[i as int]@);
        assert(present@.skip(i as int)[0] == present@[i as int]);
        if present[i] {
            return Some(cands[i].clone());
        }
        i += 1;
    }
    None
}


/// Where a program is found: what `which` printed, trimmed, when that is
/// not blank; else the first of the candidate paths that exists.
pub open spec fn located(which: Option<Seq<char>>, cands: Seq<Seq<char>>, present: Seq<bool>) -> Option<Seq<char>> {
    match which {
        Some(w) if trim(w).len() > 0 => Some(trim(w)),
        _ => first_present_of(cands, present),
    }
}

/// The optional text of an optional string reference.
pub open spec fn opt_str(s: Option<&str>) -> Option<Seq<char>> {
    match s {
        Some(t) => Some(t@),
        None => None,
    }
}

/// Finds a program from the output of `which` (when it succeeded) and
/// from which of the candidate paths exist (`present[i]` for the `i`-th).
pub fn locate_program(which_output: Option<&str>, cands: &[String], present: &[bool]) -> (r: Option<String>)
    requires
        cands.len() == present.len(),
    ensures
        opt_string(r) == located(opt_str(which_output), cands@.map_values(|x: String| x@), present@),
{
    match which_output {
        Some(w) => {
            let wc = chars_of(w);
            let t = trim_chars(wc.as_slice());
            if t.len() > 0 {
                return Some(string_of(t.as_slice()));
            }
        },
        None => {},
    }
    first_present(cands, present)
}

/// The text an optional string holds.
pub open spec fn opt_string(v: Option<String>) -> Option<Seq<char>> {
    match v {
        Some(s) => Some(s@),
        None => None,
    }
}


/// Whether a path begins with a `.` part that `Path::components` keeps
/// (`.` alone, or `./` at the front of a relative path).
pub open spec fn leads_with_dot(p: Seq<char>) -> bool {
    p.len() > 0 && p[0] == '.' && (p.len() == 1 || p[1] == '/')
}

/// `Path::components`, each component as text: `/` for the root, `.` for
/// a leading current-directory part, then the named parts (`..` among
/// them). Two paths are equal as `Path`s when these are equal.
pub open spec fn components(p: Seq<char>) -> Seq<Seq<char>> {
    let head: Seq<Seq<char>> = if p.len() > 0 && p[0] == '/' {
        seq!["/"@]
    } else if leads_with_dot(p) {
        seq!["."@]
    } else {
        Seq::empty()
    };
    head + keep_names(split_on(p, '/'))
}

/// `Path == Path`: the same components.
pub open spec fn same_path(a: Seq<char>, b: Seq<char>) -> bool {
    components(a) == components(b)
}

/// `Path::starts_with`: the components of `base` begin those of `p`.
pub open spec fn path_starts_with(p: Seq<char>, base: Seq<char>) -> bool {
    let c = components(p);
    let b = components(base);
    b.len() <= c.len() && c.take(b.len() as int) == b
}

/// The components of a path.
pub fn components_of(p: &str) -> (r: Vec<Vec<char>>)
    ensures
        r@.map_values(|x: Vec<char>| x@) == components(p@),
{
    let pc = chars_of(p);
    let names = name_parts(pc.as_slice());
    let mut out: Vec<Vec<char>> = Vec::new();
    if pc.len() > 0 && pc[0] == '/' {
        out.push(chars_of("/"));
    } else if pc.len() > 0 && pc[0] == '.' && (pc.len() == 1 || pc[1] == '/') {
        out.push(chars_of("."));
    }
    let ghost head = out@.map_values(|x: Vec<char>| x@);
    let mut i: usize = 0;
    while i < names.len()
        invariant
            i <= names.len(),
            out@.map_values(|x: Vec<char>| x@) == head + names@.map_values(|x: Vec<char>| x@).take(i as int),
        decreases names.len() - i,
    {
        let ghost before = out@.map_values(|x: Vec<char>| x@);
        out.push(names[i].clone());
        assert(out@.map_values(|x: Vec<char>| x@) == before.push(names@[i as int]@));
        assert(names@.map_values(|x: Vec<char>| x@).take(i + 1) == names@.map_values(|x: Vec<char>| x@).take(
            i as int,
        ).push(names@[i as int]@));
        i += 1;
    }
    assert(names@.map_values(|x: Vec<char>| x@).take(names.len() as int) == names@.map_values(|x: Vec<char>| x@));
    out
}

fn parts_prefix(c: &Vec<Vec<char>>, b: &Vec<Vec<char>>) -> (r: bool)
    ensures
        r == (b@.len() <= c@.len() && c@.map_values(|x: Vec<char>| x@).take(b@.len() as int) == b@.map_values(
            |x: Vec<char>| x@,
        )),
{
    let ghost cv = c@.map_values(|x: Vec<char>| x@);
    let ghost bv = b@.map_values(|x: Vec<char>| x@);
    if b.len() > c.len() {
        return false;
    }
    let mut i: usize = 0;
    while i < b.len()
        invariant
            i <= b.len() <= c.len(),
            cv == c@.map_values(|x: Vec<char>| x@),
            bv == b@.map_values(|x: Vec<char>| x@),
            cv.take(i as int) == bv.take(i as int),
        decreases b.len() - i,
    {
        if !crate::steam_workshop::eq_chars(c[i].as_slice(), b[i].as_slice()) {
            assert(cv.take(b.len() as int)[i as int] != bv[i as int]);
            return false;
        }
        assert(cv.take(i + 1) == cv.take(i as int).push(cv[i as int]));
        assert(bv.take(i + 1) == bv.take(i as int).push(bv[i as int]));
        i += 1;
    }
    assert(bv.take(b.len() as int) == bv);
    true
}

/// Whether two paths are equal as `Path`s.
pub fn same_path_of(a: &str, b: &str) -> (r: bool)
    ensures
        r == same_path(a@, b@),
{
    let ca = components_of(a);
    let cb = components_of(b);
    let r = ca.len() == cb.len() && parts_prefix(&ca, &cb);
    proof {
        let av = ca@.map_values(|x: Vec<char>| x@);
        let bv = cb@.map_values(|x: Vec<char>| x@);
        if ca.len() == cb.len() {
            assert(av.take(bv.len() as int) == av);
        }
        assert(av.len() == ca@.len() && bv.len() == cb@.len());
    }
    r
}

/// Whether `p` starts with the components of `base`.
pub fn path_starts_with_of(p: &str, base: &str) -> (r: bool)
    ensures
        r == path_starts_with(p@, base@),
{
    let cp = components_of(p);
    let cb = components_of(base);
    parts_prefix(&cp, &cb)
}

} // verus!
