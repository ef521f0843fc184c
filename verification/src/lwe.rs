//! Reading the property listing printed by linux-wallpaperengine.
use vstd::prelude::*;
use crate::text::{chars_of, eq_str, find, find_chars, lemma_found, slice_of, starts_with, string_of, trim, trim_chars};

verus! {

broadcast use vstd::string::group_string_axioms;

/// Kind of a scene property.
#[derive(Debug, Clone, Copy, PartialEq, Eq)]
pub enum PropertyType {
    Slider,
    Boolean,
    Combolist,
    Color,
    Text,
    File,
    Unknown,
}

/// The kind a header names, if it names one.
pub open spec fn header_kind(t: Seq<char>) -> Option<PropertyType> {
    if t == "slider"@ {
        Some(PropertyType::Slider)
    } else if t == "boolean"@ {
        Some(PropertyType::Boolean)
    } else if t == "combo"@ || t == "combolist"@ {
        Some(PropertyType::Combolist)
    } else if t == "color"@ {
        Some(PropertyType::Color)
    } else if t == "file"@ {
        Some(PropertyType::File)
    } else if t == "text"@ {
        Some(PropertyType::Text)
    } else {
        None
    }
}

/// A property header `name - kind`: the name before the first ` - `,
/// trimmed and not empty, and a known kind after it.
pub open spec fn header(t: Seq<char>) -> Option<(Seq<char>, PropertyType)> {
    match find(t, " - "@) {
        None => None,
        Some(idx) => {
            let name = trim(t.take(idx));
            if name.len() == 0 {
                None
            } else {
                match header_kind(trim(t.skip(idx + 3))) {
                    Some(k) => Some((name, k)),
                    None => None,
                }
            }
        },
    }
}

/// Reads a property header line (already trimmed at the start).
pub fn parse_header(trimmed: &str) -> (r: Option<(String, PropertyType)>)
    ensures
        match r {
            Some((n, k)) => header(trimmed@) == Some((n@, k)),
            None => header(trimmed@) is None,
        },
{
    let t = chars_of(trimmed);
    let sep = chars_of(" - ");
    proof {
        reveal_strlit(" - ");
    }
    assert(sep@.len() == 3);
    let idx = match find_chars(t.as_slice(), sep.as_slice(), 0) {
        Some(i) => i,
        None => return None,
    };
    proof {
        lemma_found(t@, sep@, 0, idx as int);
    }
    assert(t@.len() == t.len());
    let head = slice_of(t.as_slice(), 0, idx);
    assert(head@ == t@.take(idx as int));
    let name = trim_chars(head.as_slice());
    if name.len() == 0 {
        return None;
    }
    let tail = slice_of(t.as_slice(), idx + 3, t.len());
    assert(tail@ == t@.skip(idx + 3));
    let k = trim_chars(tail.as_slice());
    let ks = k.as_slice();
    let kind = if eq_str(ks, "slider") {
        PropertyType::Slider
    } else if eq_str(ks, "boolean") {
        PropertyType::Boolean
    } else if eq_str(ks, "combo") || eq_str(ks, "combolist") {
        PropertyType::Combolist
    } else if eq_str(ks, "color") {
        PropertyType::Color
    } else if eq_str(ks, "file") {
        PropertyType::File
    } else if eq_str(ks, "text") {
        PropertyType::Text
    } else {
        return None;
    };
    Some((string_of(name.as_slice()), kind))
}

/// What follows `key:` at the start of `line`.
pub open spec fn after_key(line: Seq<char>, key: Seq<char>) -> Option<Seq<char>> {
    let prefix = key.push(':');
    if starts_with(line, prefix) {
        Some(line.skip(prefix.len() as int))
    } else {
        None
    }
}

/// The rest of `line` after `key:`, when it starts so.
pub fn strip_key(line: &str, key: &str) -> (r: Option<String>)
    ensures
        match r {
            Some(v) => after_key(line@, key@) == Some(v@),
            None => after_key(line@, key@) is None,
        },
{
    let l = chars_of(line);
    let mut prefix = chars_of(key);
    prefix.push(':');
    if crate::text::starts_with_chars(l.as_slice(), prefix.as_slice()) {
        let rest = slice_of(l.as_slice(), prefix.len(), l.len());
        assert(rest@ == l@.skip(prefix@.len() as int));
        Some(string_of(rest.as_slice()))
    } else {
        None
    }
}

/// A choice of a combo property, as (stored value, shown text): either
/// `stored = shown` or `shown -> stored`, both sides trimmed and not
/// empty; the first form is tried first.
pub open spec fn option_line(line: Seq<char>) -> Option<(Seq<char>, Seq<char>)> {
    let first: Option<(Seq<char>, Seq<char>)> = match find(line, " = "@) {
        Some(idx) => {
            let stored = trim(line.take(idx));
            let display = trim(line.skip(idx + 3));
            if stored.len() > 0 && display.len() > 0 {
                Some((stored, display))
            } else {
                None
            }
        },
        None => None,
    };
    if first is Some {
        first
    } else {
        match find(line, " -> "@) {
            Some(idx) => {
                let display = trim(line.take(idx));
                let stored = trim(line.skip(idx + 4));
                if stored.len() > 0 && display.len() > 0 {
                    Some((stored, display))
                } else {
                    None
                }
            },
            None => None,
        }
    }
}

/// Reads a choice line of a combo property.
pub fn parse_option_line(line: &str) -> (r: Option<(String, String)>)
    ensures
        match r {
            Some((stored, display)) => option_line(line@) == Some((stored@, display@)),
            None => option_line(line@) is None,
        },
{
    let l = chars_of(line);
    assert(l@.len() == l.len());
    let eq = chars_of(" = ");
    let arrow = chars_of(" -> ");
    proof {
        reveal_strlit(" = ");
        reveal_strlit(" -> ");
    }
    assert(eq@.len() == 3 && arrow@.len() == 4);
    match find_chars(l.as_slice(), eq.as_slice(), 0) {
        Some(idx) => {
            proof {
                lemma_found(l@, eq@, 0, idx as int);
            }
            assert(idx + eq@.len() <= l@.len());
            let a = slice_of(l.as_slice(), 0, idx);
            let b = slice_of(l.as_slice(), idx + 3, l.len());
            assert(a@ == l@.take(idx as int));
            assert(b@ == l@.skip(idx + 3));
            let stored = trim_chars(a.as_slice());
            let display = trim_chars(b.as_slice());
            if stored.len() > 0 && display.len() > 0 {
                return Some((string_of(stored.as_slice()), string_of(display.as_slice())));
            }
        },
        None => {},
    }
    match find_chars(l.as_slice(), arrow.as_slice(), 0) {
        Some(idx) => {
            proof {
                lemma_found(l@, arrow@, 0, idx as int);
            }
            let a = slice_of(l.as_slice(), 0, idx);
            let b = slice_of(l.as_slice(), idx + 4, l.len());
            assert(a@ == l@.take(idx as int));
            assert(b@ == l@.skip(idx + 4));
            let display = trim_chars(a.as_slice());
            let stored = trim_chars(b.as_slice());
            if stored.len() > 0 && display.len() > 0 {
                return Some((string_of(stored.as_slice()), string_of(display.as_slice())));
            }
            None
        },
        None => None,
    }
}

/// Where the linux-wallpaperengine program is looked for after `which`,
/// below the home directory `home` and in the system directories.
pub open spec fn lwe_candidates(home: Seq<char>) -> Seq<Seq<char>> {
    seq![
        crate::paths::join(crate::paths::join(crate::paths::join(home, ".local"@), "bin"@), "linux-wallpaperengine"@),
        "/usr/bin/linux-wallpaperengine"@,
        "/usr/local/bin/linux-wallpaperengine"@,
        "/bin/linux-wallpaperengine"@,
    ]
}

/// The places linux-wallpaperengine is looked for after `which`.
pub fn lwe_candidate_paths(home: &str) -> (r: Vec<String>)
    ensures
        r@.map_values(|x: String| x@) == lwe_candidates(home@),
{
    let a = crate::paths::join_path(home, ".local");
    let b = crate::paths::join_path(a.as_str(), "bin");
    let mut v: Vec<String> = Vec::new();
    v.push(crate::paths::join_path(b.as_str(), "linux-wallpaperengine"));
    v.push("/usr/bin/linux-wallpaperengine".to_string());
    v.push("/usr/local/bin/linux-wallpaperengine".to_string());
    v.push("/bin/linux-wallpaperengine".to_string());
    assert(v@.map_values(|x: String| x@) =~= lwe_candidates(home@));
    v
}

// ---------------------------------------------------------------------------
// The property listing
// ---------------------------------------------------------------------------

/// A scene property as listed. The bounds are kept as the text that
/// follows their key (trimmed); reading them as numbers is left to the
/// caller.
#[derive(Debug, Clone, PartialEq)]
pub struct LweProperty {
    pub name: String,
    pub prop_type: PropertyType,
    pub description: String,
    pub value: String,
    pub min: Option<String>,
    pub max: Option<String>,
    pub step: Option<String>,
    /// Choices as (shown text, stored value).
    pub options: Vec<(String, String)>,
}

/// A property as plain values.
pub ghost struct PropView {
    pub name: Seq<char>,
    pub prop_type: PropertyType,
    pub description: Seq<char>,
    pub value: Seq<char>,
    pub min: Option<Seq<char>>,
    pub max: Option<Seq<char>>,
    pub step: Option<Seq<char>>,
    pub options: Seq<(Seq<char>, Seq<char>)>,
}

pub open spec fn opt_text(o: Option<String>) -> Option<Seq<char>> {
    match o {
        Some(s) => Some(s@),
        None => None,
    }
}

pub open spec fn prop_view(p: LweProperty) -> PropView {
    PropView {
        name: p.name@,
        prop_type: p.prop_type,
        description: p.description@,
        value: p.value@,
        min: opt_text(p.min),
        max: opt_text(p.max),
        step: opt_text(p.step),
        options: p.options@.map_values(|o: (String, String)| (o.0@, o.1@)),
    }
}

/// `s` without its leading tabs and spaces.
pub open spec fn skip_indent(s: Seq<char>) -> Seq<char>
    decreases s.len(),
{
    if s.len() > 0 && (s[0] == '\t' || s[0] == ' ') {
        skip_indent(s.skip(1))
    } else {
        s
    }
}

/// What a line of the listing says once its trailing white space and
/// leading indentation are dropped.
pub open spec fn listing_text(raw: Seq<char>) -> Seq<char> {
    skip_indent(crate::text::trim_end(raw))
}

/// The first of two keys that `t` starts with, and what follows it.
pub open spec fn either_key(t: Seq<char>, a: Seq<char>, b: Seq<char>) -> Option<Seq<char>> {
    match after_key(t, a) {
        Some(v) => Some(v),
        None => after_key(t, b),
    }
}

/// One line of the listing applied to the property being read, `colour`
/// being the colour the line spells out (for an `R:` line whose four
/// components read as numbers).
pub open spec fn apply_line(p: PropView, t: Seq<char>, colour: Option<Seq<char>>) -> PropView {
    if t.len() == 0 {
        p
    } else if let Some(v) = either_key(t, "Text"@, "Description"@) {
        PropView { description: trim(v), ..p }
    } else if let Some(v) = after_key(t, "Value"@) {
        PropView { value: trim(v), ..p }
    } else if let Some(v) = either_key(t, "Min"@, "Minimum value"@) {
        PropView { min: Some(trim(v)), ..p }
    } else if let Some(v) = either_key(t, "Max"@, "Maximum value"@) {
        PropView { max: Some(trim(v)), ..p }
    } else if let Some(v) = after_key(t, "Step"@) {
        PropView { step: Some(trim(v)), ..p }
    } else if t == "Values"@ || starts_with(t, "Posible values"@) || starts_with(t, "Possible values"@) {
        p
    } else if p.prop_type == PropertyType::Color && starts_with(t, "R:"@) {
        match colour {
            Some(c) => PropView { value: c, ..p },
            None => p,
        }
    } else {
        match option_line(t) {
            Some((stored, display)) => PropView { options: p.options.push((display, stored)), ..p },
            None => p,
        }
    }
}

proof fn lemma_key_match(key: Seq<char>, x: Seq<char>)
    ensures
        after_key(key.push(':') + x, key) == Some(x),
{
    let pre = key.push(':');
    assert((pre + x).subrange(0, pre.len() as int) =~= pre);
    assert((pre + x).skip(pre.len() as int) =~= x);
}

proof fn lemma_key_mismatch(t: Seq<char>, key: Seq<char>, i: int)
    requires
        0 <= i <= key.len(),
        i < t.len(),
        t[i] != key.push(':')[i],
    ensures
        after_key(t, key) is None,
{
    if starts_with(t, key.push(':')) {
        assert(t.subrange(0, key.len() as int + 1)[i] == t[i]);
    }
}

/// Under a property header, each keyed line sets its own field to the
/// trimmed rest of the line and leaves the rest of the property as it
/// was: `Text:` and `Description:` the description, `Value:` the value,
/// `Min:` and `Minimum value:` the minimum, `Max:` and `Maximum value:`
/// the maximum, `Step:` the step.
pub proof fn law_keyed_lines_set_their_field(p: PropView, x: Seq<char>, colour: Option<Seq<char>>)
    ensures
        apply_line(p, "Description:"@ + x, colour) == (PropView { description: trim(x), ..p }),
        apply_line(p, "Text:"@ + x, colour) == (PropView { description: trim(x), ..p }),
        apply_line(p, "Value:"@ + x, colour) == (PropView { value: trim(x), ..p }),
        apply_line(p, "Min:"@ + x, colour) == (PropView { min: Some(trim(x)), ..p }),
        apply_line(p, "Minimum value:"@ + x, colour) == (PropView { min: Some(trim(x)), ..p }),
        apply_line(p, "Max:"@ + x, colour) == (PropView { max: Some(trim(x)), ..p }),
        apply_line(p, "Maximum value:"@ + x, colour) == (PropView { max: Some(trim(x)), ..p }),
        apply_line(p, "Step:"@ + x, colour) == (PropView { step: Some(trim(x)), ..p }),
{
    reveal_strlit("Text");
    reveal_strlit("Description");
    reveal_strlit("Value");
    reveal_strlit("Min");
    reveal_strlit("Minimum value");
    reveal_strlit("Max");
    reveal_strlit("Maximum value");
    reveal_strlit("Step");
    reveal_strlit("Text:");
    reveal_strlit("Description:");
    reveal_strlit("Value:");
    reveal_strlit("Min:");
    reveal_strlit("Minimum value:");
    reveal_strlit("Max:");
    reveal_strlit("Maximum value:");
    reveal_strlit("Step:");
    assert("Text"@.push(':') =~= "Text:"@);
    assert("Description"@.push(':') =~= "Description:"@);
    assert("Value"@.push(':') =~= "Value:"@);
    assert("Min"@.push(':') =~= "Min:"@);
    assert("Minimum value"@.push(':') =~= "Minimum value:"@);
    assert("Max"@.push(':') =~= "Max:"@);
    assert("Maximum value"@.push(':') =~= "Maximum value:"@);
    assert("Step"@.push(':') =~= "Step:"@);

    let t = "Text:"@ + x;
    lemma_key_match("Text"@, x);

    let t = "Description:"@ + x;
    lemma_key_mismatch(t, "Text"@, 0);
    lemma_key_match("Description"@, x);

    let t = "Value:"@ + x;
    lemma_key_mismatch(t, "Text"@, 0);
    lemma_key_mismatch(t, "Description"@, 0);
    lemma_key_match("Value"@, x);

    let t = "Min:"@ + x;
    lemma_key_mismatch(t, "Text"@, 0);
    lemma_key_mismatch(t, "Description"@, 0);
    lemma_key_mismatch(t, "Value"@, 0);
    lemma_key_match("Min"@, x);

    let t = "Minimum value:"@ + x;
    lemma_key_mismatch(t, "Text"@, 0);
    lemma_key_mismatch(t, "Description"@, 0);
    lemma_key_mismatch(t, "Value"@, 0);
    lemma_key_mismatch(t, "Min"@, 3);
    lemma_key_match("Minimum value"@, x);

    let t = "Max:"@ + x;
    lemma_key_mismatch(t, "Text"@, 0);
    lemma_key_mismatch(t, "Description"@, 0);
    lemma_key_mismatch(t, "Value"@, 0);
    lemma_key_mismatch(t, "Min"@, 1);
    lemma_key_mismatch(t, "Minimum value"@, 1);
    lemma_key_match("Max"@, x);

    let t = "Maximum value:"@ + x;
    lemma_key_mismatch(t, "Text"@, 0);
    lemma_key_mismatch(t, "Description"@, 0);
    lemma_key_mismatch(t, "Value"@, 0);
    lemma_key_mismatch(t, "Min"@, 1);
    lemma_key_mismatch(t, "Minimum value"@, 1);
    lemma_key_mismatch(t, "Max"@, 3);
    lemma_key_match("Maximum value"@, x);

    let t = "Step:"@ + x;
    lemma_key_mismatch(t, "Text"@, 0);
    lemma_key_mismatch(t, "Description"@, 0);
    lemma_key_mismatch(t, "Value"@, 0);
    lemma_key_mismatch(t, "Min"@, 0);
    lemma_key_mismatch(t, "Minimum value"@, 0);
    lemma_key_mismatch(t, "Max"@, 0);
    lemma_key_mismatch(t, "Maximum value"@, 0);
    lemma_key_match("Step"@, x);
}

/// A property just named by its header.
pub open spec fn fresh_prop(name: Seq<char>, k: PropertyType) -> PropView {
    PropView {
        name,
        prop_type: k,
        description: seq![],
        value: seq![],
        min: None,
        max: None,
        step: None,
        options: seq![],
    }
}

/// The properties read so far and the one being read.
pub type ListingState = (Seq<PropView>, Option<PropView>);

/// One line of the listing: a header ends the property being read and
/// starts another; other lines before the first header are ignored.
pub open spec fn listing_step(st: ListingState, raw: Seq<char>, colour: Option<Seq<char>>) -> ListingState {
    let t = listing_text(raw);
    match header(t) {
        Some((name, k)) => (
            match st.1 {
                Some(c) => st.0.push(c),
                None => st.0,
            },
            Some(fresh_prop(name, k)),
        ),
        None => match st.1 {
            None => st,
            Some(c) => (st.0, Some(apply_line(c, t, colour))),
        },
    }
}

/// The state after the lines.
pub open spec fn listing_run(lines: Seq<Seq<char>>, colours: Seq<Option<Seq<char>>>) -> ListingState
    decreases lines.len(),
{
    if lines.len() == 0 {
        (seq![], None)
    } else {
        listing_step(listing_run(lines.drop_last(), colours.drop_last()), lines.last(), colours.last())
    }
}

/// The properties of a listing.
pub open spec fn listing_props(lines: Seq<Seq<char>>, colours: Seq<Option<Seq<char>>>) -> Seq<PropView> {
    let st = listing_run(lines, colours);
    match st.1 {
        Some(c) => st.0.push(c),
        None => st.0,
    }
}

fn trim_end_chars(s: &[char]) -> (r: Vec<char>)
    ensures
        r@ == crate::text::trim_end(s@),
{
    let mut hi = s.len();
    assert(s@.subrange(0, hi as int) == s@);
    while hi > 0 && crate::text::is_ws_char(s[hi - 1])
        invariant
            hi <= s.len(),
            crate::text::trim_end(s@) == crate::text::trim_end(s@.subrange(0, hi as int)),
        decreases hi,
    {
        assert(s@.subrange(0, hi as int).drop_last() == s@.subrange(0, hi - 1));
        hi -= 1;
    }
    slice_of(s, 0, hi)
}

fn skip_indent_chars(s: &[char]) -> (r: Vec<char>)
    ensures
        r@ == skip_indent(s@),
{
    let mut lo: usize = 0;
    assert(s@.skip(0) == s@);
    while lo < s.len() && (s[lo] == '\t' || s[lo] == ' ')
        invariant
            lo <= s.len(),
            skip_indent(s@) == skip_indent(s@.skip(lo as int)),
        decreases s.len() - lo,
    {
        assert(s@.skip(lo as int).skip(1) == s@.skip(lo as int + 1));
        lo += 1;
    }
    let r = slice_of(s, lo, s.len());
    assert(r@ == s@.skip(lo as int));
    r
}

fn either_key_exec(t: &str, a: &str, b: &str) -> (r: Option<String>)
    ensures
        opt_text(r) == either_key(t@, a@, b@),
{
    match strip_key(t, a) {
        Some(v) => Some(v),
        None => strip_key(t, b),
    }
}

fn trimmed(v: &String) -> (r: String)
    ensures
        r@ == trim(v@),
{
    let c = chars_of(v.as_str());
    string_of(trim_chars(c.as_slice()).as_slice())
}

fn apply_line_exec(p: &mut LweProperty, t: &str, colour: &Option<String>)
    ensures
        prop_view(*final(p)) == apply_line(prop_view(*old(p)), t@, opt_text(*colour)),
{
    let ghost pv = prop_view(*p);
    if t.is_empty() {
        return;
    }
    match either_key_exec(t, "Text", "Description") {
        Some(v) => {
            p.description = trimmed(&v);
            return;
        },
        None => {},
    }
    match strip_key(t, "Value") {
        Some(v) => {
            p.value = trimmed(&v);
            return;
        },
        None => {},
    }
    match either_key_exec(t, "Min", "Minimum value") {
        Some(v) => {
            p.min = Some(trimmed(&v));
            return;
        },
        None => {},
    }
    match either_key_exec(t, "Max", "Maximum value") {
        Some(v) => {
            p.max = Some(trimmed(&v));
            return;
        },
        None => {},
    }
    match strip_key(t, "Step") {
        Some(v) => {
            p.step = Some(trimmed(&v));
            return;
        },
        None => {},
    }
    let tc = chars_of(t);
    if eq_str(tc.as_slice(), "Values") || crate::text::starts_with_str(tc.as_slice(), "Posible values")
        || crate::text::starts_with_str(tc.as_slice(), "Possible values") {
        return;
    }
    let is_colour = match p.prop_type {
        PropertyType::Color => true,
        _ => false,
    };
    if is_colour && crate::text::starts_with_str(tc.as_slice(), "R:") {
        match colour {
            Some(c) => {
                p.value = c.clone();
            },
            None => {},
        }
        return;
    }
    match parse_option_line(t) {
        Some((stored, display)) => {
            let ghost before = p.options@;
            p.options.push((display, stored));
            assert(p.options@.map_values(|o: (String, String)| (o.0@, o.1@)) =~= before.map_values(
                |o: (String, String)| (o.0@, o.1@),
            ).push((display@, stored@)));
        },
        None => {},
    }
}

fn finish_prop(props: &mut Vec<LweProperty>, cur: &mut Option<LweProperty>, Ghost(done): Ghost<Seq<PropView>>)
    requires
        old(props)@.map_values(|p: LweProperty| prop_view(p)) == done,
    ensures
        final(props)@.map_values(|p: LweProperty| prop_view(p)) == match *old(cur) {
            Some(c) => done.push(prop_view(c)),
            None => done,
        },
        *final(cur) is None,
{
    let mut taken: Option<LweProperty> = None;
    std::mem::swap(&mut taken, cur);
    match taken {
        Some(c) => {
            let ghost before = props@;
            props.push(c);
            assert(props@.map_values(|p: LweProperty| prop_view(p)) =~= before.map_values(
                |p: LweProperty| prop_view(p),
            ).push(prop_view(c)));
        },
        None => {},
    }
}

/// Reads the properties printed by `linux-wallpaperengine
/// --list-properties`; `colours[i]` is the colour spelled out on the
/// `i`-th line of `output` (as `r, g, b, a` with six decimals), when it
/// is an `R:` line whose four components read as numbers.
pub fn parse_properties(output: &str, colours: &[Option<String>]) -> (r: Vec<LweProperty>)
    requires
        colours.len() == crate::paths::text_lines(output@).len(),
    ensures
        r@.map_values(|p: LweProperty| prop_view(p)) == listing_props(
            crate::paths::text_lines(output@),
            colours@.map_values(|c: Option<String>| opt_text(c)),
        ),
{
    let lines = crate::paths::lines_of(output);
    let ghost lv = lines@.map_values(|x: Vec<char>| x@);
    let ghost cv = colours@.map_values(|c: Option<String>| opt_text(c));
    let mut props: Vec<LweProperty> = Vec::new();
    let mut cur: Option<LweProperty> = None;
    let ghost mut done: Seq<PropView> = seq![];
    let mut i: usize = 0;
    while i < lines.len()
        invariant
            i <= lines.len(),
            colours.len() == lines.len(),
            lv == lines@.map_values(|x: Vec<char>| x@),
            lv == crate::paths::text_lines(output@),
            cv == colours@.map_values(|c: Option<String>| opt_text(c)),
            props@.map_values(|p: LweProperty| prop_view(p)) == done,
            (done, match cur {
                Some(c) => Some(prop_view(c)),
                None => None,
            }) == listing_run(lv.take(i as int), cv.take(i as int)),
        decreases lines.len() - i,
    {
        assert(lv[i as int] == lines@[i as int]@);
        assert(lv.take(i as int + 1).drop_last() == lv.take(i as int));
        assert(cv.take(i as int + 1).drop_last() == cv.take(i as int));
        assert(cv[i as int] == opt_text(colours@[i as int]));
        let te = trim_end_chars(lines[i].as_slice());
        let tc = skip_indent_chars(te.as_slice());
        let t = string_of(tc.as_slice());
        match parse_header(t.as_str()) {
            Some((name, kind)) => {
                let ghost before = done;
                finish_prop(&mut props, &mut cur, Ghost(done));
                proof {
                    done = props@.map_values(|p: LweProperty| prop_view(p));
                }
                let fresh = LweProperty {
                    name,
                    prop_type: kind,
                    description: String::new(),
                    value: String::new(),
                    min: None,
                    max: None,
                    step: None,
                    options: Vec::new(),
                };
                assert(fresh.options@.map_values(|o: (String, String)| (o.0@, o.1@)) =~= Seq::<(Seq<char>, Seq<char>)>::empty());
                cur = Some(fresh);
            },
            None => {
                match &mut cur {
                    Some(c) => {
                        apply_line_exec(c, t.as_str(), &colours[i]);
                    },
                    None => {},
                }
            },
        }
        i += 1;
    }
    assert(lv.take(lines.len() as int) == lv);
    assert(cv.take(colours.len() as int) == cv);
    finish_prop(&mut props, &mut cur, Ghost(done));
    props
}

/// The linux-wallpaperengine program: what `which` printed (when it
/// succeeded), trimmed, when not blank; else the first of `candidates`
/// that exists (`present[i]` for the `i`-th).
pub fn find_binary(which_output: Option<&str>, candidates: &[String], present: &[bool]) -> (r: Option<String>)
    requires
        candidates.len() == present.len(),
    ensures
        crate::paths::opt_string(r) == crate::paths::located(
            crate::paths::opt_str(which_output),
            candidates@.map_values(|x: String| x@),
            present@,
        ),
{
    crate::paths::locate_program(which_output, candidates, present)
}

/// How a run of `linux-wallpaperengine --list-properties` went.
#[derive(Debug, Clone, PartialEq)]
pub enum LweRun {
    /// The program was not found.
    NotInstalled,
    /// The program could not be started, for the reason given.
    SpawnFailed(String),
    /// It ran and failed, with its exit status and error output.
    Failed { status: String, stderr: String },
    /// It ran and succeeded, with its output.
    Succeeded(String),
}

/// The arguments that list the properties of the wallpaper at `path`.
pub fn list_properties_args(path: &str) -> (r: Vec<String>)
    ensures
        r@.map_values(|x: String| x@) == seq!["--list-properties"@, path@],
{
    let mut v: Vec<String> = Vec::new();
    v.push("--list-properties".to_string());
    v.push(path.to_string());
    assert(v@.map_values(|x: String| x@) =~= seq!["--list-properties"@, path@]);
    v
}

/// What listing a wallpaper's properties gives for each way the run went:
/// the properties read from the output, or a message saying what failed.
pub open spec fn listing_error(run: LweRun) -> Option<Seq<char>> {
    match run {
        LweRun::NotInstalled => Some("linux-wallpaperengine binary not found. Please install linux-wallpaperengine."@),
        LweRun::SpawnFailed(e) => Some("Failed to run linux-wallpaperengine --list-properties: "@ + e@),
        LweRun::Failed { status, stderr } => Some(
            "linux-wallpaperengine --list-properties failed ("@ + status@ + "): "@ + trim(stderr@),
        ),
        LweRun::Succeeded(_) => None,
    }
}

/// The properties of a wallpaper, from how the listing run went;
/// `colours` as for `parse_properties` on the output.
pub fn list_properties(run: &LweRun, colours: &[Option<String>]) -> (r: Result<Vec<LweProperty>, String>)
    requires
        match run {
            LweRun::Succeeded(out) => colours.len() == crate::paths::text_lines(out@).len(),
            _ => true,
        },
    ensures
        match run {
            LweRun::Succeeded(out) => r matches Ok(props) && props@.map_values(|p: LweProperty| prop_view(p))
                == listing_props(
                crate::paths::text_lines(out@),
                colours@.map_values(|c: Option<String>| opt_text(c)),
            ),
            _ => r matches Err(m) && Some(m@) == listing_error(*run),
        },
{
    match run {
        LweRun::NotInstalled => Err(
            "linux-wallpaperengine binary not found. Please install linux-wallpaperengine.".to_string(),
        ),
        LweRun::SpawnFailed(e) => {
            let mut m = "Failed to run linux-wallpaperengine --list-properties: ".to_string();
            m.append(e.as_str());
            Err(m)
        },
        LweRun::Failed { status, stderr } => {
            let mut m = "linux-wallpaperengine --list-properties failed (".to_string();
            m.append(status.as_str());
            m.append("): ");
            m.append(string_of(trim_chars(chars_of(stderr.as_str()).as_slice()).as_slice()).as_str());
            Err(m)
        },
        LweRun::Succeeded(out) => Ok(parse_properties(out.as_str(), colours)),
    }
}

} // verus!
