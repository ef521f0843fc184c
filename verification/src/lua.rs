//! The settings rendered as a Lua script: each JSON value as a Lua
//! expression, tables indented two spaces per level.
use vstd::prelude::*;
use crate::config::{is_valid_lua_identifier, lua_identifier};
use crate::engine::{int_string, int_text};
use crate::json::{JsonNumber, JsonValue};
use crate::text::{decimal, decimal_string};

verus! {

broadcast use vstd::string::group_string_axioms;

/// What `format!("{:?}", s)` gives for the text `s`: the text quoted, with
/// escapes.
pub uninterp spec fn debug_quoted(s: Seq<char>) -> Seq<char>;

/// Printable ASCII other than `"` and `\`: what `Debug` for `str` writes
/// as the character itself.
pub open spec fn plain_debug_char(c: char) -> bool {
    ' ' <= c && c <= '~' && c != '"' && c != '\\'
}

/// `format!("{:?}", s)`: the text quoted, with the escapes of Rust's
/// `Debug` for `str` (`char::escape_debug`); a text of printable ASCII
/// without `"` or `\` is only put between double quotes.
#[verifier::external_body]
pub(crate) fn debug_quote(s: &str) -> (r: String)
    ensures
        r@ == debug_quoted(s@),
        (forall|i: int| 0 <= i < s@.len() ==> plain_debug_char(#[trigger] s@[i])) ==> r@ == seq!['"'] + s@ + seq!['"'],
{
    format!("{:?}", s)
}

/// Lexicographic order of texts by code point (the order of their UTF-8
/// bytes).
pub open spec fn text_less(a: Seq<char>, b: Seq<char>) -> bool
    decreases a.len(),
{
    if a.len() == 0 {
        b.len() > 0
    } else if b.len() == 0 {
        false
    } else if a[0] != b[0] {
        (a[0] as u32) < (b[0] as u32)
    } else {
        text_less(a.skip(1), b.skip(1))
    }
}

/// A JSON value as the parser gives it: object members in increasing order
/// of their names, at every depth.
pub open spec fn json_wf(v: JsonValue) -> bool
    decreases v, 0nat,
{
    match v {
        JsonValue::Array(a) => all_wf(a@, a@.len()),
        JsonValue::Object(o) => {
            &&& forall|i: int, j: int| 0 <= i < j < o@.len() ==> text_less(o@[i].0@, o@[j].0@)
            &&& members_wf(o@, o@.len())
        },
        _ => true,
    }
}

/// The first `k` elements are ordered values.
pub open spec fn all_wf(items: Seq<JsonValue>, k: nat) -> bool
    decreases items, k,
{
    if k == 0 || k > items.len() {
        true
    } else {
        all_wf(items, (k - 1) as nat) && json_wf(items[k - 1])
    }
}

/// The values of the first `k` members are ordered values.
pub open spec fn members_wf(entries: Seq<(String, JsonValue)>, k: nat) -> bool
    decreases entries, k,
{
    if k == 0 || k > entries.len() {
        true
    } else {
        members_wf(entries, (k - 1) as nat) && json_wf(entries[k - 1].1)
    }
}

/// Two spaces per level.
pub open spec fn indent_text(n: nat) -> Seq<char>
    decreases n,
{
    if n == 0 {
        seq![]
    } else {
        indent_text((n - 1) as nat) + "  "@
    }
}

/// The text of a number.
pub open spec fn number_text(n: JsonNumber) -> Seq<char> {
    match n {
        JsonNumber::PosInt(u) => decimal(u as nat),
        JsonNumber::NegInt(i) => int_text(i),
        JsonNumber::Float(t) => t@,
    }
}

/// A table key: bare when it is a Lua name, else quoted in brackets.
pub open spec fn lua_key(k: Seq<char>) -> Seq<char> {
    if lua_identifier(k) {
        k
    } else {
        "["@ + debug_quoted(k) + "]"@
    }
}

/// The lines of a table's entries, joined by `,\n`.
pub open spec fn join_entries(items: Seq<Seq<char>>) -> Seq<char>
    decreases items.len(),
{
    if items.len() == 0 {
        seq![]
    } else if items.len() == 1 {
        items[0]
    } else {
        join_entries(items.drop_last()) + ",\n"@ + items.last()
    }
}

/// A table: `{}` when empty, else its entries on lines of their own and
/// the closing brace at the table's own indentation.
pub open spec fn table_text(items: Seq<Seq<char>>, ind: nat) -> Seq<char> {
    if items.len() == 0 {
        "{}"@
    } else {
        "{\n"@ + join_entries(items) + "\n"@ + indent_text(ind) + "}"@
    }
}

/// The Lua expression of a JSON value at indentation level `ind`.
pub open spec fn lua_text(v: JsonValue, ind: nat) -> Seq<char>
    decreases v, 0nat,
{
    match v {
        JsonValue::Null => "nil"@,
        JsonValue::Bool(b) => if b {
            "true"@
        } else {
            "false"@
        },
        JsonValue::Number(n) => number_text(n),
        JsonValue::Str(s) => debug_quoted(s@),
        JsonValue::Array(a) => table_text(array_lines(a@, ind + 1, a@.len()), ind),
        JsonValue::Object(o) => table_text(object_lines(o@, ind + 1, o@.len()), ind),
    }
}

/// The lines of the first `k` elements of an array, at level `ind`.
pub open spec fn array_lines(items: Seq<JsonValue>, ind: nat, k: nat) -> Seq<Seq<char>>
    decreases items, k,
{
    if k == 0 || k > items.len() {
        seq![]
    } else {
        array_lines(items, ind, (k - 1) as nat).push(indent_text(ind) + lua_text(items[k - 1], ind))
    }
}

/// The lines of the first `k` members of an object, at level `ind`.
pub open spec fn object_lines(entries: Seq<(String, JsonValue)>, ind: nat, k: nat) -> Seq<Seq<char>>
    decreases entries, k,
{
    if k == 0 || k > entries.len() {
        seq![]
    } else {
        object_lines(entries, ind, (k - 1) as nat).push(
            indent_text(ind) + lua_key(entries[k - 1].0@) + " = "@ + lua_text(entries[k - 1].1, ind),
        )
    }
}

pub(crate) fn text_less_exec(a: &[char], b: &[char]) -> (r: bool)
    ensures
        r == text_less(a@, b@),
{
    let mut i: usize = 0;
    assert(a@.skip(0) == a@ && b@.skip(0) == b@);
    while i < a.len() && i < b.len() && a[i] == b[i]
        invariant
            i <= a.len(),
            i <= b.len(),
            text_less(a@, b@) == text_less(a@.skip(i as int), b@.skip(i as int)),
        decreases a.len() - i,
    {
        assert(a@.skip(i as int).skip(1) == a@.skip(i as int + 1));
        assert(b@.skip(i as int).skip(1) == b@.skip(i as int + 1));
        i += 1;
    }
    if i == a.len() {
        i < b.len()
    } else if i == b.len() {
        false
    } else {
        (a[i] as u32) < (b[i] as u32)
    }
}

/// Whether every object of `v` holds its members in increasing order of
/// their names.
pub fn json_is_ordered(v: &JsonValue) -> (r: bool)
    ensures
        r == json_wf(*v),
    decreases *v,
{
    match v {
        JsonValue::Array(a) => {
            let mut i: usize = 0;
            while i < a.len()
                invariant
                    i <= a.len(),
                    *v == JsonValue::Array(*a),
                    all_wf(a@, i as nat),
                decreases a.len() - i,
            {
                proof {
                    assert(decreases_to!(*v => (*v)->Array_0));
                    vstd::std_specs::vec::axiom_vec_index_decreases(*a, i as int);
                }
                if !json_is_ordered(&a[i]) {
                    proof {
                        if all_wf(a@, a@.len()) {
                            lemma_all_wf_prefix(a@, a@.len(), (i + 1) as nat);
                        }
                    }
                    return false;
                }
                i += 1;
            }
            true
        },
        JsonValue::Object(o) => {
            let mut i: usize = 0;
            while i < o.len()
                invariant
                    i <= o.len(),
                    *v == JsonValue::Object(*o),
                    members_wf(o@, i as nat),
                    forall|j: int, k: int| 0 <= j < k < o@.len() && k <= i ==> text_less(o@[j].0@, o@[k].0@),
                decreases o.len() - i,
            {
                proof {
                    assert(decreases_to!(*v => (*v)->Object_0));
                    vstd::std_specs::vec::axiom_vec_index_decreases(*o, i as int);
                    assert(decreases_to!(o[i as int] => o[i as int].1));
                }
                if !json_is_ordered(&o[i].1) {
                    proof {
                        if members_wf(o@, o@.len()) {
                            lemma_members_wf_prefix(o@, o@.len(), (i + 1) as nat);
                        }
                    }
                    return false;
                }
                if i + 1 < o.len() {
                    let ka = crate::text::chars_of(o[i].0.as_str());
                    let kb = crate::text::chars_of(o[i + 1].0.as_str());
                    if !text_less_exec(ka.as_slice(), kb.as_slice()) {
                        return false;
                    }
                    proof {
                        assert forall|j: int, k: int| 0 <= j < k < o@.len() && k <= i + 1 implies text_less(o@[j].0@, o@[k].0@) by {
                            if k == i + 1 && j < i {
                                lemma_text_less_trans(o@[j].0@, o@[i as int].0@, o@[k].0@);
                            }
                        }
                    }
                }
                i += 1;
            }
            true
        },
        _ => true,
    }
}

proof fn lemma_all_wf_prefix(items: Seq<JsonValue>, k: nat, m: nat)
    requires
        m <= k <= items.len(),
        all_wf(items, k),
    ensures
        all_wf(items, m),
    decreases k,
{
    if k > m {
        lemma_all_wf_prefix(items, (k - 1) as nat, m);
    }
}

proof fn lemma_members_wf_prefix(entries: Seq<(String, JsonValue)>, k: nat, m: nat)
    requires
        m <= k <= entries.len(),
        members_wf(entries, k),
    ensures
        members_wf(entries, m),
    decreases k,
{
    if k > m {
        lemma_members_wf_prefix(entries, (k - 1) as nat, m);
    }
}

pub(crate) proof fn lemma_text_less_trans(a: Seq<char>, b: Seq<char>, c: Seq<char>)
    requires
        text_less(a, b),
        text_less(b, c),
    ensures
        text_less(a, c),
    decreases a.len(),
{
    if a.len() > 0 && b.len() > 0 && c.len() > 0 && a[0] == b[0] && b[0] == c[0] {
        lemma_text_less_trans(a.skip(1), b.skip(1), c.skip(1));
    }
}

fn push_indent(out: &mut String, n: usize)
    ensures
        final(out)@ == old(out)@ + indent_text(n as nat),
{
    let mut i: usize = 0;
    while i < n
        invariant
            i <= n,
            out@ == old(out)@ + indent_text(i as nat),
        decreases n - i,
    {
        out.append("  ");
        i += 1;
        assert(indent_text(i as nat) == indent_text((i - 1) as nat) + "  "@);
    }
}

pub(crate) fn number_string(n: &JsonNumber) -> (r: String)
    ensures
        r@ == number_text(*n),
{
    match n {
        JsonNumber::PosInt(u) => decimal_string(*u),
        JsonNumber::NegInt(i) => int_string(*i),
        JsonNumber::Float(t) => t.clone(),
    }
}

proof fn lemma_join_step(items: Seq<Seq<char>>, x: Seq<char>)
    ensures
        join_entries(items.push(x)) == if items.len() == 0 { x } else { join_entries(items) + ",\n"@ + x },
{
    assert(items.push(x).drop_last() == items);
}

/// `v` nests tables at most `d` levels deep.
pub open spec fn nests_within(v: JsonValue, d: nat) -> bool
    decreases v, 0nat,
{
    match v {
        JsonValue::Array(a) => a@.len() == 0 || (d > 0 && all_within(a@, (d - 1) as nat, a@.len())),
        JsonValue::Object(o) => o@.len() == 0 || (d > 0 && members_within(o@, (d - 1) as nat, o@.len())),
        _ => true,
    }
}

/// The first `k` elements nest at most `d` levels deep.
pub open spec fn all_within(items: Seq<JsonValue>, d: nat, k: nat) -> bool
    decreases items, k,
{
    if k == 0 || k > items.len() {
        true
    } else {
        all_within(items, d, (k - 1) as nat) && nests_within(items[k - 1], d)
    }
}

/// The values of the first `k` members nest at most `d` levels deep.
pub open spec fn members_within(entries: Seq<(String, JsonValue)>, d: nat, k: nat) -> bool
    decreases entries, k,
{
    if k == 0 || k > entries.len() {
        true
    } else {
        members_within(entries, d, (k - 1) as nat) && nests_within(entries[k - 1].1, d)
    }
}

/// Whether `v` nests tables at most `d` levels deep.
pub fn nests_within_check(v: &JsonValue, d: usize) -> (r: bool)
    ensures
        r == nests_within(*v, d as nat),
    decreases *v,
{
    match v {
        JsonValue::Array(a) => {
            if a.len() == 0 {
                return true;
            }
            if d == 0 {
                return false;
            }
            let mut i: usize = 0;
            while i < a.len()
                invariant
                    i <= a.len(),
                    d > 0,
                    *v == JsonValue::Array(*a),
                    all_within(a@, (d - 1) as nat, i as nat),
                decreases a.len() - i,
            {
                proof {
                    assert(decreases_to!(*v => (*v)->Array_0));
                    vstd::std_specs::vec::axiom_vec_index_decreases(*a, i as int);
                }
                if !nests_within_check(&a[i], d - 1) {
                    proof {
                        if all_within(a@, (d - 1) as nat, a@.len()) {
                            lemma_all_within_prefix(a@, (d - 1) as nat, a@.len(), (i + 1) as nat);
                        }
                    }
                    return false;
                }
                i += 1;
            }
            true
        },
        JsonValue::Object(o) => {
            if o.len() == 0 {
                return true;
            }
            if d == 0 {
                return false;
            }
            let mut i: usize = 0;
            while i < o.len()
                invariant
                    i <= o.len(),
                    d > 0,
                    *v == JsonValue::Object(*o),
                    members_within(o@, (d - 1) as nat, i as nat),
                decreases o.len() - i,
            {
                proof {
                    assert(decreases_to!(*v => (*v)->Object_0));
                    vstd::std_specs::vec::axiom_vec_index_decreases(*o, i as int);
                    assert(decreases_to!(o[i as int] => o[i as int].1));
                }
                if !nests_within_check(&o[i].1, d - 1) {
                    proof {
                        if members_within(o@, (d - 1) as nat, o@.len()) {
                            lemma_members_within_prefix(o@, (d - 1) as nat, o@.len(), (i + 1) as nat);
                        }
                    }
                    return false;
                }
                i += 1;
            }
            true
        },
        _ => true,
    }
}

proof fn lemma_all_within_prefix(items: Seq<JsonValue>, d: nat, k: nat, m: nat)
    requires
        m <= k <= items.len(),
        all_within(items, d, k),
    ensures
        all_within(items, d, m),
    decreases k,
{
    if k > m {
        lemma_all_within_prefix(items, d, (k - 1) as nat, m);
    }
}

proof fn lemma_members_within_prefix(entries: Seq<(String, JsonValue)>, d: nat, k: nat, m: nat)
    requires
        m <= k <= entries.len(),
        members_within(entries, d, k),
    ensures
        members_within(entries, d, m),
    decreases k,
{
    if k > m {
        lemma_members_within_prefix(entries, d, (k - 1) as nat, m);
    }
}

proof fn lemma_all_within_at(items: Seq<JsonValue>, d: nat, k: nat, i: int)
    requires
        k <= items.len(),
        all_within(items, d, k),
        0 <= i < k,
    ensures
        nests_within(items[i], d),
    decreases k,
{
    if i < k - 1 {
        lemma_all_within_at(items, d, (k - 1) as nat, i);
    }
}

proof fn lemma_members_within_at(entries: Seq<(String, JsonValue)>, d: nat, k: nat, i: int)
    requires
        k <= entries.len(),
        members_within(entries, d, k),
        0 <= i < k,
    ensures
        nests_within(entries[i].1, d),
    decreases k,
{
    if i < k - 1 {
        lemma_members_within_at(entries, d, (k - 1) as nat, i);
    }
}

proof fn lemma_all_wf_at(items: Seq<JsonValue>, k: nat, i: int)
    requires
        k <= items.len(),
        all_wf(items, k),
        0 <= i < k,
    ensures
        json_wf(items[i]),
    decreases k,
{
    if i < k - 1 {
        lemma_all_wf_at(items, (k - 1) as nat, i);
    }
}

proof fn lemma_members_wf_at(entries: Seq<(String, JsonValue)>, k: nat, i: int)
    requires
        k <= entries.len(),
        members_wf(entries, k),
        0 <= i < k,
    ensures
        json_wf(entries[i].1),
    decreases k,
{
    if i < k - 1 {
        lemma_members_wf_at(entries, (k - 1) as nat, i);
    }
}

/// The Lua expression of `val`, written at indentation level `indent`;
/// `val` is a value as the parser gives it (`json_wf`), so object members
/// come in the order of their names.
pub fn json_val_to_lua(val: &JsonValue, indent: usize) -> (r: String)
    requires
        indent < usize::MAX,
        nests_within(*val, (usize::MAX - 1 - indent) as nat),
        json_wf(*val),
    ensures
        r@ == lua_text(*val, indent as nat),
    decreases *val,
{
    match val {
        JsonValue::Null => "nil".to_string(),
        JsonValue::Bool(b) => if *b {
            "true".to_string()
        } else {
            "false".to_string()
        },
        JsonValue::Number(n) => number_string(n),
        JsonValue::Str(s) => debug_quote(s.as_str()),
        JsonValue::Array(a) => {
            if a.len() == 0 {
                return "{}".to_string();
            }
            let inner = indent + 1;
            let mut body = String::new();
            let mut i: usize = 0;
            while i < a.len()
                invariant
                    i <= a.len(),
                    inner == indent + 1,
                    inner < usize::MAX,
                    *val == JsonValue::Array(*a),
                    all_within(a@, (usize::MAX - 1 - inner) as nat, a@.len()),
                    all_wf(a@, a@.len()),
                    body@ == join_entries(array_lines(a@, inner as nat, i as nat)),
                decreases a.len() - i,
            {
                proof {
                    assert(decreases_to!(*val => (*val)->Array_0));
                    vstd::std_specs::vec::axiom_vec_index_decreases(*a, i as int);
                    lemma_all_within_at(a@, (usize::MAX - 1 - inner) as nat, a@.len(), i as int);
                    lemma_all_wf_at(a@, a@.len(), i as int);
                }
                let mut line = String::new();
                push_indent(&mut line, inner);
                line.append(json_val_to_lua(&a[i], inner).as_str());
                proof {
                    lemma_join_step(array_lines(a@, inner as nat, i as nat), line@);
                }
                if i > 0 {
                    body.append(",\n");
                }
                body.append(line.as_str());
                i += 1;
            }
            let mut out = "{\n".to_string();
            out.append(body.as_str());
            out.append("\n");
            push_indent(&mut out, indent);
            out.append("}");
            out
        },
        JsonValue::Object(o) => {
            if o.len() == 0 {
                return "{}".to_string();
            }
            let inner = indent + 1;
            let mut body = String::new();
            let mut i: usize = 0;
            while i < o.len()
                invariant
                    i <= o.len(),
                    inner == indent + 1,
                    inner < usize::MAX,
                    *val == JsonValue::Object(*o),
                    members_within(o@, (usize::MAX - 1 - inner) as nat, o@.len()),
                    members_wf(o@, o@.len()),
                    body@ == join_entries(object_lines(o@, inner as nat, i as nat)),
                decreases o.len() - i,
            {
                proof {
                    assert(decreases_to!(*val => (*val)->Object_0));
                    vstd::std_specs::vec::axiom_vec_index_decreases(*o, i as int);
                    assert(decreases_to!(o[i as int] => o[i as int].1));
                    lemma_members_within_at(o@, (usize::MAX - 1 - inner) as nat, o@.len(), i as int);
                    lemma_members_wf_at(o@, o@.len(), i as int);
                }
                let key = if is_valid_lua_identifier(o[i].0.as_str()) {
                    o[i].0.clone()
                } else {
                    let mut k = "[".to_string();
                    k.append(debug_quote(o[i].0.as_str()).as_str());
                    k.append("]");
                    k
                };
                let mut line = String::new();
                push_indent(&mut line, inner);
                line.append(key.as_str());
                line.append(" = ");
                line.append(json_val_to_lua(&o[i].1, inner).as_str());
                proof {
                    lemma_join_step(object_lines(o@, inner as nat, i as nat), line@);
                }
                if i > 0 {
                    body.append(",\n");
                }
                body.append(line.as_str());
                i += 1;
            }
            let mut out = "{\n".to_string();
            out.append(body.as_str());
            out.append("\n");
            push_indent(&mut out, indent);
            out.append("}");
            out
        },
    }
}

/// The settings file: a comment line, then `return` and the settings as
/// a Lua table.
pub open spec fn config_lua_text(v: JsonValue) -> Seq<char> {
    "-- OMYWALL Wallpaper Engine Configuration (Lua Script)\nreturn "@ + lua_text(v, 0) + "\n"@
}

/// The settings file for the settings `json` (the settings as a JSON
/// value, with objects ordered by member name, as the serialiser gives
/// them).
pub fn format_config_as_lua(json: &JsonValue) -> (r: String)
    requires
        nests_within(*json, (usize::MAX - 1) as nat),
        json_wf(*json),
    ensures
        r@ == config_lua_text(*json),
{
    let mut s = "-- OMYWALL Wallpaper Engine Configuration (Lua Script)\nreturn ".to_string();
    s.append(json_val_to_lua(json, 0).as_str());
    s.append("\n");
    s
}

} // verus!
