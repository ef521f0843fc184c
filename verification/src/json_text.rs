//! JSON values written back as compact text, the way a JSON value prints:
//! no spaces, members in the order held.
use vstd::prelude::*;
use crate::json::JsonValue;
use crate::lua::{number_string, number_text};

verus! {

broadcast use vstd::string::group_string_axioms;

/// How `serde_json` writes the character `c` inside a string: `"` and `\`
/// behind a backslash; backspace, form feed, line feed, carriage return
/// and tab by their short escapes; the other control characters below
/// 0x20 as `\u00` and two lower-case hexadecimal digits; any other
/// character as it is.
pub open spec fn json_char_escape(c: char) -> Seq<char> {
    let u = c as u32;
    if c == '"' {
        seq!['\\', '"']
    } else if c == '\\' {
        seq!['\\', '\\']
    } else if u == 0x08 {
        seq!['\\', 'b']
    } else if u == 0x0C {
        seq!['\\', 'f']
    } else if u == 0x0A {
        seq!['\\', 'n']
    } else if u == 0x0D {
        seq!['\\', 'r']
    } else if u == 0x09 {
        seq!['\\', 't']
    } else if u < 0x20 {
        seq![
            '\\',
            'u',
            '0',
            '0',
            crate::steam_workshop::hex_lower_digit((u / 16) as nat),
            crate::steam_workshop::hex_lower_digit((u % 16) as nat),
        ]
    } else {
        seq![c]
    }
}

/// The characters of `s`, each written as `json_char_escape` writes it.
pub open spec fn json_escaped(s: Seq<char>) -> Seq<char>
    decreases s.len(),
{
    if s.len() == 0 {
        Seq::empty()
    } else {
        json_escaped(s.drop_last()) + json_char_escape(s.last())
    }
}

/// What `serde_json::to_string` gives for the text `s`: the text in double
/// quotes, with JSON's escapes.
pub open spec fn json_quoted(s: Seq<char>) -> Seq<char> {
    seq!['"'] + json_escaped(s) + seq!['"']
}

/// `serde_json::to_string` of a `str`: the text quoted and escaped. The
/// serialiser writes into a byte vector, which cannot fail, so the result
/// is always the quoted text.
#[verifier::external_body]
pub(crate) fn json_quote(s: &str) -> (r: String)
    ensures
        r@ == json_quoted(s@),
{
    match serde_json::to_string(s) {
        Ok(t) => t,
        Err(_) => String::new(),
    }
}

/// The pieces joined with `,` between them.
pub open spec fn join_commas(items: Seq<Seq<char>>) -> Seq<char>
    decreases items.len(),
{
    if items.len() == 0 {
        seq![]
    } else if items.len() == 1 {
        items[0]
    } else {
        join_commas(items.drop_last()) + ","@ + items.last()
    }
}

/// The compact JSON text of a value.
pub open spec fn json_compact(v: JsonValue) -> Seq<char>
    decreases v, 0nat,
{
    match v {
        JsonValue::Null => "null"@,
        JsonValue::Bool(b) => if b {
            "true"@
        } else {
            "false"@
        },
        JsonValue::Number(n) => number_text(n),
        JsonValue::Str(s) => json_quoted(s@),
        JsonValue::Array(a) => "["@ + join_commas(compact_items(a@, a@.len())) + "]"@,
        JsonValue::Object(o) => "{"@ + join_commas(compact_members(o@, o@.len())) + "}"@,
    }
}

/// The texts of the first `k` elements.
pub open spec fn compact_items(items: Seq<JsonValue>, k: nat) -> Seq<Seq<char>>
    decreases items, k,
{
    if k == 0 || k > items.len() {
        seq![]
    } else {
        compact_items(items, (k - 1) as nat).push(json_compact(items[k - 1]))
    }
}

/// The texts `"name":value` of the first `k` members.
pub open spec fn compact_members(entries: Seq<(String, JsonValue)>, k: nat) -> Seq<Seq<char>>
    decreases entries, k,
{
    if k == 0 || k > entries.len() {
        seq![]
    } else {
        compact_members(entries, (k - 1) as nat).push(
            json_quoted(entries[k - 1].0@) + ":"@ + json_compact(entries[k - 1].1),
        )
    }
}

proof fn lemma_join_commas_step(items: Seq<Seq<char>>, x: Seq<char>)
    ensures
        join_commas(items.push(x)) == if items.len() == 0 {
            x
        } else {
            join_commas(items) + ","@ + x
        },
{
    assert(items.push(x).drop_last() == items);
}

/// The compact JSON text of `v`, as `Value::to_string` prints it.
pub fn json_to_text(v: &JsonValue) -> (r: String)
    ensures
        r@ == json_compact(*v),
    decreases *v,
{
    match v {
        JsonValue::Null => "null".to_string(),
        JsonValue::Bool(b) => if *b {
            "true".to_string()
        } else {
            "false".to_string()
        },
        JsonValue::Number(n) => number_string(n),
        JsonValue::Str(s) => json_quote(s.as_str()),
        JsonValue::Array(a) => {
            let mut body = String::new();
            let mut i: usize = 0;
            while i < a.len()
                invariant
                    i <= a.len(),
                    *v == JsonValue::Array(*a),
                    body@ == join_commas(compact_items(a@, i as nat)),
                decreases a.len() - i,
            {
                proof {
                    assert(decreases_to!(*v => (*v)->Array_0));
                    vstd::std_specs::vec::axiom_vec_index_decreases(*a, i as int);
                }
                let t = json_to_text(&a[i]);
                proof {
                    lemma_join_commas_step(compact_items(a@, i as nat), t@);
                }
                if i > 0 {
                    body.append(",");
                }
                body.append(t.as_str());
                i += 1;
            }
            let mut out = "[".to_string();
            out.append(body.as_str());
            out.append("]");
            out
        },
        JsonValue::Object(o) => {
            let mut body = String::new();
            let mut i: usize = 0;
            while i < o.len()
                invariant
                    i <= o.len(),
                    *v == JsonValue::Object(*o),
                    body@ == join_commas(compact_members(o@, i as nat)),
                decreases o.len() - i,
            {
                proof {
                    assert(decreases_to!(*v => (*v)->Object_0));
                    vstd::std_specs::vec::axiom_vec_index_decreases(*o, i as int);
                    assert(decreases_to!(o[i as int] => o[i as int].1));
                }
                let mut item = json_quote(o[i].0.as_str());
                item.append(":");
                item.append(json_to_text(&o[i].1).as_str());
                proof {
                    lemma_join_commas_step(compact_members(o@, i as nat), item@);
                }
                if i > 0 {
                    body.append(",");
                }
                body.append(item.as_str());
                i += 1;
            }
            let mut out = "{".to_string();
            out.append(body.as_str());
            out.append("}");
            out
        },
    }
}

} // verus!
