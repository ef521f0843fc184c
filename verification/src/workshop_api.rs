//! Items of the Steam Workshop as the published-file details service
//! describes them.
use vstd::prelude::*;
use crate::json::{JsonValue, json_get, json_str, json_u64, json_array, member};
use crate::steam_workshop::{WorkshopItem, item_page_url};
use crate::text::{chars_of, parse_u64_chars, parse_u64_spec};

verus! {

broadcast use vstd::string::group_string_axioms;

/// A string member of `d`, or `dflt` when it is missing or not a string.
pub open spec fn str_or(d: JsonValue, key: Seq<char>, dflt: Seq<char>) -> Seq<char> {
    match json_str(json_get(d, key)) {
        Some(s) => s,
        None => dflt,
    }
}

/// A non-negative integer member of `d`, or 0.
pub open spec fn u64_or_zero(d: JsonValue, key: Seq<char>) -> u64 {
    match json_u64(json_get(d, key)) {
        Some(n) => n,
        None => 0,
    }
}

/// The size of an item: a number, or a string of digits, or 0.
pub open spec fn detail_size(d: JsonValue) -> u64 {
    match json_u64(json_get(d, "file_size"@)) {
        Some(n) => n,
        None => match json_str(json_get(d, "file_size"@)) {
            Some(s) => match parse_u64_spec(s) {
                Some(n) => n,
                None => 0,
            },
            None => 0,
        },
    }
}

/// The `tag` texts of the tag objects that have one, in order.
pub open spec fn tag_texts(tags: Seq<JsonValue>) -> Seq<Seq<char>>
    decreases tags.len(),
{
    if tags.len() == 0 {
        seq![]
    } else {
        let k = tag_texts(tags.drop_last());
        match json_str(json_get(tags.last(), "tag"@)) {
            Some(t) => k.push(t),
            None => k,
        }
    }
}

/// The tags of an item.
pub open spec fn detail_tags(d: JsonValue) -> Seq<Seq<char>> {
    match json_array(json_get(d, "tags"@)) {
        Some(a) => tag_texts(a),
        None => seq![],
    }
}

/// The identifier of an item, empty when missing.
pub open spec fn detail_id(d: JsonValue) -> Seq<char> {
    str_or(d, "publishedfileid"@, ""@)
}

/// `item` is what the details entry `d` describes.
pub open spec fn detail_item(item: WorkshopItem, d: JsonValue) -> bool {
    &&& item.id@ == detail_id(d)
    &&& item.title@ == str_or(d, "title"@, "Untitled Wallpaper"@)
    &&& match item.preview_url {
        Some(u) => json_str(json_get(d, "preview_url"@)) == Some(u@),
        None => json_str(json_get(d, "preview_url"@)) is None,
    }
    &&& item.author@ == str_or(d, "creator"@, "Steam Author"@)
    &&& item.subscriptions == u64_or_zero(d, "subscriptions"@)
    &&& item.views == u64_or_zero(d, "views"@)
    &&& item.file_size == detail_size(d)
    &&& item.description@ == str_or(d, "description"@, ""@)
    &&& item.tags@.map_values(|t: String| t@) == detail_tags(d)
    &&& item.hcontent_file@ == Seq::<char>::empty()
    &&& item.time_updated == u64_or_zero(d, "time_updated"@)
    &&& item.url@ == item_page_url(detail_id(d))
}

/// The details entries that carry an identifier.
pub open spec fn identified(ds: Seq<JsonValue>) -> Seq<JsonValue>
    decreases ds.len(),
{
    if ds.len() == 0 {
        seq![]
    } else {
        let k = identified(ds.drop_last());
        if detail_id(ds.last()).len() > 0 {
            k.push(ds.last())
        } else {
            k
        }
    }
}

/// The details entries of a reply of the service.
pub open spec fn reply_details(val: JsonValue) -> Seq<JsonValue> {
    match json_get(val, "response"@) {
        Some(r) => match json_array(json_get(r, "publishedfiledetails"@)) {
            Some(a) => a,
            None => seq![],
        },
        None => seq![],
    }
}

fn str_member_or(d: &JsonValue, key: &str, dflt: &str) -> (r: String)
    ensures
        r@ == str_or(*d, key@, dflt@),
{
    match d.get(key) {
        Some(v) => match v.as_str() {
            Some(s) => s.to_string(),
            None => dflt.to_string(),
        },
        None => dflt.to_string(),
    }
}

fn u64_member(d: &JsonValue, key: &str) -> (r: u64)
    ensures
        r == u64_or_zero(*d, key@),
{
    match d.get(key) {
        Some(v) => match v.as_u64() {
            Some(n) => n,
            None => 0,
        },
        None => 0,
    }
}

fn tags_of(d: &JsonValue) -> (r: Vec<String>)
    ensures
        r@.map_values(|t: String| t@) == detail_tags(*d),
{
    let mut out: Vec<String> = Vec::new();
    match d.get("tags") {
        Some(v) => match v.as_array() {
            Some(a) => {
                let mut i: usize = 0;
                while i < a.len()
                    invariant
                        i <= a.len(),
                        out@.map_values(|t: String| t@) == tag_texts(a@.take(i as int)),
                    decreases a.len() - i,
                {
                    assert(a@.take(i as int + 1).drop_last() == a@.take(i as int));
                    match a[i].get("tag") {
                        Some(t) => match t.as_str() {
                            Some(s) => {
                                out.push(s.to_string());
                            },
                            None => {},
                        },
                        None => {},
                    }
                    proof {
                        assert(out@.map_values(|t: String| t@) =~= tag_texts(a@.take(i as int + 1)));
                    }
                    i += 1;
                }
                assert(a@.take(a.len() as int) == a@);
            },
            None => {},
        },
        None => {},
    }
    out
}

fn detail_to_item(d: &JsonValue, id: String) -> (item: WorkshopItem)
    requires
        id@ == detail_id(*d),
    ensures
        detail_item(item, *d),
{
    let title = str_member_or(d, "title", "Untitled Wallpaper");
    let preview_url = match d.get("preview_url") {
        Some(v) => match v.as_str() {
            Some(s) => Some(s.to_string()),
            None => None,
        },
        None => None,
    };
    let author = str_member_or(d, "creator", "Steam Author");
    let subscriptions = u64_member(d, "subscriptions");
    let views = u64_member(d, "views");
    let file_size = match d.get("file_size") {
        Some(v) => match v.as_u64() {
            Some(n) => n,
            None => match v.as_str() {
                Some(s) => {
                    let sc = chars_of(s);
                    match parse_u64_chars(sc.as_slice()) {
                        Some(n) => n,
                        None => 0,
                    }
                },
                None => 0,
            },
        },
        None => 0,
    };
    let description = str_member_or(d, "description", "");
    let tags = tags_of(d);
    let time_updated = u64_member(d, "time_updated");
    let mut url = "https://steamcommunity.com/sharedfiles/filedetails/?id=".to_string();
    url.append(id.as_str());
    WorkshopItem {
        id,
        title,
        preview_url,
        author,
        subscriptions,
        views,
        file_size,
        description,
        tags,
        hcontent_file: String::new(),
        time_updated,
        url,
    }
}

/// The items described by a reply of the published-file details service:
/// one per details entry that carries an identifier, in order.
pub fn parse_workshop_details(val: &JsonValue) -> (r: Vec<WorkshopItem>)
    ensures
        r@.len() == identified(reply_details(*val)).len(),
        forall|i: int| 0 <= i < r@.len() ==> detail_item(#[trigger] r@[i], identified(reply_details(*val))[i]),
{
    let mut items: Vec<WorkshopItem> = Vec::new();
    let details = match val.get("response") {
        Some(resp) => match resp.get("publishedfiledetails") {
            Some(d) => d.as_array(),
            None => None,
        },
        None => None,
    };
    match details {
        Some(ds) => {
            assert(ds@ == reply_details(*val));
            let mut i: usize = 0;
            while i < ds.len()
                invariant
                    i <= ds.len(),
                    ds@ == reply_details(*val),
                    items@.len() == identified(ds@.take(i as int)).len(),
                    forall|j: int| 0 <= j < items@.len() ==> detail_item(#[trigger] items@[j], identified(ds@.take(i as int))[j]),
                decreases ds.len() - i,
            {
                assert(ds@.take(i as int + 1).drop_last() == ds@.take(i as int));
                assert(ds@.take(i as int + 1).last() == ds@[i as int]);
                let id = str_member_or(&ds[i], "publishedfileid", "");
                if !id.as_str().is_empty() {
                    let item = detail_to_item(&ds[i], id);
                    items.push(item);
                }
                i += 1;
            }
            assert(ds@.take(ds.len() as int) == ds@);
        },
        None => {
            assert(reply_details(*val) == Seq::<JsonValue>::empty());
        },
    }
    items
}

} // verus!
