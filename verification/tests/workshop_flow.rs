use omywall::json::{JsonNumber, JsonValue};
use omywall::steam_workshop::{
    browse_page_url, browse_workshop, cached_preview_path, downloaded_item_path, encode_search_text,
    extract_item_id, fetch_popular_wallpapers, find_steamcmd, is_downloaded, search_page_url,
    search_workshop, search_workshop_items, steam_client_item_path, steamcmd_available,
    steamcmd_candidate_paths, workshop_content_dir, WorkshopEvent, WorkshopItem, WorkshopPhase,
    WorkshopStep,
};
use omywall::workshop_api::parse_workshop_details;

fn chars(s: &str) -> Vec<char> {
    s.chars().collect()
}

#[test]
fn search_text_encoding() {
    assert_eq!(encode_search_text("neon city"), "neon+city");
    assert_eq!(encode_search_text("a/b?c"), "a%2Fb%3Fc");
    assert_eq!(encode_search_text("\n"), "%0A");
    assert_eq!(encode_search_text("é"), "%E9");
    assert_eq!(encode_search_text("中"), "%4E2D");
    assert_eq!(encode_search_text("A-z_0.9~"), "A-z_0.9~");
}

#[test]
fn listing_addresses() {
    assert_eq!(
        search_page_url("neon", 0, "top_rated", 7),
        "https://steamcommunity.com/workshop/browse/?appid=431960&section=readytouseitems&searchtext=neon&p=1&browsesort=toprated&days=7"
    );
    assert_eq!(
        search_page_url("x y", 3, "whatever", 0),
        "https://steamcommunity.com/workshop/browse/?appid=431960&section=readytouseitems&searchtext=x+y&p=3&browsesort=trend"
    );
    assert_eq!(
        browse_page_url(2, "most_viewed", -1),
        "https://steamcommunity.com/workshop/browse/?appid=431960&section=readytouseitems&l=english&p=2&browsesort=totaluniquesubscribers"
    );
    assert_eq!(
        browse_page_url(1, "newest", 30),
        "https://steamcommunity.com/workshop/browse/?appid=431960&section=readytouseitems&l=english&p=1&browsesort=timeupdated&days=30"
    );
}

#[test]
fn item_ids_in_queries() {
    assert_eq!(extract_item_id(&chars("3773037986")), Some(chars("3773037986")));
    assert_eq!(
        extract_item_id(&chars("https://steamcommunity.com/sharedfiles/filedetails/?id=123&x=1")),
        Some(chars("123"))
    );
    assert_eq!(extract_item_id(&chars("id=abc")), None);
    assert_eq!(extract_item_id(&chars("neon")), None);
}

fn item(id: &str) -> WorkshopItem {
    let mut it = WorkshopItem::default();
    it.id = id.to_string();
    it
}

#[test]
fn search_by_id_flow() {
    let (mut req, step) = search_workshop("  3773037986 ", 1, "trend", 0);
    assert_eq!(req.phase, WorkshopPhase::IdDetails);
    match step {
        WorkshopStep::FetchDetails(ids) => assert_eq!(ids, vec!["3773037986".to_string()]),
        _ => panic!("details first"),
    }
    match req.next(WorkshopEvent::Details(Ok(vec![]))) {
        WorkshopStep::FetchPage(u) => assert_eq!(u, "https://steamcommunity.com/sharedfiles/filedetails/?id=3773037986"),
        _ => panic!("item page next"),
    }
    let html = "<div class=\"workshopItemTitle\">Rain</div>";
    match req.next(WorkshopEvent::Page(Ok(html.to_string()))) {
        WorkshopStep::Done(Ok(items)) => {
            assert_eq!(items.len(), 1);
            assert_eq!(items[0].id, "3773037986");
            assert_eq!(items[0].title, "Rain");
        }
        _ => panic!("answered"),
    }
    assert_eq!(req.phase, WorkshopPhase::Finished);
}

#[test]
fn search_by_id_found_in_details() {
    let (mut req, _) = search_workshop("3773037986", 1, "trend", 0);
    match req.next(WorkshopEvent::Details(Ok(vec![item("3773037986")]))) {
        WorkshopStep::Done(Ok(items)) => assert_eq!(items[0].id, "3773037986"),
        _ => panic!("answered"),
    }
}

#[test]
fn search_by_id_falls_back_to_keyword_listing() {
    let (mut req, _) = search_workshop("3773037986", 2, "newest", 0);
    req.next(WorkshopEvent::Details(Err("down".to_string())));
    match req.next(WorkshopEvent::Page(Err("down".to_string()))) {
        WorkshopStep::FetchPage(u) => assert_eq!(
            u,
            "https://steamcommunity.com/workshop/browse/?appid=431960&section=readytouseitems&searchtext=3773037986&p=2&browsesort=timeupdated"
        ),
        _ => panic!("listing next"),
    }
    match req.next(WorkshopEvent::Page(Err("offline".to_string()))) {
        WorkshopStep::Done(Err(e)) => assert_eq!(e, "offline"),
        _ => panic!("error passed on"),
    }
}

#[test]
fn keyword_listing_flow() {
    let (mut req, step) = search_workshop("neon", 1, "trend", 0);
    assert_eq!(req.phase, WorkshopPhase::Listing);
    assert!(matches!(step, WorkshopStep::FetchPage(_)));
    let html = "<a href=\"https://steamcommunity.com/sharedfiles/filedetails/?id=11\"><div class=\"workshopItemTitle\">One</div></a>\
                <a href=\"https://steamcommunity.com/sharedfiles/filedetails/?id=22\">x</a>\
                <a href=\"https://steamcommunity.com/sharedfiles/filedetails/?id=11\">dup</a>";
    match req.next(WorkshopEvent::Page(Ok(html.to_string()))) {
        WorkshopStep::FetchDetails(ids) => assert_eq!(ids, vec!["11".to_string(), "22".to_string()]),
        _ => panic!("details of the listing"),
    }
    match req.next(WorkshopEvent::Details(Ok(vec![]))) {
        WorkshopStep::Done(Ok(items)) => {
            assert_eq!(items.len(), 2);
            assert_eq!(items[0].id, "11");
            assert_eq!(items[1].id, "22");
        }
        _ => panic!("listing items"),
    }
}

#[test]
fn empty_listing_answers_at_once() {
    let (mut req, step) = browse_workshop(1, "trend", 7);
    match step {
        WorkshopStep::FetchPage(u) => assert!(u.ends_with("&p=1&browsesort=trend&days=7")),
        _ => panic!("page first"),
    }
    match req.next(WorkshopEvent::Page(Ok("<html></html>".to_string()))) {
        WorkshopStep::Done(Ok(items)) => assert!(items.is_empty()),
        _ => panic!("answered"),
    }
}

#[test]
fn blank_search_is_a_browse() {
    let (a, _) = search_workshop("   ", 4, "top_rated", 0);
    let (b, _) = browse_workshop(4, "top_rated", 0);
    assert_eq!(a.listing_url, b.listing_url);
    let (p, _) = fetch_popular_wallpapers(1);
    assert!(p.listing_url.ends_with("&days=7"));
    let (s, _) = search_workshop_items("neon", 1, "trend", 0);
    assert_eq!(s.phase, WorkshopPhase::Listing);
}

fn obj(entries: Vec<(&str, JsonValue)>) -> JsonValue {
    JsonValue::Object(entries.into_iter().map(|(k, v)| (k.to_string(), v)).collect())
}

#[test]
fn details_reply() {
    let reply = obj(vec![(
        "response",
        obj(vec![(
            "publishedfiledetails",
            JsonValue::Array(vec![
                obj(vec![
                    ("creator", JsonValue::Str("765".to_string())),
                    ("file_size", JsonValue::Str("2048".to_string())),
                    ("preview_url", JsonValue::Str("https://img/p.jpg".to_string())),
                    ("publishedfileid", JsonValue::Str("3773037986".to_string())),
                    ("subscriptions", JsonValue::Number(JsonNumber::PosInt(12))),
                    (
                        "tags",
                        JsonValue::Array(vec![
                            obj(vec![("tag", JsonValue::Str("Anime".to_string()))]),
                            obj(vec![("x", JsonValue::Null)]),
                            obj(vec![("tag", JsonValue::Str("Video".to_string()))]),
                        ]),
                    ),
                    ("title", JsonValue::Str("Rain".to_string())),
                    ("views", JsonValue::Number(JsonNumber::Float("1.5".to_string()))),
                ]),
                obj(vec![("title", JsonValue::Str("no id".to_string()))]),
                obj(vec![("publishedfileid", JsonValue::Str("1904771869".to_string()))]),
            ]),
        )]),
    )]);
    let items = parse_workshop_details(&reply);
    assert_eq!(items.len(), 2);
    assert_eq!(items[0].id, "3773037986");
    assert_eq!(items[0].title, "Rain");
    assert_eq!(items[0].author, "765");
    assert_eq!(items[0].file_size, 2048);
    assert_eq!(items[0].subscriptions, 12);
    assert_eq!(items[0].views, 0);
    assert_eq!(items[0].tags, vec!["Anime".to_string(), "Video".to_string()]);
    assert_eq!(items[0].preview_url, Some("https://img/p.jpg".to_string()));
    assert_eq!(items[0].url, "https://steamcommunity.com/sharedfiles/filedetails/?id=3773037986");
    assert_eq!(items[1].title, "Untitled Wallpaper");
    assert_eq!(items[1].author, "Steam Author");
    assert_eq!(items[1].preview_url, None);
    assert!(parse_workshop_details(&JsonValue::Null).is_empty());
}

#[test]
fn local_item_paths() {
    assert_eq!(
        workshop_content_dir("/home/u/.cache/omywall/steam_workshop", "42"),
        "/home/u/.cache/omywall/steam_workshop/steamapps/workshop/content/431960/42"
    );
    assert!(is_downloaded(true, true));
    assert!(!is_downloaded(true, false));
    assert_eq!(downloaded_item_path("/d".to_string(), true), Some("/d".to_string()));
    assert_eq!(downloaded_item_path("/d".to_string(), false), None);
    let libs = vec!["/s1".to_string(), "/s2".to_string()];
    assert_eq!(
        steam_client_item_path(&libs, &[false, true], "7"),
        Some("/s2/steamapps/workshop/content/431960/7".to_string())
    );
    assert_eq!(steam_client_item_path(&libs, &[false, false], "7"), None);
}

#[test]
fn steamcmd_lookup() {
    let c = steamcmd_candidate_paths("/home/u");
    assert_eq!(c[0], "/home/u/.steam/steamcmd/steamcmd.sh");
    assert_eq!(c.len(), 4);
    assert_eq!(find_steamcmd(Some(" /usr/bin/steamcmd\n"), &c, &[true, true, true, true]), Some("/usr/bin/steamcmd".to_string()));
    assert_eq!(find_steamcmd(Some("  "), &c, &[false, false, true, true]), Some("/usr/bin/steamcmd".to_string()));
    assert_eq!(find_steamcmd(None, &c, &[false; 4]), None);
    assert!(steamcmd_available(&Some("x".to_string())));
    assert!(!steamcmd_available(&None));
}

fn djb2(bytes: &[u8]) -> u64 {
    let mut h: u64 = 5381;
    for b in bytes {
        h = h.wrapping_mul(33).wrapping_add(*b as u64);
    }
    h
}

#[test]
fn preview_cache_file_name() {
    let mut it = item("99");
    it.preview_url = Some("https://img.example/p.jpg".to_string());
    let h = djb2(b"https://img.example/p.jpg");
    assert!(h >= 0x1000_0000);
    let hex = format!("{:x}", h);
    let expected = format!("/tmp/omywall_workshop_thumbs/99_{}.jpg", &hex[..8]);
    assert_eq!(cached_preview_path(&it, true), Some(expected.clone()));
    assert_eq!(cached_preview_path(&it, false), None);
    assert_eq!(omywall::steam_workshop::preview_cache_path(&it), Some(expected));
    assert_eq!(cached_preview_path(&item("1"), true), None);
    assert_eq!(cached_preview_path(&item("1"), false), None);
}

#[test]
fn catalogue_search_entry_points_agree() {
    for q in ["", "neon city", "3773037986", "https://steamcommunity.com/sharedfiles/filedetails/?id=1904771869"] {
        let (a, _) = search_workshop(q, 2, "trend", 7);
        let (b, _) = search_workshop_items(q, 2, "trend", 7);
        assert_eq!(a.listing_url, b.listing_url);
        assert_eq!(a.phase, b.phase);
        assert_eq!(a.id, b.id);
    }
    let (id_req, _) = search_workshop_items("3773037986", 1, "trend", 0);
    assert_eq!(id_req.phase, WorkshopPhase::IdDetails);
    assert_eq!(id_req.id, "3773037986");
    let (p, _) = fetch_popular_wallpapers(3);
    let (b, _) = browse_workshop(3, "trend", 7);
    assert_eq!(p.listing_url, b.listing_url);
}
