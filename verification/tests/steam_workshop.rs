use omywall::steam_workshop::{download_workshop_item, DownloadEvent, DownloadStep};
use omywall::steam_workshop::{
    extract_preview_url, extract_title_after, get_file_size_str, listing_page_is_readable,
    parse_browse_html, parse_single_item_page, strip_html_tags,
};

fn chars(s: &str) -> Vec<char> {
    s.chars().collect()
}

#[test]
fn test_file_size_formatting() {
    assert_eq!(get_file_size_str(500), "500 B");
    assert_eq!(get_file_size_str(1024), "1.0 KB");
    assert_eq!(get_file_size_str(1024 * 1024 * 5), "5.0 MB");
    assert_eq!(get_file_size_str(1024 * 1024 * 1024 * 2), "2.0 GB");
}

#[test]
fn test_parse_single_item_page_html() {
    let html = r#"
            <html>
                <div class="workshopItemTitle">Cyberpunk Night City</div>
                <img id="previewImage" src="https://steamuserimages-a.akamaihd.net/ugc/1234/test.jpg" />
            </html>
        "#;
    let item = parse_single_item_page(html, "12345678");
    assert_eq!(item.id, "12345678");
    assert_eq!(item.title, "Cyberpunk Night City");
    assert_eq!(
        item.preview_url,
        Some("https://steamuserimages-a.akamaihd.net/ugc/1234/test.jpg".to_string())
    );
}

fn float_size(bytes: u64) -> String {
    if bytes >= 1024 * 1024 * 1024 {
        format!("{:.1} GB", bytes as f64 / (1024.0 * 1024.0 * 1024.0))
    } else if bytes >= 1024 * 1024 {
        format!("{:.1} MB", bytes as f64 / (1024.0 * 1024.0))
    } else if bytes >= 1024 {
        format!("{:.1} KB", bytes as f64 / 1024.0)
    } else {
        format!("{} B", bytes)
    }
}

#[test]
fn file_size_matches_float_rendering_on_ties_and_extremes() {
    let mut samples: Vec<u64> = vec![0, 1, 1023, 1024, 1075, 1076, 1126, 1127, 1280, 1331, 1792];
    for k in [10u32, 20, 30] {
        let unit = 1u64 << k;
        for tenth in 0..40u64 {
            let base = unit + tenth * unit / 10;
            for d in [0u64, 1, 2] {
                samples.push(base.saturating_sub(d));
                samples.push(base + d);
            }
            samples.push(unit + tenth * unit / 20);
        }
    }
    samples.extend([u64::MAX, u64::MAX - 1, 1 << 53, (1 << 53) + 1, (1 << 54) + 3, 9_007_199_254_740_993]);
    for b in samples {
        assert_eq!(get_file_size_str(b), float_size(b), "bytes = {}", b);
    }
    assert_eq!(get_file_size_str(1280), "1.2 KB");
    assert_eq!(get_file_size_str(u64::MAX), "17179869184.0 GB");
}

#[test]
fn strip_html_tags_decodes_known_entities() {
    let out: String = strip_html_tags(&chars("<b>Fish &amp; Chips</b> &lt;3 &bogus; ok")).into_iter().collect();
    assert_eq!(out, "Fish & Chips <3  ok");
    let out2: String = strip_html_tags(&chars("a > b <i>c</i>")).into_iter().collect();
    assert_eq!(out2, "a > b c");
}

#[test]
fn listing_page_yields_each_item_once() {
    let html = [
        "<div><img src=\"https://img.example/1.jpg\"><a href=\"https://steamcommunity.com/sharedfiles/filedetails/?id=111\">",
        "<div class=\"t\">Neon &amp; Rain</div></a>",
        "<a href=\"https://steamcommunity.com/sharedfiles/filedetails/?id=111\">again</a>",
        "<img src=\"/local.png\"><a href=\"https://steamcommunity.com/sharedfiles/filedetails/?id=222\"></a></div>",
    ]
    .concat();
    let html = html.as_str();
    assert!(listing_page_is_readable(html));
    let items = parse_browse_html(html).unwrap();
    assert_eq!(items.len(), 2);
    assert_eq!(items[0].id, "111");
    assert_eq!(items[0].title, "Neon & Rain");
    assert_eq!(items[0].preview_url.as_deref(), Some("https://img.example/1.jpg"));
    assert_eq!(items[0].url, "https://steamcommunity.com/sharedfiles/filedetails/?id=111");
    assert_eq!(items[1].id, "222");
    assert_eq!(items[1].title, "Untitled Wallpaper");
    assert_eq!(items[1].preview_url, None);
}

#[test]
fn title_and_preview_extraction() {
    let html = chars("<img src=\"https://a/b.png\"> <a x=id=7>  T&quot;x  </a>");
    let t: Option<String> = extract_title_after(&html, &chars("id=7")).map(|v| v.into_iter().collect());
    assert_eq!(t.as_deref(), Some("T\"x"));
    let p: Option<String> = extract_preview_url(&html, &chars("id=7")).map(|v| v.into_iter().collect());
    assert_eq!(p.as_deref(), Some("https://a/b.png"));
    assert_eq!(extract_title_after(&html, &chars("id=8")), None);
}

#[test]
fn listing_page_with_split_character_is_reported() {
    let mut html = String::from("<img src=\"https://x/y\">");
    html.push_str(&"é".repeat(1600));
    html.push_str("x<a href=\"sharedfiles/filedetails/?id=5\">n</a>");
    // 3000 bytes before the link falls inside a two-byte character.
    assert!(!listing_page_is_readable(&html));
}

#[test]
fn download_runs_steamcmd_then_fails_to_start_it() {
    let (mut req, step) = download_workshop_item("42", "/s", false, None);
    assert_eq!(step, DownloadStep::FindSteamcmd);
    let step = req.next(DownloadEvent::SteamcmdFound(Some("/usr/bin/steamcmd".to_string())));
    match step {
        DownloadStep::RunSteamcmd { program, args } => {
            assert_eq!(program, "/usr/bin/steamcmd");
            assert_eq!(args, vec!["+force_install_dir", "/s", "+login", "anonymous", "+workshop_download_item 431960 42", "+quit"]);
        }
        other => panic!("unexpected step {:?}", other),
    }
    let step = req.next(DownloadEvent::SteamcmdFailed("No such file or directory (os error 2)".to_string()));
    assert_eq!(step, DownloadStep::Done(Err("Failed to run steamcmd: No such file or directory (os error 2)".to_string())));
}

#[test]
fn download_of_present_and_imported_items() {
    let (_, step) = download_workshop_item("7", "/s", true, None);
    assert_eq!(step, DownloadStep::Done(Ok("/s/steamapps/workshop/content/431960/7".to_string())));
    let (mut req, step) = download_workshop_item("7", "/s", false, Some("/lib/7".to_string()));
    assert_eq!(step, DownloadStep::Import { src: "/lib/7".to_string(), dest: "/s/steamapps/workshop/content/431960/7".to_string() });
    assert_eq!(req.next(DownloadEvent::Imported(false)), DownloadStep::FindSteamcmd);
    let step = req.next(DownloadEvent::SteamcmdFound(None));
    assert!(matches!(step, DownloadStep::Done(Err(m)) if m.starts_with("steamcmd is not installed.")));
}
