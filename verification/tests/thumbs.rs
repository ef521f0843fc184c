use omywall::gui::md5_hash;
use omywall::thumbs::{
    gif_command, gif_preview_plan_checked, thumbnail_commands, thumbnail_plan_checked, web_thumbnail_plan_checked,
    GifPlan, ThumbnailPlan, WebThumbPlan,
};

fn hash8(s: &str) -> String {
    format!("{:x}", md5_hash(s.as_bytes()))[..8].to_string()
}

#[test]
fn still_images_are_their_own_thumbnail() {
    assert_eq!(thumbnail_plan_checked("/w/pic.PNG"), Some(ThumbnailPlan::Direct("/w/pic.PNG".to_string())));
    assert_eq!(thumbnail_plan_checked("/w/pic.webp"), Some(ThumbnailPlan::Direct("/w/pic.webp".to_string())));
}

#[test]
fn clips_get_a_cached_thumbnail() {
    let p = "/home/u/Videos/ocean waves.MP4";
    assert!(md5_hash(p.as_bytes()) >= 0x1000_0000);
    let expected = format!("/tmp/omywall_thumbs/ocean waves_{}.jpg", hash8(p));
    assert_eq!(
        thumbnail_plan_checked(p),
        Some(ThumbnailPlan::Cached { file: expected, key: p.to_string(), ext: "mp4".to_string() })
    );
}

#[test]
fn frame_grab_commands() {
    let c = thumbnail_commands("/v.mp4", "/t.jpg");
    assert_eq!(c.len(), 3);
    assert_eq!(c[0], vec!["ffmpeg", "-ss", "00:00:00.500", "-i", "/v.mp4", "-vframes", "1", "-s", "320x180", "-y", "/t.jpg"]);
    assert_eq!(c[1], vec!["ffmpeg", "-i", "/v.mp4", "-vframes", "1", "-s", "320x180", "-y", "/t.jpg"]);
    assert_eq!(c[2], vec!["mpv", "--no-audio", "--frames=1", "--o=/t.jpg", "/v.mp4"]);
}

#[test]
fn animated_previews_only_for_clips() {
    assert_eq!(gif_preview_plan_checked("/w/pic.png"), None);
    let p = "/w/dance.webm";
    assert!(md5_hash(p.as_bytes()) >= 0x1000_0000);
    let file = format!("/tmp/omywall_thumbs/dance_{}.gif", hash8(p));
    assert_eq!(
        gif_preview_plan_checked(p),
        Some(GifPlan { file: file.clone(), part: format!("{}.part", file), key: "/w/dance.webm::gif".to_string() })
    );
    let a = gif_command("/in.mp4", "/out.gif.part");
    assert_eq!(a[7], "/in.mp4");
    assert_eq!(a.last().map(|s| s.as_str()), Some("/out.gif.part"));
    assert_eq!(a.len(), 13);
}

#[test]
fn web_pages_get_a_snapshot() {
    let p = "/usr/share/omywall/assets/web_wallpapers/fluid.html";
    assert!(md5_hash(p.as_bytes()) >= 0x1000_0000);
    assert_eq!(
        web_thumbnail_plan_checked(p),
        Some(WebThumbPlan::Page(format!("/tmp/omywall_thumbs/web_{}.jpg", hash8(p))))
    );
    assert_eq!(
        web_thumbnail_plan_checked("/x/still.jpg"),
        Some(WebThumbPlan::Media(ThumbnailPlan::Direct("/x/still.jpg".to_string())))
    );
}

#[test]
fn remote_image_copies_and_kept_decodes() {
    let url = "https://example.com/images/preview-large.jpg";
    let h = format!("{:x}", omywall::gui::md5_hash(url.as_bytes()));
    let expected = format!("/tmp/omywall_thumbs/remote_{}.jpg", &h[..12]);
    assert_eq!(omywall::thumbs::remote_image_file_checked(url), Some(expected.clone()));
    assert_eq!(omywall::thumbs::remote_image_file(url), expected);
    assert_eq!(omywall::thumbs::remote_image_file_checked(""), None);
    assert!(omywall::thumbs::keeps_decoded_image("/tmp/omywall_thumbs/a.jpg", true));
    assert!(!omywall::thumbs::keeps_decoded_image("/tmp/omywall_thumbs/a.jpg", false));
    assert!(!omywall::thumbs::keeps_decoded_image("/tmp/omywall_workshop_thumbs/1_ab.jpg", false));
    assert!(omywall::thumbs::keeps_decoded_image("/home/u/w.png", false));
}

#[test]
fn catalogue_window_thumbnails() {
    let c = omywall::thumbs::catalogue_thumbnail_commands("/v/a.mp4", "/tmp/omywall_thumbs/a_x.jpg");
    assert_eq!(c.len(), 3);
    assert_eq!(c[0][9], "-f");
    assert_eq!(c[0][10], "image2");
    assert_eq!(c[1], vec!["ffmpeg", "-i", "/v/a.mp4", "-vframes", "1", "-s", "320x180", "-f", "image2", "-y", "/tmp/omywall_thumbs/a_x.jpg"]);
    assert_eq!(c[2][3], "--o=/tmp/omywall_thumbs/a_x.jpg");
    let page = "/usr/share/omywall/assets/web_wallpapers/x/index.html";
    assert_eq!(
        omywall::thumbs::catalogue_page_shot_checked(page),
        Some(format!("/tmp/omywall_thumbs/web_{}.png", hash8(page)))
    );
}
