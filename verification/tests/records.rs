use vitaforge::data::api::DEFAULT_API_URL;
use vitaforge::data::record::{
    drop_unavailable_platforms, entries_from_records, plan_catalog, sanitize_comments, CatalogPlan, CatalogVersionInfo,
    Comment, RawApp, Social,
};
use vitaforge::data::{Category, Platform};

fn raw(download_url: &str) -> RawApp {
    RawApp {
        id: 42,
        title_id: Some("PCSE00001".to_owned()),
        content_id: Some("  ".to_owned()),
        name: "Cool &amp; Game 🎮".to_owned(),
        original_name: None,
        overview: Some(vec![("Genre".to_owned(), "Action&nbsp;RPG".to_owned())]),
        author: Some("   ".to_owned()),
        description: Some("A game.".to_owned()),
        long_description: None,
        requirements: None,
        changelog: None,
        release_page: Some(" https://example.com/release ".to_owned()),
        category: "Ports".to_owned(),
        kind: "vpk".to_owned(),
        icon_hash: Some("abc".to_owned()),
        icon_url: Some("/api/v1/images/icon/abc.png?size=medium&format=webp".to_owned()),
        cover_url: None,
        background_url: None,
        screenshot_urls: vec!["/api/v1/images/screenshot/1.png".to_owned(), "https://cdn/2.png".to_owned()],
        download_url: download_url.to_owned(),
        source: Some("https://gitlab.com/x".to_owned()),
        version: None,
        region: Some("EU".to_owned()),
        zrif: Some(" KO5i ".to_owned()),
        source_catalog: None,
        source_labels: vec!["vitadb".to_owned()],
        size: Some("12345".to_owned()),
        install_count: 9,
        rating_bits: 4.5f32.to_bits(),
        ratings_count: 3,
        likes_count: 2,
        comments_count: 1,
        user_liked: true,
        user_rating: Some(5),
        release_date: Some("2024-05-06".to_owned()),
    }
}

#[test]
fn unusable_downloads_are_dropped() {
    assert!(raw("").into_app_entry(DEFAULT_API_URL).is_none());
    assert!(raw("MISSING").into_app_entry(DEFAULT_API_URL).is_none());
    assert!(raw("https://x/get_hb_url.php?id=1").into_app_entry(DEFAULT_API_URL).is_none());
    assert!(raw("https://x/a.vpk").into_app_entry(DEFAULT_API_URL).is_some());
}

#[test]
fn a_record_becomes_a_clean_entry() {
    let e = raw("https://x/a.vpk").into_app_entry(DEFAULT_API_URL).expect("usable");
    assert_eq!(e.id, "42");
    assert_eq!(e.titleid, "PCSE00001");
    assert_eq!(e.titleid_lower, "pcse00001");
    assert_eq!(e.content_id, None);
    assert_eq!(e.name, "Cool & Game");
    assert_eq!(e.name_lower, "cool & game");
    assert_eq!(e.author, "unknown");
    assert_eq!(e.description, "A game.");
    assert_eq!(e.long_description, "");
    assert_eq!(e.version, "1.0");
    assert_eq!(e.release_page, Some("https://example.com/release".to_owned()));
    assert_eq!(e.category, Category::Port);
    assert_eq!(e.platform, Platform::Vita);
    assert_eq!(
        e.icon_url,
        Some("https://vitaforge.josephinoo.dev/api/v1/images/icon/abc.png?size=medium&format=png".to_owned())
    );
    assert_eq!(
        e.cover_url,
        Some("https://vitaforge.josephinoo.dev/api/v1/images/screenshot/1.png?format=jpeg".to_owned())
    );
    assert_eq!(e.screenshot_urls[1], "https://cdn/2.png");
    assert_eq!(e.source, None);
    assert_eq!(e.zrif, Some("KO5i".to_owned()));
    assert_eq!(e.source_catalog, "vitadb");
    assert_eq!(e.size_bytes, 12345);
    assert_eq!(e.downloads, 9);
    assert_eq!(f32::from_bits(e.rating_bits), 4.5);
    assert_eq!(e.updated_at, "2024-05-06");
    assert_eq!(e.overview, vec![("Genre".to_owned(), "Action RPG".to_owned())]);
    assert_eq!(e.sort_epoch(), 20240506);
}

#[test]
fn default_icons_and_foreign_sources_are_dropped() {
    let mut r = raw("https://x/a.vpk");
    r.icon_hash = Some("default".to_owned());
    r.source = Some("https://github.com/a/b".to_owned());
    r.size = Some(" 12".to_owned());
    let e = r.into_app_entry(DEFAULT_API_URL).unwrap();
    assert_eq!(e.icon_url, None);
    assert_eq!(e.source, Some("https://github.com/a/b".to_owned()));
    assert_eq!(e.size_bytes, 0);
}

#[test]
fn a_snapshot_keeps_the_usable_records_in_order() {
    let mut second = raw("https://x/b.vpk");
    second.id = -7;
    let entries = entries_from_records(vec![raw("https://x/a.vpk"), raw(""), second], DEFAULT_API_URL);
    assert_eq!(entries.iter().map(|e| e.id.clone()).collect::<Vec<_>>(), vec!["42", "-7"]);
}

#[test]
fn psp_and_ps1_titles_are_not_offered() {
    let mut a = raw("https://x/a.vpk").into_app_entry(DEFAULT_API_URL).unwrap();
    let mut b = a.clone();
    let mut c = a.clone();
    a.platform = Platform::NpsPsp;
    b.platform = Platform::NpsVita;
    c.platform = Platform::NpsPsx;
    let kept = drop_unavailable_platforms(vec![a, b, c]);
    assert_eq!(kept.len(), 1);
    assert_eq!(kept[0].platform, Platform::NpsVita);
}

#[test]
fn the_cache_is_used_only_when_it_matches_the_server() {
    let v = |version, total_apps| CatalogVersionInfo { version, total_apps, etag: String::new() };
    assert_eq!(plan_catalog(Some(&v(3, 10)), Some(&v(3, 10))), CatalogPlan::UseCached);
    assert_eq!(plan_catalog(Some(&v(3, 10)), Some(&v(3, 11))), CatalogPlan::FetchSnapshot);
    assert_eq!(plan_catalog(None, Some(&v(3, 10))), CatalogPlan::FetchSnapshot);
    assert_eq!(plan_catalog(Some(&v(3, 10)), None), CatalogPlan::UseOffline);
    assert_eq!(plan_catalog(None, None), CatalogPlan::Fail);
}

#[test]
fn fetched_comments_are_cleaned() {
    let mut comments = vec![
        Comment { author_name: "Ana &amp; Bo".to_owned(), content: "Great 🚀 port".to_owned() },
        Comment { author_name: "plain".to_owned(), content: "ok".to_owned() },
    ];
    sanitize_comments(&mut comments);
    assert_eq!(comments[0].author_name, "Ana & Bo");
    assert_eq!(comments[0].content, "Great port");
    assert_eq!(comments[1].content, "ok");
    assert_eq!(Social::default().likes_count, 0);
}
