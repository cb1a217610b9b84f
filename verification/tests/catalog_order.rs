use vitaforge::catalog::{backdrop_url, precache_art_urls, set_sort, sort_order_indices, tile_art_url, MAX_PRECACHE_PER_LAUNCH};
use vitaforge::data::{AppEntry, Category, Platform, SortDirection, SortOrder};

fn entry(id: &str, source_catalog: &str, size_bytes: u64, downloads: u64, rating: f32, updated_at: &str) -> AppEntry {
    let mut e = AppEntry {
        id: id.to_owned(),
        titleid: String::new(),
        titleid_lower: String::new(),
        content_id: None,
        name: id.to_owned(),
        original_name: None,
        name_lower: String::new(),
        author: "unknown".to_owned(),
        author_lower: String::new(),
        description: String::new(),
        long_description: String::new(),
        requirements: String::new(),
        changelog: String::new(),
        release_page: None,
        category: Category::PsVitaGame,
        platform: Platform::Vita,
        kind: String::new(),
        icon_url: None,
        cover_url: None,
        background_url: None,
        screenshot_urls: Vec::new(),
        download_url: "http://example.com".to_owned(),
        source: None,
        version: "1.0".to_owned(),
        region: None,
        zrif: None,
        source_catalog: source_catalog.to_owned(),
        source_labels: Vec::new(),
        hash: String::new(),
        hash2: String::new(),
        data_url: None,
        data_size_bytes: 0,
        size_bytes,
        downloads,
        rating_bits: rating.to_bits(),
        updated_at: updated_at.to_owned(),
        ratings_count: 0,
        likes_count: 0,
        comments_count: 0,
        user_liked: false,
        user_rating: None,
        overview: Vec::new(),
    };
    e.rebuild_derived();
    e
}

fn mixed_catalog() -> Vec<AppEntry> {
    vec![
        entry("vitadb-small", "vitadb", 1_000_000, 500, 4.0, "2024-01-01"),
        entry("vitadb-big", "vitadb", 900_000_000, 5000, 4.5, "2025-06-15"),
        entry("pkgj-unknown", "nps", 0, 0, 0.0, ""),
        entry("pkgj-known", "nps", 50_000_000, 0, 0.0, ""),
    ]
}

fn ordered_ids(apps: &[AppEntry], order: SortOrder, direction: SortDirection) -> Vec<String> {
    sort_order_indices(&apps.to_vec(), order, direction).iter().map(|&i| apps[i].id.clone()).collect()
}

#[test]
fn size_ascending_puts_zero_first_as_true_reversal_of_descending() {
    let apps = mixed_catalog();
    let (order, direction) = set_sort(SortOrder::Downloads, SortDirection::Desc, SortOrder::Size);
    let (order, direction) = set_sort(order, direction, SortOrder::Size);
    assert_eq!(direction, SortDirection::Asc);
    assert_eq!(ordered_ids(&apps, order, direction), vec!["pkgj-unknown", "vitadb-small", "pkgj-known", "vitadb-big"]);
}

#[test]
fn size_descending_puts_largest_first_and_unknowns_last() {
    let apps = mixed_catalog();
    let (order, direction) = set_sort(SortOrder::Downloads, SortDirection::Desc, SortOrder::Size);
    assert_eq!(direction, SortDirection::Desc);
    assert_eq!(ordered_ids(&apps, order, direction), vec!["vitadb-big", "pkgj-known", "vitadb-small", "pkgj-unknown"]);
}

#[test]
fn downloads_ascending_puts_zero_first_as_true_reversal_of_descending() {
    let apps = mixed_catalog();
    let (order, direction) = set_sort(SortOrder::Downloads, SortDirection::Desc, SortOrder::Downloads);
    assert_eq!(direction, SortDirection::Asc);
    assert_eq!(ordered_ids(&apps, order, direction), vec!["pkgj-known", "pkgj-unknown", "vitadb-small", "vitadb-big"]);
}

#[test]
fn recent_orders_by_parsed_date_with_empty_last() {
    let apps = mixed_catalog();
    let (order, direction) = set_sort(SortOrder::Downloads, SortDirection::Desc, SortOrder::Recent);
    let ids = ordered_ids(&apps, order, direction);
    assert_eq!(&ids[0], "vitadb-big");
    assert_eq!(&ids[1], "vitadb-small");
    assert!(ids[2] == "pkgj-known" || ids[2] == "pkgj-unknown");
}

#[test]
fn set_sort_same_mode_flips_direction_different_mode_resets_default() {
    let (order, direction) = (SortOrder::Downloads, SortDirection::Desc);
    let (order, direction) = set_sort(order, direction, SortOrder::Downloads);
    assert_eq!(direction, SortDirection::Asc);
    let (order, direction) = set_sort(order, direction, SortOrder::Name);
    assert_eq!(order, SortOrder::Name);
    assert_eq!(direction, SortDirection::Asc);
}

#[test]
fn ratings_and_names_sort_with_stable_ties() {
    let mut apps = mixed_catalog();
    apps.push(entry("vitadb-neg", "vitadb", 0, 0, -1.0, ""));
    assert_eq!(
        ordered_ids(&apps, SortOrder::Rating, SortDirection::Desc),
        vec!["vitadb-big", "vitadb-small", "pkgj-known", "pkgj-unknown", "vitadb-neg"]
    );
    assert_eq!(
        ordered_ids(&apps, SortOrder::Name, SortDirection::Desc),
        vec!["vitadb-small", "vitadb-neg", "vitadb-big", "pkgj-unknown", "pkgj-known"]
    );
    let twins = vec![entry("b", "x", 1, 1, 1.0, ""), entry("a", "x", 1, 1, 1.0, "")];
    let mut same_name = twins.clone();
    same_name[0].name_lower = "same".to_owned();
    same_name[1].name_lower = "same".to_owned();
    assert_eq!(ordered_ids(&same_name, SortOrder::Downloads, SortDirection::Desc), vec!["b", "a"]);
    assert_eq!(ordered_ids(&same_name, SortOrder::Name, SortDirection::Desc), vec!["a", "b"]);
    assert!(ordered_ids(&[], SortOrder::Size, SortDirection::Asc).is_empty());
}

fn art(platform: Platform, icon: Option<&str>, cover: Option<&str>) -> AppEntry {
    let mut e = entry("x", "nps", 0, 0, 0.0, "");
    e.platform = platform;
    e.icon_url = icon.map(str::to_owned);
    e.cover_url = cover.map(str::to_owned);
    e
}

#[test]
fn commercial_entries_precache_their_cover_not_a_missing_icon() {
    let nps = art(Platform::NpsVita, None, Some("https://x/cover.jpg"));
    assert_eq!(tile_art_url(&nps), Some("https://x/cover.jpg"));
    let urls = precache_art_urls(&[nps]);
    assert_eq!(urls, vec!["https://x/cover.jpg".to_owned()]);
}

#[test]
fn homebrew_still_prefers_its_curated_icon() {
    let hb = art(Platform::Vita, Some("https://x/icon.png"), Some("https://x/cover.jpg"));
    assert_eq!(tile_art_url(&hb), Some("https://x/icon.png"));
}

#[test]
fn precache_is_capped_so_one_launch_cannot_burn_the_request_window() {
    let apps: Vec<AppEntry> = (0..MAX_PRECACHE_PER_LAUNCH * 3)
        .map(|_| art(Platform::NpsVita, None, Some("https://x/c.jpg")))
        .collect();
    assert_eq!(precache_art_urls(&apps).len(), MAX_PRECACHE_PER_LAUNCH);
}

#[test]
fn entries_without_art_are_skipped_when_precaching() {
    let apps = vec![
        art(Platform::Vita, None, None),
        art(Platform::Vita, None, Some("https://x/c.jpg")),
        art(Platform::NpsVita, Some("https://x/i.png"), None),
    ];
    assert_eq!(precache_art_urls(&apps), vec!["https://x/c.jpg".to_owned(), "https://x/i.png".to_owned()]);
}

#[test]
fn the_backdrop_prefers_the_background_then_a_screenshot_then_the_cover() {
    let mut e = art(Platform::Vita, None, Some("https://x/cover.jpg"));
    assert_eq!(backdrop_url(&e), Some("https://x/cover.jpg"));
    e.screenshot_urls = vec!["https://x/s1.jpg".to_owned(), "https://x/s2.jpg".to_owned()];
    assert_eq!(backdrop_url(&e), Some("https://x/s1.jpg"));
    e.background_url = Some("https://x/bg.jpg".to_owned());
    assert_eq!(backdrop_url(&e), Some("https://x/bg.jpg"));
    assert_eq!(backdrop_url(&art(Platform::Vita, None, None)), None);
}

use vitaforge::catalog::{apply_social, copy_social_back, filter_indices, position_of_id};
use vitaforge::data::record::Social;
use vitaforge::data::SourceCatalog;

#[test]
fn the_grid_filters_by_category_favourites_source_and_search() {
    let mut apps = mixed_catalog();
    apps[1].user_liked = true;
    apps[2].category = Category::Port;
    let order = sort_order_indices(&apps, SortOrder::Downloads, SortDirection::Desc);
    let ids = |idx: Vec<usize>| idx.iter().map(|&i| apps[i].id.clone()).collect::<Vec<_>>();
    assert_eq!(ids(filter_indices(&apps, &order, "", None, false, None)).len(), 4);
    assert_eq!(ids(filter_indices(&apps, &order, "  VITADB ", None, false, None)), vec!["vitadb-big", "vitadb-small"]);
    assert_eq!(ids(filter_indices(&apps, &order, "", Some(Category::Port), false, None)), vec!["pkgj-unknown"]);
    assert_eq!(ids(filter_indices(&apps, &order, "", None, true, None)), vec!["vitadb-big"]);
    assert_eq!(ids(filter_indices(&apps, &order, "", None, false, Some(SourceCatalog::Nps))), vec!["pkgj-known", "pkgj-unknown"]);
    assert_eq!(position_of_id(&apps, &order, "vitadb-small"), Some(1));
    assert_eq!(position_of_id(&apps, &order, "nope"), None);
}

#[test]
fn community_state_flows_into_and_back_out_of_the_detail_page() {
    let mut apps = mixed_catalog();
    let mut shown = apps[2].clone();
    apply_social(&mut shown, &Social { rating_bits: 3.5f32.to_bits(), ratings_count: 4, likes_count: 9, user_liked: true, user_rating: Some(4) });
    assert_eq!(shown.likes_count, 9);
    shown.comments_count = 2;
    copy_social_back(&mut apps, &shown);
    assert!(apps[2].user_liked);
    assert_eq!(apps[2].comments_count, 2);
    assert_eq!(apps[2].user_rating, Some(4));
    assert!(!apps[0].user_liked);
}

use vitaforge::catalog::{category_counts, source_counts};

#[test]
fn dropdown_counts_skip_empty_choices() {
    let mut apps = mixed_catalog();
    apps[0].category = Category::Port;
    assert_eq!(source_counts(&apps), vec![(SourceCatalog::VitaDb, 2), (SourceCatalog::Nps, 2)]);
    assert_eq!(
        category_counts(&apps, &vec![0, 1, 2, 3]),
        vec![(Category::PsVitaGame, 3), (Category::Port, 1)]
    );
    assert_eq!(category_counts(&apps, &vec![1]), vec![(Category::PsVitaGame, 1)]);
    assert!(source_counts(&Vec::new()).is_empty());
}
