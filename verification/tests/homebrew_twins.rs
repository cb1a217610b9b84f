use vitaforge::catalog::refresh_filter_checked;
use vitaforge::twins::{collapse_when_dates_readable, twin_dates_readable};
use vitaforge::catalog::{recompute_dropdown_counts, refresh_filter, set_sort, sort_order_indices};
use vitaforge::data::{AppEntry, Category, Platform, SortDirection, SortOrder, SourceCatalog};
use vitaforge::navigation::Selection;
use vitaforge::twins::{
    collapse_homebrew_duplicates, homebrew_source_rank, is_collapsible_homebrew, prefers_homebrew_candidate,
    version_is_older,
};

fn entry(id: &str, source_catalog: &str, size_bytes: u64, downloads: u64, rating: f32, updated_at: &str) -> AppEntry {
    let mut e = AppEntry {
        id: id.to_owned(),
        titleid: String::new(),
        titleid_lower: String::new(),
        content_id: None,
        name: id.to_owned(),
        original_name: None,
        name_lower: String::new(),
        author: "unknown".to_owned(),
        author_lower: String::new(),
        description: String::new(),
        long_description: String::new(),
        requirements: String::new(),
        changelog: String::new(),
        release_page: None,
        category: Category::PsVitaGame,
        platform: Platform::Vita,
        kind: String::new(),
        icon_url: None,
        cover_url: None,
        background_url: None,
        screenshot_urls: Vec::new(),
        download_url: "http://example.com".to_owned(),
        source: None,
        version: "1.0".to_owned(),
        region: None,
        zrif: None,
        source_catalog: source_catalog.to_owned(),
        source_labels: Vec::new(),
        hash: String::new(),
        hash2: String::new(),
        data_url: None,
        data_size_bytes: 0,
        size_bytes,
        downloads,
        rating_bits: rating.to_bits(),
        updated_at: updated_at.to_owned(),
        ratings_count: 0,
        likes_count: 0,
        comments_count: 0,
        user_liked: false,
        user_rating: None,
        overview: Vec::new(),
    };
    e.rebuild_derived();
    e
}

fn entry_titled(id: &str, titleid: &str, source_catalog: &str, downloads: u64) -> AppEntry {
    let mut e = entry(id, source_catalog, 1_000_000, downloads, 4.0, "2024-06-01");
    e.titleid = titleid.to_owned();
    e.name = format!("App {titleid}");
    e.rebuild_derived();
    e
}

struct Grid {
    apps: Vec<AppEntry>,
    indices: Vec<usize>,
    selection: Selection,
}

fn grid(apps: Vec<AppEntry>, order: SortOrder, direction: SortDirection, source: Option<SourceCatalog>) -> Grid {
    let sorted = sort_order_indices(&apps, order, direction);
    let (indices, selection) = refresh_filter(&apps, &sorted, "", None, false, source);
    Grid { apps, indices, selection }
}

fn ordered_ids(g: &Grid) -> Vec<String> {
    g.indices.iter().map(|&i| g.apps[i].id.clone()).collect()
}

fn twin_catalog() -> Vec<AppEntry> {
    vec![
        entry_titled("official-ra", "RETROARCH", "vitadb", 100),
        entry_titled("dbtoo-ra", "RETROARCH", "vitadbtoo", 9_999),
        entry_titled("dbtoo-only", "ONLYTOO", "vitadbtoo", 50),
        entry_titled("nps-same-tid", "RETROARCH", "nps", 0),
    ]
}

#[test]
fn all_catalogs_collapses_homebrew_twins() {
    let g = grid(twin_catalog(), SortOrder::Downloads, SortDirection::Desc, None);
    let ids = ordered_ids(&g);
    assert!(ids.contains(&"official-ra".to_owned()));
    assert!(!ids.contains(&"dbtoo-ra".to_owned()));
    assert!(ids.contains(&"dbtoo-only".to_owned()));
    assert!(ids.contains(&"nps-same-tid".to_owned()));
}

#[test]
fn the_all_catalogs_count_matches_the_collapsed_grid() {
    let g = grid(twin_catalog(), SortOrder::Downloads, SortDirection::Desc, None);
    let counts = recompute_dropdown_counts(&g.apps, None);
    assert_eq!(counts.total_unique_count, ordered_ids(&g).len());
    assert_eq!(counts.source_scoped_count, counts.total_unique_count);
}

#[test]
fn source_filter_vitadbtoo_keeps_dbtoo_twin() {
    let g = grid(twin_catalog(), SortOrder::Downloads, SortDirection::Desc, Some(SourceCatalog::VitaDbToo));
    assert_eq!(ordered_ids(&g), vec!["dbtoo-ra", "dbtoo-only"]);
}

#[test]
fn collapse_does_not_merge_nps_with_homebrew() {
    let apps = vec![entry_titled("hb", "PCSF00092", "vitadb", 10), entry_titled("nps", "PCSF00092", "nps", 0)];
    let g = grid(apps, SortOrder::Name, SortDirection::Asc, None);
    let ids = ordered_ids(&g);
    assert_eq!(ids.len(), 2);
    assert!(ids.contains(&"hb".to_owned()));
    assert!(ids.contains(&"nps".to_owned()));
}

#[test]
fn sort_change_resets_selection_to_first_item() {
    let apps = vec![
        entry("vitadb-small", "vitadb", 1_000_000, 500, 4.0, "2024-01-01"),
        entry("vitadb-big", "vitadb", 900_000_000, 5000, 4.5, "2025-06-15"),
        entry("pkgj-unknown", "nps", 0, 0, 0.0, ""),
        entry("pkgj-known", "nps", 50_000_000, 0, 0.0, ""),
    ];
    let before = grid(apps, SortOrder::Downloads, SortDirection::Desc, None);
    let pos = before.indices.iter().position(|&i| before.apps[i].id == "vitadb-big").unwrap();
    let mut selection = Selection { selected: pos, active: true };
    let (order, direction) = set_sort(SortOrder::Downloads, SortDirection::Desc, SortOrder::Name);
    let after = grid(before.apps, order, direction, None);
    selection = after.selection;
    assert_eq!(selection.selected, 0);
    assert!(selection.active);
}

#[test]
fn versions_compare_part_by_part() {
    assert!(version_is_older("1.2", "1.10"));
    assert!(!version_is_older("1.10", "1.2"));
    assert!(!version_is_older("1.0", "1.0.0"));
    assert!(!version_is_older("1.0.0", "1.0"));
    assert!(version_is_older("1.0", "1.0.1"));
    assert!(version_is_older("v1.9", "v2"));
    assert!(!version_is_older("2.0", "2.0"));
    assert!(version_is_older("", "0.1"));
    assert!(!version_is_older("99999999999999999999999", "18446744073709551615"));
}

#[test]
fn the_newer_twin_wins_whatever_its_catalog() {
    let mut official = entry_titled("official", "VITASHELL", "vitadb", 100);
    official.version = "2.0".to_owned();
    let mut too = entry_titled("too", "VITASHELL", "vitadbtoo", 1);
    too.version = "2.1".to_owned();
    let apps = vec![official, too];
    assert!(prefers_homebrew_candidate(&apps, 1, 0));
    assert!(!prefers_homebrew_candidate(&apps, 0, 1));
    assert_eq!(collapse_homebrew_duplicates(&apps, vec![0, 1]), vec![1]);
}

#[test]
fn ties_go_to_the_icon_then_downloads_then_the_later_update() {
    let mut a = entry_titled("a", "T", "vitadb", 5);
    let mut b = entry_titled("b", "T", "vitadb", 5);
    b.icon_url = Some("http://example.com/icon.png".to_owned());
    assert!(prefers_homebrew_candidate(&vec![a.clone(), b.clone()], 1, 0));
    a.icon_url = b.icon_url.clone();
    a.downloads = 6;
    assert!(prefers_homebrew_candidate(&vec![a.clone(), b.clone()], 0, 1));
    a.downloads = 5;
    a.updated_at = "2025-01-01".to_owned();
    assert!(prefers_homebrew_candidate(&vec![a.clone(), b.clone()], 0, 1));
    assert!(!prefers_homebrew_candidate(&vec![a, b], 1, 0));
}

#[test]
fn only_titled_vitadb_entries_have_twins() {
    assert_eq!(homebrew_source_rank(SourceCatalog::VitaDb), 0);
    assert_eq!(homebrew_source_rank(SourceCatalog::VitaDbToo), 1);
    assert_eq!(homebrew_source_rank(SourceCatalog::Nps), 255);
    assert!(is_collapsible_homebrew(&entry_titled("a", "T", "VitaDB_Official", 0)));
    assert!(is_collapsible_homebrew(&entry_titled("a", "T", "vitadb_too", 0)));
    assert!(!is_collapsible_homebrew(&entry_titled("a", "T", "nps", 0)));
    assert!(!is_collapsible_homebrew(&entry("a", "vitadb", 0, 0, 0.0, "")));
}

#[test]
fn a_title_listed_twice_shows_once_at_its_first_place() {
    let apps = vec![
        entry_titled("x", "X", "vitadb", 1),
        entry_titled("y", "Y", "nps", 1),
        entry_titled("x-too", "X", "vitadbtoo", 1),
    ];
    assert_eq!(collapse_homebrew_duplicates(&apps, vec![2, 1, 0, 0, 1]), vec![1, 0, 1]);
    assert_eq!(collapse_homebrew_duplicates(&apps, vec![]), Vec::<usize>::new());
}

#[test]
fn an_empty_grid_hides_the_selection() {
    let apps = vec![entry_titled("x", "X", "vitadb", 1)];
    let sorted = sort_order_indices(&apps, SortOrder::Name, SortDirection::Asc);
    let (indices, selection) = refresh_filter(&apps, &sorted, "nothing", None, false, None);
    assert!(indices.is_empty());
    assert_eq!(selection, Selection { selected: 0, active: false });
    let (indices, selection) = refresh_filter(&apps, &sorted, "  X ", Some(Category::PsVitaGame), false, None);
    assert_eq!(indices, vec![0]);
    assert!(selection.active);
}

#[test]
fn dropdown_counts_follow_the_chosen_catalog() {
    let apps = twin_catalog();
    let all = recompute_dropdown_counts(&apps, None);
    assert_eq!(all.total_unique_count, 3);
    assert_eq!(all.source_scoped_count, 3);
    assert_eq!(all.source_counts, vec![(SourceCatalog::VitaDb, 1), (SourceCatalog::VitaDbToo, 2), (SourceCatalog::Nps, 1)]);
    assert_eq!(all.category_counts, vec![(Category::PsVitaGame, 3)]);
    let too = recompute_dropdown_counts(&apps, Some(SourceCatalog::VitaDbToo));
    assert_eq!(too.total_unique_count, 3);
    assert_eq!(too.source_scoped_count, 2);
    assert_eq!(too.category_counts, vec![(Category::PsVitaGame, 2)]);
}

#[test]
fn an_unreadable_date_matters_only_when_twins_tie_up_to_it() {
    let mut a = entry_titled("a", "T", "vitadb", 5);
    a.updated_at = "2024-05-0\u{e9}".to_owned();
    let b = entry_titled("b", "T", "vitadb", 6);
    let apps = vec![a.clone(), b];
    assert!(twin_dates_readable(&apps, &vec![0, 1]));
    assert_eq!(collapse_when_dates_readable(&apps, vec![0, 1]), Some(vec![1]));
    let tied = vec![a, entry_titled("c", "T", "vitadb", 5)];
    assert!(!twin_dates_readable(&tied, &vec![0, 1]));
    assert!(twin_dates_readable(&tied, &vec![0]));
    assert_eq!(collapse_when_dates_readable(&tied, vec![0, 1]), None);
    assert!(refresh_filter_checked(&tied, &vec![0, 1], "", None, false, None).is_none());
    assert!(refresh_filter_checked(&tied, &vec![0, 1], "", None, false, Some(SourceCatalog::VitaDb)).is_some());
}
