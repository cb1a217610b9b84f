use vitaforge::data::{AppEntry, Category, Platform, SortDirection, SortOrder, SourceCatalog};

fn sample(name: &str, updated_at: &str) -> AppEntry {
    AppEntry {
        id: "1".to_owned(),
        titleid: "VITA00001".to_owned(),
        titleid_lower: String::new(),
        content_id: None,
        name: name.to_owned(),
        original_name: None,
        name_lower: String::new(),
        author: "Some &amp; One".to_owned(),
        author_lower: String::new(),
        description: "desc\t".to_owned(),
        long_description: String::new(),
        requirements: String::new(),
        changelog: String::new(),
        release_page: None,
        category: Category::Port,
        platform: Platform::Vita,
        kind: String::new(),
        icon_url: None,
        cover_url: None,
        background_url: None,
        screenshot_urls: Vec::new(),
        download_url: "http://example.com".to_owned(),
        source: None,
        version: "1.0".to_owned(),
        region: None,
        zrif: None,
        source_catalog: "vitadb".to_owned(),
        source_labels: Vec::new(),
        hash: String::new(),
        hash2: String::new(),
        data_url: None,
        data_size_bytes: 2048,
        size_bytes: 3 * 1024 * 1024,
        downloads: 0,
        rating_bits: 0,
        updated_at: updated_at.to_owned(),
        ratings_count: 0,
        likes_count: 0,
        comments_count: 0,
        user_liked: false,
        user_rating: None,
        overview: vec![("Genre &amp; Mode".to_owned(), " Action".to_owned())],
    }
}

#[test]
fn source_catalog_matching() {
    assert!(SourceCatalog::VitaDb.matches("vitadb"));
    assert!(SourceCatalog::VitaDb.matches("vitadb_official"));
    assert!(SourceCatalog::VitaDbToo.matches("vitadbtoo"));
    assert!(SourceCatalog::VitaDbToo.matches("vitadb_too"));
    assert!(SourceCatalog::Nps.matches("nps"));
    assert!(!SourceCatalog::VitaDb.matches("vitadbtoo"));
    assert!(!SourceCatalog::VitaDb.matches("nps"));
    assert!(!SourceCatalog::VitaDb.matches("unknown"));
}

#[test]
fn api_categories_are_read_without_regard_to_case() {
    assert_eq!(Category::from_api(" Emulators ", "vpk"), Category::Emulator);
    assert_eq!(Category::from_api("PS VITA GAME", ""), Category::PsVitaGame);
    assert_eq!(Category::from_api("ports", ""), Category::Port);
    assert_eq!(Category::from_api("Game", "PLUGIN"), Category::Plugin);
    assert_eq!(Category::from_api("something", ""), Category::Other);
}

#[test]
fn api_types_pick_the_platform() {
    assert_eq!(Platform::from_api_type("plugin"), Platform::Plugin);
    assert!(Platform::from_api_type("psv_game").is_commercial());
    assert!(!Platform::Vita.is_nps());
    assert_eq!(Platform::default_platform(), Platform::Vita);
}

#[test]
fn source_catalogs_are_recognised_by_their_api_names() {
    assert_eq!(SourceCatalog::from_api("nps"), Some(SourceCatalog::Nps));
    assert_eq!(SourceCatalog::from_api("vitadb_too"), Some(SourceCatalog::VitaDbToo));
    assert_eq!(SourceCatalog::from_api("itch"), None);
    assert_eq!(SourceCatalog::all().len(), 3);
}

#[test]
fn sort_directions_flip_and_default_per_order() {
    assert_eq!(SortDirection::Asc.flipped(), SortDirection::Desc);
    assert_eq!(SortDirection::Desc.flipped().flipped(), SortDirection::Desc);
    assert_eq!(SortOrder::Name.default_direction(), SortDirection::Asc);
    assert_eq!(SortOrder::Size.default_direction(), SortDirection::Desc);
    assert_eq!(SortOrder::all().len(), 5);
}

#[test]
fn dates_become_sortable_stamps() {
    assert_eq!(sample("a", "2025-06-15").sort_epoch(), 20250615);
    assert_eq!(sample("a", "2024-01-01T10:00:00Z").sort_epoch(), 20240101);
    assert_eq!(sample("a", "").sort_epoch(), 0);
    assert_eq!(sample("a", "2024/01/01").sort_epoch(), 0);
    assert_eq!(sample("a", "20x4-01-01").sort_epoch(), 0);
}

#[test]
fn entries_label_their_sizes() {
    let e = sample("a", "");
    assert_eq!(e.size_label(), "3.0 MB");
    assert_eq!(e.data_size_label(), "2 KB");
}

#[test]
fn rebuilding_cleans_texts_and_fills_search_keys() {
    let mut e = sample("Metal 🎮 Slug", "");
    e.rebuild_derived();
    assert_eq!(e.name, "Metal Slug");
    assert_eq!(e.name_lower, "metal slug");
    assert_eq!(e.author, "Some & One");
    assert_eq!(e.author_lower, "some & one");
    assert_eq!(e.titleid_lower, "vita00001");
    assert_eq!(e.description, "desc");
    assert_eq!(e.overview, vec![("Genre & Mode".to_owned(), "Action".to_owned())]);

    let mut blank = sample("シェルノサージュ", "");
    blank.original_name = Some("Shelnoah".to_owned());
    blank.rebuild_derived();
    assert_eq!(blank.name, "Shelnoah");
}
