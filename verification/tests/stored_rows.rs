use vitaforge::data::db::{category_from_key, category_from_name, category_name, platform_from_key, platform_from_name, platform_name};
use vitaforge::data::{AppEntry, Category, Platform};

fn sample() -> AppEntry {
    let mut sample_app = AppEntry {
        id: "app_123".to_string(),
        titleid: "VITAFORGE".to_string(),
        titleid_lower: String::new(),
        content_id: Some("EP0001-VITAFORGE_00-0000000000000000".to_string()),
        name: "Test App".to_string(),
        original_name: None,
        name_lower: String::new(),
        author: "Developer".to_string(),
        author_lower: String::new(),
        description: "A test application".to_string(),
        long_description: "Long test description".to_string(),
        requirements: "None".to_string(),
        changelog: "v1.0".to_string(),
        release_page: None,
        category: Category::Utility,
        platform: Platform::Vita,
        kind: "vpk".to_string(),
        icon_url: Some("https://example.com/icon.png".to_string()),
        cover_url: None,
        background_url: None,
        screenshot_urls: vec!["https://example.com/ss1.png".to_string()],
        download_url: "https://example.com/download.vpk".to_string(),
        source: None,
        version: "1.0.0".to_string(),
        region: Some("EU".to_string()),
        zrif: None,
        source_catalog: "rinnegatamante".to_string(),
        source_labels: vec!["Utility".to_string()],
        hash: "abc".to_string(),
        hash2: "def".to_string(),
        data_url: None,
        data_size_bytes: 1024,
        size_bytes: 2048,
        downloads: 500,
        rating_bits: 4.5f32.to_bits(),
        updated_at: "2026-08-12".to_string(),
        ratings_count: 10,
        likes_count: 20,
        comments_count: 5,
        user_liked: true,
        user_rating: Some(5),
        overview: vec![("Developer".to_string(), "DevName".to_string())],
    };
    sample_app.rebuild_derived();
    sample_app
}

#[test]
fn test_sqlite_catalog_save_and_load() {
    let sample_app = sample();
    let loaded = sample_app.to_row().into_entry();
    assert_eq!(loaded.id, "app_123");
    assert_eq!(loaded.titleid, "VITAFORGE");
    assert_eq!(loaded.name, "Test App");
    assert_eq!(loaded.downloads, 500);
    assert!(loaded.user_liked);
    assert_eq!(loaded.user_rating, Some(5));
    assert_eq!(loaded.overview.len(), 1);
}

#[test]
fn every_field_survives_a_row() {
    let mut e = sample();
    e.downloads = u64::MAX;
    e.size_bytes = 1 << 63;
    e.category = Category::Ps1Game;
    e.platform = Platform::NpsPsx;
    e.user_liked = false;
    let back = e.to_row().into_entry();
    assert_eq!(back.downloads, u64::MAX);
    assert_eq!(back.size_bytes, 1 << 63);
    assert_eq!(back.category, Category::Ps1Game);
    assert_eq!(back.platform, Platform::NpsPsx);
    assert!(!back.user_liked);
    assert_eq!(back.screenshot_urls, e.screenshot_urls);
    assert_eq!(back.source_labels, e.source_labels);
    assert_eq!(back.overview, e.overview);
    assert_eq!(f32::from_bits(back.rating_bits), 4.5);
    assert_eq!(back.name_lower, "test app");
    let row = e.to_row();
    assert_eq!(row.category, "ps1_game");
    assert_eq!(row.platform, "nps_psx");
    assert_eq!(row.downloads, -1);
    assert_eq!(row.screenshot_urls, "[\"https://example.com/ss1.png\"]");
}

#[test]
fn unknown_names_read_as_defaults() {
    for c in [Category::Emulator, Category::PsVitaGame, Category::Tool, Category::Other] {
        assert_eq!(category_from_name(category_name(c)), c);
    }
    for p in [Platform::Vita, Platform::Psp, Platform::Plugin, Platform::NpsVita, Platform::NpsPsp] {
        assert_eq!(platform_from_name(platform_name(p)), p);
    }
    assert_eq!(category_from_name("game"), Category::Utility);
    assert_eq!(platform_from_name("switch"), Platform::Vita);
    let mut row = sample().to_row();
    row.screenshot_urls = "not json".to_owned();
    row.user_liked = 7;
    let back = row.into_entry();
    assert!(back.screenshot_urls.is_empty());
    assert!(back.user_liked);
}

#[test]
fn awkward_list_texts_survive_a_row() {
    let mut e = sample();
    e.screenshot_urls = vec!["a \"quoted\" \\ path".to_owned(), "línea\nnueva".to_owned(), String::new()];
    e.source_labels = vec!["[not, a, list]".to_owned(), "日本".to_owned()];
    e.overview = vec![("Región".to_owned(), "\t{}\"".to_owned())];
    let back = e.to_row().into_entry();
    assert_eq!(back.screenshot_urls, e.screenshot_urls);
    assert_eq!(back.source_labels, e.source_labels);
    assert_eq!(back.overview.len(), 1);
    assert_eq!(back.overview[0].0, "Región");
}

#[test]
fn stored_names_are_read_as_json_strings() {
    assert_eq!(category_from_name("\\u0065mulator"), Category::Emulator);
    assert_eq!(platform_from_name("nps\\u005fpsx"), Platform::NpsPsx);
    assert_eq!(category_from_name("emu\"lator"), Category::Utility);
    assert_eq!(category_from_name("plugin\\"), Category::Utility);
    assert_eq!(platform_from_name(""), Platform::Vita);
    assert_eq!(category_from_key("\\u0065mulator"), Category::Utility);
    assert_eq!(category_from_key("emulator"), Category::Emulator);
    assert_eq!(platform_from_key("psp"), Platform::Psp);
}
