use vitaforge::sysinfo::{cached_reading, keep_reading, BATTERY_CACHE_TTL_MS, STORAGE_CACHE_TTL_MS};
use vitaforge::client_id::{display_name, encode, generate, stored_id};
use vitaforge::data::cache_manager::{compute_cache_stats, purge_all_cache, CacheStats};
use vitaforge::data::db::get_catalog_db_path;
use vitaforge::data::settings::{set_language, set_sort, Settings};
use vitaforge::data::{SortDirection, SortOrder};
use vitaforge::i18n::Language;
use vitaforge::sysinfo::{battery_percent, clock_hhmm, reading_is_fresh, storage};

#[test]
fn bytes_are_written_as_lower_case_hex() {
    assert_eq!(encode(&[0x00, 0x0f, 0xa5, 0xff]), "000fa5ff");
    assert_eq!(encode(&[]), "");
}

#[test]
fn generated_ids_are_32_hex_digits_and_stable_per_seed() {
    let a = generate(b"seed one");
    assert_eq!(a.len(), 32);
    assert!(a.chars().all(|c| c.is_ascii_hexdigit() && !c.is_ascii_uppercase()));
    assert_eq!(a, generate(b"seed one"));
    assert_ne!(a, generate(b"seed two"));
    assert_eq!(generate(b"abc"), "a9993e364706816aba3e25717850c26c");
}

#[test]
fn the_guest_name_shows_four_characters_of_the_id() {
    assert_eq!(display_name("0123456789abcdef"), "VitaGuest-0123");
    assert_eq!(display_name("ab"), "VitaGuest-ab");
    assert_eq!(stored_id(Some("  cafe \n".to_owned())), Some("cafe".to_owned()));
    assert_eq!(stored_id(Some(" ".to_owned())), None);
    assert_eq!(stored_id(None), None);
}

#[test]
fn the_clock_reads_hours_and_minutes_of_the_day() {
    assert_eq!(clock_hhmm(None), "--:--");
    assert_eq!(clock_hhmm(Some(0)), "00:00");
    assert_eq!(clock_hhmm(Some(3600 * 13 + 60 * 7 + 59)), "13:07");
    assert_eq!(clock_hhmm(Some(86_400 * 3 + 60 * 61)), "01:01");
}

#[test]
fn battery_and_storage_readings_are_checked() {
    assert_eq!(battery_percent(-1), None);
    assert_eq!(battery_percent(57), Some(57));
    assert_eq!(battery_percent(100), Some(100));
    assert_eq!(battery_percent(150), Some(100));
    assert_eq!(battery_percent(300), Some(44));
    assert_eq!(storage(-5, 10, 2), None);
    assert_eq!(storage(0, 0, 0), None);
    assert_eq!(storage(0, 100, 30), Some((70, 100)));
    assert_eq!(storage(0, 100, 130), Some((0, 100)));
    assert!(reading_is_fresh(1000, 5999, 5000));
    assert!(!reading_is_fresh(1000, 6000, 5000));
    assert!(reading_is_fresh(1000, 10, 5000));
}

#[test]
fn cache_sizes_add_up() {
    let stats = compute_cache_stats(10, 20, 5, 7);
    assert_eq!(stats, CacheStats { icons_bytes: 10, catalog_bytes: 25, hashes_bytes: 7, total_bytes: 42 });
    assert_eq!(purge_all_cache(10, 25, 7), stats.total_bytes);
    assert_eq!(CacheStats::empty().total_bytes, 0);
    assert_eq!(get_catalog_db_path(true), "/ux0:data/vitaforge/catalog.db");
    assert_eq!(get_catalog_db_path(false), "data/vitaforge/catalog.db");
}

#[test]
fn settings_keep_each_choice() {
    let mut s = Settings::default();
    assert_eq!(s, Settings { sort_order: SortOrder::Downloads, sort_direction: SortDirection::Desc, language: None });
    set_language(&mut s, Language::Spanish);
    set_sort(&mut s, SortOrder::Name, SortDirection::Asc);
    assert_eq!(s, Settings { sort_order: SortOrder::Name, sort_direction: SortDirection::Asc, language: Some(Language::Spanish) });
    assert_eq!(SortOrder::default(), SortOrder::Downloads);
    assert_eq!(SortDirection::default(), SortDirection::Desc);
}

use vitaforge::sysinfo::{build_stamp, day_of_month};

#[test]
fn build_stamps_read_the_calendar() {
    assert_eq!(build_stamp(1709296440), "01-1234");
    assert_eq!(build_stamp(1704067140), "31-2359");
    assert_eq!(build_stamp(1709165100), "29-0005");
    assert_eq!(build_stamp(0), "01-0000");
    assert_eq!(build_stamp(951808080), "29-0708");
    assert_eq!(day_of_month(59), 1);
    assert_eq!(day_of_month(58), 28);
}

#[test]
fn a_battery_reading_is_reused_for_five_seconds() {
    assert_eq!(cached_reading::<Option<u8>>(None, 0, BATTERY_CACHE_TTL_MS), None);
    let kept = keep_reading(Some(80u8), 1_000);
    assert_eq!(cached_reading(Some(kept), 1_000, BATTERY_CACHE_TTL_MS), Some(Some(80)));
    assert_eq!(cached_reading(Some(kept), 5_999, BATTERY_CACHE_TTL_MS), Some(Some(80)));
    assert_eq!(cached_reading(Some(kept), 6_000, BATTERY_CACHE_TTL_MS), None);
    let storage = keep_reading(Some((10u64, 20u64)), 0);
    assert_eq!(cached_reading(Some(storage), 14_999, STORAGE_CACHE_TTL_MS), Some(Some((10, 20))));
    assert_eq!(cached_reading(Some(storage), 15_000, STORAGE_CACHE_TTL_MS), None);
}
