use vitaforge::icons::{MAX_THROTTLE_ATTEMPTS, 
    cache_digest, cache_path, cache_path_for_digest, hexflow_cover_fallback, is_loading, repaint_delay,
    texture_name, throttle_delay, IconState, DEFAULT_THROTTLE_SECS, EXHAUSTED_RETRY_AFTER_MS, HERO_SIDE, MAX_ATTEMPTS, MAX_ICON_SIDE, RETRY_AFTER_MS,
};

#[test]
fn one_size_shares_the_cached_bytes_of_another() {
    let icon = cache_path("https://x/api/v1/images/screenshot/abc.png?size=medium&format=jpeg");
    let hero = cache_path("https://x/api/v1/images/screenshot/abc.png?size=thumb&format=png");
    assert_eq!(icon, hero);
}

#[test]
fn two_games_first_screenshots_do_not_collide() {
    let gow = cache_path("https://x/scraped_assets/psvita/god_of_war/screenshots/01.jpeg");
    let inc = cache_path("https://x/scraped_assets/psvita/stealth_inc_2/screenshots/01.jpeg");
    assert!(gow.is_some());
    assert_ne!(gow, inc);
}

#[test]
fn hero_and_icon_use_distinct_texture_name_sizes() {
    let a = texture_name("https://x/icon.png", MAX_ICON_SIDE);
    let b = texture_name("https://x/icon.png", HERO_SIDE);
    assert_ne!(a, b);
}

#[test]
fn vitadeck_asset_cover_falls_back_to_hexflow() {
    let url = "https://vitadeck.josephinoo.dev/assets/covers/PCSB00170.png";
    let fb = hexflow_cover_fallback(url).expect("fallback");
    assert!(fb.contains("/images/cover/PCSB00170"), "{fb}");
    assert!(hexflow_cover_fallback(&fb).is_none());
}

#[test]
fn a_throttled_entry_stays_retriable() {
    let now = 1_000_000;
    let throttled: IconState<()> = IconState::Throttled { until: now, attempts: 0 };
    assert!(throttled.retriable(now));
    let exhausted: IconState<()> = IconState::Failed { at: now - RETRY_AFTER_MS, attempts: MAX_ATTEMPTS };
    assert!(!exhausted.retriable(now));
}

#[test]
fn a_throttled_tile_does_not_claim_to_be_loading() {
    let now = 1_000_000;
    let parked: IconState<()> = IconState::Throttled { until: now + 300_000, attempts: 1 };
    assert!(parked.retriable(now), "it should still be retried eventually");
    assert!(!is_loading(Some(&parked), now));
    assert_eq!(repaint_delay(Some(&parked), now), Some(300_000));
}

#[test]
fn exhausted_failures_cool_down_then_expire() {
    let now = 10_000_000;
    let fresh: IconState<()> = IconState::Failed { at: now, attempts: MAX_ATTEMPTS };
    assert!(!fresh.retriable(now));
    let cold: IconState<()> = IconState::Failed { at: now - EXHAUSTED_RETRY_AFTER_MS, attempts: MAX_ATTEMPTS };
    assert!(cold.retriable(now));
    let early: IconState<()> = IconState::Failed { at: now - RETRY_AFTER_MS, attempts: 1 };
    assert!(early.retriable(now));
}

#[test]
fn digests_ignore_the_query_and_need_a_file_name() {
    let d = cache_digest("https://x/a.png?size=1").expect("digest");
    assert_eq!(d.len(), 32);
    assert_eq!(cache_digest("https://x/a.png"), Some(d.clone()));
    assert_eq!(cache_digest("https://x/dir/"), None);
    assert_eq!(cache_path_for_digest("abc"), None);
    let path = cache_path_for_digest(&d).expect("path");
    assert_eq!(path, format!("ux0:data/vitaforge/cache/{}/{}", &d[..2], &d[2..]));
}

#[test]
fn md5_of_a_known_url_is_stable() {
    assert_eq!(cache_digest("abc"), Some("900150983cd24fb0d6963f7d28e17f72".to_owned()));
}

#[test]
fn reads_the_servers_rate_limit_hint() {
    assert_eq!(throttle_delay(Some("2")), 2);
}

#[test]
fn falls_back_to_retry_after_then_to_a_default() {
    assert_eq!(throttle_delay(Some("7")), 7);
    assert_eq!(throttle_delay(None), DEFAULT_THROTTLE_SECS);
    assert_eq!(throttle_delay(Some(" 9 ")), 9);
    assert_eq!(throttle_delay(Some("soon")), DEFAULT_THROTTLE_SECS);
}

use vitaforge::icons::{fetch_fallback, prefetch_budget, prune_meta, spawn_allowed, MAX_META_ENTRIES};

#[test]
fn exhausted_failures_are_remembered_instead_of_being_refetched_forever() {
    let now = 10_000_000;
    let states: Vec<IconState<()>> = vec![IconState::Failed { at: now, attempts: MAX_ATTEMPTS }];
    assert_eq!(prune_meta(&states, now), vec![true], "the record that suppresses the re-request was pruned");
    let fresh: IconState<()> = IconState::Failed { at: now, attempts: MAX_ATTEMPTS };
    assert!(!fresh.retriable(now), "an exhausted URL must cool down before being tried again");
    let cold: IconState<()> = IconState::Failed { at: now - EXHAUSTED_RETRY_AFTER_MS, attempts: MAX_ATTEMPTS };
    assert!(cold.retriable(now), "the cooldown must eventually expire, not be permanent");
}

#[test]
fn meta_eviction_forgets_the_oldest_records_not_the_freshest() {
    let now = 100_000_000;
    let states: Vec<IconState<()>> = (0..(MAX_META_ENTRIES + 1))
        .map(|i| IconState::Failed { at: now - 1000 * (MAX_META_ENTRIES - i) as u64, attempts: MAX_ATTEMPTS })
        .collect();
    let keep = prune_meta(&states, now);
    assert_eq!(keep.iter().filter(|&&k| k).count(), MAX_META_ENTRIES);
    assert!(!keep[0], "the oldest record should be dropped");
    assert!(keep[MAX_META_ENTRIES], "the freshest record was dropped");
}

#[test]
fn stale_throttle_records_go_and_textures_stay() {
    let now = 1_000_000;
    let states: Vec<IconState<()>> = vec![
        IconState::Throttled { until: now - 30_001, attempts: 1 },
        IconState::Throttled { until: now - 30_000, attempts: 1 },
        IconState::Throttled { until: now + 5, attempts: MAX_THROTTLE_ATTEMPTS },
        IconState::Loading,
        IconState::Ready { texture: (), last_used: 1, byte_size: 4 },
    ];
    assert_eq!(prune_meta(&states, now), vec![false, true, false, true, true]);
}

#[test]
fn failed_downloads_fall_back_to_a_mirror_or_the_cover_service() {
    assert_eq!(
        fetch_fallback("https://drdecki.github.io/VitaDBtoo-db/icons/a.png"),
        Some("https://raw.githubusercontent.com/DrDecki/VitaDBtoo-db/main/icons/a.png".to_owned())
    );
    assert_eq!(
        fetch_fallback("https://vitadeck.josephinoo.dev/assets/covers/PCSB00170.png"),
        hexflow_cover_fallback("https://vitadeck.josephinoo.dev/assets/covers/PCSB00170.png")
    );
    assert_eq!(fetch_fallback("https://x/icon.png"), None);
}

#[test]
fn loads_start_only_within_their_budget() {
    assert!(spawn_allowed(true, 0, 1));
    assert!(!spawn_allowed(true, 0, 2));
    assert!(spawn_allowed(false, 23, 5));
    assert!(!spawn_allowed(false, 24, 0));
    assert_eq!(prefetch_budget(0), 4);
    assert_eq!(prefetch_budget(1), 3);
    assert_eq!(prefetch_budget(4), 0);
    assert_eq!(prefetch_budget(9), 0);
}

use vitaforge::icons::{evict_stale, MAX_RESIDENT_BYTES, MAX_RESIDENT_READY};

#[test]
fn eviction_drops_the_least_recently_used_until_the_cache_fits() {
    const MB: usize = 1024 * 1024;
    let plan = evict_stale(&vec![3, 1, 2], &vec![20 * MB, 4 * MB, 2 * MB], 3);
    assert_eq!(plan.evict, vec![false, true, false]);
    assert_eq!(plan.resident_bytes, 22 * MB);
    assert_eq!(plan.ready, 2);
    let protected = evict_stale(&vec![5, 6], &vec![MAX_RESIDENT_BYTES, MB], 5);
    assert_eq!(protected.evict, vec![false, false], "textures in use stay even over budget");
    let fits = evict_stale(&vec![1, 2], &vec![MB, MB], 100);
    assert_eq!(fits.evict, vec![false, false]);
    let many: Vec<u64> = (0..(MAX_RESIDENT_READY as u64 + 3)).rev().collect();
    let plan = evict_stale(&many, &vec![1; MAX_RESIDENT_READY + 3], 1000);
    assert_eq!(plan.ready, MAX_RESIDENT_READY);
    assert_eq!(plan.evict.iter().filter(|&&e| e).count(), 3);
    assert!(plan.evict[MAX_RESIDENT_READY] && plan.evict[MAX_RESIDENT_READY + 1] && plan.evict[MAX_RESIDENT_READY + 2]);
}
