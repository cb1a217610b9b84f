use vitaforge::gate::{RequestGate, MAX_BACKOFF_MS, MAX_QUEUE_AHEAD_MS, REQUEST_SPACING_MS};

const START: u64 = 1_000_000;

#[test]
fn requests_are_spaced_out() {
    let mut gate = RequestGate::new(START);
    assert_eq!(gate.try_reserve_slot(START).expect("first slot is free"), 0);
    let second = gate.try_reserve_slot(START).expect("second slot is still within the queue");
    assert!(second >= REQUEST_SPACING_MS - 5, "got {second:?}");
}

#[test]
fn the_launch_queue_stops_growing_instead_of_parking_everyone() {
    let mut gate = RequestGate::new(START);
    let mut granted = 0;
    for _ in 0..1000 {
        match gate.try_reserve_slot(START) {
            Ok(wait) => {
                assert!(wait <= MAX_QUEUE_AHEAD_MS, "queued {wait:?} into the future");
                granted += 1;
            }
            Err(_) => break,
        }
    }
    assert!(granted < 1000, "the queue accepted every request");
    assert!(granted >= 2, "the queue should accept a burst first, got {granted}");
    assert!(gate.try_reserve_slot(START).is_err());
}

#[test]
fn a_huge_server_backoff_cannot_park_every_tile_for_minutes() {
    let mut gate = RequestGate::new(START);
    gate.back_off(START, 600_000);
    assert!(
        gate.next_live_slot() <= START + MAX_BACKOFF_MS + 1000,
        "a single 429 pushed the live queue past the clamp"
    );
    let mut huge = RequestGate::new(START);
    huge.back_off(START, u64::MAX / 2);
    assert_eq!(huge.next_live_slot(), START + MAX_BACKOFF_MS);
}

#[test]
fn a_429_parks_both_lanes_and_reports_the_wait() {
    let mut gate = RequestGate::new(START);
    assert!(gate.rate_limited_for(START).is_none());
    assert!(gate.try_reserve_slot(START).is_ok());

    gate.back_off(START, 300_000);

    let left = gate.rate_limited_for(START).expect("the window should be open");
    assert!(left > 290_000, "got {left:?}");

    let live = gate.try_reserve_slot(START).expect_err("the live lane must be closed");
    assert!(live > 290_000, "got {live:?}");
    let precache = gate.try_reserve_precache_slot(START).expect_err("the precache lane must be closed too");
    assert!(precache > 290_000, "got {precache:?}");
}

#[test]
fn the_server_backoff_is_honoured_not_shortened() {
    let mut gate = RequestGate::new(START);
    gate.back_off(START, 358_000);
    let left = gate.rate_limited_for(START).expect("window open");
    assert!(left > 350_000, "backoff was shortened to {left:?}");
}

#[test]
fn the_window_closes_once_it_has_passed() {
    let mut gate = RequestGate::new(START);
    gate.back_off(START, 1000);
    assert_eq!(gate.rate_limited_for(START + 400), Some(600));
    assert_eq!(gate.rate_limited_for(START + 1000), None);
    assert!(gate.try_reserve_slot(START + 1000).is_ok());
}

#[test]
fn background_requests_yield_to_recent_live_ones() {
    let mut gate = RequestGate::new(START);
    assert!(gate.try_reserve_slot(START).is_ok());
    assert_eq!(gate.try_reserve_precache_slot(START + 50), Err(100));
    assert_eq!(gate.try_reserve_precache_slot(START + 100), Ok(0));
    assert_eq!(gate.try_reserve_precache_slot(START + 100), Ok(15));
}
