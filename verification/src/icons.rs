//! Artwork cache rules: where a downloaded image is stored, how texture names
//! are formed, which fallback URL a missing cover has, and the pacing of
//! requests to the image server (the request gate).

use vstd::prelude::*;
use md5::Digest;
use crate::client_id::{encode, hex_lower, lemma_hex_lower_ascii};
use crate::strings::{
    chars_of, contains, contains_chars, find_chars, occurs_at, push_char, push_decimal, slice_chars,
    string_from_chars, decimal,
};

verus! {

/// The directory the image cache lives in on the console.
pub const CACHE_DIR: &'static str = "ux0:data/vitaforge/cache";
/// Largest side of a grid icon texture.
pub const MAX_ICON_SIDE: u32 = 128;
/// Largest side of a screenshot texture.
pub const MAX_SCREENSHOT_SIDE: u32 = 480;
/// Largest side of a detail-page hero texture.
pub const HERO_SIDE: u32 = 480;

/// The MD5 digest of some bytes, as the `md-5` crate computes it.
pub uninterp spec fn md5_of(data: Seq<u8>) -> Seq<u8>;

/// `md5::Md5::digest`: the 16-byte MD5 digest of `data`.
#[verifier::external_body]
fn md5_digest(data: &[u8]) -> (r: Vec<u8>)
    ensures
        r@ == md5_of(data@),
        r@.len() == 16,
{
    md5::Md5::digest(data).to_vec()
}

/// The URL without its query string: everything before the first `?`.
pub open spec fn without_query(url: Seq<char>) -> Seq<char> {
    match crate::strings::index_of_from(url, '?', 0) {
        Some(q) => url.take(q),
        None => url,
    }
}

/// The cache key of an image URL: the hex MD5 of the URL without its query, or
/// `None` when the URL names no file (it is empty or ends in `/`).
pub open spec fn cache_digest_text(url: Seq<char>) -> Option<Seq<char>> {
    let clean = without_query(url);
    if clean.len() == 0 || clean.last() == '/' {
        None
    } else {
        Some(hex_lower(md5_of(vstd::utf8::encode_utf8(clean))))
    }
}

/// The texture name of an image at a given size: `url@size`.
pub open spec fn texture_name_text(url: Seq<char>, max_side: u32) -> Seq<char> {
    url.push('@') + decimal(max_side as nat)
}

/// The name under which a texture of `url` at `max_side` is registered.
pub fn texture_name(url: &str, max_side: u32) -> (r: String)
    ensures
        r@ == texture_name_text(url@, max_side),
{
    let mut v = chars_of(url);
    v.push('@');
    push_decimal(&mut v, max_side as u128);
    string_from_chars(&v)
}

/// The cache key of an image URL.
pub fn cache_digest(url: &str) -> (r: Option<String>)
    ensures
        crate::strings::opt_string_view(r) == cache_digest_text(url@),
        r matches Some(d) ==> d@.len() == 32 && vstd::utf8::is_ascii_chars(d@),
{
    let chars = chars_of(url);
    let mut q: usize = 0;
    while q < chars.len() && chars[q] != '?'
        invariant
            q <= chars.len(),
            forall|k: int| 0 <= k < q ==> chars@[k] != '?',
        decreases chars.len() - q,
    {
        q += 1;
    }
    proof {
        if q < chars.len() {
            crate::text::lemma_index_of_from_is(url@, '?', 0, q as int);
        } else {
            crate::text::lemma_index_of_from_none(url@, '?', 0);
            assert(url@.take(q as int) =~= url@);
        }
    }
    let clean = slice_chars(&chars, 0, q);
    assert(clean@ =~= without_query(url@));
    if clean.len() == 0 || clean[clean.len() - 1] == '/' {
        return None;
    }
    let clean_text = string_from_chars(&clean);
    let digest = md5_digest(clean_text.as_str().as_bytes());
    let hex = encode(digest.as_slice());
    proof {
        lemma_hex_lower_ascii(digest@);
    }
    Some(hex)
}

/// The path of a cached image: the cache directory, the digest's first two
/// bytes as a subdirectory, then the rest. `None` unless the digest is 32 bytes long.
pub open spec fn cache_path_text(digest: Seq<char>) -> Option<Seq<char>> {
    let b = vstd::utf8::encode_utf8(digest);
    if b.len() != 32 {
        None
    } else {
        Some((CACHE_DIR@.push('/') + vstd::utf8::decode_utf8(b.take(2))).push('/') + vstd::utf8::decode_utf8(b.skip(2)))
    }
}

/// Splitting a 32-byte digest after two bytes would cut a character in two
/// (slicing the text there panics).
pub open spec fn digest_split_cuts_char(digest: Seq<char>) -> bool {
    let b = vstd::utf8::encode_utf8(digest);
    b.len() == 32 && !vstd::utf8::is_char_boundary(b, 2)
}

/// The path a cached image with this digest is stored at.
pub fn cache_path_for_digest(digest: &str) -> (r: Option<String>)
    requires
        !digest_split_cuts_char(digest@),
        vstd::utf8::encode_utf8(digest@).len() <= usize::MAX,
    ensures
        crate::strings::opt_string_view(r) == cache_path_text(digest@),
{
    if digest.len() != 32 {
        return None;
    }
    let (head, tail) = digest.split_at(2);
    proof {
        broadcast use vstd::utf8::encode_utf8_decode_utf8;
        assert(vstd::utf8::decode_utf8(vstd::utf8::encode_utf8(head@)) == head@);
        assert(vstd::utf8::decode_utf8(vstd::utf8::encode_utf8(tail@)) == tail@);
    }
    let mut path = CACHE_DIR.to_owned();
    push_char(&mut path, '/');
    let head_chars = chars_of(head);
    let mut i: usize = 0;
    let ghost start = path@;
    while i < head_chars.len()
        invariant
            i <= head_chars.len(),
            path@ == start + head_chars@.take(i as int),
        decreases head_chars.len() - i,
    {
        push_char(&mut path, head_chars[i]);
        assert(head_chars@.take(i + 1) =~= head_chars@.take(i as int).push(head_chars@[i as int]));
        i += 1;
    }
    assert(head_chars@.take(head_chars.len() as int) =~= head_chars@);
    push_char(&mut path, '/');
    let tail_chars = chars_of(tail);
    let mut j: usize = 0;
    let ghost mid = path@;
    while j < tail_chars.len()
        invariant
            j <= tail_chars.len(),
            path@ == mid + tail_chars@.take(j as int),
        decreases tail_chars.len() - j,
    {
        push_char(&mut path, tail_chars[j]);
        assert(tail_chars@.take(j + 1) =~= tail_chars@.take(j as int).push(tail_chars@[j as int]));
        j += 1;
    }
    assert(tail_chars@.take(tail_chars.len() as int) =~= tail_chars@);
    assert(path@ =~= (CACHE_DIR@.push('/') + head@).push('/') + tail@);
    Some(path)
}

/// A 32-character ASCII digest is 32 bytes of text and can be split anywhere.
proof fn lemma_ascii_digest_splits(d: Seq<char>)
    requires
        d.len() == 32,
        vstd::utf8::is_ascii_chars(d),
    ensures
        !digest_split_cuts_char(d),
        vstd::utf8::encode_utf8(d).len() == 32,
{
    broadcast use vstd::utf8::is_ascii_chars_encode_utf8, vstd::utf8::is_char_boundary_iff_not_is_continuation_byte,
        vstd::utf8::is_ascii_chars_nat_bound, vstd::utf8::encode_utf8_valid_utf8;
    let b = vstd::utf8::encode_utf8(d);
    assert(b[2] == d[2] as u8);
    assert((d[2] as nat) < 128);
    assert(!vstd::utf8::is_continuation_byte(b[2]));
    assert(vstd::utf8::is_char_boundary(b, 2));
}

/// The cache path of an image URL.
pub open spec fn cache_path_of_url(url: Seq<char>) -> Option<Seq<char>> {
    match cache_digest_text(url) {
        Some(d) => cache_path_text(d),
        None => None,
    }
}

/// Where the image at `url` is cached on disk, if it can be.
pub fn cache_path(url: &str) -> (r: Option<String>)
    ensures
        crate::strings::opt_string_view(r) == cache_path_of_url(url@),
{
    match cache_digest(url) {
        Some(d) => {
            proof {
                lemma_ascii_digest_splits(d@);
            }
            cache_path_for_digest(d.as_str())
        },
        None => None,
    }
}

} // verus!

verus! {

/// The title id a cover URL names: the file name without its extension, when
/// it is 9 to 12 ASCII letters and digits.
pub open spec fn cover_title_id(url: Seq<char>) -> Option<Seq<char>> {
    let id = crate::strings::before_first(crate::strings::after_last(url, '/'), '.');
    if 9 <= id.len() <= 12 && forall|i: int| 0 <= i < id.len() ==> crate::strings::ascii_alnum(#[trigger] id[i]) {
        Some(id)
    } else {
        None
    }
}

/// The cover the VitaForge image service serves for a console cover URL that
/// failed: `None` for URLs that already point at that service, that name no
/// title id, or that are not cover URLs.
pub open spec fn cover_fallback_text(url: Seq<char>) -> Option<Seq<char>> {
    if contains(url, "/api/v1/images/cover/"@) {
        None
    } else {
        match cover_title_id(url) {
            None => None,
            Some(id) => if !(contains(url, "/assets/covers/"@) || contains(url, "/covers/"@)) {
                None
            } else {
                Some("https://vitaforge.josephinoo.dev/api/v1/images/cover/"@ + id + "?size=medium&format=jpeg"@)
            },
        }
    }
}

/// The fallback cover URL for a console cover that could not be fetched.
pub fn hexflow_cover_fallback(url: &str) -> (r: Option<String>)
    ensures
        crate::strings::opt_string_view(r) == cover_fallback_text(url@),
{
    let chars = chars_of(url);
    if contains_chars(&chars, &chars_of("/api/v1/images/cover/")) {
        return None;
    }
    let name = crate::strings::after_last_chars(&chars, '/');
    let id = crate::strings::before_first_chars(&name, '.');
    if !(9 <= id.len() && id.len() <= 12 && crate::strings::all_ascii_alnum(&id)) {
        return None;
    }
    if !(contains_chars(&chars, &chars_of("/assets/covers/")) || contains_chars(&chars, &chars_of("/covers/"))) {
        return None;
    }
    let mut out: Vec<char> = Vec::new();
    crate::strings::push_str_chars(&mut out, "https://vitaforge.josephinoo.dev/api/v1/images/cover/");
    crate::strings::push_chars(&mut out, &id);
    crate::strings::push_str_chars(&mut out, "?size=medium&format=jpeg");
    Some(string_from_chars(&out))
}

} // verus!

verus! {

/// Wait before retrying an image that failed.
pub const RETRY_AFTER_MS: u64 = 5000;
/// Wait before retrying an image that failed `MAX_ATTEMPTS` times.
pub const EXHAUSTED_RETRY_AFTER_MS: u64 = 300_000;
/// Failures after which an image is considered exhausted.
pub const MAX_ATTEMPTS: u32 = 3;
/// Deferrals and rate-limit answers after which an image is given up.
pub const MAX_THROTTLE_ATTEMPTS: u32 = 80;
/// Shortest wait before a deferred image is tried again.
pub const RETRY_DEFERRED_MS: u64 = 80;

/// What the cache knows about one image at one size. `T` is the texture handle.
pub enum IconState<T> {
    /// A download or decode is running.
    Loading,
    /// The texture is resident; `last_used` is the cache clock when it was last shown.
    Ready { texture: T, last_used: u64, byte_size: usize },
    /// The last attempt failed at `at`, after `attempts` attempts.
    Failed { at: u64, attempts: u32 },
    /// The server asked to wait until `until`; `attempts` deferrals so far.
    Throttled { until: u64, attempts: u32 },
}

/// Time elapsed from `from` to `now` (zero if `now` is earlier).
pub open spec fn elapsed(from: u64, now: u64) -> nat {
    if now >= from { (now - from) as nat } else { 0 }
}

/// Whether an image in this state may be requested again at `now`: a failure
/// once its cool-down has passed (five seconds, or five minutes once it failed
/// three times), a throttled image while it has been deferred fewer than 80 times.
pub open spec fn retriable_at<T>(s: IconState<T>, now: u64) -> bool {
    match s {
        IconState::Failed { at, attempts } => elapsed(at, now) >= (if attempts >= MAX_ATTEMPTS {
            EXHAUSTED_RETRY_AFTER_MS
        } else {
            RETRY_AFTER_MS
        }),
        IconState::Throttled { attempts, .. } => attempts < MAX_THROTTLE_ATTEMPTS,
        _ => false,
    }
}

/// Whether a tile showing this image should draw a loading indicator at `now`.
pub open spec fn loading_at<T>(s: Option<IconState<T>>, now: u64) -> bool {
    match s {
        Some(IconState::Loading) => true,
        Some(IconState::Throttled { until, attempts }) => attempts < MAX_THROTTLE_ATTEMPTS && now >= until,
        Some(st) => retriable_at(st, now),
        None => false,
    }
}

/// How soon a tile showing this image should be repainted, if at all.
pub open spec fn repaint_delay_at<T>(s: Option<IconState<T>>, now: u64) -> Option<nat> {
    match s {
        Some(IconState::Loading) => Some(0),
        Some(IconState::Throttled { until, .. }) => Some(elapsed(now, until)),
        Some(st) => if retriable_at(st, now) { Some(0) } else { None },
        None => None,
    }
}

impl<T> IconState<T> {
    /// Whether the image may be requested again at `now`.
    pub fn retriable(&self, now: u64) -> (r: bool)
        ensures
            r == retriable_at(*self, now),
    {
        match self {
            IconState::Failed { at, attempts } => {
                let cooldown = if *attempts >= MAX_ATTEMPTS { EXHAUSTED_RETRY_AFTER_MS } else { RETRY_AFTER_MS };
                let waited = if now >= *at { now - *at } else { 0 };
                waited >= cooldown
            },
            IconState::Throttled { attempts, .. } => *attempts < MAX_THROTTLE_ATTEMPTS,
            _ => false,
        }
    }
}

/// Whether a tile with this cache state shows a loading indicator at `now`.
pub fn is_loading<T>(state: Option<&IconState<T>>, now: u64) -> (r: bool)
    ensures
        r == loading_at(match state { Some(s) => Some(*s), None => None }, now),
{
    match state {
        Some(IconState::Loading) => true,
        Some(IconState::Throttled { until, attempts }) => *attempts < MAX_THROTTLE_ATTEMPTS && now >= *until,
        Some(st) => st.retriable(now),
        None => false,
    }
}

/// How soon a tile with this cache state should be repainted (milliseconds), if at all.
pub fn repaint_delay<T>(state: Option<&IconState<T>>, now: u64) -> (r: Option<u64>)
    ensures
        match r {
            Some(d) => repaint_delay_at(match state { Some(s) => Some(*s), None => None }, now) == Some(d as nat),
            None => repaint_delay_at(match state { Some(s) => Some(*s), None => None }, now) is None,
        },
{
    match state {
        Some(IconState::Loading) => Some(0),
        Some(IconState::Throttled { until, .. }) => Some(if *until >= now { *until - now } else { 0 }),
        Some(st) => if st.retriable(now) { Some(0) } else { None },
        None => None,
    }
}

/// What a request for an image leads to.
#[derive(Clone, Copy, Debug, PartialEq, Eq, Structural)]
pub enum LoadPlan {
    /// The texture is resident: show it.
    Show,
    /// Nothing to do now (loading, cooling down, or given up).
    Wait,
    /// Start a load, counting `attempts` earlier tries, and skip the disk cache
    /// when the server throttled the last try.
    Start { attempts: u32, skip_disk: bool },
}

/// The plan for a request at `now`, given what the cache holds for the image.
pub open spec fn plan_for<T>(s: Option<IconState<T>>, now: u64) -> LoadPlan {
    match s {
        None => LoadPlan::Start { attempts: 0, skip_disk: false },
        Some(IconState::Ready { .. }) => LoadPlan::Show,
        Some(IconState::Loading) => LoadPlan::Wait,
        Some(IconState::Failed { at, attempts }) => {
            let exhausted = attempts >= MAX_ATTEMPTS;
            if elapsed(at, now) < (if exhausted { EXHAUSTED_RETRY_AFTER_MS } else { RETRY_AFTER_MS }) {
                LoadPlan::Wait
            } else {
                LoadPlan::Start { attempts: if exhausted { 0 } else { attempts }, skip_disk: false }
            }
        },
        Some(IconState::Throttled { until, attempts }) => {
            if attempts >= MAX_THROTTLE_ATTEMPTS || now < until {
                LoadPlan::Wait
            } else {
                LoadPlan::Start { attempts, skip_disk: true }
            }
        },
    }
}

/// Decides what to do with a request for an image at `now`.
pub fn plan_load<T>(state: Option<&IconState<T>>, now: u64) -> (r: LoadPlan)
    ensures
        r == plan_for(match state { Some(s) => Some(*s), None => None }, now),
        r matches LoadPlan::Start { attempts, .. } ==> attempts < MAX_THROTTLE_ATTEMPTS,
{
    match state {
        None => LoadPlan::Start { attempts: 0, skip_disk: false },
        Some(IconState::Ready { .. }) => LoadPlan::Show,
        Some(IconState::Loading) => LoadPlan::Wait,
        Some(IconState::Failed { at, attempts }) => {
            let exhausted = *attempts >= MAX_ATTEMPTS;
            let cooldown = if exhausted { EXHAUSTED_RETRY_AFTER_MS } else { RETRY_AFTER_MS };
            let waited = if now >= *at { now - *at } else { 0 };
            if waited < cooldown {
                LoadPlan::Wait
            } else {
                LoadPlan::Start { attempts: if exhausted { 0 } else { *attempts }, skip_disk: false }
            }
        },
        Some(IconState::Throttled { until, attempts }) => {
            if *attempts >= MAX_THROTTLE_ATTEMPTS || now < *until {
                LoadPlan::Wait
            } else {
                LoadPlan::Start { attempts: *attempts, skip_disk: true }
            }
        },
    }
}

/// How a load ended.
pub enum LoadOutcome<T> {
    /// The image decoded into a texture of `byte_size` bytes.
    Ready { texture: T, byte_size: usize },
    /// The server answered with a rate limit asking to wait `after_ms`.
    RateLimited { after_ms: u64 },
    /// The request queue was closed; try again in `retry_in_ms`.
    Deferred { retry_in_ms: u64 },
    /// Download or decode failed.
    Failed,
}

/// The state an image is left in by a load that ended at `now` (the cache
/// clock reading `stamp`) after `attempts` earlier tries.
pub open spec fn settled<T>(outcome: LoadOutcome<T>, attempts: u32, now: u64, stamp: u64) -> IconState<T> {
    match outcome {
        LoadOutcome::Ready { texture, byte_size } => IconState::Ready { texture, last_used: stamp, byte_size },
        LoadOutcome::Deferred { retry_in_ms } => IconState::Throttled {
            until: (now + (if retry_in_ms >= RETRY_DEFERRED_MS { retry_in_ms } else { RETRY_DEFERRED_MS })) as u64,
            attempts: (attempts + 1) as u32,
        },
        LoadOutcome::RateLimited { after_ms } => IconState::Throttled {
            until: (now + after_ms) as u64,
            attempts: (attempts + 1) as u32,
        },
        LoadOutcome::Failed => IconState::Failed { at: now, attempts: (attempts + 1) as u32 },
    }
}

/// Records how a load ended.
pub fn settle<T>(outcome: LoadOutcome<T>, attempts: u32, now: u64, stamp: u64) -> (r: IconState<T>)
    requires
        attempts < MAX_THROTTLE_ATTEMPTS,
        now <= crate::gate::CLOCK_LIMIT_MS,
        outcome matches LoadOutcome::RateLimited { after_ms } ==> after_ms <= crate::gate::CLOCK_LIMIT_MS,
        outcome matches LoadOutcome::Deferred { retry_in_ms } ==> retry_in_ms <= crate::gate::CLOCK_LIMIT_MS,
    ensures
        r == settled(outcome, attempts, now, stamp),
{
    match outcome {
        LoadOutcome::Ready { texture, byte_size } => IconState::Ready { texture, last_used: stamp, byte_size },
        LoadOutcome::Deferred { retry_in_ms } => IconState::Throttled {
            until: now + (if retry_in_ms >= RETRY_DEFERRED_MS { retry_in_ms } else { RETRY_DEFERRED_MS }),
            attempts: attempts + 1,
        },
        LoadOutcome::RateLimited { after_ms } => IconState::Throttled { until: now + after_ms, attempts: attempts + 1 },
        LoadOutcome::Failed => IconState::Failed { at: now, attempts: attempts + 1 },
    }
}

/// An image that failed its third attempt at `at` is not requested again for
/// five minutes, and is requested again after that: the record suppresses
/// re-requests without making them permanent.
pub proof fn exhausted_failures_cool_down<T>(at: u64, attempts: u32, now: u64)
    requires
        attempts >= MAX_ATTEMPTS,
        at <= now,
    ensures
        retriable_at(IconState::<T>::Failed { at, attempts }, now) <==> now - at >= EXHAUSTED_RETRY_AFTER_MS,
        plan_for(Some(IconState::<T>::Failed { at, attempts }), now) == (if now - at >= EXHAUSTED_RETRY_AFTER_MS {
            LoadPlan::Start { attempts: 0, skip_disk: false }
        } else {
            LoadPlan::Wait
        }),
{
}

/// An image the server throttled until a later time stays retriable but does
/// not claim to be loading, and is not requested before that time.
pub proof fn a_throttled_tile_waits_without_claiming_to_load<T>(until: u64, attempts: u32, now: u64)
    requires
        attempts < MAX_THROTTLE_ATTEMPTS,
        now < until,
    ensures
        retriable_at(IconState::<T>::Throttled { until, attempts }, now),
        !loading_at(Some(IconState::<T>::Throttled { until, attempts }), now),
        plan_for(Some(IconState::<T>::Throttled { until, attempts }), now) == LoadPlan::Wait,
{
}

/// Every load that does not end in a texture counts one more attempt, so an
/// image that keeps failing or being throttled is eventually left alone.
pub proof fn unsuccessful_loads_count_attempts<T>(outcome: LoadOutcome<T>, attempts: u32, now: u64, stamp: u64)
    requires
        attempts < MAX_THROTTLE_ATTEMPTS,
        !(outcome is Ready),
    ensures
        match settled(outcome, attempts, now, stamp) {
            IconState::Failed { attempts: a, .. } => a == attempts + 1,
            IconState::Throttled { attempts: a, .. } => a == attempts + 1,
            _ => false,
        },
{
}

/// Wait after a rate-limit answer that gives no usable hint, in seconds.
pub const DEFAULT_THROTTLE_SECS: u64 = 2;

/// The wait a rate-limit answer asks for, in seconds: its hint (the
/// `x-ratelimit-after` header, else `retry-after`) read as a whole number of
/// seconds once trimmed, or two seconds when there is none or it is not a number.
pub open spec fn throttle_secs(hint: Option<Seq<char>>) -> u64 {
    match hint {
        Some(text) => match crate::strings::parse_u64_dec(crate::strings::trim(text)) {
            Some(n) => n,
            None => DEFAULT_THROTTLE_SECS,
        },
        None => DEFAULT_THROTTLE_SECS,
    }
}

/// How long to wait after a rate-limit answer, from its hint header's text.
pub fn throttle_delay(hint: Option<&str>) -> (r: u64)
    ensures
        r == throttle_secs(crate::strings::opt_view(hint)),
{
    match hint {
        Some(text) => {
            let t = crate::strings::trimmed(text);
            match crate::strings::parse_u64_exec(t.as_str()) {
                Some(n) => n,
                None => DEFAULT_THROTTLE_SECS,
            }
        },
        None => DEFAULT_THROTTLE_SECS,
    }
}

/// Failure and throttle records kept at most.
pub const MAX_META_ENTRIES: usize = 2048;

/// A throttle record is dropped once it was deferred too often or its wait
/// ended more than thirty seconds ago.
pub open spec fn stale_at<T>(s: IconState<T>, now: u64) -> bool {
    match s {
        IconState::Throttled { until, attempts } => attempts >= MAX_THROTTLE_ATTEMPTS || now > until + 30_000,
        _ => false,
    }
}

/// The age of a failure or throttle record that is kept for now (how long ago
/// it failed, or how long ago its wait ended); `None` for textures, loads in
/// flight and stale records.
pub open spec fn meta_age<T>(s: IconState<T>, now: u64) -> Option<nat> {
    match s {
        IconState::Failed { at, .. } => Some(elapsed(at, now)),
        IconState::Throttled { until, .. } => if stale_at(s, now) { None } else { Some(elapsed(until, now)) },
        _ => None,
    }
}

/// Record `j` is younger than record `i` (ties go to the earlier record).
pub open spec fn fresher(ages: Seq<Option<nat>>, j: int, i: int) -> bool {
    ages[j] is Some && ages[i] is Some && (ages[j]->0 < ages[i]->0 || (ages[j]->0 == ages[i]->0 && j < i))
}

/// How many of the first `n` records are fresher than record `i`.
pub open spec fn freshness_rank(ages: Seq<Option<nat>>, i: int, n: int) -> nat
    decreases n,
{
    if n <= 0 {
        0
    } else {
        freshness_rank(ages, i, n - 1) + (if fresher(ages, n - 1, i) { 1nat } else { 0nat })
    }
}

/// How many of the first `n` records are failure or throttle records.
pub open spec fn meta_count(ages: Seq<Option<nat>>, n: int) -> nat
    decreases n,
{
    if n <= 0 {
        0
    } else {
        meta_count(ages, n - 1) + (if ages[n - 1] is Some { 1nat } else { 0nat })
    }
}

/// The ages of the records.
pub open spec fn ages_of<T>(states: Seq<IconState<T>>, now: u64) -> Seq<Option<nat>> {
    states.map_values(|s: IconState<T>| meta_age(s, now))
}

/// Whether record `i` survives pruning: stale throttle records go; when there
/// are more than `MAX_META_ENTRIES` failure and throttle records, only the
/// `MAX_META_ENTRIES` freshest stay.
pub open spec fn survives<T>(states: Seq<IconState<T>>, now: u64, i: int) -> bool {
    let ages = ages_of(states, now);
    &&& !stale_at(states[i], now)
    &&& (ages[i] is None || meta_count(ages, states.len() as int) <= MAX_META_ENTRIES
        || freshness_rank(ages, i, states.len() as int) < MAX_META_ENTRIES)
}

fn meta_age_exec<T>(s: &IconState<T>, now: u64) -> (r: Option<u64>)
    ensures
        match r {
            Some(a) => meta_age(*s, now) == Some(a as nat),
            None => meta_age(*s, now) is None,
        },
{
    match s {
        IconState::Failed { at, .. } => Some(if now >= *at { now - *at } else { 0 }),
        IconState::Throttled { until, attempts } => {
            let stale = *attempts >= MAX_THROTTLE_ATTEMPTS || (now > *until && now - *until > 30_000);
            if stale { None } else { Some(if now >= *until { now - *until } else { 0 }) }
        },
        _ => None,
    }
}

/// Which cache records to keep when pruning at `now`: the flags line up with
/// the records.
pub fn prune_meta<T>(states: &Vec<IconState<T>>, now: u64) -> (r: Vec<bool>)
    ensures
        r@.len() == states@.len(),
        forall|i: int| 0 <= i < states@.len() ==> r@[i] == survives(states@, now, i),
{
    let ghost ages = ages_of(states@, now);
    let mut age_list: Vec<Option<u64>> = Vec::new();
    let mut count: usize = 0;
    let mut i: usize = 0;
    while i < states.len()
        invariant
            i <= states@.len(),
            ages == ages_of(states@, now),
            age_list@.len() == i,
            count == meta_count(ages, i as int),
            count <= i,
            forall|k: int| 0 <= k < i ==> match #[trigger] age_list@[k] {
                Some(a) => ages[k] == Some(a as nat),
                None => ages[k] is None,
            },
        decreases states.len() - i,
    {
        let a = meta_age_exec(&states[i], now);
        if a.is_some() {
            count += 1;
        }
        age_list.push(a);
        i += 1;
    }
    let mut keep: Vec<bool> = Vec::new();
    let mut i: usize = 0;
    while i < states.len()
        invariant
            i <= states@.len(),
            ages == ages_of(states@, now),
            age_list@.len() == states@.len(),
            count == meta_count(ages, states@.len() as int),
            keep@.len() == i,
            forall|k: int| 0 <= k < states@.len() ==> match #[trigger] age_list@[k] {
                Some(a) => ages[k] == Some(a as nat),
                None => ages[k] is None,
            },
            forall|k: int| 0 <= k < i ==> keep@[k] == survives(states@, now, k),
        decreases states.len() - i,
    {
        let stale = match &states[i] {
            IconState::Throttled { until, attempts } => *attempts >= MAX_THROTTLE_ATTEMPTS || (now > *until && now - *until > 30_000),
            _ => false,
        };
        let survives_now = if stale {
            false
        } else {
            match age_list[i] {
                None => true,
                Some(age) => {
                    if count <= MAX_META_ENTRIES {
                        true
                    } else {
                        let mut rank: usize = 0;
                        let mut j: usize = 0;
                        while j < age_list.len()
                            invariant
                                j <= age_list@.len(),
                                age_list@.len() == states@.len(),
                                i < states@.len(),
                                age_list@[i as int] == Some(age),
                                ages[i as int] == Some(age as nat),
                                forall|k: int| 0 <= k < states@.len() ==> match #[trigger] age_list@[k] {
                                    Some(a) => ages[k] == Some(a as nat),
                                    None => ages[k] is None,
                                },
                                rank == freshness_rank(ages, i as int, j as int),
                                rank <= j,
                            decreases age_list.len() - j,
                        {
                            match age_list[j] {
                                Some(other) => {
                                    if other < age || (other == age && j < i) {
                                        rank += 1;
                                    }
                                },
                                None => {},
                            }
                            j += 1;
                        }
                        rank < MAX_META_ENTRIES
                    }
                },
            }
        };
        keep.push(survives_now);
        i += 1;
    }
    keep
}

proof fn lemma_rank_grows(ages: Seq<Option<nat>>, i: int, j: int, n: int)
    requires
        0 <= i < ages.len(),
        0 <= j < ages.len(),
        0 <= n <= ages.len(),
        fresher(ages, j, i),
    ensures
        freshness_rank(ages, i, n) >= freshness_rank(ages, j, n) + (if j < n { 1nat } else { 0nat }),
    decreases n,
{
    if n > 0 {
        lemma_rank_grows(ages, i, j, n - 1);
    }
}

/// Pruning forgets the oldest failure and throttle records, never a fresher
/// one in place of an older one.
pub proof fn pruning_forgets_the_oldest_records<T>(states: Seq<IconState<T>>, now: u64, i: int, j: int)
    requires
        0 <= i < states.len(),
        0 <= j < states.len(),
        meta_age(states[i], now) is Some,
        meta_age(states[j], now) is Some,
        survives(states, now, i),
        !survives(states, now, j),
    ensures
        meta_age(states[i], now)->0 <= meta_age(states[j], now)->0,
{
    let ages = ages_of(states, now);
    assert(ages[i] == meta_age(states[i], now));
    assert(ages[j] == meta_age(states[j], now));
    if meta_age(states[i], now)->0 > meta_age(states[j], now)->0 {
        lemma_rank_grows(ages, i, j, states.len() as int);
    }
}

/// A failure record is never pruned while there are at most
/// `MAX_META_ENTRIES` records: it keeps suppressing re-requests until its
/// cool-down ends.
pub proof fn failures_are_remembered<T>(states: Seq<IconState<T>>, now: u64, i: int)
    requires
        0 <= i < states.len(),
        states[i] is Failed,
        meta_count(ages_of(states, now), states.len() as int) <= MAX_META_ENTRIES,
    ensures
        survives(states, now, i),
{
}

/// The image to try when a download failed: the GitHub raw mirror of the
/// VitaDBtoo pages, else the cover service for a console cover, else none.
pub open spec fn fetch_fallback_text(url: Seq<char>) -> Option<Seq<char>> {
    if contains(url, "drdecki.github.io/VitaDBtoo-db/"@) {
        Some(replace_all(url, "drdecki.github.io/VitaDBtoo-db/"@, "raw.githubusercontent.com/DrDecki/VitaDBtoo-db/main/"@))
    } else {
        cover_fallback_text(url)
    }
}

/// Every occurrence of `from` (scanning left to right, not overlapping)
/// replaced by `to` (`str::replace`).
pub open spec fn replace_all(s: Seq<char>, from: Seq<char>, to: Seq<char>) -> Seq<char>
    decreases s.len(),
{
    if from.len() == 0 || s.len() == 0 {
        s
    } else if occurs_at(s, from, 0) {
        to + replace_all(s.skip(from.len() as int), from, to)
    } else {
        seq![s[0]] + replace_all(s.skip(1), from, to)
    }
}

fn replace_all_exec(s: &Vec<char>, from: &Vec<char>, to: &Vec<char>) -> (r: Vec<char>)
    requires
        from@.len() > 0,
    ensures
        r@ == replace_all(s@, from@, to@),
{
    let mut out: Vec<char> = Vec::new();
    let mut i: usize = 0;
    assert(s@.skip(0) =~= s@);
    while i < s.len()
        invariant
            from@.len() > 0,
            i <= s@.len(),
            out@ + replace_all(s@.skip(i as int), from@, to@) == replace_all(s@, from@, to@),
        decreases s.len() - i,
    {
        let ghost rest = s@.skip(i as int);
        if crate::strings::occurs_at_exec(s, from, i) {
            proof {
                assert(occurs_at(rest, from@, 0)) by {
                    assert(rest.subrange(0, from@.len() as int) =~= s@.subrange(i as int, i + from@.len()));
                }
                assert(rest.skip(from@.len() as int) =~= s@.skip(i + from@.len()));
            }
            crate::strings::push_chars(&mut out, to);
            assert(out@ + replace_all(s@.skip(i + from@.len()), from@, to@) == replace_all(s@, from@, to@));
            i += from.len();
        } else {
            proof {
                if occurs_at(rest, from@, 0) {
                    assert(rest.subrange(0, from@.len() as int) =~= s@.subrange(i as int, i + from@.len()));
                }
                assert(rest.skip(1) =~= s@.skip(i + 1));
                assert(rest[0] == s@[i as int]);
            }
            out.push(s[i]);
            assert(out@ + replace_all(s@.skip(i + 1), from@, to@) == replace_all(s@, from@, to@));
            i += 1;
        }
    }
    assert(s@.skip(i as int).len() == 0);
    assert(out@ + replace_all(s@.skip(i as int), from@, to@) =~= out@);
    out
}

/// The URL to try after a failed download, if any.
pub fn fetch_fallback(url: &str) -> (r: Option<String>)
    ensures
        crate::strings::opt_string_view(r) == fetch_fallback_text(url@),
{
    let chars = chars_of(url);
    let from = chars_of("drdecki.github.io/VitaDBtoo-db/");
    proof {
        reveal_strlit("drdecki.github.io/VitaDBtoo-db/");
    }
    if contains_chars(&chars, &from) {
        let to = chars_of("raw.githubusercontent.com/DrDecki/VitaDBtoo-db/main/");
        Some(string_from_chars(&replace_all_exec(&chars, &from, &to)))
    } else {
        hexflow_cover_fallback(url)
    }
}

/// Loads running at once that read from the disk cache.
pub const MAX_CONCURRENT_DECODES: usize = 2;
/// Loads running at once that download.
pub const MAX_CONCURRENT_FETCHES: usize = 6;
/// Download slots kept for what is on screen.
pub const LIVE_RESERVED_SLOTS: usize = 2;
/// Textures waiting for the GPU above which no load starts.
pub const MAX_GPU_BACKLOG_FOR_SPAWN: usize = 24;

/// Whether a new load may start: the GPU is keeping up and fewer loads of its
/// kind (disk or network) are running than allowed.
pub fn spawn_allowed(from_disk: bool, gpu_backlog: usize, in_flight: usize) -> (r: bool)
    ensures
        r == (gpu_backlog < MAX_GPU_BACKLOG_FOR_SPAWN
            && in_flight < (if from_disk { MAX_CONCURRENT_DECODES } else { MAX_CONCURRENT_FETCHES })),
{
    let budget = if from_disk { MAX_CONCURRENT_DECODES } else { MAX_CONCURRENT_FETCHES };
    gpu_backlog < MAX_GPU_BACKLOG_FOR_SPAWN && in_flight < budget
}

/// How many prefetches a frame may start: the download slots not kept for the
/// screen and not in use, at most four.
pub fn prefetch_budget(in_flight: usize) -> (r: usize)
    ensures
        r == (if in_flight >= MAX_CONCURRENT_FETCHES - LIVE_RESERVED_SLOTS {
            0
        } else if MAX_CONCURRENT_FETCHES - LIVE_RESERVED_SLOTS - in_flight < 4 {
            (MAX_CONCURRENT_FETCHES - LIVE_RESERVED_SLOTS - in_flight) as usize
        } else {
            4
        }),
        r <= 4,
{
    let free = MAX_CONCURRENT_FETCHES - LIVE_RESERVED_SLOTS;
    let left = if in_flight >= free { 0 } else { free - in_flight };
    if left < 4 { left } else { 4 }
}

/// Texture bytes kept on the GPU at most.
pub const MAX_RESIDENT_BYTES: usize = 25_165_824;
/// Textures kept on the GPU at most.
pub const MAX_RESIDENT_READY: usize = 160;

/// More texture memory or more textures are resident than allowed.
pub open spec fn over_budget(bytes: nat, ready: nat) -> bool {
    bytes > MAX_RESIDENT_BYTES || ready > MAX_RESIDENT_READY
}

/// Texture `i` was used less recently than texture `j` (ties by position).
pub open spec fn used_before(last_used: Seq<u64>, i: int, j: int) -> bool {
    last_used[i] < last_used[j] || (last_used[i] == last_used[j] && i < j)
}

/// `order` lists every texture once, least recently used first.
pub open spec fn is_lru_order(order: Seq<usize>, last_used: Seq<u64>) -> bool {
    &&& order.len() == last_used.len()
    &&& forall|k: int| 0 <= k < order.len() ==> (order[k] as int) < last_used.len()
    &&& forall|k: int, l: int| 0 <= k < l < order.len() ==> used_before(last_used, order[k] as int, order[l] as int)
}

/// The sum of some sizes.
pub open spec fn total_size(sizes: Seq<usize>) -> nat
    decreases sizes.len(),
{
    if sizes.len() == 0 { 0 } else { total_size(sizes.drop_last()) + sizes.last() as nat }
}

/// Eviction after visiting the first `m` textures of `order`: which textures
/// are evicted, and the resident bytes and count left. A visited texture is
/// evicted while the cache is over budget, unless it was used at or after
/// `protect_after`.
pub open spec fn eviction_walk(
    order: Seq<usize>, last_used: Seq<u64>, sizes: Seq<usize>, protect_after: u64, m: int,
) -> (Seq<bool>, nat, nat)
    decreases m,
{
    if m <= 0 {
        (Seq::new(last_used.len(), |i: int| false), total_size(sizes), last_used.len())
    } else {
        let (evicted, bytes, ready) = eviction_walk(order, last_used, sizes, protect_after, m - 1);
        let i = order[m - 1] as int;
        if !over_budget(bytes, ready) || last_used[i] >= protect_after {
            (evicted, bytes, ready)
        } else {
            (evicted.update(i, true), if bytes >= sizes[i] { (bytes - sizes[i]) as nat } else { 0 }, (ready - 1) as nat)
        }
    }
}

/// What eviction decided: the textures to drop, and what stays resident.
pub struct EvictPlan {
    pub evict: Vec<bool>,
    pub ready: usize,
    pub resident_bytes: usize,
}

/// The textures in least-recently-used order.
fn lru_order(last_used: &Vec<u64>) -> (r: Vec<usize>)
    ensures
        is_lru_order(r@, last_used@),
{
    let mut out: Vec<usize> = Vec::new();
    let mut i: usize = 0;
    while i < last_used.len()
        invariant
            i <= last_used@.len(),
            out@.len() == i,
            forall|k: int| 0 <= k < out@.len() ==> (out@[k] as int) < i,
            forall|k: int, l: int| 0 <= k < l < out@.len() ==> used_before(last_used@, out@[k] as int, out@[l] as int),
        decreases last_used.len() - i,
    {
        let mut p: usize = 0;
        while p < out.len() && last_used[out[p]] <= last_used[i]
            invariant
                p <= out@.len(),
                i < last_used@.len(),
                forall|k: int| 0 <= k < out@.len() ==> (out@[k] as int) < i,
                forall|q: int| 0 <= q < p ==> last_used@[out@[q] as int] <= last_used@[i as int],
            decreases out.len() - p,
        {
            p += 1;
        }
        let ghost s = out@;
        out.insert(p, i);
        assert forall|k: int, l: int| 0 <= k < l < out@.len() implies used_before(last_used@, out@[k] as int, out@[l] as int) by {
            if l < p {
                assert(out@[k] == s[k] && out@[l] == s[l]);
            } else if k > p {
                assert(out@[k] == s[k - 1] && out@[l] == s[l - 1]);
            } else if l == p {
                assert(out@[k] == s[k] && out@[l] == i);
            } else if k == p {
                assert(out@[k] == i && out@[l] == s[l - 1]);
                if l - 1 > p {
                    assert(used_before(last_used@, s[p as int] as int, s[l - 1] as int));
                }
            } else {
                assert(out@[k] == s[k] && out@[l] == s[l - 1]);
            }
        }
        i += 1;
    }
    out
}

/// Which resident textures to drop so that the cache fits its budget: the
/// least recently used first, never one used at or after `protect_after`, and
/// none once the cache fits.
pub fn evict_stale(last_used: &Vec<u64>, sizes: &Vec<usize>, protect_after: u64) -> (r: EvictPlan)
    requires
        sizes@.len() == last_used@.len(),
        total_size(sizes@) <= usize::MAX,
    ensures
        exists|order: Seq<usize>| {
            &&& is_lru_order(order, last_used@)
            &&& eviction_walk(order, last_used@, sizes@, protect_after, last_used@.len() as int) == (
                r.evict@, r.resident_bytes as nat, r.ready as nat)
        },
{
    let order = lru_order(last_used);
    let mut total: usize = 0;
    let mut j: usize = 0;
    while j < sizes.len()
        invariant
            j <= sizes@.len(),
            total_size(sizes@) <= usize::MAX,
            total == total_size(sizes@.take(j as int)),
        decreases sizes.len() - j,
    {
        assert(sizes@.take(j + 1).drop_last() =~= sizes@.take(j as int));
        proof {
            lemma_total_size_prefix(sizes@, j as int + 1);
        }
        total = total + sizes[j];
        j += 1;
    }
    assert(sizes@.take(sizes@.len() as int) =~= sizes@);
    let mut evict: Vec<bool> = Vec::new();
    let mut k: usize = 0;
    while k < last_used.len()
        invariant
            k <= last_used@.len(),
            evict@.len() == k,
            forall|q: int| 0 <= q < k ==> evict@[q] == false,
        decreases last_used.len() - k,
    {
        evict.push(false);
        k += 1;
    }
    assert(evict@ =~= Seq::new(last_used@.len(), |i: int| false));
    let mut bytes = total;
    let mut ready = last_used.len();
    let mut m: usize = 0;
    while m < order.len()
        invariant
            m <= order@.len(),
            is_lru_order(order@, last_used@),
            sizes@.len() == last_used@.len(),
            evict@.len() == last_used@.len(),
            eviction_walk(order@, last_used@, sizes@, protect_after, m as int) == (evict@, bytes as nat, ready as nat),
        decreases order.len() - m,
    {
        let i = order[m];
        let over = bytes > MAX_RESIDENT_BYTES || ready > MAX_RESIDENT_READY;
        if over && last_used[i] < protect_after {
            evict.set(i, true);
            bytes = if bytes >= sizes[i] { bytes - sizes[i] } else { 0 };
            proof {
                lemma_walk_ready_bound(order@, last_used@, sizes@, protect_after, m as int);
            }
            ready = ready - 1;
        }
        m += 1;
    }
    EvictPlan { evict, ready, resident_bytes: bytes }
}

proof fn lemma_total_size_prefix(sizes: Seq<usize>, j: int)
    requires
        0 <= j <= sizes.len(),
    ensures
        total_size(sizes.take(j)) <= total_size(sizes),
    decreases sizes.len(),
{
    if j < sizes.len() {
        assert(sizes.drop_last().take(j) =~= sizes.take(j));
        lemma_total_size_prefix(sizes.drop_last(), j);
    } else {
        assert(sizes.take(j) =~= sizes);
    }
}

proof fn lemma_walk_ready_bound(order: Seq<usize>, last_used: Seq<u64>, sizes: Seq<usize>, protect_after: u64, m: int)
    requires
        0 <= m <= order.len(),
        is_lru_order(order, last_used),
    ensures
        eviction_walk(order, last_used, sizes, protect_after, m).2 + m >= last_used.len(),
        eviction_walk(order, last_used, sizes, protect_after, m).2 <= last_used.len(),
        eviction_walk(order, last_used, sizes, protect_after, m).0.len() == last_used.len(),
    decreases m,
{
    if m > 0 {
        lemma_walk_ready_bound(order, last_used, sizes, protect_after, m - 1);
    }
}

proof fn lemma_walk_len(order: Seq<usize>, last_used: Seq<u64>, sizes: Seq<usize>, p: u64, m: int)
    requires
        0 <= m <= order.len(),
        is_lru_order(order, last_used),
    ensures
        eviction_walk(order, last_used, sizes, p, m).0.len() == last_used.len(),
    decreases m,
{
    if m > 0 {
        lemma_walk_len(order, last_used, sizes, p, m - 1);
    }
}

proof fn lemma_flags_persist(order: Seq<usize>, last_used: Seq<u64>, sizes: Seq<usize>, p: u64, m1: int, m2: int, i: int)
    requires
        0 <= m1 <= m2 <= order.len(),
        is_lru_order(order, last_used),
        0 <= i < last_used.len(),
        eviction_walk(order, last_used, sizes, p, m1).0[i],
    ensures
        eviction_walk(order, last_used, sizes, p, m2).0[i],
    decreases m2,
{
    if m2 > m1 {
        lemma_flags_persist(order, last_used, sizes, p, m1, m2 - 1, i);
        lemma_walk_len(order, last_used, sizes, p, m2 - 1);
    }
}

proof fn lemma_unvisited(order: Seq<usize>, last_used: Seq<u64>, sizes: Seq<usize>, p: u64, m: int, k: int)
    requires
        0 <= m <= k < order.len(),
        is_lru_order(order, last_used),
    ensures
        !eviction_walk(order, last_used, sizes, p, m).0[order[k] as int],
    decreases m,
{
    if m > 0 {
        lemma_unvisited(order, last_used, sizes, p, m - 1, k);
        lemma_walk_len(order, last_used, sizes, p, m - 1);
        assert(used_before(last_used, order[m - 1] as int, order[k] as int));
    }
}

proof fn lemma_protected(order: Seq<usize>, last_used: Seq<u64>, sizes: Seq<usize>, p: u64, m: int, i: int)
    requires
        0 <= m <= order.len(),
        is_lru_order(order, last_used),
        0 <= i < last_used.len(),
        eviction_walk(order, last_used, sizes, p, m).0[i],
    ensures
        last_used[i] < p,
    decreases m,
{
    if m > 0 {
        lemma_walk_len(order, last_used, sizes, p, m - 1);
        let prev = eviction_walk(order, last_used, sizes, p, m - 1);
        if prev.0[i] {
            lemma_protected(order, last_used, sizes, p, m - 1, i);
        }
    } else {
        assert(!eviction_walk(order, last_used, sizes, p, m).0[i]);
    }
}

proof fn lemma_fit_stays(order: Seq<usize>, last_used: Seq<u64>, sizes: Seq<usize>, p: u64, m1: int, m2: int)
    requires
        0 <= m1 <= m2 <= order.len(),
        is_lru_order(order, last_used),
        !over_budget(eviction_walk(order, last_used, sizes, p, m1).1, eviction_walk(order, last_used, sizes, p, m1).2),
    ensures
        eviction_walk(order, last_used, sizes, p, m2) == eviction_walk(order, last_used, sizes, p, m1),
    decreases m2,
{
    if m2 > m1 {
        lemma_fit_stays(order, last_used, sizes, p, m1, m2 - 1);
    }
}

proof fn lemma_kept_means_fit(order: Seq<usize>, last_used: Seq<u64>, sizes: Seq<usize>, p: u64, k: int, m: int)
    requires
        0 <= k < m <= order.len(),
        is_lru_order(order, last_used),
        last_used[order[k] as int] < p,
        !eviction_walk(order, last_used, sizes, p, m).0[order[k] as int],
    ensures
        !over_budget(eviction_walk(order, last_used, sizes, p, m).1, eviction_walk(order, last_used, sizes, p, m).2),
{
    let before = eviction_walk(order, last_used, sizes, p, k);
    lemma_walk_len(order, last_used, sizes, p, k);
    if over_budget(before.1, before.2) {
        assert(eviction_walk(order, last_used, sizes, p, k + 1).0[order[k] as int]);
        lemma_flags_persist(order, last_used, sizes, p, k + 1, m, order[k] as int);
    } else {
        lemma_fit_stays(order, last_used, sizes, p, k, m);
    }
}

/// Eviction never drops a texture used at or after `protect_after` (the one
/// that just loaded, or what the current frame shows).
pub proof fn eviction_spares_recently_used_textures(
    order: Seq<usize>, last_used: Seq<u64>, sizes: Seq<usize>, protect_after: u64, i: int,
)
    requires
        is_lru_order(order, last_used),
        0 <= i < last_used.len(),
        eviction_walk(order, last_used, sizes, protect_after, order.len() as int).0[i],
    ensures
        last_used[i] < protect_after,
{
    lemma_protected(order, last_used, sizes, protect_after, order.len() as int, i);
}

/// Eviction takes the least recently used first: a texture is dropped only
/// if every unprotected texture used before it was dropped too.
pub proof fn eviction_takes_the_least_recently_used_first(
    order: Seq<usize>, last_used: Seq<u64>, sizes: Seq<usize>, protect_after: u64, k: int, l: int,
)
    requires
        is_lru_order(order, last_used),
        0 <= k < l < order.len(),
        eviction_walk(order, last_used, sizes, protect_after, order.len() as int).0[order[l] as int],
        last_used[order[k] as int] < protect_after,
    ensures
        eviction_walk(order, last_used, sizes, protect_after, order.len() as int).0[order[k] as int],
{
    let n = order.len() as int;
    if !eviction_walk(order, last_used, sizes, protect_after, n).0[order[k] as int] {
        if eviction_walk(order, last_used, sizes, protect_after, l).0[order[k] as int] {
            lemma_flags_persist(order, last_used, sizes, protect_after, l, n, order[k] as int);
        }
        lemma_kept_means_fit(order, last_used, sizes, protect_after, k, l);
        lemma_fit_stays(order, last_used, sizes, protect_after, l, n);
        lemma_unvisited(order, last_used, sizes, protect_after, l, l);
    }
}

/// Eviction stops once the cache fits: when an unprotected texture is kept,
/// what stays resident is within budget.
pub proof fn eviction_stops_once_the_cache_fits(
    order: Seq<usize>, last_used: Seq<u64>, sizes: Seq<usize>, protect_after: u64, k: int,
)
    requires
        is_lru_order(order, last_used),
        0 <= k < order.len(),
        last_used[order[k] as int] < protect_after,
        !eviction_walk(order, last_used, sizes, protect_after, order.len() as int).0[order[k] as int],
    ensures
        !over_budget(
            eviction_walk(order, last_used, sizes, protect_after, order.len() as int).1,
            eviction_walk(order, last_used, sizes, protect_after, order.len() as int).2,
        ),
{
    lemma_kept_means_fit(order, last_used, sizes, protect_after, k, order.len() as int);
}


/// A failed image is retried after five seconds with its failures still
/// counted, so each retry that fails again brings it one step closer to the
/// five-minute cool-down: from a failure record with fewer than three
/// attempts, once five seconds have passed, the load starts with that same
/// count, and failing again records one more attempt.
pub proof fn failures_accumulate_across_retries<T>(at: u64, attempts: u32, now: u64, later: u64, stamp: u64)
    requires
        attempts < MAX_ATTEMPTS,
        at <= now,
        now - at >= RETRY_AFTER_MS,
    ensures
        plan_for(Some(IconState::<T>::Failed { at, attempts }), now) == (LoadPlan::Start { attempts, skip_disk: false }),
        settled(LoadOutcome::<T>::Failed, attempts, later, stamp) == (IconState::<T>::Failed { at: later, attempts: (attempts + 1) as u32 }),
{
}

/// An image that fails its third try is left alone for five minutes: starting
/// from no record, three failed loads (each retried once its cool-down is
/// over) leave a record that is not retried within five minutes of the last
/// failure.
pub proof fn three_failures_exhaust_an_image<T>(t1: u64, t2: u64, t3: u64, now: u64, stamp: u64)
    requires
        t1 + RETRY_AFTER_MS <= t2,
        t2 + RETRY_AFTER_MS <= t3,
        t3 <= now,
        now - t3 < EXHAUSTED_RETRY_AFTER_MS,
    ensures
        ({
            let a0: u32 = match plan_for(None::<IconState<T>>, t1) {
                LoadPlan::Start { attempts, .. } => attempts,
                _ => 99,
            };
            let s1 = settled(LoadOutcome::<T>::Failed, a0, t1, stamp);
            let a1: u32 = match plan_for(Some(s1), t2) {
                LoadPlan::Start { attempts, .. } => attempts,
                _ => 99,
            };
            let s2 = settled(LoadOutcome::<T>::Failed, a1, t2, stamp);
            let a2: u32 = match plan_for(Some(s2), t3) {
                LoadPlan::Start { attempts, .. } => attempts,
                _ => 99,
            };
            let s3 = settled(LoadOutcome::<T>::Failed, a2, t3, stamp);
            &&& a0 == 0 && a1 == 1 && a2 == 2
            &&& plan_for(Some(s3), now) == LoadPlan::Wait
        }),
{
}

} // verus!
