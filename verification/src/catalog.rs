//! Catalog views: the order the grid lists entries in, the art a tile shows,
//! and which art is fetched ahead of time.

use vstd::prelude::*;
use crate::data::{AppEntry, Platform, SortDirection, SortOrder};
use crate::data::{epoch_cuts_char, epoch_of};
use crate::strings::chars_of;

verus! {

/// Texts compared character by character (by code point), a prefix first.
/// On UTF-8 text this is the order of `str`'s comparison, which compares bytes.
pub open spec fn text_order(a: Seq<char>, b: Seq<char>) -> int
    decreases a.len(),
{
    if a.len() == 0 {
        if b.len() == 0 { 0 } else { -1 }
    } else if b.len() == 0 {
        1
    } else if a[0] < b[0] {
        -1
    } else if a[0] > b[0] {
        1
    } else {
        text_order(a.drop_first(), b.drop_first())
    }
}

/// Numbers compared.
pub open spec fn number_order(a: nat, b: nat) -> int {
    if a < b { -1 } else if a > b { 1 } else { 0 }
}

/// A comparison read in a direction.
pub open spec fn directed(dir: SortDirection, c: int) -> int {
    match dir {
        SortDirection::Asc => c,
        SortDirection::Desc => -c,
    }
}

proof fn lemma_text_order_flip(a: Seq<char>, b: Seq<char>)
    ensures
        text_order(a, b) == -text_order(b, a),
        -1 <= text_order(a, b) <= 1,
        text_order(a, b) == 0 <==> a == b,
    decreases a.len(),
{
    if a.len() == 0 && b.len() == 0 {
        assert(a =~= b);
    } else if a.len() > 0 && b.len() > 0 && a[0] == b[0] {
        lemma_text_order_flip(a.drop_first(), b.drop_first());
        if a.drop_first() =~= b.drop_first() {
            assert forall|k: int| 0 <= k < a.len() implies a[k] == b[k] by {
                if k > 0 {
                    assert(a[k] == a.drop_first()[k - 1]);
                    assert(b[k] == b.drop_first()[k - 1]);
                }
            }
            assert(a =~= b);
        }
        if a == b {
            assert(a.drop_first() =~= b.drop_first());
        }
    } else if a.len() > 0 && b.len() > 0 {
        assert(a[0] != b[0]);
    }
}

proof fn lemma_text_order_trans(a: Seq<char>, b: Seq<char>, c: Seq<char>)
    requires
        text_order(a, b) <= 0,
        text_order(b, c) <= 0,
    ensures
        text_order(a, c) <= 0,
        text_order(a, b) < 0 || text_order(b, c) < 0 ==> text_order(a, c) < 0,
    decreases a.len(),
{
    lemma_text_order_flip(a, b);
    lemma_text_order_flip(b, c);
    lemma_text_order_flip(a, c);
    if a.len() > 0 && b.len() > 0 && c.len() > 0 && a[0] == b[0] && b[0] == c[0] {
        lemma_text_order_trans(a.drop_first(), b.drop_first(), c.drop_first());
    }
}

/// What an entry is sorted by: a number (the order's value), its lower-case
/// name, and its id.
pub struct SortKey {
    pub number: u64,
    pub name: Vec<char>,
    pub id: Vec<char>,
}

/// The position of an `f32` (given by its bits) in the total order of
/// `f32::total_cmp`, as an unsigned number.
pub open spec fn total_order_rank(bits: u32) -> nat {
    if bits >= 0x8000_0000 { (0xffff_ffff - bits) as nat } else { (bits + 0x8000_0000) as nat }
}

/// The number an entry is sorted by under an order (none for `Name`).
pub open spec fn sort_number(app: AppEntry, order: SortOrder) -> nat {
    match order {
        SortOrder::Downloads => app.downloads as nat,
        SortOrder::Rating => total_order_rank(app.rating_bits),
        SortOrder::Recent => epoch_of(vstd::utf8::encode_utf8(app.updated_at@)) as nat,
        SortOrder::Size => app.size_bytes as nat,
        SortOrder::Name => 0,
    }
}

/// How two sort keys (number, name, id) compare: by the number in the chosen
/// direction and then by name, or for `Name` by name in the chosen direction
/// and then by id.
pub open spec fn compare_parts(
    na: nat, ta: Seq<char>, ia: Seq<char>,
    nb: nat, tb: Seq<char>, ib: Seq<char>,
    order: SortOrder, dir: SortDirection,
) -> int {
    if order == SortOrder::Name {
        let p = directed(dir, text_order(ta, tb));
        if p != 0 { p } else { text_order(ia, ib) }
    } else {
        let p = directed(dir, number_order(na, nb));
        if p != 0 { p } else { text_order(ta, tb) }
    }
}

/// How two entries compare under an order and direction.
pub open spec fn compare_entries(a: AppEntry, b: AppEntry, order: SortOrder, dir: SortDirection) -> int {
    compare_parts(sort_number(a, order), a.name_lower@, a.id@, sort_number(b, order), b.name_lower@, b.id@, order, dir)
}

/// Entry `i` is listed before entry `j`: it compares lower, or equal with a
/// smaller index (the sort is stable).
pub open spec fn listed_before(apps: Seq<AppEntry>, order: SortOrder, dir: SortDirection, i: int, j: int) -> bool {
    let c = compare_entries(apps[i], apps[j], order, dir);
    c < 0 || (c == 0 && i < j)
}

/// `r` lists every entry index once, in the catalog order.
pub open spec fn is_catalog_order(r: Seq<usize>, apps: Seq<AppEntry>, order: SortOrder, dir: SortDirection) -> bool {
    &&& r.len() == apps.len()
    &&& forall|k: int| 0 <= k < r.len() ==> (r[k] as int) < apps.len()
    &&& forall|k: int, l: int| 0 <= k < l < r.len() ==> listed_before(apps, order, dir, r[k] as int, r[l] as int)
}

/// Every entry's update date can be read (sorting by date reads it).
pub open spec fn dates_readable(apps: Seq<AppEntry>) -> bool {
    forall|k: int| 0 <= k < apps.len() ==> !epoch_cuts_char(vstd::utf8::encode_utf8((#[trigger] apps[k]).updated_at@))
}

/// Whether every entry's update date can be read.
pub fn all_dates_readable(apps: &Vec<AppEntry>) -> (r: bool)
    ensures
        r == dates_readable(apps@),
{
    let mut i: usize = 0;
    while i < apps.len()
        invariant
            i <= apps@.len(),
            forall|k: int| 0 <= k < i ==> !epoch_cuts_char(vstd::utf8::encode_utf8((#[trigger] apps@[k]).updated_at@)),
        decreases apps.len() - i,
    {
        if !crate::data::date_is_readable(apps[i].updated_at.as_str()) {
            return false;
        }
        i += 1;
    }
    true
}

proof fn lemma_compare_flip(a: AppEntry, b: AppEntry, order: SortOrder, dir: SortDirection)
    ensures
        compare_entries(a, b, order, dir) == -compare_entries(b, a, order, dir),
{
    lemma_text_order_flip(a.name_lower@, b.name_lower@);
    lemma_text_order_flip(a.id@, b.id@);
}

proof fn lemma_compare_trans(a: AppEntry, b: AppEntry, c: AppEntry, order: SortOrder, dir: SortDirection)
    requires
        compare_entries(a, b, order, dir) < 0,
        compare_entries(b, c, order, dir) <= 0,
    ensures
        compare_entries(a, c, order, dir) < 0,
{
    lemma_text_order_flip(a.name_lower@, b.name_lower@);
    lemma_text_order_flip(b.name_lower@, c.name_lower@);
    lemma_text_order_flip(a.name_lower@, c.name_lower@);
    lemma_text_order_flip(a.id@, b.id@);
    lemma_text_order_flip(b.id@, c.id@);
    if order == SortOrder::Name {
        let ab = text_order(a.name_lower@, b.name_lower@);
        let bc = text_order(b.name_lower@, c.name_lower@);
        match dir {
            SortDirection::Asc => {
                if ab <= 0 && bc <= 0 {
                    lemma_text_order_trans(a.name_lower@, b.name_lower@, c.name_lower@);
                }
                if ab == 0 && bc == 0 {
                    lemma_text_order_trans(a.id@, b.id@, c.id@);
                }
            },
            SortDirection::Desc => {
                if ab >= 0 && bc >= 0 {
                    lemma_text_order_trans(c.name_lower@, b.name_lower@, a.name_lower@);
                }
                if ab == 0 && bc == 0 {
                    lemma_text_order_trans(a.id@, b.id@, c.id@);
                }
            },
        }
    } else {
        let ab = number_order(sort_number(a, order), sort_number(b, order));
        let bc = number_order(sort_number(b, order), sort_number(c, order));
        if ab == 0 && bc == 0 {
            lemma_text_order_trans(a.name_lower@, b.name_lower@, c.name_lower@);
        }
    }
}

fn text_order_exec(a: &Vec<char>, b: &Vec<char>) -> (r: i8)
    ensures
        r as int == text_order(a@, b@),
        -1 <= r <= 1,
{
    proof {
        lemma_text_order_flip(a@, b@);
    }
    assert(a@.skip(0) =~= a@);
    assert(b@.skip(0) =~= b@);
    let mut i: usize = 0;
    while i < a.len() && i < b.len()
        invariant
            i <= a@.len(),
            i <= b@.len(),
            text_order(a@, b@) == text_order(a@.skip(i as int), b@.skip(i as int)),
        decreases a.len() - i,
    {
        let x = a[i];
        let y = b[i];
        assert(a@.skip(i as int)[0] == a@[i as int]);
        assert(b@.skip(i as int)[0] == b@[i as int]);
        if x < y {
            return -1;
        }
        if x > y {
            return 1;
        }
        assert(a@.skip(i as int).drop_first() =~= a@.skip(i + 1));
        assert(b@.skip(i as int).drop_first() =~= b@.skip(i + 1));
        i += 1;
    }
    if i < a.len() {
        1
    } else if i < b.len() {
        -1
    } else {
        0
    }
}

fn number_order_exec(a: u64, b: u64) -> (r: i8)
    ensures
        r as int == number_order(a as nat, b as nat),
{
    if a < b { -1 } else if a > b { 1 } else { 0 }
}

fn directed_exec(dir: SortDirection, c: i8) -> (r: i8)
    requires
        -1 <= c <= 1,
    ensures
        r as int == directed(dir, c as int),
{
    match dir {
        SortDirection::Asc => c,
        SortDirection::Desc => -c,
    }
}

fn rating_rank(bits: u32) -> (r: u64)
    ensures
        r as nat == total_order_rank(bits),
{
    if bits >= 0x8000_0000 { (0xffff_ffff - bits) as u64 } else { bits as u64 + 0x8000_0000 }
}

/// The sort key of an entry under an order.
fn sort_key(app: &AppEntry, order: SortOrder) -> (r: SortKey)
    requires
        order == SortOrder::Recent ==> !epoch_cuts_char(vstd::utf8::encode_utf8(app.updated_at@)),
    ensures
        r.number as nat == sort_number(*app, order),
        r.name@ == app.name_lower@,
        r.id@ == app.id@,
{
    let number: u64 = match order {
        SortOrder::Downloads => app.downloads,
        SortOrder::Rating => rating_rank(app.rating_bits),
        SortOrder::Recent => app.sort_epoch() as u64,
        SortOrder::Size => app.size_bytes,
        SortOrder::Name => 0,
    };
    SortKey { number, name: chars_of(app.name_lower.as_str()), id: chars_of(app.id.as_str()) }
}

fn compare_keys(a: &SortKey, b: &SortKey, order: SortOrder, dir: SortDirection) -> (r: i8)
    ensures
        r as int == compare_parts(a.number as nat, a.name@, a.id@, b.number as nat, b.name@, b.id@, order, dir),
{
    if order == SortOrder::Name {
        let p = directed_exec(dir, text_order_exec(&a.name, &b.name));
        if p != 0 { p } else { text_order_exec(&a.id, &b.id) }
    } else {
        let p = directed_exec(dir, number_order_exec(a.number, b.number));
        if p != 0 { p } else { text_order_exec(&a.name, &b.name) }
    }
}

/// The sorted prefix stays sorted when entry `i`, larger than every index in
/// it, goes in before the first entry that compares above it.
proof fn lemma_insert_keeps_order(
    apps: Seq<AppEntry>, order: SortOrder, dir: SortDirection, s: Seq<usize>, i: usize, p: int,
)
    requires
        i < apps.len(),
        0 <= p <= s.len(),
        forall|k: int| 0 <= k < s.len() ==> (s[k] as int) < i,
        forall|k: int, l: int| 0 <= k < l < s.len() ==> listed_before(apps, order, dir, s[k] as int, s[l] as int),
        forall|q: int| 0 <= q < p ==> compare_entries(apps[i as int], apps[s[q] as int], order, dir) >= 0,
        p < s.len() ==> compare_entries(apps[i as int], apps[s[p] as int], order, dir) < 0,
    ensures
        forall|k: int, l: int| 0 <= k < l < s.insert(p, i).len() ==> listed_before(
            apps, order, dir, s.insert(p, i)[k] as int, s.insert(p, i)[l] as int),
{
    let t = s.insert(p, i);
    assert forall|k: int, l: int| 0 <= k < l < t.len() implies listed_before(apps, order, dir, t[k] as int, t[l] as int) by {
        if l < p {
            assert(t[k] == s[k] && t[l] == s[l]);
        } else if k > p {
            assert(t[k] == s[k - 1] && t[l] == s[l - 1]);
        } else if l == p {
            assert(t[k] == s[k] && t[l] == i);
            lemma_compare_flip(apps[i as int], apps[s[k] as int], order, dir);
        } else if k == p {
            assert(t[k] == i && t[l] == s[l - 1]);
            if l - 1 > p {
                assert(listed_before(apps, order, dir, s[p] as int, s[l - 1] as int));
            } else {
                lemma_compare_flip(apps[s[p] as int], apps[s[p] as int], order, dir);
            }
            lemma_compare_trans(apps[i as int], apps[s[p] as int], apps[s[l - 1] as int], order, dir);
        } else {
            assert(t[k] == s[k] && t[l] == s[l - 1]);
        }
    }
}

/// The catalog order of the entries: every index once, by `compare_entries`,
/// ties in catalog order (the grid's order for a sort and direction).
pub fn sort_order_indices(apps: &Vec<AppEntry>, order: SortOrder, dir: SortDirection) -> (r: Vec<usize>)
    requires
        order == SortOrder::Recent ==> dates_readable(apps@),
    ensures
        is_catalog_order(r@, apps@, order, dir),
{
    let mut keys: Vec<SortKey> = Vec::new();
    let mut j: usize = 0;
    while j < apps.len()
        invariant
            j <= apps@.len(),
            keys@.len() == j,
            order == SortOrder::Recent ==> dates_readable(apps@),
            forall|k: int| 0 <= k < j ==> {
                &&& (#[trigger] keys@[k]).number as nat == sort_number(apps@[k], order)
                &&& keys@[k].name@ == apps@[k].name_lower@
                &&& keys@[k].id@ == apps@[k].id@
            },
        decreases apps.len() - j,
    {
        proof {
            if order == SortOrder::Recent {
                assert(!epoch_cuts_char(vstd::utf8::encode_utf8(apps@[j as int].updated_at@)));
            }
        }
        keys.push(sort_key(&apps[j], order));
        j += 1;
    }
    let mut out: Vec<usize> = Vec::new();
    let mut i: usize = 0;
    while i < apps.len()
        invariant
            i <= apps@.len(),
            keys@.len() == apps@.len(),
            forall|k: int| 0 <= k < apps@.len() ==> {
                &&& (#[trigger] keys@[k]).number as nat == sort_number(apps@[k], order)
                &&& keys@[k].name@ == apps@[k].name_lower@
                &&& keys@[k].id@ == apps@[k].id@
            },
            out@.len() == i,
            forall|k: int| 0 <= k < out@.len() ==> (out@[k] as int) < i,
            forall|k: int, l: int| 0 <= k < l < out@.len() ==> listed_before(apps@, order, dir, out@[k] as int, out@[l] as int),
        decreases apps.len() - i,
    {
        let mut p: usize = 0;
        while p < out.len() && compare_keys(&keys[i], &keys[out[p]], order, dir) >= 0
            invariant
                p <= out@.len(),
                i < apps@.len(),
                keys@.len() == apps@.len(),
                forall|k: int| 0 <= k < apps@.len() ==> {
                    &&& (#[trigger] keys@[k]).number as nat == sort_number(apps@[k], order)
                    &&& keys@[k].name@ == apps@[k].name_lower@
                    &&& keys@[k].id@ == apps@[k].id@
                },
                forall|k: int| 0 <= k < out@.len() ==> (out@[k] as int) < i,
                forall|q: int| 0 <= q < p ==> compare_entries(apps@[i as int], apps@[out@[q] as int], order, dir) >= 0,
            decreases out.len() - p,
        {
            p += 1;
        }
        proof {
            lemma_insert_keeps_order(apps@, order, dir, out@, i, p as int);
        }
        out.insert(p, i);
        i += 1;
    }
    out
}

/// Entries in the two directions of an order: when their numbers (or, for
/// `Name`, their names) differ, one direction lists them the other way round.
pub proof fn flipping_the_direction_reverses_distinct_entries(
    apps: Seq<AppEntry>, order: SortOrder, i: int, j: int,
)
    requires
        0 <= i < apps.len(),
        0 <= j < apps.len(),
        order == SortOrder::Name ==> apps[i].name_lower@ != apps[j].name_lower@,
        order != SortOrder::Name ==> sort_number(apps[i], order) != sort_number(apps[j], order),
    ensures
        listed_before(apps, order, SortDirection::Asc, i, j) <==> listed_before(apps, order, SortDirection::Desc, j, i),
{
    lemma_text_order_flip(apps[i].name_lower@, apps[j].name_lower@);
}

/// The sort a sort button leads to: the same order again flips the
/// direction; another order starts in its default direction.
pub open spec fn next_sort(current: SortOrder, direction: SortDirection, chosen: SortOrder) -> (SortOrder, SortDirection) {
    if current == chosen {
        (current, crate::data::flip(direction))
    } else {
        (chosen, if chosen == SortOrder::Name { SortDirection::Asc } else { SortDirection::Desc })
    }
}

/// The sort after choosing `chosen` while `current`/`direction` is active.
pub fn set_sort(current: SortOrder, direction: SortDirection, chosen: SortOrder) -> (r: (SortOrder, SortDirection))
    ensures
        r == next_sort(current, direction, chosen),
{
    if current == chosen {
        (current, direction.flipped())
    } else {
        (chosen, chosen.default_direction())
    }
}

/// Choosing the active order twice gives back the direction it had.
pub proof fn choosing_the_same_order_twice_restores_it(current: SortOrder, direction: SortDirection)
    ensures
        ({
            let (o1, d1) = next_sort(current, direction, current);
            next_sort(o1, d1, current)
        }) == (current, direction),
{
}

/// How many tiles' art is fetched ahead at launch.
pub const MAX_PRECACHE_PER_LAUNCH: usize = 150;

/// The art a grid tile shows: commercial entries prefer their cover, homebrew
/// its curated icon; either falls back to the other.
pub open spec fn tile_art(app: AppEntry) -> Option<Seq<char>> {
    let icon = crate::strings::opt_string_view(app.icon_url);
    let cover = crate::strings::opt_string_view(app.cover_url);
    if app.platform == Platform::NpsVita || app.platform == Platform::NpsPsp || app.platform == Platform::NpsPsx {
        if cover is Some { cover } else { icon }
    } else {
        if icon is Some { icon } else { cover }
    }
}

fn opt_str(o: &Option<String>) -> (r: Option<&str>)
    ensures
        crate::strings::opt_view(r) == crate::strings::opt_string_view(*o),
{
    match o {
        Some(s) => Some(s.as_str()),
        None => None,
    }
}

/// The art URL of a grid tile.
pub fn tile_art_url(app: &AppEntry) -> (r: Option<&str>)
    ensures
        crate::strings::opt_view(r) == tile_art(*app),
{
    let icon = opt_str(&app.icon_url);
    let cover = opt_str(&app.cover_url);
    if app.platform.is_commercial() {
        if cover.is_some() { cover } else { icon }
    } else {
        if icon.is_some() { icon } else { cover }
    }
}

/// The art URLs of the entries that have one, in order, at most
/// `MAX_PRECACHE_PER_LAUNCH` of them.
pub open spec fn precache_urls(apps: Seq<AppEntry>) -> Seq<Seq<char>>
    decreases apps.len(),
{
    if apps.len() == 0 {
        Seq::empty()
    } else {
        let rest = precache_urls(apps.drop_last());
        match tile_art(apps.last()) {
            Some(u) => if rest.len() < MAX_PRECACHE_PER_LAUNCH { rest.push(u) } else { rest },
            None => rest,
        }
    }
}

/// The art to fetch in the background at launch.
pub fn precache_art_urls(apps: &[AppEntry]) -> (r: Vec<String>)
    ensures
        r@.map_values(|u: String| u@) == precache_urls(apps@),
        r@.len() <= MAX_PRECACHE_PER_LAUNCH,
{
    let mut out: Vec<String> = Vec::new();
    let mut i: usize = 0;
    while i < apps.len()
        invariant
            i <= apps@.len(),
            out@.map_values(|u: String| u@) == precache_urls(apps@.take(i as int)),
            out@.len() <= MAX_PRECACHE_PER_LAUNCH,
        decreases apps.len() - i,
    {
        assert(apps@.take(i + 1).drop_last() =~= apps@.take(i as int));
        if out.len() < MAX_PRECACHE_PER_LAUNCH {
            match tile_art_url(&apps[i]) {
                Some(u) => {
                    let ghost before = out@;
                    out.push(u.to_owned());
                    assert(out@.map_values(|u: String| u@) =~= before.map_values(|u: String| u@).push(u@));
                },
                None => {},
            }
        } else {
            proof {
                lemma_precache_full(apps@, i as int);
            }
        }
        i += 1;
    }
    assert(apps@.take(apps@.len() as int) =~= apps@);
    out
}

proof fn lemma_precache_bounded(apps: Seq<AppEntry>)
    ensures
        precache_urls(apps).len() <= MAX_PRECACHE_PER_LAUNCH,
    decreases apps.len(),
{
    if apps.len() > 0 {
        lemma_precache_bounded(apps.drop_last());
    }
}

proof fn lemma_precache_full(apps: Seq<AppEntry>, i: int)
    requires
        0 <= i < apps.len(),
        precache_urls(apps.take(i)).len() >= MAX_PRECACHE_PER_LAUNCH,
    ensures
        precache_urls(apps.take(i + 1)) == precache_urls(apps.take(i)),
{
    assert(apps.take(i + 1).drop_last() =~= apps.take(i));
}

/// However long the catalog, one launch asks for at most
/// `MAX_PRECACHE_PER_LAUNCH` images ahead of time.
pub proof fn precaching_is_capped(apps: Seq<AppEntry>)
    ensures
        precache_urls(apps).len() <= MAX_PRECACHE_PER_LAUNCH,
{
    lemma_precache_bounded(apps);
}

/// The image behind a detail page: the entry's background, else its first
/// screenshot, else its cover.
pub open spec fn backdrop(entry: AppEntry) -> Option<Seq<char>> {
    match entry.background_url {
        Some(u) => Some(u@),
        None => if entry.screenshot_urls@.len() > 0 {
            Some(entry.screenshot_urls@[0]@)
        } else {
            crate::strings::opt_string_view(entry.cover_url)
        },
    }
}

/// The backdrop URL of a detail page.
pub fn backdrop_url(entry: &AppEntry) -> (r: Option<&str>)
    ensures
        crate::strings::opt_view(r) == backdrop(*entry),
{
    match &entry.background_url {
        Some(u) => Some(u.as_str()),
        None => {
            if entry.screenshot_urls.len() > 0 {
                Some(entry.screenshot_urls[0].as_str())
            } else {
                opt_str(&entry.cover_url)
            }
        },
    }
}

/// Whether an entry matches a lower-case search text: any text matches an
/// empty search; otherwise its name, author or title id (lower case) holds it.
pub open spec fn matches_query(app: AppEntry, query: Seq<char>) -> bool {
    query.len() == 0 || crate::strings::contains(app.name_lower@, query)
        || crate::strings::contains(app.author_lower@, query) || crate::strings::contains(app.titleid_lower@, query)
}

/// Whether an entry passes the grid's filters: the category filter, the
/// favourites filter, the source catalog filter and the search.
pub open spec fn passes_filters(
    app: AppEntry,
    query: Seq<char>,
    category: Option<crate::data::Category>,
    favorites: bool,
    source: Option<crate::data::SourceCatalog>,
) -> bool {
    &&& (category matches Some(c) ==> app.category == c)
    &&& (favorites ==> app.user_liked)
    &&& (source matches Some(s) ==> crate::data::source_matches(s, app.source_catalog@))
    &&& matches_query(app, query)
}

/// The filtered grid: the entries of `order` that pass the filters, in order.
pub open spec fn filtered(
    apps: Seq<AppEntry>,
    order: Seq<usize>,
    query: Seq<char>,
    category: Option<crate::data::Category>,
    favorites: bool,
    source: Option<crate::data::SourceCatalog>,
) -> Seq<usize>
    decreases order.len(),
{
    if order.len() == 0 {
        Seq::empty()
    } else {
        let rest = filtered(apps, order.drop_last(), query, category, favorites, source);
        if passes_filters(apps[order.last() as int], query, category, favorites, source) {
            rest.push(order.last())
        } else {
            rest
        }
    }
}

/// The search text the filters use: the typed text trimmed and in lower case.
pub open spec fn search_key(typed: Seq<char>) -> Seq<char> {
    crate::strings::lowercase(crate::strings::trim(typed))
}

/// The grid's entries: those of the sorted `order` that pass the filters.
pub fn filter_indices(
    apps: &Vec<AppEntry>,
    order: &Vec<usize>,
    search_query: &str,
    category: Option<crate::data::Category>,
    favorites: bool,
    source: Option<crate::data::SourceCatalog>,
) -> (r: Vec<usize>)
    requires
        forall|k: int| 0 <= k < order@.len() ==> (order@[k] as int) < apps@.len(),
    ensures
        r@ == filtered(apps@, order@, search_key(search_query@), category, favorites, source),
{
    let trimmed = crate::strings::trimmed(search_query);
    let query = crate::strings::to_lowercase(trimmed.as_str());
    let mut out: Vec<usize> = Vec::new();
    let mut i: usize = 0;
    while i < order.len()
        invariant
            i <= order@.len(),
            query@ == search_key(search_query@),
            forall|k: int| 0 <= k < order@.len() ==> (order@[k] as int) < apps@.len(),
            out@ == filtered(apps@, order@.take(i as int), query@, category, favorites, source),
        decreases order.len() - i,
    {
        assert(order@.take(i + 1).drop_last() =~= order@.take(i as int));
        let app = &apps[order[i]];
        let category_ok = match category {
            Some(c) => app.category == c,
            None => true,
        };
        let source_ok = match source {
            Some(s) => s.matches(app.source_catalog.as_str()),
            None => true,
        };
        let query_ok = query.as_str().is_empty() || crate::strings::str_contains(app.name_lower.as_str(), query.as_str())
            || crate::strings::str_contains(app.author_lower.as_str(), query.as_str())
            || crate::strings::str_contains(app.titleid_lower.as_str(), query.as_str());
        if category_ok && (!favorites || app.user_liked) && source_ok && query_ok {
            out.push(order[i]);
        }
        i += 1;
    }
    assert(order@.take(order@.len() as int) =~= order@);
    out
}

/// Every entry in the filtered grid passes the filters.
pub proof fn the_grid_only_lists_matching_entries(
    apps: Seq<AppEntry>,
    order: Seq<usize>,
    query: Seq<char>,
    category: Option<crate::data::Category>,
    favorites: bool,
    source: Option<crate::data::SourceCatalog>,
)
    ensures
        forall|k: int| 0 <= k < filtered(apps, order, query, category, favorites, source).len() ==> passes_filters(
            apps[#[trigger] filtered(apps, order, query, category, favorites, source)[k] as int], query, category, favorites, source),
        filtered(apps, order, query, category, favorites, source).len() <= order.len(),
    decreases order.len(),
{
    if order.len() > 0 {
        the_grid_only_lists_matching_entries(apps, order.drop_last(), query, category, favorites, source);
    }
}


proof fn lemma_filtered_from_order(
    apps: Seq<AppEntry>,
    order: Seq<usize>,
    query: Seq<char>,
    category: Option<crate::data::Category>,
    favorites: bool,
    source: Option<crate::data::SourceCatalog>,
)
    ensures
        forall|k: int| 0 <= k < filtered(apps, order, query, category, favorites, source).len()
            ==> order.contains(#[trigger] filtered(apps, order, query, category, favorites, source)[k]),
    decreases order.len(),
{
    if order.len() > 0 {
        let rest = order.drop_last();
        lemma_filtered_from_order(apps, rest, query, category, favorites, source);
        let f = filtered(apps, order, query, category, favorites, source);
        let f0 = filtered(apps, rest, query, category, favorites, source);
        assert forall|k: int| 0 <= k < f.len() implies order.contains(#[trigger] f[k]) by {
            if k < f0.len() {
                assert(f[k] == f0[k]);
                assert(rest.contains(f0[k]));
                let j = choose|j: int| 0 <= j < rest.len() && rest[j] == f0[k];
                assert(order[j] == f[k]);
            } else {
                assert(order[order.len() - 1] == f[k]);
            }
        }
    }
}

/// The grid after its filters change: the sorted entries that pass the
/// filters, with each homebrew title shown once when no source catalog is
/// chosen.
pub open spec fn refreshed_grid(
    apps: Seq<AppEntry>,
    sorted: Seq<usize>,
    query: Seq<char>,
    category: Option<crate::data::Category>,
    favorites: bool,
    source: Option<crate::data::SourceCatalog>,
) -> Seq<usize> {
    match source {
        None => crate::twins::collapsed(apps, filtered(apps, sorted, query, category, favorites, source)),
        Some(_) => filtered(apps, sorted, query, category, favorites, source),
    }
}

/// The refresh reads only dates that can be read: with a source catalog
/// chosen nothing is collapsed; otherwise the collapse of the filtered grid
/// compares only such twins.
pub open spec fn refresh_reads_dates_safely(
    apps: Seq<AppEntry>,
    sorted: Seq<usize>,
    query: Seq<char>,
    category: Option<crate::data::Category>,
    favorites: bool,
    source: Option<crate::data::SourceCatalog>,
) -> bool {
    source is None ==> crate::twins::compared_dates_readable(apps, filtered(apps, sorted, query, category, favorites, source))
}

/// The grid after its filters change (see `refreshed_grid`), and the
/// selection, back on the first tile, shown when the grid is not empty.
pub fn refresh_filter(
    apps: &Vec<AppEntry>,
    sorted: &Vec<usize>,
    search_query: &str,
    category: Option<crate::data::Category>,
    favorites: bool,
    source: Option<crate::data::SourceCatalog>,
) -> (r: (Vec<usize>, crate::navigation::Selection))
    requires
        crate::twins::listed_in(apps@, sorted@),
        refresh_reads_dates_safely(apps@, sorted@, search_key(search_query@), category, favorites, source),
    ensures
        r.0@ == refreshed_grid(apps@, sorted@, search_key(search_query@), category, favorites, source),
        r.1 == (crate::navigation::Selection { selected: 0, active: r.0@.len() > 0 }),
{
    match refresh_filter_checked(apps, sorted, search_query, category, favorites, source) {
        Some(r) => r,
        None => {
            proof {
                assert(false);
            }
            (Vec::new(), crate::navigation::Selection { selected: 0, active: false })
        },
    }
}

/// The grid after its filters change and the reset selection, as
/// `refresh_filter` gives them; or `None` when collapsing the grid would
/// compare two twins by a date that cannot be read.
pub fn refresh_filter_checked(
    apps: &Vec<AppEntry>,
    sorted: &Vec<usize>,
    search_query: &str,
    category: Option<crate::data::Category>,
    favorites: bool,
    source: Option<crate::data::SourceCatalog>,
) -> (r: Option<(Vec<usize>, crate::navigation::Selection)>)
    requires
        crate::twins::listed_in(apps@, sorted@),
    ensures
        r is Some <==> refresh_reads_dates_safely(apps@, sorted@, search_key(search_query@), category, favorites, source),
        r matches Some(p) ==> {
            &&& p.0@ == refreshed_grid(apps@, sorted@, search_key(search_query@), category, favorites, source)
            &&& p.1 == (crate::navigation::Selection { selected: 0, active: p.0@.len() > 0 })
        },
{
    let shown = filter_indices(apps, sorted, search_query, category, favorites, source);
    let grid = match source {
        None => {
            proof {
                lemma_filtered_from_order(apps@, sorted@, search_key(search_query@), category, favorites, source);
                assert forall|k: int| 0 <= k < shown@.len() implies (shown@[k] as int) < apps@.len() by {
                    assert(sorted@.contains(shown@[k]));
                    let j = choose|j: int| 0 <= j < sorted@.len() && sorted@[j] == shown@[k];
                }
            }
            match crate::twins::collapse_when_dates_readable(apps, shown) {
                Some(g) => g,
                None => {
                    return None;
                },
            }
        },
        Some(_) => shown,
    };
    let active = grid.len() > 0;
    Some((grid, crate::navigation::Selection { selected: 0, active }))
}

/// The position in `indices` of the first entry with id `id`, if any.
pub fn position_of_id(apps: &Vec<AppEntry>, indices: &Vec<usize>, id: &str) -> (r: Option<usize>)
    requires
        forall|k: int| 0 <= k < indices@.len() ==> (indices@[k] as int) < apps@.len(),
    ensures
        match r {
            Some(p) => p < indices@.len() && apps@[indices@[p as int] as int].id@ == id@
                && forall|k: int| 0 <= k < p ==> apps@[indices@[k] as int].id@ != id@,
            None => forall|k: int| 0 <= k < indices@.len() ==> apps@[indices@[k] as int].id@ != id@,
        },
{
    let mut p: usize = 0;
    while p < indices.len()
        invariant
            p <= indices@.len(),
            forall|k: int| 0 <= k < indices@.len() ==> (indices@[k] as int) < apps@.len(),
            forall|k: int| 0 <= k < p ==> apps@[indices@[k] as int].id@ != id@,
        decreases indices.len() - p,
    {
        if crate::strings::str_equals(apps[indices[p]].id.as_str(), id) {
            return Some(p);
        }
        p += 1;
    }
    None
}

/// Takes the community state the server reported into an entry.
pub fn apply_social(app: &mut AppEntry, social: &crate::data::record::Social)
    ensures
        final(app).rating_bits == social.rating_bits,
        final(app).ratings_count == social.ratings_count,
        final(app).likes_count == social.likes_count,
        final(app).user_liked == social.user_liked,
        final(app).user_rating == social.user_rating,
        final(app).id == old(app).id,
        final(app).comments_count == old(app).comments_count,
        final(app).name == old(app).name,
        final(app).downloads == old(app).downloads,
{
    app.rating_bits = social.rating_bits;
    app.ratings_count = social.ratings_count;
    app.likes_count = social.likes_count;
    app.user_liked = social.user_liked;
    app.user_rating = social.user_rating;
}

/// Copies the community state of a detail page back into the catalog entry
/// with the same id (the first one), when leaving the page.
pub fn copy_social_back(apps: &mut Vec<AppEntry>, shown: &AppEntry)
    ensures
        final(apps)@.len() == old(apps)@.len(),
        forall|k: int| 0 <= k < old(apps)@.len() ==> (#[trigger] final(apps)@[k]).id == old(apps)@[k].id,
        forall|k: int| 0 <= k < old(apps)@.len() && old(apps)@[k].id@ != shown.id@ ==> final(apps)@[k] == old(apps)@[k],
        forall|k: int| 0 <= k < old(apps)@.len() && old(apps)@[k].id@ == shown.id@
            && (forall|j: int| 0 <= j < k ==> old(apps)@[j].id@ != shown.id@) ==> {
            &&& final(apps)@[k].user_liked == shown.user_liked
            &&& final(apps)@[k].user_rating == shown.user_rating
            &&& final(apps)@[k].likes_count == shown.likes_count
            &&& final(apps)@[k].ratings_count == shown.ratings_count
            &&& final(apps)@[k].comments_count == shown.comments_count
            &&& final(apps)@[k].rating_bits == shown.rating_bits
            &&& final(apps)@[k].name == old(apps)@[k].name
        },
        forall|k: int| 0 <= k < old(apps)@.len() && old(apps)@[k].id@ == shown.id@
            && (exists|j: int| 0 <= j < k && old(apps)@[j].id@ == shown.id@) ==> final(apps)@[k] == old(apps)@[k],
{
    let mut i: usize = 0;
    while i < apps.len()
        invariant
            i <= apps@.len(),
            apps@.len() == old(apps)@.len(),
            apps@ == old(apps)@,
            forall|k: int| 0 <= k < i ==> apps@[k].id@ != shown.id@,
        decreases apps.len() - i,
    {
        if crate::strings::str_equals(apps[i].id.as_str(), shown.id.as_str()) {
            let mut updated = apps.remove(i);
            updated.user_liked = shown.user_liked;
            updated.user_rating = shown.user_rating;
            updated.likes_count = shown.likes_count;
            updated.ratings_count = shown.ratings_count;
            updated.comments_count = shown.comments_count;
            updated.rating_bits = shown.rating_bits;
            apps.insert(i, updated);
            assert forall|k: int| 0 <= k < old(apps)@.len() && k != i implies apps@[k] == old(apps)@[k] by {
                if k < i {
                    assert(apps@[k] == old(apps)@[k]);
                } else {
                    assert(apps@[k] == old(apps)@[k]);
                }
            }
            return;
        }
        i += 1;
    }
}

/// How many entries are listed in a source catalog.
pub open spec fn source_count(apps: Seq<AppEntry>, source: crate::data::SourceCatalog) -> nat
    decreases apps.len(),
{
    if apps.len() == 0 {
        0
    } else {
        source_count(apps.drop_last(), source)
            + (if crate::data::source_matches(source, apps.last().source_catalog@) { 1nat } else { 0nat })
    }
}

/// The (source, count) pairs of the given sources, in order, without the empty ones.
pub open spec fn nonzero_source_counts(apps: Seq<AppEntry>, sources: Seq<crate::data::SourceCatalog>) -> Seq<(crate::data::SourceCatalog, nat)>
    decreases sources.len(),
{
    if sources.len() == 0 {
        Seq::empty()
    } else {
        let rest = nonzero_source_counts(apps, sources.drop_last());
        let c = source_count(apps, sources.last());
        if c > 0 { rest.push((sources.last(), c)) } else { rest }
    }
}

/// Count pairs with the counts as numbers.
pub open spec fn source_pairs(v: Seq<(crate::data::SourceCatalog, usize)>) -> Seq<(crate::data::SourceCatalog, nat)> {
    v.map_values(|p: (crate::data::SourceCatalog, usize)| (p.0, p.1 as nat))
}

fn count_source(apps: &Vec<AppEntry>, source: crate::data::SourceCatalog) -> (r: usize)
    ensures
        r == source_count(apps@, source),
{
    let mut n: usize = 0;
    let mut i: usize = 0;
    while i < apps.len()
        invariant
            i <= apps@.len(),
            n == source_count(apps@.take(i as int), source),
            n <= i,
        decreases apps.len() - i,
    {
        assert(apps@.take(i + 1).drop_last() =~= apps@.take(i as int));
        if source.matches(apps[i].source_catalog.as_str()) {
            n += 1;
        }
        i += 1;
    }
    assert(apps@.take(apps@.len() as int) =~= apps@);
    n
}

/// How many entries each source catalog lists, for the catalogs that list any.
pub fn source_counts(apps: &Vec<AppEntry>) -> (r: Vec<(crate::data::SourceCatalog, usize)>)
    ensures
        source_pairs(r@) == nonzero_source_counts(apps@, seq![
            crate::data::SourceCatalog::VitaDb, crate::data::SourceCatalog::VitaDbToo, crate::data::SourceCatalog::Nps,
        ]),
{
    let sources = crate::data::SourceCatalog::all();
    let mut out: Vec<(crate::data::SourceCatalog, usize)> = Vec::new();
    let mut i: usize = 0;
    while i < sources.len()
        invariant
            i <= sources@.len(),
            sources@ == seq![
                crate::data::SourceCatalog::VitaDb, crate::data::SourceCatalog::VitaDbToo, crate::data::SourceCatalog::Nps,
            ],
            source_pairs(out@) == nonzero_source_counts(apps@, sources@.take(i as int)),
        decreases sources.len() - i,
    {
        assert(sources@.take(i + 1).drop_last() =~= sources@.take(i as int));
        let c = count_source(apps, sources[i]);
        if c > 0 {
            let ghost before = out@;
            out.push((sources[i], c));
            assert(source_pairs(out@) =~= source_pairs(before).push((sources@[i as int], c as nat)));
        }
        i += 1;
    }
    assert(sources@.take(sources@.len() as int) =~= sources@);
    out
}

/// How many of the visible entries are in a category.
pub open spec fn category_count(apps: Seq<AppEntry>, visible: Seq<usize>, category: crate::data::Category) -> nat
    decreases visible.len(),
{
    if visible.len() == 0 {
        0
    } else {
        category_count(apps, visible.drop_last(), category)
            + (if apps[visible.last() as int].category == category { 1nat } else { 0nat })
    }
}

/// The (category, count) pairs of the given categories, in order, without the empty ones.
pub open spec fn nonzero_category_counts(
    apps: Seq<AppEntry>, visible: Seq<usize>, categories: Seq<crate::data::Category>,
) -> Seq<(crate::data::Category, nat)>
    decreases categories.len(),
{
    if categories.len() == 0 {
        Seq::empty()
    } else {
        let rest = nonzero_category_counts(apps, visible, categories.drop_last());
        let c = category_count(apps, visible, categories.last());
        if c > 0 { rest.push((categories.last(), c)) } else { rest }
    }
}

/// Count pairs with the counts as numbers.
pub open spec fn category_pairs(v: Seq<(crate::data::Category, usize)>) -> Seq<(crate::data::Category, nat)> {
    v.map_values(|p: (crate::data::Category, usize)| (p.0, p.1 as nat))
}

fn count_category(apps: &Vec<AppEntry>, visible: &Vec<usize>, category: crate::data::Category) -> (r: usize)
    requires
        forall|k: int| 0 <= k < visible@.len() ==> (visible@[k] as int) < apps@.len(),
    ensures
        r == category_count(apps@, visible@, category),
{
    let mut n: usize = 0;
    let mut i: usize = 0;
    while i < visible.len()
        invariant
            i <= visible@.len(),
            forall|k: int| 0 <= k < visible@.len() ==> (visible@[k] as int) < apps@.len(),
            n == category_count(apps@, visible@.take(i as int), category),
            n <= i,
        decreases visible.len() - i,
    {
        assert(visible@.take(i + 1).drop_last() =~= visible@.take(i as int));
        if apps[visible[i]].category == category {
            n += 1;
        }
        i += 1;
    }
    assert(visible@.take(visible@.len() as int) =~= visible@);
    n
}

/// How many of the visible entries each filter category holds, for the
/// categories that hold any.
pub fn category_counts(apps: &Vec<AppEntry>, visible: &Vec<usize>) -> (r: Vec<(crate::data::Category, usize)>)
    requires
        forall|k: int| 0 <= k < visible@.len() ==> (visible@[k] as int) < apps@.len(),
    ensures
        category_pairs(r@) == nonzero_category_counts(apps@, visible@, seq![
            crate::data::Category::Emulator, crate::data::Category::Original, crate::data::Category::PsVitaGame,
            crate::data::Category::Plugin, crate::data::Category::Port, crate::data::Category::Utility,
        ]),
{
    let categories = crate::data::Category::all();
    let mut out: Vec<(crate::data::Category, usize)> = Vec::new();
    let mut i: usize = 0;
    while i < categories.len()
        invariant
            i <= categories@.len(),
            categories@ == seq![
                crate::data::Category::Emulator, crate::data::Category::Original, crate::data::Category::PsVitaGame,
                crate::data::Category::Plugin, crate::data::Category::Port, crate::data::Category::Utility,
            ],
            forall|k: int| 0 <= k < visible@.len() ==> (visible@[k] as int) < apps@.len(),
            category_pairs(out@) == nonzero_category_counts(apps@, visible@, categories@.take(i as int)),
        decreases categories.len() - i,
    {
        assert(categories@.take(i + 1).drop_last() =~= categories@.take(i as int));
        let c = count_category(apps, visible, categories[i]);
        if c > 0 {
            let ghost before = out@;
            out.push((categories[i], c));
            assert(category_pairs(out@) =~= category_pairs(before).push((categories@[i as int], c as nat)));
        }
        i += 1;
    }
    assert(categories@.take(categories@.len() as int) =~= categories@);
    out
}


/// The indices `0..n`.
pub open spec fn every_index(n: nat) -> Seq<usize> {
    Seq::new(n, |i: int| i as usize)
}

/// The indices, among the first `n` entries, of those that `source` lists.
pub open spec fn source_listing(apps: Seq<AppEntry>, source: crate::data::SourceCatalog, n: nat) -> Seq<usize>
    decreases n,
{
    if n == 0 {
        Seq::empty()
    } else {
        let r = source_listing(apps, source, (n - 1) as nat);
        if crate::data::source_matches(source, apps[n - 1].source_catalog@) { r.push((n - 1) as usize) } else { r }
    }
}

/// The entries a catalog dropdown counts: with no source catalog chosen,
/// every entry with each homebrew title once; otherwise the chosen
/// catalog's entries.
pub open spec fn dropdown_scope(apps: Seq<AppEntry>, source: Option<crate::data::SourceCatalog>) -> Seq<usize> {
    match source {
        None => crate::twins::collapsed(apps, every_index(apps.len())),
        Some(s) => source_listing(apps, s, apps.len()),
    }
}

/// The counts the catalog and category dropdowns show.
pub struct DropdownCounts {
    pub source_counts: Vec<(crate::data::SourceCatalog, usize)>,
    pub source_scoped_count: usize,
    pub total_unique_count: usize,
    pub category_counts: Vec<(crate::data::Category, usize)>,
}

fn listing_of(apps: &Vec<AppEntry>, source: crate::data::SourceCatalog) -> (r: Vec<usize>)
    ensures
        r@ == source_listing(apps@, source, apps@.len()),
        forall|k: int| 0 <= k < r@.len() ==> (r@[k] as int) < apps@.len(),
{
    let mut out: Vec<usize> = Vec::new();
    let mut i: usize = 0;
    while i < apps.len()
        invariant
            i <= apps@.len(),
            out@ == source_listing(apps@, source, i as nat),
            forall|k: int| 0 <= k < out@.len() ==> (out@[k] as int) < i,
        decreases apps.len() - i,
    {
        if source.matches(apps[i].source_catalog.as_str()) {
            out.push(i);
        }
        i += 1;
    }
    out
}

/// The dropdown counts: entries per source catalog, how many entries the
/// chosen scope holds, how many distinct entries the whole catalog holds
/// (each homebrew title once), and entries per category within the scope.
pub fn recompute_dropdown_counts(apps: &Vec<AppEntry>, source: Option<crate::data::SourceCatalog>) -> (r: DropdownCounts)
    requires
        crate::twins::compared_dates_readable(apps@, every_index(apps@.len())),
    ensures
        source_pairs(r.source_counts@) == nonzero_source_counts(apps@, seq![
            crate::data::SourceCatalog::VitaDb, crate::data::SourceCatalog::VitaDbToo, crate::data::SourceCatalog::Nps,
        ]),
        r.total_unique_count == crate::twins::collapsed(apps@, every_index(apps@.len())).len(),
        r.source_scoped_count == dropdown_scope(apps@, source).len(),
        category_pairs(r.category_counts@) == nonzero_category_counts(apps@, dropdown_scope(apps@, source), seq![
            crate::data::Category::Emulator, crate::data::Category::Original, crate::data::Category::PsVitaGame,
            crate::data::Category::Plugin, crate::data::Category::Port, crate::data::Category::Utility,
        ]),
{
    let mut all: Vec<usize> = Vec::new();
    let mut i: usize = 0;
    while i < apps.len()
        invariant
            i <= apps@.len(),
            all@ =~= every_index(i as nat),
        decreases apps.len() - i,
    {
        all.push(i);
        i += 1;
    }
    proof {
        assert forall|k: int| 0 <= k < all@.len() implies (all@[k] as int) < apps@.len() by {
            assert(all@[k] as int == k);
        }
        assert(all@ == every_index(apps@.len()));
        crate::twins::collapsing_keeps_every_title(apps@, all@);
    }
    let unique = crate::twins::collapse_homebrew_duplicates(apps, all);
    let total_unique_count = unique.len();
    proof {
        assert forall|k: int| 0 <= k < unique@.len() implies (unique@[k] as int) < apps@.len() by {
            assert(every_index(apps@.len()).contains(unique@[k]));
        }
    }
    let visible = match source {
        None => unique,
        Some(s) => listing_of(apps, s),
    };
    let category_counts = category_counts(apps, &visible);
    DropdownCounts {
        source_counts: source_counts(apps),
        source_scoped_count: visible.len(),
        total_unique_count,
        category_counts,
    }
}


proof fn lemma_no_filter_keeps_order(apps: Seq<AppEntry>, order: Seq<usize>)
    ensures
        filtered(apps, order, Seq::empty(), None, false, None) == order,
    decreases order.len(),
{
    if order.len() > 0 {
        lemma_no_filter_keeps_order(apps, order.drop_last());
        assert(order.drop_last().push(order.last()) =~= order);
    }
}

/// With no filter and no source catalog chosen, the grid of any sort order
/// holds as many entries as the "All catalogs" count: every entry, each
/// homebrew title once.
pub proof fn the_all_catalogs_count_matches_the_grid(apps: Seq<AppEntry>, order: SortOrder, dir: SortDirection, r: Seq<usize>)
    requires
        apps.len() <= usize::MAX,
        is_catalog_order(r, apps, order, dir),
    ensures
        crate::twins::collapsed(apps, filtered(apps, r, Seq::empty(), None, false, None)).len()
            == crate::twins::collapsed(apps, every_index(apps.len())).len(),
{
    broadcast use vstd::seq_lib::seq_to_set_is_finite;
    lemma_no_filter_keeps_order(apps, r);
    let e = every_index(apps.len());
    assert(r.no_duplicates()) by {
        assert forall|i: int, j: int| 0 <= i < r.len() && 0 <= j < r.len() && i != j implies r[i] != r[j] by {
            let (lo, hi) = if i < j { (i, j) } else { (j, i) };
            assert(listed_before(apps, order, dir, r[lo] as int, r[hi] as int));
            lemma_compare_flip(apps[r[lo] as int], apps[r[lo] as int], order, dir);
        }
    }
    assert(e.no_duplicates()) by {
        assert forall|i: int, j: int| 0 <= i < e.len() && 0 <= j < e.len() && i != j implies e[i] != e[j] by {
            assert(e[i] as int == i && e[j] as int == j);
        }
    }
    r.unique_seq_to_set();
    e.unique_seq_to_set();
    assert(r.to_set().subset_of(e.to_set())) by {
        assert forall|x: usize| r.to_set().contains(x) implies e.to_set().contains(x) by {
            assert(e[x as int] == x);
        }
    }
    vstd::set_lib::lemma_subset_equality(r.to_set(), e.to_set());
    crate::twins::the_collapsed_count_ignores_the_order(apps, r, e);
}


/// A search finds an entry by its name, its author or its title id: every
/// entry of the order whose lower-case name, author or title id contains the
/// search text, and that the category, favourite and source filters let
/// through, is listed in the grid; an empty search lists every such entry.
pub proof fn a_search_finds_entries_by_name_author_or_title(
    apps: Seq<AppEntry>,
    order: Seq<usize>,
    query: Seq<char>,
    category: Option<crate::data::Category>,
    favorites: bool,
    source: Option<crate::data::SourceCatalog>,
    k: int,
)
    requires
        0 <= k < order.len(),
        category matches Some(c) ==> apps[order[k] as int].category == c,
        favorites ==> apps[order[k] as int].user_liked,
        source matches Some(s) ==> crate::data::source_matches(s, apps[order[k] as int].source_catalog@),
        query.len() == 0
            || crate::strings::contains(apps[order[k] as int].name_lower@, query)
            || crate::strings::contains(apps[order[k] as int].author_lower@, query)
            || crate::strings::contains(apps[order[k] as int].titleid_lower@, query),
    ensures
        filtered(apps, order, query, category, favorites, source).contains(order[k]),
    decreases order.len(),
{
    let f = filtered(apps, order, query, category, favorites, source);
    if k == order.len() - 1 {
        assert(f[f.len() - 1] == order[k]);
    } else {
        let rest = order.drop_last();
        assert(rest[k] == order[k]);
        a_search_finds_entries_by_name_author_or_title(apps, rest, query, category, favorites, source, k);
        let f0 = filtered(apps, rest, query, category, favorites, source);
        let j = choose|j: int| 0 <= j < f0.len() && f0[j] == order[k];
        assert(f[j] == order[k]);
    }
}

} // verus!
