//! Homebrew twins: the same title listed by both VitaDB catalogs shows once
//! in the "All catalogs" grid, as the copy the store prefers; and the version
//! order that preference starts with.

use vstd::prelude::*;
use crate::strings::{chars_of, str_equals};
use crate::data::{epoch_of, source_from_api, AppEntry, SourceCatalog};

verus! {

/// An ASCII decimal digit.
pub open spec fn is_digit(c: char) -> bool {
    '0' <= c && c <= '9'
}

/// `v` followed by the digit `c`, held at `u64::MAX` once it no longer fits.
pub open spec fn digit_step(v: u64, c: char) -> u64 {
    let n = v * 10 + (c as u32 - '0' as u32);
    if n > u64::MAX { u64::MAX } else { n as u64 }
}

/// The numbers of a version text: one per dot-separated part, each read from
/// the part's digits in order (other characters are skipped; a part without
/// digits is 0; a number too large for `u64` is held at `u64::MAX`).
pub open spec fn version_parts(s: Seq<char>) -> Seq<u64>
    decreases s.len(),
{
    if s.len() == 0 {
        seq![0u64]
    } else {
        let r = version_parts(s.drop_last());
        let c = s.last();
        if c == '.' {
            r.push(0u64)
        } else if is_digit(c) {
            r.update(r.len() - 1, digit_step(r.last(), c))
        } else {
            r
        }
    }
}

proof fn lemma_parts_nonempty(s: Seq<char>)
    ensures
        version_parts(s).len() >= 1,
    decreases s.len(),
{
    if s.len() > 0 {
        lemma_parts_nonempty(s.drop_last());
    }
}

/// Part `k` of a version, 0 past its end.
pub open spec fn part_at(p: Seq<u64>, k: int) -> u64 {
    if 0 <= k < p.len() { p[k] } else { 0 }
}

/// From part `k` on, `a` comes before `b`: at the first part where they
/// differ, `a`'s is smaller (missing parts count as 0).
pub open spec fn parts_less_from(a: Seq<u64>, b: Seq<u64>, k: nat) -> bool
    decreases a.len() + b.len() - k,
{
    if k >= a.len() && k >= b.len() {
        false
    } else if part_at(a, k as int) != part_at(b, k as int) {
        part_at(a, k as int) < part_at(b, k as int)
    } else {
        parts_less_from(a, b, k + 1)
    }
}

/// Version `a` is older than version `b`.
pub open spec fn version_older(a: Seq<char>, b: Seq<char>) -> bool {
    parts_less_from(version_parts(a), version_parts(b), 0)
}

fn version_numbers(s: &str) -> (r: Vec<u64>)
    ensures
        r@ == version_parts(s@),
{
    let chars = chars_of(s);
    let mut parts: Vec<u64> = vec![0u64];
    let mut i: usize = 0;
    proof {
        assert(chars@.take(0) =~= Seq::<char>::empty());
    }
    while i < chars.len()
        invariant
            i <= chars@.len(),
            chars@ == s@,
            parts@ == version_parts(chars@.take(i as int)),
        decreases chars.len() - i,
    {
        proof {
            assert(chars@.take(i + 1).drop_last() =~= chars@.take(i as int));
            lemma_parts_nonempty(chars@.take(i as int));
        }
        let c = chars[i];
        if c == '.' {
            parts.push(0u64);
        } else if '0' <= c && c <= '9' {
            let last = parts.len() - 1;
            let v = parts[last];
            let d: u64 = ((c as u32) - ('0' as u32)) as u64;
            let n: u64 = match v.checked_mul(10) {
                Some(m) => match m.checked_add(d) {
                    Some(n) => n,
                    None => u64::MAX,
                },
                None => u64::MAX,
            };
            parts.set(last, n);
        }
        i += 1;
    }
    proof {
        assert(chars@.take(chars@.len() as int) =~= chars@);
    }
    parts
}

fn parts_less(a: &Vec<u64>, b: &Vec<u64>) -> (r: bool)
    ensures
        r == parts_less_from(a@, b@, 0),
{
    let n = if a.len() > b.len() { a.len() } else { b.len() };
    let mut k: usize = 0;
    while k < n
        invariant
            k <= n,
            n == if a@.len() > b@.len() { a@.len() } else { b@.len() },
            parts_less_from(a@, b@, 0) == parts_less_from(a@, b@, k as nat),
        decreases n - k,
    {
        let x = if k < a.len() { a[k] } else { 0u64 };
        let y = if k < b.len() { b[k] } else { 0u64 };
        if x != y {
            return x < y;
        }
        k += 1;
    }
    false
}

/// Whether version `a` is older than version `b`, comparing their numbers
/// part by part.
pub fn version_is_older(a: &str, b: &str) -> (r: bool)
    ensures
        r == version_older(a@, b@),
{
    let pa = version_numbers(a);
    let pb = version_numbers(b);
    parts_less(&pa, &pb)
}


/// The rank of a catalog when twins tie on version: VitaDB first, then
/// VitaDBtoo; NPS is never a homebrew twin.
pub open spec fn source_rank(source: SourceCatalog) -> u8 {
    match source {
        SourceCatalog::VitaDb => 0,
        SourceCatalog::VitaDbToo => 1,
        SourceCatalog::Nps => 255,
    }
}

/// The rank of a catalog when twins tie on version.
pub fn homebrew_source_rank(source: SourceCatalog) -> (r: u8)
    ensures
        r == source_rank(source),
{
    match source {
        SourceCatalog::VitaDb => 0,
        SourceCatalog::VitaDbToo => 1,
        SourceCatalog::Nps => 255,
    }
}

/// The rank of an entry's catalog (100 for a catalog the store does not know).
pub open spec fn catalog_rank(app: AppEntry) -> int {
    match source_from_api(app.source_catalog@) {
        Some(s) => source_rank(s) as int,
        None => 100,
    }
}

/// An entry that can have a twin: it has a title id and comes from one of
/// the two VitaDB catalogs.
pub open spec fn collapsible(app: AppEntry) -> bool {
    &&& app.titleid_lower@.len() > 0
    &&& source_from_api(app.source_catalog@) matches Some(s)
    &&& (s == SourceCatalog::VitaDb || s == SourceCatalog::VitaDbToo)
}

/// Whether an entry can have a twin.
pub fn is_collapsible_homebrew(app: &AppEntry) -> (r: bool)
    ensures
        r == collapsible(*app),
{
    if app.titleid_lower.as_str().is_empty() {
        return false;
    }
    match SourceCatalog::from_api(app.source_catalog.as_str()) {
        Some(SourceCatalog::VitaDb) | Some(SourceCatalog::VitaDbToo) => true,
        _ => false,
    }
}

/// The date stamp an entry is compared by.
pub open spec fn entry_epoch(app: AppEntry) -> u32 {
    epoch_of(vstd::utf8::encode_utf8(app.updated_at@))
}

/// Twin `a` is preferred to twin `b`: the newer version wins; on a tie the
/// better-ranked catalog, then the one with an icon, then the more downloaded,
/// then the more recently updated.
pub open spec fn prefers(a: AppEntry, b: AppEntry) -> bool {
    if version_older(b.version@, a.version@) {
        true
    } else if version_older(a.version@, b.version@) {
        false
    } else if catalog_rank(a) != catalog_rank(b) {
        catalog_rank(a) < catalog_rank(b)
    } else if a.icon_url.is_some() != b.icon_url.is_some() {
        a.icon_url.is_some()
    } else if a.downloads != b.downloads {
        a.downloads > b.downloads
    } else {
        entry_epoch(a) > entry_epoch(b)
    }
}

/// The entry's date can be read without cutting a character.
pub open spec fn date_readable(app: AppEntry) -> bool {
    !crate::data::epoch_cuts_char(vstd::utf8::encode_utf8(app.updated_at@))
}

/// Two twins tie on everything compared before their dates (version,
/// catalog, icon, downloads), so that their dates are read.
pub open spec fn ties_before_date(a: AppEntry, b: AppEntry) -> bool {
    &&& !version_older(b.version@, a.version@)
    &&& !version_older(a.version@, b.version@)
    &&& catalog_rank(a) == catalog_rank(b)
    &&& a.icon_url.is_some() == b.icon_url.is_some()
    &&& a.downloads == b.downloads
}

/// Comparing `a` with `b` reads no date that cuts a character.
pub open spec fn comparable(a: AppEntry, b: AppEntry) -> bool {
    ties_before_date(a, b) ==> date_readable(a) && date_readable(b)
}

/// Whether two entries tie on everything compared before their dates.
fn tie_before_date(a: &AppEntry, b: &AppEntry) -> (r: bool)
    ensures
        r == ties_before_date(*a, *b),
{
    if version_is_older(b.version.as_str(), a.version.as_str()) || version_is_older(a.version.as_str(), b.version.as_str()) {
        return false;
    }
    let rank_a: u8 = match SourceCatalog::from_api(a.source_catalog.as_str()) {
        Some(s) => homebrew_source_rank(s),
        None => 100,
    };
    let rank_b: u8 = match SourceCatalog::from_api(b.source_catalog.as_str()) {
        Some(s) => homebrew_source_rank(s),
        None => 100,
    };
    rank_a == rank_b && a.icon_url.is_some() == b.icon_url.is_some() && a.downloads == b.downloads
}

/// Whether entry `candidate` is preferred to entry `incumbent` as the copy of
/// their title to show. Their dates are read only when they tie on
/// everything before.
pub fn prefers_homebrew_candidate(apps: &Vec<AppEntry>, candidate: usize, incumbent: usize) -> (r: bool)
    requires
        candidate < apps@.len(),
        incumbent < apps@.len(),
        comparable(apps@[candidate as int], apps@[incumbent as int]),
    ensures
        r == prefers(apps@[candidate as int], apps@[incumbent as int]),
{
    let a = &apps[candidate];
    let b = &apps[incumbent];
    if version_is_older(b.version.as_str(), a.version.as_str()) {
        return true;
    }
    if version_is_older(a.version.as_str(), b.version.as_str()) {
        return false;
    }
    let rank_a: u8 = match SourceCatalog::from_api(a.source_catalog.as_str()) {
        Some(s) => homebrew_source_rank(s),
        None => 100,
    };
    let rank_b: u8 = match SourceCatalog::from_api(b.source_catalog.as_str()) {
        Some(s) => homebrew_source_rank(s),
        None => 100,
    };
    if rank_a != rank_b {
        return rank_a < rank_b;
    }
    let icon_a = a.icon_url.is_some();
    let icon_b = b.icon_url.is_some();
    if icon_a != icon_b {
        return icon_a;
    }
    if a.downloads != b.downloads {
        return a.downloads > b.downloads;
    }
    a.sort_epoch() > b.sort_epoch()
}


/// The copy of title `key` the grid keeps among the entries `idx` lists: the
/// first twin with that title, replaced by each later one it prefers.
pub open spec fn twin_winner(apps: Seq<AppEntry>, idx: Seq<usize>, key: Seq<char>) -> Option<usize>
    decreases idx.len(),
{
    if idx.len() == 0 {
        None
    } else {
        let w = twin_winner(apps, idx.drop_last(), key);
        let i = idx.last();
        let app = apps[i as int];
        if collapsible(app) && app.titleid_lower@ == key {
            match w {
                None => Some(i),
                Some(c) => if prefers(app, apps[c as int]) { Some(i) } else { Some(c) },
            }
        } else {
            w
        }
    }
}

/// Position `p` is the first one listing its entry.
pub open spec fn first_listing(idx: Seq<usize>, p: int) -> bool {
    forall|q: int| 0 <= q < p ==> idx[q] != idx[p]
}

/// The grid keeps position `p`: its entry has no twin, or it is the kept copy
/// of its title and listed there for the first time.
pub open spec fn kept_at(apps: Seq<AppEntry>, idx: Seq<usize>, p: int) -> bool {
    let i = idx[p];
    let app = apps[i as int];
    !collapsible(app) || (twin_winner(apps, idx, app.titleid_lower@) == Some(i) && first_listing(idx, p))
}

/// The kept positions among the first `n`, in order.
pub open spec fn kept_prefix(apps: Seq<AppEntry>, idx: Seq<usize>, n: nat) -> Seq<usize>
    decreases n,
{
    if n == 0 {
        Seq::empty()
    } else {
        let r = kept_prefix(apps, idx, (n - 1) as nat);
        if kept_at(apps, idx, n - 1) { r.push(idx[n - 1]) } else { r }
    }
}

/// The grid `idx` with each homebrew title shown once.
pub open spec fn collapsed(apps: Seq<AppEntry>, idx: Seq<usize>) -> Seq<usize> {
    kept_prefix(apps, idx, idx.len())
}

/// Every listed entry exists.
pub open spec fn listed_in(apps: Seq<AppEntry>, idx: Seq<usize>) -> bool {
    forall|k: int| 0 <= k < idx.len() ==> (idx[k] as int) < apps.len()
}

/// Every comparison of twins that the collapse of `idx` makes (each listed
/// twin against the copy kept so far) reads only dates that can be read.
pub open spec fn compared_dates_readable(apps: Seq<AppEntry>, idx: Seq<usize>) -> bool
    decreases idx.len(),
{
    if idx.len() == 0 {
        true
    } else {
        let rest = idx.drop_last();
        let app = apps[idx.last() as int];
        &&& compared_dates_readable(apps, rest)
        &&& (collapsible(app) ==> match twin_winner(apps, rest, app.titleid_lower@) {
            Some(c) => comparable(app, apps[c as int]),
            None => true,
        })
    }
}

proof fn lemma_compared_prefix(apps: Seq<AppEntry>, idx: Seq<usize>, k: int)
    requires
        0 <= k <= idx.len(),
        compared_dates_readable(apps, idx),
    ensures
        compared_dates_readable(apps, idx.take(k)),
    decreases idx.len(),
{
    if k < idx.len() {
        assert(idx.drop_last().take(k) =~= idx.take(k));
        lemma_compared_prefix(apps, idx.drop_last(), k);
    } else {
        assert(idx.take(k) =~= idx);
    }
}

proof fn lemma_winner_is_listed(apps: Seq<AppEntry>, idx: Seq<usize>, key: Seq<char>)
    ensures
        twin_winner(apps, idx, key) matches Some(c) ==> {
            &&& exists|q: int| 0 <= q < idx.len() && idx[q] == c
            &&& collapsible(apps[c as int])
            &&& apps[c as int].titleid_lower@ == key
        },
    decreases idx.len(),
{
    if idx.len() > 0 {
        let rest = idx.drop_last();
        lemma_winner_is_listed(apps, rest, key);
        if let Some(c) = twin_winner(apps, idx, key) {
            if c == idx.last() {
                assert(idx[idx.len() - 1] == c);
            } else {
                let q = choose|q: int| 0 <= q < rest.len() && rest[q] == c;
                assert(idx[q] == c);
            }
        }
    }
}

proof fn lemma_listed_title_has_winner(apps: Seq<AppEntry>, idx: Seq<usize>, p: int)
    requires
        0 <= p < idx.len(),
        collapsible(apps[idx[p] as int]),
    ensures
        twin_winner(apps, idx, apps[idx[p] as int].titleid_lower@) is Some,
    decreases idx.len(),
{
    if p < idx.len() - 1 {
        lemma_listed_title_has_winner(apps, idx.drop_last(), p);
    }
}

fn slot_of(apps: &Vec<AppEntry>, winners: &Vec<usize>, key: &str) -> (r: Option<usize>)
    requires
        forall|s: int| 0 <= s < winners@.len() ==> (winners@[s] as int) < apps@.len(),
    ensures
        match r {
            Some(s) => s < winners@.len() && apps@[winners@[s as int] as int].titleid_lower@ == key@,
            None => forall|s: int| 0 <= s < winners@.len() ==> apps@[winners@[s] as int].titleid_lower@ != key@,
        },
{
    let mut s: usize = 0;
    while s < winners.len()
        invariant
            s <= winners@.len(),
            forall|t: int| 0 <= t < winners@.len() ==> (winners@[t] as int) < apps@.len(),
            forall|t: int| 0 <= t < s ==> apps@[winners@[t] as int].titleid_lower@ != key@,
        decreases winners.len() - s,
    {
        if str_equals(apps[winners[s]].titleid_lower.as_str(), key) {
            return Some(s);
        }
        s += 1;
    }
    None
}


/// What the kept copies `w` (one per title) say of the entries `idx` lists.
pub open spec fn winners_of(apps: Seq<AppEntry>, idx: Seq<usize>, w: Seq<usize>) -> bool {
    &&& forall|s: int| 0 <= s < w.len() ==> (w[s] as int) < apps.len()
    &&& forall|s: int| 0 <= s < w.len() ==> twin_winner(apps, idx, #[trigger] apps[w[s] as int].titleid_lower@) == Some(w[s])
    &&& forall|s: int, t: int| 0 <= s < w.len() && 0 <= t < w.len() && s != t
        ==> apps[w[s] as int].titleid_lower@ != apps[w[t] as int].titleid_lower@
    &&& forall|k: Seq<char>| #[trigger] twin_winner(apps, idx, k) is Some
        ==> exists|s: int| 0 <= s < w.len() && apps[w[s] as int].titleid_lower@ == k
}

fn title_winners(apps: &Vec<AppEntry>, indices: &Vec<usize>) -> (r: Option<Vec<usize>>)
    requires
        listed_in(apps@, indices@),
    ensures
        r is Some <==> compared_dates_readable(apps@, indices@),
        r matches Some(w) ==> winners_of(apps@, indices@, w@),
{
    let mut w: Vec<usize> = Vec::new();
    let mut n: usize = 0;
    proof {
        assert(indices@.take(0) =~= Seq::<usize>::empty());
    }
    while n < indices.len()
        invariant
            n <= indices@.len(),
            listed_in(apps@, indices@),
            compared_dates_readable(apps@, indices@.take(n as int)),
            winners_of(apps@, indices@.take(n as int), w@),
        decreases indices.len() - n,
    {
        let ghost before = indices@.take(n as int);
        let ghost after = indices@.take(n + 1);
        let ghost old_w = w@;
        proof {
            assert(after.drop_last() =~= before);
            assert(after.last() == indices@[n as int]);
        }
        let i = indices[n];
        if is_collapsible_homebrew(&apps[i]) {
            let key = apps[i].titleid_lower.as_str();
            match slot_of(apps, &w, key) {
                Some(s) => {
                    let c = w[s];
                    proof {
                        assert(twin_winner(apps@, before, apps@[old_w[s as int] as int].titleid_lower@) == Some(c));
                    }
                    if tie_before_date(&apps[i], &apps[c]) && !(crate::data::date_is_readable(apps[i].updated_at.as_str())
                        && crate::data::date_is_readable(apps[c].updated_at.as_str())) {
                        proof {
                            assert(!compared_dates_readable(apps@, after));
                            if compared_dates_readable(apps@, indices@) {
                                lemma_compared_prefix(apps@, indices@, n + 1);
                            }
                        }
                        return None;
                    }
                    if prefers_homebrew_candidate(apps, i, c) {
                        w.set(s, i);
                    }
                    proof {
                        assert forall|t: int| 0 <= t < w@.len() implies twin_winner(apps@, after, #[trigger] apps@[w@[t] as int].titleid_lower@) == Some(w@[t]) by {
                            assert(twin_winner(apps@, before, apps@[old_w[t] as int].titleid_lower@) == Some(old_w[t]));
                            if t != s {
                                assert(apps@[old_w[t] as int].titleid_lower@ != key@);
                            }
                        }
                        assert forall|k: Seq<char>| #[trigger] twin_winner(apps@, after, k) is Some implies exists|t: int| 0 <= t < w@.len() && apps@[w@[t] as int].titleid_lower@ == k by {
                            if k == key@ {
                                assert(apps@[w@[s as int] as int].titleid_lower@ == k);
                            } else {
                                assert(twin_winner(apps@, before, k) is Some);
                                let t = choose|t: int| 0 <= t < old_w.len() && apps@[old_w[t] as int].titleid_lower@ == k;
                                assert(t != s);
                                assert(apps@[w@[t] as int].titleid_lower@ == k);
                            }
                        }
                    }
                },
                None => {
                    proof {
                        if twin_winner(apps@, before, key@) is Some {
                            let t = choose|t: int| 0 <= t < old_w.len() && apps@[old_w[t] as int].titleid_lower@ == key@;
                            assert(false);
                        }
                    }
                    w.push(i);
                    proof {
                        assert forall|t: int| 0 <= t < w@.len() implies twin_winner(apps@, after, #[trigger] apps@[w@[t] as int].titleid_lower@) == Some(w@[t]) by {
                            if t < old_w.len() {
                                assert(twin_winner(apps@, before, apps@[old_w[t] as int].titleid_lower@) == Some(old_w[t]));
                                assert(apps@[old_w[t] as int].titleid_lower@ != key@);
                            }
                        }
                        assert forall|k: Seq<char>| #[trigger] twin_winner(apps@, after, k) is Some implies exists|t: int| 0 <= t < w@.len() && apps@[w@[t] as int].titleid_lower@ == k by {
                            if k == key@ {
                                assert(apps@[w@[old_w.len() as int] as int].titleid_lower@ == k);
                            } else {
                                assert(twin_winner(apps@, before, k) is Some);
                                let t = choose|t: int| 0 <= t < old_w.len() && apps@[old_w[t] as int].titleid_lower@ == k;
                                assert(apps@[w@[t] as int].titleid_lower@ == k);
                            }
                        }
                    }
                },
            }
        } else {
            proof {
                assert forall|t: int| 0 <= t < w@.len() implies twin_winner(apps@, after, #[trigger] apps@[w@[t] as int].titleid_lower@) == Some(w@[t]) by {
                    assert(twin_winner(apps@, before, apps@[old_w[t] as int].titleid_lower@) == Some(old_w[t]));
                }
                assert forall|k: Seq<char>| #[trigger] twin_winner(apps@, after, k) is Some implies exists|t: int| 0 <= t < w@.len() && apps@[w@[t] as int].titleid_lower@ == k by {
                    assert(twin_winner(apps@, before, k) is Some);
                }
            }
        }
        n += 1;
    }
    proof {
        assert(indices@.take(indices@.len() as int) =~= indices@);
    }
    Some(w)
}


/// The grid `indices` with each homebrew title that both VitaDB catalogs list
/// shown once, as the preferred copy, at the first place that copy is listed;
/// entries without a twin stay as they are.
pub fn collapse_homebrew_duplicates(apps: &Vec<AppEntry>, indices: Vec<usize>) -> (r: Vec<usize>)
    requires
        listed_in(apps@, indices@),
        compared_dates_readable(apps@, indices@),
    ensures
        r@ == collapsed(apps@, indices@),
{
    let w = match title_winners(apps, &indices) {
        Some(w) => w,
        None => {
            proof {
                assert(false);
            }
            return Vec::new();
        },
    };
    let mut emitted: Vec<bool> = Vec::new();
    let mut e: usize = 0;
    while e < w.len()
        invariant
            e <= w@.len(),
            emitted@.len() == e,
            forall|s: int| 0 <= s < e ==> !emitted@[s],
        decreases w.len() - e,
    {
        emitted.push(false);
        e += 1;
    }
    let mut out: Vec<usize> = Vec::new();
    let mut p: usize = 0;
    while p < indices.len()
        invariant
            p <= indices@.len(),
            listed_in(apps@, indices@),
            winners_of(apps@, indices@, w@),
            emitted@.len() == w@.len(),
            forall|s: int| 0 <= s < w@.len() ==> (#[trigger] emitted@[s] <==> exists|q: int| 0 <= q < p && indices@[q] == w@[s]),
            out@ == kept_prefix(apps@, indices@, p as nat),
        decreases indices.len() - p,
    {
        let i = indices[p];
        let ghost old_emitted = emitted@;
        if is_collapsible_homebrew(&apps[i]) {
            let key = apps[i].titleid_lower.as_str();
            proof {
                lemma_listed_title_has_winner(apps@, indices@, p as int);
            }
            match slot_of(apps, &w, key) {
                Some(s) => {
                    proof {
                        assert(twin_winner(apps@, indices@, apps@[w@[s as int] as int].titleid_lower@) == Some(w@[s as int]));
                        assert forall|t: int| 0 <= t < w@.len() && w@[t] == i implies t == s by {
                            if t != s {
                                assert(apps@[w@[t] as int].titleid_lower@ != apps@[w@[s as int] as int].titleid_lower@);
                            }
                        }
                        if w@[s as int] == i {
                            assert(emitted@[s as int] <==> exists|q: int| 0 <= q < p && indices@[q] == w@[s as int]);
                            assert(first_listing(indices@, p as int) <==> !emitted@[s as int]);
                        }
                    }
                    if w[s] == i && !emitted[s] {
                        out.push(i);
                        emitted.set(s, true);
                    }
                    proof {
                        assert forall|t: int| 0 <= t < w@.len() implies (#[trigger] emitted@[t] <==> exists|q: int| 0 <= q < p + 1 && indices@[q] == w@[t]) by {
                            if w@[t] == i {
                                assert(t == s);
                                assert(indices@[p as int] == w@[t]);
                            } else {
                                assert(old_emitted[t] == emitted@[t]);
                                if exists|q: int| 0 <= q < p + 1 && indices@[q] == w@[t] {
                                    let q = choose|q: int| 0 <= q < p + 1 && indices@[q] == w@[t];
                                    assert(q < p);
                                }
                            }
                        }
                    }
                },
                None => {
                    proof {
                        let k = apps@[i as int].titleid_lower@;
                        assert(twin_winner(apps@, indices@, k) is Some);
                        let t = choose|t: int| 0 <= t < w@.len() && apps@[w@[t] as int].titleid_lower@ == k;
                        assert(false);
                    }
                },
            }
        } else {
            out.push(i);
            proof {
                assert forall|t: int| 0 <= t < w@.len() implies (#[trigger] emitted@[t] <==> exists|q: int| 0 <= q < p + 1 && indices@[q] == w@[t]) by {
                    let k = apps@[w@[t] as int].titleid_lower@;
                    assert(twin_winner(apps@, indices@, k) == Some(w@[t]));
                    lemma_winner_is_listed(apps@, indices@, k);
                    assert(w@[t] != i);
                    if exists|q: int| 0 <= q < p + 1 && indices@[q] == w@[t] {
                        let q = choose|q: int| 0 <= q < p + 1 && indices@[q] == w@[t];
                        assert(q < p);
                    }
                }
            }
        }
        p += 1;
    }
    out
}


spec fn kept_before(apps: Seq<AppEntry>, idx: Seq<usize>, m: int, x: usize) -> bool {
    exists|q: int| 0 <= q < m && kept_at(apps, idx, q) && idx[q] == x
}


/// Whether collapsing `indices` compares twins only by dates that can be read.
pub fn twin_dates_readable(apps: &Vec<AppEntry>, indices: &Vec<usize>) -> (r: bool)
    requires
        listed_in(apps@, indices@),
    ensures
        r == compared_dates_readable(apps@, indices@),
{
    title_winners(apps, indices).is_some()
}

/// The collapsed grid, as `collapse_homebrew_duplicates` gives it; or `None`
/// when collapsing would compare two twins by a date that cannot be read.
pub fn collapse_when_dates_readable(apps: &Vec<AppEntry>, indices: Vec<usize>) -> (r: Option<Vec<usize>>)
    requires
        listed_in(apps@, indices@),
    ensures
        r is Some <==> compared_dates_readable(apps@, indices@),
        r matches Some(v) ==> v@ == collapsed(apps@, indices@),
{
    if twin_dates_readable(apps, &indices) {
        Some(collapse_homebrew_duplicates(apps, indices))
    } else {
        None
    }
}

proof fn lemma_kept_came_from(apps: Seq<AppEntry>, idx: Seq<usize>, m: nat)
    requires
        m <= idx.len(),
    ensures
        kept_prefix(apps, idx, m).len() <= m,
        forall|k: int| 0 <= k < kept_prefix(apps, idx, m).len() ==> kept_before(apps, idx, m as int, #[trigger] kept_prefix(apps, idx, m)[k]),
    decreases m,
{
    if m > 0 {
        let m0 = (m - 1) as nat;
        lemma_kept_came_from(apps, idx, m0);
        assert forall|k: int| 0 <= k < kept_prefix(apps, idx, m).len() implies kept_before(apps, idx, m as int, #[trigger] kept_prefix(apps, idx, m)[k]) by {
            if k < kept_prefix(apps, idx, m0).len() {
                assert(kept_prefix(apps, idx, m)[k] == kept_prefix(apps, idx, m0)[k]);
                assert(kept_before(apps, idx, m0 as int, kept_prefix(apps, idx, m0)[k]));
                let q = choose|q: int| 0 <= q < m0 && kept_at(apps, idx, q) && idx[q] == kept_prefix(apps, idx, m0)[k];
                assert(0 <= q < m && kept_at(apps, idx, q) && idx[q] == kept_prefix(apps, idx, m)[k]);
            } else {
                assert(kept_at(apps, idx, m0 as int) && idx[m0 as int] == kept_prefix(apps, idx, m)[k]);
            }
        }
    }
}

proof fn lemma_kept_is_shown(apps: Seq<AppEntry>, idx: Seq<usize>, m: nat, q: int)
    requires
        m <= idx.len(),
        0 <= q < m,
        kept_at(apps, idx, q),
    ensures
        kept_prefix(apps, idx, m).contains(idx[q]),
    decreases m,
{
    let r = kept_prefix(apps, idx, m);
    if q == m - 1 {
        assert(r[r.len() - 1] == idx[q]);
    } else {
        lemma_kept_is_shown(apps, idx, (m - 1) as nat, q);
        let r0 = kept_prefix(apps, idx, (m - 1) as nat);
        let k = choose|k: int| 0 <= k < r0.len() && r0[k] == idx[q];
        assert(r[k] == idx[q]);
    }
}

proof fn lemma_first_listing_exists(idx: Seq<usize>, q: int)
    requires
        0 <= q < idx.len(),
    ensures
        exists|f: int| 0 <= f <= q && idx[f] == idx[q] && first_listing(idx, f),
    decreases q,
{
    if !first_listing(idx, q) {
        let q2 = choose|q2: int| 0 <= q2 < q && idx[q2] == idx[q];
        lemma_first_listing_exists(idx, q2);
        let f = choose|f: int| 0 <= f <= q2 && idx[f] == idx[q2] && first_listing(idx, f);
        assert(0 <= f <= q && idx[f] == idx[q] && first_listing(idx, f));
    }
}

proof fn lemma_titles_unique(apps: Seq<AppEntry>, idx: Seq<usize>, m: nat)
    requires
        m <= idx.len(),
    ensures
        forall|a: int, b: int| 0 <= a < b < kept_prefix(apps, idx, m).len()
            && collapsible(apps[kept_prefix(apps, idx, m)[a] as int])
            && collapsible(apps[kept_prefix(apps, idx, m)[b] as int])
            ==> apps[#[trigger] kept_prefix(apps, idx, m)[a] as int].titleid_lower@
                != apps[#[trigger] kept_prefix(apps, idx, m)[b] as int].titleid_lower@,
    decreases m,
{
    if m > 0 {
        lemma_titles_unique(apps, idx, (m - 1) as nat);
        lemma_kept_came_from(apps, idx, (m - 1) as nat);
        let r = kept_prefix(apps, idx, m);
        let r0 = kept_prefix(apps, idx, (m - 1) as nat);
        assert forall|a: int, b: int| 0 <= a < b < r.len() && collapsible(apps[r[a] as int]) && collapsible(apps[r[b] as int])
            implies apps[#[trigger] r[a] as int].titleid_lower@ != apps[#[trigger] r[b] as int].titleid_lower@ by {
            if b < r0.len() {
                assert(r[a] == r0[a] && r[b] == r0[b]);
            } else {
                assert(r[a] == r0[a]);
                assert(kept_before(apps, idx, m - 1, r0[a]));
                let q = choose|q: int| 0 <= q < m - 1 && kept_at(apps, idx, q) && idx[q] == r0[a];
                assert(r[b] == idx[m - 1]);
                if apps[r[a] as int].titleid_lower@ == apps[r[b] as int].titleid_lower@ {
                    assert(kept_at(apps, idx, m - 1));
                    assert(idx[q] == idx[m - 1]);
                    assert(false);
                }
            }
        }
    }
}

/// In the collapsed grid no two homebrew entries share a title id.
pub proof fn each_homebrew_title_shows_once(apps: Seq<AppEntry>, idx: Seq<usize>)
    ensures
        forall|a: int, b: int| 0 <= a < b < collapsed(apps, idx).len()
            && collapsible(apps[collapsed(apps, idx)[a] as int])
            && collapsible(apps[collapsed(apps, idx)[b] as int])
            ==> apps[#[trigger] collapsed(apps, idx)[a] as int].titleid_lower@
                != apps[#[trigger] collapsed(apps, idx)[b] as int].titleid_lower@,
{
    lemma_titles_unique(apps, idx, idx.len());
}

/// The collapse only drops twins: it lists nothing that was not listed, keeps
/// every entry that cannot have a twin, and keeps one copy of every homebrew
/// title that was listed.
pub proof fn collapsing_keeps_every_title(apps: Seq<AppEntry>, idx: Seq<usize>)
    requires
        listed_in(apps, idx),
    ensures
        collapsed(apps, idx).len() <= idx.len(),
        forall|k: int| 0 <= k < collapsed(apps, idx).len() ==> idx.contains(#[trigger] collapsed(apps, idx)[k]),
        forall|p: int| 0 <= p < idx.len() && !collapsible(apps[idx[p] as int])
            ==> collapsed(apps, idx).contains(#[trigger] idx[p]),
        forall|p: int| 0 <= p < idx.len() && collapsible(apps[#[trigger] idx[p] as int])
            ==> exists|k: int| 0 <= k < collapsed(apps, idx).len()
                && apps[collapsed(apps, idx)[k] as int].titleid_lower@ == apps[idx[p] as int].titleid_lower@,
{
    let r = collapsed(apps, idx);
    lemma_kept_came_from(apps, idx, idx.len());
    assert forall|k: int| 0 <= k < r.len() implies idx.contains(#[trigger] r[k]) by {
        assert(kept_before(apps, idx, idx.len() as int, r[k]));
        let q = choose|q: int| 0 <= q < idx.len() && kept_at(apps, idx, q) && idx[q] == r[k];
        assert(idx[q] == r[k]);
    }
    assert forall|p: int| 0 <= p < idx.len() && !collapsible(apps[idx[p] as int]) implies r.contains(#[trigger] idx[p]) by {
        lemma_kept_is_shown(apps, idx, idx.len(), p);
    }
    assert forall|p: int| 0 <= p < idx.len() && collapsible(apps[#[trigger] idx[p] as int])
        implies exists|k: int| 0 <= k < r.len() && apps[r[k] as int].titleid_lower@ == apps[idx[p] as int].titleid_lower@ by {
        let key = apps[idx[p] as int].titleid_lower@;
        lemma_listed_title_has_winner(apps, idx, p);
        lemma_winner_is_listed(apps, idx, key);
        let c = twin_winner(apps, idx, key).unwrap();
        let q = choose|q: int| 0 <= q < idx.len() && idx[q] == c;
        lemma_first_listing_exists(idx, q);
        let f = choose|f: int| 0 <= f <= q && idx[f] == idx[q] && first_listing(idx, f);
        assert(kept_at(apps, idx, f));
        lemma_kept_is_shown(apps, idx, idx.len(), f);
        let k = choose|k: int| 0 <= k < r.len() && r[k] == idx[f];
        assert(apps[r[k] as int].titleid_lower@ == key);
    }
}


/// The entries of `s` that cannot have a twin.
pub open spec fn plain_entries(apps: Seq<AppEntry>, s: Set<usize>) -> Set<usize> {
    s.filter(|x: usize| !collapsible(apps[x as int]))
}

/// The title ids of the entries of `s` that can have a twin.
pub open spec fn twin_titles(apps: Seq<AppEntry>, s: Set<usize>) -> Set<Seq<char>> {
    s.filter(|x: usize| collapsible(apps[x as int])).map(|x: usize| apps[x as int].titleid_lower@)
}

proof fn lemma_collapsed_no_duplicates(apps: Seq<AppEntry>, idx: Seq<usize>, m: nat)
    requires
        m <= idx.len(),
        idx.no_duplicates(),
    ensures
        kept_prefix(apps, idx, m).no_duplicates(),
    decreases m,
{
    if m > 0 {
        let m0 = (m - 1) as nat;
        lemma_collapsed_no_duplicates(apps, idx, m0);
        lemma_kept_came_from(apps, idx, m0);
        let r = kept_prefix(apps, idx, m);
        let r0 = kept_prefix(apps, idx, m0);
        assert forall|i: int, j: int| 0 <= i < r.len() && 0 <= j < r.len() && i != j implies r[i] != r[j] by {
            if i < r0.len() && j < r0.len() {
                assert(r[i] == r0[i] && r[j] == r0[j]);
            } else if i < r0.len() {
                assert(r[i] == r0[i]);
                assert(kept_before(apps, idx, m0 as int, r0[i]));
                let q = choose|q: int| 0 <= q < m0 && kept_at(apps, idx, q) && idx[q] == r0[i];
                assert(r[j] == idx[m0 as int]);
            } else if j < r0.len() {
                assert(r[j] == r0[j]);
                assert(kept_before(apps, idx, m0 as int, r0[j]));
                let q = choose|q: int| 0 <= q < m0 && kept_at(apps, idx, q) && idx[q] == r0[j];
                assert(r[i] == idx[m0 as int]);
            }
        }
    }
}

proof fn lemma_collapsed_count(apps: Seq<AppEntry>, idx: Seq<usize>)
    requires
        listed_in(apps, idx),
        idx.no_duplicates(),
    ensures
        collapsed(apps, idx).len() == plain_entries(apps, idx.to_set()).len() + twin_titles(apps, idx.to_set()).len(),
{
    broadcast use vstd::seq_lib::seq_to_set_is_finite;
    broadcast use vstd::set_lib::lemma_set_subset_finite;
    let r = collapsed(apps, idx);
    let s = idx.to_set();
    let n = plain_entries(apps, s);
    let c = s.filter(|x: usize| collapsible(apps[x as int]));
    let key = |x: usize| apps[x as int].titleid_lower@;
    let k = twin_titles(apps, s);
    let f = |t: Seq<char>| match twin_winner(apps, idx, t) {
        Some(w) => w,
        None => 0usize,
    };
    let w = k.map(f);
    lemma_collapsed_no_duplicates(apps, idx, idx.len());
    r.unique_seq_to_set();
    lemma_kept_came_from(apps, idx, idx.len());
    assert(n.subset_of(s));
    assert(c.subset_of(s));
    c.lemma_map_finite(key);
    assert(k == c.map(key));
    k.lemma_map_finite(f);
    assert forall|x: usize| r.to_set().contains(x) <==> (n + w).contains(x) by {
        if r.to_set().contains(x) {
            let i = choose|i: int| 0 <= i < r.len() && r[i] == x;
            assert(kept_before(apps, idx, idx.len() as int, r[i]));
            let q = choose|q: int| 0 <= q < idx.len() && kept_at(apps, idx, q) && idx[q] == r[i];
            assert(s.contains(x));
            if collapsible(apps[x as int]) {
                assert(c.contains(x));
                assert(k.contains(key(x)));
                assert(f(key(x)) == x);
                assert(w.contains(x));
            } else {
                assert(n.contains(x));
            }
        }
        if n.contains(x) {
            let q = choose|q: int| 0 <= q < idx.len() && idx[q] == x;
            lemma_kept_is_shown(apps, idx, idx.len(), q);
        }
        if w.contains(x) {
            let t = choose|t: Seq<char>| k.contains(t) && f(t) == x;
            let y = choose|y: usize| c.contains(y) && key(y) == t;
            let p = choose|p: int| 0 <= p < idx.len() && idx[p] == y;
            lemma_listed_title_has_winner(apps, idx, p);
            lemma_winner_is_listed(apps, idx, t);
            let q = choose|q: int| 0 <= q < idx.len() && idx[q] == x;
            assert(first_listing(idx, q));
            assert(kept_at(apps, idx, q));
            lemma_kept_is_shown(apps, idx, idx.len(), q);
        }
    }
    assert(r.to_set() =~= n + w);
    assert(n.disjoint(w)) by {
        assert forall|x: usize| w.contains(x) implies !n.contains(x) by {
            let t = choose|t: Seq<char>| k.contains(t) && f(t) == x;
            let y = choose|y: usize| c.contains(y) && key(y) == t;
            let p = choose|p: int| 0 <= p < idx.len() && idx[p] == y;
            lemma_listed_title_has_winner(apps, idx, p);
            lemma_winner_is_listed(apps, idx, t);
        }
    }
    vstd::set_lib::lemma_set_disjoint_lens(n, w);
    assert(vstd::relations::injective_on(f, k)) by {
        assert forall|t1: Seq<char>, t2: Seq<char>| k.contains(t1) && k.contains(t2) && #[trigger] f(t1) == #[trigger] f(t2) implies t1 == t2 by {
            let y1 = choose|y: usize| c.contains(y) && key(y) == t1;
            let p1 = choose|p: int| 0 <= p < idx.len() && idx[p] == y1;
            let y2 = choose|y: usize| c.contains(y) && key(y) == t2;
            let p2 = choose|p: int| 0 <= p < idx.len() && idx[p] == y2;
            lemma_listed_title_has_winner(apps, idx, p1);
            lemma_listed_title_has_winner(apps, idx, p2);
            lemma_winner_is_listed(apps, idx, t1);
            lemma_winner_is_listed(apps, idx, t2);
        }
    }
    vstd::set_lib::lemma_map_size(k, w, f);
}

/// How many entries a grid shows once twins are collapsed does not depend on
/// the order: two grids that list the same entries, each once, collapse to
/// the same number.
pub proof fn the_collapsed_count_ignores_the_order(apps: Seq<AppEntry>, a: Seq<usize>, b: Seq<usize>)
    requires
        listed_in(apps, a),
        listed_in(apps, b),
        a.no_duplicates(),
        b.no_duplicates(),
        a.to_set() == b.to_set(),
    ensures
        collapsed(apps, a).len() == collapsed(apps, b).len(),
{
    lemma_collapsed_count(apps, a);
    lemma_collapsed_count(apps, b);
}

proof fn lemma_parts_irreflexive(p: Seq<u64>, k: nat)
    ensures
        !parts_less_from(p, p, k),
    decreases p.len() + p.len() - k,
{
    if k < p.len() {
        lemma_parts_irreflexive(p, k + 1);
    }
}

proof fn lemma_parts_asymmetric(a: Seq<u64>, b: Seq<u64>, k: nat)
    ensures
        parts_less_from(a, b, k) ==> !parts_less_from(b, a, k),
    decreases a.len() + b.len() - k,
{
    if !(k >= a.len() && k >= b.len()) && part_at(a, k as int) == part_at(b, k as int) {
        lemma_parts_asymmetric(a, b, k + 1);
    }
}

/// No version is older than itself.
pub proof fn no_version_is_older_than_itself(v: Seq<char>)
    ensures
        !version_older(v, v),
{
    lemma_parts_irreflexive(version_parts(v), 0);
}

/// Of two versions, at most one is older than the other.
pub proof fn an_older_version_is_not_also_newer(a: Seq<char>, b: Seq<char>)
    ensures
        version_older(a, b) ==> !version_older(b, a),
{
    lemma_parts_asymmetric(version_parts(a), version_parts(b), 0);
}

} // verus!
