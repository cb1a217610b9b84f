//! The server's app records and the rules that turn one into a catalog entry.

use vstd::prelude::*;
use crate::data::{AppEntry, Category, Platform, category_from_api, platform_from_api_type, derived_name, sanitized_opt};
use crate::data::api::{absolute, absolute_text, non_empty, non_empty_text};
use crate::strings::{
    contains, eq_ignore_ascii_case, opt_string_view, parse_u64_dec, parse_u64_exec, str_contains,
    str_eq_ignore_ascii_case, trim,
};
use crate::text::sanitize_result;

verus! {

/// An app record as the catalog API sends it. `rating_bits` holds the bits of
/// the `f32` average rating; `overview` lists the overview pairs by key.
pub struct RawApp {
    pub id: i64,
    pub title_id: Option<String>,
    pub content_id: Option<String>,
    pub name: String,
    pub original_name: Option<String>,
    pub overview: Option<Vec<(String, String)>>,
    pub author: Option<String>,
    pub description: Option<String>,
    pub long_description: Option<String>,
    pub requirements: Option<String>,
    pub changelog: Option<String>,
    pub release_page: Option<String>,
    pub category: String,
    pub kind: String,
    pub icon_hash: Option<String>,
    pub icon_url: Option<String>,
    pub cover_url: Option<String>,
    pub background_url: Option<String>,
    pub screenshot_urls: Vec<String>,
    pub download_url: String,
    pub source: Option<String>,
    pub version: Option<String>,
    pub region: Option<String>,
    pub zrif: Option<String>,
    pub source_catalog: Option<String>,
    pub source_labels: Vec<String>,
    pub size: Option<String>,
    pub install_count: u64,
    pub rating_bits: u32,
    pub ratings_count: u32,
    pub likes_count: u32,
    pub comments_count: u32,
    pub user_liked: bool,
    pub user_rating: Option<u8>,
    pub release_date: Option<String>,
}

/// A record whose download cannot work: no URL, the placeholder `missing`, or
/// the old homebrew redirect script.
pub open spec fn download_unusable(url: Seq<char>) -> bool {
    url.len() == 0 || eq_ignore_ascii_case(url, "missing"@) || contains(url, "get_hb_url.php"@)
}

/// An optional text, or a default.
pub open spec fn text_or(o: Option<Seq<char>>, default: Seq<char>) -> Seq<char> {
    match o {
        Some(t) => t,
        None => default,
    }
}

/// The author shown: the record's, unless missing or blank (`unknown`).
pub open spec fn author_text(a: Option<Seq<char>>) -> Seq<char> {
    match a {
        Some(t) => if trim(t).len() == 0 { "unknown"@ } else { t },
        None => "unknown"@,
    }
}

/// An optional text trimmed, unless missing or blank.
pub open spec fn non_empty_opt(o: Option<Seq<char>>) -> Option<Seq<char>> {
    match o {
        Some(t) => non_empty_text(t),
        None => None,
    }
}

/// The source-code link kept: a non-blank one on GitHub.
pub open spec fn github_source(o: Option<Seq<char>>) -> Option<Seq<char>> {
    match non_empty_opt(o) {
        Some(t) => if contains(t, "github.com"@) { Some(t) } else { None },
        None => None,
    }
}

/// The download size: the record's size text read as a whole number, else 0.
pub open spec fn size_of_text(o: Option<Seq<char>>) -> u64 {
    match o {
        Some(t) => match parse_u64_dec(t) {
            Some(n) => n,
            None => 0,
        },
        None => 0,
    }
}

/// An optional server path made absolute.
pub open spec fn absolute_opt(base: Seq<char>, o: Option<Seq<char>>) -> Option<Seq<char>> {
    match o {
        Some(u) => Some(absolute_text(base, u)),
        None => None,
    }
}

/// The icon kept: only a record whose icon hash is present and not `default`
/// has a real icon.
pub open spec fn icon_of(base: Seq<char>, hash: Option<Seq<char>>, url: Option<Seq<char>>) -> Option<Seq<char>> {
    match hash {
        Some(h) => if h != "default"@ { absolute_opt(base, url) } else { None },
        None => None,
    }
}

/// The cover kept: the record's cover, else its first screenshot.
pub open spec fn cover_of(base: Seq<char>, cover: Option<Seq<char>>, shots: Seq<String>) -> Option<Seq<char>> {
    match cover {
        Some(u) => Some(absolute_text(base, u)),
        None => if shots.len() > 0 { Some(absolute_text(base, shots[0]@)) } else { None },
    }
}

/// `e` is the catalog entry of record `raw` from the API at base URL `base`:
/// every field as the conversion below sets it, the texts cleaned and the
/// search keys filled in.
pub open spec fn entry_from_record(e: AppEntry, raw: RawApp, base: Seq<char>) -> bool {
    let titleid = text_or(opt_string_view(raw.title_id), Seq::empty());
    &&& e.id@ == crate::strings::signed_decimal(raw.id as int)
    &&& e.titleid@ == titleid
    &&& e.titleid_lower@ == crate::strings::lowercase(titleid)
    &&& opt_string_view(e.content_id) == non_empty_opt(opt_string_view(raw.content_id))
    &&& e.name@ == derived_name(raw.name@, opt_string_view(raw.original_name), titleid)
    &&& e.name_lower@ == crate::strings::lowercase(e.name@)
    &&& opt_string_view(e.original_name) == sanitized_opt(opt_string_view(raw.original_name))
    &&& e.author@ == sanitize_result(author_text(opt_string_view(raw.author)))
    &&& e.author_lower@ == crate::strings::lowercase(e.author@)
    &&& e.description@ == sanitize_result(text_or(opt_string_view(raw.description), Seq::empty()))
    &&& e.long_description@ == sanitize_result(text_or(opt_string_view(raw.long_description), Seq::empty()))
    &&& e.requirements@ == sanitize_result(text_or(opt_string_view(raw.requirements), Seq::empty()))
    &&& e.changelog@ == sanitize_result(text_or(opt_string_view(raw.changelog), Seq::empty()))
    &&& e.version@ == sanitize_result(text_or(opt_string_view(raw.version), "1.0"@))
    &&& opt_string_view(e.release_page) == non_empty_opt(opt_string_view(raw.release_page))
    &&& e.category == category_from_api(raw.category@, raw.kind@)
    &&& e.platform == platform_from_api_type(raw.kind@)
    &&& e.kind@ == raw.kind@
    &&& opt_string_view(e.icon_url) == icon_of(base, opt_string_view(raw.icon_hash), opt_string_view(raw.icon_url))
    &&& opt_string_view(e.cover_url) == cover_of(base, opt_string_view(raw.cover_url), raw.screenshot_urls@)
    &&& opt_string_view(e.background_url) == absolute_opt(base, opt_string_view(raw.background_url))
    &&& e.screenshot_urls@.len() == raw.screenshot_urls@.len()
    &&& (forall|i: int| 0 <= i < raw.screenshot_urls@.len() ==>
        (#[trigger] e.screenshot_urls@[i])@ == absolute_text(base, raw.screenshot_urls@[i]@))
    &&& e.download_url@ == raw.download_url@
    &&& opt_string_view(e.source) == github_source(opt_string_view(raw.source))
    &&& opt_string_view(e.region) == opt_string_view(raw.region)
    &&& opt_string_view(e.zrif) == non_empty_opt(opt_string_view(raw.zrif))
    &&& e.source_catalog@ == text_or(opt_string_view(raw.source_catalog), "vitadb"@)
    &&& e.source_labels == raw.source_labels
    &&& e.hash@.len() == 0
    &&& e.hash2@.len() == 0
    &&& e.data_url is None
    &&& e.data_size_bytes == 0
    &&& e.size_bytes == size_of_text(opt_string_view(raw.size))
    &&& e.downloads == raw.install_count
    &&& e.rating_bits == raw.rating_bits
    &&& e.updated_at@ == text_or(opt_string_view(raw.release_date), Seq::empty())
    &&& e.ratings_count == raw.ratings_count
    &&& e.likes_count == raw.likes_count
    &&& e.comments_count == raw.comments_count
    &&& e.user_liked == raw.user_liked
    &&& e.user_rating == raw.user_rating
    &&& e.overview@.len() == (match raw.overview { Some(o) => o@.len(), None => 0 })
    &&& (raw.overview matches Some(o) ==> forall|i: int| 0 <= i < o@.len() ==> {
        &&& (#[trigger] e.overview@[i]).0@ == sanitize_result(o@[i].0@)
        &&& e.overview@[i].1@ == sanitize_result(o@[i].1@)
    })
}

fn text_or_exec(o: Option<String>, default: &str) -> (r: String)
    ensures
        r@ == text_or(opt_string_view(o), default@),
{
    match o {
        Some(t) => t,
        None => default.to_owned(),
    }
}

fn non_empty_opt_exec(o: Option<String>) -> (r: Option<String>)
    ensures
        opt_string_view(r) == non_empty_opt(opt_string_view(o)),
{
    match o {
        Some(t) => non_empty(t),
        None => None,
    }
}

fn absolute_opt_exec(base: &str, o: &Option<String>) -> (r: Option<String>)
    ensures
        opt_string_view(r) == absolute_opt(base@, opt_string_view(*o)),
{
    match o {
        Some(u) => Some(absolute(base, u.as_str())),
        None => None,
    }
}

impl RawApp {
    /// The catalog entry for this record from the API at base URL `base`, or
    /// `None` when its download cannot work. Texts are cleaned and search keys
    /// filled as `rebuild_derived` does.
    #[verifier::rlimit(60)]
    #[verifier::spinoff_prover]
    pub fn into_app_entry(self, base: &str) -> (r: Option<AppEntry>)
        ensures
            download_unusable(self.download_url@) <==> r is None,
            r matches Some(e) ==> entry_from_record(e, self, base@),
    {
        if self.download_url.as_str().is_empty() || str_eq_ignore_ascii_case(self.download_url.as_str(), "missing")
            || str_contains(self.download_url.as_str(), "get_hb_url.php") {
            return None;
        }
        proof {
            reveal_strlit("");
        }
        let platform = Platform::from_api_type(self.kind.as_str());
        let category = Category::from_api(self.category.as_str(), self.kind.as_str());
        let ghost raw = self;
        let titleid = text_or_exec(self.title_id, "");
        let author = match self.author {
            Some(a) => if crate::text::is_blank(a.as_str()) { "unknown".to_owned() } else { a },
            None => "unknown".to_owned(),
        };
        let size_bytes: u64 = match &self.size {
            Some(s) => match parse_u64_exec(s.as_str()) {
                Some(n) => n,
                None => 0,
            },
            None => 0,
        };
        let has_valid_icon = match &self.icon_hash {
            Some(h) => !crate::strings::str_equals(h.as_str(), "default"),
            None => false,
        };
        let icon_url = if has_valid_icon { absolute_opt_exec(base, &self.icon_url) } else { None };
        let cover_url = match &self.cover_url {
            Some(u) => Some(absolute(base, u.as_str())),
            None => if self.screenshot_urls.len() > 0 { Some(absolute(base, self.screenshot_urls[0].as_str())) } else { None },
        };
        let background_url = absolute_opt_exec(base, &self.background_url);
        let mut screenshot_urls: Vec<String> = Vec::new();
        let mut i: usize = 0;
        while i < self.screenshot_urls.len()
            invariant
                i <= self.screenshot_urls@.len(),
                screenshot_urls@.len() == i,
                forall|k: int| 0 <= k < i ==> (#[trigger] screenshot_urls@[k])@ == absolute_text(base@, self.screenshot_urls@[k]@),
            decreases self.screenshot_urls.len() - i,
        {
            screenshot_urls.push(absolute(base, self.screenshot_urls[i].as_str()));
            i += 1;
        }
        let source = match non_empty_opt_exec(self.source) {
            Some(t) => if str_contains(t.as_str(), "github.com") { Some(t) } else { None },
            None => None,
        };
        let overview: Vec<(String, String)> = match self.overview {
            Some(o) => o,
            None => Vec::new(),
        };
        let mut entry = AppEntry {
            id: crate::strings::i64_to_string(self.id),
            titleid,
            titleid_lower: String::new(),
            content_id: non_empty_opt_exec(self.content_id),
            name: self.name,
            original_name: self.original_name,
            name_lower: String::new(),
            author,
            author_lower: String::new(),
            description: text_or_exec(self.description, ""),
            long_description: text_or_exec(self.long_description, ""),
            requirements: text_or_exec(self.requirements, ""),
            changelog: text_or_exec(self.changelog, ""),
            release_page: non_empty_opt_exec(self.release_page),
            category,
            platform,
            kind: self.kind,
            icon_url,
            cover_url,
            background_url,
            screenshot_urls,
            download_url: self.download_url,
            source,
            version: text_or_exec(self.version, "1.0"),
            region: self.region,
            zrif: non_empty_opt_exec(self.zrif),
            source_catalog: text_or_exec(self.source_catalog, "vitadb"),
            source_labels: self.source_labels,
            hash: String::new(),
            hash2: String::new(),
            data_url: None,
            data_size_bytes: 0,
            size_bytes,
            downloads: self.install_count,
            rating_bits: self.rating_bits,
            updated_at: text_or_exec(self.release_date, ""),
            ratings_count: self.ratings_count,
            likes_count: self.likes_count,
            comments_count: self.comments_count,
            user_liked: self.user_liked,
            user_rating: self.user_rating,
            overview,
        };
        entry.rebuild_derived();
        assert(entry.description@ == sanitize_result(text_or(opt_string_view(raw.description), Seq::empty())));
        assert(entry.long_description@ == sanitize_result(text_or(opt_string_view(raw.long_description), Seq::empty())));
        assert(entry.requirements@ == sanitize_result(text_or(opt_string_view(raw.requirements), Seq::empty())));
        assert(entry.changelog@ == sanitize_result(text_or(opt_string_view(raw.changelog), Seq::empty())));
        assert(entry.updated_at@ == text_or(opt_string_view(raw.release_date), Seq::empty()));
        assert(entry.titleid@ == text_or(opt_string_view(raw.title_id), Seq::empty()));
        assert(raw.overview matches Some(o) ==> forall|i: int| 0 <= i < o@.len() ==> {
            &&& (#[trigger] entry.overview@[i]).0@ == sanitize_result(o@[i].0@)
            &&& entry.overview@[i].1@ == sanitize_result(o@[i].1@)
        });
        Some(entry)
    }
}

/// The records whose download can work, in order.
pub open spec fn usable_records(raws: Seq<RawApp>) -> Seq<RawApp>
    decreases raws.len(),
{
    if raws.len() == 0 {
        Seq::empty()
    } else {
        let rest = usable_records(raws.drop_last());
        if download_unusable(raws.last().download_url@) { rest } else { rest.push(raws.last()) }
    }
}

/// The catalog entries of a snapshot page from the API at base URL `base`:
/// one per usable record, in order.
pub fn entries_from_records(raws: Vec<RawApp>, base: &str) -> (r: Vec<AppEntry>)
    ensures
        r@.len() == usable_records(raws@).len(),
        forall|k: int| 0 <= k < r@.len() ==> entry_from_record(#[trigger] r@[k], usable_records(raws@)[k], base@),
{
    let ghost all = raws@;
    let mut out: Vec<AppEntry> = Vec::new();
    for raw in it: raws.into_iter()
        invariant
            it.seq() == all,
            out@.len() == usable_records(all.take(it.index() as int)).len(),
            forall|k: int| 0 <= k < out@.len() ==> entry_from_record(#[trigger] out@[k], usable_records(all.take(it.index() as int))[k], base@),
    {
        let ghost i = it.index() as int;
        assert(all.take(i + 1).drop_last() =~= all.take(i));
        assert(all.take(i + 1).last() == raw);
        match raw.into_app_entry(base) {
            Some(e) => {
                out.push(e);
            },
            None => {},
        }
    }
    assert(all.take(all.len() as int) =~= all);
    out
}

/// A user comment.
#[derive(Debug, Clone)]
pub struct Comment {
    pub author_name: String,
    pub content: String,
}

/// Cleans the author and text of every comment, as fetched comments are.
pub fn sanitize_comments(comments: &mut Vec<Comment>)
    ensures
        final(comments)@.len() == old(comments)@.len(),
        forall|k: int| 0 <= k < old(comments)@.len() ==> {
            &&& (#[trigger] final(comments)@[k]).author_name@ == sanitize_result(old(comments)@[k].author_name@)
            &&& final(comments)@[k].content@ == sanitize_result(old(comments)@[k].content@)
        },
{
    let mut previous: Vec<Comment> = Vec::new();
    std::mem::swap(&mut previous, comments);
    let ghost before = previous@;
    for c in it: previous.into_iter()
        invariant
            it.seq() == before,
            comments@.len() == it.index(),
            forall|k: int| 0 <= k < it.index() ==> {
                &&& (#[trigger] comments@[k]).author_name@ == sanitize_result(before[k].author_name@)
                &&& comments@[k].content@ == sanitize_result(before[k].content@)
            },
    {
        let Comment { mut author_name, mut content } = c;
        crate::text::sanitize(&mut author_name);
        crate::text::sanitize(&mut content);
        comments.push(Comment { author_name, content });
    }
}

/// The catalog version the server reports: a number that changes with every
/// catalog change, the number of apps, and an entity tag.
#[derive(Debug, Clone)]
pub struct CatalogVersionInfo {
    pub version: i64,
    pub total_apps: i64,
    pub etag: String,
}

/// The community state of one app. `rating_bits` holds the bits of the `f32`
/// average rating.
#[derive(Debug, Clone, Copy, PartialEq, Eq, Structural)]
pub struct Social {
    pub rating_bits: u32,
    pub ratings_count: u32,
    pub likes_count: u32,
    pub user_liked: bool,
    pub user_rating: Option<u8>,
}

impl Default for Social {
    fn default() -> (r: Social)
        ensures
            r == (Social { rating_bits: 0, ratings_count: 0, likes_count: 0, user_liked: false, user_rating: None }),
    {
        Social { rating_bits: 0, ratings_count: 0, likes_count: 0, user_liked: false, user_rating: None }
    }
}

/// A newer release of the store itself: its tag and package URL.
#[derive(Debug, Clone)]
pub struct SelfUpdateInfo {
    pub tag: String,
    pub vpk_url: String,
}

/// Where the catalog comes from at launch.
#[derive(Debug, Clone, Copy, PartialEq, Eq, Structural)]
pub enum CatalogPlan {
    /// The cached copy is current: use it.
    UseCached,
    /// Download the server's snapshot (and cache it).
    FetchSnapshot,
    /// The server cannot be asked: use the cached copy.
    UseOffline,
    /// Neither is available.
    Fail,
}

/// The plan for the cached version (if any copy is cached) and the server's
/// version (if it answered): the cache is current when both the version and
/// the app count match.
pub open spec fn catalog_plan(cached: Option<(i64, i64)>, remote: Option<(i64, i64)>) -> CatalogPlan {
    match (cached, remote) {
        (Some(l), Some(r)) => if l.0 == r.0 && l.1 == r.1 { CatalogPlan::UseCached } else { CatalogPlan::FetchSnapshot },
        (None, Some(_)) => CatalogPlan::FetchSnapshot,
        (Some(_), None) => CatalogPlan::UseOffline,
        (None, None) => CatalogPlan::Fail,
    }
}

/// Decides where the catalog comes from.
pub fn plan_catalog(cached: Option<&CatalogVersionInfo>, remote: Option<&CatalogVersionInfo>) -> (r: CatalogPlan)
    ensures
        r == catalog_plan(
            match cached { Some(v) => Some((v.version, v.total_apps)), None => None },
            match remote { Some(v) => Some((v.version, v.total_apps)), None => None },
        ),
{
    match (cached, remote) {
        (Some(l), Some(r)) => if l.version == r.version && l.total_apps == r.total_apps {
            CatalogPlan::UseCached
        } else {
            CatalogPlan::FetchSnapshot
        },
        (None, Some(_)) => CatalogPlan::FetchSnapshot,
        (Some(_), None) => CatalogPlan::UseOffline,
        (None, None) => CatalogPlan::Fail,
    }
}

/// Entries the console can install: the PSP and PS1 titles of the commercial
/// catalog are not.
pub open spec fn installable(p: Platform) -> bool {
    p != Platform::NpsPsp && p != Platform::NpsPsx
}

/// The installable entries, in order.
pub open spec fn installable_entries(s: Seq<AppEntry>) -> Seq<AppEntry>
    decreases s.len(),
{
    if s.len() == 0 {
        Seq::empty()
    } else {
        let rest = installable_entries(s.drop_last());
        if installable(s.last().platform) { rest.push(s.last()) } else { rest }
    }
}

/// Keeps the entries the console can install.
pub fn drop_unavailable_platforms(entries: Vec<AppEntry>) -> (r: Vec<AppEntry>)
    ensures
        r@ == installable_entries(entries@),
{
    let ghost all = entries@;
    let mut out: Vec<AppEntry> = Vec::new();
    for e in it: entries.into_iter()
        invariant
            it.seq() == all,
            out@ == installable_entries(all.take(it.index() as int)),
    {
        let ghost i = it.index() as int;
        assert(all.take(i + 1).drop_last() =~= all.take(i));
        assert(all.take(i + 1).last() == e);
        if e.platform != Platform::NpsPsp && e.platform != Platform::NpsPsx {
            out.push(e);
        }
    }
    assert(all.take(all.len() as int) =~= all);
    out
}

/// Every entry kept is installable.
pub proof fn only_installable_entries_are_kept(s: Seq<AppEntry>)
    ensures
        forall|k: int| 0 <= k < installable_entries(s).len() ==> installable(#[trigger] installable_entries(s)[k].platform),
        installable_entries(s).len() <= s.len(),
    decreases s.len(),
{
    if s.len() > 0 {
        only_installable_entries_are_kept(s.drop_last());
    }
}

} // verus!
