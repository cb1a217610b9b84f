//! The catalog database: where it lives, and how an entry is laid out in a
//! row of its `apps` table and read back from one.

use vstd::prelude::*;
use crate::data::{AppEntry, Category, Platform};
use crate::strings::{opt_string_view, str_equals};
use crate::text::sanitize_result;

verus! {

/// The catalog database on the console.
pub const CATALOG_DB_PATH: &'static str = "/ux0:data/vitaforge/catalog.db";
/// The catalog database elsewhere than on the console.
pub const CATALOG_DB_PATH_HOST: &'static str = "data/vitaforge/catalog.db";

/// The catalog database path for the console or for another host.
pub fn get_catalog_db_path(on_vita: bool) -> (r: &'static str)
    ensures
        r@ == (if on_vita { CATALOG_DB_PATH@ } else { CATALOG_DB_PATH_HOST@ }),
{
    if on_vita { CATALOG_DB_PATH } else { CATALOG_DB_PATH_HOST }
}

/// One row of the `apps` table. `rating_bits` holds the bits of the stored
/// `f32` rating; the list columns hold JSON arrays.
pub struct CatalogRow {
    pub id: String,
    pub titleid: String,
    pub content_id: Option<String>,
    pub name: String,
    pub original_name: Option<String>,
    pub author: String,
    pub description: String,
    pub long_description: String,
    pub requirements: String,
    pub changelog: String,
    pub release_page: Option<String>,
    pub category: String,
    pub platform: String,
    pub kind: String,
    pub icon_url: Option<String>,
    pub cover_url: Option<String>,
    pub background_url: Option<String>,
    pub screenshot_urls: String,
    pub download_url: String,
    pub source: Option<String>,
    pub version: String,
    pub region: Option<String>,
    pub zrif: Option<String>,
    pub source_catalog: String,
    pub source_labels: String,
    pub hash: String,
    pub hash2: String,
    pub data_url: Option<String>,
    pub data_size_bytes: i64,
    pub size_bytes: i64,
    pub downloads: i64,
    pub rating_bits: u32,
    pub updated_at: String,
    pub ratings_count: i64,
    pub likes_count: i64,
    pub comments_count: i64,
    pub user_liked: i32,
    pub user_rating: Option<u8>,
    pub overview: String,
}

/// The stored name of a category (its `snake_case` serde name).
pub open spec fn category_key(c: Category) -> Seq<char> {
    match c {
        Category::Emulator => "emulator"@,
        Category::Original => "original"@,
        Category::PsVitaGame => "ps_vita_game"@,
        Category::Ps1Game => "ps1_game"@,
        Category::PspGame => "psp_game"@,
        Category::Plugin => "plugin"@,
        Category::Port => "port"@,
        Category::Tool => "tool"@,
        Category::Utility => "utility"@,
        Category::Other => "other"@,
    }
}

/// The category a stored name stands for; an unknown name reads as `Utility`.
pub open spec fn category_of_key(k: Seq<char>) -> Category {
    if k == "emulator"@ { Category::Emulator }
    else if k == "original"@ { Category::Original }
    else if k == "ps_vita_game"@ { Category::PsVitaGame }
    else if k == "ps1_game"@ { Category::Ps1Game }
    else if k == "psp_game"@ { Category::PspGame }
    else if k == "plugin"@ { Category::Plugin }
    else if k == "port"@ { Category::Port }
    else if k == "tool"@ { Category::Tool }
    else if k == "other"@ { Category::Other }
    else { Category::Utility }
}

/// The stored name of a platform (its `snake_case` serde name).
pub open spec fn platform_key(p: Platform) -> Seq<char> {
    match p {
        Platform::Vita => "vita"@,
        Platform::Psp => "psp"@,
        Platform::Plugin => "plugin"@,
        Platform::NpsVita => "nps_vita"@,
        Platform::NpsPsp => "nps_psp"@,
        Platform::NpsPsx => "nps_psx"@,
    }
}

/// The platform a stored name stands for; an unknown name reads as `Vita`.
pub open spec fn platform_of_key(k: Seq<char>) -> Platform {
    if k == "psp"@ { Platform::Psp }
    else if k == "plugin"@ { Platform::Plugin }
    else if k == "nps_vita"@ { Platform::NpsVita }
    else if k == "nps_psp"@ { Platform::NpsPsp }
    else if k == "nps_psx"@ { Platform::NpsPsx }
    else { Platform::Vita }
}

/// The stored name of a category.
pub fn category_name(c: Category) -> (r: &'static str)
    ensures
        r@ == category_key(c),
{
    match c {
        Category::Emulator => "emulator",
        Category::Original => "original",
        Category::PsVitaGame => "ps_vita_game",
        Category::Ps1Game => "ps1_game",
        Category::PspGame => "psp_game",
        Category::Plugin => "plugin",
        Category::Port => "port",
        Category::Tool => "tool",
        Category::Utility => "utility",
        Category::Other => "other",
    }
}

/// The category whose name is exactly `k` (`Utility` for no category).
pub fn category_from_key(k: &str) -> (r: Category)
    ensures
        r == category_of_key(k@),
{
    if str_equals(k, "emulator") { Category::Emulator }
    else if str_equals(k, "original") { Category::Original }
    else if str_equals(k, "ps_vita_game") { Category::PsVitaGame }
    else if str_equals(k, "ps1_game") { Category::Ps1Game }
    else if str_equals(k, "psp_game") { Category::PspGame }
    else if str_equals(k, "plugin") { Category::Plugin }
    else if str_equals(k, "port") { Category::Port }
    else if str_equals(k, "tool") { Category::Tool }
    else if str_equals(k, "other") { Category::Other }
    else { Category::Utility }
}

/// The stored name of a platform.
pub fn platform_name(p: Platform) -> (r: &'static str)
    ensures
        r@ == platform_key(p),
{
    match p {
        Platform::Vita => "vita",
        Platform::Psp => "psp",
        Platform::Plugin => "plugin",
        Platform::NpsVita => "nps_vita",
        Platform::NpsPsp => "nps_psp",
        Platform::NpsPsx => "nps_psx",
    }
}

/// The platform whose name is exactly `k` (`Vita` for no platform).
pub fn platform_from_key(k: &str) -> (r: Platform)
    ensures
        r == platform_of_key(k@),
{
    if str_equals(k, "psp") { Platform::Psp }
    else if str_equals(k, "plugin") { Platform::Plugin }
    else if str_equals(k, "nps_vita") { Platform::NpsVita }
    else if str_equals(k, "nps_psp") { Platform::NpsPsp }
    else if str_equals(k, "nps_psx") { Platform::NpsPsx }
    else { Platform::Vita }
}

/// Every category's stored name reads back as that category.
pub proof fn category_names_read_back(c: Category)
    ensures
        category_of_key(category_key(c)) == c,
{
    reveal_strlit("emulator");
    reveal_strlit("original");
    reveal_strlit("ps_vita_game");
    reveal_strlit("ps1_game");
    reveal_strlit("psp_game");
    reveal_strlit("plugin");
    reveal_strlit("port");
    reveal_strlit("tool");
    reveal_strlit("utility");
    reveal_strlit("other");
    assert("emulator"@.len() == 8);
    assert("original"@.len() == 8);
    assert("ps_vita_game"@.len() == 12);
    assert("ps1_game"@.len() == 8);
    assert("psp_game"@.len() == 8);
    assert("plugin"@.len() == 6);
    assert("port"@.len() == 4);
    assert("tool"@.len() == 4);
    assert("utility"@.len() == 7);
    assert("other"@.len() == 5);
    assert("original"@[0] != "emulator"@[0]);
    assert("ps1_game"@[0] != "emulator"@[0] && "ps1_game"@[0] != "original"@[0]);
    assert("psp_game"@[0] != "emulator"@[0] && "psp_game"@[0] != "original"@[0]);
    assert("psp_game"@[2] != "ps1_game"@[2]);
    assert("tool"@[0] != "port"@[0]);
    assert(category_of_key("emulator"@) == Category::Emulator);
    assert(category_of_key("original"@) == Category::Original);
    assert(category_of_key("ps_vita_game"@) == Category::PsVitaGame);
    assert(category_of_key("ps1_game"@) == Category::Ps1Game);
    assert(category_of_key("psp_game"@) == Category::PspGame);
    assert(category_of_key("plugin"@) == Category::Plugin);
    assert(category_of_key("port"@) == Category::Port);
    assert(category_of_key("tool"@) == Category::Tool);
    assert(category_of_key("utility"@) == Category::Utility);
    assert(category_of_key("other"@) == Category::Other);
}

/// Every platform's stored name reads back as that platform.
pub proof fn platform_names_read_back(p: Platform)
    ensures
        platform_of_key(platform_key(p)) == p,
{
    reveal_strlit("vita");
    reveal_strlit("psp");
    reveal_strlit("plugin");
    reveal_strlit("nps_vita");
    reveal_strlit("nps_psp");
    reveal_strlit("nps_psx");
    assert("vita"@.len() == 4);
    assert("psp"@.len() == 3);
    assert("plugin"@.len() == 6);
    assert("nps_vita"@.len() == 8);
    assert("nps_psp"@.len() == 7);
    assert("nps_psx"@.len() == 7);
    assert("nps_psx"@[6] != "nps_psp"@[6]);
    assert(platform_of_key("vita"@) == Platform::Vita);
    assert(platform_of_key("psp"@) == Platform::Psp);
    assert(platform_of_key("plugin"@) == Platform::Plugin);
    assert(platform_of_key("nps_vita"@) == Platform::NpsVita);
    assert(platform_of_key("nps_psp"@) == Platform::NpsPsp);
    assert(platform_of_key("nps_psx"@) == Platform::NpsPsx);
}


/// What `serde_json` writes for a string: the JSON string literal.
pub uninterp spec fn json_of_string(s: Seq<char>) -> Seq<char>;

/// The string a JSON text holds, if it is exactly one JSON string literal.
pub uninterp spec fn string_of_json(json: Seq<char>) -> Option<Seq<char>>;

/// A text that JSON writes without escapes: no `"`, no `\` and no control
/// character.
pub open spec fn plain(s: Seq<char>) -> bool {
    forall|i: int| 0 <= i < s.len() ==> (#[trigger] s[i]) != '"' && s[i] != '\\' && (s[i] as u32) >= 0x20
}

/// `s` between double quotes.
pub open spec fn quoted(s: Seq<char>) -> Seq<char> {
    seq!['"'] + s + seq!['"']
}

/// `serde_json::to_string` of a string (empty should it ever fail; it cannot
/// for a string): a JSON string literal that `serde_json` reads back as the
/// string, and, for a text with nothing to escape, the text between double
/// quotes.
#[verifier::external_body]
fn string_to_json(s: &str) -> (r: String)
    ensures
        r@ == json_of_string(s@),
        string_of_json(r@) == Some(s@),
        plain(s@) ==> r@ == quoted(s@),
{
    serde_json::to_string(s).unwrap_or_default()
}

/// `serde_json::from_str` of a JSON string literal.
#[verifier::external_body]
fn string_from_json(json: &str) -> (r: Option<String>)
    ensures
        opt_string_view(r) == string_of_json(json@),
{
    serde_json::from_str::<String>(json).ok()
}

/// `s` without the runs of `c` at its start.
pub open spec fn trim_start_char(s: Seq<char>, c: char) -> Seq<char>
    decreases s.len(),
{
    if s.len() > 0 && s[0] == c { trim_start_char(s.drop_first(), c) } else { s }
}

/// `s` without the runs of `c` at either end (`str::trim_matches` with a
/// character).
pub open spec fn trim_ends_char(s: Seq<char>, c: char) -> Seq<char> {
    crate::data::api::trim_end_char(trim_start_char(s, c), c)
}

proof fn lemma_trim_start_char_skip(s: Seq<char>, c: char, k: int)
    requires
        0 <= k <= s.len(),
        forall|i: int| 0 <= i < k ==> s[i] == c,
        k == s.len() || s[k] != c,
    ensures
        trim_start_char(s, c) == s.skip(k),
    decreases k,
{
    if k > 0 {
        assert(s.drop_first().skip(k - 1) =~= s.skip(k));
        lemma_trim_start_char_skip(s.drop_first(), c, k - 1);
    } else {
        assert(s.skip(0) =~= s);
    }
}

proof fn lemma_trim_end_char_take(s: Seq<char>, c: char, k: int)
    requires
        0 <= k <= s.len(),
        forall|i: int| k <= i < s.len() ==> s[i] == c,
        k == 0 || s[k - 1] != c,
    ensures
        crate::data::api::trim_end_char(s, c) == s.take(k),
    decreases s.len(),
{
    if s.len() > k {
        assert(s.drop_last().take(k) =~= s.take(k));
        lemma_trim_end_char_take(s.drop_last(), c, k);
    } else {
        assert(s.take(k) =~= s);
    }
}

/// `s` without the double quotes at either end (`str::trim_matches('"')`).
fn trim_quotes(s: &str) -> (r: String)
    ensures
        r@ == trim_ends_char(s@, '"'),
{
    let v = crate::strings::chars_of(s);
    let mut a: usize = 0;
    while a < v.len() && v[a] == '"'
        invariant
            a <= v@.len(),
            forall|i: int| 0 <= i < a ==> v@[i] == '"',
        decreases v.len() - a,
    {
        a += 1;
    }
    let mut b: usize = v.len();
    while b > a && v[b - 1] == '"'
        invariant
            a <= b <= v@.len(),
            forall|i: int| b <= i < v@.len() ==> v@[i] == '"',
        decreases b - a,
    {
        b -= 1;
    }
    proof {
        lemma_trim_start_char_skip(v@, '"', a as int);
        let t = v@.skip(a as int);
        assert forall|i: int| (b - a) <= i < t.len() implies t[i] == '"' by {
            assert(t[i] == v@[i + a]);
        }
        if b > a {
            assert(t[b - a - 1] == v@[b - 1]);
        }
        lemma_trim_end_char_take(t, '"', (b - a) as int);
        assert(t.take((b - a) as int) =~= v@.subrange(a as int, b as int));
    }
    let out = crate::strings::slice_chars(&v, a, b);
    crate::strings::string_from_chars(&out)
}

/// A plain text between double quotes loses just the quotes.
proof fn lemma_unquote_plain(k: Seq<char>)
    requires
        plain(k),
    ensures
        trim_ends_char(quoted(k), '"') == k,
{
    let q = quoted(k);
    assert(q[0] == '"');
    if k.len() == 0 {
        assert(q[1] == '"');
        lemma_trim_start_char_skip(q, '"', 2);
        assert(q.skip(2) =~= k);
    } else {
        assert(q[1] == k[0]);
        lemma_trim_start_char_skip(q, '"', 1);
        let t = q.skip(1);
        assert(t =~= k + seq!['"']);
        assert(t[t.len() - 1] == '"');
        assert(t[k.len() - 1] == k[k.len() - 1]);
        lemma_trim_end_char_take(t, '"', k.len() as int);
        assert(t.take(k.len() as int) =~= k);
    }
}

/// Every category's and platform's name is plain text.
proof fn lemma_names_plain(c: Category, p: Platform)
    ensures
        plain(category_key(c)),
        plain(platform_key(p)),
{
    reveal_strlit("emulator");
    reveal_strlit("original");
    reveal_strlit("ps_vita_game");
    reveal_strlit("ps1_game");
    reveal_strlit("psp_game");
    reveal_strlit("plugin");
    reveal_strlit("port");
    reveal_strlit("tool");
    reveal_strlit("utility");
    reveal_strlit("other");
    reveal_strlit("vita");
    reveal_strlit("psp");
    reveal_strlit("nps_vita");
    reveal_strlit("nps_psp");
    reveal_strlit("nps_psx");
}

/// The name stored for a category or platform: what `serde_json` writes for
/// it, without its double quotes.
fn stored_name(name: &str) -> (r: String)
    requires
        plain(name@),
    ensures
        r@ == name@,
        string_of_json(quoted(r@)) == Some(r@),
{
    let json = string_to_json(name);
    proof {
        lemma_unquote_plain(name@);
    }
    trim_quotes(json.as_str())
}

/// The text a stored name column holds once read as a JSON string (it is
/// read between double quotes), if it reads.
fn read_stored_name(k: &str) -> (r: Option<String>)
    ensures
        opt_string_view(r) == string_of_json(quoted(k@)),
{
    let mut v: Vec<char> = Vec::new();
    v.push('"');
    crate::strings::push_str_chars(&mut v, k);
    v.push('"');
    assert(v@ =~= quoted(k@));
    let text = crate::strings::string_from_chars(&v);
    string_from_json(text.as_str())
}

/// The category a stored name column reads as: the column between double
/// quotes is read as a JSON string and matched against the names; a column
/// that does not read, or names no category, reads as `Utility`.
pub open spec fn category_of_stored(k: Seq<char>) -> Category {
    match string_of_json(quoted(k)) {
        Some(t) => category_of_key(t),
        None => Category::Utility,
    }
}

/// The platform a stored name column reads as, in the same way; `Vita`
/// where it does not read or names no platform.
pub open spec fn platform_of_stored(k: Seq<char>) -> Platform {
    match string_of_json(quoted(k)) {
        Some(t) => platform_of_key(t),
        None => Platform::Vita,
    }
}

/// The category of a stored name column.
pub fn category_from_name(k: &str) -> (r: Category)
    ensures
        r == category_of_stored(k@),
{
    match read_stored_name(k) {
        Some(t) => category_from_key(t.as_str()),
        None => Category::Utility,
    }
}

/// The platform of a stored name column.
pub fn platform_from_name(k: &str) -> (r: Platform)
    ensures
        r == platform_of_stored(k@),
{
    match read_stored_name(k) {
        Some(t) => platform_from_key(t.as_str()),
        None => Platform::Vita,
    }
}

/// What `serde_json` writes for a list of texts.
pub uninterp spec fn json_of_texts(items: Seq<Seq<char>>) -> Seq<char>;

/// What `serde_json` reads from a JSON array of texts, if it is one.
pub uninterp spec fn texts_of_json(json: Seq<char>) -> Option<Seq<Seq<char>>>;

/// What `serde_json` writes for a list of text pairs.
pub uninterp spec fn json_of_pairs(items: Seq<(Seq<char>, Seq<char>)>) -> Seq<char>;

/// What `serde_json` reads from a JSON array of text pairs, if it is one.
pub uninterp spec fn pairs_of_json(json: Seq<char>) -> Option<Seq<(Seq<char>, Seq<char>)>>;

/// Texts by their views.
pub open spec fn text_views(v: Seq<String>) -> Seq<Seq<char>> {
    v.map_values(|s: String| s@)
}

/// Text pairs by their views.
pub open spec fn pair_views(v: Seq<(String, String)>) -> Seq<(Seq<char>, Seq<char>)> {
    v.map_values(|p: (String, String)| (p.0@, p.1@))
}

/// `serde_json::to_string` of a list of texts (`[]` should it ever fail; it
/// cannot for strings): the JSON array of the texts, which `serde_json` reads
/// back as the same texts.
#[verifier::external_body]
fn texts_to_json(items: &Vec<String>) -> (r: String)
    ensures
        r@ == json_of_texts(text_views(items@)),
        texts_of_json(r@) == Some(text_views(items@)),
{
    serde_json::to_string(items).unwrap_or_else(|_| "[]".to_owned())
}

/// `serde_json::from_str` of a JSON array of texts.
#[verifier::external_body]
fn texts_from_json(json: &str) -> (r: Option<Vec<String>>)
    ensures
        match r {
            Some(v) => texts_of_json(json@) == Some(text_views(v@)),
            None => texts_of_json(json@) is None,
        },
{
    serde_json::from_str(json).ok()
}

/// `serde_json::to_string` of a list of text pairs (`[]` should it ever
/// fail; it cannot for strings): a JSON array of two-element arrays, which
/// `serde_json` reads back as the same pairs.
#[verifier::external_body]
fn pairs_to_json(items: &Vec<(String, String)>) -> (r: String)
    ensures
        r@ == json_of_pairs(pair_views(items@)),
        pairs_of_json(r@) == Some(pair_views(items@)),
{
    serde_json::to_string(items).unwrap_or_else(|_| "[]".to_owned())
}

/// `serde_json::from_str` of a JSON array of text pairs.
#[verifier::external_body]
fn pairs_from_json(json: &str) -> (r: Option<Vec<(String, String)>>)
    ensures
        match r {
            Some(v) => pairs_of_json(json@) == Some(pair_views(v@)),
            None => pairs_of_json(json@) is None,
        },
{
    serde_json::from_str(json).ok()
}

/// A stored count read back (`i64 as u32`).
pub open spec fn count_of(v: i64) -> u32 {
    (v as int % 0x1_0000_0000) as u32
}

fn clone_opt(o: &Option<String>) -> (r: Option<String>)
    ensures
        opt_string_view(r) == opt_string_view(*o),
{
    match o {
        Some(s) => Some(s.clone()),
        None => None,
    }
}

/// `r` is the row entry `e` is stored as; its list columns hold JSON that
/// reads back as the lists.
pub open spec fn row_of_entry(r: CatalogRow, e: AppEntry) -> bool {
    &&& r.id@ == e.id@
    &&& r.titleid@ == e.titleid@
    &&& opt_string_view(r.content_id) == opt_string_view(e.content_id)
    &&& r.name@ == e.name@
    &&& opt_string_view(r.original_name) == opt_string_view(e.original_name)
    &&& r.author@ == e.author@
    &&& r.description@ == e.description@
    &&& r.long_description@ == e.long_description@
    &&& r.requirements@ == e.requirements@
    &&& r.changelog@ == e.changelog@
    &&& opt_string_view(r.release_page) == opt_string_view(e.release_page)
    &&& r.category@ == category_key(e.category)
    &&& r.platform@ == platform_key(e.platform)
    &&& string_of_json(quoted(r.category@)) == Some(r.category@)
    &&& string_of_json(quoted(r.platform@)) == Some(r.platform@)
    &&& r.kind@ == e.kind@
    &&& opt_string_view(r.icon_url) == opt_string_view(e.icon_url)
    &&& opt_string_view(r.cover_url) == opt_string_view(e.cover_url)
    &&& opt_string_view(r.background_url) == opt_string_view(e.background_url)
    &&& r.screenshot_urls@ == json_of_texts(text_views(e.screenshot_urls@))
    &&& r.download_url@ == e.download_url@
    &&& opt_string_view(r.source) == opt_string_view(e.source)
    &&& r.version@ == e.version@
    &&& opt_string_view(r.region) == opt_string_view(e.region)
    &&& opt_string_view(r.zrif) == opt_string_view(e.zrif)
    &&& r.source_catalog@ == e.source_catalog@
    &&& r.source_labels@ == json_of_texts(text_views(e.source_labels@))
    &&& r.hash@ == e.hash@
    &&& r.hash2@ == e.hash2@
    &&& opt_string_view(r.data_url) == opt_string_view(e.data_url)
    &&& r.data_size_bytes == e.data_size_bytes as i64
    &&& r.size_bytes == e.size_bytes as i64
    &&& r.downloads == e.downloads as i64
    &&& r.rating_bits == e.rating_bits
    &&& r.updated_at@ == e.updated_at@
    &&& r.ratings_count == e.ratings_count as i64
    &&& r.likes_count == e.likes_count as i64
    &&& r.comments_count == e.comments_count as i64
    &&& r.user_liked == (if e.user_liked { 1i32 } else { 0i32 })
    &&& r.user_rating == e.user_rating
    &&& r.overview@ == json_of_pairs(pair_views(e.overview@))
    &&& texts_of_json(r.screenshot_urls@) == Some(text_views(e.screenshot_urls@))
    &&& texts_of_json(r.source_labels@) == Some(text_views(e.source_labels@))
    &&& pairs_of_json(r.overview@) == Some(pair_views(e.overview@))
}

impl AppEntry {
    /// The row an entry is stored as.
    pub fn to_row(&self) -> (r: CatalogRow)
        ensures
            row_of_entry(r, *self),
    {
        proof {
            lemma_names_plain(self.category, self.platform);
        }
        CatalogRow {
            id: self.id.clone(),
            titleid: self.titleid.clone(),
            content_id: clone_opt(&self.content_id),
            name: self.name.clone(),
            original_name: clone_opt(&self.original_name),
            author: self.author.clone(),
            description: self.description.clone(),
            long_description: self.long_description.clone(),
            requirements: self.requirements.clone(),
            changelog: self.changelog.clone(),
            release_page: clone_opt(&self.release_page),
            category: stored_name(category_name(self.category)),
            platform: stored_name(platform_name(self.platform)),
            kind: self.kind.clone(),
            icon_url: clone_opt(&self.icon_url),
            cover_url: clone_opt(&self.cover_url),
            background_url: clone_opt(&self.background_url),
            screenshot_urls: texts_to_json(&self.screenshot_urls),
            download_url: self.download_url.clone(),
            source: clone_opt(&self.source),
            version: self.version.clone(),
            region: clone_opt(&self.region),
            zrif: clone_opt(&self.zrif),
            source_catalog: self.source_catalog.clone(),
            source_labels: texts_to_json(&self.source_labels),
            hash: self.hash.clone(),
            hash2: self.hash2.clone(),
            data_url: clone_opt(&self.data_url),
            data_size_bytes: self.data_size_bytes as i64,
            size_bytes: self.size_bytes as i64,
            downloads: self.downloads as i64,
            rating_bits: self.rating_bits,
            updated_at: self.updated_at.clone(),
            ratings_count: self.ratings_count as i64,
            likes_count: self.likes_count as i64,
            comments_count: self.comments_count as i64,
            user_liked: if self.user_liked { 1 } else { 0 },
            user_rating: self.user_rating,
            overview: pairs_to_json(&self.overview),
        }
    }
}

/// `e` is the entry read back from row `r`: unknown category and platform
/// names read as `Utility` and `Vita`, unreadable lists as empty, numbers cast
/// back, and then the texts cleaned and search keys filled (`rebuild_derived`).
pub open spec fn entry_of_row(e: AppEntry, r: CatalogRow) -> bool {
    &&& e.id@ == r.id@
    &&& e.titleid@ == r.titleid@
    &&& e.titleid_lower@ == crate::strings::lowercase(r.titleid@)
    &&& opt_string_view(e.content_id) == opt_string_view(r.content_id)
    &&& e.name@ == crate::data::derived_name(r.name@, opt_string_view(r.original_name), r.titleid@)
    &&& e.name_lower@ == crate::strings::lowercase(e.name@)
    &&& opt_string_view(e.original_name) == crate::data::sanitized_opt(opt_string_view(r.original_name))
    &&& e.author@ == sanitize_result(r.author@)
    &&& e.author_lower@ == crate::strings::lowercase(e.author@)
    &&& e.description@ == sanitize_result(r.description@)
    &&& e.long_description@ == sanitize_result(r.long_description@)
    &&& e.requirements@ == sanitize_result(r.requirements@)
    &&& e.changelog@ == sanitize_result(r.changelog@)
    &&& opt_string_view(e.release_page) == opt_string_view(r.release_page)
    &&& e.category == category_of_stored(r.category@)
    &&& e.platform == platform_of_stored(r.platform@)
    &&& e.kind@ == r.kind@
    &&& opt_string_view(e.icon_url) == opt_string_view(r.icon_url)
    &&& opt_string_view(e.cover_url) == opt_string_view(r.cover_url)
    &&& opt_string_view(e.background_url) == opt_string_view(r.background_url)
    &&& text_views(e.screenshot_urls@) == list_or_empty(texts_of_json(r.screenshot_urls@))
    &&& e.download_url@ == r.download_url@
    &&& opt_string_view(e.source) == opt_string_view(r.source)
    &&& e.version@ == sanitize_result(r.version@)
    &&& opt_string_view(e.region) == opt_string_view(r.region)
    &&& opt_string_view(e.zrif) == opt_string_view(r.zrif)
    &&& e.source_catalog@ == r.source_catalog@
    &&& text_views(e.source_labels@) == list_or_empty(texts_of_json(r.source_labels@))
    &&& e.hash@ == r.hash@
    &&& e.hash2@ == r.hash2@
    &&& opt_string_view(e.data_url) == opt_string_view(r.data_url)
    &&& e.data_size_bytes == r.data_size_bytes as u64
    &&& e.size_bytes == r.size_bytes as u64
    &&& e.downloads == r.downloads as u64
    &&& e.rating_bits == r.rating_bits
    &&& e.updated_at@ == r.updated_at@
    &&& e.ratings_count == r.ratings_count as u32
    &&& e.likes_count == r.likes_count as u32
    &&& e.comments_count == r.comments_count as u32
    &&& e.user_liked == (r.user_liked != 0)
    &&& e.user_rating == r.user_rating
    &&& e.overview@.len() == pair_list_or_empty(pairs_of_json(r.overview@)).len()
    &&& forall|i: int| 0 <= i < e.overview@.len() ==> {
        &&& (#[trigger] e.overview@[i]).0@ == sanitize_result(pair_list_or_empty(pairs_of_json(r.overview@))[i].0)
        &&& e.overview@[i].1@ == sanitize_result(pair_list_or_empty(pairs_of_json(r.overview@))[i].1)
    }
}

/// A list read from JSON, or nothing when it could not be read.
pub open spec fn list_or_empty(o: Option<Seq<Seq<char>>>) -> Seq<Seq<char>> {
    match o {
        Some(v) => v,
        None => Seq::empty(),
    }
}

/// A pair list read from JSON, or nothing when it could not be read.
pub open spec fn pair_list_or_empty(o: Option<Seq<(Seq<char>, Seq<char>)>>) -> Seq<(Seq<char>, Seq<char>)> {
    match o {
        Some(v) => v,
        None => Seq::empty(),
    }
}

impl CatalogRow {
    /// The entry a stored row reads back as.
    pub fn into_entry(self) -> (e: AppEntry)
        ensures
            entry_of_row(e, self),
    {
        let ghost row = self;
        let category = category_from_name(self.category.as_str());
        let platform = platform_from_name(self.platform.as_str());
        let screenshot_urls = match texts_from_json(self.screenshot_urls.as_str()) {
            Some(v) => v,
            None => Vec::new(),
        };
        let source_labels = match texts_from_json(self.source_labels.as_str()) {
            Some(v) => v,
            None => Vec::new(),
        };
        let overview = match pairs_from_json(self.overview.as_str()) {
            Some(v) => v,
            None => Vec::new(),
        };
        proof {
            assert(text_views(Seq::<String>::empty()) =~= Seq::empty());
            assert(pair_views(Seq::<(String, String)>::empty()) =~= Seq::empty());
        }
        let ghost shots = screenshot_urls@;
        let ghost labels = source_labels@;
        let ghost pairs = overview@;
        let mut entry = AppEntry {
            id: self.id,
            titleid: self.titleid,
            titleid_lower: String::new(),
            content_id: self.content_id,
            name: self.name,
            original_name: self.original_name,
            name_lower: String::new(),
            author: self.author,
            author_lower: String::new(),
            description: self.description,
            long_description: self.long_description,
            requirements: self.requirements,
            changelog: self.changelog,
            release_page: self.release_page,
            category,
            platform,
            kind: self.kind,
            icon_url: self.icon_url,
            cover_url: self.cover_url,
            background_url: self.background_url,
            screenshot_urls,
            download_url: self.download_url,
            source: self.source,
            version: self.version,
            region: self.region,
            zrif: self.zrif,
            source_catalog: self.source_catalog,
            source_labels,
            hash: self.hash,
            hash2: self.hash2,
            data_url: self.data_url,
            data_size_bytes: self.data_size_bytes as u64,
            size_bytes: self.size_bytes as u64,
            downloads: self.downloads as u64,
            rating_bits: self.rating_bits,
            updated_at: self.updated_at,
            ratings_count: self.ratings_count as u32,
            likes_count: self.likes_count as u32,
            comments_count: self.comments_count as u32,
            user_liked: self.user_liked != 0,
            user_rating: self.user_rating,
            overview,
        };
        entry.rebuild_derived();
        assert(text_views(entry.screenshot_urls@) == text_views(shots));
        assert(text_views(entry.source_labels@) == text_views(labels));
        assert(pair_views(pairs) == pair_list_or_empty(pairs_of_json(row.overview@)));
        assert forall|i: int| 0 <= i < entry.overview@.len() implies {
            &&& (#[trigger] entry.overview@[i]).0@ == sanitize_result(pair_list_or_empty(pairs_of_json(row.overview@))[i].0)
            &&& entry.overview@[i].1@ == sanitize_result(pair_list_or_empty(pairs_of_json(row.overview@))[i].1)
        } by {
            assert(pair_views(pairs)[i] == (pairs[i].0@, pairs[i].1@));
        }
        entry
    }
}

/// What a read gives back of a write: an entry stored as a row and read back
/// keeps its ids, URLs, lists, category, platform, numbers and flags exactly,
/// and its texts come back cleaned (as `rebuild_derived` leaves them).
pub proof fn a_stored_entry_reads_back(e: AppEntry, r: CatalogRow, back: AppEntry)
    requires
        row_of_entry(r, e),
        entry_of_row(back, r),
    ensures
        back.id@ == e.id@,
        back.titleid@ == e.titleid@,
        opt_string_view(back.content_id) == opt_string_view(e.content_id),
        back.name@ == crate::data::derived_name(e.name@, opt_string_view(e.original_name), e.titleid@),
        back.author@ == sanitize_result(e.author@),
        back.description@ == sanitize_result(e.description@),
        back.long_description@ == sanitize_result(e.long_description@),
        back.requirements@ == sanitize_result(e.requirements@),
        back.changelog@ == sanitize_result(e.changelog@),
        back.version@ == sanitize_result(e.version@),
        opt_string_view(back.release_page) == opt_string_view(e.release_page),
        back.category == e.category,
        back.platform == e.platform,
        back.kind@ == e.kind@,
        opt_string_view(back.icon_url) == opt_string_view(e.icon_url),
        opt_string_view(back.cover_url) == opt_string_view(e.cover_url),
        opt_string_view(back.background_url) == opt_string_view(e.background_url),
        text_views(back.screenshot_urls@) == text_views(e.screenshot_urls@),
        text_views(back.source_labels@) == text_views(e.source_labels@),
        back.overview@.len() == e.overview@.len(),
        forall|i: int| 0 <= i < back.overview@.len() ==> {
            &&& (#[trigger] back.overview@[i]).0@ == sanitize_result(e.overview@[i].0@)
            &&& back.overview@[i].1@ == sanitize_result(e.overview@[i].1@)
        },
        back.download_url@ == e.download_url@,
        opt_string_view(back.source) == opt_string_view(e.source),
        opt_string_view(back.region) == opt_string_view(e.region),
        opt_string_view(back.zrif) == opt_string_view(e.zrif),
        back.source_catalog@ == e.source_catalog@,
        back.hash@ == e.hash@,
        back.hash2@ == e.hash2@,
        opt_string_view(back.data_url) == opt_string_view(e.data_url),
        back.data_size_bytes == e.data_size_bytes,
        back.size_bytes == e.size_bytes,
        back.downloads == e.downloads,
        back.rating_bits == e.rating_bits,
        back.updated_at@ == e.updated_at@,
        back.ratings_count == e.ratings_count,
        back.likes_count == e.likes_count,
        back.comments_count == e.comments_count,
        back.user_liked == e.user_liked,
        back.user_rating == e.user_rating,
{
    category_names_read_back(e.category);
    platform_names_read_back(e.platform);
    let a = e.data_size_bytes;
    let b = e.size_bytes;
    let c = e.downloads;
    assert((a as i64) as u64 == a) by (bit_vector);
    assert((b as i64) as u64 == b) by (bit_vector);
    assert((c as i64) as u64 == c) by (bit_vector);
    let x = e.ratings_count;
    let y = e.likes_count;
    let z = e.comments_count;
    assert((x as i64) as u32 == x) by (bit_vector);
    assert((y as i64) as u32 == y) by (bit_vector);
    assert((z as i64) as u32 == z) by (bit_vector);
}

} // verus!
