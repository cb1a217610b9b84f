//! The catalog API: endpoint and image URLs, and the conversion of the
//! server's app records into catalog entries.

use vstd::prelude::*;
use crate::strings::{
    chars_of, contains, contains_chars, find_chars, index_of_from, occurs_at, push_chars, push_str_chars,
    slice_chars, starts_with, str_contains, str_starts_with, string_from_chars, trim,
};

verus! {

/// The API the catalog is served from.
pub const DEFAULT_API_URL: &'static str = "https://vitaforge.josephinoo.dev/api/v1";

/// The API base URL: the server URL the build was given, else the default.
pub open spec fn base_url_text(server_url: Option<Seq<char>>) -> Seq<char> {
    match server_url {
        Some(u) => u,
        None => DEFAULT_API_URL@,
    }
}

/// The API base URL: `server_url` (the `SERVER_URL` the build was given,
/// if any), else the default.
pub fn api_url(server_url: Option<&'static str>) -> (r: &'static str)
    ensures
        r@ == base_url_text(crate::strings::opt_view(server_url)),
{
    match server_url {
        Some(u) => u,
        None => DEFAULT_API_URL,
    }
}

/// `s` without the trailing run of `c` (`str::trim_end_matches` with a character).
pub open spec fn trim_end_char(s: Seq<char>, c: char) -> Seq<char>
    decreases s.len(),
{
    if s.len() > 0 && s.last() == c { trim_end_char(s.drop_last(), c) } else { s }
}

/// The URL of an API endpoint: the base URL without trailing slashes, then the path.
pub open spec fn endpoint_text(base: Seq<char>, path: Seq<char>) -> Seq<char> {
    trim_end_char(base, '/') + path
}

proof fn lemma_trim_end_char_take(s: Seq<char>, c: char, k: int)
    requires
        0 <= k <= s.len(),
        forall|i: int| k <= i < s.len() ==> s[i] == c,
        k == 0 || s[k - 1] != c,
    ensures
        trim_end_char(s, c) == s.take(k),
    decreases s.len(),
{
    if s.len() > k {
        assert(s.drop_last().take(k) =~= s.take(k));
        lemma_trim_end_char_take(s.drop_last(), c, k);
    } else {
        assert(s.take(k) =~= s);
    }
}

/// The full URL of an API endpoint under the base URL `base`.
pub fn endpoint(base: &str, path: &str) -> (r: String)
    ensures
        r@ == endpoint_text(base@, path@),
{
    let base = chars_of(base);
    let mut k = base.len();
    while k > 0 && base[k - 1] == '/'
        invariant
            k <= base.len(),
            forall|i: int| k <= i < base.len() ==> base@[i] == '/',
        decreases k,
    {
        k -= 1;
    }
    proof {
        lemma_trim_end_char_take(base@, '/', k as int);
    }
    let mut out = slice_chars(&base, 0, k);
    push_str_chars(&mut out, path);
    string_from_chars(&out)
}

/// Icons keep their transparency as PNG; covers and screenshots come as JPEG.
pub open spec fn image_format_text(path: Seq<char>) -> Seq<char> {
    if contains(path, "/images/icon/"@) { "png"@ } else { "jpeg"@ }
}

/// The image format to ask the server for.
pub fn image_format_for(path: &str) -> (r: &'static str)
    ensures
        r@ == image_format_text(path@),
{
    if str_contains(path, "/images/icon/") { "png" } else { "jpeg" }
}

/// `url` with its `format=` parameter set to the wanted format: an existing
/// value (up to the next `&`) is replaced whatever it was, and a missing one is
/// added as the first or a further query parameter.
pub open spec fn forced_format_text(url: Seq<char>) -> Seq<char> {
    let wanted = image_format_text(url);
    match crate::strings::find(url, "format="@) {
        None => url.push(if contains(url, seq!['?']) { '&' } else { '?' }) + "format="@ + wanted,
        Some(start) => {
            let value_start = start + 7;
            let value_end = match index_of_from(url, '&', value_start) {
                Some(e) => e,
                None => url.len() as int,
            };
            url.take(value_start) + wanted + url.skip(value_end)
        },
    }
}

/// Rewrites the `format=` parameter of an image URL.
pub fn force_format(url: &str) -> (r: String)
    ensures
        r@ == forced_format_text(url@),
{
    let chars = chars_of(url);
    let wanted = image_format_for(url);
    let key = chars_of("format=");
    proof {
        reveal_strlit("format=");
    }
    match find_chars(&chars, &key) {
        None => {
            let mut out = chars.clone();
            let mut question: Vec<char> = Vec::new();
            question.push('?');
            let separator = if contains_chars(&chars, &question) { '&' } else { '?' };
            out.push(separator);
            push_str_chars(&mut out, "format=");
            push_str_chars(&mut out, wanted);
            string_from_chars(&out)
        },
        Some(start) => {
            assert(key@.len() == 7);
            assert(occurs_at(chars@, key@, start as int));
            assert(start + 7 <= chars@.len());
            assert(chars@.len() == chars.len());
            let value_start = start + 7;
            let mut value_end = value_start;
            while value_end < chars.len() && chars[value_end] != '&'
                invariant
                    value_start <= value_end <= chars.len(),
                    forall|k: int| value_start <= k < value_end ==> chars@[k] != '&',
                decreases chars.len() - value_end,
            {
                value_end += 1;
            }
            proof {
                if value_end < chars.len() {
                    crate::text::lemma_index_of_from_is(chars@, '&', value_start as int, value_end as int);
                } else {
                    crate::text::lemma_index_of_from_none(chars@, '&', value_start as int);
                }
            }
            let mut out = slice_chars(&chars, 0, value_start);
            push_str_chars(&mut out, wanted);
            let rest = slice_chars(&chars, value_end, chars.len());
            push_chars(&mut out, &rest);
            assert(rest@ =~= chars@.skip(value_end as int));
            string_from_chars(&out)
        },
    }
}

/// The scheme and host of a URL: everything before the first `/` after `://`
/// (the whole URL when there is none).
pub open spec fn origin_text(url: Seq<char>) -> Seq<char> {
    match crate::strings::find(url, "://"@) {
        None => url,
        Some(scheme_end) => match index_of_from(url, '/', scheme_end + 3) {
            Some(host_end) => url.take(host_end),
            None => url,
        },
    }
}

/// An absolute image URL: full URLs are kept as they are; server paths are
/// joined to the origin of the API base URL `base` and given the wanted
/// image format.
pub open spec fn absolute_text(base: Seq<char>, path: Seq<char>) -> Seq<char> {
    if starts_with(path, "http://"@) || starts_with(path, "https://"@) {
        path
    } else {
        forced_format_text(origin_text(base) + path)
    }
}

/// The absolute URL of an image path from the API whose base URL is `base`.
pub fn absolute(base: &str, path: &str) -> (r: String)
    ensures
        r@ == absolute_text(base@, path@),
{
    if str_starts_with(path, "http://") || str_starts_with(path, "https://") {
        return path.to_owned();
    }
    let url = chars_of(base);
    let scheme_mark = chars_of("://");
    proof {
        reveal_strlit("://");
    }
    let origin_end: usize = match find_chars(&url, &scheme_mark) {
        None => url.len(),
        Some(scheme_end) => {
            assert(scheme_mark@.len() == 3);
            assert(occurs_at(url@, scheme_mark@, scheme_end as int));
            assert(scheme_end + 3 <= url@.len());
            assert(url@.len() == url.len());
            let host_start = scheme_end + 3;
            let mut slash = host_start;
            while slash < url.len() && url[slash] != '/'
                invariant
                    host_start <= slash <= url.len(),
                    forall|k: int| host_start <= k < slash ==> url@[k] != '/',
                decreases url.len() - slash,
            {
                slash += 1;
            }
            proof {
                if slash < url.len() {
                    crate::text::lemma_index_of_from_is(url@, '/', host_start as int, slash as int);
                } else {
                    crate::text::lemma_index_of_from_none(url@, '/', host_start as int);
                    assert(url@.take(url.len() as int) =~= url@);
                }
            }
            slash
        },
    };
    proof {
        if crate::strings::find(url@, "://"@) is None {
            assert(url@.take(url.len() as int) =~= url@);
        }
    }
    let mut joined = slice_chars(&url, 0, origin_end);
    assert(joined@ == origin_text(base@));
    push_str_chars(&mut joined, path);
    force_format(string_from_chars(&joined).as_str())
}

/// `value` trimmed, or `None` when nothing is left.
pub open spec fn non_empty_text(value: Seq<char>) -> Option<Seq<char>> {
    if trim(value).len() == 0 { None } else { Some(trim(value)) }
}

/// The trimmed value, or `None` when it is blank.
pub fn non_empty(value: String) -> (r: Option<String>)
    ensures
        crate::strings::opt_string_view(r) == non_empty_text(value@),
{
    let t = crate::strings::trimmed(value.as_str());
    if t.as_str().is_empty() {
        None
    } else {
        Some(t)
    }
}

} // verus!
