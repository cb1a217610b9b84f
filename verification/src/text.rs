//! Cleaning of catalog text for the console fonts: HTML entities are expanded,
//! characters the fonts cannot draw are dropped, and the gaps they leave are
//! collapsed.

use vstd::prelude::*;
use crate::strings::{
    char_from_u32, chars_eq, chars_of, index_of_from, is_scalar, is_whitespace, is_ws, parse_u32_radix,
    parse_u32_radix_exec, slice_chars, string_from_chars, trim, trim_chars, trim_end, trim_end_len,
    trim_start, trim_start_len,
};

verus! {

/// Characters the bundled fonts can draw.
pub open spec fn renderable(c: char) -> bool {
    ||| c == '\n'
    ||| (' ' <= c && c <= '~')
    ||| ('\u{a1}' <= c && c <= '\u{ff}')
    ||| ('\u{100}' <= c && c <= '\u{17f}')
    ||| c == '\u{2018}' || c == '\u{2019}' || c == '\u{201c}' || c == '\u{201d}'
    ||| c == '\u{2013}' || c == '\u{2014}'
    ||| c == '\u{2026}'
    ||| c == '\u{2022}'
}

/// Invisible formatting characters that are always removed.
pub open spec fn invisible(c: char) -> bool {
    ||| c == '\u{ad}'
    ||| ('\u{200b}' <= c && c <= '\u{200d}')
    ||| c == '\u{feff}'
    ||| c == '\u{fe0e}'
    ||| c == '\u{fe0f}'
    ||| ('\u{1f3fb}' <= c && c <= '\u{1f3ff}')
}

/// Text that needs no cleaning: every character drawable and not `&`, no
/// doubled spaces, and nothing to trim at either end.
pub open spec fn clean(t: Seq<char>) -> bool {
    &&& forall|i: int| 0 <= i < t.len() ==> renderable(#[trigger] t[i]) && t[i] != '&'
    &&& forall|i: int| 1 <= i < t.len() ==> !(#[trigger] t[i] == ' ' && t[i - 1] == ' ')
    &&& trim(t) == t
}

/// The character a named or numeric entity body (`amp`, `#39`, `#x27`, ...) stands for.
pub open spec fn entity_char(body: Seq<char>) -> Option<char> {
    if body == "amp"@ {
        Some('&')
    } else if body == "lt"@ {
        Some('<')
    } else if body == "gt"@ {
        Some('>')
    } else if body == "quot"@ {
        Some('"')
    } else if body == "apos"@ || body == "#39"@ || body == "#x27"@ || body == "#X27"@ {
        Some('\'')
    } else if body == "nbsp"@ || body == "#160"@ {
        Some(' ')
    } else if body.len() > 0 && body[0] == '#' {
        let hex = body.len() > 1 && (body[1] == 'x' || body[1] == 'X');
        let digits = if hex { body.skip(2) } else { body.skip(1) };
        match parse_u32_radix(digits, if hex { 16 } else { 10 }) {
            Some(v) => if is_scalar(v) { Some(v as char) } else { None },
            None => None,
        }
    } else {
        None
    }
}

/// An entity at the start of `rest` (which begins with `&`): the character it
/// decodes to and how many characters it spans, up to and including the `;`.
pub open spec fn decode_entity(rest: Seq<char>) -> Option<(char, int)> {
    match index_of_from(rest, ';', 1) {
        Some(end) => match entity_char(rest.subrange(1, end)) {
            Some(c) => Some((c, end + 1)),
            None => None,
        },
        None => None,
    }
}

/// `index_of_from` stays inside the sequence.
pub proof fn lemma_index_of_from_range(s: Seq<char>, c: char, from: int)
    requires
        0 <= from,
    ensures
        index_of_from(s, c, from) matches Some(i) ==> from <= i < s.len() && s[i] == c,
        index_of_from(s, c, from) is None ==> forall|i: int| from <= i < s.len() ==> s[i] != c,
    decreases s.len() - from,
{
    if 0 <= from < s.len() && s[from] != c {
        lemma_index_of_from_range(s, c, from + 1);
    }
}

/// What the first character of `rest` contributes, and how many characters it uses.
pub open spec fn step(rest: Seq<char>) -> (Option<char>, int) {
    let c = rest[0];
    if c == '&' {
        match decode_entity(rest) {
            Some((d, n)) => (Some(d), n),
            None => (Some('&'), 1),
        }
    } else if c == '\t' || c == '\r' || c == '\u{a0}' {
        (Some(' '), 1)
    } else if invisible(c) {
        (None, 1)
    } else if renderable(c) {
        (Some(c), 1)
    } else {
        (None, 1)
    }
}

/// Appends `r` to `out`, except a space at the start, after a space, or after a line break.
pub open spec fn emit(out: Seq<char>, r: Option<char>) -> Seq<char> {
    match r {
        None => out,
        Some(c) => if c == ' ' && (out.len() == 0 || out.last() == ' ' || out.last() == '\n') {
            out
        } else {
            out.push(c)
        },
    }
}

/// The width of a step is at least one and at most what is left.
pub proof fn lemma_step_width(rest: Seq<char>)
    requires
        rest.len() > 0,
    ensures
        1 <= step(rest).1 <= rest.len(),
{
    lemma_index_of_from_range(rest, ';', 1);
}

/// Cleans `rest` onto `out`, one step at a time.
pub open spec fn scan(out: Seq<char>, rest: Seq<char>) -> Seq<char>
    decreases rest.len(),
{
    if rest.len() == 0 {
        out
    } else {
        let (r, width) = step(rest);
        proof {
            lemma_step_width(rest);
        }
        scan(emit(out, r), rest.skip(width))
    }
}

/// The cleaned form of `t`.
pub open spec fn sanitized_text(t: Seq<char>) -> Seq<char> {
    trim_end(scan(Seq::empty(), t))
}

/// The name shown for an entry: the first of the name, the original name and the
/// title id that is not blank, else `Unknown`.
pub open spec fn display_name_text(name: Seq<char>, original: Option<Seq<char>>, title_id: Seq<char>) -> Seq<char> {
    if trim(name).len() > 0 {
        name
    } else if original is Some && trim(original->0).len() > 0 {
        original->0
    } else if trim(title_id).len() > 0 {
        title_id
    } else {
        "Unknown"@
    }
}

/// Whether the fonts can draw `c`.
fn is_renderable(c: char) -> (r: bool)
    ensures
        r == renderable(c),
{
    c == '\n' || (' ' <= c && c <= '~') || ('\u{a1}' <= c && c <= '\u{ff}') || ('\u{100}' <= c && c <= '\u{17f}')
        || c == '\u{2018}' || c == '\u{2019}' || c == '\u{201c}' || c == '\u{201d}' || c == '\u{2013}'
        || c == '\u{2014}' || c == '\u{2026}' || c == '\u{2022}'
}

/// Whether `c` is an invisible formatting character.
fn is_invisible(c: char) -> (r: bool)
    ensures
        r == invisible(c),
{
    c == '\u{ad}' || ('\u{200b}' <= c && c <= '\u{200d}') || c == '\u{feff}' || c == '\u{fe0e}'
        || c == '\u{fe0f}' || ('\u{1f3fb}' <= c && c <= '\u{1f3ff}')
}

/// Whether the characters need no cleaning.
fn is_clean(text: &Vec<char>) -> (r: bool)
    ensures
        r == clean(text@),
{
    let mut i: usize = 0;
    while i < text.len()
        invariant
            i <= text.len(),
            forall|j: int| 0 <= j < i ==> renderable(#[trigger] text@[j]) && text@[j] != '&',
            forall|j: int| 1 <= j < i ==> !(#[trigger] text@[j] == ' ' && text@[j - 1] == ' '),
        decreases text.len() - i,
    {
        let c = text[i];
        if !is_renderable(c) || c == '&' {
            return false;
        }
        if i > 0 && c == ' ' && text[i - 1] == ' ' {
            return false;
        }
        i += 1;
    }
    let trimmed = trim_chars(text);
    trimmed.len() == text.len() && {
        proof {
            lemma_trim_is_sub(text@);
        }
        true
    }
}

/// Trimming only removes characters from the ends.
pub proof fn lemma_trim_is_sub(t: Seq<char>)
    ensures
        trim(t).len() <= t.len(),
        trim(t).len() == t.len() ==> trim(t) == t,
{
    lemma_trim_start_sub(t);
    lemma_trim_end_sub(trim_start(t));
}

/// `trim_start` takes a suffix.
pub proof fn lemma_trim_start_sub(t: Seq<char>)
    ensures
        trim_start(t).len() <= t.len(),
        trim_start(t) == t.skip(t.len() - trim_start(t).len()),
    decreases t.len(),
{
    if t.len() > 0 && is_ws(t[0]) {
        lemma_trim_start_sub(t.drop_first());
        assert(t.drop_first().skip(t.drop_first().len() - trim_start(t).len()) =~= t.skip(t.len() - trim_start(t).len()));
    } else {
        assert(t.skip(0) =~= t);
    }
}

/// `trim_end` takes a prefix.
pub proof fn lemma_trim_end_sub(t: Seq<char>)
    ensures
        trim_end(t).len() <= t.len(),
        trim_end(t) == t.take(trim_end(t).len() as int),
    decreases t.len(),
{
    if t.len() > 0 && is_ws(t.last()) {
        lemma_trim_end_sub(t.drop_last());
        assert(t.drop_last().take(trim_end(t).len() as int) =~= t.take(trim_end(t).len() as int));
    } else {
        assert(t.take(t.len() as int) =~= t);
    }
}

/// The first `c` at or after `from` is at `p`.
pub proof fn lemma_index_of_from_is(s: Seq<char>, c: char, from: int, p: int)
    requires
        0 <= from <= p < s.len(),
        s[p] == c,
        forall|k: int| from <= k < p ==> s[k] != c,
    ensures
        index_of_from(s, c, from) == Some(p),
    decreases p - from,
{
    if from < p {
        lemma_index_of_from_is(s, c, from + 1, p);
    }
}

/// No `c` at or after `from`.
pub proof fn lemma_index_of_from_none(s: Seq<char>, c: char, from: int)
    requires
        0 <= from,
        forall|k: int| from <= k < s.len() ==> s[k] != c,
    ensures
        index_of_from(s, c, from) is None,
    decreases s.len() - from,
{
    if from < s.len() {
        lemma_index_of_from_none(s, c, from + 1);
    }
}

/// The character an entity body stands for.
fn entity_char_exec(body: &Vec<char>) -> (r: Option<char>)
    ensures
        r == entity_char(body@),
{
    if chars_eq(body, &chars_of("amp")) {
        return Some('&');
    }
    if chars_eq(body, &chars_of("lt")) {
        return Some('<');
    }
    if chars_eq(body, &chars_of("gt")) {
        return Some('>');
    }
    if chars_eq(body, &chars_of("quot")) {
        return Some('"');
    }
    if chars_eq(body, &chars_of("apos")) || chars_eq(body, &chars_of("#39")) || chars_eq(body, &chars_of("#x27"))
        || chars_eq(body, &chars_of("#X27")) {
        return Some('\'');
    }
    if chars_eq(body, &chars_of("nbsp")) || chars_eq(body, &chars_of("#160")) {
        return Some(' ');
    }
    if body.len() > 0 && body[0] == '#' {
        let hex = body.len() > 1 && (body[1] == 'x' || body[1] == 'X');
        let skip: usize = if hex { 2 } else { 1 };
        let digits = slice_chars(body, skip, body.len());
        assert(digits@ =~= body@.skip(skip as int));
        let radix: u32 = if hex { 16 } else { 10 };
        match parse_u32_radix_exec(&digits, radix) {
            Some(v) => match char_from_u32(v) {
                Some(c) => Some(c),
                None => None,
            },
            None => None,
        }
    } else {
        None
    }
}

/// The entity starting at `at` (where `text[at]` is `&`): its character and width.
fn decode_entity_at(text: &Vec<char>, at: usize) -> (r: Option<(char, usize)>)
    requires
        at < text.len(),
        text@[at as int] == '&',
    ensures
        match r {
            Some((c, n)) => decode_entity(text@.skip(at as int)) == Some((c, n as int)),
            None => decode_entity(text@.skip(at as int)) is None,
        },
{
    let ghost rest = text@.skip(at as int);
    let mut end = at + 1;
    while end < text.len() && text[end] != ';'
        invariant
            at < end <= text.len(),
            rest == text@.skip(at as int),
            forall|k: int| at + 1 <= k < end ==> text@[k] != ';',
        decreases text.len() - end,
    {
        end += 1;
    }
    if end == text.len() {
        proof {
            lemma_index_of_from_none(rest, ';', 1);
        }
        return None;
    }
    proof {
        lemma_index_of_from_is(rest, ';', 1, end - at);
    }
    let body = slice_chars(text, at + 1, end);
    assert(body@ =~= rest.subrange(1, end - at));
    match entity_char_exec(&body) {
        Some(c) => Some((c, end - at + 1)),
        None => None,
    }
}

/// The cleaned form of `text`: entities expanded, tabs and non-breaking spaces
/// turned into spaces, undrawable and invisible characters dropped, no space at
/// the start, after a space or after a line break, and no white space at the end.
pub fn sanitized(text: &str) -> (r: String)
    ensures
        r@ == sanitized_text(text@),
{
    let v = chars_of(text);
    let mut out: Vec<char> = Vec::new();
    let mut i: usize = 0;
    assert(v@.skip(0) =~= v@);
    while i < v.len()
        invariant
            i <= v.len(),
            scan(out@, v@.skip(i as int)) == scan(Seq::empty(), v@),
        decreases v.len() - i,
    {
        let ghost rest = v@.skip(i as int);
        let c = v[i];
        let (replacement, width): (Option<char>, usize) = if c == '&' {
            match decode_entity_at(&v, i) {
                Some((decoded, consumed)) => (Some(decoded), consumed),
                None => (Some('&'), 1),
            }
        } else if c == '\t' || c == '\r' || c == '\u{a0}' {
            (Some(' '), 1)
        } else if is_invisible(c) {
            (None, 1)
        } else if is_renderable(c) {
            (Some(c), 1)
        } else {
            (None, 1)
        };
        proof {
            lemma_step_width(rest);
        }
        assert(step(rest) == (replacement, width as int));
        let ghost before = out@;
        match replacement {
            Some(r) => {
                let skip_space = r == ' ' && (out.len() == 0 || out[out.len() - 1] == ' ' || out[out.len() - 1] == '\n');
                if !skip_space {
                    out.push(r);
                }
            },
            None => {},
        }
        assert(out@ == emit(before, replacement));
        assert(rest.skip(width as int) =~= v@.skip(i + width));
        i += width;
    }
    let keep = trim_end_len(&out);
    let trimmed = slice_chars(&out, 0, keep);
    assert(trimmed@ =~= out@.take(keep as int));
    string_from_chars(&trimmed)
}

/// The result of cleaning `t` in place: unchanged when it is already clean.
pub open spec fn sanitize_result(t: Seq<char>) -> Seq<char> {
    if clean(t) {
        t
    } else {
        sanitized_text(t)
    }
}

/// Cleans `text` in place; text that is already clean is left untouched.
pub fn sanitize(text: &mut String)
    ensures
        final(text)@ == sanitize_result(old(text)@),
{
    if is_clean(&chars_of(text.as_str())) {
        return;
    }
    let cleaned = sanitized(text.as_str());
    *text = cleaned;
}

/// Whether the string is empty or all white space (`str::trim` leaves nothing).
pub fn is_blank(s: &str) -> (r: bool)
    ensures
        r == (trim(s@).len() == 0),
{
    let v = chars_of(s);
    let k = trim_start_len(&v);
    proof {
        crate::strings::lemma_trim_end_empty(v@.skip(k as int));
        if k < v.len() {
            assert(v@.skip(k as int)[0] == v@[k as int]);
        }
    }
    k == v.len()
}

/// The name to show for an entry: the first of `name`, `original` and
/// `title_id` that is not blank, or `Unknown`.
pub fn display_name<'a>(name: &'a str, original: Option<&'a str>, title_id: &'a str) -> (r: &'a str)
    ensures
        r@ == display_name_text(name@, crate::strings::opt_view(original), title_id@),
{
    if !is_blank(name) {
        return name;
    }
    if let Some(o) = original {
        if !is_blank(o) {
            return o;
        }
    }
    if !is_blank(title_id) {
        return title_id;
    }
    "Unknown"
}

/// Every space has a neighbour before it that is neither a space nor a line break.
pub open spec fn well_spaced(y: Seq<char>) -> bool {
    forall|i: int| 0 <= i < y.len() && #[trigger] y[i] == ' ' ==> i > 0 && y[i - 1] != ' ' && y[i - 1] != '\n'
}

/// A character that cleaning passes through unchanged.
pub open spec fn kept(c: char) -> bool {
    renderable(c) && c != '&' && c != '\u{ad}'
}

/// Every character of `y` is passed through unchanged by cleaning: it is
/// kept, or it is a `&` that does not start an entity.
pub open spec fn passes_through(y: Seq<char>) -> bool {
    forall|i: int| 0 <= i < y.len() ==> kept(#[trigger] y[i]) || (y[i] == '&' && decode_entity(y.skip(i)) is None)
}

proof fn lemma_emit_well_spaced(out: Seq<char>, r: Option<char>)
    requires
        well_spaced(out),
    ensures
        well_spaced(emit(out, r)),
{
    let e = emit(out, r);
    assert forall|i: int| 0 <= i < e.len() && #[trigger] e[i] == ' ' implies i > 0 && e[i - 1] != ' ' && e[i - 1] != '\n' by {
        if i < out.len() {
            assert(e[i] == out[i]);
            assert(out[i] == ' ');
        }
    }
}

proof fn lemma_scan_well_spaced(out: Seq<char>, rest: Seq<char>)
    requires
        well_spaced(out),
    ensures
        well_spaced(scan(out, rest)),
    decreases rest.len(),
{
    if rest.len() > 0 {
        lemma_step_width(rest);
        let (r, width) = step(rest);
        lemma_emit_well_spaced(out, r);
        lemma_scan_well_spaced(emit(out, r), rest.skip(width));
    }
}

proof fn lemma_take_well_spaced(y: Seq<char>, k: int)
    requires
        well_spaced(y),
        0 <= k <= y.len(),
    ensures
        well_spaced(y.take(k)),
{
    let t = y.take(k);
    assert forall|i: int| 0 <= i < t.len() && #[trigger] t[i] == ' ' implies i > 0 && t[i - 1] != ' ' && t[i - 1] != '\n' by {
        assert(t[i] == y[i]);
    }
}

proof fn lemma_trim_end_last(s: Seq<char>)
    ensures
        trim_end(s).len() == 0 || !is_ws(trim_end(s).last()),
    decreases s.len(),
{
    if s.len() > 0 && is_ws(s.last()) {
        lemma_trim_end_last(s.drop_last());
    }
}

/// Cleaned text never starts with a space, never holds two spaces in a row or a
/// space after a line break, and never ends with white space.
pub proof fn sanitized_text_is_tidy(t: Seq<char>)
    ensures
        well_spaced(sanitized_text(t)),
        sanitized_text(t).len() == 0 || !is_ws(sanitized_text(t).last()),
{
    let scanned = scan(Seq::empty(), t);
    lemma_scan_well_spaced(Seq::empty(), t);
    lemma_trim_end_sub(scanned);
    lemma_take_well_spaced(scanned, trim_end(scanned).len() as int);
    lemma_trim_end_last(scanned);
}

proof fn lemma_scan_identity(out: Seq<char>, rest: Seq<char>)
    requires
        well_spaced(out + rest),
        passes_through(rest),
    ensures
        scan(out, rest) == out + rest,
    decreases rest.len(),
{
    if rest.len() == 0 {
        assert(out + rest =~= out);
    } else {
        let c = rest[0];
        assert(rest.skip(0) =~= rest);
        assert(step(rest) == (Some(c), 1int));
        let whole = out + rest;
        assert(whole[out.len() as int] == c);
        if c == ' ' {
            assert(out.len() > 0);
            assert(whole[out.len() - 1] == out.last());
        }
        assert(emit(out, Some(c)) == out.push(c));
        assert(out.push(c) + rest.skip(1) =~= whole);
        assert forall|i: int| 0 <= i < rest.skip(1).len() implies kept(#[trigger] rest.skip(1)[i])
            || (rest.skip(1)[i] == '&' && decode_entity(rest.skip(1).skip(i)) is None) by {
            assert(rest.skip(1)[i] == rest[i + 1]);
            assert(rest.skip(1).skip(i) =~= rest.skip(i + 1));
        }
        lemma_scan_identity(out.push(c), rest.skip(1));
    }
}

/// Cleaning text a second time changes nothing, provided the first pass left no
/// entity and no character that cleaning changes (it fails where an entity
/// decodes to another entity, as `&amp;lt;` does, or to a character cleaning
/// removes or replaces, as `&#173;` does; a lone `&`, as `a &amp; b` leaves,
/// is fine).
pub proof fn sanitized_text_is_idempotent(t: Seq<char>)
    requires
        passes_through(sanitized_text(t)),
    ensures
        sanitized_text(sanitized_text(t)) == sanitized_text(t),
{
    let y = sanitized_text(t);
    sanitized_text_is_tidy(t);
    assert(Seq::<char>::empty() + y =~= y);
    lemma_scan_identity(Seq::empty(), y);
    if y.len() > 0 {
        assert(trim_end(y) == y);
    }
}

/// Cleaning in place twice gives what cleaning once gives, under the same proviso.
pub proof fn sanitize_twice_is_sanitize_once(t: Seq<char>)
    requires
        clean(t) || passes_through(sanitized_text(t)),
    ensures
        sanitize_result(sanitize_result(t)) == sanitize_result(t),
{
    if !clean(t) {
        sanitized_text_is_idempotent(t);
    }
}

/// Text that is already clean is left exactly as it is.
pub proof fn sanitize_leaves_clean_text_alone(t: Seq<char>)
    requires
        clean(t),
    ensures
        sanitize_result(t) == t,
{
}


/// A named entity at the start of a text decodes to its character and uses
/// up exactly the entity, whatever follows it: `&amp;` is `&`, `&lt;` is `<`,
/// `&gt;` is `>`, `&quot;` is `"`, `&apos;` is `'` and `&nbsp;` is a space.
pub proof fn named_entities_decode(rest: Seq<char>)
    ensures
        step(seq!['&', 'a', 'm', 'p', ';'] + rest) == (Some('&'), 5int),
        step(seq!['&', 'l', 't', ';'] + rest) == (Some('<'), 4int),
        step(seq!['&', 'g', 't', ';'] + rest) == (Some('>'), 4int),
        step(seq!['&', 'q', 'u', 'o', 't', ';'] + rest) == (Some('"'), 6int),
        step(seq!['&', 'a', 'p', 'o', 's', ';'] + rest) == (Some('\''), 6int),
        step(seq!['&', 'n', 'b', 's', 'p', ';'] + rest) == (Some(' '), 6int),
{
    reveal_strlit("amp");
    reveal_strlit("lt");
    reveal_strlit("gt");
    reveal_strlit("quot");
    reveal_strlit("apos");
    reveal_strlit("nbsp");
    reveal_strlit("#39");
    reveal_strlit("#x27");
    reveal_strlit("#X27");
    reveal_strlit("#160");
    let amp = seq!['&', 'a', 'm', 'p', ';'] + rest;
    assert(index_of_from(amp, ';', 4) == Some(4int));
    assert(index_of_from(amp, ';', 3) == Some(4int));
    assert(index_of_from(amp, ';', 2) == Some(4int));
    assert(index_of_from(amp, ';', 1) == Some(4int));
    assert(amp.subrange(1, 4) =~= "amp"@);
    let lt = seq!['&', 'l', 't', ';'] + rest;
    assert(index_of_from(lt, ';', 3) == Some(3int));
    assert(index_of_from(lt, ';', 2) == Some(3int));
    assert(index_of_from(lt, ';', 1) == Some(3int));
    assert(lt.subrange(1, 3) =~= "lt"@);
    assert("lt"@ != "amp"@);
    let gt = seq!['&', 'g', 't', ';'] + rest;
    assert(index_of_from(gt, ';', 3) == Some(3int));
    assert(index_of_from(gt, ';', 2) == Some(3int));
    assert(index_of_from(gt, ';', 1) == Some(3int));
    assert(gt.subrange(1, 3) =~= "gt"@);
    assert("gt"@ != "amp"@);
    assert("gt"@[0] != "lt"@[0]);
    let quot = seq!['&', 'q', 'u', 'o', 't', ';'] + rest;
    assert(index_of_from(quot, ';', 5) == Some(5int));
    assert(index_of_from(quot, ';', 4) == Some(5int));
    assert(index_of_from(quot, ';', 3) == Some(5int));
    assert(index_of_from(quot, ';', 2) == Some(5int));
    assert(index_of_from(quot, ';', 1) == Some(5int));
    assert(quot.subrange(1, 5) =~= "quot"@);
    assert("quot"@ != "amp"@);
    assert("quot"@ != "lt"@);
    assert("quot"@ != "gt"@);
    let apos = seq!['&', 'a', 'p', 'o', 's', ';'] + rest;
    assert(index_of_from(apos, ';', 5) == Some(5int));
    assert(index_of_from(apos, ';', 4) == Some(5int));
    assert(index_of_from(apos, ';', 3) == Some(5int));
    assert(index_of_from(apos, ';', 2) == Some(5int));
    assert(index_of_from(apos, ';', 1) == Some(5int));
    assert(apos.subrange(1, 5) =~= "apos"@);
    assert("apos"@ != "amp"@);
    assert("apos"@ != "lt"@);
    assert("apos"@ != "gt"@);
    assert("apos"@[0] != "quot"@[0]);
    let nbsp = seq!['&', 'n', 'b', 's', 'p', ';'] + rest;
    assert(index_of_from(nbsp, ';', 5) == Some(5int));
    assert(index_of_from(nbsp, ';', 4) == Some(5int));
    assert(index_of_from(nbsp, ';', 3) == Some(5int));
    assert(index_of_from(nbsp, ';', 2) == Some(5int));
    assert(index_of_from(nbsp, ';', 1) == Some(5int));
    assert(nbsp.subrange(1, 5) =~= "nbsp"@);
    assert("nbsp"@ != "amp"@);
    assert("nbsp"@ != "lt"@);
    assert("nbsp"@ != "gt"@);
    assert("nbsp"@[0] != "quot"@[0]);
    assert("nbsp"@[0] != "apos"@[0]);
    assert("nbsp"@ != "#39"@);
    assert("nbsp"@ != "#x27"@);
    assert("nbsp"@ != "#X27"@);
}


/// Wherever `&quot;` stands in a text, cleaning puts a double quote in its
/// place and goes on with what follows (likewise `&amp;` gives `&`).
pub proof fn a_quote_entity_becomes_a_quote(out: Seq<char>, rest: Seq<char>)
    ensures
        scan(out, seq!['&', 'q', 'u', 'o', 't', ';'] + rest) == scan(out.push('"'), rest),
        scan(out, seq!['&', 'a', 'm', 'p', ';'] + rest) == scan(out.push('&'), rest),
{
    named_entities_decode(rest);
    let q = seq!['&', 'q', 'u', 'o', 't', ';'] + rest;
    assert(q.skip(6) =~= rest);
    assert(emit(out, Some('"')) == out.push('"'));
    let a = seq!['&', 'a', 'm', 'p', ';'] + rest;
    assert(a.skip(5) =~= rest);
    assert(emit(out, Some('&')) == out.push('&'));
}

} // verus!
