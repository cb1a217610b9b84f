//! Conversions between Rust strings and character sequences, and the
//! sequence-level string predicates the rest of the library states its
//! contracts with.

use vstd::prelude::*;

verus! {

/// Appends one character to a string (`String::push`).
#[verifier::external_body]
pub fn push_char(s: &mut String, c: char)
    ensures
        final(s)@ == old(s)@.push(c),
{
    s.push(c);
}

/// The characters of `s`, in order.
pub fn chars_of(s: &str) -> (v: Vec<char>)
    ensures
        v@ == s@,
{
    let mut v: Vec<char> = Vec::new();
    for c in it: s.chars()
        invariant
            v@ == it.seq().take(it.index()),
            it.seq() == s@,
    {
        v.push(c);
    }
    v
}

/// A string holding exactly the characters of `v`.
pub fn string_from_chars(v: &Vec<char>) -> (s: String)
    ensures
        s@ == v@,
{
    let mut s = String::new();
    let mut i: usize = 0;
    while i < v.len()
        invariant
            i <= v.len(),
            s@ == v@.take(i as int),
        decreases v.len() - i,
    {
        push_char(&mut s, v[i]);
        assert(v@.take(i as int).push(v@[i as int]) =~= v@.take(i + 1));
        i += 1;
    }
    assert(v@.take(v.len() as int) =~= v@);
    s
}

} // verus!

verus! {

/// Unicode `White_Space`, the set `char::is_whitespace` tests.
pub open spec fn is_ws(c: char) -> bool {
    ||| ('\u{9}' <= c && c <= '\u{d}')
    ||| c == ' '
    ||| c == '\u{85}'
    ||| c == '\u{a0}'
    ||| c == '\u{1680}'
    ||| ('\u{2000}' <= c && c <= '\u{200a}')
    ||| c == '\u{2028}'
    ||| c == '\u{2029}'
    ||| c == '\u{202f}'
    ||| c == '\u{205f}'
    ||| c == '\u{3000}'
}

/// `s` with its trailing white space removed (`str::trim_end`).
pub open spec fn trim_end(s: Seq<char>) -> Seq<char>
    decreases s.len(),
{
    if s.len() > 0 && is_ws(s.last()) {
        trim_end(s.drop_last())
    } else {
        s
    }
}

/// `s` with its leading white space removed (`str::trim_start`).
pub open spec fn trim_start(s: Seq<char>) -> Seq<char>
    decreases s.len(),
{
    if s.len() > 0 && is_ws(s[0]) {
        trim_start(s.drop_first())
    } else {
        s
    }
}

/// `s` with white space removed at both ends (`str::trim`).
pub open spec fn trim(s: Seq<char>) -> Seq<char> {
    trim_end(trim_start(s))
}

/// ASCII lower case of one character; every other character is kept.
pub open spec fn ascii_lower(c: char) -> char {
    if 'A' <= c && c <= 'Z' {
        ((c as u32) + 32) as char
    } else {
        c
    }
}

/// Equal up to the case of ASCII letters (`str::eq_ignore_ascii_case`).
pub open spec fn eq_ignore_ascii_case(a: Seq<char>, b: Seq<char>) -> bool {
    &&& a.len() == b.len()
    &&& forall|i: int| 0 <= i < a.len() ==> ascii_lower(#[trigger] a[i]) == ascii_lower(b[i])
}

/// `needle` occurs in `hay` starting at `at`.
pub open spec fn occurs_at(hay: Seq<char>, needle: Seq<char>, at: int) -> bool {
    0 <= at && at + needle.len() <= hay.len() && hay.subrange(at, at + needle.len()) == needle
}

/// Whether two texts are equal (`==` on `str`).
pub fn str_equals(a: &str, b: &str) -> (r: bool)
    ensures
        r == (a@ == b@),
{
    chars_eq(&chars_of(a), &chars_of(b))
}

/// `needle` occurs somewhere in `hay` (`str::contains`).
pub open spec fn contains(hay: Seq<char>, needle: Seq<char>) -> bool {
    exists|at: int| occurs_at(hay, needle, at)
}

/// `hay` begins with `prefix` (`str::starts_with`).
pub open spec fn starts_with(hay: Seq<char>, prefix: Seq<char>) -> bool {
    occurs_at(hay, prefix, 0)
}

/// The first position at or after `at` where `needle` occurs in `hay`.
pub open spec fn find_from(hay: Seq<char>, needle: Seq<char>, at: int) -> Option<int>
    decreases hay.len() + 1 - at,
{
    if at < 0 || at > hay.len() {
        None
    } else if occurs_at(hay, needle, at) {
        Some(at)
    } else {
        find_from(hay, needle, at + 1)
    }
}

/// The first position where `needle` occurs in `hay` (`str::find`, counted in characters).
pub open spec fn find(hay: Seq<char>, needle: Seq<char>) -> Option<int> {
    find_from(hay, needle, 0)
}

/// `find_from` gives the first occurrence at or after `at`, and `None` only when there is none.
pub proof fn lemma_find_from(hay: Seq<char>, needle: Seq<char>, at: int)
    requires
        0 <= at,
    ensures
        find_from(hay, needle, at) matches Some(p) ==> at <= p && occurs_at(hay, needle, p)
            && forall|j: int| at <= j < p ==> !occurs_at(hay, needle, j),
        find_from(hay, needle, at) is None ==> forall|j: int| at <= j ==> !occurs_at(hay, needle, j),
    decreases hay.len() + 1 - at,
{
    if at <= hay.len() && !occurs_at(hay, needle, at) {
        lemma_find_from(hay, needle, at + 1);
    }
}

/// `find` agrees with `contains`, and finds the first occurrence.
pub proof fn lemma_find(hay: Seq<char>, needle: Seq<char>)
    ensures
        find(hay, needle) is Some <==> contains(hay, needle),
        find(hay, needle) matches Some(p) ==> occurs_at(hay, needle, p)
            && forall|j: int| 0 <= j < p ==> !occurs_at(hay, needle, j),
{
    lemma_find_from(hay, needle, 0);
    if contains(hay, needle) {
        let w = choose|w: int| occurs_at(hay, needle, w);
        assert(occurs_at(hay, needle, w));
    }
}

/// The first index at or after `from` holding `c`.
pub open spec fn index_of_from(s: Seq<char>, c: char, from: int) -> Option<int>
    decreases s.len() - from,
{
    if from < 0 || from >= s.len() {
        None
    } else if s[from] == c {
        Some(from)
    } else {
        index_of_from(s, c, from + 1)
    }
}

/// The decimal digits of `n`, most significant first, without leading zeros ("0" for zero).
pub open spec fn decimal(n: nat) -> Seq<char>
    decreases n,
{
    if n < 10 {
        seq![digit_char(n)]
    } else {
        decimal(n / 10).push(digit_char(n % 10))
    }
}

/// The ASCII digit for a value below 10.
pub open spec fn digit_char(d: nat) -> char {
    (('0' as u32) + d) as char
}

/// The character of a decimal digit.
pub fn digit_char_exec(d: u8) -> (c: char)
    requires
        d < 10,
    ensures
        c == digit_char(d as nat),
{
    let zero: u8 = 48;
    (zero + d) as char
}

/// The value of a digit character in base `radix`, as `char::to_digit` gives it.
pub open spec fn digit_value(c: char, radix: nat) -> Option<nat> {
    let v: nat = if '0' <= c && c <= '9' {
        (c as u32 - '0' as u32) as nat
    } else if 'a' <= c && c <= 'z' {
        (c as u32 - 'a' as u32 + 10) as nat
    } else if 'A' <= c && c <= 'Z' {
        (c as u32 - 'A' as u32 + 10) as nat
    } else {
        36
    };
    if v < radix { Some(v) } else { None }
}

/// The value of a run of digits, or `None` when one is not a digit in base `radix`.
pub open spec fn digits_value(s: Seq<char>, radix: nat) -> Option<nat>
    decreases s.len(),
{
    if s.len() == 0 {
        Some(0)
    } else {
        match (digits_value(s.drop_last(), radix), digit_value(s.last(), radix)) {
            (Some(high), Some(low)) => Some(high * radix + low),
            _ => None,
        }
    }
}

/// What `u32::from_str_radix` gives: an optional leading `+`, then at least one
/// digit, and a value that fits in 32 bits.
pub open spec fn parse_u32_radix(s: Seq<char>, radix: nat) -> Option<u32> {
    let digits = if s.len() > 0 && s[0] == '+' { s.drop_first() } else { s };
    if digits.len() == 0 {
        None
    } else {
        match digits_value(digits, radix) {
            Some(v) => if v <= u32::MAX { Some(v as u32) } else { None },
            None => None,
        }
    }
}

} // verus!

verus! {

/// `char::is_whitespace`.
pub fn is_whitespace(c: char) -> (r: bool)
    ensures
        r == is_ws(c),
{
    ('\u{9}' <= c && c <= '\u{d}') || c == ' ' || c == '\u{85}' || c == '\u{a0}' || c == '\u{1680}'
        || ('\u{2000}' <= c && c <= '\u{200a}') || c == '\u{2028}' || c == '\u{2029}'
        || c == '\u{202f}' || c == '\u{205f}' || c == '\u{3000}'
}

/// `char::to_ascii_lowercase`.
pub fn to_ascii_lower(c: char) -> (r: char)
    ensures
        r == ascii_lower(c),
{
    if 'A' <= c && c <= 'Z' {
        let b: u8 = c as u8;
        let lowered: u8 = b + 32;
        assert(lowered as char == ((c as u32) + 32) as char);
        lowered as char
    } else {
        c
    }
}

/// Trailing white space of `s` starts at `k`.
pub proof fn lemma_trim_end_is_take(s: Seq<char>, k: int)
    requires
        0 <= k <= s.len(),
        forall|i: int| k <= i < s.len() ==> is_ws(#[trigger] s[i]),
        k == 0 || !is_ws(s[k - 1]),
    ensures
        trim_end(s) == s.take(k),
    decreases s.len(),
{
    if s.len() > k {
        assert(s.drop_last().take(k) =~= s.take(k));
        lemma_trim_end_is_take(s.drop_last(), k);
    } else {
        assert(s.take(k) =~= s);
    }
}

/// Leading white space of `s` ends at `k`.
pub proof fn lemma_trim_start_is_skip(s: Seq<char>, k: int)
    requires
        0 <= k <= s.len(),
        forall|i: int| 0 <= i < k ==> is_ws(#[trigger] s[i]),
        k == s.len() || !is_ws(s[k]),
    ensures
        trim_start(s) == s.skip(k),
    decreases s.len(),
{
    if k > 0 {
        assert(s.drop_first().skip(k - 1) =~= s.skip(k));
        lemma_trim_start_is_skip(s.drop_first(), k - 1);
    } else {
        assert(s.skip(0) =~= s);
    }
}

/// Where the trailing white space of `v` begins.
pub fn trim_end_len(v: &Vec<char>) -> (k: usize)
    ensures
        k <= v.len(),
        trim_end(v@) == v@.take(k as int),
        k == 0 || !is_ws(v@[k - 1]),
        forall|i: int| k <= i < v.len() ==> is_ws(#[trigger] v@[i]),
{
    let mut k = v.len();
    while k > 0 && is_whitespace(v[k - 1])
        invariant
            k <= v.len(),
            forall|i: int| k <= i < v.len() ==> is_ws(#[trigger] v@[i]),
        decreases k,
    {
        k -= 1;
    }
    proof {
        lemma_trim_end_is_take(v@, k as int);
    }
    k
}

/// Where the leading white space of `v` ends.
pub fn trim_start_len(v: &Vec<char>) -> (k: usize)
    ensures
        k <= v.len(),
        trim_start(v@) == v@.skip(k as int),
        k == v.len() || !is_ws(v@[k as int]),
        forall|i: int| 0 <= i < k ==> is_ws(#[trigger] v@[i]),
{
    let mut k: usize = 0;
    while k < v.len() && is_whitespace(v[k])
        invariant
            k <= v.len(),
            forall|i: int| 0 <= i < k ==> is_ws(#[trigger] v@[i]),
        decreases v.len() - k,
    {
        k += 1;
    }
    proof {
        lemma_trim_start_is_skip(v@, k as int);
    }
    k
}

/// The characters of `v` from `from` up to `to`.
pub fn slice_chars(v: &Vec<char>, from: usize, to: usize) -> (r: Vec<char>)
    requires
        from <= to <= v.len(),
    ensures
        r@ == v@.subrange(from as int, to as int),
{
    let mut r: Vec<char> = Vec::new();
    let mut i = from;
    while i < to
        invariant
            from <= i <= to <= v.len(),
            r@ == v@.subrange(from as int, i as int),
        decreases to - i,
    {
        r.push(v[i]);
        assert(v@.subrange(from as int, i as int).push(v@[i as int]) =~= v@.subrange(from as int, i + 1));
        i += 1;
    }
    r
}

/// `v` with white space removed at both ends.
pub fn trim_chars(v: &Vec<char>) -> (r: Vec<char>)
    ensures
        r@ == trim(v@),
{
    let start = trim_start_len(v);
    let rest = slice_chars(v, start, v.len());
    assert(rest@ =~= v@.skip(start as int));
    let end = trim_end_len(&rest);
    slice_chars(&rest, 0, end)
}

/// The two character runs are equal.
pub fn chars_eq(a: &Vec<char>, b: &Vec<char>) -> (r: bool)
    ensures
        r == (a@ == b@),
{
    if a.len() != b.len() {
        return false;
    }
    let mut i: usize = 0;
    while i < a.len()
        invariant
            a.len() == b.len(),
            i <= a.len(),
            forall|j: int| 0 <= j < i ==> a@[j] == b@[j],
        decreases a.len() - i,
    {
        if a[i] != b[i] {
            return false;
        }
        i += 1;
    }
    assert(a@ =~= b@);
    true
}

/// The two character runs are equal up to ASCII letter case.
pub fn chars_eq_ignore_ascii_case(a: &Vec<char>, b: &Vec<char>) -> (r: bool)
    ensures
        r == eq_ignore_ascii_case(a@, b@),
{
    if a.len() != b.len() {
        return false;
    }
    let mut i: usize = 0;
    while i < a.len()
        invariant
            a.len() == b.len(),
            i <= a.len(),
            forall|j: int| 0 <= j < i ==> ascii_lower(#[trigger] a@[j]) == ascii_lower(b@[j]),
        decreases a.len() - i,
    {
        if to_ascii_lower(a[i]) != to_ascii_lower(b[i]) {
            return false;
        }
        i += 1;
    }
    true
}

/// `str::eq_ignore_ascii_case`.
pub fn str_eq_ignore_ascii_case(a: &str, b: &str) -> (r: bool)
    ensures
        r == eq_ignore_ascii_case(a@, b@),
{
    chars_eq_ignore_ascii_case(&chars_of(a), &chars_of(b))
}

/// `needle` occurs in `hay` at `at`.
pub fn occurs_at_exec(hay: &Vec<char>, needle: &Vec<char>, at: usize) -> (r: bool)
    ensures
        r == occurs_at(hay@, needle@, at as int),
{
    if at > hay.len() || needle.len() > hay.len() - at {
        return false;
    }
    let mut i: usize = 0;
    while i < needle.len()
        invariant
            at + needle.len() <= hay.len(),
            i <= needle.len(),
            forall|j: int| 0 <= j < i ==> hay@[at + j] == needle@[j],
        decreases needle.len() - i,
    {
        if hay[at + i] != needle[i] {
            assert(hay@.subrange(at as int, at + needle.len())[i as int] != needle@[i as int]);
            return false;
        }
        i += 1;
    }
    assert(hay@.subrange(at as int, at + needle.len()) =~= needle@);
    true
}

/// The first place where `needle` occurs in `hay` (`str::find`, counted in characters).
pub fn find_chars(hay: &Vec<char>, needle: &Vec<char>) -> (r: Option<usize>)
    ensures
        r is Some <==> contains(hay@, needle@),
        r matches Some(at) ==> find(hay@, needle@) == Some(at as int),
        r is None ==> find(hay@, needle@) is None,
        r matches Some(at) ==> occurs_at(hay@, needle@, at as int),
        r matches Some(at) ==> forall|j: int| 0 <= j < at ==> !occurs_at(hay@, needle@, j),
{
    proof {
        lemma_find(hay@, needle@);
    }
    let mut at: usize = 0;
    while at <= hay.len()
        invariant
            find(hay@, needle@) == find_from(hay@, needle@, at as int),
            forall|j: int| 0 <= j < at ==> !occurs_at(hay@, needle@, j),
        decreases hay.len() + 1 - at,
    {
        if occurs_at_exec(hay, needle, at) {
            return Some(at);
        }
        if at == hay.len() {
            assert(find_from(hay@, needle@, at + 1) is None);
            return None;
        }
        at += 1;
    }
    None
}

/// `hay` contains `needle` (`str::contains`).
pub fn contains_chars(hay: &Vec<char>, needle: &Vec<char>) -> (r: bool)
    ensures
        r == contains(hay@, needle@),
{
    find_chars(hay, needle).is_some()
}

/// `str::contains`.
pub fn str_contains(hay: &str, needle: &str) -> (r: bool)
    ensures
        r == contains(hay@, needle@),
{
    contains_chars(&chars_of(hay), &chars_of(needle))
}

/// `str::starts_with`.
pub fn str_starts_with(hay: &str, prefix: &str) -> (r: bool)
    ensures
        r == starts_with(hay@, prefix@),
{
    occurs_at_exec(&chars_of(hay), &chars_of(prefix), 0)
}

/// Appends the decimal digits of `n`.
pub fn push_decimal(v: &mut Vec<char>, n: u128)
    ensures
        final(v)@ == old(v)@ + decimal(n as nat),
    decreases n,
{
    if n >= 10 {
        push_decimal(v, n / 10);
    }
    let d: u8 = (n % 10) as u8;
    let zero: u8 = 48;
    let c: char = (zero + d) as char;
    assert(c == digit_char((n % 10) as nat));
    v.push(c);
    proof {
        if n >= 10 {
            assert(decimal(n as nat) == decimal((n / 10) as nat).push(digit_char((n % 10) as nat)));
        } else {
            assert(decimal(n as nat) == seq![digit_char(n as nat)]);
        }
    }
}

/// The value of a digit character in base `radix`.
pub fn digit_value_exec(c: char, radix: u32) -> (r: Option<u32>)
    requires
        radix <= 36,
    ensures
        r matches Some(v) ==> digit_value(c, radix as nat) == Some(v as nat),
        r is None ==> digit_value(c, radix as nat) is None,
{
    let v: u32 = if '0' <= c && c <= '9' {
        (c as u32) - ('0' as u32)
    } else if 'a' <= c && c <= 'z' {
        (c as u32) - ('a' as u32) + 10
    } else if 'A' <= c && c <= 'Z' {
        (c as u32) - ('A' as u32) + 10
    } else {
        36
    };
    if v < radix { Some(v) } else { None }
}

/// `u32::from_str_radix` on characters.
pub fn parse_u32_radix_exec(s: &Vec<char>, radix: u32) -> (r: Option<u32>)
    requires
        2 <= radix <= 36,
    ensures
        r == parse_u32_radix(s@, radix as nat),
{
    let start: usize = if s.len() > 0 && s[0] == '+' { 1 } else { 0 };
    let ghost digits = if s@.len() > 0 && s@[0] == '+' { s@.drop_first() } else { s@ };
    assert(digits =~= s@.skip(start as int));
    if start == s.len() {
        return None;
    }
    let mut value: u64 = 0;
    let mut i = start;
    while i < s.len()
        invariant
            start <= i <= s.len(),
            2 <= radix <= 36,
            digits == s@.skip(start as int),
            digits == (if s@.len() > 0 && s@[0] == '+' { s@.drop_first() } else { s@ }),
            digits.len() > 0,
            digits_value(s@.subrange(start as int, i as int), radix as nat) == Some(value as nat),
            value <= u32::MAX,
        decreases s.len() - i,
    {
        let ghost prefix = s@.subrange(start as int, i as int);
        assert(s@.subrange(start as int, i + 1).drop_last() =~= prefix);
        match digit_value_exec(s[i], radix) {
            None => {
                proof {
                    assert(digits.take(i + 1 - start) =~= s@.subrange(start as int, i + 1));
                    assert(digits_value(s@.subrange(start as int, i + 1), radix as nat) is None);
                    lemma_digits_none_extends(s@.subrange(start as int, i + 1), digits, radix as nat);
                }
                return None;
            }
            Some(d) => {
                assert(value * radix <= 36 * 0xffff_ffffu64) by (nonlinear_arith)
                    requires value <= 0xffff_ffffu64, radix <= 36;
                let next: u64 = value * (radix as u64) + (d as u64);
                if next > u32::MAX as u64 {
                    proof {
                        assert(digits.take(i + 1 - start) =~= s@.subrange(start as int, i + 1));
                        lemma_digits_value_grows(s@.subrange(start as int, i + 1), digits, radix as nat);
                    }
                    return None;
                }
                value = next;
            }
        }
        i += 1;
    }
    assert(s@.subrange(start as int, s.len() as int) =~= digits);
    Some(value as u32)
}

/// A non-digit anywhere in a prefix makes the whole run fail.
pub proof fn lemma_digits_none_extends(prefix: Seq<char>, s: Seq<char>, radix: nat)
    requires
        prefix.len() <= s.len(),
        prefix == s.take(prefix.len() as int),
        digits_value(prefix, radix) is None,
    ensures
        digits_value(s, radix) is None,
    decreases s.len(),
{
    if s.len() > prefix.len() {
        assert(s.drop_last().take(prefix.len() as int) =~= prefix);
        lemma_digits_none_extends(prefix, s.drop_last(), radix);
    } else {
        assert(prefix =~= s);
    }
}

/// Digits never make a value smaller, so a prefix that is too large stays too large.
pub proof fn lemma_digits_value_grows(prefix: Seq<char>, s: Seq<char>, radix: nat)
    requires
        radix >= 2,
        prefix.len() <= s.len(),
        prefix == s.take(prefix.len() as int),
        digits_value(prefix, radix) matches Some(v) && v > u32::MAX,
    ensures
        match digits_value(s, radix) {
            Some(w) => w > u32::MAX,
            None => true,
        },
    decreases s.len(),
{
    if s.len() > prefix.len() {
        assert(s.drop_last().take(prefix.len() as int) =~= prefix);
        lemma_digits_value_grows(prefix, s.drop_last(), radix);
        match (digits_value(s.drop_last(), radix), digit_value(s.last(), radix)) {
            (Some(high), Some(low)) => {
                assert(high * radix >= high) by (nonlinear_arith)
                    requires radix >= 2;
            },
            _ => {},
        }
    } else {
        assert(prefix =~= s);
    }
}

} // verus!

verus! {

/// A Unicode scalar value: what `char::from_u32` accepts.
pub open spec fn is_scalar(v: u32) -> bool {
    v <= 0x10ffff && !(0xd800 <= v && v <= 0xdfff)
}

/// `char::from_u32`: the character with code point `v`, if `v` is a scalar value.
#[verifier::external_body]
pub fn char_from_u32(v: u32) -> (r: Option<char>)
    ensures
        r == (if is_scalar(v) { Some(v as char) } else { None }),
{
    char::from_u32(v)
}

} // verus!

verus! {

/// The characters of an optional string.
pub open spec fn opt_view(o: Option<&str>) -> Option<Seq<char>> {
    match o {
        Some(s) => Some(s@),
        None => None,
    }
}

} // verus!

verus! {

/// Trimming the end leaves nothing exactly when everything is white space.
pub proof fn lemma_trim_end_empty(s: Seq<char>)
    ensures
        trim_end(s).len() == 0 <==> forall|i: int| 0 <= i < s.len() ==> is_ws(#[trigger] s[i]),
    decreases s.len(),
{
    if s.len() > 0 && is_ws(s.last()) {
        lemma_trim_end_empty(s.drop_last());
        assert forall|i: int| 0 <= i < s.len() - 1 implies #[trigger] s.drop_last()[i] == s[i] by {}
        if forall|i: int| 0 <= i < s.drop_last().len() ==> is_ws(#[trigger] s.drop_last()[i]) {
            assert forall|i: int| 0 <= i < s.len() implies is_ws(#[trigger] s[i]) by {
                if i < s.len() - 1 {
                    assert(s.drop_last()[i] == s[i]);
                }
            }
        }
    } else if s.len() > 0 {
        assert(!is_ws(s[s.len() - 1]));
    }
}

} // verus!

verus! {

/// What `str::to_lowercase` gives for a string (Unicode lower casing, the same
/// in every process and on every machine).
pub uninterp spec fn lowercase(s: Seq<char>) -> Seq<char>;

/// `str::to_lowercase`.
#[verifier::external_body]
pub fn to_lowercase(s: &str) -> (r: String)
    ensures
        r@ == lowercase(s@),
{
    s.to_lowercase()
}

/// The characters of an optional owned string.
pub open spec fn opt_string_view(o: Option<String>) -> Option<Seq<char>> {
    match o {
        Some(s) => Some(s@),
        None => None,
    }
}

} // verus!

verus! {

/// The part of `s` after its last `c` (all of `s` when there is none): what
/// `s.rsplit(c).next()` gives.
pub open spec fn after_last(s: Seq<char>, c: char) -> Seq<char>
    decreases s.len(),
{
    if s.len() == 0 {
        s
    } else if s.last() == c {
        Seq::empty()
    } else {
        after_last(s.drop_last(), c).push(s.last())
    }
}

/// The part of `s` before its first `c` (all of `s` when there is none): what
/// `s.split(c).next()` gives.
pub open spec fn before_first(s: Seq<char>, c: char) -> Seq<char> {
    match index_of_from(s, c, 0) {
        Some(i) => s.take(i),
        None => s,
    }
}

/// `after_last` on characters.
pub fn after_last_chars(s: &Vec<char>, c: char) -> (r: Vec<char>)
    ensures
        r@ == after_last(s@, c),
{
    let mut start = s.len();
    assert(s@.take(start as int) =~= s@);
    assert(s@ + s@.skip(start as int) =~= s@);
    while start > 0 && s[start - 1] != c
        invariant
            start <= s.len(),
            after_last(s@, c) == after_last(s@.take(start as int), c) + s@.skip(start as int),
        decreases start,
    {
        assert(s@.take(start as int).drop_last() =~= s@.take(start - 1));
        assert(s@.skip(start - 1) =~= seq![s@[start - 1]] + s@.skip(start as int));
        assert(after_last(s@.take(start - 1), c).push(s@[start - 1]) + s@.skip(start as int)
            =~= after_last(s@.take(start - 1), c) + s@.skip(start - 1));
        start -= 1;
    }
    if start == 0 {
        assert(s@.take(0) =~= Seq::<char>::empty());
        assert(Seq::<char>::empty() + s@.skip(0) =~= s@);
    } else {
        assert(after_last(s@.take(start as int), c) == Seq::<char>::empty());
    }
    let r = slice_chars(s, start, s.len());
    assert(r@ =~= s@.skip(start as int));
    assert(Seq::<char>::empty() + s@.skip(start as int) =~= s@.skip(start as int));
    r
}

/// `before_first` on characters.
pub fn before_first_chars(s: &Vec<char>, c: char) -> (r: Vec<char>)
    ensures
        r@ == before_first(s@, c),
{
    let mut i: usize = 0;
    while i < s.len() && s[i] != c
        invariant
            i <= s.len(),
            forall|k: int| 0 <= k < i ==> s@[k] != c,
        decreases s.len() - i,
    {
        i += 1;
    }
    proof {
        if i < s.len() {
            crate::text::lemma_index_of_from_is(s@, c, 0, i as int);
        } else {
            crate::text::lemma_index_of_from_none(s@, c, 0);
            assert(s@.take(i as int) =~= s@);
        }
    }
    slice_chars(s, 0, i)
}

/// An ASCII letter or digit (`char::is_ascii_alphanumeric`).
pub open spec fn ascii_alnum(c: char) -> bool {
    ('0' <= c && c <= '9') || ('a' <= c && c <= 'z') || ('A' <= c && c <= 'Z')
}

/// Every character is an ASCII letter or digit.
pub fn all_ascii_alnum(s: &Vec<char>) -> (r: bool)
    ensures
        r == forall|i: int| 0 <= i < s@.len() ==> ascii_alnum(#[trigger] s@[i]),
{
    let mut i: usize = 0;
    while i < s.len()
        invariant
            i <= s.len(),
            forall|k: int| 0 <= k < i ==> ascii_alnum(#[trigger] s@[k]),
        decreases s.len() - i,
    {
        let c = s[i];
        if !(('0' <= c && c <= '9') || ('a' <= c && c <= 'z') || ('A' <= c && c <= 'Z')) {
            return false;
        }
        i += 1;
    }
    true
}

/// Appends the characters of `s`.
pub fn push_str_chars(v: &mut Vec<char>, s: &str)
    ensures
        final(v)@ == old(v)@ + s@,
{
    let chars = chars_of(s);
    let mut i: usize = 0;
    let ghost start = v@;
    while i < chars.len()
        invariant
            i <= chars.len(),
            chars@ == s@,
            v@ == start + chars@.take(i as int),
        decreases chars.len() - i,
    {
        v.push(chars[i]);
        assert(start + chars@.take(i + 1) =~= start + chars@.take(i as int) + seq![chars@[i as int]]);
        i += 1;
    }
    assert(chars@.take(chars.len() as int) =~= chars@);
}

/// Appends the characters of another run.
pub fn push_chars(v: &mut Vec<char>, s: &Vec<char>)
    ensures
        final(v)@ == old(v)@ + s@,
{
    let mut i: usize = 0;
    let ghost start = v@;
    while i < s.len()
        invariant
            i <= s.len(),
            v@ == start + s@.take(i as int),
        decreases s.len() - i,
    {
        v.push(s[i]);
        assert(start + s@.take(i + 1) =~= start + s@.take(i as int) + seq![s@[i as int]]);
        i += 1;
    }
    assert(s@.take(s.len() as int) =~= s@);
}

} // verus!

verus! {

/// What `u64::from_str` gives: an optional leading `+`, then at least one
/// decimal digit, and a value that fits in 64 bits.
pub open spec fn parse_u64_dec(s: Seq<char>) -> Option<u64> {
    let digits = if s.len() > 0 && s[0] == '+' { s.drop_first() } else { s };
    if digits.len() == 0 {
        None
    } else {
        match digits_value(digits, 10) {
            Some(v) => if v <= u64::MAX { Some(v as u64) } else { None },
            None => None,
        }
    }
}

/// `u64::from_str` on a string.
pub fn parse_u64_exec(text: &str) -> (r: Option<u64>)
    ensures
        r == parse_u64_dec(text@),
{
    let s = chars_of(text);
    let start: usize = if s.len() > 0 && s[0] == '+' { 1 } else { 0 };
    let ghost digits = if s@.len() > 0 && s@[0] == '+' { s@.drop_first() } else { s@ };
    assert(digits =~= s@.skip(start as int));
    if start == s.len() {
        return None;
    }
    let mut value: u64 = 0;
    let mut i = start;
    while i < s.len()
        invariant
            start <= i <= s.len(),
            s@ == text@,
            digits == s@.skip(start as int),
            digits == (if s@.len() > 0 && s@[0] == '+' { s@.drop_first() } else { s@ }),
            digits.len() > 0,
            digits_value(s@.subrange(start as int, i as int), 10) == Some(value as nat),
        decreases s.len() - i,
    {
        assert(s@.subrange(start as int, i + 1).drop_last() =~= s@.subrange(start as int, i as int));
        match digit_value_exec(s[i], 10) {
            None => {
                proof {
                    assert(digits.take(i + 1 - start) =~= s@.subrange(start as int, i + 1));
                    lemma_digits_none_extends(s@.subrange(start as int, i + 1), digits, 10);
                }
                return None;
            }
            Some(d) => {
                let next: Option<u64> = match value.checked_mul(10) {
                    Some(m) => m.checked_add(d as u64),
                    None => None,
                };
                match next {
                    None => {
                        proof {
                            assert(digits.take(i + 1 - start) =~= s@.subrange(start as int, i + 1));
                            lemma_digits_value_grows_beyond(s@.subrange(start as int, i + 1), digits, 10, u64::MAX as nat);
                        }
                        return None;
                    }
                    Some(n) => {
                        value = n;
                    }
                }
            }
        }
        i += 1;
    }
    assert(s@.subrange(start as int, s.len() as int) =~= digits);
    Some(value)
}

/// Digits never make a value smaller, so a prefix above `limit` stays above it.
pub proof fn lemma_digits_value_grows_beyond(prefix: Seq<char>, s: Seq<char>, radix: nat, limit: nat)
    requires
        radix >= 2,
        prefix.len() <= s.len(),
        prefix == s.take(prefix.len() as int),
        digits_value(prefix, radix) matches Some(v) && v > limit,
    ensures
        match digits_value(s, radix) {
            Some(w) => w > limit,
            None => true,
        },
    decreases s.len(),
{
    if s.len() > prefix.len() {
        assert(s.drop_last().take(prefix.len() as int) =~= prefix);
        lemma_digits_value_grows_beyond(prefix, s.drop_last(), radix, limit);
        match (digits_value(s.drop_last(), radix), digit_value(s.last(), radix)) {
            (Some(high), Some(low)) => {
                assert(high * radix >= high) by (nonlinear_arith)
                    requires radix >= 2;
            },
            _ => {},
        }
    } else {
        assert(prefix =~= s);
    }
}

/// The decimal text of a signed integer (`i64::to_string`).
pub open spec fn signed_decimal(n: int) -> Seq<char> {
    if n < 0 { seq!['-'] + decimal((-n) as nat) } else { decimal(n as nat) }
}

/// `i64::to_string`.
pub fn i64_to_string(n: i64) -> (r: String)
    ensures
        r@ == signed_decimal(n as int),
{
    let mut v: Vec<char> = Vec::new();
    if n < 0 {
        v.push('-');
        let magnitude: u128 = (-(n as i128)) as u128;
        push_decimal(&mut v, magnitude);
        assert(v@ =~= seq!['-'] + decimal((-n) as nat));
    } else {
        push_decimal(&mut v, n as u128);
        assert(v@ =~= decimal(n as nat));
    }
    string_from_chars(&v)
}

/// The string with white space removed at both ends (`str::trim`, owned).
pub fn trimmed(s: &str) -> (r: String)
    ensures
        r@ == trim(s@),
{
    string_from_chars(&trim_chars(&chars_of(s)))
}

} // verus!
