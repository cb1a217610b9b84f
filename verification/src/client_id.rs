//! The per-device client id sent with API requests, and the guest name
//! derived from it.

use vstd::prelude::*;
use sha1::Digest;
use crate::strings::{opt_string_view, push_char};

verus! {

/// Where the client id is kept on the console.
pub const CLIENT_ID_PATH: &'static str = "ux0:data/vitaforge/client_id";

/// The lower-case hexadecimal digit of a value below 16.
pub open spec fn hex_digit(v: nat) -> char {
    if v < 10 { (('0' as u32) + v) as char } else { (('a' as u32) + v - 10) as char }
}

/// Bytes written as two lower-case hexadecimal digits each (`{:02x}`).
pub open spec fn hex_lower(bytes: Seq<u8>) -> Seq<char>
    decreases bytes.len(),
{
    if bytes.len() == 0 {
        Seq::empty()
    } else {
        hex_lower(bytes.drop_last()).push(hex_digit((bytes.last() / 16) as nat)).push(hex_digit((bytes.last() % 16) as nat))
    }
}

fn hex_digit_exec(v: u8) -> (c: char)
    requires
        v < 16,
    ensures
        c == hex_digit(v as nat),
{
    if v < 10 {
        let zero: u8 = 48;
        (zero + v) as char
    } else {
        let a: u8 = 97;
        (a + v - 10) as char
    }
}

pub proof fn lemma_hex_lower_ascii(bytes: Seq<u8>)
    ensures
        hex_lower(bytes).len() == 2 * bytes.len(),
        vstd::utf8::is_ascii_chars(hex_lower(bytes)),
    decreases bytes.len(),
{
    if bytes.len() > 0 {
        lemma_hex_lower_ascii(bytes.drop_last());
        let h = hex_lower(bytes);
        let prev = hex_lower(bytes.drop_last());
        assert forall|i: int| 0 <= i < h.len() implies '\0' <= #[trigger] h[i] <= '\u{7f}' by {
            if i < prev.len() {
                assert(h[i] == prev[i]);
            }
        }
    }
}

/// Bytes as lower-case hexadecimal text, two digits per byte.
pub fn encode(bytes: &[u8]) -> (r: String)
    ensures
        r@ == hex_lower(bytes@),
{
    let mut out = String::new();
    let mut i: usize = 0;
    while i < bytes.len()
        invariant
            i <= bytes@.len(),
            out@ == hex_lower(bytes@.take(i as int)),
        decreases bytes.len() - i,
    {
        let byte = bytes[i];
        push_char(&mut out, hex_digit_exec(byte / 16));
        push_char(&mut out, hex_digit_exec(byte % 16));
        assert(bytes@.take(i + 1).drop_last() =~= bytes@.take(i as int));
        i += 1;
    }
    assert(bytes@.take(bytes@.len() as int) =~= bytes@);
    out
}

/// The SHA-1 digest of some bytes, as the `sha1` crate computes it.
pub uninterp spec fn sha1_of(data: Seq<u8>) -> Seq<u8>;

/// `sha1::Sha1::digest`: the 20-byte SHA-1 digest of `data` (feeding the
/// hasher several pieces gives the digest of their concatenation).
#[verifier::external_body]
fn sha1_digest(data: &[u8]) -> (r: Vec<u8>)
    ensures
        r@ == sha1_of(data@),
        r@.len() == 20,
{
    sha1::Sha1::digest(data).to_vec()
}

/// A new client id from a seed (the clock, an address and the process id, as
/// little-endian bytes): the first 16 bytes of the seed's SHA-1, in hex.
pub fn generate(seed: &[u8]) -> (r: String)
    ensures
        r@ == hex_lower(sha1_of(seed@).take(16)),
        r@.len() == 32,
{
    let digest = sha1_digest(seed);
    let mut head: Vec<u8> = Vec::new();
    let mut i: usize = 0;
    while i < 16
        invariant
            i <= 16,
            digest@.len() == 20,
            head@ == digest@.take(i as int),
        decreases 16 - i,
    {
        head.push(digest[i]);
        assert(digest@.take(i + 1) =~= digest@.take(i as int).push(digest@[i as int]));
        i += 1;
    }
    proof {
        lemma_hex_lower_ascii(head@);
    }
    encode(head.as_slice())
}

/// The id kept on disk, if the file held one: its contents trimmed, unless blank.
pub fn stored_id(contents: Option<String>) -> (r: Option<String>)
    ensures
        opt_string_view(r) == match contents {
            Some(text) => crate::data::api::non_empty_text(text@),
            None => None,
        },
{
    match contents {
        Some(text) => crate::data::api::non_empty(text),
        None => None,
    }
}

/// How many bytes of the id the guest name shows: four, or all of a shorter id.
pub open spec fn guest_prefix_len(id: Seq<char>) -> int {
    let n = vstd::utf8::encode_utf8(id).len();
    if n < 4 { n as int } else { 4 }
}

/// The guest name: `VitaGuest-` and the first four bytes of the id.
pub open spec fn guest_name(id: Seq<char>) -> Seq<char> {
    "VitaGuest-"@ + vstd::utf8::decode_utf8(vstd::utf8::encode_utf8(id).take(guest_prefix_len(id)))
}

/// The name comments are posted under by default, derived from the client id
/// so that it stays the same across launches.
pub fn display_name(id: &str) -> (r: String)
    requires
        vstd::utf8::is_char_boundary(vstd::utf8::encode_utf8(id@), guest_prefix_len(id@)),
        vstd::utf8::encode_utf8(id@).len() <= usize::MAX,
    ensures
        r@ == guest_name(id@),
{
    let k = if id.len() < 4 { id.len() } else { 4 };
    let (head, _) = id.split_at(k);
    proof {
        broadcast use vstd::utf8::encode_utf8_decode_utf8;
        assert(vstd::utf8::decode_utf8(vstd::utf8::encode_utf8(head@)) == head@);
    }
    let mut out = "VitaGuest-".to_owned();
    let chars = crate::strings::chars_of(head);
    let ghost start = out@;
    let mut i: usize = 0;
    while i < chars.len()
        invariant
            i <= chars.len(),
            out@ == start + chars@.take(i as int),
        decreases chars.len() - i,
    {
        push_char(&mut out, chars[i]);
        assert(chars@.take(i + 1) =~= chars@.take(i as int).push(chars@[i as int]));
        i += 1;
    }
    assert(chars@.take(chars.len() as int) =~= head@);
    out
}

} // verus!
