//! The `data:` URL that carries a rendered SVG image, and the padded
//! standard base64 encoding (RFC 4648) that its payload uses.

use vstd::prelude::*;
use vstd::string::*;
use vstd::utf8::{decode_utf8, encode_utf8, encode_utf8_decode_utf8};
use base64::engine::general_purpose;
use base64::Engine as _;

verus! {

/// The text in front of the base64 payload of every URL this library makes.
pub const SVG_DATA_URL_PREFIX: &'static str = "data:image/svg+xml;base64,";

/// The digit of the standard base64 alphabet with value `v` (below 64):
/// `A`-`Z`, `a`-`z`, `0`-`9`, `+`, `/`.
pub open spec fn base64_digit(v: u8) -> char {
    if v < 26 {
        ((v + 65) as u32) as char
    } else if v < 52 {
        ((v + 71) as u32) as char
    } else if v < 62 {
        ((v - 4) as u32) as char
    } else if v == 62 {
        '+'
    } else {
        '/'
    }
}

/// The value of a digit of the standard base64 alphabet.
pub open spec fn base64_value(c: char) -> u8 {
    let n = c as u32;
    if 65 <= n <= 90 {
        (n - 65) as u8
    } else if 97 <= n <= 122 {
        (n - 71) as u8
    } else if 48 <= n <= 57 {
        (n + 4) as u8
    } else if c == '+' {
        62
    } else {
        63
    }
}

/// The four characters that stand for a group of one to three bytes; a
/// short group is padded with `=`.
pub open spec fn base64_group(g: Seq<u8>) -> Seq<char>
    recommends
        1 <= g.len() <= 3,
{
    let b0 = g[0];
    let b1: u8 = if g.len() > 1 { g[1] } else { 0 };
    let b2: u8 = if g.len() > 2 { g[2] } else { 0 };
    seq![
        base64_digit(b0 >> 2u8),
        base64_digit(((b0 & 3u8) << 4u8) | (b1 >> 4u8)),
        if g.len() > 1 { base64_digit(((b1 & 15u8) << 2u8) | (b2 >> 6u8)) } else { '=' },
        if g.len() > 2 { base64_digit(b2 & 63u8) } else { '=' },
    ]
}

/// Padded standard base64 of a byte sequence, three bytes at a time.
pub open spec fn base64_encoding(b: Seq<u8>) -> Seq<char>
    decreases b.len(),
{
    if b.len() == 0 {
        seq![]
    } else if b.len() <= 3 {
        base64_group(b)
    } else {
        base64_group(b.take(3)) + base64_encoding(b.skip(3))
    }
}

/// The bytes that four characters stand for; `=` marks a padded group.
pub open spec fn base64_ungroup(q: Seq<char>) -> Seq<u8> {
    let v0 = base64_value(q[0]);
    let v1 = base64_value(q[1]);
    let v2 = base64_value(q[2]);
    let v3 = base64_value(q[3]);
    let b0: u8 = (v0 << 2u8) | (v1 >> 4u8);
    let b1: u8 = ((v1 & 15u8) << 4u8) | (v2 >> 2u8);
    let b2: u8 = ((v2 & 3u8) << 6u8) | v3;
    if q[2] == '=' {
        seq![b0]
    } else if q[3] == '=' {
        seq![b0, b1]
    } else {
        seq![b0, b1, b2]
    }
}

/// Decodes padded standard base64, four characters at a time.
pub open spec fn base64_decoding(s: Seq<char>) -> Seq<u8>
    decreases s.len(),
{
    if s.len() < 4 {
        seq![]
    } else {
        base64_ungroup(s.take(4)) + base64_decoding(s.skip(4))
    }
}

proof fn lemma_digit_value(v: u8)
    requires
        v < 64,
    ensures
        base64_value(base64_digit(v)) == v,
        base64_digit(v) != '=',
{
}

proof fn lemma_group_round_trip(g: Seq<u8>)
    requires
        1 <= g.len() <= 3,
    ensures
        base64_ungroup(base64_group(g)) == g,
{
    let b0 = g[0];
    let b1: u8 = if g.len() > 1 { g[1] } else { 0 };
    let b2: u8 = if g.len() > 2 { g[2] } else { 0 };
    let v0 = b0 >> 2u8;
    let v1 = ((b0 & 3u8) << 4u8) | (b1 >> 4u8);
    let v2 = ((b1 & 15u8) << 2u8) | (b2 >> 6u8);
    let v3 = b2 & 63u8;
    assert(v0 < 64 && v1 < 64 && v2 < 64 && v3 < 64) by (bit_vector)
        requires
            v0 == b0 >> 2u8,
            v1 == ((b0 & 3u8) << 4u8) | (b1 >> 4u8),
            v2 == ((b1 & 15u8) << 2u8) | (b2 >> 6u8),
            v3 == b2 & 63u8,
    ;
    lemma_digit_value(v0);
    lemma_digit_value(v1);
    lemma_digit_value(v2);
    lemma_digit_value(v3);
    assert(((v0 << 2u8) | (v1 >> 4u8)) == b0 && (((v1 & 15u8) << 4u8) | (v2 >> 2u8)) == b1 && (
    ((v2 & 3u8) << 6u8) | v3) == b2) by (bit_vector)
        requires
            v0 == b0 >> 2u8,
            v1 == ((b0 & 3u8) << 4u8) | (b1 >> 4u8),
            v2 == ((b1 & 15u8) << 2u8) | (b2 >> 6u8),
            v3 == b2 & 63u8,
    ;
    let q = base64_group(g);
    assert(q[0] == base64_digit(v0) && q[1] == base64_digit(v1));
    if g.len() == 1 {
        assert(base64_ungroup(q) =~= g);
    } else if g.len() == 2 {
        assert(q[2] == base64_digit(v2));
        assert(base64_ungroup(q) =~= g);
    } else {
        assert(q[2] == base64_digit(v2) && q[3] == base64_digit(v3));
        assert(base64_ungroup(q) =~= g);
    }
}

/// Decoding the base64 encoding of any bytes gives back those bytes.
pub proof fn lemma_base64_round_trip(b: Seq<u8>)
    ensures
        base64_decoding(base64_encoding(b)) == b,
    decreases b.len(),
{
    if b.len() == 0 {
    } else if b.len() <= 3 {
        lemma_group_round_trip(b);
        let e = base64_group(b);
        assert(e.take(4) =~= e);
        assert(base64_decoding(e.skip(4)) =~= Seq::<u8>::empty());
        assert(base64_decoding(e) =~= b);
    } else {
        let g = b.take(3);
        let e = base64_group(g) + base64_encoding(b.skip(3));
        lemma_group_round_trip(g);
        lemma_base64_round_trip(b.skip(3));
        assert(e.take(4) =~= base64_group(g));
        assert(e.skip(4) =~= base64_encoding(b.skip(3)));
        assert(g + b.skip(3) =~= b);
    }
}

/// The data URL that embeds the SVG document `svg`: its UTF-8 bytes in
/// base64 after the SVG media-type prefix.
pub open spec fn svg_data_url(svg: Seq<char>) -> Seq<char> {
    SVG_DATA_URL_PREFIX@ + base64_encoding(encode_utf8(svg))
}

/// A data URL made here holds its document exactly: after the prefix, its
/// payload decodes from base64 to UTF-8 bytes that decode to `svg`.
pub proof fn lemma_data_url_round_trip(svg: Seq<char>)
    ensures
        svg_data_url(svg).take(SVG_DATA_URL_PREFIX@.len() as int) == SVG_DATA_URL_PREFIX@,
        decode_utf8(base64_decoding(svg_data_url(svg).skip(SVG_DATA_URL_PREFIX@.len() as int)))
            == svg,
{
    let url = svg_data_url(svg);
    let n = SVG_DATA_URL_PREFIX@.len() as int;
    assert(url.take(n) =~= SVG_DATA_URL_PREFIX@);
    assert(url.skip(n) =~= base64_encoding(encode_utf8(svg)));
    lemma_base64_round_trip(encode_utf8(svg));
    encode_utf8_decode_utf8(svg);
}

/// Relies on base64's `general_purpose::STANDARD` engine, whose `encode`
/// writes the standard alphabet with `=` padding.
#[verifier::external_body]
fn encode_base64(bytes: &[u8]) -> (r: String)
    ensures
        r@ == base64_encoding(bytes@),
{
    general_purpose::STANDARD.encode(bytes)
}

/// Wraps an SVG document in a self-contained `data:image/svg+xml` URL.
pub fn svg_to_data_url(svg: &str) -> (r: String)
    ensures
        r@ == svg_data_url(svg@),
{
    let payload = encode_base64(svg.as_bytes());
    let mut url = String::from_str(SVG_DATA_URL_PREFIX);
    url.append(payload.as_str());
    url
}

} // verus!
