//! Byte encodings (base64, both alphabets) and their laws.
//!
//! The encoders and the decoder are those of the `base64` crate; their
//! contracts state the RFC 4648 encoding as a spec function, and the laws
//! below (injectivity, alphabet, length) are proved from that spec.

use vstd::prelude::*;

verus! {

/// The character for a 6-bit value in the RFC 4648 alphabet; `url` picks the
/// URL-safe alphabet (`-`, `_`) over the standard one (`+`, `/`).
pub open spec fn b64_char(v: int, url: bool) -> char {
    if v < 26 {
        (65 + v) as char
    } else if v < 52 {
        (97 + (v - 26)) as char
    } else if v < 62 {
        (48 + (v - 52)) as char
    } else if v == 62 {
        if url { '-' } else { '+' }
    } else {
        if url { '_' } else { '/' }
    }
}

/// The four characters for a full group of three bytes.
pub open spec fn b64_group(a: int, b: int, c: int, url: bool) -> Seq<char> {
    seq![
        b64_char(a / 4, url),
        b64_char((a % 4) * 16 + b / 16, url),
        b64_char((b % 16) * 4 + c / 64, url),
        b64_char(c % 64, url),
    ]
}

/// Base64 encoding of `bytes` (RFC 4648), in the alphabet `url` selects, with
/// `=` padding to a multiple of four characters when `pad` holds.
pub open spec fn b64_encode(bytes: Seq<u8>, url: bool, pad: bool) -> Seq<char>
    decreases bytes.len(),
{
    if bytes.len() >= 3 {
        b64_group(bytes[0] as int, bytes[1] as int, bytes[2] as int, url) + b64_encode(
            bytes.subrange(3, bytes.len() as int),
            url,
            pad,
        )
    } else if bytes.len() == 2 {
        let a = bytes[0] as int;
        let b = bytes[1] as int;
        seq![b64_char(a / 4, url), b64_char((a % 4) * 16 + b / 16, url), b64_char((b % 16) * 4, url)]
            + (if pad { seq!['='] } else { Seq::<char>::empty() })
    } else if bytes.len() == 1 {
        let a = bytes[0] as int;
        seq![b64_char(a / 4, url), b64_char((a % 4) * 16, url)] + (if pad {
            seq!['=', '=']
        } else {
            Seq::<char>::empty()
        })
    } else {
        Seq::<char>::empty()
    }
}

/// URL-safe base64 without padding, the encoding of JWS segments.
pub open spec fn b64url(bytes: Seq<u8>) -> Seq<char> {
    b64_encode(bytes, true, false)
}

/// Standard base64 with padding.
pub open spec fn b64std(bytes: Seq<u8>) -> Seq<char> {
    b64_encode(bytes, false, true)
}

/// `c` belongs to the alphabet `url` selects.
pub open spec fn is_b64_char(c: char, url: bool) -> bool {
    exists|v: int| 0 <= v < 64 && b64_char(v, url) == c
}

/// Number of characters of the unpadded encoding of `n` bytes.
pub open spec fn b64_nopad_len(n: nat) -> nat {
    4 * (n / 3) + (if n % 3 == 0 { 0 } else { n % 3 + 1 })
}

proof fn lemma_b64_char_facts(v: int, url: bool)
    requires
        0 <= v < 64,
    ensures
        b64_char(v, url) != '=',
        b64_char(v, url) != '.',
        b64_char(v, url) != '"',
        b64_char(v, url) != '\\',
        (b64_char(v, url) as u32) >= 32,
        (b64_char(v, url) as u32) < 128,
{
}

proof fn lemma_b64_char_injective(v: int, w: int, url: bool)
    requires
        0 <= v < 64,
        0 <= w < 64,
        b64_char(v, url) == b64_char(w, url),
    ensures
        v == w,
{
}

proof fn lemma_group_injective(a: int, b: int, c: int, x: int, y: int, z: int, url: bool)
    requires
        0 <= a < 256,
        0 <= b < 256,
        0 <= c < 256,
        0 <= x < 256,
        0 <= y < 256,
        0 <= z < 256,
        b64_group(a, b, c, url) == b64_group(x, y, z, url),
    ensures
        a == x,
        b == y,
        c == z,
{
    let g1 = b64_group(a, b, c, url);
    let g2 = b64_group(x, y, z, url);
    assert(g1[0] == g2[0] && g1[1] == g2[1] && g1[2] == g2[2] && g1[3] == g2[3]);
    lemma_b64_char_injective(a / 4, x / 4, url);
    lemma_b64_char_injective((a % 4) * 16 + b / 16, (x % 4) * 16 + y / 16, url);
    lemma_b64_char_injective((b % 16) * 4 + c / 64, (y % 16) * 4 + z / 64, url);
    lemma_b64_char_injective(c % 64, z % 64, url);
}

/// Every character of an encoding is either of the alphabet or padding.
pub proof fn lemma_b64_chars(bytes: Seq<u8>, url: bool, pad: bool)
    ensures
        forall|i: int|
            0 <= i < b64_encode(bytes, url, pad).len() ==> {
                let c = #[trigger] b64_encode(bytes, url, pad)[i];
                is_b64_char(c, url) || (pad && c == '=')
            },
    decreases bytes.len(),
{
    let e = b64_encode(bytes, url, pad);
    if bytes.len() >= 3 {
        let a = bytes[0] as int;
        let b = bytes[1] as int;
        let c = bytes[2] as int;
        let rest = bytes.subrange(3, bytes.len() as int);
        lemma_b64_chars(rest, url, pad);
        let g = b64_group(a, b, c, url);
        assert forall|i: int| 0 <= i < e.len() implies is_b64_char(#[trigger] e[i], url) || (pad
            && e[i] == '=') by {
            if i < 4 {
                if i == 0 {
                    assert(b64_char(a / 4, url) == e[i]);
                } else if i == 1 {
                    assert(b64_char((a % 4) * 16 + b / 16, url) == e[i]);
                } else if i == 2 {
                    assert(b64_char((b % 16) * 4 + c / 64, url) == e[i]);
                } else {
                    assert(b64_char(c % 64, url) == e[i]);
                }
            } else {
                assert(e[i] == b64_encode(rest, url, pad)[i - 4]);
            }
        }
    } else if bytes.len() == 2 {
        let a = bytes[0] as int;
        let b = bytes[1] as int;
        assert forall|i: int| 0 <= i < e.len() implies is_b64_char(#[trigger] e[i], url) || (pad
            && e[i] == '=') by {
            if i == 0 {
                assert(b64_char(a / 4, url) == e[i]);
            } else if i == 1 {
                assert(b64_char((a % 4) * 16 + b / 16, url) == e[i]);
            } else if i == 2 {
                assert(b64_char((b % 16) * 4, url) == e[i]);
            }
        }
    } else if bytes.len() == 1 {
        let a = bytes[0] as int;
        assert forall|i: int| 0 <= i < e.len() implies is_b64_char(#[trigger] e[i], url) || (pad
            && e[i] == '=') by {
            if i == 0 {
                assert(b64_char(a / 4, url) == e[i]);
            } else if i == 1 {
                assert(b64_char((a % 4) * 16, url) == e[i]);
            }
        }
    }
}

/// No character of an unpadded URL-safe encoding is a `.`: JWS segments
/// joined by dots can be told apart again.
pub proof fn lemma_b64url_has_no_dot(bytes: Seq<u8>)
    ensures
        forall|i: int| 0 <= i < b64url(bytes).len() ==> #[trigger] b64url(bytes)[i] != '.',
{
    lemma_b64_chars(bytes, true, false);
    assert forall|i: int| 0 <= i < b64url(bytes).len() implies #[trigger] b64url(bytes)[i]
        != '.' by {
        let c = b64url(bytes)[i];
        assert(is_b64_char(c, true));
        let v = choose|v: int| 0 <= v < 64 && b64_char(v, true) == c;
        lemma_b64_char_facts(v, true);
    }
}

/// Length of an unpadded encoding.
pub proof fn lemma_b64_nopad_len(bytes: Seq<u8>, url: bool)
    ensures
        b64_encode(bytes, url, false).len() == b64_nopad_len(bytes.len()),
    decreases bytes.len(),
{
    if bytes.len() >= 3 {
        lemma_b64_nopad_len(bytes.subrange(3, bytes.len() as int), url);
    }
}

/// Length of a padded encoding.
pub proof fn lemma_b64_pad_len(bytes: Seq<u8>, url: bool)
    ensures
        b64_encode(bytes, url, true).len() == 4 * ((bytes.len() + 2) / 3),
    decreases bytes.len(),
{
    if bytes.len() >= 3 {
        lemma_b64_pad_len(bytes.subrange(3, bytes.len() as int), url);
    }
}

/// Base64 encoding is injective: two byte strings with the same encoding
/// are equal. Decoding therefore gives back exactly what was encoded.
pub proof fn lemma_b64_injective(x: Seq<u8>, y: Seq<u8>, url: bool, pad: bool)
    requires
        b64_encode(x, url, pad) == b64_encode(y, url, pad),
    ensures
        x == y,
    decreases x.len(),
{
    let ex = b64_encode(x, url, pad);
    let ey = b64_encode(y, url, pad);
    lemma_b64_chars(x, url, pad);
    lemma_b64_chars(y, url, pad);
    if x.len() >= 3 && y.len() >= 3 {
        let rx = x.subrange(3, x.len() as int);
        let ry = y.subrange(3, y.len() as int);
        let gx = b64_group(x[0] as int, x[1] as int, x[2] as int, url);
        let gy = b64_group(y[0] as int, y[1] as int, y[2] as int, url);
        assert(ex.subrange(0, 4) == gx);
        assert(ey.subrange(0, 4) == gy);
        lemma_group_injective(
            x[0] as int,
            x[1] as int,
            x[2] as int,
            y[0] as int,
            y[1] as int,
            y[2] as int,
            url,
        );
        assert(ex.subrange(4, ex.len() as int) == b64_encode(rx, url, pad));
        assert(ey.subrange(4, ey.len() as int) == b64_encode(ry, url, pad));
        lemma_b64_injective(rx, ry, url, pad);
        assert(x == seq![x[0], x[1], x[2]] + rx);
        assert(y == seq![y[0], y[1], y[2]] + ry);
    } else if x.len() >= 3 || y.len() >= 3 {
        // one side has a full group, the other not
        lemma_short_vs_group(x, y, url, pad);
        lemma_short_vs_group(y, x, url, pad);
    } else {
        lemma_short_injective(x, y, url, pad);
    }
}

proof fn lemma_short_vs_group(x: Seq<u8>, y: Seq<u8>, url: bool, pad: bool)
    requires
        x.len() >= 3,
        y.len() < 3,
        b64_encode(x, url, pad) == b64_encode(y, url, pad),
    ensures
        x.len() < 3,
{
    let ex = b64_encode(x, url, pad);
    lemma_b64_chars(x, url, pad);
    let c = x[2] as int;
    assert(ex[3] == b64_char(c % 64, url));
    lemma_b64_char_facts(c % 64, url);
    if pad {
        lemma_b64_pad_len(x, url);
        lemma_b64_pad_len(x.subrange(3, x.len() as int), url);
    }
    if y.len() == 2 {
        if !pad {
            assert(ex.len() >= 4);
        }
    }
}

proof fn lemma_short_injective(x: Seq<u8>, y: Seq<u8>, url: bool, pad: bool)
    requires
        x.len() < 3,
        y.len() < 3,
        b64_encode(x, url, pad) == b64_encode(y, url, pad),
    ensures
        x == y,
{
    let ex = b64_encode(x, url, pad);
    if x.len() == 2 && y.len() == 2 {
        let (a, b, p, q) = (x[0] as int, x[1] as int, y[0] as int, y[1] as int);
        assert(ex[0] == b64_char(a / 4, url) && ex[0] == b64_char(p / 4, url));
        assert(ex[1] == b64_char((a % 4) * 16 + b / 16, url) && ex[1] == b64_char(
            (p % 4) * 16 + q / 16,
            url,
        ));
        assert(ex[2] == b64_char((b % 16) * 4, url) && ex[2] == b64_char((q % 16) * 4, url));
        lemma_b64_char_injective(a / 4, p / 4, url);
        lemma_b64_char_injective((a % 4) * 16 + b / 16, (p % 4) * 16 + q / 16, url);
        lemma_b64_char_injective((b % 16) * 4, (q % 16) * 4, url);
        assert(x == seq![x[0], x[1]]);
        assert(y == seq![y[0], y[1]]);
    } else if x.len() == 1 && y.len() == 1 {
        let (a, p) = (x[0] as int, y[0] as int);
        assert(ex[0] == b64_char(a / 4, url) && ex[0] == b64_char(p / 4, url));
        assert(ex[1] == b64_char((a % 4) * 16, url) && ex[1] == b64_char((p % 4) * 16, url));
        lemma_b64_char_injective(a / 4, p / 4, url);
        lemma_b64_char_injective((a % 4) * 16, (p % 4) * 16, url);
        assert(x == seq![x[0]]);
        assert(y == seq![y[0]]);
    } else if x.len() == 2 && y.len() == 1 {
        let b = x[1] as int;
        assert(ex[2] == b64_char((b % 16) * 4, url));
        lemma_b64_char_facts((b % 16) * 4, url);
    } else if x.len() == 1 && y.len() == 2 {
        let q = y[1] as int;
        let ey = b64_encode(y, url, pad);
        assert(ey[2] == b64_char((q % 16) * 4, url));
        lemma_b64_char_facts((q % 16) * 4, url);
    } else {
        let ey = b64_encode(y, url, pad);
        assert(x.len() > 0 ==> ex.len() >= 2);
        assert(y.len() > 0 ==> ey.len() >= 2);
        assert(x =~= y);
    }
}

/// `base64::engine::general_purpose::URL_SAFE_NO_PAD.encode`: the URL-safe
/// alphabet without padding. The contract claims the crate emits the RFC 4648
/// encoding stated by `b64url`.
#[verifier::external_body]
pub(crate) fn b64url_encode(bytes: &[u8]) -> (res: String)
    ensures
        res@ == b64url(bytes@),
{
    base64::Engine::encode(&base64::engine::general_purpose::URL_SAFE_NO_PAD, bytes)
}

/// `base64::engine::general_purpose::STANDARD.encode`: the standard alphabet
/// with `=` padding. The contract claims the RFC 4648 encoding `b64std`.
#[verifier::external_body]
pub(crate) fn b64std_encode(bytes: &[u8]) -> (res: String)
    ensures
        res@ == b64std(bytes@),
{
    base64::Engine::encode(&base64::engine::general_purpose::STANDARD, bytes)
}

/// The text that `base64::DecodeError`'s `Display` gives for the error that
/// `STANDARD.decode` reports on `text`.
pub uninterp spec fn b64std_decode_error_text(text: Seq<char>) -> Seq<char>;

/// `base64::engine::general_purpose::STANDARD.decode` on the bytes of `text`.
/// That engine requires canonical padding and rejects non-zero trailing bits,
/// so the contract claims: it succeeds exactly on the texts that are the
/// padded standard encoding of some bytes, and gives those bytes; on failure
/// the error is rendered with its `Display`.
#[verifier::external_body]
pub(crate) fn b64std_decode(text: &str) -> (res: Result<Vec<u8>, String>)
    ensures
        res is Ok <==> exists|v: Seq<u8>| b64std(v) == text@,
        res matches Ok(v) ==> b64std(v@) == text@,
        res matches Err(m) ==> m@ == b64std_decode_error_text(text@),
{
    match base64::Engine::decode(&base64::engine::general_purpose::STANDARD, text.as_bytes()) {
        Ok(v) => Ok(v),
        Err(e) => Err(e.to_string()),
    }
}

/// Bytes sent base64-encoded (standard alphabet, padded) come back unchanged:
/// the only bytes whose encoding is that text are the bytes sent.
pub proof fn law_b64std_round_trip(sent: Seq<u8>, decoded: Seq<u8>)
    requires
        b64std(decoded) == b64std(sent),
    ensures
        decoded == sent,
{
    lemma_b64_injective(decoded, sent, false, true);
}

} // verus!
