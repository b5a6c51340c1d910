//! Text: decimal and hexadecimal renderings, JSON string literals, decimal
//! parsing with the error kinds of `str::parse`, and a few string tests.

use vstd::prelude::*;
use vstd::utf8::encode_utf8;

verus! {

// ---------------------------------------------------------------------------
// Decimal
// ---------------------------------------------------------------------------

/// The ASCII character of a decimal digit.
pub open spec fn digit_char(d: int) -> char {
    (48 + d) as char
}

/// Decimal digits of `n`, without leading zeros (`"0"` for zero).
pub open spec fn decimal(n: nat) -> Seq<char>
    decreases n,
{
    if n < 10 {
        seq![digit_char(n as int)]
    } else {
        decimal(n / 10).push(digit_char((n % 10) as int))
    }
}

/// A decimal rendering is never empty.
pub proof fn lemma_decimal_nonempty(n: nat)
    ensures
        decimal(n).len() >= 1,
    decreases n,
{
    if n >= 10 {
        lemma_decimal_nonempty(n / 10);
    }
}

/// Different numbers have different decimal renderings.
pub proof fn lemma_decimal_injective(a: nat, b: nat)
    requires
        decimal(a) == decimal(b),
    ensures
        a == b,
    decreases a,
{
    if a < 10 && b < 10 {
        assert(decimal(a)[0] == digit_char(a as int));
        assert(decimal(b)[0] == digit_char(b as int));
    } else if a < 10 {
        lemma_decimal_nonempty(b / 10);
        assert(decimal(b).len() >= 2);
    } else if b < 10 {
        lemma_decimal_nonempty(a / 10);
        assert(decimal(a).len() >= 2);
    } else {
        let da = decimal(a);
        let db = decimal(b);
        assert(da.last() == digit_char((a % 10) as int));
        assert(db.last() == digit_char((b % 10) as int));
        assert(da.drop_last() =~= decimal(a / 10));
        assert(db.drop_last() =~= decimal(b / 10));
        lemma_decimal_injective(a / 10, b / 10);
    }
}

/// The text of one decimal digit.
fn digit_text(d: u64) -> (res: &'static str)
    requires
        d < 10,
    ensures
        res@ == seq![digit_char(d as int)],
{
    proof {
        reveal_strlit("0");
        reveal_strlit("1");
        reveal_strlit("2");
        reveal_strlit("3");
        reveal_strlit("4");
        reveal_strlit("5");
        reveal_strlit("6");
        reveal_strlit("7");
        reveal_strlit("8");
        reveal_strlit("9");
    }
    if d == 0 {
        "0"
    } else if d == 1 {
        "1"
    } else if d == 2 {
        "2"
    } else if d == 3 {
        "3"
    } else if d == 4 {
        "4"
    } else if d == 5 {
        "5"
    } else if d == 6 {
        "6"
    } else if d == 7 {
        "7"
    } else if d == 8 {
        "8"
    } else {
        "9"
    }
}

/// The decimal rendering of `n`, as `Display` writes an unsigned integer.
pub(crate) fn u64_text(n: u64) -> (res: String)
    ensures
        res@ == decimal(n as nat),
    decreases n,
{
    if n < 10 {
        String::from_str(digit_text(n))
    } else {
        let mut s = u64_text(n / 10);
        s.append(digit_text(n % 10));
        s
    }
}

// ---------------------------------------------------------------------------
// Hexadecimal
// ---------------------------------------------------------------------------

/// The lower-case hexadecimal digit of a value below 16.
pub open spec fn hex_digit(v: int) -> char {
    if v < 10 {
        (48 + v) as char
    } else {
        (87 + v) as char
    }
}

/// Lower-case hexadecimal of `bytes`, two digits per byte, high nibble first.
pub open spec fn hex_lower(bytes: Seq<u8>) -> Seq<char>
    decreases bytes.len(),
{
    if bytes.len() == 0 {
        Seq::<char>::empty()
    } else {
        seq![hex_digit(bytes[0] as int / 16), hex_digit(bytes[0] as int % 16)] + hex_lower(
            bytes.drop_first(),
        )
    }
}

/// The value of a hexadecimal digit of either case.
pub open spec fn hex_value(c: char) -> Option<int> {
    if '0' <= c && c <= '9' {
        Some(c as int - 48)
    } else if 'a' <= c && c <= 'f' {
        Some(c as int - 87)
    } else if 'A' <= c && c <= 'F' {
        Some(c as int - 55)
    } else {
        None
    }
}

/// Hexadecimal decoding: the bytes `s` spells two digits each, or `None`
/// where `s` has odd length or a character that is no hex digit.
pub open spec fn hex_decode_spec(s: Seq<char>) -> Option<Seq<u8>>
    decreases s.len(),
{
    if s.len() == 0 {
        Some(Seq::<u8>::empty())
    } else if s.len() == 1 {
        None
    } else {
        match (hex_value(s[0]), hex_value(s[1]), hex_decode_spec(s.subrange(2, s.len() as int))) {
            (Some(h), Some(l), Some(rest)) => Some(seq![(h * 16 + l) as u8] + rest),
            _ => None,
        }
    }
}

/// `hex::encode`: lower-case hexadecimal, as `hex_lower` states.
#[verifier::external_body]
pub(crate) fn hex_encode(bytes: &[u8]) -> (res: String)
    ensures
        res@ == hex_lower(bytes@),
{
    hex::encode(bytes)
}

/// `hex::decode`, with its error dropped: digits of either case, even length,
/// as `hex_decode_spec` states.
#[verifier::external_body]
pub(crate) fn hex_decode(s: &str) -> (res: Option<Vec<u8>>)
    ensures
        match res {
            Some(v) => hex_decode_spec(s@) == Some(v@),
            None => hex_decode_spec(s@) is None,
        },
{
    hex::decode(s).ok()
}

proof fn lemma_hex_digit_value(v: int)
    requires
        0 <= v < 16,
    ensures
        hex_value(hex_digit(v)) == Some(v),
{
}

/// Hexadecimal decoding gives back what `hex_lower` encoded.
pub proof fn lemma_hex_round_trip(bytes: Seq<u8>)
    ensures
        hex_decode_spec(hex_lower(bytes)) == Some(bytes),
        hex_lower(bytes).len() == 2 * bytes.len(),
    decreases bytes.len(),
{
    if bytes.len() > 0 {
        let rest = bytes.drop_first();
        lemma_hex_round_trip(rest);
        let h = hex_lower(bytes);
        lemma_hex_digit_value(bytes[0] as int / 16);
        lemma_hex_digit_value(bytes[0] as int % 16);
        assert(h.subrange(2, h.len() as int) == hex_lower(rest));
        assert(seq![bytes[0]] + rest == bytes);
    }
}

/// Lower-case hexadecimal is injective.
pub proof fn lemma_hex_injective(a: Seq<u8>, b: Seq<u8>)
    requires
        hex_lower(a) == hex_lower(b),
    ensures
        a == b,
{
    lemma_hex_round_trip(a);
    lemma_hex_round_trip(b);
}

// ---------------------------------------------------------------------------
// JSON string literals
// ---------------------------------------------------------------------------

/// How a JSON writer escapes one character inside a string literal: quote,
/// backslash and the C0 controls are escaped (`\b \t \n \f \r` by name, the
/// others as `\u00XX` with lower-case digits); all else stands as is.
pub open spec fn json_escape(c: char) -> Seq<char> {
    if c == '"' {
        seq!['\\', '"']
    } else if c == '\\' {
        seq!['\\', '\\']
    } else if c == '\x08' {
        seq!['\\', 'b']
    } else if c == '\t' {
        seq!['\\', 't']
    } else if c == '\n' {
        seq!['\\', 'n']
    } else if c == '\x0C' {
        seq!['\\', 'f']
    } else if c == '\r' {
        seq!['\\', 'r']
    } else if (c as int) < 32 {
        seq!['\\', 'u', '0', '0', hex_digit(c as int / 16), hex_digit(c as int % 16)]
    } else {
        seq![c]
    }
}

/// The escaped characters of a string literal's contents.
pub open spec fn json_escaped(s: Seq<char>) -> Seq<char>
    decreases s.len(),
{
    if s.len() == 0 {
        Seq::<char>::empty()
    } else {
        json_escape(s[0]) + json_escaped(s.drop_first())
    }
}

/// The JSON string literal of `s`, quotes included.
pub open spec fn json_quoted(s: Seq<char>) -> Seq<char> {
    seq!['"'] + json_escaped(s) + seq!['"']
}

/// `serde_json::to_string` on a `&str`: the JSON string literal, as
/// `json_quoted` states. Writing a string into a `Vec` cannot fail, so the
/// error arm of the call is never taken.
#[verifier::external_body]
pub(crate) fn json_string(s: &str) -> (res: String)
    ensures
        res@ == json_quoted(s@),
{
    serde_json::to_string(s).unwrap_or_default()
}

/// A character a JSON writer leaves as is.
pub open spec fn json_plain(c: char) -> bool {
    c != '"' && c != '\\' && (c as int) >= 32
}

/// Text of plain characters is its own escaping.
pub proof fn lemma_json_escaped_plain(s: Seq<char>)
    requires
        forall|i: int| 0 <= i < s.len() ==> json_plain(#[trigger] s[i]),
    ensures
        json_escaped(s) == s,
    decreases s.len(),
{
    if s.len() > 0 {
        lemma_json_escaped_plain(s.drop_first());
        assert(json_plain(s[0]));
        assert(seq![s[0]] + s.drop_first() == s);
    }
}

/// The value of a lower-case hexadecimal digit.
pub open spec fn lower_hex_value(c: char) -> Option<int> {
    if '0' <= c && c <= '9' {
        Some(c as int - 48)
    } else if 'a' <= c && c <= 'f' {
        Some(c as int - 87)
    } else {
        None
    }
}

/// A control character that a JSON writer escapes as `\u00XX` (the C0
/// controls without a named escape).
pub open spec fn json_u_escaped(v: int) -> bool {
    0 <= v < 32 && v != 8 && v != 9 && v != 10 && v != 12 && v != 13
}

/// Read one escape unit, as `json_escape` writes it, at the start of `t`:
/// the character it stands for and its length.
pub open spec fn json_unescape_unit(t: Seq<char>) -> Option<(char, int)> {
    if t.len() == 0 {
        None
    } else if t[0] != '\\' {
        if json_plain(t[0]) {
            Some((t[0], 1))
        } else {
            None
        }
    } else if t.len() < 2 {
        None
    } else if t[1] == '"' {
        Some(('"', 2))
    } else if t[1] == '\\' {
        Some(('\\', 2))
    } else if t[1] == 'b' {
        Some(('\x08', 2))
    } else if t[1] == 't' {
        Some(('\t', 2))
    } else if t[1] == 'n' {
        Some(('\n', 2))
    } else if t[1] == 'f' {
        Some(('\x0C', 2))
    } else if t[1] == 'r' {
        Some(('\r', 2))
    } else if t[1] == 'u' && t.len() >= 6 && t[2] == '0' && t[3] == '0' && (t[4] == '0' || t[4]
        == '1') && lower_hex_value(t[5]) is Some {
        let v = (t[4] as int - 48) * 16 + lower_hex_value(t[5])->0;
        if json_u_escaped(v) {
            Some((v as char, 6))
        } else {
            None
        }
    } else {
        None
    }
}

/// Read the escaped contents of a JSON string literal up to its closing
/// quote: the text it stands for and the index of that quote.
pub open spec fn json_unescape_until_quote(t: Seq<char>) -> Option<(Seq<char>, int)>
    decreases t.len(),
{
    if t.len() == 0 {
        None
    } else if t[0] == '"' {
        Some((Seq::<char>::empty(), 0))
    } else {
        match json_unescape_unit(t) {
            Some((c, k)) => if 0 < k <= t.len() {
                match json_unescape_until_quote(t.subrange(k, t.len() as int)) {
                    Some((d, j)) => Some((seq![c] + d, j + k)),
                    None => None,
                }
            } else {
                None
            },
            None => None,
        }
    }
}

proof fn lemma_unescape_unit_of_escape(c: char, r: Seq<char>)
    ensures
        json_unescape_unit(json_escape(c) + r) == Some((c, json_escape(c).len() as int)),
        json_escape(c).len() > 0,
        json_escape(c)[0] != '"',
{
    let t = json_escape(c) + r;
    let v = c as int;
    if c == '"' || c == '\\' || c == '\x08' || c == '\t' || c == '\n' || c == '\x0C' || c
        == '\r' {
        assert(t[0] == '\\');
    } else if v < 32 {
        let hi = v / 16;
        let lo = v % 16;
        assert(0 <= hi < 2);
        assert(t[4] == hex_digit(hi));
        assert(t[5] == hex_digit(lo));
        assert(lower_hex_value(hex_digit(lo)) == Some(lo));
        assert((t[4] as int - 48) == hi);
        assert(hi * 16 + lo == v);
        assert(json_u_escaped(v));
        assert((v as char) == c);
    } else {
        assert(t[0] == c);
    }
}

proof fn lemma_unescape_unit_sound(t: Seq<char>)
    requires
        json_unescape_unit(t) is Some,
    ensures
        ({
            let (c, k) = json_unescape_unit(t)->0;
            0 < k <= t.len() && t.subrange(0, k) == json_escape(c)
        }),
{
    let (c, k) = json_unescape_unit(t)->0;
    if t[0] != '\\' {
        assert(t.subrange(0, 1) =~= seq![t[0]]);
    } else if t[1] == 'u' && !(t[1] == '"') {
        if k == 6 {
            let lo = lower_hex_value(t[5])->0;
            let hi = t[4] as int - 48;
            let v = hi * 16 + lo;
            assert(0 <= lo < 16);
            assert(v / 16 == hi);
            assert(v % 16 == lo);
            assert((v as char) as int == v);
            assert(hex_digit(hi) == t[4]);
            assert(hex_digit(lo) == t[5]);
            assert(t.subrange(0, 6) =~= json_escape(c));
        } else {
            assert(t.subrange(0, 2) =~= json_escape(c));
        }
    } else {
        assert(t.subrange(0, 2) =~= json_escape(c));
    }
}

/// Reading back what a JSON writer escaped gives the text, up to the
/// closing quote.
pub proof fn lemma_unescape_escaped(s: Seq<char>, r: Seq<char>)
    ensures
        json_unescape_until_quote(json_escaped(s) + seq!['"'] + r) == Some(
            (s, json_escaped(s).len() as int),
        ),
    decreases s.len(),
{
    let t = json_escaped(s) + seq!['"'] + r;
    if s.len() == 0 {
        assert(t =~= seq!['"'] + r);
    } else {
        let c = s[0];
        let e = json_escape(c);
        let rest = json_escaped(s.drop_first());
        let r2 = rest + seq!['"'] + r;
        lemma_unescape_unit_of_escape(c, r2);
        assert(t =~= e + r2);
        assert(t.subrange(e.len() as int, t.len() as int) =~= r2);
        lemma_unescape_escaped(s.drop_first(), r);
        assert(seq![c] + s.drop_first() =~= s);
    }
}

/// Whatever is read back is the escaping of the text read, followed by the
/// closing quote.
pub proof fn lemma_unescape_sound(t: Seq<char>)
    requires
        json_unescape_until_quote(t) is Some,
    ensures
        ({
            let (d, j) = json_unescape_until_quote(t)->0;
            0 <= j < t.len() && t[j] == '"' && t.subrange(0, j) == json_escaped(d)
        }),
    decreases t.len(),
{
    if t[0] == '"' {
        assert(t.subrange(0, 0) =~= Seq::<char>::empty());
    } else {
        let (c, k) = json_unescape_unit(t)->0;
        lemma_unescape_unit_sound(t);
        let t2 = t.subrange(k, t.len() as int);
        lemma_unescape_sound(t2);
        let (d2, j2) = json_unescape_until_quote(t2)->0;
        let d = seq![c] + d2;
        assert(d[0] == c);
        assert(d.drop_first() =~= d2);
        assert(t.subrange(0, j2 + k) =~= t.subrange(0, k) + t2.subrange(0, j2));
    }
}

/// Append a character: `String::push`.
#[verifier::external_body]
pub(crate) fn push_char(s: &mut String, c: char)
    ensures
        final(s)@ == old(s)@.push(c),
{
    s.push(c);
}

fn unescape_unit_at(t: &str, i: usize) -> (res: Option<(char, usize)>)
    requires
        i < t@.len(),
    ensures
        match res {
            Some((c, k)) => json_unescape_unit(t@.subrange(i as int, t@.len() as int)) == Some(
                (c, k as int),
            ),
            None => json_unescape_unit(t@.subrange(i as int, t@.len() as int)) is None,
        },
{
    let n = t.unicode_len();
    let ghost u = t@.subrange(i as int, n as int);
    let c0 = t.get_char(i);
    assert(u[0] == c0);
    if c0 != '\\' {
        if c0 != '"' && (c0 as u32) >= 32 {
            return Some((c0, 1));
        } else {
            return None;
        }
    }
    if i + 1 >= n {
        return None;
    }
    let c1 = t.get_char(i + 1);
    assert(u[1] == c1);
    if c1 == '"' {
        return Some(('"', 2));
    } else if c1 == '\\' {
        return Some(('\\', 2));
    } else if c1 == 'b' {
        return Some(('\x08', 2));
    } else if c1 == 't' {
        return Some(('\t', 2));
    } else if c1 == 'n' {
        return Some(('\n', 2));
    } else if c1 == 'f' {
        return Some(('\x0C', 2));
    } else if c1 == 'r' {
        return Some(('\r', 2));
    } else if c1 != 'u' || n - i < 6 {
        return None;
    }
    let c2 = t.get_char(i + 2);
    let c3 = t.get_char(i + 3);
    let c4 = t.get_char(i + 4);
    let c5 = t.get_char(i + 5);
    assert(u[2] == c2 && u[3] == c3 && u[4] == c4 && u[5] == c5);
    if c2 != '0' || c3 != '0' || (c4 != '0' && c4 != '1') {
        return None;
    }
    let d5 = c5 as u32;
    let lo: u32 = if 48 <= d5 && d5 <= 57 {
        d5 - 48
    } else if 97 <= d5 && d5 <= 102 {
        d5 - 87
    } else {
        return None;
    };
    let v: u32 = (c4 as u32 - 48) * 16 + lo;
    if v < 32 && v != 8 && v != 9 && v != 10 && v != 12 && v != 13 {
        let b: u8 = v as u8;
        let c = b as char;
        assert(c == (v as int) as char);
        Some((c, 6))
    } else {
        None
    }
}

/// Read the escaped contents of a JSON string literal in `t` from `start` up
/// to the closing quote: the text and the index of the quote.
pub(crate) fn unescape_from(t: &str, start: usize) -> (res: Option<(String, usize)>)
    requires
        start <= t@.len(),
    ensures
        match json_unescape_until_quote(t@.subrange(start as int, t@.len() as int)) {
            Some((d, j)) => res matches Some((x, e)) && x@ == d && e == start + j,
            None => res is None,
        },
{
    let n = t.unicode_len();
    let mut out = String::new();
    let mut i = start;
    loop
        invariant
            start <= i <= n,
            n == t@.len(),
            json_unescape_until_quote(t@.subrange(start as int, n as int)) == match json_unescape_until_quote(
                t@.subrange(i as int, n as int),
            ) {
                Some((d, j)) => Some((out@ + d, j + (i - start))),
                None => None,
            },
        decreases n - i,
    {
        let ghost u = t@.subrange(i as int, n as int);
        if i == n {
            assert(u.len() == 0);
            return None;
        }
        let c = t.get_char(i);
        assert(u[0] == c);
        if c == '"' {
            assert(out@ + Seq::<char>::empty() =~= out@);
            return Some((out, i));
        }
        match unescape_unit_at(t, i) {
            None => {
                return None;
            },
            Some((ch, k)) => {
                let ghost old_out = out@;
                assert(u.subrange(k as int, u.len() as int) =~= t@.subrange(i + k, n as int));
                push_char(&mut out, ch);
                proof {
                    match json_unescape_until_quote(t@.subrange(i + k, n as int)) {
                        Some((d, j)) => {
                            assert(old_out + (seq![ch] + d) =~= out@ + d);
                        },
                        None => {},
                    }
                }
                i = i + k;
            },
        }
    }
}

/// `std::str::from_utf8`: the bytes as text, when they are valid UTF-8 (as
/// the encoding of any characters is).
#[verifier::external_body]
pub(crate) fn str_from_utf8(bytes: &[u8]) -> (res: Option<&str>)
    ensures
        res matches Some(s) ==> encode_utf8(s@) == bytes@,
        (exists|c: Seq<char>| encode_utf8(c) == bytes@) ==> res is Some,
{
    std::str::from_utf8(bytes).ok()
}

// ---------------------------------------------------------------------------
// Debug rendering and case folding
// ---------------------------------------------------------------------------

/// The text `format!("{:?}", s)` gives for a string: quoted, with
/// `char::escape_debug` escapes.
pub uninterp spec fn debug_quoted(s: Seq<char>) -> Seq<char>;

/// `format!("{:?}", s)` for a `&str`; the contract names the result.
#[verifier::external_body]
pub(crate) fn debug_string(s: &str) -> (res: String)
    ensures
        res@ == debug_quoted(s@),
{
    format!("{:?}", s)
}

/// The text `str::to_lowercase` gives (Unicode lower-case mapping).
pub uninterp spec fn lowercase(s: Seq<char>) -> Seq<char>;

/// `str::to_lowercase`; the contract names the result.
#[verifier::external_body]
pub(crate) fn to_lowercase(s: &str) -> (res: String)
    ensures
        res@ == lowercase(s@),
{
    s.to_lowercase()
}

// ---------------------------------------------------------------------------
// Decimal parsing
// ---------------------------------------------------------------------------

/// Why a text is no unsigned integer, as `core::num::IntErrorKind` says it.
#[derive(Clone, Copy, Debug, PartialEq, Eq, Structural)]
pub enum IntErrorKind {
    /// The text is empty.
    Empty,
    /// A character is no decimal digit (a lone sign counts as one).
    InvalidDigit,
    /// The value exceeds the target type.
    PosOverflow,
}

/// What `ParseIntError`'s `Display` writes for each kind.
pub open spec fn int_error_text(k: IntErrorKind) -> Seq<char> {
    match k {
        IntErrorKind::Empty => "cannot parse integer from empty string"@,
        IntErrorKind::InvalidDigit => "invalid digit found in string"@,
        IntErrorKind::PosOverflow => "number too large to fit in target type"@,
    }
}

impl IntErrorKind {
    /// The message of this error, as `ParseIntError` displays it.
    pub fn message(&self) -> (res: &'static str)
        ensures
            res@ == int_error_text(*self),
    {
        match self {
            IntErrorKind::Empty => "cannot parse integer from empty string",
            IntErrorKind::InvalidDigit => "invalid digit found in string",
            IntErrorKind::PosOverflow => "number too large to fit in target type",
        }
    }
}

/// A decimal digit character.
pub open spec fn is_digit(c: char) -> bool {
    '0' <= c && c <= '9'
}

/// Reads digits of `s` from position `i` on, onto the value `acc`: the first
/// non-digit is an `InvalidDigit`, a value past `max` a `PosOverflow`,
/// whichever comes first.
pub open spec fn scan_decimal(s: Seq<char>, i: int, acc: int, max: int) -> Result<
    int,
    IntErrorKind,
>
    decreases s.len() - i,
{
    if i >= s.len() {
        Ok(acc)
    } else if !is_digit(s[i]) {
        Err(IntErrorKind::InvalidDigit)
    } else if acc * 10 + (s[i] as int - 48) > max {
        Err(IntErrorKind::PosOverflow)
    } else {
        scan_decimal(s, i + 1, acc * 10 + (s[i] as int - 48), max)
    }
}

/// `str::parse` for an unsigned type whose largest value is `max`: one
/// optional leading `+`, then at least one decimal digit.
pub open spec fn parse_unsigned(s: Seq<char>, max: int) -> Result<int, IntErrorKind> {
    if s.len() == 0 {
        Err(IntErrorKind::Empty)
    } else if s.len() == 1 && (s[0] == '+' || s[0] == '-') {
        Err(IntErrorKind::InvalidDigit)
    } else if s[0] == '+' {
        scan_decimal(s, 1, 0, max)
    } else {
        scan_decimal(s, 0, 0, max)
    }
}

proof fn lemma_scan_bounded(s: Seq<char>, i: int, acc: int, max: int)
    requires
        0 <= acc <= max,
    ensures
        scan_decimal(s, i, acc, max) matches Ok(v) ==> 0 <= v <= max,
    decreases s.len() - i,
{
    if i < s.len() && is_digit(s[i]) && acc * 10 + (s[i] as int - 48) <= max {
        lemma_scan_bounded(s, i + 1, acc * 10 + (s[i] as int - 48), max);
    }
}

/// Parses `s` as an unsigned decimal no larger than `max`, as `str::parse`
/// does for an unsigned type whose largest value is `max`.
pub fn parse_bounded(s: &str, max: u128) -> (res: Result<u128, IntErrorKind>)
    ensures
        match res {
            Ok(v) => parse_unsigned(s@, max as int) == Ok::<int, IntErrorKind>(v as int),
            Err(k) => parse_unsigned(s@, max as int) == Err::<int, IntErrorKind>(k),
        },
{
    let n = s.unicode_len();
    if n == 0 {
        return Err(IntErrorKind::Empty);
    }
    let first = s.get_char(0);
    if n == 1 && (first == '+' || first == '-') {
        return Err(IntErrorKind::InvalidDigit);
    }
    let mut i: usize = if first == '+' {
        1
    } else {
        0
    };
    let mut acc: u128 = 0;
    while i < n
        invariant
            i <= n,
            n == s@.len(),
            acc <= max,
            parse_unsigned(s@, max as int) == scan_decimal(s@, i as int, acc as int, max as int),
        decreases n - i,
    {
        let c = s.get_char(i);
        if !(c >= '0' && c <= '9') {
            return Err(IntErrorKind::InvalidDigit);
        }
        let d: u128 = ((c as u32) - 48) as u128;
        if d > max || acc > (max - d) / 10 {
            return Err(IntErrorKind::PosOverflow);
        }
        acc = acc * 10 + d;
        i = i + 1;
    }
    Ok(acc)
}

proof fn lemma_parse_bounded(s: Seq<char>, max: int)
    requires
        0 <= max,
    ensures
        parse_unsigned(s, max) matches Ok(v) ==> 0 <= v <= max,
{
    if s.len() > 0 {
        if s[0] == '+' {
            lemma_scan_bounded(s, 1, 0, max);
        } else {
            lemma_scan_bounded(s, 0, 0, max);
        }
    }
}

/// `s.parse::<u128>()`.
pub fn parse_u128(s: &str) -> (res: Result<u128, IntErrorKind>)
    ensures
        match res {
            Ok(v) => parse_unsigned(s@, u128::MAX as int) == Ok::<int, IntErrorKind>(v as int),
            Err(k) => parse_unsigned(s@, u128::MAX as int) == Err::<int, IntErrorKind>(k),
        },
{
    parse_bounded(s, u128::MAX)
}

/// `s.parse::<u64>()`.
pub fn parse_u64(s: &str) -> (res: Result<u64, IntErrorKind>)
    ensures
        match res {
            Ok(v) => parse_unsigned(s@, u64::MAX as int) == Ok::<int, IntErrorKind>(v as int),
            Err(k) => parse_unsigned(s@, u64::MAX as int) == Err::<int, IntErrorKind>(k),
        },
{
    proof {
        lemma_parse_bounded(s@, u64::MAX as int);
    }
    match parse_bounded(s, u64::MAX as u128) {
        Ok(v) => Ok(v as u64),
        Err(k) => Err(k),
    }
}

/// `s.parse::<u32>()`.
pub fn parse_u32(s: &str) -> (res: Result<u32, IntErrorKind>)
    ensures
        match res {
            Ok(v) => parse_unsigned(s@, u32::MAX as int) == Ok::<int, IntErrorKind>(v as int),
            Err(k) => parse_unsigned(s@, u32::MAX as int) == Err::<int, IntErrorKind>(k),
        },
{
    proof {
        lemma_parse_bounded(s@, u32::MAX as int);
    }
    match parse_bounded(s, u32::MAX as u128) {
        Ok(v) => Ok(v as u32),
        Err(k) => Err(k),
    }
}

// ---------------------------------------------------------------------------
// String tests
// ---------------------------------------------------------------------------

/// `a == b` for two strings.
pub fn str_eq(a: &str, b: &str) -> (res: bool)
    ensures
        res == (a@ == b@),
{
    let n = a.unicode_len();
    if n != b.unicode_len() {
        return false;
    }
    let mut i: usize = 0;
    while i < n
        invariant
            i <= n,
            n == a@.len(),
            n == b@.len(),
            a@.subrange(0, i as int) == b@.subrange(0, i as int),
        decreases n - i,
    {
        if a.get_char(i) != b.get_char(i) {
            assert(a@[i as int] != b@[i as int]);
            return false;
        }
        assert(a@.subrange(0, i + 1) == a@.subrange(0, i as int).push(a@[i as int]));
        assert(b@.subrange(0, i + 1) == b@.subrange(0, i as int).push(b@[i as int]));
        i = i + 1;
    }
    assert(a@ == a@.subrange(0, n as int));
    assert(b@ == b@.subrange(0, n as int));
    true
}

/// `s.starts_with(prefix)`.
pub fn starts_with(s: &str, prefix: &str) -> (res: bool)
    ensures
        res == (prefix@.len() <= s@.len() && s@.subrange(0, prefix@.len() as int) == prefix@),
{
    let n = prefix.unicode_len();
    if n > s.unicode_len() {
        return false;
    }
    let mut i: usize = 0;
    while i < n
        invariant
            i <= n,
            n == prefix@.len(),
            n <= s@.len(),
            s@.subrange(0, i as int) == prefix@.subrange(0, i as int),
        decreases n - i,
    {
        if s.get_char(i) != prefix.get_char(i) {
            assert(s@.subrange(0, n as int)[i as int] != prefix@[i as int]);
            return false;
        }
        assert(s@.subrange(0, i + 1) == s@.subrange(0, i as int).push(s@[i as int]));
        assert(prefix@.subrange(0, i + 1) == prefix@.subrange(0, i as int).push(prefix@[i as int]));
        i = i + 1;
    }
    assert(prefix@ == prefix@.subrange(0, n as int));
    true
}

/// `s.contains(c)` for a character.
pub fn contains_char(s: &str, c: char) -> (res: bool)
    ensures
        res == s@.contains(c),
{
    let n = s.unicode_len();
    let mut i: usize = 0;
    while i < n
        invariant
            i <= n,
            n == s@.len(),
            forall|j: int| 0 <= j < i ==> s@[j] != c,
        decreases n - i,
    {
        if s.get_char(i) == c {
            assert(s@[i as int] == c);
            return true;
        }
        i = i + 1;
    }
    assert(!s@.contains(c));
    false
}

/// The text after the last `c` in `s`, or all of `s` where `c` does not
/// occur: the first item of `s.rsplit(c)`.
pub open spec fn after_last(s: Seq<char>, c: char) -> Seq<char> {
    if s.contains(c) {
        let k = choose|k: int| 0 <= k < s.len() && s[k] == c && forall|j: int| k < j < s.len() ==> s[j] != c;
        s.subrange(k + 1, s.len() as int)
    } else {
        s
    }
}

/// The first item of `s.rsplit(c)`: what follows the last `c`.
pub fn last_segment(s: &str, c: char) -> (res: &str)
    ensures
        res@ == after_last(s@, c),
{
    let n = s.unicode_len();
    let mut i: usize = n;
    while i > 0
        invariant
            i <= n,
            n == s@.len(),
            forall|j: int| i <= j < n ==> s@[j] != c,
        decreases i,
    {
        if s.get_char(i - 1) == c {
            proof {
                let k = (i - 1) as int;
                assert(0 <= k < s@.len() && s@[k] == c && forall|j: int| k < j < s@.len() ==> s@[j] != c);
                assert(s@.contains(c));
                let kk = choose|k: int|
                    0 <= k < s@.len() && s@[k] == c && forall|j: int| k < j < s@.len() ==> s@[j] != c;
                assert(kk == k) by {
                    if kk < k {
                        assert(s@[k] != c);
                    } else if kk > k {
                        assert(s@[kk] != c);
                    }
                }
            }
            return s.substring_char(i, n);
        }
        i = i - 1;
    }
    assert(!s@.contains(c));
    assert(s@.subrange(0, n as int) == s@);
    s.substring_char(0, n)
}

} // verus!
