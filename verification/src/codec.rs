//! Encodings the client relies on: Base64 (for the login token), URL
//! percent-encoding, regular-expression capture and lower-casing.  Each is
//! computed by an outside implementation behind a wrapper whose contract
//! states the result.
use vstd::prelude::*;
use vstd::utf8::encode_utf8;
use crate::text::occurs_at;

verus! {

// ── Base64 ───────────────────────────────────────────────────────────────

/// The standard Base64 alphabet (RFC 4648, table 1).
pub open spec fn base64_alphabet() -> Seq<char> {
    seq![
        'A', 'B', 'C', 'D', 'E', 'F', 'G', 'H', 'I', 'J', 'K', 'L', 'M', 'N', 'O', 'P',
        'Q', 'R', 'S', 'T', 'U', 'V', 'W', 'X', 'Y', 'Z', 'a', 'b', 'c', 'd', 'e', 'f',
        'g', 'h', 'i', 'j', 'k', 'l', 'm', 'n', 'o', 'p', 'q', 'r', 's', 't', 'u', 'v',
        'w', 'x', 'y', 'z', '0', '1', '2', '3', '4', '5', '6', '7', '8', '9', '+', '/',
    ]
}

/// Standard padded Base64 of `data`: every three bytes become four
/// characters; a final one or two bytes are padded with `=`.
pub open spec fn base64_standard(data: Seq<u8>) -> Seq<char>
    decreases data.len(),
{
    let abc = base64_alphabet();
    if data.len() == 0 {
        seq![]
    } else if data.len() == 1 {
        let a = data[0] as int;
        seq![abc[a / 4], abc[(a % 4) * 16], '=', '=']
    } else if data.len() == 2 {
        let a = data[0] as int;
        let b = data[1] as int;
        seq![abc[a / 4], abc[(a % 4) * 16 + b / 16], abc[(b % 16) * 4], '=']
    } else {
        let a = data[0] as int;
        let b = data[1] as int;
        let c = data[2] as int;
        seq![abc[a / 4], abc[(a % 4) * 16 + b / 16], abc[(b % 16) * 4 + c / 64], abc[c % 64]]
            + base64_standard(data.subrange(3, data.len() as int))
    }
}

/// Standard padded Base64 of `data`, computed by the `base64` crate's
/// `general_purpose::STANDARD` engine.  The contract claims that the engine
/// produces exactly `base64_standard(data)`.
#[verifier::external_body]
pub(crate) fn base64_encode(data: &[u8]) -> (res: String)
    ensures
        res@ == base64_standard(data@),
{
    base64::Engine::encode(&base64::engine::general_purpose::STANDARD, data)
}

// ── URL percent-encoding ─────────────────────────────────────────────────

/// Bytes that percent-encoding leaves as they are: ASCII letters, digits,
/// `-`, `.`, `_` and `~`.
pub open spec fn is_unreserved(b: u8) -> bool {
    (0x30 <= b <= 0x39) || (0x41 <= b <= 0x5A) || (0x61 <= b <= 0x7A) || b == 0x2D || b == 0x2E
        || b == 0x5F || b == 0x7E
}

/// Upper-case hexadecimal digits.
pub open spec fn hex_upper() -> Seq<char> {
    seq!['0', '1', '2', '3', '4', '5', '6', '7', '8', '9', 'A', 'B', 'C', 'D', 'E', 'F']
}

/// Each unreserved byte as its character, every other byte as `%XY`.
pub open spec fn percent_encoded(bytes: Seq<u8>) -> Seq<char>
    decreases bytes.len(),
{
    if bytes.len() == 0 {
        seq![]
    } else {
        let b = bytes[0];
        (if is_unreserved(b) {
            seq![b as char]
        } else {
            seq!['%', hex_upper()[(b / 16) as int], hex_upper()[(b % 16) as int]]
        }) + percent_encoded(bytes.subrange(1, bytes.len() as int))
    }
}

/// The value of a hexadecimal digit (either case); 0 for anything else.
pub open spec fn hex_value(c: char) -> int {
    if '0' <= c <= '9' {
        c as int - '0' as int
    } else if 'A' <= c <= 'F' {
        c as int - 'A' as int + 10
    } else if 'a' <= c <= 'f' {
        c as int - 'a' as int + 10
    } else {
        0
    }
}

/// Percent-decoding: each `%XY` becomes the byte `0xXY`, every other
/// character the byte of its code.
pub open spec fn percent_decoded(s: Seq<char>) -> Seq<u8>
    decreases s.len(),
{
    if s.len() == 0 {
        seq![]
    } else if s[0] == '%' && s.len() >= 3 {
        seq![(hex_value(s[1]) * 16 + hex_value(s[2])) as u8] + percent_decoded(
            s.subrange(3, s.len() as int),
        )
    } else {
        seq![s[0] as u8] + percent_decoded(s.subrange(1, s.len() as int))
    }
}

proof fn lemma_hex_digit(i: int)
    requires
        0 <= i < 16,
    ensures
        hex_value(hex_upper()[i]) == i,
{
    assert(hex_upper()[i] == hex_upper()[i]);
    if i == 0 { assert(hex_upper()[0] == '0'); }
    else if i == 1 { assert(hex_upper()[1] == '1'); }
    else if i == 2 { assert(hex_upper()[2] == '2'); }
    else if i == 3 { assert(hex_upper()[3] == '3'); }
    else if i == 4 { assert(hex_upper()[4] == '4'); }
    else if i == 5 { assert(hex_upper()[5] == '5'); }
    else if i == 6 { assert(hex_upper()[6] == '6'); }
    else if i == 7 { assert(hex_upper()[7] == '7'); }
    else if i == 8 { assert(hex_upper()[8] == '8'); }
    else if i == 9 { assert(hex_upper()[9] == '9'); }
    else if i == 10 { assert(hex_upper()[10] == 'A'); }
    else if i == 11 { assert(hex_upper()[11] == 'B'); }
    else if i == 12 { assert(hex_upper()[12] == 'C'); }
    else if i == 13 { assert(hex_upper()[13] == 'D'); }
    else if i == 14 { assert(hex_upper()[14] == 'E'); }
    else { assert(hex_upper()[15] == 'F'); }
}

/// Percent-decoding undoes percent-encoding: every byte comes back.
pub proof fn law_percent_round_trip(bytes: Seq<u8>)
    ensures
        percent_decoded(percent_encoded(bytes)) == bytes,
    decreases bytes.len(),
{
    if bytes.len() > 0 {
        let b = bytes[0];
        let rest = bytes.subrange(1, bytes.len() as int);
        law_percent_round_trip(rest);
        let tail = percent_encoded(rest);
        let s = percent_encoded(bytes);
        if is_unreserved(b) {
            let piece = seq![b as char];
            assert(s == piece + tail);
            assert(s[0] == b as char);
            assert((b as char) != '%');
            assert(s.subrange(1, s.len() as int) =~= tail);
            assert((b as char) as u8 == b);
        } else {
            let piece = seq!['%', hex_upper()[(b / 16) as int], hex_upper()[(b % 16) as int]];
            assert(s == piece + tail);
            assert(s[0] == '%');
            assert(s[1] == hex_upper()[(b / 16) as int]);
            assert(s[2] == hex_upper()[(b % 16) as int]);
            lemma_hex_digit((b / 16) as int);
            lemma_hex_digit((b % 16) as int);
            assert(s.subrange(3, s.len() as int) =~= tail);
            assert((b / 16) * 16 + b % 16 == b);
        }
        assert(percent_decoded(s) =~= seq![b] + rest);
        assert(seq![b] + rest =~= bytes);
    } else {
        assert(percent_encoded(bytes) =~= Seq::<char>::empty());
        assert(bytes =~= Seq::<u8>::empty());
    }
}

/// Percent-encodes the UTF-8 bytes of `s` with `urlencoding::encode`.  The
/// contract claims that it encodes every byte but the unreserved ones as an
/// upper-case `%XY`, as that crate's source does.
#[verifier::external_body]
pub(crate) fn url_encode(s: &str) -> (res: String)
    ensures
        res@ == percent_encoded(encode_utf8(s@)),
{
    urlencoding::encode(s).into_owned()
}

// ── regular expressions ──────────────────────────────────────────────────

/// The text of capture group 1 in the leftmost match of the regular
/// expression `pattern` in `haystack`, if the pattern compiles, matches and
/// the group takes part in the match.
pub uninterp spec fn regex_first_group(pattern: Seq<char>, haystack: Seq<char>) -> Option<Seq<char>>;

/// Capture group 1 of the leftmost match of `pattern` in `haystack`, by the
/// `regex` crate (`Regex::new`, `captures`, `get(1)`).  The contract names the
/// result and adds only what that crate documents of a match: its text is a
/// piece of the haystack.
#[verifier::external_body]
pub(crate) fn first_capture(pattern: &str, haystack: &str) -> (res: Option<String>)
    ensures
        match res {
            Some(g) => regex_first_group(pattern@, haystack@) == Some(g@),
            None => regex_first_group(pattern@, haystack@) is None,
        },
        res matches Some(g) ==> exists|i: int| #[trigger] occurs_at(haystack@, g@, i),
{
    let re = regex::Regex::new(pattern).ok()?;
    let caps = re.captures(haystack)?;
    Some(caps.get(1)?.as_str().to_string())
}

// ── case mapping ─────────────────────────────────────────────────────────

/// The Unicode lower-case mapping of `s` (what `str::to_lowercase` returns).
pub uninterp spec fn lowercase(s: Seq<char>) -> Seq<char>;

/// `str::to_lowercase` of std.  The contract only names the result.
#[verifier::external_body]
pub(crate) fn to_lowercase(s: &str) -> (res: String)
    ensures
        res@ == lowercase(s@),
{
    s.to_lowercase()
}

} // verus!
