//! Text encodings the library writes: URL percent-encoding (through the
//! `urlencoding` crate), HTML escaping, lower-case hexadecimal and decimal
//! numbers, and parsing a port number.

use vstd::prelude::*;
use vstd::utf8::encode_utf8;

use crate::text::chars_of;

verus! {

/// Bytes `urlencoding` leaves as they are: ASCII letters, digits and
/// `-`, `.`, `_`, `~`.
pub open spec fn is_unreserved(b: u8) -> bool {
    ||| (0x30 <= b && b <= 0x39)
    ||| (0x41 <= b && b <= 0x5A)
    ||| (0x61 <= b && b <= 0x7A)
    ||| b == 0x2D
    ||| b == 0x2E
    ||| b == 0x5F
    ||| b == 0x7E
}

/// An upper-case hexadecimal digit.
pub open spec fn hex_upper(d: int) -> char {
    if d < 10 {
        (0x30 + d) as char
    } else {
        (0x41 - 10 + d) as char
    }
}

/// One byte percent-encoded: itself when unreserved, else `%XX`.
pub open spec fn percent_encode_byte(b: u8) -> Seq<char> {
    if is_unreserved(b) {
        seq![b as char]
    } else {
        seq!['%', hex_upper((b / 16) as int), hex_upper((b % 16) as int)]
    }
}

/// Every byte percent-encoded, in order.
pub open spec fn percent_encode(bytes: Seq<u8>) -> Seq<char>
    decreases bytes.len(),
{
    if bytes.len() == 0 {
        Seq::empty()
    } else {
        percent_encode_byte(bytes[0]) + percent_encode(bytes.drop_first())
    }
}

/// `urlencoding::encode`: percent-encodes every byte of the UTF-8 encoding
/// of `s` except ASCII letters, digits and `-`, `.`, `_`, `~`, with
/// upper-case hexadecimal digits.
#[verifier::external_body]
pub(crate) fn url_encode(s: &str) -> (r: String)
    ensures
        r@ == percent_encode(encode_utf8(s@)),
{
    urlencoding::encode(s).into_owned()
}

/// The HTML entity for one character, or the character itself.
pub open spec fn html_escape_char(c: char) -> Seq<char> {
    if c == '&' {
        "&amp;"@
    } else if c == '<' {
        "&lt;"@
    } else if c == '>' {
        "&gt;"@
    } else if c == '"' {
        "&quot;"@
    } else if c == '\'' {
        "&#39;"@
    } else {
        seq![c]
    }
}

/// `s` with `&`, `<`, `>`, `"` and `'` replaced by their entities.
pub open spec fn html_escaped(s: Seq<char>) -> Seq<char>
    decreases s.len(),
{
    if s.len() == 0 {
        Seq::empty()
    } else {
        html_escaped(s.drop_last()) + html_escape_char(s.last())
    }
}

/// Escapes `s` for interpolation into HTML text or a quoted attribute.
pub fn html_escape(s: &str) -> (r: String)
    ensures
        r@ == html_escaped(s@),
{
    let cs = chars_of(s);
    let mut out = String::new();
    let mut i: usize = 0;
    while i < cs.len()
        invariant
            cs@ == s@,
            i <= cs@.len(),
            out@ == html_escaped(s@.subrange(0, i as int)),
        decreases cs@.len() - i,
    {
        let c = cs[i];
        assert(s@.subrange(0, i + 1).drop_last() =~= s@.subrange(0, i as int));
        if c == '&' {
            out = out.concat("&amp;");
        } else if c == '<' {
            out = out.concat("&lt;");
        } else if c == '>' {
            out = out.concat("&gt;");
        } else if c == '"' {
            out = out.concat("&quot;");
        } else if c == '\'' {
            out = out.concat("&#39;");
        } else {
            out.push(c);
            assert(seq![c] =~= html_escape_char(c));
        }
        i = i + 1;
    }
    assert(s@.subrange(0, s@.len() as int) =~= s@);
    out
}

/// Characters that would end or break out of HTML text or a quoted
/// attribute.
pub open spec fn is_markup(c: char) -> bool {
    c == '<' || c == '>' || c == '"' || c == '\''
}

proof fn lemma_entity_has_no_markup(c: char)
    ensures
        forall|i: int| 0 <= i < html_escape_char(c).len() ==> !is_markup(#[trigger] html_escape_char(c)[i]),
{
    reveal_strlit("&amp;");
    reveal_strlit("&lt;");
    reveal_strlit("&gt;");
    reveal_strlit("&quot;");
    reveal_strlit("&#39;");
}

/// Escaped text holds no `<`, `>`, `"` or `'`: interpolated into the page
/// it can neither open a tag nor close the attribute it sits in.
pub proof fn lemma_html_escaped_has_no_markup(s: Seq<char>)
    ensures
        forall|i: int| 0 <= i < html_escaped(s).len() ==> !is_markup(#[trigger] html_escaped(s)[i]),
    decreases s.len(),
{
    if s.len() > 0 {
        lemma_html_escaped_has_no_markup(s.drop_last());
        lemma_entity_has_no_markup(s.last());
        let p = html_escaped(s.drop_last());
        let e = html_escape_char(s.last());
        assert forall|i: int| 0 <= i < html_escaped(s).len() implies !is_markup(
            #[trigger] html_escaped(s)[i],
        ) by {
            if i < p.len() {
                assert(html_escaped(s)[i] == p[i]);
            } else {
                assert(html_escaped(s)[i] == e[i - p.len()]);
            }
        }
    }
}

/// Characters percent-encoding can produce: unreserved ones, `%` and
/// upper-case hexadecimal digits.
pub open spec fn is_url_safe(c: char) -> bool {
    ||| ('0' <= c && c <= '9')
    ||| ('A' <= c && c <= 'Z')
    ||| ('a' <= c && c <= 'z')
    ||| c == '-'
    ||| c == '.'
    ||| c == '_'
    ||| c == '~'
    ||| c == '%'
}

/// Percent-encoded text only holds URL-safe characters, so an encoded
/// value can't end its query parameter (`&`, `=`, `#`) or the path (`/`,
/// `?`).
pub proof fn lemma_percent_encoded_is_url_safe(bytes: Seq<u8>)
    ensures
        forall|i: int| 0 <= i < percent_encode(bytes).len() ==> is_url_safe(#[trigger] percent_encode(bytes)[i]),
    decreases bytes.len(),
{
    if bytes.len() > 0 {
        lemma_percent_encoded_is_url_safe(bytes.drop_first());
        let b = bytes[0];
        let e = percent_encode_byte(b);
        let rest = percent_encode(bytes.drop_first());
        assert forall|j: int| 0 <= j < e.len() implies is_url_safe(#[trigger] e[j]) by {
            if !is_unreserved(b) {
                assert(0 <= b / 16 < 16);
                assert(0 <= b % 16 < 16);
            }
        }
        assert forall|i: int| 0 <= i < percent_encode(bytes).len() implies is_url_safe(
            #[trigger] percent_encode(bytes)[i],
        ) by {
            if i < e.len() {
                assert(percent_encode(bytes)[i] == e[i]);
            } else {
                assert(percent_encode(bytes)[i] == rest[i - e.len()]);
            }
        }
    }
}

/// A lower-case hexadecimal digit.
pub open spec fn hex_lower(d: int) -> char {
    if d < 10 {
        (0x30 + d) as char
    } else {
        (0x61 - 10 + d) as char
    }
}

/// `n` in lower-case hexadecimal, without leading zeros (`{:x}`).
pub open spec fn lower_hex(n: nat) -> Seq<char>
    decreases n,
{
    if n < 16 {
        seq![hex_lower(n as int)]
    } else {
        lower_hex(n / 16).push(hex_lower((n % 16) as int))
    }
}

fn hex_digit_char(d: u8) -> (c: char)
    requires
        d < 16,
    ensures
        c == hex_lower(d as int),
{
    if d < 10 {
        ((0x30u8 + d) as char)
    } else {
        ((0x61u8 - 10 + d) as char)
    }
}

/// `n` formatted as `{:x}`.
pub fn to_lower_hex(n: u128) -> (r: String)
    ensures
        r@ == lower_hex(n as nat),
    decreases n,
{
    if n < 16 {
        let mut s = String::new();
        s.push(hex_digit_char(n as u8));
        assert(s@ =~= seq![hex_lower(n as int)]);
        s
    } else {
        let mut s = to_lower_hex(n / 16);
        s.push(hex_digit_char((n % 16) as u8));
        s
    }
}

/// `n` in decimal, without leading zeros.
pub open spec fn decimal(n: nat) -> Seq<char>
    decreases n,
{
    if n < 10 {
        seq![(0x30 + n) as char]
    } else {
        decimal(n / 10).push((0x30 + n % 10) as char)
    }
}

/// `n` formatted as `{}`.
pub fn to_decimal(n: u64) -> (r: String)
    ensures
        r@ == decimal(n as nat),
    decreases n,
{
    if n < 10 {
        let mut s = String::new();
        s.push(((0x30u8 + n as u8) as char));
        assert(s@ =~= seq![(0x30 + n) as char]);
        s
    } else {
        let mut s = to_decimal(n / 10);
        s.push(((0x30u8 + (n % 10) as u8) as char));
        s
    }
}

/// An ASCII decimal digit.
pub open spec fn is_digit(c: char) -> bool {
    '0' <= c && c <= '9'
}

/// The value of a string of decimal digits.
pub open spec fn digits_value(s: Seq<char>) -> nat
    decreases s.len(),
{
    if s.len() == 0 {
        0
    } else {
        digits_value(s.drop_last()) * 10 + ((s.last() as int) - 0x30) as nat
    }
}

/// `s` without a leading `+`.
pub open spec fn sign_stripped(s: Seq<char>) -> Seq<char> {
    if s.len() > 0 && s[0] == '+' {
        s.drop_first()
    } else {
        s
    }
}

/// Every character is a decimal digit.
pub open spec fn all_digits(d: Seq<char>) -> bool {
    forall|i: int| 0 <= i < d.len() ==> is_digit(#[trigger] d[i])
}

/// What `u16::from_str` gives: an optional `+` and then one or more
/// digits whose value fits in a `u16`; anything else is an error.
pub open spec fn parsed_u16(s: Seq<char>) -> Option<u16> {
    let d = sign_stripped(s);
    if d.len() > 0 && all_digits(d) && digits_value(d) < 0x10000 {
        Some(digits_value(d) as u16)
    } else {
        None
    }
}

/// Parses a port number as `u16::from_str` does.
pub fn parse_u16(s: &str) -> (r: Option<u16>)
    ensures
        r == parsed_u16(s@),
{
    let cs = chars_of(s);
    let start: usize = if cs.len() > 0 && cs[0] == '+' {
        1
    } else {
        0
    };
    let ghost d = sign_stripped(s@);
    assert(d =~= s@.subrange(start as int, s@.len() as int));
    if start >= cs.len() {
        return None;
    }
    let mut value: u32 = 0;
    let mut i: usize = start;
    while i < cs.len()
        invariant
            cs@ == s@,
            start <= i <= cs@.len(),
            d == s@.subrange(start as int, s@.len() as int),
            d == sign_stripped(s@),
            forall|k: int| 0 <= k < i - start ==> is_digit(#[trigger] d[k]),
            value == digits_value(d.subrange(0, i - start)),
            value < 0x10000,
        decreases cs@.len() - i,
    {
        let c = cs[i];
        assert(d[i - start] == c);
        if !('0' <= c && c <= '9') {
            assert(!is_digit(d[i - start]));
            assert(!all_digits(d));
            return None;
        }
        let ghost pre = d.subrange(0, i - start);
        let ghost post = d.subrange(0, i - start + 1);
        assert(post.drop_last() =~= pre);
        let digit = (c as u32) - 0x30;
        let next = value * 10 + digit;
        assert(next == digits_value(post));
        if next >= 0x10000 {
            proof {
                if all_digits(d) {
                    lemma_digits_value_grows(d, i - start + 1);
                }
            }
            return None;
        }
        value = next;
        i = i + 1;
    }
    assert(d.subrange(0, d.len() as int) =~= d);
    Some(value as u16)
}

/// A longer digit string is worth at least as much as its prefix.
proof fn lemma_digits_value_grows(d: Seq<char>, n: int)
    requires
        0 <= n <= d.len(),
        all_digits(d),
    ensures
        digits_value(d.subrange(0, n)) <= digits_value(d),
    decreases d.len() - n,
{
    if n < d.len() {
        lemma_digits_value_grows(d, n + 1);
        let p = d.subrange(0, n + 1);
        assert(p.drop_last() =~= d.subrange(0, n));
        assert(is_digit(d[n]));
    } else {
        assert(d.subrange(0, n) =~= d);
    }
}

/// What `format!("{:?}", s)` gives for a string: it quoted, with the
/// escapes `Debug` uses.
pub uninterp spec fn debug_quoted(s: Seq<char>) -> Seq<char>;

/// `format!("{:?}", s)` on a string (std's `Debug` for `str`). Its contract
/// claims only that the result is `debug_quoted` of the argument: that the
/// same string always gives the same text. The escaping rules themselves
/// are left unsaid.
#[verifier::external_body]
pub(crate) fn quoted(s: &str) -> (r: String)
    ensures
        r@ == debug_quoted(s@),
{
    format!("{s:?}")
}

} // verus!
