use app_core::audiodb::music_video_search_url;
use app_core::encoding::{html_escape, parse_u16, to_decimal, to_lower_hex};
use app_core::lyrics::lrclib_search_url;

#[test]
fn search_url_percent_encodes_artist_and_title() {
    let url = music_video_search_url("Hello World!", "AC/DC").unwrap();
    assert_eq!(
        url,
        "https://www.theaudiodb.com/api/v1/json/123/searchtrack.php?s=AC%2FDC&t=Hello%20World%21"
    );
}

#[test]
fn search_url_keeps_unreserved_characters() {
    let url = music_video_search_url("a-b_c.d~e", "Z9").unwrap();
    assert!(url.ends_with("?s=Z9&t=a-b_c.d~e"));
}

#[test]
fn url_encoding_uses_utf8_bytes() {
    let url = lrclib_search_url("café", "Björk", None);
    assert_eq!(
        url,
        "https://lrclib.net/api/search?track_name=caf%C3%A9&artist_name=Bj%C3%B6rk"
    );
}

#[test]
fn html_escape_replaces_markup_characters() {
    assert_eq!(
        html_escape("<a href=\"x\">Tom & Jerry's</a>"),
        "&lt;a href=&quot;x&quot;&gt;Tom &amp; Jerry&#39;s&lt;/a&gt;"
    );
    assert_eq!(html_escape("plain text"), "plain text");
    assert_eq!(html_escape(""), "");
}

#[test]
fn html_escaped_text_has_no_markup_characters() {
    let out = html_escape("<script>alert('x' & \"y\")</script>");
    assert!(!out.contains('<'));
    assert!(!out.contains('>'));
    assert!(!out.contains('"'));
    assert!(!out.contains('\''));
}

#[test]
fn lower_hex_formats_like_std() {
    assert_eq!(to_lower_hex(0), "0");
    assert_eq!(to_lower_hex(255), "ff");
    assert_eq!(to_lower_hex(4096), "1000");
    let big: u128 = 0x17f3_a2b4_c5d6_e7f8;
    assert_eq!(to_lower_hex(big), format!("{big:x}"));
}

#[test]
fn decimal_formats_like_std() {
    assert_eq!(to_decimal(0), "0");
    assert_eq!(to_decimal(8080), "8080");
    assert_eq!(to_decimal(u64::MAX), u64::MAX.to_string());
}

#[test]
fn parse_u16_follows_from_str() {
    assert_eq!(parse_u16("8080"), Some(8080));
    assert_eq!(parse_u16("+80"), Some(80));
    assert_eq!(parse_u16("0"), Some(0));
    assert_eq!(parse_u16("65535"), Some(65535));
    assert_eq!(parse_u16("65536"), None);
    assert_eq!(parse_u16("-1"), None);
    assert_eq!(parse_u16(""), None);
    assert_eq!(parse_u16("+"), None);
    assert_eq!(parse_u16("80a"), None);
    assert_eq!(parse_u16(" 80"), None);
    for s in ["1", "+7", "00012", "99999", "-0", "x", "123456789"] {
        assert_eq!(parse_u16(s), s.parse::<u16>().ok(), "input {s:?}");
    }
}
