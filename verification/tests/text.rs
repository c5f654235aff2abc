//! Texts: held against the standard library.
use partiri::json::{set_member, take_member, Json, Member};
use partiri::jsonc::{json_opt_str, json_str};
use partiri::text::{
    comes_before, contains_str, decimal, ends_with, is_ascii_alnum, is_control,
    is_whitespace, join_strings, len_in_bytes, len_utf16, len_utf8, parse_number, starts_with,
    to_ascii_lowercase, trim,
};

fn every_char() -> impl Iterator<Item = char> {
    (0..=0x10ffff_u32).filter_map(char::from_u32)
}

#[test]
fn character_classes_are_those_of_the_standard_library() {
    for c in every_char() {
        assert_eq!(is_whitespace(c), c.is_whitespace(), "{c:?}");
        assert_eq!(is_control(c), c.is_control(), "{c:?}");
        assert_eq!(is_ascii_alnum(c), c.is_ascii_alphanumeric(), "{c:?}");
    }
}

#[test]
fn widths_are_those_of_the_standard_library() {
    for c in every_char() {
        assert_eq!(len_utf8(c), c.len_utf8());
        assert_eq!(len_utf16(c), c.len_utf16());
    }
}

const SAMPLES: [&str; 10] =
    ["", " ", "abc", " a b ", "\u{2003}é\n", "ÀÉ", "aA-z", "💡💡", "\t\t", "aab"];

#[test]
fn texts_are_searched_and_cut_like_the_standard_library() {
    for a in SAMPLES {
        assert_eq!(trim(a), a.trim());
        assert_eq!(to_ascii_lowercase(a), a.to_ascii_lowercase());
        assert_eq!(len_in_bytes(a), a.len());
        for b in SAMPLES {
            assert_eq!(contains_str(a, b), a.contains(b), "{a:?} {b:?}");
            assert_eq!(starts_with(a, b), a.starts_with(b), "{a:?} {b:?}");
            assert_eq!(ends_with(a, b), a.ends_with(b), "{a:?} {b:?}");
            assert_eq!(comes_before(a, b), a < b, "{a:?} {b:?}");
        }
    }
    let parts: Vec<String> = SAMPLES.iter().map(|s| s.to_string()).collect();
    assert_eq!(join_strings(&parts, ", "), SAMPLES.join(", "));
}

#[test]
fn numbers_are_read_and_written_like_the_standard_library() {
    for n in [0, 7, 10, 99, 12345, u64::MAX] {
        assert_eq!(decimal(n), n.to_string());
        assert_eq!(parse_number(&n.to_string(), u64::MAX), Some(n));
    }
    for s in ["", "+", "+7", "-1", "007", "1a", " 1", "18446744073709551616", "65535", "65536"] {
        assert_eq!(parse_number(s, u64::MAX), s.parse::<u64>().ok(), "{s:?}");
        assert_eq!(parse_number(s, 65535), s.parse::<u16>().ok().map(u64::from), "{s:?}");
    }
}

#[test]
fn strings_are_quoted_as_json() {
    for s in ["", "plain", "a\"b\\c", "line\nbreak\t\u{1}", "é💡"] {
        let quoted = json_str(s);
        assert_eq!(serde_json::from_str::<String>(&quoted).unwrap(), s);
    }
    assert_eq!(json_str("a\"b"), "\"a\\\"b\"");
    assert_eq!(json_opt_str(&None), "null");
}

#[test]
fn members_are_set_and_taken() {
    let mut m: Vec<Member> = Vec::new();
    set_member(&mut m, "a", Json::num(1));
    set_member(&mut m, "b", Json::str("x"));
    set_member(&mut m, "a", Json::num(2));
    assert_eq!(m.len(), 2);
    assert!(matches!(take_member(&mut m, "a"), Some(Json::Num(n)) if n == "2"));
    assert!(take_member(&mut m, "a").is_none());
    let rest = Json::Obj(m);
    assert_eq!(rest.get_str("b"), Some("x"));
    assert!(rest.get("a").is_none());
    assert!(Json::Null.get("a").is_none());
    assert_eq!(Json::str("s").as_str(), Some("s"));
    assert!(Json::Bool(true).as_str().is_none());
}
