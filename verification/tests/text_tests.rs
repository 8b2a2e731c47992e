use pibot::info::info_fields;
use pibot::json::{parse_json, Json};
use pibot::text::{contains_sub, i64_to_string, str_eq, to_lower, u64_to_string};
use pibot::weather::canonical_number;

#[test]
fn lowercasing_touches_ascii_letters_only() {
    assert_eq!(to_lower("London"), "london");
    assert_eq!(to_lower("GB-42!"), "gb-42!");
    assert_eq!(to_lower(""), "");
}

#[test]
fn string_equality_is_character_exact() {
    assert!(str_eq("abc", "abc"));
    assert!(!str_eq("abc", "abd"));
    assert!(!str_eq("abc", "ab"));
    assert!(str_eq("", ""));
}

#[test]
fn substring_search_finds_inner_occurrences() {
    assert!(contains_sub("london", "lon"));
    assert!(contains_sub("london", "don"));
    assert!(contains_sub("london", ""));
    assert!(!contains_sub("london", "LON"));
    assert!(!contains_sub("lo", "lon"));
}

#[test]
fn integers_render_in_decimal() {
    assert_eq!(u64_to_string(0), "0");
    assert_eq!(u64_to_string(907), "907");
    assert_eq!(u64_to_string(u64::MAX), "18446744073709551615");
    assert_eq!(i64_to_string(-907), "-907");
    assert_eq!(i64_to_string(0), "0");
    assert_eq!(i64_to_string(i64::MIN), "-9223372036854775808");
}

#[test]
fn empty_containers_parse() {
    assert!(matches!(parse_json(" { } "), Some(Json::Obj(f)) if f.is_empty()));
    assert!(matches!(parse_json("[]"), Some(Json::Arr(i)) if i.is_empty()));
}

#[test]
fn remaining_escapes_unescape() {
    match parse_json("\"\\/\\b\\f\\r\"").unwrap() {
        Json::Str(t) => assert_eq!(t, "/\u{8}\u{c}\r"),
        _ => panic!("expected a string"),
    }
}

#[test]
fn canonical_zero_keeps_one_digit() {
    assert_eq!(canonical_number("0.000"), "0");
    assert_eq!(canonical_number("10.010"), "10.01");
}

#[test]
fn uptime_older_than_the_clock_saturates() {
    let fields = info_fields(100, Some(500), None, None, None, None);
    assert_eq!(fields.len(), 1);
    assert_eq!(fields[0].1, "<t:0:R>");
}
