use pibot::json::{parse_json, Json};
use pibot::weather::{canonical_number, parse_i64_text, parse_u64_text};

#[test]
fn parses_scalars() {
    assert!(matches!(parse_json("null"), Some(Json::Null)));
    assert!(matches!(parse_json("true"), Some(Json::Bool(true))));
    assert!(matches!(parse_json("false"), Some(Json::Bool(false))));
    match parse_json("123").unwrap() {
        Json::Num(t) => assert_eq!(t, "123"),
        _ => panic!("expected a number"),
    }
    match parse_json("\"hi\"").unwrap() {
        Json::Str(t) => assert_eq!(t, "hi"),
        _ => panic!("expected a string"),
    }
}

#[test]
fn keeps_number_text_exactly() {
    match parse_json("-12.50e+3").unwrap() {
        Json::Num(t) => assert_eq!(t, "-12.50e+3"),
        _ => panic!("expected a number"),
    }
}

#[test]
fn parses_nested_structures() {
    let doc = parse_json(" { \"a\" : [ 1 , { \"b\" : null } ] , \"c\" : \"d\" } ").unwrap();
    match doc {
        Json::Obj(fields) => {
            assert_eq!(fields.len(), 2);
            assert_eq!(fields[0].key, "a");
            match &fields[0].value {
                Json::Arr(items) => assert_eq!(items.len(), 2),
                _ => panic!("expected an array"),
            }
            assert_eq!(fields[1].key, "c");
        }
        _ => panic!("expected an object"),
    }
}

#[test]
fn unescapes_strings() {
    match parse_json("\"a\\n\\t\\\"b\\\\\"").unwrap() {
        Json::Str(t) => assert_eq!(t, "a\n\t\"b\\"),
        _ => panic!("expected a string"),
    }
}

#[test]
fn rejects_malformed_documents() {
    assert!(parse_json("").is_none());
    assert!(parse_json("{").is_none());
    assert!(parse_json("[1,]").is_none());
    assert!(parse_json("01").is_none());
    assert!(parse_json("1.").is_none());
    assert!(parse_json("tru").is_none());
    assert!(parse_json("\"unterminated").is_none());
    assert!(parse_json("1 2").is_none());
    assert!(parse_json("{\"a\" 1}").is_none());
}

#[test]
fn rejects_unicode_escapes() {
    assert!(parse_json("\"a\\u0041\"").is_none());
}

#[test]
fn parses_u64_texts() {
    assert_eq!(parse_u64_text("0"), Some(0));
    assert_eq!(parse_u64_text("42"), Some(42));
    assert_eq!(parse_u64_text("18446744073709551615"), Some(u64::MAX));
    assert_eq!(parse_u64_text("18446744073709551616"), None);
    assert_eq!(parse_u64_text(""), None);
    assert_eq!(parse_u64_text("1.5"), None);
    assert_eq!(parse_u64_text("-1"), None);
}

#[test]
fn parses_i64_texts() {
    assert_eq!(parse_i64_text("42"), Some(42));
    assert_eq!(parse_i64_text("-42"), Some(-42));
    assert_eq!(parse_i64_text("9223372036854775807"), Some(i64::MAX));
    assert_eq!(parse_i64_text("-9223372036854775808"), Some(i64::MIN));
    assert_eq!(parse_i64_text("9223372036854775808"), None);
    assert_eq!(parse_i64_text("-9223372036854775809"), None);
    assert_eq!(parse_i64_text("-"), None);
}

#[test]
fn canonicalises_numbers_for_display() {
    assert_eq!(canonical_number("15.0"), "15");
    assert_eq!(canonical_number("14.50"), "14.5");
    assert_eq!(canonical_number("60"), "60");
    assert_eq!(canonical_number("-0.0"), "-0");
    assert_eq!(canonical_number("1012"), "1012");
    assert_eq!(canonical_number("3.14"), "3.14");
    assert_eq!(canonical_number("1e3"), "1e3");
    assert_eq!(canonical_number("2.50E-1"), "2.50E-1");
}
