//! One row at a time: the lookup of a member and its SQL value.

use prism_query::extract::{json_extract_string_impl, lookup_member, lookup_to_sql, MemberLookup};

fn lookup(json: &str, key: &str) -> MemberLookup {
    lookup_member(json, key)
}

#[test]
fn vp162_json_extract_string_null_safety() {
    for json_col in [None, Some("{}")] {
        let result = json_extract_string_impl(json_col, "key");
        assert!(result.is_none());
    }
}

#[test]
fn vp162_b_none_input_is_none_output() {
    let result = json_extract_string_impl(None, "any_key");
    assert!(result.is_none(), "NULL input must produce NULL output");
}

#[test]
fn null_row_is_null_for_every_key() {
    for key in ["", "a", "a.b", "severity", "\u{e9}"] {
        assert_eq!(json_extract_string_impl(None, key), None);
    }
}

#[test]
fn lookup_of_text_that_is_not_json() {
    assert!(matches!(lookup("not valid json at all !!", "k"), MemberLookup::Unparsable));
    assert!(matches!(lookup("", "k"), MemberLookup::Unparsable));
    assert!(matches!(lookup(r#"{"k":1"#, "k"), MemberLookup::Unparsable));
}

#[test]
fn lookup_of_json_that_is_not_an_object() {
    assert!(matches!(lookup(r#"["a","b","c"]"#, "k"), MemberLookup::NotObject));
    assert!(matches!(lookup("42", "k"), MemberLookup::NotObject));
    assert!(matches!(lookup(r#""k""#, "k"), MemberLookup::NotObject));
    assert!(matches!(lookup("null", "k"), MemberLookup::NotObject));
}

#[test]
fn lookup_of_absent_member() {
    assert!(matches!(lookup("{}", "k"), MemberLookup::Absent));
    assert!(matches!(lookup(r#"{"a":{"b":"nested"}}"#, "a.b"), MemberLookup::Absent));
    assert!(matches!(lookup(r#"{"K":1}"#, "k"), MemberLookup::Absent));
}

#[test]
fn lookup_of_null_member() {
    assert!(matches!(lookup(r#"{"k":null}"#, "k"), MemberLookup::Null));
}

#[test]
fn lookup_of_string_member_gives_contents() {
    match lookup(r#"{"k":"a\"b\\c\u00e9"}"#, "k") {
        MemberLookup::Text(s) => assert_eq!(s, "a\"b\\c\u{e9}"),
        _ => panic!("a string member must be read as text"),
    }
    match lookup(r#"{"k":""}"#, "k") {
        MemberLookup::Text(s) => assert_eq!(s, ""),
        _ => panic!("an empty string member must be read as text"),
    }
}

#[test]
fn lookup_of_other_members_gives_json_text() {
    let cases = [
        (r#"{"k":42}"#, "42"),
        (r#"{"k":-1.5}"#, "-1.5"),
        (r#"{"k":true}"#, "true"),
        (r#"{"k":false}"#, "false"),
        (r#"{"k":[1, "x", null]}"#, r#"[1,"x",null]"#),
        (r#"{"k": {"b" : 1}}"#, r#"{"b":1}"#),
    ];
    for (json, expected) in cases {
        match lookup(json, "k") {
            MemberLookup::Other(s) => assert_eq!(s, expected, "for {json}"),
            _ => panic!("a non-string, non-null member must be read as JSON text: {json}"),
        }
    }
}

#[test]
fn lookup_to_sql_on_each_outcome() {
    assert_eq!(lookup_to_sql(MemberLookup::Unparsable), None);
    assert_eq!(lookup_to_sql(MemberLookup::NotObject), None);
    assert_eq!(lookup_to_sql(MemberLookup::Absent), None);
    assert_eq!(lookup_to_sql(MemberLookup::Null), None);
    assert_eq!(lookup_to_sql(MemberLookup::Text("x".to_string())), Some("x".to_string()));
    assert_eq!(lookup_to_sql(MemberLookup::Other("[1]".to_string())), Some("[1]".to_string()));
}

#[test]
fn extract_row_end_to_end() {
    let row = Some(r#"{"s":"v","n":7,"z":null,"o":{"x":[true]}}"#);
    assert_eq!(json_extract_string_impl(row, "s"), Some("v".to_string()));
    assert_eq!(json_extract_string_impl(row, "n"), Some("7".to_string()));
    assert_eq!(json_extract_string_impl(row, "z"), None);
    assert_eq!(json_extract_string_impl(row, "o"), Some(r#"{"x":[true]}"#.to_string()));
    assert_eq!(json_extract_string_impl(row, "missing"), None);
    assert_eq!(json_extract_string_impl(Some("[1]"), "0"), None);
    assert_eq!(json_extract_string_impl(Some("{"), "s"), None);
}

#[test]
fn json_null_member_is_not_the_text_null() {
    let out = json_extract_string_impl(Some(r#"{"k":null}"#), "k");
    assert_ne!(out, Some("null".to_string()));
    assert_eq!(out, None);
}
