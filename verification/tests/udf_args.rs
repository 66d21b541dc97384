//! The function's declaration and how it treats each kind of argument.

use prism_query::udf::{evaluate, extract_column, ArgValue, ColumnType, JsonExtractStringUdf, UdfError, UdfOutput, Volatility};

fn text(s: &str) -> Option<String> {
    Some(s.to_string())
}

#[test]
fn declaration_of_the_function() {
    let udf = JsonExtractStringUdf::new();
    assert_eq!(udf.name(), "json_extract_string");
    assert_eq!(udf.arg_types(), &vec![ColumnType::Utf8, ColumnType::Utf8]);
    assert_eq!(udf.volatility(), Volatility::Immutable);
    assert_eq!(udf.return_type(&[ColumnType::Utf8, ColumnType::Utf8]), ColumnType::Utf8);
    assert_eq!(udf.return_type(&[]), ColumnType::Utf8);
    let default = JsonExtractStringUdf::default();
    assert_eq!(default.name(), "json_extract_string");
    assert_eq!(default.arg_types(), udf.arg_types());
    assert_eq!(default.volatility(), Volatility::Immutable);
}

#[test]
fn null_key_gives_a_column_of_nulls() {
    for key in [ArgValue::Utf8Scalar(None), ArgValue::LargeUtf8Scalar(None), ArgValue::NullScalar] {
        let args = vec![ArgValue::Utf8Array(vec![text(r#"{"k":"v"}"#), None]), key];
        match evaluate(&args, 2) {
            Ok(UdfOutput::Array(rows)) => assert_eq!(rows, vec![None, None]),
            _ => panic!("a NULL key must give a column of NULLs"),
        }
    }
}

#[test]
fn null_key_column_has_the_batch_length_whatever_the_json_argument() {
    let args = vec![ArgValue::Utf8Scalar(text(r#"{"k":"v"}"#)), ArgValue::NullScalar];
    match evaluate(&args, 4) {
        Ok(UdfOutput::Array(rows)) => assert_eq!(rows, vec![None, None, None, None]),
        _ => panic!("a NULL key must give a column of NULLs"),
    }
}

#[test]
fn missing_arguments_give_a_column_of_nulls() {
    match evaluate(&vec![], 3) {
        Ok(UdfOutput::Array(rows)) => assert_eq!(rows, vec![None, None, None]),
        _ => panic!("no key means a column of NULLs"),
    }
    match evaluate(&vec![ArgValue::Utf8Array(vec![text("{}")])], 1) {
        Ok(UdfOutput::Array(rows)) => assert_eq!(rows, vec![None]),
        _ => panic!("no key means a column of NULLs"),
    }
}

#[test]
fn large_utf8_key_is_a_key() {
    let args = vec![
        ArgValue::Utf8Array(vec![text(r#"{"k":"v"}"#)]),
        ArgValue::LargeUtf8Scalar(text("k")),
    ];
    match evaluate(&args, 1) {
        Ok(UdfOutput::Array(rows)) => assert_eq!(rows, vec![text("v")]),
        _ => panic!("a LargeUtf8 key must be used"),
    }
}

#[test]
fn key_that_is_not_a_text_scalar_is_refused() {
    let cases = [
        (ArgValue::Utf8Array(vec![text("k")]), "Utf8"),
        (ArgValue::OtherArray("Int64".to_string()), "Int64"),
        (ArgValue::OtherScalar("Int32".to_string()), "Int32"),
    ];
    for (key, name) in cases {
        let args = vec![ArgValue::Utf8Array(vec![text("{}")]), key];
        match evaluate(&args, 1) {
            Err(e) => {
                assert!(matches!(&e, UdfError::KeyNotUtf8Scalar(t) if t == name));
                assert_eq!(
                    e.message(),
                    format!("json_extract_string: key argument must be a Utf8 scalar, got {name}")
                );
            }
            Ok(_) => panic!("a non-text key must be refused"),
        }
    }
}

#[test]
fn json_column_of_another_type_is_refused() {
    let args = vec![ArgValue::OtherArray("LargeUtf8".to_string()), ArgValue::Utf8Scalar(text("k"))];
    match evaluate(&args, 1) {
        Err(e) => {
            assert!(matches!(&e, UdfError::ColumnNotUtf8(t) if t == "LargeUtf8"));
            assert_eq!(e.message(), "json_extract_string: JSON column must be Utf8, got LargeUtf8");
        }
        Ok(_) => panic!("a non-Utf8 column must be refused"),
    }
}

#[test]
fn json_scalar_of_another_type_is_refused() {
    let cases = [
        (ArgValue::LargeUtf8Scalar(text("{}")), "LargeUtf8"),
        (ArgValue::OtherScalar("Boolean".to_string()), "Boolean"),
    ];
    for (json, name) in cases {
        let args = vec![json, ArgValue::Utf8Scalar(text("k"))];
        match evaluate(&args, 1) {
            Err(e) => {
                assert!(matches!(&e, UdfError::ScalarNotUtf8(t) if t == name));
                assert_eq!(
                    e.message(),
                    format!("json_extract_string: JSON column must be Utf8 or Null, got {name}")
                );
            }
            Ok(_) => panic!("a non-text scalar must be refused"),
        }
    }
}

#[test]
fn no_arguments_message() {
    assert_eq!(
        UdfError::NoArguments.message(),
        "json_extract_string: expected 2 arguments, got 0"
    );
}

#[test]
fn scalar_json_argument_gives_a_scalar() {
    let args = vec![ArgValue::Utf8Scalar(text(r#"{"k":[1,2]}"#)), ArgValue::Utf8Scalar(text("k"))];
    match evaluate(&args, 5) {
        Ok(UdfOutput::Scalar(v)) => assert_eq!(v, text("[1,2]")),
        _ => panic!("a scalar JSON argument must give a scalar"),
    }
    let args = vec![ArgValue::Utf8Scalar(None), ArgValue::Utf8Scalar(text("k"))];
    match evaluate(&args, 5) {
        Ok(UdfOutput::Scalar(v)) => assert_eq!(v, None),
        _ => panic!("a NULL text scalar must give the NULL scalar"),
    }
    let args = vec![ArgValue::NullScalar, ArgValue::Utf8Scalar(text("k"))];
    match evaluate(&args, 5) {
        Ok(UdfOutput::Scalar(v)) => assert_eq!(v, None),
        _ => panic!("the NULL scalar must give the NULL scalar"),
    }
}

#[test]
fn column_keeps_row_count_and_order() {
    let rows = vec![
        text(r#"{"k":"a"}"#),
        None,
        text("oops"),
        text(r#"{"k":3}"#),
        text(r#"{"k":null}"#),
        text(r#"{"k":"b"}"#),
    ];
    let out = extract_column(&rows, "k");
    assert_eq!(out, vec![text("a"), None, None, text("3"), None, text("b")]);
    assert_eq!(extract_column(&vec![], "k"), Vec::<Option<String>>::new());
}
