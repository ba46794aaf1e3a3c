use serde_json::Value;
use zenote::queries::{fetch_user_entry_by_email, user_entry_from_row};
use zenote::rows::{normalize_parent, row_exists, signed_text, unsigned_text, Field};

fn row(text: &str) -> Value {
    serde_json::from_str(text).unwrap()
}

#[test]
fn user_rows_are_read_field_by_field() {
    let entry = user_entry_from_row(&row(
        r#"{"id":"u-1","email":"a@x.com","password":"h","first_name":"A","last_name":"B",
            "avatar_url":"http://i/1","created_at":"2024-01-01T00:00:00Z"}"#,
    ));
    assert_eq!(entry.id, "u-1");
    assert_eq!(entry.email, "a@x.com");
    assert_eq!(entry.first_name, "A");
    assert_eq!(entry.last_name, "B");
    assert_eq!(entry.avatar_url, "http://i/1");
    assert_eq!(entry.created_at, "2024-01-01T00:00:00Z");
}

#[test]
fn identifiers_are_normalised_to_decimal_text() {
    assert_eq!(user_entry_from_row(&row(r#"{"id":0}"#)).id, "0");
    assert_eq!(user_entry_from_row(&row(r#"{"id":7}"#)).id, "7");
    assert_eq!(user_entry_from_row(&row(r#"{"id":10}"#)).id, "10");
    assert_eq!(user_entry_from_row(&row(r#"{"id":1234567890}"#)).id, "1234567890");
    assert_eq!(user_entry_from_row(&row(r#"{"id":-15}"#)).id, "-15");
    assert_eq!(
        user_entry_from_row(&row(r#"{"id":9223372036854775807}"#)).id,
        "9223372036854775807"
    );
    assert_eq!(
        user_entry_from_row(&row(r#"{"id":-9223372036854775808}"#)).id,
        "-9223372036854775808"
    );
    assert_eq!(
        user_entry_from_row(&row(r#"{"id":18446744073709551615}"#)).id,
        "18446744073709551615"
    );
    assert_eq!(user_entry_from_row(&row(r#"{"id":"007"}"#)).id, "007");
}

#[test]
fn fields_of_another_type_read_as_empty() {
    let entry = user_entry_from_row(&row(
        r#"{"id":true,"email":5,"first_name":null,"last_name":["x"],"avatar_url":{"a":1}}"#,
    ));
    assert_eq!(entry.id, "");
    assert_eq!(entry.email, "");
    assert_eq!(entry.first_name, "");
    assert_eq!(entry.last_name, "");
    assert_eq!(entry.avatar_url, "");
    assert_eq!(entry.created_at, "");

    let fraction = user_entry_from_row(&row(r#"{"id":1.5}"#));
    assert_eq!(fraction.id, "");
    let no_object = user_entry_from_row(&Value::from("text"));
    assert_eq!(no_object.id, "");
    assert_eq!(no_object.email, "");
}

#[test]
fn a_lookup_gives_its_first_row_or_nothing() {
    let found = fetch_user_entry_by_email(Ok(vec![
        row(r#"{"id":1,"email":"first@x.com"}"#),
        row(r#"{"id":2,"email":"second@x.com"}"#),
    ]))
    .unwrap()
    .unwrap();
    assert_eq!(found.id, "1");
    assert_eq!(found.email, "first@x.com");

    assert!(fetch_user_entry_by_email(Ok(Vec::new())).unwrap().is_none());
    assert_eq!(fetch_user_entry_by_email(Err("down".to_string())).unwrap_err(), "down");
}

#[test]
fn field_coercions() {
    let text = Field::Text("t".to_string());
    assert_eq!(text.text_or_empty(), "t");
    assert_eq!(text.id_text(), "t");
    assert_eq!(text.text(), Some("t".to_string()));
    assert_eq!(text.text_if_present(), Some("t".to_string()));
    assert_eq!(text.integer_or_zero(), 0);
    assert_eq!(text.unsigned(), None);

    assert_eq!(Field::Missing.text_if_present(), None);
    assert_eq!(Field::Null.text_if_present(), Some(String::new()));
    assert_eq!(Field::Integer(4).text_if_present(), Some(String::new()));
    assert_eq!(Field::Null.text(), None);
    assert_eq!(Field::Missing.id_text(), "");
    assert_eq!(Field::Other.id_text(), "");

    assert_eq!(Field::Integer(-9).integer_or_zero(), -9);
    assert_eq!(Field::Integer(i64::MIN).integer_or_zero(), i64::MIN);
    assert_eq!(Field::Unsigned(12).integer_or_zero(), 12);
    assert_eq!(Field::Unsigned(u64::MAX).integer_or_zero(), 0);
    assert_eq!(Field::Unsigned(9_223_372_036_854_775_807).integer_or_zero(), i64::MAX);
    assert_eq!(Field::Unsigned(9_223_372_036_854_775_808).integer_or_zero(), 0);

    assert_eq!(Field::Integer(0).unsigned(), Some(0));
    assert_eq!(Field::Integer(-1).unsigned(), None);
    assert_eq!(Field::Integer(i64::MAX).unsigned(), Some(9_223_372_036_854_775_807));
    assert_eq!(Field::Unsigned(u64::MAX).unsigned(), Some(u64::MAX));
    assert_eq!(Field::Other.unsigned(), None);
    assert_eq!(Field::Integer(-42).id_text(), "-42");
    assert_eq!(Field::Unsigned(18_446_744_073_709_551_615).id_text(), "18446744073709551615");
}

#[test]
fn integers_are_written_in_decimal() {
    assert_eq!(unsigned_text(0), "0");
    assert_eq!(unsigned_text(9), "9");
    assert_eq!(unsigned_text(10), "10");
    assert_eq!(unsigned_text(1_000_000), "1000000");
    assert_eq!(unsigned_text(1_234_567_890_123), "1234567890123");
    assert_eq!(unsigned_text(u64::MAX), "18446744073709551615");
    assert_eq!(signed_text(0), "0");
    assert_eq!(signed_text(-1), "-1");
    assert_eq!(signed_text(-10), "-10");
    assert_eq!(signed_text(305), "305");
    assert_eq!(signed_text(i64::MAX), "9223372036854775807");
    assert_eq!(signed_text(i64::MIN), "-9223372036854775808");
    for n in [0i64, 7, -7, 99, -100, 12_345, -98_765_432_109, i64::MAX, i64::MIN + 1] {
        assert_eq!(signed_text(n), n.to_string());
    }
}

#[test]
fn a_failed_lookup_counts_as_nothing_found() {
    assert!(row_exists(&Ok(vec![row("{}")])));
    assert!(!row_exists(&Ok(Vec::new())));
    assert!(!row_exists(&Err("down".to_string())));
}

#[test]
fn an_empty_parent_reference_is_no_parent() {
    assert_eq!(normalize_parent(None), None);
    assert_eq!(normalize_parent(Some(String::new())), None);
    assert_eq!(normalize_parent(Some("page-1".to_string())), Some("page-1".to_string()));
    assert_eq!(normalize_parent(Some(" ".to_string())), Some(" ".to_string()));
}
