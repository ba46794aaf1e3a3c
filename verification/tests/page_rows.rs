use serde_json::Value;
use zenote::pages::{
    create_page, create_page_body, fetch_page, fetch_pages, page_created_response, page_exists,
    page_from_row, page_updated_response, pages_from_rows, read_stamp, update_page,
    update_page_body, PageAction, PageEvent,
};
use zenote::responses::StatusCode;

fn row(text: &str) -> Value {
    serde_json::from_str(text).unwrap()
}

#[test]
fn a_page_row_is_read_field_by_field() {
    let page = page_from_row(&row(
        r#"{"id":"page-1","created_at":"c","updated_at":"u","user_id":77,"title":"T",
            "parent_page_id":"p0"}"#,
    ));
    assert_eq!(page.id, "page-1");
    assert_eq!(page.created_at, "c");
    assert_eq!(page.updated_at, "u");
    assert_eq!(page.user_id, "77");
    assert_eq!(page.title, "T");
    assert_eq!(page.parent_page_id.as_deref(), Some("p0"));
}

#[test]
fn the_parent_of_a_page_is_absent_only_without_the_key() {
    assert_eq!(page_from_row(&row(r#"{"id":"p"}"#)).parent_page_id, None);
    assert_eq!(
        page_from_row(&row(r#"{"id":"p","parent_page_id":null}"#)).parent_page_id,
        Some(String::new())
    );
    assert_eq!(
        page_from_row(&row(r#"{"id":"p","parent_page_id":3}"#)).parent_page_id,
        Some(String::new())
    );
    assert_eq!(page_from_row(&row(r#"{"user_id":"u-1"}"#)).user_id, "u-1");
}

#[test]
fn stamps_are_read_as_instants() {
    assert_eq!(read_stamp("1970-01-01T00:00:01Z"), (1, 0));
    assert_eq!(read_stamp("2024-05-01T10:00:00Z"), (1_714_557_600, 0));
    assert_eq!(read_stamp("2024-05-01T10:00:00.5Z"), (1_714_557_600, 500_000_000));
    assert_eq!(read_stamp("2024-05-01T10:00:00"), (1_714_557_600, 0));
    assert_eq!(read_stamp("2024-05-01T10:00:00.25"), (1_714_557_600, 250_000_000));
    assert_eq!(read_stamp("1969-12-31T23:59:59Z"), (-1, 0));
    assert_eq!(read_stamp(""), (0, 0));
    assert_eq!(read_stamp("Z"), (0, 0));
    assert_eq!(read_stamp("yesterday"), (0, 0));
    assert_eq!(read_stamp("2024-05-01T12:00:00+02:00"), (0, 0));
}

#[test]
fn pages_come_latest_first_and_ties_keep_row_order() {
    let rows = vec![
        row(r#"{"id":"old","updated_at":"2023-01-01T00:00:00Z"}"#),
        row(r#"{"id":"new","updated_at":"2024-06-01T00:00:00"}"#),
        row(r#"{"id":"bad","updated_at":"not a date"}"#),
        row(r#"{"id":"mid","updated_at":"2024-01-01T00:00:00.000001Z"}"#),
        row(r#"{"id":"mid2","updated_at":"2024-01-01T00:00:00.000001"}"#),
        row(r#"{"id":"none"}"#),
        row(r#"{"id":"mid0","updated_at":"2024-01-01T00:00:00Z"}"#),
    ];
    let pages = pages_from_rows(&rows);
    let ids: Vec<&str> = pages.iter().map(|p| p.id.as_str()).collect();
    assert_eq!(ids, vec!["new", "mid", "mid2", "mid0", "old", "bad", "none"]);
    assert!(pages_from_rows(&Vec::new()).is_empty());
}

#[test]
fn fetching_pages_answers_with_an_envelope() {
    let none = fetch_pages(Ok(Vec::new()));
    assert_eq!(none.status, StatusCode::Success);
    assert!(none.data.is_none());
    assert!(none.error.is_none());

    let some = fetch_pages(Ok(vec![
        row(r#"{"id":"a","updated_at":"2024-01-01T00:00:00Z"}"#),
        row(r#"{"id":"b","updated_at":"2024-01-02T00:00:00Z"}"#),
    ]));
    let pages = some.data.unwrap();
    assert_eq!(pages[0].id, "b");
    assert_eq!(pages[1].id, "a");

    let failed = fetch_pages(Err("down".to_string()));
    assert_eq!(failed.status, StatusCode::InternalServerError);
    assert_eq!(failed.error.as_deref(), Some("down"));
    assert!(failed.data.is_none());
}

#[test]
fn fetching_one_page_takes_the_first_row() {
    let found = fetch_page(Ok(vec![row(r#"{"id":"a","title":"A"}"#), row(r#"{"id":"b"}"#)]));
    assert_eq!(found.status, StatusCode::Success);
    let page = found.data.unwrap();
    assert_eq!(page.id, "a");
    assert_eq!(page.title, "A");

    let none = fetch_page(Ok(Vec::new()));
    assert_eq!(none.status, StatusCode::Success);
    assert!(none.data.is_none());
    assert!(none.error.is_none());

    let failed = fetch_page(Err("down".to_string()));
    assert_eq!(failed.status.code(), 500);
    assert_eq!(failed.error.as_deref(), Some("down"));
}

#[test]
fn a_page_exists_when_the_lookup_found_a_row() {
    assert!(page_exists(&Ok(vec![row(r#"{"id":"a"}"#)])));
    assert!(!page_exists(&Ok(Vec::new())));
    assert!(!page_exists(&Err("down".to_string())));
}

fn save(parent: Option<String>, event: PageEvent) -> PageAction {
    update_page("page-1".to_string(), "u1".to_string(), "Title".to_string(), parent, event)
}

#[test]
fn saving_a_page_creates_it_when_it_is_not_there() {
    match save(Some(String::new()), PageEvent::Looked(Ok(Vec::new()))) {
        PageAction::Create(body) => {
            assert_eq!(body.id, "page-1");
            assert_eq!(body.user_id, "u1");
            assert_eq!(body.title, "Title");
            assert_eq!(body.parent_page_id, Some(String::new()));
            assert!(body.created_at.is_some());
        }
        _ => panic!("the page is not there"),
    }
    assert!(matches!(
        save(None, PageEvent::Looked(Err("down".to_string()))),
        PageAction::Create(_)
    ));
}

#[test]
fn saving_a_page_updates_it_when_it_is_there() {
    match save(Some(String::new()), PageEvent::Looked(Ok(vec![row(r#"{"id":"page-1"}"#)]))) {
        PageAction::Update(body) => {
            assert_eq!(body.id, "page-1");
            assert_eq!(body.user_id, "u1");
            assert_eq!(body.title, "Title");
            assert_eq!(body.parent_page_id, None);
            assert_eq!(body.created_at, None);
            assert!(chrono::DateTime::parse_from_rfc3339(&body.updated_at).is_ok());
        }
        _ => panic!("the page is there"),
    }
}

#[test]
fn a_save_is_a_success_only_where_the_page_was_written() {
    match save(None, PageEvent::Created(Ok(true))) {
        PageAction::Answer(r) => {
            assert_eq!(r.status.code(), 200);
            assert_eq!(r.data.as_deref(), Some("Created page"));
            assert!(r.error.is_none());
        }
        _ => panic!("the store has answered"),
    }
    match save(None, PageEvent::Created(Ok(false))) {
        PageAction::Answer(r) => {
            assert_eq!(r.status.code(), 400);
            assert!(r.data.is_none());
            assert_eq!(r.error.as_deref(), Some("Page was not created"));
        }
        _ => panic!("the store has answered"),
    }
    match save(None, PageEvent::Created(Err("connection reset".to_string()))) {
        PageAction::Answer(r) => {
            assert_eq!(r.status.code(), 500);
            assert!(r.data.is_none());
            assert_eq!(r.error.as_deref(), Some("connection reset"));
        }
        _ => panic!("the store has answered"),
    }
    match save(None, PageEvent::Updated(Ok(()))) {
        PageAction::Answer(r) => {
            assert_eq!(r.status.code(), 200);
            assert!(r.data.is_none());
            assert!(r.error.is_none());
        }
        _ => panic!("the store has answered"),
    }
    match save(None, PageEvent::Updated(Err("Error 404 Not Found: {}".to_string()))) {
        PageAction::Answer(r) => {
            assert_eq!(r.status.code(), 500);
            assert!(r.data.is_none());
            assert_eq!(r.error.as_deref(), Some("Error 404 Not Found: {}"));
        }
        _ => panic!("the store has answered"),
    }
}

#[test]
fn page_records() {
    let update = update_page_body(
        "p".to_string(),
        "u".to_string(),
        "t".to_string(),
        Some("parent".to_string()),
    );
    assert_eq!(update.parent_page_id.as_deref(), Some("parent"));
    assert_eq!(update.created_at, None);
    let create = create_page_body("u".to_string(), "p".to_string(), "t".to_string(), None);
    assert_eq!(create.id, "p");
    assert_eq!(create.user_id, "u");
    assert_eq!(create.parent_page_id, None);
    assert!(create.created_at.is_some());
}

#[test]
fn page_creation_answers() {
    let accepted = create_page(true, row(r#"[{"id":"p"}]"#));
    assert_eq!(accepted.status, StatusCode::Success);
    assert_eq!(accepted.data, Some(row(r#"[{"id":"p"}]"#)));
    assert!(accepted.error.is_none());
    let refused = create_page(false, row(r#"{"message":"duplicate"}"#));
    assert_eq!(refused.status, StatusCode::BadRequest);
    assert_eq!(refused.data, Some(row(r#"{"message":"duplicate"}"#)));

    let created = page_created_response(Ok(true));
    assert_eq!(created.status, StatusCode::Success);
    assert_eq!(created.data.as_deref(), Some("Created page"));
    assert!(created.error.is_none());
    let failed = page_created_response(Err("no".to_string()));
    assert_eq!(failed.status, StatusCode::InternalServerError);
    assert_eq!(failed.status.code(), 500);
    assert!(failed.data.is_none());
    assert_eq!(failed.error.as_deref(), Some("no"));
    let updated = page_updated_response(Ok(()));
    assert_eq!(updated.status, StatusCode::Success);
    assert!(updated.data.is_none());
}
