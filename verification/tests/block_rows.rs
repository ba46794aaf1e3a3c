use serde_json::Value;
use zenote::blocks::{
    block_from_row, block_written, blocks_from_rows, create_block, fetch_blocks, update_block,
};
use zenote::ordering::stable_order;
use zenote::responses::StatusCode;

fn row(text: &str) -> Value {
    serde_json::from_str(text).unwrap()
}

#[test]
fn a_block_row_is_read_field_by_field() {
    let block = block_from_row(&row(
        r#"{"id":12,"created_at":"c","updated_at":"u","type":"text","order":3,
            "content":"hello","page_id":"p","parent_block_id":"b0"}"#,
    ));
    assert_eq!(block.id, "12");
    assert_eq!(block.created_at, "c");
    assert_eq!(block.updated_at, "u");
    assert_eq!(block.block_type, "text");
    assert_eq!(block.order, 3);
    assert_eq!(block.content, "hello");
    assert_eq!(block.page_id, "p");
    assert_eq!(block.parent_block_id.as_deref(), Some("b0"));
}

#[test]
fn a_block_row_with_gaps_reads_as_defaults() {
    let block = block_from_row(&row(r#"{"id":"b-9","order":"3","parent_block_id":null}"#));
    assert_eq!(block.id, "b-9");
    assert_eq!(block.order, 0);
    assert_eq!(block.content, "");
    assert_eq!(block.block_type, "");
    assert_eq!(block.parent_block_id, None);
}

#[test]
fn an_order_beyond_32_bits_is_cut_to_its_low_bits() {
    assert_eq!(block_from_row(&row(r#"{"order":2147483647}"#)).order, 2147483647);
    assert_eq!(block_from_row(&row(r#"{"order":2147483648}"#)).order, -2147483648);
    assert_eq!(block_from_row(&row(r#"{"order":4294967296}"#)).order, 0);
    assert_eq!(block_from_row(&row(r#"{"order":4294967301}"#)).order, 5);
    assert_eq!(block_from_row(&row(r#"{"order":-1}"#)).order, -1);
    assert_eq!(block_from_row(&row(r#"{"order":18446744073709551615}"#)).order, 0);
}

#[test]
fn blocks_come_in_display_order_and_ties_keep_row_order() {
    let rows = vec![
        row(r#"{"id":"a","order":2}"#),
        row(r#"{"id":"b","order":1}"#),
        row(r#"{"id":"c","order":2}"#),
        row(r#"{"id":"d","order":-4}"#),
        row(r#"{"id":"e","order":1}"#),
        row(r#"{"id":"f"}"#),
    ];
    let blocks = blocks_from_rows(&rows);
    let ids: Vec<&str> = blocks.iter().map(|b| b.id.as_str()).collect();
    assert_eq!(ids, vec!["d", "f", "b", "e", "a", "c"]);
    let orders: Vec<i32> = blocks.iter().map(|b| b.order).collect();
    assert_eq!(orders, vec![-4, 0, 1, 1, 2, 2]);
    assert!(blocks_from_rows(&Vec::new()).is_empty());
}

#[test]
fn fetching_blocks_answers_with_an_envelope() {
    let none = fetch_blocks(Ok(Vec::new()));
    assert_eq!(none.status, StatusCode::Success);
    assert!(none.data.is_none());
    assert!(none.error.is_none());

    let some = fetch_blocks(Ok(vec![row(r#"{"id":1,"order":9}"#), row(r#"{"id":2,"order":1}"#)]));
    assert_eq!(some.status, StatusCode::Success);
    assert!(some.error.is_none());
    let blocks = some.data.unwrap();
    assert_eq!(blocks.len(), 2);
    assert_eq!(blocks[0].id, "2");
    assert_eq!(blocks[1].id, "1");

    let failed = fetch_blocks(Err("down".to_string()));
    assert_eq!(failed.status, StatusCode::InternalServerError);
    assert!(failed.data.is_none());
    assert_eq!(failed.error.as_deref(), Some("down"));
}

#[test]
fn block_records_normalise_the_parent() {
    let update = update_block(
        "b1".to_string(),
        "page-1".to_string(),
        "text".to_string(),
        Some(String::new()),
        4,
        "paragraph".to_string(),
    );
    assert_eq!(update.id.as_deref(), Some("b1"));
    assert_eq!(update.page_id, "page-1");
    assert_eq!(update.content, "text");
    assert_eq!(update.parent_block_id, None);
    assert_eq!(update.order, 4);
    assert_eq!(update.block_type, "paragraph");
    assert_eq!(update.created_at, None);
    assert!(chrono::DateTime::parse_from_rfc3339(&update.updated_at).is_ok());

    let create = create_block(
        "page-1".to_string(),
        "text".to_string(),
        Some("b0".to_string()),
        -1,
        "heading".to_string(),
    );
    assert_eq!(create.id, None);
    assert_eq!(create.parent_block_id.as_deref(), Some("b0"));
    assert_eq!(create.order, -1);
    assert_eq!(create.block_type, "heading");
    assert!(chrono::DateTime::parse_from_rfc3339(create.created_at.as_deref().unwrap()).is_ok());

    let orphan = create_block("p".to_string(), "c".to_string(), None, 0, "t".to_string());
    assert_eq!(orphan.parent_block_id, None);
}

#[test]
fn a_written_block_answers_with_the_stores_document() {
    let ok = block_written(Ok(r#"[{"id":5}]"#.to_string())).unwrap();
    assert_eq!(ok.status, StatusCode::Success);
    assert_eq!(ok.data, Some(row(r#"[{"id":5}]"#)));
    assert!(ok.error.is_none());

    assert!(block_written(Ok("b-17".to_string())).is_err());
    assert!(block_written(Ok(String::new())).is_err());
    assert_eq!(block_written(Err("refused".to_string())).unwrap_err(), "refused");
}

#[test]
fn stable_order_in_both_directions() {
    let keys: Vec<i128> = vec![5, 1, 5, -2, 1];
    assert_eq!(stable_order(&keys, false), vec![3, 1, 4, 0, 2]);
    assert_eq!(stable_order(&keys, true), vec![0, 2, 1, 4, 3]);
    assert_eq!(stable_order(&Vec::new(), false), Vec::<usize>::new());
    assert_eq!(stable_order(&vec![7], true), vec![0]);
    assert_eq!(stable_order(&vec![3, 3, 3], true), vec![0, 1, 2]);
    assert_eq!(stable_order(&vec![i128::MAX, i128::MIN], false), vec![1, 0]);
}
