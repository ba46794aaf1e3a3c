use serde_json::Value;
use zenote::embeddings::{
    ask_llm, chat_request, content_is_indexable, embedding_failed, index_block, index_skipped,
    index_stored, llm_answer, query_similar_blocks, system_prompt, ChatAction, ChatEvent,
    IndexAction, IndexEvent, IndexReport,
};
use zenote::responses::{Response, StatusCode};
use zenote::storage::{removes_local_file, temp_file_name, upload_file, upload_request};
use zenote::text::join;
use zenote::update::{bearer, update, update_endpoint};

const BASE: &str = "You are a helpful assistant for the note-taking app called ZeNote. Answer the user's question based on their notes and previous conversation. Be specific and reference information from their notes when relevant.";
const BARE: &str = "You are a helpful assistant for the note-taking app called ZeNote. Answer the user's question as clearly and concisely as possible. No chat history was provided. Relevant notes: (No specific notes found for this query).";

#[test]
fn content_is_indexed_from_eleven_bytes_on() {
    assert!(!content_is_indexable(""));
    assert!(!content_is_indexable("0123456789"));
    assert!(content_is_indexable("0123456789a"));
    assert!(!content_is_indexable("   0123456789 \n\t"));
    assert!(content_is_indexable("   0123456789a \n\t"));
    assert!(content_is_indexable("01234 56789"));
    assert!(!content_is_indexable("                    "));
    assert!(!content_is_indexable("ééééé"));
    assert!(content_is_indexable("éééééé"));
    assert!(!content_is_indexable("\u{a0}0123456789\u{3000}\u{2003}\u{85}"));
    assert!(content_is_indexable("\u{200b}0123456789"));
}

#[test]
fn a_short_block_is_skipped_with_a_note() {
    let r = index_skipped("b1".to_string());
    assert_eq!(r.status, StatusCode::Success);
    assert!(r.error.is_none());
    match r.data.unwrap() {
        IndexReport::Note { message, block_id } => {
            assert_eq!(message, "Content too short, block not indexed.");
            assert_eq!(block_id, "b1");
        }
        IndexReport::Stored(_) => panic!("nothing was stored"),
    }
}

#[test]
fn a_failed_embedding_is_an_internal_error() {
    let r: Response<Value> = embedding_failed("quota");
    assert_eq!(r.status, StatusCode::InternalServerError);
    assert!(r.data.is_none());
    assert_eq!(r.error.as_deref(), Some("Failed to generate embedding: quota"));
}

#[test]
fn indexing_answers_follow_the_store() {
    let empty = index_stored(201, "201 Created", "", "b1".to_string());
    assert_eq!(empty.status, StatusCode::Success);
    match empty.data.unwrap() {
        IndexReport::Note { message, block_id } => {
            assert_eq!(message, "Block indexed (Supabase returned empty body).");
            assert_eq!(block_id, "b1");
        }
        IndexReport::Stored(_) => panic!("the store sent nothing"),
    }

    let stored = index_stored(200, "200 OK", r#"[{"block_id":"b1"}]"#, "b1".to_string());
    assert_eq!(stored.status, StatusCode::Success);
    assert!(stored.error.is_none());
    match stored.data.unwrap() {
        IndexReport::Stored(v) => assert_eq!(v[0]["block_id"], Value::from("b1")),
        IndexReport::Note { .. } => panic!("the store sent a document"),
    }

    let garbled = index_stored(200, "200 OK", "<html>", "b1".to_string());
    assert_eq!(garbled.status, StatusCode::InternalServerError);
    assert!(garbled.data.is_none());
    assert!(garbled.error.unwrap().starts_with("Failed to parse Supabase response: "));

    let refused = index_stored(409, "409 Conflict", "duplicate", "b1".to_string());
    assert_eq!(refused.status, StatusCode::BadRequest);
    assert!(refused.data.is_none());
    assert_eq!(refused.error.as_deref(), Some("Supabase error (409 Conflict): duplicate"));

    let broken = index_stored(503, "503 Service Unavailable", "", "b1".to_string());
    assert_eq!(broken.status, StatusCode::InternalServerError);
    assert_eq!(broken.error.as_deref(), Some("Supabase error (503 Service Unavailable): "));

    let moved = index_stored(302, "302 Found", "x", "b1".to_string());
    assert_eq!(moved.status, StatusCode::InternalServerError);
}

#[test]
fn search_answers_follow_the_store() {
    let found = query_similar_blocks(true, r#"[{"content":"note"}]"#).unwrap();
    assert_eq!(found.status, StatusCode::Success);
    assert_eq!(found.data.unwrap()[0]["content"], Value::from("note"));
    assert!(found.error.is_none());

    assert!(query_similar_blocks(true, "oops").is_err());

    let refused = query_similar_blocks(false, "no function").unwrap();
    assert_eq!(refused.status, StatusCode::InternalServerError);
    assert!(refused.data.is_none());
    assert_eq!(refused.error.as_deref(), Some("Supabase error: no function"));
}

#[test]
fn the_prompt_without_context_stands_alone() {
    assert_eq!(system_prompt(None), BARE);
}

#[test]
fn the_prompt_remarks_on_missing_notes() {
    let expected = format!(
        "{}\n\nContext:\n{}\n\nRelevant notes: (No specific notes found for this query)",
        BASE, "User: hi"
    );
    assert_eq!(system_prompt(Some("User: hi")), expected);
    let expected = format!(
        "{}\n\nContext:\n{}\n\nRelevant notes: (No specific notes found for this query)",
        BASE, ""
    );
    assert_eq!(system_prompt(Some("")), expected);
    let expected = format!(
        "{}\n\nContext:\n{}\n\nRelevant notes: (No specific notes found for this query)",
        BASE, "relevant notes: lower case"
    );
    assert_eq!(system_prompt(Some("relevant notes: lower case")), expected);
}

#[test]
fn the_prompt_keeps_context_that_names_its_notes() {
    let context = "User: hi\n\nRelevant notes:\n- buy milk";
    assert_eq!(system_prompt(Some(context)), format!("{}\n\nContext:\n{}", BASE, context));
    assert_eq!(
        system_prompt(Some("Relevant notes:")),
        format!("{}\n\nContext:\nRelevant notes:", BASE)
    );
}

#[test]
fn model_answers_follow_the_service() {
    let answer: Value = serde_json::from_str(r#"{"choices":[]}"#).unwrap();
    let ok = llm_answer(true, answer.clone(), "");
    assert_eq!(ok.status, StatusCode::Success);
    assert_eq!(ok.data, Some(answer));
    assert!(ok.error.is_none());

    let failed = llm_answer(false, Value::Null, "rate limited");
    assert_eq!(failed.status, StatusCode::InternalServerError);
    assert!(failed.data.is_none());
    assert_eq!(failed.error.as_deref(), Some("OpenAI API error: rate limited"));
}

#[test]
fn update_requests_and_answers() {
    assert_eq!(
        update_endpoint("https://db.example", "pages", "id", "page-1"),
        "https://db.example/rest/v1/pages?id=eq.page-1"
    );
    assert_eq!(update_endpoint("", "", "", ""), "/rest/v1/?=eq.");
    assert_eq!(bearer("k3y"), "Bearer k3y");
    assert_eq!(join("ab", "cd"), "abcd");
    assert_eq!(update(true, "200 OK", "[]", "page-1"), Ok("page-1".to_string()));
    assert_eq!(
        update(false, "404 Not Found", "{\"m\":1}", "page-1"),
        Err("Error 404 Not Found: {\"m\":1}".to_string())
    );
}

#[test]
fn upload_requests_and_answers() {
    let request = upload_request("avatars", "u/1.png", "/tmp/photo.png", "https://s.example", "k");
    assert_eq!(request.address, "https://s.example/storage/v1/object/avatars/u/1.png");
    assert_eq!(request.authorization, "Bearer k");
    assert_eq!(request.content_type, "image/png");
    let unknown = upload_request("b", "p", "/tmp/file-without-extension", "h", "k");
    assert_eq!(unknown.content_type, "application/octet-stream");

    let receipt = upload_file(true, "{\"Key\":\"x\"}".to_string(), "avatars", "u/1.png", "https://s.example")
        .unwrap();
    assert_eq!(receipt.response, "{\"Key\":\"x\"}");
    assert_eq!(receipt.path, "u/1.png");
    assert_eq!(receipt.url, "https://s.example/storage/v1/object/public/avatars/u/1.png");

    let failed = upload_file(false, "too large".to_string(), "avatars", "u/1.png", "h").unwrap_err();
    assert_eq!(failed, "Upload failed: too large");

    assert!(removes_local_file(true, true));
    assert!(!removes_local_file(true, false));
    assert!(!removes_local_file(false, true));
    assert!(!removes_local_file(false, false));
}

#[test]
fn temporary_names_are_drawn_anew() {
    let first = temp_file_name();
    let second = temp_file_name();
    assert_ne!(first, second);
    assert!(first.starts_with("zenote_image_"));
    assert!(first.ends_with(".png"));
    assert_eq!(first.len(), "zenote_image_".len() + 36 + ".png".len());
    assert_eq!(second.len(), first.len());
}

fn stored(http: u16, line: &str, body: &str) -> IndexEvent<Vec<u8>> {
    IndexEvent::Stored { http, status_line: line.to_string(), body: body.to_string() }
}

#[test]
fn short_content_is_answered_at_once_whatever_has_happened() {
    let short = "  0123456789  ";
    let events: Vec<IndexEvent<Vec<u8>>> = vec![
        IndexEvent::Asked,
        IndexEvent::Embedded(Ok(vec![1, 2])),
        IndexEvent::Embedded(Err("quota".to_string())),
        stored(200, "200 OK", "[]"),
    ];
    for event in events {
        match index_block("b1".to_string(), short, event) {
            IndexAction::Answer(r) => {
                assert_eq!(r.status, StatusCode::Success);
                assert!(r.error.is_none());
                match r.data.unwrap() {
                    IndexReport::Note { message, block_id } => {
                        assert_eq!(message, "Content too short, block not indexed.");
                        assert_eq!(block_id, "b1");
                    }
                    IndexReport::Stored(_) => panic!("nothing was stored"),
                }
            }
            _ => panic!("short content is neither embedded nor sent"),
        }
    }
}

#[test]
fn long_content_is_embedded_then_sent_then_answered() {
    let long = "  0123456789a  ";
    assert!(matches!(
        index_block::<Vec<u8>>("b1".to_string(), long, IndexEvent::Asked),
        IndexAction::Embed
    ));
    match index_block("b1".to_string(), long, IndexEvent::Embedded(Ok(vec![7u8, 8, 9]))) {
        IndexAction::Send(embedding) => assert_eq!(embedding, vec![7, 8, 9]),
        _ => panic!("an embedding that was made is sent"),
    }
    match index_block::<Vec<u8>>(
        "b1".to_string(),
        long,
        IndexEvent::Embedded(Err("quota".to_string())),
    ) {
        IndexAction::Answer(r) => {
            assert_eq!(r.status, StatusCode::InternalServerError);
            assert!(r.data.is_none());
            assert_eq!(r.error.as_deref(), Some("Failed to generate embedding: quota"));
        }
        _ => panic!("a failed embedding sends nothing"),
    }
    match index_block("b1".to_string(), long, stored(409, "409 Conflict", "duplicate")) {
        IndexAction::Answer(r) => {
            assert_eq!(r.status, StatusCode::BadRequest);
            assert_eq!(r.error.as_deref(), Some("Supabase error (409 Conflict): duplicate"));
        }
        _ => panic!("what the store says is the answer"),
    }
    match index_block("b1".to_string(), long, stored(201, "201 Created", r#"[{"block_id":"b1"}]"#)) {
        IndexAction::Answer(r) => {
            assert_eq!(r.status, StatusCode::Success);
            assert!(matches!(r.data, Some(IndexReport::Stored(_))));
        }
        _ => panic!("what the store says is the answer"),
    }
}

#[test]
fn a_question_is_sent_as_system_prompt_and_user_message() {
    let request = chat_request("hi", None);
    assert_eq!(request.model, "gpt-4o");
    assert_eq!(request.messages.len(), 2);
    assert_eq!(request.messages[0].role, "system");
    assert_eq!(request.messages[0].content, BARE);
    assert_eq!(request.messages[1].role, "user");
    assert_eq!(request.messages[1].content, "hi");

    match ask_llm("what is due?", Some("User: hello"), ChatEvent::Asked) {
        ChatAction::Send(request) => {
            assert_eq!(request.model, "gpt-4o");
            assert_eq!(request.messages.len(), 2);
            assert_eq!(request.messages[0].role, "system");
            assert_eq!(
                request.messages[0].content,
                format!(
                    "{}\n\nContext:\nUser: hello\n\nRelevant notes: (No specific notes found for this query)",
                    BASE
                )
            );
            assert_eq!(request.messages[1].role, "user");
            assert_eq!(request.messages[1].content, "what is due?");
        }
        ChatAction::Answer(_) => panic!("nothing was sent yet"),
    }
    match ask_llm("q", Some("Relevant notes:\n- milk"), ChatEvent::Asked) {
        ChatAction::Send(request) => {
            assert_eq!(
                request.messages[0].content,
                format!("{}\n\nContext:\nRelevant notes:\n- milk", BASE)
            );
        }
        ChatAction::Answer(_) => panic!("nothing was sent yet"),
    }
}

#[test]
fn the_reply_of_the_model_is_the_answer() {
    let answer: Value = serde_json::from_str(r#"{"choices":[1]}"#).unwrap();
    let event = ChatEvent::Answered {
        accepted: true,
        answer: answer.clone(),
        error_body: String::new(),
    };
    match ask_llm("q", None, event) {
        ChatAction::Answer(r) => {
            assert_eq!(r.status, StatusCode::Success);
            assert_eq!(r.data, Some(answer));
            assert!(r.error.is_none());
        }
        ChatAction::Send(_) => panic!("the service has replied"),
    }
    let event = ChatEvent::Answered {
        accepted: false,
        answer: Value::Null,
        error_body: "rate limited".to_string(),
    };
    match ask_llm("q", Some("c"), event) {
        ChatAction::Answer(r) => {
            assert_eq!(r.status, StatusCode::InternalServerError);
            assert!(r.data.is_none());
            assert_eq!(r.error.as_deref(), Some("OpenAI API error: rate limited"));
        }
        ChatAction::Send(_) => panic!("the service has replied"),
    }
}
