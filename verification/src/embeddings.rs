//! Indexing of blocks for retrieval and the assembly of the prompt for the
//! language model: which blocks are worth indexing, what the answers of the
//! remote services mean, and what the model is told about its context.

use vstd::prelude::*;
use vstd::utf8::encode_utf8;
use crate::responses::{Response, StatusCode};
use crate::rows::{json_document, json_error_text, json_fields, parse_json};
use crate::text::{contains, occurs_in, trim, trimmed};

verus! {

/// The least number of bytes, white space at both ends not counted, that a
/// block must exceed to be indexed.
pub const MIN_INDEXED_BYTES: usize = 10;

/// Whether a block's content is long enough to be indexed.
pub open spec fn indexable(content: Seq<char>) -> bool {
    encode_utf8(trimmed(content)).len() > MIN_INDEXED_BYTES
}

/// Decides whether a block's content is indexed.
pub fn content_is_indexable(content: &str) -> (r: bool)
    ensures
        r == indexable(content@),
{
    trim(content).as_bytes().len() > MIN_INDEXED_BYTES
}

/// What the indexing of a block reports.
#[derive(Debug)]
pub enum IndexReport {
    /// The block was not indexed, or was indexed without an answer to show.
    Note { message: String, block_id: String },
    /// The row that the store wrote.
    Stored(serde_json::Value),
}

/// `r` is the answer for a block whose content is too short: a success
/// with a note that names the block.
pub open spec fn is_skipped_answer(r: Response<IndexReport>, block_id: String) -> bool {
    &&& r.status == StatusCode::Success
    &&& r.error is None
    &&& r.data is Some
    &&& r.data.unwrap() matches IndexReport::Note { message, block_id: id } && id == block_id
        && message@ == "Content too short, block not indexed."@
}

/// `r` is the answer for a block whose embedding could not be made: an
/// internal error with the reason.
pub open spec fn is_embedding_failure<T>(r: Response<T>, reason: Seq<char>) -> bool {
    &&& r.status == StatusCode::InternalServerError
    &&& r.data is None
    &&& r.error_text() == Some("Failed to generate embedding: "@ + reason)
}

/// `r` is the answer for a block after the store said `http`, with
/// `status_line` as that status in text and `body` as what it sent.
///
/// A successful answer without a body is a success with a note. One with a
/// body that is a JSON document is a success that carries the document, and
/// one with any other body is an internal error. An unsuccessful answer is
/// reported under the status that stands for `http`, with the status line
/// and the body in the message.
pub open spec fn is_stored_answer(
    r: Response<IndexReport>,
    http: u16,
    status_line: Seq<char>,
    body: Seq<char>,
    block_id: String,
) -> bool {
    if 200 <= http <= 299 {
        if body.len() == 0 {
            &&& r.status == StatusCode::Success
            &&& r.error is None
            &&& r.data is Some
            &&& r.data.unwrap() matches IndexReport::Note { message, block_id: id } && id
                == block_id && message@ == "Block indexed (Supabase returned empty body)."@
        } else {
            match json_document(body) {
                Some(fields) => {
                    &&& r.status == StatusCode::Success
                    &&& r.error is None
                    &&& r.data is Some
                    &&& r.data.unwrap() matches IndexReport::Stored(value) && json_fields(value)
                        == fields
                },
                None => {
                    &&& r.status == StatusCode::InternalServerError
                    &&& r.data is None
                    &&& exists|reason: Seq<char>|
                        r.error_text() == Some("Failed to parse Supabase response: "@ + reason)
                },
            }
        }
    } else {
        &&& r.status == StatusCode::spec_from_http(http)
        &&& r.data is None
        &&& r.error_text() == Some("Supabase error ("@ + status_line + "): "@ + body)
    }
}

/// Answers the indexing of a block whose content is too short.
pub fn index_skipped(block_id: String) -> (r: Response<IndexReport>)
    ensures
        r.well_formed(),
        is_skipped_answer(r, block_id),
{
    Response::ok(
        IndexReport::Note {
            message: String::from_str("Content too short, block not indexed."),
            block_id,
        },
    )
}

/// Answers the indexing of a block whose embedding could not be made.
pub fn embedding_failed<T>(reason: &str) -> (r: Response<T>)
    ensures
        r.well_formed(),
        is_embedding_failure(r, reason@),
{
    let mut message = String::from_str("Failed to generate embedding: ");
    message.append(reason);
    Response::failure(StatusCode::InternalServerError, message)
}

/// Answers the indexing of a block from what the store said: `http` is the
/// status of its answer, `status_line` that status as text, `body` what it
/// sent.
pub fn index_stored(http: u16, status_line: &str, body: &str, block_id: String) -> (r: Response<
    IndexReport,
>)
    ensures
        r.well_formed(),
        is_stored_answer(r, http, status_line@, body@, block_id),
{
    if 200 <= http && http <= 299 {
        if body.is_empty() {
            Response::ok(
                IndexReport::Note {
                    message: String::from_str("Block indexed (Supabase returned empty body)."),
                    block_id,
                },
            )
        } else {
            match parse_json(body) {
                Ok(value) => Response::ok(IndexReport::Stored(value)),
                Err(error) => {
                    let mut message = String::from_str("Failed to parse Supabase response: ");
                    let reason = json_error_text(&error);
                    message.append(reason.as_str());
                    Response::failure(StatusCode::InternalServerError, message)
                },
            }
        }
    } else {
        let mut message = String::from_str("Supabase error (");
        message.append(status_line);
        message.append("): ");
        message.append(body);
        Response::failure(StatusCode::from_http(http), message)
    }
}

/// What has happened so far in the indexing of a block. `E` is the
/// embedding, which this library carries and never reads.
#[derive(Debug)]
pub enum IndexEvent<E> {
    /// The indexing was asked for and nothing has been done yet.
    Asked,
    /// The embedding of the content was made, or could not be.
    Embedded(Result<E, String>),
    /// The store answered the row that was sent.
    Stored { http: u16, status_line: String, body: String },
}

/// What the indexing of a block does next.
#[derive(Debug)]
pub enum IndexAction<E> {
    /// Ask for the embedding of the content.
    Embed,
    /// Send the row with this embedding to the store.
    Send(E),
    /// Nothing more is sent: answer with this envelope.
    Answer(Response<IndexReport>),
}

/// Decides the next step of the indexing of a block.
///
/// Content that is too short is answered at once with a note, whatever has
/// happened: no embedding is asked for and nothing is sent. Otherwise the
/// embedding is asked for; a failed embedding is answered as an internal
/// error and nothing is sent; an embedding that was made is sent; and what
/// the store says to it is the answer.
pub fn index_block<E>(block_id: String, content: &str, event: IndexEvent<E>) -> (action:
    IndexAction<E>)
    ensures
        action matches IndexAction::Answer(r) ==> r.well_formed(),
        !indexable(content@) ==> (action matches IndexAction::Answer(r) && is_skipped_answer(
            r,
            block_id,
        )),
        indexable(content@) ==> match event {
            IndexEvent::Asked => action is Embed,
            IndexEvent::Embedded(Ok(embedding)) => action == IndexAction::Send(embedding),
            IndexEvent::Embedded(Err(reason)) => (action matches IndexAction::Answer(r)
                && is_embedding_failure(r, reason@)),
            IndexEvent::Stored { http, status_line, body } => (
            action matches IndexAction::Answer(r) && is_stored_answer(
                r,
                http,
                status_line@,
                body@,
                block_id,
            )),
        },
{
    if !content_is_indexable(content) {
        return IndexAction::Answer(index_skipped(block_id));
    }
    match event {
        IndexEvent::Asked => IndexAction::Embed,
        IndexEvent::Embedded(Ok(embedding)) => IndexAction::Send(embedding),
        IndexEvent::Embedded(Err(reason)) => IndexAction::Answer(
            embedding_failed(reason.as_str()),
        ),
        IndexEvent::Stored { http, status_line, body } => IndexAction::Answer(
            index_stored(http, status_line.as_str(), body.as_str(), block_id),
        ),
    }
}

/// Answers a search for similar blocks from what the store said. A
/// successful answer carries the JSON document of its body; a body that is
/// no document is handed back as the `Err` of the call. An unsuccessful
/// answer is an internal error with the body in the message.
pub fn query_similar_blocks(accepted: bool, body: &str) -> (r: Result<
    Response<serde_json::Value>,
    String,
>)
    ensures
        accepted && json_document(body@) is Some ==> r is Ok && r.unwrap().status
            == StatusCode::Success && r.unwrap().error is None && r.unwrap().data is Some
            && json_fields(r.unwrap().data.unwrap()) == json_document(body@).unwrap(),
        accepted && json_document(body@) is None ==> r is Err,
        !accepted ==> r is Ok && r.unwrap().status == StatusCode::InternalServerError
            && r.unwrap().data is None && r.unwrap().error_text() == Some(
            "Supabase error: "@ + body@,
        ),
        r is Ok ==> r.unwrap().well_formed(),
{
    if accepted {
        match parse_json(body) {
            Ok(value) => Ok(Response::ok(value)),
            Err(error) => Err(json_error_text(&error)),
        }
    } else {
        let mut message = String::from_str("Supabase error: ");
        message.append(body);
        Ok(Response::failure(StatusCode::InternalServerError, message))
    }
}

/// The instruction that opens the prompt where the caller sent context.
pub open spec fn base_instruction() -> Seq<char> {
    "You are a helpful assistant for the note-taking app called ZeNote. Answer the user's question based on their notes and previous conversation. Be specific and reference information from their notes when relevant."@
}

/// The whole prompt where the caller sent no context.
pub open spec fn bare_instruction() -> Seq<char> {
    "You are a helpful assistant for the note-taking app called ZeNote. Answer the user's question as clearly and concisely as possible. No chat history was provided. Relevant notes: (No specific notes found for this query)."@
}

/// The context as the model sees it: context that names no relevant notes
/// gets a remark that none were found.
pub open spec fn context_with_notes(context: Seq<char>) -> Seq<char> {
    if occurs_in("Relevant notes:"@, context) {
        context
    } else {
        context + "\n\nRelevant notes: (No specific notes found for this query)"@
    }
}

/// The system prompt for a question, given the context that came with it.
pub open spec fn system_prompt_of(context: Option<Seq<char>>) -> Seq<char> {
    match context {
        Some(text) => base_instruction() + "\n\nContext:\n"@ + context_with_notes(text),
        None => bare_instruction(),
    }
}

/// Assembles the system prompt for a question.
pub fn system_prompt(context: Option<&str>) -> (prompt: String)
    ensures
        prompt@ == system_prompt_of(
            match context {
                Some(text) => Some(text@),
                None => None,
            },
        ),
{
    match context {
        Some(text) => {
            let mut prompt = String::from_str(
                "You are a helpful assistant for the note-taking app called ZeNote. Answer the user's question based on their notes and previous conversation. Be specific and reference information from their notes when relevant.",
            );
            prompt.append("\n\nContext:\n");
            prompt.append(text);
            if !contains(text, "Relevant notes:") {
                prompt.append("\n\nRelevant notes: (No specific notes found for this query)");
            }
            assert(prompt@ =~= system_prompt_of(Some(text@)));
            prompt
        },
        None => String::from_str(
            "You are a helpful assistant for the note-taking app called ZeNote. Answer the user's question as clearly and concisely as possible. No chat history was provided. Relevant notes: (No specific notes found for this query).",
        ),
    }
}

/// The model that answers questions.
pub open spec fn chat_model() -> Seq<char> {
    "gpt-4o"@
}

/// One message of a conversation with the language model.
#[derive(Debug, Clone)]
pub struct ChatMessage {
    pub role: String,
    pub content: String,
}

/// What is sent to the language model.
#[derive(Debug, Clone)]
pub struct ChatRequest {
    pub model: String,
    pub messages: Vec<ChatMessage>,
}

/// `request` asks the model the question `query` with `context`: two
/// messages, first the system prompt for the context and then the question
/// itself from the user.
pub open spec fn is_chat_request(
    request: ChatRequest,
    query: Seq<char>,
    context: Option<Seq<char>>,
) -> bool {
    &&& request.model@ == chat_model()
    &&& request.messages@.len() == 2
    &&& request.messages@[0].role@ == "system"@
    &&& request.messages@[0].content@ == system_prompt_of(context)
    &&& request.messages@[1].role@ == "user"@
    &&& request.messages@[1].content@ == query
}

/// `r` is the answer to a question after the model's service replied.
pub open spec fn is_llm_answer(
    r: Response<serde_json::Value>,
    accepted: bool,
    answer: serde_json::Value,
    error_body: Seq<char>,
) -> bool {
    if accepted {
        r.status == StatusCode::Success && r.data == Some(answer) && r.error is None
    } else {
        r.status == StatusCode::InternalServerError && r.data is None && r.error_text() == Some(
            "OpenAI API error: "@ + error_body,
        )
    }
}

/// Builds what is sent to the language model for a question.
pub fn chat_request(query: &str, context: Option<&str>) -> (request: ChatRequest)
    ensures
        is_chat_request(
            request,
            query@,
            match context {
                Some(text) => Some(text@),
                None => None,
            },
        ),
{
    let mut messages: Vec<ChatMessage> = Vec::new();
    messages.push(ChatMessage { role: String::from_str("system"), content: system_prompt(context) });
    messages.push(ChatMessage { role: String::from_str("user"), content: String::from_str(query) });
    ChatRequest { model: String::from_str("gpt-4o"), messages }
}

/// Answers a question to the language model from what the model's service
/// said: its answer as the payload where it reported success, and
/// otherwise an internal error with its answer in the message.
pub fn llm_answer(accepted: bool, answer: serde_json::Value, error_body: &str) -> (r: Response<
    serde_json::Value,
>)
    ensures
        r.well_formed(),
        is_llm_answer(r, accepted, answer, error_body@),
{
    if accepted {
        Response::ok(answer)
    } else {
        let mut message = String::from_str("OpenAI API error: ");
        message.append(error_body);
        Response::failure(StatusCode::InternalServerError, message)
    }
}

/// What has happened so far with a question to the language model.
#[derive(Debug)]
pub enum ChatEvent {
    /// The question was asked and nothing has been sent yet.
    Asked,
    /// The model's service replied.
    Answered { accepted: bool, answer: serde_json::Value, error_body: String },
}

/// What a question to the language model does next.
#[derive(Debug)]
pub enum ChatAction {
    /// Send this request to the model's service.
    Send(ChatRequest),
    /// Answer with this envelope.
    Answer(Response<serde_json::Value>),
}

/// Decides the next step of a question to the language model: first the
/// request with the system prompt for the context and the question, then
/// the answer made from what the service replied.
pub fn ask_llm(query: &str, context: Option<&str>, event: ChatEvent) -> (action: ChatAction)
    ensures
        match event {
            ChatEvent::Asked => (action matches ChatAction::Send(request) && is_chat_request(
                request,
                query@,
                match context {
                    Some(text) => Some(text@),
                    None => None,
                },
            )),
            ChatEvent::Answered { accepted, answer, error_body } => (
            action matches ChatAction::Answer(r) && r.well_formed() && is_llm_answer(
                r,
                accepted,
                answer,
                error_body@,
            )),
        },
{
    match event {
        ChatEvent::Asked => ChatAction::Send(chat_request(query, context)),
        ChatEvent::Answered { accepted, answer, error_body } => ChatAction::Answer(
            llm_answer(accepted, answer, error_body.as_str()),
        ),
    }
}

} // verus!
