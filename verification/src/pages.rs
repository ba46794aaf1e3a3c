//! Pages: reading them from rows of the store, most recently updated first,
//! and the records that are written back.

use vstd::prelude::*;
use crate::ordering::{is_stable_order, stable_order, stable_order_is_unique, stands_before};
use crate::responses::{Response, StatusCode};
use crate::rows::{
    field_at,
    json_fields,
    lookup_by,
    normalize_parent,
    parent_reference,
    read_field,
    row_exists,
    timestamp_now,
    FieldView,
    Lookup,
};

verus! {

/// The instant that a text denotes when read as an RFC 3339 date and time:
/// whole seconds since the Unix epoch and the nanoseconds within the
/// second; `None` where the text is no such date.
pub uninterp spec fn rfc3339_instant(text: Seq<char>) -> Option<(i64, u32)>;

/// `chrono::DateTime::parse_from_rfc3339`, with the instant taken by
/// `timestamp` and `timestamp_subsec_nanos`. Trusted: the outcome is a
/// function of the text alone.
#[verifier::external_body]
fn parse_rfc3339(text: &str) -> (r: Option<(i64, u32)>)
    ensures
        r == rfc3339_instant(text@),
{
    chrono::DateTime::parse_from_rfc3339(text).ok().map(
        |d| (d.timestamp(), d.timestamp_subsec_nanos()),
    )
}

/// `chrono::DateTime::parse_from_str` with the pattern
/// `%Y-%m-%dT%H:%M:%S%.f`, with the instant taken as above. Trusted: this
/// parser yields a date and time only where the text gave it an offset from
/// universal time, and the pattern has no place for one, so nothing is ever
/// read.
#[verifier::external_body]
fn parse_patterned(text: &str) -> (r: Option<(i64, u32)>)
    ensures
        r is None,
{
    chrono::DateTime::parse_from_str(text, "%Y-%m-%dT%H:%M:%S%.f").ok().map(
        |d| (d.timestamp(), d.timestamp_subsec_nanos()),
    )
}

/// One page.
#[derive(Debug, Clone)]
pub struct Page {
    pub id: String,
    pub created_at: String,
    pub updated_at: String,
    pub user_id: String,
    pub title: String,
    pub parent_page_id: Option<String>,
}

/// The mathematical content of a [`Page`].
pub struct PageView {
    pub id: Seq<char>,
    pub created_at: Seq<char>,
    pub updated_at: Seq<char>,
    pub user_id: Seq<char>,
    pub title: Seq<char>,
    pub parent_page_id: Option<Seq<char>>,
}

impl View for Page {
    type V = PageView;

    open spec fn view(&self) -> PageView {
        PageView {
            id: self.id@,
            created_at: self.created_at@,
            updated_at: self.updated_at@,
            user_id: self.user_id@,
            title: self.title@,
            parent_page_id: match self.parent_page_id {
                Some(p) => Some(p@),
                None => None,
            },
        }
    }
}

/// The page that a row stands for. Both identifiers are normalised to
/// text; the parent is absent only where the row has no such key.
pub open spec fn page_of(fields: Map<Seq<char>, FieldView>) -> PageView {
    PageView {
        id: field_at(fields, "id"@).id_text(),
        created_at: field_at(fields, "created_at"@).text_or_empty(),
        updated_at: field_at(fields, "updated_at"@).text_or_empty(),
        user_id: field_at(fields, "user_id"@).id_text(),
        title: field_at(fields, "title"@).text_or_empty(),
        parent_page_id: field_at(fields, "parent_page_id"@).text_if_present(),
    }
}

/// Whether a text ends in the letter that marks universal time.
pub open spec fn ends_in_zulu(text: Seq<char>) -> bool {
    text.len() > 0 && text.last() == 'Z'
}

/// The instant of an update stamp. A stamp that ends in `Z` is read as
/// RFC 3339. Any other stamp is taken to be in universal time and is read
/// as RFC 3339 with `Z` appended. A stamp that cannot be read counts as the
/// epoch.
pub open spec fn stamp_instant(text: Seq<char>) -> (i64, u32) {
    let zoned = if ends_in_zulu(text) {
        text
    } else {
        text + "Z"@
    };
    match rfc3339_instant(zoned) {
        Some(instant) => instant,
        None => (0i64, 0u32),
    }
}

/// An instant as one number that grows with time.
pub open spec fn instant_key(instant: (i64, u32)) -> i128 {
    (instant.0 as int * 0x1_0000_0000 + instant.1 as int) as i128
}

/// Later instants have larger keys, and equal keys are equal instants.
pub proof fn instant_key_is_monotone(a: (i64, u32), b: (i64, u32))
    ensures
        instant_key(a) < instant_key(b) <==> (a.0 < b.0 || (a.0 == b.0 && a.1 < b.1)),
        instant_key(a) == instant_key(b) <==> a == b,
{
}

/// The keys by which rows of pages are ordered: the instants of their
/// update stamps.
pub open spec fn update_keys(rows: Seq<serde_json::Value>) -> Seq<i128> {
    Seq::new(
        rows.len(),
        |i: int| instant_key(stamp_instant(page_of(json_fields(rows[i])).updated_at)),
    )
}

/// `pages` are the pages of `rows`, each row at the place that `places`
/// gives it.
pub open spec fn pages_placed(
    rows: Seq<serde_json::Value>,
    places: Seq<usize>,
    pages: Seq<Page>,
) -> bool {
    &&& pages.len() == places.len()
    &&& forall|i: int|
        0 <= i < pages.len() ==> 0 <= places[i] < rows.len() && (#[trigger] pages[i])@ == page_of(
            json_fields(rows[places[i] as int]),
        )
}

/// `pages` are the pages of `rows` with the most recently updated first,
/// pages of equal instant in the order of their rows.
pub open spec fn pages_latest_first(rows: Seq<serde_json::Value>, pages: Seq<Page>) -> bool {
    exists|places: Seq<usize>| #[trigger]
        is_stable_order(update_keys(rows), true, places) && pages_placed(rows, places, pages)
}

/// Pages with the latest first never step forward in time.
pub proof fn pages_latest_first_descend(rows: Seq<serde_json::Value>, pages: Seq<Page>)
    requires
        pages_latest_first(rows, pages),
    ensures
        forall|i: int, j: int|
            0 <= i < j < pages.len() ==> instant_key(
                stamp_instant((#[trigger] pages[i]).updated_at@),
            ) >= instant_key(stamp_instant((#[trigger] pages[j]).updated_at@)),
{
    let places = choose|places: Seq<usize>| #[trigger]
        is_stable_order(update_keys(rows), true, places) && pages_placed(rows, places, pages);
    assert forall|i: int, j: int| 0 <= i < j < pages.len() implies instant_key(
        stamp_instant((#[trigger] pages[i]).updated_at@),
    ) >= instant_key(stamp_instant((#[trigger] pages[j]).updated_at@)) by {
        assert(stands_before(update_keys(rows), true, places[i] as int, places[j] as int));
        assert(pages[i]@ == page_of(json_fields(rows[places[i] as int])));
        assert(pages[j]@ == page_of(json_fields(rows[places[j] as int])));
    }
}

/// The order leaves no choice: two lists that both are the pages of the
/// same rows with the latest first hold the same pages at every place.
pub proof fn pages_latest_first_is_determined(
    rows: Seq<serde_json::Value>,
    first: Seq<Page>,
    second: Seq<Page>,
)
    requires
        pages_latest_first(rows, first),
        pages_latest_first(rows, second),
    ensures
        first.len() == second.len(),
        forall|i: int| 0 <= i < first.len() ==> (#[trigger] first[i])@ == second[i]@,
{
    let p = choose|places: Seq<usize>| #[trigger]
        is_stable_order(update_keys(rows), true, places) && pages_placed(rows, places, first);
    let q = choose|places: Seq<usize>| #[trigger]
        is_stable_order(update_keys(rows), true, places) && pages_placed(rows, places, second);
    stable_order_is_unique(update_keys(rows), true, p, q);
    assert forall|i: int| 0 <= i < first.len() implies (#[trigger] first[i])@ == second[i]@ by {
        assert(second[i]@ == page_of(json_fields(rows[q[i] as int])));
    }
}

/// Reads the instant of an update stamp.
pub fn read_stamp(text: &str) -> (instant: (i64, u32))
    ensures
        instant == stamp_instant(text@),
{
    let length = text.unicode_len();
    if length > 0 && text.get_char(length - 1) == 'Z' {
        match parse_rfc3339(text) {
            Some(instant) => instant,
            None => (0, 0),
        }
    } else {
        let mut extended = String::from_str(text);
        extended.append("Z");
        match parse_rfc3339(extended.as_str()) {
            Some(instant) => instant,
            None => match parse_patterned(text) {
                Some(instant) => instant,
                None => (0, 0),
            },
        }
    }
}

fn stamp_key(instant: (i64, u32)) -> (key: i128)
    ensures
        key == instant_key(instant),
{
    let seconds: i128 = instant.0 as i128;
    let nanos: i128 = instant.1 as i128;
    seconds * 0x1_0000_0000 + nanos
}

/// Reads one row of the `pages` table.
pub fn page_from_row(row: &serde_json::Value) -> (page: Page)
    ensures
        page@ == page_of(json_fields(*row)),
{
    Page {
        id: read_field(row, "id").id_text(),
        created_at: read_field(row, "created_at").text_or_empty(),
        updated_at: read_field(row, "updated_at").text_or_empty(),
        user_id: read_field(row, "user_id").id_text(),
        title: read_field(row, "title").text_or_empty(),
        parent_page_id: read_field(row, "parent_page_id").text_if_present(),
    }
}

/// The lookup that finds the pages of a user.
pub fn pages_of_user(user_id: &str) -> (lookup: Lookup)
    ensures
        lookup.table@ == "pages"@,
        lookup.column@ == "user_id"@,
        lookup.value@ == user_id@,
{
    lookup_by("pages", "user_id", user_id)
}

/// The lookup that finds one page by its identifier.
pub fn page_by_id(page_id: &str) -> (lookup: Lookup)
    ensures
        lookup.table@ == "pages"@,
        lookup.column@ == "id"@,
        lookup.value@ == page_id@,
{
    lookup_by("pages", "id", page_id)
}

/// Reads the rows of a user's pages and puts the most recently updated
/// first.
pub fn pages_from_rows(rows: &Vec<serde_json::Value>) -> (pages: Vec<Page>)
    ensures
        pages@.len() == rows@.len(),
        pages_latest_first(rows@, pages@),
{
    let mut keys: Vec<i128> = Vec::new();
    let mut i: usize = 0;
    while i < rows.len()
        invariant
            i <= rows.len(),
            keys@.len() == i,
            forall|k: int| 0 <= k < i ==> #[trigger] keys@[k] == update_keys(rows@)[k],
        decreases rows.len() - i,
    {
        let stamp = read_field(&rows[i], "updated_at").text_or_empty();
        let key = stamp_key(read_stamp(stamp.as_str()));
        keys.push(key);
        i = i + 1;
    }
    assert(keys@ =~= update_keys(rows@));
    let places = stable_order(&keys, true);
    let mut pages: Vec<Page> = Vec::new();
    let mut j: usize = 0;
    while j < places.len()
        invariant
            j <= places.len(),
            places@.len() == rows@.len(),
            forall|k: int| 0 <= k < places@.len() ==> 0 <= #[trigger] places@[k] < rows@.len(),
            pages_placed(rows@, places@.take(j as int), pages@),
        decreases places.len() - j,
    {
        let page = page_from_row(&rows[places[j]]);
        pages.push(page);
        j = j + 1;
    }
    assert(places@.take(places@.len() as int) =~= places@);
    pages
}

/// Answers a request for the pages of a user from what the lookup
/// returned: nothing where the user has no page, the pages with the most
/// recently updated first otherwise, an internal error where the lookup
/// failed.
pub fn fetch_pages(lookup: Result<Vec<serde_json::Value>, String>) -> (r: Response<Vec<Page>>)
    ensures
        r.well_formed(),
        match lookup {
            Err(message) => r.status == StatusCode::InternalServerError && r.data is None
                && r.error_text() == Some(message@),
            Ok(rows) => r.status == StatusCode::Success && r.error is None && (rows@.len() == 0
                <==> r.data is None) && (rows@.len() > 0 ==> r.data.unwrap()@.len()
                == rows@.len() && pages_latest_first(rows@, r.data.unwrap()@)),
        },
{
    match lookup {
        Err(message) => Response::transport_failure(message),
        Ok(rows) => {
            if rows.len() == 0 {
                Response::empty()
            } else {
                Response::ok(pages_from_rows(&rows))
            }
        },
    }
}

/// Answers a request for one page from what the lookup returned: nothing
/// where there is no such page, the page of the first row otherwise, an
/// internal error where the lookup failed.
pub fn fetch_page(lookup: Result<Vec<serde_json::Value>, String>) -> (r: Response<Page>)
    ensures
        r.well_formed(),
        match lookup {
            Err(message) => r.status == StatusCode::InternalServerError && r.data is None
                && r.error_text() == Some(message@),
            Ok(rows) => r.status == StatusCode::Success && r.error is None && (rows@.len() == 0
                <==> r.data is None) && (rows@.len() > 0 ==> r.data.unwrap()@ == page_of(
                json_fields(rows@[0]),
            )),
        },
{
    match lookup {
        Err(message) => Response::transport_failure(message),
        Ok(rows) => {
            if rows.len() == 0 {
                Response::empty()
            } else {
                Response::ok(page_from_row(&rows[0]))
            }
        },
    }
}

/// Whether a page is there, from what the lookup of its identifier
/// returned. A failed lookup counts as no page.
pub fn page_exists(lookup: &Result<Vec<serde_json::Value>, String>) -> (found: bool)
    ensures
        found == (lookup is Ok && lookup.unwrap()@.len() > 0),
{
    row_exists(lookup)
}

/// What is written to the store for a page.
#[derive(Debug, Clone)]
pub struct PageWrite {
    pub id: String,
    pub user_id: String,
    pub title: String,
    pub parent_page_id: Option<String>,
    pub updated_at: String,
    /// The creation stamp, where the page is new.
    pub created_at: Option<String>,
}

/// What has happened so far in the saving of a page.
#[derive(Debug)]
pub enum PageEvent {
    /// The lookup of the page's identifier returned.
    Looked(Result<Vec<serde_json::Value>, String>),
    /// The insert of the page returned: whether the store accepted it, or
    /// why it could not be sent.
    Created(Result<bool, String>),
    /// The update of the page returned.
    Updated(Result<(), String>),
}

/// What the saving of a page does next.
#[derive(Debug)]
pub enum PageAction {
    /// The page is not there yet: insert this record.
    Create(PageWrite),
    /// The page is there: update it with this record.
    Update(PageWrite),
    /// Nothing more is sent: answer with this envelope.
    Answer(Response<String>),
}

/// `body` is the record that creates the page as given.
pub open spec fn is_create_body(
    body: PageWrite,
    page_id: String,
    user_id: String,
    title: String,
    parent_page_id: Option<String>,
) -> bool {
    &&& body.id == page_id
    &&& body.user_id == user_id
    &&& body.title == title
    &&& body.created_at is Some
    &&& body.parent_page_id == parent_page_id
}

/// `body` is the record that updates the page as given, an empty parent
/// reference written as no parent.
pub open spec fn is_update_body(
    body: PageWrite,
    page_id: String,
    user_id: String,
    title: String,
    parent_page_id: Option<String>,
) -> bool {
    &&& body.id == page_id
    &&& body.user_id == user_id
    &&& body.title == title
    &&& body.created_at is None
    &&& body.parent_page_id is Some <==> parent_reference(parent_page_id) is Some
    &&& body.parent_page_id is Some ==> body.parent_page_id.unwrap()@ == parent_reference(
        parent_page_id,
    ).unwrap()
}

/// `r` is the answer to a save that had to create the page: a confirmation
/// where the store accepted the insert, a bad request where it refused it,
/// an internal error with the reason where the insert could not be sent.
pub open spec fn is_created_answer(r: Response<String>, created: Result<bool, String>) -> bool {
    match created {
        Ok(accepted) => if accepted {
            r.status == StatusCode::Success && r.error is None && r.data is Some
                && r.data.unwrap()@ == "Created page"@
        } else {
            r.status == StatusCode::BadRequest && r.data is None && r.error_text() == Some(
                "Page was not created"@,
            )
        },
        Err(message) => r.status == StatusCode::InternalServerError && r.data is None
            && r.error_text() == Some(message@),
    }
}

/// `r` is the answer to a save that updated the page: a success with
/// nothing to report, or an internal error with the reason.
pub open spec fn is_updated_answer(r: Response<String>, updated: Result<(), String>) -> bool {
    match updated {
        Ok(_) => r.status == StatusCode::Success && r.data is None && r.error is None,
        Err(message) => r.status == StatusCode::InternalServerError && r.data is None
            && r.error_text() == Some(message@),
    }
}

/// The record that updates a page. An empty parent reference is written as
/// no parent; the update stamp is the present instant.
pub fn update_page_body(
    page_id: String,
    user_id: String,
    title: String,
    parent_page_id: Option<String>,
) -> (body: PageWrite)
    ensures
        is_update_body(body, page_id, user_id, title, parent_page_id),
{
    PageWrite {
        id: page_id,
        user_id,
        title,
        parent_page_id: normalize_parent(parent_page_id),
        updated_at: timestamp_now(),
        created_at: None,
    }
}

/// The record that creates a page. The parent reference is written as it
/// was given; both stamps are the present instant.
pub fn create_page_body(
    user_id: String,
    page_id: String,
    title: String,
    parent_page_id: Option<String>,
) -> (body: PageWrite)
    ensures
        is_create_body(body, page_id, user_id, title, parent_page_id),
{
    PageWrite {
        id: page_id,
        user_id,
        title,
        parent_page_id,
        updated_at: timestamp_now(),
        created_at: Some(timestamp_now()),
    }
}

/// Answers a save that had to create the page, from how the creation went.
pub fn page_created_response(created: Result<bool, String>) -> (r: Response<String>)
    ensures
        r.well_formed(),
        is_created_answer(r, created),
{
    match created {
        Ok(accepted) => {
            if accepted {
                Response::ok(String::from_str("Created page"))
            } else {
                Response::failure(StatusCode::BadRequest, String::from_str("Page was not created"))
            }
        },
        Err(message) => Response::transport_failure(message),
    }
}

/// Answers a save that updated the page, from how the update went.
pub fn page_updated_response(updated: Result<(), String>) -> (r: Response<String>)
    ensures
        r.well_formed(),
        is_updated_answer(r, updated),
{
    match updated {
        Ok(_) => Response::empty(),
        Err(message) => Response::transport_failure(message),
    }
}

/// Decides the next step of the saving of a page. Once the lookup of its
/// identifier has returned, a page that is not there is created and one
/// that is there is updated; a failed lookup counts as a page that is not
/// there. Once the store has answered, the save is answered: with a
/// success only where the page was written.
pub fn update_page(
    page_id: String,
    user_id: String,
    title: String,
    parent_page_id: Option<String>,
    event: PageEvent,
) -> (action: PageAction)
    ensures
        action matches PageAction::Answer(r) ==> r.well_formed(),
        match event {
            PageEvent::Looked(lookup) => if lookup is Ok && lookup.unwrap()@.len() > 0 {
                action matches PageAction::Update(body) && is_update_body(
                    body,
                    page_id,
                    user_id,
                    title,
                    parent_page_id,
                )
            } else {
                action matches PageAction::Create(body) && is_create_body(
                    body,
                    page_id,
                    user_id,
                    title,
                    parent_page_id,
                )
            },
            PageEvent::Created(created) => (action matches PageAction::Answer(r)
                && is_created_answer(r, created)),
            PageEvent::Updated(updated) => (action matches PageAction::Answer(r)
                && is_updated_answer(r, updated)),
        },
{
    match event {
        PageEvent::Looked(lookup) => {
            if page_exists(&lookup) {
                PageAction::Update(update_page_body(page_id, user_id, title, parent_page_id))
            } else {
                PageAction::Create(create_page_body(user_id, page_id, title, parent_page_id))
            }
        },
        PageEvent::Created(created) => PageAction::Answer(page_created_response(created)),
        PageEvent::Updated(updated) => PageAction::Answer(page_updated_response(updated)),
    }
}

/// Answers the creation of a page from what the store said: its answer as
/// the payload, under a success where the store accepted the insert and
/// under a bad request where it did not.
pub fn create_page(accepted: bool, answer: serde_json::Value) -> (r: Response<serde_json::Value>)
    ensures
        r.well_formed(),
        r.status == if accepted {
            StatusCode::Success
        } else {
            StatusCode::BadRequest
        },
        r.data == Some(answer),
        r.error is None,
{
    let status = if accepted {
        StatusCode::Success
    } else {
        StatusCode::BadRequest
    };
    Response { status, data: Some(answer), error: None }
}

} // verus!
