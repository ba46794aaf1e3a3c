//! Blocks of a page: reading them from rows of the store in their display
//! order, and the records that are written back.

use vstd::prelude::*;
use crate::ordering::{is_stable_order, stable_order, stable_order_is_unique, stands_before};
use crate::responses::{Response, StatusCode};
use crate::rows::{
    field_at,
    json_document,
    json_error_text,
    json_fields,
    lookup_by,
    normalize_parent,
    parse_json,
    parent_reference,
    read_field,
    timestamp_now,
    FieldView,
    Lookup,
};

verus! {

/// One block of a page.
#[derive(Debug, Clone)]
pub struct Block {
    pub id: String,
    pub created_at: String,
    pub updated_at: String,
    pub block_type: String,
    pub order: i32,
    pub content: String,
    pub page_id: String,
    pub parent_block_id: Option<String>,
}

/// The mathematical content of a [`Block`].
pub struct BlockView {
    pub id: Seq<char>,
    pub created_at: Seq<char>,
    pub updated_at: Seq<char>,
    pub block_type: Seq<char>,
    pub order: i32,
    pub content: Seq<char>,
    pub page_id: Seq<char>,
    pub parent_block_id: Option<Seq<char>>,
}

impl View for Block {
    type V = BlockView;

    open spec fn view(&self) -> BlockView {
        BlockView {
            id: self.id@,
            created_at: self.created_at@,
            updated_at: self.updated_at@,
            block_type: self.block_type@,
            order: self.order,
            content: self.content@,
            page_id: self.page_id@,
            parent_block_id: match self.parent_block_id {
                Some(p) => Some(p@),
                None => None,
            },
        }
    }
}

/// The display position that a row gives: its `order` where that is an
/// integer, cut to 32 bits, and zero otherwise.
pub open spec fn order_of(fields: Map<Seq<char>, FieldView>) -> i32 {
    field_at(fields, "order"@).integer_or_zero() as i32
}

/// The block that a row stands for. The identifier is normalised to text;
/// the parent is there only where the row holds text for it.
pub open spec fn block_of(fields: Map<Seq<char>, FieldView>) -> BlockView {
    BlockView {
        id: field_at(fields, "id"@).id_text(),
        created_at: field_at(fields, "created_at"@).text_or_empty(),
        updated_at: field_at(fields, "updated_at"@).text_or_empty(),
        block_type: field_at(fields, "type"@).text_or_empty(),
        order: order_of(fields),
        content: field_at(fields, "content"@).text_or_empty(),
        page_id: field_at(fields, "page_id"@).text_or_empty(),
        parent_block_id: field_at(fields, "parent_block_id"@).text(),
    }
}

/// The keys by which rows of blocks are ordered.
pub open spec fn order_keys(rows: Seq<serde_json::Value>) -> Seq<i128> {
    Seq::new(rows.len(), |i: int| order_of(json_fields(rows[i])) as i128)
}

/// `blocks` are the blocks of `rows`, each row at the place that `places`
/// gives it.
pub open spec fn blocks_placed(
    rows: Seq<serde_json::Value>,
    places: Seq<usize>,
    blocks: Seq<Block>,
) -> bool {
    &&& blocks.len() == places.len()
    &&& forall|i: int|
        0 <= i < blocks.len() ==> 0 <= places[i] < rows.len() && (#[trigger] blocks[i])@
            == block_of(json_fields(rows[places[i] as int]))
}

/// `blocks` are the blocks of `rows` in ascending display order, blocks of
/// equal position in the order of their rows.
pub open spec fn blocks_in_order(rows: Seq<serde_json::Value>, blocks: Seq<Block>) -> bool {
    exists|places: Seq<usize>| #[trigger]
        is_stable_order(order_keys(rows), false, places) && blocks_placed(rows, places, blocks)
}

/// Blocks in display order never step down in position.
pub proof fn blocks_in_order_ascend(rows: Seq<serde_json::Value>, blocks: Seq<Block>)
    requires
        blocks_in_order(rows, blocks),
    ensures
        forall|i: int, j: int|
            0 <= i < j < blocks.len() ==> (#[trigger] blocks[i]).order <= (
            #[trigger] blocks[j]).order,
{
    let places = choose|places: Seq<usize>| #[trigger]
        is_stable_order(order_keys(rows), false, places) && blocks_placed(rows, places, blocks);
    assert forall|i: int, j: int| 0 <= i < j < blocks.len() implies (#[trigger] blocks[i]).order
        <= (#[trigger] blocks[j]).order by {
        assert(stands_before(order_keys(rows), false, places[i] as int, places[j] as int));
        assert(blocks[i]@.order == order_of(json_fields(rows[places[i] as int])));
        assert(blocks[j]@.order == order_of(json_fields(rows[places[j] as int])));
    }
}

/// The display order leaves no choice: two lists that both are the blocks
/// of the same rows in display order hold the same blocks at every place.
pub proof fn blocks_in_order_is_determined(
    rows: Seq<serde_json::Value>,
    first: Seq<Block>,
    second: Seq<Block>,
)
    requires
        blocks_in_order(rows, first),
        blocks_in_order(rows, second),
    ensures
        first.len() == second.len(),
        forall|i: int| 0 <= i < first.len() ==> (#[trigger] first[i])@ == second[i]@,
{
    let p = choose|places: Seq<usize>| #[trigger]
        is_stable_order(order_keys(rows), false, places) && blocks_placed(rows, places, first);
    let q = choose|places: Seq<usize>| #[trigger]
        is_stable_order(order_keys(rows), false, places) && blocks_placed(rows, places, second);
    stable_order_is_unique(order_keys(rows), false, p, q);
    assert forall|i: int| 0 <= i < first.len() implies (#[trigger] first[i])@ == second[i]@ by {
        assert(second[i]@ == block_of(json_fields(rows[q[i] as int])));
    }
}

fn read_order(row: &serde_json::Value) -> (order: i32)
    ensures
        order == order_of(json_fields(*row)),
{
    let wide: i64 = read_field(row, "order").integer_or_zero();
    #[verifier::truncate]
    (wide as i32)
}

/// Reads one row of the `blocks` table.
pub fn block_from_row(row: &serde_json::Value) -> (block: Block)
    ensures
        block@ == block_of(json_fields(*row)),
{
    Block {
        id: read_field(row, "id").id_text(),
        created_at: read_field(row, "created_at").text_or_empty(),
        updated_at: read_field(row, "updated_at").text_or_empty(),
        block_type: read_field(row, "type").text_or_empty(),
        order: read_order(row),
        content: read_field(row, "content").text_or_empty(),
        page_id: read_field(row, "page_id").text_or_empty(),
        parent_block_id: read_field(row, "parent_block_id").text(),
    }
}

/// The lookup that finds the blocks of a page.
pub fn blocks_of_page(page_id: &str) -> (lookup: Lookup)
    ensures
        lookup.table@ == "blocks"@,
        lookup.column@ == "page_id"@,
        lookup.value@ == page_id@,
{
    lookup_by("blocks", "page_id", page_id)
}

/// Reads the rows of a page's blocks and puts them in display order.
pub fn blocks_from_rows(rows: &Vec<serde_json::Value>) -> (blocks: Vec<Block>)
    ensures
        blocks@.len() == rows@.len(),
        blocks_in_order(rows@, blocks@),
{
    let mut keys: Vec<i128> = Vec::new();
    let mut i: usize = 0;
    while i < rows.len()
        invariant
            i <= rows.len(),
            keys@.len() == i,
            forall|k: int| 0 <= k < i ==> #[trigger] keys@[k] == order_keys(rows@)[k],
        decreases rows.len() - i,
    {
        let order: i32 = read_order(&rows[i]);
        keys.push(order as i128);
        i = i + 1;
    }
    assert(keys@ =~= order_keys(rows@));
    let places = stable_order(&keys, false);
    let mut blocks: Vec<Block> = Vec::new();
    let mut j: usize = 0;
    while j < places.len()
        invariant
            j <= places.len(),
            places@.len() == rows@.len(),
            forall|k: int| 0 <= k < places@.len() ==> 0 <= #[trigger] places@[k] < rows@.len(),
            blocks_placed(rows@, places@.take(j as int), blocks@),
        decreases places.len() - j,
    {
        let block = block_from_row(&rows[places[j]]);
        blocks.push(block);
        j = j + 1;
    }
    assert(places@.take(places@.len() as int) =~= places@);
    blocks
}

/// Answers a request for the blocks of a page from what the lookup
/// returned: nothing where the page has no block, the blocks in display
/// order otherwise, an internal error where the lookup failed.
pub fn fetch_blocks(lookup: Result<Vec<serde_json::Value>, String>) -> (r: Response<Vec<Block>>)
    ensures
        r.well_formed(),
        match lookup {
            Err(message) => r.status == StatusCode::InternalServerError && r.data is None
                && r.error_text() == Some(message@),
            Ok(rows) => r.status == StatusCode::Success && r.error is None && (rows@.len() == 0
                <==> r.data is None) && (rows@.len() > 0 ==> r.data.unwrap()@.len()
                == rows@.len() && blocks_in_order(rows@, r.data.unwrap()@)),
        },
{
    match lookup {
        Err(message) => Response::transport_failure(message),
        Ok(rows) => {
            if rows.len() == 0 {
                Response::empty()
            } else {
                Response::ok(blocks_from_rows(&rows))
            }
        },
    }
}

/// What is written to the store for a block.
#[derive(Debug, Clone)]
pub struct BlockWrite {
    /// The identifier, where the block has one already.
    pub id: Option<String>,
    pub page_id: String,
    pub content: String,
    pub parent_block_id: Option<String>,
    pub order: i32,
    pub block_type: String,
    pub updated_at: String,
    /// The creation stamp, where the block is new.
    pub created_at: Option<String>,
}

/// The record that updates the block `block_id`. An empty parent reference
/// is written as no parent; the update stamp is the present instant.
pub fn update_block(
    block_id: String,
    page_id: String,
    content: String,
    parent_block_id: Option<String>,
    order: i32,
    block_type: String,
) -> (body: BlockWrite)
    ensures
        body.id == Some(block_id),
        body.page_id == page_id,
        body.content == content,
        body.order == order,
        body.block_type == block_type,
        body.created_at is None,
        body.parent_block_id is Some <==> parent_reference(parent_block_id) is Some,
        body.parent_block_id is Some ==> body.parent_block_id.unwrap()@ == parent_reference(
            parent_block_id,
        ).unwrap(),
{
    BlockWrite {
        id: Some(block_id),
        page_id,
        content,
        parent_block_id: normalize_parent(parent_block_id),
        order,
        block_type,
        updated_at: timestamp_now(),
        created_at: None,
    }
}

/// The record that creates a block. An empty parent reference is written as
/// no parent; both stamps are the present instant.
pub fn create_block(
    page_id: String,
    content: String,
    parent_block_id: Option<String>,
    order: i32,
    block_type: String,
) -> (body: BlockWrite)
    ensures
        body.id is None,
        body.page_id == page_id,
        body.content == content,
        body.order == order,
        body.block_type == block_type,
        body.created_at is Some,
        body.parent_block_id is Some <==> parent_reference(parent_block_id) is Some,
        body.parent_block_id is Some ==> body.parent_block_id.unwrap()@ == parent_reference(
            parent_block_id,
        ).unwrap(),
{
    BlockWrite {
        id: None,
        page_id,
        content,
        parent_block_id: normalize_parent(parent_block_id),
        order,
        block_type,
        updated_at: timestamp_now(),
        created_at: Some(timestamp_now()),
    }
}

/// Answers the writing of a block from what the store returned: the JSON
/// document of its answer as the payload of a success. A failed write, and
/// an answer that is no JSON document, are handed back as the `Err` of the
/// call; the first carries the store's own message.
pub fn block_written(written: Result<String, String>) -> (r: Result<
    Response<serde_json::Value>,
    String,
>)
    ensures
        match written {
            Err(message) => r == Err::<Response<serde_json::Value>, String>(message),
            Ok(answer) => match json_document(answer@) {
                None => r is Err,
                Some(fields) => r is Ok && r.unwrap().well_formed() && r.unwrap().status
                    == StatusCode::Success && r.unwrap().error is None && r.unwrap().data is Some
                    && json_fields(r.unwrap().data.unwrap()) == fields,
            },
        },
{
    match written {
        Err(message) => Err(message),
        Ok(answer) => match parse_json(answer.as_str()) {
            Ok(value) => Ok(Response::ok(value)),
            Err(error) => Err(json_error_text(&error)),
        },
    }
}

} // verus!
