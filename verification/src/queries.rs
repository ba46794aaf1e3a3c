//! User records as the data store returns them, brought into one shape.

use vstd::prelude::*;
use crate::rows::{field_at, json_fields, read_field, FieldView};

verus! {

/// A user record with every field in its canonical type.
#[derive(Debug, Clone)]
pub struct UserEntry {
    pub id: String,
    pub email: String,
    pub first_name: String,
    pub last_name: String,
    pub avatar_url: String,
    pub created_at: String,
}

/// The mathematical content of a [`UserEntry`].
pub struct UserEntryView {
    pub id: Seq<char>,
    pub email: Seq<char>,
    pub first_name: Seq<char>,
    pub last_name: Seq<char>,
    pub avatar_url: Seq<char>,
    pub created_at: Seq<char>,
}

impl View for UserEntry {
    type V = UserEntryView;

    open spec fn view(&self) -> UserEntryView {
        UserEntryView {
            id: self.id@,
            email: self.email@,
            first_name: self.first_name@,
            last_name: self.last_name@,
            avatar_url: self.avatar_url@,
            created_at: self.created_at@,
        }
    }
}

/// The user record that a row stands for: the identifier is normalised to
/// text whether it arrived as text or as an integer, and every other field
/// is its text, or empty where the row holds no text under that key.
pub open spec fn user_entry_of(fields: Map<Seq<char>, FieldView>) -> UserEntryView {
    UserEntryView {
        id: field_at(fields, "id"@).id_text(),
        email: field_at(fields, "email"@).text_or_empty(),
        first_name: field_at(fields, "first_name"@).text_or_empty(),
        last_name: field_at(fields, "last_name"@).text_or_empty(),
        avatar_url: field_at(fields, "avatar_url"@).text_or_empty(),
        created_at: field_at(fields, "created_at"@).text_or_empty(),
    }
}

/// Reads one row of the `users` table.
pub fn user_entry_from_row(row: &serde_json::Value) -> (entry: UserEntry)
    ensures
        entry@ == user_entry_of(json_fields(*row)),
{
    UserEntry {
        id: read_field(row, "id").id_text(),
        email: read_field(row, "email").text_or_empty(),
        first_name: read_field(row, "first_name").text_or_empty(),
        last_name: read_field(row, "last_name").text_or_empty(),
        avatar_url: read_field(row, "avatar_url").text_or_empty(),
        created_at: read_field(row, "created_at").text_or_empty(),
    }
}

/// The answer to a lookup of one user by email: the first row that the
/// store returned, read as a user record; nothing where it returned no row;
/// the store's own message where the lookup failed.
pub fn fetch_user_entry_by_email(lookup: Result<Vec<serde_json::Value>, String>) -> (r: Result<
    Option<UserEntry>,
    String,
>)
    ensures
        match lookup {
            Err(message) => r == Err::<Option<UserEntry>, String>(message),
            Ok(rows) => r is Ok && (rows@.len() == 0 <==> r.unwrap() is None) && (rows@.len() > 0
                ==> r.unwrap().unwrap()@ == user_entry_of(json_fields(rows@[0]))),
        },
{
    match lookup {
        Err(message) => Err(message),
        Ok(rows) => {
            if rows.len() == 0 {
                Ok(None)
            } else {
                Ok(Some(user_entry_from_row(&rows[0])))
            }
        },
    }
}

} // verus!
