//! Rows of the data store. A row is an untyped JSON object whose fields may
//! arrive as text or as numbers; every read goes through [`read_field`] and
//! one of the coercions of [`Field`], so that the rest of the library only
//! sees canonical values.

use vstd::prelude::*;

verus! {

/// An untyped JSON value of `serde_json`, carried through as it is.
#[verifier::external_type_specification]
#[verifier::external_body]
pub struct ExJsonValue(serde_json::Value);

/// What one field of a row holds, as far as this library reads it.
#[derive(Debug, Clone)]
pub enum Field {
    /// The row has no such key, or is no object at all.
    Missing,
    /// The key is there and holds JSON `null`.
    Null,
    Text(String),
    /// An integer that fits 64 signed bits.
    Integer(i64),
    /// A non-negative integer beyond the signed range.
    Unsigned(u64),
    /// Anything else: a boolean, a fraction, an array, an object.
    Other,
}

/// The mathematical content of a [`Field`].
pub enum FieldView {
    Missing,
    Null,
    Text(Seq<char>),
    Integer(int),
    Other,
}

/// The fields of a JSON value: for an object, each key with what it holds;
/// for any other value, no field at all.
pub uninterp spec fn json_fields(value: serde_json::Value) -> Map<Seq<char>, FieldView>;

/// The field stored under `key`, or `Missing`.
pub open spec fn field_at(fields: Map<Seq<char>, FieldView>, key: Seq<char>) -> FieldView {
    if fields.dom().contains(key) {
        fields[key]
    } else {
        FieldView::Missing
    }
}

pub open spec fn digit_char(d: int) -> char {
    if d == 0 {
        '0'
    } else if d == 1 {
        '1'
    } else if d == 2 {
        '2'
    } else if d == 3 {
        '3'
    } else if d == 4 {
        '4'
    } else if d == 5 {
        '5'
    } else if d == 6 {
        '6'
    } else if d == 7 {
        '7'
    } else if d == 8 {
        '8'
    } else {
        '9'
    }
}

/// The decimal digits of a natural number, most significant first, without
/// leading zeros.
pub open spec fn decimal_digits(n: nat) -> Seq<char>
    decreases n,
{
    if n < 10 {
        seq![digit_char(n as int)]
    } else {
        decimal_digits(n / 10).push(digit_char((n % 10) as int))
    }
}

/// The decimal text of an integer, with a leading minus sign below zero.
pub open spec fn decimal_text(n: int) -> Seq<char> {
    if n < 0 {
        seq!['-'] + decimal_digits((-n) as nat)
    } else {
        decimal_digits(n as nat)
    }
}

/// The digits of a number are at least one character, at least two from
/// ten on, and never hold a minus sign.
pub proof fn decimal_digits_shape(n: nat)
    ensures
        decimal_digits(n).len() >= 1,
        n >= 10 ==> decimal_digits(n).len() >= 2,
        forall|i: int| 0 <= i < decimal_digits(n).len() ==> decimal_digits(n)[i] != '-',
    decreases n,
{
    if n >= 10 {
        decimal_digits_shape(n / 10);
    }
}

/// Different numbers have different digits.
pub proof fn decimal_digits_tell_numbers_apart(a: nat, b: nat)
    requires
        decimal_digits(a) == decimal_digits(b),
    ensures
        a == b,
    decreases a,
{
    decimal_digits_shape(a);
    decimal_digits_shape(b);
    if a < 10 {
        assert(decimal_digits(a)[0] == digit_char(a as int));
        assert(decimal_digits(b)[0] == digit_char(b as int));
    } else {
        let high_a = decimal_digits(a / 10);
        let high_b = decimal_digits(b / 10);
        let low_a = digit_char((a % 10) as int);
        let low_b = digit_char((b % 10) as int);
        assert(decimal_digits(a).drop_last() =~= high_a);
        assert(decimal_digits(b).drop_last() =~= high_b);
        assert(decimal_digits(a).last() == low_a);
        assert(decimal_digits(b).last() == low_b);
        decimal_digits_tell_numbers_apart(a / 10, b / 10);
    }
}

/// Different integers have different decimal texts, so identifiers that
/// arrive as different numbers stay different once they are normalised.
pub proof fn decimal_text_tells_integers_apart(a: int, b: int)
    requires
        decimal_text(a) == decimal_text(b),
    ensures
        a == b,
{
    let abs_a = if a < 0 {
        (-a) as nat
    } else {
        a as nat
    };
    let abs_b = if b < 0 {
        (-b) as nat
    } else {
        b as nat
    };
    decimal_digits_shape(abs_a);
    decimal_digits_shape(abs_b);
    if a < 0 && b < 0 {
        assert(decimal_text(a).subrange(1, decimal_text(a).len() as int) =~= decimal_digits(abs_a));
        assert(decimal_text(b).subrange(1, decimal_text(b).len() as int) =~= decimal_digits(abs_b));
        decimal_digits_tell_numbers_apart(abs_a, abs_b);
    } else if a < 0 {
        assert(decimal_text(a)[0] == '-');
        assert(decimal_text(b)[0] == decimal_digits(abs_b)[0]);
    } else if b < 0 {
        assert(decimal_text(b)[0] == '-');
        assert(decimal_text(a)[0] == decimal_digits(abs_a)[0]);
    } else {
        decimal_digits_tell_numbers_apart(abs_a, abs_b);
    }
}

impl FieldView {
    /// Text stays, everything else reads as the empty string.
    pub open spec fn text_or_empty(self) -> Seq<char> {
        match self {
            FieldView::Text(s) => s,
            _ => Seq::empty(),
        }
    }

    /// An identifier in its one canonical form: text stays as it is, an
    /// integer becomes its decimal text, everything else is empty.
    pub open spec fn id_text(self) -> Seq<char> {
        match self {
            FieldView::Text(s) => s,
            FieldView::Integer(n) => decimal_text(n),
            _ => Seq::empty(),
        }
    }

    /// Text where the field holds text, nothing otherwise.
    pub open spec fn text(self) -> Option<Seq<char>> {
        match self {
            FieldView::Text(s) => Some(s),
            _ => None,
        }
    }

    /// Nothing for a missing key; otherwise the text, or the empty string
    /// where the key holds something else.
    pub open spec fn text_if_present(self) -> Option<Seq<char>> {
        match self {
            FieldView::Missing => None,
            FieldView::Text(s) => Some(s),
            _ => Some(Seq::empty()),
        }
    }

    /// The integer where it fits 64 signed bits, zero otherwise.
    pub open spec fn integer_or_zero(self) -> i64 {
        match self {
            FieldView::Integer(n) => if i64::MIN <= n <= i64::MAX {
                n as i64
            } else {
                0i64
            },
            _ => 0i64,
        }
    }

    /// The integer where the field holds one that is not negative and fits
    /// 64 unsigned bits.
    pub open spec fn unsigned(self) -> Option<u64> {
        match self {
            FieldView::Integer(n) => if 0 <= n <= u64::MAX {
                Some(n as u64)
            } else {
                None
            },
            _ => None,
        }
    }
}

impl View for Field {
    type V = FieldView;

    open spec fn view(&self) -> FieldView {
        match self {
            Field::Missing => FieldView::Missing,
            Field::Null => FieldView::Null,
            Field::Text(s) => FieldView::Text(s@),
            Field::Integer(n) => FieldView::Integer(*n as int),
            Field::Unsigned(n) => FieldView::Integer(*n as int),
            Field::Other => FieldView::Other,
        }
    }
}

/// The one-character text of a decimal digit.
fn digit_text(d: u64) -> (s: &'static str)
    requires
        d < 10,
    ensures
        s@ == seq![digit_char(d as int)],
{
    proof {
        reveal_strlit("0");
        reveal_strlit("1");
        reveal_strlit("2");
        reveal_strlit("3");
        reveal_strlit("4");
        reveal_strlit("5");
        reveal_strlit("6");
        reveal_strlit("7");
        reveal_strlit("8");
        reveal_strlit("9");
    }
    let s = if d == 0 {
        "0"
    } else if d == 1 {
        "1"
    } else if d == 2 {
        "2"
    } else if d == 3 {
        "3"
    } else if d == 4 {
        "4"
    } else if d == 5 {
        "5"
    } else if d == 6 {
        "6"
    } else if d == 7 {
        "7"
    } else if d == 8 {
        "8"
    } else {
        "9"
    };
    assert(s@ =~= seq![digit_char(d as int)]);
    s
}

/// Writes a number out in decimal.
pub fn unsigned_text(n: u64) -> (s: String)
    ensures
        s@ == decimal_text(n as int),
{
    let mut rest: u64 = n;
    let mut low = String::new();
    while rest >= 10
        invariant
            decimal_digits(n as nat) == decimal_digits(rest as nat) + low@,
        decreases rest,
    {
        let digit: u64 = rest % 10;
        let mut next = String::from_str(digit_text(digit));
        next.append(low.as_str());
        proof {
            let high = decimal_digits((rest / 10) as nat);
            assert(decimal_digits(rest as nat) == high.push(digit_char(digit as int)));
            assert(high.push(digit_char(digit as int)) + low@ =~= high + next@);
        }
        low = next;
        rest = rest / 10;
    }
    let mut text = String::from_str(digit_text(rest));
    text.append(low.as_str());
    assert(text@ =~= decimal_digits(rest as nat) + low@);
    text
}

/// Writes an integer out in decimal, with a minus sign below zero.
pub fn signed_text(n: i64) -> (s: String)
    ensures
        s@ == decimal_text(n as int),
{
    if n >= 0 {
        unsigned_text(n as u64)
    } else {
        let magnitude: u64 = if n == i64::MIN {
            0x8000_0000_0000_0000u64
        } else {
            (-n) as u64
        };
        let digits = unsigned_text(magnitude);
        let mut text = String::from_str("-");
        text.append(digits.as_str());
        proof {
            reveal_strlit("-");
            assert(text@ =~= seq!['-'] + decimal_digits((-(n as int)) as nat));
        }
        text
    }
}

/// `chrono::Utc::now().to_rfc3339()`: the present instant on this machine's
/// clock as text. Nothing is claimed of the result. The call does not
/// return where the system clock reads before the epoch.
#[verifier::external_body]
pub(crate) fn timestamp_now() -> (stamp: String) {
    chrono::Utc::now().to_rfc3339()
}

/// `serde_json::Value::get` with a string key, followed by a look at the
/// variant of what was found; a number is read by `as_i64` first and by
/// `as_u64` where that fails. Trusted: the field that comes back is the one
/// that [`json_fields`] holds under `key`, and `Missing` where the value has
/// no such key or is no object.
#[verifier::external_body]
pub(crate) fn read_field(row: &serde_json::Value, key: &str) -> (f: Field)
    ensures
        f@ == field_at(json_fields(*row), key@),
{
    match row.get(key) {
        None => Field::Missing,
        Some(serde_json::Value::Null) => Field::Null,
        Some(serde_json::Value::String(s)) => Field::Text(s.clone()),
        Some(serde_json::Value::Number(n)) => match (n.as_i64(), n.as_u64()) {
            (Some(signed), _) => Field::Integer(signed),
            (None, Some(unsigned)) => Field::Unsigned(unsigned),
            (None, None) => Field::Other,
        },
        Some(_) => Field::Other,
    }
}

/// The error type of `serde_json`, carried through unread.
#[verifier::external_type_specification]
#[verifier::external_body]
pub struct ExJsonError(serde_json::Error);

/// The fields of the JSON document that a text spells; `None` where the
/// text is no JSON document.
pub uninterp spec fn json_document(text: Seq<char>) -> Option<Map<Seq<char>, FieldView>>;

/// `serde_json::from_str` to an untyped value. Trusted: the outcome is a
/// function of the text alone, and the fields of the value that comes back
/// are the ones named by [`json_document`].
#[verifier::external_body]
pub(crate) fn parse_json(text: &str) -> (r: Result<serde_json::Value, serde_json::Error>)
    ensures
        r is Ok <==> json_document(text@) is Some,
        r is Ok ==> json_fields(r.unwrap()) == json_document(text@).unwrap(),
{
    serde_json::from_str::<serde_json::Value>(text)
}

/// The message of a `serde_json::Error`, by its `to_string`. Nothing is
/// claimed of the text.
#[verifier::external_body]
pub(crate) fn json_error_text(error: &serde_json::Error) -> (r: String) {
    error.to_string()
}

/// A lookup of the rows of a table by the value of one column.
#[derive(Debug, Clone)]
pub struct Lookup {
    pub table: String,
    pub column: String,
    pub value: String,
}

/// The lookup of the rows of `table` whose `column` holds `value`.
pub fn lookup_by(table: &str, column: &str, value: &str) -> (lookup: Lookup)
    ensures
        lookup.table@ == table@,
        lookup.column@ == column@,
        lookup.value@ == value@,
{
    Lookup {
        table: String::from_str(table),
        column: String::from_str(column),
        value: String::from_str(value),
    }
}

/// Whether a lookup found anything: a failed lookup counts as nothing found.
pub fn row_exists(lookup: &Result<Vec<serde_json::Value>, String>) -> (found: bool)
    ensures
        found == (lookup is Ok && lookup.unwrap()@.len() > 0),
{
    match lookup {
        Ok(rows) => rows.len() > 0,
        Err(_) => false,
    }
}

/// A parent reference as it is written to the store: an empty reference
/// means that there is no parent.
pub open spec fn parent_reference(parent: Option<String>) -> Option<Seq<char>> {
    match parent {
        Some(id) => if id@.len() > 0 {
            Some(id@)
        } else {
            None
        },
        None => None,
    }
}

/// Normalises a parent reference before it is written.
pub fn normalize_parent(parent: Option<String>) -> (r: Option<String>)
    ensures
        r is Some <==> parent_reference(parent) is Some,
        r is Some ==> r.unwrap()@ == parent_reference(parent).unwrap(),
{
    match parent {
        Some(id) => {
            if !id.as_str().is_empty() {
                Some(id)
            } else {
                None
            }
        },
        None => None,
    }
}

impl Field {
    pub fn text_or_empty(&self) -> (s: String)
        ensures
            s@ == self@.text_or_empty(),
    {
        match self {
            Field::Text(t) => t.clone(),
            _ => String::new(),
        }
    }

    pub fn id_text(&self) -> (s: String)
        ensures
            s@ == self@.id_text(),
    {
        match self {
            Field::Text(t) => t.clone(),
            Field::Integer(n) => signed_text(*n),
            Field::Unsigned(n) => unsigned_text(*n),
            _ => String::new(),
        }
    }

    pub fn text(&self) -> (r: Option<String>)
        ensures
            r is Some <==> self@.text() is Some,
            r is Some ==> r.unwrap()@ == self@.text().unwrap(),
    {
        match self {
            Field::Text(t) => Some(t.clone()),
            _ => None,
        }
    }

    pub fn text_if_present(&self) -> (r: Option<String>)
        ensures
            r is Some <==> self@.text_if_present() is Some,
            r is Some ==> r.unwrap()@ == self@.text_if_present().unwrap(),
    {
        match self {
            Field::Missing => None,
            Field::Text(t) => Some(t.clone()),
            _ => Some(String::new()),
        }
    }

    pub fn integer_or_zero(&self) -> (n: i64)
        ensures
            n == self@.integer_or_zero(),
    {
        match self {
            Field::Integer(n) => *n,
            Field::Unsigned(n) => if *n <= 0x7fff_ffff_ffff_ffffu64 {
                *n as i64
            } else {
                0
            },
            _ => 0,
        }
    }

    pub fn unsigned(&self) -> (r: Option<u64>)
        ensures
            r == self@.unsigned(),
    {
        match self {
            Field::Integer(n) => if *n >= 0 {
                Some(*n as u64)
            } else {
                None
            },
            Field::Unsigned(n) => Some(*n),
            _ => None,
        }
    }
}

} // verus!
