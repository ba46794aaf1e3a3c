//! Session claims and the signed token that carries them. A token is valid
//! from the moment it is issued until its expiry instant, and nothing but
//! the claims inside it says so.

use vstd::prelude::*;
use crate::queries::{UserEntry, UserEntryView};
use crate::rows::{field_at, json_fields, read_field, FieldView};

verus! {

/// The error type of `jsonwebtoken`, carried through unread.
#[verifier::external_type_specification]
#[verifier::external_body]
pub struct ExJwtError(jsonwebtoken::errors::Error);

/// The lifetime of a session in seconds.
pub const SESSION_TTL_SECONDS: u64 = 3600;

/// What a claim holds.
#[derive(Debug, Clone)]
pub enum ClaimValue {
    Text(String),
    Number(u64),
}

/// The mathematical content of a [`ClaimValue`].
pub enum ClaimValueView {
    Text(Seq<char>),
    Number(u64),
}

impl View for ClaimValue {
    type V = ClaimValueView;

    open spec fn view(&self) -> ClaimValueView {
        match self {
            ClaimValue::Text(s) => ClaimValueView::Text(s@),
            ClaimValue::Number(n) => ClaimValueView::Number(*n),
        }
    }
}

/// A list of named claims, each name and value taken by its view.
pub open spec fn entries_view(entries: Seq<(String, ClaimValue)>) -> Seq<
    (Seq<char>, ClaimValueView),
> {
    Seq::new(entries.len(), |i: int| (entries[i].0@, entries[i].1@))
}

/// The compact token that signs the JSON object made of `entries` with
/// HMAC-SHA256 under `secret` and the default header.
pub uninterp spec fn jwt_hs256(
    entries: Seq<(Seq<char>, ClaimValueView)>,
    secret: Seq<char>,
) -> Seq<char>;

/// The fields of the claims object inside `token`, where the token is well
/// formed and its HMAC-SHA256 signature is the one that `secret` gives;
/// `None` otherwise, and also for a token that names an audience as a text
/// or a list of texts. Expiry plays no part in it.
pub uninterp spec fn jwt_hs256_payload(token: Seq<char>, secret: Seq<char>) -> Option<
    Map<Seq<char>, FieldView>,
>;

/// `jsonwebtoken::encode` with the default header and
/// `EncodingKey::from_secret`, on a JSON object that holds each name of
/// `entries` with its value, a later entry replacing an earlier one of the
/// same name. Trusted: signing with HMAC-SHA256 under a secret never
/// fails, the token is a function of entries and secret, and it is not
/// empty, being three parts joined by dots. Trusted also: decoding undoes
/// signing. Where the entries are session claims, the token is accepted
/// under the same secret and its claims object holds those claims, each
/// text as text and the expiry as an integer.
#[verifier::external_body]
fn jwt_encode(entries: &Vec<(String, ClaimValue)>, secret: &str) -> (r: Result<
    String,
    jsonwebtoken::errors::Error,
>)
    ensures
        r is Ok,
        r.unwrap()@ == jwt_hs256(entries_view(entries@), secret@),
        r.unwrap()@.len() > 0,
        forall|claims: ClaimsView|
            entries_view(entries@) == #[trigger] claims.entries() ==> jwt_hs256_payload(
                r.unwrap()@,
                secret@,
            ) == Some(claims.object()),
{
    let mut object = serde_json::Map::new();
    for (name, value) in entries.iter() {
        let json = match value {
            ClaimValue::Text(text) => serde_json::Value::from(text.as_str()),
            ClaimValue::Number(number) => serde_json::Value::from(*number),
        };
        object.insert(name.clone(), json);
    }
    let key = jsonwebtoken::EncodingKey::from_secret(secret.as_bytes());
    jsonwebtoken::encode(&jsonwebtoken::Header::default(), &object, &key)
}

/// `jsonwebtoken::decode` with `DecodingKey::from_secret` and a validation
/// for HS256 that neither requires nor checks an expiry, and that refuses
/// a token which names an audience. Trusted: the outcome is a function of
/// token and secret, and the fields of the value that comes back are the
/// ones named by [`jwt_hs256_payload`].
#[verifier::external_body]
fn jwt_decode(token: &str, secret: &str) -> (r: Result<
    serde_json::Value,
    jsonwebtoken::errors::Error,
>)
    ensures
        r is Ok <==> jwt_hs256_payload(token@, secret@) is Some,
        r is Ok ==> json_fields(r.unwrap()) == jwt_hs256_payload(token@, secret@).unwrap(),
{
    let mut validation = jsonwebtoken::Validation::new(jsonwebtoken::Algorithm::HS256);
    validation.validate_exp = false;
    validation.required_spec_claims.clear();
    let key = jsonwebtoken::DecodingKey::from_secret(secret.as_bytes());
    let data = jsonwebtoken::decode::<serde_json::Value>(token, &key, &validation)?;
    Ok(data.claims)
}

/// `chrono::Utc::now().timestamp()`: the seconds since the Unix epoch on
/// this machine's clock. Trusted: the reading is never negative, since the
/// call does not return where the system clock reads before the epoch.
#[verifier::external_body]
pub(crate) fn unix_time() -> (now: i64)
    ensures
        now >= 0,
{
    chrono::Utc::now().timestamp()
}

/// Why no token was issued or accepted.
#[derive(Debug, Copy, Clone, PartialEq, Eq, Structural)]
pub enum TokenError {
    /// The clock reads before the epoch, or so late that the expiry does
    /// not fit the claim.
    ClockOutOfRange,
    /// The signer reported an error. Signing under a secret never does.
    SigningFailed,
    /// The token is malformed or was not signed with this secret.
    Invalid,
    /// A claim is missing or has the wrong type.
    Incomplete,
    /// The expiry instant has passed.
    Expired,
}

/// The identity that a session token asserts.
#[derive(Debug, Clone)]
pub struct Claims {
    pub sub: String,
    pub email: String,
    pub user_id: String,
    pub first_name: String,
    pub last_name: String,
    pub avatar_url: String,
    pub created_at: String,
    pub exp: u64,
}

/// The mathematical content of [`Claims`].
pub struct ClaimsView {
    pub sub: Seq<char>,
    pub email: Seq<char>,
    pub user_id: Seq<char>,
    pub first_name: Seq<char>,
    pub last_name: Seq<char>,
    pub avatar_url: Seq<char>,
    pub created_at: Seq<char>,
    pub exp: u64,
}

impl View for Claims {
    type V = ClaimsView;

    open spec fn view(&self) -> ClaimsView {
        ClaimsView {
            sub: self.sub@,
            email: self.email@,
            user_id: self.user_id@,
            first_name: self.first_name@,
            last_name: self.last_name@,
            avatar_url: self.avatar_url@,
            created_at: self.created_at@,
            exp: self.exp,
        }
    }
}

/// The expiry of a session that starts at `now` and lasts `ttl` seconds,
/// where both the start and the expiry are instants that a claim can hold.
pub open spec fn expiry_after(now: int, ttl: int) -> Option<u64> {
    if 0 <= now && now + ttl <= u64::MAX {
        Some((now + ttl) as u64)
    } else {
        None
    }
}

/// A session is over once the clock has passed its expiry instant.
pub open spec fn expired_at(exp: u64, at: int) -> bool {
    at > exp
}

impl ClaimsView {
    /// The claims in the order and under the names in which they are signed.
    pub open spec fn entries(self) -> Seq<(Seq<char>, ClaimValueView)> {
        seq![
            ("sub"@, ClaimValueView::Text(self.sub)),
            ("email"@, ClaimValueView::Text(self.email)),
            ("user_id"@, ClaimValueView::Text(self.user_id)),
            ("first_name"@, ClaimValueView::Text(self.first_name)),
            ("last_name"@, ClaimValueView::Text(self.last_name)),
            ("avatar_url"@, ClaimValueView::Text(self.avatar_url)),
            ("created_at"@, ClaimValueView::Text(self.created_at)),
            ("exp"@, ClaimValueView::Number(self.exp)),
        ]
    }

    /// The claims as the fields of a claims object.
    pub open spec fn object(self) -> Map<Seq<char>, FieldView> {
        Map::<Seq<char>, FieldView>::empty().insert("sub"@, FieldView::Text(self.sub)).insert(
            "email"@,
            FieldView::Text(self.email),
        ).insert("user_id"@, FieldView::Text(self.user_id)).insert(
            "first_name"@,
            FieldView::Text(self.first_name),
        ).insert("last_name"@, FieldView::Text(self.last_name)).insert(
            "avatar_url"@,
            FieldView::Text(self.avatar_url),
        ).insert("created_at"@, FieldView::Text(self.created_at)).insert(
            "exp"@,
            FieldView::Integer(self.exp as int),
        )
    }

    /// The claims of a session for `user` under `subject` that ends at `exp`.
    pub open spec fn for_user(user: UserEntryView, subject: Seq<char>, exp: u64) -> ClaimsView {
        ClaimsView {
            sub: subject,
            email: user.email,
            user_id: user.id,
            first_name: user.first_name,
            last_name: user.last_name,
            avatar_url: user.avatar_url,
            created_at: user.created_at,
            exp,
        }
    }

    /// The claims that a claims object holds: every textual claim must be
    /// there as text and the expiry as a non-negative integer.
    pub open spec fn of_payload(fields: Map<Seq<char>, FieldView>) -> Option<ClaimsView> {
        if field_at(fields, "sub"@).text() is Some && field_at(fields, "email"@).text() is Some
            && field_at(fields, "user_id"@).text() is Some && field_at(
            fields,
            "first_name"@,
        ).text() is Some && field_at(fields, "last_name"@).text() is Some && field_at(
            fields,
            "avatar_url"@,
        ).text() is Some && field_at(fields, "created_at"@).text() is Some && field_at(
            fields,
            "exp"@,
        ).unsigned() is Some {
            Some(
                ClaimsView {
                    sub: field_at(fields, "sub"@).text().unwrap(),
                    email: field_at(fields, "email"@).text().unwrap(),
                    user_id: field_at(fields, "user_id"@).text().unwrap(),
                    first_name: field_at(fields, "first_name"@).text().unwrap(),
                    last_name: field_at(fields, "last_name"@).text().unwrap(),
                    avatar_url: field_at(fields, "avatar_url"@).text().unwrap(),
                    created_at: field_at(fields, "created_at"@).text().unwrap(),
                    exp: field_at(fields, "exp"@).unsigned().unwrap(),
                },
            )
        } else {
            None
        }
    }
}

/// What parsing a token at the instant `now` yields, given the claims
/// object that its signature check released.
pub open spec fn parsed_at(payload: Option<Map<Seq<char>, FieldView>>, now: int) -> Result<
    ClaimsView,
    TokenError,
> {
    match payload {
        None => Err(TokenError::Invalid),
        Some(fields) => match ClaimsView::of_payload(fields) {
            None => Err(TokenError::Incomplete),
            Some(claims) => if expired_at(claims.exp, now) {
                Err(TokenError::Expired)
            } else {
                Ok(claims)
            },
        },
    }
}

/// What reading claims back at the instant `now` yields: the claims, unless
/// their expiry has passed.
pub open spec fn read_back(claims: ClaimsView, now: int) -> Result<ClaimsView, TokenError> {
    if expired_at(claims.exp, now) {
        Err(TokenError::Expired)
    } else {
        Ok(claims)
    }
}

/// The names of the claims are all different, so a claims object that is
/// made of claims holds each of them: reading it gives them back, and
/// parsing it at any instant yields them unless their expiry has passed.
pub proof fn claims_object_reads_back(claims: ClaimsView)
    ensures
        ClaimsView::of_payload(claims.object()) == Some(claims),
        forall|at: int| #[trigger] parsed_at(Some(claims.object()), at) == read_back(claims, at),
{
    reveal_strlit("sub");
    reveal_strlit("email");
    reveal_strlit("user_id");
    reveal_strlit("first_name");
    reveal_strlit("last_name");
    reveal_strlit("avatar_url");
    reveal_strlit("created_at");
    reveal_strlit("exp");
    assert("sub"@.len() == 3 && "sub"@[0] == 's');
    assert("email"@.len() == 5);
    assert("user_id"@.len() == 7);
    assert("first_name"@.len() == 10 && "first_name"@[0] == 'f');
    assert("last_name"@.len() == 9);
    assert("avatar_url"@.len() == 10 && "avatar_url"@[0] == 'a');
    assert("created_at"@.len() == 10 && "created_at"@[0] == 'c');
    assert("exp"@.len() == 3 && "exp"@[0] == 'e');
    let fields = claims.object();
    assert(field_at(fields, "sub"@) == FieldView::Text(claims.sub));
    assert(field_at(fields, "email"@) == FieldView::Text(claims.email));
    assert(field_at(fields, "user_id"@) == FieldView::Text(claims.user_id));
    assert(field_at(fields, "first_name"@) == FieldView::Text(claims.first_name));
    assert(field_at(fields, "last_name"@) == FieldView::Text(claims.last_name));
    assert(field_at(fields, "avatar_url"@) == FieldView::Text(claims.avatar_url));
    assert(field_at(fields, "created_at"@) == FieldView::Text(claims.created_at));
    assert(field_at(fields, "exp"@) == FieldView::Integer(claims.exp as int));
}

/// A parse result taken by the view of its claims.
pub open spec fn parse_view(r: Result<Claims, TokenError>) -> Result<ClaimsView, TokenError> {
    match r {
        Ok(claims) => Ok(claims@),
        Err(e) => Err(e),
    }
}

impl Claims {
    /// Assembles the claims of a session that starts at `now` and lasts
    /// `ttl` seconds.
    pub fn issue(user: &UserEntry, subject: &str, now: i64, ttl: u64) -> (r: Result<
        Claims,
        TokenError,
    >)
        ensures
            r is Ok <==> expiry_after(now as int, ttl as int) is Some,
            r is Ok ==> r.unwrap()@ == ClaimsView::for_user(
                user@,
                subject@,
                expiry_after(now as int, ttl as int).unwrap(),
            ),
            r is Err ==> r.unwrap_err() == TokenError::ClockOutOfRange,
    {
        if now < 0 {
            return Err(TokenError::ClockOutOfRange);
        }
        let start: u64 = now as u64;
        if ttl > u64::MAX - start {
            return Err(TokenError::ClockOutOfRange);
        }
        Ok(
            Claims {
                sub: String::from_str(subject),
                email: user.email.clone(),
                user_id: user.id.clone(),
                first_name: user.first_name.clone(),
                last_name: user.last_name.clone(),
                avatar_url: user.avatar_url.clone(),
                created_at: user.created_at.clone(),
                exp: start + ttl,
            },
        )
    }

    /// The claims as the list of named values that is signed.
    pub fn entries(&self) -> (list: Vec<(String, ClaimValue)>)
        ensures
            entries_view(list@) == self@.entries(),
    {
        let mut list: Vec<(String, ClaimValue)> = Vec::new();
        list.push((String::from_str("sub"), ClaimValue::Text(self.sub.clone())));
        list.push((String::from_str("email"), ClaimValue::Text(self.email.clone())));
        list.push((String::from_str("user_id"), ClaimValue::Text(self.user_id.clone())));
        list.push((String::from_str("first_name"), ClaimValue::Text(self.first_name.clone())));
        list.push((String::from_str("last_name"), ClaimValue::Text(self.last_name.clone())));
        list.push((String::from_str("avatar_url"), ClaimValue::Text(self.avatar_url.clone())));
        list.push((String::from_str("created_at"), ClaimValue::Text(self.created_at.clone())));
        list.push((String::from_str("exp"), ClaimValue::Number(self.exp)));
        assert(entries_view(list@) =~= self@.entries());
        list
    }

    /// Whether the session is over at the instant `now`.
    pub fn is_expired_at(&self, now: i64) -> (over: bool)
        ensures
            over == expired_at(self.exp, now as int),
    {
        now >= 0 && (now as u64) > self.exp
    }

    /// Reads the claims out of a claims object.
    pub fn from_payload(payload: &serde_json::Value) -> (r: Option<Claims>)
        ensures
            r is Some <==> ClaimsView::of_payload(json_fields(*payload)) is Some,
            r is Some ==> r.unwrap()@ == ClaimsView::of_payload(json_fields(*payload)).unwrap(),
    {
        let sub = read_field(payload, "sub").text();
        let email = read_field(payload, "email").text();
        let user_id = read_field(payload, "user_id").text();
        let first_name = read_field(payload, "first_name").text();
        let last_name = read_field(payload, "last_name").text();
        let avatar_url = read_field(payload, "avatar_url").text();
        let created_at = read_field(payload, "created_at").text();
        let exp = read_field(payload, "exp").unsigned();
        match (sub, email, user_id, first_name, last_name, avatar_url, created_at, exp) {
            (
                Some(sub),
                Some(email),
                Some(user_id),
                Some(first_name),
                Some(last_name),
                Some(avatar_url),
                Some(created_at),
                Some(exp),
            ) => Some(
                Claims { sub, email, user_id, first_name, last_name, avatar_url, created_at, exp },
            ),
            _ => None,
        }
    }
}

/// Signs the claims into a compact token under `secret`. Signing never
/// fails: the result is always the token, and the token is not empty. Read
/// under the same secret, the token gives the claims back until their
/// expiry and is refused as expired after it.
pub fn sign_claims(claims: &Claims, secret: &str) -> (r: Result<String, TokenError>)
    ensures
        r is Ok,
        r.unwrap()@ == jwt_hs256(claims@.entries(), secret@),
        r.unwrap()@.len() > 0,
        jwt_hs256_payload(r.unwrap()@, secret@) == Some(claims@.object()),
        forall|at: int| #[trigger]
            parsed_at(jwt_hs256_payload(r.unwrap()@, secret@), at) == read_back(claims@, at),
{
    let entries = claims.entries();
    proof {
        claims_object_reads_back(claims@);
    }
    match jwt_encode(&entries, secret) {
        Ok(token) => Ok(token),
        Err(_) => Err(TokenError::SigningFailed),
    }
}

/// Checks the signature of `token` under `secret` and reads its claims as
/// of the instant `now`: a token whose expiry has passed is refused.
pub fn parse_token_at(token: &str, secret: &str, now: i64) -> (r: Result<Claims, TokenError>)
    ensures
        parse_view(r) == parsed_at(jwt_hs256_payload(token@, secret@), now as int),
{
    match jwt_decode(token, secret) {
        Err(_) => Err(TokenError::Invalid),
        Ok(payload) => match Claims::from_payload(&payload) {
            None => Err(TokenError::Incomplete),
            Some(claims) => {
                if claims.is_expired_at(now) {
                    Err(TokenError::Expired)
                } else {
                    Ok(claims)
                }
            },
        },
    }
}

/// Checks and reads `token` as of the present instant on this machine's
/// clock, an instant at or after the epoch.
pub fn parse_token(token: &str, secret: &str) -> (r: Result<Claims, TokenError>)
    ensures
        exists|now: int|
            0 <= now <= i64::MAX && parse_view(r) == #[trigger] parsed_at(
                jwt_hs256_payload(token@, secret@),
                now,
            ),
{
    let now = unix_time();
    parse_token_at(token, secret, now)
}

/// A session that is issued at `now` for `ttl` seconds is not over at `now`
/// nor at any instant up to its expiry, and is over at every later instant.
pub proof fn session_lifetime(now: int, ttl: int, at: int)
    requires
        0 <= ttl,
        expiry_after(now, ttl) is Some,
    ensures
        expiry_after(now, ttl).unwrap() == now + ttl,
        !expired_at(expiry_after(now, ttl).unwrap(), now),
        now <= at <= now + ttl ==> !expired_at(expiry_after(now, ttl).unwrap(), at),
        at > now + ttl ==> expired_at(expiry_after(now, ttl).unwrap(), at),
{
}

/// A token whose claims object holds the expiry of a session issued at
/// `now` for `ttl` seconds is read successfully at `now` and at every
/// instant up to the expiry, and is refused as expired at every later one.
pub proof fn issued_token_is_accepted_then_refused(
    payload: Map<Seq<char>, FieldView>,
    now: int,
    ttl: int,
    at: int,
)
    requires
        0 <= ttl,
        expiry_after(now, ttl) is Some,
        ClaimsView::of_payload(payload) is Some,
        ClaimsView::of_payload(payload).unwrap().exp == expiry_after(now, ttl).unwrap(),
    ensures
        parsed_at(Some(payload), now) == Ok::<ClaimsView, TokenError>(
            ClaimsView::of_payload(payload).unwrap(),
        ),
        now <= at <= now + ttl ==> parsed_at(Some(payload), at) == parsed_at(Some(payload), now),
        at > now + ttl ==> parsed_at(Some(payload), at) == Err::<ClaimsView, TokenError>(
            TokenError::Expired,
        ),
{
}

/// Claims that are read successfully at one instant are read to the same
/// value at every earlier instant, and are refused as expired at every
/// instant after their expiry.
pub proof fn parsing_follows_expiry(payload: Map<Seq<char>, FieldView>, now: int, at: int)
    requires
        parsed_at(Some(payload), now) is Ok,
    ensures
        at <= now ==> parsed_at(Some(payload), at) == parsed_at(Some(payload), now),
        at > parsed_at(Some(payload), now).unwrap().exp ==> parsed_at(Some(payload), at) == Err::<
            ClaimsView,
            TokenError,
        >(TokenError::Expired),
{
}

} // verus!
