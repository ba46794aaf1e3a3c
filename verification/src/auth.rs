//! The auth handler: whether an email is taken, what is stored at sign-up,
//! and what a sign-in attempt is answered with. The data store is reached
//! by the caller; this module is handed what the store said and decides.

use vstd::prelude::*;
use crate::password::{
    argon2_phc,
    begins_with,
    generated_salt,
    hash_password,
    hashable,
    hashed_under,
    password_matches,
    phc_marker,
    verify_password,
    PasswordError,
};
use crate::queries::{user_entry_from_row, user_entry_of};
use crate::responses::{
    failure_view,
    success_view,
    text_envelope,
    EnvelopeView,
    Response,
    StatusCode,
};
use crate::rows::{
    field_at,
    json_fields,
    lookup_by,
    read_field,
    timestamp_now,
    FieldView,
    Lookup,
};
use crate::token::{
    claims_object_reads_back,
    expiry_after,
    jwt_hs256,
    jwt_hs256_payload,
    parsed_at,
    read_back,
    sign_claims,
    unix_time,
    Claims,
    ClaimsView,
    TokenError,
    SESSION_TTL_SECONDS,
};

verus! {

/// What the auth handler needs from the process configuration, read once at
/// start and passed in by reference.
#[derive(Debug, Clone)]
pub struct AuthConfig {
    pub jwt_secret: String,
    pub token_ttl: u64,
}

/// Why the process configuration is unusable.
#[derive(Debug, Copy, Clone, PartialEq, Eq, Structural)]
pub enum ConfigError {
    /// No signing secret was supplied.
    MissingSecret,
    /// No address of the data store was supplied.
    MissingStoreUrl,
    /// No access key of the data store was supplied.
    MissingStoreKey,
}

/// Where the data store is and how it is accessed, read once at start.
#[derive(Debug, Clone)]
pub struct StoreConfig {
    pub url: String,
    pub api_key: String,
}

impl StoreConfig {
    /// The configuration for the address and key that the environment
    /// supplied. Both are needed; a missing address is reported first.
    pub fn from_values(url: Option<String>, api_key: Option<String>) -> (r: Result<
        StoreConfig,
        ConfigError,
    >)
        ensures
            r is Ok <==> url is Some && api_key is Some,
            r is Ok ==> r.unwrap().url == url.unwrap() && r.unwrap().api_key == api_key.unwrap(),
            url is None ==> r == Err::<StoreConfig, ConfigError>(ConfigError::MissingStoreUrl),
            url is Some && api_key is None ==> r == Err::<StoreConfig, ConfigError>(
                ConfigError::MissingStoreKey,
            ),
    {
        match url {
            None => Err(ConfigError::MissingStoreUrl),
            Some(url) => match api_key {
                None => Err(ConfigError::MissingStoreKey),
                Some(api_key) => Ok(StoreConfig { url, api_key }),
            },
        }
    }
}

/// The lookup that finds the record of a user by email.
pub fn user_lookup(email: &str) -> (lookup: Lookup)
    ensures
        lookup.table@ == "users"@,
        lookup.column@ == "email"@,
        lookup.value@ == email@,
{
    lookup_by("users", "email", email)
}

impl AuthConfig {
    /// The configuration for the secret that the environment supplied, with
    /// the standard session lifetime.
    pub fn from_secret(secret: Option<String>) -> (r: Result<AuthConfig, ConfigError>)
        ensures
            secret is Some <==> r is Ok,
            r is Ok ==> r.unwrap().jwt_secret == secret.unwrap() && r.unwrap().token_ttl
                == SESSION_TTL_SECONDS,
            r is Err ==> r.unwrap_err() == ConfigError::MissingSecret,
    {
        match secret {
            Some(jwt_secret) => Ok(AuthConfig { jwt_secret, token_ttl: SESSION_TTL_SECONDS }),
            None => Err(ConfigError::MissingSecret),
        }
    }
}

/// The record that a sign-up stores. Its `password` is a credential hash,
/// and `created_at` the instant of the sign-up as text.
#[derive(Debug, Clone)]
pub struct NewUser {
    pub email: String,
    pub password: String,
    pub first_name: String,
    pub last_name: String,
    pub avatar_url: String,
    pub created_at: String,
}

/// A stored row belongs to a registration of `email` with `password`: it
/// holds that email, and under `password` a hash that accepts the password.
pub open spec fn registered(
    fields: Map<Seq<char>, FieldView>,
    email: Seq<char>,
    password: Seq<char>,
) -> bool {
    &&& field_at(fields, "email"@) == FieldView::Text(email)
    &&& field_at(fields, "password"@).text() is Some
    &&& password_matches(password, field_at(fields, "password"@).text().unwrap())
}

impl NewUser {
    /// The fields of the row that the store keeps for this record.
    pub open spec fn row_fields(&self) -> Map<Seq<char>, FieldView> {
        Map::<Seq<char>, FieldView>::empty().insert("email"@, FieldView::Text(self.email@)).insert(
            "password"@,
            FieldView::Text(self.password@),
        ).insert("first_name"@, FieldView::Text(self.first_name@)).insert(
            "last_name"@,
            FieldView::Text(self.last_name@),
        ).insert("avatar_url"@, FieldView::Text(self.avatar_url@)).insert(
            "created_at"@,
            FieldView::Text(self.created_at@),
        )
    }
}

/// Answers whether an email is taken, from what the lookup of that email
/// returned: taken exactly when the store returned a row. Finding nothing is
/// an ordinary answer; only a failed lookup is an error.
pub fn check_if_email_exists(lookup: Result<Vec<serde_json::Value>, String>) -> (r: Response<bool>)
    ensures
        r.well_formed(),
        match lookup {
            Ok(rows) => r.status == StatusCode::Success && r.data == Some(rows@.len() > 0)
                && r.error is None,
            Err(message) => r.status == StatusCode::InternalServerError && r.data is None
                && r.error_text() == Some(message@),
        },
{
    match lookup {
        Ok(rows) => Response::ok(rows.len() > 0),
        Err(message) => Response::transport_failure(message),
    }
}

/// Builds the record that a sign-up stores from the profile as given, the
/// outcome of hashing the password and the creation stamp: the hash takes
/// the place of the password, and a failed hashing leaves nothing to store.
pub fn sign_up_record_with(
    email: String,
    hashed: Result<String, PasswordError>,
    first_name: String,
    last_name: String,
    avatar_url: String,
    created_at: String,
) -> (r: Result<NewUser, PasswordError>)
    ensures
        match hashed {
            Ok(hash) => r is Ok && r.unwrap().email == email && r.unwrap().password == hash
                && r.unwrap().first_name == first_name && r.unwrap().last_name == last_name
                && r.unwrap().avatar_url == avatar_url && r.unwrap().created_at == created_at,
            Err(e) => r == Err::<NewUser, PasswordError>(e),
        },
{
    match hashed {
        Ok(hash) => Ok(
            NewUser { email, password: hash, first_name, last_name, avatar_url, created_at },
        ),
        Err(e) => Err(e),
    }
}

/// A record whose `password` is a hash that accepts the password belongs
/// to a registration of its email with that password.
pub proof fn record_is_registered(record: NewUser, password: Seq<char>)
    requires
        password_matches(password, record.password@),
    ensures
        registered(record.row_fields(), record.email@, password),
{
    reveal_strlit("email");
    reveal_strlit("password");
    reveal_strlit("first_name");
    reveal_strlit("last_name");
    reveal_strlit("avatar_url");
    reveal_strlit("created_at");
    assert("email"@.len() == 5);
    assert("password"@.len() == 8);
    assert("first_name"@.len() == 10);
    assert("last_name"@.len() == 9);
    assert("avatar_url"@.len() == 10);
    assert("created_at"@.len() == 10);
}

/// Builds the record that a sign-up stores: the profile as given, in place
/// of the password a hash of it under a salt drawn at random for this call,
/// and the present instant as its creation stamp. There is a record for
/// every password that the hasher takes.
pub fn sign_up_record(
    email: String,
    password: &str,
    first_name: String,
    last_name: String,
    avatar_url: String,
) -> (r: Result<NewUser, PasswordError>)
    ensures
        exists|salt: Seq<char>|
            generated_salt(salt) && #[trigger] recorded_under(
                email,
                password@,
                first_name,
                last_name,
                avatar_url,
                salt,
                r,
            ),
        hashable(password@) ==> r is Ok,
        r is Ok ==> r.unwrap().email == email && r.unwrap().first_name == first_name
            && r.unwrap().last_name == last_name && r.unwrap().avatar_url == avatar_url,
        r is Ok ==> password_matches(password@, r.unwrap().password@),
        r is Ok ==> begins_with(r.unwrap().password@, phc_marker()),
        r is Ok && !begins_with(password@, phc_marker()) ==> r.unwrap().password@ != password@,
        r is Ok ==> registered(r.unwrap().row_fields(), email@, password@),
        r is Err ==> r.unwrap_err() == PasswordError::HashingFailed,
{
    let hashed = hash_password(password);
    let created_at = timestamp_now();
    let r = sign_up_record_with(email, hashed, first_name, last_name, avatar_url, created_at);
    proof {
        let salt = choose|salt: Seq<char>|
            generated_salt(salt) && #[trigger] hashed_under(password@, salt, hashed);
        assert(recorded_under(email, password@, first_name, last_name, avatar_url, salt, r));
        if r is Ok {
            record_is_registered(r.unwrap(), password@);
        }
    }
    r
}

/// `r` is the outcome of a sign-up whose password was hashed under `salt`:
/// where the hasher derives a hash, the record of the profile as given with
/// that hash in place of the password; where it refuses, `HashingFailed`
/// and nothing to store.
pub open spec fn recorded_under(
    email: String,
    password: Seq<char>,
    first_name: String,
    last_name: String,
    avatar_url: String,
    salt: Seq<char>,
    r: Result<NewUser, PasswordError>,
) -> bool {
    match argon2_phc(password, salt) {
        Some(hash) => r is Ok && r.unwrap().email == email && r.unwrap().password@ == hash
            && r.unwrap().first_name == first_name && r.unwrap().last_name == last_name
            && r.unwrap().avatar_url == avatar_url,
        None => r == Err::<NewUser, PasswordError>(PasswordError::HashingFailed),
    }
}

/// What a sign-up does next.
#[derive(Debug)]
pub enum SignUpPlan {
    /// Insert this record into the table of users.
    Insert(NewUser),
    /// Nothing can be stored: answer with this envelope.
    Answer(Response<String>),
}

/// Begins a sign-up: the record to insert, which holds the profile as
/// given, the present instant as creation stamp, and in place of the
/// password a hash of it that accepts the password. The password itself
/// goes nowhere else. A password that the hasher does not take is answered
/// with an internal error and nothing is stored.
pub fn sign_up(
    email: String,
    password: &str,
    first_name: String,
    last_name: String,
    avatar_url: String,
) -> (plan: SignUpPlan)
    ensures
        hashable(password@) ==> plan is Insert,
        match plan {
            SignUpPlan::Insert(record) => {
                &&& exists|salt: Seq<char>|
                    generated_salt(salt) && #[trigger] recorded_under(
                        email,
                        password@,
                        first_name,
                        last_name,
                        avatar_url,
                        salt,
                        Ok::<NewUser, PasswordError>(record),
                    )
                &&& record.email == email
                &&& record.first_name == first_name
                &&& record.last_name == last_name
                &&& record.avatar_url == avatar_url
                &&& password_matches(password@, record.password@)
                &&& begins_with(record.password@, phc_marker())
                &&& !begins_with(password@, phc_marker()) ==> record.password@ != password@
                &&& registered(record.row_fields(), email@, password@)
            },
            SignUpPlan::Answer(r) => {
                &&& !hashable(password@)
                &&& r.well_formed()
                &&& text_envelope(r) == failure_view(
                    StatusCode::InternalServerError,
                    "Failed to hash password"@,
                )
            },
        },
{
    let made = sign_up_record(email, password, first_name, last_name, avatar_url);
    match made {
        Ok(record) => {
            proof {
                let salt = choose|salt: Seq<char>|
                    generated_salt(salt) && #[trigger] recorded_under(
                        email,
                        password@,
                        first_name,
                        last_name,
                        avatar_url,
                        salt,
                        made,
                    );
                assert(recorded_under(
                    email,
                    password@,
                    first_name,
                    last_name,
                    avatar_url,
                    salt,
                    Ok::<NewUser, PasswordError>(record),
                ));
            }
            SignUpPlan::Insert(record)
        },
        Err(_) => SignUpPlan::Answer(
            Response::failure(
                StatusCode::InternalServerError,
                String::from_str("Failed to hash password"),
            ),
        ),
    }
}

/// The content of the answer to a sign-up, given what the insert returned.
pub open spec fn sign_up_envelope(inserted: Result<String, String>) -> EnvelopeView {
    match inserted {
        Err(message) => failure_view(StatusCode::InternalServerError, message@),
        Ok(body) => if body@.len() > 0 {
            success_view("User created successfully"@)
        } else {
            failure_view(StatusCode::BadRequest, "User already exists"@)
        },
    }
}

/// Ends a sign-up, from what the insert of its record returned: a
/// confirmation where the store reported the new row, a bad request where it
/// reported nothing, an internal error where the insert failed.
pub fn sign_up_answer(inserted: Result<String, String>) -> (r: Response<String>)
    ensures
        r.well_formed(),
        text_envelope(r) == sign_up_envelope(inserted),
{
    match inserted {
        Err(message) => Response::transport_failure(message),
        Ok(body) => {
            if !body.as_str().is_empty() {
                Response::ok(String::from_str("User created successfully"))
            } else {
                Response::failure(StatusCode::BadRequest, String::from_str("User already exists"))
            }
        },
    }
}

/// The content of the answer to a sign-in attempt at the instant `now`.
///
/// A failed lookup is an internal error with the store's message. No row
/// is "not found". A row without a stored hash is an internal error. A hash
/// that does not accept the password is "unauthorized". Otherwise claims
/// are assembled from the row, with `email` as subject and an expiry `ttl`
/// seconds after `now`, and signed under `secret`; the token is the payload.
pub open spec fn sign_in_envelope(
    lookup: Result<Vec<serde_json::Value>, String>,
    email: Seq<char>,
    password: Seq<char>,
    secret: Seq<char>,
    ttl: int,
    now: int,
) -> EnvelopeView {
    match lookup {
        Err(message) => failure_view(StatusCode::InternalServerError, message@),
        Ok(rows) => if rows@.len() == 0 {
            failure_view(StatusCode::NotFound, "User not found"@)
        } else {
            let fields = json_fields(rows@[0]);
            match field_at(fields, "password"@).text() {
                None => failure_view(StatusCode::InternalServerError, "Invalid user data"@),
                Some(stored) => if !password_matches(password, stored) {
                    failure_view(StatusCode::Unauthorized, "Invalid credentials"@)
                } else {
                    match expiry_after(now, ttl) {
                        None => failure_view(
                            StatusCode::InternalServerError,
                            "Invalid timestamp"@,
                        ),
                        Some(exp) => success_view(
                            jwt_hs256(
                                ClaimsView::for_user(user_entry_of(fields), email, exp).entries(),
                                secret,
                            ),
                        ),
                    }
                },
            }
        },
    }
}

/// The claims of the session that a sign-in at the instant `now` issues
/// for the first row of the lookup, where there is one and the expiry fits.
pub open spec fn issued_claims(
    lookup: Result<Vec<serde_json::Value>, String>,
    email: Seq<char>,
    ttl: int,
    now: int,
) -> ClaimsView {
    ClaimsView::for_user(
        user_entry_of(json_fields(lookup.unwrap()@[0])),
        email,
        expiry_after(now, ttl).unwrap(),
    )
}

/// Whether the token of an answer, where it carries one, holds `claims`
/// when it is read under `secret`: parsed at any instant it yields those
/// claims, unless their expiry has passed.
pub open spec fn carries_claims(r: Response<String>, secret: Seq<char>, claims: ClaimsView) -> bool {
    r.data is Some ==> {
        &&& jwt_hs256_payload(r.data.unwrap()@, secret) == Some(claims.object())
        &&& forall|at: int| #[trigger]
            parsed_at(jwt_hs256_payload(r.data.unwrap()@, secret), at) == read_back(claims, at)
    }
}

/// Answers a sign-in attempt at the instant `now`, from what the lookup of
/// the email returned. A token that is handed out is not empty, and read
/// under the same secret it holds the claims of the session that was
/// issued.
pub fn sign_in_at(
    lookup: Result<Vec<serde_json::Value>, String>,
    email: &str,
    password: &str,
    config: &AuthConfig,
    now: i64,
) -> (r: Response<String>)
    ensures
        r.well_formed(),
        text_envelope(r) == sign_in_envelope(
            lookup,
            email@,
            password@,
            config.jwt_secret@,
            config.token_ttl as int,
            now as int,
        ),
        r.data is Some ==> r.data.unwrap()@.len() > 0,
        carries_claims(
            r,
            config.jwt_secret@,
            issued_claims(lookup, email@, config.token_ttl as int, now as int),
        ),
{
    let rows = match lookup {
        Err(message) => {
            return Response::transport_failure(message);
        },
        Ok(rows) => rows,
    };
    if rows.len() == 0 {
        return Response::failure(StatusCode::NotFound, String::from_str("User not found"));
    }
    let row = &rows[0];
    let stored = match read_field(row, "password").text() {
        None => {
            return Response::failure(
                StatusCode::InternalServerError,
                String::from_str("Invalid user data"),
            );
        },
        Some(stored) => stored,
    };
    if !verify_password(password, stored.as_str()) {
        return Response::failure(
            StatusCode::Unauthorized,
            String::from_str("Invalid credentials"),
        );
    }
    let user = user_entry_from_row(row);
    let claims = match Claims::issue(&user, email, now, config.token_ttl) {
        Err(_) => {
            return Response::failure(
                StatusCode::InternalServerError,
                String::from_str("Invalid timestamp"),
            );
        },
        Ok(claims) => claims,
    };
    match sign_claims(&claims, config.jwt_secret.as_str()) {
        Err(_) => Response::failure(
            StatusCode::InternalServerError,
            String::from_str("Failed to sign token"),
        ),
        Ok(token) => Response::ok(token),
    }
}

/// Whether the first row of a lookup belongs to a registration of `email`
/// with `password`.
pub open spec fn finds_registration(
    lookup: Result<Vec<serde_json::Value>, String>,
    email: Seq<char>,
    password: Seq<char>,
) -> bool {
    lookup is Ok && lookup.unwrap()@.len() > 0 && registered(
        json_fields(lookup.unwrap()@[0]),
        email,
        password,
    )
}

/// The longest session lifetime for which an expiry fits the claim at
/// every instant that the clock can read.
pub const MAX_TOKEN_TTL: u64 = 0x8000_0000_0000_0000;

/// Answers a sign-in attempt as of the present instant on this machine's
/// clock, an instant at or after the epoch. Where the lookup found the row
/// of a registration with these credentials and the configured lifetime is
/// at most [`MAX_TOKEN_TTL`], the answer is a success that carries a token.
pub fn sign_in(
    lookup: Result<Vec<serde_json::Value>, String>,
    email: &str,
    password: &str,
    config: &AuthConfig,
) -> (r: Response<String>)
    ensures
        r.well_formed(),
        exists|now: int|
            0 <= now <= i64::MAX && text_envelope(r) == #[trigger] sign_in_envelope(
                lookup,
                email@,
                password@,
                config.jwt_secret@,
                config.token_ttl as int,
                now,
            ) && carries_claims(
                r,
                config.jwt_secret@,
                issued_claims(lookup, email@, config.token_ttl as int, now),
            ),
        r.data is Some ==> r.data.unwrap()@.len() > 0,
        finds_registration(lookup, email@, password@) && config.token_ttl <= MAX_TOKEN_TTL
            ==> r.status == StatusCode::Success && r.data is Some && r.error is None,
{
    let now = unix_time();
    sign_in_at(lookup, email, password, config, now)
}

/// A sign-in is answered with exactly one of five statuses, and with a
/// payload exactly when the status is a success.
pub proof fn sign_in_outcomes(
    lookup: Result<Vec<serde_json::Value>, String>,
    email: Seq<char>,
    password: Seq<char>,
    secret: Seq<char>,
    ttl: int,
    now: int,
)
    ensures
        ({
            let e = sign_in_envelope(lookup, email, password, secret, ttl, now);
            &&& e.status == StatusCode::Success <==> e.data is Some
            &&& e.data is Some <==> e.error is None
            &&& e.status != StatusCode::BadRequest
            &&& lookup is Ok && lookup.unwrap()@.len() == 0 ==> e.status == StatusCode::NotFound
            &&& e.status == StatusCode::NotFound ==> lookup is Ok && lookup.unwrap()@.len() == 0
        }),
{
}

/// Sign-in after sign-up: where the store returns the row of a registration
/// of `email` with `password`, a sign-in with the same credentials at an
/// instant whose expiry fits the claim succeeds, and its token is the one
/// signed for claims whose subject is that email and whose expiry is `ttl`
/// seconds after the instant.
pub proof fn sign_in_after_sign_up(
    rows: Vec<serde_json::Value>,
    email: Seq<char>,
    password: Seq<char>,
    secret: Seq<char>,
    ttl: int,
    now: int,
)
    requires
        rows@.len() > 0,
        registered(json_fields(rows@[0]), email, password),
        0 <= ttl,
        expiry_after(now, ttl) is Some,
    ensures
        ({
            let claims = ClaimsView::for_user(
                user_entry_of(json_fields(rows@[0])),
                email,
                expiry_after(now, ttl).unwrap(),
            );
            &&& claims.sub == email
            &&& claims.email == email
            &&& claims.exp == now + ttl
            &&& sign_in_envelope(
                Ok::<Vec<serde_json::Value>, String>(rows),
                email,
                password,
                secret,
                ttl,
                now,
            ) == success_view(jwt_hs256(claims.entries(), secret))
        }),
{
}

/// The session that a sign-in issues at `now` for `ttl` seconds has the
/// email as its subject and ends `ttl` seconds after `now`; a token that
/// holds its claims is read successfully at `now` and at every instant up
/// to the expiry, and is refused as expired at every later one.
pub proof fn issued_session_reads_back(
    lookup: Result<Vec<serde_json::Value>, String>,
    email: Seq<char>,
    ttl: int,
    now: int,
    at: int,
)
    requires
        0 <= ttl,
        expiry_after(now, ttl) is Some,
    ensures
        ({
            let claims = issued_claims(lookup, email, ttl, now);
            &&& claims.sub == email
            &&& claims.exp == now + ttl
            &&& parsed_at(Some(claims.object()), now) == Ok::<ClaimsView, TokenError>(claims)
            &&& now <= at <= now + ttl ==> parsed_at(Some(claims.object()), at) == Ok::<
                ClaimsView,
                TokenError,
            >(claims)
            &&& at > now + ttl ==> parsed_at(Some(claims.object()), at) == Err::<
                ClaimsView,
                TokenError,
            >(TokenError::Expired)
        }),
{
    claims_object_reads_back(issued_claims(lookup, email, ttl, now));
}

/// A sign-in with a password that the stored hash does not accept is
/// answered as unauthorized, whatever the instant and the secret.
pub proof fn sign_in_with_wrong_password(
    rows: Vec<serde_json::Value>,
    email: Seq<char>,
    password: Seq<char>,
    secret: Seq<char>,
    ttl: int,
    now: int,
)
    requires
        rows@.len() > 0,
        field_at(json_fields(rows@[0]), "password"@).text() is Some,
        !password_matches(password, field_at(json_fields(rows@[0]), "password"@).text().unwrap()),
    ensures
        sign_in_envelope(
            Ok::<Vec<serde_json::Value>, String>(rows),
            email,
            password,
            secret,
            ttl,
            now,
        ) == failure_view(StatusCode::Unauthorized, "Invalid credentials"@),
{
}

} // verus!
