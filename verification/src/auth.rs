//! Registration and login: what is decided between the store, the password
//! hasher and the token.

use vstd::prelude::*;
use vstd::string::*;
use argon2::{PasswordHasher, PasswordVerifier};
use crate::error::{join, StoreFault, StoreFaultView};
use crate::text::{lower_code, normalize_lower};

verus! {

/// How long a token is good for, in seconds: one day.
pub const TOKEN_LIFETIME_SECS: i64 = 86400;

/// A request to register.
#[derive(Debug)]
pub struct RegisterRequest {
    pub username: String,
    pub password: String,
}

/// A request to log in.
#[derive(Debug)]
pub struct LoginRequest {
    pub username: String,
    pub password: String,
}

/// A user as shown to whoever registered or logged in.
#[derive(Debug)]
pub struct UserResponse {
    pub id: u128,
    pub username: String,
}

/// A user as stored.
#[derive(Debug)]
pub struct StoredUser {
    pub id: u128,
    pub username: String,
    pub password_hash: String,
    pub created_at: i64,
}

/// What a token claims: whom it is for, until when it is good, and when it
/// was issued, the instants in seconds since the Unix epoch.
#[derive(Debug)]
pub struct Claims {
    pub sub: String,
    pub exp: usize,
    pub iat: usize,
}

/// Why registration or login failed.
#[derive(Debug)]
pub enum AuthError {
    /// The store itself failed; the text is for the log.
    Database(String),
    AuthenticationFailed,
    RegistrationFailed,
    PasswordHashError,
    InvalidToken,
}

/// A failure of registration or login, with its text as a sequence of
/// characters.
pub enum AuthFailure {
    Database(Seq<char>),
    AuthenticationFailed,
    RegistrationFailed,
    PasswordHashError,
    InvalidToken,
}

impl View for AuthError {
    type V = AuthFailure;

    open spec fn view(&self) -> AuthFailure {
        match self {
            AuthError::Database(m) => AuthFailure::Database(m@),
            AuthError::AuthenticationFailed => AuthFailure::AuthenticationFailed,
            AuthError::RegistrationFailed => AuthFailure::RegistrationFailed,
            AuthError::PasswordHashError => AuthFailure::PasswordHashError,
            AuthError::InvalidToken => AuthFailure::InvalidToken,
        }
    }
}

impl AuthFailure {
    /// The HTTP status that stands for the failure.
    pub open spec fn status(self) -> u16 {
        match self {
            AuthFailure::AuthenticationFailed => 401,
            AuthFailure::InvalidToken => 401,
            AuthFailure::RegistrationFailed => 400,
            AuthFailure::PasswordHashError => 500,
            AuthFailure::Database(_) => 500,
        }
    }

    /// The text shown to the caller; what went wrong inside stays inside.
    pub open spec fn shown(self) -> Seq<char> {
        match self {
            AuthFailure::AuthenticationFailed => "Authentication failed"@,
            AuthFailure::InvalidToken => "Invalid token"@,
            AuthFailure::RegistrationFailed => "Registration failed"@,
            AuthFailure::PasswordHashError => "Internal server error"@,
            AuthFailure::Database(_) => "Internal server error"@,
        }
    }

    /// The failure written out in full, for the log.
    pub open spec fn described(self) -> Seq<char> {
        match self {
            AuthFailure::AuthenticationFailed => "Authentication failed"@,
            AuthFailure::InvalidToken => "Invalid token"@,
            AuthFailure::RegistrationFailed => "Registration failed"@,
            AuthFailure::PasswordHashError => "Password hash error"@,
            AuthFailure::Database(m) => "Database error: "@ + m,
        }
    }
}

impl AuthError {
    /// The HTTP status that stands for the failure.
    pub fn status_code(&self) -> (r: u16)
        ensures
            r == self@.status(),
    {
        match self {
            AuthError::AuthenticationFailed => 401,
            AuthError::InvalidToken => 401,
            AuthError::RegistrationFailed => 400,
            AuthError::PasswordHashError => 500,
            AuthError::Database(_) => 500,
        }
    }

    /// The text shown to the caller.
    pub fn public_message(&self) -> (r: &'static str)
        ensures
            r@ == self@.shown(),
    {
        match self {
            AuthError::AuthenticationFailed => "Authentication failed",
            AuthError::InvalidToken => "Invalid token",
            AuthError::RegistrationFailed => "Registration failed",
            AuthError::PasswordHashError => "Internal server error",
            AuthError::Database(_) => "Internal server error",
        }
    }

    /// The failure written out in full.
    pub fn describe(&self) -> (r: String)
        ensures
            r@ == self@.described(),
    {
        match self {
            AuthError::AuthenticationFailed => "Authentication failed".to_owned(),
            AuthError::InvalidToken => "Invalid token".to_owned(),
            AuthError::RegistrationFailed => "Registration failed".to_owned(),
            AuthError::PasswordHashError => "Password hash error".to_owned(),
            AuthError::Database(m) => join("Database error: ", m.as_str()),
        }
    }
}

/// Whether Argon2 accepts a password for a stored hash in the PHC format,
/// with the parameters and the salt that the stored hash names. A text that
/// is no such hash accepts nothing.
pub uninterp spec fn password_accepted(password: Seq<char>, stored_hash: Seq<char>) -> bool;

/// The identifier that a text in one of `uuid`'s formats stands for, if it
/// is in one.
pub uninterp spec fn parsed_uuid(s: Seq<char>) -> Option<u128>;

/// Parses the stored hash with `PasswordHash::new` and checks the password
/// against it with `Argon2::verify_password`. Trusted: the result is what is
/// named `password_accepted`.
#[verifier::external_body]
fn verify_password(password: &str, stored_hash: &str) -> (r: bool)
    ensures
        r == password_accepted(password@, stored_hash@),
{
    match argon2::PasswordHash::new(stored_hash) {
        Ok(parsed) => argon2::Argon2::default().verify_password(password.as_bytes(), &parsed).is_ok(),
        Err(_) => false,
    }
}

/// Hashes a password with `Argon2::hash_password` under a fresh random
/// salt. Trusted; nothing is claimed of the hash, which differs from call to
/// call.
#[verifier::external_body]
fn hash_password(password: &str) -> Option<String> {
    let salt = argon2::password_hash::SaltString::generate(
        &mut argon2::password_hash::rand_core::OsRng,
    );
    match argon2::Argon2::default().hash_password(password.as_bytes(), &salt) {
        Ok(hash) => Some(hash.to_string()),
        Err(_) => None,
    }
}

/// Reads an identifier with `uuid::Uuid::parse_str`. Trusted: the result is
/// what is named `parsed_uuid`.
#[verifier::external_body]
fn parse_uuid(s: &str) -> (r: Option<u128>)
    ensures
        r == parsed_uuid(s@),
{
    match uuid::Uuid::parse_str(s) {
        Ok(id) => Some(id.as_u128()),
        Err(_) => None,
    }
}

/// The name under which a user is stored and looked up: trimmed and
/// lower-cased.
pub fn normalize_username(username: &str) -> (r: String)
    ensures
        r@ == lower_code(username@),
{
    normalize_lower(username)
}

/// Makes the user that a registration stores, given the hash of the
/// password if hashing succeeded.
pub fn new_user(req: &RegisterRequest, hash: Option<String>, id: u128, now: i64) -> (r: Result<
    StoredUser,
    AuthError,
>)
    ensures
        match r {
            Ok(u) => hash is Some && u.id == id && u.username@ == lower_code(req.username@)
                && u.password_hash == hash->0 && u.created_at == now,
            Err(e) => hash is None && e@ == AuthFailure::PasswordHashError,
        },
{
    let username = normalize_username(req.username.as_str());
    match hash {
        Some(password_hash) => Ok(StoredUser { id, username, password_hash, created_at: now }),
        None => Err(AuthError::PasswordHashError),
    }
}

/// Makes the user that a registration stores: the name normalised, the
/// password hashed. Fails only where the hasher does.
pub fn register(req: &RegisterRequest, id: u128, now: i64) -> (r: Result<
    StoredUser,
    AuthError,
>)
    ensures
        match r {
            Ok(u) => u.id == id && u.username@ == lower_code(req.username@) && u.created_at == now,
            Err(e) => e@ == AuthFailure::PasswordHashError,
        },
{
    let hash = hash_password(req.password.as_str());
    new_user(req, hash, id, now)
}

/// What a fault of the store means when a user is inserted: the refusal by
/// a uniqueness rule, and any statement or query that was refused, is taken
/// for a name that is registered already.
pub open spec fn registration_failure(fault: StoreFaultView) -> AuthFailure {
    match fault {
        StoreFaultView::Unique(_) => AuthFailure::RegistrationFailed,
        StoreFaultView::Exec(_) => AuthFailure::RegistrationFailed,
        StoreFaultView::Query(_) => AuthFailure::RegistrationFailed,
        StoreFaultView::Other(m) => AuthFailure::Database(m),
    }
}

/// Says what a fault of the store means when a user is inserted.
pub fn explain_registration_failure(fault: StoreFault) -> (r: AuthError)
    ensures
        r@ == registration_failure(fault@),
{
    match fault {
        StoreFault::Unique(_) => AuthError::RegistrationFailed,
        StoreFault::Exec(_) => AuthError::RegistrationFailed,
        StoreFault::Query(_) => AuthError::RegistrationFailed,
        StoreFault::Other(m) => AuthError::Database(m),
    }
}

/// Shows the user of a registration that was stored.
pub fn registered(user: StoredUser) -> (r: UserResponse)
    ensures
        r.id == user.id,
        r.username == user.username,
{
    UserResponse { id: user.id, username: user.username }
}

/// Decides a login, given the user stored under the normalised name, if
/// there is one: the user is shown if the password is accepted for the
/// stored hash.
pub fn login(found: Option<StoredUser>, req: &LoginRequest) -> (r: Result<UserResponse, AuthError>)
    ensures
        match r {
            Ok(shown) => found matches Some(u) && password_accepted(
                req.password@,
                u.password_hash@,
            ) && shown.id == u.id && shown.username == u.username,
            Err(e) => e@ == AuthFailure::AuthenticationFailed && !(found matches Some(u)
                && password_accepted(req.password@, u.password_hash@)),
        },
{
    match found {
        None => Err(AuthError::AuthenticationFailed),
        Some(user) => {
            if verify_password(req.password.as_str(), user.password_hash.as_str()) {
                Ok(UserResponse { id: user.id, username: user.username })
            } else {
                Err(AuthError::AuthenticationFailed)
            }
        },
    }
}

impl Claims {
    /// The claims of a token issued at `now` for a subject: good for one
    /// day. `None` where the instants cannot be held.
    pub fn issue(sub: String, now: i64) -> (r: Option<Claims>)
        ensures
            r is Some <==> 0 <= now && now + TOKEN_LIFETIME_SECS <= usize::MAX && now
                + TOKEN_LIFETIME_SECS <= i64::MAX,
            r matches Some(c) ==> c.sub == sub && c.iat == now && c.exp == now
                + TOKEN_LIFETIME_SECS,
    {
        if now < 0 || now > i64::MAX - TOKEN_LIFETIME_SECS {
            return None;
        }
        let until: i64 = now + TOKEN_LIFETIME_SECS;
        if until as u64 > usize::MAX as u64 {
            return None;
        }
        Some(Claims { sub, exp: until as usize, iat: now as usize })
    }

    /// The user that the claims are for, if the subject is an identifier.
    pub fn subject_id(&self) -> (r: Option<u128>)
        ensures
            r == parsed_uuid(self.sub@),
    {
        parse_uuid(self.sub.as_str())
    }
}

/// The token of an `Authorization` header: what follows `Bearer `, if the
/// header begins with it.
pub open spec fn token_of(header: Seq<char>) -> Option<Seq<char>> {
    if header.len() >= 7 && header.subrange(0, 7) == "Bearer "@ {
        Some(header.subrange(7, header.len() as int))
    } else {
        None
    }
}

/// Takes the token out of an `Authorization` header.
pub fn bearer_token(header: &str) -> (r: Option<&str>)
    ensures
        match r {
            Some(t) => token_of(header@) == Some(t@),
            None => token_of(header@) is None,
        },
{
    let n = header.unicode_len();
    if n < 7 {
        return None;
    }
    let prefix = "Bearer ";
    proof {
        reveal_strlit("Bearer ");
    }
    let mut i: usize = 0;
    while i < 7
        invariant
            i <= 7,
            n == header@.len(),
            n >= 7,
            prefix@ == "Bearer "@,
            prefix@.len() == 7,
            forall|j: int| 0 <= j < i ==> header@[j] == prefix@[j],
        decreases 7 - i,
    {
        if header.get_char(i) != prefix.get_char(i) {
            assert(header@.subrange(0, 7)[i as int] != prefix@[i as int]);
            return None;
        }
        i = i + 1;
    }
    assert(header@.subrange(0, 7) =~= prefix@);
    Some(header.substring_char(7, n))
}

/// Makes the `Authorization` header that carries a token.
pub fn bearer_header(token: &str) -> (r: String)
    ensures
        r@ == "Bearer "@ + token@,
{
    join("Bearer ", token)
}

/// The token that a header carries is the token that the header was made
/// for.
pub proof fn law_bearer_round_trip(token: Seq<char>)
    ensures
        token_of("Bearer "@ + token) == Some(token),
{
    reveal_strlit("Bearer ");
    let header = "Bearer "@ + token;
    assert(header.subrange(0, 7) =~= "Bearer "@);
    assert(header.subrange(7, header.len() as int) =~= token);
}

} // verus!
