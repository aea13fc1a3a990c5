use vstd::prelude::*;
use crate::http::{DbFailure, Status};
use crate::ids::{is_uuid_v4_text, new_id};

verus! {

/// What a bearer token asserts: the user it was issued to (`sub`) and the Unix
/// time at which it stops being accepted (`exp`).
#[derive(Debug)]
pub struct Claims {
    pub sub: String,
    pub exp: usize,
}

/// How long an issued token stays valid, in seconds: 24 hours.
pub open spec fn token_lifetime() -> int {
    86400
}

impl Claims {
    /// The claims of a token issued to `user_id` at Unix time `now`: it expires
    /// 24 hours later.
    pub fn for_user(user_id: &String, now: i64) -> (c: Claims)
        requires
            now + token_lifetime() <= i64::MAX,
        ensures
            c.sub@ == user_id@,
            c.exp == (now + token_lifetime()) as usize,
    {
        let expires: i64 = now + 86400;
        Claims { sub: user_id.clone(), exp: expires as usize }
    }
}

/// The email and password a user registers or logs in with.
#[derive(Debug)]
pub struct AuthPayload {
    pub email: String,
    pub password: String,
}

/// A token for the user, and the user's id.
#[derive(Debug)]
pub struct AuthResponse {
    pub access_token: String,
    pub token_type: String,
    pub user_id: String,
}

#[derive(Debug)]
pub struct ErrorResponse {
    pub error: String,
}

/// The answer to a registration or a login.
pub type AuthReply = Result<AuthResponse, (Status, ErrorResponse)>;

/// `reply` refuses the request with `status` and the message `msg`.
pub open spec fn rejects(reply: AuthReply, status: Status, msg: Seq<char>) -> bool {
    reply matches Err((s, e)) && s == status && e.error@ == msg
}

fn refusal(status: Status, msg: &str) -> (reply: AuthReply)
    ensures
        rejects(reply, status, msg@),
{
    Err((status, ErrorResponse { error: String::from_str(msg) }))
}

/// Declares bcrypt's error type, `bcrypt::BcryptError`, so that the results of
/// its functions can be carried; nothing inside an error is read.
#[verifier::external_type_specification]
#[verifier::external_body]
pub struct ExBcryptError(bcrypt::BcryptError);

/// What `bcrypt::verify` answers for a password and a stored hash: whether they
/// match, or `None` where it fails (a malformed hash).
pub uninterp spec fn bcrypt_verifies(password: Seq<char>, hash: Seq<char>) -> Option<bool>;

/// `h` has the form of a bcrypt hash at cost 12: `$2b$12$` followed by 53
/// characters (the salt, then the hash).
pub open spec fn is_cost12_bcrypt_text(h: Seq<char>) -> bool {
    h.len() == 60 && h.subrange(0, 7) == "$2b$12$"@
}

/// Hashes a password for storage with a fresh random salt.
///
/// Trusted: calls `bcrypt::hash` with `bcrypt::DEFAULT_COST`. The hash depends
/// on a random salt and is not named. The contract states what the source
/// shows of every hash it returns: its form (`HashParts::format` writes version
/// `2b`, the cost and 53 characters of salt and hash), and that `bcrypt::verify`
/// accepts the same password against it.
#[verifier::external_body]
fn hash_password(password: &str) -> (hashed: Result<String, bcrypt::BcryptError>)
    ensures
        hashed matches Ok(h) ==> bcrypt_verifies(password@, h@) == Some(true) && is_cost12_bcrypt_text(h@),
{
    bcrypt::hash(password, bcrypt::DEFAULT_COST)
}

/// Checks a password against a stored hash.
///
/// Trusted: calls `bcrypt::verify`, whose answer depends on the password and
/// the hash alone; the contract names it `bcrypt_verifies`.
#[verifier::external_body]
fn verify_password(password: &str, hash: &str) -> (verified: Result<bool, bcrypt::BcryptError>)
    ensures
        match verified {
            Ok(b) => bcrypt_verifies(password@, hash@) == Some(b),
            Err(_) => bcrypt_verifies(password@, hash@) is None,
        },
{
    bcrypt::verify(password, hash)
}

/// A token could not be signed.
#[derive(Clone, Copy, Debug, PartialEq, Eq, Structural)]
pub struct SigningFailure;

/// Waiting for a token to be signed for a user who registered or logged in.
#[derive(Debug)]
pub struct TokenIssuing {
    user_id: String,
}

impl TokenIssuing {
    pub closed spec fn user(&self) -> String {
        self.user_id
    }

    /// The user the token is for.
    pub fn user_id(&self) -> (u: &String)
        ensures
            *u == self.user(),
    {
        &self.user_id
    }

    /// The claims to sign at Unix time `now`.
    pub fn claims(&self, now: i64) -> (c: Claims)
        requires
            now + token_lifetime() <= i64::MAX,
        ensures
            c.sub@ == self.user()@,
            c.exp == (now + token_lifetime()) as usize,
    {
        Claims::for_user(&self.user_id, now)
    }

    /// The claims to sign at Unix time `now`, or `None` where their expiry
    /// would not fit in an `i64`.
    pub fn claims_checked(&self, now: i64) -> (c: Option<Claims>)
        ensures
            now + token_lifetime() <= i64::MAX ==> (c matches Some(cl) && cl.sub@ == self.user()@
                && cl.exp == (now + token_lifetime()) as usize),
            now + token_lifetime() > i64::MAX ==> c is None,
    {
        if now > i64::MAX - 86400 {
            None
        } else {
            Some(self.claims(now))
        }
    }

    /// Answers with the signed token, of type `Bearer`, and the user's id.
    pub fn resume(self, token: Result<String, SigningFailure>) -> (reply: AuthReply)
        ensures
            token is Err ==> rejects(reply, Status::InternalServerError, "Error creating token"@),
            token matches Ok(t) ==> (reply matches Ok(r) && r.access_token == t && r.token_type@
                == "Bearer"@ && r.user_id == self.user()),
    {
        match token {
            Err(_) => refusal(Status::InternalServerError, "Error creating token"),
            Ok(t) => Ok(
                AuthResponse { access_token: t, token_type: String::from_str("Bearer"), user_id: self.user_id },
            ),
        }
    }
}

/// Where a registration stands: the work it waits for, or its answer.
#[derive(Debug)]
pub enum RegisterStep {
    InsertUser(RegisterInserting),
    IssueToken(TokenIssuing),
    Reply(AuthReply),
}

/// Starts registering `payload`: the password is hashed, then the user is
/// stored under a fresh id.
pub fn register(payload: AuthPayload) -> (step: RegisterStep)
    ensures
        match step {
            RegisterStep::Reply(r) => rejects(r, Status::InternalServerError, "Failed to hash password"@),
            RegisterStep::InsertUser(p) => p.email() == payload.email && is_uuid_v4_text(p.user_id()@)
                && password_matches(payload.password@, p.password_hash()@)
                && is_cost12_bcrypt_text(p.password_hash()@),
            RegisterStep::IssueToken(_) => false,
        },
{
    let hashed = hash_password(payload.password.as_str());
    register_hashed(payload.email, hashed)
}

/// Goes on with a registration once the password is hashed: a hash that failed
/// ends it; otherwise the user is stored under a fresh id with that hash.
pub fn register_hashed(email: String, hashed: Result<String, bcrypt::BcryptError>) -> (step: RegisterStep)
    ensures
        hashed is Err ==> (step matches RegisterStep::Reply(r) && rejects(
            r,
            Status::InternalServerError,
            "Failed to hash password"@,
        )),
        hashed matches Ok(h) ==> (step matches RegisterStep::InsertUser(p) && p.email() == email
            && p.password_hash() == h && is_uuid_v4_text(p.user_id()@)),
{
    match hashed {
        Err(_) => RegisterStep::Reply(refusal(Status::InternalServerError, "Failed to hash password")),
        Ok(password_hash) => {
            let user_id = new_id();
            RegisterStep::InsertUser(RegisterInserting { user_id, email, password_hash })
        },
    }
}

/// Waiting for the new user to be stored.
#[derive(Debug)]
pub struct RegisterInserting {
    user_id: String,
    email: String,
    password_hash: String,
}

impl RegisterInserting {
    pub closed spec fn user_id(&self) -> String {
        self.user_id
    }

    pub closed spec fn email(&self) -> String {
        self.email
    }

    pub closed spec fn password_hash(&self) -> String {
        self.password_hash
    }

    /// The id, email and password hash to store.
    pub fn user(&self) -> (u: (&String, &String, &String))
        ensures
            *u.0 == self.user_id(),
            *u.1 == self.email(),
            *u.2 == self.password_hash(),
    {
        (&self.user_id, &self.email, &self.password_hash)
    }

    /// A user that cannot be stored (the email is taken or invalid) ends the
    /// registration; a stored user gets a token.
    pub fn resume(self, answer: Result<(), DbFailure>) -> (step: RegisterStep)
        ensures
            answer is Err ==> (step matches RegisterStep::Reply(r) && rejects(
                r,
                Status::BadRequest,
                "User already exists or email is invalid"@,
            )),
            answer is Ok ==> (step matches RegisterStep::IssueToken(t) && t.user() == self.user_id()),
    {
        match answer {
            Err(_) => RegisterStep::Reply(refusal(Status::BadRequest, "User already exists or email is invalid")),
            Ok(()) => RegisterStep::IssueToken(TokenIssuing { user_id: self.user_id }),
        }
    }
}

/// A stored user: their id and password hash.
#[derive(Debug)]
pub struct UserRow {
    pub id: String,
    pub password_hash: String,
}

/// Where a login stands: the work it waits for, or its answer.
#[derive(Debug)]
pub enum LoginStep {
    FindUser(LoginFindingUser),
    IssueToken(TokenIssuing),
    Reply(AuthReply),
}

/// Starts logging in with `payload`: first the user is looked up by email.
pub fn login(payload: AuthPayload) -> (step: LoginStep)
    ensures
        step matches LoginStep::FindUser(p) && p.credentials() == payload,
{
    LoginStep::FindUser(LoginFindingUser { payload })
}

/// The password matches the stored hash, as bcrypt checks it.
pub open spec fn password_matches(password: Seq<char>, stored_hash: Seq<char>) -> bool {
    bcrypt_verifies(password, stored_hash) == Some(true)
}

/// Whom a login with `password` lets in, given the user found by email: that
/// user when the password matches their stored hash, nobody otherwise.
pub open spec fn login_admits(password: Seq<char>, found: Option<UserRow>) -> Option<String> {
    match found {
        Some(u) => if password_matches(password, u.password_hash@) {
            Some(u.id)
        } else {
            None
        },
        None => None,
    }
}

/// Whoever registered logs in with the same password: registration stores a
/// hash that matches the password, and login lets in the user whose stored hash
/// matches.
pub proof fn law_registered_user_logs_in(password: Seq<char>, id: String, stored_hash: String)
    requires
        password_matches(password, stored_hash@),
    ensures
        login_admits(password, Some(UserRow { id, password_hash: stored_hash })) == Some(id),
{
}

/// The message that refuses a login, whether the email or the password is wrong.
pub open spec fn invalid_credentials() -> Seq<char> {
    "Invalid credentials"@
}

/// Goes on with a login once the password was checked against the stored hash
/// of user `user_id`: only a match gets a token.
pub fn login_checked(user_id: String, verified: Result<bool, bcrypt::BcryptError>) -> (step: LoginStep)
    ensures
        verified == Ok::<bool, bcrypt::BcryptError>(true) ==> (step matches LoginStep::IssueToken(t) && t.user()
            == user_id),
        !(verified == Ok::<bool, bcrypt::BcryptError>(true)) ==> (step matches LoginStep::Reply(r) && rejects(
            r,
            Status::Unauthorized,
            invalid_credentials(),
        )),
{
    let valid = match verified {
        Ok(b) => b,
        Err(_) => false,
    };
    if !valid {
        return LoginStep::Reply(refusal(Status::Unauthorized, "Invalid credentials"));
    }
    LoginStep::IssueToken(TokenIssuing { user_id })
}

/// Waiting for the user with the given email.
#[derive(Debug)]
pub struct LoginFindingUser {
    payload: AuthPayload,
}

impl LoginFindingUser {
    pub closed spec fn credentials(&self) -> AuthPayload {
        self.payload
    }

    /// The email to look up.
    pub fn email(&self) -> (e: &String)
        ensures
            *e == self.credentials().email,
    {
        &self.payload.email
    }

    /// An unknown email and a wrong password are refused alike; a password that
    /// matches the stored hash gets a token.
    pub fn resume(self, answer: Result<Option<UserRow>, DbFailure>) -> (step: LoginStep)
        ensures
            answer is Err ==> (step matches LoginStep::Reply(r) && rejects(
                r,
                Status::InternalServerError,
                "Database error"@,
            )),
            answer matches Ok(found) ==> match login_admits(self.credentials().password@, found) {
                Some(id) => step matches LoginStep::IssueToken(t) && t.user() == id,
                None => step matches LoginStep::Reply(r) && rejects(r, Status::Unauthorized, invalid_credentials()),
            },
    {
        match answer {
            Err(_) => LoginStep::Reply(refusal(Status::InternalServerError, "Database error")),
            Ok(None) => LoginStep::Reply(refusal(Status::Unauthorized, "Invalid credentials")),
            Ok(Some(u)) => {
                let verified = verify_password(self.payload.password.as_str(), u.password_hash.as_str());
                login_checked(u.id, verified)
            },
        }
    }
}

} // verus!
