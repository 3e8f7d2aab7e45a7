//! The decisions of the login and register routes. The caller talks to the
//! store and hands each outcome in; what to answer, or what to store next,
//! is decided here.

use crate::clock;
use crate::clock::Timestamp;
use crate::error::IssueError;
use crate::handlers::reply::{Reply, StoreFailure};
use crate::ident;
use crate::ident::is_random_uuid;
use crate::middleware::auth_middleware::{Claims, ClaimsView};
use crate::models::auth_model::{AuthResponse, LoginRequest, RegisterRequest, UserInfo};
use crate::models::user_model::User;
use crate::password;
use crate::password::bcrypt_verified;
use crate::token;
use crate::token::{issue_spec, issued_soundly, text_of};
use vstd::prelude::*;
use vstd::string::*;

verus! {

/// For how long a token is valid after it was issued: 24 hours, in seconds.
pub const TOKEN_TTL_SECONDS: i64 = 86400;

/// The answer of the login and register routes: on success, the token with
/// the user it was issued to.
pub type AuthReply = Reply<AuthResponse>;

/// Whether `reply` grants, with the status `status`, the token `token` to
/// `user`.
pub open spec fn grants(reply: AuthReply, status: u16, token: Seq<char>, user: &User) -> bool {
    &&& reply matches Reply::Content { status: s, body }
    &&& s == status
    &&& body.token@ == token
    &&& body.user.id@ == user.id@
    &&& body.user.name@ == user.name@
    &&& body.user.email@ == user.email@
    &&& body.user.role@ == user.role.text()
}

/// The expiry of a token issued when the clock reads `now`: 24 hours later,
/// where that is a time the claims can hold.
pub open spec fn expiry_at(now: i64) -> Option<usize> {
    if 0 <= now + TOKEN_TTL_SECONDS <= usize::MAX {
        Some((now + TOKEN_TTL_SECONDS) as usize)
    } else {
        None
    }
}

/// The claims of a token for `user` that expires at `exp`.
pub open spec fn claims_of(user: &User, exp: usize) -> ClaimsView {
    ClaimsView { sub: user.id@, email: user.email@, role: user.role.text(), exp: exp as nat }
}

/// The token for `user` under `secret`, issued when the clock reads `now`,
/// or the reason for which there is none.
pub open spec fn token_at(user: &User, secret: Seq<char>, now: i64) -> Result<
    Seq<char>,
    IssueError,
> {
    match expiry_at(now) {
        Some(exp) => issue_spec(claims_of(user, exp), secret),
        None => Err(IssueError::ExpiryOutOfRange),
    }
}

/// Whether `r` is what issuing a token for `user` gives when the clock
/// reads `now`: the token for that reading, which is sound, or the reason
/// for which there is none. A sound token has three segments in base64
/// symbols, verifies under `secret` to the user's claims until 24 hours
/// after `now`, and is rejected under every secret that gives another
/// signature.
pub open spec fn issues_at(
    user: &User,
    secret: Seq<char>,
    now: i64,
    r: Result<String, IssueError>,
) -> bool {
    match r {
        Ok(token) => {
            &&& token_at(user, secret, now) == Ok::<Seq<char>, IssueError>(token@)
            &&& issued_soundly(token@, claims_of(user, expiry_at(now)->0), secret)
        },
        Err(e) => token_at(user, secret, now) == Err::<Seq<char>, IssueError>(e),
    }
}

/// Issues the token for `user` when the clock reads `now`. Its expiry is
/// `now` plus 24 hours.
pub fn generate_token_at(user: &User, secret_key: &str, now: i64) -> (r: Result<
    String,
    IssueError,
>)
    ensures
        issues_at(user, secret_key@, now, r),
{
    let expiration: i128 = now as i128 + TOKEN_TTL_SECONDS as i128;
    if expiration < 0 || expiration > usize::MAX as i128 {
        return Err(IssueError::ExpiryOutOfRange);
    }
    let claims = Claims {
        sub: user.id.clone(),
        email: user.email.clone(),
        role: String::from_str(user.role.as_str()),
        exp: expiration as usize,
    };
    token::issue(&claims, secret_key)
}

/// Issues the token for `user` now. The clock reads a time that is not
/// before the epoch; whatever it reads, the token is the one that
/// `generate_token_at` issues for that reading.
pub fn generate_token(user: &User, secret_key: &str) -> (r: Result<String, IssueError>)
    ensures
        exists|now: i64| 0 <= now && #[trigger] issues_at(user, secret_key@, now, r),
{
    let now = clock::now().seconds;
    let r = generate_token_at(user, secret_key, now);
    assert(issues_at(user, secret_key@, now, r));
    r
}

/// The user as an answer shows it.
pub fn user_info(user: &User) -> (info: UserInfo)
    ensures
        info.id@ == user.id@,
        info.name@ == user.name@,
        info.email@ == user.email@,
        info.role@ == user.role.text(),
{
    UserInfo {
        id: user.id.clone(),
        name: user.name.clone(),
        email: user.email.clone(),
        role: String::from_str(user.role.as_str()),
    }
}

/// What a login does with what the store found under the email: it goes
/// on with the user, answers 401 where there is none, and 500 where the
/// store failed.
pub fn login_found(lookup: Result<Option<User>, StoreFailure>) -> (r: Result<User, AuthReply>)
    ensures
        match lookup {
            Ok(Some(user)) => r == Ok::<User, AuthReply>(user),
            Ok(None) => r matches Err(reply) && reply.refuses(401, "Invalid credentials"@),
            Err(_) => r matches Err(reply) && reply.refuses(500, "Error fetching user"@),
        },
{
    match lookup {
        Ok(Some(user)) => Ok(user),
        Ok(None) => Err(Reply::refuse(401, "Invalid credentials")),
        Err(_) => Err(Reply::refuse(500, "Error fetching user")),
    }
}

/// What a login does with the outcome of the password check: it goes on
/// where the password is the user's, answers 401 where it is not, and 500
/// where the stored hash is none.
pub fn password_checked(verified: Option<bool>) -> (r: Result<(), AuthReply>)
    ensures
        match verified {
            Some(true) => r is Ok,
            Some(false) => r matches Err(reply) && reply.refuses(401, "Invalid credentials"@),
            None => r matches Err(reply) && reply.refuses(500, "Error verifying password"@),
        },
{
    match verified {
        Some(true) => Ok(()),
        Some(false) => Err(Reply::refuse(401, "Invalid credentials")),
        None => Err(Reply::refuse(500, "Error verifying password")),
    }
}

/// The answer that ends a login or a registration once the token has been
/// asked for: the token with the user under the status `status`, or 500
/// where none could be issued.
pub fn granted(status: u16, user: &User, token: Result<String, IssueError>) -> (reply: AuthReply)
    ensures
        match token {
            Ok(token) => grants(reply, status, token@, user),
            Err(_) => reply.refuses(500, "Error generating token"@),
        },
{
    match token {
        Ok(token) => Reply::Content { status, body: AuthResponse { token, user: user_info(user) } },
        Err(_) => Reply::refuse(500, "Error generating token"),
    }
}

/// Whether `reply` answers a login with `data` when the store's lookup of
/// the email gave `lookup` and the clock reads `now`. A token that is
/// granted is sound.
pub open spec fn login_answer(
    data: &LoginRequest,
    lookup: Result<Option<User>, StoreFailure>,
    secret: Seq<char>,
    now: i64,
    reply: AuthReply,
) -> bool {
    match lookup {
        Err(_) => reply.refuses(500, "Error fetching user"@),
        Ok(None) => reply.refuses(401, "Invalid credentials"@),
        Ok(Some(user)) => match bcrypt_verified(data.password@, user.password@) {
            None => reply.refuses(500, "Error verifying password"@),
            Some(false) => reply.refuses(401, "Invalid credentials"@),
            Some(true) => match token_at(&user, secret, now) {
                Err(_) => reply.refuses(500, "Error generating token"@),
                Ok(token) => grants(reply, 200, token, &user) && issued_soundly(
                    token,
                    claims_of(&user, expiry_at(now)->0),
                    secret,
                ),
            },
        },
    }
}

/// Answers a login when the clock reads `now`: an unknown email and a
/// wrong password get the same 401; the right password gets a token.
pub fn login_at(
    data: &LoginRequest,
    lookup: Result<Option<User>, StoreFailure>,
    secret_key: &str,
    now: i64,
) -> (reply: AuthReply)
    ensures
        login_answer(data, lookup, secret_key@, now, reply),
{
    let user = match login_found(lookup) {
        Ok(user) => user,
        Err(reply) => {
            return reply;
        },
    };
    match password_checked(password::verify(data.password.as_str(), user.password.as_str())) {
        Ok(_) => granted(200, &user, generate_token_at(&user, secret_key, now)),
        Err(reply) => reply,
    }
}

/// Answers a login now. The clock reads a time that is not before the
/// epoch; whatever it reads, the answer is the one that `login_at` gives
/// for that reading.
pub fn login(data: &LoginRequest, lookup: Result<Option<User>, StoreFailure>, secret_key: &str) -> (reply:
    AuthReply)
    ensures
        exists|now: i64| 0 <= now && #[trigger] login_answer(data, lookup, secret_key@, now, reply),
{
    let now = clock::now().seconds;
    let reply = login_at(data, lookup, secret_key, now);
    assert(login_answer(data, lookup, secret_key@, now, reply));
    reply
}

/// What a registration does once the store has said whether the email is
/// taken: it goes on where it is free, answers 409 where it is taken, and
/// 500 where the store failed.
pub fn email_checked(taken: Result<bool, StoreFailure>) -> (r: Result<(), AuthReply>)
    ensures
        match taken {
            Ok(false) => r is Ok,
            Ok(true) => r matches Err(reply) && reply.refuses(409, "Email already exists"@),
            Err(_) => r matches Err(reply) && reply.refuses(500, "Error checking email"@),
        },
{
    match taken {
        Ok(false) => Ok(()),
        Ok(true) => Err(Reply::refuse(409, "Email already exists")),
        Err(_) => Err(Reply::refuse(500, "Error checking email")),
    }
}

/// Whether `step` is what a registration with `data` on a free email does
/// when hashing the password gave `hashed`, the fresh id is `id` and the
/// clock reads `now`: the account to store, with the role `User` and the
/// hash as its password, or 500 where there is no hash.
pub open spec fn account_step(
    data: &RegisterRequest,
    hashed: Option<Seq<char>>,
    id: u128,
    now: Timestamp,
    step: Result<User, AuthReply>,
) -> bool {
    match hashed {
        None => step matches Err(reply) && reply.refuses(500, "Error processing password"@),
        Some(hash) => step matches Ok(user) && user.is_new(
            id,
            now,
            data.name@,
            data.email@,
            hash,
            None,
        ),
    }
}

/// The account that a registration on a free email stores, with the
/// password hash, the id and the time given.
pub fn account(data: &RegisterRequest, hashed: Option<String>, id: u128, now: Timestamp) -> (step:
    Result<User, AuthReply>)
    ensures
        account_step(data, text_of(hashed), id, now, step),
{
    match hashed {
        Some(hash) => Ok(User::with(id, now, data.name.clone(), data.email.clone(), hash, None)),
        None => Err(Reply::refuse(500, "Error processing password")),
    }
}

/// Whether `step` is what a registration with `data` does once the store
/// has said whether the email is taken (`taken`), when hashing the password
/// gave `hashed`, the fresh id is `id` and the clock reads `now`: the
/// account to store, or the answer that ends the request.
pub open spec fn register_step(
    data: &RegisterRequest,
    taken: Result<bool, StoreFailure>,
    hashed: Option<Seq<char>>,
    id: u128,
    now: Timestamp,
    step: Result<User, AuthReply>,
) -> bool {
    match taken {
        Err(_) => step matches Err(reply) && reply.refuses(500, "Error checking email"@),
        Ok(true) => step matches Err(reply) && reply.refuses(409, "Email already exists"@),
        Ok(false) => account_step(data, hashed, id, now, step),
    }
}

/// The first decision of a registration, with the password hash, the id
/// and the time given: a taken email ends it with 409; otherwise the new
/// account, with the role `User`, is to be stored.
pub fn register_with(
    data: &RegisterRequest,
    taken: Result<bool, StoreFailure>,
    hashed: Option<String>,
    id: u128,
    now: Timestamp,
) -> (step: Result<User, AuthReply>)
    ensures
        register_step(data, taken, text_of(hashed), id, now, step),
{
    match email_checked(taken) {
        Ok(_) => account(data, hashed, id, now),
        Err(reply) => Err(reply),
    }
}

/// The first decision of a registration. A taken email and a failing
/// store end it as `register_with` says, and nothing is hashed or drawn. On
/// a free email the password is hashed, the id drawn and the clock read:
/// whatever they give, the step is the one that `register_with` takes of
/// them, the id is that of a random UUID, and the password that is stored
/// is a bcrypt hash that verifies for the password given.
pub fn register(data: &RegisterRequest, taken: Result<bool, StoreFailure>) -> (step: Result<
    User,
    AuthReply,
>)
    ensures
        !(taken matches Ok(false)) ==> register_step(
            data,
            taken,
            None,
            0,
            Timestamp { seconds: 0, nanos: 0 },
            step,
        ),
        taken matches Ok(false) ==> exists|hashed: Option<Seq<char>>, id: u128, now: Timestamp|
            {
                &&& #[trigger] register_step(data, taken, hashed, id, now, step)
                &&& is_random_uuid(id)
                &&& now.is_reading()
            },
        step matches Ok(user) ==> bcrypt_verified(data.password@, user.password@) == Some(true),
{
    match email_checked(taken) {
        Ok(_) => {
            let hashed = password::hash(data.password.as_str());
            let now = clock::now();
            let id = ident::fresh();
            let step = account(data, hashed, id, now);
            assert(register_step(data, taken, text_of(hashed), id, now, step));
            step
        },
        Err(reply) => Err(reply),
    }
}

/// Whether `reply` answers a registration once the store has said whether
/// the account `user` was stored (`stored`), when the clock reads `now`. A
/// token that is granted is sound.
pub open spec fn registered_answer(
    user: &User,
    stored: Result<(), StoreFailure>,
    secret: Seq<char>,
    now: i64,
    reply: AuthReply,
) -> bool {
    match stored {
        Err(_) => reply.refuses(500, "Error creating user"@),
        Ok(_) => match token_at(user, secret, now) {
            Err(_) => reply.refuses(500, "Error generating token"@),
            Ok(token) => grants(reply, 201, token, user) && issued_soundly(
                token,
                claims_of(user, expiry_at(now)->0),
                secret,
            ),
        },
    }
}

/// Answers a registration, once the account is stored, when the clock
/// reads `now`.
pub fn registered_at(user: &User, stored: Result<(), StoreFailure>, secret_key: &str, now: i64) -> (reply:
    AuthReply)
    ensures
        registered_answer(user, stored, secret_key@, now, reply),
{
    match stored {
        Ok(_) => granted(201, user, generate_token_at(user, secret_key, now)),
        Err(_) => Reply::refuse(500, "Error creating user"),
    }
}

/// Answers a registration, once the account is stored, now. The clock
/// reads a time that is not before the epoch; whatever it reads, the answer
/// is the one that `registered_at` gives for that reading.
pub fn registered(user: &User, stored: Result<(), StoreFailure>, secret_key: &str) -> (reply:
    AuthReply)
    ensures
        exists|now: i64|
            0 <= now && #[trigger] registered_answer(user, stored, secret_key@, now, reply),
{
    let now = clock::now().seconds;
    let reply = registered_at(user, stored, secret_key, now);
    assert(registered_answer(user, stored, secret_key@, now, reply));
    reply
}

/// Who has registered can log in: an account that a registration made
/// verifies for the password it was made with, so a login with that
/// password is granted wherever a token can be issued.
pub proof fn lemma_registered_can_log_in(
    user: User,
    password: LoginRequest,
    secret: Seq<char>,
    now: i64,
    reply: AuthReply,
)
    requires
        bcrypt_verified(password.password@, user.password@) == Some(true),
        login_answer(&password, Ok(Some(user)), secret, now, reply),
        token_at(&user, secret, now) is Ok,
    ensures
        grants(reply, 200, token_at(&user, secret, now)->Ok_0, &user),
{
}

} // verus!
