use vstd::prelude::*;
use argon2::{PasswordHasher, PasswordVerifier};
use crate::auth::{ErrorResponse, TokenClaims, TOKEN_LIFETIME_SECS};
use crate::models::{Message, MessageResource, User};

verus! {

/// Whether argon2 accepts `password` against the stored PHC `hash` string.
pub uninterp spec fn password_check(password: Seq<char>, hash: Seq<char>) -> bool;

/// Relies on `argon2::PasswordHash::new` and `PasswordVerifier::verify_password`
/// of `Argon2::default()`: whether the password matches a stored hash (an
/// unparsable hash matches nothing). The answer depends on the two texts alone.
#[verifier::external_body]
fn verify_password(password: &str, hash: &str) -> (r: bool)
    ensures
        r == password_check(password@, hash@),
{
    match argon2::PasswordHash::new(hash) {
        Ok(parsed) => argon2::Argon2::default().verify_password(password.as_bytes(), &parsed).is_ok(),
        Err(_) => false,
    }
}

/// Relies on `argon2::PasswordHasher::hash_password` of `Argon2::default()`
/// with a salt from `SaltString::generate(&mut OsRng)`: a PHC string, or
/// `None` if hashing failed. The salt is random, so nothing is promised of
/// the text.
#[verifier::external_body]
fn hash_password(password: &str) -> (r: Option<String>)
{
    let salt = argon2::password_hash::SaltString::generate(
        &mut argon2::password_hash::rand_core::OsRng,
    );
    argon2::Argon2::default().hash_password(password.as_bytes(), &salt).ok().map(|h| h.to_string())
}

/// Why a login was refused.
#[derive(Debug, Clone, Copy, PartialEq, Eq, Structural)]
pub enum LoginError {
    UnknownUsername,
    WrongPassword,
}

impl LoginError {
    /// The HTTP status and body with which a refused login is answered.
    pub fn to_error_response(&self) -> (r: (u16, ErrorResponse))
        ensures
            r.0 == 400,
            r.1.status@ == "fail"@,
            *self == LoginError::UnknownUsername ==> r.1.message@ == "Invalid username or password1"@,
            *self == LoginError::WrongPassword ==> r.1.message@ == "Invalid username or password2"@,
    {
        let message = match self {
            LoginError::UnknownUsername => "Invalid username or password1".to_string(),
            LoginError::WrongPassword => "Invalid username or password2".to_string(),
        };
        (400, ErrorResponse { status: "fail", message })
    }
}

/// Decides a login from the account found under the username (if any) and
/// whether the password matched its hash: the claims of a token for that
/// user, issued at `now` and valid for an hour.
pub fn decide_login(found: &Option<User>, password_ok: bool, now: usize) -> (r: Result<
    TokenClaims,
    LoginError,
>)
    requires
        now + TOKEN_LIFETIME_SECS <= usize::MAX,
    ensures
        found.is_none() ==> r == Err::<TokenClaims, LoginError>(LoginError::UnknownUsername),
        found.is_some() && !password_ok ==> r == Err::<TokenClaims, LoginError>(
            LoginError::WrongPassword,
        ),
        found.is_some() && password_ok ==> {
            &&& r.is_ok()
            &&& r.unwrap().sub == found.unwrap().id
            &&& r.unwrap().iat == now
            &&& r.unwrap().exp == now + TOKEN_LIFETIME_SECS
        },
{
    match found {
        None => Err(LoginError::UnknownUsername),
        Some(user) => {
            if password_ok {
                Ok(TokenClaims::for_user(&user.id, now))
            } else {
                Err(LoginError::WrongPassword)
            }
        },
    }
}

/// Logs in with `password` against the account found under the username.
pub fn login(found: &Option<User>, password: &str, now: usize) -> (r: Result<TokenClaims, LoginError>)
    requires
        now + TOKEN_LIFETIME_SECS <= usize::MAX,
    ensures
        found.is_none() ==> r == Err::<TokenClaims, LoginError>(LoginError::UnknownUsername),
        found.is_some() ==> {
            let ok = password_check(password@, found.unwrap().password@);
            &&& !ok ==> r == Err::<TokenClaims, LoginError>(LoginError::WrongPassword)
            &&& ok ==> r.is_ok() && r.unwrap().sub == found.unwrap().id && r.unwrap().iat == now
                && r.unwrap().exp == now + TOKEN_LIFETIME_SECS
        },
{
    let password_ok = match found {
        Some(user) => verify_password(password, user.password.as_str()),
        None => false,
    };
    decide_login(found, password_ok, now)
}

/// An account ready to be stored; its display name starts as its username.
#[derive(Debug, Clone)]
pub struct NewAccount {
    pub username: String,
    pub display_name: String,
    pub password_hash: String,
}

/// Why a registration was refused.
#[derive(Debug, Clone, Copy, PartialEq, Eq, Structural)]
pub enum RegisterError {
    /// Another account has the username.
    UsernameTaken,
    /// The password could not be hashed.
    HashingFailed,
}

impl RegisterError {
    /// The HTTP status and body with which a refused registration is answered.
    pub fn to_error_response(&self) -> (r: (u16, ErrorResponse))
        ensures
            r.1.status@ == "fail"@,
            *self == RegisterError::UsernameTaken ==> r.0 == 409 && r.1.message@
                == "User with that username already exists"@,
            *self == RegisterError::HashingFailed ==> r.0 == 500 && r.1.message@
                == "Error while hashing password"@,
    {
        match self {
            RegisterError::UsernameTaken => (
                409,
                ErrorResponse {
                    status: "fail",
                    message: "User with that username already exists".to_string(),
                },
            ),
            RegisterError::HashingFailed => (
                500,
                ErrorResponse { status: "fail", message: "Error while hashing password".to_string() },
            ),
        }
    }
}

/// Decides a registration from whether the username is taken and what
/// hashing the password gave.
pub fn decide_registration(username: &String, taken: bool, hashed: Option<String>) -> (r: Result<
    NewAccount,
    RegisterError,
>)
    ensures
        taken ==> r == Err::<NewAccount, RegisterError>(RegisterError::UsernameTaken),
        !taken && hashed.is_none() ==> r == Err::<NewAccount, RegisterError>(
            RegisterError::HashingFailed,
        ),
        !taken && hashed.is_some() ==> r == Ok::<NewAccount, RegisterError>(
            NewAccount {
                username: *username,
                display_name: *username,
                password_hash: hashed.unwrap(),
            },
        ),
{
    if taken {
        return Err(RegisterError::UsernameTaken);
    }
    match hashed {
        None => Err(RegisterError::HashingFailed),
        Some(h) => Ok(
            NewAccount { username: username.clone(), display_name: username.clone(), password_hash: h },
        ),
    }
}

/// Registers `username` with `password`, unless the username is taken; the
/// password is stored only as a salted hash.
pub fn register_account(username: &String, password: &str, taken: bool) -> (r: Result<
    NewAccount,
    RegisterError,
>)
    ensures
        taken ==> r == Err::<NewAccount, RegisterError>(RegisterError::UsernameTaken),
        !taken ==> (r.is_err() ==> r == Err::<NewAccount, RegisterError>(
            RegisterError::HashingFailed,
        )),
        r.is_ok() ==> r.unwrap().username == *username && r.unwrap().display_name == *username,
{
    let hashed = if taken {
        None
    } else {
        hash_password(password)
    };
    decide_registration(username, taken, hashed)
}

/// Some message of `messages` is by `id`.
pub open spec fn has_author(messages: Seq<Message>, id: Seq<char>) -> bool {
    exists|j: int| 0 <= j < messages.len() && messages[j].user_id@ == id
}

/// `ids` holds `id`.
pub open spec fn lists_id(ids: Seq<String>, id: Seq<char>) -> bool {
    exists|i: int| 0 <= i < ids.len() && ids[i]@ == id
}

/// Some user of `users` has the id `id`.
pub open spec fn user_known(users: Seq<User>, id: Seq<char>) -> bool {
    exists|k: int| 0 <= k < users.len() && users[k].id@ == id
}

/// The ids of the authors of `messages`, each once.
pub fn message_author_ids(messages: &Vec<Message>) -> (r: Vec<String>)
    ensures
        forall|i: int| 0 <= i < r@.len() ==> has_author(messages@, #[trigger] r@[i]@),
        forall|j: int| 0 <= j < messages@.len() ==> lists_id(r@, #[trigger] messages@[j].user_id@),
        forall|i: int, k: int| 0 <= i < k < r@.len() ==> r@[i]@ != r@[k]@,
{
    let mut out: Vec<String> = Vec::new();
    let mut j: usize = 0;
    while j < messages.len()
        invariant
            0 <= j <= messages@.len(),
            forall|i: int| 0 <= i < out@.len() ==> has_author(messages@, #[trigger] out@[i]@),
            forall|t: int| 0 <= t < j ==> lists_id(out@, #[trigger] messages@[t].user_id@),
            forall|i: int, k: int| 0 <= i < k < out@.len() ==> out@[i]@ != out@[k]@,
        decreases messages@.len() - j,
    {
        let id = &messages[j].user_id;
        let mut seen = false;
        let mut i: usize = 0;
        while i < out.len()
            invariant
                0 <= i <= out@.len(),
                seen ==> lists_id(out@, id@),
                !seen ==> forall|k: int| 0 <= k < i ==> out@[k]@ != id@,
            decreases out@.len() - i,
        {
            if out[i] == *id {
                seen = true;
            }
            i += 1;
        }
        let ghost before = out@;
        if !seen {
            out.push(id.clone());
            proof {
                assert(out@[before.len() as int]@ == id@);
                assert(has_author(messages@, id@));
                assert forall|i: int| 0 <= i < out@.len() implies has_author(messages@, #[trigger] out@[i]@) by {
                    if i < before.len() {
                        assert(out@[i] == before[i]);
                    }
                }
                assert forall|t: int| 0 <= t < j + 1 implies lists_id(out@, #[trigger] messages@[t].user_id@) by {
                    if t < j {
                        assert(lists_id(before, messages@[t].user_id@));
                        let i = choose|i: int| 0 <= i < before.len() && before[i]@ == messages@[t].user_id@;
                        assert(out@[i] == before[i]);
                    } else {
                        assert(out@[before.len() as int]@ == messages@[t].user_id@);
                    }
                }
            }
        }
        j += 1;
    }
    out
}

/// Finds a user with id `id`.
fn find_author(users: &Vec<User>, id: &String) -> (r: Option<usize>)
    ensures
        match r {
            Some(k) => k < users@.len() && users@[k as int].id@ == id@,
            None => !user_known(users@, id@),
        },
{
    let mut k: usize = 0;
    while k < users.len()
        invariant
            0 <= k <= users@.len(),
            forall|t: int| 0 <= t < k ==> users@[t].id@ != id@,
        decreases users@.len() - k,
    {
        if users[k].id == *id {
            return Some(k);
        }
        k += 1;
    }
    None
}

/// `res` is `m` enriched with the public profile of one of `users` whose id
/// is the author's.
pub open spec fn enriched(res: MessageResource, m: Message, users: Seq<User>) -> bool {
    &&& res.id == m.id
    &&& res.userId == m.user_id
    &&& res.channelId == m.channel_id
    &&& res.content == m.content
    &&& res.createdAt == m.created_at
    &&& res.updatedAt == m.updated_at
    &&& res.deletedAt == m.deleted_at
    &&& res.deletedByUserId == m.deleted_by_user_id
    &&& res.attachments@.len() == 0
    &&& exists|k: int| 0 <= k < users.len() && users[k].id@ == m.user_id@ && res.user == users[k].resource_spec()
}

/// Each message enriched with its author's public profile, taken from
/// `users`, in the order given; `None` when some author is not among `users`.
pub fn message_resources(messages: &Vec<Message>, users: &Vec<User>) -> (r: Option<Vec<MessageResource>>)
    ensures
        r.is_none() <==> exists|j: int| 0 <= j < messages@.len() && !user_known(users@, #[trigger] messages@[j].user_id@),
        r.is_some() ==> r.unwrap()@.len() == messages@.len() && forall|j: int| 0 <= j < messages@.len() ==> enriched(
            #[trigger] r.unwrap()@[j],
            messages@[j],
            users@,
        ),
{
    let mut out: Vec<MessageResource> = Vec::new();
    let mut j: usize = 0;
    while j < messages.len()
        invariant
            0 <= j <= messages@.len(),
            out@.len() == j,
            forall|t: int| 0 <= t < j ==> enriched(#[trigger] out@[t], messages@[t], users@),
            forall|t: int| 0 <= t < j ==> user_known(users@, #[trigger] messages@[t].user_id@),
        decreases messages@.len() - j,
    {
        let m = &messages[j];
        match find_author(users, &m.user_id) {
            None => {
                return None;
            },
            Some(k) => {
                let res = m.to_resource(users[k].to_resource());
                out.push(res);
                assert(enriched(out@[j as int], messages@[j as int], users@));
            },
        }
        j += 1;
    }
    Some(out)
}

} // verus!
