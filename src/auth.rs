use vstd::prelude::*;

verus! {

/// The claims a session token carries: the user id as subject, and when the
/// token was issued and expires, in seconds since the Unix epoch.
#[derive(Debug, Clone)]
pub struct TokenClaims {
    pub sub: String,
    pub iat: usize,
    pub exp: usize,
}

/// The body of a refused HTTP request.
#[derive(Debug, Clone)]
pub struct ErrorResponse {
    pub status: &'static str,
    pub message: String,
}

/// Why a presented credential did not yield a user.
#[derive(Debug, Clone, Copy, PartialEq, Eq, Structural)]
pub enum AuthError {
    /// No token was presented.
    MissingCredential,
    /// The token is malformed, expired, wrongly signed, or its subject is no user id.
    InvalidCredential,
    /// The token is sound but its user no longer exists.
    UnknownUser,
}

/// Seconds for which an issued token stays valid.
pub const TOKEN_LIFETIME_SECS: usize = 3600;

impl TokenClaims {
    /// The claims of a token issued to `user_id` at `now` (seconds since the
    /// Unix epoch), valid for an hour.
    pub fn for_user(user_id: &String, now: usize) -> (r: TokenClaims)
        requires
            now + TOKEN_LIFETIME_SECS <= usize::MAX,
        ensures
            r.sub == *user_id,
            r.iat == now,
            r.exp == now + TOKEN_LIFETIME_SECS,
    {
        TokenClaims { sub: user_id.clone(), iat: now, exp: now + TOKEN_LIFETIME_SECS }
    }
}

/// The 128-bit value that `uuid::Uuid::parse_str` reads from a text, if any.
pub uninterp spec fn uuid_parse(s: Seq<char>) -> Option<u128>;

/// The text `uuid::Uuid`'s `to_string` gives for a 128-bit value.
pub uninterp spec fn uuid_text(v: u128) -> Seq<char>;

/// Relies on `uuid::Uuid::parse_str`: the value the text spells, or `None`
/// where it spells none; the result depends on the text alone.
#[verifier::external_body]
fn parse_uuid(s: &str) -> (r: Option<u128>)
    ensures
        r == uuid_parse(s@),
{
    uuid::Uuid::parse_str(s).ok().map(|u| u.as_u128())
}

/// Relies on `uuid::Uuid`'s `Display` (via `to_string`): the canonical text of
/// a value, which depends on the value alone.
#[verifier::external_body]
fn uuid_to_string(v: u128) -> (r: String)
    ensures
        r@ == uuid_text(v),
{
    uuid::Uuid::from_u128(v).to_string()
}

/// Relies on `jsonwebtoken::decode` with `Validation::default()` (HS256, an
/// unexpired `exp` claim required) and the key `DecodingKey::from_secret`:
/// the token's claims when it passes, else `None`. Whether it passes depends
/// on the current time, so nothing is promised of the outcome.
#[verifier::external_body]
fn decode_claims(token: &str, secret: &[u8]) -> (r: Option<TokenClaims>)
{
    let key = jsonwebtoken::DecodingKey::from_secret(secret);
    let validation = jsonwebtoken::Validation::default();
    let data = jsonwebtoken::decode::<serde_json::Value>(token, &key, &validation).ok()?;
    let sub = data.claims.get("sub")?.as_str()?.to_string();
    let iat = data.claims.get("iat")?.as_u64()? as usize;
    let exp = data.claims.get("exp")?.as_u64()? as usize;
    Some(TokenClaims { sub, iat, exp })
}

/// The token that `jsonwebtoken::encode` signs, with the default header, for
/// the claims `sub`, `iat`, `exp` under the key `secret`.
pub uninterp spec fn signed_token(sub: Seq<char>, iat: usize, exp: usize, secret: Seq<u8>) -> Seq<char>;

/// Relies on `jsonwebtoken::encode` with `Header::default()` (HS256) and
/// `EncodingKey::from_secret`: the signed token, which depends on the claims
/// and the key alone; `None` where encoding reports an error.
#[verifier::external_body]
fn encode_claims(claims: &TokenClaims, secret: &[u8]) -> (r: Option<String>)
    ensures
        r.is_some() ==> r.unwrap()@ == signed_token(claims.sub@, claims.iat, claims.exp, secret@),
{
    let mut body = serde_json::Map::new();
    body.insert("sub".to_string(), serde_json::Value::from(claims.sub.clone()));
    body.insert("iat".to_string(), serde_json::Value::from(claims.iat));
    body.insert("exp".to_string(), serde_json::Value::from(claims.exp));
    let key = jsonwebtoken::EncodingKey::from_secret(secret);
    jsonwebtoken::encode(&jsonwebtoken::Header::default(), &serde_json::Value::Object(body), &key).ok()
}

impl TokenClaims {
    /// The token that carries these claims, signed with `secret`.
    pub fn issue_token(&self, secret: &[u8]) -> (r: Option<String>)
        ensures
            r.is_some() ==> r.unwrap()@ == signed_token(self.sub@, self.iat, self.exp, secret@),
    {
        encode_claims(self, secret)
    }
}

/// The user id that a token's subject names: the canonical text of the
/// UUID it spells.
pub open spec fn subject_user_id(sub: Seq<char>) -> Result<Seq<char>, AuthError> {
    match uuid_parse(sub) {
        Some(v) => Ok(uuid_text(v)),
        None => Err(AuthError::InvalidCredential),
    }
}

/// The user id named by the claims of a verified token.
pub fn user_id_from_claims(claims: &TokenClaims) -> (r: Result<String, AuthError>)
    ensures
        match subject_user_id(claims.sub@) {
            Ok(id) => r.is_ok() && r.unwrap()@ == id,
            Err(e) => r == Err::<String, AuthError>(e),
        },
{
    match parse_uuid(claims.sub.as_str()) {
        Some(v) => Ok(uuid_to_string(v)),
        None => Err(AuthError::InvalidCredential),
    }
}

/// What a credential check yields, given the token presented (if any) and
/// the claims that verifying it produced (if it passed).
pub open spec fn credential_outcome(
    token: Option<Seq<char>>,
    decoded: Option<Seq<char>>,
) -> Result<Seq<char>, AuthError> {
    match token {
        None => Err(AuthError::MissingCredential),
        Some(_) => match decoded {
            None => Err(AuthError::InvalidCredential),
            Some(sub) => subject_user_id(sub),
        },
    }
}

/// Decides a credential check from the token presented and the outcome of
/// verifying it: no token is `MissingCredential`, a token that failed
/// verification or whose subject is no UUID is `InvalidCredential`.
pub fn check_credential(token: &Option<String>, decoded: &Option<TokenClaims>) -> (r: Result<
    String,
    AuthError,
>)
    ensures
        ({
            let want = credential_outcome(
                match token {
                    Some(t) => Some(t@),
                    None => None,
                },
                match decoded {
                    Some(c) => Some(c.sub@),
                    None => None,
                },
            );
            match want {
                Ok(id) => r.is_ok() && r.unwrap()@ == id,
                Err(e) => r == Err::<String, AuthError>(e),
            }
        }),
{
    match token {
        None => Err(AuthError::MissingCredential),
        Some(_) => match decoded {
            None => Err(AuthError::InvalidCredential),
            Some(claims) => user_id_from_claims(claims),
        },
    }
}

/// Verifies a presented token against `secret` and yields the user id it
/// names. No token gives `MissingCredential`; any other failure gives
/// `InvalidCredential`; a success is the canonical text of a UUID.
pub fn verify_credential(token: &Option<String>, secret: &[u8]) -> (r: Result<String, AuthError>)
    ensures
        token.is_none() <==> r == Err::<String, AuthError>(AuthError::MissingCredential),
        token.is_some() ==> (r.is_err() ==> r == Err::<String, AuthError>(
            AuthError::InvalidCredential,
        )),
        r.is_ok() ==> exists|sub: Seq<char>| subject_user_id(sub) == Ok::<Seq<char>, AuthError>(r.unwrap()@),
{
    let decoded = match token {
        Some(t) => decode_claims(t.as_str(), secret),
        None => None,
    };
    let r = check_credential(token, &decoded);
    proof {
        if r.is_ok() {
            let sub = decoded.unwrap().sub@;
            assert(subject_user_id(sub) == Ok::<Seq<char>, AuthError>(r.unwrap()@));
        }
    }
    r
}

/// The token carried by an `Authorization` header value of the form
/// `Bearer <token>`.
pub open spec fn bearer_spec(value: Seq<char>) -> Option<Seq<char>> {
    if value.len() >= 7 && value.subrange(0, 7) == "Bearer "@ {
        Some(value.subrange(7, value.len() as int))
    } else {
        None
    }
}

/// Extracts the token from an `Authorization` header value.
pub fn bearer_token(value: &str) -> (r: Option<String>)
    ensures
        match bearer_spec(value@) {
            Some(t) => r.is_some() && r.unwrap()@ == t,
            None => r.is_none(),
        },
{
    let n = value.unicode_len();
    if n < 7 {
        return None;
    }
    let prefix = value.substring_char(0, 7).to_string();
    let expected = "Bearer ".to_string();
    if prefix == expected {
        Some(value.substring_char(7, n).to_string())
    } else {
        None
    }
}

/// Authenticates an HTTP request by its `Authorization` header value, if it
/// has one that is text: a header that is absent or not of the form
/// `Bearer <token>` counts as no token.
pub fn authenticate_request(header: &Option<String>, secret: &[u8]) -> (r: Result<String, AuthError>)
    ensures
        (match header {
            Some(h) => bearer_spec(h@).is_none(),
            None => true,
        }) <==> r == Err::<String, AuthError>(AuthError::MissingCredential),
        r.is_err() ==> r == Err::<String, AuthError>(AuthError::MissingCredential) || r
            == Err::<String, AuthError>(AuthError::InvalidCredential),
        r.is_ok() ==> exists|sub: Seq<char>| subject_user_id(sub) == Ok::<Seq<char>, AuthError>(r.unwrap()@),
{
    let token = match header {
        Some(h) => bearer_token(h.as_str()),
        None => None,
    };
    verify_credential(&token, secret)
}

/// The account a verified token names, as looking it up found it: gone is
/// `UnknownUser`.
pub fn require_user<T>(found: Option<T>) -> (r: Result<T, AuthError>)
    ensures
        match found {
            Some(u) => r == Ok::<T, AuthError>(u),
            None => r == Err::<T, AuthError>(AuthError::UnknownUser),
        },
{
    match found {
        Some(u) => Ok(u),
        None => Err(AuthError::UnknownUser),
    }
}

/// The text an HTTP client receives for each way authentication fails.
pub open spec fn auth_error_message(e: AuthError) -> Seq<char> {
    match e {
        AuthError::MissingCredential => "You are not logged in, please provide token."@,
        AuthError::InvalidCredential => "Invalid token"@,
        AuthError::UnknownUser => "The user belonging to this token no longer exists"@,
    }
}

impl AuthError {
    /// The HTTP status and body with which a request that failed
    /// authentication is refused: 401, status "fail", and a message that
    /// tells the three kinds apart.
    pub fn to_error_response(&self) -> (r: (u16, ErrorResponse))
        ensures
            r.0 == 401,
            r.1.status@ == "fail"@,
            r.1.message@ == auth_error_message(*self),
    {
        let message = match self {
            AuthError::MissingCredential => "You are not logged in, please provide token.".to_string(),
            AuthError::InvalidCredential => "Invalid token".to_string(),
            AuthError::UnknownUser => "The user belonging to this token no longer exists".to_string(),
        };
        (401, ErrorResponse { status: "fail", message })
    }
}

} // verus!
