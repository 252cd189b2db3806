use vstd::prelude::*;

verus! {

/// The user on whose behalf a request is made, once its token has been accepted.
#[derive(Clone, Debug)]
pub struct AuthenticatedUser {
    pub id: String,
}

/// Why a request was not authenticated.
#[derive(Clone, Copy, Debug, PartialEq, Eq, Structural)]
pub enum AuthFailure {
    TokenAbsent,
    InvalidToken,
    UserNotFound,
    /// The token carries an older version than the user's current one: the user
    /// has logged in again since it was issued.
    TokenInvalidated,
}

impl AuthFailure {
    pub open spec fn spec_message(self) -> Seq<char> {
        match self {
            AuthFailure::TokenAbsent => "Token absent"@,
            AuthFailure::InvalidToken => "Invalid token"@,
            AuthFailure::UserNotFound => "User not found"@,
            AuthFailure::TokenInvalidated => "Token expired or invalidated"@,
        }
    }

    /// The message returned to the caller.
    pub fn message(&self) -> (r: String)
        ensures
            r@ == self.spec_message(),
    {
        match self {
            AuthFailure::TokenAbsent => String::from_str("Token absent"),
            AuthFailure::InvalidToken => String::from_str("Invalid token"),
            AuthFailure::UserNotFound => String::from_str("User not found"),
            AuthFailure::TokenInvalidated => String::from_str("Token expired or invalidated"),
        }
    }
}

/// How long a session token stays valid, in seconds.
pub const TOKEN_LIFETIME_SECS: u64 = 14400;

/// Expiry of a token issued at `issued_at` (seconds since the Unix epoch):
/// four hours later. `None` when that time does not fit in a `u64`.
pub fn token_expiry(issued_at: u64) -> (r: Option<u64>)
    ensures
        r is Some <==> issued_at + TOKEN_LIFETIME_SECS <= u64::MAX,
        r matches Some(e) ==> e == issued_at + TOKEN_LIFETIME_SECS,
{
    issued_at.checked_add(TOKEN_LIFETIME_SECS)
}

/// Accepts the subject of a decoded token when its user exists and the token's
/// version is the user's current one.
pub fn authorize(subject: String, token_version: i32, user_token_version: Option<i32>) -> (r: Result<
    AuthenticatedUser,
    AuthFailure,
>)
    ensures
        user_token_version is None ==> r == Err::<AuthenticatedUser, AuthFailure>(
            AuthFailure::UserNotFound,
        ),
        user_token_version matches Some(v) ==> (v != token_version ==> r == Err::<
            AuthenticatedUser,
            AuthFailure,
        >(AuthFailure::TokenInvalidated)),
        r matches Ok(u) ==> u.id == subject && user_token_version == Some(token_version),
        r is Ok <==> user_token_version == Some(token_version),
{
    match user_token_version {
        None => Err(AuthFailure::UserNotFound),
        Some(v) => if v != token_version {
            Err(AuthFailure::TokenInvalidated)
        } else {
            Ok(AuthenticatedUser { id: subject })
        },
    }
}

impl AuthenticatedUser {
    /// The text of the identity endpoint: `User ID :` followed by the id.
    pub fn describe(&self) -> (r: String)
        ensures
            r@ == "User ID :"@ + self.id@,
    {
        let mut s = String::from_str("User ID :");
        s.append(self.id.as_str());
        s
    }
}

} // verus!
