use vstd::prelude::*;

verus! {

/// Why a request was turned away at the authentication boundary.
#[derive(Debug, Clone, PartialEq, Eq)]
pub enum AuthError {
    /// The request carried no bearer token.
    MissingToken,
    /// The token is malformed, names an unknown key, or fails verification.
    InvalidToken,
    /// The token is correctly signed but its expiry has passed.
    ExpiredToken,
    /// The identity provider's key set could not be obtained.
    Unavailable,
    /// The caller lacks the named scope.
    MissingScope(String),
}

/// Status code of the response that reports `e`.
pub open spec fn status_of(e: AuthError) -> u16 {
    match e {
        AuthError::MissingToken => 401,
        AuthError::InvalidToken => 401,
        AuthError::ExpiredToken => 401,
        AuthError::Unavailable => 503,
        AuthError::MissingScope(_) => 403,
    }
}

/// Caller-visible message of the response that reports `e`.
pub open spec fn message_of(e: AuthError) -> Seq<char> {
    match e {
        AuthError::MissingToken => "Missing token"@,
        AuthError::InvalidToken => "Invalid token"@,
        AuthError::ExpiredToken => "Token expired"@,
        AuthError::Unavailable => "Unable to verify JWT token"@,
        AuthError::MissingScope(scope) => "Client requires the scope: "@ + scope@,
    }
}

impl AuthError {
    /// HTTP status code with which this failure is reported.
    pub fn status_code(&self) -> (r: u16)
        ensures
            r == status_of(*self),
    {
        match self {
            AuthError::MissingToken => 401,
            AuthError::InvalidToken => 401,
            AuthError::ExpiredToken => 401,
            AuthError::Unavailable => 503,
            AuthError::MissingScope(_) => 403,
        }
    }

    /// The failure reported for a token that the decoder refused: expired, or
    /// refused for any other reason.
    pub fn from_refusal(expired: bool) -> (r: AuthError)
        ensures
            expired ==> r == AuthError::ExpiredToken,
            !expired ==> r == AuthError::InvalidToken,
    {
        if expired {
            AuthError::ExpiredToken
        } else {
            AuthError::InvalidToken
        }
    }

    /// Message shown to the caller for this failure.
    pub fn message(&self) -> (r: String)
        ensures
            r@ == message_of(*self),
    {
        match self {
            AuthError::MissingToken => String::from_str("Missing token"),
            AuthError::InvalidToken => String::from_str("Invalid token"),
            AuthError::ExpiredToken => String::from_str("Token expired"),
            AuthError::Unavailable => String::from_str("Unable to verify JWT token"),
            AuthError::MissingScope(scope) => {
                String::from_str("Client requires the scope: ").concat(scope.as_str())
            },
        }
    }
}

} // verus!
