use vstd::prelude::*;

use crate::error::AuthError;
use crate::token::Claims;

verus! {

/// A caller identity that may only be built from claims granting one scope.
pub trait RequiredScope: Sized {
    /// The scope this identity requires.
    spec fn scope_spec() -> Seq<char>;

    /// The subject the identity stands for.
    spec fn holder(&self) -> Seq<char>;

    fn required_scope() -> (r: &'static str)
        ensures
            r@ == Self::scope_spec(),
    ;

    fn from_claims(claims: Claims) -> (r: Self)
        ensures
            r.holder() == claims.sub@,
    ;
}

/// The subject of `claims` when they grant `scope`; the missing scope
/// otherwise.
pub fn require(claims: &Claims, scope: &str) -> (r: Result<String, AuthError>)
    ensures
        claims.scope@.contains(scope@) ==> (r matches Ok(user) && user@ == claims.sub@),
        !claims.scope@.contains(scope@) ==> (r matches Err(AuthError::MissingScope(missing))
            && missing@ == scope@),
{
    if claims.scope.contains(scope) {
        Ok(claims.sub.clone())
    } else {
        Err(AuthError::MissingScope(String::from_str(scope)))
    }
}

/// An identity whose required scope has been checked against verified claims.
#[derive(Debug)]
pub struct Scoped<T>(pub T);

impl<T: RequiredScope> Scoped<T> {
    /// Grants `T` when the claims hold its scope, and reports the missing
    /// scope otherwise.
    pub fn authorize(claims: Claims) -> (r: Result<Scoped<T>, AuthError>)
        ensures
            claims.scope@.contains(T::scope_spec()) ==> (r matches Ok(s) && s.0.holder()
                == claims.sub@),
            !claims.scope@.contains(T::scope_spec()) ==> (r matches Err(
                AuthError::MissingScope(scope),
            ) && scope@ == T::scope_spec()),
    {
        let required = T::required_scope();
        if claims.scope.contains(required) {
            Ok(Scoped(T::from_claims(claims)))
        } else {
            Err(AuthError::MissingScope(String::from_str(required)))
        }
    }
}

impl<T> core::ops::Deref for Scoped<T> {
    type Target = T;

    fn deref(&self) -> (r: &T)
        ensures
            *r == self.0,
    {
        &self.0
    }
}

/// A caller allowed to read: holds the scope `read`.
#[derive(Debug)]
pub struct ReadUser {
    pub username: String,
}

impl RequiredScope for ReadUser {
    open spec fn scope_spec() -> Seq<char> {
        "read"@
    }

    open spec fn holder(&self) -> Seq<char> {
        self.username@
    }

    fn required_scope() -> (r: &'static str) {
        "read"
    }

    fn from_claims(claims: Claims) -> (r: Self) {
        ReadUser { username: claims.sub }
    }
}

/// A caller allowed to write: holds the scope `write`.
#[derive(Debug)]
pub struct WriteUser {
    pub username: String,
}

impl RequiredScope for WriteUser {
    open spec fn scope_spec() -> Seq<char> {
        "write"@
    }

    open spec fn holder(&self) -> Seq<char> {
        self.username@
    }

    fn required_scope() -> (r: &'static str) {
        "write"
    }

    fn from_claims(claims: Claims) -> (r: Self) {
        WriteUser { username: claims.sub }
    }
}

} // verus!
