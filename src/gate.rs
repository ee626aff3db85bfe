use vstd::prelude::*;

use crate::cache::{KeyCache, KeyLookup};
use crate::error::AuthError;
use crate::jwt::header_key_id;
use crate::keys::{key_set_path, KeySet};
use crate::token::{
    begin_verification, finish_verification, verification_outcome, Claims, PendingToken,
};

verus! {

/// What the server does next for a request.
#[derive(Debug)]
pub enum Step {
    /// The request is decided.
    Done(Result<Claims, AuthError>),
    /// Fetch the key set published at `url`, then hand the outcome to
    /// [`complete_request`]. No other step asks for network access.
    Fetch { pending: PendingToken, url: String },
}

/// First decision on a request with bearer token `bearer`, given the key
/// cache, the instant `now` and the identity provider's base address `auth_url`.
///
/// A request without a token, or whose header names no key, is decided
/// before the cache is consulted; a fresh cached key set decides it without a
/// fetch; only a request that needs keys the cache cannot serve is sent to
/// fetch them, and only when the provider is configured.
pub fn start_request(bearer: Option<String>, cache: &KeyCache, auth_url: Option<&str>, now: u64) -> (r: Step)
    ensures
        match bearer {
            None => r matches Step::Done(Err(AuthError::MissingToken)),
            Some(t) => match header_key_id(t@) {
                Some(Some(kid)) => if cache.is_fresh(now) {
                    r matches Step::Done(res) && verification_outcome(
                        t@,
                        kid,
                        cache.cached()->0,
                        res,
                    )
                } else {
                    match auth_url {
                        None => r matches Step::Done(Err(AuthError::Unavailable)),
                        Some(base) => r matches Step::Fetch { pending, url } && pending.token@
                            == t@ && pending.kid@ == kid && url@ == base@ + key_set_path(),
                    }
                },
                _ => r matches Step::Done(Err(AuthError::InvalidToken)),
            },
        },
{
    let pending = match begin_verification(bearer) {
        Ok(p) => p,
        Err(e) => return Step::Done(Err(e)),
    };
    match cache.lookup(now) {
        KeyLookup::Cached(keys) => Step::Done(finish_verification(&pending, &keys)),
        KeyLookup::Refresh => match crate::keys::key_set_url(auth_url) {
            Ok(url) => Step::Fetch { pending, url },
            Err(e) => Step::Done(Err(e)),
        },
    }
}

/// Completes a request that was sent to fetch keys, with the fetched set (or
/// `None` when the fetch failed) at `now`: the set is installed in the cache
/// and the token verified against it; a failed fetch is
/// [`AuthError::Unavailable`] and leaves the cache as it was.
pub fn complete_request(
    pending: &PendingToken,
    cache: &mut KeyCache,
    fetched: Option<KeySet>,
    now: u64,
) -> (r: Result<Claims, AuthError>)
    ensures
        match fetched {
            Some(set) => {
                &&& final(cache).cached() == Some(set.keys@)
                &&& final(cache).fetched_at() == now
                &&& verification_outcome(pending.token@, pending.kid@, set.keys@, r)
            },
            None => {
                &&& final(cache).cached() == old(cache).cached()
                &&& final(cache).fetched_at() == old(cache).fetched_at()
                &&& r matches Err(AuthError::Unavailable)
            },
        },
{
    let keys = cache.refreshed(fetched, now)?;
    finish_verification(pending, &keys)
}

} // verus!
