use vstd::prelude::*;

use crate::error::AuthError;
use crate::keys::{KeySet, SigningKey};

verus! {

/// How long a fetched key set is served before it is fetched again, in milliseconds.
pub const FRESHNESS_MS: u64 = 300_000;

/// What a request should do to obtain the current key set.
#[derive(Debug)]
pub enum KeyLookup {
    /// The cached key set is fresh: use this copy of it.
    Cached(KeySet),
    /// There is no fresh key set: fetch one and hand it to [`KeyCache::refreshed`].
    Refresh,
}

/// The most recently fetched key set and the instant of its fetch.
///
/// Instants are milliseconds on a monotonic clock chosen by the owner. The
/// owner serialises access (one lock around lookup, fetch and refresh), so a
/// stale set is fetched once and then served to every waiting request.
///
/// A failed refresh reports [`AuthError::Unavailable`] and leaves the cache as
/// it was: a stale set is kept but never served.
#[derive(Debug)]
pub struct KeyCache {
    current: Option<KeySet>,
    fetched_at: u64,
}

/// A set fetched at `fetched_at` may still be served at `now`.
pub open spec fn within_window(fetched_at: u64, now: u64) -> bool {
    now < fetched_at + FRESHNESS_MS
}

impl KeyCache {
    /// The keys of the cached set, if a set was ever fetched.
    pub closed spec fn cached(&self) -> Option<Seq<SigningKey>> {
        match self.current {
            Some(set) => Some(set.keys@),
            None => None,
        }
    }

    /// The instant at which the cached set was fetched.
    pub closed spec fn fetched_at(&self) -> u64 {
        self.fetched_at
    }

    /// The cached set may be served at `now`.
    pub open spec fn is_fresh(&self, now: u64) -> bool {
        self.cached() is Some && within_window(self.fetched_at(), now)
    }

    /// An empty cache: the first lookup asks for a refresh.
    pub fn new() -> (r: KeyCache)
        ensures
            r.cached() is None,
    {
        KeyCache { current: None, fetched_at: 0 }
    }

    /// Serves a copy of the cached set while it is fresh, and asks for a
    /// refresh otherwise.
    pub fn lookup(&self, now: u64) -> (r: KeyLookup)
        ensures
            self.is_fresh(now) ==> (r matches KeyLookup::Cached(set) && Some(set.keys@)
                == self.cached()),
            !self.is_fresh(now) ==> r is Refresh,
    {
        match &self.current {
            Some(set) => {
                if now < self.fetched_at || now - self.fetched_at < FRESHNESS_MS {
                    KeyLookup::Cached(set.clone())
                } else {
                    KeyLookup::Refresh
                }
            },
            None => KeyLookup::Refresh,
        }
    }

    /// Completes a refresh with the outcome of the fetch made at `now`: a
    /// fetched set replaces the cached one as a whole and a copy of it is
    /// returned; a failed fetch is [`AuthError::Unavailable`].
    pub fn refreshed(&mut self, fetched: Option<KeySet>, now: u64) -> (r: Result<KeySet, AuthError>)
        ensures
            match fetched {
                Some(set) => {
                    &&& final(self).cached() == Some(set.keys@)
                    &&& final(self).fetched_at() == now
                    &&& r matches Ok(out) && out.keys@ == set.keys@
                },
                None => {
                    &&& final(self).cached() == old(self).cached()
                    &&& final(self).fetched_at() == old(self).fetched_at()
                    &&& r matches Err(AuthError::Unavailable)
                },
            },
    {
        match fetched {
            Some(set) => {
                let out = set.clone();
                self.current = Some(set);
                self.fetched_at = now;
                Ok(out)
            },
            None => Err(AuthError::Unavailable),
        }
    }
}

/// A key set installed at `t` is served without a new fetch to every request
/// before `t + 300 s`; a request at or after that instant asks for one refresh,
/// and once its result is installed the following requests are served again.
pub proof fn lemma_freshness_window(cache: KeyCache, now: u64)
    requires
        cache.cached() is Some,
    ensures
        cache.fetched_at() <= now < cache.fetched_at() + FRESHNESS_MS ==> cache.is_fresh(now),
        now >= cache.fetched_at() + FRESHNESS_MS ==> !cache.is_fresh(now),
{
}

} // verus!
