use vstd::prelude::*;

use crate::error::AuthError;

verus! {

/// The public material of a signing key.
#[derive(Debug)]
pub enum KeyMaterial {
    /// An RSA public key: modulus and exponent, base64url-encoded.
    Rsa { n: String, e: String },
    /// Any other key family; tokens signed with it are not accepted.
    Other,
}

/// One published signing key.
#[derive(Debug)]
pub struct SigningKey {
    /// The key id that tokens name in their header.
    pub kid: Option<String>,
    /// The algorithm declared for the key, by its registered name ("RS256").
    pub algorithm: Option<String>,
    pub material: KeyMaterial,
}

/// The signing keys published by the identity provider.
#[derive(Debug)]
pub struct KeySet {
    pub keys: Vec<SigningKey>,
}

/// `k` carries the key id `kid`.
pub open spec fn has_id(k: SigningKey, kid: Seq<char>) -> bool {
    match k.kid {
        Some(id) => id@ == kid,
        None => false,
    }
}

/// The first key of `keys` that carries the key id `kid`.
pub open spec fn lookup(keys: Seq<SigningKey>, kid: Seq<char>) -> Option<SigningKey>
    decreases keys.len(),
{
    if keys.len() == 0 {
        None
    } else if has_id(keys[0], kid) {
        Some(keys[0])
    } else {
        lookup(keys.drop_first(), kid)
    }
}

/// A key id that no key of the set carries finds nothing.
pub proof fn lemma_lookup_absent(keys: Seq<SigningKey>, kid: Seq<char>)
    requires
        forall|i: int| 0 <= i < keys.len() ==> !has_id(#[trigger] keys[i], kid),
    ensures
        lookup(keys, kid) is None,
    decreases keys.len(),
{
    if keys.len() > 0 {
        assert(!has_id(keys[0], kid));
        assert forall|i: int| 0 <= i < keys.drop_first().len() implies !has_id(
            #[trigger] keys.drop_first()[i],
            kid,
        ) by {
            assert(keys.drop_first()[i] == keys[i + 1]);
        }
        lemma_lookup_absent(keys.drop_first(), kid);
    }
}

/// No two keys of `keys` carry the same key id.
pub open spec fn ids_unique(keys: Seq<SigningKey>) -> bool {
    forall|i: int, j: int|
        0 <= i < j < keys.len() && keys[i].kid is Some ==> !has_id(
            #[trigger] keys[j],
            (#[trigger] keys[i]).kid->0@,
        )
}

/// A key of the set that carries `kid` makes the lookup succeed.
pub proof fn lemma_lookup_present(keys: Seq<SigningKey>, i: int, kid: Seq<char>)
    requires
        0 <= i < keys.len(),
        has_id(keys[i], kid),
    ensures
        lookup(keys, kid) is Some,
    decreases keys.len(),
{
    if i > 0 && !has_id(keys[0], kid) {
        assert(keys.drop_first()[i - 1] == keys[i]);
        lemma_lookup_present(keys.drop_first(), i - 1, kid);
    }
}

/// Appending a key changes only the lookups that found nothing before.
proof fn lemma_lookup_push(keys: Seq<SigningKey>, k: SigningKey, kid: Seq<char>)
    ensures
        lookup(keys.push(k), kid) == match lookup(keys, kid) {
            Some(found) => Some(found),
            None => if has_id(k, kid) {
                Some(k)
            } else {
                None
            },
        },
    decreases keys.len(),
{
    if keys.len() == 0 {
        assert(keys.push(k).drop_first() =~= Seq::<SigningKey>::empty());
    } else {
        assert(keys.push(k)[0] == keys[0]);
        assert(keys.push(k).drop_first() =~= keys.drop_first().push(k));
        lemma_lookup_push(keys.drop_first(), k, kid);
    }
}

impl Clone for KeyMaterial {
    fn clone(&self) -> (r: Self)
        ensures
            r == *self,
    {
        match self {
            KeyMaterial::Rsa { n, e } => KeyMaterial::Rsa { n: n.clone(), e: e.clone() },
            KeyMaterial::Other => KeyMaterial::Other,
        }
    }
}

fn clone_text(t: &Option<String>) -> (r: Option<String>)
    ensures
        r == *t,
{
    match t {
        Some(s) => Some(s.clone()),
        None => None,
    }
}

impl Clone for SigningKey {
    fn clone(&self) -> (r: Self)
        ensures
            r == *self,
    {
        SigningKey {
            kid: clone_text(&self.kid),
            algorithm: clone_text(&self.algorithm),
            material: self.material.clone(),
        }
    }
}

impl Clone for KeySet {
    fn clone(&self) -> (r: Self)
        ensures
            r.keys@ == self.keys@,
    {
        let mut keys: Vec<SigningKey> = Vec::new();
        let mut i: usize = 0;
        while i < self.keys.len()
            invariant
                i <= self.keys@.len(),
                keys@ == self.keys@.subrange(0, i as int),
            decreases self.keys@.len() - i,
        {
            keys.push(self.keys[i].clone());
            i = i + 1;
            assert(keys@ =~= self.keys@.subrange(0, i as int));
        }
        assert(keys@ =~= self.keys@);
        KeySet { keys }
    }
}

impl KeySet {
    /// The key set of the published keys: a key whose id repeats that of an
    /// earlier key is dropped, so every lookup finds what it found before.
    pub fn from_keys(keys: Vec<SigningKey>) -> (r: KeySet)
        ensures
            ids_unique(r.keys@),
            forall|kid: Seq<char>| lookup(r.keys@, kid) == lookup(keys@, kid),
    {
        let mut set = KeySet { keys: Vec::new() };
        let mut i: usize = 0;
        while i < keys.len()
            invariant
                i <= keys@.len(),
                ids_unique(set.keys@),
                forall|kid: Seq<char>|
                    lookup(set.keys@, kid) == lookup(keys@.subrange(0, i as int), kid),
            decreases keys@.len() - i,
        {
            let key = &keys[i];
            let ghost prefix = keys@.subrange(0, i as int);
            assert(keys@.subrange(0, i + 1) =~= prefix.push(keys@[i as int]));
            let repeated = match &key.kid {
                Some(id) => set.find(id.as_str()).is_some(),
                None => false,
            };
            if repeated {
                proof {
                    assert forall|kid: Seq<char>|
                        lookup(set.keys@, kid) == lookup(
                            keys@.subrange(0, i + 1),
                            kid,
                        ) by {
                        lemma_lookup_push(prefix, keys@[i as int], kid);
                    }
                }
            } else {
                let ghost before = set.keys@;
                set.keys.push(key.clone());
                proof {
                    assert forall|kid: Seq<char>|
                        lookup(set.keys@, kid) == lookup(
                            keys@.subrange(0, i + 1),
                            kid,
                        ) by {
                        lemma_lookup_push(prefix, keys@[i as int], kid);
                        lemma_lookup_push(before, keys@[i as int], kid);
                    }
                    assert forall|a: int, b: int|
                        0 <= a < b < set.keys@.len() && set.keys@[a].kid is Some implies !has_id(
                            #[trigger] set.keys@[b],
                            (#[trigger] set.keys@[a]).kid->0@,
                        ) by {
                        if b == before.len() {
                            let id = set.keys@[a].kid->0@;
                            assert(set.keys@[a] == before[a]);
                            if has_id(set.keys@[b], id) {
                                lemma_lookup_present(before, a, id);
                            }
                        } else {
                            assert(set.keys@[a] == before[a]);
                            assert(set.keys@[b] == before[b]);
                        }
                    }
                }
            }
            i = i + 1;
        }
        assert(keys@.subrange(0, keys@.len() as int) =~= keys@);
        set
    }

    /// The first key that carries the key id `kid`, if any.
    pub fn find(&self, kid: &str) -> (r: Option<&SigningKey>)
        ensures
            r == match lookup(self.keys@, kid@) {
                Some(k) => Some(&k),
                None => None::<&SigningKey>,
            },
    {
        let target = String::from_str(kid);
        let mut i: usize = 0;
        assert(self.keys@.skip(0) =~= self.keys@);
        while i < self.keys.len()
            invariant
                i <= self.keys@.len(),
                target@ == kid@,
                lookup(self.keys@, kid@) == lookup(self.keys@.skip(i as int), kid@),
            decreases self.keys@.len() - i,
        {
            let key = &self.keys[i];
            assert(self.keys@.skip(i as int)[0] == self.keys@[i as int]);
            let matches = match &key.kid {
                Some(id) => *id == target,
                None => false,
            };
            if matches {
                return Some(key);
            }
            assert(self.keys@.skip(i as int).drop_first() =~= self.keys@.skip(i + 1));
            i = i + 1;
        }
        None
    }
}

/// Path under the identity provider's base address where its key set is published.
pub open spec fn key_set_path() -> Seq<char> {
    "/.well-known/jwks.json"@
}

/// Address of the published key set, for the identity provider's configured
/// base address. An unconfigured provider cannot be reached.
pub fn key_set_url(base: Option<&str>) -> (r: Result<String, AuthError>)
    ensures
        match base {
            Some(b) => r matches Ok(url) && url@ == b@ + key_set_path(),
            None => r matches Err(AuthError::Unavailable),
        },
{
    match base {
        Some(b) => Ok(String::from_str(b).concat("/.well-known/jwks.json")),
        None => Err(AuthError::Unavailable),
    }
}

} // verus!
