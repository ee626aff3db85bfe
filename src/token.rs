use jsonwebtoken::Algorithm;
use vstd::prelude::*;

use crate::error::AuthError;
use crate::jwt::{
    algorithm_from_name, algorithm_named, decode_key_id, decode_members, header_key_id,
    is_expired_signature, member_texts, payload_texts, rsa_components_decode, text_member,
};
use crate::keys::{lookup, KeyMaterial, KeySet, SigningKey};
use crate::scope::{scope_words, ScopeSet};

verus! {

/// The verified payload of a token: who the caller is and what it may do.
#[derive(Debug, Clone)]
pub struct Claims {
    /// The subject the token was issued to.
    pub sub: String,
    /// The scopes granted to the subject.
    pub scope: ScopeSet,
}

/// A token whose header has been read, waiting for the key set.
#[derive(Debug)]
pub struct PendingToken {
    pub token: String,
    /// The key id named in the token's header.
    pub kid: String,
}

/// `c` holds what the string members `texts` of a payload say: the subject
/// from `sub` and the scopes from the space-delimited `scope`.
pub open spec fn claims_of(texts: Map<Seq<char>, Seq<char>>, c: Claims) -> bool {
    &&& texts.contains_key("sub"@)
    &&& texts.contains_key("scope"@)
    &&& c.sub@ == texts["sub"@]
    &&& c.scope.wf()
    &&& c.scope@ == scope_words(texts["scope"@])
}

/// The algorithms this service trusts: the RSA signature algorithms. Any
/// other algorithm is refused, whatever a key declares.
pub open spec fn is_trusted(alg: Algorithm) -> bool {
    match alg {
        Algorithm::RS256 | Algorithm::RS384 | Algorithm::RS512 | Algorithm::PS256
        | Algorithm::PS384 | Algorithm::PS512 => true,
        _ => false,
    }
}

/// The trusted algorithm that the key `k` declares, if any.
pub open spec fn key_algorithm(k: SigningKey) -> Option<Algorithm> {
    match k.algorithm {
        Some(name) => match algorithm_named(name@) {
            Some(alg) => if is_trusted(alg) {
                Some(alg)
            } else {
                None
            },
            None => None,
        },
        None => None,
    }
}

/// Tokens signed with `k` can be checked: it declares a trusted algorithm and
/// holds RSA material.
pub open spec fn key_usable(k: SigningKey) -> bool {
    key_algorithm(k) is Some && k.material is Rsa
}

/// The RSA material of `k`, if it has any, decodes into a public key.
pub open spec fn rsa_material_decodes(k: SigningKey) -> bool {
    match k.material {
        KeyMaterial::Rsa { n, e } => rsa_components_decode(n@, e@),
        KeyMaterial::Other => true,
    }
}

/// What verifying `token`, which names the key `kid`, against `keys` may
/// give: a key id that no key carries, a key that is unusable or whose RSA
/// material does not decode are invalid; success yields the claims of the
/// payload; any other failure is the decoder's refusal, expired or invalid.
pub open spec fn verification_outcome(
    token: Seq<char>,
    kid: Seq<char>,
    keys: Seq<SigningKey>,
    r: Result<Claims, AuthError>,
) -> bool {
    match lookup(keys, kid) {
        None => r matches Err(AuthError::InvalidToken),
        Some(k) => {
            &&& (!key_usable(k) ==> (r matches Err(AuthError::InvalidToken)))
            &&& (!rsa_material_decodes(k) ==> (r matches Err(AuthError::InvalidToken)))
            &&& (r matches Ok(c) ==> claims_of(payload_texts(token), c))
            &&& (r matches Err(e) ==> (e == AuthError::InvalidToken || e
                == AuthError::ExpiredToken))
        },
    }
}

fn trusted(alg: &Algorithm) -> (r: bool)
    ensures
        r == is_trusted(*alg),
{
    match alg {
        Algorithm::RS256 | Algorithm::RS384 | Algorithm::RS512 | Algorithm::PS256
        | Algorithm::PS384 | Algorithm::PS512 => true,
        _ => false,
    }
}

fn resolve_algorithm(key: &SigningKey) -> (r: Option<Algorithm>)
    ensures
        r == key_algorithm(*key),
{
    match &key.algorithm {
        Some(name) => match algorithm_from_name(name.as_str()) {
            Some(alg) => if trusted(&alg) {
                Some(alg)
            } else {
                None
            },
            None => None,
        },
        None => None,
    }
}

impl Claims {
    /// The claims stated by the members of a verified payload: `sub` and
    /// `scope` must both be strings.
    pub fn from_members(members: &serde_json::Map<String, serde_json::Value>) -> (r: Result<
        Claims,
        AuthError,
    >)
        ensures
            r is Ok <==> (member_texts(*members).contains_key("sub"@) && member_texts(
                *members,
            ).contains_key("scope"@)),
            r matches Ok(c) ==> claims_of(member_texts(*members), c),
            r matches Err(e) ==> e == AuthError::InvalidToken,
    {
        let sub = match text_member(members, "sub") {
            Some(s) => s,
            None => return Err(AuthError::InvalidToken),
        };
        let scope = match text_member(members, "scope") {
            Some(s) => s,
            None => return Err(AuthError::InvalidToken),
        };
        Ok(Claims { sub, scope: ScopeSet::parse(scope.as_str()) })
    }
}

/// First step of verification: the bearer token must be present and its
/// header must decode and name a key.
pub fn begin_verification(bearer: Option<String>) -> (r: Result<PendingToken, AuthError>)
    ensures
        bearer is None ==> r matches Err(AuthError::MissingToken),
        bearer matches Some(t) ==> match header_key_id(t@) {
            Some(Some(kid)) => r matches Ok(p) && p.token@ == t@ && p.kid@ == kid,
            _ => r matches Err(AuthError::InvalidToken),
        },
{
    let token = match bearer {
        Some(t) => t,
        None => return Err(AuthError::MissingToken),
    };
    match decode_key_id(token.as_str()) {
        Ok(Some(kid)) => Ok(PendingToken { token, kid }),
        Ok(None) => Err(AuthError::InvalidToken),
        Err(_) => Err(AuthError::InvalidToken),
    }
}

/// Last step of verification: the key named by the token is looked up in
/// `keys`, must declare a trusted algorithm and hold RSA material, and the
/// token must carry a valid signature by it, be unexpired, and state a
/// subject and scopes.
pub fn finish_verification(pending: &PendingToken, keys: &KeySet) -> (r: Result<Claims, AuthError>)
    ensures
        verification_outcome(pending.token@, pending.kid@, keys.keys@, r),
{
    let key = match keys.find(pending.kid.as_str()) {
        Some(k) => k,
        None => return Err(AuthError::InvalidToken),
    };
    let alg = match resolve_algorithm(key) {
        Some(a) => a,
        None => return Err(AuthError::InvalidToken),
    };
    let decoding_key = match &key.material {
        KeyMaterial::Rsa { n, e } => match jsonwebtoken::DecodingKey::from_rsa_components(
            n.as_str(),
            e.as_str(),
        ) {
            Ok(k) => k,
            Err(_) => return Err(AuthError::InvalidToken),
        },
        KeyMaterial::Other => return Err(AuthError::InvalidToken),
    };
    let validation = jsonwebtoken::Validation::new(alg);
    match decode_members(pending.token.as_str(), &decoding_key, &validation) {
        Ok(members) => Claims::from_members(&members),
        Err(error) => Err(AuthError::from_refusal(is_expired_signature(&error))),
    }
}

/// Verifies `token` against `keys`: both steps in turn.
pub fn verify(token: &str, keys: &KeySet) -> (r: Result<Claims, AuthError>)
    ensures
        match header_key_id(token@) {
            Some(Some(kid)) => verification_outcome(token@, kid, keys.keys@, r),
            _ => r matches Err(AuthError::InvalidToken),
        },
{
    let pending = begin_verification(Some(String::from_str(token)))?;
    finish_verification(&pending, keys)
}

/// A token that names a key id which no key of the set carries is invalid.
pub proof fn lemma_unknown_key_rejected(token: Seq<char>, keys: Seq<SigningKey>, kid: Seq<char>)
    requires
        header_key_id(token) == Some(Some(kid)),
        forall|i: int| 0 <= i < keys.len() ==> !crate::keys::has_id(#[trigger] keys[i], kid),
    ensures
        lookup(keys, kid) is None,
{
    crate::keys::lemma_lookup_absent(keys, kid);
}

/// Two successful verifications of the same token yield the same subject and
/// the same scopes.
pub proof fn lemma_verification_repeatable(token: Seq<char>, first: Claims, second: Claims)
    requires
        claims_of(payload_texts(token), first),
        claims_of(payload_texts(token), second),
    ensures
        first.sub@ == second.sub@,
        first.scope@ == second.scope@,
{
}

} // verus!
