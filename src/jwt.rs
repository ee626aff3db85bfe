//! What the library relies on from `jsonwebtoken` and `serde_json`.

use std::str::FromStr;

use jsonwebtoken::errors::Error as JwtError;
use jsonwebtoken::{Algorithm, DecodingKey, Validation};
use serde_json::Value;
use vstd::prelude::*;

verus! {

#[verifier::external_type_specification]
pub struct ExAlgorithm(jsonwebtoken::Algorithm);

#[verifier::external_type_specification]
#[verifier::external_body]
pub struct ExJwtError(jsonwebtoken::errors::Error);

#[verifier::external_type_specification]
#[verifier::external_body]
pub struct ExDecodingKey(jsonwebtoken::DecodingKey);

#[verifier::external_type_specification]
#[verifier::external_body]
pub struct ExValidation(jsonwebtoken::Validation);

#[verifier::external_type_specification]
#[verifier::external_body]
pub struct ExJsonValue(serde_json::Value);

#[verifier::external_type_specification]
#[verifier::external_body]
#[verifier::reject_recursive_types(K)]
#[verifier::reject_recursive_types(V)]
pub struct ExJsonMap<K, V>(serde_json::Map<K, V>);

/// The key id in the header of `token`: `None` when the header cannot be
/// decoded, `Some(None)` when it names no key.
pub uninterp spec fn header_key_id(token: Seq<char>) -> Option<Option<Seq<char>>>;

/// The string-valued members of the payload of `token`, by name.
pub uninterp spec fn payload_texts(token: Seq<char>) -> Map<Seq<char>, Seq<char>>;

/// The string-valued members of a JSON object, by name.
pub uninterp spec fn member_texts(members: serde_json::Map<String, Value>) -> Map<
    Seq<char>,
    Seq<char>,
>;

pub open spec fn opt_text(t: Option<String>) -> Option<Seq<char>> {
    match t {
        Some(s) => Some(s@),
        None => None,
    }
}

/// The signing algorithm registered under `name`.
pub open spec fn algorithm_named(name: Seq<char>) -> Option<Algorithm> {
    if name == "HS256"@ {
        Some(Algorithm::HS256)
    } else if name == "HS384"@ {
        Some(Algorithm::HS384)
    } else if name == "HS512"@ {
        Some(Algorithm::HS512)
    } else if name == "ES256"@ {
        Some(Algorithm::ES256)
    } else if name == "ES384"@ {
        Some(Algorithm::ES384)
    } else if name == "RS256"@ {
        Some(Algorithm::RS256)
    } else if name == "RS384"@ {
        Some(Algorithm::RS384)
    } else if name == "RS512"@ {
        Some(Algorithm::RS512)
    } else if name == "PS256"@ {
        Some(Algorithm::PS256)
    } else if name == "PS384"@ {
        Some(Algorithm::PS384)
    } else if name == "PS512"@ {
        Some(Algorithm::PS512)
    } else if name == "EdDSA"@ {
        Some(Algorithm::EdDSA)
    } else {
        None
    }
}

/// Relies on `jsonwebtoken::decode_header`: decodes the header of a token
/// without checking its signature and yields the key id it names.
#[verifier::external_body]
pub(crate) fn decode_key_id(token: &str) -> (r: Result<Option<String>, JwtError>)
    ensures
        match r {
            Ok(kid) => header_key_id(token@) == Some(opt_text(kid)),
            Err(_) => header_key_id(token@) is None,
        },
{
    jsonwebtoken::decode_header(token).map(|header| header.kid)
}

/// Relies on `jsonwebtoken::Algorithm::from_str`: recognises exactly the
/// registered names of the algorithms it supports.
#[verifier::external_body]
pub(crate) fn algorithm_from_name(name: &str) -> (r: Option<Algorithm>)
    ensures
        r == algorithm_named(name@),
{
    Algorithm::from_str(name).ok()
}

/// Relies on `jsonwebtoken::Validation::new`: signature check with `alg`
/// alone, and expiry checked.
pub assume_specification[ jsonwebtoken::Validation::new ](alg: Algorithm) -> Validation;

/// Both texts decode as unpadded base64url, the encoding of an RSA public
/// key's modulus and exponent.
pub uninterp spec fn rsa_components_decode(modulus: Seq<char>, exponent: Seq<char>) -> bool;

/// Relies on `jsonwebtoken::DecodingKey::from_rsa_components`: an RSA public
/// key from its base64url-encoded modulus and exponent, which succeeds
/// exactly when both decode.
pub assume_specification[ jsonwebtoken::DecodingKey::from_rsa_components ](
    modulus: &str,
    exponent: &str,
) -> (r: Result<DecodingKey, JwtError>)
    ensures
        r is Ok <==> rsa_components_decode(modulus@, exponent@),
;

/// Relies on `jsonwebtoken::decode`: checks the signature of `token` with
/// `key` and its standard claims under `validation`, then yields the members
/// of its payload, which depend on the token alone.
#[verifier::external_body]
pub(crate) fn decode_members(token: &str, key: &DecodingKey, validation: &Validation) -> (r:
    Result<serde_json::Map<String, Value>, JwtError>)
    ensures
        r matches Ok(members) ==> member_texts(members) == payload_texts(token@),
{
    jsonwebtoken::decode::<serde_json::Map<String, Value>>(token, key, validation).map(
        |data| data.claims,
    )
}

/// Relies on `serde_json::Map::get`: the member called `name`, when it holds a string.
#[verifier::external_body]
pub(crate) fn text_member(members: &serde_json::Map<String, Value>, name: &str) -> (r: Option<
    String,
>)
    ensures
        match r {
            Some(t) => member_texts(*members).contains_key(name@) && member_texts(*members)[name@]
                == t@,
            None => !member_texts(*members).contains_key(name@),
        },
{
    match members.get(name) {
        Some(Value::String(text)) => Some(text.clone()),
        _ => None,
    }
}

/// Relies on `jsonwebtoken::errors::Error::kind`: tells an expired token apart
/// from every other failure.
#[verifier::external_body]
pub(crate) fn is_expired_signature(error: &JwtError) -> bool {
    matches!(error.kind(), jsonwebtoken::errors::ErrorKind::ExpiredSignature)
}

} // verus!
