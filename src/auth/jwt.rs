use vstd::prelude::*;

use crate::auth::{User, UserId};

verus! {

#[verifier::external_type_specification]
#[verifier::external_body]
pub struct ExDecodingKey(jsonwebtoken::DecodingKey);

/// Why a bearer token was refused.
#[derive(Debug, Clone, Copy, PartialEq, Eq, Structural)]
pub enum AuthError {
    /// The token is structurally invalid.
    Malformed,
    /// Bad signature, unknown key id, or a subject that no longer resolves.
    InvalidCredential,
    /// A backing store could not be reached or held something unreadable.
    Internal,
}

/// The answer of a key-value store to one read.
#[derive(Debug, Clone, PartialEq, Eq)]
pub enum Lookup<T> {
    Found(T),
    Absent,
    Unreachable,
}

/// The claims of a token whose signature has been checked, as far as they
/// are strings.
#[derive(Debug, Clone, PartialEq, Eq)]
pub struct Claims {
    pub sub: Option<String>,
    pub grant_type: Option<String>,
}

/// The `kid` of a token's header: `None` when the header does not parse,
/// `Some(None)` when it carries no key id.
pub uninterp spec fn header_key_id(token: Seq<char>) -> Option<Option<Seq<char>>>;

/// Whether a PEM text holds an elliptic-curve public key.
pub uninterp spec fn ec_pem_accepted(pem: Seq<char>) -> bool;

pub open spec fn key_id_view(r: Option<Option<String>>) -> Option<Option<Seq<char>>> {
    match r {
        Some(Some(k)) => Some(Some(k@)),
        Some(None) => Some(None),
        None => None,
    }
}

pub open spec fn is_digit(c: char) -> bool {
    '0' <= c && c <= '9'
}

pub open spec fn all_digits(s: Seq<char>) -> bool {
    s.len() > 0 && forall|i: int| 0 <= i < s.len() ==> is_digit(#[trigger] s[i])
}

/// Value of a string of decimal digits.
pub open spec fn digits_value(s: Seq<char>) -> int
    decreases s.len(),
{
    if s.len() == 0 {
        0
    } else {
        10 * digits_value(s.drop_last()) + (s.last() as u32 - '0' as u32)
    }
}

/// An optional sign followed by at least one decimal digit and nothing else.
pub open spec fn signed_decimal(s: Seq<char>) -> Option<int> {
    if s.len() > 0 && s[0] == '-' && all_digits(s.drop_first()) {
        Some(-digits_value(s.drop_first()))
    } else if s.len() > 0 && s[0] == '+' && all_digits(s.drop_first()) {
        Some(digits_value(s.drop_first()))
    } else if all_digits(s) {
        Some(digits_value(s))
    } else {
        None
    }
}

/// The `i64` that a decimal text denotes, if it is one and in range.
pub open spec fn parsed_i64(s: Seq<char>) -> Option<i64> {
    match signed_decimal(s) {
        Some(v) => if i64::MIN <= v <= i64::MAX {
            Some(v as i64)
        } else {
            None
        },
        None => None,
    }
}

/// Relies on jsonwebtoken::decode_header: reads the header of a token
/// without checking its signature; the result depends on the token alone.
#[verifier::external_body]
fn decode_header_key_id(token: &str) -> (r: Option<Option<String>>)
    ensures
        key_id_view(r) == header_key_id(token@),
{
    jsonwebtoken::decode_header(token).ok().map(|h| h.kid)
}

/// Relies on jsonwebtoken::DecodingKey::from_ec_pem: builds a verification
/// key from a PEM text, which succeeds or not depending on the text alone.
#[verifier::external_body]
fn ec_key_from_pem(pem: &str) -> (r: Option<jsonwebtoken::DecodingKey>)
    ensures
        r is Some <==> ec_pem_accepted(pem@),
{
    jsonwebtoken::DecodingKey::from_ec_pem(pem.as_bytes()).ok()
}

/// Relies on jsonwebtoken::decode with a validation pinned to ES384: `None`
/// unless signature, algorithm and expiry check out, else the string claims
/// `sub` and `grant_type`. Expiry is read against the clock, so nothing is
/// stated of the outcome.
#[verifier::external_body]
fn decode_es384_claims(token: &str, key: &jsonwebtoken::DecodingKey) -> (r: Option<Claims>) {
    let validation = jsonwebtoken::Validation::new(jsonwebtoken::Algorithm::ES384);
    jsonwebtoken::decode::<serde_json::Value>(token, key, &validation).ok().map(
        |d| Claims {
            sub: d.claims.get("sub").and_then(|v| v.as_str()).map(|v| v.to_owned()),
            grant_type: d.claims.get("grant_type").and_then(|v| v.as_str()).map(|v| v.to_owned()),
        },
    )
}

/// Relies on `str::parse::<i64>`: an optional `+` or `-` and one or more
/// ASCII digits, nothing else, denoting a value in range.
#[verifier::external_body]
fn parse_i64(s: &str) -> (r: Option<i64>)
    ensures
        r == parsed_i64(s@),
{
    s.parse::<i64>().ok()
}

/// The id of the key that signed `token`, read from its header.
pub fn token_key_id(token: &str) -> (r: Result<String, AuthError>)
    ensures
        match header_key_id(token@) {
            Some(Some(kid)) => r is Ok && r->Ok_0@ == kid,
            _ => r == Err::<String, AuthError>(AuthError::Malformed),
        },
{
    match decode_header_key_id(token) {
        Some(Some(kid)) => Ok(kid),
        _ => Err(AuthError::Malformed),
    }
}

/// Outcome of looking the signing key up in the key store.
pub open spec fn key_resolution(lookup: Lookup<String>) -> Result<(), AuthError> {
    match lookup {
        Lookup::Found(pem) => if ec_pem_accepted(pem@) {
            Ok(())
        } else {
            Err(AuthError::Internal)
        },
        Lookup::Absent => Err(AuthError::InvalidCredential),
        Lookup::Unreachable => Err(AuthError::Internal),
    }
}

/// The verification key that the key store answered with: an unknown key
/// id is a bad credential, a store out of reach or an unreadable key an
/// internal failure.
pub fn decoding_key(lookup: Lookup<String>) -> (r: Result<jsonwebtoken::DecodingKey, AuthError>)
    ensures
        r is Ok <==> key_resolution(lookup) is Ok,
        r is Err ==> key_resolution(lookup) == Err::<(), AuthError>(r->Err_0),
{
    match lookup {
        Lookup::Found(pem) => match ec_key_from_pem(pem.as_str()) {
            Some(key) => Ok(key),
            None => Err(AuthError::Internal),
        },
        Lookup::Absent => Err(AuthError::InvalidCredential),
        Lookup::Unreachable => Err(AuthError::Internal),
    }
}

/// Outcome of reading the subject key out of checked claims.
pub open spec fn subject_resolution(claims: Option<Claims>) -> Result<i64, AuthError> {
    match claims {
        Some(Claims { sub: Some(sub), grant_type: Some(_) }) => match parsed_i64(sub@) {
            Some(v) => Ok(v),
            None => Err(AuthError::Malformed),
        },
        _ => Err(AuthError::InvalidCredential),
    }
}

/// The subject key of a token: claims that failed the check, or lack a
/// string `sub` or `grant_type`, are a bad credential; a subject that is no
/// integer is malformed.
pub fn subject_from_claims(claims: Option<Claims>) -> (r: Result<i64, AuthError>)
    ensures
        r == subject_resolution(claims),
{
    match claims {
        Some(Claims { sub: Some(sub), grant_type: Some(_) }) => match parse_i64(sub.as_str()) {
            Some(v) => Ok(v),
            None => Err(AuthError::Malformed),
        },
        _ => Err(AuthError::InvalidCredential),
    }
}

/// Checks the signature of `token` against `key` under the one accepted
/// algorithm and reads its subject key.
pub fn check_signature(token: &str, key: &jsonwebtoken::DecodingKey) -> (r: Result<i64, AuthError>)
    ensures
        exists|c: Option<Claims>| r == #[trigger] subject_resolution(c),
        r is Err ==> r->Err_0 != AuthError::Internal,
{
    let claims = decode_es384_claims(token, key);
    let ghost c = claims;
    let r = subject_from_claims(claims);
    assert(r == subject_resolution(c));
    r
}

/// Second step of verifying `token`, once the key store has answered for
/// its key id: the subject key that it carries.
pub fn on_public_key(token: &str, lookup: Lookup<String>) -> (r: Result<i64, AuthError>)
    ensures
        key_resolution(lookup) is Err ==> r == Err::<i64, AuthError>(key_resolution(lookup)->Err_0),
        key_resolution(lookup) is Ok ==> exists|c: Option<Claims>| r == #[trigger] subject_resolution(c),
{
    match decoding_key(lookup) {
        Ok(key) => check_signature(token, &key),
        Err(e) => Err(e),
    }
}

/// Outcome of resolving a subject key through the identity store.
pub open spec fn identity_resolution(key_ref_id: i64, lookup: Lookup<i64>) -> Result<User, AuthError> {
    match lookup {
        Lookup::Found(id) => Ok(User { key_ref_id, id: UserId(id) }),
        Lookup::Absent => Err(AuthError::InvalidCredential),
        Lookup::Unreachable => Err(AuthError::Internal),
    }
}

/// Last step of verifying a token: the live identity that the identity
/// store maps its subject key to. No entry means unknown or revoked.
pub fn resolve_identity(key_ref_id: i64, lookup: Lookup<i64>) -> (r: Result<User, AuthError>)
    ensures
        r == identity_resolution(key_ref_id, lookup),
{
    match lookup {
        Lookup::Found(id) => Ok(User { key_ref_id, id: UserId(id) }),
        Lookup::Absent => Err(AuthError::InvalidCredential),
        Lookup::Unreachable => Err(AuthError::Internal),
    }
}

/// The whole verification of `token`, given what the key store answered
/// for its key id, the claims that the signature check let through, and
/// what the identity store answered for its subject key.
pub open spec fn verify_outcome(
    token: Seq<char>,
    key: Lookup<String>,
    claims: Option<Claims>,
    identity: Lookup<i64>,
) -> Result<User, AuthError> {
    match header_key_id(token) {
        Some(Some(_)) => match key_resolution(key) {
            Ok(_) => match subject_resolution(claims) {
                Ok(k) => identity_resolution(k, identity),
                Err(e) => Err(e),
            },
            Err(e) => Err(e),
        },
        _ => Err(AuthError::Malformed),
    }
}

/// A token whose key id the key store does not know is a bad credential,
/// whatever else it holds: no identity comes out of it.
pub proof fn lemma_unknown_key_denied(
    token: Seq<char>,
    claims: Option<Claims>,
    identity: Lookup<i64>,
)
    requires
        header_key_id(token) is Some,
        header_key_id(token)->Some_0 is Some,
    ensures
        verify_outcome(token, Lookup::Absent, claims, identity) == Err::<User, AuthError>(
            AuthError::InvalidCredential,
        ),
{
}

/// A token that passes every check but whose subject key has no entry in
/// the identity store (revoked or never issued) is a bad credential.
pub proof fn lemma_revoked_subject_denied(token: Seq<char>, key: Lookup<String>, claims: Option<Claims>)
    requires
        header_key_id(token) is Some,
        header_key_id(token)->Some_0 is Some,
        key_resolution(key) is Ok,
        subject_resolution(claims) is Ok,
    ensures
        verify_outcome(token, key, claims, Lookup::Absent) == Err::<User, AuthError>(
            AuthError::InvalidCredential,
        ),
{
}

} // verus!
