//! Bearer tokens: signed claims that name a user.
//!
//! A token is a compact JWS, signed with Ed25519, whose claims hold an
//! expiry `exp` and a user id `uid`. Checking the signature and the expiry
//! is left to `jsonwebtoken`; what is read from the checked claims is
//! decided here.

use jsonwebtoken::{Algorithm, DecodingKey, Validation};
use serde_json::Value;
use vstd::prelude::*;
use vstd::string::StringSliceAdditionalSpecFns;
use vstd::utf8::valid_utf8;

verus! {

/// `jsonwebtoken::DecodingKey`: the public key that tokens are checked
/// against. It is carried as it is; nothing is read from it here.
#[verifier::external_type_specification]
#[verifier::external_body]
pub struct ExDecodingKey(DecodingKey);

/// `serde_json::Value`: the claims of a token as `jsonwebtoken` hands them
/// out. What they hold is read through [`member_numbers`].
#[verifier::external_type_specification]
#[verifier::external_body]
pub struct ExValue(Value);

/// `jsonwebtoken::errors::Error`: why a key or a token was refused. It is
/// carried as it is; nothing is read from it here.
#[verifier::external_type_specification]
#[verifier::external_body]
pub struct ExJwtError(jsonwebtoken::errors::Error);

/// Whether `jsonwebtoken::DecodingKey::from_ed_pem` finds an Ed25519 public
/// key in a PEM text.
pub uninterp spec fn pem_holds_ed_key(pem: Seq<u8>) -> bool;

/// `jsonwebtoken::DecodingKey::from_ed_pem`: the Ed25519 public key that a
/// PEM text holds, or the error of the parser. Whether there is a key
/// depends on the text alone. The key cannot be looked into, so nothing
/// more is claimed of it.
#[verifier::external_body]
fn ed_key_from_pem(pem: &[u8]) -> (key: Result<DecodingKey, jsonwebtoken::errors::Error>)
    ensures
        key is Ok <==> pem_holds_ed_key(pem@),
{
    DecodingKey::from_ed_pem(pem)
}

/// Reads the public key of the token issuer from PEM text; nothing where
/// the text holds no such key.
pub(crate) fn read_key(pem: &[u8]) -> (key: Option<DecodingKey>)
    ensures
        key is Some <==> pem_holds_ed_key(pem@),
{
    match ed_key_from_pem(pem) {
        Ok(key) => Some(key),
        Err(_) => None,
    }
}

/// `core::str::from_utf8`: the text that the bytes encode, where they are
/// valid UTF-8, and nothing otherwise.
#[verifier::external_body]
fn utf8_text(data: &[u8]) -> (text: Option<&str>)
    ensures
        text is Some <==> valid_utf8(data@),
        text matches Some(s) ==> s.spec_bytes() == data@,
{
    core::str::from_utf8(data).ok()
}

/// `jsonwebtoken::decode` with the validation that `Validation::new` gives
/// for EdDSA: the claims of the token, where its signature is good for
/// `key`, an `exp` claim is present and, by the system clock, not more than
/// a minute past. The clock decides, so nothing is claimed of the result.
/// The call panics where the system clock stands before the Unix epoch,
/// and its arithmetic overflows within the first minute after it.
#[verifier::external_body]
fn checked_claims(token: &str, key: &DecodingKey) -> (claims: Option<Value>) {
    jsonwebtoken::decode::<Value>(token, key, &Validation::new(Algorithm::EdDSA))
        .ok()
        .map(|data| data.claims)
}

/// The members of a JSON value by name, each as the numbers that it stands
/// for: first what `serde_json::Value::as_u64` makes of the member (the
/// number, where the member is an integer that is not negative), then what
/// `serde_json::Value::as_i64` makes of it (the number, where the member is
/// an integer that fits `i64`). A value that is no object has no members.
pub uninterp spec fn json_numbers(value: Value) -> Map<Seq<char>, (Option<u64>, Option<i64>)>;

/// `serde_json::Value::get` with a name: the member of that name, where the
/// value is an object that has one. The member is handed out as the numbers
/// that `as_u64` and `as_i64` make of it.
#[verifier::external_body]
fn member_numbers(value: &Value, name: &str) -> (found: Option<(Option<u64>, Option<i64>)>)
    ensures
        found == (if json_numbers(*value).contains_key(name@) {
            Some(json_numbers(*value)[name@])
        } else {
            None
        }),
{
    value.get(name).map(|member| (member.as_u64(), member.as_i64()))
}

/// The member `name` as a number that is not negative, where there is such
/// a member and it is such a number.
pub open spec fn natural_in(
    numbers: Map<Seq<char>, (Option<u64>, Option<i64>)>,
    name: Seq<char>,
) -> Option<u64> {
    if numbers.contains_key(name) {
        numbers[name].0
    } else {
        None
    }
}

/// The member `name` as an integer, where there is such a member and it is
/// an integer that fits `i64`.
pub open spec fn integer_in(
    numbers: Map<Seq<char>, (Option<u64>, Option<i64>)>,
    name: Seq<char>,
) -> Option<i64> {
    if numbers.contains_key(name) {
        numbers[name].1
    } else {
        None
    }
}

/// The user that a set of claims names: what [`claimed_uid`] makes of the
/// members `exp` and `uid`.
pub open spec fn user_in(numbers: Map<Seq<char>, (Option<u64>, Option<i64>)>) -> Option<i32> {
    claimed_uid(natural_in(numbers, "exp"@), integer_in(numbers, "uid"@))
}

/// The user that a token names, given whether its bytes are valid UTF-8 and
/// the claims that the check of the token let through: nobody where the
/// bytes are no text or the check let nothing through, otherwise the user
/// that the claims name.
pub open spec fn token_user(is_text: bool, checked: Option<Value>) -> Option<i32> {
    if !is_text {
        None
    } else {
        match checked {
            Some(claims) => user_in(json_numbers(claims)),
            None => None,
        }
    }
}

/// The user that a pair of claims names: the `uid`, where an expiry is
/// there and the `uid` fits 32 bits.
pub open spec fn claimed_uid(exp: Option<u64>, uid: Option<i64>) -> Option<i32> {
    match (exp, uid) {
        (Some(_), Some(n)) => if i32::MIN <= n <= i32::MAX {
            Some(n as i32)
        } else {
            None
        },
        _ => None,
    }
}

/// The user that a pair of claims names, from the two numbers as they were
/// read.
pub fn uid_of_claims(exp: Option<u64>, uid: Option<i64>) -> (user: Option<i32>)
    ensures
        user == claimed_uid(exp, uid),
{
    match (exp, uid) {
        (Some(_), Some(n)) => {
            if n >= -2_147_483_648 && n <= 2_147_483_647 {
                Some(n as i32)
            } else {
                None
            }
        },
        _ => None,
    }
}

fn read_natural(claims: &Value, name: &str) -> (n: Option<u64>)
    ensures
        n == natural_in(json_numbers(*claims), name@),
{
    match member_numbers(claims, name) {
        Some(numbers) => numbers.0,
        None => None,
    }
}

fn read_integer(claims: &Value, name: &str) -> (n: Option<i64>)
    ensures
        n == integer_in(json_numbers(*claims), name@),
{
    match member_numbers(claims, name) {
        Some(numbers) => numbers.1,
        None => None,
    }
}

/// The user that a set of claims names: the `uid`, where the claims hold an
/// expiry that is a number and not negative, and a `uid` that is an integer
/// and fits 32 bits.
pub fn claims_user(claims: &Value) -> (user: Option<i32>)
    ensures
        user == user_in(json_numbers(*claims)),
{
    uid_of_claims(read_natural(claims, "exp"), read_integer(claims, "uid"))
}

/// Checks a token and names its user. Bytes that are not valid UTF-8 are no
/// token. For the rest the signature and the clock decide whether the
/// claims of the token are let through; whatever they decide, the user is
/// what [`token_user`] makes of it.
///
/// The check reads the system clock. It panics where that clock stands
/// before the Unix epoch, and its arithmetic overflows within the first
/// minute after it.
pub fn verify_token(key: &DecodingKey, data: &[u8]) -> (user: Option<i32>)
    ensures
        !valid_utf8(data@) ==> user is None,
        exists|checked: Option<Value>| user == #[trigger] token_user(valid_utf8(data@), checked),
{
    match utf8_text(data) {
        None => {
            assert(token_user(false, None::<Value>) is None);
            None
        },
        Some(token) => match checked_claims(token, key) {
            None => {
                assert(token_user(true, None::<Value>) is None);
                None
            },
            Some(claims) => {
                let user: Option<i32> = claims_user(&claims);
                assert(user == token_user(true, Some(claims)));
                user
            },
        },
    }
}

} // verus!
