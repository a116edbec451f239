//! API-key primitives: fresh credentials, the hash under which a key
//! is stored, and the access decisions taken on presented keys.

use vstd::prelude::*;

use sha2::Digest;

use crate::strutil::str_eq;
use vstd::utf8::encode_utf8;

verus! {

/// The SHA-256 digest of a byte sequence (the result of `sha2::Sha256`).
pub uninterp spec fn sha256_of(data: Seq<u8>) -> Seq<u8>;

/// The lowercase hexadecimal rendering of a byte sequence (the result of
/// `hex::encode`).
pub uninterp spec fn hex_of(data: Seq<u8>) -> Seq<char>;

/// Relies on `sha2::Sha256`: the digest is a function of the input bytes
/// alone, 32 bytes long.
#[verifier::external_body]
fn sha256_digest(data: &[u8]) -> (r: Vec<u8>)
    ensures
        r@ == sha256_of(data@),
        r@.len() == 32,
{
    let mut hasher = sha2::Sha256::new();
    hasher.update(data);
    hasher.finalize().to_vec()
}

/// Relies on `hex::encode`: two hexadecimal digits for each input byte,
/// a function of the bytes alone.
#[verifier::external_body]
fn hex_encode(data: &[u8]) -> (r: String)
    ensures
        r@ == hex_of(data@),
        r@.len() == 2 * data@.len(),
{
    hex::encode(data)
}

/// Relies on `uuid::Uuid::new_v4` in its simple formatting: 32 ASCII
/// hexadecimal digits; the value is random, so nothing relates two calls.
#[verifier::external_body]
fn fresh_uuid_simple() -> (r: String)
    ensures
        r@.len() == 32,
{
    format!("{}", uuid::Uuid::new_v4().simple())
}

/// The hash under which an API key is stored: lowercase hex of the
/// SHA-256 digest of the key's bytes.
pub fn hash_api_key(key: &str) -> (r: String)
    ensures
        r@ == hex_of(sha256_of(encode_utf8(key@))),
        r@.len() == 64,
{
    let digest = sha256_digest(key.as_bytes());
    hex_encode(digest.as_slice())
}

/// A fresh API key: the `ez_` prefix followed by 32 random characters.
pub fn generate_api_key() -> (r: String)
    ensures
        r@.len() == 35,
        r@.subrange(0, 3) == "ez_"@,
{
    let mut s = String::from_str("ez_");
    let tail = fresh_uuid_simple();
    s.append(tail.as_str());
    proof {
        reveal_strlit("ez_");
        assert(s@.subrange(0, 3) =~= "ez_"@);
    }
    s
}

/// A fresh credential paired with the hash under which it is stored.
pub struct MintedApiKey {
    pub raw_key: String,
    pub key_hash: String,
}

/// The raw key and stored hash always correspond.
pub open spec fn minted_consistent(m: MintedApiKey) -> bool {
    &&& m.key_hash@ == hex_of(sha256_of(encode_utf8(m.raw_key@)))
    &&& m.raw_key@.len() == 35
    &&& m.raw_key@.subrange(0, 3) == "ez_"@
}

/// The computational core of key creation: generate a credential and
/// derive the hash the store will keep for it.
pub fn mint_api_key() -> (r: MintedApiKey)
    ensures
        minted_consistent(r),
{
    let raw_key = generate_api_key();
    let key_hash = hash_api_key(raw_key.as_str());
    MintedApiKey { raw_key, key_hash }
}

/// The decision taken on an admin request's presented key.
#[derive(Debug, Clone, Copy, PartialEq, Eq, Structural)]
pub enum AdminKeyCheck {
    Granted,
    WrongKey,
    MissingKey,
}

/// Decide an admin request: access is granted exactly when the presented
/// header equals the configured admin key.
pub fn check_admin_key(provided: Option<&str>, admin_key: &str) -> (r: AdminKeyCheck)
    ensures
        (r is Granted) == (provided matches Some(k) && k@ == admin_key@),
        (r is MissingKey) == (provided is None),
{
    match provided {
        None => AdminKeyCheck::MissingKey,
        Some(k) => {
            if str_eq(k, admin_key) {
                AdminKeyCheck::Granted
            } else {
                AdminKeyCheck::WrongKey
            }
        },
    }
}

/// The decision taken on an API request's presented key.
#[derive(Debug, Clone, Copy, PartialEq, Eq, Structural)]
pub enum ApiKeyVerdict {
    Allowed,
    InvalidKey,
    MissingKey,
}

/// Decide an API request from the presented header and the store's
/// verdict on that key: allowed exactly when a key was presented and the
/// store accepts it.
pub fn check_api_key(provided: Option<&str>, key_is_valid: bool) -> (r: ApiKeyVerdict)
    ensures
        (r is Allowed) == (provided is Some && key_is_valid),
        (r is MissingKey) == (provided is None),
{
    match provided {
        None => ApiKeyVerdict::MissingKey,
        Some(_) => {
            if key_is_valid {
                ApiKeyVerdict::Allowed
            } else {
                ApiKeyVerdict::InvalidKey
            }
        },
    }
}

/// A request to create an API key.
#[derive(Debug)]
pub struct CreateApiKeyRequest {
    pub name: String,
    pub expires_at: Option<String>,
}

/// The response to a successful key creation; the raw key appears here
/// and nowhere else.
#[derive(Debug)]
pub struct CreateApiKeyResponse {
    pub id: String,
    pub name: String,
    pub api_key: String,
    pub created_at: String,
    pub expires_at: Option<String>,
}

/// One stored key as listed to an administrator (never the raw key).
#[derive(Debug)]
pub struct ApiKeyListItem {
    pub id: String,
    pub name: String,
    pub created_at: String,
    pub is_active: bool,
    pub expires_at: Option<String>,
}

} // verus!
