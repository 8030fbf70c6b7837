//! The calls into other crates. Each function here is a thin wrapper whose
//! contract is taken on trust; everything else in the library is proved
//! against these contracts.

use crate::token::{claim_views, Claim, ClaimValue, ClaimView};
use base64::Engine;
use rand::RngCore;
use rsa::pkcs1::DecodeRsaPrivateKey;
use rsa::pkcs8::{DecodePrivateKey, EncodePublicKey};
use vstd::prelude::*;

verus! {

/// `base64::DecodeError`: why base64 text did not decode. Never looked into.
#[verifier::external_type_specification]
#[verifier::external_body]
pub struct ExBase64DecodeError(base64::DecodeError);

/// `rsa::RsaPrivateKey`: an RSA key pair. Carried through as it is; only
/// the calls below look into it.
#[verifier::external_type_specification]
#[verifier::external_body]
pub struct ExRsaPrivateKey(rsa::RsaPrivateKey);

/// `rsa::Error`: why an RSA operation failed. Never looked into.
#[verifier::external_type_specification]
#[verifier::external_body]
pub struct ExRsaError(rsa::Error);

/// `spki::Error`: why a public key could not be encoded. Never looked into.
#[verifier::external_type_specification]
#[verifier::external_body]
pub struct ExSpkiError(rsa::pkcs8::spki::Error);

/// `pkcs8::Error`: why a PKCS#8 document did not parse. Never looked into.
#[verifier::external_type_specification]
#[verifier::external_body]
pub struct ExPkcs8Error(rsa::pkcs8::Error);

/// `pkcs1::Error`: why a PKCS#1 document did not parse. Never looked into.
#[verifier::external_type_specification]
#[verifier::external_body]
pub struct ExPkcs1Error(rsa::pkcs1::Error);

/// `jsonwebtoken::errors::Error`: why a token could not be encoded. Never
/// looked into.
#[verifier::external_type_specification]
#[verifier::external_body]
pub struct ExJwtError(jsonwebtoken::errors::Error);

/// `time::Error`: why an instant could not be formatted. Never looked into.
#[verifier::external_type_specification]
#[verifier::external_body]
pub struct ExTimeError(time::Error);

/// `rand::Error`: why the operating system gave no random bytes. Never
/// looked into.
#[verifier::external_type_specification]
#[verifier::external_body]
pub struct ExRandError(rand::Error);

/// The bytes that standard, padded base64 text decodes to, if it is well formed.
pub uninterp spec fn base64_decoded(text: Seq<char>) -> Option<Seq<u8>>;

/// Calls `base64::engine::general_purpose::STANDARD.decode`. The result is a
/// function of the text alone, named `base64_decoded`.
#[verifier::external_body]
pub(crate) fn base64_decode(text: &str) -> (r: Result<Vec<u8>, base64::DecodeError>)
    ensures
        r matches Ok(bytes) ==> base64_decoded(text@) == Some(bytes@),
        r is Err ==> base64_decoded(text@) is None,
{
    base64::engine::general_purpose::STANDARD.decode(text)
}

/// What a private key holds, as bytes: its PKCS#1 DER encoding. The
/// contracts below speak of a key by these bytes.
pub uninterp spec fn private_key_der(key: rsa::RsaPrivateKey) -> Seq<u8>;

/// The plaintext that RSA-OAEP with SHA-256 recovers from a ciphertext under
/// a private key, if the ciphertext opens.
pub uninterp spec fn oaep_sha256_opened(key_der: Seq<u8>, ciphertext: Seq<u8>) -> Option<Seq<u8>>;

/// Calls `rsa::RsaPrivateKey::decrypt` with `Oaep::new::<Sha256>()`. Without
/// blinding the result is a function of key and ciphertext, named
/// `oaep_sha256_opened`.
#[verifier::external_body]
pub(crate) fn oaep_sha256_decrypt(key: &rsa::RsaPrivateKey, ciphertext: &[u8]) -> (r: Result<
    Vec<u8>,
    rsa::Error,
>)
    ensures
        r matches Ok(plain) ==> oaep_sha256_opened(private_key_der(*key), ciphertext@) == Some(
            plain@,
        ),
        r is Err ==> oaep_sha256_opened(private_key_der(*key), ciphertext@) is None,
{
    key.decrypt(rsa::Oaep::new::<sha2::Sha256>(), ciphertext)
}

/// The SPKI PEM text (LF line endings) of the public half of a private key,
/// if it can be encoded.
pub uninterp spec fn public_key_pem(key_der: Seq<u8>) -> Option<Seq<char>>;

/// Calls `to_public_key` and then `EncodePublicKey::to_public_key_pem` with
/// `LineEnding::LF`. The result is a function of the key, named
/// `public_key_pem`.
#[verifier::external_body]
pub(crate) fn encode_public_key_pem(key: &rsa::RsaPrivateKey) -> (r: Result<
    String,
    rsa::pkcs8::spki::Error,
>)
    ensures
        r matches Ok(pem) ==> public_key_pem(private_key_der(*key)) == Some(pem@),
        r is Err ==> public_key_pem(private_key_der(*key)) is None,
{
    key.to_public_key().to_public_key_pem(rsa::pkcs8::LineEnding::LF)
}

/// The private key that a PKCS#8 PEM document holds, if it parses as one.
pub uninterp spec fn pkcs8_pem_key(pem: Seq<char>) -> Option<Seq<u8>>;

/// Calls `DecodePrivateKey::from_pkcs8_pem` for `rsa::RsaPrivateKey`. The
/// key that comes out is a function of the text, named `pkcs8_pem_key`.
#[verifier::external_body]
pub(crate) fn parse_pkcs8_pem(pem: &str) -> (r: Result<rsa::RsaPrivateKey, rsa::pkcs8::Error>)
    ensures
        r matches Ok(key) ==> pkcs8_pem_key(pem@) == Some(private_key_der(key)),
        r is Err ==> pkcs8_pem_key(pem@) is None,
{
    rsa::RsaPrivateKey::from_pkcs8_pem(pem)
}

/// The private key that a PKCS#1 PEM document holds, if it parses as one.
pub uninterp spec fn pkcs1_pem_key(pem: Seq<char>) -> Option<Seq<u8>>;

/// Calls `DecodeRsaPrivateKey::from_pkcs1_pem` for `rsa::RsaPrivateKey`. The
/// key that comes out is a function of the text, named `pkcs1_pem_key`.
#[verifier::external_body]
pub(crate) fn parse_pkcs1_pem(pem: &str) -> (r: Result<rsa::RsaPrivateKey, rsa::pkcs1::Error>)
    ensures
        r matches Ok(key) ==> pkcs1_pem_key(pem@) == Some(private_key_der(key)),
        r is Err ==> pkcs1_pem_key(pem@) is None,
{
    rsa::RsaPrivateKey::from_pkcs1_pem(pem)
}

/// The compact JWT that HS256 signing yields for a secret and a flat object
/// of claims, if encoding succeeds.
pub uninterp spec fn hs256_token(secret: Seq<u8>, claims: Seq<ClaimView>) -> Option<Seq<char>>;

/// Calls `jsonwebtoken::encode` with `Header::new(Algorithm::HS256)`, the
/// claims as a JSON object in the order given, and
/// `EncodingKey::from_secret`. The result is a function of secret and
/// claims, named `hs256_token`.
#[verifier::external_body]
pub(crate) fn hs256_encode(secret: &[u8], claims: &Vec<Claim>) -> (r: Result<
    String,
    jsonwebtoken::errors::Error,
>)
    ensures
        r matches Ok(token) ==> hs256_token(secret@, claim_views(claims@)) == Some(token@),
        r is Err ==> hs256_token(secret@, claim_views(claims@)) is None,
{
    let mut object = serde_json::Map::new();
    for claim in claims.iter() {
        let value = match &claim.value {
            ClaimValue::Text(text) => serde_json::Value::from(text.as_str()),
            ClaimValue::Integer(number) => serde_json::Value::from(*number),
        };
        object.insert(claim.name.clone(), value);
    }
    let header = jsonwebtoken::Header::new(jsonwebtoken::Algorithm::HS256);
    jsonwebtoken::encode(&header, &object, &jsonwebtoken::EncodingKey::from_secret(secret))
}

/// The text that a UTC instant, given in Unix seconds, formats to under a
/// format description, if the instant is representable and the description
/// is valid.
pub uninterp spec fn utc_formatted(unix: int, description: Seq<char>) -> Option<Seq<char>>;

/// Calls `time::OffsetDateTime::format` on
/// `OffsetDateTime::from_unix_timestamp(unix)` with the description parsed by
/// `time::format_description::parse`. The result is a function of both
/// arguments, named `utc_formatted`.
#[verifier::external_body]
pub(crate) fn format_utc(unix: i64, description: &str) -> (r: Result<String, time::Error>)
    ensures
        r matches Ok(text) ==> utc_formatted(unix as int, description@) == Some(text@),
        r is Err ==> utc_formatted(unix as int, description@) is None,
{
    let items = time::format_description::parse(description)?;
    Ok(time::OffsetDateTime::from_unix_timestamp(unix)?.format(&items)?)
}

/// Reads the clock: `time::OffsetDateTime::now_utc().unix_timestamp()`.
/// Nothing is promised of the value.
#[verifier::external_body]
pub(crate) fn unix_now() -> i64 {
    time::OffsetDateTime::now_utc().unix_timestamp()
}

/// Draws eight bytes from the operating system with
/// `rand::rngs::OsRng.try_fill_bytes` and reads them as a little-endian
/// integer. Nothing is promised of the value.
#[verifier::external_body]
pub(crate) fn os_random_u64() -> Result<u64, rand::Error> {
    let mut bytes = [0u8; 8];
    rand::rngs::OsRng.try_fill_bytes(&mut bytes)?;
    Ok(u64::from_le_bytes(bytes))
}

} // verus!
