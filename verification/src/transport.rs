//! Transport encryption: the service's key pair, the public key it hands
//! out, and the opening of enveloped payloads.

use crate::backend::{
    base64_decode, base64_decoded, encode_public_key_pem, oaep_sha256_decrypt, oaep_sha256_opened,
    parse_pkcs1_pem, parse_pkcs8_pem, pkcs1_pem_key, pkcs8_pem_key, private_key_der,
    public_key_pem,
};
use crate::error::{ApiError, BadRequestReason, InternalReason};
use vstd::prelude::*;

verus! {

/// The asymmetric key pair of the transport layer. The private key never
/// leaves this value; only the public key can be exported.
pub struct TransportCrypto {
    key: rsa::RsaPrivateKey,
}

/// The reply to a request for the public key.
#[derive(Clone, Debug)]
pub struct PublicKeyResponse {
    pub status: u16,
    pub content_type: String,
    pub body: String,
}

/// The private key that a PEM document holds: read as PKCS#8 first, and as
/// PKCS#1 if that fails.
pub open spec fn pem_key(pem: Seq<char>) -> Option<Seq<u8>> {
    match pkcs8_pem_key(pem) {
        Some(key) => Some(key),
        None => pkcs1_pem_key(pem),
    }
}

impl View for TransportCrypto {
    type V = Seq<u8>;

    /// The key pair as the contracts see it: the bytes of the private key.
    /// No function hands them out.
    closed spec fn view(&self) -> Seq<u8> {
        private_key_der(self.key)
    }
}

impl TransportCrypto {
    /// The PEM text of the public key, if it can be encoded.
    pub open spec fn spec_public_key(&self) -> Option<Seq<char>> {
        public_key_pem(self@)
    }

    /// The plaintext of an envelope: the base64 text decoded, then opened
    /// with the private key. `None` if either step fails.
    pub open spec fn spec_open(&self, ciphertext_b64: Seq<char>) -> Option<Seq<u8>> {
        match base64_decoded(ciphertext_b64) {
            Some(ciphertext) => oaep_sha256_opened(self@, ciphertext),
            None => None,
        }
    }

    /// What `decrypt` answers: the plaintext, or one and the same error for
    /// every way of failing.
    pub open spec fn spec_decrypt(&self, ciphertext_b64: Seq<char>) -> Result<Seq<u8>, ApiError> {
        match self.spec_open(ciphertext_b64) {
            Some(plaintext) => Ok(plaintext),
            None => Err(ApiError::BadRequest(BadRequestReason::InvalidCiphertext)),
        }
    }

    /// Takes charge of a private key.
    pub fn new(key: rsa::RsaPrivateKey) -> (r: TransportCrypto)
        ensures
            r@ == private_key_der(key),
    {
        TransportCrypto { key }
    }

    /// Reads a private key from PEM text, PKCS#8 first and PKCS#1 second.
    pub fn from_pem(pem: &str) -> (r: Option<TransportCrypto>)
        ensures
            r matches Some(crypto) ==> pem_key(pem@) == Some(crypto@),
            r is None ==> pem_key(pem@) is None,
    {
        match parse_pkcs8_pem(pem) {
            Ok(key) => Some(TransportCrypto { key }),
            Err(_) => match parse_pkcs1_pem(pem) {
                Ok(key) => Some(TransportCrypto { key }),
                Err(_) => None,
            },
        }
    }

    /// The public key in PEM form.
    pub fn export_public_key(&self) -> (r: Result<String, ApiError>)
        ensures
            r matches Ok(pem) ==> self.spec_public_key() == Some(pem@),
            r matches Err(e) ==> self.spec_public_key() is None && e == ApiError::Internal(
                InternalReason::ExportPublicKey,
            ),
    {
        match encode_public_key_pem(&self.key) {
            Ok(pem) => Ok(pem),
            Err(_) => Err(ApiError::Internal(InternalReason::ExportPublicKey)),
        }
    }

    /// Opens an envelope. Every failure, whether of the base64 text or of the
    /// decryption, gives the same error.
    pub fn decrypt(&self, ciphertext_b64: &str) -> (r: Result<Vec<u8>, ApiError>)
        ensures
            r matches Ok(plaintext) ==> self.spec_decrypt(ciphertext_b64@) == Ok::<
                Seq<u8>,
                ApiError,
            >(plaintext@),
            r matches Err(e) ==> self.spec_decrypt(ciphertext_b64@) == Err::<Seq<u8>, ApiError>(e),
    {
        let ciphertext = match base64_decode(ciphertext_b64) {
            Ok(bytes) => bytes,
            Err(_) => {
                return Err(ApiError::BadRequest(BadRequestReason::InvalidCiphertext));
            },
        };
        match oaep_sha256_decrypt(&self.key, ciphertext.as_slice()) {
            Ok(plaintext) => Ok(plaintext),
            Err(_) => Err(ApiError::BadRequest(BadRequestReason::InvalidCiphertext)),
        }
    }
}

impl View for PublicKeyResponse {
    type V = (int, Seq<char>, Seq<char>);

    /// Status code, content type and body.
    open spec fn view(&self) -> (int, Seq<char>, Seq<char>) {
        (self.status as int, self.content_type@, self.body@)
    }
}

/// Answers a request for the public key: the PEM text as a PEM file, or an
/// internal error if the key cannot be encoded.
pub fn get_pubkey(crypto: &TransportCrypto) -> (r: Result<PublicKeyResponse, ApiError>)
    ensures
        r matches Ok(reply) ==> crypto.spec_public_key() matches Some(pem) && reply@ == (
            200int,
            "application/x-pem-file"@,
            pem,
        ),
        r matches Err(e) ==> crypto.spec_public_key() is None && e == ApiError::Internal(
            InternalReason::ExportPublicKey,
        ),
{
    match crypto.export_public_key() {
        Ok(pem) => Ok(
            PublicKeyResponse {
                status: 200,
                content_type: "application/x-pem-file".to_owned(),
                body: pem,
            },
        ),
        Err(e) => Err(e),
    }
}

/// Two envelopes that fail to open are answered alike, whatever made each
/// fail: the status and the message tell a caller nothing of the cause.
pub proof fn lemma_decrypt_failures_alike(crypto: TransportCrypto, a: Seq<char>, b: Seq<char>)
    requires
        crypto.spec_open(a) is None,
        crypto.spec_open(b) is None,
    ensures
        crypto.spec_decrypt(a) == crypto.spec_decrypt(b),
        crypto.spec_decrypt(a) matches Err(e) && e.spec_status() == 400 && e.spec_message()
            == "invalid ciphertext"@,
{
}

} // verus!
