//! The public error taxonomy: three kinds, each with a status code and a
//! message drawn from a small fixed vocabulary.

use vstd::prelude::*;

verus! {

/// Why a request was refused as malformed.
#[derive(Clone, Copy, Debug, PartialEq, Eq, Structural)]
pub enum BadRequestReason {
    /// The envelope could not be decoded or decrypted (one reason for every cause).
    InvalidCiphertext,
    /// The decrypted plaintext was not the expected JSON object.
    InvalidJson,
    /// The username was blank after trimming, or the password was empty.
    MissingCredentials,
    /// The timestamp lies in the future or is older than the replay window.
    StaleTimestamp,
    /// The supplied SSH public key has no recognised key-type prefix.
    InvalidSshPubkey,
}

/// What failed inside the service. Only ever logged, never sent to a caller.
#[derive(Clone, Copy, Debug, PartialEq, Eq, Structural)]
pub enum InternalReason {
    ExportPublicKey,
    TokenLifetime,
    TokenSigning,
    TempFile,
    TempWrite,
    Randomness,
    ValidityWindow,
    SignerSpawn,
    SignerFailed,
    ReadCertificate,
}

/// The three public kinds of failure.
#[derive(Clone, Copy, Debug, PartialEq, Eq, Structural)]
pub enum ErrorKind {
    BadRequest,
    AuthFailed,
    Internal,
}

/// A failure of the request pipeline.
#[derive(Clone, Copy, Debug, PartialEq, Eq, Structural)]
pub enum ApiError {
    BadRequest(BadRequestReason),
    AuthFailed,
    Internal(InternalReason),
}

/// The flat body of every error response.
#[derive(Clone, Debug)]
pub struct ErrorMessage {
    pub error: String,
}

/// An error as it leaves the service: a status code and a flat body.
#[derive(Clone, Debug)]
pub struct ErrorResponse {
    pub status: u16,
    pub body: ErrorMessage,
}

impl BadRequestReason {
    /// The text sent to the caller for this reason.
    pub open spec fn spec_message(self) -> Seq<char> {
        match self {
            BadRequestReason::InvalidCiphertext => "invalid ciphertext"@,
            BadRequestReason::InvalidJson => "invalid decrypted json"@,
            BadRequestReason::MissingCredentials => "username and password are required"@,
            BadRequestReason::StaleTimestamp => "stale or future timestamp"@,
            BadRequestReason::InvalidSshPubkey => "invalid ssh_pubkey"@,
        }
    }

    pub fn message(self) -> (m: &'static str)
        ensures
            m@ == self.spec_message(),
    {
        match self {
            BadRequestReason::InvalidCiphertext => "invalid ciphertext",
            BadRequestReason::InvalidJson => "invalid decrypted json",
            BadRequestReason::MissingCredentials => "username and password are required",
            BadRequestReason::StaleTimestamp => "stale or future timestamp",
            BadRequestReason::InvalidSshPubkey => "invalid ssh_pubkey",
        }
    }
}

impl InternalReason {
    /// A short label for the service's own log.
    pub open spec fn spec_label(self) -> Seq<char> {
        match self {
            InternalReason::ExportPublicKey => "export public key"@,
            InternalReason::TokenLifetime => "jwt lifetime"@,
            InternalReason::TokenSigning => "jwt encode"@,
            InternalReason::TempFile => "tmpfile"@,
            InternalReason::TempWrite => "tmp write"@,
            InternalReason::Randomness => "serial randomness"@,
            InternalReason::ValidityWindow => "validity window"@,
            InternalReason::SignerSpawn => "ssh-keygen spawn"@,
            InternalReason::SignerFailed => "ssh-keygen failed"@,
            InternalReason::ReadCertificate => "read cert"@,
        }
    }

    pub fn label(self) -> (m: &'static str)
        ensures
            m@ == self.spec_label(),
    {
        match self {
            InternalReason::ExportPublicKey => "export public key",
            InternalReason::TokenLifetime => "jwt lifetime",
            InternalReason::TokenSigning => "jwt encode",
            InternalReason::TempFile => "tmpfile",
            InternalReason::TempWrite => "tmp write",
            InternalReason::Randomness => "serial randomness",
            InternalReason::ValidityWindow => "validity window",
            InternalReason::SignerSpawn => "ssh-keygen spawn",
            InternalReason::SignerFailed => "ssh-keygen failed",
            InternalReason::ReadCertificate => "read cert",
        }
    }
}

impl View for ErrorResponse {
    type V = (int, Seq<char>);

    /// The status code and the message of the body.
    open spec fn view(&self) -> (int, Seq<char>) {
        (self.status as int, self.body.error@)
    }
}

impl ApiError {
    pub open spec fn spec_kind(self) -> ErrorKind {
        match self {
            ApiError::BadRequest(_) => ErrorKind::BadRequest,
            ApiError::AuthFailed => ErrorKind::AuthFailed,
            ApiError::Internal(_) => ErrorKind::Internal,
        }
    }

    /// 400 for a malformed request, 401 for a refused credential, 500 otherwise.
    pub open spec fn spec_status(self) -> int {
        match self {
            ApiError::BadRequest(_) => 400,
            ApiError::AuthFailed => 401,
            ApiError::Internal(_) => 500,
        }
    }

    /// The message a caller sees. A refused credential and an internal failure
    /// each have one fixed text, whatever the cause.
    pub open spec fn spec_message(self) -> Seq<char> {
        match self {
            ApiError::BadRequest(reason) => reason.spec_message(),
            ApiError::AuthFailed => "authentication failed"@,
            ApiError::Internal(_) => "internal error"@,
        }
    }

    pub fn kind(self) -> (k: ErrorKind)
        ensures
            k == self.spec_kind(),
    {
        match self {
            ApiError::BadRequest(_) => ErrorKind::BadRequest,
            ApiError::AuthFailed => ErrorKind::AuthFailed,
            ApiError::Internal(_) => ErrorKind::Internal,
        }
    }

    pub fn status_code(self) -> (code: u16)
        ensures
            code == self.spec_status(),
    {
        match self {
            ApiError::BadRequest(_) => 400,
            ApiError::AuthFailed => 401,
            ApiError::Internal(_) => 500,
        }
    }

    pub fn message(self) -> (m: &'static str)
        ensures
            m@ == self.spec_message(),
    {
        match self {
            ApiError::BadRequest(reason) => reason.message(),
            ApiError::AuthFailed => "authentication failed",
            ApiError::Internal(_) => "internal error",
        }
    }

    /// The response that carries this error to the caller.
    pub fn into_response(self) -> (r: ErrorResponse)
        ensures
            r@ == (self.spec_status(), self.spec_message()),
    {
        ErrorResponse {
            status: self.status_code(),
            body: ErrorMessage { error: self.message().to_owned() },
        }
    }
}

/// Two errors of one kind that are not malformed-request errors look the same
/// from outside: the cause of a refused credential or of an internal failure
/// never reaches the caller.
pub proof fn lemma_cause_is_hidden(a: ApiError, b: ApiError)
    requires
        a.spec_kind() == b.spec_kind(),
        a.spec_kind() != ErrorKind::BadRequest,
    ensures
        a.spec_status() == b.spec_status(),
        a.spec_message() == b.spec_message(),
{
}

} // verus!
