//! The request pipeline, stage by stage: open the envelope, validate the
//! payload, authorize the principal, and conclude with or without a
//! certificate. Between the stages the host does what only it can do: it
//! parses the plaintext, asks the identity service, and runs the signer.

use crate::backend::{hs256_token, unix_now};
use crate::cert::{
    check_ssh_pubkey, has_known_prefix, invocation, prepare_ssh_user_cert,
    prepare_ssh_user_cert_fresh, validity, SignerInvocation, SignerInvocationView,
};
use crate::config::IssuerConfig;
use crate::error::{ApiError, BadRequestReason, InternalReason};
use crate::replay::{is_fresh, validate};
use crate::text::{text_of, trim, trimmed};
use crate::token::{claim_set, expiry, lifetime_fits, mint_with_expiry, minted};
use vstd::prelude::*;
use vstd::string::*;

verus! {

/// The plaintext of a request, as parsed by the host.
#[derive(Clone, Debug)]
pub struct AuthPayload {
    pub username: String,
    pub password: String,
    /// Unix seconds at which the client sealed the payload.
    pub ts: i64,
    /// An OpenSSH public key to certify, if the client wants a certificate.
    pub ssh_pubkey: Option<String>,
}

pub ghost struct AuthPayloadView {
    pub username: Seq<char>,
    pub password: Seq<char>,
    pub ts: int,
    pub ssh_pubkey: Option<Seq<char>>,
}

impl View for AuthPayload {
    type V = AuthPayloadView;

    open spec fn view(&self) -> AuthPayloadView {
        AuthPayloadView {
            username: self.username@,
            password: self.password@,
            ts: self.ts as int,
            ssh_pubkey: text_of(self.ssh_pubkey),
        }
    }
}

/// A payload that passed validation: the principal is the trimmed username,
/// and `now` is the clock reading that the whole request shares.
#[derive(Debug)]
pub struct Admitted {
    pub principal: String,
    pub password: String,
    pub ssh_pubkey: Option<String>,
    pub now: i64,
}

pub ghost struct AdmittedView {
    pub principal: Seq<char>,
    pub password: Seq<char>,
    pub ssh_pubkey: Option<Seq<char>>,
    pub now: int,
}

impl View for Admitted {
    type V = AdmittedView;

    open spec fn view(&self) -> AdmittedView {
        AdmittedView {
            principal: self.principal@,
            password: self.password@,
            ssh_pubkey: text_of(self.ssh_pubkey),
            now: self.now as int,
        }
    }
}

/// What the identity service answered.
#[derive(Clone, Copy, Debug, PartialEq, Eq, Structural)]
pub enum DelegateOutcome {
    /// The credential was accepted.
    Verified,
    /// The credential was refused.
    Rejected,
    /// No verification session could be set up.
    Unavailable,
}

/// The body of a successful response.
#[derive(Clone, Debug)]
pub struct TokenResponse {
    pub access_token: String,
    pub token_type: String,
    pub expires_in: i64,
    pub ssh_user_cert: Option<String>,
    pub ssh_user_cert_exp: Option<i64>,
}

pub ghost struct TokenResponseView {
    pub access_token: Seq<char>,
    pub token_type: Seq<char>,
    pub expires_in: int,
    pub ssh_user_cert: Option<Seq<char>>,
    pub ssh_user_cert_exp: Option<int>,
}

impl View for TokenResponse {
    type V = TokenResponseView;

    open spec fn view(&self) -> TokenResponseView {
        TokenResponseView {
            access_token: self.access_token@,
            token_type: self.token_type@,
            expires_in: self.expires_in as int,
            ssh_user_cert: text_of(self.ssh_user_cert),
            ssh_user_cert_exp: match self.ssh_user_cert_exp {
                Some(at) => Some(at as int),
                None => None,
            },
        }
    }
}

/// A certificate still to be issued for a granted request.
#[derive(Clone, Debug)]
pub struct CertRequest {
    pub principal: String,
    pub valid_after: i64,
    pub valid_before: i64,
    pub ssh_pubkey: String,
}

pub ghost struct CertRequestView {
    pub principal: Seq<char>,
    pub valid_after: int,
    pub valid_before: int,
    pub ssh_pubkey: Seq<char>,
}

impl View for CertRequest {
    type V = CertRequestView;

    open spec fn view(&self) -> CertRequestView {
        CertRequestView {
            principal: self.principal@,
            valid_after: self.valid_after as int,
            valid_before: self.valid_before as int,
            ssh_pubkey: self.ssh_pubkey@,
        }
    }
}

/// An authorized request: the token response as it stands without a
/// certificate, and the certificate to try for, if one was asked.
#[derive(Debug)]
pub struct Grant {
    pub response: TokenResponse,
    pub certificate: Option<CertRequest>,
}

pub ghost struct GrantView {
    pub response: TokenResponseView,
    pub certificate: Option<CertRequestView>,
}

impl View for Grant {
    type V = GrantView;

    open spec fn view(&self) -> GrantView {
        GrantView {
            response: self.response@,
            certificate: match self.certificate {
                Some(request) => Some(request@),
                None => None,
            },
        }
    }
}

/// First stage. The plaintext of the envelope, or one error for every way
/// the envelope can fail to open.
pub fn open_request(cfg: &IssuerConfig, ciphertext_b64: &str) -> (r: Result<Vec<u8>, ApiError>)
    ensures
        r matches Ok(plaintext) ==> cfg.transport.spec_decrypt(ciphertext_b64@) == Ok::<
            Seq<u8>,
            ApiError,
        >(plaintext@),
        r matches Err(e) ==> cfg.transport.spec_decrypt(ciphertext_b64@) == Err::<
            Seq<u8>,
            ApiError,
        >(e),
{
    cfg.transport.decrypt(ciphertext_b64)
}

/// What admission makes of a parsed payload at clock reading `now`.
///
/// A plaintext that did not parse is refused; so is a username that is blank
/// after trimming, an empty password, and a timestamp outside the window, in
/// this order.
pub open spec fn admitted(parsed: Option<AuthPayloadView>, now: int, window: int) -> Result<
    AdmittedView,
    ApiError,
> {
    match parsed {
        None => Err(ApiError::BadRequest(BadRequestReason::InvalidJson)),
        Some(payload) => if trimmed(payload.username).len() == 0 || payload.password.len() == 0 {
            Err(ApiError::BadRequest(BadRequestReason::MissingCredentials))
        } else if !is_fresh(payload.ts, now, window) {
            Err(ApiError::BadRequest(BadRequestReason::StaleTimestamp))
        } else {
            Ok(
                AdmittedView {
                    principal: trimmed(payload.username),
                    password: payload.password,
                    ssh_pubkey: payload.ssh_pubkey,
                    now,
                },
            )
        },
    }
}

/// The view of an optional payload.
pub open spec fn payload_of(parsed: Option<AuthPayload>) -> Option<AuthPayloadView> {
    match parsed {
        Some(payload) => Some(payload@),
        None => None,
    }
}

/// Second stage. Validates the parsed payload against the clock reading
/// `now`; `None` stands for a plaintext that did not parse.
pub fn validate_payload(parsed: Option<AuthPayload>, now: i64, window: i64) -> (r: Result<Admitted, ApiError>)
    ensures
        r matches Ok(a) ==> admitted(payload_of(parsed), now as int, window as int) == Ok::<
            AdmittedView,
            ApiError,
        >(a@),
        r matches Err(e) ==> admitted(payload_of(parsed), now as int, window as int) == Err::<
            AdmittedView,
            ApiError,
        >(e),
{
    let payload = match parsed {
        Some(payload) => payload,
        None => {
            return Err(ApiError::BadRequest(BadRequestReason::InvalidJson));
        },
    };
    let principal = trim(payload.username.as_str());
    if principal.as_str().unicode_len() == 0 || payload.password.as_str().unicode_len() == 0 {
        return Err(ApiError::BadRequest(BadRequestReason::MissingCredentials));
    }
    match validate(payload.ts, now, window) {
        Err(e) => Err(e),
        Ok(()) => Ok(
            Admitted {
                principal,
                password: payload.password,
                ssh_pubkey: payload.ssh_pubkey,
                now,
            },
        ),
    }
}

/// Second stage, reading the clock itself. Whatever the clock said, the
/// answer is the one `validate_payload` gives for that reading.
pub fn validate_payload_now(parsed: Option<AuthPayload>, window: i64) -> (r: Result<Admitted, ApiError>)
    ensures
        r matches Ok(a) ==> admitted(payload_of(parsed), a@.now, window as int) == Ok::<
            AdmittedView,
            ApiError,
        >(a@),
        r matches Err(e) ==> exists|now: i64|
            #[trigger] admitted(payload_of(parsed), now as int, window as int) == Err::<
                AdmittedView,
                ApiError,
            >(e),
{
    let now = unix_now();
    validate_payload(parsed, now, window)
}

/// What authorization makes of an admitted request and the identity
/// service's answer.
///
/// Anything but an accepted credential is an authentication failure. Then
/// the token is minted at the request's own clock reading. Last, a public
/// key without a known prefix is refused; with one, a certificate is asked
/// for the token's own lifetime.
pub open spec fn granted(
    secret: Seq<u8>,
    ttl_minutes: int,
    request: AdmittedView,
    outcome: DelegateOutcome,
) -> Result<GrantView, ApiError> {
    if outcome != DelegateOutcome::Verified {
        Err(ApiError::AuthFailed)
    } else {
        match minted(secret, request.principal, request.now, ttl_minutes) {
            Err(e) => Err(e),
            Ok(token) => {
                let response = TokenResponseView {
                    access_token: token,
                    token_type: "Bearer"@,
                    expires_in: ttl_minutes * 60,
                    ssh_user_cert: None,
                    ssh_user_cert_exp: None,
                };
                match request.ssh_pubkey {
                    None => Ok(GrantView { response, certificate: None }),
                    Some(key) => if has_known_prefix(key) {
                        Ok(
                            GrantView {
                                response,
                                certificate: Some(
                                    CertRequestView {
                                        principal: request.principal,
                                        valid_after: request.now,
                                        valid_before: expiry(request.now, ttl_minutes),
                                        ssh_pubkey: key,
                                    },
                                ),
                            },
                        )
                    } else {
                        Err(ApiError::BadRequest(BadRequestReason::InvalidSshPubkey))
                    },
                }
            },
        }
    }
}

/// Third stage. Turns the identity service's answer into a grant or an
/// error. The access token of a grant is never empty.
pub fn authorize(cfg: &IssuerConfig, request: Admitted, outcome: DelegateOutcome) -> (r: Result<
    Grant,
    ApiError,
>)
    ensures
        r matches Ok(grant) ==> granted(
            cfg.jwt_secret@,
            cfg.jwt_exp_minutes as int,
            request@,
            outcome,
        ) == Ok::<GrantView, ApiError>(grant@) && grant@.response.access_token.len() > 0,
        r matches Err(e) ==> granted(
            cfg.jwt_secret@,
            cfg.jwt_exp_minutes as int,
            request@,
            outcome,
        ) == Err::<GrantView, ApiError>(e),
{
    match outcome {
        DelegateOutcome::Verified => {},
        _ => {
            return Err(ApiError::AuthFailed);
        },
    }
    let m = match mint_with_expiry(
        cfg.jwt_secret.as_slice(),
        request.principal.as_str(),
        request.now,
        cfg.jwt_exp_minutes,
    ) {
        Ok(m) => m,
        Err(e) => {
            return Err(e);
        },
    };
    let response = TokenResponse {
        access_token: m.token,
        token_type: "Bearer".to_owned(),
        expires_in: m.expires_in,
        ssh_user_cert: None,
        ssh_user_cert_exp: None,
    };
    match request.ssh_pubkey {
        None => Ok(Grant { response, certificate: None }),
        Some(key) => match check_ssh_pubkey(key.as_str()) {
            Err(e) => Err(e),
            Ok(()) => Ok(
                Grant {
                    response,
                    certificate: Some(
                        CertRequest {
                            principal: request.principal,
                            valid_after: request.now,
                            valid_before: m.expires_at,
                            ssh_pubkey: key,
                        },
                    ),
                },
            ),
        },
    }
}

/// Plans the signer's run for the certificate of a grant, with the serial
/// made from `random`.
pub fn plan_certificate(cfg: &IssuerConfig, request: &CertRequest, random: u64, pubkey_path: &str)
    -> (r: Result<SignerInvocation, ApiError>)
    ensures
        r matches Ok(plan) ==> invocation(
            cfg.ca_key_path@,
            request@.principal,
            request@.valid_after,
            request@.valid_before,
            cfg.cert_extensions.deep_view(),
            cfg.serial_base as int,
            random as int,
            pubkey_path@,
        ) == Ok::<SignerInvocationView, ApiError>(plan@),
        r matches Err(e) ==> invocation(
            cfg.ca_key_path@,
            request@.principal,
            request@.valid_after,
            request@.valid_before,
            cfg.cert_extensions.deep_view(),
            cfg.serial_base as int,
            random as int,
            pubkey_path@,
        ) == Err::<SignerInvocationView, ApiError>(e),
{
    prepare_ssh_user_cert(
        cfg.ca_key_path.as_str(),
        request.principal.as_str(),
        request.valid_after,
        request.valid_before,
        &cfg.cert_extensions,
        cfg.serial_base,
        random,
        pubkey_path,
    )
}

/// Plans the signer's run with a serial drawn from the operating system.
pub fn plan_certificate_fresh(cfg: &IssuerConfig, request: &CertRequest, pubkey_path: &str) -> (r:
    Result<SignerInvocation, ApiError>)
    ensures
        r matches Ok(plan) ==> exists|random: u64|
            #[trigger] invocation(
                cfg.ca_key_path@,
                request@.principal,
                request@.valid_after,
                request@.valid_before,
                cfg.cert_extensions.deep_view(),
                cfg.serial_base as int,
                random as int,
                pubkey_path@,
            ) == Ok::<SignerInvocationView, ApiError>(plan@),
        r matches Err(e) ==> e == ApiError::Internal(InternalReason::Randomness) || e
            == ApiError::Internal(InternalReason::ValidityWindow),
        r == Err::<SignerInvocation, ApiError>(ApiError::Internal(InternalReason::ValidityWindow))
            ==> validity(request@.valid_after, request@.valid_before) is None,
        validity(request@.valid_after, request@.valid_before) is None ==> r is Err,
{
    let r = prepare_ssh_user_cert_fresh(
        cfg.ca_key_path.as_str(),
        request.principal.as_str(),
        request.valid_after,
        request.valid_before,
        &cfg.cert_extensions,
        cfg.serial_base,
        pubkey_path,
    );
    proof {
        if let Ok(plan) = &r {
            let random = choose|random: u64|
                #[trigger] invocation(
                    cfg.ca_key_path@,
                    request.principal@,
                    request.valid_after as int,
                    request.valid_before as int,
                    cfg.cert_extensions.deep_view(),
                    cfg.serial_base as int,
                    random as int,
                    pubkey_path@,
                ) == Ok::<SignerInvocationView, ApiError>(plan@);
            assert(invocation(
                cfg.ca_key_path@,
                request@.principal,
                request@.valid_after,
                request@.valid_before,
                cfg.cert_extensions.deep_view(),
                cfg.serial_base as int,
                random as int,
                pubkey_path@,
            ) == Ok::<SignerInvocationView, ApiError>(plan@));
        }
    }
    r
}

/// What a grant becomes once certificate issuance has ended. A certificate
/// is attached, with the token's expiry, only if one was asked and issued;
/// every failure leaves the token response as it was.
pub open spec fn concluded(grant: GrantView, issued: Result<Seq<char>, ApiError>)
    -> TokenResponseView {
    match (grant.certificate, issued) {
        (Some(request), Ok(certificate)) => TokenResponseView {
            access_token: grant.response.access_token,
            token_type: grant.response.token_type,
            expires_in: grant.response.expires_in,
            ssh_user_cert: Some(certificate),
            ssh_user_cert_exp: Some(request.valid_before),
        },
        _ => grant.response,
    }
}

/// The view of an issuance result.
pub open spec fn issued_of(issued: Result<String, ApiError>) -> Result<Seq<char>, ApiError> {
    match issued {
        Ok(certificate) => Ok(certificate@),
        Err(e) => Err(e),
    }
}

/// Last stage. Attaches the certificate if there is one. A failed issuance
/// never fails the request.
pub fn conclude(grant: Grant, issued: Result<String, ApiError>) -> (r: TokenResponse)
    ensures
        r@ == concluded(grant@, issued_of(issued)),
{
    match grant.certificate {
        None => grant.response,
        Some(request) => match issued {
            Err(_) => grant.response,
            Ok(certificate) => TokenResponse {
                access_token: grant.response.access_token,
                token_type: grant.response.token_type,
                expires_in: grant.response.expires_in,
                ssh_user_cert: Some(certificate),
                ssh_user_cert_exp: Some(request.valid_before),
            },
        },
    }
}

/// The whole pipeline as one function: of the request, the configuration,
/// and what the host parsed, read from the clock, heard from the identity
/// service and got from the signer. Each stage's failure ends the request,
/// except a failed certificate.
pub open spec fn issue_token(
    cfg: IssuerConfig,
    ciphertext_b64: Seq<char>,
    parsed: Option<AuthPayloadView>,
    now: int,
    outcome: DelegateOutcome,
    issued: Result<Seq<char>, ApiError>,
) -> Result<TokenResponseView, ApiError> {
    match cfg.transport.spec_decrypt(ciphertext_b64) {
        Err(e) => Err(e),
        Ok(_) => match admitted(parsed, now, cfg.max_payload_age_secs as int) {
            Err(e) => Err(e),
            Ok(request) => match granted(
                cfg.jwt_secret@,
                cfg.jwt_exp_minutes as int,
                request,
                outcome,
            ) {
                Err(e) => Err(e),
                Ok(grant) => Ok(concluded(grant, issued)),
            },
        },
    }
}

/// A payload carries a usable credential if its username is not blank and
/// its password is not empty.
pub open spec fn has_credentials(payload: AuthPayloadView) -> bool {
    trimmed(payload.username).len() > 0 && payload.password.len() > 0
}

/// A request that opens, parses, is fresh and is accepted by the identity
/// service succeeds whenever the token can be signed: the token is the one
/// signed over subject, issued-at and expiry, with the expiry a lifetime
/// after the clock reading, and `expires_in` is the lifetime in seconds.
pub proof fn lemma_valid_request_succeeds(
    cfg: IssuerConfig,
    ciphertext_b64: Seq<char>,
    payload: AuthPayloadView,
    now: int,
    issued: Result<Seq<char>, ApiError>,
    token: Seq<char>,
)
    requires
        cfg.transport.spec_open(ciphertext_b64) is Some,
        has_credentials(payload),
        is_fresh(payload.ts, now, cfg.max_payload_age_secs as int),
        payload.ssh_pubkey matches Some(key) ==> has_known_prefix(key),
        lifetime_fits(now, cfg.jwt_exp_minutes as int),
        hs256_token(
            cfg.jwt_secret@,
            claim_set(
                trimmed(payload.username),
                now,
                now + cfg.jwt_exp_minutes * 60,
            ),
        ) == Some(token),
        token.len() > 0,
    ensures
        issue_token(cfg, ciphertext_b64, Some(payload), now, DelegateOutcome::Verified, issued)
            matches Ok(response) && response.access_token == token && response.token_type
            == "Bearer"@ && response.expires_in == cfg.jwt_exp_minutes * 60,
{
}

/// An envelope that does not open is a malformed request with one fixed
/// message, whatever else the request held and whatever made it fail.
pub proof fn lemma_unopened_envelope_is_bad_request(
    cfg: IssuerConfig,
    ciphertext_b64: Seq<char>,
    parsed: Option<AuthPayloadView>,
    now: int,
    outcome: DelegateOutcome,
    issued: Result<Seq<char>, ApiError>,
)
    requires
        cfg.transport.spec_open(ciphertext_b64) is None,
    ensures
        issue_token(cfg, ciphertext_b64, parsed, now, outcome, issued) == Err::<
            TokenResponseView,
            ApiError,
        >(ApiError::BadRequest(BadRequestReason::InvalidCiphertext)),
        ApiError::BadRequest(BadRequestReason::InvalidCiphertext).spec_status() == 400,
{
}

/// A timestamp from the future or older than the window is a malformed
/// request even if the credential is good: the identity service's answer
/// does not matter.
pub proof fn lemma_stale_request_is_bad_request(
    cfg: IssuerConfig,
    ciphertext_b64: Seq<char>,
    payload: AuthPayloadView,
    now: int,
    outcome: DelegateOutcome,
    issued: Result<Seq<char>, ApiError>,
)
    requires
        cfg.transport.spec_open(ciphertext_b64) is Some,
        has_credentials(payload),
        now - payload.ts < 0 || now - payload.ts > cfg.max_payload_age_secs,
    ensures
        issue_token(cfg, ciphertext_b64, Some(payload), now, outcome, issued) == Err::<
            TokenResponseView,
            ApiError,
        >(ApiError::BadRequest(BadRequestReason::StaleTimestamp)),
        ApiError::BadRequest(BadRequestReason::StaleTimestamp).spec_status() == 400,
{
}

/// The replay window is inclusive. A payload exactly as old as the window is
/// admitted, with the trimmed username as principal; one a second older is
/// refused.
pub proof fn lemma_admission_boundary(payload: AuthPayloadView, now: int, window: int)
    requires
        window >= 0,
        has_credentials(payload),
    ensures
        now - payload.ts == window ==> (admitted(Some(payload), now, window) matches Ok(request)
            && request.principal == trimmed(payload.username)),
        now - payload.ts == window + 1 ==> admitted(Some(payload), now, window) == Err::<
            AdmittedView,
            ApiError,
        >(ApiError::BadRequest(BadRequestReason::StaleTimestamp)),
{
}

/// Whatever is admitted carries a usable credential: the principal is the
/// username without white space around it and is not empty, the password is
/// not empty, and the timestamp was fresh at the request's clock reading.
/// The identity service is never asked about anything else.
pub proof fn lemma_admitted_is_well_formed(
    parsed: Option<AuthPayloadView>,
    now: int,
    window: int,
)
    requires
        admitted(parsed, now, window) is Ok,
    ensures
        ({
            let request = admitted(parsed, now, window)->Ok_0;
            &&& parsed matches Some(payload) && request.principal == trimmed(payload.username)
                && request.password == payload.password && request.ssh_pubkey
                == payload.ssh_pubkey && is_fresh(payload.ts, now, window)
            &&& request.principal.len() > 0
            &&& request.password.len() > 0
            &&& request.now == now
            &&& window >= 0
        }),
{
}

/// A fresh, well-formed payload whose credential the identity service does
/// not accept is an authentication failure: status 401 and the one fixed
/// message, whether the credential was refused or the service could not be
/// reached.
pub proof fn lemma_refused_credential_is_auth_failed(
    cfg: IssuerConfig,
    ciphertext_b64: Seq<char>,
    payload: AuthPayloadView,
    now: int,
    outcome: DelegateOutcome,
    issued: Result<Seq<char>, ApiError>,
)
    requires
        cfg.transport.spec_open(ciphertext_b64) is Some,
        has_credentials(payload),
        is_fresh(payload.ts, now, cfg.max_payload_age_secs as int),
        outcome != DelegateOutcome::Verified,
    ensures
        issue_token(cfg, ciphertext_b64, Some(payload), now, outcome, issued) == Err::<
            TokenResponseView,
            ApiError,
        >(ApiError::AuthFailed),
        ApiError::AuthFailed.spec_status() == 401,
        ApiError::AuthFailed.spec_message() == "authentication failed"@,
{
}

/// A failed certificate never fails the request: the response is the one
/// granted, with its access token and without certificate fields.
pub proof fn lemma_failed_certificate_keeps_token(
    secret: Seq<u8>,
    ttl_minutes: int,
    request: AdmittedView,
    outcome: DelegateOutcome,
    failure: ApiError,
)
    requires
        granted(secret, ttl_minutes, request, outcome) is Ok,
    ensures
        ({
            let grant = granted(secret, ttl_minutes, request, outcome)->Ok_0;
            let response = concluded(grant, Err(failure));
            &&& response == grant.response
            &&& minted(secret, request.principal, request.now, ttl_minutes) == Ok::<
                Seq<char>,
                ApiError,
            >(response.access_token)
            &&& response.ssh_user_cert is None
            &&& response.ssh_user_cert_exp is None
        }),
{
}

/// A certificate is attached only together with its expiry, and that is the
/// expiry of the token.
pub proof fn lemma_certificate_expires_with_token(
    secret: Seq<u8>,
    ttl_minutes: int,
    request: AdmittedView,
    outcome: DelegateOutcome,
    issued: Result<Seq<char>, ApiError>,
)
    requires
        granted(secret, ttl_minutes, request, outcome) is Ok,
    ensures
        ({
            let grant = granted(secret, ttl_minutes, request, outcome)->Ok_0;
            let response = concluded(grant, issued);
            &&& response.ssh_user_cert is Some <==> response.ssh_user_cert_exp is Some
            &&& response.ssh_user_cert is Some <==> request.ssh_pubkey is Some && issued is Ok
            &&& response.ssh_user_cert_exp matches Some(at) ==> at == expiry(
                request.now,
                ttl_minutes,
            )
        }),
{
}

/// The signer is never asked about a key without a known prefix. If the
/// credential is good and the token is minted, such a key is a malformed
/// request; in no case does a grant carry a certificate request for it.
pub proof fn lemma_unknown_key_never_reaches_signer(
    secret: Seq<u8>,
    ttl_minutes: int,
    request: AdmittedView,
    outcome: DelegateOutcome,
)
    ensures
        granted(secret, ttl_minutes, request, outcome) matches Ok(grant) ==> (
        grant.certificate matches Some(asked) ==> has_known_prefix(asked.ssh_pubkey)
            && request.ssh_pubkey == Some(asked.ssh_pubkey)),
        request.ssh_pubkey matches Some(key) ==> (!has_known_prefix(key) && outcome
            == DelegateOutcome::Verified && minted(
            secret,
            request.principal,
            request.now,
            ttl_minutes,
        ) is Ok ==> granted(secret, ttl_minutes, request, outcome) == Err::<GrantView, ApiError>(
            ApiError::BadRequest(BadRequestReason::InvalidSshPubkey),
        )),
{
}

/// Requests are independent. The token of a granted request is the one
/// minted for its own principal at its own clock reading, and it is not
/// empty; nothing of any other request enters it.
pub proof fn lemma_token_is_its_own(
    secret: Seq<u8>,
    ttl_minutes: int,
    request: AdmittedView,
    outcome: DelegateOutcome,
)
    requires
        granted(secret, ttl_minutes, request, outcome) is Ok,
    ensures
        outcome == DelegateOutcome::Verified,
        lifetime_fits(request.now, ttl_minutes),
        hs256_token(
            secret,
            claim_set(request.principal, request.now, expiry(request.now, ttl_minutes)),
        ) == Some(granted(secret, ttl_minutes, request, outcome)->Ok_0.response.access_token),
        granted(secret, ttl_minutes, request, outcome)->Ok_0.response.access_token.len() > 0,
        granted(secret, ttl_minutes, request, outcome)->Ok_0.response.expires_in == ttl_minutes
            * 60,
{
}

/// Every stage's failure ends the request with that stage's error, in stage
/// order: the envelope first, then the payload, then authorization.
pub proof fn lemma_stage_order(
    cfg: IssuerConfig,
    ciphertext_b64: Seq<char>,
    parsed: Option<AuthPayloadView>,
    now: int,
    outcome: DelegateOutcome,
    issued: Result<Seq<char>, ApiError>,
)
    ensures
        ({
            let result = issue_token(cfg, ciphertext_b64, parsed, now, outcome, issued);
            let opened = cfg.transport.spec_decrypt(ciphertext_b64);
            let request = admitted(parsed, now, cfg.max_payload_age_secs as int);
            &&& opened matches Err(e) ==> result == Err::<TokenResponseView, ApiError>(e)
            &&& opened is Ok ==> (request matches Err(e) ==> result == Err::<
                TokenResponseView,
                ApiError,
            >(e))
            &&& opened is Ok ==> (request matches Ok(a) ==> (granted(
                cfg.jwt_secret@,
                cfg.jwt_exp_minutes as int,
                a,
                outcome,
            ) matches Err(e) ==> result == Err::<TokenResponseView, ApiError>(e)))
            &&& result is Ok ==> opened is Ok && request is Ok && outcome
                == DelegateOutcome::Verified
        }),
{
}

} // verus!
