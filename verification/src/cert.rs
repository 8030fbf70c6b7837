//! SSH login certificates: what the certificate-authority signer is asked to
//! do, and what is made of its answer. The signer itself, and the temporary
//! file it reads, belong to the host.

use crate::backend::{format_utc, os_random_u64, utc_formatted};
use crate::error::{ApiError, BadRequestReason, InternalReason};
use crate::text::{
    all_digits, decimal, decimal_i64, decimal_u64, is_all_digits, is_digit, signed_decimal,
    starts_with, trim_end, trimmed_end,
};
use vstd::prelude::*;
use vstd::string::*;

verus! {

/// A public key is taken for an OpenSSH key if it begins with a known
/// key-type prefix. Nothing deeper is checked: the signer is the authority.
pub open spec fn has_known_prefix(key: Seq<char>) -> bool {
    ||| "ssh-ed25519 "@.is_prefix_of(key)
    ||| "ssh-rsa "@.is_prefix_of(key)
    ||| "sk-"@.is_prefix_of(key)
}

pub fn looks_like_ssh_pubkey(key: &str) -> (b: bool)
    ensures
        b == has_known_prefix(key@),
{
    starts_with(key, "ssh-ed25519 ") || starts_with(key, "ssh-rsa ") || starts_with(key, "sk-")
}

/// The check made before anything is handed to the signer.
pub fn check_ssh_pubkey(key: &str) -> (r: Result<(), ApiError>)
    ensures
        has_known_prefix(key@) ==> r == Ok::<(), ApiError>(()),
        !has_known_prefix(key@) ==> r == Err::<(), ApiError>(
            ApiError::BadRequest(BadRequestReason::InvalidSshPubkey),
        ),
{
    if looks_like_ssh_pubkey(key) {
        Ok(())
    } else {
        Err(ApiError::BadRequest(BadRequestReason::InvalidSshPubkey))
    }
}

/// A serial is the configured base plus a random 64-bit value, wrapping on
/// overflow.
pub open spec fn serial_for(base: int, random: int) -> int {
    (base + random) % 0x1_0000_0000_0000_0000
}

pub fn derive_serial(base: u64, random: u64) -> (serial: u64)
    ensures
        serial == serial_for(base as int, random as int),
{
    base.wrapping_add(random)
}

/// A UTC instant in the signer's compact form: year, month, day, hour,
/// minute and second as fourteen digits with no separators. An instant
/// that does not format to fourteen digits has no compact form.
pub open spec fn compact_utc(unix: int) -> Option<Seq<char>> {
    match utc_formatted(unix, "[year][month][day][hour][minute][second]"@) {
        Some(text) => if text.len() == 14 && all_digits(text) {
            Some(text)
        } else {
            None
        },
        None => None,
    }
}

/// Formats a UTC instant, given in Unix seconds, for the signer. `None` if
/// the instant has no compact form.
pub fn fmt_utc(unix: i64) -> (r: Option<String>)
    ensures
        r matches Some(text) ==> compact_utc(unix as int) == Some(text@),
        r is None ==> compact_utc(unix as int) is None,
{
    match format_utc(unix, "[year][month][day][hour][minute][second]") {
        Ok(text) => if text.as_str().unicode_len() == 14 && is_all_digits(text.as_str()) {
            Some(text)
        } else {
            None
        },
        Err(_) => None,
    }
}

/// The validity interval as the signer reads it: start and end in compact
/// form, joined by a colon.
pub open spec fn validity(valid_after: int, valid_before: int) -> Option<Seq<char>> {
    match (compact_utc(valid_after), compact_utc(valid_before)) {
        (Some(from), Some(to)) => Some(from + seq![':'] + to),
        _ => None,
    }
}

pub fn validity_window(valid_after: i64, valid_before: i64) -> (r: Option<String>)
    ensures
        r matches Some(text) ==> validity(valid_after as int, valid_before as int) == Some(text@),
        r is None ==> validity(valid_after as int, valid_before as int) is None,
{
    let from = match fmt_utc(valid_after) {
        Some(text) => text,
        None => {
            return None;
        },
    };
    let to = match fmt_utc(valid_before) {
        Some(text) => text,
        None => {
            return None;
        },
    };
    let mut window = from;
    proof {
        reveal_strlit(":");
    }
    window.append(":");
    window.append(to.as_str());
    assert(window@ =~= compact_utc(valid_after as int)->0 + seq![':'] + to@);
    Some(window)
}

/// The identifier written to the signer's audit field: a fixed prefix, the
/// principal and the start of the validity interval in Unix seconds.
pub open spec fn identifier(principal: Seq<char>, valid_after: int) -> Seq<char> {
    "pam-jwt-issuer:"@ + principal + seq![':'] + signed_decimal(valid_after)
}

pub fn key_id(principal: &str, valid_after: i64) -> (id: String)
    ensures
        id@ == identifier(principal@, valid_after as int),
{
    let mut id = "pam-jwt-issuer:".to_owned();
    id.append(principal);
    proof {
        reveal_strlit(":");
    }
    id.append(":");
    let start = decimal_i64(valid_after);
    id.append(start.as_str());
    assert(id@ =~= identifier(principal@, valid_after as int));
    id
}

/// Where the signer leaves the certificate: beside the public-key file,
/// under its name with `-cert.pub` appended.
pub open spec fn certificate_path_of(pubkey_path: Seq<char>) -> Seq<char> {
    pubkey_path + "-cert.pub"@
}

pub fn certificate_path(pubkey_path: &str) -> (path: String)
    ensures
        path@ == certificate_path_of(pubkey_path@),
{
    let mut path = pubkey_path.to_owned();
    path.append("-cert.pub");
    path
}

/// One `-O` flag for each extension that is not empty, in order.
pub open spec fn extension_flags(extensions: Seq<Seq<char>>) -> Seq<Seq<char>>
    decreases extensions.len(),
{
    if extensions.len() == 0 {
        seq![]
    } else if extensions.last().len() == 0 {
        extension_flags(extensions.drop_last())
    } else {
        extension_flags(extensions.drop_last()) + seq!["-O"@, extensions.last()]
    }
}

/// The signer's argument list: CA key, identifier, principal as the only
/// login name, validity interval, serial, extension flags, and last the
/// public-key file.
pub open spec fn signer_arguments(
    ca_key_path: Seq<char>,
    principal: Seq<char>,
    valid_after: int,
    window: Seq<char>,
    serial: nat,
    extensions: Seq<Seq<char>>,
    pubkey_path: Seq<char>,
) -> Seq<Seq<char>> {
    seq![
        "-s"@,
        ca_key_path,
        "-I"@,
        identifier(principal, valid_after),
        "-n"@,
        principal,
        "-V"@,
        window,
        "-z"@,
        decimal(serial),
    ] + extension_flags(extensions) + seq![pubkey_path]
}

/// What the host is to run, and where it will find the certificate.
#[derive(Debug)]
pub struct SignerInvocation {
    pub program: String,
    pub args: Vec<String>,
    pub cert_path: String,
}

/// A signer invocation as the contracts see it.
pub ghost struct SignerInvocationView {
    pub program: Seq<char>,
    pub args: Seq<Seq<char>>,
    pub cert_path: Seq<char>,
}

impl View for SignerInvocation {
    type V = SignerInvocationView;

    open spec fn view(&self) -> SignerInvocationView {
        SignerInvocationView {
            program: self.program@,
            args: self.args.deep_view(),
            cert_path: self.cert_path@,
        }
    }
}

/// The invocation that issues a certificate for `principal`, valid from
/// `valid_after` to `valid_before`, on the public key stored at
/// `pubkey_path`. An error if the interval cannot be written.
pub open spec fn invocation(
    ca_key_path: Seq<char>,
    principal: Seq<char>,
    valid_after: int,
    valid_before: int,
    extensions: Seq<Seq<char>>,
    serial_base: int,
    random: int,
    pubkey_path: Seq<char>,
) -> Result<SignerInvocationView, ApiError> {
    match validity(valid_after, valid_before) {
        None => Err(ApiError::Internal(InternalReason::ValidityWindow)),
        Some(window) => Ok(
            SignerInvocationView {
                program: "ssh-keygen"@,
                args: signer_arguments(
                    ca_key_path,
                    principal,
                    valid_after,
                    window,
                    serial_for(serial_base, random) as nat,
                    extensions,
                    pubkey_path,
                ),
                cert_path: certificate_path_of(pubkey_path),
            },
        ),
    }
}

fn push_text(args: &mut Vec<String>, text: &str)
    ensures
        final(args).deep_view() == old(args).deep_view().push(text@),
{
    args.push(text.to_owned());
    assert(args.deep_view() =~= old(args).deep_view().push(text@));
}

fn push_extension_flags(args: &mut Vec<String>, extensions: &Vec<String>)
    ensures
        final(args).deep_view() == old(args).deep_view() + extension_flags(
            extensions.deep_view(),
        ),
{
    let ghost before = args.deep_view();
    let ghost all = extensions.deep_view();
    let mut i: usize = 0;
    assert(all.take(0) =~= Seq::<Seq<char>>::empty());
    assert(args.deep_view() =~= before + extension_flags(all.take(0)));
    while i < extensions.len()
        invariant
            i <= extensions.len(),
            all == extensions.deep_view(),
            args.deep_view() == before + extension_flags(all.take(i as int)),
        decreases extensions.len() - i,
    {
        let ghost prefix = all.take(i as int);
        let ghost next = all.take(i + 1);
        assert(next.drop_last() =~= prefix);
        assert(next.last() == extensions[i as int]@);
        let extension = extensions[i].as_str();
        if extension.unicode_len() > 0 {
            push_text(args, "-O");
            push_text(args, extension);
            assert(args.deep_view() =~= before + extension_flags(next));
        }
        i = i + 1;
    }
    assert(all.take(extensions.len() as int) =~= all);
}

/// Plans the signer's run for a certificate. The serial is the base plus
/// `random`, wrapping.
pub fn prepare_ssh_user_cert(
    ca_key_path: &str,
    principal: &str,
    valid_after: i64,
    valid_before: i64,
    extensions: &Vec<String>,
    serial_base: u64,
    random: u64,
    pubkey_path: &str,
) -> (r: Result<SignerInvocation, ApiError>)
    ensures
        r matches Ok(plan) ==> invocation(
            ca_key_path@,
            principal@,
            valid_after as int,
            valid_before as int,
            extensions.deep_view(),
            serial_base as int,
            random as int,
            pubkey_path@,
        ) == Ok::<SignerInvocationView, ApiError>(plan@),
        r matches Err(e) ==> invocation(
            ca_key_path@,
            principal@,
            valid_after as int,
            valid_before as int,
            extensions.deep_view(),
            serial_base as int,
            random as int,
            pubkey_path@,
        ) == Err::<SignerInvocationView, ApiError>(e),
{
    let window = match validity_window(valid_after, valid_before) {
        Some(text) => text,
        None => {
            return Err(ApiError::Internal(InternalReason::ValidityWindow));
        },
    };
    let serial = derive_serial(serial_base, random);
    let id = key_id(principal, valid_after);
    let serial_text = decimal_u64(serial);
    let mut args: Vec<String> = Vec::new();
    assert(args.deep_view() =~= Seq::<Seq<char>>::empty());
    push_text(&mut args, "-s");
    push_text(&mut args, ca_key_path);
    push_text(&mut args, "-I");
    push_text(&mut args, id.as_str());
    push_text(&mut args, "-n");
    push_text(&mut args, principal);
    push_text(&mut args, "-V");
    push_text(&mut args, window.as_str());
    push_text(&mut args, "-z");
    push_text(&mut args, serial_text.as_str());
    push_extension_flags(&mut args, extensions);
    push_text(&mut args, pubkey_path);
    let plan = SignerInvocation {
        program: "ssh-keygen".to_owned(),
        args,
        cert_path: certificate_path(pubkey_path),
    };
    assert(plan@.args =~= signer_arguments(
        ca_key_path@,
        principal@,
        valid_after as int,
        window@,
        serial as nat,
        extensions.deep_view(),
        pubkey_path@,
    ));
    Ok(plan)
}

/// Plans the signer's run with a serial drawn from the operating system's
/// random source. Whatever was drawn, the plan is the one
/// `prepare_ssh_user_cert` makes of it; if nothing could be drawn, the
/// failure is internal.
pub fn prepare_ssh_user_cert_fresh(
    ca_key_path: &str,
    principal: &str,
    valid_after: i64,
    valid_before: i64,
    extensions: &Vec<String>,
    serial_base: u64,
    pubkey_path: &str,
) -> (r: Result<SignerInvocation, ApiError>)
    ensures
        r matches Ok(plan) ==> exists|random: u64|
            #[trigger] invocation(
                ca_key_path@,
                principal@,
                valid_after as int,
                valid_before as int,
                extensions.deep_view(),
                serial_base as int,
                random as int,
                pubkey_path@,
            ) == Ok::<SignerInvocationView, ApiError>(plan@),
        r matches Err(e) ==> e == ApiError::Internal(InternalReason::Randomness) || e
            == ApiError::Internal(InternalReason::ValidityWindow),
        r == Err::<SignerInvocation, ApiError>(ApiError::Internal(InternalReason::ValidityWindow))
            ==> validity(valid_after as int, valid_before as int) is None,
        validity(valid_after as int, valid_before as int) is None ==> r is Err,
{
    match os_random_u64() {
        Err(_) => Err(ApiError::Internal(InternalReason::Randomness)),
        Ok(random) => prepare_ssh_user_cert(
            ca_key_path,
            principal,
            valid_after,
            valid_before,
            extensions,
            serial_base,
            random,
            pubkey_path,
        ),
    }
}

/// What the host saw when it tried to run the signer.
#[derive(Clone, Debug)]
pub enum SignerOutcome {
    /// No temporary file could be created for the public key.
    TempFileFailed,
    /// The public key could not be written to the temporary file.
    TempWriteFailed,
    /// The signer could not be started.
    SpawnFailed,
    /// The signer ran and exited with a failure status.
    ExitFailure,
    /// The signer succeeded but left no readable certificate.
    CertificateUnreadable,
    /// The signer succeeded; this is the text of the certificate file.
    Signed(String),
}

/// A signer outcome as the contracts see it.
pub ghost enum SignerOutcomeView {
    TempFileFailed,
    TempWriteFailed,
    SpawnFailed,
    ExitFailure,
    CertificateUnreadable,
    Signed(Seq<char>),
}

impl View for SignerOutcome {
    type V = SignerOutcomeView;

    open spec fn view(&self) -> SignerOutcomeView {
        match self {
            SignerOutcome::TempFileFailed => SignerOutcomeView::TempFileFailed,
            SignerOutcome::TempWriteFailed => SignerOutcomeView::TempWriteFailed,
            SignerOutcome::SpawnFailed => SignerOutcomeView::SpawnFailed,
            SignerOutcome::ExitFailure => SignerOutcomeView::ExitFailure,
            SignerOutcome::CertificateUnreadable => SignerOutcomeView::CertificateUnreadable,
            SignerOutcome::Signed(text) => SignerOutcomeView::Signed(text@),
        }
    }
}

/// The certificate a signer outcome amounts to: the file's text without
/// trailing white space, or an internal error that names what went wrong.
pub open spec fn certificate_of(outcome: SignerOutcomeView) -> Result<Seq<char>, ApiError> {
    match outcome {
        SignerOutcomeView::TempFileFailed => Err(ApiError::Internal(InternalReason::TempFile)),
        SignerOutcomeView::TempWriteFailed => Err(ApiError::Internal(InternalReason::TempWrite)),
        SignerOutcomeView::SpawnFailed => Err(ApiError::Internal(InternalReason::SignerSpawn)),
        SignerOutcomeView::ExitFailure => Err(ApiError::Internal(InternalReason::SignerFailed)),
        SignerOutcomeView::CertificateUnreadable => Err(
            ApiError::Internal(InternalReason::ReadCertificate),
        ),
        SignerOutcomeView::Signed(text) => Ok(trimmed_end(text)),
    }
}

/// Turns what the host saw into a certificate or an internal error.
pub fn finish_ssh_user_cert(outcome: &SignerOutcome) -> (r: Result<String, ApiError>)
    ensures
        r matches Ok(cert) ==> certificate_of(outcome@) == Ok::<Seq<char>, ApiError>(cert@),
        r matches Err(e) ==> certificate_of(outcome@) == Err::<Seq<char>, ApiError>(e),
{
    match outcome {
        SignerOutcome::TempFileFailed => Err(ApiError::Internal(InternalReason::TempFile)),
        SignerOutcome::TempWriteFailed => Err(ApiError::Internal(InternalReason::TempWrite)),
        SignerOutcome::SpawnFailed => Err(ApiError::Internal(InternalReason::SignerSpawn)),
        SignerOutcome::ExitFailure => Err(ApiError::Internal(InternalReason::SignerFailed)),
        SignerOutcome::CertificateUnreadable => Err(
            ApiError::Internal(InternalReason::ReadCertificate),
        ),
        SignerOutcome::Signed(text) => Ok(trim_end(text.as_str())),
    }
}

/// A validity interval is twenty-nine characters: fourteen digits, a colon,
/// and fourteen digits.
pub proof fn lemma_validity_shape(valid_after: int, valid_before: int)
    requires
        validity(valid_after, valid_before) is Some,
    ensures
        ({
            let window = validity(valid_after, valid_before)->0;
            &&& window.len() == 29
            &&& window[14] == ':'
            &&& forall|i: int| 0 <= i < 29 && i != 14 ==> is_digit(#[trigger] window[i])
            &&& window.take(14) == compact_utc(valid_after)->0
            &&& window.skip(15) == compact_utc(valid_before)->0
        }),
{
    let from = compact_utc(valid_after)->0;
    let to = compact_utc(valid_before)->0;
    let window = validity(valid_after, valid_before)->0;
    assert(window == from + seq![':'] + to);
    assert forall|i: int| 0 <= i < 29 && i != 14 implies is_digit(#[trigger] window[i]) by {
        if i < 14 {
            assert(window[i] == from[i]);
        } else {
            assert(window[i] == to[i - 15]);
        }
    }
    assert(window.take(14) =~= from);
    assert(window.skip(15) =~= to);
}

/// Every failure of certificate issuance is internal: none is ever blamed on
/// the caller or on the credential.
pub proof fn lemma_certificate_failures_are_internal(outcome: SignerOutcomeView)
    ensures
        certificate_of(outcome) matches Err(e) ==> e.spec_status() == 500 && e.spec_message()
            == "internal error"@,
        certificate_of(outcome) is Ok <==> outcome is Signed,
{
}

/// Extensions that are empty add nothing to the argument list, and the
/// public-key file is always the last argument.
pub proof fn lemma_signer_arguments_shape(
    ca_key_path: Seq<char>,
    principal: Seq<char>,
    valid_after: int,
    window: Seq<char>,
    serial: nat,
    extensions: Seq<Seq<char>>,
    pubkey_path: Seq<char>,
)
    ensures
        signer_arguments(
            ca_key_path,
            principal,
            valid_after,
            window,
            serial,
            extensions,
            pubkey_path,
        ).last() == pubkey_path,
        signer_arguments(
            ca_key_path,
            principal,
            valid_after,
            window,
            serial,
            extensions.push(Seq::<char>::empty()),
            pubkey_path,
        ) == signer_arguments(
            ca_key_path,
            principal,
            valid_after,
            window,
            serial,
            extensions,
            pubkey_path,
        ),
{
    let more = extensions.push(Seq::<char>::empty());
    assert(more.drop_last() =~= extensions);
    assert(extension_flags(more) == extension_flags(extensions));
}

} // verus!
