//! The process-wide configuration: built once at start, read by every
//! request, never changed.

use crate::text::{
    comma_list, parse_i64, parse_u64, parsed_i64, parsed_u64, split_comma_list, text_of,
};
use crate::transport::TransportCrypto;
use vstd::prelude::*;

verus! {

/// Everything a request needs besides its own input.
pub struct IssuerConfig {
    /// The symmetric secret that signs access tokens. It is unrelated to the
    /// transport key pair.
    pub jwt_secret: Vec<u8>,
    /// The transport key pair.
    pub transport: TransportCrypto,
    /// How long an access token lives, in minutes.
    pub jwt_exp_minutes: i64,
    /// The name under which the identity service is addressed.
    pub pam_service: String,
    /// The replay window, in seconds.
    pub max_payload_age_secs: i64,
    /// The path of the certificate authority's private key.
    pub ca_key_path: String,
    /// The extensions written into every certificate.
    pub cert_extensions: Vec<String>,
    /// The base to which a random value is added for each serial.
    pub serial_base: u64,
    /// The directory for the signer's temporary files.
    pub scratch_dir: String,
}

/// The settings as the host found them, each still text and each optional.
#[derive(Clone, Debug)]
pub struct Settings {
    pub jwt_key_path: Option<String>,
    pub rsa_private_key_path: Option<String>,
    pub jwt_expire_minutes: Option<String>,
    pub pam_service: Option<String>,
    pub max_payload_age_secs: Option<String>,
    pub bind_addr: Option<String>,
    pub ssh_ca_key_path: Option<String>,
    pub ssh_cert_extensions: Option<String>,
    pub ssh_cert_serial_base: Option<String>,
    pub ssh_cert_tmp_dir: Option<String>,
}

/// A text setting, or its default if it is not set.
pub open spec fn text_or(value: Option<Seq<char>>, default: Seq<char>) -> Seq<char> {
    match value {
        Some(text) => text,
        None => default,
    }
}

/// A signed number setting, or its default if it is not set or is no number.
pub open spec fn i64_or(value: Option<Seq<char>>, default: i64) -> i64 {
    match value {
        Some(text) => match parsed_i64(text) {
            Some(n) => n,
            None => default,
        },
        None => default,
    }
}

/// An unsigned number setting, or its default if it is not set or is no
/// number.
pub open spec fn u64_or(value: Option<Seq<char>>, default: u64) -> u64 {
    match value {
        Some(text) => match parsed_u64(text) {
            Some(n) => n,
            None => default,
        },
        None => default,
    }
}

/// A list setting: its items, or none if it is not set.
pub open spec fn list_or_empty(value: Option<Seq<char>>) -> Seq<Seq<char>> {
    match value {
        Some(text) => comma_list(text),
        None => Seq::empty(),
    }
}

fn setting_text(value: &Option<String>, default: &str) -> (r: String)
    ensures
        r@ == text_or(text_of(*value), default@),
{
    match value {
        Some(text) => text.clone(),
        None => default.to_owned(),
    }
}

fn setting_i64(value: &Option<String>, default: i64) -> (r: i64)
    ensures
        r == i64_or(text_of(*value), default),
{
    match value {
        Some(text) => match parse_i64(text.as_str()) {
            Some(n) => n,
            None => default,
        },
        None => default,
    }
}

fn setting_u64(value: &Option<String>, default: u64) -> (r: u64)
    ensures
        r == u64_or(text_of(*value), default),
{
    match value {
        Some(text) => match parse_u64(text.as_str()) {
            Some(n) => n,
            None => default,
        },
        None => default,
    }
}

fn setting_list(value: &Option<String>) -> (r: Vec<String>)
    ensures
        r.deep_view() == list_or_empty(text_of(*value)),
{
    match value {
        Some(text) => split_comma_list(text.as_str()),
        None => {
            let items: Vec<String> = Vec::new();
            assert(items.deep_view() =~= Seq::<Seq<char>>::empty());
            items
        },
    }
}

impl Settings {
    /// Settings with nothing set: every value takes its default.
    pub fn unset() -> (r: Settings)
        ensures
            r.jwt_key_path is None,
            r.rsa_private_key_path is None,
            r.jwt_expire_minutes is None,
            r.pam_service is None,
            r.max_payload_age_secs is None,
            r.bind_addr is None,
            r.ssh_ca_key_path is None,
            r.ssh_cert_extensions is None,
            r.ssh_cert_serial_base is None,
            r.ssh_cert_tmp_dir is None,
    {
        Settings {
            jwt_key_path: None,
            rsa_private_key_path: None,
            jwt_expire_minutes: None,
            pam_service: None,
            max_payload_age_secs: None,
            bind_addr: None,
            ssh_ca_key_path: None,
            ssh_cert_extensions: None,
            ssh_cert_serial_base: None,
            ssh_cert_tmp_dir: None,
        }
    }

    /// The file that holds the signing secret.
    pub fn secret_path(&self) -> (r: String)
        ensures
            r@ == text_or(text_of(self.jwt_key_path), "jwt_hs256.key"@),
    {
        setting_text(&self.jwt_key_path, "jwt_hs256.key")
    }

    /// The file that holds the transport private key.
    pub fn private_key_path(&self) -> (r: String)
        ensures
            r@ == text_or(text_of(self.rsa_private_key_path), "rsa_private.pem"@),
    {
        setting_text(&self.rsa_private_key_path, "rsa_private.pem")
    }

    /// The address the service listens on.
    pub fn bind_address(&self) -> (r: String)
        ensures
            r@ == text_or(text_of(self.bind_addr), "0.0.0.0:8080"@),
    {
        setting_text(&self.bind_addr, "0.0.0.0:8080")
    }
}

/// A signing secret under 32 bytes is weaker than recommended. It is still
/// accepted: the host is expected to warn, not to stop.
pub fn secret_is_short(secret: &[u8]) -> (short: bool)
    ensures
        short == (secret@.len() < 32),
{
    secret.len() < 32
}

impl IssuerConfig {
    /// Whether this configuration is the one that `settings` describe, with
    /// the default for every value that is not set or not readable.
    pub open spec fn reflects(&self, settings: &Settings) -> bool {
        &&& self.jwt_exp_minutes == i64_or(text_of(settings.jwt_expire_minutes), 60)
        &&& self.pam_service@ == text_or(text_of(settings.pam_service), "flaskapi"@)
        &&& self.max_payload_age_secs == i64_or(text_of(settings.max_payload_age_secs), 60)
        &&& self.ca_key_path@ == text_or(
            text_of(settings.ssh_ca_key_path),
            "/etc/ssh/ssh_user_ca"@,
        )
        &&& self.cert_extensions.deep_view() == list_or_empty(
            text_of(settings.ssh_cert_extensions),
        )
        &&& self.serial_base == u64_or(text_of(settings.ssh_cert_serial_base), 0)
        &&& self.scratch_dir@ == text_or(text_of(settings.ssh_cert_tmp_dir), "/tmp"@)
    }

    /// Builds the configuration from the two keys and the settings.
    pub fn from_settings(jwt_secret: Vec<u8>, transport: TransportCrypto, settings: &Settings) -> (r:
        IssuerConfig)
        ensures
            r.jwt_secret@ == jwt_secret@,
            r.transport == transport,
            r.reflects(settings),
    {
        IssuerConfig {
            jwt_secret,
            transport,
            jwt_exp_minutes: setting_i64(&settings.jwt_expire_minutes, 60),
            pam_service: setting_text(&settings.pam_service, "flaskapi"),
            max_payload_age_secs: setting_i64(&settings.max_payload_age_secs, 60),
            ca_key_path: setting_text(&settings.ssh_ca_key_path, "/etc/ssh/ssh_user_ca"),
            cert_extensions: setting_list(&settings.ssh_cert_extensions),
            serial_base: setting_u64(&settings.ssh_cert_serial_base, 0),
            scratch_dir: setting_text(&settings.ssh_cert_tmp_dir, "/tmp"),
        }
    }
}

} // verus!
