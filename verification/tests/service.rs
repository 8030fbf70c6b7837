use base64::Engine;
use pam_jwt_issuer::cert::{finish_ssh_user_cert, SignerOutcome};
use pam_jwt_issuer::config::{secret_is_short, IssuerConfig, Settings};
use pam_jwt_issuer::error::{ApiError, BadRequestReason, InternalReason};
use pam_jwt_issuer::pipeline::{
    authorize, conclude, open_request, plan_certificate, plan_certificate_fresh, validate_payload,
    validate_payload_now, AuthPayload, DelegateOutcome, TokenResponse,
};
use pam_jwt_issuer::transport::TransportCrypto;
use rsa::pkcs8::DecodePublicKey;

const PRIME_P: [u32; 32] = [
    0xfe37ba57, 0xd40a6722, 0x6159b543, 0x30be691b,
    0xb6ab3411, 0x8d9c818a, 0x732c5689, 0x3e3f6b02,
    0xbc77ddeb, 0x514da2c7, 0xd42dcdfd, 0x8209bc37,
    0x9c214f99, 0x087115a7, 0x1e267021, 0x55f7bb40,
    0x21c5b3ff, 0x78e6c9a1, 0x9442cb08, 0xf758fbd7,
    0xadda38ab, 0xac806698, 0x94eec1d6, 0x8cc261e6,
    0x361255d9, 0xf2298ab4, 0x21a43a6d, 0x5c59ced0,
    0x8a03d005, 0x68e315c6, 0x32f7047c, 0xf2a0badd,
];

const PRIME_Q: [u32; 32] = [
    0xf45557b4, 0x01257b9a, 0x183d9a72, 0x1fe553d2,
    0x79bad69d, 0xa661fc79, 0x7af405da, 0xe981eb51,
    0xa36eaf48, 0x2af11bfb, 0x0e0646cf, 0x131b86c0,
    0x4da4c61c, 0x7ff43bcb, 0xf753ddf8, 0xc7eae878,
    0x58b0d547, 0x173d1638, 0x6cd20d74, 0x87e175cc,
    0xdeed180e, 0xb2647e2c, 0x67d58a06, 0xd89957e9,
    0x4770e7e9, 0x8b83ebcf, 0x36869f64, 0x3fcb5564,
    0x9b097160, 0xa0cba9e0, 0xf492f6b1, 0xf5fe9c77,
];

const SECRET: &[u8] = b"0123456789abcdef0123456789abcdef";
const NOW: i64 = 1_700_000_000;
const ED25519: &str = "ssh-ed25519 AAAAC3NzaC1lZDI1NTE5AAAAIGtest alice@laptop";

fn big_number(words: &[u32]) -> rsa::BigUint {
    let bytes: Vec<u8> = words.iter().flat_map(|w| w.to_be_bytes()).collect();
    rsa::BigUint::from_bytes_be(&bytes)
}

fn config_with(settings: &Settings) -> IssuerConfig {
    let key = rsa::RsaPrivateKey::from_p_q(
        big_number(&PRIME_P),
        big_number(&PRIME_Q),
        rsa::BigUint::from(65537u32),
    )
    .unwrap();
    IssuerConfig::from_settings(SECRET.to_vec(), TransportCrypto::new(key), settings)
}

fn config() -> IssuerConfig {
    config_with(&Settings::unset())
}

fn envelope(cfg: &IssuerConfig, plaintext: &[u8]) -> String {
    let pem = cfg.transport.export_public_key().unwrap();
    let public = rsa::RsaPublicKey::from_public_key_pem(&pem).unwrap();
    let sealed = public
        .encrypt(&mut rand::rngs::OsRng, rsa::Oaep::new::<sha2::Sha256>(), plaintext)
        .unwrap();
    base64::engine::general_purpose::STANDARD.encode(sealed)
}

fn payload_json(username: &str, password: &str, ts: i64, ssh_pubkey: Option<&str>) -> Vec<u8> {
    let mut object = serde_json::Map::new();
    object.insert("username".to_string(), serde_json::Value::from(username));
    object.insert("password".to_string(), serde_json::Value::from(password));
    object.insert("ts".to_string(), serde_json::Value::from(ts));
    if let Some(key) = ssh_pubkey {
        object.insert("ssh_pubkey".to_string(), serde_json::Value::from(key));
    }
    serde_json::to_vec(&serde_json::Value::Object(object)).unwrap()
}

fn parse(plaintext: &[u8]) -> Option<AuthPayload> {
    let value: serde_json::Value = serde_json::from_slice(plaintext).ok()?;
    let object = value.as_object()?;
    Some(AuthPayload {
        username: object.get("username")?.as_str()?.to_string(),
        password: object.get("password")?.as_str()?.to_string(),
        ts: object.get("ts")?.as_i64()?,
        ssh_pubkey: match object.get("ssh_pubkey") {
            None | Some(serde_json::Value::Null) => None,
            Some(key) => Some(key.as_str()?.to_string()),
        },
    })
}

fn payload(username: &str, password: &str, ts: i64, ssh_pubkey: Option<&str>) -> AuthPayload {
    AuthPayload {
        username: username.to_string(),
        password: password.to_string(),
        ts,
        ssh_pubkey: ssh_pubkey.map(|k| k.to_string()),
    }
}

/// Runs every stage as a host would, with the collaborators' answers given.
fn run(
    cfg: &IssuerConfig,
    ciphertext_b64: &str,
    now: i64,
    delegate: DelegateOutcome,
    signer: SignerOutcome,
) -> Result<TokenResponse, ApiError> {
    let plaintext = open_request(cfg, ciphertext_b64)?;
    let request = validate_payload(parse(&plaintext), now, cfg.max_payload_age_secs)?;
    let grant = authorize(cfg, request, delegate)?;
    let issued = match &grant.certificate {
        None => Err(ApiError::Internal(InternalReason::SignerSpawn)),
        Some(asked) => plan_certificate(cfg, asked, 42, "/tmp/key")
            .and_then(|_| finish_ssh_user_cert(&signer)),
    };
    Ok(conclude(grant, issued))
}

fn decoded_claims(token: &str) -> serde_json::Value {
    let mut validation = jsonwebtoken::Validation::new(jsonwebtoken::Algorithm::HS256);
    validation.validate_exp = false;
    validation.required_spec_claims.clear();
    let key = jsonwebtoken::DecodingKey::from_secret(SECRET);
    jsonwebtoken::decode::<serde_json::Value>(token, &key, &validation).unwrap().claims
}

#[test]
fn valid_request_yields_a_token() {
    let cfg = config();
    let sealed = envelope(&cfg, &payload_json("alice", "s3cret", NOW - 5, None));
    let response =
        run(&cfg, &sealed, NOW, DelegateOutcome::Verified, SignerOutcome::SpawnFailed).unwrap();
    assert!(!response.access_token.is_empty());
    assert_eq!(response.token_type, "Bearer");
    assert_eq!(response.expires_in, 3600);
    assert_eq!(response.ssh_user_cert, None);
    assert_eq!(response.ssh_user_cert_exp, None);
    let claims = decoded_claims(&response.access_token);
    assert_eq!(claims["sun"], serde_json::Value::from("alice"));
    assert_eq!(claims["iat"], serde_json::Value::from(NOW));
    assert_eq!(claims["exp"], serde_json::Value::from(NOW + 3600));
}

#[test]
fn configured_lifetime_sets_expiry_and_expires_in() {
    let mut settings = Settings::unset();
    settings.jwt_expire_minutes = Some("15".to_string());
    let cfg = config_with(&settings);
    let sealed = envelope(&cfg, &payload_json("alice", "s3cret", NOW, None));
    let response =
        run(&cfg, &sealed, NOW, DelegateOutcome::Verified, SignerOutcome::SpawnFailed).unwrap();
    assert_eq!(response.expires_in, 900);
    let claims = decoded_claims(&response.access_token);
    assert_eq!(claims["exp"], serde_json::Value::from(NOW + 900));
}

#[test]
fn principal_is_the_trimmed_username() {
    let request = validate_payload(Some(payload("  alice \n", " pw ", NOW, None)), NOW, 60).unwrap();
    assert_eq!(request.principal, "alice");
    assert_eq!(request.password, " pw ");
    assert_eq!(request.now, NOW);
    assert_eq!(request.ssh_pubkey, None);
}

#[test]
fn unopened_envelopes_are_bad_requests_of_one_shape() {
    let cfg = config();
    let good = envelope(&cfg, &payload_json("alice", "s3cret", NOW, None));
    let mut raw = base64::engine::general_purpose::STANDARD.decode(&good).unwrap();
    raw[0] ^= 1;
    let tampered = base64::engine::general_purpose::STANDARD.encode(&raw);
    let mut responses = Vec::new();
    for text in ["***", "", "AAAA", tampered.as_str()] {
        for delegate in [DelegateOutcome::Verified, DelegateOutcome::Rejected] {
            let error = run(&cfg, text, NOW, delegate, SignerOutcome::SpawnFailed).unwrap_err();
            assert_eq!(error, ApiError::BadRequest(BadRequestReason::InvalidCiphertext));
            let response = error.into_response();
            responses.push((response.status, response.body.error));
        }
    }
    for response in responses.iter() {
        assert_eq!(*response, (400, "invalid ciphertext".to_string()));
    }
}

#[test]
fn plaintext_that_is_no_payload_is_a_bad_request() {
    let cfg = config();
    let texts: [&[u8]; 5] = [
        b"",
        b"not json",
        b"{\"username\":\"alice\"}",
        b"{\"username\":\"alice\",\"password\":\"pw\",\"ts\":\"soon\"}",
        b"[1,2,3]",
    ];
    for text in texts.iter() {
        let sealed = envelope(&cfg, text);
        let error = run(&cfg, &sealed, NOW, DelegateOutcome::Verified, SignerOutcome::SpawnFailed)
            .unwrap_err();
        assert_eq!(error, ApiError::BadRequest(BadRequestReason::InvalidJson));
        assert_eq!(error.status_code(), 400);
        assert_eq!(error.message(), "invalid decrypted json");
    }
}

#[test]
fn blank_username_or_empty_password_is_a_bad_request() {
    let missing = ApiError::BadRequest(BadRequestReason::MissingCredentials);
    for (username, password) in [("", "pw"), ("   ", "pw"), ("\t\n", "pw"), ("alice", ""), ("", "")] {
        let result = validate_payload(Some(payload(username, password, NOW, None)), NOW, 60);
        assert_eq!(result.unwrap_err(), missing);
    }
    assert_eq!(missing.message(), "username and password are required");
    assert!(validate_payload(Some(payload("alice", " ", NOW, None)), NOW, 60).is_ok());
}

#[test]
fn missing_credentials_are_reported_before_a_stale_timestamp() {
    let result = validate_payload(Some(payload("", "pw", NOW - 1000, None)), NOW, 60);
    assert_eq!(result.unwrap_err(), ApiError::BadRequest(BadRequestReason::MissingCredentials));
}

#[test]
fn stale_or_future_timestamp_is_a_bad_request_even_with_good_credentials() {
    let cfg = config();
    for ts in [NOW + 1, NOW + 3600, NOW - 61, NOW - 86_400, i64::MIN, i64::MAX] {
        let sealed = envelope(&cfg, &payload_json("alice", "s3cret", ts, None));
        let error = run(&cfg, &sealed, NOW, DelegateOutcome::Verified, SignerOutcome::SpawnFailed)
            .unwrap_err();
        assert_eq!(error, ApiError::BadRequest(BadRequestReason::StaleTimestamp));
        assert_eq!(error.status_code(), 400);
    }
}

#[test]
fn window_boundary_is_inclusive_in_the_pipeline() {
    let cfg = config();
    let at_edge = envelope(&cfg, &payload_json("alice", "s3cret", NOW - 60, None));
    assert!(run(&cfg, &at_edge, NOW, DelegateOutcome::Verified, SignerOutcome::SpawnFailed).is_ok());
    let past_edge = envelope(&cfg, &payload_json("alice", "s3cret", NOW - 61, None));
    assert_eq!(
        run(&cfg, &past_edge, NOW, DelegateOutcome::Verified, SignerOutcome::SpawnFailed)
            .unwrap_err(),
        ApiError::BadRequest(BadRequestReason::StaleTimestamp)
    );
}

#[test]
fn refused_credential_is_401_with_the_generic_message() {
    let cfg = config();
    let sealed = envelope(&cfg, &payload_json("alice", "wrong", NOW, Some(ED25519)));
    for delegate in [DelegateOutcome::Rejected, DelegateOutcome::Unavailable] {
        let error =
            run(&cfg, &sealed, NOW, delegate, SignerOutcome::Signed("cert".to_string())).unwrap_err();
        assert_eq!(error, ApiError::AuthFailed);
        let response = error.into_response();
        assert_eq!(response.status, 401);
        assert_eq!(response.body.error, "authentication failed");
    }
}

#[test]
fn refused_credential_wins_over_an_unknown_key() {
    let cfg = config();
    let sealed = envelope(&cfg, &payload_json("alice", "wrong", NOW, Some("bogus key")));
    let error = run(&cfg, &sealed, NOW, DelegateOutcome::Rejected, SignerOutcome::SpawnFailed)
        .unwrap_err();
    assert_eq!(error, ApiError::AuthFailed);
}

#[test]
fn signer_failure_keeps_the_token_and_omits_the_certificate() {
    let cfg = config();
    let sealed = envelope(&cfg, &payload_json("alice", "s3cret", NOW, Some(ED25519)));
    let failures = [
        SignerOutcome::TempFileFailed,
        SignerOutcome::TempWriteFailed,
        SignerOutcome::SpawnFailed,
        SignerOutcome::ExitFailure,
        SignerOutcome::CertificateUnreadable,
    ];
    for failure in failures.iter() {
        let response =
            run(&cfg, &sealed, NOW, DelegateOutcome::Verified, failure.clone()).unwrap();
        assert!(!response.access_token.is_empty());
        assert_eq!(decoded_claims(&response.access_token)["sun"], serde_json::Value::from("alice"));
        assert_eq!(response.expires_in, 3600);
        assert_eq!(response.ssh_user_cert, None);
        assert_eq!(response.ssh_user_cert_exp, None);
    }
}

#[test]
fn issued_certificate_is_attached_with_the_token_expiry() {
    let cfg = config();
    let sealed = envelope(&cfg, &payload_json("alice", "s3cret", NOW - 3, Some(ED25519)));
    let signed = SignerOutcome::Signed("ssh-ed25519-cert-v01@openssh.com AAAA alice\n".to_string());
    let response = run(&cfg, &sealed, NOW, DelegateOutcome::Verified, signed).unwrap();
    assert_eq!(
        response.ssh_user_cert.as_deref(),
        Some("ssh-ed25519-cert-v01@openssh.com AAAA alice")
    );
    assert_eq!(response.ssh_user_cert_exp, Some(NOW + 3600));
    let claims = decoded_claims(&response.access_token);
    assert_eq!(claims["exp"], serde_json::Value::from(NOW + 3600));
}

#[test]
fn unknown_key_prefix_is_a_bad_request_and_asks_no_signer() {
    let cfg = config();
    for key in ["", "ecdsa-sha2-nistp256 AAAA", "ssh-rsa", "-----BEGIN PUBLIC KEY-----"] {
        let request =
            validate_payload(Some(payload("alice", "s3cret", NOW, Some(key))), NOW, 60).unwrap();
        let error = authorize(&cfg, request, DelegateOutcome::Verified).unwrap_err();
        assert_eq!(error, ApiError::BadRequest(BadRequestReason::InvalidSshPubkey));
        assert_eq!(error.status_code(), 400);
        assert_eq!(error.message(), "invalid ssh_pubkey");
    }
}

#[test]
fn grant_asks_for_a_certificate_only_for_a_known_key() {
    let cfg = config();
    let with_key =
        validate_payload(Some(payload("alice", "s3cret", NOW, Some(ED25519))), NOW, 60).unwrap();
    let grant = authorize(&cfg, with_key, DelegateOutcome::Verified).unwrap();
    let asked = grant.certificate.as_ref().unwrap();
    assert_eq!(asked.principal, "alice");
    assert_eq!(asked.valid_after, NOW);
    assert_eq!(asked.valid_before, NOW + 3600);
    assert_eq!(asked.ssh_pubkey, ED25519);
    assert_eq!(grant.response.ssh_user_cert, None);

    let without_key = validate_payload(Some(payload("alice", "s3cret", NOW, None)), NOW, 60).unwrap();
    let grant = authorize(&cfg, without_key, DelegateOutcome::Verified).unwrap();
    assert!(grant.certificate.is_none());
    let response = conclude(grant, Ok("stray certificate".to_string()));
    assert_eq!(response.ssh_user_cert, None);
    assert_eq!(response.ssh_user_cert_exp, None);
}

#[test]
fn certificate_plan_uses_the_configuration() {
    let mut settings = Settings::unset();
    settings.ssh_ca_key_path = Some("/srv/ca/user_ca".to_string());
    settings.ssh_cert_extensions = Some("permit-pty, ,permit-agent-forwarding".to_string());
    settings.ssh_cert_serial_base = Some("5000".to_string());
    let cfg = config_with(&settings);
    let request =
        validate_payload(Some(payload(" alice ", "s3cret", NOW, Some(ED25519))), NOW, 60).unwrap();
    let grant = authorize(&cfg, request, DelegateOutcome::Verified).unwrap();
    let plan = plan_certificate(&cfg, grant.certificate.as_ref().unwrap(), 7, "/tmp/k").unwrap();
    let expected: Vec<String> = [
        "-s",
        "/srv/ca/user_ca",
        "-I",
        "pam-jwt-issuer:alice:1700000000",
        "-n",
        "alice",
        "-V",
        "20231114221320:20231114231320",
        "-z",
        "5007",
        "-O",
        "permit-pty",
        "-O",
        "permit-agent-forwarding",
        "/tmp/k",
    ]
    .iter()
    .map(|s| s.to_string())
    .collect();
    assert_eq!(plan.program, "ssh-keygen");
    assert_eq!(plan.args, expected);
    assert_eq!(plan.cert_path, "/tmp/k-cert.pub");
    let fresh = plan_certificate_fresh(&cfg, grant.certificate.as_ref().unwrap(), "/tmp/k").unwrap();
    assert_eq!(fresh.args[..9], expected[..9]);
    assert_eq!(fresh.args[10..], expected[10..]);
}

#[test]
fn lifetime_that_does_not_fit_is_an_internal_error() {
    let mut settings = Settings::unset();
    settings.jwt_expire_minutes = Some(i64::MAX.to_string());
    let cfg = config_with(&settings);
    let request = validate_payload(Some(payload("alice", "s3cret", NOW, None)), NOW, 60).unwrap();
    let error = authorize(&cfg, request, DelegateOutcome::Verified).unwrap_err();
    assert_eq!(error, ApiError::Internal(InternalReason::TokenLifetime));
    assert_eq!(error.into_response().status, 500);
}

#[test]
fn requests_are_independent_and_follow_the_clock() {
    let cfg = config();
    let mut tokens = Vec::new();
    for i in 0..6i64 {
        let user = if i % 2 == 0 { "alice" } else { "bob" };
        let now = NOW + i;
        let sealed = envelope(&cfg, &payload_json(user, "s3cret", now, None));
        let response =
            run(&cfg, &sealed, now, DelegateOutcome::Verified, SignerOutcome::SpawnFailed).unwrap();
        let claims = decoded_claims(&response.access_token);
        assert_eq!(claims["sun"], serde_json::Value::from(user));
        assert_eq!(claims["iat"], serde_json::Value::from(now));
        assert_eq!(claims["exp"], serde_json::Value::from(now + 3600));
        assert_eq!(claims.as_object().unwrap().len(), 3);
        tokens.push((user, now, response.access_token));
    }
    for (user, now, token) in tokens.iter().rev() {
        let sealed = envelope(&cfg, &payload_json(user, "other password", *now, None));
        let again =
            run(&cfg, &sealed, *now, DelegateOutcome::Verified, SignerOutcome::SpawnFailed).unwrap();
        assert_eq!(again.access_token, *token);
    }
}

#[test]
fn clock_reading_of_its_own_admits_the_present() {
    let before = time::OffsetDateTime::now_utc().unix_timestamp();
    let request = validate_payload_now(Some(payload("alice", "s3cret", before, None)), 60).unwrap();
    let after = time::OffsetDateTime::now_utc().unix_timestamp();
    assert!(before <= request.now && request.now <= after);
    let stale = validate_payload_now(Some(payload("alice", "s3cret", before - 3600, None)), 60);
    assert_eq!(stale.unwrap_err(), ApiError::BadRequest(BadRequestReason::StaleTimestamp));
    let none = validate_payload_now(None, 60);
    assert_eq!(none.unwrap_err(), ApiError::BadRequest(BadRequestReason::InvalidJson));
}

#[test]
fn settings_default_when_unset() {
    let settings = Settings::unset();
    assert_eq!(settings.secret_path(), "jwt_hs256.key");
    assert_eq!(settings.private_key_path(), "rsa_private.pem");
    assert_eq!(settings.bind_address(), "0.0.0.0:8080");
    let cfg = config_with(&settings);
    assert_eq!(cfg.jwt_secret, SECRET);
    assert_eq!(cfg.jwt_exp_minutes, 60);
    assert_eq!(cfg.pam_service, "flaskapi");
    assert_eq!(cfg.max_payload_age_secs, 60);
    assert_eq!(cfg.ca_key_path, "/etc/ssh/ssh_user_ca");
    assert_eq!(cfg.cert_extensions, Vec::<String>::new());
    assert_eq!(cfg.serial_base, 0);
    assert_eq!(cfg.scratch_dir, "/tmp");
}

#[test]
fn settings_are_read_when_set() {
    let settings = Settings {
        jwt_key_path: Some("/run/secrets/jwt".to_string()),
        rsa_private_key_path: Some("/run/secrets/rsa.pem".to_string()),
        jwt_expire_minutes: Some("5".to_string()),
        pam_service: Some("sshd".to_string()),
        max_payload_age_secs: Some("-1".to_string()),
        bind_addr: Some("127.0.0.1:9000".to_string()),
        ssh_ca_key_path: Some("/srv/ca".to_string()),
        ssh_cert_extensions: Some("permit-pty,permit-X11-forwarding".to_string()),
        ssh_cert_serial_base: Some("18446744073709551615".to_string()),
        ssh_cert_tmp_dir: Some("/dev/shm".to_string()),
    };
    assert_eq!(settings.secret_path(), "/run/secrets/jwt");
    assert_eq!(settings.private_key_path(), "/run/secrets/rsa.pem");
    assert_eq!(settings.bind_address(), "127.0.0.1:9000");
    let cfg = config_with(&settings);
    assert_eq!(cfg.jwt_exp_minutes, 5);
    assert_eq!(cfg.pam_service, "sshd");
    assert_eq!(cfg.max_payload_age_secs, -1);
    assert_eq!(cfg.ca_key_path, "/srv/ca");
    assert_eq!(cfg.cert_extensions, vec!["permit-pty".to_string(), "permit-X11-forwarding".to_string()]);
    assert_eq!(cfg.serial_base, u64::MAX);
    assert_eq!(cfg.scratch_dir, "/dev/shm");
}

#[test]
fn unreadable_numbers_fall_back_to_defaults() {
    let mut settings = Settings::unset();
    settings.jwt_expire_minutes = Some("an hour".to_string());
    settings.max_payload_age_secs = Some(" 30".to_string());
    settings.ssh_cert_serial_base = Some("-1".to_string());
    let cfg = config_with(&settings);
    assert_eq!(cfg.jwt_exp_minutes, 60);
    assert_eq!(cfg.max_payload_age_secs, 60);
    assert_eq!(cfg.serial_base, 0);
}

#[test]
fn short_secret_is_flagged_but_accepted() {
    assert!(secret_is_short(b""));
    assert!(secret_is_short(&[0u8; 31]));
    assert!(!secret_is_short(&[0u8; 32]));
    assert!(!secret_is_short(&[0u8; 64]));
}
