//! Credential-issuance core: transport decryption, replay-window validation,
//! delegated authentication, access-token minting and SSH certificate planning.
//!
//! Every function here is verified against its contract. Work that only the
//! host can do (reading the request, asking the identity service, running the
//! certificate signer) is handed in as plain values between the stages of
//! [`pipeline`].

pub mod backend;
pub mod cert;
pub mod config;
pub mod error;
pub mod pipeline;
pub mod replay;
pub mod text;
pub mod token;
pub mod transport;
