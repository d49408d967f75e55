//! Credentials for the Alibaba Cloud KMS secrets API: where they come from,
//! how long fetched ones are served, and the calls that they sign.
//!
//! The library computes and decides; it performs no I/O. It is handed the
//! environment variables, the time and the replies of the instance metadata
//! service, and says what to send next and what the outcome is.

pub mod client;
pub mod config;
pub mod environment;
pub mod error;
pub mod json;
pub mod laws;
pub mod material;
pub mod metadata;
pub mod payload;
pub mod text;

pub use client::{
    bool_to_str, GetSecretValueRequest, GetSecretValueResponse, GetSecretValueVersionStages,
    KmsClient, RpcCall, RpcSettings,
};
pub use config::{
    CacheState, CachedCredential, CredentialConfig, CredentialSource, Resolution,
    CACHE_WINDOW_MILLIS,
};
pub use error::{CredentialError, TransportFailure};
pub use material::CredentialMaterial;
pub use metadata::{FetchStage, FetchStep, HttpMethod, HttpReply, MetadataRequest, RoleFetch};
pub use payload::GetRamSecurityCredentialsResponse;
