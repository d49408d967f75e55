//! The client of the secrets API: its settings and the calls it makes.
//!
//! The library prepares a call; a caller signs and sends it. A call is made of
//! the settings of the signing client and of the action with its query
//! parameters, in the order in which they are to be sent.

use crate::config::{ConfigView, CredentialConfig};
use crate::material::{CredentialMaterial, MaterialView};
use crate::text::{clone_opt, has_prefix, opt_text, starts_with};
use std::time::Duration;
use vstd::prelude::*;

verus! {

/// The time allowed for a call where the client sets none, in seconds.
pub const DEFAULT_TIMEOUT_SECS: u64 = 5;

/// The version of the API that the calls are made against.
pub const DEFAULT_KMS_API_VERSION: &'static str = "2016-01-20";

/// The action that retrieves a secret's value.
pub const ACTION_GET_SECRET_VALUE: &'static str = "GetSecretValue";

/// The length of a `Duration`, in nanoseconds.
pub uninterp spec fn duration_nanos(d: Duration) -> nat;

/// Calls `Duration::from_secs`. Trusted: the result lasts `secs` whole
/// seconds.
#[verifier::external_body]
fn duration_from_secs(secs: u64) -> (r: Duration)
    ensures
        duration_nanos(r) == secs * 1_000_000_000,
{
    Duration::from_secs(secs)
}

/// `true` and `false` as the API spells them.
pub open spec fn bool_text(b: bool) -> Seq<char> {
    if b {
        "true"@
    } else {
        "false"@
    }
}

/// Spells a flag as the API does.
pub fn bool_to_str(b: bool) -> (r: &'static str)
    ensures
        r@ == bool_text(b),
{
    if b {
        "true"
    } else {
        "false"
    }
}

/// What to retrieve: a secret by name, and optionally one of its versions.
#[derive(Debug, PartialEq, Eq)]
pub struct GetSecretValueRequest {
    pub secret_name: String,
    pub version_stage: Option<String>,
    pub version_id: Option<String>,
    pub fetch_extended_config: Option<bool>,
    pub dry_run: Option<bool>,
}

/// The stages of the version that was retrieved.
#[derive(Debug, PartialEq, Eq)]
pub struct GetSecretValueVersionStages {
    pub version_stage: Vec<String>,
}

/// A secret's value with what the service says about it.
#[derive(Debug, PartialEq, Eq)]
pub struct GetSecretValueResponse {
    pub request_id: String,
    pub secret_data_type: String,
    pub create_time: String,
    pub version_id: String,
    pub next_rotation_date: Option<String>,
    pub secret_data: String,
    pub rotation_interval: Option<String>,
    pub extended_config: Option<String>,
    pub last_rotation_date: Option<String>,
    pub secret_name: String,
    pub automatic_rotation: Option<String>,
    pub secret_type: String,
    pub version_stages: GetSecretValueVersionStages,
}

/// The model of a [`GetSecretValueRequest`].
pub struct SecretRequestView {
    pub secret_name: Seq<char>,
    pub version_stage: Option<Seq<char>>,
    pub version_id: Option<Seq<char>>,
    pub fetch_extended_config: Option<bool>,
    pub dry_run: Option<bool>,
}

impl View for GetSecretValueRequest {
    type V = SecretRequestView;

    open spec fn view(&self) -> SecretRequestView {
        SecretRequestView {
            secret_name: self.secret_name@,
            version_stage: opt_text(self.version_stage),
            version_id: opt_text(self.version_id),
            fetch_extended_config: self.fetch_extended_config,
            dry_run: self.dry_run,
        }
    }
}

impl Default for GetSecretValueRequest {
    fn default() -> (r: Self)
        ensures
            r@ == (SecretRequestView {
                secret_name: Seq::empty(),
                version_stage: None,
                version_id: None,
                fetch_extended_config: None,
                dry_run: None,
            }),
    {
        GetSecretValueRequest {
            secret_name: String::new(),
            version_stage: None,
            version_id: None,
            fetch_extended_config: None,
            dry_run: None,
        }
    }
}

/// The parameter `name`, where it has a value.
pub open spec fn optional_query(name: Seq<char>, value: Option<Seq<char>>) -> Seq<
    (Seq<char>, Seq<char>),
> {
    match value {
        Some(v) => seq![(name, v)],
        None => Seq::empty(),
    }
}

/// The parameter `name` of a flag, where the flag is set.
pub open spec fn optional_flag(name: Seq<char>, value: Option<bool>) -> Seq<
    (Seq<char>, Seq<char>),
> {
    match value {
        Some(b) => seq![(name, bool_text(b))],
        None => Seq::empty(),
    }
}

impl SecretRequestView {
    /// The query parameters of the request: the secret's name, then each
    /// optional parameter that is set, in the order of the fields.
    pub open spec fn queries(self) -> Seq<(Seq<char>, Seq<char>)> {
        seq![("SecretName"@, self.secret_name)] + optional_query(
            "VersionStage"@,
            self.version_stage,
        ) + optional_query("VersionId"@, self.version_id) + optional_flag(
            "FetchExtendedConfig"@,
            self.fetch_extended_config,
        ) + optional_flag("DryRun"@, self.dry_run)
    }
}

/// The texts of a list of query parameters.
pub open spec fn query_texts(queries: Seq<(String, String)>) -> Seq<(Seq<char>, Seq<char>)> {
    queries.map_values(|q: (String, String)| (q.0@, q.1@))
}

impl GetSecretValueRequest {
    /// The query parameters of the request.
    pub fn queries(&self) -> (r: Vec<(String, String)>)
        ensures
            query_texts(r@) == self@.queries(),
    {
        let mut queries: Vec<(String, String)> = Vec::new();
        queries.push(("SecretName".to_owned(), self.secret_name.clone()));
        assert(query_texts(queries@) =~= seq![("SecretName"@, self.secret_name@)]);
        let ghost before = query_texts(queries@);
        match &self.version_stage {
            Some(v) => {
                queries.push(("VersionStage".to_owned(), v.clone()));
            },
            None => {},
        }
        assert(query_texts(queries@) =~= before + optional_query(
            "VersionStage"@,
            self@.version_stage,
        ));
        let ghost before = query_texts(queries@);
        match &self.version_id {
            Some(v) => {
                queries.push(("VersionId".to_owned(), v.clone()));
            },
            None => {},
        }
        assert(query_texts(queries@) =~= before + optional_query("VersionId"@, self@.version_id));
        let ghost before = query_texts(queries@);
        match self.fetch_extended_config {
            Some(b) => {
                queries.push(("FetchExtendedConfig".to_owned(), bool_to_str(b).to_owned()));
            },
            None => {},
        }
        assert(query_texts(queries@) =~= before + optional_flag(
            "FetchExtendedConfig"@,
            self@.fetch_extended_config,
        ));
        let ghost before = query_texts(queries@);
        match self.dry_run {
            Some(b) => {
                queries.push(("DryRun".to_owned(), bool_to_str(b).to_owned()));
            },
            None => {},
        }
        assert(query_texts(queries@) =~= before + optional_flag("DryRun"@, self@.dry_run));
        queries
    }
}

/// The endpoint as the client keeps it: a host of the service, which begins
/// with `kms`, gets the scheme `https://` put before it; anything else is
/// kept as it is.
pub open spec fn endpoint_url(endpoint: Seq<char>) -> Seq<char> {
    if has_prefix(endpoint, "kms"@) {
        "https://"@ + endpoint
    } else {
        endpoint
    }
}

/// A client of the secrets API.
#[derive(Debug)]
pub struct KmsClient {
    pub endpoint: Option<String>,
    pub timeout: Option<Duration>,
    pub credential_config: CredentialConfig,
}

/// The model of a [`KmsClient`].
pub struct ClientView {
    pub endpoint: Option<Seq<char>>,
    pub timeout: Option<Duration>,
    pub credential_config: ConfigView,
}

impl View for KmsClient {
    type V = ClientView;

    open spec fn view(&self) -> ClientView {
        ClientView {
            endpoint: opt_text(self.endpoint),
            timeout: self.timeout,
            credential_config: self.credential_config@,
        }
    }
}

impl Default for KmsClient {
    fn default() -> (r: Self)
        ensures
            r@ == (ClientView {
                endpoint: None,
                timeout: None,
                credential_config: ConfigView::empty(),
            }),
    {
        KmsClient { endpoint: None, timeout: None, credential_config: CredentialConfig::default() }
    }
}

impl Clone for KmsClient {
    /// A copy of the client. The copy's credential cache starts empty.
    fn clone(&self) -> (r: Self)
        ensures
            r@ == (ClientView {
                credential_config: ConfigView { cache: None, ..self@.credential_config },
                ..self@
            }),
    {
        KmsClient {
            endpoint: clone_opt(&self.endpoint),
            timeout: self.timeout,
            credential_config: self.credential_config.clone(),
        }
    }
}

/// The settings of the client that signs and sends a call.
#[derive(Debug)]
pub struct RpcSettings {
    pub access_key_id: String,
    pub access_key_secret: String,
    /// The session token of temporary credentials. Where it is present, it is
    /// one more parameter that the signed request must carry.
    pub security_token: Option<String>,
    pub endpoint: String,
    pub timeout: Duration,
    pub version: String,
}

/// The model of a [`RpcSettings`].
pub struct SettingsView {
    pub material: MaterialView,
    pub endpoint: Seq<char>,
    pub timeout: Duration,
    pub version: Seq<char>,
}

impl View for RpcSettings {
    type V = SettingsView;

    open spec fn view(&self) -> SettingsView {
        SettingsView {
            material: MaterialView {
                access_key_id: self.access_key_id@,
                access_key_secret: self.access_key_secret@,
                session_token: opt_text(self.security_token),
            },
            endpoint: self.endpoint@,
            timeout: self.timeout,
            version: self.version@,
        }
    }
}

/// A call of the API, ready to be signed and sent.
#[derive(Debug)]
pub struct RpcCall {
    pub settings: RpcSettings,
    pub action: String,
    pub queries: Vec<(String, String)>,
}

impl KmsClient {
    /// A client that resolves its credentials from `credential_config`. It
    /// has no endpoint yet, and the default timeout.
    pub fn new(credential_config: CredentialConfig) -> (r: Self)
        ensures
            r.credential_config == credential_config,
            r.endpoint is None,
            r.timeout is None,
    {
        KmsClient { endpoint: None, timeout: None, credential_config }
    }

    /// Sets the endpoint.
    pub fn endpoint(self, endpoint: &str) -> (r: Self)
        ensures
            opt_text(r.endpoint) == Some(endpoint_url(endpoint@)),
            r.timeout == self.timeout,
            r.credential_config == self.credential_config,
    {
        let url = if starts_with(endpoint, "kms") {
            String::from_str("https://").concat(endpoint)
        } else {
            endpoint.to_owned()
        };
        KmsClient {
            endpoint: Some(url),
            timeout: self.timeout,
            credential_config: self.credential_config,
        }
    }

    /// The settings of the signing client for calls made with `material`:
    /// the client's endpoint, its timeout or the default, and the API
    /// version.
    pub fn rpc_settings(&self, material: &CredentialMaterial) -> (r: RpcSettings)
        requires
            self.endpoint is Some,
        ensures
            r@.material == material@,
            r@.material.complete(),
            Some(r@.endpoint) == self@.endpoint,
            match self.timeout {
                Some(t) => r.timeout == t,
                None => duration_nanos(r.timeout) == DEFAULT_TIMEOUT_SECS * 1_000_000_000,
            },
            r@.version == DEFAULT_KMS_API_VERSION@,
    {
        let endpoint = match &self.endpoint {
            Some(e) => e.clone(),
            None => String::new(),
        };
        let timeout = match self.timeout {
            Some(t) => t,
            None => duration_from_secs(DEFAULT_TIMEOUT_SECS),
        };
        RpcSettings {
            access_key_id: material.access_key_id().to_owned(),
            access_key_secret: material.access_key_secret().to_owned(),
            security_token: match material.session_token() {
                Some(t) => Some(t.to_owned()),
                None => None,
            },
            endpoint,
            timeout,
            version: DEFAULT_KMS_API_VERSION.to_owned(),
        }
    }

    /// The call that retrieves the secret named in `request`, made with
    /// `material`.
    pub fn get_secret_value(
        &self,
        request: &GetSecretValueRequest,
        material: &CredentialMaterial,
    ) -> (r: RpcCall)
        requires
            self.endpoint is Some,
        ensures
            r.settings@.material == material@,
            Some(r.settings@.endpoint) == self@.endpoint,
            match self.timeout {
                Some(t) => r.settings.timeout == t,
                None => duration_nanos(r.settings.timeout) == DEFAULT_TIMEOUT_SECS * 1_000_000_000,
            },
            r.settings@.version == DEFAULT_KMS_API_VERSION@,
            r.action@ == ACTION_GET_SECRET_VALUE@,
            query_texts(r.queries@) == request@.queries(),
    {
        RpcCall {
            settings: self.rpc_settings(material),
            action: ACTION_GET_SECRET_VALUE.to_owned(),
            queries: request.queries(),
        }
    }
}

} // verus!
