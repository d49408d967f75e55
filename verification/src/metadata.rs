//! Fetching a role's temporary credentials from the instance metadata
//! service.
//!
//! The fetch is a conversation of one or two HTTP calls. This module decides
//! what to send and what each reply means; sending is the caller's work. A
//! caller starts a [`RoleFetch`], sends its [`RoleFetch::request`], hands the
//! reply to [`RoleFetch::advance`], and goes on until that returns
//! [`FetchStep::Done`]. Nothing is retried here.

use crate::error::{CredentialError, ErrorView, TransportView, TransportFailure};
use crate::material::{outcome_view, CredentialMaterial, MaterialView};
use crate::payload::{material_from_body, material_of_body};
use crate::text::opt_text;
use vstd::prelude::*;

verus! {

/// The address of the metadata service on an instance.
pub const DEFAULT_META_SERVER_HOST: &'static str = "100.100.100.200";

/// The loopback address, for a metadata service that runs beside the caller.
pub const LOCAL_META_SERVER_HOST: &'static str = "127.0.0.1";

/// The header that asks for a token's lifetime, in seconds.
pub const TOKEN_TTL_HEADER: &'static str = "X-aliyun-ecs-metadata-token-ttl-seconds";

/// The lifetime asked for.
pub const TOKEN_TTL_SECONDS: &'static str = "3600";

/// The header that carries a negotiated token.
pub const TOKEN_HEADER: &'static str = "X-aliyun-ecs-metadata-token";

/// The time allowed for each call, in seconds.
pub const METADATA_TIMEOUT_SECS: u64 = 5;

/// The URL at which a token is negotiated.
pub open spec fn token_url(host: Seq<char>) -> Seq<char> {
    "http://"@ + host + "/latest/api/token"@
}

/// The URL at which the credentials of `role_name` are retrieved.
pub open spec fn credentials_url(host: Seq<char>, role_name: Seq<char>) -> Seq<char> {
    "http://"@ + host + "/latest/meta-data/ram/security-credentials/"@ + role_name
}

/// The method of a call to the metadata service.
#[derive(Debug, Clone, Copy, PartialEq, Eq, Structural)]
pub enum HttpMethod {
    Get,
    Put,
}

/// A call to the metadata service: what the caller is to send.
#[derive(Debug, PartialEq, Eq)]
pub struct MetadataRequest {
    pub method: HttpMethod,
    pub url: String,
    /// The one header of the call, as name and value, if it has one.
    pub header: Option<(String, String)>,
    pub timeout_secs: u64,
}

/// The model of a [`MetadataRequest`].
pub struct RequestView {
    pub method: HttpMethod,
    pub url: Seq<char>,
    pub header: Option<(Seq<char>, Seq<char>)>,
    pub timeout_secs: u64,
}

impl View for MetadataRequest {
    type V = RequestView;

    open spec fn view(&self) -> RequestView {
        RequestView {
            method: self.method,
            url: self.url@,
            header: match self.header {
                Some(h) => Some((h.0@, h.1@)),
                None => None,
            },
            timeout_secs: self.timeout_secs,
        }
    }
}

/// What came of a call: the service's reply, or the reason there is none.
#[derive(Debug, PartialEq, Eq)]
pub enum HttpReply {
    Response { status: u16, body: String },
    /// The call did not complete, or its body could not be read.
    Failure(String),
}

/// The model of an [`HttpReply`].
pub enum ReplyView {
    Response { status: u16, body: Seq<char> },
    Failure(Seq<char>),
}

impl View for HttpReply {
    type V = ReplyView;

    open spec fn view(&self) -> ReplyView {
        match *self {
            HttpReply::Response { status, body } => ReplyView::Response { status, body: body@ },
            HttpReply::Failure(text) => ReplyView::Failure(text@),
        }
    }
}

impl ReplyView {
    /// The body of a reply with a status in 200..=299; every other reply is a
    /// failure.
    pub open spec fn body(self) -> Result<Seq<char>, TransportView> {
        match self {
            ReplyView::Response { status, body } => if 200 <= status <= 299 {
                Ok(body)
            } else {
                Err(TransportView::Status(status))
            },
            ReplyView::Failure(text) => Err(TransportView::Network(text)),
        }
    }
}

impl HttpReply {
    /// The body of a successful reply, or the failure.
    pub fn into_body(self) -> (r: Result<String, TransportFailure>)
        ensures
            match r {
                Ok(body) => self@.body() == Ok::<Seq<char>, TransportView>(body@),
                Err(f) => self@.body() == Err::<Seq<char>, TransportView>(f@),
            },
    {
        match self {
            HttpReply::Response { status, body } => if 200 <= status && status <= 299 {
                Ok(body)
            } else {
                Err(TransportFailure::Status(status))
            },
            HttpReply::Failure(text) => Err(TransportFailure::Network(text)),
        }
    }
}

/// The reply that a fetch waits for.
#[derive(Debug, PartialEq, Eq)]
pub enum FetchStage {
    /// The reply to the token negotiation.
    AwaitingToken,
    /// The reply to the credentials call, which carried `token` if one was
    /// negotiated.
    AwaitingCredentials { token: Option<String> },
}

/// The model of a [`FetchStage`].
pub enum StageView {
    AwaitingToken,
    AwaitingCredentials { token: Option<Seq<char>> },
}

impl View for FetchStage {
    type V = StageView;

    open spec fn view(&self) -> StageView {
        match *self {
            FetchStage::AwaitingToken => StageView::AwaitingToken,
            FetchStage::AwaitingCredentials { token } => StageView::AwaitingCredentials {
                token: opt_text(token),
            },
        }
    }
}

/// A fetch under way.
#[derive(Debug, PartialEq, Eq)]
pub struct RoleFetch {
    pub role_name: String,
    pub host: String,
    pub stage: FetchStage,
}

/// The model of a [`RoleFetch`].
pub struct FetchView {
    pub role_name: Seq<char>,
    pub host: Seq<char>,
    pub stage: StageView,
}

impl View for RoleFetch {
    type V = FetchView;

    open spec fn view(&self) -> FetchView {
        FetchView { role_name: self.role_name@, host: self.host@, stage: self.stage@ }
    }
}

/// The model of a [`FetchStep`].
pub enum StepView {
    Send(FetchView),
    Done(Result<MaterialView, ErrorView>),
}

impl FetchView {
    /// A fetch before its first call. In hardened mode the first call
    /// negotiates a token; otherwise it asks for the credentials at once,
    /// with no token.
    pub open spec fn start(role_name: Seq<char>, hardened: bool, host: Seq<char>) -> FetchView {
        FetchView {
            role_name,
            host,
            stage: if hardened {
                StageView::AwaitingToken
            } else {
                StageView::AwaitingCredentials { token: None }
            },
        }
    }

    /// The call whose reply the fetch waits for.
    pub open spec fn request(self) -> RequestView {
        match self.stage {
            StageView::AwaitingToken => RequestView {
                method: HttpMethod::Put,
                url: token_url(self.host),
                header: Some((TOKEN_TTL_HEADER@, TOKEN_TTL_SECONDS@)),
                timeout_secs: METADATA_TIMEOUT_SECS,
            },
            StageView::AwaitingCredentials { token } => RequestView {
                method: HttpMethod::Get,
                url: credentials_url(self.host, self.role_name),
                header: match token {
                    Some(t) => Some((TOKEN_HEADER@, t)),
                    None => None,
                },
                timeout_secs: METADATA_TIMEOUT_SECS,
            },
        }
    }

    /// What a reply makes of the fetch. A failed negotiation ends it with
    /// `MetadataTokenError`; a negotiated token leads to the credentials
    /// call, which carries it. A failed credentials call ends the fetch with
    /// `MetadataFetchError`; its body, once there, decides the rest.
    pub open spec fn advance(self, reply: ReplyView) -> StepView {
        match self.stage {
            StageView::AwaitingToken => match reply.body() {
                Err(f) => StepView::Done(Err(ErrorView::MetadataTokenError(f))),
                Ok(token) => StepView::Send(
                    FetchView {
                        role_name: self.role_name,
                        host: self.host,
                        stage: StageView::AwaitingCredentials { token: Some(token) },
                    },
                ),
            },
            StageView::AwaitingCredentials { .. } => match reply.body() {
                Err(f) => StepView::Done(Err(ErrorView::MetadataFetchError(f))),
                Ok(body) => StepView::Done(material_of_body(body)),
            },
        }
    }
}

/// What a fetch asks of its caller next.
#[derive(Debug, PartialEq, Eq)]
pub enum FetchStep {
    /// Send the request of this fetch and come back with the reply.
    Send(RoleFetch),
    /// The fetch is over.
    Done(Result<CredentialMaterial, CredentialError>),
}

impl View for FetchStep {
    type V = StepView;

    open spec fn view(&self) -> StepView {
        match *self {
            FetchStep::Send(fetch) => StepView::Send(fetch@),
            FetchStep::Done(outcome) => StepView::Done(outcome_view(outcome)),
        }
    }
}

impl RoleFetch {
    /// Starts a fetch of the credentials of `role_name` from the metadata
    /// service at `host`.
    pub fn start(role_name: &str, hardened: bool, host: &str) -> (r: Self)
        ensures
            r@ == FetchView::start(role_name@, hardened, host@),
    {
        RoleFetch {
            role_name: role_name.to_owned(),
            host: host.to_owned(),
            stage: if hardened {
                FetchStage::AwaitingToken
            } else {
                FetchStage::AwaitingCredentials { token: None }
            },
        }
    }

    /// The call to send now.
    pub fn request(&self) -> (r: MetadataRequest)
        ensures
            r@ == self@.request(),
    {
        match &self.stage {
            FetchStage::AwaitingToken => MetadataRequest {
                method: HttpMethod::Put,
                url: String::from_str("http://").concat(self.host.as_str()).concat(
                    "/latest/api/token",
                ),
                header: Some((TOKEN_TTL_HEADER.to_owned(), TOKEN_TTL_SECONDS.to_owned())),
                timeout_secs: METADATA_TIMEOUT_SECS,
            },
            FetchStage::AwaitingCredentials { token } => MetadataRequest {
                method: HttpMethod::Get,
                url: String::from_str("http://").concat(self.host.as_str()).concat(
                    "/latest/meta-data/ram/security-credentials/",
                ).concat(self.role_name.as_str()),
                header: match token {
                    Some(t) => Some((TOKEN_HEADER.to_owned(), t.clone())),
                    None => None,
                },
                timeout_secs: METADATA_TIMEOUT_SECS,
            },
        }
    }

    /// Takes the reply to the call last sent.
    pub fn advance(self, reply: HttpReply) -> (r: FetchStep)
        ensures
            r@ == self@.advance(reply@),
            r matches FetchStep::Done(Ok(m)) ==> m@.complete(),
    {
        match self.stage {
            FetchStage::AwaitingToken => match reply.into_body() {
                Err(f) => FetchStep::Done(Err(CredentialError::MetadataTokenError(f))),
                Ok(token) => FetchStep::Send(
                    RoleFetch {
                        role_name: self.role_name,
                        host: self.host,
                        stage: FetchStage::AwaitingCredentials { token: Some(token) },
                    },
                ),
            },
            FetchStage::AwaitingCredentials { .. } => match reply.into_body() {
                Err(f) => FetchStep::Done(Err(CredentialError::MetadataFetchError(f))),
                Ok(body) => FetchStep::Done(material_from_body(body.as_str())),
            },
        }
    }
}

} // verus!
