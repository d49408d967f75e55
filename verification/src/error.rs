//! The failures of credential resolution.

use vstd::prelude::*;

verus! {

/// Why a call to the instance metadata service brought no usable reply.
#[derive(Debug, PartialEq, Eq)]
pub enum TransportFailure {
    /// The request did not complete; the text says why.
    Network(String),
    /// The service answered with a status outside 200..=299.
    Status(u16),
}

/// A failed resolution. Each cause keeps its own variant, so that a caller can
/// tell bad configuration from an unreachable metadata service from a payload
/// that cannot be trusted.
#[derive(Debug, PartialEq, Eq)]
pub enum CredentialError {
    /// The configuration names neither a complete key pair nor a role.
    NoCredentialSource,
    /// Negotiating the metadata token failed.
    MetadataTokenError(TransportFailure),
    /// Retrieving the role's credentials failed.
    MetadataFetchError(TransportFailure),
    /// The role-credentials payload did not parse, lacks a member, or does not
    /// carry the success code; the text says which.
    InvalidMetadataResponse(String),
    /// The key id or the key secret is missing or empty.
    IncompleteCredential,
}

/// The model of a [`TransportFailure`].
pub enum TransportView {
    Network(Seq<char>),
    Status(u16),
}

/// The model of a [`CredentialError`].
pub enum ErrorView {
    NoCredentialSource,
    MetadataTokenError(TransportView),
    MetadataFetchError(TransportView),
    InvalidMetadataResponse(Seq<char>),
    IncompleteCredential,
}

impl View for TransportFailure {
    type V = TransportView;

    open spec fn view(&self) -> TransportView {
        match *self {
            TransportFailure::Network(text) => TransportView::Network(text@),
            TransportFailure::Status(code) => TransportView::Status(code),
        }
    }
}

impl View for CredentialError {
    type V = ErrorView;

    open spec fn view(&self) -> ErrorView {
        match *self {
            CredentialError::NoCredentialSource => ErrorView::NoCredentialSource,
            CredentialError::MetadataTokenError(f) => ErrorView::MetadataTokenError(f@),
            CredentialError::MetadataFetchError(f) => ErrorView::MetadataFetchError(f@),
            CredentialError::InvalidMetadataResponse(text) => ErrorView::InvalidMetadataResponse(
                text@,
            ),
            CredentialError::IncompleteCredential => ErrorView::IncompleteCredential,
        }
    }
}

impl Clone for TransportFailure {
    fn clone(&self) -> (r: Self)
        ensures
            r == *self,
    {
        match self {
            TransportFailure::Network(text) => TransportFailure::Network(text.clone()),
            TransportFailure::Status(code) => TransportFailure::Status(*code),
        }
    }
}

impl Clone for CredentialError {
    fn clone(&self) -> (r: Self)
        ensures
            r == *self,
    {
        match self {
            CredentialError::NoCredentialSource => CredentialError::NoCredentialSource,
            CredentialError::MetadataTokenError(f) => CredentialError::MetadataTokenError(
                f.clone(),
            ),
            CredentialError::MetadataFetchError(f) => CredentialError::MetadataFetchError(
                f.clone(),
            ),
            CredentialError::InvalidMetadataResponse(text) => {
                CredentialError::InvalidMetadataResponse(text.clone())
            },
            CredentialError::IncompleteCredential => CredentialError::IncompleteCredential,
        }
    }
}

impl ErrorView {
    /// The name of the variant, as [`CredentialError::name`] returns it.
    pub open spec fn name(self) -> Seq<char> {
        match self {
            ErrorView::NoCredentialSource => "NoCredentialSource"@,
            ErrorView::MetadataTokenError(_) => "MetadataTokenError"@,
            ErrorView::MetadataFetchError(_) => "MetadataFetchError"@,
            ErrorView::InvalidMetadataResponse(_) => "InvalidMetadataResponse"@,
            ErrorView::IncompleteCredential => "IncompleteCredential"@,
        }
    }
}

impl CredentialError {
    /// The name of the variant: a stable code for logs and for error types
    /// that carry one.
    pub fn name(&self) -> (r: &'static str)
        ensures
            r@ == self@.name(),
    {
        match self {
            CredentialError::NoCredentialSource => "NoCredentialSource",
            CredentialError::MetadataTokenError(_) => "MetadataTokenError",
            CredentialError::MetadataFetchError(_) => "MetadataFetchError",
            CredentialError::InvalidMetadataResponse(_) => "InvalidMetadataResponse",
            CredentialError::IncompleteCredential => "IncompleteCredential",
        }
    }
}

} // verus!
