//! Credential material: the values that sign a request.

use crate::error::{CredentialError, ErrorView};
use crate::text::opt_text;
use vstd::prelude::*;

verus! {

/// The model of a [`CredentialMaterial`].
pub struct MaterialView {
    pub access_key_id: Seq<char>,
    pub access_key_secret: Seq<char>,
    pub session_token: Option<Seq<char>>,
}

impl MaterialView {
    /// Key id and key secret are not empty, and a session token, where there
    /// is one, is not empty either.
    pub open spec fn complete(self) -> bool {
        &&& self.access_key_id.len() > 0
        &&& self.access_key_secret.len() > 0
        &&& (self.session_token matches Some(t) ==> t.len() > 0)
    }
}

/// What the given texts make: material, with an empty token read as no token,
/// or `IncompleteCredential` where the key id or the key secret is empty.
pub open spec fn material_from(
    access_key_id: Seq<char>,
    access_key_secret: Seq<char>,
    session_token: Option<Seq<char>>,
) -> Result<MaterialView, ErrorView> {
    if access_key_id.len() == 0 || access_key_secret.len() == 0 {
        Err(ErrorView::IncompleteCredential)
    } else {
        Ok(
            MaterialView {
                access_key_id,
                access_key_secret,
                session_token: match session_token {
                    Some(t) if t.len() > 0 => Some(t),
                    _ => None,
                },
            },
        )
    }
}

/// The model of material or the error in its place.
pub open spec fn outcome_view(r: Result<CredentialMaterial, CredentialError>) -> Result<
    MaterialView,
    ErrorView,
> {
    match r {
        Ok(m) => Ok(m@),
        Err(e) => Err(e@),
    }
}

/// An access key id, its secret and, for temporary credentials, the session
/// token. A value of this type is always complete: see
/// [`MaterialView::complete`].
#[derive(Debug, PartialEq, Eq)]
pub struct CredentialMaterial {
    access_key_id: String,
    access_key_secret: String,
    session_token: Option<String>,
}

impl View for CredentialMaterial {
    type V = MaterialView;

    closed spec fn view(&self) -> MaterialView {
        MaterialView {
            access_key_id: self.access_key_id@,
            access_key_secret: self.access_key_secret@,
            session_token: opt_text(self.session_token),
        }
    }
}

impl Clone for CredentialMaterial {
    fn clone(&self) -> (r: Self)
        ensures
            r == *self,
            r@.complete(),
    {
        proof {
            use_type_invariant(self);
        }
        CredentialMaterial {
            access_key_id: self.access_key_id.clone(),
            access_key_secret: self.access_key_secret.clone(),
            session_token: match &self.session_token {
                Some(t) => Some(t.clone()),
                None => None,
            },
        }
    }
}

impl CredentialMaterial {
    #[verifier::type_invariant]
    spec fn well_formed(self) -> bool {
        self@.complete()
    }

    /// Makes material of a key id, a key secret and an optional session token.
    pub fn new(access_key_id: &str, access_key_secret: &str, session_token: Option<&str>) -> (r:
        Result<Self, CredentialError>)
        ensures
            outcome_view(r) == material_from(
                access_key_id@,
                access_key_secret@,
                match session_token {
                    Some(t) => Some(t@),
                    None => None,
                },
            ),
    {
        if access_key_id.is_empty() || access_key_secret.is_empty() {
            return Err(CredentialError::IncompleteCredential);
        }
        let token = match session_token {
            Some(t) => if t.is_empty() {
                None
            } else {
                Some(t.to_owned())
            },
            None => None,
        };
        Ok(
            CredentialMaterial {
                access_key_id: access_key_id.to_owned(),
                access_key_secret: access_key_secret.to_owned(),
                session_token: token,
            },
        )
    }

    /// The access key id; never empty.
    pub fn access_key_id(&self) -> (r: &str)
        ensures
            r@ == self@.access_key_id,
            self@.complete(),
    {
        proof {
            use_type_invariant(self);
        }
        self.access_key_id.as_str()
    }

    /// The access key secret; never empty.
    pub fn access_key_secret(&self) -> (r: &str)
        ensures
            r@ == self@.access_key_secret,
            self@.complete(),
    {
        proof {
            use_type_invariant(self);
        }
        self.access_key_secret.as_str()
    }

    /// The session token: `None` for long-lived keys, and never `Some` of an
    /// empty string.
    pub fn session_token(&self) -> (r: Option<&str>)
        ensures
            match r {
                Some(t) => self@.session_token == Some(t@),
                None => self@.session_token is None,
            },
            self@.complete(),
    {
        proof {
            use_type_invariant(self);
        }
        match &self.session_token {
            Some(t) => Some(t.as_str()),
            None => None,
        }
    }
}

} // verus!
