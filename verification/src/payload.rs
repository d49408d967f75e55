//! The role-credentials payload of the instance metadata service.

use crate::error::{CredentialError, ErrorView};
use crate::json::{error_text, json_parse, member, parse_value, string_member};
use crate::material::{material_from, outcome_view, CredentialMaterial, MaterialView};
use crate::text::{opt_text, str_eq};
use vstd::prelude::*;

verus! {

/// The member that holds the access key id.
pub const MEMBER_ACCESS_KEY_ID: &'static str = "AccessKeyId";

/// The member that holds the access key secret.
pub const MEMBER_ACCESS_KEY_SECRET: &'static str = "AccessKeySecret";

/// The member that holds the time at which the service lets the credentials
/// lapse.
pub const MEMBER_EXPIRATION: &'static str = "Expiration";

/// The member that holds the session token.
pub const MEMBER_SECURITY_TOKEN: &'static str = "SecurityToken";

/// The member that holds the time of the last rotation.
pub const MEMBER_LAST_UPDATED: &'static str = "LastUpdated";

/// The member that holds the status code.
pub const MEMBER_CODE: &'static str = "Code";

/// The status code of a payload that may be trusted.
pub const CODE_SUCCESS: &'static str = "Success";

/// The payload that the service returns for a role, member by member.
#[derive(Debug, PartialEq, Eq)]
pub struct GetRamSecurityCredentialsResponse {
    pub access_key_id: String,
    pub access_key_secret: String,
    pub expiration: String,
    pub security_token: String,
    pub last_updated: String,
    pub code: String,
}

/// The model of a [`GetRamSecurityCredentialsResponse`].
pub struct RoleResponseView {
    pub access_key_id: Seq<char>,
    pub access_key_secret: Seq<char>,
    pub expiration: Seq<char>,
    pub security_token: Seq<char>,
    pub last_updated: Seq<char>,
    pub code: Seq<char>,
}

impl View for GetRamSecurityCredentialsResponse {
    type V = RoleResponseView;

    open spec fn view(&self) -> RoleResponseView {
        RoleResponseView {
            access_key_id: self.access_key_id@,
            access_key_secret: self.access_key_secret@,
            expiration: self.expiration@,
            security_token: self.security_token@,
            last_updated: self.last_updated@,
            code: self.code@,
        }
    }
}

/// The model of a payload or the error in its place.
pub open spec fn response_view(
    r: Result<GetRamSecurityCredentialsResponse, CredentialError>,
) -> Result<RoleResponseView, ErrorView> {
    match r {
        Ok(p) => Ok(p@),
        Err(e) => Err(e@),
    }
}

/// The text of the error for a payload that lacks the member `name`.
pub open spec fn missing_member_text(name: Seq<char>) -> Seq<char> {
    "missing field `"@ + name + "`"@
}

/// The text of the error for a payload whose status code is `code`, not the
/// success code.
pub open spec fn bad_code_text(code: Seq<char>) -> Seq<char> {
    "unexpected response code `"@ + code + "`"@
}

/// The error for a payload that lacks the member `name`.
pub open spec fn missing_member(name: Seq<char>) -> ErrorView {
    ErrorView::InvalidMetadataResponse(missing_member_text(name))
}

/// The payload that six optional members make. All six are required; the
/// error names the first that is missing, in the order of the parameters.
pub open spec fn response_from_members(
    access_key_id: Option<Seq<char>>,
    access_key_secret: Option<Seq<char>>,
    expiration: Option<Seq<char>>,
    security_token: Option<Seq<char>>,
    last_updated: Option<Seq<char>>,
    code: Option<Seq<char>>,
) -> Result<RoleResponseView, ErrorView> {
    if access_key_id is None {
        Err(missing_member(MEMBER_ACCESS_KEY_ID@))
    } else if access_key_secret is None {
        Err(missing_member(MEMBER_ACCESS_KEY_SECRET@))
    } else if expiration is None {
        Err(missing_member(MEMBER_EXPIRATION@))
    } else if security_token is None {
        Err(missing_member(MEMBER_SECURITY_TOKEN@))
    } else if last_updated is None {
        Err(missing_member(MEMBER_LAST_UPDATED@))
    } else if code is None {
        Err(missing_member(MEMBER_CODE@))
    } else {
        Ok(
            RoleResponseView {
                access_key_id: access_key_id->0,
                access_key_secret: access_key_secret->0,
                expiration: expiration->0,
                security_token: security_token->0,
                last_updated: last_updated->0,
                code: code->0,
            },
        )
    }
}

/// The payload that a parsed document makes: a document that did not parse
/// is invalid, with the parser's message; one that parsed gives its six
/// string members.
pub open spec fn response_from_document(
    document: Result<Map<Seq<char>, Seq<char>>, Seq<char>>,
) -> Result<RoleResponseView, ErrorView> {
    match document {
        Err(text) => Err(ErrorView::InvalidMetadataResponse(text)),
        Ok(members) => response_from_members(
            member(members, MEMBER_ACCESS_KEY_ID@),
            member(members, MEMBER_ACCESS_KEY_SECRET@),
            member(members, MEMBER_EXPIRATION@),
            member(members, MEMBER_SECURITY_TOKEN@),
            member(members, MEMBER_LAST_UPDATED@),
            member(members, MEMBER_CODE@),
        ),
    }
}

/// The material that a payload gives. A payload without the success code is
/// invalid; one with an empty key id or key secret is incomplete; an empty
/// session token is read as no token.
pub open spec fn material_of_response(p: RoleResponseView) -> Result<MaterialView, ErrorView> {
    if p.code != CODE_SUCCESS@ {
        Err(ErrorView::InvalidMetadataResponse(bad_code_text(p.code)))
    } else {
        material_from(p.access_key_id, p.access_key_secret, Some(p.security_token))
    }
}

/// The material that the body of a role-credentials reply gives.
pub open spec fn material_of_body(body: Seq<char>) -> Result<MaterialView, ErrorView> {
    match response_from_document(json_parse(body)) {
        Ok(p) => material_of_response(p),
        Err(e) => Err(e),
    }
}

fn missing(name: &str) -> (e: CredentialError)
    ensures
        e@ == missing_member(name@),
{
    CredentialError::InvalidMetadataResponse(String::from_str("missing field `").concat(name).concat("`"))
}

impl GetRamSecurityCredentialsResponse {
    /// Makes a payload of its six members, each as the document gave it.
    pub fn from_members(
        access_key_id: Option<String>,
        access_key_secret: Option<String>,
        expiration: Option<String>,
        security_token: Option<String>,
        last_updated: Option<String>,
        code: Option<String>,
    ) -> (r: Result<Self, CredentialError>)
        ensures
            response_view(r) == response_from_members(
                opt_text(access_key_id),
                opt_text(access_key_secret),
                opt_text(expiration),
                opt_text(security_token),
                opt_text(last_updated),
                opt_text(code),
            ),
    {
        let access_key_id = match access_key_id {
            Some(s) => s,
            None => return Err(missing(MEMBER_ACCESS_KEY_ID)),
        };
        let access_key_secret = match access_key_secret {
            Some(s) => s,
            None => return Err(missing(MEMBER_ACCESS_KEY_SECRET)),
        };
        let expiration = match expiration {
            Some(s) => s,
            None => return Err(missing(MEMBER_EXPIRATION)),
        };
        let security_token = match security_token {
            Some(s) => s,
            None => return Err(missing(MEMBER_SECURITY_TOKEN)),
        };
        let last_updated = match last_updated {
            Some(s) => s,
            None => return Err(missing(MEMBER_LAST_UPDATED)),
        };
        let code = match code {
            Some(s) => s,
            None => return Err(missing(MEMBER_CODE)),
        };
        Ok(
            GetRamSecurityCredentialsResponse {
                access_key_id,
                access_key_secret,
                expiration,
                security_token,
                last_updated,
                code,
            },
        )
    }

    /// Parses the body of a role-credentials reply.
    pub fn parse(body: &str) -> (r: Result<Self, CredentialError>)
        ensures
            response_view(r) == response_from_document(json_parse(body@)),
    {
        match parse_value(body) {
            Err(e) => Err(CredentialError::InvalidMetadataResponse(error_text(&e))),
            Ok(value) => Self::from_members(
                string_member(&value, MEMBER_ACCESS_KEY_ID),
                string_member(&value, MEMBER_ACCESS_KEY_SECRET),
                string_member(&value, MEMBER_EXPIRATION),
                string_member(&value, MEMBER_SECURITY_TOKEN),
                string_member(&value, MEMBER_LAST_UPDATED),
                string_member(&value, MEMBER_CODE),
            ),
        }
    }

    /// The material that the payload gives, once its status code is checked.
    pub fn material(&self) -> (r: Result<CredentialMaterial, CredentialError>)
        ensures
            outcome_view(r) == material_of_response(self@),
            r matches Ok(m) ==> m@.complete(),
    {
        if !str_eq(self.code.as_str(), CODE_SUCCESS) {
            return Err(
                CredentialError::InvalidMetadataResponse(
                    String::from_str("unexpected response code `").concat(self.code.as_str()).concat(
                        "`",
                    ),
                ),
            );
        }
        CredentialMaterial::new(
            self.access_key_id.as_str(),
            self.access_key_secret.as_str(),
            Some(self.security_token.as_str()),
        )
    }
}

/// Reads the body of a role-credentials reply into material.
pub fn material_from_body(body: &str) -> (r: Result<CredentialMaterial, CredentialError>)
    ensures
        outcome_view(r) == material_of_body(body@),
        r matches Ok(m) ==> m@.complete(),
{
    match GetRamSecurityCredentialsResponse::parse(body) {
        Ok(p) => p.material(),
        Err(e) => Err(e),
    }
}

} // verus!
