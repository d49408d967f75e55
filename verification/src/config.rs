//! The credential configuration and its cache.
//!
//! A [`CredentialConfig`] names one source of credentials: a key pair, with
//! or without a session token, or the role of the instance. Material of a key
//! pair is at hand at once. Material of a role is fetched from the instance
//! metadata service and kept until [`CACHE_WINDOW_MILLIS`] have passed.
//!
//! Resolution is a conversation. [`CredentialConfig::provider_credential_config`]
//! answers with the material, with an error, or with a fetch whose request the
//! caller is to send; [`CredentialConfig::resume`] takes each reply. The
//! caller brings the time, in milliseconds since the epoch, and whatever lock
//! it shares the configuration under: reading needs `&self`, only
//! `resume` needs `&mut self`.

use crate::environment::{
    flag_is_on, parse_flag, ENV_KMS_ACCESS_KEY_ID, ENV_KMS_ACCESS_KEY_SECRET,
    ENV_KMS_ECS_RAM_ROLE, ENV_KMS_ECS_SECURITY_HARDEN, ENV_KMS_SECURITY_TOKEN,
};
use crate::error::{CredentialError, ErrorView};
use crate::material::{material_from, CredentialMaterial, MaterialView};
use crate::metadata::{
    FetchStep, FetchView, HttpReply, ReplyView, RoleFetch, StepView, DEFAULT_META_SERVER_HOST,
};
use crate::text::{clone_opt, lookup, opt_text, pair_texts, pair_value};
use vstd::prelude::*;

verus! {

/// How long fetched material is served, in milliseconds.
///
/// The window is fixed: the expiration that the metadata service declares
/// neither shortens nor lengthens it. Material is therefore fetched anew
/// every half hour, however long the service would let it live, and material
/// that the service lets lapse sooner is served until the window ends.
pub const CACHE_WINDOW_MILLIS: u64 = 1_800_000;

/// Fetched material and the time, in milliseconds since the epoch, from which
/// on it is stale.
#[derive(Debug, PartialEq, Eq)]
pub struct CachedCredential {
    pub material: CredentialMaterial,
    pub expires_at: u128,
}

/// The model of a [`CachedCredential`].
pub struct CacheView {
    pub material: MaterialView,
    pub expires_at: int,
}

impl View for CachedCredential {
    type V = CacheView;

    open spec fn view(&self) -> CacheView {
        CacheView { material: self.material@, expires_at: self.expires_at as int }
    }
}

/// The state of the cache at a given time.
#[derive(Debug, Clone, Copy, PartialEq, Eq, Structural)]
pub enum CacheState {
    /// Nothing was fetched yet.
    Empty,
    /// The entry is served: the time is before its expiry.
    Valid,
    /// The entry is no longer served: the time is its expiry or later.
    Stale,
}

/// Where credentials come from.
#[derive(Debug, PartialEq, Eq)]
pub enum CredentialSource {
    /// Keys that the caller supplied. They never expire.
    Static(CredentialMaterial),
    /// The role of the instance, whose credentials the metadata service
    /// hands out; in hardened mode only against a negotiated token.
    RoleReference { role_name: String, hardened: bool },
}

/// The model of a [`CredentialSource`].
pub enum SourceView {
    Static(MaterialView),
    RoleReference { role_name: Seq<char>, hardened: bool },
}

impl View for CredentialSource {
    type V = SourceView;

    open spec fn view(&self) -> SourceView {
        match *self {
            CredentialSource::Static(m) => SourceView::Static(m@),
            CredentialSource::RoleReference { role_name, hardened } => SourceView::RoleReference {
                role_name: role_name@,
                hardened,
            },
        }
    }
}

/// The answer to a request for current credentials.
#[derive(Debug, PartialEq, Eq)]
pub enum Resolution {
    /// The current material. No call to the metadata service is needed.
    Ready(CredentialMaterial),
    /// Send the request of this fetch, and hand the reply to
    /// [`CredentialConfig::resume`].
    Send(RoleFetch),
    /// There is no current material, and why.
    Failed(CredentialError),
}

/// The model of a [`Resolution`].
pub enum ResolutionView {
    Ready(MaterialView),
    Send(FetchView),
    Failed(ErrorView),
}

impl View for Resolution {
    type V = ResolutionView;

    open spec fn view(&self) -> ResolutionView {
        match *self {
            Resolution::Ready(m) => ResolutionView::Ready(m@),
            Resolution::Send(fetch) => ResolutionView::Send(fetch@),
            Resolution::Failed(e) => ResolutionView::Failed(e@),
        }
    }
}

/// The model of a [`CredentialConfig`].
pub struct ConfigView {
    pub access_key_id: Option<Seq<char>>,
    pub access_key_secret: Option<Seq<char>>,
    pub security_token: Option<Seq<char>>,
    pub ecs_security_harden: Option<bool>,
    pub ecs_ram_role: Option<Seq<char>>,
    pub meta_server_host: Option<Seq<char>>,
    pub cache: Option<CacheView>,
}

impl ConfigView {
    /// A configuration that names no source.
    pub open spec fn empty() -> ConfigView {
        ConfigView {
            access_key_id: None,
            access_key_secret: None,
            security_token: None,
            ecs_security_harden: None,
            ecs_ram_role: None,
            meta_server_host: None,
            cache: None,
        }
    }

    /// A configuration of a key pair and, where given, a session token.
    pub open spec fn keys(
        access_key_id: Seq<char>,
        access_key_secret: Seq<char>,
        security_token: Option<Seq<char>>,
    ) -> ConfigView {
        ConfigView {
            access_key_id: Some(access_key_id),
            access_key_secret: Some(access_key_secret),
            security_token,
            ..ConfigView::empty()
        }
    }

    /// A configuration of an instance role.
    pub open spec fn role(role_name: Seq<char>, hardened: Option<bool>) -> ConfigView {
        ConfigView {
            ecs_ram_role: Some(role_name),
            ecs_security_harden: hardened,
            ..ConfigView::empty()
        }
    }

    /// The configuration that a list of environment variables gives.
    ///
    /// A key id and a key secret that are both set and not empty give a key
    /// pair, whether or not a role is named as well; the session token joins
    /// them where it is set and not empty. Otherwise a role name that is set
    /// gives the role, in hardened mode as the flag says. Otherwise there is
    /// no source.
    pub open spec fn from_env(vars: Seq<(Seq<char>, Seq<char>)>) -> Result<ConfigView, ErrorView> {
        let id = pair_value(vars, ENV_KMS_ACCESS_KEY_ID@);
        let secret = pair_value(vars, ENV_KMS_ACCESS_KEY_SECRET@);
        let token = pair_value(vars, ENV_KMS_SECURITY_TOKEN@);
        let role = pair_value(vars, ENV_KMS_ECS_RAM_ROLE@);
        let harden = pair_value(vars, ENV_KMS_ECS_SECURITY_HARDEN@);
        if id is Some && id->0.len() > 0 && secret is Some && secret->0.len() > 0 {
            Ok(
                ConfigView::keys(
                    id->0,
                    secret->0,
                    if token is Some && token->0.len() > 0 {
                        token
                    } else {
                        None
                    },
                ),
            )
        } else if role is Some {
            Ok(
                ConfigView::role(
                    role->0,
                    match harden {
                        Some(text) => Some(flag_is_on(text)),
                        None => None,
                    },
                ),
            )
        } else {
            Err(ErrorView::NoCredentialSource)
        }
    }

    /// The host of the metadata service: the one configured, or the default.
    pub open spec fn host(self) -> Seq<char> {
        match self.meta_server_host {
            Some(h) => h,
            None => DEFAULT_META_SERVER_HOST@,
        }
    }

    /// The source that the configuration names.
    ///
    /// A role name makes it a role reference, hardened only where the flag is
    /// set and true. Without a role name, a key id and a key secret make
    /// static material, and are incomplete where one of them is missing or
    /// empty. With none of the three there is no source.
    pub open spec fn source(self) -> Result<SourceView, ErrorView> {
        match self.ecs_ram_role {
            Some(role_name) => Ok(
                SourceView::RoleReference {
                    role_name,
                    hardened: self.ecs_security_harden == Some(true),
                },
            ),
            None => match (self.access_key_id, self.access_key_secret) {
                (Some(id), Some(secret)) => match material_from(id, secret, self.security_token) {
                    Ok(m) => Ok(SourceView::Static(m)),
                    Err(e) => Err(e),
                },
                (None, None) => Err(ErrorView::NoCredentialSource),
                _ => Err(ErrorView::IncompleteCredential),
            },
        }
    }

    /// The state of the cache at the time `now`.
    pub open spec fn cache_state(self, now: int) -> CacheState {
        match self.cache {
            None => CacheState::Empty,
            Some(c) => if now < c.expires_at {
                CacheState::Valid
            } else {
                CacheState::Stale
            },
        }
    }

    /// The answer to a request for current credentials at the time `now`.
    ///
    /// Static material is the answer at any time. For a role the cached
    /// material is the answer while it is valid; with an empty or stale cache
    /// the answer is a fresh fetch.
    pub open spec fn resolve(self, now: int) -> ResolutionView {
        match self.source() {
            Err(e) => ResolutionView::Failed(e),
            Ok(SourceView::Static(m)) => ResolutionView::Ready(m),
            Ok(SourceView::RoleReference { role_name, hardened }) => match self.cache_state(now) {
                CacheState::Valid => ResolutionView::Ready(self.cache->0.material),
                _ => ResolutionView::Send(FetchView::start(role_name, hardened, self.host())),
            },
        }
    }

    /// The configuration with `material` cached at the time `now`.
    pub open spec fn stored(self, material: MaterialView, now: int) -> ConfigView {
        ConfigView {
            cache: Some(CacheView { material, expires_at: now + CACHE_WINDOW_MILLIS }),
            ..self
        }
    }

    /// The configuration after the reply `reply` to the request of `fetch`,
    /// taken at the time `now`. Only a fetch that ends in material changes
    /// it, and only where the configuration names a role: the material is
    /// cached. A failed fetch leaves the cache as it was.
    pub open spec fn resumed(self, fetch: FetchView, reply: ReplyView, now: int) -> ConfigView {
        match fetch.advance(reply) {
            StepView::Done(Ok(m)) if self.ecs_ram_role is Some => self.stored(m, now),
            _ => self,
        }
    }

    /// The answer after the reply `reply` to the request of `fetch`: the next
    /// call of the fetch, the material it ended in, or its error.
    pub open spec fn resumption(fetch: FetchView, reply: ReplyView) -> ResolutionView {
        match fetch.advance(reply) {
            StepView::Send(next) => ResolutionView::Send(next),
            StepView::Done(Ok(m)) => ResolutionView::Ready(m),
            StepView::Done(Err(e)) => ResolutionView::Failed(e),
        }
    }
}

/// The configuration of a credential source, with the cache of what was
/// fetched for it.
#[derive(Debug)]
pub struct CredentialConfig {
    cached_credential_config: Option<CachedCredential>,
    pub access_key_id: Option<String>,
    pub access_key_secret: Option<String>,
    pub security_token: Option<String>,
    pub ecs_security_harden: Option<bool>,
    pub ecs_ram_role: Option<String>,
    /// The host of the metadata service; `None` stands for
    /// [`DEFAULT_META_SERVER_HOST`].
    pub meta_server_host: Option<String>,
}

impl View for CredentialConfig {
    type V = ConfigView;

    closed spec fn view(&self) -> ConfigView {
        ConfigView {
            access_key_id: opt_text(self.access_key_id),
            access_key_secret: opt_text(self.access_key_secret),
            security_token: opt_text(self.security_token),
            ecs_security_harden: self.ecs_security_harden,
            ecs_ram_role: opt_text(self.ecs_ram_role),
            meta_server_host: opt_text(self.meta_server_host),
            cache: match self.cached_credential_config {
                Some(c) => Some(c@),
                None => None,
            },
        }
    }
}

impl Default for CredentialConfig {
    fn default() -> (r: Self)
        ensures
            r@ == ConfigView::empty(),
    {
        CredentialConfig {
            cached_credential_config: None,
            access_key_id: None,
            access_key_secret: None,
            security_token: None,
            ecs_security_harden: None,
            ecs_ram_role: None,
            meta_server_host: None,
        }
    }
}

impl Clone for CredentialConfig {
    /// A copy of the configuration. The copy starts with an empty cache.
    fn clone(&self) -> (r: Self)
        ensures
            r@ == (ConfigView { cache: None, ..self@ }),
    {
        CredentialConfig {
            cached_credential_config: None,
            access_key_id: clone_opt(&self.access_key_id),
            access_key_secret: clone_opt(&self.access_key_secret),
            security_token: clone_opt(&self.security_token),
            ecs_security_harden: self.ecs_security_harden,
            ecs_ram_role: clone_opt(&self.ecs_ram_role),
            meta_server_host: clone_opt(&self.meta_server_host),
        }
    }
}

impl CredentialConfig {
    /// A configuration of a long-lived key pair.
    pub fn new_ak(access_key_id: &str, access_key_secret: &str) -> (r: Self)
        ensures
            r@ == ConfigView::keys(access_key_id@, access_key_secret@, None),
    {
        CredentialConfig {
            cached_credential_config: None,
            access_key_id: Some(access_key_id.to_owned()),
            access_key_secret: Some(access_key_secret.to_owned()),
            security_token: None,
            ecs_security_harden: None,
            ecs_ram_role: None,
            meta_server_host: None,
        }
    }

    /// A configuration of a temporary key pair with its session token.
    pub fn new_sts(access_key_id: &str, access_key_secret: &str, security_token: &str) -> (r: Self)
        ensures
            r@ == ConfigView::keys(access_key_id@, access_key_secret@, Some(security_token@)),
    {
        CredentialConfig {
            cached_credential_config: None,
            access_key_id: Some(access_key_id.to_owned()),
            access_key_secret: Some(access_key_secret.to_owned()),
            security_token: Some(security_token.to_owned()),
            ecs_security_harden: None,
            ecs_ram_role: None,
            meta_server_host: None,
        }
    }

    /// A configuration of the instance role `ecs_ram_role`.
    pub fn new_ecs_ram_role(ecs_ram_role: &str) -> (r: Self)
        ensures
            r@ == ConfigView::role(ecs_ram_role@, None),
    {
        CredentialConfig {
            cached_credential_config: None,
            access_key_id: None,
            access_key_secret: None,
            security_token: None,
            ecs_security_harden: None,
            ecs_ram_role: Some(ecs_ram_role.to_owned()),
            meta_server_host: None,
        }
    }

    /// The configuration with hardened mode switched on or off. It matters
    /// where the configuration names a role.
    pub fn with_security_harden(self, hardened: bool) -> (r: Self)
        ensures
            r@ == (ConfigView { ecs_security_harden: Some(hardened), ..self@ }),
    {
        let mut config = self;
        config.ecs_security_harden = Some(hardened);
        config
    }

    /// The configuration with the metadata service at `host`.
    pub fn with_meta_server_host(self, host: &str) -> (r: Self)
        ensures
            r@ == (ConfigView { meta_server_host: Some(host@), ..self@ }),
    {
        let mut config = self;
        config.meta_server_host = Some(host.to_owned());
        config
    }

    /// The configuration that the environment variables `vars` give, or
    /// `NoCredentialSource`.
    pub fn try_from_env(vars: &Vec<(String, String)>) -> (r: Result<Self, CredentialError>)
        ensures
            match r {
                Ok(c) => ConfigView::from_env(pair_texts(vars@)) == Ok::<ConfigView, ErrorView>(c@),
                Err(e) => ConfigView::from_env(pair_texts(vars@)) == Err::<ConfigView, ErrorView>(
                    e@,
                ),
            },
    {
        let id = lookup(vars, ENV_KMS_ACCESS_KEY_ID);
        let secret = lookup(vars, ENV_KMS_ACCESS_KEY_SECRET);
        let token = lookup(vars, ENV_KMS_SECURITY_TOKEN);
        let role = lookup(vars, ENV_KMS_ECS_RAM_ROLE);
        let harden = lookup(vars, ENV_KMS_ECS_SECURITY_HARDEN);
        let keys_set = match (&id, &secret) {
            (Some(i), Some(s)) => !i.as_str().is_empty() && !s.as_str().is_empty(),
            _ => false,
        };
        if keys_set {
            let token = match token {
                Some(t) => if t.as_str().is_empty() {
                    None
                } else {
                    Some(t)
                },
                None => None,
            };
            Ok(
                CredentialConfig {
                    cached_credential_config: None,
                    access_key_id: id,
                    access_key_secret: secret,
                    security_token: token,
                    ecs_security_harden: None,
                    ecs_ram_role: None,
                    meta_server_host: None,
                },
            )
        } else if role.is_some() {
            let hardened = match harden {
                Some(text) => Some(parse_flag(text.as_str())),
                None => None,
            };
            Ok(
                CredentialConfig {
                    cached_credential_config: None,
                    access_key_id: None,
                    access_key_secret: None,
                    security_token: None,
                    ecs_security_harden: hardened,
                    ecs_ram_role: role,
                    meta_server_host: None,
                },
            )
        } else {
            Err(CredentialError::NoCredentialSource)
        }
    }

    /// The source that the configuration names.
    pub fn source(&self) -> (r: Result<CredentialSource, CredentialError>)
        ensures
            match r {
                Ok(s) => self@.source() == Ok::<SourceView, ErrorView>(s@),
                Err(e) => self@.source() == Err::<SourceView, ErrorView>(e@),
            },
            r matches Ok(CredentialSource::Static(m)) ==> m@.complete(),
    {
        match &self.ecs_ram_role {
            Some(role_name) => Ok(
                CredentialSource::RoleReference {
                    role_name: role_name.clone(),
                    hardened: match self.ecs_security_harden {
                        Some(h) => h,
                        None => false,
                    },
                },
            ),
            None => match (&self.access_key_id, &self.access_key_secret) {
                (Some(id), Some(secret)) => {
                    let token = match &self.security_token {
                        Some(t) => Some(t.as_str()),
                        None => None,
                    };
                    match CredentialMaterial::new(id.as_str(), secret.as_str(), token) {
                        Ok(m) => Ok(CredentialSource::Static(m)),
                        Err(e) => Err(e),
                    }
                },
                (None, None) => Err(CredentialError::NoCredentialSource),
                _ => Err(CredentialError::IncompleteCredential),
            },
        }
    }

    /// The host of the metadata service.
    pub fn host(&self) -> (r: &str)
        ensures
            r@ == self@.host(),
    {
        match &self.meta_server_host {
            Some(h) => h.as_str(),
            None => DEFAULT_META_SERVER_HOST,
        }
    }

    /// The cache entry, if there is one, valid or stale.
    pub fn cached(&self) -> (r: Option<&CachedCredential>)
        ensures
            match r {
                Some(c) => self@.cache == Some(c@),
                None => self@.cache is None,
            },
    {
        match &self.cached_credential_config {
            Some(c) => Some(c),
            None => None,
        }
    }

    /// The state of the cache at the time `now`.
    pub fn cache_state(&self, now: u64) -> (r: CacheState)
        ensures
            r == self@.cache_state(now as int),
    {
        match &self.cached_credential_config {
            None => CacheState::Empty,
            Some(c) => if (now as u128) < c.expires_at {
                CacheState::Valid
            } else {
                CacheState::Stale
            },
        }
    }

    /// Answers a request for current credentials at the time `now`.
    ///
    /// `Ready` holds a copy of the material: nothing the caller does with it
    /// reaches the cache.
    pub fn provider_credential_config(&self, now: u64) -> (r: Resolution)
        ensures
            r@ == self@.resolve(now as int),
            r matches Resolution::Ready(m) ==> m@.complete(),
    {
        match self.source() {
            Err(e) => Resolution::Failed(e),
            Ok(CredentialSource::Static(m)) => Resolution::Ready(m),
            Ok(CredentialSource::RoleReference { role_name, hardened }) => {
                match &self.cached_credential_config {
                    Some(c) => {
                        if (now as u128) < c.expires_at {
                            return Resolution::Ready(c.material.clone());
                        }
                    },
                    None => {},
                }
                Resolution::Send(RoleFetch::start(role_name.as_str(), hardened, self.host()))
            },
        }
    }

    /// Takes the reply `reply` to the request of `fetch`, at the time `now`.
    ///
    /// Material that the fetch ends in is cached until the window has
    /// passed, where the configuration names a role, and returned. A failure
    /// leaves the cache untouched: stale material is not served in its place.
    pub fn resume(&mut self, fetch: RoleFetch, reply: HttpReply, now: u64) -> (r: Resolution)
        ensures
            final(self)@ == old(self)@.resumed(fetch@, reply@, now as int),
            r@ == ConfigView::resumption(fetch@, reply@),
            r matches Resolution::Ready(m) ==> m@.complete(),
    {
        match fetch.advance(reply) {
            FetchStep::Send(next) => Resolution::Send(next),
            FetchStep::Done(Err(e)) => Resolution::Failed(e),
            FetchStep::Done(Ok(m)) => {
                if self.ecs_ram_role.is_some() {
                    self.cached_credential_config = Some(
                        CachedCredential {
                            material: m.clone(),
                            expires_at: now as u128 + CACHE_WINDOW_MILLIS as u128,
                        },
                    );
                }
                Resolution::Ready(m)
            },
        }
    }
}

} // verus!
