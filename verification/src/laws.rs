//! What holds of credential resolution as a whole, proved from the models
//! that the contracts of the library are stated over.

use crate::config::{CacheState, CacheView, ConfigView, ResolutionView, CACHE_WINDOW_MILLIS};
use crate::environment::{
    ENV_KMS_ACCESS_KEY_ID, ENV_KMS_ACCESS_KEY_SECRET, ENV_KMS_ECS_RAM_ROLE,
};
use crate::error::ErrorView;
use crate::json::{json_parse, member};
use crate::material::{material_from, MaterialView};
use crate::metadata::{
    credentials_url, token_url, FetchView, HttpMethod, ReplyView, RequestView, StepView,
    METADATA_TIMEOUT_SECS, TOKEN_HEADER, TOKEN_TTL_HEADER, TOKEN_TTL_SECONDS,
};
use crate::payload::{
    material_of_body, missing_member, response_from_document, MEMBER_ACCESS_KEY_ID,
};
use crate::text::pair_value;
use vstd::prelude::*;

verus! {

/// Fetched material is served from the cache until its window has passed.
///
/// Let a configuration name a role, and let a fetch end in material at the
/// time `now`. Then that material is the answer, and the configuration is
/// left such that at every time before `now + CACHE_WINDOW_MILLIS` the answer
/// is the same material, with no call, while at that time and at every later
/// one the answer is one fresh fetch.
pub proof fn cache_serves_until_expiry(
    config: ConfigView,
    fetch: FetchView,
    reply: ReplyView,
    now: int,
    later: int,
)
    requires
        config.source() is Ok,
        config.source()->Ok_0 is RoleReference,
        fetch.advance(reply) is Done,
        fetch.advance(reply)->Done_0 is Ok,
    ensures
        ({
            let material = fetch.advance(reply)->Done_0->Ok_0;
            let after = config.resumed(fetch, reply, now);
            let expires_at = now + CACHE_WINDOW_MILLIS;
            &&& ConfigView::resumption(fetch, reply) == ResolutionView::Ready(material)
            &&& after.cache == Some(CacheView { material, expires_at })
            &&& later < expires_at ==> after.cache_state(later) == CacheState::Valid
                && after.resolve(later) == ResolutionView::Ready(material)
            &&& later >= expires_at ==> after.cache_state(later) == CacheState::Stale
                && after.resolve(later) == ResolutionView::Send(
                FetchView::start(
                    config.source()->Ok_0->role_name,
                    config.source()->Ok_0->hardened,
                    config.host(),
                ),
            )
        }),
{
}

/// A failed fetch changes nothing: the configuration, its cache included, is
/// afterwards what it was before, and the answer is the error of the fetch.
pub proof fn failed_fetch_keeps_cache(
    config: ConfigView,
    fetch: FetchView,
    reply: ReplyView,
    now: int,
)
    requires
        fetch.advance(reply) is Done,
        fetch.advance(reply)->Done_0 is Err,
    ensures
        config.resumed(fetch, reply, now) == config,
        ConfigView::resumption(fetch, reply) == ResolutionView::Failed(
            fetch.advance(reply)->Done_0->Err_0,
        ),
{
}

/// A static source needs no call, ever: at every time, and whatever the cache
/// holds, the answer is the material that the configuration was given.
pub proof fn static_source_never_fetches(config: ConfigView, now: int)
    requires
        config.source() is Ok,
        config.source()->Ok_0 is Static,
    ensures
        config.resolve(now) == ResolutionView::Ready(config.source()->Ok_0->Static_0),
        config.access_key_id is Some,
        config.access_key_secret is Some,
        material_from(config.access_key_id->0, config.access_key_secret->0, config.security_token)
            == Ok::<MaterialView, ErrorView>(config.source()->Ok_0->Static_0),
{
}

/// A key pair that is not empty resolves to itself at every time.
pub proof fn key_pair_resolves_to_itself(
    access_key_id: Seq<char>,
    access_key_secret: Seq<char>,
    now: int,
)
    requires
        access_key_id.len() > 0,
        access_key_secret.len() > 0,
    ensures
        ConfigView::keys(access_key_id, access_key_secret, None).resolve(now)
            == ResolutionView::Ready(
            MaterialView { access_key_id, access_key_secret, session_token: None },
        ),
{
}

/// In the environment, keys win over a role: where the key id and the key
/// secret are both set and not empty, the configuration is one of these keys
/// and its source is static, also where a role name is set.
pub proof fn environment_keys_win(vars: Seq<(Seq<char>, Seq<char>)>)
    requires
        pair_value(vars, ENV_KMS_ACCESS_KEY_ID@) matches Some(id) && id.len() > 0,
        pair_value(vars, ENV_KMS_ACCESS_KEY_SECRET@) matches Some(secret) && secret.len() > 0,
    ensures
        ConfigView::from_env(vars) is Ok,
        ConfigView::from_env(vars)->Ok_0.ecs_ram_role is None,
        ConfigView::from_env(vars)->Ok_0.source() is Ok,
        ConfigView::from_env(vars)->Ok_0.source()->Ok_0 is Static,
        ConfigView::from_env(vars)->Ok_0.source()->Ok_0->Static_0.access_key_id == pair_value(
            vars,
            ENV_KMS_ACCESS_KEY_ID@,
        )->0,
        ConfigView::from_env(vars)->Ok_0.source()->Ok_0->Static_0.access_key_secret == pair_value(
            vars,
            ENV_KMS_ACCESS_KEY_SECRET@,
        )->0,
{
}

/// In the environment, a role is used only for want of keys: where the
/// configuration names a role, the key id or the key secret is unset or
/// empty, and the role name is set.
pub proof fn environment_role_needs_missing_keys(vars: Seq<(Seq<char>, Seq<char>)>)
    requires
        ConfigView::from_env(vars) is Ok,
        ConfigView::from_env(vars)->Ok_0.source() is Ok,
        ConfigView::from_env(vars)->Ok_0.source()->Ok_0 is RoleReference,
    ensures
        pair_value(vars, ENV_KMS_ECS_RAM_ROLE@) is Some,
        !(pair_value(vars, ENV_KMS_ACCESS_KEY_ID@) matches Some(id) && id.len() > 0) || !(
        pair_value(vars, ENV_KMS_ACCESS_KEY_SECRET@) matches Some(secret) && secret.len() > 0),
{
}

/// A hardened fetch begins with the negotiation, and a failed negotiation
/// ends it: the error is `MetadataTokenError`, and no call for the
/// credentials follows.
pub proof fn failed_negotiation_ends_fetch(
    role_name: Seq<char>,
    host: Seq<char>,
    reply: ReplyView,
)
    requires
        reply.body() is Err,
    ensures
        FetchView::start(role_name, true, host).request() == (RequestView {
            method: HttpMethod::Put,
            url: token_url(host),
            header: Some((TOKEN_TTL_HEADER@, TOKEN_TTL_SECONDS@)),
            timeout_secs: METADATA_TIMEOUT_SECS,
        }),
        FetchView::start(role_name, true, host).advance(reply) == StepView::Done(
            Err(ErrorView::MetadataTokenError(reply.body()->Err_0)),
        ),
        ConfigView::resumption(FetchView::start(role_name, true, host), reply)
            == ResolutionView::Failed(ErrorView::MetadataTokenError(reply.body()->Err_0)),
{
}

/// A negotiated token is carried by the call for the credentials, which is
/// the last call of the fetch.
pub proof fn negotiated_token_is_sent(
    role_name: Seq<char>,
    host: Seq<char>,
    token_reply: ReplyView,
    reply: ReplyView,
)
    requires
        token_reply.body() is Ok,
    ensures
        FetchView::start(role_name, true, host).advance(token_reply) is Send,
        ({
            let next = FetchView::start(role_name, true, host).advance(token_reply)->Send_0;
            &&& next.request() == (RequestView {
                method: HttpMethod::Get,
                url: credentials_url(host, role_name),
                header: Some((TOKEN_HEADER@, token_reply.body()->Ok_0)),
                timeout_secs: METADATA_TIMEOUT_SECS,
            })
            &&& next.advance(reply) is Done
        }),
{
}

/// A fetch that is not hardened makes one call, for the credentials, and
/// that call carries no token header.
pub proof fn plain_fetch_sends_no_token(role_name: Seq<char>, host: Seq<char>, reply: ReplyView)
    ensures
        FetchView::start(role_name, false, host).request() == (RequestView {
            method: HttpMethod::Get,
            url: credentials_url(host, role_name),
            header: None,
            timeout_secs: METADATA_TIMEOUT_SECS,
        }),
        FetchView::start(role_name, false, host).advance(reply) is Done,
{
}

/// A fetch is over after two calls at most, and each of its calls is given
/// the same bounded time.
pub proof fn fetch_ends_after_two_calls(fetch: FetchView, first: ReplyView, second: ReplyView)
    ensures
        fetch.request().timeout_secs == METADATA_TIMEOUT_SECS,
        fetch.advance(first) matches StepView::Send(next) ==> next.advance(second) is Done
            && next.request().timeout_secs == METADATA_TIMEOUT_SECS,
{
}

/// A payload gives complete material or an error, never material with an
/// empty key id or key secret. A body that does not parse, or that lacks the
/// key id, is invalid.
pub proof fn payload_gives_complete_material_or_error(body: Seq<char>)
    ensures
        material_of_body(body) matches Ok(m) ==> m.complete(),
        json_parse(body) matches Err(text) ==> material_of_body(body) == Err::<
            MaterialView,
            ErrorView,
        >(ErrorView::InvalidMetadataResponse(text)),
        json_parse(body) matches Ok(members) && member(members, MEMBER_ACCESS_KEY_ID@) is None
            ==> material_of_body(body) == Err::<MaterialView, ErrorView>(
            missing_member(MEMBER_ACCESS_KEY_ID@),
        ),
        response_from_document(json_parse(body)) matches Ok(p) && (p.access_key_id.len() == 0
            || p.access_key_secret.len() == 0) ==> material_of_body(body) is Err,
        material_of_body(body) matches Err(e) ==> e is InvalidMetadataResponse
            || e is IncompleteCredential,
{
}

/// Whatever the replies, a fetch ends in complete material or in an error.
pub proof fn fetch_gives_complete_material_or_error(fetch: FetchView, reply: ReplyView)
    ensures
        fetch.advance(reply) matches StepView::Done(Ok(m)) ==> m.complete(),
        ConfigView::resumption(fetch, reply) matches ResolutionView::Ready(m) ==> m.complete(),
{
    payload_gives_complete_material_or_error(
        match reply.body() {
            Ok(b) => b,
            Err(_) => Seq::empty(),
        },
    );
}

} // verus!
