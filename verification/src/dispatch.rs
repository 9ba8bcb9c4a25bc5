//! The event dispatcher's routing: each dispatch frame's event-type tag is
//! mapped to the user callback it belongs to, or intercepted for the voice
//! aggregator, or recognized as one to ignore. Decoding a payload into its
//! typed structure and invoking the callback concurrently happen outside
//! this crate; the routing decision and the voice interception are verified
//! here.

use vstd::prelude::*;
use crate::json::{json_as_str, json_field, spec_json_field, spec_json_str};
use crate::strings::str_eq;
use crate::voice::{spec_normalize_endpoint, VoiceStateMap};

verus! {

/// One user callback per recognized event kind, named after the event.
#[derive(Debug, Clone, Copy, PartialEq, Eq)]
pub enum HandlerKind {
    Ready,
    Message,
    MessageUpdate,
    MessageDelete,
    MessageDeleteBulk,
    ReactionAdd,
    ReactionRemove,
    ReactionRemoveAll,
    ReactionRemoveEmoji,
    TypingStart,
    ChannelCreate,
    ChannelUpdate,
    ChannelDelete,
    ChannelPinsUpdate,
    GuildCreate,
    GuildUpdate,
    GuildDelete,
    GuildMemberAdd,
    GuildMemberUpdate,
    GuildMemberRemove,
    GuildBanAdd,
    GuildBanRemove,
    GuildRoleCreate,
    GuildRoleUpdate,
    GuildRoleUpdateBulk,
    GuildRoleDelete,
    GuildEmojisUpdate,
    GuildStickersUpdate,
    ChannelUpdateBulk,
    InviteCreate,
    InviteDelete,
    WebhooksUpdate,
}

/// Where a dispatch event goes: to a user callback, to the voice-state
/// aggregator (either fragment), acknowledged as a resumed session, dropped
/// as a known but unhandled tag, or dropped as unknown.
#[derive(Debug, Clone, Copy, PartialEq, Eq)]
pub enum EventRoute {
    Callback(HandlerKind),
    VoiceStateFragment,
    VoiceServerFragment,
    Resumed,
    Ignored,
    Unknown,
}

/// The fixed routing table from event-type tags to routes.
pub open spec fn spec_route(tag: Seq<char>) -> EventRoute {
    if tag == "READY"@ {
        EventRoute::Callback(HandlerKind::Ready)
    } else if tag == "RESUMED"@ {
        EventRoute::Resumed
    } else if tag == "MESSAGE_CREATE"@ {
        EventRoute::Callback(HandlerKind::Message)
    } else if tag == "MESSAGE_UPDATE"@ {
        EventRoute::Callback(HandlerKind::MessageUpdate)
    } else if tag == "MESSAGE_DELETE"@ {
        EventRoute::Callback(HandlerKind::MessageDelete)
    } else if tag == "MESSAGE_DELETE_BULK"@ {
        EventRoute::Callback(HandlerKind::MessageDeleteBulk)
    } else if tag == "MESSAGE_REACTION_ADD"@ {
        EventRoute::Callback(HandlerKind::ReactionAdd)
    } else if tag == "MESSAGE_REACTION_REMOVE"@ {
        EventRoute::Callback(HandlerKind::ReactionRemove)
    } else if tag == "MESSAGE_REACTION_REMOVE_ALL"@ {
        EventRoute::Callback(HandlerKind::ReactionRemoveAll)
    } else if tag == "MESSAGE_REACTION_REMOVE_EMOJI"@ {
        EventRoute::Callback(HandlerKind::ReactionRemoveEmoji)
    } else if tag == "TYPING_START"@ {
        EventRoute::Callback(HandlerKind::TypingStart)
    } else if tag == "CHANNEL_CREATE"@ {
        EventRoute::Callback(HandlerKind::ChannelCreate)
    } else if tag == "CHANNEL_UPDATE"@ {
        EventRoute::Callback(HandlerKind::ChannelUpdate)
    } else if tag == "CHANNEL_DELETE"@ {
        EventRoute::Callback(HandlerKind::ChannelDelete)
    } else if tag == "CHANNEL_PINS_UPDATE"@ {
        EventRoute::Callback(HandlerKind::ChannelPinsUpdate)
    } else if tag == "GUILD_CREATE"@ {
        EventRoute::Callback(HandlerKind::GuildCreate)
    } else if tag == "GUILD_UPDATE"@ {
        EventRoute::Callback(HandlerKind::GuildUpdate)
    } else if tag == "GUILD_DELETE"@ {
        EventRoute::Callback(HandlerKind::GuildDelete)
    } else if tag == "GUILD_MEMBER_ADD"@ {
        EventRoute::Callback(HandlerKind::GuildMemberAdd)
    } else if tag == "GUILD_MEMBER_UPDATE"@ {
        EventRoute::Callback(HandlerKind::GuildMemberUpdate)
    } else if tag == "GUILD_MEMBER_REMOVE"@ {
        EventRoute::Callback(HandlerKind::GuildMemberRemove)
    } else if tag == "GUILD_BAN_ADD"@ {
        EventRoute::Callback(HandlerKind::GuildBanAdd)
    } else if tag == "GUILD_BAN_REMOVE"@ {
        EventRoute::Callback(HandlerKind::GuildBanRemove)
    } else if tag == "GUILD_ROLE_CREATE"@ {
        EventRoute::Callback(HandlerKind::GuildRoleCreate)
    } else if tag == "GUILD_ROLE_UPDATE"@ {
        EventRoute::Callback(HandlerKind::GuildRoleUpdate)
    } else if tag == "GUILD_ROLE_UPDATE_BULK"@ {
        EventRoute::Callback(HandlerKind::GuildRoleUpdateBulk)
    } else if tag == "GUILD_ROLE_DELETE"@ {
        EventRoute::Callback(HandlerKind::GuildRoleDelete)
    } else if tag == "GUILD_EMOJIS_UPDATE"@ {
        EventRoute::Callback(HandlerKind::GuildEmojisUpdate)
    } else if tag == "GUILD_STICKERS_UPDATE"@ {
        EventRoute::Callback(HandlerKind::GuildStickersUpdate)
    } else if tag == "CHANNEL_UPDATE_BULK"@ {
        EventRoute::Callback(HandlerKind::ChannelUpdateBulk)
    } else if tag == "INVITE_CREATE"@ {
        EventRoute::Callback(HandlerKind::InviteCreate)
    } else if tag == "INVITE_DELETE"@ {
        EventRoute::Callback(HandlerKind::InviteDelete)
    } else if tag == "WEBHOOKS_UPDATE"@ {
        EventRoute::Callback(HandlerKind::WebhooksUpdate)
    } else if tag == "VOICE_STATE_UPDATE"@ {
        EventRoute::VoiceStateFragment
    } else if tag == "VOICE_SERVER_UPDATE"@ {
        EventRoute::VoiceServerFragment
    } else if tag == "INTERACTION_CREATE"@ || tag == "SESSIONS_REPLACE"@ || tag
        == "STAGE_INSTANCE_CREATE"@ || tag == "STAGE_INSTANCE_UPDATE"@ || tag
        == "STAGE_INSTANCE_DELETE"@ {
        EventRoute::Ignored
    } else {
        EventRoute::Unknown
    }
}

/// Routes an event-type tag to its destination, exactly as the fixed table
/// says.
#[verifier::rlimit(30)]
pub fn route_event(tag: &str) -> (r: EventRoute)
    ensures
        r == spec_route(tag@),
{
    if str_eq(tag, "READY") {
        EventRoute::Callback(HandlerKind::Ready)
    } else if str_eq(tag, "RESUMED") {
        EventRoute::Resumed
    } else if str_eq(tag, "MESSAGE_CREATE") {
        EventRoute::Callback(HandlerKind::Message)
    } else if str_eq(tag, "MESSAGE_UPDATE") {
        EventRoute::Callback(HandlerKind::MessageUpdate)
    } else if str_eq(tag, "MESSAGE_DELETE") {
        EventRoute::Callback(HandlerKind::MessageDelete)
    } else if str_eq(tag, "MESSAGE_DELETE_BULK") {
        EventRoute::Callback(HandlerKind::MessageDeleteBulk)
    } else if str_eq(tag, "MESSAGE_REACTION_ADD") {
        EventRoute::Callback(HandlerKind::ReactionAdd)
    } else if str_eq(tag, "MESSAGE_REACTION_REMOVE") {
        EventRoute::Callback(HandlerKind::ReactionRemove)
    } else if str_eq(tag, "MESSAGE_REACTION_REMOVE_ALL") {
        EventRoute::Callback(HandlerKind::ReactionRemoveAll)
    } else if str_eq(tag, "MESSAGE_REACTION_REMOVE_EMOJI") {
        EventRoute::Callback(HandlerKind::ReactionRemoveEmoji)
    } else if str_eq(tag, "TYPING_START") {
        EventRoute::Callback(HandlerKind::TypingStart)
    } else if str_eq(tag, "CHANNEL_CREATE") {
        EventRoute::Callback(HandlerKind::ChannelCreate)
    } else if str_eq(tag, "CHANNEL_UPDATE") {
        EventRoute::Callback(HandlerKind::ChannelUpdate)
    } else if str_eq(tag, "CHANNEL_DELETE") {
        EventRoute::Callback(HandlerKind::ChannelDelete)
    } else if str_eq(tag, "CHANNEL_PINS_UPDATE") {
        EventRoute::Callback(HandlerKind::ChannelPinsUpdate)
    } else if str_eq(tag, "GUILD_CREATE") {
        EventRoute::Callback(HandlerKind::GuildCreate)
    } else if str_eq(tag, "GUILD_UPDATE") {
        EventRoute::Callback(HandlerKind::GuildUpdate)
    } else if str_eq(tag, "GUILD_DELETE") {
        EventRoute::Callback(HandlerKind::GuildDelete)
    } else if str_eq(tag, "GUILD_MEMBER_ADD") {
        EventRoute::Callback(HandlerKind::GuildMemberAdd)
    } else if str_eq(tag, "GUILD_MEMBER_UPDATE") {
        EventRoute::Callback(HandlerKind::GuildMemberUpdate)
    } else if str_eq(tag, "GUILD_MEMBER_REMOVE") {
        EventRoute::Callback(HandlerKind::GuildMemberRemove)
    } else if str_eq(tag, "GUILD_BAN_ADD") {
        EventRoute::Callback(HandlerKind::GuildBanAdd)
    } else if str_eq(tag, "GUILD_BAN_REMOVE") {
        EventRoute::Callback(HandlerKind::GuildBanRemove)
    } else if str_eq(tag, "GUILD_ROLE_CREATE") {
        EventRoute::Callback(HandlerKind::GuildRoleCreate)
    } else if str_eq(tag, "GUILD_ROLE_UPDATE") {
        EventRoute::Callback(HandlerKind::GuildRoleUpdate)
    } else if str_eq(tag, "GUILD_ROLE_UPDATE_BULK") {
        EventRoute::Callback(HandlerKind::GuildRoleUpdateBulk)
    } else if str_eq(tag, "GUILD_ROLE_DELETE") {
        EventRoute::Callback(HandlerKind::GuildRoleDelete)
    } else if str_eq(tag, "GUILD_EMOJIS_UPDATE") {
        EventRoute::Callback(HandlerKind::GuildEmojisUpdate)
    } else if str_eq(tag, "GUILD_STICKERS_UPDATE") {
        EventRoute::Callback(HandlerKind::GuildStickersUpdate)
    } else if str_eq(tag, "CHANNEL_UPDATE_BULK") {
        EventRoute::Callback(HandlerKind::ChannelUpdateBulk)
    } else if str_eq(tag, "INVITE_CREATE") {
        EventRoute::Callback(HandlerKind::InviteCreate)
    } else if str_eq(tag, "INVITE_DELETE") {
        EventRoute::Callback(HandlerKind::InviteDelete)
    } else if str_eq(tag, "WEBHOOKS_UPDATE") {
        EventRoute::Callback(HandlerKind::WebhooksUpdate)
    } else if str_eq(tag, "VOICE_STATE_UPDATE") {
        EventRoute::VoiceStateFragment
    } else if str_eq(tag, "VOICE_SERVER_UPDATE") {
        EventRoute::VoiceServerFragment
    } else if str_eq(tag, "INTERACTION_CREATE") || str_eq(tag, "SESSIONS_REPLACE") || str_eq(
        tag,
        "STAGE_INSTANCE_CREATE",
    ) || str_eq(tag, "STAGE_INSTANCE_UPDATE") || str_eq(tag, "STAGE_INSTANCE_DELETE") {
        EventRoute::Ignored
    } else {
        EventRoute::Unknown
    }
}

/// The voice-state fragment of a signaling payload: the guild and session
/// identifiers, present only when both are non-empty.
#[derive(Debug, Clone, PartialEq, Eq)]
pub struct StateFragment {
    pub guild_id: String,
    pub session_id: String,
}

/// The voice-server fragment of a signaling payload: the guild identifier,
/// the token and the endpoint, present only when all three are non-empty.
#[derive(Debug, Clone, PartialEq, Eq)]
pub struct ServerFragment {
    pub guild_id: String,
    pub token: String,
    pub endpoint: String,
}

/// A string field of a signaling payload, read as empty when the field is
/// missing or not a string — the reading the extractors below go by.
pub open spec fn spec_payload_str(d: serde_json::Value, key: Seq<char>) -> Seq<char> {
    match spec_json_field(d, key) {
        Option::Some(fv) => match spec_json_str(fv) {
            Option::Some(s) => s,
            Option::None => Seq::empty(),
        },
        Option::None => Seq::empty(),
    }
}

fn payload_str_field(d: &serde_json::Value, key: &str) -> (r: String)
    ensures
        r@ == spec_payload_str(*d, key@),
{
    match json_field(d, key) {
        Option::Some(v) => match json_as_str(&v) {
            Option::Some(s) => s,
            Option::None => String::new(),
        },
        Option::None => String::new(),
    }
}

/// Pulls the voice-state fragment out of a signaling payload: exactly when
/// both identifiers are present and non-empty, and with exactly those
/// values.
pub fn extract_state_fragment(d: &serde_json::Value) -> (r: Option<StateFragment>)
    ensures
        r is Some <==> (spec_payload_str(*d, "guild_id"@).len() > 0 && spec_payload_str(
            *d,
            "session_id"@,
        ).len() > 0),
        r matches Some(f) ==> f.guild_id@ == spec_payload_str(*d, "guild_id"@) && f.session_id@
            == spec_payload_str(*d, "session_id"@),
{
    let guild_id = payload_str_field(d, "guild_id");
    let session_id = payload_str_field(d, "session_id");
    if !guild_id.as_str().is_empty() && !session_id.as_str().is_empty() {
        Some(StateFragment { guild_id, session_id })
    } else {
        None
    }
}

/// Pulls the voice-server fragment out of a signaling payload: exactly when
/// all three fields are present and non-empty, and with exactly those
/// values.
pub fn extract_server_fragment(d: &serde_json::Value) -> (r: Option<ServerFragment>)
    ensures
        r is Some <==> (spec_payload_str(*d, "guild_id"@).len() > 0 && spec_payload_str(
            *d,
            "token"@,
        ).len() > 0 && spec_payload_str(*d, "endpoint"@).len() > 0),
        r matches Some(f) ==> f.guild_id@ == spec_payload_str(*d, "guild_id"@) && f.token@
            == spec_payload_str(*d, "token"@) && f.endpoint@ == spec_payload_str(
            *d,
            "endpoint"@,
        ),
{
    let guild_id = payload_str_field(d, "guild_id");
    let token = payload_str_field(d, "token");
    let endpoint = payload_str_field(d, "endpoint");
    if !guild_id.as_str().is_empty() && !token.as_str().is_empty()
        && !endpoint.as_str().is_empty() {
        Some(ServerFragment { guild_id, token, endpoint })
    } else {
        None
    }
}

/// Applies a voice-state signaling payload to the aggregator: a complete
/// fragment upserts its guild's session id, leaving every other guild
/// untouched; anything else changes nothing.
pub fn apply_state_payload(agg: &mut VoiceStateMap, d: &serde_json::Value) -> (applied: bool)
    ensures
        applied <==> (spec_payload_str(*d, "guild_id"@).len() > 0 && spec_payload_str(
            *d,
            "session_id"@,
        ).len() > 0),
        !applied ==> *final(agg) == *old(agg),
        applied ==> ({
            let g = spec_payload_str(*d, "guild_id"@);
            let sid = spec_payload_str(*d, "session_id"@);
            (final(agg).spec_get(g) matches Some(vs) && (vs.session_id matches Some(s) && s@
                == sid) && (match old(agg).spec_get(g) {
                Option::Some(p) => vs.token == p.token && vs.endpoint == p.endpoint,
                Option::None => vs.token@ == Seq::<char>::empty() && vs.endpoint@
                    == Seq::<char>::empty(),
            })) && (forall|h: Seq<char>|
                h != g ==> final(agg).spec_get(h) == old(agg).spec_get(h))
        }),
{
    match extract_state_fragment(d) {
        Option::Some(f) => {
            agg.record_state_fragment(f.guild_id.as_str(), f.session_id);
            true
        },
        Option::None => false,
    }
}

/// Applies a voice-server signaling payload to the aggregator: a complete
/// fragment upserts its guild's token and normalized endpoint, leaving
/// every other guild untouched; anything else changes nothing.
pub fn apply_server_payload(agg: &mut VoiceStateMap, d: &serde_json::Value) -> (applied: bool)
    ensures
        applied <==> (spec_payload_str(*d, "guild_id"@).len() > 0 && spec_payload_str(
            *d,
            "token"@,
        ).len() > 0 && spec_payload_str(*d, "endpoint"@).len() > 0),
        !applied ==> *final(agg) == *old(agg),
        applied ==> ({
            let g = spec_payload_str(*d, "guild_id"@);
            let tok = spec_payload_str(*d, "token"@);
            let ep = spec_payload_str(*d, "endpoint"@);
            (final(agg).spec_get(g) matches Some(vs) && vs.token@ == tok && vs.endpoint@
                == spec_normalize_endpoint(ep) && vs.session_id == (match old(agg).spec_get(g) {
                Option::Some(p) => p.session_id,
                Option::None => Option::None::<String>,
            })) && (forall|h: Seq<char>|
                h != g ==> final(agg).spec_get(h) == old(agg).spec_get(h))
        }),
{
    match extract_server_fragment(d) {
        Option::Some(f) => {
            agg.record_server_fragment(f.guild_id.as_str(), f.token, f.endpoint);
            true
        },
        Option::None => false,
    }
}

} // verus!
