use fluxer::dispatch::{route_event, EventRoute, HandlerKind};
use fluxer::error::ClientError;
use fluxer::model::{
    ChannelType, EmbedBuilder, Emoji, GetMessagesQuery, Member, User,
};
use fluxer::strings::urlencoded;

fn sample_user(name: &str) -> User {
    User {
        id: "u1".to_string(),
        username: name.to_string(),
        discriminator: None,
        avatar: None,
        banner: None,
        bot: None,
        system: None,
        public_flags: None,
        premium: None,
    }
}

fn sample_member(nick: Option<&str>, user: Option<User>) -> Member {
    Member {
        user,
        nick: nick.map(|s| s.to_string()),
        avatar: None,
        roles: Vec::new(),
        joined_at: "2024-01-01T00:00:00Z".to_string(),
        deaf: None,
        mute: None,
        pending: None,
        permissions: None,
        communication_disabled_until: None,
    }
}

#[test]
fn display_name_prefers_nick() {
    let m = sample_member(Some("nick"), Some(sample_user("account")));
    assert_eq!(m.display_name(), "nick");
}

#[test]
fn display_name_falls_back_to_username_then_empty() {
    let m = sample_member(None, Some(sample_user("account")));
    assert_eq!(m.display_name(), "account");
    let anonymous = sample_member(None, None);
    assert_eq!(anonymous.display_name(), "");
}

fn sample_emoji(name: Option<&str>, id: Option<&str>) -> Emoji {
    Emoji {
        id: id.map(|s| s.to_string()),
        name: name.map(|s| s.to_string()),
        roles: None,
        user: None,
        require_colons: None,
        managed: None,
        animated: None,
        available: None,
    }
}

#[test]
fn reaction_string_of_custom_emoji_is_name_colon_id() {
    assert_eq!(sample_emoji(Some("wave"), Some("123")).to_reaction_string(), "wave:123");
    assert_eq!(sample_emoji(Some("wave"), None).to_reaction_string(), "wave");
    assert_eq!(sample_emoji(None, Some("123")).to_reaction_string(), "");
}

#[test]
fn embed_builder_sets_every_part() {
    let e = EmbedBuilder::new()
        .title("a title")
        .description("a description")
        .url("https://example.test")
        .color(0xFF00FF)
        .timestamp("2024-01-01T00:00:00Z")
        .footer("foot", None)
        .image("https://example.test/i.png")
        .thumbnail("https://example.test/t.png")
        .author("auth", None, None)
        .field("f1", "v1", true)
        .field("f2", "v2", false)
        .build();
    assert_eq!(e.title.as_deref(), Some("a title"));
    assert_eq!(e.description.as_deref(), Some("a description"));
    assert_eq!(e.url.as_deref(), Some("https://example.test"));
    assert_eq!(e.color, Some(0xFF00FF));
    assert_eq!(e.timestamp.as_deref(), Some("2024-01-01T00:00:00Z"));
    assert_eq!(e.footer.as_ref().unwrap().text, "foot");
    assert_eq!(e.image.as_ref().unwrap().url, "https://example.test/i.png");
    assert_eq!(e.thumbnail.as_ref().unwrap().url, "https://example.test/t.png");
    assert_eq!(e.author.as_ref().unwrap().name, "auth");
    let fields = e.fields.unwrap();
    assert_eq!(fields.len(), 2);
    assert_eq!(fields[0].name, "f1");
    assert_eq!(fields[0].value, "v1");
    assert!(fields[0].inline);
    assert_eq!(fields[1].name, "f2");
    assert!(!fields[1].inline);
}

#[test]
fn query_string_is_empty_without_parts() {
    assert_eq!(GetMessagesQuery::empty().to_query_string(), "");
    assert_eq!(GetMessagesQuery::default().to_query_string(), "");
}

#[test]
fn default_values_have_nothing_set() {
    let e = fluxer::model::Embed::default();
    assert!(e.title.is_none() && e.fields.is_none() && e.color.is_none());
    let p = fluxer::model::MessageCreatePayload::default();
    assert!(p.content.is_none() && p.embeds.is_none());
}

#[test]
fn query_string_formats_limit_zero() {
    let mut q = GetMessagesQuery::empty();
    q.limit = Some(0);
    assert_eq!(q.to_query_string(), "?limit=0");
}

#[test]
fn query_string_caps_limit_at_one_hundred() {
    let mut q = GetMessagesQuery::empty();
    q.limit = Some(10);
    assert_eq!(q.to_query_string(), "?limit=10");
    q.limit = Some(200);
    assert_eq!(q.to_query_string(), "?limit=100");
}

#[test]
fn query_string_joins_parts_in_order() {
    let q = GetMessagesQuery {
        limit: Some(50),
        before: Some("111".to_string()),
        after: Some("222".to_string()),
        around: Some("333".to_string()),
    };
    assert_eq!(q.to_query_string(), "?limit=50&before=111&after=222&around=333");
    let q2 = GetMessagesQuery {
        limit: None,
        before: Some("111".to_string()),
        after: None,
        around: None,
    };
    assert_eq!(q2.to_query_string(), "?before=111");
}

#[test]
fn urlencoded_keeps_unreserved_bytes() {
    assert_eq!(urlencoded("abc-XYZ_0.9~:"), "abc-XYZ_0.9~:");
}

#[test]
fn urlencoded_escapes_everything_else() {
    assert_eq!(urlencoded("a b"), "a%20b");
    assert_eq!(urlencoded("name:id/slash"), "name:id%2Fslash");
    // each byte of a multi-byte character is escaped on its own
    assert_eq!(urlencoded("\u{1F44D}"), "%F0%9F%91%8D");
}

#[test]
fn channel_type_codes_round_trip() {
    for t in [
        ChannelType::Text,
        ChannelType::Dm,
        ChannelType::Voice,
        ChannelType::GroupDm,
        ChannelType::Category,
        ChannelType::Announcement,
        ChannelType::Stage,
    ] {
        assert_eq!(ChannelType::from_code(t.code()), t);
    }
    assert_eq!(ChannelType::from_code(99), ChannelType::Text);
}

#[test]
fn error_messages_carry_their_detail() {
    assert_eq!(
        ClientError::Voice("timed out".to_string()).message(),
        "Voice error: timed out"
    );
    assert_eq!(ClientError::ConnectionClosed.message(), "Connection closed by server");
    assert_eq!(ClientError::Api("HTTP 403: nope".to_string()).message(), "API error: HTTP 403: nope");
}

#[test]
fn routing_matches_the_fixed_table() {
    assert_eq!(route_event("READY"), EventRoute::Callback(HandlerKind::Ready));
    assert_eq!(route_event("MESSAGE_CREATE"), EventRoute::Callback(HandlerKind::Message));
    assert_eq!(route_event("GUILD_BAN_ADD"), EventRoute::Callback(HandlerKind::GuildBanAdd));
    assert_eq!(
        route_event("MESSAGE_REACTION_REMOVE_EMOJI"),
        EventRoute::Callback(HandlerKind::ReactionRemoveEmoji)
    );
    assert_eq!(route_event("WEBHOOKS_UPDATE"), EventRoute::Callback(HandlerKind::WebhooksUpdate));
    assert_eq!(route_event("RESUMED"), EventRoute::Resumed);
    assert_eq!(route_event("VOICE_STATE_UPDATE"), EventRoute::VoiceStateFragment);
    assert_eq!(route_event("VOICE_SERVER_UPDATE"), EventRoute::VoiceServerFragment);
    assert_eq!(route_event("SESSIONS_REPLACE"), EventRoute::Ignored);
    assert_eq!(route_event("STAGE_INSTANCE_DELETE"), EventRoute::Ignored);
    assert_eq!(route_event("SOMETHING_ELSE"), EventRoute::Unknown);
    assert_eq!(route_event(""), EventRoute::Unknown);
}
