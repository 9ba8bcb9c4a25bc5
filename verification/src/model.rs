//! The data model of the REST API and the gateway events: users, guilds,
//! members, channels, messages, embeds and the request payloads, together
//! with the embed builder and the query-string builder.

use vstd::prelude::*;
use vstd::string::*;
use crate::strings::{spec_u64_dec, u64_to_dec};

verus! {

/// An entity identifier, carried as a string.
pub type Snowflake = String;

#[derive(Debug, Clone)]
pub struct User {
    pub id: Snowflake,
    pub username: String,
    pub discriminator: Option<String>,
    pub avatar: Option<String>,
    pub banner: Option<String>,
    pub bot: Option<bool>,
    pub system: Option<bool>,
    pub public_flags: Option<u64>,
    pub premium: Option<u64>,
}

#[derive(Debug, Clone)]
pub struct Guild {
    pub id: Snowflake,
    pub name: Option<String>,
    pub icon: Option<String>,
    pub banner: Option<String>,
    pub splash: Option<String>,
    pub owner_id: Option<Snowflake>,
    pub afk_channel_id: Option<Snowflake>,
    pub afk_timeout: Option<u64>,
    pub verification_level: Option<u64>,
    pub default_message_notifications: Option<u64>,
    pub explicit_content_filter: Option<u64>,
    pub roles: Option<Vec<Role>>,
    pub emojis: Option<Vec<Emoji>>,
    pub features: Option<Vec<String>>,
    pub member_count: Option<u64>,
    pub max_members: Option<u64>,
    pub description: Option<String>,
    pub preferred_locale: Option<String>,
    pub vanity_url_code: Option<String>,
}

#[derive(Debug, Clone)]
pub struct Member {
    pub user: Option<User>,
    pub nick: Option<String>,
    pub avatar: Option<String>,
    pub roles: Vec<Snowflake>,
    pub joined_at: String,
    pub deaf: Option<bool>,
    pub mute: Option<bool>,
    pub pending: Option<bool>,
    pub permissions: Option<String>,
    pub communication_disabled_until: Option<String>,
}

impl Member {
    /// The name a member is shown under: the nickname when one is set, the
    /// account's username otherwise, and empty when neither is known.
    pub fn display_name(&self) -> (r: &str)
        ensures
            r@ == (match self.nick {
                Option::Some(n) => n@,
                Option::None => match self.user {
                    Option::Some(u) => u.username@,
                    Option::None => Seq::<char>::empty(),
                },
            }),
    {
        proof {
            reveal_strlit("");
            assert(""@ =~= Seq::<char>::empty());
        }
        match &self.nick {
            Option::Some(nick) => nick.as_str(),
            Option::None => match &self.user {
                Option::Some(u) => u.username.as_str(),
                Option::None => "",
            },
        }
    }
}

#[derive(Debug, Clone)]
pub struct Role {
    pub id: Snowflake,
    pub name: String,
    pub color: Option<u64>,
    pub hoist: Option<bool>,
    pub icon: Option<String>,
    pub position: Option<i64>,
    pub permissions: Option<String>,
    pub managed: Option<bool>,
    pub mentionable: Option<bool>,
}

#[derive(Debug, Clone)]
pub struct Emoji {
    pub id: Option<Snowflake>,
    pub name: Option<String>,
    pub roles: Option<Vec<Snowflake>>,
    pub user: Option<User>,
    pub require_colons: Option<bool>,
    pub managed: Option<bool>,
    pub animated: Option<bool>,
    pub available: Option<bool>,
}

impl Emoji {
    /// The reaction form of an emoji: `name:id` for a custom emoji, the
    /// bare name for a built-in one, and empty when the name is unknown.
    pub fn to_reaction_string(&self) -> (r: String)
        ensures
            r@ == (match (self.name, self.id) {
                (Option::Some(n), Option::Some(i)) => n@ + ":"@ + i@,
                (Option::Some(n), Option::None) => n@,
                _ => Seq::<char>::empty(),
            }),
    {
        match (&self.name, &self.id) {
            (Option::Some(name), Option::Some(id)) => {
                let r = name.clone().concat(":").concat(id.as_str());
                proof {
                    assert(r@ =~= self.name->0@ + ":"@ + self.id->0@);
                }
                r
            },
            (Option::Some(name), Option::None) => name.clone(),
            _ => String::new(),
        }
    }
}

/// The recognized channel kinds; each stands for the wire code the API
/// uses: text 0, direct message 1, voice 2, group 3, category 4,
/// announcement 5, stage 13.
#[derive(Debug, Clone, Copy, PartialEq, Eq, Structural)]
pub enum ChannelType {
    Text,
    Dm,
    Voice,
    GroupDm,
    Category,
    Announcement,
    Stage,
}

/// The wire code of each channel kind.
pub open spec fn spec_channel_type_code(t: ChannelType) -> u8 {
    match t {
        ChannelType::Text => 0,
        ChannelType::Dm => 1,
        ChannelType::Voice => 2,
        ChannelType::GroupDm => 3,
        ChannelType::Category => 4,
        ChannelType::Announcement => 5,
        ChannelType::Stage => 13,
    }
}

impl ChannelType {
    /// The wire code of this channel kind.
    pub fn code(&self) -> (c: u8)
        ensures
            c == spec_channel_type_code(*self),
    {
        match self {
            ChannelType::Text => 0,
            ChannelType::Dm => 1,
            ChannelType::Voice => 2,
            ChannelType::GroupDm => 3,
            ChannelType::Category => 4,
            ChannelType::Announcement => 5,
            ChannelType::Stage => 13,
        }
    }

    /// The channel kind of a wire code; an unrecognized code is read as a
    /// text channel.
    pub fn from_code(code: u8) -> (t: ChannelType)
        ensures
            spec_channel_type_code(t) == code || (t == ChannelType::Text && (code != 1 && code != 2
                && code != 3 && code != 4 && code != 5 && code != 13)),
    {
        if code == 1 {
            ChannelType::Dm
        } else if code == 2 {
            ChannelType::Voice
        } else if code == 3 {
            ChannelType::GroupDm
        } else if code == 4 {
            ChannelType::Category
        } else if code == 5 {
            ChannelType::Announcement
        } else if code == 13 {
            ChannelType::Stage
        } else {
            ChannelType::Text
        }
    }
}

#[derive(Debug, Clone)]
pub struct PermissionOverwrite {
    pub id: Snowflake,
    pub kind: u8,
    pub allow: Option<String>,
    pub deny: Option<String>,
}

#[derive(Debug, Clone)]
pub struct Channel {
    pub id: Snowflake,
    pub kind: Option<u8>,
    pub guild_id: Option<Snowflake>,
    pub position: Option<i64>,
    pub permission_overwrites: Option<Vec<PermissionOverwrite>>,
    pub name: Option<String>,
    pub topic: Option<String>,
    pub nsfw: Option<bool>,
    pub last_message_id: Option<Snowflake>,
    pub bitrate: Option<u64>,
    pub user_limit: Option<u64>,
    pub rate_limit_per_user: Option<u64>,
    pub recipients: Option<Vec<User>>,
    pub icon: Option<String>,
    pub owner_id: Option<Snowflake>,
    pub parent_id: Option<Snowflake>,
    pub last_pin_timestamp: Option<String>,
}

#[derive(Debug)]
pub struct Message {
    pub id: Snowflake,
    pub channel_id: Option<Snowflake>,
    pub guild_id: Option<Snowflake>,
    pub author: User,
    pub member: Option<Member>,
    pub content: Option<String>,
    pub timestamp: Option<String>,
    pub edited_timestamp: Option<String>,
    pub tts: Option<bool>,
    pub mention_everyone: Option<bool>,
    pub mentions: Option<Vec<User>>,
    pub mention_roles: Option<Vec<Snowflake>>,
    pub attachments: Option<Vec<Attachment>>,
    pub embeds: Option<Vec<Embed>>,
    pub reactions: Option<Vec<Reaction>>,
    pub pinned: Option<bool>,
    pub webhook_id: Option<Snowflake>,
    pub kind: Option<u8>,
    pub referenced_message: Option<Box<Message>>,
    pub flags: Option<u64>,
    pub stickers: Option<Vec<serde_json::Value>>,
}

#[derive(Debug)]
pub struct PinnedMessage {
    pub message: Message,
    pub pinned_at: Option<String>,
}

#[derive(Debug)]
pub struct PinsResponse {
    pub items: Vec<PinnedMessage>,
    pub has_more: Option<bool>,
}

#[derive(Debug, Clone)]
pub struct Attachment {
    pub id: Snowflake,
    pub filename: Option<String>,
    pub description: Option<String>,
    pub content_type: Option<String>,
    pub size: Option<u64>,
    pub url: Option<String>,
    pub proxy_url: Option<String>,
    pub height: Option<u64>,
    pub width: Option<u64>,
    pub ephemeral: Option<bool>,
}

#[derive(Debug, Clone)]
pub struct Embed {
    pub title: Option<String>,
    pub kind: Option<String>,
    pub description: Option<String>,
    pub url: Option<String>,
    pub timestamp: Option<String>,
    pub color: Option<u64>,
    pub footer: Option<EmbedFooter>,
    pub image: Option<EmbedMedia>,
    pub thumbnail: Option<EmbedMedia>,
    pub video: Option<EmbedMedia>,
    pub author: Option<EmbedAuthor>,
    pub fields: Option<Vec<EmbedField>>,
}

impl Embed {
    /// An embed with nothing set.
    pub fn empty() -> (e: Embed)
        ensures
            e.title is None && e.kind is None && e.description is None && e.url is None
                && e.timestamp is None && e.color is None && e.footer is None && e.image is None
                && e.thumbnail is None && e.video is None && e.author is None && e.fields is None,
    {
        Embed {
            title: None,
            kind: None,
            description: None,
            url: None,
            timestamp: None,
            color: None,
            footer: None,
            image: None,
            thumbnail: None,
            video: None,
            author: None,
            fields: None,
        }
    }
}

impl Default for Embed {
    /// An embed with nothing set.
    fn default() -> (e: Embed)
        ensures
            e.title is None && e.kind is None && e.description is None && e.url is None
                && e.timestamp is None && e.color is None && e.footer is None && e.image is None
                && e.thumbnail is None && e.video is None && e.author is None && e.fields is None,
    {
        Embed::empty()
    }
}

#[derive(Debug, Clone)]
pub struct EmbedFooter {
    pub text: String,
    pub icon_url: Option<String>,
}

#[derive(Debug, Clone)]
pub struct EmbedMedia {
    pub url: String,
    pub height: Option<u64>,
    pub width: Option<u64>,
}

#[derive(Debug, Clone)]
pub struct EmbedAuthor {
    pub name: String,
    pub url: Option<String>,
    pub icon_url: Option<String>,
}

#[derive(Debug, Clone)]
pub struct EmbedField {
    pub name: String,
    pub value: String,
    pub inline: bool,
}

#[derive(Debug, Clone)]
pub struct Reaction {
    pub count: u64,
    pub me: bool,
    pub emoji: Emoji,
}

/// Builds an [`Embed`] step by step; each method sets one part and hands
/// the builder back.
#[derive(Debug)]
pub struct EmbedBuilder(pub Embed);

impl EmbedBuilder {
    /// A builder holding an empty embed.
    pub fn new() -> (b: EmbedBuilder)
        ensures
            b.0.title is None && b.0.kind is None && b.0.description is None && b.0.url is None
                && b.0.timestamp is None && b.0.color is None && b.0.footer is None && b.0.image
                is None && b.0.thumbnail is None && b.0.video is None && b.0.author is None
                && b.0.fields is None,
    {
        EmbedBuilder(Embed::empty())
    }

    /// Sets the title.
    pub fn title(self, title: &str) -> (r: EmbedBuilder)
        ensures
            r.0.title matches Some(t) && t@ == title@,
            r.0 == (Embed { title: r.0.title, ..self.0 }),
    {
        let mut e = self.0;
        e.title = Some(title.to_owned());
        EmbedBuilder(e)
    }

    /// Sets the description.
    pub fn description(self, desc: &str) -> (r: EmbedBuilder)
        ensures
            r.0.description matches Some(d) && d@ == desc@,
            r.0 == (Embed { description: r.0.description, ..self.0 }),
    {
        let mut e = self.0;
        e.description = Some(desc.to_owned());
        EmbedBuilder(e)
    }

    /// Sets the URL.
    pub fn url(self, url: &str) -> (r: EmbedBuilder)
        ensures
            r.0.url matches Some(u) && u@ == url@,
            r.0 == (Embed { url: r.0.url, ..self.0 }),
    {
        let mut e = self.0;
        e.url = Some(url.to_owned());
        EmbedBuilder(e)
    }

    /// Sets the accent color.
    pub fn color(self, color: u64) -> (r: EmbedBuilder)
        ensures
            r.0.color == Some(color),
            r.0 == (Embed { color: r.0.color, ..self.0 }),
    {
        let mut e = self.0;
        e.color = Some(color);
        EmbedBuilder(e)
    }

    /// Sets the timestamp.
    pub fn timestamp(self, ts: &str) -> (r: EmbedBuilder)
        ensures
            r.0.timestamp matches Some(t) && t@ == ts@,
            r.0 == (Embed { timestamp: r.0.timestamp, ..self.0 }),
    {
        let mut e = self.0;
        e.timestamp = Some(ts.to_owned());
        EmbedBuilder(e)
    }

    /// Sets the footer.
    pub fn footer(self, text: &str, icon_url: Option<String>) -> (r: EmbedBuilder)
        ensures
            r.0.footer matches Some(f) && f.text@ == text@ && f.icon_url == icon_url,
            r.0 == (Embed { footer: r.0.footer, ..self.0 }),
    {
        let mut e = self.0;
        e.footer = Some(EmbedFooter { text: text.to_owned(), icon_url });
        EmbedBuilder(e)
    }

    /// Sets the image.
    pub fn image(self, url: &str) -> (r: EmbedBuilder)
        ensures
            r.0.image matches Some(m) && m.url@ == url@ && m.height is None && m.width is None,
            r.0 == (Embed { image: r.0.image, ..self.0 }),
    {
        let mut e = self.0;
        e.image = Some(EmbedMedia { url: url.to_owned(), height: None, width: None });
        EmbedBuilder(e)
    }

    /// Sets the thumbnail.
    pub fn thumbnail(self, url: &str) -> (r: EmbedBuilder)
        ensures
            r.0.thumbnail matches Some(m) && m.url@ == url@ && m.height is None && m.width
                is None,
            r.0 == (Embed { thumbnail: r.0.thumbnail, ..self.0 }),
    {
        let mut e = self.0;
        e.thumbnail = Some(EmbedMedia { url: url.to_owned(), height: None, width: None });
        EmbedBuilder(e)
    }

    /// Sets the author block.
    pub fn author(self, name: &str, url: Option<String>, icon_url: Option<String>) -> (r:
        EmbedBuilder)
        ensures
            r.0.author matches Some(a) && a.name@ == name@ && a.url == url && a.icon_url
                == icon_url,
            r.0 == (Embed { author: r.0.author, ..self.0 }),
    {
        let mut e = self.0;
        e.author = Some(EmbedAuthor { name: name.to_owned(), url, icon_url });
        EmbedBuilder(e)
    }

    /// Appends one field to the embed's field list, starting the list when
    /// none exists yet.
    pub fn field(self, name: &str, value: &str, inline: bool) -> (r: EmbedBuilder)
        ensures
            r.0.fields matches Some(fs) && ({
                let prior = match self.0.fields {
                    Option::Some(o) => o@,
                    Option::None => Seq::<EmbedField>::empty(),
                };
                fs@.len() == prior.len() + 1 && fs@.subrange(0, prior.len() as int) == prior
                    && fs@.last().name@ == name@ && fs@.last().value@ == value@
                    && fs@.last().inline == inline
            }),
            r.0 == (Embed { fields: r.0.fields, ..self.0 }),
    {
        let ghost prior = match &self.0.fields {
            Option::Some(o) => o@,
            Option::None => Seq::<EmbedField>::empty(),
        };
        let mut e = self.0;
        let mut fields: Vec<EmbedField> = match e.fields {
            Option::Some(v) => v,
            Option::None => Vec::new(),
        };
        fields.push(EmbedField { name: name.to_owned(), value: value.to_owned(), inline });
        proof {
            assert(fields@.subrange(0, prior.len() as int) =~= prior);
        }
        e.fields = Some(fields);
        EmbedBuilder(e)
    }

    /// Hands the finished embed out.
    pub fn build(self) -> (e: Embed)
        ensures
            e == self.0,
    {
        self.0
    }
}

#[derive(Debug, Clone)]
pub struct Invite {
    pub code: String,
    pub guild: Option<PartialGuild>,
    pub channel: Option<PartialChannel>,
    pub inviter: Option<User>,
    pub target_user: Option<User>,
    pub approximate_member_count: Option<u64>,
    pub expires_at: Option<String>,
}

#[derive(Debug, Clone)]
pub struct PartialGuild {
    pub id: Snowflake,
    pub name: String,
    pub icon: Option<String>,
    pub splash: Option<String>,
    pub banner: Option<String>,
}

#[derive(Debug, Clone)]
pub struct PartialChannel {
    pub id: Snowflake,
    pub name: Option<String>,
    pub kind: Option<u8>,
}

#[derive(Debug, Clone)]
pub struct Webhook {
    pub id: Snowflake,
    pub kind: Option<u8>,
    pub guild_id: Option<Snowflake>,
    pub channel_id: Option<Snowflake>,
    pub user: Option<User>,
    pub name: Option<String>,
    pub avatar: Option<String>,
    pub token: Option<String>,
    pub url: Option<String>,
}

#[derive(Debug, Clone)]
pub struct TypingStart {
    pub channel_id: Option<Snowflake>,
    pub guild_id: Option<Snowflake>,
    pub user_id: Snowflake,
    pub timestamp: u64,
    pub member: Option<Member>,
}

#[derive(Debug, Clone)]
pub struct ReactionAdd {
    pub user_id: Snowflake,
    pub channel_id: Option<Snowflake>,
    pub message_id: Snowflake,
    pub guild_id: Option<Snowflake>,
    pub member: Option<Member>,
    pub emoji: Emoji,
}

#[derive(Debug, Clone)]
pub struct ReactionRemove {
    pub user_id: Snowflake,
    pub channel_id: Option<Snowflake>,
    pub message_id: Snowflake,
    pub guild_id: Option<Snowflake>,
    pub emoji: Emoji,
}

#[derive(Debug, Clone)]
pub struct ReactionRemoveAll {
    pub channel_id: Option<Snowflake>,
    pub message_id: Snowflake,
    pub guild_id: Option<Snowflake>,
}

#[derive(Debug, Clone)]
pub struct ReactionRemoveEmoji {
    pub channel_id: Option<Snowflake>,
    pub guild_id: Option<Snowflake>,
    pub message_id: Snowflake,
    pub emoji: Emoji,
}

#[derive(Debug, Clone)]
pub struct MessageUpdate {
    pub id: Snowflake,
    pub channel_id: Option<Snowflake>,
    pub guild_id: Option<Snowflake>,
    pub author: Option<User>,
    pub content: Option<String>,
    pub edited_timestamp: Option<String>,
    pub embeds: Option<Vec<Embed>>,
    pub attachments: Option<Vec<Attachment>>,
    pub pinned: Option<bool>,
    pub flags: Option<u64>,
}

#[derive(Debug, Clone)]
pub struct MessageDelete {
    pub id: Snowflake,
    pub channel_id: Option<Snowflake>,
    pub guild_id: Option<Snowflake>,
}

#[derive(Debug, Clone)]
pub struct MessageDeleteBulk {
    pub ids: Vec<Snowflake>,
    pub channel_id: Option<Snowflake>,
    pub guild_id: Option<Snowflake>,
}

#[derive(Debug, Clone)]
pub struct GuildMemberAdd {
    pub guild_id: Snowflake,
    pub member: Member,
}

#[derive(Debug, Clone)]
pub struct GuildMemberRemove {
    pub guild_id: Snowflake,
    pub user: User,
}

#[derive(Debug, Clone)]
pub struct GuildMemberUpdate {
    pub guild_id: Snowflake,
    pub roles: Vec<Snowflake>,
    pub user: User,
    pub nick: Option<String>,
    pub joined_at: Option<String>,
    pub pending: Option<bool>,
    pub communication_disabled_until: Option<String>,
}

#[derive(Debug, Clone)]
pub struct Ban {
    pub reason: Option<String>,
    pub user: User,
}

#[derive(Debug, Clone)]
pub struct GuildBanAdd {
    pub guild_id: Snowflake,
    pub user: User,
}

#[derive(Debug, Clone)]
pub struct GuildBanRemove {
    pub guild_id: Snowflake,
    pub user: User,
}

#[derive(Debug, Clone)]
pub struct GuildRoleCreate {
    pub guild_id: Snowflake,
    pub role: Role,
}

#[derive(Debug, Clone)]
pub struct GuildRoleUpdate {
    pub guild_id: Snowflake,
    pub role: Role,
}

#[derive(Debug, Clone)]
pub struct GuildRoleDelete {
    pub guild_id: Snowflake,
    pub role_id: Snowflake,
}

#[derive(Debug, Clone)]
pub struct ChannelDelete {
    pub id: Snowflake,
    pub kind: Option<u8>,
    pub guild_id: Option<Snowflake>,
}

#[derive(Debug, Clone)]
pub struct ChannelPinsUpdate {
    pub guild_id: Option<Snowflake>,
    pub channel_id: Option<Snowflake>,
    pub last_pin_timestamp: Option<String>,
}

#[derive(Debug, Clone)]
pub struct Ready {
    pub v: Option<u64>,
    pub session_id: String,
    pub resume_gateway_url: Option<String>,
    pub user: User,
    pub guilds: Option<Vec<UnavailableGuild>>,
    pub shard: Option<[u64; 2]>,
}

#[derive(Debug, Clone)]
pub struct UnavailableGuild {
    pub id: Snowflake,
    pub unavailable: Option<bool>,
}

#[derive(Debug, Clone)]
pub struct GatewayBotResponse {
    pub url: String,
}

#[derive(Debug, Clone)]
pub struct GuildEmojisUpdate {
    pub guild_id: Snowflake,
    pub emojis: Vec<serde_json::Value>,
}

#[derive(Debug, Clone)]
pub struct GuildStickersUpdate {
    pub guild_id: Snowflake,
    pub stickers: Vec<serde_json::Value>,
}

#[derive(Debug, Clone)]
pub struct GuildRoleUpdateBulk {
    pub guild_id: Snowflake,
    pub roles: Vec<serde_json::Value>,
}

#[derive(Debug, Clone)]
pub struct ChannelUpdateBulk {
    pub guild_id: Option<Snowflake>,
    pub channels: Vec<serde_json::Value>,
}

#[derive(Debug, Clone)]
pub struct InviteCreate {
    pub channel_id: Option<Snowflake>,
    pub guild_id: Option<Snowflake>,
    pub code: Option<String>,
}

#[derive(Debug, Clone)]
pub struct InviteDelete {
    pub channel_id: Option<Snowflake>,
    pub guild_id: Option<Snowflake>,
    pub code: String,
}

#[derive(Debug, Clone)]
pub struct WebhooksUpdate {
    pub channel_id: Snowflake,
    pub guild_id: Option<Snowflake>,
}

#[derive(Debug, Clone)]
pub struct MessageCreatePayload {
    pub content: Option<String>,
    pub tts: Option<bool>,
    pub embeds: Option<Vec<Embed>>,
    pub flags: Option<u64>,
    pub message_reference: Option<MessageReference>,
    pub referenced_message_id: Option<Snowflake>,
}

impl MessageCreatePayload {
    /// A payload with nothing set.
    pub fn empty() -> (p: MessageCreatePayload)
        ensures
            p.content is None && p.tts is None && p.embeds is None && p.flags is None
                && p.message_reference is None && p.referenced_message_id is None,
    {
        MessageCreatePayload {
            content: None,
            tts: None,
            embeds: None,
            flags: None,
            message_reference: None,
            referenced_message_id: None,
        }
    }
}

impl Default for MessageCreatePayload {
    /// A payload with nothing set.
    fn default() -> (p: MessageCreatePayload)
        ensures
            p.content is None && p.tts is None && p.embeds is None && p.flags is None
                && p.message_reference is None && p.referenced_message_id is None,
    {
        MessageCreatePayload::empty()
    }
}

#[derive(Debug, Clone)]
pub struct MessageReference {
    pub message_id: Snowflake,
    pub channel_id: Option<Snowflake>,
    pub guild_id: Option<Snowflake>,
    pub fail_if_not_exists: Option<bool>,
}

#[derive(Debug, Clone)]
pub struct ChannelCreatePayload {
    pub name: String,
    pub kind: Option<u8>,
    pub topic: Option<String>,
    pub bitrate: Option<u64>,
    pub user_limit: Option<u64>,
    pub rate_limit_per_user: Option<u64>,
    pub position: Option<i64>,
    pub parent_id: Option<Snowflake>,
    pub nsfw: Option<bool>,
}

#[derive(Debug, Clone)]
pub struct EditMemberPayload {
    pub nick: Option<Option<String>>,
    pub roles: Option<Vec<Snowflake>>,
    pub mute: Option<bool>,
    pub deaf: Option<bool>,
    pub channel_id: Option<Option<Snowflake>>,
    pub communication_disabled_until: Option<Option<String>>,
}

#[derive(Debug, Clone)]
pub struct CreateRolePayload {
    pub name: String,
    pub permissions: Option<String>,
    pub color: Option<u64>,
    pub hoist: Option<bool>,
    pub mentionable: Option<bool>,
}

#[derive(Debug, Clone)]
pub struct EditRolePayload {
    pub name: Option<String>,
    pub permissions: Option<String>,
    pub color: Option<u64>,
    pub hoist: Option<bool>,
    pub mentionable: Option<bool>,
}

#[derive(Debug, Clone)]
pub struct CreateInvitePayload {
    pub max_age: Option<u64>,
    pub max_uses: Option<u64>,
    pub temporary: Option<bool>,
    pub unique: Option<bool>,
}

#[derive(Debug, Clone)]
pub struct EditGuildPayload {
    pub name: Option<String>,
    pub description: Option<String>,
    pub preferred_locale: Option<String>,
    pub afk_channel_id: Option<Option<Snowflake>>,
    pub afk_timeout: Option<u64>,
    pub verification_level: Option<u64>,
    pub default_message_notifications: Option<u64>,
    pub explicit_content_filter: Option<u64>,
}

#[derive(Debug, Clone)]
pub struct WebhookExecutePayload {
    pub content: Option<String>,
    pub username: Option<String>,
    pub avatar_url: Option<String>,
    pub tts: Option<bool>,
    pub embeds: Option<Vec<Embed>>,
}

/// The pagination query of a message fetch.
#[derive(Debug, Clone)]
pub struct GetMessagesQuery {
    pub limit: Option<u8>,
    pub before: Option<Snowflake>,
    pub after: Option<Snowflake>,
    pub around: Option<Snowflake>,
}

/// The query parts a message fetch produces, in their fixed order; the
/// limit is capped at one hundred.
pub open spec fn spec_query_parts(q: GetMessagesQuery) -> Seq<Seq<char>> {
    let l = match q.limit {
        Option::Some(v) => seq![
            "limit="@ + spec_u64_dec(
                if v > 100 {
                    100int
                } else {
                    v as int
                },
            ),
        ],
        Option::None => Seq::<Seq<char>>::empty(),
    };
    let b = match q.before {
        Option::Some(s) => seq!["before="@ + s@],
        Option::None => Seq::<Seq<char>>::empty(),
    };
    let a = match q.after {
        Option::Some(s) => seq!["after="@ + s@],
        Option::None => Seq::<Seq<char>>::empty(),
    };
    let r = match q.around {
        Option::Some(s) => seq!["around="@ + s@],
        Option::None => Seq::<Seq<char>>::empty(),
    };
    l + b + a + r
}

/// Parts joined with `&` between them.
pub open spec fn spec_join_amp(parts: Seq<Seq<char>>) -> Seq<char>
    decreases parts.len(),
{
    if parts.len() == 0 {
        Seq::<char>::empty()
    } else if parts.len() == 1 {
        parts[0]
    } else {
        spec_join_amp(parts.drop_last()) + "&"@ + parts.last()
    }
}

impl Default for GetMessagesQuery {
    /// A query that asks for the default page.
    fn default() -> (q: GetMessagesQuery)
        ensures
            q.limit is None && q.before is None && q.after is None && q.around is None,
    {
        GetMessagesQuery { limit: None, before: None, after: None, around: None }
    }
}

impl GetMessagesQuery {
    /// A query that asks for the default page.
    pub fn empty() -> (q: GetMessagesQuery)
        ensures
            q.limit is None && q.before is None && q.after is None && q.around is None,
    {
        GetMessagesQuery { limit: None, before: None, after: None, around: None }
    }

    /// The query string of this query: empty when nothing is set, else a
    /// `?` followed by the set parts joined with `&`.
    pub fn to_query_string(&self) -> (r: String)
        ensures
            r@ == if spec_query_parts(*self).len() == 0 {
                Seq::<char>::empty()
            } else {
                "?"@ + spec_join_amp(spec_query_parts(*self))
            },
    {
        let ghost gparts = spec_query_parts(*self);
        let mut parts: Vec<String> = Vec::new();
        match self.limit {
            Option::Some(l) => {
                let capped: u8 = if l > 100 {
                    100
                } else {
                    l
                };
                parts.push(String::from_str("limit=").concat(u64_to_dec(capped as u64).as_str()));
            },
            Option::None => {},
        }
        match &self.before {
            Option::Some(s) => {
                parts.push(String::from_str("before=").concat(s.as_str()));
            },
            Option::None => {},
        }
        match &self.after {
            Option::Some(s) => {
                parts.push(String::from_str("after=").concat(s.as_str()));
            },
            Option::None => {},
        }
        match &self.around {
            Option::Some(s) => {
                parts.push(String::from_str("around=").concat(s.as_str()));
            },
            Option::None => {},
        }
        proof {
            assert(parts@.map_values(|p: String| p@) =~= gparts);
        }
        if parts.len() == 0 {
            return String::new();
        }
        let mut out = String::from_str("?");
        let mut i: usize = 0;
        while i < parts.len()
            invariant
                parts@.map_values(|p: String| p@) == gparts,
                i <= parts@.len(),
                parts@.len() > 0,
                i == 0 ==> out@ == "?"@,
                i > 0 ==> out@ == "?"@ + spec_join_amp(gparts.subrange(0, i as int)),
            decreases parts@.len() - i,
        {
            if i > 0 {
                out.append("&");
            }
            out.append(parts[i].as_str());
            proof {
                let sub = gparts.subrange(0, i + 1 as int);
                assert(sub.last() == gparts[i as int]);
                assert(sub.drop_last() =~= gparts.subrange(0, i as int));
                if i == 0 {
                    assert(spec_join_amp(sub) == sub[0]);
                    assert(out@ =~= "?"@ + spec_join_amp(sub));
                } else {
                    assert(spec_join_amp(sub) == spec_join_amp(gparts.subrange(0, i as int))
                        + "&"@ + gparts[i as int]);
                    assert(out@ =~= "?"@ + spec_join_amp(sub));
                }
            }
            i = i + 1;
        }
        proof {
            assert(gparts.subrange(0, gparts.len() as int) =~= gparts);
        }
        out
    }
}

} // verus!
