//! The parts of the API that concern the current user: read states,
//! relationships and settings.

use crate::model::id::{ChannelId, GuildId, MessageId, UserId};
use vstd::prelude::*;

verus! {

/// Whether and how a user shows as present.
#[derive(Clone, Copy, Debug, PartialEq, Eq, Hash, Structural)]
#[non_exhaustive]
pub enum OnlineStatus {
    DoNotDisturb,
    Idle,
    Invisible,
    Offline,
    Online,
}

impl Default for OnlineStatus {
    /// Online.
    fn default() -> (status: Self)
        ensures
            status == OnlineStatus::Online,
    {
        OnlineStatus::Online
    }
}

/// The public flags of a user's account, one bit each.
#[derive(Clone, Copy, Debug, PartialEq, Eq, Hash, Structural)]
pub struct UserPublicFlags {
    pub bits: u32,
}

/// Summary of messages since last login.
#[derive(Clone, Debug)]
pub struct ReadState {
    /// The channel's Id.
    pub id: ChannelId,
    /// The Id of the latest message sent to the channel.
    pub last_message_id: Option<MessageId>,
    /// The timestamp of the latest pinned message in the channel.
    pub last_pin_timestamp: Option<String>,
    /// The amount of times you've been mentioned in the channel.
    pub mention_count: u64,
}

/// The type of a relationship between two users.
#[derive(Clone, Copy, Debug, PartialEq, Eq, Hash, Structural)]
#[non_exhaustive]
pub enum RelationshipType {
    /// When a friend request was ignored.
    Ignored,
    /// When users are friends.
    Friends,
    /// When one user blocked the other one.
    Blocked,
    /// When an incoming friend request was received.
    IncomingRequest,
    /// When an outgoing friend request was sent.
    OutgoingRequest,
    /// Unknown handling.
    Unknown,
}

impl RelationshipType {
    /// The number that stands for the relationship type on the wire:
    /// 0 to 4 for the five types that the API names, 255 for `Unknown`.
    pub open spec fn number(self) -> u8 {
        match self {
            RelationshipType::Ignored => 0,
            RelationshipType::Friends => 1,
            RelationshipType::Blocked => 2,
            RelationshipType::IncomingRequest => 3,
            RelationshipType::OutgoingRequest => 4,
            RelationshipType::Unknown => 255,
        }
    }

    /// The number that stands for the relationship type on the wire.
    pub fn num(self) -> (n: u8)
        ensures
            n == self.number(),
    {
        match self {
            RelationshipType::Ignored => 0,
            RelationshipType::Friends => 1,
            RelationshipType::Blocked => 2,
            RelationshipType::IncomingRequest => 3,
            RelationshipType::OutgoingRequest => 4,
            RelationshipType::Unknown => 255,
        }
    }

    /// The relationship type that the API names by `n`, if it names one.
    /// `Unknown` has no number of the API's and is never the answer.
    pub fn from_num(n: u64) -> (kind: Option<Self>)
        ensures
            kind is Some <==> n <= 4,
            kind matches Some(named) ==> named.number() == n,
    {
        if n == 0 {
            Some(RelationshipType::Ignored)
        } else if n == 1 {
            Some(RelationshipType::Friends)
        } else if n == 2 {
            Some(RelationshipType::Blocked)
        } else if n == 3 {
            Some(RelationshipType::IncomingRequest)
        } else if n == 4 {
            Some(RelationshipType::OutgoingRequest)
        } else {
            None
        }
    }

    /// Two relationship types with the same number are the same type, so a
    /// number read back names the type that it was written for.
    pub proof fn lemma_number_names_one(one: Self, other: Self)
        requires
            one.number() == other.number(),
        ensures
            one == other,
    {
    }
}

impl Default for RelationshipType {
    /// An ignored request.
    fn default() -> (kind: Self)
        ensures
            kind == RelationshipType::Ignored,
    {
        Self::Ignored
    }
}

/// The user on the other side of a relationship.
#[derive(Clone, Debug)]
pub struct RequestUser {
    pub id: UserId,
    pub name: String,
    pub discriminator: u16,
    pub avatar: Option<String>,
    pub flags: Option<UserPublicFlags>,
}

impl Default for RequestUser {
    /// A user with the identifier zero, an empty name and nothing else.
    fn default() -> (user: Self)
        ensures
            user.id == UserId(0),
            user.name@.len() == 0,
            user.discriminator == 0,
            user.avatar is None,
            user.flags is None,
    {
        RequestUser {
            id: UserId(0),
            name: String::new(),
            discriminator: 0,
            avatar: None,
            flags: None,
        }
    }
}

/// A `RequestUser` stands for its identifier wherever one is asked for.
impl std::ops::Deref for RequestUser {
    type Target = UserId;

    fn deref(&self) -> (id: &UserId)
        ensures
            *id == self.id,
    {
        &self.id
    }
}

/// Information about a relationship that a user has with another user.
#[derive(Clone, Debug)]
pub struct Relationship {
    /// Id of the first relationship participant.
    pub id: UserId,
    /// Nickname of the user. Users only.
    pub nickname: Option<String>,
    /// Type of the relationship such as blocked, friends etc.
    pub kind: RelationshipType,
    /// User associated with the relationship.
    pub user: RequestUser,
}

impl Default for Relationship {
    /// An ignored relationship with the default user.
    fn default() -> (relationship: Self)
        ensures
            relationship.id == UserId(0),
            relationship.nickname is None,
            relationship.kind == RelationshipType::Ignored,
            relationship.user.id == UserId(0),
            relationship.user.name@.len() == 0,
            relationship.user.discriminator == 0,
            relationship.user.avatar is None,
            relationship.user.flags is None,
    {
        Relationship {
            id: UserId(0),
            nickname: None,
            kind: RelationshipType::Ignored,
            user: RequestUser::default(),
        }
    }
}

/// The current user's progress through the tutorial.
#[derive(Clone, Debug)]
pub struct Tutorial {
    pub indicators_confirmed: Vec<String>,
    pub indicators_suppressed: bool,
}

impl Default for Tutorial {
    /// Nothing confirmed, nothing suppressed.
    fn default() -> (tutorial: Self)
        ensures
            tutorial.indicators_confirmed@.len() == 0,
            !tutorial.indicators_suppressed,
    {
        Tutorial { indicators_confirmed: Vec::new(), indicators_suppressed: false }
    }
}

/// Identifier for the notification level of a channel.
#[derive(Clone, Copy, Debug, PartialEq, Eq, Structural)]
pub enum NotificationLevel {
    All,
    Mentions,
    Nothing,
    Parent,
}

impl Default for NotificationLevel {
    /// All messages notify.
    fn default() -> (level: Self)
        ensures
            level == NotificationLevel::All,
    {
        Self::All
    }
}

/// An override for a channel.
#[derive(Clone, Debug)]
pub struct ChannelOverride {
    /// The channel this override is for.
    pub channel_id: ChannelId,
    /// The notification level to use for the channel.
    pub message_notifications: NotificationLevel,
    /// Whether or not the channel is muted; while this will not show a
    /// notification indicator for the channel, it will continue to show when the
    /// user is mentioned in it.
    pub muted: bool,
}

/// Settings about a guild in regards to notification configuration.
#[derive(Clone, Debug)]
pub struct UserGuildSettings {
    pub channel_overrides: Vec<ChannelOverride>,
    pub guild_id: Option<GuildId>,
    pub message_notifications: NotificationLevel,
    pub mobile_push: bool,
    pub muted: bool,
    pub suppress_everyone: bool,
}

impl Default for UserGuildSettings {
    /// No overrides, no guild, every message notifies, every switch off.
    fn default() -> (settings: Self)
        ensures
            settings.channel_overrides@.len() == 0,
            settings.guild_id is None,
            settings.message_notifications == NotificationLevel::All,
            !settings.mobile_push,
            !settings.muted,
            !settings.suppress_everyone,
    {
        UserGuildSettings {
            channel_overrides: Vec::new(),
            guild_id: None,
            message_notifications: NotificationLevel::All,
            mobile_push: false,
            muted: false,
            suppress_everyone: false,
        }
    }
}

/// Flags about who may or may not add the current user as a friend.
#[derive(Clone, Copy, Debug, PartialEq, Eq, Structural)]
pub struct FriendSourceFlags {
    pub all: bool,
    pub mutual_friends: bool,
    pub mutual_guilds: bool,
}

impl Default for FriendSourceFlags {
    /// Nobody.
    fn default() -> (flags: Self)
        ensures
            flags == (FriendSourceFlags { all: false, mutual_friends: false, mutual_guilds: false }),
    {
        FriendSourceFlags { all: false, mutual_friends: false, mutual_guilds: false }
    }
}

/// User settings usually used to influence client behavior.
#[derive(Clone, Debug)]
pub struct UserSettings {
    pub convert_emoticons: bool,
    pub enable_tts_command: bool,
    pub friend_source_flags: FriendSourceFlags,
    pub inline_attachment_media: bool,
    pub inline_embed_media: bool,
    pub locale: String,
    pub message_display_compact: bool,
    pub render_embeds: bool,
    pub restricted_guilds: Vec<GuildId>,
    pub show_current_game: bool,
    pub status: OnlineStatus,
    pub theme: String,
}

impl Default for UserSettings {
    /// Every switch off, every text and list empty, the status online.
    fn default() -> (settings: Self)
        ensures
            !settings.convert_emoticons,
            !settings.enable_tts_command,
            settings.friend_source_flags == (FriendSourceFlags {
                all: false,
                mutual_friends: false,
                mutual_guilds: false,
            }),
            !settings.inline_attachment_media,
            !settings.inline_embed_media,
            settings.locale@.len() == 0,
            !settings.message_display_compact,
            !settings.render_embeds,
            settings.restricted_guilds@.len() == 0,
            !settings.show_current_game,
            settings.status == OnlineStatus::Online,
            settings.theme@.len() == 0,
    {
        UserSettings {
            convert_emoticons: false,
            enable_tts_command: false,
            friend_source_flags: FriendSourceFlags::default(),
            inline_attachment_media: false,
            inline_embed_media: false,
            locale: String::new(),
            message_display_compact: false,
            render_embeds: false,
            restricted_guilds: Vec::new(),
            show_current_game: false,
            status: OnlineStatus::Online,
            theme: String::new(),
        }
    }
}

} // verus!
