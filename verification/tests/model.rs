use rest_request::model::id::{ApplicationId, ChannelId, CommandId, GuildId, MessageId, UserId};
use rest_request::model::interactions::{
    ApplicationCommand, ApplicationInfo, Cursor, UserApplicationCommandSearchResult,
};
use rest_request::model::users::{
    ChannelOverride, FriendSourceFlags, NotificationLevel, OnlineStatus, ReadState, Relationship,
    RelationshipType, RequestUser, Tutorial, UserGuildSettings, UserPublicFlags, UserSettings,
};

#[test]
fn relationship_value() {
    let test_relationship = Relationship {
        id: UserId(1000000000000),
        nickname: None,
        kind: RelationshipType::Friends,
        user: RequestUser {
            id: UserId(999999999999),
            name: "friended_user".to_string(),
            discriminator: 9999,
            avatar: None,
            flags: Some(UserPublicFlags { bits: 0 }),
        },
    };
    assert_eq!(test_relationship.id, UserId(1000000000000));
    assert_eq!(test_relationship.kind.num(), 1);
    assert_eq!(*test_relationship.user, UserId(999999999999));
    assert_eq!(test_relationship.user.name, "friended_user");
    assert_eq!(test_relationship.user.discriminator, 9999);
    assert_eq!(test_relationship.user.flags, Some(UserPublicFlags { bits: 0 }));
    let copy = test_relationship.clone();
    assert_eq!(copy.user.name, "friended_user");
}

#[test]
fn relationship_type_numbers() {
    assert_eq!(RelationshipType::Ignored.num(), 0);
    assert_eq!(RelationshipType::Friends.num(), 1);
    assert_eq!(RelationshipType::Blocked.num(), 2);
    assert_eq!(RelationshipType::IncomingRequest.num(), 3);
    assert_eq!(RelationshipType::OutgoingRequest.num(), 4);
    assert_eq!(RelationshipType::Unknown.num(), 255);
}

#[test]
fn relationship_type_from_number() {
    assert_eq!(RelationshipType::from_num(0), Some(RelationshipType::Ignored));
    assert_eq!(RelationshipType::from_num(1), Some(RelationshipType::Friends));
    assert_eq!(RelationshipType::from_num(2), Some(RelationshipType::Blocked));
    assert_eq!(RelationshipType::from_num(3), Some(RelationshipType::IncomingRequest));
    assert_eq!(RelationshipType::from_num(4), Some(RelationshipType::OutgoingRequest));
    assert_eq!(RelationshipType::from_num(5), None);
    assert_eq!(RelationshipType::from_num(255), None);
    assert_eq!(RelationshipType::from_num(u64::MAX), None);
}

#[test]
fn relationship_type_round_trip() {
    let named = [
        RelationshipType::Ignored,
        RelationshipType::Friends,
        RelationshipType::Blocked,
        RelationshipType::IncomingRequest,
        RelationshipType::OutgoingRequest,
    ];
    for kind in named {
        assert_eq!(RelationshipType::from_num(kind.num() as u64), Some(kind));
    }
}

#[test]
fn defaults_of_the_enums() {
    assert_eq!(RelationshipType::default(), RelationshipType::Ignored);
    assert_eq!(NotificationLevel::default(), NotificationLevel::All);
    assert_eq!(OnlineStatus::default(), OnlineStatus::Online);
    assert_eq!(UserId::default(), UserId(0));
}

#[test]
fn default_relationship() {
    let relationship = Relationship::default();
    assert_eq!(relationship.id, UserId(0));
    assert!(relationship.nickname.is_none());
    assert_eq!(relationship.kind, RelationshipType::Ignored);
    assert_eq!(relationship.user.id, UserId(0));
    assert_eq!(relationship.user.name, "");
    assert_eq!(relationship.user.discriminator, 0);
    assert!(relationship.user.avatar.is_none());
    assert!(relationship.user.flags.is_none());
}

#[test]
fn default_request_user() {
    let user = RequestUser::default();
    assert_eq!(user.id, UserId(0));
    assert_eq!(user.name, "");
    assert_eq!(user.discriminator, 0);
    assert!(user.avatar.is_none());
    assert!(user.flags.is_none());
}

#[test]
fn request_user_stands_for_its_id() {
    let user = RequestUser {
        id: UserId(42),
        name: "n".to_string(),
        discriminator: 1,
        avatar: Some("a".to_string()),
        flags: None,
    };
    let id: &UserId = &user;
    assert_eq!(*id, UserId(42));
    assert_eq!(user.0, 42);
}

#[test]
fn default_tutorial() {
    let tutorial = Tutorial::default();
    assert!(tutorial.indicators_confirmed.is_empty());
    assert!(!tutorial.indicators_suppressed);
}

#[test]
fn default_guild_settings() {
    let settings = UserGuildSettings::default();
    assert!(settings.channel_overrides.is_empty());
    assert!(settings.guild_id.is_none());
    assert_eq!(settings.message_notifications, NotificationLevel::All);
    assert!(!settings.mobile_push);
    assert!(!settings.muted);
    assert!(!settings.suppress_everyone);
}

#[test]
fn default_user_settings() {
    let settings = UserSettings::default();
    assert!(!settings.convert_emoticons);
    assert!(!settings.enable_tts_command);
    assert_eq!(settings.friend_source_flags, FriendSourceFlags::default());
    assert!(!settings.inline_attachment_media);
    assert!(!settings.inline_embed_media);
    assert_eq!(settings.locale, "");
    assert!(!settings.message_display_compact);
    assert!(!settings.render_embeds);
    assert!(settings.restricted_guilds.is_empty());
    assert!(!settings.show_current_game);
    assert_eq!(settings.status, OnlineStatus::Online);
    assert_eq!(settings.theme, "");
}

#[test]
fn default_friend_source_flags() {
    let flags = FriendSourceFlags::default();
    assert!(!flags.all);
    assert!(!flags.mutual_friends);
    assert!(!flags.mutual_guilds);
}

#[test]
fn plain_records_hold_their_fields() {
    let state = ReadState {
        id: ChannelId(1),
        last_message_id: Some(MessageId(2)),
        last_pin_timestamp: None,
        mention_count: 3,
    };
    assert_eq!(state.clone().last_message_id, Some(MessageId(2)));
    assert_eq!(state.mention_count, 3);
    let over = ChannelOverride {
        channel_id: ChannelId(1),
        message_notifications: NotificationLevel::Mentions,
        muted: true,
    };
    let settings = UserGuildSettings {
        channel_overrides: vec![over],
        guild_id: Some(GuildId(9)),
        message_notifications: NotificationLevel::Parent,
        mobile_push: true,
        muted: false,
        suppress_everyone: true,
    };
    assert_eq!(settings.channel_overrides[0].channel_id, ChannelId(1));
    assert_eq!(settings.channel_overrides[0].message_notifications, NotificationLevel::Mentions);
    assert_eq!(settings.guild_id, Some(GuildId(9)));
}

#[test]
fn search_result_holds_its_page() {
    let app = ApplicationInfo {
        id: ApplicationId(1),
        name: "app".to_string(),
        description: "d".to_string(),
    };
    let command = ApplicationCommand {
        id: CommandId(2),
        application_id: ApplicationId(1),
        name: "ping".to_string(),
        description: "pong".to_string(),
    };
    let cursor = Cursor::new(None, Some("n".to_string()), Some(false));
    assert!(cursor.previous.is_none());
    let page = UserApplicationCommandSearchResult::new(vec![app], vec![command], cursor);
    assert_eq!(page.applications[0].id, ApplicationId(1));
    assert_eq!(page.application_commands[0].application_id, page.applications[0].id);
    assert_eq!(page.cursor.next.as_deref(), Some("n"));
    assert_eq!(page.clone().cursor.repaired, Some(false));
}
