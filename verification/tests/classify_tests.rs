use hammer::chat::Chat;
use hammer::events::{ChatEvent, MessageTags, RawCommand, RawEvent, Tag, TagParseError};

fn tag(key: &str, value: Option<&str>) -> Tag {
    Tag { key: key.to_string(), value: value.map(|v| v.to_string()) }
}

fn privmsg(prefix: Option<&str>, tags: Option<Vec<Tag>>, text: &str) -> RawEvent {
    RawEvent {
        prefix: prefix.map(|p| p.to_string()),
        tags,
        command: RawCommand::PrivMsg { text: text.to_string() },
    }
}

fn raw(name: &str, trailing: Option<&str>, tags: Option<Vec<Tag>>) -> RawEvent {
    RawEvent {
        prefix: None,
        tags,
        command: RawCommand::Raw {
            name: name.to_string(),
            trailing: trailing.map(|t| t.to_string()),
        },
    }
}

#[test]
fn parse_user_name_from_prefix_correct() {
    assert_eq!(Some("MyUser"), Chat::parse_user_name_from_prefix("MyUser!myuser@tmi.twitch.tv"));
}

#[test]
fn parse_user_name_from_prefix_incorrect() {
    assert_eq!(None, Chat::parse_user_name_from_prefix("u wot?"));
}

#[test]
fn parse_user_name_from_message_uses_prefix() {
    let ev = privmsg(Some("MyUser!myuser@tmi.twitch.tv"), None, "hi");
    assert_eq!(Some("MyUser"), Chat::parse_user_name_from_message(&ev));
    let bare = privmsg(None, None, "hi");
    assert_eq!(None, Chat::parse_user_name_from_message(&bare));
}

#[test]
fn privmsg_without_tags_is_dropped() {
    let ev = privmsg(Some("bob!bob@host"), None, "hello there");
    assert!(Chat::parse_message(ev).is_none());
}

#[test]
fn privmsg_without_prefix_is_dropped() {
    let ev = privmsg(None, Some(vec![tag("subscriber", Some("1"))]), "hello there");
    assert!(Chat::parse_message(ev).is_none());
}

#[test]
fn privmsg_with_separatorless_prefix_is_dropped() {
    let ev = privmsg(Some("just a name"), Some(vec![]), "hello there");
    assert!(Chat::parse_message(ev).is_none());
}

#[test]
fn privmsg_with_subscriber_tag_classifies() {
    let ev = privmsg(
        Some("bob!bob@host"),
        Some(vec![tag("subscriber", Some("1"))]),
        "good evening",
    );
    match Chat::parse_message(ev) {
        Some(ChatEvent::Message(nickname, text, tags)) => {
            assert_eq!(nickname, "bob");
            assert_eq!(text, "good evening");
            assert_eq!(tags.is_subscriber, Some(true));
            assert_eq!(tags.is_turbo, None);
        },
        _ => panic!("expected a message event"),
    }
}

#[test]
fn privmsg_with_bad_user_id_is_dropped() {
    let ev = privmsg(
        Some("bob!bob@host"),
        Some(vec![tag("user-id", Some("not-a-number"))]),
        "good evening",
    );
    assert!(Chat::parse_message(ev).is_none());
}

#[test]
fn message_tags_decode_fields() {
    let tags = vec![
        tag("display-name", Some("Bob")),
        tag("mod", Some("1")),
        tag("turbo", Some("0")),
        tag("room-id", Some("123")),
        tag("user-id", Some("456")),
        tag("user-type", Some("global_mod")),
        tag("color", Some("#FF0000")),
        tag("id", Some("abc-def")),
        tag("badges", Some("subscriber/1")),
        tag("unknown-key", Some("whatever")),
        tag("valueless", None),
    ];
    let decoded = MessageTags::from_tags(&tags).expect("tags should decode");
    assert_eq!(decoded.display_name.as_deref(), Some("Bob"));
    assert_eq!(decoded.is_mod, Some(true));
    assert_eq!(decoded.is_turbo, Some(false));
    assert_eq!(decoded.is_subscriber, None);
    assert_eq!(decoded.room_id, Some(123));
    assert_eq!(decoded.user_id, Some(456));
    assert_eq!(decoded.color.as_deref(), Some("#FF0000"));
    assert_eq!(decoded.id.as_deref(), Some("abc-def"));
    assert!(matches!(
        decoded.user_type,
        Some(hammer::events::TwitchUserType::GlobalMod)
    ));
}

#[test]
fn message_tags_reject_bad_room_id() {
    let tags = vec![tag("room-id", Some("12x"))];
    match MessageTags::from_tags(&tags) {
        Err(TagParseError::BadRoomId(v)) => assert_eq!(v, "12x"),
        _ => panic!("expected a room-id error"),
    }
}

#[test]
fn message_tags_reject_bad_user_id() {
    let tags = vec![tag("user-id", Some("99999999999999999999"))];
    match MessageTags::from_tags(&tags) {
        Err(TagParseError::BadUserId(v)) => assert_eq!(v, "99999999999999999999"),
        _ => panic!("expected a user-id error"),
    }
}

#[test]
fn clearchat_with_duration_is_timeout() {
    let ev = raw(
        "CLEARCHAT",
        Some("triplepat"),
        Some(vec![tag("ban-duration", Some("600")), tag("ban-reason", Some("spam"))]),
    );
    match Chat::parse_message(ev) {
        Some(ChatEvent::Timeout(nickname, seconds, reason)) => {
            assert_eq!(nickname, "triplepat");
            assert_eq!(seconds, 600);
            assert_eq!(reason.as_deref(), Some("spam"));
        },
        _ => panic!("expected a timeout event"),
    }
}

#[test]
fn clearchat_without_duration_is_ban() {
    let ev = raw("CLEARCHAT", Some("triplepat"), Some(vec![tag("ban-reason", Some("spam"))]));
    match Chat::parse_message(ev) {
        Some(ChatEvent::Ban(nickname, reason)) => {
            assert_eq!(nickname, "triplepat");
            assert_eq!(reason.as_deref(), Some("spam"));
        },
        _ => panic!("expected a ban event"),
    }
}

#[test]
fn clearchat_with_bad_duration_is_ban() {
    let ev = raw("CLEARCHAT", Some("triplepat"), Some(vec![tag("ban-duration", Some("soon"))]));
    assert!(matches!(Chat::parse_message(ev), Some(ChatEvent::Ban(_, None))));
}

#[test]
fn clearchat_without_target_is_clear() {
    let ev = raw("CLEARCHAT", None, None);
    assert!(matches!(Chat::parse_message(ev), Some(ChatEvent::Clear)));
}

#[test]
fn clearchat_with_target_but_no_tags_is_dropped() {
    let ev = raw("CLEARCHAT", Some("triplepat"), None);
    assert!(Chat::parse_message(ev).is_none());
}

#[test]
fn capability_ack_splits_names() {
    let ev = RawEvent {
        prefix: None,
        tags: None,
        command: RawCommand::Cap {
            ack: true,
            param: Some("twitch.tv/commands  twitch.tv/tags".to_string()),
        },
    };
    match Chat::parse_message(ev) {
        Some(ChatEvent::Capability(names)) => {
            assert_eq!(names, vec!["twitch.tv/commands".to_string(), "twitch.tv/tags".to_string()]);
        },
        _ => panic!("expected a capability event"),
    }
}

#[test]
fn capability_without_param_is_dropped() {
    let ev = RawEvent {
        prefix: None,
        tags: None,
        command: RawCommand::Cap { ack: true, param: None },
    };
    assert!(Chat::parse_message(ev).is_none());
}

#[test]
fn capability_not_acknowledged_is_dropped() {
    let ev = RawEvent {
        prefix: None,
        tags: None,
        command: RawCommand::Cap { ack: false, param: Some("twitch.tv/tags".to_string()) },
    };
    assert!(Chat::parse_message(ev).is_none());
}

#[test]
fn mode_changes_classify_to_operator() {
    let grant = RawEvent {
        prefix: None,
        tags: None,
        command: RawCommand::Mode { mode: "+o".to_string(), nickname: Some("alice".to_string()) },
    };
    assert!(matches!(
        Chat::parse_message(grant),
        Some(ChatEvent::Operator(n, true)) if n == "alice"
    ));
    let revoke = RawEvent {
        prefix: None,
        tags: None,
        command: RawCommand::Mode { mode: "-o".to_string(), nickname: Some("alice".to_string()) },
    };
    assert!(matches!(
        Chat::parse_message(revoke),
        Some(ChatEvent::Operator(n, false)) if n == "alice"
    ));
    let other = RawEvent {
        prefix: None,
        tags: None,
        command: RawCommand::Mode { mode: "+v".to_string(), nickname: Some("alice".to_string()) },
    };
    assert!(Chat::parse_message(other).is_none());
}

#[test]
fn auth_failure_notice_classifies() {
    let ev = RawEvent {
        prefix: None,
        tags: None,
        command: RawCommand::Notice { text: "Login authentication failed".to_string() },
    };
    assert!(matches!(Chat::parse_message(ev), Some(ChatEvent::InvalidAuthToken)));
    let other = RawEvent {
        prefix: None,
        tags: None,
        command: RawCommand::Notice { text: "Welcome!".to_string() },
    };
    assert!(Chat::parse_message(other).is_none());
}

#[test]
fn join_and_part_take_nickname_from_prefix() {
    let join = RawEvent {
        prefix: Some("carol!carol@host".to_string()),
        tags: None,
        command: RawCommand::Join,
    };
    assert!(matches!(Chat::parse_message(join), Some(ChatEvent::Join(n)) if n == "carol"));
    let part = RawEvent {
        prefix: Some("carol!carol@host".to_string()),
        tags: None,
        command: RawCommand::Part,
    };
    assert!(matches!(Chat::parse_message(part), Some(ChatEvent::Leave(n)) if n == "carol"));
    let no_prefix = RawEvent { prefix: None, tags: None, command: RawCommand::Join };
    assert!(Chat::parse_message(no_prefix).is_none());
}

#[test]
fn roomstate_decodes_tags() {
    let ev = raw(
        "ROOMSTATE",
        None,
        Some(vec![
            tag("language", Some("en")),
            tag("r9k", Some("1")),
            tag("subs-only", Some("0")),
            tag("slow", Some("1")),
        ]),
    );
    match Chat::parse_message(ev) {
        Some(ChatEvent::RoomState(rs)) => {
            assert_eq!(rs.language.as_deref(), Some("en"));
            assert_eq!(rs.r9k, Some(true));
            assert_eq!(rs.subs_only, Some(false));
            assert_eq!(rs.slow, Some(true));
        },
        _ => panic!("expected a room-state event"),
    }
}

#[test]
fn notice_slow_on_requires_duration() {
    let with = raw("NOTICE", None, Some(vec![
        tag("msg-id", Some("slow_on")),
        tag("slow-duration", Some("120")),
    ]));
    assert!(matches!(Chat::parse_message(with), Some(ChatEvent::SlowModeOn(120))));
    let without = raw("NOTICE", None, Some(vec![tag("msg-id", Some("slow_on"))]));
    assert!(Chat::parse_message(without).is_none());
}

#[test]
fn notice_mode_confirmations_classify() {
    let subs = raw("NOTICE", None, Some(vec![tag("msg-id", Some("subs_on"))]));
    assert!(matches!(Chat::parse_message(subs), Some(ChatEvent::SubModeOn)));
    let r9k = raw("NOTICE", None, Some(vec![tag("msg-id", Some("already_r9k_off"))]));
    assert!(matches!(Chat::parse_message(r9k), Some(ChatEvent::R9kModeAlreadyOff)));
    let emote = raw("NOTICE", None, Some(vec![tag("msg-id", Some("emote_only_on"))]));
    assert!(matches!(Chat::parse_message(emote), Some(ChatEvent::EmoteModeOn)));
    let suspended = raw("NOTICE", None, Some(vec![tag("msg-id", Some("msg_channel_suspended"))]));
    assert!(matches!(Chat::parse_message(suspended), Some(ChatEvent::ChannelSuspended)));
}

#[test]
fn notice_timeout_success_requires_both_tags() {
    let full = raw("NOTICE", None, Some(vec![
        tag("msg-id", Some("timeout_success")),
        tag("target-user", Some("dave")),
        tag("ban-duration", Some("30")),
    ]));
    assert!(matches!(
        Chat::parse_message(full),
        Some(ChatEvent::TimeoutConfirmed(n, 30)) if n == "dave"
    ));
    let missing = raw("NOTICE", None, Some(vec![
        tag("msg-id", Some("timeout_success")),
        tag("target-user", Some("dave")),
    ]));
    assert!(Chat::parse_message(missing).is_none());
}

#[test]
fn notice_host_events_classify() {
    let on = raw("NOTICE", None, Some(vec![
        tag("msg-id", Some("host_on")),
        tag("target-channel", Some("otherchan")),
    ]));
    assert!(matches!(Chat::parse_message(on), Some(ChatEvent::HostModeOn(c)) if c == "otherchan"));
    let remaining = raw("NOTICE", None, Some(vec![
        tag("msg-id", Some("hosts_remaining")),
        tag("number", Some("3")),
    ]));
    assert!(matches!(Chat::parse_message(remaining), Some(ChatEvent::HostsRemaining(3))));
}

#[test]
fn notice_ban_confirmations_classify() {
    let ban = raw("NOTICE", None, Some(vec![
        tag("msg-id", Some("ban_success")),
        tag("target-user", Some("dave")),
    ]));
    assert!(matches!(Chat::parse_message(ban), Some(ChatEvent::BanConfirmed(n)) if n == "dave"));
    let unban = raw("NOTICE", None, Some(vec![
        tag("msg-id", Some("bad_unban_no_ban")),
        tag("target-user", Some("dave")),
    ]));
    assert!(matches!(Chat::parse_message(unban), Some(ChatEvent::UnbanNoBan(n)) if n == "dave"));
    let cmd = raw("NOTICE", None, Some(vec![
        tag("msg-id", Some("unrecognized_cmd")),
        tag("command", Some("/frobnicate")),
    ]));
    assert!(matches!(
        Chat::parse_message(cmd),
        Some(ChatEvent::UnrecognisedCommand(c)) if c == "/frobnicate"
    ));
}

#[test]
fn notice_with_unknown_msg_id_is_dropped() {
    let ev = raw("NOTICE", None, Some(vec![tag("msg-id", Some("some_new_thing"))]));
    assert!(Chat::parse_message(ev).is_none());
}

#[test]
fn notice_without_msg_id_is_dropped() {
    let ev = raw("NOTICE", None, Some(vec![tag("target-user", Some("dave"))]));
    assert!(Chat::parse_message(ev).is_none());
}

#[test]
fn unknown_raw_command_is_dropped() {
    let ev = raw("GLOBALUSERSTATE", None, None);
    assert!(Chat::parse_message(ev).is_none());
    let other = RawEvent { prefix: None, tags: None, command: RawCommand::Other };
    assert!(Chat::parse_message(other).is_none());
}
