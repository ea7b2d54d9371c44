use hammer::chat::Chat;
use hammer::config::HammerConfig;
use hammer::events::{ChatEvent, MessageTags, RawCommand, RawEvent, Tag};

const HAMMER_ON: &str = ":hammer on";

fn test_config() -> HammerConfig {
    let mut conf = HammerConfig::new();
    conf.username = Some("botnick".to_string());
    conf.oauth = Some("token".to_string());
    conf.channel = Some("TestChan".to_string());
    conf
}

fn engine() -> Chat {
    Chat::new(&test_config())
}

/// The seeded channel owner: the lowercased channel name, a moderator.
const OWNER: &str = "testchan";

fn message(nickname: &str, text: &str) -> ChatEvent {
    ChatEvent::Message(nickname.to_string(), text.to_string(), MessageTags::empty())
}

fn message_with_tags(nickname: &str, text: &str, tags: MessageTags) -> ChatEvent {
    ChatEvent::Message(nickname.to_string(), text.to_string(), tags)
}

fn armed_engine() -> Chat {
    let mut chat = engine();
    let out = chat.process_message(message(OWNER, HAMMER_ON));
    assert_eq!(out.len(), 1);
    assert!(chat.is_ban_mode_enabled());
    chat
}

#[test]
fn new_engine_starts_disarmed_with_owner_as_mod() {
    let chat = engine();
    assert!(!chat.is_ban_mode_enabled());
    assert!(!chat.is_cap_membership_enabled());
    assert!(!chat.is_cap_commands_enabled());
    assert!(!chat.is_cap_tags_enabled());
    assert_eq!(chat.channel(), "#testchan");
    assert_eq!(chat.my_nickname(), "botnick");
    let owner = chat.user(OWNER).expect("owner should be seeded");
    assert!(owner.is_mod);
    assert!(!owner.is_paying);
    assert!(owner.auto_ban_date.is_none());
    assert!(chat.user("TestChan").is_none());
}

#[test]
fn exact_banned_phrase_draws_one_sanction() {
    let mut chat = armed_engine();
    let out = chat.process_message(message("pleb", "ban me!"));
    assert_eq!(out, vec!["/ban pleb".to_string()]);
    let user = chat.user("pleb").expect("sender should be in the roster");
    assert!(user.auto_ban_date.is_some());
}

#[test]
fn trailing_whitespace_is_trimmed_before_matching() {
    let mut chat = armed_engine();
    let out = chat.process_message(message("pleb", "ban me! "));
    assert_eq!(out, vec!["/ban pleb".to_string()]);
    assert!(chat.user("pleb").expect("sender in roster").auto_ban_date.is_some());
}

#[test]
fn case_difference_does_not_match() {
    let mut chat = armed_engine();
    let out = chat.process_message(message("pleb", "Ban me!"));
    assert!(out.is_empty());
    assert!(chat.user("pleb").expect("sender in roster").auto_ban_date.is_none());
}

#[test]
fn disarmed_engine_does_not_sanction() {
    let mut chat = engine();
    let out = chat.process_message(message("pleb", "ban me!"));
    assert!(out.is_empty());
    assert!(chat.user("pleb").expect("sender in roster").auto_ban_date.is_none());
}

#[test]
fn moderator_is_never_sanctioned() {
    let mut chat = armed_engine();
    let out = chat.process_message(message(OWNER, "ban me!"));
    assert!(out.is_empty());
    assert!(chat.user(OWNER).unwrap().auto_ban_date.is_none());
}

#[test]
fn subscriber_is_never_sanctioned() {
    let mut chat = armed_engine();
    let mut tags = MessageTags::empty();
    tags.is_subscriber = Some(true);
    let out = chat.process_message(message_with_tags("subber", "ban me!", tags));
    assert!(out.is_empty());
    let user = chat.user("subber").unwrap();
    assert!(user.is_paying);
    assert!(user.auto_ban_date.is_none());
}

#[test]
fn already_sanctioned_user_is_not_sanctioned_again() {
    let mut chat = armed_engine();
    let first = chat.process_message(message("pleb", "ban me!"));
    assert_eq!(first.len(), 1);
    let second = chat.process_message(message("pleb", "ban me!"));
    assert!(second.is_empty());
}

#[test]
fn bots_own_messages_are_ignored() {
    let mut chat = armed_engine();
    let out = chat.process_message(message("botnick", "ban me!"));
    assert!(out.is_empty());
    assert!(chat.user("botnick").is_none());
}

#[test]
fn non_moderator_cannot_toggle_hammer() {
    let mut chat = engine();
    let out = chat.process_message(message("pleb", HAMMER_ON));
    assert!(out.is_empty());
    assert!(!chat.is_ban_mode_enabled());
}

#[test]
fn moderator_toggles_hammer_with_announcements() {
    let mut chat = engine();
    let on = chat.process_message(message(OWNER, HAMMER_ON));
    assert_eq!(on.len(), 1);
    assert!(on[0].contains("Hammer mode has been enabled"));
    assert!(chat.is_ban_mode_enabled());
    let off = chat.process_message(message(OWNER, ":hammer off"));
    assert_eq!(off, vec!["Hammer mode has been disabled. I'll stop banning now!".to_string()]);
    assert!(!chat.is_ban_mode_enabled());
}

#[test]
fn control_phrase_is_not_trimmed() {
    let mut chat = engine();
    let out = chat.process_message(message(OWNER, ":hammer on "));
    assert!(out.is_empty());
    assert!(!chat.is_ban_mode_enabled());
}

#[test]
fn subscriber_tag_marks_paying_monotonically() {
    let mut chat = engine();
    let raw_ev = RawEvent {
        prefix: Some("bob!bob@host".to_string()),
        tags: Some(vec![Tag { key: "subscriber".to_string(), value: Some("1".to_string()) }]),
        command: RawCommand::PrivMsg { text: "good evening".to_string() },
    };
    let ev = Chat::parse_message(raw_ev).expect("should classify");
    match &ev {
        ChatEvent::Message(_, _, tags) => assert_eq!(tags.is_subscriber, Some(true)),
        _ => panic!("expected a message event"),
    }
    chat.process_message(ev);
    assert!(chat.user("bob").unwrap().is_paying);

    let later = message("bob", "another day");
    chat.process_message(later);
    assert!(chat.user("bob").unwrap().is_paying);
}

#[test]
fn display_name_tag_overwrites_display_name() {
    let mut chat = engine();
    let mut tags = MessageTags::empty();
    tags.display_name = Some("Bob".to_string());
    chat.process_message(message_with_tags("bob", "hi there", tags));
    let user = chat.user("bob").unwrap();
    assert_eq!(user.display_name, "Bob");
    assert_eq!(user.nickname, "bob");
}

#[test]
fn ensure_is_idempotent_and_keeps_flags() {
    let mut chat = engine();
    let existed = chat.user_ensure_exists("carol");
    assert!(!existed);
    chat.process_message(ChatEvent::Operator("carol".to_string(), true));
    let existed_again = chat.user_ensure_exists("carol");
    assert!(existed_again);
    let user = chat.user("carol").unwrap();
    assert!(user.is_mod);
    assert!(!user.is_paying);
}

#[test]
fn operator_grant_creates_entry_with_mod_flag() {
    let mut chat = engine();
    assert!(chat.user("X").is_none());
    chat.process_message(ChatEvent::Operator("X".to_string(), true));
    let user = chat.user("X").unwrap();
    assert!(user.is_mod);
    assert!(!user.is_paying);
    chat.process_message(ChatEvent::Operator("X".to_string(), false));
    assert!(!chat.user("X").unwrap().is_mod);
}

#[test]
fn capability_acknowledgements_raise_flags() {
    let mut chat = engine();
    chat.process_message(ChatEvent::Capability(vec![
        "twitch.tv/commands".to_string(),
        "something/else".to_string(),
    ]));
    assert!(chat.is_cap_commands_enabled());
    assert!(!chat.is_cap_membership_enabled());
    assert!(!chat.is_cap_tags_enabled());
    chat.process_message(ChatEvent::Capability(vec![
        "twitch.tv/membership".to_string(),
        "twitch.tv/tags".to_string(),
    ]));
    assert!(chat.is_cap_commands_enabled());
    assert!(chat.is_cap_membership_enabled());
    assert!(chat.is_cap_tags_enabled());
}

#[test]
fn informational_events_change_nothing() {
    let mut chat = armed_engine();
    assert!(chat.process_message(ChatEvent::InvalidAuthToken).is_empty());
    assert!(chat.process_message(ChatEvent::Clear).is_empty());
    assert!(chat.process_message(ChatEvent::SubModeOn).is_empty());
    assert!(chat.process_message(ChatEvent::Join("dave".to_string())).is_empty());
    assert!(chat.is_ban_mode_enabled());
    assert!(chat.user("dave").is_none());
}
