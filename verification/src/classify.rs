//! The protocol classifier: maps one raw protocol event to at most one
//! typed chat event; malformed or irrelevant input is dropped.

use vstd::prelude::*;

use crate::chat::Chat;
use crate::events::{
    ChatEvent, ChatEventView, MessageTags, RawCommand, RawEvent, RoomStateTags, Tag,
};
use crate::strutil::{first_idx_of, parse_u32, split_ws, split_ws_spec, str_eq};
use crate::tags::{from_tags_spec, roomstate_spec, valid_u32};

verus! {

/// The nickname a sender prefix carries: the part before the first `!`,
/// or nothing when there is no `!`.
pub open spec fn nick_of_prefix(p: Seq<char>) -> Option<Seq<char>> {
    match first_idx_of(p, '!') {
        Some(i) => Some(p.subrange(0, i)),
        None => None,
    }
}

/// The nickname a raw event's prefix carries, if it has a prefix at all.
pub open spec fn nick_of_event(ev: RawEvent) -> Option<Seq<char>> {
    match ev.prefix {
        Some(p) => nick_of_prefix(p@),
        None => None,
    }
}

/// The ban duration and reason the tags `tags[i..]` of a targeted
/// channel-clear leave behind, given those read so far: a later occurrence
/// of a key overwrites an earlier one, and an unparseable duration clears
/// it.
pub open spec fn clearchat_rec(
    tags: Seq<Tag>,
    i: int,
    duration: Option<u32>,
    reason: Option<Seq<char>>,
) -> (Option<u32>, Option<Seq<char>>)
    decreases tags.len() - i,
{
    if i < 0 || i >= tags.len() {
        (duration, reason)
    } else {
        let t = tags[i];
        match t.value {
            None => clearchat_rec(tags, i + 1, duration, reason),
            Some(val) => {
                if t.key@ == "ban-duration"@ {
                    let d = if valid_u32(val@) {
                        Some(digits_val_u32(val@))
                    } else {
                        None
                    };
                    clearchat_rec(tags, i + 1, d, reason)
                } else if t.key@ == "ban-reason"@ {
                    clearchat_rec(tags, i + 1, duration, Some(val@))
                } else {
                    clearchat_rec(tags, i + 1, duration, reason)
                }
            },
        }
    }
}

/// The value of an all-digit string, as a 32-bit unsigned integer.
pub open spec fn digits_val_u32(s: Seq<char>) -> u32 {
    crate::strutil::digits_val(s) as u32
}

/// A numeric tag value: absent, or present but unparseable, count as
/// nothing.
pub open spec fn opt_num_of(val: Option<String>) -> Option<u32> {
    match val {
        Some(v) => if valid_u32(v@) {
            Some(digits_val_u32(v@))
        } else {
            None
        },
        None => None,
    }
}

/// The fields a structured server notice's tags can carry.
pub struct NoticeTagsView {
    pub msg_id: Option<Seq<char>>,
    pub slow_duration: Option<u32>,
    pub target_channel: Option<Seq<char>>,
    pub number: Option<u32>,
    pub target_user: Option<Seq<char>>,
    pub ban_duration: Option<u32>,
    pub invalid_command: Option<Seq<char>>,
}

impl NoticeTagsView {
    /// All fields absent.
    pub open spec fn empty() -> NoticeTagsView {
        NoticeTagsView {
            msg_id: None,
            slow_duration: None,
            target_channel: None,
            number: None,
            target_user: None,
            ban_duration: None,
            invalid_command: None,
        }
    }
}

/// What the tags `tags[i..]` of a structured server notice make of the
/// fields read so far. A recognized key overwrites its field, with nothing
/// when the tag has no value or a number does not parse.
pub open spec fn notice_rec(tags: Seq<Tag>, i: int, cur: NoticeTagsView) -> NoticeTagsView
    decreases tags.len() - i,
{
    if i < 0 || i >= tags.len() {
        cur
    } else {
        let t = tags[i];
        let key = t.key@;
        if key == "msg-id"@ {
            notice_rec(tags, i + 1, NoticeTagsView { msg_id: t.value.deep_view(), ..cur })
        } else if key == "slow-duration"@ {
            notice_rec(tags, i + 1, NoticeTagsView { slow_duration: opt_num_of(t.value), ..cur })
        } else if key == "target-channel"@ {
            notice_rec(tags, i + 1, NoticeTagsView { target_channel: t.value.deep_view(), ..cur })
        } else if key == "number"@ {
            notice_rec(tags, i + 1, NoticeTagsView { number: opt_num_of(t.value), ..cur })
        } else if key == "target-user"@ {
            notice_rec(tags, i + 1, NoticeTagsView { target_user: t.value.deep_view(), ..cur })
        } else if key == "ban-duration"@ {
            notice_rec(tags, i + 1, NoticeTagsView { ban_duration: opt_num_of(t.value), ..cur })
        } else if key == "command"@ {
            notice_rec(tags, i + 1, NoticeTagsView { invalid_command: t.value.deep_view(), ..cur })
        } else {
            notice_rec(tags, i + 1, cur)
        }
    }
}

/// The event a structured server notice stands for, by its `msg-id`; a
/// missing companion field, or an unrecognized `msg-id`, drops the notice.
pub open spec fn notice_event_spec(nt: NoticeTagsView) -> Option<ChatEventView> {
    match nt.msg_id {
        None => None,
        Some(id) => {
            if id == "subs_on"@ {
                Some(ChatEventView::SubModeOn)
            } else if id == "already_subs_on"@ {
                Some(ChatEventView::SubModeAlreadyOn)
            } else if id == "subs_off"@ {
                Some(ChatEventView::SubModeOff)
            } else if id == "already_subs_off"@ {
                Some(ChatEventView::SubModeAlreadyOff)
            } else if id == "slow_on"@ {
                match nt.slow_duration {
                    Some(d) => Some(ChatEventView::SlowModeOn(d)),
                    None => None,
                }
            } else if id == "slow_off"@ {
                Some(ChatEventView::SlowModeOff)
            } else if id == "r9k_on"@ {
                Some(ChatEventView::R9kModeOn)
            } else if id == "already_r9k_on"@ {
                Some(ChatEventView::R9kModeAlreadyOn)
            } else if id == "r9k_off"@ {
                Some(ChatEventView::R9kModeOff)
            } else if id == "already_r9k_off"@ {
                Some(ChatEventView::R9kModeAlreadyOff)
            } else if id == "host_on"@ {
                match nt.target_channel {
                    Some(tc) => Some(ChatEventView::HostModeOn(tc)),
                    None => None,
                }
            } else if id == "bad_host_hosting"@ {
                match nt.target_channel {
                    Some(tc) => Some(ChatEventView::HostModeAlreadyOn(tc)),
                    None => None,
                }
            } else if id == "host_off"@ {
                Some(ChatEventView::HostModeOff)
            } else if id == "hosts_remaining"@ {
                match nt.number {
                    Some(n) => Some(ChatEventView::HostsRemaining(n)),
                    None => None,
                }
            } else if id == "emote_only_on"@ {
                Some(ChatEventView::EmoteModeOn)
            } else if id == "already_emote_only_on"@ {
                Some(ChatEventView::EmoteModeAlreadyOn)
            } else if id == "emote_only_off"@ {
                Some(ChatEventView::EmoteModeOff)
            } else if id == "already_emote_only_off"@ {
                Some(ChatEventView::EmoteModeAlreadyOff)
            } else if id == "msg_channel_suspended"@ {
                Some(ChatEventView::ChannelSuspended)
            } else if id == "timeout_success"@ {
                match nt.target_user {
                    Some(tu) => match nt.ban_duration {
                        Some(bd) => Some(ChatEventView::TimeoutConfirmed(tu, bd)),
                        None => None,
                    },
                    None => None,
                }
            } else if id == "ban_success"@ {
                match nt.target_user {
                    Some(tu) => Some(ChatEventView::BanConfirmed(tu)),
                    None => None,
                }
            } else if id == "unban_success"@ {
                match nt.target_user {
                    Some(tu) => Some(ChatEventView::UnbanConfirmed(tu)),
                    None => None,
                }
            } else if id == "bad_unban_no_ban"@ {
                match nt.target_user {
                    Some(tu) => Some(ChatEventView::UnbanNoBan(tu)),
                    None => None,
                }
            } else if id == "already_banned"@ {
                match nt.target_user {
                    Some(tu) => Some(ChatEventView::BanAlreadyBanned(tu)),
                    None => None,
                }
            } else if id == "unrecognized_cmd"@ {
                match nt.invalid_command {
                    Some(ic) => Some(ChatEventView::UnrecognisedCommand(ic)),
                    None => None,
                }
            } else {
                None
            }
        },
    }
}

/// The typed chat event one raw protocol event stands for, or nothing when
/// it is malformed or irrelevant. Classification is a pure function of the
/// raw event.
pub open spec fn classify_spec(ev: RawEvent) -> Option<ChatEventView> {
    match ev.command {
        RawCommand::PrivMsg { text } => {
            match (ev.tags, ev.prefix) {
                (Some(msgtags), Some(prefix)) => {
                    match from_tags_spec(msgtags@) {
                        Ok(tags) => {
                            match nick_of_prefix(prefix@) {
                                Some(nickname) => Some(
                                    ChatEventView::Message(nickname, text@, tags),
                                ),
                                None => None,
                            }
                        },
                        Err(_) => None,
                    }
                },
                _ => None,
            }
        },
        RawCommand::Cap { ack, param } => {
            if ack {
                match param {
                    Some(p) => Some(ChatEventView::Capability(split_ws_spec(p@))),
                    None => None,
                }
            } else {
                None
            }
        },
        RawCommand::Mode { mode, nickname } => {
            match nickname {
                Some(n) => {
                    if mode@ == "+o"@ {
                        Some(ChatEventView::Operator(n@, true))
                    } else if mode@ == "-o"@ {
                        Some(ChatEventView::Operator(n@, false))
                    } else {
                        None
                    }
                },
                None => None,
            }
        },
        RawCommand::Notice { text } => {
            if text@ == "Login authentication failed"@ {
                Some(ChatEventView::InvalidAuthToken)
            } else {
                None
            }
        },
        RawCommand::Join => {
            match nick_of_event(ev) {
                Some(nickname) => Some(ChatEventView::Join(nickname)),
                None => None,
            }
        },
        RawCommand::Part => {
            match nick_of_event(ev) {
                Some(nickname) => Some(ChatEventView::Leave(nickname)),
                None => None,
            }
        },
        RawCommand::Raw { name, trailing } => {
            if name@ == "CLEARCHAT"@ {
                match trailing {
                    Some(nickname) => {
                        match ev.tags {
                            Some(tags) => {
                                let dr = clearchat_rec(tags@, 0, None, None);
                                match dr.0 {
                                    Some(duration) => Some(
                                        ChatEventView::Timeout(nickname@, duration, dr.1),
                                    ),
                                    None => Some(ChatEventView::Ban(nickname@, dr.1)),
                                }
                            },
                            None => None,
                        }
                    },
                    None => Some(ChatEventView::Clear),
                }
            } else if name@ == "ROOMSTATE"@ {
                match ev.tags {
                    Some(tags) => Some(ChatEventView::RoomState(roomstate_spec(tags@))),
                    None => None,
                }
            } else if name@ == "NOTICE"@ {
                match ev.tags {
                    Some(tags) => notice_event_spec(
                        notice_rec(tags@, 0, NoticeTagsView::empty()),
                    ),
                    None => None,
                }
            } else {
                None
            }
        },
        RawCommand::Other => None,
    }
}

/// A chat-text event without tags, without a prefix, or with a prefix that
/// carries no `!` separator classifies to no event at all.
pub proof fn lemma_privmsg_needs_prefix_tags_and_separator(ev: RawEvent)
    requires
        ev.command is PrivMsg,
        ev.tags is None || ev.prefix is None || (ev.prefix matches Some(p) && first_idx_of(
            p@,
            '!',
        ) is None),
    ensures
        classify_spec(ev) is None,
{
}

/// The fields a structured server notice's tags carry, as read.
struct NoticeTags {
    msg_id: Option<String>,
    slow_duration: Option<u32>,
    target_channel: Option<String>,
    number: Option<u32>,
    target_user: Option<String>,
    ban_duration: Option<u32>,
    invalid_command: Option<String>,
}

impl DeepView for NoticeTags {
    type V = NoticeTagsView;

    closed spec fn deep_view(&self) -> NoticeTagsView {
        NoticeTagsView {
            msg_id: self.msg_id.deep_view(),
            slow_duration: self.slow_duration,
            target_channel: self.target_channel.deep_view(),
            number: self.number,
            target_user: self.target_user.deep_view(),
            ban_duration: self.ban_duration,
            invalid_command: self.invalid_command.deep_view(),
        }
    }
}

/// Reads the tags of a structured server notice into its fields.
fn read_notice_tags(tags: &Vec<Tag>) -> (r: NoticeTags)
    ensures
        r.deep_view() == notice_rec(tags@, 0, NoticeTagsView::empty()),
{
    let mut cur = NoticeTags {
        msg_id: None,
        slow_duration: None,
        target_channel: None,
        number: None,
        target_user: None,
        ban_duration: None,
        invalid_command: None,
    };
    let mut i: usize = 0;
    while i < tags.len()
        invariant
            i <= tags@.len(),
            notice_rec(tags@, i as int, cur.deep_view()) == notice_rec(
                tags@,
                0,
                NoticeTagsView::empty(),
            ),
        decreases tags@.len() - i,
    {
        let t = &tags[i];
        let key = t.key.as_str();
        if str_eq(key, "msg-id") {
            cur.msg_id = match &t.value {
                Some(v) => Some(v.clone()),
                None => None,
            };
        } else if str_eq(key, "slow-duration") {
            cur.slow_duration = match &t.value {
                Some(v) => parse_u32(v.as_str()),
                None => None,
            };
        } else if str_eq(key, "target-channel") {
            cur.target_channel = match &t.value {
                Some(v) => Some(v.clone()),
                None => None,
            };
        } else if str_eq(key, "number") {
            cur.number = match &t.value {
                Some(v) => parse_u32(v.as_str()),
                None => None,
            };
        } else if str_eq(key, "target-user") {
            cur.target_user = match &t.value {
                Some(v) => Some(v.clone()),
                None => None,
            };
        } else if str_eq(key, "ban-duration") {
            cur.ban_duration = match &t.value {
                Some(v) => parse_u32(v.as_str()),
                None => None,
            };
        } else if str_eq(key, "command") {
            cur.invalid_command = match &t.value {
                Some(v) => Some(v.clone()),
                None => None,
            };
        }
        i += 1;
    }
    cur
}

/// Dispatches a structured server notice on its `msg-id`.
fn notice_dispatch(nt: NoticeTags) -> (r: Option<ChatEvent>)
    ensures
        r.deep_view() == notice_event_spec(nt.deep_view()),
{
    let NoticeTags {
        msg_id,
        slow_duration,
        target_channel,
        number,
        target_user,
        ban_duration,
        invalid_command,
    } = nt;
    match msg_id {
        None => None,
        Some(id) => {
            let ids = id.as_str();
            if str_eq(ids, "subs_on") {
                Some(ChatEvent::SubModeOn)
            } else if str_eq(ids, "already_subs_on") {
                Some(ChatEvent::SubModeAlreadyOn)
            } else if str_eq(ids, "subs_off") {
                Some(ChatEvent::SubModeOff)
            } else if str_eq(ids, "already_subs_off") {
                Some(ChatEvent::SubModeAlreadyOff)
            } else if str_eq(ids, "slow_on") {
                match slow_duration {
                    Some(d) => Some(ChatEvent::SlowModeOn(d)),
                    None => None,
                }
            } else if str_eq(ids, "slow_off") {
                Some(ChatEvent::SlowModeOff)
            } else if str_eq(ids, "r9k_on") {
                Some(ChatEvent::R9kModeOn)
            } else if str_eq(ids, "already_r9k_on") {
                Some(ChatEvent::R9kModeAlreadyOn)
            } else if str_eq(ids, "r9k_off") {
                Some(ChatEvent::R9kModeOff)
            } else if str_eq(ids, "already_r9k_off") {
                Some(ChatEvent::R9kModeAlreadyOff)
            } else if str_eq(ids, "host_on") {
                match target_channel {
                    Some(tc) => Some(ChatEvent::HostModeOn(tc)),
                    None => None,
                }
            } else if str_eq(ids, "bad_host_hosting") {
                match target_channel {
                    Some(tc) => Some(ChatEvent::HostModeAlreadyOn(tc)),
                    None => None,
                }
            } else if str_eq(ids, "host_off") {
                Some(ChatEvent::HostModeOff)
            } else if str_eq(ids, "hosts_remaining") {
                match number {
                    Some(n) => Some(ChatEvent::HostsRemaining(n)),
                    None => None,
                }
            } else if str_eq(ids, "emote_only_on") {
                Some(ChatEvent::EmoteModeOn)
            } else if str_eq(ids, "already_emote_only_on") {
                Some(ChatEvent::EmoteModeAlreadyOn)
            } else if str_eq(ids, "emote_only_off") {
                Some(ChatEvent::EmoteModeOff)
            } else if str_eq(ids, "already_emote_only_off") {
                Some(ChatEvent::EmoteModeAlreadyOff)
            } else if str_eq(ids, "msg_channel_suspended") {
                Some(ChatEvent::ChannelSuspended)
            } else if str_eq(ids, "timeout_success") {
                match target_user {
                    Some(tu) => match ban_duration {
                        Some(bd) => Some(ChatEvent::TimeoutConfirmed(tu, bd)),
                        None => None,
                    },
                    None => None,
                }
            } else if str_eq(ids, "ban_success") {
                match target_user {
                    Some(tu) => Some(ChatEvent::BanConfirmed(tu)),
                    None => None,
                }
            } else if str_eq(ids, "unban_success") {
                match target_user {
                    Some(tu) => Some(ChatEvent::UnbanConfirmed(tu)),
                    None => None,
                }
            } else if str_eq(ids, "bad_unban_no_ban") {
                match target_user {
                    Some(tu) => Some(ChatEvent::UnbanNoBan(tu)),
                    None => None,
                }
            } else if str_eq(ids, "already_banned") {
                match target_user {
                    Some(tu) => Some(ChatEvent::BanAlreadyBanned(tu)),
                    None => None,
                }
            } else if str_eq(ids, "unrecognized_cmd") {
                match invalid_command {
                    Some(ic) => Some(ChatEvent::UnrecognisedCommand(ic)),
                    None => None,
                }
            } else {
                None
            }
        },
    }
}

impl Chat {
    /// The part of a sender prefix before its `!` separator, or nothing
    /// when the prefix has none.
    pub fn parse_user_name_from_prefix(prefix: &str) -> (r: Option<&str>)
        ensures
            r.deep_view() == nick_of_prefix(prefix@),
    {
        match crate::strutil::find_char(prefix, '!') {
            Some(pos) => {
                proof {
                    crate::strutil::lemma_first_idx_of_in_bounds(prefix@, '!', pos as int);
                }
                Some(prefix.substring_char(0, pos))
            },
            None => None,
        }
    }

    /// The nickname in a raw event's sender prefix, if any.
    pub fn parse_user_name_from_message(message: &RawEvent) -> (r: Option<&str>)
        ensures
            r.deep_view() == nick_of_event(*message),
    {
        match &message.prefix {
            Some(prefix) => Chat::parse_user_name_from_prefix(prefix.as_str()),
            None => None,
        }
    }

    /// Turns a raw protocol event into at most one typed chat event;
    /// malformed or irrelevant input yields nothing.
    pub fn parse_message(message: RawEvent) -> (r: Option<ChatEvent>)
        ensures
            r.deep_view() == classify_spec(message),
    {
        match message.command {
            RawCommand::PrivMsg { text } => {
                match (message.tags, message.prefix) {
                    (Some(msgtags), Some(prefix)) => {
                        match MessageTags::from_tags(&msgtags) {
                            Ok(tags) => {
                                match Chat::parse_user_name_from_prefix(prefix.as_str()) {
                                    Some(nickname) => Some(
                                        ChatEvent::Message(nickname.to_owned(), text, tags),
                                    ),
                                    None => None,
                                }
                            },
                            Err(_) => None,
                        }
                    },
                    _ => None,
                }
            },
            RawCommand::Cap { ack, param } => {
                if ack {
                    match param {
                        Some(p) => Some(ChatEvent::Capability(split_ws(p.as_str()))),
                        None => None,
                    }
                } else {
                    None
                }
            },
            RawCommand::Mode { mode, nickname } => {
                match nickname {
                    Some(n) => {
                        if str_eq(mode.as_str(), "+o") {
                            Some(ChatEvent::Operator(n, true))
                        } else if str_eq(mode.as_str(), "-o") {
                            Some(ChatEvent::Operator(n, false))
                        } else {
                            None
                        }
                    },
                    None => None,
                }
            },
            RawCommand::Notice { text } => {
                if str_eq(text.as_str(), "Login authentication failed") {
                    Some(ChatEvent::InvalidAuthToken)
                } else {
                    None
                }
            },
            RawCommand::Join => {
                match Chat::parse_user_name_from_message_owned(&message.prefix) {
                    Some(nickname) => Some(ChatEvent::Join(nickname)),
                    None => None,
                }
            },
            RawCommand::Part => {
                match Chat::parse_user_name_from_message_owned(&message.prefix) {
                    Some(nickname) => Some(ChatEvent::Leave(nickname)),
                    None => None,
                }
            },
            RawCommand::Raw { name, trailing } => {
                if str_eq(name.as_str(), "CLEARCHAT") {
                    match trailing {
                        Some(nickname) => {
                            match message.tags {
                                Some(tags) => {
                                    let mut duration: Option<u32> = None;
                                    let mut reason: Option<String> = None;
                                    let mut i: usize = 0;
                                    while i < tags.len()
                                        invariant
                                            i <= tags@.len(),
                                            clearchat_rec(
                                                tags@,
                                                i as int,
                                                duration,
                                                reason.deep_view(),
                                            ) == clearchat_rec(tags@, 0, None, None),
                                        decreases tags@.len() - i,
                                    {
                                        let t = &tags[i];
                                        if let Some(val) = &t.value {
                                            if str_eq(t.key.as_str(), "ban-duration") {
                                                duration = parse_u32(val.as_str());
                                            } else if str_eq(t.key.as_str(), "ban-reason") {
                                                reason = Some(val.clone());
                                            }
                                        }
                                        i += 1;
                                    }
                                    match duration {
                                        Some(durval) => Some(
                                            ChatEvent::Timeout(nickname, durval, reason),
                                        ),
                                        None => Some(ChatEvent::Ban(nickname, reason)),
                                    }
                                },
                                None => None,
                            }
                        },
                        None => Some(ChatEvent::Clear),
                    }
                } else if str_eq(name.as_str(), "ROOMSTATE") {
                    match message.tags {
                        Some(tags) => Some(
                            ChatEvent::RoomState(RoomStateTags::from_tags_list(&tags)),
                        ),
                        None => None,
                    }
                } else if str_eq(name.as_str(), "NOTICE") {
                    match message.tags {
                        Some(tags) => notice_dispatch(read_notice_tags(&tags)),
                        None => None,
                    }
                } else {
                    None
                }
            },
            RawCommand::Other => None,
        }
    }

    /// The nickname in a sender prefix, owned.
    fn parse_user_name_from_message_owned(prefix: &Option<String>) -> (r: Option<String>)
        ensures
            r.deep_view() == (match *prefix {
                Some(p) => nick_of_prefix(p@),
                None => None,
            }),
    {
        match prefix {
            Some(p) => {
                match Chat::parse_user_name_from_prefix(p.as_str()) {
                    Some(nickname) => Some(nickname.to_owned()),
                    None => None,
                }
            },
            None => None,
        }
    }
}

} // verus!
