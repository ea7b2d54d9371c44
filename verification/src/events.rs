//! The data carried by raw protocol events and the typed chat events that
//! classification produces.

use vstd::prelude::*;

verus! {

/// One key/value metadata pair attached to a raw protocol event.
/// The value may be absent (a key given without `=...`).
pub struct Tag {
    pub key: String,
    pub value: Option<String>,
}

/// The command part of a raw protocol event, already tokenized by the
/// transport. Only the shapes the classifier inspects are distinguished;
/// everything else is `Other`.
pub enum RawCommand {
    /// A chat text line (the trailing message text).
    PrivMsg { text: String },
    /// A capability answer; `ack` is true when the server acknowledged.
    Cap { ack: bool, param: Option<String> },
    /// A channel mode change applied to an optional target nickname.
    Mode { mode: String, nickname: Option<String> },
    /// A plain server notice (its trailing text).
    Notice { text: String },
    /// A user joined the channel.
    Join,
    /// A user left the channel.
    Part,
    /// A non-standard command, by name, with its optional trailing text.
    Raw { name: String, trailing: Option<String> },
    /// Anything the classifier never acts on.
    Other,
}

/// A raw protocol event: a command with its optional sender prefix and
/// optional metadata tags.
pub struct RawEvent {
    pub prefix: Option<String>,
    pub tags: Option<Vec<Tag>>,
    pub command: RawCommand,
}

/// The user-type a message's tags assign to its sender.
pub enum TwitchUserType {
    /// The empty user-type value.
    Regular,
    Mod,
    GlobalMod,
    Admin,
    Staff,
    /// A non-empty value the library does not recognize.
    Other(String),
}

/// Spec-level image of [`TwitchUserType`].
pub enum TwitchUserTypeView {
    Regular,
    Mod,
    GlobalMod,
    Admin,
    Staff,
    Other(Seq<char>),
}

impl DeepView for TwitchUserType {
    type V = TwitchUserTypeView;

    open spec fn deep_view(&self) -> TwitchUserTypeView {
        match self {
            TwitchUserType::Regular => TwitchUserTypeView::Regular,
            TwitchUserType::Mod => TwitchUserTypeView::Mod,
            TwitchUserType::GlobalMod => TwitchUserTypeView::GlobalMod,
            TwitchUserType::Admin => TwitchUserTypeView::Admin,
            TwitchUserType::Staff => TwitchUserTypeView::Staff,
            TwitchUserType::Other(s) => TwitchUserTypeView::Other(s@),
        }
    }
}

/// The typed fields decoded from a chat message's tags.
pub struct MessageTags {
    pub color: Option<String>,
    pub display_name: Option<String>,
    pub id: Option<String>,
    pub is_mod: Option<bool>,
    pub is_subscriber: Option<bool>,
    pub is_turbo: Option<bool>,
    pub room_id: Option<u32>,
    pub user_id: Option<u32>,
    pub user_type: Option<TwitchUserType>,
}

/// Spec-level image of [`MessageTags`].
pub struct MessageTagsView {
    pub color: Option<Seq<char>>,
    pub display_name: Option<Seq<char>>,
    pub id: Option<Seq<char>>,
    pub is_mod: Option<bool>,
    pub is_subscriber: Option<bool>,
    pub is_turbo: Option<bool>,
    pub room_id: Option<u32>,
    pub user_id: Option<u32>,
    pub user_type: Option<TwitchUserTypeView>,
}

impl DeepView for MessageTags {
    type V = MessageTagsView;

    open spec fn deep_view(&self) -> MessageTagsView {
        MessageTagsView {
            color: self.color.deep_view(),
            display_name: self.display_name.deep_view(),
            id: self.id.deep_view(),
            is_mod: self.is_mod,
            is_subscriber: self.is_subscriber,
            is_turbo: self.is_turbo,
            room_id: self.room_id,
            user_id: self.user_id,
            user_type: self.user_type.deep_view(),
        }
    }
}

/// An error that rejects a whole tag set: a numeric tag whose value does not
/// parse. The variant names the offending key and carries the bad value.
#[derive(Debug)]
pub enum TagParseError {
    BadRoomId(String),
    BadUserId(String),
}

/// Spec-level image of [`TagParseError`].
pub enum TagParseErrorView {
    BadRoomId(Seq<char>),
    BadUserId(Seq<char>),
}

impl DeepView for TagParseError {
    type V = TagParseErrorView;

    open spec fn deep_view(&self) -> TagParseErrorView {
        match self {
            TagParseError::BadRoomId(s) => TagParseErrorView::BadRoomId(s@),
            TagParseError::BadUserId(s) => TagParseErrorView::BadUserId(s@),
        }
    }
}

/// The room-mode fields decoded from a room-state event's tags.
pub struct RoomStateTags {
    pub language: Option<String>,
    pub r9k: Option<bool>,
    pub subs_only: Option<bool>,
    pub slow: Option<bool>,
}

/// Spec-level image of [`RoomStateTags`].
pub struct RoomStateTagsView {
    pub language: Option<Seq<char>>,
    pub r9k: Option<bool>,
    pub subs_only: Option<bool>,
    pub slow: Option<bool>,
}

impl DeepView for RoomStateTags {
    type V = RoomStateTagsView;

    open spec fn deep_view(&self) -> RoomStateTagsView {
        RoomStateTagsView {
            language: self.language.deep_view(),
            r9k: self.r9k,
            subs_only: self.subs_only,
            slow: self.slow,
        }
    }
}

/// A typed chat event: the closed set of meanings a raw protocol event can
/// classify to. At most one is produced per raw event.
pub enum ChatEvent {
    /// Incoming text message (author nickname, text, tags).
    Message(String, String, MessageTags),
    /// A user joined the chat (nickname).
    Join(String),
    /// A user left the chat (nickname).
    Leave(String),
    /// The channel was cleared.
    Clear,
    /// A user was timed out (nickname, duration in seconds, reason).
    Timeout(String, u32, Option<String>),
    /// A user was banned (nickname, reason).
    Ban(String, Option<String>),
    /// Someone gained or lost operator status (nickname, granted).
    Operator(String, bool),
    /// Room state update.
    RoomState(RoomStateTags),
    /// Server capability acknowledgement (capability names, in order).
    Capability(Vec<String>),
    /// The server rejected the authentication token.
    InvalidAuthToken,
    /// This room is now in subscribers-only mode.
    SubModeOn,
    /// This room is already in subscribers-only mode.
    SubModeAlreadyOn,
    /// This room is no longer in subscribers-only mode.
    SubModeOff,
    /// This room is not in subscribers-only mode.
    SubModeAlreadyOff,
    /// This room is now in slow mode (minimum seconds between messages).
    SlowModeOn(u32),
    /// This room is no longer in slow mode.
    SlowModeOff,
    /// This room is now in r9k mode.
    R9kModeOn,
    /// This room is already in r9k mode.
    R9kModeAlreadyOn,
    /// This room is no longer in r9k mode.
    R9kModeOff,
    /// This room is not in r9k mode.
    R9kModeAlreadyOff,
    /// Now hosting another channel (hosted channel name).
    HostModeOn(String),
    /// This channel is already hosting the requested channel.
    HostModeAlreadyOn(String),
    /// Exited host mode.
    HostModeOff,
    /// Number of host commands remaining this half hour.
    HostsRemaining(u32),
    /// This room is now in emote-only mode.
    EmoteModeOn,
    /// This room is already in emote-only mode.
    EmoteModeAlreadyOn,
    /// This room is no longer in emote-only mode.
    EmoteModeOff,
    /// This room is not in emote-only mode.
    EmoteModeAlreadyOff,
    /// This channel has been suspended.
    ChannelSuspended,
    /// A user was successfully timed out (nickname, duration in seconds).
    TimeoutConfirmed(String, u32),
    /// A user was successfully banned (nickname).
    BanConfirmed(String),
    /// A user was successfully unbanned (nickname).
    UnbanConfirmed(String),
    /// A user cannot be unbanned, not being banned (nickname).
    UnbanNoBan(String),
    /// A user cannot be banned, being banned already (nickname).
    BanAlreadyBanned(String),
    /// An outgoing command was not recognized (command contents).
    UnrecognisedCommand(String),
}

/// Spec-level image of [`ChatEvent`].
pub enum ChatEventView {
    Message(Seq<char>, Seq<char>, MessageTagsView),
    Join(Seq<char>),
    Leave(Seq<char>),
    Clear,
    Timeout(Seq<char>, u32, Option<Seq<char>>),
    Ban(Seq<char>, Option<Seq<char>>),
    Operator(Seq<char>, bool),
    RoomState(RoomStateTagsView),
    Capability(Seq<Seq<char>>),
    InvalidAuthToken,
    SubModeOn,
    SubModeAlreadyOn,
    SubModeOff,
    SubModeAlreadyOff,
    SlowModeOn(u32),
    SlowModeOff,
    R9kModeOn,
    R9kModeAlreadyOn,
    R9kModeOff,
    R9kModeAlreadyOff,
    HostModeOn(Seq<char>),
    HostModeAlreadyOn(Seq<char>),
    HostModeOff,
    HostsRemaining(u32),
    EmoteModeOn,
    EmoteModeAlreadyOn,
    EmoteModeOff,
    EmoteModeAlreadyOff,
    ChannelSuspended,
    TimeoutConfirmed(Seq<char>, u32),
    BanConfirmed(Seq<char>),
    UnbanConfirmed(Seq<char>),
    UnbanNoBan(Seq<char>),
    BanAlreadyBanned(Seq<char>),
    UnrecognisedCommand(Seq<char>),
}

impl DeepView for ChatEvent {
    type V = ChatEventView;

    open spec fn deep_view(&self) -> ChatEventView {
        match self {
            ChatEvent::Message(n, t, mt) => ChatEventView::Message(n@, t@, mt.deep_view()),
            ChatEvent::Join(n) => ChatEventView::Join(n@),
            ChatEvent::Leave(n) => ChatEventView::Leave(n@),
            ChatEvent::Clear => ChatEventView::Clear,
            ChatEvent::Timeout(n, d, r) => ChatEventView::Timeout(n@, *d, r.deep_view()),
            ChatEvent::Ban(n, r) => ChatEventView::Ban(n@, r.deep_view()),
            ChatEvent::Operator(n, g) => ChatEventView::Operator(n@, *g),
            ChatEvent::RoomState(rs) => ChatEventView::RoomState(rs.deep_view()),
            ChatEvent::Capability(cs) => ChatEventView::Capability(cs.deep_view()),
            ChatEvent::InvalidAuthToken => ChatEventView::InvalidAuthToken,
            ChatEvent::SubModeOn => ChatEventView::SubModeOn,
            ChatEvent::SubModeAlreadyOn => ChatEventView::SubModeAlreadyOn,
            ChatEvent::SubModeOff => ChatEventView::SubModeOff,
            ChatEvent::SubModeAlreadyOff => ChatEventView::SubModeAlreadyOff,
            ChatEvent::SlowModeOn(d) => ChatEventView::SlowModeOn(*d),
            ChatEvent::SlowModeOff => ChatEventView::SlowModeOff,
            ChatEvent::R9kModeOn => ChatEventView::R9kModeOn,
            ChatEvent::R9kModeAlreadyOn => ChatEventView::R9kModeAlreadyOn,
            ChatEvent::R9kModeOff => ChatEventView::R9kModeOff,
            ChatEvent::R9kModeAlreadyOff => ChatEventView::R9kModeAlreadyOff,
            ChatEvent::HostModeOn(c) => ChatEventView::HostModeOn(c@),
            ChatEvent::HostModeAlreadyOn(c) => ChatEventView::HostModeAlreadyOn(c@),
            ChatEvent::HostModeOff => ChatEventView::HostModeOff,
            ChatEvent::HostsRemaining(n) => ChatEventView::HostsRemaining(*n),
            ChatEvent::EmoteModeOn => ChatEventView::EmoteModeOn,
            ChatEvent::EmoteModeAlreadyOn => ChatEventView::EmoteModeAlreadyOn,
            ChatEvent::EmoteModeOff => ChatEventView::EmoteModeOff,
            ChatEvent::EmoteModeAlreadyOff => ChatEventView::EmoteModeAlreadyOff,
            ChatEvent::ChannelSuspended => ChatEventView::ChannelSuspended,
            ChatEvent::TimeoutConfirmed(n, d) => ChatEventView::TimeoutConfirmed(n@, *d),
            ChatEvent::BanConfirmed(n) => ChatEventView::BanConfirmed(n@),
            ChatEvent::UnbanConfirmed(n) => ChatEventView::UnbanConfirmed(n@),
            ChatEvent::UnbanNoBan(n) => ChatEventView::UnbanNoBan(n@),
            ChatEvent::BanAlreadyBanned(n) => ChatEventView::BanAlreadyBanned(n@),
            ChatEvent::UnrecognisedCommand(t) => ChatEventView::UnrecognisedCommand(t@),
        }
    }
}

impl MessageTags {
    /// All fields absent.
    pub fn empty() -> (r: MessageTags)
        ensures
            r.deep_view() == MessageTagsView::empty(),
    {
        MessageTags {
            color: None,
            display_name: None,
            id: None,
            is_mod: None,
            is_subscriber: None,
            is_turbo: None,
            room_id: None,
            user_id: None,
            user_type: None,
        }
    }
}

impl MessageTagsView {
    /// All fields absent.
    pub open spec fn empty() -> MessageTagsView {
        MessageTagsView {
            color: None,
            display_name: None,
            id: None,
            is_mod: None,
            is_subscriber: None,
            is_turbo: None,
            room_id: None,
            user_id: None,
            user_type: None,
        }
    }
}

impl RoomStateTags {
    /// All fields absent.
    pub fn empty() -> (r: RoomStateTags)
        ensures
            r.deep_view() == RoomStateTagsView::empty(),
    {
        RoomStateTags { language: None, r9k: None, subs_only: None, slow: None }
    }
}

impl RoomStateTagsView {
    /// All fields absent.
    pub open spec fn empty() -> RoomStateTagsView {
        RoomStateTagsView { language: None, r9k: None, subs_only: None, slow: None }
    }
}

} // verus!
