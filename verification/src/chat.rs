//! The moderation engine: session state, roster ownership, and the decision
//! taken for each typed chat event.

use vstd::prelude::*;
use vstd::string::StringExecFns;

use crate::checker::Checker;
use crate::config::HammerConfig;
use crate::events::{ChatEvent, MessageTags};
use crate::roster::{roster_ensure_spec, ChatUser, ChatUserView, Roster};
use crate::strutil::{str_eq, trim, trim_spec};

verus! {

/// What `str::to_lowercase` returns; a function of the input characters
/// alone.
pub uninterp spec fn lower_of(s: Seq<char>) -> Seq<char>;

/// Relies on `str::to_lowercase`: the Unicode lowercase mapping of the
/// input, which depends on the input characters alone.
#[verifier::external_body]
fn lowercase(s: &str) -> (r: String)
    ensures
        r@ == lower_of(s@),
{
    s.to_lowercase()
}

/// Relies on `time::get_time`: the seconds part of the current system time
/// since the epoch. Nothing is assumed about the value.
#[verifier::external_body]
fn now_seconds() -> i64 {
    time::get_time().sec
}

/// The control phrase that turns sanctioning on.
pub open spec fn hammer_on_phrase() -> Seq<char> {
    ":hammer on"@
}

/// The control phrase that turns sanctioning off.
pub open spec fn hammer_off_phrase() -> Seq<char> {
    ":hammer off"@
}

/// The announcement sent when sanctioning is turned on.
pub open spec fn hammer_on_notice() -> Seq<char> {
    "⚠️ ATTENTION : Hammer mode has been enabled. Please refrain from sending messages that could look like what a bot would say!"@
}

/// The announcement sent when sanctioning is turned off.
pub open spec fn hammer_off_notice() -> Seq<char> {
    "Hammer mode has been disabled. I'll stop banning now!"@
}

/// The outgoing command that sanctions a user.
pub open spec fn sanction_cmd(nickname: Seq<char>) -> Seq<char> {
    "/ban "@ + nickname
}

/// Spec-level image of the engine state.
pub struct ChatView {
    pub channel: Seq<char>,
    pub banned_phrases: Seq<Seq<char>>,
    pub cap_membership_enabled: bool,
    pub cap_commands_enabled: bool,
    pub cap_tags_enabled: bool,
    pub roster: Map<Seq<char>, ChatUserView>,
    pub ban_mode_enabled: bool,
    pub my_nickname: Seq<char>,
}

/// The moderation engine: owns the roster and the session flags, and turns
/// each typed chat event into outgoing text lines.
pub struct Chat {
    channel: String,
    checker: Checker,
    cap_membership_enabled: bool,
    cap_commands_enabled: bool,
    cap_tags_enabled: bool,
    all_users: Roster,
    ban_mode_enabled: bool,
    my_nickname: String,
}

impl View for Chat {
    type V = ChatView;

    closed spec fn view(&self) -> ChatView {
        ChatView {
            channel: self.channel@,
            banned_phrases: self.checker@,
            cap_membership_enabled: self.cap_membership_enabled,
            cap_commands_enabled: self.cap_commands_enabled,
            cap_tags_enabled: self.cap_tags_enabled,
            roster: self.all_users@,
            ban_mode_enabled: self.ban_mode_enabled,
            my_nickname: self.my_nickname@,
        }
    }
}

/// The sender's roster entry once a message's tags have been applied: the
/// entry is created if missing, the display name is overwritten when the
/// tags carry one, and a subscriber or turbo tag raises `is_paying`, which
/// never goes back down.
pub open spec fn updated_sender(
    roster: Map<Seq<char>, ChatUserView>,
    nick: Seq<char>,
    tags: MessageTags,
) -> ChatUserView {
    let u0 = roster_ensure_spec(roster, nick)[nick];
    let u1 = match tags.display_name {
        Some(dn) => ChatUserView { display_name: dn@, ..u0 },
        None => u0,
    };
    if tags.is_turbo == Some(true) || tags.is_subscriber == Some(true) {
        ChatUserView { is_paying: true, ..u1 }
    } else {
        u1
    }
}

/// Whether the roster entry `u` is exempt from sanctioning: moderators,
/// paying users, and users already sanctioned once.
pub open spec fn is_protected(u: ChatUserView) -> bool {
    u.is_mod || u.is_paying || u.auto_ban_date is Some
}

/// What a chat message does to the engine: the new state and the lines sent
/// out. The bot's own messages are ignored; a control phrase from a
/// moderator toggles sanctioning; a banned phrase from an unprotected
/// sender, while sanctioning is on, draws exactly one sanction command and
/// stamps the sender.
pub open spec fn step_message(
    st: ChatView,
    nick: Seq<char>,
    msg: Seq<char>,
    tags: MessageTags,
    now: i64,
) -> (ChatView, Seq<Seq<char>>) {
    if nick == st.my_nickname {
        (st, Seq::empty())
    } else {
        let u = updated_sender(st.roster, nick, tags);
        let r1 = roster_ensure_spec(st.roster, nick).insert(nick, u);
        if msg == hammer_on_phrase() {
            if u.is_mod {
                (
                    ChatView { roster: r1, ban_mode_enabled: true, ..st },
                    seq![hammer_on_notice()],
                )
            } else {
                (ChatView { roster: r1, ..st }, Seq::empty())
            }
        } else if msg == hammer_off_phrase() {
            if u.is_mod {
                (
                    ChatView { roster: r1, ban_mode_enabled: false, ..st },
                    seq![hammer_off_notice()],
                )
            } else {
                (ChatView { roster: r1, ..st }, Seq::empty())
            }
        } else if st.ban_mode_enabled && !is_protected(u) && st.banned_phrases.contains(
            trim_spec(msg),
        ) {
            (
                ChatView {
                    roster: r1.insert(nick, ChatUserView { auto_ban_date: Some(now), ..u }),
                    ..st
                },
                seq![sanction_cmd(nick)],
            )
        } else {
            (ChatView { roster: r1, ..st }, Seq::empty())
        }
    }
}

/// What a capability acknowledgement does to the engine: each recognized
/// name raises its flag; the flags never go back down.
pub open spec fn step_capability(st: ChatView, names: Seq<Seq<char>>) -> ChatView {
    ChatView {
        cap_membership_enabled: st.cap_membership_enabled || names.contains(
            "twitch.tv/membership"@,
        ),
        cap_commands_enabled: st.cap_commands_enabled || names.contains("twitch.tv/commands"@),
        cap_tags_enabled: st.cap_tags_enabled || names.contains("twitch.tv/tags"@),
        ..st
    }
}

/// What an operator change does to the engine: the entry is created if
/// missing and its moderator flag set to the granted value.
pub open spec fn step_operator(st: ChatView, nick: Seq<char>, granted: bool) -> ChatView {
    let r0 = roster_ensure_spec(st.roster, nick);
    ChatView { roster: r0.insert(nick, ChatUserView { is_mod: granted, ..r0[nick] }), ..st }
}

proof fn lemma_subrange_extend_contains(names: Seq<Seq<char>>, i: int, x: Seq<char>)
    requires
        0 <= i < names.len(),
    ensures
        names.subrange(0, i + 1).contains(x) <==> (names.subrange(0, i).contains(x) || names[i]
            == x),
{
    let pre = names.subrange(0, i);
    let post = names.subrange(0, i + 1);
    if pre.contains(x) {
        let j = choose|j: int| 0 <= j < pre.len() && pre[j] == x;
        assert(post[j] == x);
    }
    if names[i] == x {
        assert(post[i] == x);
    }
    if post.contains(x) {
        let j = choose|j: int| 0 <= j < post.len() && post[j] == x;
        if j < i {
            assert(pre[j] == x);
        }
    }
}

/// What one typed chat event does to the engine, given the moment `now`:
/// the new state and the lines sent out. Every event not named here,
/// the authentication failure included, leaves the state unchanged and
/// sends nothing.
pub open spec fn step(st: ChatView, message: ChatEvent, now: i64) -> (ChatView, Seq<Seq<char>>) {
    match message {
        ChatEvent::Message(nick, msg, tags) => step_message(st, nick@, msg@, tags, now),
        ChatEvent::Capability(names) => (step_capability(st, names.deep_view()), Seq::empty()),
        ChatEvent::Operator(nick, granted) => (step_operator(st, nick@, granted), Seq::empty()),
        _ => (st, Seq::empty()),
    }
}

impl Chat {
    /// Builds the engine for the configured channel: the channel owner is
    /// seeded as a moderator, all flags start low, and the policy is the
    /// static banned-phrase list.
    pub fn new(conf: &HammerConfig) -> (r: Chat)
        requires
            conf.channel is Some,
            conf.username is Some,
        ensures
            r@.channel == seq!['#'] + lower_of(conf.channel.unwrap()@),
            r@.banned_phrases == seq!["ban me!"@, "hello"@],
            r@.cap_membership_enabled == false,
            r@.cap_commands_enabled == false,
            r@.cap_tags_enabled == false,
            r@.ban_mode_enabled == false,
            r@.my_nickname == conf.username.unwrap()@,
            r@.roster == Map::<Seq<char>, ChatUserView>::empty().insert(
                lower_of(conf.channel.unwrap()@),
                ChatUserView {
                    is_mod: true,
                    ..ChatUserView::new_user(lower_of(conf.channel.unwrap()@))
                },
            ),
    {
        let channel_name = conf.channel.as_ref().unwrap();
        let streamer_name = lowercase(channel_name.as_str());
        let mut channel = String::from_str("#");
        channel.append(streamer_name.as_str());
        proof {
            reveal_strlit("#");
            assert(channel@ =~= seq!['#'] + lower_of(channel_name@));
        }
        let mut all_users = Roster::new();
        all_users.ensure(streamer_name.as_str());
        all_users.set_mod(streamer_name.as_str(), true);
        proof {
            assert(all_users@ =~= Map::<Seq<char>, ChatUserView>::empty().insert(
                lower_of(channel_name@),
                ChatUserView {
                    is_mod: true,
                    ..ChatUserView::new_user(lower_of(channel_name@))
                },
            ));
        }
        Chat {
            channel,
            checker: Checker::new(),
            cap_membership_enabled: false,
            cap_commands_enabled: false,
            cap_tags_enabled: false,
            all_users,
            ban_mode_enabled: false,
            my_nickname: conf.username.as_ref().unwrap().clone(),
        }
    }

    /// Creates the roster entry for a nickname if there is none, leaving an
    /// existing entry untouched. Returns whether it already existed.
    pub fn user_ensure_exists(&mut self, nickname: &str) -> (existed: bool)
        ensures
            existed == old(self)@.roster.contains_key(nickname@),
            final(self)@ == (ChatView {
                roster: roster_ensure_spec(old(self)@.roster, nickname@),
                ..old(self)@
            }),
    {
        self.all_users.ensure(nickname)
    }

    /// Processes one typed chat event at the moment `now`, returning the
    /// lines to send out.
    pub fn process_message_at(&mut self, message: ChatEvent, now: i64) -> (out: Vec<String>)
        ensures
            final(self)@ == step(old(self)@, message, now).0,
            out.deep_view() == step(old(self)@, message, now).1,
    {
        let mut out: Vec<String> = Vec::new();
        proof {
            assert(out.deep_view() =~= Seq::<Seq<char>>::empty());
        }
        match message {
            ChatEvent::Message(nickname, msg, tags) => {
                if !str_eq(nickname.as_str(), self.my_nickname.as_str()) {
                    let ghost r0 = roster_ensure_spec(old(self)@.roster, nickname@);
                    let ghost u = updated_sender(old(self)@.roster, nickname@, tags);
                    self.all_users.ensure(nickname.as_str());
                    let user_is_mod = match self.all_users.get(nickname.as_str()) {
                        Some(user) => user.is_mod,
                        None => false,
                    };
                    if let Some(dn) = tags.display_name {
                        self.all_users.set_display_name(nickname.as_str(), dn);
                    }
                    if let Some(is_turbo) = tags.is_turbo {
                        if is_turbo {
                            self.all_users.mark_paying(nickname.as_str());
                        }
                    }
                    if let Some(is_sub) = tags.is_subscriber {
                        if is_sub {
                            self.all_users.mark_paying(nickname.as_str());
                        }
                    }
                    proof {
                        assert(self.all_users@ =~= r0.insert(nickname@, u));
                    }
                    let (user_is_paying, user_has_ban_date) = match self.all_users.get(
                        nickname.as_str(),
                    ) {
                        Some(user) => (user.is_paying, user.auto_ban_date.is_some()),
                        None => (false, false),
                    };
                    let user_is_protected = user_is_mod || user_is_paying || user_has_ban_date;
                    if str_eq(msg.as_str(), ":hammer on") {
                        if user_is_mod {
                            self.ban_mode_enabled = true;
                            out.push(
                                String::from_str(
                                    "⚠️ ATTENTION : Hammer mode has been enabled. Please refrain from sending messages that could look like what a bot would say!",
                                ),
                            );
                            proof {
                                assert(out.deep_view() =~= seq![hammer_on_notice()]);
                            }
                        }
                    } else if str_eq(msg.as_str(), ":hammer off") {
                        if user_is_mod {
                            self.ban_mode_enabled = false;
                            out.push(
                                String::from_str(
                                    "Hammer mode has been disabled. I'll stop banning now!",
                                ),
                            );
                            proof {
                                assert(out.deep_view() =~= seq![hammer_off_notice()]);
                            }
                        }
                    } else if self.ban_mode_enabled {
                        if !user_is_protected && self.checker.check(trim(msg.as_str())) {
                            let mut cmd = String::from_str("/ban ");
                            cmd.append(nickname.as_str());
                            out.push(cmd);
                            self.all_users.set_auto_ban_date(nickname.as_str(), now);
                            proof {
                                assert(out.deep_view() =~= seq![sanction_cmd(nickname@)]);
                                assert(self.all_users@ =~= r0.insert(nickname@, u).insert(
                                    nickname@,
                                    ChatUserView { auto_ban_date: Some(now), ..u },
                                ));
                            }
                        }
                    }
                }
            },
            ChatEvent::Capability(caps) => {
                let ghost names = caps.deep_view();
                let mut i: usize = 0;
                while i < caps.len()
                    invariant
                        i <= caps@.len(),
                        names == caps.deep_view(),
                        self@ == (ChatView {
                            cap_membership_enabled: old(self)@.cap_membership_enabled || names
                                .subrange(0, i as int).contains("twitch.tv/membership"@),
                            cap_commands_enabled: old(self)@.cap_commands_enabled || names.subrange(
                                0,
                                i as int,
                            ).contains("twitch.tv/commands"@),
                            cap_tags_enabled: old(self)@.cap_tags_enabled || names.subrange(
                                0,
                                i as int,
                            ).contains("twitch.tv/tags"@),
                            ..old(self)@
                        }),
                    decreases caps@.len() - i,
                {
                    proof {
                        reveal_strlit("twitch.tv/membership");
                        reveal_strlit("twitch.tv/commands");
                        reveal_strlit("twitch.tv/tags");
                        assert(names[i as int] == caps@[i as int]@);
                        lemma_subrange_extend_contains(names, i as int, "twitch.tv/membership"@);
                        lemma_subrange_extend_contains(names, i as int, "twitch.tv/commands"@);
                        lemma_subrange_extend_contains(names, i as int, "twitch.tv/tags"@);
                    }
                    let cap_name = &caps[i];
                    if str_eq(cap_name.as_str(), "twitch.tv/commands") {
                        self.cap_commands_enabled = true;
                    } else if str_eq(cap_name.as_str(), "twitch.tv/membership") {
                        self.cap_membership_enabled = true;
                    } else if str_eq(cap_name.as_str(), "twitch.tv/tags") {
                        self.cap_tags_enabled = true;
                    }
                    i += 1;
                }
                proof {
                    assert(names.subrange(0, caps@.len() as int) =~= names);
                }
            },
            ChatEvent::Operator(nickname, granted) => {
                self.all_users.ensure(nickname.as_str());
                self.all_users.set_mod(nickname.as_str(), granted);
            },
            _ => {},
        }
        out
    }

    /// Processes one typed chat event at the current moment, returning the
    /// lines to send out.
    pub fn process_message(&mut self, message: ChatEvent) -> (out: Vec<String>)
        ensures
            exists|t: i64|
                final(self)@ == step(old(self)@, message, t).0 && out.deep_view() == step(
                    old(self)@,
                    message,
                    t,
                ).1,
    {
        let now = now_seconds();
        self.process_message_at(message, now)
    }

    /// Whether the sanction policy is currently active.
    pub fn is_ban_mode_enabled(&self) -> (r: bool)
        ensures
            r == self@.ban_mode_enabled,
    {
        self.ban_mode_enabled
    }

    /// Whether the membership capability was acknowledged.
    pub fn is_cap_membership_enabled(&self) -> (r: bool)
        ensures
            r == self@.cap_membership_enabled,
    {
        self.cap_membership_enabled
    }

    /// Whether the commands capability was acknowledged.
    pub fn is_cap_commands_enabled(&self) -> (r: bool)
        ensures
            r == self@.cap_commands_enabled,
    {
        self.cap_commands_enabled
    }

    /// Whether the tags capability was acknowledged.
    pub fn is_cap_tags_enabled(&self) -> (r: bool)
        ensures
            r == self@.cap_tags_enabled,
    {
        self.cap_tags_enabled
    }

    /// The channel the bot moderates, with its `#` prefix.
    pub fn channel(&self) -> (r: &str)
        ensures
            r@ == self@.channel,
    {
        self.channel.as_str()
    }

    /// The bot's own nickname, excluded from moderation.
    pub fn my_nickname(&self) -> (r: &str)
        ensures
            r@ == self@.my_nickname,
    {
        self.my_nickname.as_str()
    }

    /// The tracked state of a nickname, if the roster has seen it.
    pub fn user(&self, nickname: &str) -> (r: Option<&ChatUser>)
        ensures
            (match r {
                Some(u) => self@.roster.contains_key(nickname@) && u.deep_view()
                    == self@.roster[nickname@],
                None => !self@.roster.contains_key(nickname@),
            }),
    {
        self.all_users.get(nickname)
    }
}

/// Once a user is marked paying, no event ever takes the mark away: their
/// entry survives every step and stays paying.
pub proof fn lemma_paying_monotonic(st: ChatView, message: ChatEvent, now: i64, nick: Seq<char>)
    requires
        st.roster.contains_key(nick),
        st.roster[nick].is_paying,
    ensures
        step(st, message, now).0.roster.contains_key(nick),
        step(st, message, now).0.roster[nick].is_paying,
{
}

/// A message whose tags carry a subscriber or turbo mark leaves its sender
/// marked paying, whatever else the engine decides about the message.
pub proof fn lemma_subscriber_marks_paying(
    st: ChatView,
    nick: String,
    msg: String,
    tags: MessageTags,
    now: i64,
)
    requires
        nick@ != st.my_nickname,
        tags.is_subscriber == Some(true) || tags.is_turbo == Some(true),
    ensures
        step(st, ChatEvent::Message(nick, msg, tags), now).0.roster.contains_key(nick@),
        step(st, ChatEvent::Message(nick, msg, tags), now).0.roster[nick@].is_paying,
{
}

/// A protected sender is never sanctioned: a moderator, a paying user - a
/// subscriber or turbo mark in this message's tags included - or a user
/// already sanctioned once draws no sanction command, and their sanction
/// date is left exactly as it was.
pub proof fn lemma_protected_never_sanctioned(
    st: ChatView,
    nick: String,
    msg: String,
    tags: MessageTags,
    now: i64,
)
    requires
        nick@ != st.my_nickname,
        (st.roster.contains_key(nick@) && (st.roster[nick@].is_mod || st.roster[nick@].is_paying
            || st.roster[nick@].auto_ban_date is Some)) || tags.is_subscriber == Some(true)
            || tags.is_turbo == Some(true),
    ensures
        !step(st, ChatEvent::Message(nick, msg, tags), now).1.contains(sanction_cmd(nick@)),
        step(st, ChatEvent::Message(nick, msg, tags), now).0.roster[nick@].auto_ban_date
            == updated_sender(st.roster, nick@, tags).auto_ban_date,
{
    let u = updated_sender(st.roster, nick@, tags);
    assert(is_protected(u));
    let r = step(st, ChatEvent::Message(nick, msg, tags), now);
    reveal_strlit("/ban ");
    reveal_strlit("⚠️ ATTENTION : Hammer mode has been enabled. Please refrain from sending messages that could look like what a bot would say!");
    reveal_strlit("Hammer mode has been disabled. I'll stop banning now!");
    assert(sanction_cmd(nick@)[0] == '/');
    if msg@ == hammer_on_phrase() && u.is_mod {
        assert(hammer_on_notice()[0] != '/');
        if r.1.contains(sanction_cmd(nick@)) {
            assert(r.1[0] == sanction_cmd(nick@));
        }
    } else if msg@ == hammer_off_phrase() && u.is_mod {
        assert(hammer_off_notice()[0] != '/');
        if r.1.contains(sanction_cmd(nick@)) {
            assert(r.1[0] == sanction_cmd(nick@));
        }
    } else {
        assert(r.1 =~= Seq::<Seq<char>>::empty());
    }
}

/// Control-phrase gating: the "on" phrase from a sender who is not a
/// moderator changes nothing and sends nothing; from a moderator it enables
/// sanctioning and sends exactly the announcement.
pub proof fn lemma_control_phrase_gating(
    st: ChatView,
    nick: String,
    msg: String,
    tags: MessageTags,
    now: i64,
)
    requires
        nick@ != st.my_nickname,
        msg@ == hammer_on_phrase(),
    ensures
        (!updated_sender(st.roster, nick@, tags).is_mod ==> step(
            st,
            ChatEvent::Message(nick, msg, tags),
            now,
        ).0.ban_mode_enabled == st.ban_mode_enabled && step(
            st,
            ChatEvent::Message(nick, msg, tags),
            now,
        ).1 == Seq::<Seq<char>>::empty()),
        (updated_sender(st.roster, nick@, tags).is_mod ==> step(
            st,
            ChatEvent::Message(nick, msg, tags),
            now,
        ).0.ban_mode_enabled && step(st, ChatEvent::Message(nick, msg, tags), now).1 == seq![
            hammer_on_notice(),
        ]),
{
}

} // verus!
