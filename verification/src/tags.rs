//! Decoding of per-message metadata tags into typed fields.

use vstd::prelude::*;

use crate::events::{
    MessageTags, MessageTagsView, RoomStateTags, RoomStateTagsView, Tag, TagParseError,
    TagParseErrorView, TwitchUserType, TwitchUserTypeView,
};
use crate::strutil::{all_digits, digits_val, parse_u32, str_eq};

verus! {

/// A string of decimal digits whose value fits in 32 unsigned bits.
pub open spec fn valid_u32(s: Seq<char>) -> bool {
    s.len() > 0 && all_digits(s) && digits_val(s) <= u32::MAX
}

/// The user-type a tag value names.
pub open spec fn user_type_of(s: Seq<char>) -> TwitchUserTypeView {
    if s.len() == 0 {
        TwitchUserTypeView::Regular
    } else if s == "mod"@ {
        TwitchUserTypeView::Mod
    } else if s == "global_mod"@ {
        TwitchUserTypeView::GlobalMod
    } else if s == "admin"@ {
        TwitchUserTypeView::Admin
    } else if s == "staff"@ {
        TwitchUserTypeView::Staff
    } else {
        TwitchUserTypeView::Other(s)
    }
}

impl Default for TwitchUserType {
    /// The user-type an absent tag stands for.
    fn default() -> (r: TwitchUserType)
        ensures
            r.deep_view() == TwitchUserTypeView::Regular,
    {
        TwitchUserType::Regular
    }
}

impl vstd::std_specs::convert::FromSpecImpl<String> for TwitchUserType {
    open spec fn obeys_from_spec() -> bool {
        true
    }

    open spec fn from_spec(input: String) -> TwitchUserType {
        if input@.len() == 0 {
            TwitchUserType::Regular
        } else if input@ == "mod"@ {
            TwitchUserType::Mod
        } else if input@ == "global_mod"@ {
            TwitchUserType::GlobalMod
        } else if input@ == "admin"@ {
            TwitchUserType::Admin
        } else if input@ == "staff"@ {
            TwitchUserType::Staff
        } else {
            TwitchUserType::Other(input)
        }
    }
}

impl From<String> for TwitchUserType {
    fn from(input: String) -> (r: TwitchUserType) {
        if input.as_str().is_empty() {
            TwitchUserType::Regular
        } else if str_eq(input.as_str(), "mod") {
            TwitchUserType::Mod
        } else if str_eq(input.as_str(), "global_mod") {
            TwitchUserType::GlobalMod
        } else if str_eq(input.as_str(), "admin") {
            TwitchUserType::Admin
        } else if str_eq(input.as_str(), "staff") {
            TwitchUserType::Staff
        } else {
            TwitchUserType::Other(input)
        }
    }
}

/// What decoding the tags `tags[i..]` makes of them, the fields decoded so
/// far being `cur`. Tags without a value and unrecognized keys are skipped;
/// a numeric key whose value does not parse rejects the whole set.
pub open spec fn from_tags_rec(
    tags: Seq<Tag>,
    i: int,
    cur: MessageTagsView,
) -> Result<MessageTagsView, TagParseErrorView>
    decreases tags.len() - i,
{
    if i < 0 || i >= tags.len() {
        Ok(cur)
    } else {
        let t = tags[i];
        match t.value {
            None => from_tags_rec(tags, i + 1, cur),
            Some(val) => {
                let key = t.key@;
                let v = val@;
                if key == "color"@ {
                    from_tags_rec(tags, i + 1, MessageTagsView { color: Some(v), ..cur })
                } else if key == "display-name"@ {
                    from_tags_rec(tags, i + 1, MessageTagsView { display_name: Some(v), ..cur })
                } else if key == "id"@ {
                    from_tags_rec(tags, i + 1, MessageTagsView { id: Some(v), ..cur })
                } else if key == "mod"@ {
                    from_tags_rec(tags, i + 1, MessageTagsView { is_mod: Some(v == "1"@), ..cur })
                } else if key == "subscriber"@ {
                    from_tags_rec(
                        tags,
                        i + 1,
                        MessageTagsView { is_subscriber: Some(v == "1"@), ..cur },
                    )
                } else if key == "turbo"@ {
                    from_tags_rec(tags, i + 1, MessageTagsView { is_turbo: Some(v == "1"@), ..cur })
                } else if key == "room-id"@ {
                    if valid_u32(v) {
                        from_tags_rec(
                            tags,
                            i + 1,
                            MessageTagsView { room_id: Some(digits_val(v) as u32), ..cur },
                        )
                    } else {
                        Err(TagParseErrorView::BadRoomId(v))
                    }
                } else if key == "user-id"@ {
                    if valid_u32(v) {
                        from_tags_rec(
                            tags,
                            i + 1,
                            MessageTagsView { user_id: Some(digits_val(v) as u32), ..cur },
                        )
                    } else {
                        Err(TagParseErrorView::BadUserId(v))
                    }
                } else if key == "user-type"@ {
                    from_tags_rec(
                        tags,
                        i + 1,
                        MessageTagsView { user_type: Some(user_type_of(v)), ..cur },
                    )
                } else {
                    from_tags_rec(tags, i + 1, cur)
                }
            },
        }
    }
}

/// What decoding a whole tag list makes of it.
pub open spec fn from_tags_spec(tags: Seq<Tag>) -> Result<MessageTagsView, TagParseErrorView> {
    from_tags_rec(tags, 0, MessageTagsView::empty())
}

impl MessageTags {
    /// Decodes a tag list into typed message-tag fields, later occurrences of
    /// a key overwriting earlier ones. The `display-name` tag goes into the
    /// display-name field, the `color` tag into the color field.
    pub fn from_tags(tags: &Vec<Tag>) -> (r: Result<MessageTags, TagParseError>)
        ensures
            r matches Ok(mt) ==> from_tags_spec(tags@) == Ok::<MessageTagsView, TagParseErrorView>(
                mt.deep_view(),
            ),
            r matches Err(e) ==> from_tags_spec(tags@) == Err::<
                MessageTagsView,
                TagParseErrorView,
            >(e.deep_view()),
    {
        let mut cur = MessageTags::empty();
        let mut i: usize = 0;
        while i < tags.len()
            invariant
                i <= tags.len(),
                from_tags_rec(tags@, i as int, cur.deep_view()) == from_tags_spec(tags@),
            decreases tags.len() - i,
        {
            let t = &tags[i];
            match &t.value {
                None => {},
                Some(val) => {
                    let key = t.key.as_str();
                    if str_eq(key, "color") {
                        cur.color = Some(val.clone());
                    } else if str_eq(key, "display-name") {
                        cur.display_name = Some(val.clone());
                    } else if str_eq(key, "id") {
                        cur.id = Some(val.clone());
                    } else if str_eq(key, "mod") {
                        cur.is_mod = Some(str_eq(val.as_str(), "1"));
                    } else if str_eq(key, "subscriber") {
                        cur.is_subscriber = Some(str_eq(val.as_str(), "1"));
                    } else if str_eq(key, "turbo") {
                        cur.is_turbo = Some(str_eq(val.as_str(), "1"));
                    } else if str_eq(key, "room-id") {
                        match parse_u32(val.as_str()) {
                            Some(n) => {
                                cur.room_id = Some(n);
                            },
                            None => {
                                return Err(TagParseError::BadRoomId(val.clone()));
                            },
                        }
                    } else if str_eq(key, "user-id") {
                        match parse_u32(val.as_str()) {
                            Some(n) => {
                                cur.user_id = Some(n);
                            },
                            None => {
                                return Err(TagParseError::BadUserId(val.clone()));
                            },
                        }
                    } else if str_eq(key, "user-type") {
                        cur.user_type = Some(TwitchUserType::from(val.clone()));
                    }
                },
            }
            i += 1;
        }
        Ok(cur)
    }
}

/// What decoding the tags `tags[i..]` of a room-state event makes of them.
pub open spec fn roomstate_rec(tags: Seq<Tag>, i: int, cur: RoomStateTagsView) -> RoomStateTagsView
    decreases tags.len() - i,
{
    if i < 0 || i >= tags.len() {
        cur
    } else {
        let t = tags[i];
        match t.value {
            None => roomstate_rec(tags, i + 1, cur),
            Some(val) => {
                let key = t.key@;
                let v = val@;
                if key == "language"@ {
                    roomstate_rec(tags, i + 1, RoomStateTagsView { language: Some(v), ..cur })
                } else if key == "r9k"@ {
                    roomstate_rec(tags, i + 1, RoomStateTagsView { r9k: Some(v == "1"@), ..cur })
                } else if key == "subs-only"@ {
                    roomstate_rec(
                        tags,
                        i + 1,
                        RoomStateTagsView { subs_only: Some(v == "1"@), ..cur },
                    )
                } else if key == "slow"@ {
                    roomstate_rec(tags, i + 1, RoomStateTagsView { slow: Some(v == "1"@), ..cur })
                } else {
                    roomstate_rec(tags, i + 1, cur)
                }
            },
        }
    }
}

/// What decoding a whole room-state tag list makes of it.
pub open spec fn roomstate_spec(tags: Seq<Tag>) -> RoomStateTagsView {
    roomstate_rec(tags, 0, RoomStateTagsView::empty())
}

impl RoomStateTags {
    /// Decodes a room-state tag list into the room-mode fields.
    pub fn from_tags_list(tags: &Vec<Tag>) -> (r: RoomStateTags)
        ensures
            r.deep_view() == roomstate_spec(tags@),
    {
        let mut cur = RoomStateTags::empty();
        let mut i: usize = 0;
        while i < tags.len()
            invariant
                i <= tags.len(),
                roomstate_rec(tags@, i as int, cur.deep_view()) == roomstate_spec(tags@),
            decreases tags.len() - i,
        {
            let t = &tags[i];
            match &t.value {
                None => {},
                Some(val) => {
                    let key = t.key.as_str();
                    if str_eq(key, "language") {
                        cur.language = Some(val.clone());
                    } else if str_eq(key, "r9k") {
                        cur.r9k = Some(str_eq(val.as_str(), "1"));
                    } else if str_eq(key, "subs-only") {
                        cur.subs_only = Some(str_eq(val.as_str(), "1"));
                    } else if str_eq(key, "slow") {
                        cur.slow = Some(str_eq(val.as_str(), "1"));
                    }
                },
            }
            i += 1;
        }
        cur
    }
}

} // verus!
