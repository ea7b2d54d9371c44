//! The roster: per-user trust state, keyed by nickname.

use vstd::prelude::*;

use crate::strutil::str_eq;

verus! {

/// The locally tracked state of one channel participant.
pub struct ChatUser {
    pub nickname: String,
    pub display_name: String,
    pub is_mod: bool,
    pub is_paying: bool,
    pub auto_ban_date: Option<i64>,
}

/// Spec-level image of [`ChatUser`].
pub struct ChatUserView {
    pub nickname: Seq<char>,
    pub display_name: Seq<char>,
    pub is_mod: bool,
    pub is_paying: bool,
    pub auto_ban_date: Option<i64>,
}

impl DeepView for ChatUser {
    type V = ChatUserView;

    open spec fn deep_view(&self) -> ChatUserView {
        ChatUserView {
            nickname: self.nickname@,
            display_name: self.display_name@,
            is_mod: self.is_mod,
            is_paying: self.is_paying,
            auto_ban_date: self.auto_ban_date,
        }
    }
}

impl ChatUserView {
    /// A freshly created user: the display name defaults to the nickname,
    /// no trust flags, never sanctioned.
    pub open spec fn new_user(nickname: Seq<char>) -> ChatUserView {
        ChatUserView {
            nickname: nickname,
            display_name: nickname,
            is_mod: false,
            is_paying: false,
            auto_ban_date: None,
        }
    }
}

impl ChatUser {
    /// Creates a user with default flags.
    pub fn new(nickname: String) -> (r: ChatUser)
        ensures
            r.deep_view() == ChatUserView::new_user(nickname@),
    {
        ChatUser {
            nickname: nickname.clone(),
            display_name: nickname,
            is_mod: false,
            is_paying: false,
            auto_ban_date: None,
        }
    }
}

/// The map a user list stands for, later entries overriding earlier ones
/// (the roster keeps nicknames unique, so no overriding happens).
pub open spec fn roster_map(s: Seq<ChatUser>) -> Map<Seq<char>, ChatUserView>
    decreases s.len(),
{
    if s.len() == 0 {
        Map::empty()
    } else {
        roster_map(s.drop_last()).insert(s.last().nickname@, s.last().deep_view())
    }
}

/// Lazily created upsert: an existing entry is left untouched, a missing one
/// is created with default flags.
pub open spec fn roster_ensure_spec(
    m: Map<Seq<char>, ChatUserView>,
    nickname: Seq<char>,
) -> Map<Seq<char>, ChatUserView> {
    if m.contains_key(nickname) {
        m
    } else {
        m.insert(nickname, ChatUserView::new_user(nickname))
    }
}

/// Ensuring a nickname twice is the same as ensuring it once: existing
/// entries, their flags included, are never reset.
pub proof fn lemma_roster_ensure_idempotent(m: Map<Seq<char>, ChatUserView>, nickname: Seq<char>)
    ensures
        roster_ensure_spec(roster_ensure_spec(m, nickname), nickname) == roster_ensure_spec(
            m,
            nickname,
        ),
{
    broadcast use vstd::map::group_map_axioms;

}

proof fn lemma_roster_map_contains(s: Seq<ChatUser>, k: Seq<char>)
    ensures
        roster_map(s).contains_key(k) <==> exists|i: int| 0 <= i < s.len() && s[i].nickname@ == k,
    decreases s.len(),
{
    if s.len() > 0 {
        lemma_roster_map_contains(s.drop_last(), k);
        if s.last().nickname@ == k {
        } else if roster_map(s).contains_key(k) {
            let i = choose|i: int| 0 <= i < s.len() - 1 && s.drop_last()[i].nickname@ == k;
            assert(s[i].nickname@ == k);
        } else {
            assert forall|i: int| 0 <= i < s.len() implies s[i].nickname@ != k by {
                if i < s.len() - 1 {
                    assert(s.drop_last()[i].nickname@ == s[i].nickname@);
                }
            }
        }
    }
}

proof fn lemma_roster_map_index(s: Seq<ChatUser>, i: int)
    requires
        0 <= i < s.len(),
        forall|j: int, l: int|
            0 <= j < s.len() && 0 <= l < s.len() && j != l ==> s[j].nickname@ != s[l].nickname@,
    ensures
        roster_map(s).contains_key(s[i].nickname@),
        roster_map(s)[s[i].nickname@] == s[i].deep_view(),
    decreases s.len(),
{
    if i == s.len() - 1 {
    } else {
        assert(s.drop_last()[i] == s[i]);
        lemma_roster_map_index(s.drop_last(), i);
        assert(s.last().nickname@ != s[i].nickname@);
    }
}

proof fn lemma_roster_map_update(s: Seq<ChatUser>, i: int, u: ChatUser)
    requires
        0 <= i < s.len(),
        forall|j: int, l: int|
            0 <= j < s.len() && 0 <= l < s.len() && j != l ==> s[j].nickname@ != s[l].nickname@,
        u.nickname@ == s[i].nickname@,
    ensures
        roster_map(s.update(i, u)) =~= roster_map(s).insert(u.nickname@, u.deep_view()),
    decreases s.len(),
{
    let t = s.update(i, u);
    if i == s.len() - 1 {
        assert(t.drop_last() =~= s.drop_last());
    } else {
        assert(t.drop_last() =~= s.drop_last().update(i, u));
        assert(s.drop_last()[i] == s[i]);
        lemma_roster_map_update(s.drop_last(), i, u);
        assert(t.last() == s.last());
        assert(s.last().nickname@ != u.nickname@);
    }
}

/// The mapping from nickname to tracked user state. Nicknames are unique;
/// users are never removed.
pub struct Roster {
    users: Vec<ChatUser>,
}

impl View for Roster {
    type V = Map<Seq<char>, ChatUserView>;

    closed spec fn view(&self) -> Map<Seq<char>, ChatUserView> {
        roster_map(self.users@)
    }
}

impl Roster {
    #[verifier::type_invariant]
    spec fn nicknames_unique(self) -> bool {
        forall|j: int, l: int|
            0 <= j < self.users@.len() && 0 <= l < self.users@.len() && j != l
                ==> self.users@[j].nickname@ != self.users@[l].nickname@
    }

    /// An empty roster.
    pub fn new() -> (r: Roster)
        ensures
            r@ == Map::<Seq<char>, ChatUserView>::empty(),
    {
        Roster { users: Vec::new() }
    }

    /// The position of a nickname's entry in the backing list.
    fn index_of(&self, nickname: &str) -> (r: Option<usize>)
        ensures
            match r {
                Some(i) => i < self.users@.len() && self.users@[i as int].nickname@ == nickname@,
                None => !self@.contains_key(nickname@),
            },
    {
        let mut i: usize = 0;
        while i < self.users.len()
            invariant
                i <= self.users@.len(),
                forall|j: int| 0 <= j < i ==> self.users@[j].nickname@ != nickname@,
            decreases self.users@.len() - i,
        {
            if str_eq(self.users[i].nickname.as_str(), nickname) {
                return Some(i);
            }
            i += 1;
        }
        proof {
            lemma_roster_map_contains(self.users@, nickname@);
        }
        None
    }

    /// Whether the roster has an entry for this nickname.
    pub fn contains(&self, nickname: &str) -> (r: bool)
        ensures
            r == self@.contains_key(nickname@),
    {
        proof {
            lemma_roster_map_contains(self.users@, nickname@);
        }
        self.index_of(nickname).is_some()
    }

    /// Looks a user up by nickname.
    pub fn get(&self, nickname: &str) -> (r: Option<&ChatUser>)
        ensures
            match r {
                Some(u) => self@.contains_key(nickname@) && u.deep_view() == self@[nickname@],
                None => !self@.contains_key(nickname@),
            },
    {
        proof {
            use_type_invariant(&*self);
        }
        match self.index_of(nickname) {
            Some(i) => {
                proof {
                    lemma_roster_map_index(self.users@, i as int);
                }
                Some(&self.users[i])
            },
            None => None,
        }
    }

    /// Creates the entry for a nickname if there is none, with default
    /// flags; an existing entry is left exactly as it was. Returns whether
    /// the entry already existed.
    pub fn ensure(&mut self, nickname: &str) -> (existed: bool)
        ensures
            existed == old(self)@.contains_key(nickname@),
            final(self)@ == roster_ensure_spec(old(self)@, nickname@),
    {
        proof {
            use_type_invariant(&*self);
            lemma_roster_map_contains(self.users@, nickname@);
        }
        match self.index_of(nickname) {
            Some(_) => true,
            None => {
                let ghost olds = self.users@;
                let mut users: Vec<ChatUser> = Vec::new();
                core::mem::swap(&mut self.users, &mut users);
                users.push(ChatUser::new(nickname.to_owned()));
                self.users = users;
                proof {
                    assert(self.users@.drop_last() =~= olds);
                    assert forall|j: int, l: int|
                        0 <= j < self.users@.len() && 0 <= l < self.users@.len() && j != l implies self.users@[j].nickname@
                        != self.users@[l].nickname@ by {
                        lemma_roster_map_contains(olds, nickname@);
                    }
                }
                false
            },
        }
    }

    /// Overwrites a user's display name.
    pub fn set_display_name(&mut self, nickname: &str, display_name: String)
        requires
            old(self)@.contains_key(nickname@),
        ensures
            final(self)@ == old(self)@.insert(
                nickname@,
                ChatUserView { display_name: display_name@, ..old(self)@[nickname@] },
            ),
    {
        proof {
            use_type_invariant(&*self);
            lemma_roster_map_contains(self.users@, nickname@);
        }
        let ghost olds = self.users@;
        match self.index_of(nickname) {
            Some(i) => {
                proof {
                    lemma_roster_map_index(self.users@, i as int);
                }
                let mut users: Vec<ChatUser> = Vec::new();
                core::mem::swap(&mut self.users, &mut users);
                users[i].display_name = display_name;
                proof {
                    assert(forall|j: int| 0 <= j < users@.len() && j != i ==> users@[j] == olds[j]);
                    assert(users@[i as int].nickname@ == olds[i as int].nickname@);
                    lemma_roster_map_update(olds, i as int, users@[i as int]);
                }
                self.users = users;
            },
            None => {
                proof {
                    assert(false);
                }
            },
        }
    }

    /// Marks a user as paying. The flag only ever goes up.
    pub fn mark_paying(&mut self, nickname: &str)
        requires
            old(self)@.contains_key(nickname@),
        ensures
            final(self)@ == old(self)@.insert(
                nickname@,
                ChatUserView { is_paying: true, ..old(self)@[nickname@] },
            ),
    {
        proof {
            use_type_invariant(&*self);
            lemma_roster_map_contains(self.users@, nickname@);
        }
        let ghost olds = self.users@;
        match self.index_of(nickname) {
            Some(i) => {
                proof {
                    lemma_roster_map_index(self.users@, i as int);
                }
                let mut users: Vec<ChatUser> = Vec::new();
                core::mem::swap(&mut self.users, &mut users);
                users[i].is_paying = true;
                proof {
                    assert(forall|j: int| 0 <= j < users@.len() && j != i ==> users@[j] == olds[j]);
                    assert(users@[i as int].nickname@ == olds[i as int].nickname@);
                    lemma_roster_map_update(olds, i as int, users@[i as int]);
                }
                self.users = users;
            },
            None => {
                proof {
                    assert(false);
                }
            },
        }
    }

    /// Sets or clears a user's moderator flag.
    pub fn set_mod(&mut self, nickname: &str, is_mod: bool)
        requires
            old(self)@.contains_key(nickname@),
        ensures
            final(self)@ == old(self)@.insert(
                nickname@,
                ChatUserView { is_mod: is_mod, ..old(self)@[nickname@] },
            ),
    {
        proof {
            use_type_invariant(&*self);
            lemma_roster_map_contains(self.users@, nickname@);
        }
        let ghost olds = self.users@;
        match self.index_of(nickname) {
            Some(i) => {
                proof {
                    lemma_roster_map_index(self.users@, i as int);
                }
                let mut users: Vec<ChatUser> = Vec::new();
                core::mem::swap(&mut self.users, &mut users);
                users[i].is_mod = is_mod;
                proof {
                    assert(forall|j: int| 0 <= j < users@.len() && j != i ==> users@[j] == olds[j]);
                    assert(users@[i as int].nickname@ == olds[i as int].nickname@);
                    lemma_roster_map_update(olds, i as int, users@[i as int]);
                }
                self.users = users;
            },
            None => {
                proof {
                    assert(false);
                }
            },
        }
    }

    /// Records the moment this user was sanctioned.
    pub fn set_auto_ban_date(&mut self, nickname: &str, date: i64)
        requires
            old(self)@.contains_key(nickname@),
        ensures
            final(self)@ == old(self)@.insert(
                nickname@,
                ChatUserView { auto_ban_date: Some(date), ..old(self)@[nickname@] },
            ),
    {
        proof {
            use_type_invariant(&*self);
            lemma_roster_map_contains(self.users@, nickname@);
        }
        let ghost olds = self.users@;
        match self.index_of(nickname) {
            Some(i) => {
                proof {
                    lemma_roster_map_index(self.users@, i as int);
                }
                let mut users: Vec<ChatUser> = Vec::new();
                core::mem::swap(&mut self.users, &mut users);
                users[i].auto_ban_date = Some(date);
                proof {
                    assert(forall|j: int| 0 <= j < users@.len() && j != i ==> users@[j] == olds[j]);
                    assert(users@[i as int].nickname@ == olds[i as int].nickname@);
                    lemma_roster_map_update(olds, i as int, users@[i as int]);
                }
                self.users = users;
            },
            None => {
                proof {
                    assert(false);
                }
            },
        }
    }
}

} // verus!
