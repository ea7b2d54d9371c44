//! The banned-phrase policy: a literal-equality filter over a finite set of
//! phrases.

use vstd::prelude::*;

use crate::strutil::str_eq;

verus! {

/// Decides whether a message text matches the banned-phrase policy.
pub struct Checker {
    ban_list: Vec<String>,
}

impl View for Checker {
    type V = Seq<Seq<char>>;

    closed spec fn view(&self) -> Seq<Seq<char>> {
        self.ban_list.deep_view()
    }
}

impl Checker {
    /// The static banned-phrase list.
    pub fn new() -> (r: Checker)
        ensures
            r@ == seq!["ban me!"@, "hello"@],
    {
        let mut ban_list: Vec<String> = Vec::new();
        ban_list.push("ban me!".to_owned());
        ban_list.push("hello".to_owned());
        let r = Checker { ban_list };
        proof {
            assert(r@ =~= seq!["ban me!"@, "hello"@]);
        }
        r
    }

    /// Whether `input` is exactly one of the banned phrases.
    pub fn check(&self, input: &str) -> (r: bool)
        ensures
            r == self@.contains(input@),
    {
        let mut i: usize = 0;
        while i < self.ban_list.len()
            invariant
                i <= self.ban_list@.len(),
                self@.len() == self.ban_list@.len(),
                forall|j: int| 0 <= j < i ==> self@[j] != input@,
                forall|j: int| 0 <= j < self.ban_list@.len() ==> self@[j] == self.ban_list@[j]@,
            decreases self.ban_list@.len() - i,
        {
            if str_eq(self.ban_list[i].as_str(), input) {
                assert(self@[i as int] == input@);
                return true;
            }
            i += 1;
        }
        assert(!self@.contains(input@));
        false
    }
}

} // verus!
