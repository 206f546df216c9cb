use crate::text::str_eq;
use vstd::prelude::*;
use vstd::string::*;

verus! {

/// The friendship status with a neos user
#[derive(Debug, Clone, PartialEq, Eq, Structural)]
pub enum FriendStatus {
    /// Not friends; the API writes this as `None`
    NotFriends,
    /// Apparently possible value too..?
    SearchResult,
    /// The user has requested friendship
    Requested,
    /// Ignored the friendship request
    Ignored,
    /// User has been blocked
    Blocked,
    /// Accepted the user as a friend
    Accepted,
}

impl FriendStatus {
    /// The name of the variant, as the API writes it.
    pub open spec fn name(self) -> Seq<char> {
        match self {
            FriendStatus::NotFriends => "None"@,
            FriendStatus::SearchResult => "SearchResult"@,
            FriendStatus::Requested => "Requested"@,
            FriendStatus::Ignored => "Ignored"@,
            FriendStatus::Blocked => "Blocked"@,
            FriendStatus::Accepted => "Accepted"@,
        }
    }

    /// The name of the variant, as the API writes it.
    #[must_use]
    pub fn as_str(&self) -> (r: &'static str)
        ensures
            r@ == self.name(),
    {
        match self {
            FriendStatus::NotFriends => "None",
            FriendStatus::SearchResult => "SearchResult",
            FriendStatus::Requested => "Requested",
            FriendStatus::Ignored => "Ignored",
            FriendStatus::Blocked => "Blocked",
            FriendStatus::Accepted => "Accepted",
        }
    }

    /// The name of the variant, as a string of its own.
    #[must_use]
    pub fn to_string(&self) -> (r: String)
        ensures
            r@ == self.name(),
    {
        String::from_str(self.as_str())
    }

    /// The variant that a name stands for. The name has to match to the
    /// letter.
    #[must_use]
    pub fn from_name(name: &str) -> (r: Option<Self>)
        ensures
            match r {
                Some(variant) => variant.name() == name@,
                None => forall|variant: Self| variant.name() != name@,
            },
    {
        if str_eq(name, "None") {
            Some(FriendStatus::NotFriends)
        } else if str_eq(name, "SearchResult") {
            Some(FriendStatus::SearchResult)
        } else if str_eq(name, "Requested") {
            Some(FriendStatus::Requested)
        } else if str_eq(name, "Ignored") {
            Some(FriendStatus::Ignored)
        } else if str_eq(name, "Blocked") {
            Some(FriendStatus::Blocked)
        } else if str_eq(name, "Accepted") {
            Some(FriendStatus::Accepted)
        } else {
            None
        }
    }

    /// No two variants share a name.
    pub proof fn lemma_names_differ(a: Self, b: Self)
        requires
            a.name() == b.name(),
        ensures
            a == b,
    {
        reveal_strlit("None");
        reveal_strlit("SearchResult");
        reveal_strlit("Requested");
        reveal_strlit("Ignored");
        reveal_strlit("Blocked");
        reveal_strlit("Accepted");
        assert("None"@.len() == 4);
        assert("SearchResult"@.len() == 12);
        assert("Requested"@.len() == 9);
        assert("Ignored"@.len() == 7);
        assert("Blocked"@.len() == 7);
        assert("Accepted"@.len() == 8);
        assert("Ignored"@[0] != "Blocked"@[0]);
    }
}

} // verus!
