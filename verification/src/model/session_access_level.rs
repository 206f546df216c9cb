use crate::text::str_eq;
use vstd::prelude::*;
use vstd::string::*;

verus! {

/// A Neos session's access level.
///
/// The API is inconsistent, sometimes representing this as a string and
/// sometimes as a number.
#[derive(Debug, Clone, PartialEq, Eq, PartialOrd, Ord, Hash, Structural)]
pub enum SessionAccessLevel {
    /// The session is private
    Private,
    /// The session is accessible trough LAN
    Lan,
    /// The session is accessible to the friends of the host
    Friends,
    /// The session is accessible to anyone with friends in the session
    FriendsOfFriends,
    /// The session is accessible to anyone who has registered an user account
    RegisteredUsers,
    /// The session is accessible to anyone
    Anyone,
}

impl SessionAccessLevel {
    /// The name of the variant, as the API writes it.
    pub open spec fn name(self) -> Seq<char> {
        match self {
            SessionAccessLevel::Private => "Private"@,
            SessionAccessLevel::Lan => "Lan"@,
            SessionAccessLevel::Friends => "Friends"@,
            SessionAccessLevel::FriendsOfFriends => "FriendsOfFriends"@,
            SessionAccessLevel::RegisteredUsers => "RegisteredUsers"@,
            SessionAccessLevel::Anyone => "Anyone"@,
        }
    }

    /// The name of the variant, as the API writes it.
    #[must_use]
    pub fn as_str(&self) -> (r: &'static str)
        ensures
            r@ == self.name(),
    {
        match self {
            SessionAccessLevel::Private => "Private",
            SessionAccessLevel::Lan => "Lan",
            SessionAccessLevel::Friends => "Friends",
            SessionAccessLevel::FriendsOfFriends => "FriendsOfFriends",
            SessionAccessLevel::RegisteredUsers => "RegisteredUsers",
            SessionAccessLevel::Anyone => "Anyone",
        }
    }

    /// The name of the variant, as a string of its own.
    #[must_use]
    pub fn to_string(&self) -> (r: String)
        ensures
            r@ == self.name(),
    {
        String::from_str(self.as_str())
    }

    /// The variant that a name stands for. The name has to match to the
    /// letter.
    #[must_use]
    pub fn from_name(name: &str) -> (r: Option<Self>)
        ensures
            match r {
                Some(variant) => variant.name() == name@,
                None => forall|variant: Self| variant.name() != name@,
            },
    {
        if str_eq(name, "Private") {
            Some(SessionAccessLevel::Private)
        } else if str_eq(name, "Lan") {
            Some(SessionAccessLevel::Lan)
        } else if str_eq(name, "Friends") {
            Some(SessionAccessLevel::Friends)
        } else if str_eq(name, "FriendsOfFriends") {
            Some(SessionAccessLevel::FriendsOfFriends)
        } else if str_eq(name, "RegisteredUsers") {
            Some(SessionAccessLevel::RegisteredUsers)
        } else if str_eq(name, "Anyone") {
            Some(SessionAccessLevel::Anyone)
        } else {
            None
        }
    }

    /// No two variants share a name.
    pub proof fn lemma_names_differ(a: Self, b: Self)
        requires
            a.name() == b.name(),
        ensures
            a == b,
    {
        reveal_strlit("Private");
        reveal_strlit("Lan");
        reveal_strlit("Friends");
        reveal_strlit("FriendsOfFriends");
        reveal_strlit("RegisteredUsers");
        reveal_strlit("Anyone");
        assert("Private"@.len() == 7);
        assert("Lan"@.len() == 3);
        assert("Friends"@.len() == 7);
        assert("FriendsOfFriends"@.len() == 16);
        assert("RegisteredUsers"@.len() == 15);
        assert("Anyone"@.len() == 6);
        assert("Private"@[0] != "Friends"@[0]);
    }

    /// The number of the variant, as the API writes it.
    pub open spec fn repr(self) -> u8 {
        match self {
            SessionAccessLevel::Private => 0,
            SessionAccessLevel::Lan => 1,
            SessionAccessLevel::Friends => 2,
            SessionAccessLevel::FriendsOfFriends => 3,
            SessionAccessLevel::RegisteredUsers => 4,
            SessionAccessLevel::Anyone => 5,
        }
    }

    /// The number of the variant, as the API writes it.
    #[must_use]
    pub fn to_repr(&self) -> (r: u8)
        ensures
            r == self.repr(),
    {
        match self {
            SessionAccessLevel::Private => 0,
            SessionAccessLevel::Lan => 1,
            SessionAccessLevel::Friends => 2,
            SessionAccessLevel::FriendsOfFriends => 3,
            SessionAccessLevel::RegisteredUsers => 4,
            SessionAccessLevel::Anyone => 5,
        }
    }

    /// The variant that a number stands for.
    #[must_use]
    pub fn from_repr(number: u8) -> (r: Option<Self>)
        ensures
            match r {
                Some(variant) => variant.repr() == number,
                None => forall|variant: Self| variant.repr() != number,
            },
    {
        if number == 0 {
            Some(SessionAccessLevel::Private)
        } else if number == 1 {
            Some(SessionAccessLevel::Lan)
        } else if number == 2 {
            Some(SessionAccessLevel::Friends)
        } else if number == 3 {
            Some(SessionAccessLevel::FriendsOfFriends)
        } else if number == 4 {
            Some(SessionAccessLevel::RegisteredUsers)
        } else if number == 5 {
            Some(SessionAccessLevel::Anyone)
        } else {
            None
        }
    }

    /// The variant that an unsigned number stands for: none where the
    /// number does not fit in eight bits.
    #[must_use]
    pub fn from_u64(number: u64) -> (r: Option<Self>)
        ensures
            match r {
                Some(variant) => variant.repr() == number,
                None => forall|variant: Self| variant.repr() != number,
            },
    {
        if number <= 255 {
            Self::from_repr(number as u8)
        } else {
            None
        }
    }

    /// The variant that a signed number stands for: none where the number
    /// does not fit in eight bits without a sign.
    #[must_use]
    pub fn from_i64(number: i64) -> (r: Option<Self>)
        ensures
            match r {
                Some(variant) => variant.repr() == number,
                None => forall|variant: Self| variant.repr() != number,
            },
    {
        if 0 <= number && number <= 255 {
            Self::from_repr(number as u8)
        } else {
            None
        }
    }
}

} // verus!
