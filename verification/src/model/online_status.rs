use crate::text::str_eq;
use vstd::prelude::*;
use vstd::string::*;

verus! {

/// The online status of a Neos user.
#[derive(Debug, Clone, PartialEq, Eq, Hash, Structural)]
pub enum OnlineStatus {
    /// The user is online
    Online,
    /// The user is invisible
    Invisible,
    /// The user is away
    Away,
    /// The user is busy offline
    Busy,
    /// The user is offline
    Offline,
}

impl OnlineStatus {
    /// The name of the variant, as the API writes it.
    pub open spec fn name(self) -> Seq<char> {
        match self {
            OnlineStatus::Online => "Online"@,
            OnlineStatus::Invisible => "Invisible"@,
            OnlineStatus::Away => "Away"@,
            OnlineStatus::Busy => "Busy"@,
            OnlineStatus::Offline => "Offline"@,
        }
    }

    /// The name of the variant, as the API writes it.
    #[must_use]
    pub fn as_str(&self) -> (r: &'static str)
        ensures
            r@ == self.name(),
    {
        match self {
            OnlineStatus::Online => "Online",
            OnlineStatus::Invisible => "Invisible",
            OnlineStatus::Away => "Away",
            OnlineStatus::Busy => "Busy",
            OnlineStatus::Offline => "Offline",
        }
    }

    /// The name of the variant, as a string of its own.
    #[must_use]
    pub fn to_string(&self) -> (r: String)
        ensures
            r@ == self.name(),
    {
        String::from_str(self.as_str())
    }

    /// The variant that a name stands for. The name has to match to the
    /// letter.
    #[must_use]
    pub fn from_name(name: &str) -> (r: Option<Self>)
        ensures
            match r {
                Some(variant) => variant.name() == name@,
                None => forall|variant: Self| variant.name() != name@,
            },
    {
        if str_eq(name, "Online") {
            Some(OnlineStatus::Online)
        } else if str_eq(name, "Invisible") {
            Some(OnlineStatus::Invisible)
        } else if str_eq(name, "Away") {
            Some(OnlineStatus::Away)
        } else if str_eq(name, "Busy") {
            Some(OnlineStatus::Busy)
        } else if str_eq(name, "Offline") {
            Some(OnlineStatus::Offline)
        } else {
            None
        }
    }

    /// No two variants share a name.
    pub proof fn lemma_names_differ(a: Self, b: Self)
        requires
            a.name() == b.name(),
        ensures
            a == b,
    {
        reveal_strlit("Online");
        reveal_strlit("Invisible");
        reveal_strlit("Away");
        reveal_strlit("Busy");
        reveal_strlit("Offline");
        assert("Online"@.len() == 6);
        assert("Invisible"@.len() == 9);
        assert("Away"@.len() == 4);
        assert("Busy"@.len() == 4);
        assert("Offline"@.len() == 7);
        assert("Away"@[0] != "Busy"@[0]);
    }

    /// (R,G,B) colors that are estimated from the game's UI
    #[must_use]
    pub fn color(&self) -> (r: (u8, u8, u8))
        ensures
            r == (match self {
                OnlineStatus::Online => (0u8, 255u8, 0u8),
                OnlineStatus::Away => (255u8, 200u8, 0u8),
                OnlineStatus::Busy => (255u8, 0u8, 0u8),
                OnlineStatus::Offline => (127u8, 127u8, 127u8),
                OnlineStatus::Invisible => (127u8, 127u8, 127u8),
            }),
    {
        match self {
            OnlineStatus::Online => (0, 255, 0),
            OnlineStatus::Away => (255, 200, 0),
            OnlineStatus::Busy => (255, 0, 0),
            OnlineStatus::Offline | OnlineStatus::Invisible => (127, 127, 127),
        }
    }
}

} // verus!
