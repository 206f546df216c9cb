use super::{NoAuthentication, API_BASE_URI};
use crate::text::bool_text;
use vstd::prelude::*;
use vstd::std_specs::convert::FromSpecImpl;
use vstd::string::*;

verus! {

/// An user's ID or their username
///
/// Used in [`UserInfo`].
#[derive(Clone, PartialEq, Eq)]
pub enum UserIdOrUsername {
    /// An user's ID
    Id(crate::id::User),
    /// An user's username
    Username(String),
}

impl View for UserIdOrUsername {
    type V = Seq<char>;

    /// The ID or the name, as a text.
    open spec fn view(&self) -> Seq<char> {
        match self {
            UserIdOrUsername::Id(v) => v@,
            UserIdOrUsername::Username(v) => v@,
        }
    }
}

impl UserIdOrUsername {
    /// If it's an ID
    #[must_use]
    pub fn is_id(&self) -> (r: bool)
        ensures
            r == (self is Id),
    {
        matches!(self, UserIdOrUsername::Id(_))
    }

    /// If it's an username
    #[must_use]
    pub fn is_username(&self) -> (r: bool)
        ensures
            r == (self is Username),
    {
        matches!(self, UserIdOrUsername::Username(_))
    }
}

impl AsRef<str> for UserIdOrUsername {
    fn as_ref(&self) -> (r: &str)
        ensures
            r@ == self@,
    {
        match self {
            UserIdOrUsername::Id(v) => v.as_ref(),
            UserIdOrUsername::Username(v) => v.as_str(),
        }
    }
}

/// For easier scripting, should use String otherwise.
impl From<&'static str> for UserIdOrUsername {
    fn from(v: &'static str) -> (r: UserIdOrUsername)
        ensures
            r is Username,
            r@ == v@,
    {
        UserIdOrUsername::Username(String::from_str(v))
    }
}

impl FromSpecImpl<&'static str> for UserIdOrUsername {
    open spec fn obeys_from_spec() -> bool {
        false
    }

    open spec fn from_spec(v: &'static str) -> UserIdOrUsername {
        UserIdOrUsername::Username(choose|name: String| name@ == v@)
    }
}

impl From<String> for UserIdOrUsername {
    fn from(v: String) -> (r: UserIdOrUsername)
        ensures
            r == UserIdOrUsername::Username(v),
    {
        UserIdOrUsername::Username(v)
    }
}

impl FromSpecImpl<String> for UserIdOrUsername {
    open spec fn obeys_from_spec() -> bool {
        true
    }

    open spec fn from_spec(v: String) -> UserIdOrUsername {
        UserIdOrUsername::Username(v)
    }
}

impl From<crate::id::User> for UserIdOrUsername {
    fn from(v: crate::id::User) -> (r: UserIdOrUsername)
        ensures
            r == UserIdOrUsername::Id(v),
    {
        UserIdOrUsername::Id(v)
    }
}

impl FromSpecImpl<crate::id::User> for UserIdOrUsername {
    open spec fn obeys_from_spec() -> bool {
        true
    }

    open spec fn from_spec(v: crate::id::User) -> UserIdOrUsername {
        UserIdOrUsername::Id(v)
    }
}

/// Gets details of an user by either username or ID
#[derive(Clone, PartialEq, Eq)]
pub struct UserInfo {
    /// The ID or username to query information about
    pub user: UserIdOrUsername,
}

impl UserInfo {
    /// Creates a new user info query based on the username or ID
    pub fn new(user: impl Into<UserIdOrUsername>) -> (r: Self)
        ensures
            call_ensures(Into::<UserIdOrUsername>::into, (user,), r.user),
    {
        UserInfo { user: user.into() }
    }

    /// The address of the user, with the note whether the user is given by name.
    pub fn url(&self, _state: &NoAuthentication) -> (r: String)
        ensures
            r@ == API_BASE_URI@ + "/users/"@ + self.user@ + "?byUsername="@ + (if self.user is Id {
                "false"@
            } else {
                "true"@
            }),
    {
        let mut r = String::from_str(API_BASE_URI);
        r.append("/users/");
        r.append(self.user.as_ref());
        r.append("?byUsername=");
        r.append(bool_text(!self.user.is_id()));
        r
    }
}

/// Gets the status of an user
#[derive(Clone, PartialEq, Eq)]
pub struct UserStatus {
    /// The ID of the user whose status the query is for
    pub user_id: crate::id::User,
}

impl UserStatus {
    /// Creates a new user status query
    pub fn new(user_id: impl Into<crate::id::User>) -> (r: Self)
        ensures
            call_ensures(Into::<crate::id::User>::into, (user_id,), r.user_id),
    {
        UserStatus { user_id: user_id.into() }
    }

    pub fn url(&self, _state: &NoAuthentication) -> (r: String)
        ensures
            r@ == API_BASE_URI@ + "/users/"@ + self.user_id@ + "/status"@,
    {
        let mut r = String::from_str(API_BASE_URI);
        r.append("/users/");
        r.append(self.user_id.as_ref());
        r.append("/status");
        r
    }
}

/// Searches users by name
#[derive(Clone, PartialEq, Eq)]
pub struct UserSearch {
    /// The name to search for
    pub name: String,
}

impl UserSearch {
    /// Creates a new user search query
    pub fn new(name: impl Into<String>) -> (r: Self)
        ensures
            call_ensures(Into::<String>::into, (name,), r.name),
    {
        UserSearch { name: name.into() }
    }

    pub fn url(&self, _state: &NoAuthentication) -> (r: String)
        ensures
            r@ == API_BASE_URI@ + "/users?name="@ + self.name@,
    {
        let mut r = String::from_str(API_BASE_URI);
        r.append("/users?name=");
        r.append(self.name.as_str());
        r
    }
}

} // verus!
