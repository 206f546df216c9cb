use super::{Authentication, RequestMethod, API_BASE_URI};
use crate::clock::WallTime;
use crate::json::{member_pairs, object_text, write_object, Json, JsonView, Member};
use vstd::prelude::*;
use vstd::string::*;

verus! {

/// Get the friends for a specific user
#[derive(Clone, PartialEq, Eq)]
pub struct Friends {
    /// Possibly limit to friends only with newer status updates
    pub last_status_update: Option<WallTime>,
}

impl Default for Friends {
    /// A query for all friends.
    fn default() -> (r: Self)
        ensures
            r.last_status_update is None,
    {
        Friends { last_status_update: None }
    }
}

impl Friends {
    /// The address of the friends of the authenticated user, with the time
    /// of the last status update, as it is written, behind it where there
    /// is one.
    pub open spec fn url_with_of(auth: &Authentication, last_status_update: Option<Seq<char>>) -> Seq<
        char,
    > {
        let base = API_BASE_URI@ + "/users/"@ + auth.user_id@ + "/friends"@;
        match last_status_update {
            Some(text) => base + "?lastStatusUpdate="@ + text,
            None => base,
        }
    }

    /// Writes the address for a time that is written already.
    pub fn url_with(auth: &Authentication, last_status_update: Option<&str>) -> (r: String)
        ensures
            r@ == Self::url_with_of(
                auth,
                match last_status_update {
                    Some(text) => Some(text@),
                    None => None,
                },
            ),
    {
        let mut query = String::from_str(API_BASE_URI);
        query.append("/users/");
        query.append(auth.user_id.as_ref());
        query.append("/friends");
        match last_status_update {
            Some(text) => {
                query.append("?lastStatusUpdate=");
                query.append(text);
            },
            None => {},
        }
        query
    }

    /// The address of the query. The time of the last status update is
    /// written as the time crate writes it; there is no address where it
    /// cannot be written.
    pub open spec fn url_of(&self, auth: &Authentication) -> Option<Seq<char>> {
        match self.last_status_update {
            Some(at) => match at.offset_text() {
                Some(text) => Some(Self::url_with_of(auth, Some(text))),
                None => None,
            },
            None => Some(Self::url_with_of(auth, None)),
        }
    }

    pub fn url(&self, auth: &Authentication) -> (r: Option<String>)
        ensures
            match r {
                Some(url) => self.url_of(auth) == Some(url@),
                None => self.url_of(auth) is None,
            },
    {
        match &self.last_status_update {
            Some(at) => match at.to_offset_text() {
                Some(text) => Some(Self::url_with(auth, Some(text.as_str()))),
                None => None,
            },
            None => Some(Self::url_with(auth, None)),
        }
    }
}

/// Removes a friend
pub struct RemoveFriend {
    /// The user's ID that's being removed
    pub to: crate::id::User,
}

impl RemoveFriend {
    /// Creates a new friend removal query based on the ID
    pub fn new(to: impl Into<crate::id::User>) -> (r: Self)
        ensures
            call_ensures(Into::<crate::id::User>::into, (to,), r.to),
    {
        RemoveFriend { to: to.into() }
    }

    pub fn url(&self, auth: &Authentication) -> (r: String)
        ensures
            r@ == API_BASE_URI@ + "/users/"@ + auth.user_id@ + "/friends/"@ + self.to@,
    {
        let mut r = String::from_str(API_BASE_URI);
        r.append("/users/");
        r.append(auth.user_id.as_ref());
        r.append("/friends/");
        r.append(self.to.as_ref());
        r
    }

    /// The members of the body: the friendship is set to ignored, for the
    /// authenticated user as the owner.
    pub open spec fn body_members(auth: &Authentication) -> Seq<(Seq<char>, JsonView)> {
        seq![
            ("friendStatus"@, JsonView::Text("Ignored"@)),
            ("ownerId"@, JsonView::Text(auth.user_id@)),
        ]
    }

    /// The body: a partial friend. Fails, with the reason, exactly where
    /// the texts cannot be written as JSON.
    pub fn body(&self, auth: &Authentication) -> (r: Option<Result<String, String>>)
        ensures
            match r {
                Some(Ok(text)) => object_text(Self::body_members(auth)) == Some(text@),
                Some(Err(_)) => object_text(Self::body_members(auth)) is None,
                None => false,
            },
    {
        let mut members: Vec<Member> = Vec::new();
        members.push(Member::new("friendStatus", Json::Text(String::from_str("Ignored"))));
        members.push(Member::new("ownerId", Json::Text(String::from_str(auth.user_id.as_ref()))));
        assert(member_pairs(members@) =~= Self::body_members(auth));
        Some(write_object(&members))
    }

    pub fn method(&self, _state: &Authentication) -> (r: RequestMethod)
        ensures
            r == RequestMethod::Delete,
    {
        RequestMethod::Delete
    }
}

} // verus!
