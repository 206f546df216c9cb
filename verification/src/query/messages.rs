use super::{Authentication, RequestMethod, API_BASE_URI};
use crate::model::Message;
use crate::clock::WallTime;
use crate::text::{decimal_text, u64_to_decimal};
use vstd::prelude::*;
use vstd::string::*;

verus! {

/// Query the messages for a specific user
#[derive(Clone, PartialEq, Eq)]
pub struct Messages {
    /// Max amount of messages to retrieve,
    /// most likely capped server side to a smaller value
    pub max_amount: u16,
    /// If to fetch only unread messages
    pub unread_only: bool,
    /// If to only query messages that were sent after a certain time
    pub from_time: Option<WallTime>,
    /// If to only query messages with a certain user
    pub with_user: Option<crate::id::User>,
}

impl Default for Messages {
    /// A query for up to a hundred messages, read or not, of any time and
    /// with anyone.
    fn default() -> (r: Self)
        ensures
            r.max_amount == 100,
            !r.unread_only,
            r.from_time is None,
            r.with_user is None,
    {
        Messages { max_amount: 100, unread_only: false, from_time: None, with_user: None }
    }
}

impl Messages {
    /// The address of the messages of the authenticated user, with the
    /// largest amount to get and then, as far as the query asks for them,
    /// the restriction to unread messages, the earliest time as it is
    /// written, and the other user.
    pub open spec fn url_with_of(&self, auth: &Authentication, from_time: Option<Seq<char>>) -> Seq<
        char,
    > {
        let base = API_BASE_URI@ + "/users/"@ + auth.user_id@ + "/messages?maxItems="@
            + decimal_text(self.max_amount as nat);
        let unread = if self.unread_only {
            base + "&unread=true"@
        } else {
            base
        };
        let timed = match from_time {
            Some(text) => unread + "&fromTime="@ + text,
            None => unread,
        };
        match self.with_user {
            Some(with_user) => timed + "&user="@ + with_user@,
            None => timed,
        }
    }

    /// Writes the address for an earliest time that is written already;
    /// the earliest time of the query itself is left aside.
    pub fn url_with(&self, auth: &Authentication, from_time: Option<&str>) -> (r: String)
        ensures
            r@ == self.url_with_of(
                auth,
                match from_time {
                    Some(text) => Some(text@),
                    None => None,
                },
            ),
    {
        let mut query = String::from_str(API_BASE_URI);
        query.append("/users/");
        query.append(auth.user_id.as_ref());
        query.append("/messages?maxItems=");
        query.append(u64_to_decimal(self.max_amount as u64).as_str());
        if self.unread_only {
            query.append("&unread=true");
        }
        match from_time {
            Some(text) => {
                query.append("&fromTime=");
                query.append(text);
            },
            None => {},
        }
        match &self.with_user {
            Some(with_user) => {
                query.append("&user=");
                query.append(with_user.as_ref());
            },
            None => {},
        }
        query
    }

    /// The address of the query. The earliest time is written as the time
    /// crate writes it; there is no address where it cannot be written.
    pub open spec fn url_of(&self, auth: &Authentication) -> Option<Seq<char>> {
        match self.from_time {
            Some(at) => match at.offset_text() {
                Some(text) => Some(self.url_with_of(auth, Some(text))),
                None => None,
            },
            None => Some(self.url_with_of(auth, None)),
        }
    }

    pub fn url(&self, auth: &Authentication) -> (r: Option<String>)
        ensures
            match r {
                Some(url) => self.url_of(auth) == Some(url@),
                None => self.url_of(auth) is None,
            },
    {
        match &self.from_time {
            Some(at) => match at.to_offset_text() {
                Some(text) => Some(self.url_with(auth, Some(text.as_str()))),
                None => None,
            },
            None => Some(self.url_with(auth, None)),
        }
    }
}

/// Send a message
impl Message {
    /// The address of the messages of the recipient.
    pub fn url(&self, _state: &Authentication) -> (r: String)
        ensures
            r@ == API_BASE_URI@ + "/users/"@ + self.recipient_id@ + "/messages"@,
    {
        let mut r = String::from_str(API_BASE_URI);
        r.append("/users/");
        r.append(self.recipient_id.as_ref());
        r.append("/messages");
        r
    }

    pub fn method(&self, _state: &Authentication) -> (r: RequestMethod)
        ensures
            r == RequestMethod::Post,
    {
        RequestMethod::Post
    }
}

} // verus!
